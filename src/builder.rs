use vstd::prelude::*;

use crate::config::{ConfigFromController, Icon, ProfilerSettings, UserScript};
use crate::controller::{ConnectionState, Controller, Listeners};
use crate::messages::{Position, Size};
use crate::protocol::CustomProtocol;

verus! {

/// Fluent builder of a [`ConfigFromController`]; each option's last setting wins.
#[derive(Clone, Debug)]
pub struct VersoBuilder(pub ConfigFromController);

impl VersoBuilder {
    /// A builder holding the default configuration.
    pub fn new() -> (r: Self)
        ensures
            r.0.is_default(),
    {
        VersoBuilder(ConfigFromController::default())
    }

    /// Sets whether the control panel is shown.
    pub fn with_panel(self, with_panel: bool) -> (r: Self)
        ensures
            r.0 == (ConfigFromController { with_panel, ..self.0 }),
    {
        let mut b = self;
        b.0.with_panel = with_panel;
        b
    }

    /// Sets the initial window size.
    pub fn inner_size(self, size: Size) -> (r: Self)
        ensures
            r.0 == (ConfigFromController { inner_size: Some(size), ..self.0 }),
    {
        let mut b = self;
        b.0.inner_size = Some(size);
        b
    }

    /// Sets the initial window position.
    pub fn position(self, position: Position) -> (r: Self)
        ensures
            r.0 == (ConfigFromController { position: Some(position), ..self.0 }),
    {
        let mut b = self;
        b.0.position = Some(position);
        b
    }

    /// Sets whether the window starts maximized.
    pub fn maximized(self, maximized: bool) -> (r: Self)
        ensures
            r.0 == (ConfigFromController { maximized, ..self.0 }),
    {
        let mut b = self;
        b.0.maximized = maximized;
        b
    }

    /// Sets whether the window starts visible.
    pub fn visible(self, visible: bool) -> (r: Self)
        ensures
            r.0 == (ConfigFromController { visible, ..self.0 }),
    {
        let mut b = self;
        b.0.visible = visible;
        b
    }

    /// Sets whether the window starts in fullscreen.
    pub fn fullscreen(self, fullscreen: bool) -> (r: Self)
        ensures
            r.0 == (ConfigFromController { fullscreen, ..self.0 }),
    {
        let mut b = self;
        b.0.fullscreen = fullscreen;
        b
    }

    /// Sets whether the window starts focused.
    pub fn focused(self, focused: bool) -> (r: Self)
        ensures
            r.0 == (ConfigFromController { focused, ..self.0 }),
    {
        let mut b = self;
        b.0.focused = focused;
        b
    }

    /// Sets whether the window starts decorated.
    pub fn decorated(self, decorated: bool) -> (r: Self)
        ensures
            r.0 == (ConfigFromController { decorated, ..self.0 }),
    {
        let mut b = self;
        b.0.decorated = decorated;
        b
    }

    /// Sets whether the window starts transparent.
    pub fn transparent(self, transparent: bool) -> (r: Self)
        ensures
            r.0 == (ConfigFromController { transparent, ..self.0 }),
    {
        let mut b = self;
        b.0.transparent = transparent;
        b
    }

    /// Sets the initial window title.
    pub fn title(self, title: String) -> (r: Self)
        ensures
            r.0 == (ConfigFromController { title: Some(title), ..self.0 }),
    {
        let mut b = self;
        b.0.title = Some(title);
        b
    }

    /// Sets the window icon.
    pub fn icon(self, icon: Icon) -> (r: Self)
        ensures
            r.0 == (ConfigFromController { icon: Some(icon), ..self.0 }),
    {
        let mut b = self;
        b.0.icon = Some(icon);
        b
    }

    /// Port of a remote devtools server; 0 picks a random port.
    pub fn devtools_port(self, port: u16) -> (r: Self)
        ensures
            r.0 == (ConfigFromController { devtools_port: Some(port), ..self.0 }),
    {
        let mut b = self;
        b.0.devtools_port = Some(port);
        b
    }

    /// Sets the profiler settings.
    pub fn profiler_settings(self, settings: ProfilerSettings) -> (r: Self)
        ensures
            r.0 == (ConfigFromController { profiler_settings: Some(settings), ..self.0 }),
    {
        let mut b = self;
        b.0.profiler_settings = Some(settings);
        b
    }

    /// Overrides the user agent.
    pub fn user_agent(self, user_agent: String) -> (r: Self)
        ensures
            r.0 == (ConfigFromController { user_agent: Some(user_agent), ..self.0 }),
    {
        let mut b = self;
        b.0.user_agent = Some(user_agent);
        b
    }

    /// Adds a user script, after those already added.
    pub fn user_script(self, script: UserScript) -> (r: Self)
        ensures
            r.0 == (ConfigFromController { user_scripts: r.0.user_scripts, ..self.0 }),
            r.0.user_scripts@ == self.0.user_scripts@.push(script),
    {
        let mut b = self;
        b.0.user_scripts.push(script);
        b
    }

    /// Adds several user scripts, in order, after those already added.
    pub fn user_scripts(self, scripts: Vec<UserScript>) -> (r: Self)
        ensures
            r.0 == (ConfigFromController { user_scripts: r.0.user_scripts, ..self.0 }),
            r.0.user_scripts@ == self.0.user_scripts@ + scripts@,
    {
        let mut b = self;
        let mut more = scripts;
        b.0.user_scripts.append(&mut more);
        b
    }

    /// Sets the initial zoom level (IEEE-754 `f32` bit pattern).
    pub fn zoom_level(self, zoom_bits: u32) -> (r: Self)
        ensures
            r.0 == (ConfigFromController { zoom_level: Some(zoom_bits), ..self.0 }),
    {
        let mut b = self;
        b.0.zoom_level = Some(zoom_bits);
        b
    }

    /// Sets the resource directory path.
    pub fn resources_directory(self, path: String) -> (r: Self)
        ensures
            r.0 == (ConfigFromController { resources_directory: Some(path), ..self.0 }),
    {
        let mut b = self;
        b.0.resources_directory = Some(path);
        b
    }

    /// Registers a custom protocol, after those already registered.
    pub fn custom_protocol(self, custom_protocol: CustomProtocol) -> (r: Self)
        ensures
            r.0 == (ConfigFromController { custom_protocols: r.0.custom_protocols, ..self.0 }),
            r.0.custom_protocols@ == self.0.custom_protocols@.push(custom_protocol),
    {
        let mut b = self;
        b.0.custom_protocols.push(custom_protocol);
        b
    }

    /// Registers several custom protocols, in order, after those already registered.
    pub fn custom_protocols(self, custom_protocols: Vec<CustomProtocol>) -> (r: Self)
        ensures
            r.0 == (ConfigFromController { custom_protocols: r.0.custom_protocols, ..self.0 }),
            r.0.custom_protocols@ == self.0.custom_protocols@ + custom_protocols@,
    {
        let mut b = self;
        let mut more = custom_protocols;
        b.0.custom_protocols.append(&mut more);
        b
    }

    /// A controller, not yet spawned, whose configuration loads `initial_url` first.
    pub fn build(self, initial_url: String) -> (r: Controller)
        ensures
            r.wf(),
            r.spec_state() == ConnectionState::Uninitialized,
            r.spec_config() == Some(ConfigFromController { url: Some(initial_url), ..self.0 }),
            r.spec_pending().len() == 0,
            r.spec_listeners() == (Listeners { navigation: None, web_resource: None, close: None }),
    {
        let mut config = self.0;
        config.url = Some(initial_url);
        Controller::new(config)
    }
}

} // verus!

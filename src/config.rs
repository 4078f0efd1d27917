use vstd::prelude::*;

use crate::messages::{Position, Size};
use crate::protocol::CustomProtocol;

verus! {

/// Window icon as raw RGBA pixels.
#[derive(Clone, Debug, PartialEq, Eq)]
pub struct Icon {
    /// RGBA bytes of the icon.
    pub rgba: Vec<u8>,
    pub width: u32,
    pub height: u32,
}

/// A script to run when a document starts loading.
#[derive(Clone, Debug, PartialEq, Eq)]
pub struct UserScript {
    pub script: String,
    /// The file the script was read from, if any.
    pub source_file: Option<String>,
}

impl From<String> for UserScript {
    fn from(script: String) -> (r: UserScript)
        ensures
            r.script == script,
            r.source_file.is_none(),
    {
        UserScript { script, source_file: None }
    }
}

impl vstd::std_specs::convert::FromSpecImpl<String> for UserScript {
    open spec fn obeys_from_spec() -> bool {
        true
    }

    open spec fn from_spec(script: String) -> UserScript {
        UserScript { script, source_file: None }
    }
}

/// Where the time profiler writes its output.
#[derive(Clone, Debug, PartialEq, Eq)]
pub enum OutputOptions {
    FileName(String),
    /// Print to standard output every so many seconds (IEEE-754 `f64` bit pattern).
    Stdout(u64),
}

/// Time profiler settings.
#[derive(Clone, Debug, PartialEq, Eq)]
pub struct ProfilerSettings {
    pub output_options: OutputOptions,
    /// Optional path of an HTML file that shows the traces as a timeline.
    pub trace_path: Option<String>,
}

/// Configuration of an engine instance, sent once after the handshake.
#[derive(Clone, Debug, PartialEq, Eq)]
pub struct ConfigFromController {
    /// URL to load initially.
    pub url: Option<String>,
    /// Launch with or without the control panel.
    pub with_panel: bool,
    pub inner_size: Option<Size>,
    pub position: Option<Position>,
    pub maximized: bool,
    pub visible: bool,
    pub fullscreen: bool,
    pub focused: bool,
    pub decorated: bool,
    pub transparent: bool,
    /// Title of the initial window.
    pub title: Option<String>,
    pub icon: Option<Icon>,
    /// Port of a remote devtools server; 0 picks a random port.
    pub devtools_port: Option<u16>,
    pub profiler_settings: Option<ProfilerSettings>,
    /// Override of the user agent.
    pub user_agent: Option<String>,
    /// Scripts to run when a document starts to load, in order.
    pub user_scripts: Vec<UserScript>,
    /// Initial zoom level (IEEE-754 `f32` bit pattern).
    pub zoom_level: Option<u32>,
    /// Path of the resource directory; `None` lets the engine pick a default.
    pub resources_directory: Option<String>,
    pub custom_protocols: Vec<CustomProtocol>,
}

impl ConfigFromController {
    /// The configuration that no option has touched.
    pub open spec fn is_default(self) -> bool {
        &&& self.url.is_none()
        &&& !self.with_panel
        &&& self.inner_size.is_none()
        &&& self.position.is_none()
        &&& !self.maximized
        &&& self.visible
        &&& !self.fullscreen
        &&& self.focused
        &&& !self.decorated
        &&& self.transparent
        &&& self.title.is_none()
        &&& self.icon.is_none()
        &&& self.devtools_port.is_none()
        &&& self.profiler_settings.is_none()
        &&& self.user_agent.is_none()
        &&& self.user_scripts@.len() == 0
        &&& self.zoom_level.is_none()
        &&& self.resources_directory.is_none()
        &&& self.custom_protocols@.len() == 0
    }
}

impl Default for ConfigFromController {
    fn default() -> (r: Self)
        ensures
            r.is_default(),
    {
        ConfigFromController {
            url: None,
            with_panel: false,
            inner_size: None,
            position: None,
            maximized: false,
            visible: true,
            fullscreen: false,
            focused: true,
            decorated: false,
            transparent: true,
            title: None,
            icon: None,
            devtools_port: None,
            profiler_settings: None,
            user_agent: None,
            user_scripts: Vec::new(),
            zoom_level: None,
            resources_directory: None,
            custom_protocols: Vec::new(),
        }
    }
}

} // verus!

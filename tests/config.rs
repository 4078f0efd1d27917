use verso::builder::VersoBuilder;
use verso::controller::Dispatch;
use verso::messages::{ToControllerMessage, ToVersoMessage};
use verso::config::{ConfigFromController, OutputOptions, ProfilerSettings, UserScript};
use verso::protocol::{CustomProtocol, CustomProtocolBuilder};

#[test]
fn default_config() {
    let c = ConfigFromController::default();
    assert!(!c.with_panel);
    assert!(c.visible);
    assert!(c.focused);
    assert!(!c.decorated);
    assert!(c.transparent);
    assert!(!c.maximized);
    assert!(!c.fullscreen);
    assert_eq!(c.devtools_port, None);
    assert_eq!(c.zoom_level, None);
    assert!(c.custom_protocols.is_empty());
    assert!(c.user_scripts.is_empty());
    assert_eq!(c.url, None);
    assert_eq!(VersoBuilder::new().0, c);
}

#[test]
fn builder_last_write_wins() {
    let b = VersoBuilder::new()
        .with_panel(true)
        .maximized(true)
        .maximized(false)
        .visible(false)
        .fullscreen(true)
        .focused(false)
        .decorated(true)
        .transparent(false)
        .title("a".to_string())
        .title("b".to_string())
        .devtools_port(0)
        .user_agent("ua".to_string())
        .zoom_level(1.5f32.to_bits())
        .resources_directory("/res".to_string())
        .profiler_settings(ProfilerSettings { output_options: OutputOptions::Stdout(5.0f64.to_bits()), trace_path: None });
    let c = b.0;
    assert!(c.with_panel);
    assert!(!c.maximized);
    assert!(!c.visible);
    assert!(c.fullscreen);
    assert!(!c.focused);
    assert!(c.decorated);
    assert!(!c.transparent);
    assert_eq!(c.title, Some("b".to_string()));
    assert_eq!(c.devtools_port, Some(0));
    assert_eq!(c.user_agent, Some("ua".to_string()));
    assert_eq!(c.zoom_level, Some(1.5f32.to_bits()));
    assert_eq!(c.resources_directory, Some("/res".to_string()));
    assert!(c.profiler_settings.is_some());
}

#[test]
fn builder_appends_scripts_and_protocols() {
    let b = VersoBuilder::new()
        .user_script(UserScript::from("one".to_string()))
        .user_scripts(vec![UserScript::from("two".to_string()), UserScript::from("three".to_string())])
        .custom_protocol(CustomProtocol::from(CustomProtocolBuilder::new("custom-protocol-1")))
        .custom_protocols(vec![
            CustomProtocolBuilder::new("custom-protocol-2").into(),
            CustomProtocolBuilder::new("custom-protocol-3").set_secure(false).into(),
        ]);
    let scripts: Vec<String> = b.0.user_scripts.iter().map(|s| s.script.clone()).collect();
    assert_eq!(scripts, vec!["one", "two", "three"]);
    assert!(b.0.user_scripts[0].source_file.is_none());
    let schemes: Vec<String> = b.0.custom_protocols.iter().map(|p| p.scheme.clone()).collect();
    assert_eq!(schemes, vec!["custom-protocol-1", "custom-protocol-2", "custom-protocol-3"]);
    assert!(!b.0.custom_protocols[2].secure);
}

#[test]
fn custom_protocol_builder() {
    let p: CustomProtocol = CustomProtocolBuilder::new("app").into();
    assert_eq!(p, CustomProtocol { scheme: "app".to_string(), secure: true, fetchable: true });
    let q: CustomProtocol = CustomProtocolBuilder::new("app").set_fetchable(false).set_secure(false).into();
    assert_eq!(q, CustomProtocol { scheme: "app".to_string(), secure: false, fetchable: false });
}

#[test]
fn build_sets_initial_url() {
    let mut c = VersoBuilder::new().with_panel(true).build("https://example.com".to_string());
    assert_eq!(c.pending_count(), 0);
    c.begin_spawn().unwrap();
    c.spawn_finished(true).unwrap();
    match c.handle_message(ToControllerMessage::SetToVersoSender) {
        Ok(Dispatch::Send(ToVersoMessage::SetConfig(config))) => {
            assert_eq!(config.url, Some("https://example.com".to_string()));
            assert!(config.with_panel);
        }
        other => panic!("unexpected dispatch {:?}", other),
    }
}

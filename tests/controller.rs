use verso::builder::VersoBuilder;
use verso::controller::{
    ConnectionState, Controller, ControllerError, Dispatch, ExitRequest, HostEvent, NotificationKind, Step,
};
use verso::messages::{
    HttpResponse, PhysicalPosition, PhysicalSize, Position, Query, QueryKind, Reply, SizeType, Size,
    ToControllerMessage, ToVersoMessage, WebResourceRequest, PositionType,
};

fn connected() -> Controller {
    let mut c = VersoBuilder::new().build("https://example.com".to_string());
    c.begin_spawn().unwrap();
    c.spawn_finished(true).unwrap();
    match c.handle_message(ToControllerMessage::SetToVersoSender).unwrap() {
        Dispatch::Send(ToVersoMessage::SetConfig(config)) => {
            assert_eq!(config.url, Some("https://example.com".to_string()));
        }
        other => panic!("unexpected dispatch {:?}", other),
    }
    assert_eq!(c.state(), ConnectionState::Connected);
    c
}

#[test]
fn scenario_current_url() {
    let mut c = connected();
    let u1: u128 = 0x11;
    assert_eq!(c.begin_query(u1, Query::CurrentUrl), Ok(ToVersoMessage::GetCurrentUrl(u1)));
    assert!(c.is_pending(u1));
    let d = c
        .handle_message(ToControllerMessage::GetCurrentUrlResponse(u1, "https://example.com".to_string()))
        .unwrap();
    assert_eq!(d, Dispatch::Resolved(u1, Reply::CurrentUrl("https://example.com".to_string())));
    assert!(!c.is_pending(u1));
    assert_eq!(c.pending_count(), 0);
}

#[test]
fn scenario_close_prevented() {
    let mut c = connected();
    assert_eq!(
        c.register(NotificationKind::CloseRequested, 7),
        Ok(Some(ToVersoMessage::ListenToOnCloseRequested))
    );
    let d = c.handle_message(ToControllerMessage::OnCloseRequested).unwrap();
    assert_eq!(d, Dispatch::AskClose { callback: 7 });
    let mut request = ExitRequest::new();
    assert!(!request.is_exit_prevented());
    let callback = |r: &mut ExitRequest| r.prevent_exit();
    callback(&mut request);
    assert!(request.is_exit_prevented());
    assert_eq!(c.state(), ConnectionState::Connected);
}

#[test]
fn scenario_reversed_responses() {
    let mut c = connected();
    let a: u128 = 0xA;
    let b: u128 = 0xB;
    assert_eq!(c.begin_query(a, Query::Size(SizeType::Inner)), Ok(ToVersoMessage::GetSize(a, SizeType::Inner)));
    assert_eq!(c.begin_query(b, Query::Maximized), Ok(ToVersoMessage::GetMaximized(b)));
    let db = c.handle_message(ToControllerMessage::GetMaximizedResponse(b, true)).unwrap();
    assert_eq!(db, Dispatch::Resolved(b, Reply::Maximized(true)));
    assert!(c.is_pending(a));
    let size = PhysicalSize { width: 800, height: 600 };
    let da = c.handle_message(ToControllerMessage::GetSizeResponse(a, size)).unwrap();
    assert_eq!(da, Dispatch::Resolved(a, Reply::Size(size)));
    assert_eq!(c.pending_count(), 0);
}

#[test]
fn scenario_engine_killed() {
    let mut c = connected();
    let id: u128 = 0x5CA1E;
    assert_eq!(c.begin_query(id, Query::ScaleFactor), Ok(ToVersoMessage::GetScaleFactor(id)));
    let failed = c.connection_lost();
    assert_eq!(failed, vec![(id, ControllerError::ConnectionLost)]);
    assert_eq!(c.state(), ConnectionState::Terminated);
    assert_eq!(c.pending_count(), 0);
    let late = c.handle_message(ToControllerMessage::GetScaleFactorResponse(id, 2.0f64.to_bits()));
    assert_eq!(late, Ok(Dispatch::Ignored));
    assert_eq!(c.state(), ConnectionState::Terminated);
    assert_eq!(c.reload(), Err(ControllerError::ConnectionLost));
}

#[test]
fn loss_fails_every_pending_query_once() {
    let mut c = connected();
    c.begin_query(1, Query::Visible).unwrap();
    c.begin_query(2, Query::Position(PositionType::Outer)).unwrap();
    c.begin_query(3, Query::Fullscreen).unwrap();
    let lost = ControllerError::ConnectionLost;
    assert_eq!(c.connection_lost(), vec![(1, lost), (2, lost), (3, lost)]);
    assert_eq!(c.connection_lost(), Vec::<(u128, ControllerError)>::new());
}

#[test]
fn stale_response_is_ignored() {
    let mut c = connected();
    c.begin_query(1, Query::Minimized).unwrap();
    let d = c.handle_message(ToControllerMessage::GetMinimizedResponse(99, true)).unwrap();
    assert_eq!(d, Dispatch::Ignored);
    assert!(c.is_pending(1));
    assert_eq!(c.pending_count(), 1);
    let again = c.handle_message(ToControllerMessage::GetMinimizedResponse(1, false)).unwrap();
    assert_eq!(again, Dispatch::Resolved(1, Reply::Minimized(false)));
    let dup = c.handle_message(ToControllerMessage::GetMinimizedResponse(1, false)).unwrap();
    assert_eq!(dup, Dispatch::Ignored);
}

#[test]
fn response_of_wrong_kind_leaves_query_pending() {
    let mut c = connected();
    c.begin_query(4, Query::Visible).unwrap();
    let d = c.handle_message(ToControllerMessage::GetFullscreenResponse(4, true)).unwrap();
    assert_eq!(d, Dispatch::Ignored);
    assert!(c.is_pending(4));
}

#[test]
fn position_response_resolves() {
    let mut c = connected();
    c.begin_query(5, Query::Position(PositionType::Inner)).unwrap();
    let p = Some(PhysicalPosition { x: -3, y: 4 });
    let d = c.handle_message(ToControllerMessage::GetPositionResponse(5, p)).unwrap();
    assert_eq!(d, Dispatch::Resolved(5, Reply::Position(p)));
}

#[test]
fn duplicate_request_id_is_refused() {
    let mut c = connected();
    c.begin_query(8, Query::Visible).unwrap();
    assert_eq!(c.begin_query(8, Query::Maximized), Err(ControllerError::DuplicateRequestId));
    assert_eq!(c.pending_count(), 1);
}

#[test]
fn fresh_queries_get_distinct_ids() {
    let mut c = connected();
    let (a, ma) = c.query(Query::Size(SizeType::Outer)).unwrap();
    let (b, mb) = c.query(Query::CurrentUrl).unwrap();
    assert_ne!(a, b);
    assert_eq!(ma, ToVersoMessage::GetSize(a, SizeType::Outer));
    assert_eq!(mb, ToVersoMessage::GetCurrentUrl(b));
    assert_eq!(ma.query_id(), Some(a));
    assert_eq!(c.pending_count(), 2);
}

#[test]
fn second_callback_replaces_first() {
    let mut c = connected();
    assert_eq!(
        c.register(NotificationKind::NavigationStarting, 1),
        Ok(Some(ToVersoMessage::ListenToOnNavigationStarting))
    );
    assert_eq!(c.register(NotificationKind::NavigationStarting, 2), Ok(None));
    let d = c
        .handle_message(ToControllerMessage::OnNavigationStarting(vec![9], "https://docs.rs".to_string()))
        .unwrap();
    assert_eq!(
        d,
        Dispatch::AskNavigation { callback: 2, pipeline_id: vec![9], url: "https://docs.rs".to_string() }
    );
    assert_eq!(
        c.respond_navigation(vec![9], false),
        Ok(ToVersoMessage::OnNavigationStartingResponse(vec![9], false))
    );
}

#[test]
fn unwatched_navigation_is_allowed() {
    let mut c = connected();
    let d = c
        .handle_message(ToControllerMessage::OnNavigationStarting(vec![1, 2], "https://a.b".to_string()))
        .unwrap();
    assert_eq!(d, Dispatch::Send(ToVersoMessage::OnNavigationStartingResponse(vec![1, 2], true)));
}

fn sample_request(id: u128) -> WebResourceRequest {
    WebResourceRequest {
        id,
        method: "GET".to_string(),
        uri: "custom://x/".to_string(),
        headers: vec![],
        body: vec![],
    }
}

#[test]
fn web_resource_requests() {
    let mut c = connected();
    let d = c.handle_message(ToControllerMessage::OnWebResourceRequested(sample_request(3))).unwrap();
    match d {
        Dispatch::Send(ToVersoMessage::WebResourceRequestResponse(r)) => {
            assert_eq!(r.id, 3);
            assert!(r.response.is_none());
        }
        other => panic!("unexpected dispatch {:?}", other),
    }
    assert_eq!(
        c.register(NotificationKind::WebResourceRequested, 5),
        Ok(Some(ToVersoMessage::ListenToWebResourceRequests))
    );
    let d = c.handle_message(ToControllerMessage::OnWebResourceRequested(sample_request(4))).unwrap();
    assert_eq!(d, Dispatch::AskWebResource { callback: 5, request: sample_request(4) });
    let resp = HttpResponse { status: 200, headers: vec![], body: b"hi".to_vec() };
    match c.respond_web_resource(4, Some(resp.clone())).unwrap() {
        ToVersoMessage::WebResourceRequestResponse(r) => {
            assert_eq!(r.id, 4);
            assert_eq!(r.response, Some(resp));
        }
        other => panic!("unexpected command {:?}", other),
    }
}

#[test]
fn nothing_is_sent_before_handshake() {
    let mut c = VersoBuilder::new().build("https://example.com".to_string());
    assert_eq!(c.state(), ConnectionState::Uninitialized);
    assert_eq!(c.navigate("https://docs.rs"), Err(ControllerError::NotConnected));
    assert_eq!(c.begin_query(1, Query::Visible), Err(ControllerError::NotConnected));
    assert_eq!(c.register(NotificationKind::CloseRequested, 1), Err(ControllerError::NotConnected));
    c.begin_spawn().unwrap();
    assert_eq!(c.state(), ConnectionState::Spawning);
    c.spawn_finished(true).unwrap();
    assert_eq!(c.state(), ConnectionState::AwaitingHandshake);
    assert_eq!(
        c.handle_message(ToControllerMessage::OnCloseRequested),
        Err(ControllerError::NotConnected)
    );
    assert!(matches!(
        c.handle_message(ToControllerMessage::SetToVersoSender),
        Ok(Dispatch::Send(ToVersoMessage::SetConfig(_)))
    ));
    assert_eq!(c.handle_message(ToControllerMessage::SetToVersoSender), Ok(Dispatch::Ignored));
}

#[test]
fn spawn_failure() {
    let mut c = VersoBuilder::new().build("https://example.com".to_string());
    assert_eq!(c.spawn_finished(true), Err(ControllerError::NotConnected));
    c.begin_spawn().unwrap();
    assert_eq!(c.begin_spawn(), Err(ControllerError::NotConnected));
    assert_eq!(c.spawn_finished(false), Err(ControllerError::SpawnError));
    assert_eq!(c.state(), ConnectionState::Terminated);
    assert_eq!(c.focus(), Err(ControllerError::ConnectionLost));
}

#[test]
fn fire_and_forget_commands() {
    let c = connected();
    assert_eq!(c.navigate("https://docs.rs"), Ok(ToVersoMessage::NavigateTo("https://docs.rs/".to_string())));
    assert_eq!(c.execute_script("1+1".to_string()), Ok(ToVersoMessage::ExecuteScript("1+1".to_string())));
    assert_eq!(c.reload(), Ok(ToVersoMessage::Reload));
    let s = Size::Physical(PhysicalSize { width: 10, height: 20 });
    assert_eq!(c.set_size(s), Ok(ToVersoMessage::SetSize(s)));
    let p = Position::Physical(PhysicalPosition { x: 1, y: 2 });
    assert_eq!(c.set_position(p), Ok(ToVersoMessage::SetPosition(p)));
    assert_eq!(c.set_maximized(true), Ok(ToVersoMessage::SetMaximized(true)));
    assert_eq!(c.set_minimized(false), Ok(ToVersoMessage::SetMinimized(false)));
    assert_eq!(c.set_fullscreen(true), Ok(ToVersoMessage::SetFullscreen(true)));
    assert_eq!(c.set_visible(false), Ok(ToVersoMessage::SetVisible(false)));
    assert_eq!(c.start_dragging(), Ok(ToVersoMessage::StartDragging));
    assert_eq!(c.focus(), Ok(ToVersoMessage::Focus));
}

#[test]
fn exit_closes_session() {
    let mut c = connected();
    c.begin_query(6, Query::Visible).unwrap();
    assert_eq!(c.request_exit(), Ok(ToVersoMessage::Exit));
    assert_eq!(c.state(), ConnectionState::Closing);
    assert_eq!(c.request_exit(), Err(ControllerError::NotConnected));
    let late = c.handle_message(ToControllerMessage::GetVisibleResponse(6, true)).unwrap();
    assert_eq!(late, Dispatch::Resolved(6, Reply::Visible(true)));
    assert_eq!(c.handle_message(ToControllerMessage::GetVisibleResponse(6, true)), Ok(Dispatch::Ignored));
    c.begin_query(7, Query::Visible).unwrap_err();
    assert_eq!(c.connection_lost(), vec![]);
}

#[test]
fn query_kinds_match_replies() {
    assert_eq!(Query::Size(SizeType::Inner).kind(), QueryKind::Size);
    assert_eq!(Query::CurrentUrl.kind(), QueryKind::CurrentUrl);
    assert_eq!(Reply::ScaleFactor(0).kind(), QueryKind::ScaleFactor);
    assert_eq!(Reply::Position(None).kind(), QueryKind::Position);
    assert_eq!(ToVersoMessage::Reload.query_id(), None);
    assert_eq!(
        ToControllerMessage::GetVisibleResponse(3, true).into_response(),
        Some((3, Reply::Visible(true)))
    );
    assert_eq!(ToControllerMessage::OnCloseRequested.into_response(), None);
}

#[test]
fn pump_routes_events() {
    let mut c = VersoBuilder::new().build("https://example.com".to_string());
    c.begin_spawn().unwrap();
    c.spawn_finished(true).unwrap();
    assert_eq!(c.pump(HostEvent::Wake), Step::Redraw);
    assert!(matches!(
        c.pump(HostEvent::Message(ToControllerMessage::SetToVersoSender)),
        Step::Dispatch(Ok(Dispatch::Send(ToVersoMessage::SetConfig(_))))
    ));
    c.begin_query(12, Query::Visible).unwrap();
    c.begin_query(13, Query::Maximized).unwrap();
    assert_eq!(
        c.pump(HostEvent::Message(ToControllerMessage::GetVisibleResponse(12, true))),
        Step::Dispatch(Ok(Dispatch::Resolved(12, Reply::Visible(true))))
    );
    assert_eq!(c.pump(HostEvent::EngineExited), Step::Failed(vec![(13, ControllerError::ConnectionLost)]));
    assert_eq!(c.state(), ConnectionState::Terminated);
}

#[test]
fn named_queries_send_matching_commands() {
    let mut c = connected();
    let (a, ma) = c.get_size(SizeType::Inner).unwrap();
    assert_eq!(ma, ToVersoMessage::GetSize(a, SizeType::Inner));
    let (b, mb) = c.get_position(PositionType::Outer).unwrap();
    assert_eq!(mb, ToVersoMessage::GetPosition(b, PositionType::Outer));
    let (d, md) = c.get_maximized().unwrap();
    assert_eq!(md, ToVersoMessage::GetMaximized(d));
    let (e, me) = c.get_minimized().unwrap();
    assert_eq!(me, ToVersoMessage::GetMinimized(e));
    let (f, mf) = c.get_fullscreen().unwrap();
    assert_eq!(mf, ToVersoMessage::GetFullscreen(f));
    let (g, mg) = c.get_visible().unwrap();
    assert_eq!(mg, ToVersoMessage::GetVisible(g));
    let (h, mh) = c.get_scale_factor().unwrap();
    assert_eq!(mh, ToVersoMessage::GetScaleFactor(h));
    let (u, mu) = c.get_current_url().unwrap();
    assert_eq!(mu, ToVersoMessage::GetCurrentUrl(u));
    assert_eq!(c.pending_count(), 8);
    let resolved = c.handle_message(ToControllerMessage::GetScaleFactorResponse(h, 2.0f64.to_bits())).unwrap();
    assert_eq!(resolved, Dispatch::Resolved(h, Reply::ScaleFactor(2.0f64.to_bits())));
    assert_eq!(c.pending_count(), 7);
}

#[test]
fn named_queries_need_connection() {
    let mut c = VersoBuilder::new().build("https://example.com".to_string());
    assert_eq!(c.get_visible(), Err(ControllerError::NotConnected));
    assert_eq!(c.pending_count(), 0);
}

#[test]
fn query_on_fresh_connection_succeeds() {
    let mut c = connected();
    let (id, m) = c.get_size(SizeType::Inner).unwrap();
    assert_eq!(m, ToVersoMessage::GetSize(id, SizeType::Inner));
    assert!(c.is_pending(id));
    assert_eq!(c.pending_count(), 1);
}

#[test]
fn response_before_handshake_is_ignored() {
    let mut c = VersoBuilder::new().build("https://example.com".to_string());
    assert_eq!(c.handle_message(ToControllerMessage::GetVisibleResponse(1, true)), Ok(Dispatch::Ignored));
    assert_eq!(c.state(), ConnectionState::Uninitialized);
}

#[test]
fn responses_in_any_order_resolve_their_own_queries() {
    let mut c = connected();
    c.begin_query(1, Query::Visible).unwrap();
    c.begin_query(2, Query::Maximized).unwrap();
    c.begin_query(3, Query::CurrentUrl).unwrap();
    assert_eq!(
        c.handle_message(ToControllerMessage::GetCurrentUrlResponse(3, "u".to_string())),
        Ok(Dispatch::Resolved(3, Reply::CurrentUrl("u".to_string())))
    );
    assert_eq!(
        c.handle_message(ToControllerMessage::GetVisibleResponse(1, false)),
        Ok(Dispatch::Resolved(1, Reply::Visible(false)))
    );
    assert!(c.is_pending(2));
    assert_eq!(
        c.handle_message(ToControllerMessage::GetMaximizedResponse(2, true)),
        Ok(Dispatch::Resolved(2, Reply::Maximized(true)))
    );
    assert_eq!(c.pending_count(), 0);
}

#[test]
fn navigate_parses_urls() {
    let c = connected();
    assert_eq!(
        c.navigate("HTTPS://Example.COM/a/../b"),
        Ok(ToVersoMessage::NavigateTo("https://example.com/b".to_string()))
    );
    assert_eq!(c.navigate("not a url"), Err(ControllerError::InvalidUrl));
    assert_eq!(c.navigate_parsed(None), Err(ControllerError::InvalidUrl));
    assert_eq!(
        c.navigate_parsed(Some("https://a.b/".to_string())),
        Ok(ToVersoMessage::NavigateTo("https://a.b/".to_string()))
    );
    let fresh = VersoBuilder::new().build("https://example.com".to_string());
    assert_eq!(fresh.navigate("not a url"), Err(ControllerError::NotConnected));
}

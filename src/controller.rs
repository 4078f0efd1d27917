use vstd::prelude::*;

use crate::address::{parse_url, parsed_url};
use crate::config::ConfigFromController;
use crate::messages::{
    HttpResponse, Position, PositionType, Query, QueryKind, Reply, RequestId, SerializedPipelineId, Size, SizeType,
    ToControllerMessage, ToVersoMessage, WebResourceRequest, WebResourceRequestResponse,
};
use crate::ids::fresh_request_id;
use crate::pending::{
    after_response, find_kind, ids_of, kind_of, lemma_push_ids, lemma_without_ids, remove_id,
    PendingRequest,
};

verus! {

/// Where a controller stands in its session with the engine.
#[derive(Clone, Copy, Debug, PartialEq, Eq, Structural)]
pub enum ConnectionState {
    Uninitialized,
    Spawning,
    AwaitingHandshake,
    Connected,
    Closing,
    Terminated,
}

/// What a controller operation can fail with.
#[derive(Clone, Copy, Debug, PartialEq, Eq, Structural)]
pub enum ControllerError {
    /// The engine executable could not be started.
    SpawnError,
    /// The handshake has not completed, or the session is closing.
    NotConnected,
    /// The engine process exited or its channel broke.
    ConnectionLost,
    /// A message could not be encoded or decoded.
    SerializationError,
    /// A fresh identifier equals one that is still outstanding.
    DuplicateRequestId,
    /// A navigation target is not an absolute URL.
    InvalidUrl,
}

/// The notifications a host can register one callback for.
#[derive(Clone, Copy, Debug, PartialEq, Eq, Structural)]
pub enum NotificationKind {
    NavigationStarting,
    WebResourceRequested,
    CloseRequested,
}

/// The single active callback of each notification kind, by the host's token.
#[derive(Clone, Copy, Debug, PartialEq, Eq, Structural)]
pub struct Listeners {
    pub navigation: Option<u64>,
    pub web_resource: Option<u64>,
    pub close: Option<u64>,
}

impl Listeners {
    pub open spec fn slot(self, kind: NotificationKind) -> Option<u64> {
        match kind {
            NotificationKind::NavigationStarting => self.navigation,
            NotificationKind::WebResourceRequested => self.web_resource,
            NotificationKind::CloseRequested => self.close,
        }
    }

    pub open spec fn with_slot(self, kind: NotificationKind, token: u64) -> Listeners {
        match kind {
            NotificationKind::NavigationStarting => Listeners { navigation: Some(token), ..self },
            NotificationKind::WebResourceRequested => Listeners { web_resource: Some(token), ..self },
            NotificationKind::CloseRequested => Listeners { close: Some(token), ..self },
        }
    }
}

/// The registration command for a notification kind.
pub open spec fn listen_command(kind: NotificationKind) -> ToVersoMessage {
    match kind {
        NotificationKind::NavigationStarting => ToVersoMessage::ListenToOnNavigationStarting,
        NotificationKind::WebResourceRequested => ToVersoMessage::ListenToWebResourceRequests,
        NotificationKind::CloseRequested => ToVersoMessage::ListenToOnCloseRequested,
    }
}

/// Each outstanding query paired with the error it fails with when the session is lost.
pub open spec fn lost_outcomes(s: Seq<PendingRequest>) -> Seq<(RequestId, ControllerError)> {
    s.map_values(|p: PendingRequest| (p.id, ControllerError::ConnectionLost))
}

/// The error for an operation that needs a live connection, in state `s`.
pub open spec fn not_ready_error(s: ConnectionState) -> ControllerError {
    if s == ConnectionState::Terminated {
        ControllerError::ConnectionLost
    } else {
        ControllerError::NotConnected
    }
}

/// What the host does with a notification from the engine.
#[derive(Clone, Debug, PartialEq, Eq)]
pub enum Dispatch {
    /// Put this command on the wire.
    Send(ToVersoMessage),
    /// The pending query `id` resolves to this value.
    Resolved(RequestId, Reply),
    /// Ask navigation callback `callback`, then answer with `respond_navigation`.
    AskNavigation { callback: u64, pipeline_id: SerializedPipelineId, url: String },
    /// Ask web resource callback `callback`, then answer with `respond_web_resource`.
    AskWebResource { callback: u64, request: WebResourceRequest },
    /// Run close callback `callback` with a fresh [`ExitRequest`].
    AskClose { callback: u64 },
    /// Nothing to do: a stale response or an unwatched notification.
    Ignored,
}

/// Handed to the close callback; its one operation keeps the window open.
#[derive(Debug)]
pub struct ExitRequest {
    prevented: bool,
}

impl ExitRequest {
    pub closed spec fn spec_prevented(&self) -> bool {
        self.prevented
    }

    pub fn new() -> (r: ExitRequest)
        ensures
            !r.spec_prevented(),
    {
        ExitRequest { prevented: false }
    }

    /// Keep the window open.
    pub fn prevent_exit(&mut self)
        ensures
            final(self).spec_prevented(),
    {
        self.prevented = true;
    }

    /// Whether the callback asked to keep the window open.
    pub fn is_exit_prevented(&self) -> (r: bool)
        ensures
            r == self.spec_prevented(),
    {
        self.prevented
    }
}

/// Host-side controller of one engine session: the connection state, the
/// configuration still to send, the outstanding queries and the callback slots.
pub struct Controller {
    state: ConnectionState,
    config: Option<ConfigFromController>,
    pending: Vec<PendingRequest>,
    listeners: Listeners,
}

impl Controller {
    pub closed spec fn spec_state(&self) -> ConnectionState {
        self.state
    }

    /// The configuration, until the handshake sends it.
    pub closed spec fn spec_config(&self) -> Option<ConfigFromController> {
        self.config
    }

    /// The outstanding queries, oldest first.
    pub closed spec fn spec_pending(&self) -> Seq<PendingRequest> {
        self.pending@
    }

    pub closed spec fn spec_listeners(&self) -> Listeners {
        self.listeners
    }

    /// Before the handshake the configuration is held; outstanding identifiers are distinct.
    pub open spec fn wf(&self) -> bool {
        &&& ids_of(self.spec_pending()).no_duplicates()
        &&& (self.spec_state() == ConnectionState::Uninitialized
            || self.spec_state() == ConnectionState::Spawning
            || self.spec_state() == ConnectionState::AwaitingHandshake) ==> self.spec_config().is_some()
        &&& (self.spec_state() != ConnectionState::Connected
            && self.spec_state() != ConnectionState::Closing) ==> self.spec_pending().len() == 0
    }

    /// Everything but the connection state and the configuration stays.
    pub open spec fn same_tables(&self, other: &Controller) -> bool {
        &&& self.spec_pending() == other.spec_pending()
        &&& self.spec_listeners() == other.spec_listeners()
    }

    /// A controller for a session that has not started, holding `config`.
    pub fn new(config: ConfigFromController) -> (r: Controller)
        ensures
            r.wf(),
            r.spec_state() == ConnectionState::Uninitialized,
            r.spec_config() == Some(config),
            r.spec_pending().len() == 0,
            r.spec_listeners() == (Listeners { navigation: None, web_resource: None, close: None }),
    {
        Controller {
            state: ConnectionState::Uninitialized,
            config: Some(config),
            pending: Vec::new(),
            listeners: Listeners { navigation: None, web_resource: None, close: None },
        }
    }

    /// The connection state.
    pub fn state(&self) -> (r: ConnectionState)
        ensures
            r == self.spec_state(),
    {
        self.state
    }

    /// Whether query `id` is outstanding.
    pub fn is_pending(&self, id: RequestId) -> (r: bool)
        ensures
            r == kind_of(self.spec_pending(), id).is_some(),
    {
        find_kind(&self.pending, id).is_some()
    }

    /// The number of outstanding queries.
    pub fn pending_count(&self) -> (r: usize)
        ensures
            r == self.spec_pending().len(),
    {
        self.pending.len()
    }
}

/// What the host does with a notification other than the handshake, while connected.
pub open spec fn notification_dispatch(l: Listeners, msg: ToControllerMessage) -> Dispatch {
    match msg {
        ToControllerMessage::OnNavigationStarting(p, u) => match l.navigation {
            Some(t) => Dispatch::AskNavigation { callback: t, pipeline_id: p, url: u },
            None => Dispatch::Send(ToVersoMessage::OnNavigationStartingResponse(p, true)),
        },
        ToControllerMessage::OnWebResourceRequested(req) => match l.web_resource {
            Some(t) => Dispatch::AskWebResource { callback: t, request: req },
            None => Dispatch::Send(
                ToVersoMessage::WebResourceRequestResponse(
                    WebResourceRequestResponse { id: req.id, response: None },
                ),
            ),
        },
        ToControllerMessage::OnCloseRequested => match l.close {
            Some(t) => Dispatch::AskClose { callback: t },
            None => Dispatch::Ignored,
        },
        _ => Dispatch::Ignored,
    }
}

/// What a response for `id` carrying `v` resolves, against the table `s`.
pub open spec fn response_dispatch(s: Seq<PendingRequest>, id: RequestId, v: Reply) -> Dispatch {
    if kind_of(s, id) == Some(v.reply_kind()) {
        Dispatch::Resolved(id, v)
    } else {
        Dispatch::Ignored
    }
}

/// What taking in `msg` does: `old` is the controller before, `new` after, `r` the outcome.
///
/// The handshake notification sends the configuration, once; responses resolve
/// the outstanding query with their identifier, in any state, and are dropped
/// silently when none matches (as after the session ended, when none is left);
/// the other notifications go to the registered callback, or get the default answer.
pub open spec fn handled(
    old: Controller,
    new: Controller,
    msg: ToControllerMessage,
    r: Result<Dispatch, ControllerError>,
) -> bool {
    &&& new.wf()
    &&& msg is SetToVersoSender ==> {
        if old.spec_state() == ConnectionState::AwaitingHandshake {
            &&& r == Ok::<_, ControllerError>(
                Dispatch::Send(ToVersoMessage::SetConfig(old.spec_config().unwrap())),
            )
            &&& new.spec_state() == ConnectionState::Connected
            &&& new.spec_config().is_none()
            &&& new.same_tables(&old)
        } else if old.spec_state() == ConnectionState::Connected {
            r == Ok::<_, ControllerError>(Dispatch::Ignored) && new == old
        } else {
            r == Err::<Dispatch, _>(not_ready_error(old.spec_state())) && new == old
        }
    }
    &&& msg.spec_response() matches Some((id, v)) ==> {
        &&& new.spec_state() == old.spec_state()
        &&& new.spec_config() == old.spec_config()
        &&& new.spec_listeners() == old.spec_listeners()
        &&& new.spec_pending() == after_response(old.spec_pending(), id, v.reply_kind())
        &&& r == Ok::<_, ControllerError>(response_dispatch(old.spec_pending(), id, v))
    }
    &&& !(msg is SetToVersoSender) && msg.spec_response() is None && old.spec_state()
        != ConnectionState::Connected ==> {
        r == Err::<Dispatch, _>(not_ready_error(old.spec_state())) && new == old
    }
    &&& !(msg is SetToVersoSender) && msg.spec_response() is None && old.spec_state()
        == ConnectionState::Connected ==> {
        &&& new == old
        &&& r == Ok::<_, ControllerError>(notification_dispatch(old.spec_listeners(), msg))
    }
}

/// What asking query `q` under a fresh identifier does: `old` is the controller
/// before, `new` after, `r` the outcome. Only a connected controller asks; it
/// fails only if the fresh identifier is already outstanding, which cannot
/// happen while no query is.
pub open spec fn queried(
    old: Controller,
    new: Controller,
    q: Query,
    r: Result<(RequestId, ToVersoMessage), ControllerError>,
) -> bool {
    &&& new.wf()
    &&& new.spec_state() == old.spec_state()
    &&& new.spec_config() == old.spec_config()
    &&& new.spec_listeners() == old.spec_listeners()
    &&& old.spec_state() != ConnectionState::Connected ==> r == Err::<(RequestId, ToVersoMessage), _>(
        not_ready_error(old.spec_state()),
    )
    &&& old.spec_state() == ConnectionState::Connected ==> r is Ok || r == Err::<
        (RequestId, ToVersoMessage),
        _,
    >(ControllerError::DuplicateRequestId)
    &&& old.spec_state() == ConnectionState::Connected && old.spec_pending().len() == 0 ==> r is Ok
    &&& r == Err::<(RequestId, ToVersoMessage), _>(ControllerError::DuplicateRequestId)
        ==> old.spec_pending().len() > 0
    &&& r is Err ==> new.spec_pending() == old.spec_pending()
    &&& r matches Ok((id, m)) ==> {
        &&& m == q.command_for(id)
        &&& kind_of(old.spec_pending(), id).is_none()
        &&& new.spec_pending() == old.spec_pending().push(PendingRequest { id, kind: q.query_kind() })
    }
}

impl Controller {
    /// A command, if the connection is up.
    pub open spec fn command_result(&self, m: ToVersoMessage) -> Result<ToVersoMessage, ControllerError> {
        if self.spec_state() == ConnectionState::Connected {
            Ok(m)
        } else {
            Err(not_ready_error(self.spec_state()))
        }
    }

    fn command(&self, m: ToVersoMessage) -> (r: Result<ToVersoMessage, ControllerError>)
        ensures
            r == self.command_result(m),
    {
        match self.state {
            ConnectionState::Connected => Ok(m),
            ConnectionState::Terminated => Err(ControllerError::ConnectionLost),
            _ => Err(ControllerError::NotConnected),
        }
    }

    fn not_ready(&self) -> (e: ControllerError)
        ensures
            e == not_ready_error(self.spec_state()),
    {
        match self.state {
            ConnectionState::Terminated => ControllerError::ConnectionLost,
            _ => ControllerError::NotConnected,
        }
    }

    /// Marks the engine process as being launched.
    pub fn begin_spawn(&mut self) -> (r: Result<(), ControllerError>)
        requires
            old(self).wf(),
        ensures
            final(self).wf(),
            final(self).same_tables(old(self)),
            final(self).spec_config() == old(self).spec_config(),
            old(self).spec_state() == ConnectionState::Uninitialized ==> r is Ok
                && final(self).spec_state() == ConnectionState::Spawning,
            old(self).spec_state() != ConnectionState::Uninitialized ==> r == Err::<(), _>(
                not_ready_error(old(self).spec_state()),
            ) && final(self).spec_state() == old(self).spec_state(),
    {
        if self.state == ConnectionState::Uninitialized {
            self.state = ConnectionState::Spawning;
            Ok(())
        } else {
            Err(self.not_ready())
        }
    }

    /// Records whether the engine process started; then the controller awaits the handshake.
    pub fn spawn_finished(&mut self, started: bool) -> (r: Result<(), ControllerError>)
        requires
            old(self).wf(),
        ensures
            final(self).wf(),
            final(self).same_tables(old(self)),
            final(self).spec_config() == old(self).spec_config(),
            old(self).spec_state() == ConnectionState::Spawning && started ==> r is Ok
                && final(self).spec_state() == ConnectionState::AwaitingHandshake,
            old(self).spec_state() == ConnectionState::Spawning && !started ==> r == Err::<(), _>(
                ControllerError::SpawnError,
            ) && final(self).spec_state() == ConnectionState::Terminated,
            old(self).spec_state() != ConnectionState::Spawning ==> r == Err::<(), _>(
                not_ready_error(old(self).spec_state()),
            ) && final(self).spec_state() == old(self).spec_state(),
    {
        if self.state == ConnectionState::Spawning {
            if started {
                self.state = ConnectionState::AwaitingHandshake;
                Ok(())
            } else {
                self.state = ConnectionState::Terminated;
                Err(ControllerError::SpawnError)
            }
        } else {
            Err(self.not_ready())
        }
    }

    /// Pops the entry for `id` if `v` answers it; otherwise the table stays.
    fn resolve(&mut self, id: RequestId, v: Reply) -> (r: Dispatch)
        requires
            old(self).wf(),
        ensures
            final(self).wf(),
            final(self).spec_state() == old(self).spec_state(),
            final(self).spec_config() == old(self).spec_config(),
            final(self).spec_listeners() == old(self).spec_listeners(),
            final(self).spec_pending() == after_response(old(self).spec_pending(), id, v.reply_kind()),
            r == response_dispatch(old(self).spec_pending(), id, v),
    {
        let k = find_kind(&self.pending, id);
        let vk = v.kind();
        match k {
            Some(kk) => {
                if kk == vk {
                    let rest = remove_id(&self.pending, id);
                    proof {
                        lemma_without_ids(self.pending@, id);
                    }
                    self.pending = rest;
                    Dispatch::Resolved(id, v)
                } else {
                    Dispatch::Ignored
                }
            },
            None => Dispatch::Ignored,
        }
    }

    /// Takes in one notification from the engine and says what the host does next.
    pub fn handle_message(&mut self, msg: ToControllerMessage) -> (r: Result<Dispatch, ControllerError>)
        requires
            old(self).wf(),
        ensures
            handled(*old(self), *final(self), msg, r),
    {
        match msg {
            ToControllerMessage::SetToVersoSender => {
                if self.state == ConnectionState::AwaitingHandshake {
                    let config = self.config.take().unwrap();
                    self.state = ConnectionState::Connected;
                    Ok(Dispatch::Send(ToVersoMessage::SetConfig(config)))
                } else if self.state == ConnectionState::Connected {
                    Ok(Dispatch::Ignored)
                } else {
                    Err(self.not_ready())
                }
            },
            other => {
                if other.is_response() {
                    return match other.into_response() {
                        Some((id, v)) => Ok(self.resolve(id, v)),
                        None => Ok(Dispatch::Ignored),
                    };
                }
                if self.state != ConnectionState::Connected {
                    return Err(self.not_ready());
                }
                match other {
                    ToControllerMessage::OnNavigationStarting(p, u) => match self.listeners.navigation {
                        Some(t) => Ok(Dispatch::AskNavigation { callback: t, pipeline_id: p, url: u }),
                        None => Ok(Dispatch::Send(ToVersoMessage::OnNavigationStartingResponse(p, true))),
                    },
                    ToControllerMessage::OnWebResourceRequested(req) => match self.listeners.web_resource {
                        Some(t) => Ok(Dispatch::AskWebResource { callback: t, request: req }),
                        None => {
                            let id = req.id;
                            Ok(
                                Dispatch::Send(
                                    ToVersoMessage::WebResourceRequestResponse(
                                        WebResourceRequestResponse { id, response: None },
                                    ),
                                ),
                            )
                        },
                    },
                    ToControllerMessage::OnCloseRequested => match self.listeners.close {
                        Some(t) => Ok(Dispatch::AskClose { callback: t }),
                        None => Ok(Dispatch::Ignored),
                    },
                    _ => Ok(Dispatch::Ignored),
                }
            },
        }
    }
}

impl Controller {
    /// Registers query `q` under identifier `id` and gives the command that asks it.
    pub fn begin_query(&mut self, id: RequestId, q: Query) -> (r: Result<ToVersoMessage, ControllerError>)
        requires
            old(self).wf(),
        ensures
            final(self).wf(),
            final(self).spec_state() == old(self).spec_state(),
            final(self).spec_config() == old(self).spec_config(),
            final(self).spec_listeners() == old(self).spec_listeners(),
            old(self).spec_state() != ConnectionState::Connected ==> r == Err::<ToVersoMessage, _>(
                not_ready_error(old(self).spec_state()),
            ) && final(self).spec_pending() == old(self).spec_pending(),
            old(self).spec_state() == ConnectionState::Connected && kind_of(old(self).spec_pending(), id).is_some()
                ==> r == Err::<ToVersoMessage, _>(ControllerError::DuplicateRequestId)
                && final(self).spec_pending() == old(self).spec_pending(),
            old(self).spec_state() == ConnectionState::Connected && kind_of(old(self).spec_pending(), id).is_none()
                ==> r == Ok::<_, ControllerError>(q.command_for(id))
                && final(self).spec_pending() == old(self).spec_pending().push(
                PendingRequest { id, kind: q.query_kind() },
            ),
    {
        if self.state != ConnectionState::Connected {
            return Err(self.not_ready());
        }
        if find_kind(&self.pending, id).is_some() {
            return Err(ControllerError::DuplicateRequestId);
        }
        let p = PendingRequest { id, kind: q.kind() };
        proof {
            lemma_push_ids(self.pending@, p);
        }
        self.pending.push(p);
        Ok(q.command(id))
    }

    /// Registers query `q` under a fresh random identifier and gives that
    /// identifier and the command that asks it.
    pub fn query(&mut self, q: Query) -> (r: Result<(RequestId, ToVersoMessage), ControllerError>)
        requires
            old(self).wf(),
        ensures
            queried(*old(self), *final(self), q, r),
    {
        let id = fresh_request_id();
        match self.begin_query(id, q) {
            Ok(m) => Ok((id, m)),
            Err(e) => Err(e),
        }
    }

    /// Asks for the inner or outer window size.
    pub fn get_size(&mut self, size_type: SizeType) -> (r: Result<(RequestId, ToVersoMessage), ControllerError>)
        requires
            old(self).wf(),
        ensures
            queried(*old(self), *final(self), Query::Size(size_type), r),
    {
        self.query(Query::Size(size_type))
    }

    /// Asks for the inner or outer window position.
    pub fn get_position(&mut self, position_type: PositionType) -> (r: Result<(RequestId, ToVersoMessage), ControllerError>)
        requires
            old(self).wf(),
        ensures
            queried(*old(self), *final(self), Query::Position(position_type), r),
    {
        self.query(Query::Position(position_type))
    }

    /// Asks whether the window is maximized.
    pub fn get_maximized(&mut self) -> (r: Result<(RequestId, ToVersoMessage), ControllerError>)
        requires
            old(self).wf(),
        ensures
            queried(*old(self), *final(self), Query::Maximized, r),
    {
        self.query(Query::Maximized)
    }

    /// Asks whether the window is minimized.
    pub fn get_minimized(&mut self) -> (r: Result<(RequestId, ToVersoMessage), ControllerError>)
        requires
            old(self).wf(),
        ensures
            queried(*old(self), *final(self), Query::Minimized, r),
    {
        self.query(Query::Minimized)
    }

    /// Asks whether the window is fullscreen.
    pub fn get_fullscreen(&mut self) -> (r: Result<(RequestId, ToVersoMessage), ControllerError>)
        requires
            old(self).wf(),
        ensures
            queried(*old(self), *final(self), Query::Fullscreen, r),
    {
        self.query(Query::Fullscreen)
    }

    /// Asks whether the window is visible.
    pub fn get_visible(&mut self) -> (r: Result<(RequestId, ToVersoMessage), ControllerError>)
        requires
            old(self).wf(),
        ensures
            queried(*old(self), *final(self), Query::Visible, r),
    {
        self.query(Query::Visible)
    }

    /// Asks for the window's scale factor.
    pub fn get_scale_factor(&mut self) -> (r: Result<(RequestId, ToVersoMessage), ControllerError>)
        requires
            old(self).wf(),
        ensures
            queried(*old(self), *final(self), Query::ScaleFactor, r),
    {
        self.query(Query::ScaleFactor)
    }

    /// Asks for the webview's current URL.
    pub fn get_current_url(&mut self) -> (r: Result<(RequestId, ToVersoMessage), ControllerError>)
        requires
            old(self).wf(),
        ensures
            queried(*old(self), *final(self), Query::CurrentUrl, r),
    {
        self.query(Query::CurrentUrl)
    }

    /// Makes `token` the one callback for notifications of `kind`; gives the
    /// registration command the first time a callback of that kind is set.
    pub fn register(&mut self, kind: NotificationKind, token: u64) -> (r: Result<Option<ToVersoMessage>, ControllerError>)
        requires
            old(self).wf(),
        ensures
            final(self).wf(),
            final(self).spec_state() == old(self).spec_state(),
            final(self).spec_config() == old(self).spec_config(),
            final(self).spec_pending() == old(self).spec_pending(),
            old(self).spec_state() != ConnectionState::Connected ==> r == Err::<Option<ToVersoMessage>, _>(
                not_ready_error(old(self).spec_state()),
            ) && final(self).spec_listeners() == old(self).spec_listeners(),
            old(self).spec_state() == ConnectionState::Connected ==> {
                &&& final(self).spec_listeners() == old(self).spec_listeners().with_slot(kind, token)
                &&& r == Ok::<_, ControllerError>(
                    if old(self).spec_listeners().slot(kind).is_none() {
                        Some(listen_command(kind))
                    } else {
                        None
                    },
                )
            },
    {
        if self.state != ConnectionState::Connected {
            return Err(self.not_ready());
        }
        match kind {
            NotificationKind::NavigationStarting => {
                let first = self.listeners.navigation.is_none();
                self.listeners.navigation = Some(token);
                Ok(if first { Some(ToVersoMessage::ListenToOnNavigationStarting) } else { None })
            },
            NotificationKind::WebResourceRequested => {
                let first = self.listeners.web_resource.is_none();
                self.listeners.web_resource = Some(token);
                Ok(if first { Some(ToVersoMessage::ListenToWebResourceRequests) } else { None })
            },
            NotificationKind::CloseRequested => {
                let first = self.listeners.close.is_none();
                self.listeners.close = Some(token);
                Ok(if first { Some(ToVersoMessage::ListenToOnCloseRequested) } else { None })
            },
        }
    }

    /// The answer to a navigation-starting notification for `pipeline_id`.
    pub fn respond_navigation(&self, pipeline_id: SerializedPipelineId, allow: bool) -> (r: Result<ToVersoMessage, ControllerError>)
        ensures
            r == self.command_result(ToVersoMessage::OnNavigationStartingResponse(pipeline_id, allow)),
    {
        self.command(ToVersoMessage::OnNavigationStartingResponse(pipeline_id, allow))
    }

    /// The answer to web resource request `id`; `None` lets the engine fetch it itself.
    pub fn respond_web_resource(&self, id: RequestId, response: Option<HttpResponse>) -> (r: Result<ToVersoMessage, ControllerError>)
        ensures
            r == self.command_result(
                ToVersoMessage::WebResourceRequestResponse(WebResourceRequestResponse { id, response }),
            ),
    {
        self.command(ToVersoMessage::WebResourceRequestResponse(WebResourceRequestResponse { id, response }))
    }

    /// What navigating to the URL parsed as `parsed` gives: `None` stands for a
    /// text that is no absolute URL.
    pub open spec fn navigation_result(&self, parsed: Option<String>) -> Result<ToVersoMessage, ControllerError> {
        if self.spec_state() != ConnectionState::Connected {
            Err(not_ready_error(self.spec_state()))
        } else {
            match parsed {
                Some(u) => Ok(ToVersoMessage::NavigateTo(u)),
                None => Err(ControllerError::InvalidUrl),
            }
        }
    }

    /// Navigate to an already parsed URL; `None` stands for a text that did not parse.
    pub fn navigate_parsed(&self, parsed: Option<String>) -> (r: Result<ToVersoMessage, ControllerError>)
        ensures
            r == self.navigation_result(parsed),
    {
        if self.state != ConnectionState::Connected {
            return Err(self.not_ready());
        }
        match parsed {
            Some(u) => Ok(ToVersoMessage::NavigateTo(u)),
            None => Err(ControllerError::InvalidUrl),
        }
    }

    /// Navigate to the absolute URL written as `url`, in its parsed form.
    pub fn navigate(&self, url: &str) -> (r: Result<ToVersoMessage, ControllerError>)
        ensures
            self.spec_state() != ConnectionState::Connected ==> r == Err::<ToVersoMessage, _>(
                not_ready_error(self.spec_state()),
            ),
            self.spec_state() == ConnectionState::Connected && parsed_url(url@) is None ==> r == Err::<
                ToVersoMessage,
                _,
            >(ControllerError::InvalidUrl),
            self.spec_state() == ConnectionState::Connected && parsed_url(url@) is Some ==> (r matches Ok(
                ToVersoMessage::NavigateTo(u),
            ) && parsed_url(url@) == Some(u@)),
    {
        let parsed = parse_url(url);
        self.navigate_parsed(parsed)
    }

    /// Run JavaScript `code` in the webview.
    pub fn execute_script(&self, code: String) -> (r: Result<ToVersoMessage, ControllerError>)
        ensures
            r == self.command_result(ToVersoMessage::ExecuteScript(code)),
    {
        self.command(ToVersoMessage::ExecuteScript(code))
    }

    /// Reload the current page.
    pub fn reload(&self) -> (r: Result<ToVersoMessage, ControllerError>)
        ensures
            r == self.command_result(ToVersoMessage::Reload),
    {
        self.command(ToVersoMessage::Reload)
    }

    /// Resize the window.
    pub fn set_size(&self, size: Size) -> (r: Result<ToVersoMessage, ControllerError>)
        ensures
            r == self.command_result(ToVersoMessage::SetSize(size)),
    {
        self.command(ToVersoMessage::SetSize(size))
    }

    /// Move the window.
    pub fn set_position(&self, position: Position) -> (r: Result<ToVersoMessage, ControllerError>)
        ensures
            r == self.command_result(ToVersoMessage::SetPosition(position)),
    {
        self.command(ToVersoMessage::SetPosition(position))
    }

    /// Maximize or unmaximize the window.
    pub fn set_maximized(&self, maximized: bool) -> (r: Result<ToVersoMessage, ControllerError>)
        ensures
            r == self.command_result(ToVersoMessage::SetMaximized(maximized)),
    {
        self.command(ToVersoMessage::SetMaximized(maximized))
    }

    /// Minimize or unminimize the window.
    pub fn set_minimized(&self, minimized: bool) -> (r: Result<ToVersoMessage, ControllerError>)
        ensures
            r == self.command_result(ToVersoMessage::SetMinimized(minimized)),
    {
        self.command(ToVersoMessage::SetMinimized(minimized))
    }

    /// Enter or leave fullscreen.
    pub fn set_fullscreen(&self, fullscreen: bool) -> (r: Result<ToVersoMessage, ControllerError>)
        ensures
            r == self.command_result(ToVersoMessage::SetFullscreen(fullscreen)),
    {
        self.command(ToVersoMessage::SetFullscreen(fullscreen))
    }

    /// Show or hide the window.
    pub fn set_visible(&self, visible: bool) -> (r: Result<ToVersoMessage, ControllerError>)
        ensures
            r == self.command_result(ToVersoMessage::SetVisible(visible)),
    {
        self.command(ToVersoMessage::SetVisible(visible))
    }

    /// Move the window with the mouse until the button is released.
    pub fn start_dragging(&self) -> (r: Result<ToVersoMessage, ControllerError>)
        ensures
            r == self.command_result(ToVersoMessage::StartDragging),
    {
        self.command(ToVersoMessage::StartDragging)
    }

    /// Bring the window to the front with input focus.
    pub fn focus(&self) -> (r: Result<ToVersoMessage, ControllerError>)
        ensures
            r == self.command_result(ToVersoMessage::Focus),
    {
        self.command(ToVersoMessage::Focus)
    }

    /// Asks the engine to shut down; the session is closing afterwards.
    pub fn request_exit(&mut self) -> (r: Result<ToVersoMessage, ControllerError>)
        requires
            old(self).wf(),
        ensures
            final(self).wf(),
            final(self).same_tables(old(self)),
            final(self).spec_config() == old(self).spec_config(),
            r == old(self).command_result(ToVersoMessage::Exit),
            final(self).spec_state() == (if old(self).spec_state() == ConnectionState::Connected {
                ConnectionState::Closing
            } else {
                old(self).spec_state()
            }),
    {
        let r = self.command(ToVersoMessage::Exit);
        if self.state == ConnectionState::Connected {
            self.state = ConnectionState::Closing;
        }
        r
    }

    /// The engine process exited or its channel broke: the session ends, and
    /// every outstanding query fails with `ConnectionLost`, each once, oldest first.
    pub fn connection_lost(&mut self) -> (r: Vec<(RequestId, ControllerError)>)
        requires
            old(self).wf(),
        ensures
            final(self).wf(),
            r@ == lost_outcomes(old(self).spec_pending()),
            forall|i: int, j: int| 0 <= i < j < r@.len() ==> r@[i].0 != r@[j].0,
            final(self).spec_state() == ConnectionState::Terminated,
            final(self).spec_pending().len() == 0,
            final(self).spec_config() == old(self).spec_config(),
            final(self).spec_listeners() == old(self).spec_listeners(),
    {
        let mut r: Vec<(RequestId, ControllerError)> = Vec::new();
        let mut i: usize = 0;
        while i < self.pending.len()
            invariant
                i <= self.pending@.len(),
                r@ == lost_outcomes(self.pending@.subrange(0, i as int)),
            decreases self.pending@.len() - i,
        {
            r.push((self.pending[i].id, ControllerError::ConnectionLost));
            i = i + 1;
            assert(r@ =~= lost_outcomes(self.pending@.subrange(0, i as int)));
        }
        assert(self.pending@.subrange(0, self.pending@.len() as int) =~= self.pending@);
        assert forall|i: int, j: int| 0 <= i < j < r@.len() implies r@[i].0 != r@[j].0 by {
            assert(ids_of(self.pending@)[i] == r@[i].0);
            assert(ids_of(self.pending@)[j] == r@[j].0);
        }
        self.pending = Vec::new();
        self.state = ConnectionState::Terminated;
        r
    }
}

/// What reaches the host's event loop from outside.
#[derive(Clone, Debug, PartialEq, Eq)]
pub enum HostEvent {
    /// The engine asked for a redraw.
    Wake,
    /// A message arrived on the channel.
    Message(ToControllerMessage),
    /// The engine process exited, or the channel broke.
    EngineExited,
}

/// What the host's event loop does with a [`HostEvent`].
#[derive(Debug, PartialEq, Eq)]
pub enum Step {
    Redraw,
    Dispatch(Result<Dispatch, ControllerError>),
    /// The session ended; each outstanding query fails with the error beside it.
    Failed(Vec<(RequestId, ControllerError)>),
}

impl Controller {
    /// Takes one event of the host's event loop.
    pub fn pump(&mut self, event: HostEvent) -> (r: Step)
        requires
            old(self).wf(),
        ensures
            final(self).wf(),
            event is Wake ==> r == Step::Redraw && *final(self) == *old(self),
            event matches HostEvent::Message(m) ==> r matches Step::Dispatch(d) && handled(
                *old(self),
                *final(self),
                m,
                d,
            ),
            event is EngineExited ==> {
                &&& r matches Step::Failed(outcomes) && outcomes@ == lost_outcomes(old(self).spec_pending())
                &&& final(self).spec_state() == ConnectionState::Terminated
                &&& final(self).spec_pending().len() == 0
                &&& final(self).spec_config() == old(self).spec_config()
                &&& final(self).spec_listeners() == old(self).spec_listeners()
            },
    {
        match event {
            HostEvent::Wake => Step::Redraw,
            HostEvent::Message(m) => Step::Dispatch(self.handle_message(m)),
            HostEvent::EngineExited => Step::Failed(self.connection_lost()),
        }
    }
}

} // verus!

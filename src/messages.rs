use vstd::prelude::*;

use crate::config::ConfigFromController;

verus! {

/// Identifier that pairs a query command with its response.
pub type RequestId = u128;

/// Opaque engine pipeline identifier, carried through as bytes.
pub type SerializedPipelineId = Vec<u8>;

/// Which of the two window sizes a query asks for.
#[derive(Clone, Copy, Debug, PartialEq, Eq, Structural)]
pub enum SizeType {
    Inner,
    Outer,
}

/// Which of the two window positions a query asks for.
#[derive(Clone, Copy, Debug, PartialEq, Eq, Structural)]
pub enum PositionType {
    Inner,
    Outer,
}

/// A size in physical pixels.
#[derive(Clone, Copy, Debug, PartialEq, Eq, Structural)]
pub struct PhysicalSize {
    pub width: u32,
    pub height: u32,
}

/// A position in physical pixels.
#[derive(Clone, Copy, Debug, PartialEq, Eq, Structural)]
pub struct PhysicalPosition {
    pub x: i32,
    pub y: i32,
}

/// A window size, in physical pixels or in logical units.
///
/// Logical values are IEEE-754 `f64` bit patterns.
#[derive(Clone, Copy, Debug, PartialEq, Eq, Structural)]
pub enum Size {
    Physical(PhysicalSize),
    Logical { width_bits: u64, height_bits: u64 },
}

/// A window position, in physical pixels or in logical units.
///
/// Logical values are IEEE-754 `f64` bit patterns.
#[derive(Clone, Copy, Debug, PartialEq, Eq, Structural)]
pub enum Position {
    Physical(PhysicalPosition),
    Logical { x_bits: u64, y_bits: u64 },
}

/// An HTTP request that the engine asks the host about.
#[derive(Clone, Debug, PartialEq, Eq)]
pub struct WebResourceRequest {
    pub id: RequestId,
    pub method: String,
    pub uri: String,
    pub headers: Vec<(String, Vec<u8>)>,
    pub body: Vec<u8>,
}

/// An HTTP response that stands in for the engine's own fetch.
#[derive(Clone, Debug, PartialEq, Eq)]
pub struct HttpResponse {
    pub status: u16,
    pub headers: Vec<(String, Vec<u8>)>,
    pub body: Vec<u8>,
}

/// The host's answer to a [`WebResourceRequest`]; `None` lets the engine fetch it.
#[derive(Clone, Debug, PartialEq, Eq)]
pub struct WebResourceRequestResponse {
    pub id: RequestId,
    pub response: Option<HttpResponse>,
}

/// The kind of a state query, which fixes the kind of its response.
#[derive(Clone, Copy, Debug, PartialEq, Eq, Structural)]
pub enum QueryKind {
    Size,
    Position,
    Maximized,
    Minimized,
    Fullscreen,
    Visible,
    ScaleFactor,
    CurrentUrl,
}

/// A state query, with the discriminator the engine needs to answer it.
#[derive(Clone, Copy, Debug, PartialEq, Eq, Structural)]
pub enum Query {
    Size(SizeType),
    Position(PositionType),
    Maximized,
    Minimized,
    Fullscreen,
    Visible,
    ScaleFactor,
    CurrentUrl,
}

/// The value that answers a query.
#[derive(Clone, Debug, PartialEq, Eq)]
pub enum Reply {
    Size(PhysicalSize),
    Position(Option<PhysicalPosition>),
    Maximized(bool),
    Minimized(bool),
    Fullscreen(bool),
    Visible(bool),
    /// IEEE-754 `f64` bit pattern of the scale factor.
    ScaleFactor(u64),
    CurrentUrl(String),
}

/// Message sent from the controller to the engine.
#[derive(Clone, Debug, PartialEq, Eq)]
#[non_exhaustive]
pub enum ToVersoMessage {
    /// Initial configuration, the first command after the handshake.
    SetConfig(ConfigFromController),
    Exit,
    ListenToOnCloseRequested,
    NavigateTo(String),
    Reload,
    ListenToOnNavigationStarting,
    OnNavigationStartingResponse(SerializedPipelineId, bool),
    ExecuteScript(String),
    ListenToWebResourceRequests,
    WebResourceRequestResponse(WebResourceRequestResponse),
    SetSize(Size),
    SetPosition(Position),
    SetMaximized(bool),
    SetMinimized(bool),
    SetFullscreen(bool),
    SetVisible(bool),
    StartDragging,
    Focus,
    GetSize(RequestId, SizeType),
    GetPosition(RequestId, PositionType),
    GetMaximized(RequestId),
    GetMinimized(RequestId),
    GetFullscreen(RequestId),
    GetVisible(RequestId),
    GetScaleFactor(RequestId),
    GetCurrentUrl(RequestId),
}

/// Message sent from the engine to the controller.
#[derive(Clone, Debug, PartialEq, Eq)]
#[non_exhaustive]
pub enum ToControllerMessage {
    /// The engine's send handle is established; the first message of a session.
    SetToVersoSender,
    OnNavigationStarting(SerializedPipelineId, String),
    OnWebResourceRequested(WebResourceRequest),
    GetSizeResponse(RequestId, PhysicalSize),
    GetPositionResponse(RequestId, Option<PhysicalPosition>),
    GetMaximizedResponse(RequestId, bool),
    GetMinimizedResponse(RequestId, bool),
    GetFullscreenResponse(RequestId, bool),
    GetVisibleResponse(RequestId, bool),
    /// IEEE-754 `f64` bit pattern of the scale factor.
    GetScaleFactorResponse(RequestId, u64),
    GetCurrentUrlResponse(RequestId, String),
    OnCloseRequested,
}

impl Query {
    pub open spec fn query_kind(self) -> QueryKind {
        match self {
            Query::Size(_) => QueryKind::Size,
            Query::Position(_) => QueryKind::Position,
            Query::Maximized => QueryKind::Maximized,
            Query::Minimized => QueryKind::Minimized,
            Query::Fullscreen => QueryKind::Fullscreen,
            Query::Visible => QueryKind::Visible,
            Query::ScaleFactor => QueryKind::ScaleFactor,
            Query::CurrentUrl => QueryKind::CurrentUrl,
        }
    }

    /// The kind of response this query expects.
    pub fn kind(&self) -> (k: QueryKind)
        ensures
            k == self.query_kind(),
    {
        match self {
            Query::Size(_) => QueryKind::Size,
            Query::Position(_) => QueryKind::Position,
            Query::Maximized => QueryKind::Maximized,
            Query::Minimized => QueryKind::Minimized,
            Query::Fullscreen => QueryKind::Fullscreen,
            Query::Visible => QueryKind::Visible,
            Query::ScaleFactor => QueryKind::ScaleFactor,
            Query::CurrentUrl => QueryKind::CurrentUrl,
        }
    }

    pub open spec fn command_for(self, id: RequestId) -> ToVersoMessage {
        match self {
            Query::Size(t) => ToVersoMessage::GetSize(id, t),
            Query::Position(t) => ToVersoMessage::GetPosition(id, t),
            Query::Maximized => ToVersoMessage::GetMaximized(id),
            Query::Minimized => ToVersoMessage::GetMinimized(id),
            Query::Fullscreen => ToVersoMessage::GetFullscreen(id),
            Query::Visible => ToVersoMessage::GetVisible(id),
            Query::ScaleFactor => ToVersoMessage::GetScaleFactor(id),
            Query::CurrentUrl => ToVersoMessage::GetCurrentUrl(id),
        }
    }

    /// The command that asks the engine this query under identifier `id`.
    pub fn command(&self, id: RequestId) -> (m: ToVersoMessage)
        ensures
            m == self.command_for(id),
    {
        match self {
            Query::Size(t) => ToVersoMessage::GetSize(id, *t),
            Query::Position(t) => ToVersoMessage::GetPosition(id, *t),
            Query::Maximized => ToVersoMessage::GetMaximized(id),
            Query::Minimized => ToVersoMessage::GetMinimized(id),
            Query::Fullscreen => ToVersoMessage::GetFullscreen(id),
            Query::Visible => ToVersoMessage::GetVisible(id),
            Query::ScaleFactor => ToVersoMessage::GetScaleFactor(id),
            Query::CurrentUrl => ToVersoMessage::GetCurrentUrl(id),
        }
    }
}

impl Reply {
    pub open spec fn reply_kind(self) -> QueryKind {
        match self {
            Reply::Size(_) => QueryKind::Size,
            Reply::Position(_) => QueryKind::Position,
            Reply::Maximized(_) => QueryKind::Maximized,
            Reply::Minimized(_) => QueryKind::Minimized,
            Reply::Fullscreen(_) => QueryKind::Fullscreen,
            Reply::Visible(_) => QueryKind::Visible,
            Reply::ScaleFactor(_) => QueryKind::ScaleFactor,
            Reply::CurrentUrl(_) => QueryKind::CurrentUrl,
        }
    }

    /// The kind of query this value answers.
    pub fn kind(&self) -> (k: QueryKind)
        ensures
            k == self.reply_kind(),
    {
        match self {
            Reply::Size(_) => QueryKind::Size,
            Reply::Position(_) => QueryKind::Position,
            Reply::Maximized(_) => QueryKind::Maximized,
            Reply::Minimized(_) => QueryKind::Minimized,
            Reply::Fullscreen(_) => QueryKind::Fullscreen,
            Reply::Visible(_) => QueryKind::Visible,
            Reply::ScaleFactor(_) => QueryKind::ScaleFactor,
            Reply::CurrentUrl(_) => QueryKind::CurrentUrl,
        }
    }
}

impl ToVersoMessage {
    pub open spec fn spec_query_id(self) -> Option<RequestId> {
        match self {
            ToVersoMessage::GetSize(id, _) => Some(id),
            ToVersoMessage::GetPosition(id, _) => Some(id),
            ToVersoMessage::GetMaximized(id) => Some(id),
            ToVersoMessage::GetMinimized(id) => Some(id),
            ToVersoMessage::GetFullscreen(id) => Some(id),
            ToVersoMessage::GetVisible(id) => Some(id),
            ToVersoMessage::GetScaleFactor(id) => Some(id),
            ToVersoMessage::GetCurrentUrl(id) => Some(id),
            _ => None,
        }
    }

    /// The correlation identifier of a query command; `None` for any other command.
    pub fn query_id(&self) -> (r: Option<RequestId>)
        ensures
            r == self.spec_query_id(),
    {
        match self {
            ToVersoMessage::GetSize(id, _) => Some(*id),
            ToVersoMessage::GetPosition(id, _) => Some(*id),
            ToVersoMessage::GetMaximized(id) => Some(*id),
            ToVersoMessage::GetMinimized(id) => Some(*id),
            ToVersoMessage::GetFullscreen(id) => Some(*id),
            ToVersoMessage::GetVisible(id) => Some(*id),
            ToVersoMessage::GetScaleFactor(id) => Some(*id),
            ToVersoMessage::GetCurrentUrl(id) => Some(*id),
            _ => None,
        }
    }
}

impl ToControllerMessage {
    pub open spec fn spec_response(self) -> Option<(RequestId, Reply)> {
        match self {
            ToControllerMessage::GetSizeResponse(id, v) => Some((id, Reply::Size(v))),
            ToControllerMessage::GetPositionResponse(id, v) => Some((id, Reply::Position(v))),
            ToControllerMessage::GetMaximizedResponse(id, v) => Some((id, Reply::Maximized(v))),
            ToControllerMessage::GetMinimizedResponse(id, v) => Some((id, Reply::Minimized(v))),
            ToControllerMessage::GetFullscreenResponse(id, v) => Some((id, Reply::Fullscreen(v))),
            ToControllerMessage::GetVisibleResponse(id, v) => Some((id, Reply::Visible(v))),
            ToControllerMessage::GetScaleFactorResponse(id, v) => Some((id, Reply::ScaleFactor(v))),
            ToControllerMessage::GetCurrentUrlResponse(id, v) => Some((id, Reply::CurrentUrl(v))),
            _ => None,
        }
    }

    /// Whether this is the response to a query.
    pub fn is_response(&self) -> (r: bool)
        ensures
            r == self.spec_response().is_some(),
    {
        match self {
            ToControllerMessage::GetSizeResponse(..) | ToControllerMessage::GetPositionResponse(..)
            | ToControllerMessage::GetMaximizedResponse(..) | ToControllerMessage::GetMinimizedResponse(..)
            | ToControllerMessage::GetFullscreenResponse(..) | ToControllerMessage::GetVisibleResponse(..)
            | ToControllerMessage::GetScaleFactorResponse(..) | ToControllerMessage::GetCurrentUrlResponse(
                ..,
            ) => true,
            _ => false,
        }
    }

    /// Splits a query response into its identifier and value; `None` for any other notification.
    pub fn into_response(self) -> (r: Option<(RequestId, Reply)>)
        ensures
            r == self.spec_response(),
    {
        match self {
            ToControllerMessage::GetSizeResponse(id, v) => Some((id, Reply::Size(v))),
            ToControllerMessage::GetPositionResponse(id, v) => Some((id, Reply::Position(v))),
            ToControllerMessage::GetMaximizedResponse(id, v) => Some((id, Reply::Maximized(v))),
            ToControllerMessage::GetMinimizedResponse(id, v) => Some((id, Reply::Minimized(v))),
            ToControllerMessage::GetFullscreenResponse(id, v) => Some((id, Reply::Fullscreen(v))),
            ToControllerMessage::GetVisibleResponse(id, v) => Some((id, Reply::Visible(v))),
            ToControllerMessage::GetScaleFactorResponse(id, v) => Some((id, Reply::ScaleFactor(v))),
            ToControllerMessage::GetCurrentUrlResponse(id, v) => Some((id, Reply::CurrentUrl(v))),
            _ => None,
        }
    }
}

} // verus!

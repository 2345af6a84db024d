//! What a session hands to its caller: clipboard messages and errors.

use vstd::prelude::*;
use crate::mime::views;

verus! {

/// When a session asks the compositor for the contents of an offer.
///
/// `ListenOnSelect` asks at first sight of an offer, before its types are
/// known, and yields text only. `ListenOnCopy` waits for the selection
/// event, when the full list of types is known.
#[derive(Debug, Clone, Copy, PartialEq, Eq, Structural)]
pub enum WlListenType {
    ListenOnSelect,
    ListenOnCopy,
}

/// The three ways an operation of a session fails.
#[derive(Debug, Clone, PartialEq, Eq)]
pub enum WlClipboardListenerError {
    /// The transport could not be reached, a required global is missing, or
    /// the first dispatch or a roundtrip of the handshake failed.
    InitFailed(String),
    /// A dispatch or a roundtrip failed after the handshake.
    QueueError(String),
    /// The transfer pipe could not be read or written, or text was expected
    /// and the bytes are not UTF-8.
    PipeError,
}

/// The payload of a message: text, or raw bytes.
#[derive(Debug, Clone, PartialEq, Eq)]
pub enum ClipBoardListenContext {
    Text(String),
    File(Vec<u8>),
}

/// One clipboard transfer: the types that were advertised, and the payload.
#[derive(Debug, Clone, PartialEq, Eq)]
pub struct ClipBoardListenMessage {
    pub mime_types: Vec<String>,
    pub context: ClipBoardListenContext,
}

/// The model of a [`WlClipboardListenerError`].
pub enum ErrorView {
    InitFailed(Seq<char>),
    QueueError(Seq<char>),
    PipeError,
}

/// The model of a [`ClipBoardListenContext`].
pub enum ContextView {
    Text(Seq<char>),
    File(Seq<u8>),
}

/// The model of a [`ClipBoardListenMessage`].
pub struct MessageView {
    pub mime_types: Seq<Seq<char>>,
    pub context: ContextView,
}

impl View for WlClipboardListenerError {
    type V = ErrorView;

    open spec fn view(&self) -> ErrorView {
        match *self {
            WlClipboardListenerError::InitFailed(s) => ErrorView::InitFailed(s@),
            WlClipboardListenerError::QueueError(s) => ErrorView::QueueError(s@),
            WlClipboardListenerError::PipeError => ErrorView::PipeError,
        }
    }
}

impl View for ClipBoardListenContext {
    type V = ContextView;

    open spec fn view(&self) -> ContextView {
        match *self {
            ClipBoardListenContext::Text(s) => ContextView::Text(s@),
            ClipBoardListenContext::File(b) => ContextView::File(b@),
        }
    }
}

impl View for ClipBoardListenMessage {
    type V = MessageView;

    open spec fn view(&self) -> MessageView {
        MessageView { mime_types: views(self.mime_types@), context: self.context@ }
    }
}

/// The short description of each kind of error.
pub open spec fn error_text(e: ErrorView) -> Seq<char> {
    match e {
        ErrorView::InitFailed(_) => "Init Failed"@,
        ErrorView::QueueError(_) => "Error during queue"@,
        ErrorView::PipeError => "PipeError"@,
    }
}

impl WlClipboardListenerError {
    /// The short description of this kind of error, without its detail.
    pub fn message(&self) -> (r: String)
        ensures
            r@ == error_text(self@),
    {
        match self {
            WlClipboardListenerError::InitFailed(_) => "Init Failed".to_owned(),
            WlClipboardListenerError::QueueError(_) => "Error during queue".to_owned(),
            WlClipboardListenerError::PipeError => "PipeError".to_owned(),
        }
    }
}

} // verus!

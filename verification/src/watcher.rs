//! A text-only watcher: a session that listens on select and hands its
//! caller the text of each selection, nothing else.

use vstd::prelude::*;
use crate::event::{action_views, Action, Event};
use crate::message::{
    ClipBoardListenContext, ContextView, ErrorView, MessageView, WlClipboardListenerError,
    WlListenType,
};
use crate::model::StreamView;
use crate::step::{InitStep, InitWake, PasteStep, PasteStepView, PasteWake};
use crate::stream::WlClipboardListenerStream;

verus! {

/// The three ways an operation of the watcher fails.
#[derive(Debug, Clone, PartialEq, Eq)]
pub enum WaylandCopyError {
    /// The transport could not be reached, a required global is missing, or
    /// the first dispatch or a roundtrip of the handshake failed.
    InitFailed(String),
    /// A dispatch or a roundtrip failed after the handshake.
    QueueError(String),
    /// The transfer pipe could not be read, or its bytes are not UTF-8.
    PipeError,
}

impl View for WaylandCopyError {
    type V = ErrorView;

    open spec fn view(&self) -> ErrorView {
        match *self {
            WaylandCopyError::InitFailed(s) => ErrorView::InitFailed(s@),
            WaylandCopyError::QueueError(s) => ErrorView::QueueError(s@),
            WaylandCopyError::PipeError => ErrorView::PipeError,
        }
    }
}

/// What the owner of the transport does next while the watcher fetches text.
#[derive(Debug, PartialEq, Eq)]
pub enum WatchStep {
    /// Make one roundtrip, so that the compositor has set up its writer.
    Roundtrip,
    /// Take the read end that was kept and read it to its end.
    Drain,
    /// Hand this to the caller.
    Done(Result<Option<String>, WaylandCopyError>),
}

/// The model of a [`WatchStep`].
pub enum WatchStepView {
    Roundtrip,
    Drain,
    Done(Result<Option<Seq<char>>, ErrorView>),
}

impl View for WatchStep {
    type V = WatchStepView;

    open spec fn view(&self) -> WatchStepView {
        match *self {
            WatchStep::Roundtrip => WatchStepView::Roundtrip,
            WatchStep::Drain => WatchStepView::Drain,
            WatchStep::Done(Ok(Some(text))) => WatchStepView::Done(Ok(Some(text@))),
            WatchStep::Done(Ok(None)) => WatchStepView::Done(Ok(None)),
            WatchStep::Done(Err(e)) => WatchStepView::Done(Err(e@)),
        }
    }
}

/// The text of a message, where it has text.
pub open spec fn text_of(message: Option<MessageView>) -> Option<Seq<char>> {
    match message {
        Some(MessageView { mime_types, context: ContextView::Text(text) }) => Some(text),
        _ => None,
    }
}

/// What the watcher makes of a step of the session underneath: the same
/// step, with the text in place of the message.
pub open spec fn watched(step: PasteStepView) -> WatchStepView {
    match step {
        PasteStepView::Roundtrip => WatchStepView::Roundtrip,
        PasteStepView::Drain => WatchStepView::Drain,
        PasteStepView::Done(Ok(message)) => WatchStepView::Done(Ok(text_of(message))),
        PasteStepView::Done(Err(e)) => WatchStepView::Done(Err(e)),
    }
}

impl WaylandCopyError {
    /// The watcher's error of the same kind and with the same words.
    pub fn of(e: WlClipboardListenerError) -> (r: WaylandCopyError)
        ensures
            r@ == e@,
    {
        match e {
            WlClipboardListenerError::InitFailed(words) => WaylandCopyError::InitFailed(words),
            WlClipboardListenerError::QueueError(words) => WaylandCopyError::QueueError(words),
            WlClipboardListenerError::PipeError => WaylandCopyError::PipeError,
        }
    }
}

/// A session that watches the selection for text.
pub struct WaylandCopyStream {
    inner: WlClipboardListenerStream,
}

impl View for WaylandCopyStream {
    type V = StreamView;

    closed spec fn view(&self) -> StreamView {
        self.inner@
    }
}

impl WaylandCopyStream {
    /// A watcher that has seen nothing yet.
    pub fn init() -> (stream: Self)
        ensures
            stream@ == StreamView::fresh(WlListenType::ListenOnSelect),
    {
        WaylandCopyStream { inner: WlClipboardListenerStream::init(WlListenType::ListenOnSelect) }
    }

    /// One step of the handshake: see [`WlClipboardListenerStream::handshake`].
    pub fn handshake(&mut self, wake: InitWake) -> (step: InitStep)
        ensures
            final(self)@ == old(self)@.on_handshake(wake@).0,
            step@ == old(self)@.on_handshake(wake@).1,
    {
        self.inner.handshake(wake)
    }

    /// Takes one protocol event: see [`WlClipboardListenerStream::event`].
    pub fn event(&mut self, event: Event) -> (actions: Vec<Action>)
        ensures
            final(self)@ == old(self)@.on_event(event@).0,
            action_views(actions@) == old(self)@.on_event(event@).1,
    {
        self.inner.event(event)
    }

    /// Destroys the watcher: see [`WlClipboardListenerStream::destroy`].
    pub fn destroy(&mut self) -> (actions: Vec<Action>)
        ensures
            action_views(actions@) == old(self)@.teardown(),
            final(self)@ == StreamView::fresh(old(self)@.listentype),
    {
        self.inner.destroy()
    }

    /// One step of fetching the text of a selection. The steps are those of
    /// [`WlClipboardListenerStream::get_clipboard`]; what the caller gets in
    /// the end is the text of the message, or nothing where there is no
    /// message.
    pub fn get_clipboard(&mut self, wake: PasteWake) -> (step: WatchStep)
        ensures
            final(self)@ == old(self)@.on_paste(wake@).0,
            step@ == watched(old(self)@.on_paste(wake@).1),
    {
        match self.inner.get_clipboard(wake) {
            PasteStep::Roundtrip => WatchStep::Roundtrip,
            PasteStep::Drain => WatchStep::Drain,
            PasteStep::Done(Ok(Some(message))) => match message.context {
                ClipBoardListenContext::Text(text) => WatchStep::Done(Ok(Some(text))),
                ClipBoardListenContext::File(_) => WatchStep::Done(Ok(None)),
            },
            PasteStep::Done(Ok(None)) => WatchStep::Done(Ok(None)),
            PasteStep::Done(Err(e)) => WatchStep::Done(Err(WaylandCopyError::of(e))),
        }
    }
}

} // verus!

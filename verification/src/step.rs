//! The steps of the three blocking operations of a session.
//!
//! Initialising, fetching a message and publishing a payload each wait on
//! the transport between decisions. The session decides; the owner of the
//! transport waits. Each operation is a function from the session and a
//! *wake*, the outcome of what the owner just did, to a *step*, what the
//! owner does next.

use vstd::prelude::*;
use crate::event::{action_views, Action, ActionView};
use crate::message::{ClipBoardListenMessage, ErrorView, MessageView, WlClipboardListenerError};
use crate::mime::views;

verus! {

/// What the owner of the transport reports during the handshake.
#[derive(Debug, PartialEq, Eq)]
pub enum InitWake {
    /// Whether the connection to the compositor could be made.
    Connected(bool),
    /// A blocking dispatch returned, with the transport's words on failure.
    Dispatched(Result<(), String>),
    /// A roundtrip returned, with the transport's words on failure.
    RoundTripped(Result<(), String>),
}

/// What the owner of the transport does next during the handshake.
#[derive(Debug, PartialEq, Eq)]
pub enum InitStep {
    /// Request the registry and block on one dispatch.
    Registry,
    /// Make one roundtrip.
    Roundtrip,
    /// Obtain the data device from the manager for the seat: the session is
    /// initialised.
    Device,
    /// Give up.
    Failed(WlClipboardListenerError),
}

/// What the owner of the transport reports while a message is fetched.
#[derive(Debug, PartialEq, Eq)]
pub enum PasteWake {
    /// A blocking dispatch returned.
    Dispatched(Result<(), String>),
    /// A dispatch of the pending events, which does not block, returned with
    /// the number of events it delivered.
    Polled(Result<usize, String>),
    /// A roundtrip returned.
    RoundTripped(Result<(), String>),
    /// The read end of the transfer pipe was read to its end; `None` where
    /// reading failed.
    Drained(Option<Vec<u8>>),
}

/// What the owner of the transport does next while a message is fetched.
#[derive(Debug, PartialEq, Eq)]
pub enum PasteStep {
    /// Make one roundtrip, so that the compositor has set up its writer.
    Roundtrip,
    /// Take the read end that was kept and read it to its end.
    Drain,
    /// Hand this to the caller.
    Done(Result<Option<ClipBoardListenMessage>, WlClipboardListenerError>),
}

/// What the owner of the transport reports while a payload is published.
#[derive(Debug, PartialEq, Eq)]
pub enum CopyWake {
    /// The caller asks to publish `data` under `mimetypes`, as the primary
    /// selection where `useprimary` is set.
    Start { data: Vec<u8>, mimetypes: Vec<String>, useprimary: bool },
    /// A blocking dispatch returned.
    Dispatched(Result<(), String>),
}

/// What the owner of the transport does next while a payload is published.
#[derive(Debug, PartialEq, Eq)]
pub enum CopyStep {
    /// Carry out these actions in order, then block on one dispatch.
    Publish(Vec<Action>),
    /// Block on one more dispatch.
    Dispatch,
    /// Release the source and hand this to the caller.
    Done(Result<(), WlClipboardListenerError>),
}

/// The model of the outcome of a dispatch or a roundtrip.
pub open spec fn outcome_view(r: Result<(), String>) -> Result<(), Seq<char>> {
    match r {
        Ok(()) => Ok(()),
        Err(e) => Err(e@),
    }
}

/// The model of an [`InitWake`].
pub enum InitWakeView {
    Connected(bool),
    Dispatched(Result<(), Seq<char>>),
    RoundTripped(Result<(), Seq<char>>),
}

/// The model of an [`InitStep`].
pub enum InitStepView {
    Registry,
    Roundtrip,
    Device,
    Failed(ErrorView),
}

/// The model of a [`PasteWake`].
pub enum PasteWakeView {
    Dispatched(Result<(), Seq<char>>),
    Polled(Result<usize, Seq<char>>),
    RoundTripped(Result<(), Seq<char>>),
    Drained(Option<Seq<u8>>),
}

/// The model of a [`PasteStep`].
pub enum PasteStepView {
    Roundtrip,
    Drain,
    Done(Result<Option<MessageView>, ErrorView>),
}

/// The model of a [`CopyWake`].
pub enum CopyWakeView {
    Start { data: Seq<u8>, mimetypes: Seq<Seq<char>>, useprimary: bool },
    Dispatched(Result<(), Seq<char>>),
}

/// The model of a [`CopyStep`].
pub enum CopyStepView {
    Publish(Seq<ActionView>),
    Dispatch,
    Done(Result<(), ErrorView>),
}

/// The model of what fetching a message hands to the caller.
pub open spec fn fetched_view(
    r: Result<Option<ClipBoardListenMessage>, WlClipboardListenerError>,
) -> Result<Option<MessageView>, ErrorView> {
    match r {
        Ok(Some(m)) => Ok(Some(m@)),
        Ok(None) => Ok(None),
        Err(e) => Err(e@),
    }
}

impl View for InitWake {
    type V = InitWakeView;

    open spec fn view(&self) -> InitWakeView {
        match *self {
            InitWake::Connected(up) => InitWakeView::Connected(up),
            InitWake::Dispatched(r) => InitWakeView::Dispatched(outcome_view(r)),
            InitWake::RoundTripped(r) => InitWakeView::RoundTripped(outcome_view(r)),
        }
    }
}

impl View for InitStep {
    type V = InitStepView;

    open spec fn view(&self) -> InitStepView {
        match *self {
            InitStep::Registry => InitStepView::Registry,
            InitStep::Roundtrip => InitStepView::Roundtrip,
            InitStep::Device => InitStepView::Device,
            InitStep::Failed(e) => InitStepView::Failed(e@),
        }
    }
}

impl View for PasteWake {
    type V = PasteWakeView;

    open spec fn view(&self) -> PasteWakeView {
        match *self {
            PasteWake::Dispatched(r) => PasteWakeView::Dispatched(outcome_view(r)),
            PasteWake::Polled(Ok(n)) => PasteWakeView::Polled(Ok(n)),
            PasteWake::Polled(Err(e)) => PasteWakeView::Polled(Err(e@)),
            PasteWake::RoundTripped(r) => PasteWakeView::RoundTripped(outcome_view(r)),
            PasteWake::Drained(Some(bytes)) => PasteWakeView::Drained(Some(bytes@)),
            PasteWake::Drained(None) => PasteWakeView::Drained(None),
        }
    }
}

impl View for PasteStep {
    type V = PasteStepView;

    open spec fn view(&self) -> PasteStepView {
        match *self {
            PasteStep::Roundtrip => PasteStepView::Roundtrip,
            PasteStep::Drain => PasteStepView::Drain,
            PasteStep::Done(r) => PasteStepView::Done(fetched_view(r)),
        }
    }
}

impl View for CopyWake {
    type V = CopyWakeView;

    open spec fn view(&self) -> CopyWakeView {
        match *self {
            CopyWake::Start { data, mimetypes, useprimary } => CopyWakeView::Start {
                data: data@,
                mimetypes: views(mimetypes@),
                useprimary,
            },
            CopyWake::Dispatched(r) => CopyWakeView::Dispatched(outcome_view(r)),
        }
    }
}

impl View for CopyStep {
    type V = CopyStepView;

    open spec fn view(&self) -> CopyStepView {
        match *self {
            CopyStep::Publish(actions) => CopyStepView::Publish(action_views(actions@)),
            CopyStep::Dispatch => CopyStepView::Dispatch,
            CopyStep::Done(Ok(())) => CopyStepView::Done(Ok(())),
            CopyStep::Done(Err(e)) => CopyStepView::Done(Err(e@)),
        }
    }
}

} // verus!

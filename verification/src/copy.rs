//! The writing side of a session.

use vstd::prelude::*;
use crate::event::{action_views, Action, Event};
use crate::message::WlListenType;
use crate::model::StreamView;
use crate::step::{CopyStep, CopyWake, InitStep, InitWake};
use crate::stream::WlClipboardListenerStream;

verus! {

/// A session that is used to publish a payload as the selection.
pub struct WlClipboardCopyStream {
    inner: WlClipboardListenerStream,
}

impl View for WlClipboardCopyStream {
    type V = StreamView;

    closed spec fn view(&self) -> StreamView {
        self.inner@
    }
}

impl WlClipboardCopyStream {
    /// A writing session that has seen nothing yet.
    pub fn init() -> (stream: Self)
        ensures
            stream@ == StreamView::fresh(WlListenType::ListenOnCopy),
    {
        WlClipboardCopyStream {
            inner: WlClipboardListenerStream::init(WlListenType::ListenOnCopy),
        }
    }

    /// One step of the handshake: see [`WlClipboardListenerStream::handshake`].
    pub fn handshake(&mut self, wake: InitWake) -> (step: InitStep)
        ensures
            final(self)@ == old(self)@.on_handshake(wake@).0,
            step@ == old(self)@.on_handshake(wake@).1,
    {
        self.inner.handshake(wake)
    }

    /// Takes one protocol event: see [`WlClipboardListenerStream::event`].
    pub fn event(&mut self, event: Event) -> (actions: Vec<Action>)
        ensures
            final(self)@ == old(self)@.on_event(event@).0,
            action_views(actions@) == old(self)@.on_event(event@).1,
    {
        self.inner.event(event)
    }

    /// Destroys the session: see [`WlClipboardListenerStream::destroy`].
    pub fn destroy(&mut self) -> (actions: Vec<Action>)
        ensures
            action_views(actions@) == old(self)@.teardown(),
            final(self)@ == StreamView::fresh(old(self)@.listentype),
    {
        self.inner.destroy()
    }

    /// One step of publishing a payload: see
    /// [`WlClipboardListenerStream::copy_to_clipboard`]. The payload stays
    /// available to readers until the step is [`CopyStep::Done`], which comes
    /// once another selection has replaced it.
    pub fn copy_to_clipboard(&mut self, wake: CopyWake) -> (step: CopyStep)
        ensures
            final(self)@ == old(self)@.on_copy(wake@).0,
            step@ == old(self)@.on_copy(wake@).1,
            step is Done ==> !final(self)@.publishing() && !final(self)@.copy_cancelled,
    {
        self.inner.copy_to_clipboard(wake)
    }
}

} // verus!

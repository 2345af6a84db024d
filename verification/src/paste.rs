//! The reading side of a session.

use vstd::prelude::*;
use crate::message::WlListenType;
use crate::mime::views;
use crate::model::StreamView;
use crate::step::{PasteStep, PasteWake};
use crate::stream::WlClipboardListenerStream;

verus! {

/// A session that is used to read the clipboard.
pub struct WlClipboardPasteStream {
    inner: WlClipboardListenerStream,
}

impl View for WlClipboardPasteStream {
    type V = StreamView;

    closed spec fn view(&self) -> StreamView {
        self.inner@
    }
}

impl WlClipboardPasteStream {
    /// A reading session that has seen nothing yet. With
    /// `WlListenType::ListenOnSelect` it yields text only; with
    /// `WlListenType::ListenOnCopy` it receives the type it negotiates.
    pub fn init(listentype: WlListenType) -> (stream: Self)
        ensures
            stream@ == StreamView::fresh(listentype),
    {
        WlClipboardPasteStream { inner: WlClipboardListenerStream::init(listentype) }
    }

    /// The session underneath, to feed it events and the handshake's wakes.
    pub fn paste_stream(&mut self) -> (stream: &mut WlClipboardListenerStream)
        ensures
            stream@ == old(self)@,
            final(self)@ == final(stream)@,
    {
        &mut self.inner
    }

    /// One step of fetching a message: see
    /// [`WlClipboardListenerStream::get_clipboard`].
    pub fn get_clipboard(&mut self, wake: PasteWake) -> (step: PasteStep)
        ensures
            final(self)@ == old(self)@.on_paste(wake@).0,
            step@ == old(self)@.on_paste(wake@).1,
    {
        self.inner.get_clipboard(wake)
    }

    /// Installs the caller's order of preference among advertised types.
    pub fn set_priority(&mut self, val: Vec<String>)
        ensures
            final(self)@ == (StreamView { set_priority: Some(views(val@)), ..old(self)@ }),
    {
        self.inner.set_priority(val);
    }
}

} // verus!

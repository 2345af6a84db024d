//! The mathematical model of a session: its state as plain values, and its
//! behaviour as functions from a state and an input to the next state and an
//! output.

use vstd::prelude::*;
use crate::event::{ActionView, EventView};
use crate::interface::{manager_interface, seat_interface};
use crate::message::{ContextView, ErrorView, MessageView, WlListenType};
use crate::mime::{is_text, negotiated, text_mime};
use crate::step::{
    CopyStepView, CopyWakeView, InitStepView, InitWakeView, PasteStepView, PasteWakeView,
};
use crate::text::decoded;

verus! {

/// A global that the session has bound: its numeric name in the registry and
/// the version it was bound at.
#[derive(Debug, Clone, Copy, PartialEq, Eq, Structural)]
pub struct Global {
    pub name: u32,
    pub version: u32,
}

/// The state of a session.
#[verifier::ext_equal]
pub struct StreamView {
    /// When the session asks for the contents of an offer.
    pub listentype: WlListenType,
    /// The seat that is bound, if any.
    pub seat: Option<Global>,
    /// The name that the seat reported, if it did.
    pub seat_name: Option<Seq<char>>,
    /// The data-control manager that is bound, if any.
    pub data_manager: Option<Global>,
    /// Whether the data device was obtained.
    pub data_device: bool,
    /// The types advertised so far for the offer that is being built.
    pub mime_types: Seq<Seq<char>>,
    /// The caller's order of preference among advertised types, if set.
    pub set_priority: Option<Seq<Seq<char>>>,
    /// The type that was asked for last, once one was.
    pub current_type: Option<Seq<char>>,
    /// Whether the read end of a transfer pipe waits to be drained.
    pub pipereader: bool,
    /// The payload that the session publishes, while it publishes one.
    pub copy_data: Option<Seq<u8>>,
    /// Whether the published selection was replaced.
    pub copy_cancelled: bool,
    /// Whether a reader could not be served in full.
    pub send_failed: bool,
    /// Whether the session holds a source it had created.
    pub source: bool,
    /// Whether the compositor has withdrawn a global that the session had
    /// bound.
    pub lost: bool,
}

/// What draining `bytes` of an offer that advertised `mimes` gives the
/// caller: text where the offer is textual, which must then be UTF-8; else
/// the raw bytes, which a session that listens on select keeps to itself.
pub open spec fn classified(listentype: WlListenType, mimes: Seq<Seq<char>>, bytes: Seq<u8>)
    -> Result<Option<MessageView>, ErrorView> {
    if is_text(mimes) {
        match decoded(bytes) {
            Some(text) => Ok(
                Some(MessageView { mime_types: mimes, context: ContextView::Text(text) }),
            ),
            None => Err(ErrorView::PipeError),
        }
    } else if listentype == WlListenType::ListenOnSelect {
        Ok(None)
    } else {
        Ok(Some(MessageView { mime_types: mimes, context: ContextView::File(bytes) }))
    }
}

/// The actions that publish a source: create it, offer each type in order,
/// and attach it as the selection or as the primary selection.
pub open spec fn publication(mimes: Seq<Seq<char>>, useprimary: bool) -> Seq<ActionView> {
    seq![ActionView::CreateDataSource] + mimes.map_values(
        |m: Seq<char>| ActionView::Offer { mime_type: m },
    ) + seq![
        if useprimary {
            ActionView::SetPrimarySelection
        } else {
            ActionView::SetSelection
        },
    ]
}

/// The events by which an offer advertises `mimes`, in order.
pub open spec fn offer_events(mimes: Seq<Seq<char>>) -> Seq<EventView> {
    mimes.map_values(|m: Seq<char>| EventView::Offer { mime_type: m })
}

/// The events that introduce a new offer advertising `mimes`: the offer
/// itself, then each of its types in order.
pub open spec fn announcement(mimes: Seq<Seq<char>>) -> Seq<EventView> {
    seq![EventView::DataOffer] + offer_events(mimes)
}

/// The words of the error for a session that lacks a global it needs.
pub open spec fn globals_missing() -> Seq<char> {
    "Cannot get seat and data manager"@
}

/// The handshake's failure with the given words.
pub open spec fn init_failed(words: Seq<char>) -> InitStepView {
    InitStepView::Failed(ErrorView::InitFailed(words))
}

impl StreamView {
    /// The state of a session that has seen nothing yet.
    pub open spec fn fresh(listentype: WlListenType) -> StreamView {
        StreamView {
            listentype,
            seat: None,
            seat_name: None,
            data_manager: None,
            data_device: false,
            mime_types: seq![],
            set_priority: None,
            current_type: None,
            pipereader: false,
            copy_data: None,
            copy_cancelled: false,
            send_failed: false,
            source: false,
            lost: false,
        }
    }

    /// Both globals are bound.
    pub open spec fn device_ready(self) -> bool {
        self.seat is Some && self.data_manager is Some
    }

    /// Both globals are bound and the seat has reported its name.
    pub open spec fn ready(self) -> bool {
        self.device_ready() && self.seat_name is Some
    }

    /// The data device is obtained only by a session that is ready.
    pub open spec fn wf(self) -> bool {
        self.data_device ==> self.ready()
    }

    /// The session publishes a payload.
    pub open spec fn publishing(self) -> bool {
        self.copy_data is Some
    }

    /// The global called `name` in the registry is one that the session has
    /// bound.
    pub open spec fn holds(self, name: u32) -> bool {
        ||| self.seat matches Some(seat) && seat.name == name
        ||| self.data_manager matches Some(manager) && manager.name == name
    }

    /// Registry binder: bind the seat and the manager, pass over the rest.
    pub open spec fn on_global(self, name: u32, interface: Seq<char>, version: u32) -> (
        StreamView,
        Seq<ActionView>,
    ) {
        if interface == seat_interface() {
            (
                StreamView { seat: Some(Global { name, version }), ..self },
                seq![ActionView::BindSeat { name, version }],
            )
        } else if interface == manager_interface() {
            (
                StreamView { data_manager: Some(Global { name, version }), ..self },
                seq![ActionView::BindManager { name, version }],
            )
        } else {
            (self, seq![])
        }
    }

    /// Ask for the offer's contents as `mime`: a read end now waits.
    pub open spec fn receive(self, mime: Seq<char>) -> (StreamView, Seq<ActionView>) {
        (
            StreamView { pipereader: true, current_type: Some(mime), ..self },
            seq![ActionView::Receive { mime_type: mime }],
        )
    }

    /// Device driver, on a new offer: a session that listens on select asks
    /// for text at once, unless the offer is its own.
    pub open spec fn on_data_offer(self) -> (StreamView, Seq<ActionView>) {
        if !self.publishing() && self.listentype == WlListenType::ListenOnSelect {
            self.receive(text_mime())
        } else {
            (self, seq![])
        }
    }

    /// Device driver, on a selection: a session that listens on copy asks
    /// for the negotiated type, unless there is no offer or the offer is its
    /// own.
    pub open spec fn on_selection(self, offer: bool) -> (StreamView, Seq<ActionView>) {
        if offer && !self.publishing() && self.listentype == WlListenType::ListenOnCopy {
            self.receive(negotiated(self.mime_types, self.set_priority))
        } else {
            (self, seq![])
        }
    }

    /// Source server, on a request for the payload: write it, or close the
    /// descriptor where there is none.
    pub open spec fn on_send(self) -> (StreamView, Seq<ActionView>) {
        match self.copy_data {
            Some(payload) => (self, seq![ActionView::Write { payload }]),
            None => (self, seq![ActionView::CloseFd]),
        }
    }

    /// The next state and the actions to carry out, for each event.
    pub open spec fn on_event(self, event: EventView) -> (StreamView, Seq<ActionView>) {
        match event {
            EventView::Global { name, interface, version } => self.on_global(
                name,
                interface,
                version,
            ),
            EventView::GlobalRemove { name } => (
                StreamView { lost: self.lost || self.holds(name), ..self },
                seq![],
            ),
            EventView::SeatName { name } => (StreamView { seat_name: Some(name), ..self }, seq![]),
            EventView::DataOffer => self.on_data_offer(),
            EventView::Offer { mime_type } => (
                StreamView { mime_types: self.mime_types.push(mime_type), ..self },
                seq![],
            ),
            EventView::Selection { offer } => self.on_selection(offer),
            EventView::PrimarySelection { offer } => (
                self,
                if offer {
                    seq![ActionView::DestroyOffer]
                } else {
                    seq![]
                },
            ),
            EventView::Finished => (
                StreamView { source: true, ..self },
                seq![ActionView::CreateDataSource, ActionView::SetSelection],
            ),
            EventView::Send { mime_type } => self.on_send(),
            EventView::SendFailed => (StreamView { send_failed: true, ..self }, seq![]),
            EventView::Cancelled => (StreamView { copy_cancelled: true, ..self }, seq![]),
            EventView::Unknown => (self, seq![]),
        }
    }

    /// The state after a sequence of events, delivered in order.
    pub open spec fn run(self, events: Seq<EventView>) -> StreamView
        decreases events.len(),
    {
        if events.len() == 0 {
            self
        } else {
            self.run(events.drop_last()).on_event(events.last()).0
        }
    }

    /// The handshake once the transport has answered: fail without both
    /// globals, go round again without the seat's name, else obtain the
    /// device.
    pub open spec fn advance(self) -> (StreamView, InitStepView) {
        if !self.device_ready() {
            (self, init_failed(globals_missing()))
        } else if self.seat_name is None {
            (self, InitStepView::Roundtrip)
        } else {
            (StreamView { data_device: true, ..self }, InitStepView::Device)
        }
    }

    /// The next state and step of the handshake, for each wake. A session
    /// that has lost a global fails.
    pub open spec fn on_handshake(self, wake: InitWakeView) -> (StreamView, InitStepView) {
        if self.lost {
            (self, init_failed(globals_missing()))
        } else {
            self.shake(wake)
        }
    }

    /// The handshake of a session that has lost no global.
    pub open spec fn shake(self, wake: InitWakeView) -> (StreamView, InitStepView) {
        match wake {
            InitWakeView::Connected(up) => if up {
                (self, InitStepView::Registry)
            } else {
                (self, init_failed("Cannot connect to wayland"@))
            },
            InitWakeView::Dispatched(Err(words)) => (
                self,
                init_failed("Inital dispatch failed: "@ + words),
            ),
            InitWakeView::RoundTripped(Err(words)) => (
                self,
                init_failed("Cannot roundtrip during init"@),
            ),
            InitWakeView::Dispatched(Ok(())) => self.advance(),
            InitWakeView::RoundTripped(Ok(())) => self.advance(),
        }
    }

    /// Fetching, once events were delivered: go on to the roundtrip where a
    /// read end waits, else there is no message.
    pub open spec fn dispatched(self) -> (StreamView, PasteStepView) {
        if self.pipereader {
            (self, PasteStepView::Roundtrip)
        } else {
            (self, PasteStepView::Done(Ok(None)))
        }
    }

    /// The next state and step of fetching a message, for each wake. A
    /// session that has lost a global fails.
    pub open spec fn on_paste(self, wake: PasteWakeView) -> (StreamView, PasteStepView) {
        if self.lost {
            (self, PasteStepView::Done(Err(ErrorView::QueueError(globals_missing()))))
        } else {
            self.fetch(wake)
        }
    }

    /// Fetching a message in a session that has lost no global.
    pub open spec fn fetch(self, wake: PasteWakeView) -> (StreamView, PasteStepView) {
        match wake {
            PasteWakeView::Dispatched(Err(words)) => (
                self,
                PasteStepView::Done(Err(ErrorView::QueueError(words))),
            ),
            PasteWakeView::Polled(Err(words)) => (
                self,
                PasteStepView::Done(Err(ErrorView::QueueError(words))),
            ),
            PasteWakeView::RoundTripped(Err(words)) => (
                self,
                PasteStepView::Done(Err(ErrorView::QueueError(words))),
            ),
            PasteWakeView::Dispatched(Ok(())) => self.dispatched(),
            PasteWakeView::Polled(Ok(delivered)) => if delivered == 0 {
                (self, PasteStepView::Done(Ok(None)))
            } else {
                self.dispatched()
            },
            PasteWakeView::RoundTripped(Ok(())) => if self.pipereader {
                (StreamView { pipereader: false, ..self }, PasteStepView::Drain)
            } else {
                (self, PasteStepView::Done(Ok(None)))
            },
            PasteWakeView::Drained(Some(bytes)) => (
                StreamView { mime_types: seq![], ..self },
                PasteStepView::Done(classified(self.listentype, self.mime_types, bytes)),
            ),
            PasteWakeView::Drained(None) => (
                StreamView { mime_types: seq![], ..self },
                PasteStepView::Done(Err(ErrorView::PipeError)),
            ),
        }
    }

    /// The state once publishing has ended: the payload and the source are
    /// released and the flags are cleared.
    pub open spec fn released(self) -> StreamView {
        StreamView {
            copy_data: None,
            copy_cancelled: false,
            send_failed: false,
            source: false,
            ..self
        }
    }

    /// What a session lets go of when it is destroyed: what it holds, in the
    /// reverse of the order in which the protocol hands it out. The seat and
    /// the manager come from the registry, the device from both, and a
    /// source last.
    pub open spec fn teardown(self) -> Seq<ActionView> {
        (if self.source {
            seq![ActionView::ReleaseSource]
        } else {
            seq![]
        }) + (if self.data_device {
            seq![ActionView::ReleaseDevice]
        } else {
            seq![]
        }) + (if self.data_manager is Some {
            seq![ActionView::ReleaseManager]
        } else {
            seq![]
        }) + (if self.seat is Some {
            seq![ActionView::ReleaseSeat]
        } else {
            seq![]
        })
    }

    /// The next state and step of publishing a payload, for each wake. A
    /// session that has lost a global fails, and publishes nothing.
    pub open spec fn on_copy(self, wake: CopyWakeView) -> (StreamView, CopyStepView) {
        if self.lost {
            (self.released(), CopyStepView::Done(Err(ErrorView::QueueError(globals_missing()))))
        } else {
            self.serve(wake)
        }
    }

    /// Publishing a payload in a session that has lost no global.
    pub open spec fn serve(self, wake: CopyWakeView) -> (StreamView, CopyStepView) {
        match wake {
            CopyWakeView::Start { data, mimetypes, useprimary } => (
                StreamView {
                    copy_data: Some(data),
                    copy_cancelled: false,
                    send_failed: false,
                    source: true,
                    ..self
                },
                CopyStepView::Publish(publication(mimetypes, useprimary)),
            ),
            CopyWakeView::Dispatched(Err(words)) => (
                self.released(),
                CopyStepView::Done(Err(ErrorView::QueueError(words))),
            ),
            CopyWakeView::Dispatched(Ok(())) => if self.send_failed {
                (self.released(), CopyStepView::Done(Err(ErrorView::PipeError)))
            } else if self.copy_cancelled {
                (self.released(), CopyStepView::Done(Ok(())))
            } else {
                (self, CopyStepView::Dispatch)
            },
        }
    }
}

} // verus!

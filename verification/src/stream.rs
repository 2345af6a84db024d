//! The session: the registry binder, the seat tracker, the device driver,
//! the offer aggregator and the source server behind one event handler, and
//! the three operations a caller has on it.

use vstd::prelude::*;
use crate::event::{action_views, Action, ActionView, Event};
use crate::interface::{manager_interface_name, seat_interface_name};
use crate::message::{
    ClipBoardListenContext, ClipBoardListenMessage, WlClipboardListenerError, WlListenType,
};
use crate::mime::{is_text, is_text_list, negotiate, option_views, views, TEXT};
use crate::model::{classified, globals_missing, publication, Global, StreamView};
use crate::step::{
    fetched_view, CopyStep, CopyWake, InitStep, InitWake, PasteStep, PasteWake,
};
use crate::text::decode;

verus! {

/// The characters of an optional string.
pub open spec fn option_text(s: Option<String>) -> Option<Seq<char>> {
    match s {
        Some(s) => Some(s@),
        None => None,
    }
}

/// The bytes of an optional payload.
pub open spec fn option_bytes(b: Option<Vec<u8>>) -> Option<Seq<u8>> {
    match b {
        Some(b) => Some(b@),
        None => None,
    }
}

/// What the session has bound. The data device is marked as obtained only
/// once both globals are bound and the seat has reported its name.
struct Bindings {
    seat: Option<Global>,
    seat_name: Option<String>,
    data_manager: Option<Global>,
    data_device: bool,
}

impl Bindings {
    #[verifier::type_invariant]
    spec fn inv(self) -> bool {
        self.data_device ==> self.seat is Some && self.data_manager is Some && self.seat_name
            is Some
    }
}

/// A clipboard session. It performs no input or output: it is fed protocol
/// events and wakes, and answers with actions and steps.
pub struct WlClipboardListenerStream {
    listentype: WlListenType,
    bound: Bindings,
    mime_types: Vec<String>,
    set_priority: Option<Vec<String>>,
    current_type: Option<String>,
    pipereader: bool,
    copy_data: Option<Vec<u8>>,
    copy_cancelled: bool,
    send_failed: bool,
    source: bool,
    lost: bool,
}

impl View for WlClipboardListenerStream {
    type V = StreamView;

    closed spec fn view(&self) -> StreamView {
        StreamView {
            listentype: self.listentype,
            seat: self.bound.seat,
            seat_name: option_text(self.bound.seat_name),
            data_manager: self.bound.data_manager,
            data_device: self.bound.data_device,
            mime_types: views(self.mime_types@),
            set_priority: option_views(self.set_priority),
            current_type: option_text(self.current_type),
            pipereader: self.pipereader,
            copy_data: option_bytes(self.copy_data),
            copy_cancelled: self.copy_cancelled,
            send_failed: self.send_failed,
            source: self.source,
            lost: self.lost,
        }
    }
}

impl WlClipboardListenerStream {
    /// A session that has seen nothing yet.
    pub fn init(listentype: WlListenType) -> (stream: Self)
        ensures
            stream@ == StreamView::fresh(listentype),
    {
        let stream = WlClipboardListenerStream {
            listentype,
            bound: Bindings { seat: None, seat_name: None, data_manager: None, data_device: false },
            mime_types: Vec::new(),
            set_priority: None,
            current_type: None,
            pipereader: false,
            copy_data: None,
            copy_cancelled: false,
            send_failed: false,
            source: false,
            lost: false,
        };
        assert(stream@ =~= StreamView::fresh(listentype));
        stream
    }

    /// Installs the caller's order of preference among advertised types.
    pub fn set_priority(&mut self, val: Vec<String>)
        ensures
            final(self)@ == (StreamView { set_priority: Some(views(val@)), ..old(self)@ }),
    {
        self.set_priority = Some(val);
    }

    /// Whether both globals are bound.
    pub fn device_ready(&self) -> (r: bool)
        ensures
            r == self@.device_ready(),
    {
        self.bound.seat.is_some() && self.bound.data_manager.is_some()
    }

    /// Whether the offer that is being built is textual.
    pub fn is_text(&self) -> (r: bool)
        ensures
            r == is_text(self@.mime_types),
    {
        is_text_list(&self.mime_types)
    }

    /// Whether the handshake has obtained the data device.
    pub fn is_initialized(&self) -> (r: bool)
        ensures
            r == self@.data_device,
            r ==> self@.ready(),
    {
        proof {
            use_type_invariant(&self.bound);
        }
        self.bound.data_device
    }

    /// Whether the read end of a transfer pipe waits to be drained.
    pub fn is_receiving(&self) -> (r: bool)
        ensures
            r == self@.pipereader,
    {
        self.pipereader
    }

    /// Whether the session publishes a payload.
    pub fn is_publishing(&self) -> (r: bool)
        ensures
            r == self@.publishing(),
    {
        self.copy_data.is_some()
    }

    /// Whether the published selection was replaced.
    pub fn is_cancelled(&self) -> (r: bool)
        ensures
            r == self@.copy_cancelled,
    {
        self.copy_cancelled
    }

    /// The types advertised so far for the offer that is being built.
    pub fn mime_types(&self) -> (r: &Vec<String>)
        ensures
            views(r@) == self@.mime_types,
    {
        &self.mime_types
    }

    /// The name that the seat reported, if it did.
    pub fn seat_name(&self) -> (r: &Option<String>)
        ensures
            option_text(*r) == self@.seat_name,
    {
        &self.bound.seat_name
    }

    /// The type that was asked for last, once one was.
    pub fn current_type(&self) -> (r: &Option<String>)
        ensures
            option_text(*r) == self@.current_type,
    {
        &self.current_type
    }

    /// Whether the global called `name` in the registry is one that the
    /// session has bound.
    fn holds(&self, name: u32) -> (r: bool)
        ensures
            r == self@.holds(name),
    {
        let seat = match self.bound.seat {
            Some(seat) => seat.name == name,
            None => false,
        };
        let manager = match self.bound.data_manager {
            Some(manager) => manager.name == name,
            None => false,
        };
        seat || manager
    }

    /// The error of a session that lacks a global it needs.
    fn globals_missing() -> (r: String)
        ensures
            r@ == globals_missing(),
    {
        "Cannot get seat and data manager".to_owned()
    }

    /// Whether the compositor has withdrawn a global that the session had
    /// bound.
    pub fn has_lost_global(&self) -> (r: bool)
        ensures
            r == self@.lost,
    {
        self.lost
    }

    /// Records that the data device is obtained.
    fn set_data_device(&mut self)
        requires
            old(self)@.ready(),
        ensures
            final(self)@ == (StreamView { data_device: true, ..old(self)@ }),
    {
        self.bound.data_device = true;
    }

    /// Registry binder.
    fn global(&mut self, name: u32, interface: String, version: u32) -> (actions: Vec<Action>)
        ensures
            final(self)@ == old(self)@.on_global(name, interface@, version).0,
            action_views(actions@) == old(self)@.on_global(name, interface@, version).1,
    {
        proof {
            use_type_invariant(&self.bound);
        }
        let mut actions: Vec<Action> = Vec::new();
        if interface == seat_interface_name().to_owned() {
            self.bound.seat = Some(Global { name, version });
            actions.push(Action::BindSeat { name, version });
            assert(action_views(actions@) =~= seq![ActionView::BindSeat { name, version }]);
        } else if interface == manager_interface_name().to_owned() {
            self.bound.data_manager = Some(Global { name, version });
            actions.push(Action::BindManager { name, version });
            assert(action_views(actions@) =~= seq![ActionView::BindManager { name, version }]);
        } else {
            assert(action_views(actions@) =~= seq![]);
        }
        actions
    }

    /// Asks for the contents of the offer as `mime`.
    fn receive(&mut self, mime: String) -> (actions: Vec<Action>)
        ensures
            final(self)@ == old(self)@.receive(mime@).0,
            action_views(actions@) == old(self)@.receive(mime@).1,
    {
        let mut actions: Vec<Action> = Vec::new();
        self.current_type = Some(mime.clone());
        self.pipereader = true;
        actions.push(Action::Receive { mime_type: mime });
        assert(action_views(actions@) =~= seq![ActionView::Receive { mime_type: mime@ }]);
        actions
    }

    /// Source server, on a request for the payload.
    fn send(&self) -> (actions: Vec<Action>)
        ensures
            action_views(actions@) == self@.on_send().1,
    {
        let mut actions: Vec<Action> = Vec::new();
        match &self.copy_data {
            Some(data) => {
                let payload = data.clone();
                assert(payload@ =~= data@);
                actions.push(Action::Write { payload });
                assert(action_views(actions@) =~= seq![ActionView::Write { payload: data@ }]);
            },
            None => {
                actions.push(Action::CloseFd);
                assert(action_views(actions@) =~= seq![ActionView::CloseFd]);
            },
        }
        actions
    }

    /// Takes one protocol event and answers with the actions to carry out,
    /// in order.
    pub fn event(&mut self, event: Event) -> (actions: Vec<Action>)
        ensures
            final(self)@ == old(self)@.on_event(event@).0,
            action_views(actions@) == old(self)@.on_event(event@).1,
    {
        match event {
            Event::Global { name, interface, version } => self.global(name, interface, version),
            Event::SeatName { name } => {
                proof {
                    use_type_invariant(&self.bound);
                }
                self.bound.seat_name = Some(name);
                self.nothing()
            },
            Event::DataOffer => {
                if self.copy_data.is_none() && self.listentype == WlListenType::ListenOnSelect {
                    self.receive(TEXT.to_owned())
                } else {
                    self.nothing()
                }
            },
            Event::Offer { mime_type } => {
                self.mime_types.push(mime_type);
                assert(views(self.mime_types@) =~= views(old(self).mime_types@).push(mime_type@));
                self.nothing()
            },
            Event::Selection { offer } => {
                if offer && self.copy_data.is_none() && self.listentype
                    == WlListenType::ListenOnCopy {
                    let mime = negotiate(&self.mime_types, &self.set_priority);
                    self.receive(mime)
                } else {
                    self.nothing()
                }
            },
            Event::PrimarySelection { offer } => {
                let mut actions: Vec<Action> = Vec::new();
                if offer {
                    actions.push(Action::DestroyOffer);
                    assert(action_views(actions@) =~= seq![ActionView::DestroyOffer]);
                } else {
                    assert(action_views(actions@) =~= seq![]);
                }
                actions
            },
            Event::Finished => {
                self.source = true;
                let mut actions: Vec<Action> = Vec::new();
                actions.push(Action::CreateDataSource);
                actions.push(Action::SetSelection);
                assert(action_views(actions@) =~= seq![
                    ActionView::CreateDataSource,
                    ActionView::SetSelection,
                ]);
                actions
            },
            Event::Send { mime_type } => self.send(),
            Event::SendFailed => {
                self.send_failed = true;
                self.nothing()
            },
            Event::Cancelled => {
                self.copy_cancelled = true;
                self.nothing()
            },
            Event::GlobalRemove { name } => {
                if self.holds(name) {
                    self.lost = true;
                }
                self.nothing()
            },
            Event::Unknown => self.nothing(),
        }
    }

    /// No action.
    fn nothing(&self) -> (actions: Vec<Action>)
        ensures
            action_views(actions@) == Seq::<ActionView>::empty(),
    {
        let actions: Vec<Action> = Vec::new();
        assert(action_views(actions@) =~= Seq::<ActionView>::empty());
        actions
    }

    /// The handshake once the transport has answered.
    fn advance(&mut self) -> (step: InitStep)
        ensures
            final(self)@ == old(self)@.advance().0,
            step@ == old(self)@.advance().1,
    {
        if !self.device_ready() {
            InitStep::Failed(WlClipboardListenerError::InitFailed(Self::globals_missing()))
        } else if self.bound.seat_name.is_none() {
            InitStep::Roundtrip
        } else {
            self.set_data_device();
            InitStep::Device
        }
    }

    /// Takes the outcome of what the owner of the transport did last for the
    /// handshake, and answers with what it does next.
    ///
    /// The owner starts by connecting and reports whether it could. The
    /// handshake has succeeded when the answer is [`InitStep::Device`].
    pub fn handshake(&mut self, wake: InitWake) -> (step: InitStep)
        ensures
            final(self)@ == old(self)@.on_handshake(wake@).0,
            step@ == old(self)@.on_handshake(wake@).1,
    {
        if self.lost {
            return InitStep::Failed(WlClipboardListenerError::InitFailed(Self::globals_missing()));
        }
        match wake {
            InitWake::Connected(up) => {
                if up {
                    InitStep::Registry
                } else {
                    InitStep::Failed(
                        WlClipboardListenerError::InitFailed(
                            "Cannot connect to wayland".to_owned(),
                        ),
                    )
                }
            },
            InitWake::Dispatched(Err(words)) => {
                let text = "Inital dispatch failed: ".to_owned().concat(words.as_str());
                InitStep::Failed(WlClipboardListenerError::InitFailed(text))
            },
            InitWake::RoundTripped(Err(_)) => InitStep::Failed(
                WlClipboardListenerError::InitFailed("Cannot roundtrip during init".to_owned()),
            ),
            InitWake::Dispatched(Ok(())) => self.advance(),
            InitWake::RoundTripped(Ok(())) => self.advance(),
        }
    }

    /// Fetching, once events were delivered.
    fn dispatched(&self) -> (step: PasteStep)
        ensures
            step@ == self@.dispatched().1,
    {
        if self.pipereader {
            PasteStep::Roundtrip
        } else {
            PasteStep::Done(Ok(None))
        }
    }

    /// Classifies what was drained from the transfer pipe, and forgets the
    /// types of the offer it came from.
    pub fn drain(&mut self, bytes: Vec<u8>) -> (r: Result<
        Option<ClipBoardListenMessage>,
        WlClipboardListenerError,
    >)
        ensures
            final(self)@ == (StreamView { mime_types: seq![], ..old(self)@ }),
            fetched_view(r) == classified(old(self)@.listentype, old(self)@.mime_types, bytes@),
            old(self)@.listentype == WlListenType::ListenOnSelect && (r matches Ok(Some(_)))
                ==> is_text(old(self)@.mime_types),
    {
        let mut mime_types: Vec<String> = Vec::new();
        core::mem::swap(&mut self.mime_types, &mut mime_types);
        assert(views(self.mime_types@) =~= seq![]);
        if is_text_list(&mime_types) {
            match decode(bytes) {
                Some(text) => Ok(
                    Some(
                        ClipBoardListenMessage {
                            mime_types,
                            context: ClipBoardListenContext::Text(text),
                        },
                    ),
                ),
                None => Err(WlClipboardListenerError::PipeError),
            }
        } else if self.listentype == WlListenType::ListenOnSelect {
            Ok(None)
        } else {
            Ok(
                Some(
                    ClipBoardListenMessage {
                        mime_types,
                        context: ClipBoardListenContext::File(bytes),
                    },
                ),
            )
        }
    }

    /// Takes the outcome of what the owner of the transport did last to
    /// fetch a message, and answers with what it does next.
    ///
    /// The owner starts with a blocking dispatch, or with a dispatch of the
    /// pending events where it must not block.
    pub fn get_clipboard(&mut self, wake: PasteWake) -> (step: PasteStep)
        ensures
            final(self)@ == old(self)@.on_paste(wake@).0,
            step@ == old(self)@.on_paste(wake@).1,
    {
        if self.lost {
            return PasteStep::Done(
                Err(WlClipboardListenerError::QueueError(Self::globals_missing())),
            );
        }
        match wake {
            PasteWake::Dispatched(Err(words)) => PasteStep::Done(
                Err(WlClipboardListenerError::QueueError(words)),
            ),
            PasteWake::Polled(Err(words)) => PasteStep::Done(
                Err(WlClipboardListenerError::QueueError(words)),
            ),
            PasteWake::RoundTripped(Err(words)) => PasteStep::Done(
                Err(WlClipboardListenerError::QueueError(words)),
            ),
            PasteWake::Dispatched(Ok(())) => self.dispatched(),
            PasteWake::Polled(Ok(delivered)) => {
                if delivered == 0 {
                    PasteStep::Done(Ok(None))
                } else {
                    self.dispatched()
                }
            },
            PasteWake::RoundTripped(Ok(())) => {
                if self.pipereader {
                    self.pipereader = false;
                    PasteStep::Drain
                } else {
                    PasteStep::Done(Ok(None))
                }
            },
            PasteWake::Drained(Some(bytes)) => PasteStep::Done(self.drain(bytes)),
            PasteWake::Drained(None) => {
                self.mime_types.clear();
                assert(views(self.mime_types@) =~= seq![]);
                PasteStep::Done(Err(WlClipboardListenerError::PipeError))
            },
        }
    }

    /// Releases the payload and clears the flags of the source server.
    fn release(&mut self)
        ensures
            final(self)@ == old(self)@.released(),
    {
        self.copy_data = None;
        self.copy_cancelled = false;
        self.send_failed = false;
        self.source = false;
    }

    /// Destroys the session: answers with what to let go of, in order, and
    /// leaves a session that has seen nothing.
    pub fn destroy(&mut self) -> (actions: Vec<Action>)
        ensures
            action_views(actions@) == old(self)@.teardown(),
            final(self)@ == StreamView::fresh(old(self)@.listentype),
    {
        let mut actions: Vec<Action> = Vec::new();
        if self.source {
            actions.push(Action::ReleaseSource);
        }
        if self.bound.data_device {
            actions.push(Action::ReleaseDevice);
        }
        if self.bound.data_manager.is_some() {
            actions.push(Action::ReleaseManager);
        }
        if self.bound.seat.is_some() {
            actions.push(Action::ReleaseSeat);
        }
        assert(action_views(actions@) =~= self@.teardown());
        *self = WlClipboardListenerStream::init(self.listentype);
        actions
    }

    /// Takes the outcome of what the owner of the transport did last to
    /// publish a payload, and answers with what it does next.
    ///
    /// The owner starts with [`CopyWake::Start`]. Whenever the answer is
    /// [`CopyStep::Done`], the payload is released and the session no longer
    /// counts as cancelled.
    pub fn copy_to_clipboard(&mut self, wake: CopyWake) -> (step: CopyStep)
        ensures
            final(self)@ == old(self)@.on_copy(wake@).0,
            step@ == old(self)@.on_copy(wake@).1,
            step is Done ==> !final(self)@.publishing() && !final(self)@.copy_cancelled,
    {
        if self.lost {
            self.release();
            return CopyStep::Done(
                Err(WlClipboardListenerError::QueueError(Self::globals_missing())),
            );
        }
        match wake {
            CopyWake::Start { data, mimetypes, useprimary } => {
                self.copy_data = Some(data);
                self.copy_cancelled = false;
                self.send_failed = false;
                self.source = true;
                CopyStep::Publish(publish(&mimetypes, useprimary))
            },
            CopyWake::Dispatched(Err(words)) => {
                self.release();
                CopyStep::Done(Err(WlClipboardListenerError::QueueError(words)))
            },
            CopyWake::Dispatched(Ok(())) => {
                if self.send_failed {
                    self.release();
                    CopyStep::Done(Err(WlClipboardListenerError::PipeError))
                } else if self.copy_cancelled {
                    self.release();
                    CopyStep::Done(Ok(()))
                } else {
                    CopyStep::Dispatch
                }
            },
        }
    }
}

/// The actions that publish a source under `mimetypes`.
pub fn publish(mimetypes: &Vec<String>, useprimary: bool) -> (actions: Vec<Action>)
    ensures
        action_views(actions@) == publication(views(mimetypes@), useprimary),
{
    let mut actions: Vec<Action> = Vec::new();
    actions.push(Action::CreateDataSource);
    let mut i: usize = 0;
    while i < mimetypes.len()
        invariant
            i <= mimetypes.len(),
            actions@.len() == i + 1,
            actions@[0]@ == ActionView::CreateDataSource,
            forall|j: int|
                0 <= j < i ==> (#[trigger] actions@[j + 1])@ == (ActionView::Offer {
                    mime_type: mimetypes@[j]@,
                }),
        decreases mimetypes.len() - i,
    {
        actions.push(Action::Offer { mime_type: mimetypes[i].clone() });
        i += 1;
    }
    if useprimary {
        actions.push(Action::SetPrimarySelection);
    } else {
        actions.push(Action::SetSelection);
    }
    proof {
        let got = action_views(actions@);
        let want = publication(views(mimetypes@), useprimary);
        assert(got.len() == want.len());
        assert forall|j: int| 0 <= j < got.len() implies got[j] == want[j] by {
            if 0 < j && j < got.len() - 1 {
                assert(actions@[(j - 1) + 1]@ == (ActionView::Offer {
                    mime_type: mimetypes@[j - 1]@,
                }));
            }
        }
        assert(got =~= want);
    }
    actions
}

} // verus!

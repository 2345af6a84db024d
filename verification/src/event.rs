//! The events a session consumes and the actions it asks for in return.
//!
//! The session itself performs no input or output. Whoever owns the
//! transport hands it each protocol event as an [`Event`] and carries out,
//! in order, the [`Action`]s that come back.

use vstd::prelude::*;

verus! {

/// A protocol event, with the arguments that the session looks at.
#[derive(Debug, Clone, PartialEq, Eq)]
#[allow(inconsistent_fields)]
pub enum Event {
    /// `wl_registry.global`: a global is advertised.
    Global { name: u32, interface: String, version: u32 },
    /// `wl_registry.global_remove`.
    GlobalRemove { name: u32 },
    /// `wl_seat.name`.
    SeatName { name: String },
    /// `zwlr_data_control_device_v1.data_offer`: a new offer is introduced.
    DataOffer,
    /// `zwlr_data_control_offer_v1.offer`: the offer advertises one type.
    Offer { mime_type: String },
    /// `zwlr_data_control_device_v1.selection`; `offer` is false where the
    /// event carries no offer.
    Selection { offer: bool },
    /// `zwlr_data_control_device_v1.primary_selection`; `offer` is false
    /// where the event carries no offer.
    PrimarySelection { offer: bool },
    /// `zwlr_data_control_device_v1.finished`: the device is no longer valid.
    Finished,
    /// `zwlr_data_control_source_v1.send`: a reader asks for the payload as
    /// `mime_type`, on a descriptor that comes with the event.
    Send { mime_type: String },
    /// The payload could not be written in full to the descriptor of a
    /// `send` event.
    SendFailed,
    /// `zwlr_data_control_source_v1.cancelled`: another selection replaced
    /// the one this session published.
    Cancelled,
    /// Any other event.
    Unknown,
}

/// What the owner of the transport does for the session.
#[derive(Debug, Clone, PartialEq, Eq)]
pub enum Action {
    /// `wl_registry.bind` the seat global `name` at `version`.
    BindSeat { name: u32, version: u32 },
    /// `wl_registry.bind` the data-control manager global `name` at `version`.
    BindManager { name: u32, version: u32 },
    /// `create_data_source` on the manager; later actions speak of this source.
    CreateDataSource,
    /// `offer` of `mime_type` on the source that was created last.
    Offer { mime_type: String },
    /// `set_selection` on the device, with the source that was created last.
    SetSelection,
    /// `set_primary_selection` on the device, with the source that was
    /// created last.
    SetPrimarySelection,
    /// Create a pipe, `receive` `mime_type` from the offer of the event into
    /// its write end, close that end, and keep the read end for the drain.
    Receive { mime_type: String },
    /// `destroy` the offer of the event.
    DestroyOffer,
    /// Write all of `payload` to the descriptor of the event and close it;
    /// answer with [`Event::SendFailed`] where the write fails.
    Write { payload: Vec<u8> },
    /// Close the descriptor of the event without writing.
    CloseFd,
    /// Let go of the source that was created last.
    ReleaseSource,
    /// Let go of the data device.
    ReleaseDevice,
    /// Let go of the data-control manager.
    ReleaseManager,
    /// Let go of the seat.
    ReleaseSeat,
}

/// The model of an [`Event`].
#[allow(inconsistent_fields)]
pub enum EventView {
    Global { name: u32, interface: Seq<char>, version: u32 },
    GlobalRemove { name: u32 },
    SeatName { name: Seq<char> },
    DataOffer,
    Offer { mime_type: Seq<char> },
    Selection { offer: bool },
    PrimarySelection { offer: bool },
    Finished,
    Send { mime_type: Seq<char> },
    SendFailed,
    Cancelled,
    Unknown,
}

/// The model of an [`Action`].
pub enum ActionView {
    BindSeat { name: u32, version: u32 },
    BindManager { name: u32, version: u32 },
    CreateDataSource,
    Offer { mime_type: Seq<char> },
    SetSelection,
    SetPrimarySelection,
    Receive { mime_type: Seq<char> },
    DestroyOffer,
    Write { payload: Seq<u8> },
    CloseFd,
    ReleaseSource,
    ReleaseDevice,
    ReleaseManager,
    ReleaseSeat,
}

impl View for Event {
    type V = EventView;

    open spec fn view(&self) -> EventView {
        match *self {
            Event::Global { name, interface, version } => EventView::Global {
                name,
                interface: interface@,
                version,
            },
            Event::GlobalRemove { name } => EventView::GlobalRemove { name },
            Event::SeatName { name } => EventView::SeatName { name: name@ },
            Event::DataOffer => EventView::DataOffer,
            Event::Offer { mime_type } => EventView::Offer { mime_type: mime_type@ },
            Event::Selection { offer } => EventView::Selection { offer },
            Event::PrimarySelection { offer } => EventView::PrimarySelection { offer },
            Event::Finished => EventView::Finished,
            Event::Send { mime_type } => EventView::Send { mime_type: mime_type@ },
            Event::SendFailed => EventView::SendFailed,
            Event::Cancelled => EventView::Cancelled,
            Event::Unknown => EventView::Unknown,
        }
    }
}

impl View for Action {
    type V = ActionView;

    open spec fn view(&self) -> ActionView {
        match *self {
            Action::BindSeat { name, version } => ActionView::BindSeat { name, version },
            Action::BindManager { name, version } => ActionView::BindManager { name, version },
            Action::CreateDataSource => ActionView::CreateDataSource,
            Action::Offer { mime_type } => ActionView::Offer { mime_type: mime_type@ },
            Action::SetSelection => ActionView::SetSelection,
            Action::SetPrimarySelection => ActionView::SetPrimarySelection,
            Action::Receive { mime_type } => ActionView::Receive { mime_type: mime_type@ },
            Action::DestroyOffer => ActionView::DestroyOffer,
            Action::Write { payload } => ActionView::Write { payload: payload@ },
            Action::CloseFd => ActionView::CloseFd,
            Action::ReleaseSource => ActionView::ReleaseSource,
            Action::ReleaseDevice => ActionView::ReleaseDevice,
            Action::ReleaseManager => ActionView::ReleaseManager,
            Action::ReleaseSeat => ActionView::ReleaseSeat,
        }
    }
}

/// The models of a list of actions, in order.
pub open spec fn action_views(actions: Seq<Action>) -> Seq<ActionView> {
    actions.map_values(|a: Action| a@)
}

} // verus!

use wayland_clipboard_listener::{
    Action, CopyStep, CopyWake, Event, WlClipboardListenerStream, WlListenType,
};

const TEXT: &str = "text/plain;charset=utf-8";

fn global(name: u32, interface: &str, version: u32) -> Event {
    Event::Global { name, interface: interface.to_string(), version }
}

fn offer(mime: &str) -> Event {
    Event::Offer { mime_type: mime.to_string() }
}

fn publishing(listentype: WlListenType, data: &[u8]) -> WlClipboardListenerStream {
    let mut s = WlClipboardListenerStream::init(listentype);
    let step = s.copy_to_clipboard(CopyWake::Start {
        data: data.to_vec(),
        mimetypes: vec![TEXT.to_string()],
        useprimary: false,
    });
    assert!(matches!(step, CopyStep::Publish(_)));
    s
}

#[test]
fn fresh_session_is_empty() {
    let s = WlClipboardListenerStream::init(WlListenType::ListenOnCopy);
    assert!(!s.device_ready());
    assert!(!s.is_initialized());
    assert!(!s.is_receiving());
    assert!(!s.is_publishing());
    assert!(!s.is_cancelled());
    assert!(!s.is_text());
    assert!(s.mime_types().is_empty());
    assert_eq!(s.seat_name(), &None);
    assert_eq!(s.current_type(), &None);
}

#[test]
fn seat_global_is_bound_at_the_advertised_version() {
    let mut s = WlClipboardListenerStream::init(WlListenType::ListenOnCopy);
    assert_eq!(
        s.event(global(7, "wl_seat", 9)),
        vec![Action::BindSeat { name: 7, version: 9 }]
    );
    assert!(!s.device_ready());
}

#[test]
fn manager_global_is_bound_at_the_advertised_version() {
    let mut s = WlClipboardListenerStream::init(WlListenType::ListenOnCopy);
    assert_eq!(
        s.event(global(12, "zwlr_data_control_manager_v1", 2)),
        vec![Action::BindManager { name: 12, version: 2 }]
    );
    assert!(!s.device_ready());
}

#[test]
fn both_globals_make_the_device_ready() {
    let mut s = WlClipboardListenerStream::init(WlListenType::ListenOnCopy);
    s.event(global(12, "zwlr_data_control_manager_v1", 2));
    s.event(global(7, "wl_seat", 9));
    assert!(s.device_ready());
    assert!(!s.is_initialized());
}

#[test]
fn other_globals_are_passed_over() {
    let mut s = WlClipboardListenerStream::init(WlListenType::ListenOnCopy);
    assert_eq!(s.event(global(1, "wl_compositor", 6)), vec![]);
    assert_eq!(s.event(global(2, "wl_seat_v2", 1)), vec![]);
    assert_eq!(s.event(global(3, "zwlr_data_control_device_v1", 2)), vec![]);
    assert_eq!(s.event(global(4, "", 1)), vec![]);
    assert_eq!(s.event(global(5, "wl_sea", 1)), vec![]);
    assert!(!s.device_ready());
}

#[test]
fn removal_of_a_foreign_global_is_a_no_op() {
    let mut s = WlClipboardListenerStream::init(WlListenType::ListenOnCopy);
    s.event(global(12, "zwlr_data_control_manager_v1", 2));
    s.event(global(7, "wl_seat", 9));
    s.event(global(3, "wl_compositor", 6));
    assert_eq!(s.event(Event::GlobalRemove { name: 3 }), vec![]);
    assert_eq!(s.event(Event::GlobalRemove { name: 99 }), vec![]);
    assert!(s.device_ready());
    assert!(!s.has_lost_global());
}

#[test]
fn removal_before_anything_is_bound_is_a_no_op() {
    let mut s = WlClipboardListenerStream::init(WlListenType::ListenOnCopy);
    assert_eq!(s.event(Event::GlobalRemove { name: 0 }), vec![]);
    assert!(!s.has_lost_global());
}

#[test]
fn removal_of_the_seat_is_remembered() {
    let mut s = WlClipboardListenerStream::init(WlListenType::ListenOnCopy);
    s.event(global(12, "zwlr_data_control_manager_v1", 2));
    s.event(global(7, "wl_seat", 9));
    assert_eq!(s.event(Event::GlobalRemove { name: 7 }), vec![]);
    assert!(s.has_lost_global());
    assert_eq!(s.event(global(8, "wl_seat", 9)), vec![Action::BindSeat { name: 8, version: 9 }]);
    assert!(s.has_lost_global());
}

#[test]
fn removal_of_the_manager_is_remembered() {
    let mut s = WlClipboardListenerStream::init(WlListenType::ListenOnSelect);
    s.event(global(12, "zwlr_data_control_manager_v1", 2));
    assert_eq!(s.event(Event::GlobalRemove { name: 12 }), vec![]);
    assert!(s.has_lost_global());
}

#[test]
fn seat_name_is_recorded() {
    let mut s = WlClipboardListenerStream::init(WlListenType::ListenOnCopy);
    assert_eq!(s.event(Event::SeatName { name: "seat0".to_string() }), vec![]);
    assert_eq!(s.seat_name(), &Some("seat0".to_string()));
    assert_eq!(s.event(Event::SeatName { name: "seat1".to_string() }), vec![]);
    assert_eq!(s.seat_name(), &Some("seat1".to_string()));
}

#[test]
fn offers_accumulate_in_insertion_order() {
    let mut s = WlClipboardListenerStream::init(WlListenType::ListenOnCopy);
    assert_eq!(s.event(Event::DataOffer), vec![]);
    assert_eq!(s.event(offer("text/html")), vec![]);
    assert_eq!(s.event(offer(TEXT)), vec![]);
    assert_eq!(s.event(offer("UTF8_STRING")), vec![]);
    assert_eq!(
        s.mime_types(),
        &vec!["text/html".to_string(), TEXT.to_string(), "UTF8_STRING".to_string()]
    );
    assert!(s.is_text());
}

#[test]
fn on_copy_data_offer_asks_for_nothing() {
    let mut s = WlClipboardListenerStream::init(WlListenType::ListenOnCopy);
    assert_eq!(s.event(Event::DataOffer), vec![]);
    assert!(!s.is_receiving());
    assert_eq!(s.current_type(), &None);
}

#[test]
fn on_select_data_offer_asks_for_text_at_once() {
    let mut s = WlClipboardListenerStream::init(WlListenType::ListenOnSelect);
    assert_eq!(
        s.event(Event::DataOffer),
        vec![Action::Receive { mime_type: TEXT.to_string() }]
    );
    assert!(s.is_receiving());
    assert_eq!(s.current_type(), &Some(TEXT.to_string()));
}

#[test]
fn on_select_selection_asks_for_nothing() {
    let mut s = WlClipboardListenerStream::init(WlListenType::ListenOnSelect);
    s.event(offer("image/png"));
    assert_eq!(s.event(Event::Selection { offer: true }), vec![]);
    assert!(!s.is_receiving());
}

#[test]
fn selection_on_empty_list_asks_for_text() {
    let mut s = WlClipboardListenerStream::init(WlListenType::ListenOnCopy);
    s.event(Event::DataOffer);
    assert_eq!(
        s.event(Event::Selection { offer: true }),
        vec![Action::Receive { mime_type: TEXT.to_string() }]
    );
    assert!(s.is_receiving());
    assert_eq!(s.current_type(), &Some(TEXT.to_string()));
}

#[test]
fn selection_on_text_list_asks_for_text() {
    let mut s = WlClipboardListenerStream::init(WlListenType::ListenOnCopy);
    s.event(Event::DataOffer);
    s.event(offer("text/html"));
    s.event(offer(TEXT));
    assert_eq!(
        s.event(Event::Selection { offer: true }),
        vec![Action::Receive { mime_type: TEXT.to_string() }]
    );
}

#[test]
fn selection_on_image_list_asks_for_the_first_type() {
    let mut s = WlClipboardListenerStream::init(WlListenType::ListenOnCopy);
    s.event(Event::DataOffer);
    s.event(offer("image/png"));
    s.event(offer("image/jpeg"));
    assert_eq!(
        s.event(Event::Selection { offer: true }),
        vec![Action::Receive { mime_type: "image/png".to_string() }]
    );
    assert_eq!(s.current_type(), &Some("image/png".to_string()));
    assert_eq!(
        s.mime_types(),
        &vec!["image/png".to_string(), "image/jpeg".to_string()]
    );
}

#[test]
fn selection_honours_the_priority_list() {
    let mut s = WlClipboardListenerStream::init(WlListenType::ListenOnCopy);
    s.set_priority(vec!["image/jpeg".to_string(), TEXT.to_string()]);
    s.event(Event::DataOffer);
    s.event(offer(TEXT));
    s.event(offer("image/jpeg"));
    assert_eq!(
        s.event(Event::Selection { offer: true }),
        vec![Action::Receive { mime_type: "image/jpeg".to_string() }]
    );
}

#[test]
fn null_selection_changes_nothing() {
    let mut s = WlClipboardListenerStream::init(WlListenType::ListenOnCopy);
    s.event(Event::DataOffer);
    s.event(offer("image/png"));
    assert_eq!(s.event(Event::Selection { offer: false }), vec![]);
    assert!(!s.is_receiving());
    assert_eq!(s.current_type(), &None);
    assert_eq!(s.mime_types(), &vec!["image/png".to_string()]);
}

#[test]
fn primary_selection_offer_is_destroyed() {
    let mut s = WlClipboardListenerStream::init(WlListenType::ListenOnCopy);
    s.event(Event::DataOffer);
    s.event(offer(TEXT));
    assert_eq!(
        s.event(Event::PrimarySelection { offer: true }),
        vec![Action::DestroyOffer]
    );
    assert!(!s.is_receiving());
    assert_eq!(s.mime_types(), &vec![TEXT.to_string()]);
}

#[test]
fn null_primary_selection_asks_for_nothing() {
    let mut s = WlClipboardListenerStream::init(WlListenType::ListenOnSelect);
    assert_eq!(s.event(Event::PrimarySelection { offer: false }), vec![]);
    assert!(!s.is_receiving());
}

#[test]
fn finished_sets_a_fresh_source() {
    let mut s = WlClipboardListenerStream::init(WlListenType::ListenOnCopy);
    s.event(offer(TEXT));
    assert_eq!(
        s.event(Event::Finished),
        vec![Action::CreateDataSource, Action::SetSelection]
    );
    assert!(!s.is_receiving());
    assert!(!s.is_publishing());
    assert_eq!(s.mime_types(), &vec![TEXT.to_string()]);
}

#[test]
fn unknown_event_is_ignored() {
    let mut s = WlClipboardListenerStream::init(WlListenType::ListenOnSelect);
    assert_eq!(s.event(Event::Unknown), vec![]);
    assert!(!s.is_receiving());
}

#[test]
fn publisher_ignores_its_own_data_offer() {
    let mut s = publishing(WlListenType::ListenOnSelect, b"x");
    assert_eq!(s.event(Event::DataOffer), vec![]);
    assert!(!s.is_receiving());
}

#[test]
fn publisher_ignores_its_own_selection() {
    let mut s = publishing(WlListenType::ListenOnCopy, b"x");
    s.event(Event::DataOffer);
    s.event(offer(TEXT));
    assert_eq!(s.event(Event::Selection { offer: true }), vec![]);
    assert!(!s.is_receiving());
    assert_eq!(s.current_type(), &None);
}

#[test]
fn send_writes_the_whole_payload() {
    let mut s = publishing(WlListenType::ListenOnCopy, b"hello");
    assert_eq!(
        s.event(Event::Send { mime_type: TEXT.to_string() }),
        vec![Action::Write { payload: b"hello".to_vec() }]
    );
    assert!(s.is_publishing());
}

#[test]
fn send_serves_any_type_that_is_asked_for() {
    let mut s = publishing(WlListenType::ListenOnCopy, &[0x89, 0x50]);
    assert_eq!(
        s.event(Event::Send { mime_type: "image/png".to_string() }),
        vec![Action::Write { payload: vec![0x89, 0x50] }]
    );
    assert_eq!(
        s.event(Event::Send { mime_type: "x-special/foo".to_string() }),
        vec![Action::Write { payload: vec![0x89, 0x50] }]
    );
}

#[test]
fn send_without_payload_closes_the_descriptor() {
    let mut s = WlClipboardListenerStream::init(WlListenType::ListenOnCopy);
    assert_eq!(
        s.event(Event::Send { mime_type: TEXT.to_string() }),
        vec![Action::CloseFd]
    );
}

#[test]
fn cancelled_sets_the_flag() {
    let mut s = publishing(WlListenType::ListenOnCopy, b"x");
    assert!(!s.is_cancelled());
    assert_eq!(s.event(Event::Cancelled), vec![]);
    assert!(s.is_cancelled());
    assert!(s.is_publishing());
}

//! What holds of every session, proved from the model.

use vstd::prelude::*;
use vstd::utf8::{decode_utf8, decode_utf8_encode_utf8, encode_utf8, valid_utf8};
use crate::event::{ActionView, EventView};
use crate::message::{ContextView, ErrorView, MessageView, WlListenType};
use crate::mime::{
    fast_path, first_present, has_image, is_image, is_text, negotiated, preferred_at, text_mime,
};
use crate::model::{
    announcement, classified, globals_missing, init_failed, offer_events, StreamView,
};
use crate::step::{CopyStepView, CopyWakeView, InitWakeView, PasteStepView, PasteWakeView};

verus! {

/// Where some entry of a priority list is advertised, one of them is the
/// first.
pub proof fn lemma_first_present_exists(priority: Seq<Seq<char>>, mimes: Seq<Seq<char>>, k: int)
    requires
        0 <= k < priority.len(),
        mimes.contains(priority[k]),
    ensures
        exists|i: int| 0 <= i <= k && preferred_at(priority, mimes, i),
    decreases k,
{
    if exists|j: int| 0 <= j < k && mimes.contains(priority[j]) {
        let j = choose|j: int| 0 <= j < k && mimes.contains(priority[j]);
        lemma_first_present_exists(priority, mimes, j);
        let i = choose|i: int| 0 <= i <= j && preferred_at(priority, mimes, i);
        assert(0 <= i <= k && preferred_at(priority, mimes, i));
    } else {
        assert(preferred_at(priority, mimes, k));
    }
}

/// The negotiated type is the first entry of the priority list that is
/// advertised, where there is one; else, and where no priority is set, it is
/// what the text fast path gives.
pub proof fn law_negotiation(mimes: Seq<Seq<char>>, priority: Seq<Seq<char>>)
    ensures
        negotiated(mimes, None) == fast_path(mimes),
        (exists|k: int| 0 <= k < priority.len() && mimes.contains(#[trigger] priority[k]))
            ==> exists|i: int|
            preferred_at(priority, mimes, i) && negotiated(mimes, Some(priority)) == priority[i],
        !(exists|k: int| 0 <= k < priority.len() && mimes.contains(#[trigger] priority[k]))
            ==> negotiated(mimes, Some(priority)) == fast_path(mimes),
{
    if exists|k: int| 0 <= k < priority.len() && mimes.contains(#[trigger] priority[k]) {
        let k = choose|k: int| 0 <= k < priority.len() && mimes.contains(#[trigger] priority[k]);
        lemma_first_present_exists(priority, mimes, k);
        let i = choose|i: int| preferred_at(priority, mimes, i);
        assert(first_present(priority, mimes) == Some(priority[i]));
        assert(preferred_at(priority, mimes, i) && negotiated(mimes, Some(priority))
            == priority[i]);
    } else {
        assert forall|i: int| !preferred_at(priority, mimes, i) by {
            if preferred_at(priority, mimes, i) {
                assert(mimes.contains(priority[i]));
            }
        }
    }
}

/// The fast path on an empty list gives the canonical text type, whatever
/// the priority list: nothing of it is advertised.
pub proof fn law_empty_offer_negotiates_text(priority: Option<Seq<Seq<char>>>)
    ensures
        negotiated(seq![], priority) == text_mime(),
{
    let mimes = Seq::<Seq<char>>::empty();
    if let Some(p) = priority {
        assert forall|i: int| !preferred_at(p, mimes, i) by {}
    }
}

/// Delivering the types of an offer appends them, in order, to the list
/// that is being built, and touches nothing that negotiation reads.
pub proof fn lemma_offers_append(s: StreamView, mimes: Seq<Seq<char>>)
    ensures
        s.run(offer_events(mimes)) == (StreamView { mime_types: s.mime_types + mimes, ..s }),
    decreases mimes.len(),
{
    let events = offer_events(mimes);
    if mimes.len() == 0 {
        assert(s.mime_types + mimes =~= s.mime_types);
        assert(s.run(events) =~= (StreamView { mime_types: s.mime_types + mimes, ..s }));
    } else {
        assert(events.drop_last() =~= offer_events(mimes.drop_last()));
        lemma_offers_append(s, mimes.drop_last());
        assert(events.last() == EventView::Offer { mime_type: mimes.last() });
        assert((s.mime_types + mimes.drop_last()).push(mimes.last()) =~= s.mime_types + mimes);
        assert(s.run(events) =~= (StreamView { mime_types: s.mime_types + mimes, ..s }));
    }
}

/// Running a sequence of events that starts with `first` is running the
/// rest from the state that `first` leaves.
pub proof fn lemma_run_first(s: StreamView, first: EventView, rest: Seq<EventView>)
    ensures
        s.run(seq![first] + rest) == s.on_event(first).0.run(rest),
    decreases rest.len(),
{
    let all = seq![first] + rest;
    if rest.len() == 0 {
        assert(all.drop_last() =~= Seq::<EventView>::empty());
        assert(all.last() == first);
        assert(s.run(all.drop_last()) == s);
    } else {
        assert(all.drop_last() =~= seq![first] + rest.drop_last());
        assert(all.last() == rest.last());
        lemma_run_first(s, first, rest.drop_last());
    }
}

/// After a new offer and its types `m1 .. mk`, the list that the selection
/// handler finds is what was there before, followed by `m1 .. mk` in the
/// order of their arrival: exactly `m1 .. mk` where the list was empty, as it
/// is after every drain. A session that listens on copy and publishes
/// nothing then asks for the type negotiated from that list.
pub proof fn law_selection_sees_offers_in_order(s: StreamView, mimes: Seq<Seq<char>>)
    ensures
        s.run(announcement(mimes)).mime_types == s.mime_types + mimes,
        s.mime_types.len() == 0 ==> s.run(announcement(mimes)).mime_types == mimes,
        s.run(announcement(mimes)).set_priority == s.set_priority,
        s.run(announcement(mimes)).copy_data == s.copy_data,
        s.run(announcement(mimes)).listentype == s.listentype,
        !s.publishing() && s.listentype == WlListenType::ListenOnCopy ==> s.run(
            announcement(mimes),
        ).on_event(EventView::Selection { offer: true }).1 == seq![
            ActionView::Receive { mime_type: negotiated(s.mime_types + mimes, s.set_priority) },
        ],
{
    lemma_run_first(s, EventView::DataOffer, offer_events(mimes));
    lemma_offers_append(s.on_event(EventView::DataOffer).0, mimes);
    if s.mime_types.len() == 0 {
        assert(s.mime_types + mimes =~= mimes);
    }
}

/// A selection event on an empty list asks for the canonical text type.
pub proof fn law_empty_selection_receives_text(s: StreamView)
    requires
        s.mime_types.len() == 0,
        !s.publishing(),
        s.listentype == WlListenType::ListenOnCopy,
    ensures
        s.on_event(EventView::Selection { offer: true }).1 == seq![
            ActionView::Receive { mime_type: text_mime() },
        ],
        s.on_event(EventView::Selection { offer: true }).0.pipereader,
{
    assert(s.mime_types =~= seq![]);
    law_empty_offer_negotiates_text(s.set_priority);
}

/// A selection event without an offer changes nothing and asks for nothing.
pub proof fn law_null_selection_is_ignored(s: StreamView)
    ensures
        s.on_event(EventView::Selection { offer: false }) == (s, Seq::<ActionView>::empty()),
{
}

/// A primary selection with an offer has the offer destroyed and changes
/// nothing; without an offer it asks for nothing either.
pub proof fn law_primary_selection_is_destroyed(s: StreamView)
    ensures
        s.on_event(EventView::PrimarySelection { offer: true }) == (
            s,
            seq![ActionView::DestroyOffer],
        ),
        s.on_event(EventView::PrimarySelection { offer: false }) == (
            s,
            Seq::<ActionView>::empty(),
        ),
{
}

/// When the device is finished, a fresh source is created and set as the
/// selection, and but for holding that source the session is as it was:
/// whatever is fetched next is fetched as if nothing had happened.
pub proof fn law_finished_recovers(s: StreamView, wake: PasteWakeView)
    ensures
        s.on_event(EventView::Finished) == (
            StreamView { source: true, ..s },
            seq![ActionView::CreateDataSource, ActionView::SetSelection],
        ),
        s.on_event(EventView::Finished).0.on_paste(wake).1 == s.on_paste(wake).1,
        s.on_event(EventView::Finished).0.on_paste(wake).0 == (StreamView {
            source: true,
            ..s.on_paste(wake).0
        }),
{
}

/// While a session publishes, no event makes it ask for an offer's
/// contents: the offers it sees are its own.
pub proof fn law_publisher_never_receives(s: StreamView, event: EventView, mime: Seq<char>)
    requires
        s.publishing(),
    ensures
        !s.on_event(event).1.contains(ActionView::Receive { mime_type: mime }),
        s.on_event(event).0.pipereader == s.pipereader,
        s.on_event(event).0.publishing(),
{
    let actions = s.on_event(event).1;
    assert forall|i: int| 0 <= i < actions.len() implies actions[i] != (ActionView::Receive {
        mime_type: mime,
    }) by {}
}

/// A session that publishes answers every request of a reader with the
/// whole payload, whatever type the reader names.
pub proof fn law_reader_is_served(s: StreamView, payload: Seq<u8>, mime: Seq<char>)
    requires
        s.copy_data == Some(payload),
    ensures
        s.on_event(EventView::Send { mime_type: mime }) == (
            s,
            seq![ActionView::Write { payload }],
        ),
{
}

/// A list that holds an image type is not textual.
pub proof fn law_image_is_not_text(mimes: Seq<Seq<char>>, i: int)
    requires
        0 <= i < mimes.len(),
        is_image(mimes[i]),
    ensures
        !is_text(mimes),
{
    assert(has_image(mimes));
}

/// Text round trip. A payload that is well-formed UTF-8, published under
/// the canonical text type alone, is written in full to whoever asks; a
/// session whose offer advertises that type alone and that drains those
/// bytes hands its caller a text message, and the text is made of exactly
/// those bytes.
pub proof fn law_text_round_trip(
    writer: StreamView,
    reader: StreamView,
    payload: Seq<u8>,
    asked: Seq<char>,
)
    requires
        valid_utf8(payload),
        reader.mime_types == seq![text_mime()],
        !writer.lost,
        !reader.lost,
    ensures
        writer.on_copy(
            CopyWakeView::Start { data: payload, mimetypes: seq![text_mime()], useprimary: false },
        ).0.on_event(EventView::Send { mime_type: asked }).1 == seq![
            ActionView::Write { payload },
        ],
        reader.on_paste(PasteWakeView::Drained(Some(payload))).1 == PasteStepView::Done(
            Ok(
                Some(
                    MessageView {
                        mime_types: seq![text_mime()],
                        context: ContextView::Text(decode_utf8(payload)),
                    },
                ),
            ),
        ),
        encode_utf8(decode_utf8(payload)) == payload,
{
    reveal_strlit("text/plain;charset=utf-8");
    reveal_strlit("image/");
    let mimes = seq![text_mime()];
    assert(mimes[0] == text_mime());
    assert(mimes.contains(text_mime()));
    assert(!is_image(text_mime())) by {
        assert(text_mime()[0] == 't');
        assert(crate::mime::IMAGE@[0] == 'i');
    }
    assert(!has_image(mimes));
    decode_utf8_encode_utf8(payload);
}

/// Binary round trip. A session that listens on copy, whose offer holds an
/// image type, hands its caller exactly the bytes it drained, as a file,
/// whether or not they are UTF-8.
pub proof fn law_image_round_trip(reader: StreamView, payload: Seq<u8>, i: int)
    requires
        reader.listentype == WlListenType::ListenOnCopy,
        0 <= i < reader.mime_types.len(),
        is_image(reader.mime_types[i]),
        !reader.lost,
    ensures
        reader.on_paste(PasteWakeView::Drained(Some(payload))).1 == PasteStepView::Done(
            Ok(
                Some(
                    MessageView {
                        mime_types: reader.mime_types,
                        context: ContextView::File(payload),
                    },
                ),
            ),
        ),
{
    law_image_is_not_text(reader.mime_types, i);
}

/// A session that listens on select hands its caller a message only for a
/// textual offer.
pub proof fn law_select_yields_text_only(s: StreamView, wake: PasteWakeView)
    requires
        s.listentype == WlListenType::ListenOnSelect,
        s.on_paste(wake).1 matches PasteStepView::Done(Ok(Some(_))),
    ensures
        is_text(s.mime_types),
        s.on_paste(wake).1 matches PasteStepView::Done(Ok(Some(m))) && m.context is Text,
{
}

/// After every drain the list of types is empty again, and taking the read
/// end for the drain leaves none waiting.
pub proof fn law_drain_clears(s: StreamView, drained: Option<Seq<u8>>)
    requires
        !s.lost,
    ensures
        s.on_paste(PasteWakeView::Drained(drained)).0.mime_types.len() == 0,
        s.on_paste(PasteWakeView::RoundTripped(Ok(()))).1 is Drain ==> !s.on_paste(
            PasteWakeView::RoundTripped(Ok(())),
        ).0.pipereader,
{
}

/// Whenever publishing ends, with or without an error, the payload is
/// released and the session no longer counts as cancelled; and it ends
/// without an error only once the selection was replaced.
pub proof fn law_copy_releases(s: StreamView, wake: CopyWakeView)
    requires
        s.on_copy(wake).1 is Done,
    ensures
        s.on_copy(wake).0.copy_data is None,
        !s.on_copy(wake).0.copy_cancelled,
        !s.on_copy(wake).0.send_failed,
        s.on_copy(wake).1 == CopyStepView::Done(Ok(())) ==> s.copy_cancelled && !s.lost,
{
}

/// Starting to publish replaces whatever was published before.
pub proof fn law_copy_replaces(
    s: StreamView,
    data: Seq<u8>,
    mimetypes: Seq<Seq<char>>,
    useprimary: bool,
)
    requires
        !s.lost,
    ensures
        s.on_copy(CopyWakeView::Start { data, mimetypes, useprimary }).0.copy_data == Some(data),
        !s.on_copy(CopyWakeView::Start { data, mimetypes, useprimary }).0.copy_cancelled,
{
}

/// The handshake obtains the device only for a session that has bound both
/// globals and knows the seat's name, and fails on a session that lacks a
/// global once the transport has answered.
pub proof fn law_handshake_needs_readiness(s: StreamView, wake: InitWakeView)
    ensures
        s.on_handshake(wake).1 is Device ==> s.ready() && !s.lost && s.on_handshake(
            wake,
        ).0.data_device,
        !s.device_ready() && (wake == InitWakeView::Dispatched(Ok(())) || wake
            == InitWakeView::RoundTripped(Ok(()))) ==> s.on_handshake(wake).1 == init_failed(
            globals_missing(),
        ),
{
}

/// Once the compositor has withdrawn a global that the session had bound,
/// no event brings it back, and the next step of every operation fails: the
/// handshake with an initialisation error, fetching and publishing with a
/// queue error.
pub proof fn law_lost_global_is_fatal(
    s: StreamView,
    name: u32,
    events: Seq<EventView>,
    init: InitWakeView,
    paste: PasteWakeView,
    copy: CopyWakeView,
)
    requires
        s.holds(name),
    ensures
        s.on_event(EventView::GlobalRemove { name }).0.run(events).lost,
        s.on_event(EventView::GlobalRemove { name }).0.run(events).on_handshake(init).1
            == init_failed(globals_missing()),
        s.on_event(EventView::GlobalRemove { name }).0.run(events).on_paste(paste).1
            == PasteStepView::Done(Err(ErrorView::QueueError(globals_missing()))),
        s.on_event(EventView::GlobalRemove { name }).0.run(events).on_copy(copy).1
            == CopyStepView::Done(Err(ErrorView::QueueError(globals_missing()))),
{
    lemma_lost_stays(s.on_event(EventView::GlobalRemove { name }).0, events);
}

/// No event clears the mark of a lost global.
pub proof fn lemma_lost_stays(s: StreamView, events: Seq<EventView>)
    requires
        s.lost,
    ensures
        s.run(events).lost,
    decreases events.len(),
{
    if events.len() > 0 {
        lemma_lost_stays(s, events.drop_last());
    }
}

/// The removal of a global that the session has not bound changes nothing.
pub proof fn law_foreign_removal_is_ignored(s: StreamView, name: u32)
    requires
        !s.holds(name),
    ensures
        s.on_event(EventView::GlobalRemove { name }) == (s, Seq::<ActionView>::empty()),
{
    assert(s.on_event(EventView::GlobalRemove { name }).0 =~= s);
}

/// A session that is destroyed lets go of each thing it holds exactly once,
/// and of nothing else: of a source before the device, of the device before
/// the manager, and of the manager before the seat.
pub proof fn law_teardown_is_reverse_binding(s: StreamView)
    ensures
        s.teardown().no_duplicates(),
        s.teardown().contains(ActionView::ReleaseSource) <==> s.source,
        s.teardown().contains(ActionView::ReleaseDevice) <==> s.data_device,
        s.teardown().contains(ActionView::ReleaseManager) <==> s.data_manager is Some,
        s.teardown().contains(ActionView::ReleaseSeat) <==> s.seat is Some,
        forall|i: int|
            0 <= i < s.teardown().len() ==> release_rank(#[trigger] s.teardown()[i]) is Some,
        forall|i: int, j: int|
            0 <= i < j < s.teardown().len() ==> release_rank(s.teardown()[i]).unwrap()
                < release_rank(s.teardown()[j]).unwrap(),
{
    let t = s.teardown();
    let a = if s.source {
        seq![ActionView::ReleaseSource]
    } else {
        seq![]
    };
    let b = if s.data_device {
        seq![ActionView::ReleaseDevice]
    } else {
        seq![]
    };
    let c = if s.data_manager is Some {
        seq![ActionView::ReleaseManager]
    } else {
        seq![]
    };
    let d = if s.seat is Some {
        seq![ActionView::ReleaseSeat]
    } else {
        seq![]
    };
    assert(t == a + b + c + d);
    assert forall|i: int| 0 <= i < t.len() implies release_rank(#[trigger] t[i]) is Some by {}
    assert forall|i: int, j: int| 0 <= i < j < t.len() implies release_rank(t[i]).unwrap()
        < release_rank(t[j]).unwrap() by {}
    assert forall|i: int, j: int| 0 <= i < t.len() && 0 <= j < t.len() && i != j implies t[i]
        != t[j] by {
        if i < j {
            assert(release_rank(t[i]).unwrap() < release_rank(t[j]).unwrap());
        } else {
            assert(release_rank(t[j]).unwrap() < release_rank(t[i]).unwrap());
        }
    }
    if s.source {
        assert(t[0] == ActionView::ReleaseSource);
    }
    if s.data_device {
        assert(t[a.len() as int] == ActionView::ReleaseDevice);
    }
    if s.data_manager is Some {
        assert(t[(a.len() + b.len()) as int] == ActionView::ReleaseManager);
    }
    if s.seat is Some {
        assert(t[(a.len() + b.len() + c.len()) as int] == ActionView::ReleaseSeat);
    }
}

/// The place of a release in the reverse of the order of binding: a source
/// is bound last and let go of first, the seat the other way round.
pub open spec fn release_rank(action: ActionView) -> Option<nat> {
    match action {
        ActionView::ReleaseSource => Some(0),
        ActionView::ReleaseDevice => Some(1),
        ActionView::ReleaseManager => Some(2),
        ActionView::ReleaseSeat => Some(3),
        _ => None,
    }
}

/// No event, and no step of any operation, takes a session out of the
/// states in which the device is obtained only when the session is ready.
pub proof fn law_wf_is_kept(
    s: StreamView,
    event: EventView,
    init: InitWakeView,
    paste: PasteWakeView,
    copy: CopyWakeView,
)
    requires
        s.wf(),
    ensures
        s.on_event(event).0.wf(),
        s.on_handshake(init).0.wf(),
        s.on_paste(paste).0.wf(),
        s.on_copy(copy).0.wf(),
{
}

/// What a drain hands the caller carries the list of types as it stood
/// before the drain.
pub proof fn law_message_carries_offer(
    listentype: WlListenType,
    mimes: Seq<Seq<char>>,
    bytes: Seq<u8>,
)
    ensures
        classified(listentype, mimes, bytes) matches Ok(Some(m)) ==> m.mime_types == mimes,
{
}

} // verus!

//! The notification bridge, as the router sees it.
//!
//! The OS delivers power-mode callbacks on a thread of its own; the callback
//! pushes the raw code onto a FIFO channel, and a relay thread re-emits each
//! value, one at a time and without buffering, as a power-mode event of the
//! UI loop. The channel hand-off itself is process glue; what this module
//! states and proves is the stream property the bridge is for: the event
//! stream the router receives carries exactly the delivered codes, none
//! dropped, none duplicated, none reordered.

use vstd::prelude::*;

use crate::router::UiEvent;

verus! {

/// The UI event a delivered power-mode code becomes.
pub open spec fn power_event(code: i32) -> UiEvent {
    UiEvent::PowerMode { code }
}

/// The codes the presenter is updated with when the running router handles
/// `evs` in delivery order: by `Application::handle_event`'s contract, each
/// power-mode event causes exactly one update with its code, and the other
/// event kinds cause none.
pub open spec fn update_codes(evs: Seq<UiEvent>) -> Seq<i32>
    decreases evs.len(),
{
    if evs.len() == 0 {
        Seq::empty()
    } else {
        let rest = update_codes(evs.drop_last());
        match evs.last() {
            UiEvent::PowerMode { code } => rest.push(code),
            _ => rest,
        }
    }
}

/// The bridge drops, duplicates and reorders nothing: when the codes
/// delivered by the OS are sent through as power-mode events, the presenter
/// is updated exactly once per code, in delivery order, with the same
/// values.
pub proof fn lemma_bridge_preserves_stream(codes: Seq<i32>)
    ensures
        update_codes(codes.map_values(|c: i32| power_event(c))) =~= codes,
    decreases codes.len(),
{
    let evs = codes.map_values(|c: i32| power_event(c));
    if codes.len() == 0 {
    } else {
        assert(evs.drop_last() =~= codes.drop_last().map_values(|c: i32| power_event(c)));
        lemma_bridge_preserves_stream(codes.drop_last());
        assert(evs.last() == power_event(codes.last()));
    }
}

/// Events of the other kinds never touch the presenter's update stream:
/// interleaving tray or menu events among the power-mode events leaves the
/// sequence of updates exactly as it was.
pub proof fn lemma_non_power_events_do_not_update(evs: Seq<UiEvent>, other: UiEvent, at: int)
    requires
        0 <= at <= evs.len(),
        !(other is PowerMode),
    ensures
        update_codes(evs.subrange(0, at).push(other) + evs.subrange(at, evs.len() as int))
            =~= update_codes(evs),
    decreases evs.len() - at,
{
    let spliced = evs.subrange(0, at).push(other) + evs.subrange(at, evs.len() as int);
    if at == evs.len() {
        assert(spliced.drop_last() =~= evs);
        assert(spliced.last() == other);
    } else {
        let shorter = evs.subrange(0, evs.len() - 1);
        lemma_non_power_events_do_not_update(shorter, other, at);
        assert(spliced.drop_last() =~= shorter.subrange(0, at).push(other) + shorter.subrange(
            at,
            shorter.len() as int,
        ));
        assert(spliced.last() == evs.last());
        assert(evs.drop_last() =~= shorter);
    }
}

} // verus!

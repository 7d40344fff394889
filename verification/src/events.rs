//! Compression of motion events.
//!
//! Input devices can report far more motion per frame than anything needs.
//! A new motion event is therefore merged into a pending one where that does
//! not reorder it against other input: a cursor position replaces the pending
//! cursor position, an axis motion is added to the pending motion of the same
//! axis of the same device. Only motion events may lie between the two.

use vstd::prelude::*;

verus! {

/// The kinds of event that compression tells apart.
#[derive(Clone, Copy, Debug, PartialEq, Eq, Structural)]
pub enum EventKind {
    /// The cursor moved inside a window.
    CursorMoved,
    /// An axis of a device moved, reported by a window.
    AxisMotion,
    /// An axis of a device moved, reported by the device.
    DeviceMotion,
    /// Anything else.
    Other,
}

/// What compression reads of a pending event.
#[derive(Clone, Copy, Debug, PartialEq, Eq, Structural)]
pub struct Pending {
    pub kind: EventKind,
    /// The event is about the same axis of the same device as the new event.
    pub same_axis: bool,
}

/// What to do with a new event.
#[derive(Clone, Copy, Debug, PartialEq, Eq, Structural)]
pub enum Compression {
    /// Put the new event in the place of the pending event at this position.
    Replace(usize),
    /// Add the new event's value to the pending event at this position.
    Accumulate(usize),
    /// Append the new event to the pending ones.
    Append,
}

/// The event is a motion event; compression looks past these.
pub open spec fn is_motion(kind: EventKind) -> bool {
    kind != EventKind::Other
}

/// The pending event absorbs a new event of kind `new`: it is of the same
/// kind, and for an axis motion about the same axis of the same device.
pub open spec fn absorbs(pending: Pending, new: EventKind) -> bool {
    is_motion(new) && pending.kind == new && (new == EventKind::CursorMoved || pending.same_axis)
}

/// Position of the pending event that absorbs a new event of kind `new`: the
/// last one that does, provided only motion events follow it.
pub open spec fn absorber(pending: Seq<Pending>, new: EventKind) -> Option<int>
    decreases pending.len(),
{
    if pending.len() == 0 {
        None
    } else if absorbs(pending.last(), new) {
        Some(pending.len() - 1)
    } else if is_motion(pending.last().kind) {
        absorber(pending.drop_last(), new)
    } else {
        None
    }
}

/// What `absorber` finds absorbs the new event and is followed by motion
/// events only, none of which absorbs it; where it finds nothing, the
/// pending events from the last one that is no motion event on absorb
/// nothing.
pub proof fn lemma_absorber(pending: Seq<Pending>, new: EventKind)
    ensures
        match absorber(pending, new) {
            Some(k) => {
                &&& 0 <= k < pending.len()
                &&& absorbs(pending[k], new)
                &&& forall|j: int|
                    k < j < pending.len() ==> is_motion((#[trigger] pending[j]).kind) && !absorbs(
                        pending[j],
                        new,
                    )
            },
            None => forall|j: int|
                0 <= j < pending.len() && (forall|i: int|
                    j < i < pending.len() ==> is_motion((#[trigger] pending[i]).kind)) ==> !absorbs(
                    #[trigger] pending[j],
                    new,
                ),
        },
    decreases pending.len(),
{
    if pending.len() > 0 {
        let front = pending.drop_last();
        lemma_absorber(front, new);
        assert forall|j: int| 0 <= j < front.len() implies front[j] == pending[j] by {}
        if !absorbs(pending.last(), new) && is_motion(pending.last().kind) {
            match absorber(front, new) {
                Some(k) => {
                    assert forall|j: int| k < j < pending.len() implies is_motion(
                        (#[trigger] pending[j]).kind,
                    ) && !absorbs(pending[j], new) by {
                        if j < front.len() {
                            assert(front[j] == pending[j]);
                        }
                    }
                },
                None => {
                    assert forall|j: int|
                        0 <= j < pending.len() && (forall|i: int|
                            j < i < pending.len() ==> is_motion(
                                (#[trigger] pending[i]).kind,
                            )) implies !absorbs(#[trigger] pending[j], new) by {
                        if j < front.len() {
                            assert forall|i: int| j < i < front.len() implies is_motion(
                                (#[trigger] front[i]).kind,
                            ) by {
                                assert(front[i] == pending[i]);
                            }
                            assert(front[j] == pending[j]);
                        }
                    }
                },
            }
        } else if !absorbs(pending.last(), new) {
            assert forall|j: int|
                0 <= j < pending.len() && (forall|i: int|
                    j < i < pending.len() ==> is_motion(
                        (#[trigger] pending[i]).kind,
                    )) implies !absorbs(#[trigger] pending[j], new) by {
                if j < pending.len() - 1 {
                    assert(is_motion(pending[pending.len() - 1].kind));
                }
            }
        }
    }
}

/// Decides what becomes of a new event of kind `new`, given the pending
/// events in the order in which they arrived.
pub fn compress_events(pending: &Vec<Pending>, new: EventKind) -> (decision: Compression)
    ensures
        decision == (match absorber(pending@, new) {
            Some(k) => if new == EventKind::CursorMoved {
                Compression::Replace(k as usize)
            } else {
                Compression::Accumulate(k as usize)
            },
            None => Compression::Append,
        }),
{
    if matches!(new, EventKind::Other) {
        proof {
            lemma_other_is_appended(pending@);
        }
        return Compression::Append;
    }
    let mut k: usize = pending.len();
    proof {
        assert(pending@.take(k as int) =~= pending@);
    }
    while k > 0
        invariant
            k <= pending@.len(),
            is_motion(new),
            absorber(pending@, new) == absorber(pending@.take(k as int), new),
        decreases k,
    {
        let event = pending[k - 1];
        proof {
            assert(pending@.take(k as int).last() == event);
            assert(pending@.take(k as int).drop_last() =~= pending@.take(k - 1));
        }
        match event.kind {
            EventKind::Other => {
                return Compression::Append;
            },
            EventKind::CursorMoved => {
                if matches!(new, EventKind::CursorMoved) {
                    return Compression::Replace(k - 1);
                }
            },
            EventKind::AxisMotion => {
                if matches!(new, EventKind::AxisMotion) && event.same_axis {
                    return Compression::Accumulate(k - 1);
                }
            },
            EventKind::DeviceMotion => {
                if matches!(new, EventKind::DeviceMotion) && event.same_axis {
                    return Compression::Accumulate(k - 1);
                }
            },
        }
        k = k - 1;
    }
    Compression::Append
}

/// An event that is no motion event is always appended.
pub proof fn lemma_other_is_appended(pending: Seq<Pending>)
    ensures
        absorber(pending, EventKind::Other).is_none(),
    decreases pending.len(),
{
    if pending.len() > 0 {
        lemma_other_is_appended(pending.drop_last());
    }
}

} // verus!

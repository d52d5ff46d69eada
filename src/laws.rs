use crate::layout::{fits, layout_verdict, LayoutCheck, MAX_ALIGN};
use crate::lifecycle::{next, Action, Event, SlotState};
use std::any::TypeId;
use vstd::prelude::*;

verus! {

/// The state of a slot just filled with a value of the type that `t` identifies.
pub open spec fn filled(t: TypeId) -> SlotState {
    SlotState { type_id: t, live: true }
}

/// The state after answering each of `es` in turn, starting from `s`.
pub open spec fn run(s: SlotState, es: Seq<Event>) -> SlotState
    decreases es.len(),
{
    if es.len() == 0 {
        s
    } else {
        run(next(s, es[0]).0, es.drop_first())
    }
}

/// How many of the actions called for while answering `es` from `s` are `a`.
pub open spec fn count_actions(s: SlotState, es: Seq<Event>, a: Action) -> nat
    decreases es.len(),
{
    if es.len() == 0 {
        0
    } else {
        let (s1, b) = next(s, es[0]);
        (if b == a { 1nat } else { 0nat }) + count_actions(s1, es.drop_first(), a)
    }
}

/// A slot whose value has left never calls for a finalization or a move again.
proof fn lemma_retired_inert(s: SlotState, es: Seq<Event>)
    requires
        !s.live,
    ensures
        count_actions(s, es, Action::Finalize) == 0,
        count_actions(s, es, Action::MoveOut) == 0,
        !run(s, es).live,
    decreases es.len(),
{
    if es.len() > 0 {
        lemma_retired_inert(next(s, es[0]).0, es.drop_first());
    }
}

/// Identity is exact: a slot filled with the type that `t` identifies grants
/// borrows and moves as that type, and refuses both as any other type `u`.
pub proof fn lemma_identity_exact(t: TypeId, u: TypeId)
    ensures
        filled(t).type_id == t,
        next(filled(t), Event::Borrow(t)).1 == Action::Lend,
        next(filled(t), Event::Consume(t)).1 == Action::MoveOut,
        u != t ==> next(filled(t), Event::Borrow(u)).1 == Action::Refuse,
        u != t ==> next(filled(t), Event::Consume(u)).1 == Action::Refuse,
{
}

/// A borrow as a type other than the occupying one is refused and leaves the
/// slot as it was; any borrow leaves the slot as it was.
pub proof fn lemma_borrow_mismatch(s: SlotState, u: TypeId)
    ensures
        next(s, Event::Borrow(u)).0 == s,
        u != s.type_id ==> next(s, Event::Borrow(u)) == (s, Action::Refuse),
{
}

/// A move as a type other than the occupying one is refused and leaves the
/// slot as it was, so a following move as the occupying type still succeeds.
pub proof fn lemma_consume_mismatch_preserves(s: SlotState, u: TypeId)
    requires
        s.live,
        u != s.type_id,
    ensures
        next(s, Event::Consume(u)) == (s, Action::Refuse),
        next(next(s, Event::Consume(u)).0, Event::Consume(s.type_id)).1 == Action::MoveOut,
        !next(next(s, Event::Consume(u)).0, Event::Consume(s.type_id)).0.live,
{
}

/// The value of a live slot is released at most once, whatever happens to the
/// slot: either finalized in place or moved out, never both and never twice.
/// When the slot's lifetime ends, it has been released exactly once; and once
/// it has been moved out, it is never finalized.
pub proof fn lemma_single_release(s: SlotState, es: Seq<Event>)
    requires
        s.live,
    ensures
        count_actions(s, es, Action::Finalize) + count_actions(s, es, Action::MoveOut) <= 1,
        es.len() > 0 && es.last() == Event::Drop ==> count_actions(s, es, Action::Finalize)
            + count_actions(s, es, Action::MoveOut) == 1,
        count_actions(s, es, Action::MoveOut) > 0 ==> count_actions(s, es, Action::Finalize)
            == 0,
        (count_actions(s, es, Action::Finalize) + count_actions(s, es, Action::MoveOut) == 0)
            == run(s, es).live,
    decreases es.len(),
{
    if es.len() > 0 {
        let (s1, b) = next(s, es[0]);
        let rest = es.drop_first();
        if s1.live {
            lemma_single_release(s1, rest);
            if rest.len() == 0 {
                assert(es.last() == es[0]);
            } else {
                assert(rest.last() == es.last());
            }
        } else {
            lemma_retired_inert(s1, rest);
        }
    }
}

/// Boundary of admission: a slot of `capacity` bytes admits a value whose size
/// is exactly the capacity and whose alignment is exactly the strictest one it
/// provides; one byte more, or any stricter alignment, is refused.
pub proof fn lemma_boundary_capacity(capacity: int, align: int)
    requires
        0 <= capacity,
    ensures
        fits(capacity, MAX_ALIGN as int, capacity),
        layout_verdict(capacity, MAX_ALIGN as int, capacity) == LayoutCheck::Fits,
        !fits(capacity + 1, MAX_ALIGN as int, capacity),
        layout_verdict(capacity + 1, MAX_ALIGN as int, capacity) == LayoutCheck::TooLarge,
        align > MAX_ALIGN ==> !fits(capacity, align, capacity),
        align > MAX_ALIGN ==> layout_verdict(capacity, align, capacity)
            == LayoutCheck::OverAligned,
{
}

} // verus!

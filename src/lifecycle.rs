use std::any::TypeId;
use vstd::prelude::*;

verus! {

#[verifier::external_type_specification]
#[verifier::external_body]
pub struct ExTypeId(TypeId);

/// Relies on `PartialEq for TypeId`: two identifiers compare equal exactly
/// when they are the same value.
#[verifier::external_body]
fn same_type_id(a: &TypeId, b: &TypeId) -> (r: bool)
    ensures
        r == (*a == *b),
{
    *a == *b
}

/// What the lifecycle of a slot knows: which type occupies it, and whether
/// its value is still inside.
pub struct SlotState {
    pub type_id: TypeId,
    pub live: bool,
}

/// Something that happens to an occupied slot.
pub enum Event {
    /// A borrow, shared or exclusive, of the value as the type with this identifier.
    Borrow(TypeId),
    /// A request to move the value out as the type with this identifier.
    Consume(TypeId),
    /// The slot's own lifetime ends.
    Drop,
}

/// What the slot's owner must do in answer to an event.
#[derive(Clone, Copy, Debug, PartialEq, Eq, Structural)]
pub enum Action {
    /// Hand out a reference to the value.
    Lend,
    /// Move the value out to the caller; the slot is retired.
    MoveOut,
    /// Run the occupying type's finalizer on the slot, in place.
    Finalize,
    /// Refuse: the probed type is not the occupying one; nothing changes.
    Refuse,
    /// Nothing is left to do.
    Nothing,
}

/// The transition of a slot on one event, and the action it calls for.
pub open spec fn next(s: SlotState, e: Event) -> (SlotState, Action) {
    match e {
        Event::Borrow(probe) => {
            if s.live && s.type_id == probe {
                (s, Action::Lend)
            } else {
                (s, Action::Refuse)
            }
        },
        Event::Consume(probe) => {
            if s.live && s.type_id == probe {
                (SlotState { live: false, ..s }, Action::MoveOut)
            } else {
                (s, Action::Refuse)
            }
        },
        Event::Drop => {
            if s.live {
                (SlotState { live: false, ..s }, Action::Finalize)
            } else {
                (s, Action::Nothing)
            }
        },
    }
}

/// The lifecycle of an occupied slot: the identity of the occupying type,
/// fixed when the slot is filled, and whether the value is still inside.
pub struct Lifecycle {
    type_id: TypeId,
    live: bool,
}

impl View for Lifecycle {
    type V = SlotState;

    closed spec fn view(&self) -> SlotState {
        SlotState { type_id: self.type_id, live: self.live }
    }
}

impl Lifecycle {
    /// The lifecycle of a slot just filled with a value of the type that
    /// `type_id` identifies.
    pub fn new(type_id: TypeId) -> (r: Self)
        ensures
            r@ == (SlotState { type_id, live: true }),
    {
        Lifecycle { type_id, live: true }
    }

    /// The identifier of the occupying type.
    pub fn type_id(&self) -> (r: TypeId)
        ensures
            r == self@.type_id,
    {
        self.type_id
    }

    /// Whether the value is still inside the slot.
    pub fn is_live(&self) -> (r: bool)
        ensures
            r == self@.live,
    {
        self.live
    }

    /// Whether the occupying type is the one that `probe` identifies.
    pub fn is(&self, probe: &TypeId) -> (r: bool)
        ensures
            r == (self@.type_id == *probe),
    {
        same_type_id(&self.type_id, probe)
    }

    /// Whether a borrow of the value as the type that `probe` identifies is
    /// granted. A borrow changes nothing.
    pub fn lend(&self, probe: &TypeId) -> (r: bool)
        ensures
            r == (next(self@, Event::Borrow(*probe)).1 == Action::Lend),
            next(self@, Event::Borrow(*probe)).0 == self@,
    {
        self.live && self.is(probe)
    }

    /// Answers one event: moves to the next state and returns the action
    /// that the slot's owner must perform.
    pub fn step(&mut self, e: Event) -> (a: Action)
        ensures
            (final(self)@, a) == next(old(self)@, e),
    {
        match e {
            Event::Borrow(probe) => {
                if self.lend(&probe) {
                    Action::Lend
                } else {
                    Action::Refuse
                }
            },
            Event::Consume(probe) => {
                if self.lend(&probe) {
                    self.live = false;
                    Action::MoveOut
                } else {
                    Action::Refuse
                }
            },
            Event::Drop => {
                if self.live {
                    self.live = false;
                    Action::Finalize
                } else {
                    Action::Nothing
                }
            },
        }
    }
}

} // verus!

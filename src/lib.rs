//! Verified decisions behind an inline, type-erased value slot: whether a
//! type may occupy a slot of a given capacity, which type occupies it, and
//! when its value is lent, moved out or finalized.

pub mod layout;
pub mod lifecycle;
pub mod laws;

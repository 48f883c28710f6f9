//! Collections, sync collections and field tags.
use vstd::prelude::*;

verus! {

/// A typed grouping of entities within an account.
#[derive(Clone, Copy, Debug, PartialEq, Eq, Structural)]
pub enum Collection {
    Email,
    Mailbox,
    Thread,
    Identity,
    Calendar,
    CalendarEvent,
    CalendarScheduling,
}

/// A change-log stream that clients synchronise against.
#[derive(Clone, Copy, Debug, PartialEq, Eq, Structural)]
pub enum SyncCollection {
    Email,
    Identity,
    Calendar,
    CalendarScheduling,
}

/// The secondary-index fields of calendar entities.
#[derive(Clone, Copy, Debug, PartialEq, Eq, Structural)]
pub enum CalendarField {
    Uid,
    Created,
}

impl CalendarField {
    /// The small integer that tags this field in index keys.
    pub open spec fn spec_id(self) -> u8 {
        match self {
            CalendarField::Uid => 0,
            CalendarField::Created => 1,
        }
    }

    pub fn id(self) -> (r: u8)
        ensures
            r == self.spec_id(),
    {
        match self {
            CalendarField::Uid => 0,
            CalendarField::Created => 1,
        }
    }
}

} // verus!

//! What the bot keeps of a guild role.

use vstd::prelude::*;

verus! {

/// A role as a guild's role list delivers it.
///
/// Identifiers are the platform's snowflakes, which are never zero; a zero
/// identifier names nothing.
#[derive(Clone, Debug, PartialEq, Eq)]
pub struct Role {
    pub id: u64,
    pub name: String,
    /// Rank within the guild: the higher, the more senior.
    pub position: i64,
}

impl Role {
    pub fn new(id: u64, name: String, position: i64) -> (r: Role)
        ensures
            r.id == id,
            r.name == name,
            r.position == position,
    {
        Role { id, name, position }
    }
}

} // verus!

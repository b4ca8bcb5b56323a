//! The kick-eligibility index: the identifiers of the roles whose most
//! recently seen name marks them as "kick me" roles.
//!
//! The index is one flat set for the whole process. An update judges the
//! roles of the list it is given and touches no other entry.

use std::collections::HashSet;
use vstd::prelude::*;
use vstd::std_specs::hash::*;
use crate::name::{is_kick_me, is_kick_name};
use crate::role::Role;

verus! {

broadcast use vstd::std_specs::hash::group_hash_axioms;

/// What a role list says of the role `id`: `None` where the list does not
/// name it, else whether the name it gives, in its last entry for `id`, is a
/// "kick me" name.
pub open spec fn judged(roles: Seq<Role>, id: u64) -> Option<bool>
    decreases roles.len(),
{
    if roles.len() == 0 {
        None
    } else if roles.last().id == id {
        Some(is_kick_name(roles.last().name@))
    } else {
        judged(roles.drop_last(), id)
    }
}

/// The index after an update with `roles`: a listed role is in it exactly if
/// the list judges it so, any other role exactly if it was before.
pub open spec fn refreshed(index: Set<u64>, roles: Seq<Role>) -> Set<u64> {
    Set::new(
        |id: u64|
            match judged(roles, id) {
                Some(flagged) => flagged,
                None => index.contains(id),
            },
    )
}

/// Some role of `held` is in `index`.
pub open spec fn holds_flagged(index: Set<u64>, held: Seq<u64>) -> bool {
    exists|i: int| 0 <= i < held.len() && index.contains(#[trigger] held[i])
}

/// The entry of a list that speaks last of a role decides what the list says
/// of it.
pub proof fn lemma_last_entry_decides(roles: Seq<Role>, i: int)
    requires
        0 <= i < roles.len(),
        forall|j: int| i < j < roles.len() ==> roles[j].id != roles[i].id,
    ensures
        judged(roles, roles[i].id) == Some(is_kick_name(roles[i].name@)),
    decreases roles.len(),
{
    if i < roles.len() - 1 {
        lemma_last_entry_decides(roles.drop_last(), i);
    }
}

/// A list says nothing of a role that it does not name.
pub proof fn lemma_unlisted_is_unjudged(roles: Seq<Role>, id: u64)
    requires
        forall|j: int| 0 <= j < roles.len() ==> roles[j].id != id,
    ensures
        judged(roles, id) is None,
    decreases roles.len(),
{
    if roles.len() > 0 {
        lemma_unlisted_is_unjudged(roles.drop_last(), id);
    }
}

/// After an update, a role of the list is flagged if and only if the name
/// that the list gives it, in its last entry for that role, is a "kick me"
/// name, whatever the index held before.
pub proof fn law_listed_role_follows_its_name(index: Set<u64>, roles: Seq<Role>, i: int)
    requires
        0 <= i < roles.len(),
        forall|j: int| i < j < roles.len() ==> roles[j].id != roles[i].id,
    ensures
        refreshed(index, roles).contains(roles[i].id) <==> is_kick_name(roles[i].name@),
{
    lemma_last_entry_decides(roles, i);
}

/// An update leaves a role that its list does not name as it was.
pub proof fn law_unlisted_role_is_untouched(index: Set<u64>, roles: Seq<Role>, id: u64)
    requires
        forall|j: int| 0 <= j < roles.len() ==> roles[j].id != id,
    ensures
        refreshed(index, roles).contains(id) <==> index.contains(id),
{
    lemma_unlisted_is_unjudged(roles, id);
}

/// Applying the same list a second time changes nothing.
pub proof fn law_update_is_idempotent(index: Set<u64>, roles: Seq<Role>)
    ensures
        refreshed(refreshed(index, roles), roles) == refreshed(index, roles),
{
    assert(refreshed(refreshed(index, roles), roles) =~= refreshed(index, roles));
}

/// A flagged role whose name no longer holds the token leaves the index with
/// the update that shows the new name.
pub proof fn law_rename_evicts(index: Set<u64>, earlier: Seq<Role>, later: Seq<Role>, i: int)
    requires
        0 <= i < later.len(),
        forall|j: int| i < j < later.len() ==> later[j].id != later[i].id,
        !is_kick_name(later[i].name@),
    ensures
        !refreshed(refreshed(index, earlier), later).contains(later[i].id),
{
    law_listed_role_follows_its_name(refreshed(index, earlier), later, i);
}

/// The set of flagged role identifiers.
pub struct KickIndex {
    roles: HashSet<u64>,
}

impl View for KickIndex {
    type V = Set<u64>;

    closed spec fn view(&self) -> Set<u64> {
        self.roles@
    }
}

impl KickIndex {
    /// An index that flags no role.
    pub fn new() -> (r: KickIndex)
        ensures
            r@ == Set::<u64>::empty(),
    {
        KickIndex { roles: HashSet::new() }
    }

    /// Whether `role` is flagged.
    pub fn contains(&self, role: u64) -> (r: bool)
        ensures
            r == self@.contains(role),
    {
        self.roles.contains(&role)
    }

    /// Number of flagged roles.
    pub fn len(&self) -> (r: usize)
        ensures
            r == self@.len(),
    {
        self.roles.len()
    }

    /// Judges every role of `roles`, in order: one with a "kick me" name
    /// enters the index, any other leaves it.
    pub fn update(&mut self, roles: &[Role])
        ensures
            final(self)@ == refreshed(old(self)@, roles@),
    {
        let mut i: usize = 0;
        while i < roles.len()
            invariant
                i <= roles@.len(),
                self@ == refreshed(old(self)@, roles@.take(i as int)),
            decreases roles@.len() - i,
        {
            let ghost before = self@;
            let ghost seen = roles@.take(i as int);
            let ghost next = roles@.take(i + 1);
            let role = &roles[i];
            if is_kick_me(role.name.as_str()) {
                self.roles.insert(role.id);
            } else {
                self.roles.remove(&role.id);
            }
            proof {
                assert(next.drop_last() == seen);
                assert(next.last() == roles@[i as int]);
                assert(self@ =~= refreshed(old(self)@, next));
            }
            i += 1;
        }
        proof {
            assert(roles@.take(roles@.len() as int) == roles@);
        }
    }

    /// Whether some role of `held` is flagged.
    pub fn flags_any(&self, held: &[u64]) -> (r: bool)
        ensures
            r == holds_flagged(self@, held@),
    {
        let mut i: usize = 0;
        while i < held.len()
            invariant
                i <= held@.len(),
                forall|k: int| 0 <= k < i ==> !self@.contains(held@[k]),
            decreases held@.len() - i,
        {
            if self.roles.contains(&held[i]) {
                return true;
            }
            i += 1;
        }
        false
    }
}

} // verus!

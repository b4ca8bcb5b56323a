//! Authorization: may the bot remove a given member?
//!
//! Two checks, both on values read from the mirrored guild state. The bot's
//! highest role must stand strictly above the member's, and the bot's
//! permissions in the guild must include the removal of members. Neither
//! check asks anything of the network.

use vstd::prelude::*;

verus! {

/// Position of a member without any role.
pub const NO_ROLE: i64 = -1;

/// The permission bit that allows removing members from a guild.
pub const KICK_MEMBERS: u64 = 0x2;

/// The permission bit of an administrator.
pub const ADMINISTRATOR: u64 = 0x8;

/// The permissions left to a member whose communication is disabled: to
/// view channels and to read the message history.
pub const READ_ONLY: u64 = 0x10400;

/// The outcome of the two checks.
#[derive(Clone, Copy, Debug, PartialEq, Eq, Structural)]
pub enum Verdict {
    /// Both checks passed.
    Permitted,
    /// The member's highest role stands at or above the bot's.
    Outranked,
    /// The bot's permissions are unknown or lack the removal of members.
    NoPermission,
}

/// Position that stands for a looked-up role position: the position itself,
/// or [`NO_ROLE`] where the mirror knows none.
pub open spec fn position_of(found: Option<i64>) -> i64 {
    match found {
        Some(position) => position,
        None => NO_ROLE,
    }
}

/// A resolved permission set includes the removal of members. An unresolved
/// one includes nothing.
pub open spec fn allows_kick(permissions: Option<u64>) -> bool {
    match permissions {
        Some(bits) => bits & KICK_MEMBERS != 0,
        None => false,
    }
}

/// Whether `grant` is an answer that a user may be given whose permissions
/// resolve to `resolved`, `timed` saying whether a time is on record until
/// which the user's communication is disabled. Unresolved permissions grant
/// nothing. Resolved ones are granted as they are; only to a user with such
/// a time on record who is no administrator may they be cut down to
/// [`READ_ONLY`] instead, which they are while that time lies ahead.
pub open spec fn grant_fits(resolved: Option<u64>, timed: bool, grant: Option<u64>) -> bool {
    match resolved {
        None => grant is None,
        Some(bits) => grant == Some(bits) || (timed && bits & ADMINISTRATOR == 0 && grant == Some(
            bits & READ_ONLY,
        )),
    }
}

/// The removal of members is granted whatever the clock says: the resolved
/// permissions include it, and the user has no time on record until which
/// communication is disabled, or is an administrator.
pub open spec fn surely_allows_kick(resolved: Option<u64>, timed: bool) -> bool {
    match resolved {
        Some(bits) => bits & KICK_MEMBERS != 0 && (!timed || bits & ADMINISTRATOR != 0),
        None => false,
    }
}

/// The verdict for a member at position `target`, a bot at position `own`
/// and the bot's resolved permissions. The position check comes first.
pub open spec fn verdict_of(target: i64, own: i64, permissions: Option<u64>) -> Verdict {
    if target >= own {
        Verdict::Outranked
    } else if allows_kick(permissions) {
        Verdict::Permitted
    } else {
        Verdict::NoPermission
    }
}

/// Turns a looked-up position into the position to compare.
pub fn position_or_none(found: Option<i64>) -> (r: i64)
    ensures
        r == position_of(found),
{
    match found {
        Some(position) => position,
        None => NO_ROLE,
    }
}

/// Whether a member at `target` stands at or above a bot at `own`.
pub fn outranked(target: i64, own: i64) -> (r: bool)
    ensures
        r == (target >= own),
{
    target >= own
}

/// Whether resolved permissions include the removal of members.
pub fn permits_kick(permissions: Option<u64>) -> (r: bool)
    ensures
        r == allows_kick(permissions),
{
    match permissions {
        Some(bits) => bits & KICK_MEMBERS != 0,
        None => false,
    }
}

/// Runs both checks.
pub fn judge(target: i64, own: i64, permissions: Option<u64>) -> (r: Verdict)
    ensures
        r == verdict_of(target, own, permissions),
{
    if outranked(target, own) {
        Verdict::Outranked
    } else if permits_kick(permissions) {
        Verdict::Permitted
    } else {
        Verdict::NoPermission
    }
}

/// A member is never below a bot that has no role: the position check fails
/// for every member when the bot's own position is [`NO_ROLE`], as long as
/// no role stands below [`NO_ROLE`].
pub proof fn law_roleless_bot_is_outranked(target: i64, permissions: Option<u64>)
    requires
        target >= NO_ROLE,
    ensures
        verdict_of(target, NO_ROLE, permissions) == Verdict::Outranked,
{
}

/// Permissions cut down to [`READ_ONLY`] never include the removal of
/// members: a grant that permits it is the resolved permissions themselves.
pub proof fn lemma_permitting_grant_is_uncut(
    resolved: Option<u64>,
    timed: bool,
    grant: Option<u64>,
)
    requires
        grant_fits(resolved, timed, grant),
        allows_kick(grant),
    ensures
        grant == resolved,
        allows_kick(resolved),
{
    assert(forall|bits: u64| (bits & 0x10400u64) & 0x2u64 == 0) by (bit_vector);
}

/// Where the removal of members is granted whatever the clock says, every
/// fitting grant is the resolved permissions and includes it.
pub proof fn lemma_sure_grant_permits(resolved: Option<u64>, timed: bool, grant: Option<u64>)
    requires
        grant_fits(resolved, timed, grant),
        surely_allows_kick(resolved, timed),
    ensures
        grant == resolved,
        allows_kick(grant),
{
}

/// A fitting grant decides the way the resolved permissions do, but where a
/// grant that the clock may cut down holds the removal of members: the
/// verdict is `Permitted` only with resolved permissions that include it,
/// and always where it is granted whatever the clock says.
pub proof fn lemma_fitting_grant_decides(
    target: i64,
    own: i64,
    resolved: Option<u64>,
    timed: bool,
    grant: Option<u64>,
)
    requires
        grant_fits(resolved, timed, grant),
    ensures
        verdict_of(target, own, grant) == Verdict::Permitted ==> target < own && allows_kick(
            resolved,
        ),
        target < own && !allows_kick(resolved) ==> verdict_of(target, own, grant)
            == Verdict::NoPermission,
        target < own && surely_allows_kick(resolved, timed) ==> verdict_of(target, own, grant)
            == Verdict::Permitted,
        target >= own <==> verdict_of(target, own, grant) == Verdict::Outranked,
{
    if allows_kick(grant) {
        lemma_permitting_grant_is_uncut(resolved, timed, grant);
    }
    if surely_allows_kick(resolved, timed) {
        lemma_sure_grant_permits(resolved, timed, grant);
    }
}

/// Equal positions fail the position check, whatever the permissions.
pub proof fn law_equal_positions_are_refused(position: i64, permissions: Option<u64>)
    ensures
        verdict_of(position, position, permissions) == Verdict::Outranked,
{
}

/// The verdict is `Permitted` exactly when the bot stands strictly above
/// the member and holds the permission.
pub proof fn law_permitted_needs_both(target: i64, own: i64, permissions: Option<u64>)
    ensures
        verdict_of(target, own, permissions) == Verdict::Permitted <==> target < own && allows_kick(
            permissions,
        ),
{
}

} // verus!

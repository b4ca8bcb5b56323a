//! The bot's state and what it does with each event.
//!
//! One value owns the mirror, the kick-eligibility index and the bot's own
//! identity. Every event is folded into the mirror first; role lists then
//! refresh the index, and membership events are put to the authorization
//! checks and, for a member who holds a flagged role, end in a request to
//! remove that member. The request is handed back as an [`Action`]: this
//! crate sends nothing.

use twilight_model::gateway::event::Event;
use vstd::prelude::*;
use crate::event::{
    classify, event_guild, event_kind, event_members, event_roles, Action, EventKind, Incoming,
    Member,
};
use crate::authorization::{
    allows_kick, grant_fits, judge, lemma_fitting_grant_decides, lemma_permitting_grant_is_uncut,
    outranked, permits_kick, position_of, position_or_none, surely_allows_kick, verdict_of,
    Verdict, NO_ROLE,
};
use crate::index::{holds_flagged, refreshed, KickIndex};
use crate::mirror::{
    mirror_after, role_positions, timeouts, top_roles, unrestricted_permissions, Mirror,
};
use crate::role::Role;

verus! {

/// Everything the bot knows.
pub struct AppState {
    /// The bot's own user identifier, fixed for the life of the process.
    pub me: u64,
    pub mirror: Mirror,
    pub kick_with: KickIndex,
}

/// The position of the highest role that the mirror reports for a member,
/// and `None` where it reports no role: for an unknown guild or member, for
/// a member without roles, and for a zero identifier, which names nothing.
pub open spec fn mirrored_position(mirror: Mirror, guild: u64, user: u64) -> Option<i64> {
    if guild == 0 || user == 0 || !top_roles(mirror).contains_key((guild, user)) {
        None
    } else {
        let role = top_roles(mirror)[(guild, user)];
        if role_positions(mirror).contains_key(role) {
            Some(role_positions(mirror)[role])
        } else {
            None
        }
    }
}

/// The position at which a member is compared: that of the highest role, or
/// [`NO_ROLE`].
pub open spec fn rank(mirror: Mirror, guild: u64, user: u64) -> i64 {
    position_of(mirrored_position(mirror, guild, user))
}

/// The guild-level permissions of a user as the mirror resolves them, before
/// anything is taken from a member whose communication is disabled, and
/// `None` where the mirror cannot resolve them or an identifier is zero.
pub open spec fn resolved_permissions(mirror: Mirror, guild: u64, user: u64) -> Option<u64> {
    if guild == 0 || user == 0 || !unrestricted_permissions(mirror).contains_key((guild, user)) {
        None
    } else {
        Some(unrestricted_permissions(mirror)[(guild, user)])
    }
}

/// Whether the mirror has a time on record until which the user's
/// communication in the guild is disabled.
pub open spec fn has_timeout(mirror: Mirror, guild: u64, user: u64) -> bool {
    timeouts(mirror).contains((guild, user))
}

/// Whether `grant` is what judging `user` may take for the bot's
/// permissions: nothing where the member stands at or above the bot, since
/// the permissions are then not asked for, and else a grant that fits the
/// permissions that the mirror resolves for the bot in the guild.
pub open spec fn grant_is_due(mirror: Mirror, me: u64, guild: u64, user: u64, grant: Option<u64>) -> bool {
    if rank(mirror, guild, user) >= rank(mirror, guild, me) {
        grant is None
    } else {
        grant_fits(resolved_permissions(mirror, guild, me), has_timeout(mirror, guild, me), grant)
    }
}

/// Whether `grants` holds, member by member, what judging `members` may
/// take for the bot's permissions.
pub open spec fn grants_are_due(
    mirror: Mirror,
    me: u64,
    guild: u64,
    members: Seq<Member>,
    grants: Seq<Option<u64>>,
) -> bool {
    &&& grants.len() == members.len()
    &&& forall|i: int|
        0 <= i < members.len() ==> grant_is_due(
            mirror,
            me,
            guild,
            members[i].user,
            #[trigger] grants[i],
        )
}

/// The members that an event of the given kind has judged: those that it
/// carries where it is a membership event, and none else.
pub open spec fn judged_members(kind: EventKind, members: Seq<Member>) -> Seq<Member> {
    if kind == EventKind::Members {
        members
    } else {
        Seq::empty()
    }
}

/// What follows from the verdict on a member: a warning where it refuses,
/// the removal where it permits and the member holds a flagged role, and
/// nothing where it permits and the member holds none.
pub open spec fn member_action(verdict: Verdict, flagged: bool, guild: u64, user: u64) -> Option<
    Action,
> {
    match verdict {
        Verdict::Outranked => Some(Action::WarnOutranked { guild, user }),
        Verdict::NoPermission => Some(Action::WarnNoPermission { guild }),
        Verdict::Permitted => if flagged {
            Some(Action::Kick { guild, user })
        } else {
            None
        },
    }
}

/// The action for one member, given the permissions that the mirror granted
/// the bot when it was asked.
pub open spec fn member_response(
    index: Set<u64>,
    mirror: Mirror,
    me: u64,
    guild: u64,
    member: Member,
    grant: Option<u64>,
) -> Option<Action> {
    member_action(
        verdict_of(rank(mirror, guild, member.user), rank(mirror, guild, me), grant),
        holds_flagged(index, member.roles@),
        guild,
        member.user,
    )
}

/// The actions for a batch of members, in their order, `grants[i]` being
/// the permissions granted when member `i` was judged.
pub open spec fn chunk_response(
    index: Set<u64>,
    mirror: Mirror,
    me: u64,
    guild: u64,
    members: Seq<Member>,
    grants: Seq<Option<u64>>,
) -> Seq<Action>
    decreases members.len(),
{
    if members.len() == 0 {
        Seq::empty()
    } else {
        let earlier = chunk_response(
            index,
            mirror,
            me,
            guild,
            members.drop_last(),
            grants.drop_last(),
        );
        match member_response(index, mirror, me, guild, members.last(), grants.last()) {
            Some(action) => earlier.push(action),
            None => earlier,
        }
    }
}

/// The index after an event: refreshed by the role list of a guild event,
/// unchanged by any other.
pub open spec fn next_index(index: Set<u64>, kind: EventKind, roles: Seq<Role>) -> Set<u64> {
    match kind {
        EventKind::GuildAvailable => refreshed(index, roles),
        EventKind::GuildUpdate => refreshed(index, roles),
        _ => index,
    }
}

/// The actions that an event calls for: a request for all members when a
/// guild becomes available, and the verdicts on the members of a membership
/// event, `grants[i]` being the permissions granted when member `i` was
/// judged.
pub open spec fn response(
    index: Set<u64>,
    mirror: Mirror,
    me: u64,
    kind: EventKind,
    guild: u64,
    members: Seq<Member>,
    grants: Seq<Option<u64>>,
) -> Seq<Action> {
    match kind {
        EventKind::GuildAvailable => seq![Action::RequestMembers { guild }],
        EventKind::Members => chunk_response(index, mirror, me, guild, members, grants),
        _ => Seq::empty(),
    }
}

/// A member of whom the mirror reports no role is compared at position -1.
pub proof fn law_absent_member_ranks_lowest(mirror: Mirror, guild: u64, user: u64)
    requires
        mirrored_position(mirror, guild, user) is None,
    ensures
        rank(mirror, guild, user) == -1,
{
}

/// Where the mirror reports no role for the bot, no member at position -1
/// or above passes the position check, whatever the bot's permissions; in
/// particular none of whom the mirror reports no role either.
pub proof fn law_roleless_bot_kicks_nobody(
    index: Set<u64>,
    mirror: Mirror,
    me: u64,
    guild: u64,
    member: Member,
    grant: Option<u64>,
)
    requires
        mirrored_position(mirror, guild, me) is None,
        rank(mirror, guild, member.user) >= -1,
    ensures
        member_response(index, mirror, me, guild, member, grant) == Some(
            Action::WarnOutranked { guild, user: member.user },
        ),
{
}

/// A member is removed only if the bot stands strictly above that member,
/// holds the permission, and the member holds a flagged role: equal
/// positions never end in a removal.
pub proof fn law_kick_needs_rank_permission_and_flag(
    index: Set<u64>,
    mirror: Mirror,
    me: u64,
    guild: u64,
    member: Member,
    grant: Option<u64>,
)
    ensures
        member_response(index, mirror, me, guild, member, grant) == Some(
            Action::Kick { guild, user: member.user },
        ) <==> rank(mirror, guild, member.user) < rank(mirror, guild, me) && allows_kick(grant)
            && holds_flagged(index, member.roles@),
{
}

/// No removal is asked for a member whose roles and the index have nothing
/// in common, whatever the mirror holds and grants.
pub proof fn law_no_flagged_role_no_kick(
    index: Set<u64>,
    mirror: Mirror,
    me: u64,
    guild: u64,
    member: Member,
    grant: Option<u64>,
)
    requires
        index.disjoint(member.roles@.to_set()),
    ensures
        !(member_response(index, mirror, me, guild, member, grant) is Some
            && member_response(index, mirror, me, guild, member, grant)->Some_0 is Kick),
{
    lemma_flagged_is_common_role(index, member.roles@);
}

/// A member holds a flagged role exactly if some role is both in the index
/// and among the member's roles.
pub proof fn lemma_flagged_is_common_role(index: Set<u64>, held: Seq<u64>)
    ensures
        holds_flagged(index, held) <==> !index.disjoint(held.to_set()),
{
    if holds_flagged(index, held) {
        let i = choose|i: int| 0 <= i < held.len() && index.contains(#[trigger] held[i]);
        assert(held.to_set().contains(held[i]));
    }
    if !index.disjoint(held.to_set()) {
        let role = choose|role: u64| index.contains(role) && held.to_set().contains(role);
        assert(held.contains(role));
        let i = choose|i: int| 0 <= i < held.len() && held[i] == role;
        assert(index.contains(held[i]));
    }
}

/// Every removal that a batch of members ends in is for a member of the
/// batch who holds a flagged role and stands strictly below the bot, and is
/// in the guild of the batch.
pub proof fn law_every_kick_is_earned(
    index: Set<u64>,
    mirror: Mirror,
    me: u64,
    guild: u64,
    members: Seq<Member>,
    grants: Seq<Option<u64>>,
    k: int,
)
    requires
        0 <= k < chunk_response(index, mirror, me, guild, members, grants).len(),
        chunk_response(index, mirror, me, guild, members, grants)[k] is Kick,
    ensures
        exists|i: int|
            0 <= i < members.len() && chunk_response(index, mirror, me, guild, members, grants)[k]
                == (Action::Kick { guild, user: (#[trigger] members[i]).user }) && holds_flagged(
                index,
                members[i].roles@,
            ) && rank(mirror, guild, members[i].user) < rank(mirror, guild, me),
    decreases members.len(),
{
    let all = chunk_response(index, mirror, me, guild, members, grants);
    let earlier = chunk_response(index, mirror, me, guild, members.drop_last(), grants.drop_last());
    if k < earlier.len() {
        law_every_kick_is_earned(index, mirror, me, guild, members.drop_last(), grants.drop_last(), k);
        let i = choose|i: int|
            0 <= i < members.drop_last().len() && earlier[k] == (Action::Kick {
                guild,
                user: (#[trigger] members.drop_last()[i]).user,
            }) && holds_flagged(index, members.drop_last()[i].roles@) && rank(
                mirror,
                guild,
                members.drop_last()[i].user,
            ) < rank(mirror, guild, me);
        assert(members[i] == members.drop_last()[i]);
    } else {
        let i = members.len() - 1;
        law_kick_needs_rank_permission_and_flag(index, mirror, me, guild, members[i], grants.last());
        assert(all[k] == (Action::Kick { guild, user: members[i].user }));
    }
}

impl AppState {
    /// The state of a bot that has seen no event: nobody mirrored, no role
    /// flagged.
    pub fn new(me: u64) -> (r: AppState)
        ensures
            r.me == me,
            r.kick_with@ == Set::<u64>::empty(),
            forall|guild: u64, user: u64| mirrored_position(r.mirror, guild, user) is None,
    {
        AppState { me, mirror: Mirror::new(), kick_with: KickIndex::new() }
    }
}

/// Refreshes the index from a guild's role list.
pub fn kickable_roles(state: &mut AppState, roles: &[Role])
    ensures
        final(state).kick_with@ == refreshed(old(state).kick_with@, roles@),
        final(state).me == old(state).me,
        final(state).mirror == old(state).mirror,
{
    state.kick_with.update(roles);
}

/// The position of a member's highest role in a guild, and [`NO_ROLE`] for
/// a member of whom the mirror reports no role.
pub fn max_position(state: &AppState, guild: u64, user: u64) -> (r: i64)
    ensures
        r == rank(state.mirror, guild, user),
{
    if guild == 0 || user == 0 {
        return NO_ROLE;
    }
    let found = match state.mirror.member_highest_role(guild, user) {
        Some(role) => state.mirror.role_position(role),
        None => None,
    };
    position_or_none(found)
}

/// The guild-level permissions that the mirror grants a user, as bits, and
/// `None` exactly where it cannot resolve them or an identifier is zero.
///
/// The grant is the resolved permissions, or, for a user who is no
/// administrator and whose communication is disabled at the moment of
/// asking, what is left of them for reading alone: see [`grant_fits`].
pub fn granted_permissions(state: &AppState, guild: u64, user: u64) -> (r: Option<u64>)
    ensures
        grant_fits(
            resolved_permissions(state.mirror, guild, user),
            has_timeout(state.mirror, guild, user),
            r,
        ),
{
    if guild != 0 && user != 0 {
        state.mirror.root_permissions(user, guild)
    } else {
        None
    }
}

/// The permission check alone: whether the grant to `acting_user` in `guild`
/// includes the removal of members. It never does where the resolved
/// permissions lack it, and always where they hold it and the user has no
/// timeout on record or is an administrator.
pub fn may_kick(state: &AppState, guild: u64, acting_user: u64) -> (r: bool)
    ensures
        exists|grant: Option<u64>|
            grant_fits(
                resolved_permissions(state.mirror, guild, acting_user),
                has_timeout(state.mirror, guild, acting_user),
                grant,
            ) && r == allows_kick(grant),
        r ==> allows_kick(resolved_permissions(state.mirror, guild, acting_user)),
        surely_allows_kick(
            resolved_permissions(state.mirror, guild, acting_user),
            has_timeout(state.mirror, guild, acting_user),
        ) ==> r,
{
    let grant = granted_permissions(state, guild, acting_user);
    let granted = permits_kick(grant);
    proof {
        let resolved = resolved_permissions(state.mirror, guild, acting_user);
        let timed = has_timeout(state.mirror, guild, acting_user);
        assert(grant_fits(resolved, timed, grant) && granted == allows_kick(grant));
        if granted {
            lemma_permitting_grant_is_uncut(resolved, timed, grant);
        }
    }
    granted
}

/// Runs both checks for a member. The bot's permissions are asked of the
/// mirror only where the position check has passed.
///
/// The member is outranked exactly where the position check fails. Past
/// that check the verdict follows the bot's granted permissions, which fit
/// the resolved ones: never `Permitted` where those lack the removal of
/// members, always `Permitted` where the clock cannot take it away.
pub fn authorize(state: &AppState, guild: u64, user: u64) -> (r: Verdict)
    ensures
        exists|grant: Option<u64>|
            grant_is_due(state.mirror, state.me, guild, user, grant) && r == verdict_of(
                rank(state.mirror, guild, user),
                rank(state.mirror, guild, state.me),
                grant,
            ),
        r == Verdict::Outranked <==> rank(state.mirror, guild, user) >= rank(
            state.mirror,
            guild,
            state.me,
        ),
        r == Verdict::Permitted ==> allows_kick(
            resolved_permissions(state.mirror, guild, state.me),
        ),
        rank(state.mirror, guild, user) < rank(state.mirror, guild, state.me) && !allows_kick(
            resolved_permissions(state.mirror, guild, state.me),
        ) ==> r == Verdict::NoPermission,
        rank(state.mirror, guild, user) < rank(state.mirror, guild, state.me)
            && surely_allows_kick(
            resolved_permissions(state.mirror, guild, state.me),
            has_timeout(state.mirror, guild, state.me),
        ) ==> r == Verdict::Permitted,
{
    let target = max_position(state, guild, user);
    let own = max_position(state, guild, state.me);
    let grant = if outranked(target, own) {
        None
    } else {
        granted_permissions(state, guild, state.me)
    };
    let verdict = judge(target, own, grant);
    proof {
        assert(grant_is_due(state.mirror, state.me, guild, user, grant) && verdict == verdict_of(
            rank(state.mirror, guild, user),
            rank(state.mirror, guild, state.me),
            grant,
        ));
        if target < own {
            lemma_fitting_grant_decides(
                target,
                own,
                resolved_permissions(state.mirror, guild, state.me),
                has_timeout(state.mirror, guild, state.me),
                grant,
            );
        }
    }
    verdict
}

/// Whether the bot may remove a member: whether both checks pass. That
/// needs the bot strictly above the member and resolved permissions that
/// include the removal of members, and it is owed where, besides, the clock
/// cannot take the permission away.
pub fn can_kick(state: &AppState, guild: u64, user: u64) -> (r: bool)
    ensures
        exists|grant: Option<u64>|
            grant_is_due(state.mirror, state.me, guild, user, grant) && r == (verdict_of(
                rank(state.mirror, guild, user),
                rank(state.mirror, guild, state.me),
                grant,
            ) == Verdict::Permitted),
        r ==> rank(state.mirror, guild, user) < rank(state.mirror, guild, state.me) && allows_kick(
            resolved_permissions(state.mirror, guild, state.me),
        ),
        rank(state.mirror, guild, user) < rank(state.mirror, guild, state.me) && !allows_kick(
            resolved_permissions(state.mirror, guild, state.me),
        ) ==> !r,
        rank(state.mirror, guild, user) < rank(state.mirror, guild, state.me)
            && surely_allows_kick(
            resolved_permissions(state.mirror, guild, state.me),
            has_timeout(state.mirror, guild, state.me),
        ) ==> r,
{
    let verdict = authorize(state, guild, user);
    proof {
        let grant = choose|grant: Option<u64>|
            grant_is_due(state.mirror, state.me, guild, user, grant) && verdict == verdict_of(
                rank(state.mirror, guild, user),
                rank(state.mirror, guild, state.me),
                grant,
            );
        assert(grant_is_due(state.mirror, state.me, guild, user, grant) && (verdict
            == Verdict::Permitted) == (verdict_of(
            rank(state.mirror, guild, user),
            rank(state.mirror, guild, state.me),
            grant,
        ) == Verdict::Permitted));
    }
    verdict == Verdict::Permitted
}

/// The removal of a member who holds a flagged role, and nothing for a
/// member who holds none. No authorization check is made here.
pub fn maybe_kick(state: &AppState, guild: u64, user: u64, roles: &[u64]) -> (r: Option<Action>)
    ensures
        r == (if holds_flagged(state.kick_with@, roles@) {
            Some(Action::Kick { guild, user })
        } else {
            None
        }),
{
    if state.kick_with.flags_any(roles) {
        Some(Action::Kick { guild, user })
    } else {
        None
    }
}

/// What a verdict and the member's roles call for.
pub fn act_on(state: &AppState, verdict: Verdict, guild: u64, user: u64, roles: &[u64]) -> (r:
    Option<Action>)
    ensures
        r == member_action(verdict, holds_flagged(state.kick_with@, roles@), guild, user),
{
    match verdict {
        Verdict::Outranked => Some(Action::WarnOutranked { guild, user }),
        Verdict::NoPermission => Some(Action::WarnNoPermission { guild }),
        Verdict::Permitted => maybe_kick(state, guild, user, roles),
    }
}

/// What a grant that is due decides for a member: the warning of rank
/// exactly where the member stands at or above the bot; below the bot, the
/// warning of permission where the resolved permissions lack the removal of
/// members, and the removal of a flagged member, or nothing for any other,
/// where the clock cannot take the permission away. A removal is never
/// decided without a flagged role, a bot strictly above the member and
/// resolved permissions that include it.
pub proof fn law_due_grant_decides_member(
    index: Set<u64>,
    mirror: Mirror,
    me: u64,
    guild: u64,
    member: Member,
    grant: Option<u64>,
)
    requires
        grant_is_due(mirror, me, guild, member.user, grant),
    ensures
        rank(mirror, guild, member.user) >= rank(mirror, guild, me) ==> member_response(
            index,
            mirror,
            me,
            guild,
            member,
            grant,
        ) == Some(Action::WarnOutranked { guild, user: member.user }),
        rank(mirror, guild, member.user) < rank(mirror, guild, me) && !allows_kick(
            resolved_permissions(mirror, guild, me),
        ) ==> member_response(index, mirror, me, guild, member, grant) == Some(
            Action::WarnNoPermission { guild },
        ),
        rank(mirror, guild, member.user) < rank(mirror, guild, me) && surely_allows_kick(
            resolved_permissions(mirror, guild, me),
            has_timeout(mirror, guild, me),
        ) ==> member_response(index, mirror, me, guild, member, grant) == (if holds_flagged(
            index,
            member.roles@,
        ) {
            Some(Action::Kick { guild, user: member.user })
        } else {
            None
        }),
        member_response(index, mirror, me, guild, member, grant) == Some(
            Action::Kick { guild, user: member.user },
        ) ==> holds_flagged(index, member.roles@) && rank(mirror, guild, member.user) < rank(
            mirror,
            guild,
            me,
        ) && allows_kick(resolved_permissions(mirror, guild, me)),
{
    if rank(mirror, guild, member.user) < rank(mirror, guild, me) {
        lemma_fitting_grant_decides(
            rank(mirror, guild, member.user),
            rank(mirror, guild, me),
            resolved_permissions(mirror, guild, me),
            has_timeout(mirror, guild, me),
            grant,
        );
    }
}

/// Judges one member: the authorization first, then the member's roles.
///
/// The answer is the warning of rank exactly where the member stands at or
/// above the bot. Below the bot it is the warning of permission where the
/// resolved permissions lack the removal of members; and where the clock
/// cannot take that permission away, it is the removal of a member who
/// holds a flagged role and nothing for one who holds none.
pub fn handle_user(state: &AppState, guild: u64, user: u64, roles: &[u64]) -> (r: Option<Action>)
    ensures
        exists|grant: Option<u64>|
            grant_is_due(state.mirror, state.me, guild, user, grant) && r == member_action(
                verdict_of(
                    rank(state.mirror, guild, user),
                    rank(state.mirror, guild, state.me),
                    grant,
                ),
                holds_flagged(state.kick_with@, roles@),
                guild,
                user,
            ),
        rank(state.mirror, guild, user) >= rank(state.mirror, guild, state.me) ==> r == Some(
            Action::WarnOutranked { guild, user },
        ),
        rank(state.mirror, guild, user) < rank(state.mirror, guild, state.me) && !allows_kick(
            resolved_permissions(state.mirror, guild, state.me),
        ) ==> r == Some(Action::WarnNoPermission { guild }),
        rank(state.mirror, guild, user) < rank(state.mirror, guild, state.me)
            && surely_allows_kick(
            resolved_permissions(state.mirror, guild, state.me),
            has_timeout(state.mirror, guild, state.me),
        ) ==> r == (if holds_flagged(state.kick_with@, roles@) {
            Some(Action::Kick { guild, user })
        } else {
            None
        }),
        r == Some(Action::Kick { guild, user }) ==> holds_flagged(state.kick_with@, roles@)
            && rank(state.mirror, guild, user) < rank(state.mirror, guild, state.me)
            && allows_kick(resolved_permissions(state.mirror, guild, state.me)),
{
    let verdict = authorize(state, guild, user);
    let action = act_on(state, verdict, guild, user, roles);
    proof {
        let grant = choose|grant: Option<u64>|
            grant_is_due(state.mirror, state.me, guild, user, grant) && verdict == verdict_of(
                rank(state.mirror, guild, user),
                rank(state.mirror, guild, state.me),
                grant,
            );
        assert(grant_is_due(state.mirror, state.me, guild, user, grant) && action
            == member_action(
            verdict_of(
                rank(state.mirror, guild, user),
                rank(state.mirror, guild, state.me),
                grant,
            ),
            holds_flagged(state.kick_with@, roles@),
            guild,
            user,
        ));
    }
    action
}

/// Judges the members of a membership event, one after another.
pub fn handle_members(state: &AppState, guild: u64, members: &[Member]) -> (r: Vec<Action>)
    ensures
        exists|grants: Seq<Option<u64>>|
            grants_are_due(state.mirror, state.me, guild, members@, grants) && r@
                == chunk_response(
                state.kick_with@,
                state.mirror,
                state.me,
                guild,
                members@,
                grants,
            ),
{
    let mut actions: Vec<Action> = Vec::new();
    let ghost mut grants: Seq<Option<u64>> = Seq::empty();
    let mut i: usize = 0;
    while i < members.len()
        invariant
            i <= members@.len(),
            grants_are_due(state.mirror, state.me, guild, members@.take(i as int), grants),
            actions@ == chunk_response(
                state.kick_with@,
                state.mirror,
                state.me,
                guild,
                members@.take(i as int),
                grants,
            ),
        decreases members@.len() - i,
    {
        let member = &members[i];
        let action = handle_user(state, guild, member.user, member.roles.as_slice());
        proof {
            let grant = choose|grant: Option<u64>|
                grant_is_due(state.mirror, state.me, guild, member.user, grant) && action
                    == member_action(
                    verdict_of(
                        rank(state.mirror, guild, member.user),
                        rank(state.mirror, guild, state.me),
                        grant,
                    ),
                    holds_flagged(state.kick_with@, member.roles@),
                    guild,
                    member.user,
                );
            let seen = members@.take(i + 1);
            let longer = grants.push(grant);
            assert(seen.drop_last() == members@.take(i as int));
            assert(seen.last() == members@[i as int]);
            assert(longer.drop_last() == grants);
            assert forall|j: int| 0 <= j < seen.len() implies grant_is_due(
                state.mirror,
                state.me,
                guild,
                seen[j].user,
                #[trigger] longer[j],
            ) by {
                if j < i {
                    assert(seen[j] == members@.take(i as int)[j]);
                    assert(longer[j] == grants[j]);
                }
            }
            grants = longer;
        }
        match action {
            Some(action) => actions.push(action),
            None => {},
        }
        i += 1;
    }
    proof {
        assert(members@.take(members@.len() as int) == members@);
    }
    actions
}

/// Acts on an event that the mirror has already folded: a guild's role list
/// refreshes the index, a guild that became available is asked for all its
/// members, and the members of a membership event are judged.
pub fn react(state: &mut AppState, incoming: &Incoming) -> (r: Vec<Action>)
    ensures
        final(state).me == old(state).me,
        final(state).mirror == old(state).mirror,
        final(state).kick_with@ == next_index(
            old(state).kick_with@,
            incoming.kind(),
            incoming.roles(),
        ),
        exists|grants: Seq<Option<u64>>|
            grants_are_due(
                old(state).mirror,
                old(state).me,
                incoming.guild(),
                incoming.members(),
                grants,
            ) && r@ == response(
                old(state).kick_with@,
                old(state).mirror,
                old(state).me,
                incoming.kind(),
                incoming.guild(),
                incoming.members(),
                grants,
            ),
{
    let mut actions: Vec<Action> = Vec::new();
    let ghost mut grants: Seq<Option<u64>> = Seq::empty();
    match incoming {
        Incoming::GuildAvailable { guild, roles } => {
            actions.push(Action::RequestMembers { guild: *guild });
            kickable_roles(state, roles.as_slice());
        },
        Incoming::GuildUpdate { roles } => {
            kickable_roles(state, roles.as_slice());
        },
        Incoming::Members { guild, members } => {
            actions = handle_members(state, *guild, members.as_slice());
            proof {
                grants = choose|grants: Seq<Option<u64>>|
                    grants_are_due(state.mirror, state.me, *guild, members@, grants) && actions@
                        == chunk_response(
                        state.kick_with@,
                        state.mirror,
                        state.me,
                        *guild,
                        members@,
                        grants,
                    );
            }
        },
        Incoming::Other => {},
    }
    proof {
        assert(grants_are_due(
            old(state).mirror,
            old(state).me,
            incoming.guild(),
            incoming.members(),
            grants,
        ) && actions@ == response(
            old(state).kick_with@,
            old(state).mirror,
            old(state).me,
            incoming.kind(),
            incoming.guild(),
            incoming.members(),
            grants,
        ));
    }
    actions
}

/// Takes in one gateway event: folds it into the mirror, then acts on it
/// against the mirror as it stands after the fold.
pub fn observe(state: &mut AppState, event: &Event) -> (r: Vec<Action>)
    ensures
        final(state).me == old(state).me,
        final(state).mirror == mirror_after(old(state).mirror, *event),
        final(state).kick_with@ == next_index(
            old(state).kick_with@,
            event_kind(*event),
            event_roles(*event),
        ),
        exists|grants: Seq<Option<u64>>|
            grants_are_due(
                final(state).mirror,
                old(state).me,
                event_guild(*event),
                judged_members(event_kind(*event), event_members(*event)),
                grants,
            ) && r@ == response(
                old(state).kick_with@,
                final(state).mirror,
                old(state).me,
                event_kind(*event),
                event_guild(*event),
                event_members(*event),
                grants,
            ),
{
    state.mirror.update(event);
    let incoming = classify(event);
    let ghost folded = state.mirror;
    let ghost index = state.kick_with@;
    let actions = react(state, &incoming);
    proof {
        let grants = choose|grants: Seq<Option<u64>>|
            grants_are_due(folded, state.me, incoming.guild(), incoming.members(), grants)
                && actions@ == response(
                index,
                folded,
                state.me,
                incoming.kind(),
                incoming.guild(),
                incoming.members(),
                grants,
            );
        assert(incoming.members() == judged_members(event_kind(*event), event_members(*event)));
        assert(grants_are_due(
            folded,
            state.me,
            event_guild(*event),
            judged_members(event_kind(*event), event_members(*event)),
            grants,
        ) && actions@ == response(
            index,
            folded,
            state.me,
            event_kind(*event),
            event_guild(*event),
            event_members(*event),
            grants,
        ));
    }
    actions
}

} // verus!

//! What the bot reads of a gateway event, and what it asks to be done.

use twilight_model::gateway::event::Event;
use twilight_model::gateway::payload::incoming::GuildCreate;
use vstd::prelude::*;
use crate::role::Role;

verus! {

/// A guild member as a membership event shows it.
#[derive(Clone, Debug, PartialEq, Eq)]
pub struct Member {
    pub user: u64,
    /// The roles that the member holds.
    pub roles: Vec<u64>,
}

impl Member {
    pub fn new(user: u64, roles: Vec<u64>) -> (r: Member)
        ensures
            r.user == user,
            r.roles == roles,
    {
        Member { user, roles }
    }
}

/// The kinds of event that the bot acts on.
#[derive(Clone, Copy, Debug, PartialEq, Eq, Structural)]
pub enum EventKind {
    /// A guild became available, with its full role list.
    GuildAvailable,
    /// A guild changed, with its full role list.
    GuildUpdate,
    /// A member joined or changed, or a batch of members arrived in answer
    /// to a request for all members.
    Members,
    /// Anything else: the mirror folds it, the bot does nothing.
    Other,
}

/// An event, reduced to what the bot reads of it.
#[derive(Clone, Debug, PartialEq, Eq)]
pub enum Incoming {
    GuildAvailable { guild: u64, roles: Vec<Role> },
    GuildUpdate { roles: Vec<Role> },
    Members { guild: u64, members: Vec<Member> },
    Other,
}

impl Incoming {
    pub open spec fn kind(self) -> EventKind {
        match self {
            Incoming::GuildAvailable { .. } => EventKind::GuildAvailable,
            Incoming::GuildUpdate { .. } => EventKind::GuildUpdate,
            Incoming::Members { .. } => EventKind::Members,
            Incoming::Other => EventKind::Other,
        }
    }

    /// The guild that the bot is to act in; zero where the event calls for
    /// no action.
    pub open spec fn guild(self) -> u64 {
        match self {
            Incoming::GuildAvailable { guild, .. } => guild,
            Incoming::Members { guild, .. } => guild,
            _ => 0,
        }
    }

    /// The role list of a guild event.
    pub open spec fn roles(self) -> Seq<Role> {
        match self {
            Incoming::GuildAvailable { roles, .. } => roles@,
            Incoming::GuildUpdate { roles } => roles@,
            _ => Seq::empty(),
        }
    }

    /// The members to judge.
    pub open spec fn members(self) -> Seq<Member> {
        match self {
            Incoming::Members { members, .. } => members@,
            _ => Seq::empty(),
        }
    }
}

/// Something for the surrounding program to carry out.
#[derive(Clone, Copy, Debug, PartialEq, Eq, Structural)]
pub enum Action {
    /// Ask the gateway for all members of a guild.
    RequestMembers { guild: u64 },
    /// Remove a member from a guild: one attempt, no retry.
    Kick { guild: u64, user: u64 },
    /// Warn that the member stands at or above the bot in the guild.
    WarnOutranked { guild: u64, user: u64 },
    /// Warn that the bot may not remove members in the guild.
    WarnNoPermission { guild: u64 },
}

/// The kind of an event, as [`kind_of_event`] reads it.
pub uninterp spec fn event_kind(event: Event) -> EventKind;

/// The guild of an event, as [`guild_of_event`] reads it.
pub uninterp spec fn event_guild(event: Event) -> u64;

/// The roles that an event lists, as [`roles_of_event`] reads them.
pub uninterp spec fn event_roles(event: Event) -> Seq<Role>;

/// The members that an event shows, as [`members_of_event`] reads them.
pub uninterp spec fn event_members(event: Event) -> Seq<Member>;

/// Tells the variants of `twilight_model`'s `Event` apart: `MemberAdd`,
/// `MemberUpdate` and `MemberChunk` are [`EventKind::Members`], and a
/// `GuildCreate` for a guild that is not available counts as
/// [`EventKind::Other`], as does every other variant.
///
/// Trusted: the answer depends on the event alone.
#[verifier::external_body]
pub(crate) fn kind_of_event(event: &Event) -> (r: EventKind)
    ensures
        r == event_kind(*event),
{
    match event {
        Event::GuildCreate(created) => match &**created {
            GuildCreate::Available(_) => EventKind::GuildAvailable,
            GuildCreate::Unavailable(_) => EventKind::Other,
        },
        Event::GuildUpdate(_) => EventKind::GuildUpdate,
        Event::MemberAdd(_) => EventKind::Members,
        Event::MemberUpdate(_) => EventKind::Members,
        Event::MemberChunk(_) => EventKind::Members,
        _ => EventKind::Other,
    }
}

/// The identifier of the guild that a guild or membership event is about,
/// from `GuildCreate::id` or the payload's `id` or `guild_id` field, and
/// zero for any other event.
///
/// Trusted: the answer depends on the event alone.
#[verifier::external_body]
pub(crate) fn guild_of_event(event: &Event) -> (r: u64)
    ensures
        r == event_guild(*event),
{
    match event {
        Event::GuildCreate(created) => created.id().get(),
        Event::GuildUpdate(updated) => updated.id.get(),
        Event::MemberAdd(added) => added.guild_id.get(),
        Event::MemberUpdate(updated) => updated.guild_id.get(),
        Event::MemberChunk(chunk) => chunk.guild_id.get(),
        _ => 0,
    }
}

/// The `roles` of a `GuildCreate` for an available guild or of a
/// `GuildUpdate`, each role with its identifier, name and position, in the
/// order of the event; empty for any other event.
///
/// Trusted: the answer depends on the event alone.
#[verifier::external_body]
pub(crate) fn roles_of_event(event: &Event) -> (r: Vec<Role>)
    ensures
        r@ == event_roles(*event),
{
    let listed: &[twilight_model::guild::Role] = match event {
        Event::GuildCreate(created) => match &**created {
            GuildCreate::Available(guild) => &guild.roles,
            GuildCreate::Unavailable(_) => &[],
        },
        Event::GuildUpdate(updated) => &updated.roles,
        _ => &[],
    };
    listed.iter().map(|role| Role::new(role.id.get(), role.name.clone(), role.position)).collect()
}

/// The member of a `MemberAdd` or `MemberUpdate`, or the `members` of a
/// `MemberChunk` in the order of the event, each with the identifiers of
/// the user and of the roles held; empty for any other event.
///
/// Trusted: the answer depends on the event alone.
#[verifier::external_body]
pub(crate) fn members_of_event(event: &Event) -> (r: Vec<Member>)
    ensures
        r@ == event_members(*event),
{
    match event {
        Event::MemberAdd(added) => {
            vec![Member::new(added.user.id.get(), added.roles.iter().map(|role| role.get()).collect())]
        },
        Event::MemberUpdate(updated) => {
            vec![Member::new(updated.user.id.get(), updated.roles.iter().map(|role| role.get()).collect())]
        },
        Event::MemberChunk(chunk) => chunk.members.iter().map(
            |member| Member::new(member.user.id.get(), member.roles.iter().map(|role| role.get()).collect()),
        ).collect(),
        _ => Vec::new(),
    }
}

/// Reads an event: its kind and, for the kinds that the bot acts on, the
/// guild and the roles or members that it carries.
pub fn classify(event: &Event) -> (r: Incoming)
    ensures
        r.kind() == event_kind(*event),
        r.kind() != EventKind::Other && r.kind() != EventKind::GuildUpdate ==> r.guild()
            == event_guild(*event),
        r.kind() == EventKind::GuildAvailable || r.kind() == EventKind::GuildUpdate ==> r.roles()
            == event_roles(*event),
        r.kind() == EventKind::Members ==> r.members() == event_members(*event),
{
    match kind_of_event(event) {
        EventKind::GuildAvailable => Incoming::GuildAvailable {
            guild: guild_of_event(event),
            roles: roles_of_event(event),
        },
        EventKind::GuildUpdate => Incoming::GuildUpdate { roles: roles_of_event(event) },
        EventKind::Members => Incoming::Members {
            guild: guild_of_event(event),
            members: members_of_event(event),
        },
        EventKind::Other => Incoming::Other,
    }
}

} // verus!

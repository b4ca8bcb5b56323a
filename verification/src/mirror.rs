//! The local state mirror: a cache of the roles and members of the guilds
//! the bot has seen, kept by `twilight_cache_inmemory` and folded forward
//! with every gateway event.
//!
//! The cache is opaque to the verifier. What the rest of the crate needs of
//! it has a name here, and each call into it goes through one function whose
//! contract is taken on trust.

use twilight_cache_inmemory::{DefaultInMemoryCache, InMemoryCacheBuilder, ResourceType};
use twilight_model::gateway::event::Event;
use twilight_model::id::Id;
use vstd::prelude::*;
use crate::authorization::{ADMINISTRATOR, READ_ONLY};

verus! {

/// A gateway event as `twilight_model` delivers it.
#[verifier::external_type_specification]
#[verifier::external_body]
pub struct ExEvent(Event);

/// The cache of roles and members.
///
/// The verifier does not look inside: it knows the mirror only through
/// [`top_roles`] and [`role_positions`].
#[verifier::external_body]
pub struct Mirror {
    cache: DefaultInMemoryCache,
}

/// For each pair of a guild and a user, the role that the cache's
/// `member_highest_role` reports for that member. A pair without an entry is
/// a member that the cache does not know or that holds no cached role.
pub uninterp spec fn top_roles(mirror: Mirror) -> Map<(u64, u64), u64>;

/// For each role that the cache holds, its position.
pub uninterp spec fn role_positions(mirror: Mirror) -> Map<u64, i64>;

/// For each pair of a guild and a user whose guild-level permissions the
/// cache can resolve, those permissions as bits, before anything is taken
/// from a member whose communication is disabled. A pair without an entry is
/// one for which `InMemoryCachePermissions::root` returns an error: the
/// member, one of the member's roles or the guild's `@everyone` role is not
/// cached.
pub uninterp spec fn unrestricted_permissions(mirror: Mirror) -> Map<(u64, u64), u64>;

/// The pairs of a guild and a user whose cached member has a time on record
/// until which the member's communication is disabled, be it past or ahead.
pub uninterp spec fn timeouts(mirror: Mirror) -> Set<(u64, u64)>;

/// The mirror after `InMemoryCache::update` has folded `event` into it. The
/// fold reads nothing but the cache and the event.
pub uninterp spec fn mirror_after(mirror: Mirror, event: Event) -> Mirror;

impl Mirror {
    /// A mirror that has seen no event.
    ///
    /// Builds the cache with `InMemoryCacheBuilder`, for members and roles
    /// only. Trusted: the new cache holds no member and no role.
    #[verifier::external_body]
    pub(crate) fn new() -> (r: Mirror)
        ensures
            forall|member: (u64, u64)| !top_roles(r).contains_key(member),
            forall|role: u64| !role_positions(r).contains_key(role),
    {
        let kept = ResourceType::MEMBER | ResourceType::ROLE;
        Mirror { cache: InMemoryCacheBuilder::new().resource_types(kept).build() }
    }

    /// Folds one event into the cache with `InMemoryCache::update`.
    ///
    /// Trusted: what the cache holds afterwards depends on what it held and
    /// on the event alone. Of what that is, nothing is claimed.
    #[verifier::external_body]
    pub(crate) fn update(&mut self, event: &Event)
        ensures
            *final(self) == mirror_after(*old(self), *event),
    {
        self.cache.update(event);
    }

    /// The highest role of a member, from `InMemoryCache::member_highest_role`.
    ///
    /// Trusted: the answer is the entry of [`top_roles`] for the pair, and
    /// `None` where there is none.
    #[verifier::external_body]
    pub(crate) fn member_highest_role(&self, guild: u64, user: u64) -> (r: Option<u64>)
        requires
            guild != 0,
            user != 0,
        ensures
            r == (if top_roles(*self).contains_key((guild, user)) {
                Some(top_roles(*self)[(guild, user)])
            } else {
                None
            }),
            r != Some(0u64),
    {
        self.cache.member_highest_role(Id::new(guild), Id::new(user)).map(|role| role.get())
    }

    /// The position of a role, from `InMemoryCache::role`.
    ///
    /// Trusted: the answer is the entry of [`role_positions`] for the role,
    /// and `None` where the cache does not hold it.
    #[verifier::external_body]
    pub(crate) fn role_position(&self, role: u64) -> (r: Option<i64>)
        requires
            role != 0,
        ensures
            r == (if role_positions(*self).contains_key(role) {
                Some(role_positions(*self)[role])
            } else {
                None
            }),
    {
        self.cache.role(Id::new(role)).map(|found| found.position)
    }

    /// The guild-level permissions of a user, as bits, from
    /// `InMemoryCachePermissions::root`; `None` where it returns an error.
    ///
    /// The cache compares the clock with the time until which a member's
    /// communication is disabled, so the bits are not a function of the
    /// cache alone. Trusted is what holds whatever the clock says: there is
    /// an answer exactly for the pairs of [`unrestricted_permissions`]; the
    /// answer is the entry itself or the entry cut down to [`READ_ONLY`];
    /// the entry of an administrator is never cut down; and neither is that
    /// of a member outside [`timeouts`].
    #[verifier::external_body]
    pub(crate) fn root_permissions(&self, user: u64, guild: u64) -> (r: Option<u64>)
        requires
            user != 0,
            guild != 0,
        ensures
            r is Some <==> unrestricted_permissions(*self).contains_key((guild, user)),
            r matches Some(bits) ==> bits == unrestricted_permissions(*self)[(guild, user)]
                || bits == unrestricted_permissions(*self)[(guild, user)] & READ_ONLY,
            r matches Some(bits) ==> unrestricted_permissions(*self)[(guild, user)]
                & ADMINISTRATOR == 0 || bits == unrestricted_permissions(*self)[(guild, user)],
            r matches Some(bits) ==> timeouts(*self).contains((guild, user)) || bits
                == unrestricted_permissions(*self)[(guild, user)],
    {
        self.cache.permissions().root(Id::new(user), Id::new(guild)).ok().map(|held| held.bits())
    }
}

} // verus!

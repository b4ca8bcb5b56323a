use kickme::event::{Action, Incoming, Member};
use kickme::authorization::{judge, outranked, permits_kick, position_or_none, Verdict, KICK_MEMBERS, NO_ROLE};
use kickme::index::KickIndex;
use kickme::name::{fold, folded_contains, folded_match_at, is_kick_me};
use kickme::role::Role;
use kickme::state::{act_on, authorize, can_kick, handle_user, kickable_roles, max_position, maybe_kick, react, AppState};

fn role(id: u64, name: &str, position: i64) -> Role {
    Role::new(id, name.to_string(), position)
}

#[test]
fn fold_lowers_ascii_capitals_only() {
    assert_eq!(fold(b'A'), b'a');
    assert_eq!(fold(b'Z'), b'z');
    assert_eq!(fold(b'K'), b'k');
    assert_eq!(fold(b'a'), b'a');
    assert_eq!(fold(b'@'), b'@');
    assert_eq!(fold(b'['), b'[');
    assert_eq!(fold(b' '), b' ');
    assert_eq!(fold(0xc3), 0xc3);
    assert_eq!(fold(0xff), 0xff);
}

#[test]
fn fold_agrees_with_std_on_every_byte() {
    for b in 0u8..=255 {
        assert_eq!(fold(b), b.to_ascii_lowercase());
    }
}

#[test]
fn match_at_checks_one_offset() {
    assert!(folded_match_at(b"xKICK ME", b"kick me", 1));
    assert!(!folded_match_at(b"xKICK ME", b"kick me", 0));
    assert!(folded_match_at(b"abc", b"", 3));
}

#[test]
fn contains_finds_the_needle_anywhere() {
    assert!(folded_contains(b"kick me", b"kick me"));
    assert!(folded_contains(b"Kick Me please", b"kick me"));
    assert!(folded_contains(b"please KICK ME", b"kick me"));
    assert!(!folded_contains(b"kick m", b"kick me"));
    assert!(!folded_contains(b"", b"kick me"));
    assert!(folded_contains(b"", b""));
    assert!(folded_contains(b"abc", b""));
}

#[test]
fn contains_folds_the_haystack_not_the_needle() {
    assert!(!folded_contains(b"kick me", b"KICK ME"));
}

#[test]
fn kick_me_names() {
    assert!(is_kick_me("kick me"));
    assert!(is_kick_me("please kick me!!"));
    assert!(is_kick_me("KICK ME"));
    assert!(is_kick_me("KiCk Me now"));
    assert!(is_kick_me("kick me NOT please"));
    assert!(is_kick_me("kickkick me"));
}

#[test]
fn other_names() {
    assert!(!is_kick_me(""));
    assert!(!is_kick_me("kick"));
    assert!(!is_kick_me("kickme"));
    assert!(!is_kick_me("kick  me"));
    assert!(!is_kick_me("kick-me"));
    assert!(!is_kick_me("kick m"));
    assert!(!is_kick_me("ick me"));
    assert!(!is_kick_me("moderator"));
}

#[test]
fn names_beyond_ascii() {
    assert!(is_kick_me("\u{1f97e} kick me \u{1f97e}"));
    assert!(is_kick_me("\u{e9}kick me"));
    // The Kelvin sign lower-cases to `k` in Unicode, not in ASCII.
    assert!(!is_kick_me("\u{212a}ick me"));
    assert!(!is_kick_me("k\u{131}ck me"));
}

#[test]
fn name_rule_agrees_with_std() {
    let names = ["Kick Me", "kick", "xxKICK MExx", "", "k i c k m e", "\u{c9}KICK ME\u{c9}", "kick\tme"];
    for name in names {
        assert_eq!(is_kick_me(name), name.to_ascii_lowercase().contains("kick me"));
    }
}

#[test]
fn new_index_is_empty() {
    let index = KickIndex::new();
    assert_eq!(index.len(), 0);
    assert!(!index.contains(1));
    assert!(!index.flags_any(&[1, 2, 3]));
}

#[test]
fn update_adds_matching_roles_and_no_others() {
    let mut index = KickIndex::new();
    index.update(&[role(1, "everyone", 0), role(2, "Kick Me", 1), role(3, "mods", 2)]);
    assert!(!index.contains(1));
    assert!(index.contains(2));
    assert!(!index.contains(3));
    assert_eq!(index.len(), 1);
}

#[test]
fn update_twice_is_update_once() {
    let roles = [role(1, "kick me", 0), role(2, "admin", 1), role(3, "KICK ME too", 2)];
    let mut once = KickIndex::new();
    once.update(&[role(2, "kick me", 1), role(9, "kick me", 4)]);
    let mut twice = KickIndex::new();
    twice.update(&[role(2, "kick me", 1), role(9, "kick me", 4)]);
    once.update(&roles);
    twice.update(&roles);
    twice.update(&roles);
    for id in 0..12 {
        assert_eq!(once.contains(id), twice.contains(id));
    }
    assert_eq!(once.len(), 3);
    assert_eq!(twice.len(), 3);
}

#[test]
fn rename_without_the_token_evicts() {
    let mut index = KickIndex::new();
    index.update(&[role(5, "kick me", 1)]);
    assert!(index.contains(5));
    index.update(&[role(5, "keep me", 1)]);
    assert!(!index.contains(5));
    assert_eq!(index.len(), 0);
}

#[test]
fn rename_that_keeps_the_token_stays() {
    let mut index = KickIndex::new();
    index.update(&[role(5, "kick me please", 1)]);
    assert!(index.contains(5));
    index.update(&[role(5, "kick me NOT please", 1)]);
    assert!(index.contains(5));
}

#[test]
fn role_left_out_of_a_list_is_left_alone() {
    let mut index = KickIndex::new();
    index.update(&[role(5, "kick me", 1), role(6, "kick me as well", 2)]);
    index.update(&[role(6, "kick me as well", 2)]);
    assert!(index.contains(5));
    assert!(index.contains(6));
    index.update(&[]);
    assert!(index.contains(5));
    assert_eq!(index.len(), 2);
}

#[test]
fn last_entry_for_a_role_decides() {
    let mut index = KickIndex::new();
    index.update(&[role(5, "kick me", 1), role(5, "member", 1)]);
    assert!(!index.contains(5));
    index.update(&[role(5, "member", 1), role(5, "kick me", 1)]);
    assert!(index.contains(5));
}

#[test]
fn flags_any_looks_at_every_held_role() {
    let mut index = KickIndex::new();
    index.update(&[role(5, "kick me", 1)]);
    assert!(index.flags_any(&[5]));
    assert!(index.flags_any(&[1, 2, 5]));
    assert!(index.flags_any(&[5, 1]));
    assert!(!index.flags_any(&[1, 2]));
    assert!(!index.flags_any(&[]));
}

#[test]
fn absent_position_is_minus_one() {
    assert_eq!(NO_ROLE, -1);
    assert_eq!(position_or_none(None), -1);
    assert_eq!(position_or_none(Some(7)), 7);
    assert_eq!(position_or_none(Some(0)), 0);
    assert_eq!(position_or_none(Some(-3)), -3);
}

#[test]
fn position_check_is_strict() {
    assert!(outranked(5, 5));
    assert!(outranked(6, 5));
    assert!(!outranked(4, 5));
    assert!(outranked(-1, -1));
    assert!(!outranked(-1, 0));
}

#[test]
fn permission_check_reads_the_kick_bit() {
    assert_eq!(KICK_MEMBERS, 2);
    assert!(permits_kick(Some(2)));
    assert!(permits_kick(Some(0xffff_ffff_ffff_ffff)));
    assert!(permits_kick(Some(6)));
    assert!(!permits_kick(Some(0)));
    assert!(!permits_kick(Some(1)));
    assert!(!permits_kick(Some(4 | 8)));
    assert!(!permits_kick(None));
}

#[test]
fn judge_checks_position_before_permission() {
    assert_eq!(judge(5, 10, Some(2)), Verdict::Permitted);
    assert_eq!(judge(5, 3, Some(2)), Verdict::Outranked);
    assert_eq!(judge(5, 5, Some(2)), Verdict::Outranked);
    assert_eq!(judge(5, 3, None), Verdict::Outranked);
    assert_eq!(judge(5, 10, None), Verdict::NoPermission);
    assert_eq!(judge(5, 10, Some(1)), Verdict::NoPermission);
    assert_eq!(judge(-1, -1, Some(2)), Verdict::Outranked);
    assert_eq!(judge(-1, 0, Some(2)), Verdict::Permitted);
}

#[test]
fn fresh_state_knows_nobody() {
    let state = AppState::new(42);
    assert_eq!(state.me, 42);
    assert_eq!(state.kick_with.len(), 0);
    assert_eq!(max_position(&state, 1, 7), -1);
    assert_eq!(max_position(&state, 1, 42), -1);
}

#[test]
fn zero_identifiers_name_nothing() {
    let state = AppState::new(42);
    assert_eq!(max_position(&state, 0, 7), -1);
    assert_eq!(max_position(&state, 1, 0), -1);
    assert_eq!(authorize(&state, 0, 7), Verdict::Outranked);
    let nobody = AppState::new(0);
    assert_eq!(authorize(&nobody, 1, 7), Verdict::Outranked);
    assert!(!can_kick(&nobody, 1, 7));
}

#[test]
fn roleless_bot_may_kick_nobody() {
    let state = AppState::new(42);
    assert_eq!(authorize(&state, 1, 7), Verdict::Outranked);
    assert!(!can_kick(&state, 1, 7));
    assert_eq!(handle_user(&state, 1, 7, &[5]), Some(Action::WarnOutranked { guild: 1, user: 7 }));
}

#[test]
fn kickable_roles_refreshes_the_index() {
    let mut state = AppState::new(42);
    kickable_roles(&mut state, &[role(5, "Kick me", 1), role(6, "mods", 2)]);
    assert!(state.kick_with.contains(5));
    assert!(!state.kick_with.contains(6));
    assert_eq!(state.me, 42);
}

#[test]
fn maybe_kick_needs_a_flagged_role() {
    let mut state = AppState::new(42);
    kickable_roles(&mut state, &[role(5, "kick me", 1)]);
    assert_eq!(maybe_kick(&state, 1, 7, &[5]), Some(Action::Kick { guild: 1, user: 7 }));
    assert_eq!(maybe_kick(&state, 1, 7, &[3, 5, 4]), Some(Action::Kick { guild: 1, user: 7 }));
    assert_eq!(maybe_kick(&state, 1, 7, &[3, 4]), None);
    assert_eq!(maybe_kick(&state, 1, 7, &[]), None);
}

#[test]
fn act_on_follows_the_verdict() {
    let mut state = AppState::new(42);
    kickable_roles(&mut state, &[role(5, "kick me", 1)]);
    assert_eq!(act_on(&state, Verdict::Permitted, 1, 7, &[5]), Some(Action::Kick { guild: 1, user: 7 }));
    assert_eq!(act_on(&state, Verdict::Permitted, 1, 7, &[4]), None);
    assert_eq!(act_on(&state, Verdict::Outranked, 1, 7, &[5]), Some(Action::WarnOutranked { guild: 1, user: 7 }));
    assert_eq!(act_on(&state, Verdict::Outranked, 1, 7, &[4]), Some(Action::WarnOutranked { guild: 1, user: 7 }));
    assert_eq!(act_on(&state, Verdict::NoPermission, 1, 7, &[5]), Some(Action::WarnNoPermission { guild: 1 }));
}

#[test]
fn available_guild_is_asked_for_its_members() {
    let mut state = AppState::new(42);
    let incoming = Incoming::GuildAvailable { guild: 9, roles: vec![role(5, "kick me", 1), role(6, "mods", 2)] };
    assert_eq!(react(&mut state, &incoming), vec![Action::RequestMembers { guild: 9 }]);
    assert!(state.kick_with.contains(5));
    assert!(!state.kick_with.contains(6));
}

#[test]
fn guild_update_refreshes_and_asks_nothing() {
    let mut state = AppState::new(42);
    kickable_roles(&mut state, &[role(5, "kick me", 1)]);
    let incoming = Incoming::GuildUpdate { roles: vec![role(5, "stay", 1), role(6, "kick me", 2)] };
    assert_eq!(react(&mut state, &incoming), vec![]);
    assert!(!state.kick_with.contains(5));
    assert!(state.kick_with.contains(6));
}

#[test]
fn other_events_change_nothing() {
    let mut state = AppState::new(42);
    kickable_roles(&mut state, &[role(5, "kick me", 1)]);
    assert_eq!(react(&mut state, &Incoming::Other), vec![]);
    assert!(state.kick_with.contains(5));
    assert_eq!(state.kick_with.len(), 1);
}

#[test]
fn members_are_judged_in_order() {
    let mut state = AppState::new(42);
    kickable_roles(&mut state, &[role(5, "kick me", 1)]);
    let incoming = Incoming::Members {
        guild: 9,
        members: vec![Member::new(7, vec![5]), Member::new(8, vec![])],
    };
    // Nobody is mirrored, so the bot outranks no one.
    assert_eq!(
        react(&mut state, &incoming),
        vec![Action::WarnOutranked { guild: 9, user: 7 }, Action::WarnOutranked { guild: 9, user: 8 }]
    );
    assert_eq!(react(&mut state, &Incoming::Members { guild: 9, members: vec![] }), vec![]);
}

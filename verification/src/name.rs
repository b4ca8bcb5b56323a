//! The rule that makes a role a "kick me" role: its name, with ASCII letters
//! folded to lower case, contains the token `kick me`.
//!
//! Names are judged on their UTF-8 bytes. Folding touches only the bytes of
//! `A` to `Z`, and the token is plain ASCII, so a match never starts or ends
//! inside a multi-byte character.

use vstd::prelude::*;
use vstd::string::*;
use vstd::utf8::*;

verus! {

/// The byte `b` with an ASCII capital letter replaced by its small letter.
pub open spec fn fold_byte(b: u8) -> u8 {
    if 0x41 <= b <= 0x5a {
        (b + 0x20) as u8
    } else {
        b
    }
}

/// `s` with every byte folded.
pub open spec fn folded(s: Seq<u8>) -> Seq<u8> {
    Seq::new(s.len(), |i: int| fold_byte(s[i]))
}

/// `needle` stands in `hay` at offset `at`.
pub open spec fn occurs_at(hay: Seq<u8>, needle: Seq<u8>, at: int) -> bool {
    &&& 0 <= at
    &&& at + needle.len() <= hay.len()
    &&& forall|j: int| 0 <= j < needle.len() ==> hay[at + j] == needle[j]
}

/// `needle` stands somewhere in `hay`.
pub open spec fn occurs(hay: Seq<u8>, needle: Seq<u8>) -> bool {
    exists|at: int| occurs_at(hay, needle, at)
}

/// The bytes of `kick me`.
pub open spec fn kick_token() -> Seq<u8> {
    seq![0x6bu8, 0x69u8, 0x63u8, 0x6bu8, 0x20u8, 0x6du8, 0x65u8]
}

/// A name, given by its bytes, marks a "kick me" role.
pub open spec fn is_kick_bytes(name: Seq<u8>) -> bool {
    occurs(folded(name), kick_token())
}

/// A name, given by its characters, marks a "kick me" role.
pub open spec fn is_kick_name(name: Seq<char>) -> bool {
    is_kick_bytes(encode_utf8(name))
}

/// Folds one byte.
pub fn fold(b: u8) -> (r: u8)
    ensures
        r == fold_byte(b),
{
    if 0x41 <= b && b <= 0x5a {
        b + 0x20
    } else {
        b
    }
}

/// Whether `needle` stands in the folded `hay` at offset `at`.
pub fn folded_match_at(hay: &[u8], needle: &[u8], at: usize) -> (r: bool)
    requires
        at + needle@.len() <= hay@.len(),
    ensures
        r == occurs_at(folded(hay@), needle@, at as int),
{
    let width: usize = needle.len();
    let total: usize = hay.len();
    let mut j: usize = 0;
    while j < width
        invariant
            j <= width == needle@.len(),
            at + width <= total == hay@.len(),
            forall|k: int| 0 <= k < j ==> folded(hay@)[at + k] == needle@[k],
        decreases width - j,
    {
        if fold(hay[at + j]) != needle[j] {
            assert(folded(hay@)[at + j] != needle@[j as int]);
            return false;
        }
        j += 1;
    }
    true
}

/// Whether `needle` stands somewhere in the folded `hay`.
pub fn folded_contains(hay: &[u8], needle: &[u8]) -> (r: bool)
    ensures
        r == occurs(folded(hay@), needle@),
{
    if needle.len() > hay.len() {
        assert forall|at: int| !occurs_at(folded(hay@), needle@, at) by {}
        return false;
    }
    let last: usize = hay.len() - needle.len();
    let mut at: usize = 0;
    while at < last
        invariant
            at <= last,
            last + needle@.len() == hay@.len(),
            forall|k: int| 0 <= k < at ==> !occurs_at(folded(hay@), needle@, k),
        decreases last - at,
    {
        if folded_match_at(hay, needle, at) {
            return true;
        }
        at += 1;
    }
    folded_match_at(hay, needle, last)
}

/// The token's literal holds the bytes of [`kick_token`].
proof fn token_bytes()
    ensures
        "kick me".spec_bytes() == kick_token(),
{
    reveal_strlit("kick me");
    let t = "kick me";
    assert(is_ascii_chars(t@));
    is_ascii_spec_bytes(t);
    assert(t.spec_bytes() =~= kick_token());
}

/// Whether `name` marks a "kick me" role.
pub fn is_kick_me(name: &str) -> (r: bool)
    ensures
        r == is_kick_name(name@),
{
    proof {
        token_bytes();
    }
    folded_contains(name.as_bytes(), "kick me".as_bytes())
}

} // verus!

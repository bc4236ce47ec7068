//! Credential profile data.
//!
//! A profile is created from interactive input or loaded from the encrypted
//! vault, and is immutable for the lifetime of a run.

use vstd::prelude::*;

verus! {

/// The credential profile that the vault seals and the runtime consumes.
#[derive(Clone, Debug)]
pub struct UserData {
    pub api_id: i32,
    pub api_hash: String,
    /// E.164-like phone number; stored with whitespace stripped.
    pub phone_number: String,
    pub session_filename: String,
    /// Title of the output channel that receives forwarded messages.
    pub channel_name: String,
}

/// The subset of the profile that the connection runtime needs to sign in.
#[derive(Clone, Debug)]
pub struct LoginCredentials {
    pub api_id: i32,
    pub api_hash: String,
    pub phone_number: String,
    pub session_filename: String,
}

/// Whether `c` has Unicode's White_Space property: the exact set that
/// char::is_whitespace accepts (controls tab through carriage return, space,
/// next line, no-break space, ogham space mark, the en/em spaces, line and
/// paragraph separators, narrow no-break space, medium mathematical space,
/// and the ideographic space).
pub open spec fn is_space(c: char) -> bool {
    (0x09 <= c as u32 && c as u32 <= 0x0D) || c as u32 == 0x20 || c as u32 == 0x85 || c as u32
        == 0xA0 || c as u32 == 0x1680 || (0x2000 <= c as u32 && c as u32 <= 0x200A) || c as u32
        == 0x2028 || c as u32 == 0x2029 || c as u32 == 0x202F || c as u32 == 0x205F || c as u32
        == 0x3000
}

/// Whether `c` is whitespace, as the profile rules count it.
pub fn is_space_char(c: char) -> (r: bool)
    ensures
        r == is_space(c),
{
    let u = c as u32;
    (0x09 <= u && u <= 0x0D) || u == 0x20 || u == 0x85 || u == 0xA0 || u == 0x1680 || (0x2000 <= u
        && u <= 0x200A) || u == 0x2028 || u == 0x2029 || u == 0x202F || u == 0x205F || u == 0x3000
}

/// `s` with every whitespace character removed, order otherwise kept.
pub open spec fn spec_stripped(s: Seq<char>) -> Seq<char>
    decreases s.len(),
{
    if s.len() == 0 {
        Seq::empty()
    } else if is_space(s.last()) {
        spec_stripped(s.drop_last())
    } else {
        spec_stripped(s.drop_last()).push(s.last())
    }
}

/// No character of a stripped sequence is whitespace.
pub proof fn lemma_stripped_no_space(s: Seq<char>)
    ensures
        forall|i: int| 0 <= i < spec_stripped(s).len() ==> !is_space(#[trigger] spec_stripped(s)[i]),
    decreases s.len(),
{
    if s.len() > 0 {
        lemma_stripped_no_space(s.drop_last());
        assert forall|i: int| 0 <= i < spec_stripped(s).len() implies !is_space(
            #[trigger] spec_stripped(s)[i],
        ) by {
            if is_space(s.last()) {
                assert(spec_stripped(s) == spec_stripped(s.drop_last()));
            } else {
                assert(spec_stripped(s) == spec_stripped(s.drop_last()).push(s.last()));
                if i < spec_stripped(s.drop_last()).len() {
                    assert(spec_stripped(s)[i] == spec_stripped(s.drop_last())[i]);
                } else {
                    assert(spec_stripped(s)[i] == s.last());
                }
            }
        }
    }
}

/// Removes every whitespace character, as the phone number rule asks.
pub fn strip_whitespace(s: &Vec<char>) -> (r: Vec<char>)
    ensures
        r@ == spec_stripped(s@),
{
    let mut r: Vec<char> = Vec::new();
    let mut i: usize = 0;
    while i < s.len()
        invariant
            i <= s@.len(),
            r@ == spec_stripped(s@.subrange(0, i as int)),
        decreases s@.len() - i,
    {
        let c = s[i];
        if !is_space_char(c) {
            r.push(c);
        }
        i = i + 1;
        proof {
            assert(s@.subrange(0, i as int).drop_last() =~= s@.subrange(0, i - 1));
            assert(s@.subrange(0, i as int).last() == s@[i - 1]);
        }
    }
    proof {
        assert(s@.subrange(0, s@.len() as int) =~= s@);
    }
    r
}

} // verus!

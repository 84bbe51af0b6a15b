//! Shortened forms of long texts such as addresses and session keys.
use crate::strings::{copy_str, push_str};
use vstd::prelude::*;
use vstd::string::StringSliceAdditionalSpecFns;
use vstd::utf8::{decode_utf8, encode_utf8, encode_utf8_decode_utf8, is_char_boundary};

verus! {

/// Whether `s` can be cut after its first `head` bytes and before its last `tail` bytes.
pub open spec fn can_condense(s: Seq<char>, head: nat, tail: nat) -> bool {
    let b = encode_utf8(s);
    &&& b.len() <= usize::MAX
    &&& head <= b.len()
    &&& tail <= b.len()
    &&& is_char_boundary(b, head as int)
    &&& is_char_boundary(b, b.len() - tail)
}

/// The first `head` bytes of `s`, `...`, then its last `tail` bytes.
pub open spec fn condensed(s: Seq<char>, head: nat, tail: nat) -> Seq<char> {
    let b = encode_utf8(s);
    decode_utf8(b.subrange(0, head as int)) + "..."@ + decode_utf8(b.subrange(b.len() - tail, b.len() as int))
}

fn condense(s: &str, head: usize, tail: usize) -> (r: String)
    requires
        can_condense(s@, head as nat, tail as nat),
    ensures
        r@ == condensed(s@, head as nat, tail as nat),
{
    let n = s.len();
    let (left, _) = s.split_at(head);
    let (_, right) = s.split_at(n - tail);
    proof {
        encode_utf8_decode_utf8(left@);
        encode_utf8_decode_utf8(right@);
    }
    let mut r = copy_str(left);
    push_str(&mut r, "...");
    push_str(&mut r, right);
    r
}

/// The address cut to its first and last `side_limit` bytes (5 where none is given), with
/// `...` between them.
pub fn get_condensed_address(address: &str, side_limit: Option<usize>) -> (r: String)
    requires
        can_condense(address@, side_limit.unwrap_or(5) as nat, side_limit.unwrap_or(5) as nat),
    ensures
        r@ == condensed(address@, side_limit.unwrap_or(5) as nat, side_limit.unwrap_or(5) as nat),
{
    match side_limit {
        Some(k) => condense(address, k, k),
        None => condense(address, 5, 5),
    }
}

/// The session keys cut to their first 8 and last 6 bytes, with `...` between them.
pub fn get_condensed_session_keys(session_keys: &str) -> (r: String)
    requires
        can_condense(session_keys@, 8, 6),
    ensures
        r@ == condensed(session_keys@, 8, 6),
{
    condense(session_keys, 8, 6)
}

} // verus!

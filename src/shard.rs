//! The optional shard descriptor a client declares when it connects,
//! written `"<id>,<count>"` with both parts unsigned 16-bit integers.
use vstd::prelude::*;

use crate::number::{parse_unsigned, unsigned_of};

verus! {

/// A client-declared partition: which shard this session is, out of how many.
#[derive(Debug, Clone, Copy, PartialEq, Eq, Structural)]
pub struct ShardInfo {
    pub id: u16,
    pub count: u16,
}

/// What reading `s` as a `u16` gives, as `u16::from_str` reads it.
pub open spec fn u16_of(s: Seq<char>) -> Option<u16> {
    match unsigned_of(s, 10, u16::MAX as nat) {
        Some(v) => Some(v as u16),
        None => None,
    }
}

/// `s` holds exactly one comma, at index `i`.
pub open spec fn single_comma_at(s: Seq<char>, i: int) -> bool {
    &&& 0 <= i < s.len()
    &&& s[i] == ','
    &&& forall|j: int| 0 <= j < s.len() && j != i ==> #[trigger] s[j] != ','
}

/// The shard a descriptor denotes: it must split on commas into exactly two
/// parts, each a `u16`; anything else denotes no shard.
pub open spec fn shard_of(s: Seq<char>) -> Option<ShardInfo> {
    if exists|i: int| single_comma_at(s, i) {
        let i = choose|i: int| single_comma_at(s, i);
        match (u16_of(s.take(i)), u16_of(s.skip(i + 1))) {
            (Some(id), Some(count)) => Some(ShardInfo { id, count }),
            _ => None,
        }
    } else {
        None
    }
}

/// Reads a `u16` written in decimal, as `u16::from_str` does.
pub fn parse_u16(s: &str) -> (r: Option<u16>)
    ensures
        r == u16_of(s@),
{
    match parse_unsigned(s, 10, 65535) {
        Some(v) => Some(v as u16),
        None => None,
    }
}

/// Reads a shard descriptor; a malformed or partial one yields `None`.
pub fn parse_shard(s: &str) -> (r: Option<ShardInfo>)
    ensures
        r == shard_of(s@),
{
    let n = s.unicode_len();
    let mut first: Option<usize> = None;
    let mut i: usize = 0;
    while i < n
        invariant
            i <= n,
            n == s@.len(),
            match first {
                None => forall|j: int| 0 <= j < i ==> #[trigger] s@[j] != ',',
                Some(f) => {
                    &&& f < i
                    &&& s@[f as int] == ','
                    &&& forall|j: int| 0 <= j < i && j != f ==> #[trigger] s@[j] != ','
                },
            },
        decreases n - i,
    {
        if s.get_char(i) == ',' {
            match first {
                None => {
                    first = Some(i);
                },
                Some(f) => {
                    assert forall|k: int| !single_comma_at(s@, k) by {
                        if single_comma_at(s@, k) {
                            if k != f as int {
                                assert(s@[f as int] != ',');
                            } else {
                                assert(s@[i as int] != ',');
                            }
                        }
                    }
                    return None;
                },
            }
        }
        i = i + 1;
    }
    match first {
        None => {
            assert forall|k: int| !single_comma_at(s@, k) by {
                if single_comma_at(s@, k) {
                    assert(s@[k] != ',');
                }
            }
            None
        },
        Some(f) => {
            assert(single_comma_at(s@, f as int));
            let ghost c = choose|k: int| single_comma_at(s@, k);
            assert(c == f as int) by {
                if c != f as int {
                    assert(s@[f as int] != ',');
                }
            }
            let head = s.substring_char(0, f);
            let tail = s.substring_char(f + 1, n);
            assert(head@ =~= s@.take(f as int));
            assert(tail@ =~= s@.skip(f + 1));
            match (parse_u16(head), parse_u16(tail)) {
                (Some(id), Some(count)) => Some(ShardInfo { id, count }),
                _ => None,
            }
        },
    }
}

} // verus!

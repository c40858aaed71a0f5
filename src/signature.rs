//! Signed attachment URLs: a URL carries its issue and expiry times (hex
//! milliseconds) and an HMAC-SHA256 over the path and those times, optionally
//! bound to the client's address and user agent.
use vstd::prelude::*;

use hmac::Mac;
use subtle::ConstantTimeEq;
use vstd::utf8::encode_utf8;

use crate::config::SecurityConfiguration;
use crate::number::{parse_unsigned, unsigned_of};

verus! {

/// The HMAC-SHA256 tag of `msg` under `key`.
pub uninterp spec fn hmac_sha256_of(key: Seq<u8>, msg: Seq<u8>) -> Seq<u8>;

/// Relies on hmac's `Hmac<Sha256>`: keyed with `key` (its `new_from_slice`
/// accepts a key of any length), fed `msg`, finalized into the 32-byte tag.
#[verifier::external_body]
fn hmac_sha256(key: &[u8], msg: &[u8]) -> (r: Vec<u8>)
    ensures
        r@ == hmac_sha256_of(key@, msg@),
        r@.len() == 32,
{
    let mut mac = hmac::Hmac::<sha2::Sha256>::new_from_slice(key).expect("HMAC takes keys of any length");
    mac.update(msg);
    mac.finalize().into_bytes().to_vec()
}

/// The value of a hex digit byte, either case.
pub open spec fn hex_nibble(b: u8) -> Option<nat> {
    if 48 <= b <= 57 {
        Some((b - 48) as nat)
    } else if 97 <= b <= 102 {
        Some((b - 87) as nat)
    } else if 65 <= b <= 70 {
        Some((b - 55) as nat)
    } else {
        None
    }
}

/// The bytes that hex text denotes: an even number of hex digits, two per byte.
pub open spec fn hex_decoded(t: Seq<u8>) -> Option<Seq<u8>> {
    if t.len() % 2 == 0 && forall|i: int| 0 <= i < t.len() ==> (#[trigger] hex_nibble(t[i])) is Some {
        Some(
            Seq::new(
                (t.len() / 2) as nat,
                |i: int| (hex_nibble(t[2 * i])->Some_0 * 16 + hex_nibble(t[2 * i + 1])->Some_0) as u8,
            ),
        )
    } else {
        None
    }
}

/// Relies on hex::decode, which turns pairs of hex digits of either case into
/// bytes and fails on an odd length or any other character.
#[verifier::external_body]
fn hex_decode(s: &str) -> (r: Option<Vec<u8>>)
    ensures
        match r {
            Some(v) => hex_decoded(encode_utf8(s@)) == Some(v@),
            None => hex_decoded(encode_utf8(s@)) is None,
        },
{
    hex::decode(s).ok()
}

/// Relies on subtle's `ConstantTimeEq` on byte slices: equal lengths and
/// equal bytes.
#[verifier::external_body]
fn constant_time_eq(a: &[u8], b: &[u8]) -> (r: bool)
    ensures
        r == (a@ == b@),
{
    bool::from(a.ct_eq(b))
}

/// The bytes of an optional part of the signed message, when it is wanted.
pub open spec fn optional_part(wanted: bool, part: Option<&str>) -> Seq<u8> {
    match part {
        Some(p) if wanted => encode_utf8(p@),
        _ => Seq::empty(),
    }
}

/// The message a URL signature covers.
pub open spec fn signed_message(
    path: &str,
    ex: &str,
    is: &str,
    ip: Option<&str>,
    user_agent: Option<&str>,
    security: SecurityConfiguration,
) -> Seq<u8> {
    encode_utf8(path@) + encode_utf8(is@) + encode_utf8(ex@) + optional_part(security.cdn_signature_include_ip, ip)
        + optional_part(security.cdn_signature_include_user_agent, user_agent)
}

/// A signature is valid when both times read as hex, the URL was issued no
/// later than `now` and expires no earlier, and the hex tag decodes to the
/// HMAC of the signed message under the configured key.
pub open spec fn signature_valid(
    path: &str,
    ex: &str,
    is: &str,
    hm: &str,
    ip: Option<&str>,
    user_agent: Option<&str>,
    security: SecurityConfiguration,
    now: u64,
) -> bool {
    match (unsigned_of(is@, 16, u64::MAX as nat), unsigned_of(ex@, 16, u64::MAX as nat)) {
        (Some(issued), Some(expires)) => {
            &&& issued <= now
            &&& now <= expires
            &&& hmac_sha256_of(encode_utf8(security.cdn_signature_key@), signed_message(path, ex, is, ip, user_agent, security))
                == match hex_decoded(encode_utf8(hm@)) {
                Some(tag) => tag,
                None => Seq::empty(),
            }
        },
        _ => false,
    }
}

fn append_bytes(out: &mut Vec<u8>, b: &[u8])
    ensures
        final(out)@ == old(out)@ + b@,
{
    let mut i: usize = 0;
    while i < b.len()
        invariant
            i <= b@.len(),
            out@ == old(out)@ + b@.take(i as int),
        decreases b@.len() - i,
    {
        out.push(b[i]);
        i = i + 1;
        assert(out@ =~= old(out)@ + b@.take(i as int));
    }
    assert(b@.take(i as int) =~= b@);
}

fn append_optional(out: &mut Vec<u8>, wanted: bool, part: Option<&str>)
    ensures
        final(out)@ == old(out)@ + optional_part(wanted, part),
{
    if wanted {
        if let Some(p) = part {
            append_bytes(out, p.as_bytes());
            return;
        }
    }
    assert(old(out)@ + optional_part(wanted, part) =~= old(out)@);
}

/// Checks the signature of a CDN URL at time `now` (milliseconds since the epoch).
pub fn has_valid_signature(
    path: &str,
    ex: &str,
    is: &str,
    hm: &str,
    ip: Option<&str>,
    user_agent: Option<&str>,
    security: &SecurityConfiguration,
    now: u64,
) -> (r: bool)
    ensures
        r == signature_valid(path, ex, is, hm, ip, user_agent, *security, now),
        hex_decoded(encode_utf8(hm@)) is None ==> !r,
{
    let issued = parse_unsigned(is, 16, u64::MAX);
    let expires = parse_unsigned(ex, 16, u64::MAX);
    match (issued, expires) {
        (Some(i), Some(e)) => {
            if e < now || i > now {
                return false;
            }
        },
        _ => return false,
    }
    let mut msg: Vec<u8> = Vec::new();
    append_bytes(&mut msg, path.as_bytes());
    append_bytes(&mut msg, is.as_bytes());
    append_bytes(&mut msg, ex.as_bytes());
    append_optional(&mut msg, security.cdn_signature_include_ip, ip);
    append_optional(&mut msg, security.cdn_signature_include_user_agent, user_agent);
    assert(msg@ =~= signed_message(path, ex, is, ip, user_agent, *security));
    let calc = hmac_sha256(security.cdn_signature_key.as_str().as_bytes(), msg.as_slice());
    let expected = match hex_decode(hm) {
        Some(v) => v,
        None => Vec::new(),
    };
    constant_time_eq(calc.as_slice(), expected.as_slice())
}

} // verus!

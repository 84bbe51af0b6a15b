//! On-chain identities: the SCALE layout of an identity registration and what SubVT reads
//! of it (the text fields it shows, and whether every judgement confirms it).
use crate::codec::{codec_u128, codec_u8, le_at};
use crate::error::DecodeError;
use crate::staking::{compact_at, read_compact_u32_at};
use crate::strings::copy_str;
use crate::substrate::IdentityRegistration;
use vstd::prelude::*;
use vstd::utf8::{decode_utf8, valid_utf8};

verus! {

/// `String::from_utf8`: the text of bytes that are UTF-8, and nothing otherwise.
#[verifier::external_body]
pub(crate) fn utf8_string(bytes: &[u8]) -> (r: Option<String>)
    ensures
        r is Some <==> valid_utf8(bytes@),
        r matches Some(s) ==> s@ == decode_utf8(bytes@),
{
    String::from_utf8(bytes.to_vec()).ok()
}

/// The encoded length of the identity data at `pos`: a tag; after tags 1 to 33, that many
/// bytes less one (raw data); after tags 34 to 37, a 32-byte hash; nothing after tag 0.
pub open spec fn data_len(b: Seq<u8>, pos: int) -> Option<nat> {
    if pos < 0 || pos >= b.len() {
        None
    } else if b[pos] == 0 {
        Some(1)
    } else if b[pos] <= 33 {
        if pos + b[pos] <= b.len() {
            Some(b[pos] as nat)
        } else {
            None
        }
    } else if b[pos] <= 37 {
        if pos + 33 <= b.len() {
            Some(33)
        } else {
            None
        }
    } else {
        None
    }
}

/// The text of the identity data at `pos`: raw data that is UTF-8; `None` for any other
/// data.
pub open spec fn data_text(b: Seq<u8>, pos: int) -> Option<Seq<char>> {
    if 1 <= b[pos] <= 33 && valid_utf8(b.subrange(pos + 1, pos + b[pos])) {
        Some(decode_utf8(b.subrange(pos + 1, pos + b[pos])))
    } else {
        None
    }
}

/// Whether `t` is the text of the identity data at `pos`.
pub open spec fn text_is(b: Seq<u8>, pos: int, t: Option<String>) -> bool {
    match t {
        Some(s) => data_text(b, pos) == Some(s@),
        None => data_text(b, pos) is None,
    }
}

/// Reads the identity data at `pos`: its text where it is raw UTF-8 (none for empty, hashed
/// or non-UTF-8 data), and the position after it.
pub fn data_to_string(bytes: &[u8], pos: usize) -> (r: Result<(Option<String>, usize), DecodeError>)
    requires
        pos <= bytes.len(),
    ensures
        r is Ok <==> data_len(bytes@, pos as int) is Some,
        r matches Ok((t, next)) ==> text_is(bytes@, pos as int, t) && next == pos + data_len(bytes@, pos as int).unwrap(),
{
    let tag = match codec_u8(bytes, pos) {
        Ok(t) => t,
        Err(e) => return Err(DecodeError::Error(e)),
    };
    if tag == 0 {
        Ok((None, pos + 1))
    } else if tag <= 33 {
        if bytes.len() - pos < tag as usize {
            return Err(DecodeError::Error(copy_str("Not enough data to fill buffer")));
        }
        let raw = vstd::slice::slice_subrange(bytes, pos + 1, pos + tag as usize);
        let text = utf8_string(raw);
        Ok((text, pos + tag as usize))
    } else if tag <= 37 {
        if bytes.len() - pos < 33 {
            return Err(DecodeError::Error(copy_str("Not enough data to fill buffer")));
        }
        Ok((None, pos + 33))
    } else {
        Err(DecodeError::Error(copy_str("invalid leading byte")))
    }
}

/// The encoded length of a judgement at `pos`: a tag, and after tag 1 (fee paid) a balance;
/// tags above 6 are not judgements.
pub open spec fn judgement_len(b: Seq<u8>, pos: int) -> Option<nat> {
    if pos < 0 || pos >= b.len() {
        None
    } else if b[pos] == 1 {
        if pos + 17 <= b.len() {
            Some(17)
        } else {
            None
        }
    } else if b[pos] <= 6 {
        Some(1)
    } else {
        None
    }
}

/// Where the `k`-th judgement (a 4-byte registrar index, then the judgement) of a list that
/// starts at `start` begins.
pub open spec fn judgement_pos(b: Seq<u8>, start: nat, k: nat) -> nat
    decreases k,
{
    if k == 0 {
        start
    } else {
        let p = judgement_pos(b, start, (k - 1) as nat);
        match judgement_len(b, (p + 4) as int) {
            Some(l) => p + 4 + l,
            None => p,
        }
    }
}

/// Whether the first `n` judgements from `start` decode, and whether they all confirm the
/// identity (reasonable, or known good).
pub open spec fn judgements_read(b: Seq<u8>, start: nat, n: nat) -> (bool, bool)
    decreases n,
{
    if n == 0 {
        (true, true)
    } else {
        let (ok, confirmed) = judgements_read(b, start, (n - 1) as nat);
        let p = judgement_pos(b, start, (n - 1) as nat);
        if ok && judgement_len(b, (p + 4) as int) is Some {
            (true, confirmed && (b[(p + 4) as int] == 2 || b[(p + 4) as int] == 3))
        } else {
            (false, false)
        }
    }
}

/// Where the `k`-th additional field (two identity data) of a list that starts at `start`
/// begins.
pub open spec fn field_pos(b: Seq<u8>, start: nat, k: nat) -> nat
    decreases k,
{
    if k == 0 {
        start
    } else {
        let p = field_pos(b, start, (k - 1) as nat);
        match data_len(b, p as int) {
            Some(l1) => match data_len(b, (p + l1) as int) {
                Some(l2) => p + l1 + l2,
                None => p,
            },
            None => p,
        }
    }
}

/// Whether the first `n` additional fields from `start` decode.
pub open spec fn fields_ok(b: Seq<u8>, start: nat, n: nat) -> bool
    decreases n,
{
    if n == 0 {
        true
    } else {
        let p = field_pos(b, start, (n - 1) as nat);
        fields_ok(b, start, (n - 1) as nat) && (data_len(b, p as int) matches Some(l1) && data_len(b, (p + l1) as int)
            is Some)
    }
}

/// The positions of the text fields of the identity information that starts at `pos`
/// (after its additional fields): display, legal, web, riot, email, then the optional
/// 20-byte fingerprint, image and twitter; and where it ends. `None` where it does not
/// decode.
pub open spec fn info_fields(b: Seq<u8>, pos: nat) -> Option<(nat, nat, nat, nat, nat)> {
    let display = pos;
    match data_len(b, display as int) {
        None => None,
        Some(l1) => {
            let legal = display + l1;
            match data_len(b, legal as int) {
                None => None,
                Some(l2) => {
                    let web = legal + l2;
                    match data_len(b, web as int) {
                        None => None,
                        Some(l3) => {
                            let riot = web + l3;
                            match data_len(b, riot as int) {
                                None => None,
                                Some(l4) => {
                                    let email = riot + l4;
                                    match data_len(b, email as int) {
                                        None => None,
                                        Some(l5) => {
                                            let pgp = email + l5;
                                            let pgp_len: int = if pgp < b.len() && b[pgp as int] == 0 {
                                                1
                                            } else if pgp < b.len() && b[pgp as int] == 1 && pgp + 21 <= b.len() {
                                                21
                                            } else {
                                                -1
                                            };
                                            if pgp_len < 0 {
                                                None
                                            } else {
                                                let image = pgp + pgp_len;
                                                match data_len(b, image) {
                                                    None => None,
                                                    Some(l6) => {
                                                        let twitter = image + l6;
                                                        match data_len(b, twitter) {
                                                            None => None,
                                                            Some(_) => Some((display, web, riot, email, twitter as nat)),
                                                        }
                                                    },
                                                }
                                            }
                                        },
                                    }
                                },
                            }
                        },
                    }
                },
            }
        },
    }
}

/// The layout of the registration at the start of `b`: where its judgements start and how
/// many there are, and where its information starts (after the deposit and the additional
/// fields). `None` where the counts or the fields between do not decode.
pub open spec fn registration_layout(b: Seq<u8>) -> Option<(nat, nat, nat)> {
    match compact_at(b, 0, 4) {
        None => None,
        Some((n, l)) => {
            let (ok, _) = judgements_read(b, l, n);
            if !ok {
                None
            } else {
                let deposit = judgement_pos(b, l, n);
                if deposit + 16 > b.len() {
                    None
                } else {
                    match compact_at(b, (deposit + 16) as int, 4) {
                        None => None,
                        Some((m, l2)) => {
                            let start = deposit + 16 + l2;
                            if fields_ok(b, start, m) {
                                Some((l, n, field_pos(b, start, m)))
                            } else {
                                None
                            }
                        },
                    }
                }
            }
        },
    }
}

/// Whether the registration at the start of `b` decodes.
pub open spec fn registration_ok(b: Seq<u8>) -> bool {
    registration_layout(b) matches Some((_, _, info)) && info_fields(b, info) is Some
}

/// Whether `r` is what SubVT reads of the registration at the start of `b`, which decodes.
pub open spec fn registration_is(b: Seq<u8>, r: IdentityRegistration) -> bool {
    let (l, n, info) = registration_layout(b).unwrap();
    let (display, web, riot, email, twitter) = info_fields(b, info).unwrap();
    &&& text_is(b, display as int, r.display)
    &&& text_is(b, web as int, r.web)
    &&& text_is(b, riot as int, r.riot)
    &&& text_is(b, email as int, r.email)
    &&& text_is(b, twitter as int, r.twitter)
    &&& r.confirmed == judgements_read(b, l, n).1
}

proof fn lemma_judgements_fail(b: Seq<u8>, start: nat, i: nat, n: nat)
    requires
        i < n,
        judgement_len(b, (judgement_pos(b, start, i) + 4) as int) is None,
    ensures
        !judgements_read(b, start, n).0,
    decreases n,
{
    if i + 1 < n {
        lemma_judgements_fail(b, start, i, (n - 1) as nat);
    }
}

proof fn lemma_fields_fail(b: Seq<u8>, start: nat, i: nat, n: nat)
    requires
        i < n,
        !(data_len(b, field_pos(b, start, i) as int) matches Some(l1) && data_len(b, (field_pos(b, start, i) + l1) as int) is Some),
    ensures
        !fields_ok(b, start, n),
    decreases n,
{
    if i + 1 < n {
        lemma_fields_fail(b, start, i, (n - 1) as nat);
    }
}

/// Skips the judgements; gives whether they all confirm and where they end.
fn read_judgements(bytes: &[u8], start: usize, count: u32) -> (r: Result<(bool, usize), DecodeError>)
    requires
        start <= bytes.len(),
    ensures
        r is Ok <==> judgements_read(bytes@, start as nat, count as nat).0,
        r matches Ok((c, e)) ==> c == judgements_read(bytes@, start as nat, count as nat).1 && e == judgement_pos(
            bytes@,
            start as nat,
            count as nat,
        ) && e <= bytes.len(),
{
    let mut confirmed = true;
    let mut q = start;
    let mut i: u32 = 0;
    while i < count
        invariant
            i <= count,
            start <= bytes.len(),
            q <= bytes.len(),
            q == judgement_pos(bytes@, start as nat, i as nat),
            judgements_read(bytes@, start as nat, i as nat) == (true, confirmed),
        decreases count - i,
    {
        if bytes.len() - q < 4 {
            proof {
                lemma_judgements_fail(bytes@, start as nat, i as nat, count as nat);
            }
            return Err(DecodeError::Error(copy_str("Not enough data to fill buffer")));
        }
        let tag = match codec_u8(bytes, q + 4) {
            Ok(t) => t,
            Err(e) => {
                proof {
                    lemma_judgements_fail(bytes@, start as nat, i as nat, count as nat);
                }
                return Err(DecodeError::Error(e));
            },
        };
        let len: usize = if tag == 1 {
            match codec_u128(bytes, q + 5) {
                Ok(_) => 17,
                Err(e) => {
                    proof {
                        lemma_judgements_fail(bytes@, start as nat, i as nat, count as nat);
                    }
                    return Err(DecodeError::Error(e));
                },
            }
        } else if tag <= 6 {
            1
        } else {
            proof {
                lemma_judgements_fail(bytes@, start as nat, i as nat, count as nat);
            }
            return Err(DecodeError::Error(copy_str("Could not decode `Judgement`, variant doesn't exist")));
        };
        confirmed = confirmed && (tag == 2 || tag == 3);
        q = q + 4 + len;
        i = i + 1;
    }
    Ok((confirmed, q))
}

/// Skips the additional fields; gives where they end.
fn skip_fields(bytes: &[u8], start: usize, count: u32) -> (r: Result<usize, DecodeError>)
    requires
        start <= bytes.len(),
    ensures
        r is Ok <==> fields_ok(bytes@, start as nat, count as nat),
        r matches Ok(e) ==> e == field_pos(bytes@, start as nat, count as nat) && e <= bytes.len(),
{
    let mut q = start;
    let mut i: u32 = 0;
    while i < count
        invariant
            i <= count,
            q <= bytes.len(),
            q == field_pos(bytes@, start as nat, i as nat),
            fields_ok(bytes@, start as nat, i as nat),
        decreases count - i,
    {
        let (_, q1) = match data_to_string(bytes, q) {
            Ok(x) => x,
            Err(e) => {
                proof {
                    lemma_fields_fail(bytes@, start as nat, i as nat, count as nat);
                }
                return Err(e);
            },
        };
        let (_, q2) = match data_to_string(bytes, q1) {
            Ok(x) => x,
            Err(e) => {
                proof {
                    lemma_fields_fail(bytes@, start as nat, i as nat, count as nat);
                }
                return Err(e);
            },
        };
        q = q2;
        i = i + 1;
    }
    Ok(q)
}

/// Reads the identity information at `pos` (after the additional fields): the display,
/// web, riot, email and twitter texts.
#[verifier::rlimit(30)]
fn read_info(bytes: &[u8], pos: usize) -> (r: Result<(Option<String>, Option<String>, Option<String>, Option<String>, Option<String>), DecodeError>)
    requires
        pos <= bytes.len(),
    ensures
        r is Ok <==> info_fields(bytes@, pos as nat) is Some,
        r matches Ok((display, web, riot, email, twitter)) ==> {
            let (pd, pw, pr, pe, pt) = info_fields(bytes@, pos as nat).unwrap();
            &&& text_is(bytes@, pd as int, display)
            &&& text_is(bytes@, pw as int, web)
            &&& text_is(bytes@, pr as int, riot)
            &&& text_is(bytes@, pe as int, email)
            &&& text_is(bytes@, pt as int, twitter)
        },
{
    let (display, q1) = data_to_string(bytes, pos)?;
    let (_, q2) = data_to_string(bytes, q1)?;
    let (web, q3) = data_to_string(bytes, q2)?;
    let (riot, q4) = data_to_string(bytes, q3)?;
    let (email, q5) = data_to_string(bytes, q4)?;
    let pgp = match codec_u8(bytes, q5) {
        Ok(t) => t,
        Err(e) => return Err(DecodeError::Error(e)),
    };
    let q6 = if pgp == 0 {
        q5 + 1
    } else if pgp == 1 {
        if bytes.len() - q5 < 21 {
            return Err(DecodeError::Error(copy_str("Not enough data to fill buffer")));
        }
        q5 + 21
    } else {
        return Err(DecodeError::Error(copy_str("Could not decode `Option`, variant doesn't exist")));
    };
    let (_, q7) = data_to_string(bytes, q6)?;
    let (twitter, _) = data_to_string(bytes, q7)?;
    Ok((display, web, riot, email, twitter))
}

impl IdentityRegistration {
    /// What SubVT reads of a SCALE-encoded identity registration: the display, email, riot,
    /// twitter and web texts (raw data that is UTF-8), and whether every judgement is
    /// reasonable or known good.
    pub fn from_bytes(bytes: &[u8]) -> (r: Result<IdentityRegistration, DecodeError>)
        ensures
            r is Ok <==> registration_ok(bytes@),
            r matches Ok(reg) ==> registration_is(bytes@, reg),
    {
        let (count, p) = read_compact_u32_at(bytes, 0)?;
        let (confirmed, p1) = read_judgements(bytes, p, count)?;
        match codec_u128(bytes, p1) {
            Ok(_) => {},
            Err(e) => return Err(DecodeError::Error(e)),
        }
        let (m, p2) = read_compact_u32_at(bytes, p1 + 16)?;
        let p3 = skip_fields(bytes, p2, m)?;
        let (display, web, riot, email, twitter) = read_info(bytes, p3)?;
        Ok(IdentityRegistration { display, email, riot, twitter, web, confirmed })
    }
}

} // verus!

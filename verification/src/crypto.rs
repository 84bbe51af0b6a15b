//! `AccountId`, the 32-byte value that identifies a Substrate account, and its text forms.
use crate::codec::pow256;
use crate::error::DecodeError;
use crate::strings::{copy_str, push_str, trim_hex_prefix, trim_hex_prefix_spec};
use parity_scale_codec::Encode;
use sp_core::crypto::{Ss58AddressFormat, Ss58Codec};
use vstd::prelude::*;
use vstd::string::StringSliceAdditionalSpecFns;

verus! {

/// A 32-byte account id.
#[derive(Clone, Copy, Debug, Default, Eq, Hash, PartialEq)]
pub struct AccountId(pub [u8; 32]);

impl AccountId {
    /// The account id holding `inner`.
    pub fn new(inner: [u8; 32]) -> (a: AccountId)
        ensures
            a.0@ == inner@,
    {
        AccountId(inner)
    }

    /// The bytes of the account id.
    pub fn as_bytes(&self) -> (b: &[u8])
        ensures
            b@ == self.0@,
    {
        self.0.as_slice()
    }

    /// The account id made of `x`, which must be 32 bytes long.
    pub fn try_from(x: &[u8]) -> (r: Result<AccountId, ()>)
        ensures
            r is Ok <==> x.len() == 32,
            r matches Ok(a) ==> a.0@ == x@,
    {
        if x.len() == 32 {
            let mut r = [0u8; 32];
            let mut i: usize = 0;
            while i < 32
                invariant
                    x.len() == 32,
                    i <= 32,
                    forall|j: int| 0 <= j < i ==> r@[j] == x@[j],
                decreases 32 - i,
            {
                r[i] = x[i];
                i = i + 1;
            }
            assert(r@ =~= x@);
            Ok(AccountId(r))
        } else {
            Err(())
        }
    }
}

/// Whether two account ids are the same.
pub fn same_account(a: &AccountId, b: &AccountId) -> (r: bool)
    ensures
        r == (*a == *b),
{
    let mut i: usize = 0;
    while i < 32
        invariant
            i <= 32,
            forall|j: int| 0 <= j < i ==> a.0@[j] == b.0@[j],
        decreases 32 - i,
    {
        if a.0[i] != b.0[i] {
            return false;
        }
        i = i + 1;
    }
    assert(a.0 =~= b.0);
    true
}

impl From<[u8; 32]> for AccountId {
    fn from(x: [u8; 32]) -> (a: AccountId) {
        AccountId(x)
    }
}

impl vstd::std_specs::convert::FromSpecImpl<[u8; 32]> for AccountId {
    open spec fn obeys_from_spec() -> bool {
        true
    }

    open spec fn from_spec(x: [u8; 32]) -> AccountId {
        AccountId(x)
    }
}

// ---------------------------------------------------------------------------
// Hex.
// ---------------------------------------------------------------------------

/// The upper-case hex digit of `d < 16`.
pub open spec fn hex_digit_upper(d: nat) -> char {
    if d < 10 {
        crate::strings::digit_char(d)
    } else if d == 10 {
        'A'
    } else if d == 11 {
        'B'
    } else if d == 12 {
        'C'
    } else if d == 13 {
        'D'
    } else if d == 14 {
        'E'
    } else {
        'F'
    }
}

/// The upper-case hex text of `data`, two digits per byte.
pub open spec fn hex_upper(data: Seq<u8>) -> Seq<char>
    decreases data.len(),
{
    if data.len() == 0 {
        Seq::empty()
    } else {
        hex_upper(data.drop_last()).push(hex_digit_upper((data.last() / 16) as nat)).push(
            hex_digit_upper((data.last() % 16) as nat),
        )
    }
}

/// The lower-case hex digit of `d < 16`.
pub open spec fn hex_digit_lower(d: nat) -> char {
    if d < 10 {
        crate::strings::digit_char(d)
    } else if d == 10 {
        'a'
    } else if d == 11 {
        'b'
    } else if d == 12 {
        'c'
    } else if d == 13 {
        'd'
    } else if d == 14 {
        'e'
    } else {
        'f'
    }
}

/// The lower-case hex text of `data`, two digits per byte.
pub open spec fn hex_lower(data: Seq<u8>) -> Seq<char>
    decreases data.len(),
{
    if data.len() == 0 {
        Seq::empty()
    } else {
        hex_lower(data.drop_last()).push(hex_digit_lower((data.last() / 16) as nat)).push(
            hex_digit_lower((data.last() % 16) as nat),
        )
    }
}

/// The value of the hex digit byte `c`, upper or lower case.
pub open spec fn hex_val(c: u8) -> Option<u8> {
    if 0x30 <= c <= 0x39 {
        Some((c - 0x30) as u8)
    } else if 0x41 <= c <= 0x46 {
        Some((c - 0x41 + 10) as u8)
    } else if 0x61 <= c <= 0x66 {
        Some((c - 0x61 + 10) as u8)
    } else {
        None
    }
}

/// The bytes written in hex by `text` (two digits per byte, either case), where it is hex.
pub open spec fn hex_decode_spec(text: Seq<u8>) -> Option<Seq<u8>> {
    if text.len() % 2 == 0 && forall|i: int| 0 <= i < text.len() ==> (#[trigger] hex_val(text[i])) is Some {
        Some(Seq::new(text.len() / 2, |i: int| (hex_val(text[2 * i]).unwrap() * 16 + hex_val(text[2 * i + 1]).unwrap()) as u8))
    } else {
        None
    }
}

/// `hex::encode_upper`: two upper-case hex digits per byte.
#[verifier::external_body]
pub(crate) fn hex_encode_upper(data: &[u8]) -> (s: String)
    ensures
        s@ == hex_upper(data@),
{
    hex::encode_upper(data)
}

/// `hex::decode`: the bytes of a hex text of even length, digits of either case; an error
/// otherwise.
#[verifier::external_body]
pub(crate) fn hex_decode(text: &str) -> (r: Result<Vec<u8>, String>)
    ensures
        r is Ok <==> hex_decode_spec(text.spec_bytes()) is Some,
        r matches Ok(v) ==> v@ == hex_decode_spec(text.spec_bytes()).unwrap(),
{
    hex::decode(text).map_err(|e| e.to_string())
}

/// The bytes written in hex by `text`, after any leading `0x`.
pub open spec fn account_hex_bytes(text: Seq<char>) -> Option<Seq<u8>> {
    hex_decode_spec(vstd::utf8::encode_utf8(trim_hex_prefix_spec(text)))
}

impl AccountId {
    /// `0x` followed by the upper-case hex of the account id.
    pub fn to_hex_string(&self) -> (s: String)
        ensures
            s@ == "0x"@ + hex_upper(self.0@),
    {
        let mut s = copy_str("0x");
        let h = hex_encode_upper(self.0.as_slice());
        push_str(&mut s, h.as_str());
        s
    }

    /// The account id written in hex, with or without a `0x` prefix.
    pub fn from_hex(hex: &str) -> (r: Result<AccountId, DecodeError>)
        ensures
            r is Ok <==> (account_hex_bytes(hex@) matches Some(b) && b.len() == 32),
            r matches Ok(a) ==> a.0@ == account_hex_bytes(hex@).unwrap(),
            r matches Err(DecodeError::Error(m)) ==> m@ == "Invalid account id hex."@,
    {
        let trimmed = trim_hex_prefix(hex);
        proof {
            assert(trimmed.spec_bytes() == vstd::utf8::encode_utf8(trimmed@));
        }
        let bytes = match hex_decode(trimmed) {
            Ok(b) => b,
            Err(_) => return Err(DecodeError::Error(copy_str("Invalid account id hex."))),
        };
        match AccountId::try_from(bytes.as_slice()) {
            Ok(a) => Ok(a),
            Err(_) => Err(DecodeError::Error(copy_str("Invalid account id hex."))),
        }
    }
}

// ---------------------------------------------------------------------------
// SS58.
// ---------------------------------------------------------------------------

/// The SS58 text of the account `id` with the address format `prefix`.
pub uninterp spec fn ss58_text(id: Seq<u8>, prefix: u16) -> Seq<char>;

/// Whether the address format `prefix`, of which SS58 keeps the low 14 bits, is one of the two
/// that SS58 reserves: such an address is never read back.
pub open spec fn ss58_reserved(prefix: u16) -> bool {
    prefix % 16384 == 46 || prefix % 16384 == 47
}

/// `AccountId32::to_ss58check`: the SS58 text of the account with the process-wide default
/// address format, which is some prefix. That default can be changed at run time, so which
/// prefix is not stated. Where the prefix is not reserved, the text reads back as the account
/// with the low 14 bits of the prefix. Base-58 has no `0`, so the text holds none; its
/// 35 or 36 bytes take at most 50 digits.
#[verifier::external_body]
fn sp_core_to_ss58check(id: &[u8; 32]) -> (s: String)
    ensures
        exists|p: u16|
            s@ == ss58_text(id@, p) && (!ss58_reserved(p) ==> ss58_reading(s@) == Some(
                (id@, (p % 16384) as u16),
            )),
        !s@.contains('0'),
        s@.len() <= ss58_max_len(),
{
    sp_core::crypto::AccountId32::new(*id).to_ss58check()
}

/// `AccountId32::to_ss58check_with_version` with the custom address format `prefix`: a
/// function of the account bytes and the prefix. Where the prefix is not reserved, the text
/// reads back as the account with the low 14 bits of the prefix. Base-58 has no `0`, so the
/// text holds none; its 35 or 36 bytes take at most 50 digits.
#[verifier::external_body]
fn sp_core_to_ss58check_with_version(id: &[u8; 32], prefix: u16) -> (s: String)
    ensures
        s@ == ss58_text(id@, prefix),
        !ss58_reserved(prefix) ==> ss58_reading(s@) == Some((id@, (prefix % 16384) as u16)),
        !s@.contains('0'),
        s@.len() <= ss58_max_len(),
{
    sp_core::crypto::AccountId32::new(*id).to_ss58check_with_version(Ss58AddressFormat::custom(prefix))
}

/// The account bytes and the address format that `Ss58Codec::from_ss58check_with_version`
/// reads from an SS58 text (`None` where it fails: bad base-58, length, prefix, reserved
/// format or checksum). That reading depends on the text alone.
pub uninterp spec fn ss58_reading(text: Seq<char>) -> Option<(Seq<u8>, u16)>;

/// Whether the address format `prefix` is one of sp-core's registry, that is, not a custom one
/// (`Ss58AddressFormat::is_custom` is false).
pub uninterp spec fn ss58_prefix_known(prefix: u16) -> bool;

/// Whether the address format `prefix` is a registered one: among them are Polkadot's (0),
/// Kusama's (2) and the generic Substrate format (42), which Westend uses.
pub open spec fn ss58_prefix_registered(prefix: u16) -> bool {
    prefix == 0 || prefix == 2 || prefix == 42 || ss58_prefix_known(prefix)
}

/// The most base-58 digits of an SS58 address of a 32-byte account: its decoding is 35 or 36
/// bytes long, and every text of 51 digits or more decodes to 37 bytes or more.
pub open spec fn ss58_max_len() -> nat {
    50
}

/// The account bytes that an SS58 text reads as, whatever its address format.
pub open spec fn ss58_account(text: Seq<char>) -> Option<Seq<u8>> {
    match ss58_reading(text) {
        Some((a, _)) => Some(a),
        None => None,
    }
}

/// `AccountId32::from_ss58check`: the account that `from_ss58check_with_version` reads, kept
/// where the text's address format is in the registry or is the process-wide default. A text
/// that does not read is refused (one that holds a `0`, which base-58 lacks, or one longer than
/// an address can be, never reads); one of a registered format (Polkadot's, Kusama's and the
/// generic Substrate format among them) gives the account read. That default can change at run
/// time, so whether a text of a custom format is kept is not stated.
#[verifier::external_body]
fn sp_core_from_ss58check(address: &str) -> (r: Option<[u8; 32]>)
    ensures
        r matches Some(b) ==> ss58_account(address@) == Some(b@),
        ss58_reading(address@) is None ==> r is None,
        ss58_reading(address@) is Some && (ss58_prefix_known(ss58_reading(address@).unwrap().1) || ss58_reading(address@).unwrap().1 == 0 || ss58_reading(address@).unwrap().1 == 2 || ss58_reading(address@).unwrap().1 == 42) ==> r is Some
            && r.unwrap()@ == ss58_reading(address@).unwrap().0,
        address@.contains('0') || address@.len() > ss58_max_len() ==> r is None,
{
    match sp_core::crypto::AccountId32::from_ss58check(address) {
        Ok(a) => Some(a.into()),
        Err(_) => None,
    }
}

/// `sp_core::crypto::set_default_ss58_version` with the custom format `prefix`.
#[verifier::external_body]
pub(crate) fn sp_core_set_default_ss58_version(prefix: u16) {
    sp_core::crypto::set_default_ss58_version(Ss58AddressFormat::custom(prefix))
}

/// Whether `text` is the hex of 32 bytes, with or without a `0x` prefix.
pub open spec fn account_hex_ok(text: Seq<char>) -> bool {
    account_hex_bytes(text) matches Some(b) && b.len() == 32
}

/// Whether `text` reads as an account at all: as an SS58 address or as hex.
pub open spec fn account_text_may_read(text: Seq<char>) -> bool {
    ss58_account(text) is Some || account_hex_ok(text)
}

/// Whether the account bytes `a` are what `text` reads as: the account of the SS58 address
/// or of the hex.
pub open spec fn text_reads_as(text: Seq<char>, a: Seq<u8>) -> bool {
    ss58_account(text) == Some(a) || account_hex_bytes(text) == Some(a)
}

/// The hex reading of `text`, where it is the hex of 32 bytes.
pub open spec fn account_hex_reading(text: Seq<char>) -> Option<Seq<u8>> {
    if account_hex_ok(text) {
        account_hex_bytes(text)
    } else {
        None
    }
}

/// The account that `text` surely reads as: that of its SS58 address where the address format
/// is a registered one; where the text has no SS58 reading, holds a `0` (which base-58 lacks,
/// as in a `0x` prefix) or is longer than an address (as the 64 digits of a hex account), that
/// of its hex of 32 bytes. `None` where the text does not
/// read, or where its address format is a custom one, whose acceptance rests on the
/// process-wide default format.
pub open spec fn account_text_reading(text: Seq<char>) -> Option<Seq<u8>> {
    if text.contains('0') || text.len() > ss58_max_len() {
        account_hex_reading(text)
    } else {
        match ss58_reading(text) {
            Some((a, p)) => if ss58_prefix_registered(p) {
                Some(a)
            } else {
                None
            },
            None => account_hex_reading(text),
        }
    }
}

/// Whether `text` surely reads as some account: it has a sure reading, or it is the hex of 32
/// bytes (read as such where its SS58 reading is refused).
pub open spec fn account_text_accepted(text: Seq<char>) -> bool {
    account_text_reading(text) is Some || account_hex_ok(text)
}

impl AccountId {
    /// The SS58 text of the account in the process-wide default address format.
    pub fn to_ss58_check(&self) -> (s: String)
        ensures
            exists|p: u16|
                s@ == ss58_text(self.0@, p) && (!ss58_reserved(p) ==> ss58_reading(s@) == Some(
                    (self.0@, (p % 16384) as u16),
                )),
    {
        sp_core_to_ss58check(&self.0)
    }

    /// The SS58 text of the account in the address format `prefix`.
    pub fn to_ss58_check_with_version(&self, prefix: u16) -> (s: String)
        ensures
            s@ == ss58_text(self.0@, prefix),
            !ss58_reserved(prefix) ==> ss58_reading(s@) == Some((self.0@, (prefix % 16384) as u16)),
            !ss58_reserved(prefix) && ss58_prefix_registered((prefix % 16384) as u16)
                ==> account_text_reading(s@) == Some(self.0@),
    {
        sp_core_to_ss58check_with_version(&self.0, prefix)
    }

    /// The account of an SS58 text.
    pub fn from_ss58_check(address: &str) -> (r: Result<AccountId, DecodeError>)
        ensures
            r matches Ok(a) ==> ss58_account(address@) == Some(a.0@),
            ss58_account(address@) is None ==> r is Err,
            ss58_reading(address@) is Some && ss58_prefix_registered(ss58_reading(address@).unwrap().1)
                ==> (r matches Ok(a) && a.0@ == ss58_reading(address@).unwrap().0),
            address@.contains('0') || address@.len() > ss58_max_len() ==> r is Err,
            r matches Err(DecodeError::Error(m)) ==> m@ == "Cannot get account id from SS58 encoded address "@
                + address@ + "."@,
    {
        match sp_core_from_ss58check(address) {
            Some(bytes) => Ok(AccountId(bytes)),
            None => {
                let mut msg = copy_str("Cannot get account id from SS58 encoded address ");
                push_str(&mut msg, address);
                push_str(&mut msg, ".");
                Err(DecodeError::Error(msg))
            },
        }
    }

    /// The account of a text that is either an SS58 address or the account's hex.
    pub fn from_str(text: &str) -> (r: Result<AccountId, DecodeError>)
        ensures
            account_text_accepted(text@) ==> r is Ok,
            account_text_reading(text@) matches Some(b) ==> (r matches Ok(a) && a.0@ == b),
            !account_text_may_read(text@) ==> r is Err,
            r matches Ok(a) ==> text_reads_as(text@, a.0@),
            r matches Err(DecodeError::Error(m)) ==> m@ == "Invalid address or account id hex."@,
    {
        match AccountId::from_ss58_check(text) {
            Ok(a) => Ok(a),
            Err(_) => match AccountId::from_hex(text) {
                Ok(a) => Ok(a),
                Err(_) => Err(DecodeError::Error(copy_str("Invalid address or account id hex."))),
            },
        }
    }
}

// ---------------------------------------------------------------------------
// Multisig accounts.
// ---------------------------------------------------------------------------

/// The compact (SCALE) encoding of `n`.
pub open spec fn compact_encoding(n: nat) -> Seq<u8> {
    if n < 64 {
        seq![(n * 4) as u8]
    } else if n < 0x4000 {
        seq![((n * 4 + 1) % 256) as u8, ((n * 4 + 1) / 256) as u8]
    } else if n < 0x4000_0000 {
        le_bytes(n * 4 + 2, 4)
    } else {
        seq![3u8].add(le_bytes(n, 4))
    }
}

/// The `k` little-endian bytes of `v`.
pub open spec fn le_bytes(v: nat, k: nat) -> Seq<u8>
    decreases k,
{
    if k == 0 {
        Seq::empty()
    } else {
        seq![(v % 256) as u8].add(le_bytes(v / 256, (k - 1) as nat))
    }
}

/// The concatenation of the account ids' bytes.
pub open spec fn flatten_ids(ids: Seq<[u8; 32]>) -> Seq<u8>
    decreases ids.len(),
{
    if ids.len() == 0 {
        Seq::empty()
    } else {
        flatten_ids(ids.drop_last()) + ids.last()@
    }
}

/// The BLAKE2b-256 hash of `data`.
pub uninterp spec fn blake2_256_hash(data: Seq<u8>) -> Seq<u8>;

/// `sp_core::blake2_256`: the 32-byte BLAKE2b hash of `data`.
#[verifier::external_body]
pub(crate) fn blake2_256(data: &[u8]) -> (h: [u8; 32])
    ensures
        h@ == blake2_256_hash(data@),
{
    sp_core::blake2_256(data)
}

/// The SCALE encoding of the tuple `(prefix, ids, threshold)`: the 16 prefix bytes, the
/// compact length of `ids` and their bytes, then `threshold` in two little-endian bytes.
#[verifier::external_body]
fn encode_multisig_preimage(prefix: &[u8; 16], ids: &Vec<[u8; 32]>, threshold: u16) -> (v: Vec<u8>)
    requires
        ids.len() < 0x4000_0000,
    ensures
        v@ == prefix@ + compact_encoding(ids.len() as nat) + flatten_ids(ids@) + le_bytes(threshold as nat, 2),
{
    (prefix, ids, threshold).encode()
}

/// The tag that multisig account ids are derived with.
pub open spec fn multisig_tag() -> Seq<u8> {
    seq![109u8, 111, 100, 108, 112, 121, 47, 117, 116, 105, 108, 105, 115, 117, 98, 97]
}

/// The ids of a multisig's signatories, the given signatory first.
pub open spec fn multisig_ids(signatory: AccountId, others: Seq<AccountId>) -> Seq<[u8; 32]> {
    seq![signatory.0].add(others.map_values(|a: AccountId| a.0))
}

impl AccountId {
    /// The id of the multisig account of `signatory` together with `other_signatories`
    /// and the approval `threshold`: the BLAKE2b-256 hash of the encoded tuple of the tag
    /// `modlpy/utilisuba`, the signatories (the given one first) and the threshold.
    pub fn multisig_account_id(signatory: &AccountId, other_signatories: &[AccountId], threshold: u16) -> (a: AccountId)
        requires
            other_signatories.len() + 1 < 0x4000_0000,
        ensures
            a.0@ == blake2_256_hash(
                multisig_tag() + compact_encoding((other_signatories.len() + 1) as nat) + flatten_ids(
                    multisig_ids(*signatory, other_signatories@),
                ) + le_bytes(threshold as nat, 2),
            ),
    {
        let mut ids: Vec<[u8; 32]> = Vec::new();
        ids.push(signatory.0);
        let mut i: usize = 0;
        while i < other_signatories.len()
            invariant
                i <= other_signatories.len(),
                ids@ == multisig_ids(*signatory, other_signatories@.subrange(0, i as int)),
            decreases other_signatories.len() - i,
        {
            ids.push(other_signatories[i].0);
            proof {
                assert(multisig_ids(*signatory, other_signatories@.subrange(0, i + 1)) =~= multisig_ids(
                    *signatory,
                    other_signatories@.subrange(0, i as int),
                ).push(other_signatories@[i as int].0));
            }
            i = i + 1;
        }
        assert(other_signatories@.subrange(0, i as int) =~= other_signatories@);
        let tag: [u8; 16] = [109, 111, 100, 108, 112, 121, 47, 117, 116, 105, 108, 105, 115, 117, 98, 97];
        assert(tag@ =~= multisig_tag());
        let preimage = encode_multisig_preimage(&tag, &ids, threshold);
        AccountId(blake2_256(preimage.as_slice()))
    }
}

} // verus!

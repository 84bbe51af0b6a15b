//! Block digests: which validator authored a block, read off the consensus logs of its
//! header.
use crate::codec::{codec_byte_vec, codec_u8, compact_spec, rest};
use crate::crypto::{account_hex_bytes, hex_decode};
use crate::event::{read_word, word};
use crate::identity::utf8_string;
use crate::staking::compact_at;
use crate::strings::{str_equals, trim_hex_prefix};
use crate::substrate::BlockHeader;
use vstd::prelude::*;
use vstd::string::*;
use vstd::utf8::{decode_utf8, valid_utf8};

verus! {

/// A log of a block header's digest.
pub enum DigestLog {
    Other,
    /// A consensus engine's id (4 bytes) and its message.
    Consensus(Seq<u8>, Seq<u8>),
    Seal(Seq<u8>, Seq<u8>),
    PreRuntime(Seq<u8>, Seq<u8>),
    RuntimeEnvironmentUpdated,
}

/// The message of a byte vector at `pos`: a compact length, then that many bytes.
pub open spec fn vec_at(b: Seq<u8>, pos: int) -> Option<Seq<u8>> {
    match compact_at(b, pos, 4) {
        Some((n, l)) => if pos + l + n <= b.len() {
            Some(b.subrange(pos + l, pos + l + n))
        } else {
            None
        },
        None => None,
    }
}

/// The digest log at the start of `b`: tag 0 for other data (a byte vector), 4, 5 and 6
/// for a consensus message, a seal and a pre-runtime message (an engine id and a byte
/// vector each), 8 for a runtime environment update. `None` where it does not decode.
pub open spec fn digest_log(b: Seq<u8>) -> Option<DigestLog> {
    if b.len() < 1 {
        None
    } else if b[0] == 0 {
        if vec_at(b, 1) is Some {
            Some(DigestLog::Other)
        } else {
            None
        }
    } else if b[0] == 4 || b[0] == 5 || b[0] == 6 {
        if b.len() >= 5 && vec_at(b, 5) is Some {
            let engine = b.subrange(1, 5);
            let data = vec_at(b, 5).unwrap();
            Some(
                if b[0] == 4 {
                    DigestLog::Consensus(engine, data)
                } else if b[0] == 5 {
                    DigestLog::Seal(engine, data)
                } else {
                    DigestLog::PreRuntime(engine, data)
                },
            )
        } else {
            None
        }
    } else if b[0] == 8 {
        Some(DigestLog::RuntimeEnvironmentUpdated)
    } else {
        None
    }
}

/// The authority index of a BABE pre-digest: after its tag (1 primary, 2 secondary plain,
/// 3 secondary with VRF), four little-endian bytes; then a slot, and for tags 1 and 3 a
/// 96-byte VRF output and proof. `None` where it does not decode.
pub open spec fn babe_authority_index(d: Seq<u8>) -> Option<u32> {
    if d.len() < 1 {
        None
    } else if d[0] == 2 {
        if d.len() >= 13 {
            Some(word(d, 1))
        } else {
            None
        }
    } else if d[0] == 1 || d[0] == 3 {
        if d.len() >= 109 {
            Some(word(d, 1))
        } else {
            None
        }
    } else {
        None
    }
}

/// The bytes of the engine id `BABE`.
pub open spec fn babe_engine() -> Seq<u8> {
    seq![0x42u8, 0x41u8, 0x42u8, 0x45u8]
}

/// What an engine's message says of the author: for BABE, the authority index of its
/// pre-digest; for other engines, nothing. `None` where reading it panics: the engine id
/// is not UTF-8, or a BABE message is not a pre-digest.
pub open spec fn engine_authority(engine: Seq<u8>, data: Seq<u8>) -> Option<Option<usize>> {
    if !valid_utf8(engine) {
        None
    } else if engine == babe_engine() {
        match babe_authority_index(data) {
            Some(i) => Some(Some(i as usize)),
            None => None,
        }
    } else {
        Some(None)
    }
}

/// The author index after the first `n` logs; `None` where reading one panics. A
/// pre-runtime message sets it; a consensus message or a seal sets it only while it is
/// unknown.
pub open spec fn author_fold(logs: Seq<Seq<u8>>, n: nat) -> Option<Option<usize>>
    decreases n,
{
    if n == 0 {
        Some(None)
    } else {
        match author_fold(logs, (n - 1) as nat) {
            None => None,
            Some(state) => match digest_log(logs[n - 1]) {
                None => None,
                Some(DigestLog::PreRuntime(e, d)) => engine_authority(e, d),
                Some(DigestLog::Consensus(e, d)) => if state is None {
                    engine_authority(e, d)
                } else {
                    Some(state)
                },
                Some(DigestLog::Seal(e, d)) => if state is None {
                    engine_authority(e, d)
                } else {
                    Some(state)
                },
                Some(_) => Some(state),
            },
        }
    }
}

/// The bytes that each log of a header writes in hex.
pub open spec fn log_bytes(logs: Seq<String>) -> Seq<Seq<u8>> {
    logs.map_values(|s: String| account_hex_bytes(s@).unwrap())
}

/// Whether every log of a header is hex.
pub open spec fn logs_hex(logs: Seq<String>) -> bool {
    forall|i: int| 0 <= i < logs.len() ==> (#[trigger] account_hex_bytes(logs[i]@)) is Some
}

/// What an engine's message says of the author.
fn authority_index_from_log_bytes(engine: &[u8], data: &[u8]) -> (r: Option<usize>)
    requires
        engine_authority(engine@, data@) is Some,
    ensures
        r == engine_authority(engine@, data@).unwrap(),
{
    let name = match utf8_string(engine) {
        Some(s) => s,
        None => return None,
    };
    proof {
        reveal_strlit("BABE");
        assert(name@ == decode_utf8(engine@));
    }
    if engine.len() == 4 && engine[0] == 0x42 && engine[1] == 0x41 && engine[2] == 0x42 && engine[3] == 0x45 {
        assert(engine@ =~= babe_engine());
        if data.len() < 1 {
            return None;
        }
        match read_word(data, 1) {
            Ok(i) => Some(i as usize),
            Err(_) => None,
        }
    } else {
        assert(engine@ != babe_engine()) by {
            if engine@ == babe_engine() {
                assert(engine@.len() == 4);
                assert(engine@[0] == 0x42 && engine@[1] == 0x41 && engine@[2] == 0x42 && engine@[3] == 0x45);
            }
        }
        None
    }
}

/// The log read from a log's bytes: its kind, engine id and message.
fn read_log(b: &[u8]) -> (r: Option<(u8, Vec<u8>, Vec<u8>)>)
    ensures
        r is Some <==> digest_log(b@) is Some,
        r matches Some((tag, engine, data)) ==> tag == b@[0] && match digest_log(b@).unwrap() {
            DigestLog::Consensus(e, d) => tag == 4 && engine@ == e && data@ == d,
            DigestLog::Seal(e, d) => tag == 5 && engine@ == e && data@ == d,
            DigestLog::PreRuntime(e, d) => tag == 6 && engine@ == e && data@ == d,
            _ => tag == 0 || tag == 8,
        },
{
    let tag = match codec_u8(b, 0) {
        Ok(t) => t,
        Err(_) => return None,
    };
    if tag == 0 {
        match codec_byte_vec(b, 1) {
            Ok(_) => {
                proof {
                    assert(rest(b@, 1).len() == b@.len() - 1);
                }
                Some((0, Vec::new(), Vec::new()))
            },
            Err(_) => None,
        }
    } else if tag == 4 || tag == 5 || tag == 6 {
        if b.len() < 5 {
            return None;
        }
        let engine = vstd::slice::slice_to_vec(vstd::slice::slice_subrange(b, 1, 5));
        match codec_byte_vec(b, 5) {
            Ok(data) => {
                proof {
                    let (n, l) = compact_spec(rest(b@, 5), 4).unwrap();
                    assert(rest(b@, 5).subrange(l as int, (l + n) as int) =~= b@.subrange((5 + l) as int, (5 + l + n) as int));
                }
                Some((tag, engine, data))
            },
            Err(_) => None,
        }
    } else if tag == 8 {
        Some((8, Vec::new(), Vec::new()))
    } else {
        None
    }
}

impl BlockHeader {
    /// The index of the validator that authored the block, read off the logs of its
    /// digest; `None` where no log names it.
    pub fn get_validator_index(&self) -> (r: Option<usize>)
        requires
            logs_hex(self.digest.logs@),
            author_fold(log_bytes(self.digest.logs@), self.digest.logs.len() as nat) is Some,
        ensures
            r == author_fold(log_bytes(self.digest.logs@), self.digest.logs.len() as nat).unwrap(),
    {
        let ghost logs = log_bytes(self.digest.logs@);
        let mut validator_index: Option<usize> = None;
        let mut i: usize = 0;
        while i < self.digest.logs.len()
            invariant
                i <= self.digest.logs.len(),
                logs == log_bytes(self.digest.logs@),
                logs_hex(self.digest.logs@),
                author_fold(logs, self.digest.logs.len() as nat) is Some,
                author_fold(logs, i as nat) == Some(validator_index),
            decreases self.digest.logs.len() - i,
        {
            proof {
                lemma_fold_prefix_some(logs, (i + 1) as nat, self.digest.logs.len() as nat);
                assert(account_hex_bytes(self.digest.logs@[i as int]@) is Some);
            }
            let text = self.digest.logs[i].as_str();
            let trimmed = trim_hex_prefix(text);
            proof {
                assert(trimmed.spec_bytes() == vstd::utf8::encode_utf8(trimmed@));
            }
            let bytes = match hex_decode(trimmed) {
                Ok(b) => b,
                Err(_) => return validator_index,
            };
            assert(bytes@ == logs[i as int]);
            match read_log(bytes.as_slice()) {
                Some((tag, engine, data)) => {
                    if tag == 6 {
                        validator_index = authority_index_from_log_bytes(engine.as_slice(), data.as_slice());
                    } else if tag == 4 || tag == 5 {
                        if validator_index.is_none() {
                            validator_index = authority_index_from_log_bytes(engine.as_slice(), data.as_slice());
                        }
                    }
                },
                None => {},
            }
            i = i + 1;
        }
        validator_index
    }
}

/// Where the fold over `m` logs reads on without panicking, so it does over fewer.
proof fn lemma_fold_prefix_some(logs: Seq<Seq<u8>>, n: nat, m: nat)
    requires
        n <= m,
        author_fold(logs, m) is Some,
    ensures
        author_fold(logs, n) is Some,
    decreases m,
{
    if n < m {
        lemma_fold_prefix_some(logs, n, (m - 1) as nat);
    }
}

} // verus!

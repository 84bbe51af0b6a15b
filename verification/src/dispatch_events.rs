//! The events that report dispatches: those of the system pallet (extrinsic success and
//! failure, accounts made and reaped), of batches, of multisig and of proxy calls.
use crate::codec::codec_bytes32;
use crate::crypto::AccountId;
use crate::dispatch::{
    decode_dispatch_error, decode_dispatch_info, decode_dispatch_result, dispatch_error_at,
    dispatch_info_at, dispatch_result_at, DispatchError, DispatchInfo,
};
use crate::error::DecodeError;
use crate::event::{acct, decoded_as, read_account, read_word, word};
use crate::strings::str_equals;
use vstd::prelude::*;

verus! {

// ---------------------------------------------------------------------------
// System events.
// ---------------------------------------------------------------------------

/// The system events that SubVT follows.
#[derive(Clone, Debug, PartialEq, Eq)]
pub enum SystemEvent {
    CodeUpdated { extrinsic_index: Option<u32> },
    ExtrinsicFailed { extrinsic_index: Option<u32>, dispatch_error: DispatchError, dispatch_info: DispatchInfo },
    ExtrinsicSuccess { extrinsic_index: Option<u32>, dispatch_info: DispatchInfo },
    KilledAccount { extrinsic_index: Option<u32>, account_id: AccountId },
    NewAccount { extrinsic_index: Option<u32>, account_id: AccountId },
}

/// The extrinsic index that a system event carries.
pub open spec fn system_extrinsic_index(e: SystemEvent) -> Option<u32> {
    match e {
        SystemEvent::CodeUpdated { extrinsic_index } => extrinsic_index,
        SystemEvent::ExtrinsicFailed { extrinsic_index, .. } => extrinsic_index,
        SystemEvent::ExtrinsicSuccess { extrinsic_index, .. } => extrinsic_index,
        SystemEvent::KilledAccount { extrinsic_index, .. } => extrinsic_index,
        SystemEvent::NewAccount { extrinsic_index, .. } => extrinsic_index,
    }
}

impl SystemEvent {
    /// The index of the extrinsic that raised the event, if one did.
    pub fn get_extrinsic_index(&self) -> (r: Option<u32>)
        ensures
            r == system_extrinsic_index(*self),
    {
        match self {
            SystemEvent::CodeUpdated { extrinsic_index } => *extrinsic_index,
            SystemEvent::ExtrinsicFailed { extrinsic_index, .. } => *extrinsic_index,
            SystemEvent::ExtrinsicSuccess { extrinsic_index, .. } => *extrinsic_index,
            SystemEvent::KilledAccount { extrinsic_index, .. } => *extrinsic_index,
            SystemEvent::NewAccount { extrinsic_index, .. } => *extrinsic_index,
        }
    }
}

/// What the system event named `name` with the fields `b` decodes to in a runtime of
/// version `rv`: `None` where its fields do not decode, `Some(None)` where SubVT does not
/// follow that event.
pub open spec fn system_event_spec(rv: u32, name: Seq<char>, xi: Option<u32>, b: Seq<u8>) -> Option<Option<SystemEvent>> {
    if name == "CodeUpdated"@ {
        Some(Some(SystemEvent::CodeUpdated { extrinsic_index: xi }))
    } else if name == "ExtrinsicSuccess"@ {
        match dispatch_info_at(b, 0, rv <= 9300) {
            Some((i, _)) => Some(Some(SystemEvent::ExtrinsicSuccess { extrinsic_index: xi, dispatch_info: i })),
            None => None,
        }
    } else if name == "ExtrinsicFailed"@ {
        match dispatch_error_at(b, 0, rv < 9190) {
            Some((e, p)) => match dispatch_info_at(b, p as int, rv <= 9300) {
                Some((i, _)) => Some(
                    Some(SystemEvent::ExtrinsicFailed { extrinsic_index: xi, dispatch_error: e, dispatch_info: i }),
                ),
                None => None,
            },
            None => None,
        }
    } else if name == "KilledAccount"@ {
        if b.len() >= 32 {
            Some(Some(SystemEvent::KilledAccount { extrinsic_index: xi, account_id: acct(b, 0) }))
        } else {
            None
        }
    } else if name == "NewAccount"@ {
        if b.len() >= 32 {
            Some(Some(SystemEvent::NewAccount { extrinsic_index: xi, account_id: acct(b, 0) }))
        } else {
            None
        }
    } else {
        Some(None)
    }
}

impl SystemEvent {
    /// Reads the system event named `name` from its fields `bytes`, in the layouts of the
    /// runtime version; `None` where SubVT does not follow that event.
    pub fn decode(runtime_version: u32, name: &str, extrinsic_index: Option<u32>, bytes: &[u8]) -> (r: Result<Option<SystemEvent>, DecodeError>)
        ensures
            decoded_as(system_event_spec(runtime_version, name@, extrinsic_index, bytes@), r),
    {
        let xi = extrinsic_index;
        if str_equals(name, "CodeUpdated") {
            Ok(Some(SystemEvent::CodeUpdated { extrinsic_index: xi }))
        } else if str_equals(name, "ExtrinsicSuccess") {
            let (i, _) = decode_dispatch_info(runtime_version, bytes, 0)?;
            Ok(Some(SystemEvent::ExtrinsicSuccess { extrinsic_index: xi, dispatch_info: i }))
        } else if str_equals(name, "ExtrinsicFailed") {
            let (e, p) = decode_dispatch_error(runtime_version, bytes, 0)?;
            let (i, _) = decode_dispatch_info(runtime_version, bytes, p)?;
            Ok(Some(SystemEvent::ExtrinsicFailed { extrinsic_index: xi, dispatch_error: e, dispatch_info: i }))
        } else if str_equals(name, "KilledAccount") {
            let a = read_account(bytes, 0)?;
            Ok(Some(SystemEvent::KilledAccount { extrinsic_index: xi, account_id: a }))
        } else if str_equals(name, "NewAccount") {
            let a = read_account(bytes, 0)?;
            Ok(Some(SystemEvent::NewAccount { extrinsic_index: xi, account_id: a }))
        } else {
            Ok(None)
        }
    }
}

// ---------------------------------------------------------------------------
// Utility events.
// ---------------------------------------------------------------------------

/// The events of batches of calls.
#[derive(Clone, Debug, PartialEq, Eq)]
pub enum UtilityEvent {
    ItemCompleted { extrinsic_index: Option<u32> },
    ItemFailed { extrinsic_index: Option<u32>, dispatch_error: DispatchError },
    BatchInterrupted { extrinsic_index: Option<u32>, item_index: u32, dispatch_error: DispatchError },
    BatchCompleted { extrinsic_index: Option<u32> },
    BatchCompletedWithErrors { extrinsic_index: Option<u32> },
}

/// The extrinsic index that a utility event carries.
pub open spec fn utility_extrinsic_index(e: UtilityEvent) -> Option<u32> {
    match e {
        UtilityEvent::ItemCompleted { extrinsic_index } => extrinsic_index,
        UtilityEvent::ItemFailed { extrinsic_index, .. } => extrinsic_index,
        UtilityEvent::BatchInterrupted { extrinsic_index, .. } => extrinsic_index,
        UtilityEvent::BatchCompleted { extrinsic_index } => extrinsic_index,
        UtilityEvent::BatchCompletedWithErrors { extrinsic_index } => extrinsic_index,
    }
}

impl UtilityEvent {
    /// The index of the extrinsic that raised the event, if one did.
    pub fn get_extrinsic_index(&self) -> (r: Option<u32>)
        ensures
            r == utility_extrinsic_index(*self),
    {
        match self {
            UtilityEvent::ItemCompleted { extrinsic_index } => *extrinsic_index,
            UtilityEvent::ItemFailed { extrinsic_index, .. } => *extrinsic_index,
            UtilityEvent::BatchInterrupted { extrinsic_index, .. } => *extrinsic_index,
            UtilityEvent::BatchCompleted { extrinsic_index } => *extrinsic_index,
            UtilityEvent::BatchCompletedWithErrors { extrinsic_index } => *extrinsic_index,
        }
    }
}

/// What the utility event named `name` with the fields `b` decodes to in a runtime of
/// version `rv`.
pub open spec fn utility_event_spec(rv: u32, name: Seq<char>, xi: Option<u32>, b: Seq<u8>) -> Option<Option<UtilityEvent>> {
    if name == "ItemCompleted"@ {
        Some(Some(UtilityEvent::ItemCompleted { extrinsic_index: xi }))
    } else if name == "ItemFailed"@ {
        match dispatch_error_at(b, 0, rv < 9190) {
            Some((e, _)) => Some(Some(UtilityEvent::ItemFailed { extrinsic_index: xi, dispatch_error: e })),
            None => None,
        }
    } else if name == "BatchInterrupted"@ {
        if b.len() >= 4 {
            match dispatch_error_at(b, 4, rv < 9190) {
                Some((e, _)) => Some(
                    Some(UtilityEvent::BatchInterrupted { extrinsic_index: xi, item_index: word(b, 0), dispatch_error: e }),
                ),
                None => None,
            }
        } else {
            None
        }
    } else if name == "BatchCompleted"@ {
        Some(Some(UtilityEvent::BatchCompleted { extrinsic_index: xi }))
    } else if name == "BatchCompletedWithErrors"@ {
        Some(Some(UtilityEvent::BatchCompletedWithErrors { extrinsic_index: xi }))
    } else {
        Some(None)
    }
}

impl UtilityEvent {
    /// Reads the utility event named `name` from its fields `bytes`, in the layouts of the
    /// runtime version; `None` where SubVT does not follow that event.
    pub fn decode(runtime_version: u32, name: &str, extrinsic_index: Option<u32>, bytes: &[u8]) -> (r: Result<Option<UtilityEvent>, DecodeError>)
        ensures
            decoded_as(utility_event_spec(runtime_version, name@, extrinsic_index, bytes@), r),
    {
        let xi = extrinsic_index;
        if str_equals(name, "ItemCompleted") {
            Ok(Some(UtilityEvent::ItemCompleted { extrinsic_index: xi }))
        } else if str_equals(name, "ItemFailed") {
            let (e, _) = decode_dispatch_error(runtime_version, bytes, 0)?;
            Ok(Some(UtilityEvent::ItemFailed { extrinsic_index: xi, dispatch_error: e }))
        } else if str_equals(name, "BatchInterrupted") {
            let item_index = read_word(bytes, 0)?;
            let (e, _) = decode_dispatch_error(runtime_version, bytes, 4)?;
            Ok(Some(UtilityEvent::BatchInterrupted { extrinsic_index: xi, item_index, dispatch_error: e }))
        } else if str_equals(name, "BatchCompleted") {
            Ok(Some(UtilityEvent::BatchCompleted { extrinsic_index: xi }))
        } else if str_equals(name, "BatchCompletedWithErrors") {
            Ok(Some(UtilityEvent::BatchCompletedWithErrors { extrinsic_index: xi }))
        } else {
            Ok(None)
        }
    }
}

// ---------------------------------------------------------------------------
// Multisig and proxy events.
// ---------------------------------------------------------------------------

/// A point in the chain: a block height and the index of an extrinsic in that block.
#[derive(Clone, Copy, Debug, PartialEq, Eq)]
pub struct Timepoint {
    pub height: u32,
    pub index: u32,
}

/// The 32 bytes at `pos` in `b`.
pub open spec fn hash_at(b: Seq<u8>, pos: int) -> [u8; 32] {
    choose|a: [u8; 32]| a@ == b.subrange(pos, pos + 32)
}

/// The multisig events that SubVT follows.
#[derive(Clone, Copy, Debug, PartialEq, Eq)]
pub enum MultisigEvent {
    MultisigExecuted {
        extrinsic_index: Option<u32>,
        approving_account_id: AccountId,
        timepoint: Timepoint,
        multisig_account_id: AccountId,
        call_hash: [u8; 32],
        result: Result<(), DispatchError>,
    },
}

impl MultisigEvent {
    /// The index of the extrinsic that raised the event, if one did.
    pub fn get_extrinsic_index(&self) -> (r: Option<u32>)
        ensures
            r == (match *self {
                MultisigEvent::MultisigExecuted { extrinsic_index, .. } => extrinsic_index,
            }),
    {
        match self {
            MultisigEvent::MultisigExecuted { extrinsic_index, .. } => *extrinsic_index,
        }
    }
}

/// What the multisig event named `name` with the fields `b` decodes to in a runtime of
/// version `rv`: the approving account, the time point, the multisig account, the call
/// hash and the dispatch result, one after another.
pub open spec fn multisig_event_spec(rv: u32, name: Seq<char>, xi: Option<u32>, b: Seq<u8>) -> Option<Option<MultisigEvent>> {
    if name == "MultisigExecuted"@ {
        if b.len() >= 104 {
            match dispatch_result_at(b, 104, rv < 9190) {
                Some((res, _)) => Some(
                    Some(
                        MultisigEvent::MultisigExecuted {
                            extrinsic_index: xi,
                            approving_account_id: acct(b, 0),
                            timepoint: Timepoint { height: word(b, 32), index: word(b, 36) },
                            multisig_account_id: acct(b, 40),
                            call_hash: hash_at(b, 72),
                            result: res,
                        },
                    ),
                ),
                None => None,
            }
        } else {
            None
        }
    } else {
        Some(None)
    }
}

/// Reads the 32 bytes at `pos`.
fn read_hash(bytes: &[u8], pos: usize) -> (r: Result<[u8; 32], DecodeError>)
    requires
        pos <= bytes.len(),
    ensures
        r is Ok <==> pos + 32 <= bytes.len(),
        r matches Ok(h) ==> h == hash_at(bytes@, pos as int),
{
    match codec_bytes32(bytes, pos) {
        Ok(h) => {
            proof {
                let c = hash_at(bytes@, pos as int);
                assert(c@ == h@);
                assert(c =~= h);
            }
            Ok(h)
        },
        Err(e) => Err(DecodeError::Error(e)),
    }
}

impl MultisigEvent {
    /// Reads the multisig event named `name` from its fields `bytes`, in the layouts of the
    /// runtime version; `None` where SubVT does not follow that event.
    pub fn decode(runtime_version: u32, name: &str, extrinsic_index: Option<u32>, bytes: &[u8]) -> (r: Result<Option<MultisigEvent>, DecodeError>)
        ensures
            decoded_as(multisig_event_spec(runtime_version, name@, extrinsic_index, bytes@), r),
    {
        if str_equals(name, "MultisigExecuted") {
            let approving = read_account(bytes, 0)?;
            let height = read_word(bytes, 32)?;
            let index = read_word(bytes, 36)?;
            let multisig = read_account(bytes, 40)?;
            let call_hash = read_hash(bytes, 72)?;
            let (result, _) = decode_dispatch_result(runtime_version, bytes, 104)?;
            Ok(
                Some(
                    MultisigEvent::MultisigExecuted {
                        extrinsic_index,
                        approving_account_id: approving,
                        timepoint: Timepoint { height, index },
                        multisig_account_id: multisig,
                        call_hash,
                        result,
                    },
                ),
            )
        } else {
            Ok(None)
        }
    }
}

/// The proxy events that SubVT follows.
#[derive(Clone, Copy, Debug, PartialEq, Eq)]
pub enum ProxyEvent {
    ProxyExecuted { extrinsic_index: Option<u32>, result: Result<(), DispatchError> },
}

impl ProxyEvent {
    /// The index of the extrinsic that raised the event, if one did.
    pub fn get_extrinsic_index(&self) -> (r: Option<u32>)
        ensures
            r == (match *self {
                ProxyEvent::ProxyExecuted { extrinsic_index, .. } => extrinsic_index,
            }),
    {
        match self {
            ProxyEvent::ProxyExecuted { extrinsic_index, .. } => *extrinsic_index,
        }
    }
}

/// What the proxy event named `name` with the fields `b` decodes to in a runtime of
/// version `rv`.
pub open spec fn proxy_event_spec(rv: u32, name: Seq<char>, xi: Option<u32>, b: Seq<u8>) -> Option<Option<ProxyEvent>> {
    if name == "ProxyExecuted"@ {
        match dispatch_result_at(b, 0, rv < 9190) {
            Some((res, _)) => Some(Some(ProxyEvent::ProxyExecuted { extrinsic_index: xi, result: res })),
            None => None,
        }
    } else {
        Some(None)
    }
}

impl ProxyEvent {
    /// Reads the proxy event named `name` from its fields `bytes`, in the layouts of the
    /// runtime version; `None` where SubVT does not follow that event.
    pub fn decode(runtime_version: u32, name: &str, extrinsic_index: Option<u32>, bytes: &[u8]) -> (r: Result<Option<ProxyEvent>, DecodeError>)
        ensures
            decoded_as(proxy_event_spec(runtime_version, name@, extrinsic_index, bytes@), r),
    {
        if str_equals(name, "ProxyExecuted") {
            let (result, _) = decode_dispatch_result(runtime_version, bytes, 0)?;
            Ok(Some(ProxyEvent::ProxyExecuted { extrinsic_index, result }))
        } else {
            Ok(None)
        }
    }
}

} // verus!

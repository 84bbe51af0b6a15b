//! Parachain core assignments: which core and validator group backed a parachain's
//! candidate, from the on-chain backing votes and the cores or the claim queue.
use vstd::prelude::*;

verus! {

/// Whether a core serves a parathread or a parachain.
#[derive(Clone, Copy, Debug, Eq, Hash, PartialEq)]
pub enum ParaAssignmentKind {
    Parathread,
    Parachain,
}

impl ParaAssignmentKind {
    /// The lower-case name of the kind.
    pub fn to_string(&self) -> (s: String)
        ensures
            s@ == (match *self {
                ParaAssignmentKind::Parathread => "parathread"@,
                ParaAssignmentKind::Parachain => "parachain"@,
            }),
    {
        match self {
            ParaAssignmentKind::Parathread => String::from_str("parathread"),
            ParaAssignmentKind::Parachain => String::from_str("parachain"),
        }
    }
}

/// The core, parachain and validator group of a backed candidate.
#[derive(Clone, Copy, Debug, Eq, Hash, PartialEq)]
pub struct ParaCoreAssignment {
    pub core_index: u32,
    pub para_id: u32,
    pub group_index: u32,
}

/// The backing votes of one candidate: its parachain and the indices of the validators that
/// backed it, in the order of the votes.
#[derive(Clone, Debug, Eq, PartialEq)]
pub struct CandidateVotes {
    pub para_id: u32,
    pub validator_indices: Vec<u32>,
}

/// The last core of `cores[..n]` that is occupied by the parachain `para_id` (a free core
/// is `None`).
pub open spec fn last_core_of(cores: Seq<Option<u32>>, para_id: u32, n: nat) -> Option<u32>
    decreases n,
{
    if n == 0 {
        None
    } else if cores[n - 1] == Some(para_id) {
        Some((n - 1) as u32)
    } else {
        last_core_of(cores, para_id, (n - 1) as nat)
    }
}

/// The assignments that the votes `votes[..n]` give, with the legacy list of cores: one for
/// each candidate with at least one vote whose parachain occupies a core; the group is the
/// first voter's index divided by the group size, the core the last one the parachain
/// occupies.
pub open spec fn legacy_assignments(group_size: nat, cores: Seq<Option<u32>>, votes: Seq<CandidateVotes>, n: nat) -> Seq<ParaCoreAssignment>
    decreases n,
{
    if n == 0 {
        Seq::empty()
    } else {
        let prev = legacy_assignments(group_size, cores, votes, (n - 1) as nat);
        let v = votes[n - 1];
        if v.validator_indices.len() > 0 && last_core_of(cores, v.para_id, cores.len()) is Some {
            prev.push(
                ParaCoreAssignment {
                    core_index: last_core_of(cores, v.para_id, cores.len()).unwrap(),
                    para_id: v.para_id,
                    group_index: (v.validator_indices@[0] as nat / group_size) as u32,
                },
            )
        } else {
            prev
        }
    }
}

fn find_last_core(cores: &Vec<Option<u32>>, para_id: u32) -> (r: Option<u32>)
    requires
        cores.len() <= u32::MAX,
    ensures
        r == last_core_of(cores@, para_id, cores.len() as nat),
{
    let mut found: Option<u32> = None;
    let mut i: usize = 0;
    while i < cores.len()
        invariant
            i <= cores.len(),
            cores.len() <= u32::MAX,
            found == last_core_of(cores@, para_id, i as nat),
        decreases cores.len() - i,
    {
        if cores[i] == Some(para_id) {
            found = Some(i as u32);
        }
        i = i + 1;
    }
    found
}

impl ParaCoreAssignment {
    /// The assignments of the backed candidates, with the legacy list of cores (each free,
    /// or occupied by a parachain).
    pub fn from_on_chain_votes_legacy(group_size: u8, cores: &Vec<Option<u32>>, votes: &Vec<CandidateVotes>) -> (r: Vec<ParaCoreAssignment>)
        requires
            cores.len() <= u32::MAX,
            group_size > 0 || forall|k: int| 0 <= k < votes.len() ==> (#[trigger] votes@[k]).validator_indices.len() == 0
                || last_core_of(cores@, votes@[k].para_id, cores.len() as nat) is None,
        ensures
            r@ == legacy_assignments(group_size as nat, cores@, votes@, votes.len() as nat),
    {
        let mut result: Vec<ParaCoreAssignment> = Vec::new();
        let mut i: usize = 0;
        while i < votes.len()
            invariant
                i <= votes.len(),
                cores.len() <= u32::MAX,
                group_size > 0 || forall|k: int| 0 <= k < votes.len() ==> (#[trigger] votes@[k]).validator_indices.len() == 0
                    || last_core_of(cores@, votes@[k].para_id, cores.len() as nat) is None,
                result@ == legacy_assignments(group_size as nat, cores@, votes@, i as nat),
            decreases votes.len() - i,
        {
            let v = &votes[i];
            if v.validator_indices.len() > 0 {
                let maybe_core = find_last_core(cores, v.para_id);
                if let Some(core_index) = maybe_core {
                    let group_index = v.validator_indices[0] / (group_size as u32);
                    result.push(ParaCoreAssignment { core_index, para_id: v.para_id, group_index });
                }
            }
            i = i + 1;
        }
        result
    }
}

/// An entry of a core's claim queue: a parachain from the on-demand pool, with the core it
/// names, or a parachain with bulk coretime.
#[derive(Clone, Copy, Debug, Eq, PartialEq)]
pub enum Assignment {
    Pool { para_id: u32, core_index: u32 },
    Bulk(u32),
}

/// The claim queue: for each core, in increasing core order, its queued assignments.
#[derive(Clone, Debug, Eq, PartialEq)]
pub struct ClaimQueueEntry {
    pub core_index: u32,
    pub assignments: Vec<Assignment>,
}

/// Whether the cores of the claim queue come in strictly increasing order, as a map keyed
/// by core walks them.
pub open spec fn claim_queue_ordered(q: Seq<ClaimQueueEntry>) -> bool {
    forall|i: int, j: int| 0 <= i < j < q.len() ==> q[i].core_index < q[j].core_index
}

/// The core that the assignment `a`, queued on `core`, gives the parachain `para_id`.
pub open spec fn assignment_core(a: Assignment, core: u32, para_id: u32) -> Option<u32> {
    match a {
        Assignment::Pool { para_id: p, core_index } => if p == para_id {
            Some(core_index)
        } else {
            None
        },
        Assignment::Bulk(p) => if p == para_id {
            Some(core)
        } else {
            None
        },
    }
}

/// The core given by the last matching assignment among `assignments[..n]` of `core`, or
/// `prev` where none matches.
pub open spec fn last_in_assignments(assignments: Seq<Assignment>, core: u32, para_id: u32, n: nat, prev: Option<u32>) -> Option<u32>
    decreases n,
{
    if n == 0 {
        prev
    } else {
        let before = last_in_assignments(assignments, core, para_id, (n - 1) as nat, prev);
        match assignment_core(assignments[n - 1], core, para_id) {
            Some(c) => Some(c),
            None => before,
        }
    }
}

/// The core given by the last matching assignment of the first `n` cores of the queue.
pub open spec fn last_in_queue(q: Seq<ClaimQueueEntry>, para_id: u32, n: nat) -> Option<u32>
    decreases n,
{
    if n == 0 {
        None
    } else {
        let e = q[n - 1];
        last_in_assignments(e.assignments@, e.core_index, para_id, e.assignments.len() as nat, last_in_queue(q, para_id, (n - 1) as nat))
    }
}

/// The assignments that the votes `votes[..n]` give with the claim queue `q`.
pub open spec fn queue_assignments(group_size: nat, q: Seq<ClaimQueueEntry>, votes: Seq<CandidateVotes>, n: nat) -> Seq<ParaCoreAssignment>
    decreases n,
{
    if n == 0 {
        Seq::empty()
    } else {
        let prev = queue_assignments(group_size, q, votes, (n - 1) as nat);
        let v = votes[n - 1];
        if v.validator_indices.len() > 0 && last_in_queue(q, v.para_id, q.len()) is Some {
            prev.push(
                ParaCoreAssignment {
                    core_index: last_in_queue(q, v.para_id, q.len()).unwrap(),
                    para_id: v.para_id,
                    group_index: (v.validator_indices@[0] as nat / group_size) as u32,
                },
            )
        } else {
            prev
        }
    }
}

fn find_core_in_queue(q: &Vec<ClaimQueueEntry>, para_id: u32) -> (r: Option<u32>)
    ensures
        r == last_in_queue(q@, para_id, q.len() as nat),
{
    let mut found: Option<u32> = None;
    let mut i: usize = 0;
    while i < q.len()
        invariant
            i <= q.len(),
            found == last_in_queue(q@, para_id, i as nat),
        decreases q.len() - i,
    {
        let entry = &q[i];
        let ghost before = found;
        let mut j: usize = 0;
        while j < entry.assignments.len()
            invariant
                j <= entry.assignments.len(),
                found == last_in_assignments(entry.assignments@, entry.core_index, para_id, j as nat, before),
            decreases entry.assignments.len() - j,
        {
            match entry.assignments[j] {
                Assignment::Pool { para_id: p, core_index } => {
                    if p == para_id {
                        found = Some(core_index);
                    }
                },
                Assignment::Bulk(p) => {
                    if p == para_id {
                        found = Some(entry.core_index);
                    }
                },
            }
            j = j + 1;
        }
        i = i + 1;
    }
    found
}

impl ParaCoreAssignment {
    /// The assignments of the backed candidates, with the claim queue of the cores.
    pub fn from_claim_queue(group_size: u32, claim_queue: &Vec<ClaimQueueEntry>, votes: &Vec<CandidateVotes>) -> (r: Vec<ParaCoreAssignment>)
        requires
            claim_queue_ordered(claim_queue@),
            group_size > 0 || forall|k: int| 0 <= k < votes.len() ==> (#[trigger] votes@[k]).validator_indices.len() == 0
                || last_in_queue(claim_queue@, votes@[k].para_id, claim_queue.len() as nat) is None,
        ensures
            r@ == queue_assignments(group_size as nat, claim_queue@, votes@, votes.len() as nat),
    {
        let mut result: Vec<ParaCoreAssignment> = Vec::new();
        let mut i: usize = 0;
        while i < votes.len()
            invariant
                i <= votes.len(),
                group_size > 0 || forall|k: int| 0 <= k < votes.len() ==> (#[trigger] votes@[k]).validator_indices.len() == 0
                    || last_in_queue(claim_queue@, votes@[k].para_id, claim_queue.len() as nat) is None,
                result@ == queue_assignments(group_size as nat, claim_queue@, votes@, i as nat),
            decreases votes.len() - i,
        {
            let v = &votes[i];
            if v.validator_indices.len() > 0 {
                let maybe_core = find_core_in_queue(claim_queue, v.para_id);
                if let Some(core_index) = maybe_core {
                    let group_index = v.validator_indices[0] / group_size;
                    result.push(ParaCoreAssignment { core_index, para_id: v.para_id, group_index });
                }
            }
            i = i + 1;
        }
        result
    }
}

} // verus!

use vstd::prelude::*;
use vstd::string::StrSliceExecFns;
use crate::path::{is_ordered_path, lemma_path_follows_positions, order_merkle_path, rank};
use crate::record::{
    error_of, ContractRow, EligibleResponse, EligibleRow, LookupError, LookupOutcome,
    ProofFragment, StoreError,
};

verus! {

/// The longest identity, in characters, that a lookup sends to the store.
pub const MAX_IDENTITY_LEN: usize = 256;

/// An identity that the store is asked about: not empty and not too long.
pub open spec fn valid_identity(s: Seq<char>) -> bool {
    0 < s.len() <= MAX_IDENTITY_LEN
}

pub fn is_valid_identity(identity: &str) -> (r: bool)
    ensures
        r == valid_identity(identity@),
{
    let n = identity.unicode_len();
    0 < n && n <= MAX_IDENTITY_LEN
}

/// Row `i` is the one a lookup settles on where several rows share an
/// identity: the lowest internal id, and of those the first returned.
pub open spec fn is_chosen_row(rows: Seq<EligibleRow>, i: int) -> bool {
    &&& 0 <= i < rows.len()
    &&& forall|j: int| 0 <= j < rows.len() ==> rows[i].id <= #[trigger] rows[j].id
    &&& forall|j: int| 0 <= j < i ==> rows[i].id < #[trigger] rows[j].id
}

/// The row a lookup settles on, or `None` where there is none.
pub fn choose_row(rows: &Vec<EligibleRow>) -> (r: Option<usize>)
    ensures
        r is None <==> rows.len() == 0,
        r matches Some(i) ==> is_chosen_row(rows@, i as int),
{
    if rows.len() == 0 {
        return None;
    }
    let mut best: usize = 0;
    let mut k: usize = 1;
    while k < rows.len()
        invariant
            0 < rows.len(),
            best < k <= rows.len(),
            forall|j: int| 0 <= j < k ==> rows@[best as int].id <= #[trigger] rows@[j].id,
            forall|j: int| 0 <= j < best ==> rows@[best as int].id < #[trigger] rows@[j].id,
        decreases rows.len() - k,
    {
        if rows[k].id < rows[best].id {
            best = k;
        }
        k = k + 1;
    }
    Some(best)
}

/// `resp` answers for `row`, its `contract` and the proof fragments `f`: the
/// record's fields copied as they are, the segments in position order, and
/// the path's length beside it.
pub open spec fn is_response_for(
    resp: EligibleResponse,
    row: EligibleRow,
    contract: ContractRow,
    f: Seq<ProofFragment>,
) -> bool {
    &&& resp.identity@ == row.identity@
    &&& resp.amount@ == row.amount@
    &&& resp.merkle_index@ == row.merkle_index@
    &&& resp.contract_address@ == contract.contract_address@
    &&& resp.contract_type@ == contract.contract_type@
    &&& is_ordered_path(f, resp.merkle_path@)
    &&& resp.merkle_path_len == resp.merkle_path@.len()
}

/// The response for a record, its contract and its proof fragments.
pub fn assemble(row: &EligibleRow, contract: &ContractRow, fragments: &Vec<ProofFragment>) -> (r:
    EligibleResponse)
    ensures
        is_response_for(r, *row, *contract, fragments@),
        r.merkle_path_len == fragments.len(),
        fragments.len() == 0 ==> r.merkle_path@.len() == 0 && r.merkle_path_len == 0,
{
    let merkle_path = order_merkle_path(fragments);
    let merkle_path_len = merkle_path.len();
    EligibleResponse {
        identity: row.identity.clone(),
        amount: row.amount.clone(),
        merkle_index: row.merkle_index.clone(),
        contract_address: contract.contract_address.clone(),
        contract_type: contract.contract_type.clone(),
        merkle_path,
        merkle_path_len,
    }
}

/// Where a lookup stands between two reads of the store.
#[derive(Clone, Debug, PartialEq, Eq)]
pub enum Phase {
    /// The record of the identity was asked for.
    AwaitingRecord,
    /// The record is known; its proof fragments were asked for.
    AwaitingFragments { row: EligibleRow },
    /// The lookup has answered.
    Finished,
}

/// What the store gave back for the read that was asked for.
#[derive(Debug)]
pub enum StoreEvent {
    Records(Result<Vec<EligibleRow>, StoreError>),
    Fragments(Result<Vec<ProofFragment>, StoreError>),
}

/// What the caller does next on behalf of a lookup.
#[derive(Clone, Debug, PartialEq, Eq)]
pub enum Action {
    /// Read the rows of this identity, joined with their contracts.
    FindRecord(String),
    /// Read the proof fragments of the record with this internal id.
    FindFragments(i64),
    /// Answer with this outcome; the lookup is over.
    Respond(LookupOutcome),
}

/// One lookup of one identity. It holds nothing beyond its own reads, so
/// lookups of different identities do not share state.
#[derive(Clone, Debug, PartialEq, Eq)]
pub struct Lookup {
    pub phase: Phase,
}

/// `e` is the event that a lookup in phase `p` waits for.
pub open spec fn awaits(p: Phase, e: StoreEvent) -> bool {
    match p {
        Phase::AwaitingRecord => e is Records,
        Phase::AwaitingFragments { .. } => e is Fragments,
        Phase::Finished => false,
    }
}

/// The rows of an identity came back: none means not found; otherwise the
/// chosen row's contract must be there, and its fragments are asked for.
pub open spec fn is_records_step(rows: Seq<EligibleRow>, after: Phase, a: Action) -> bool {
    if rows.len() == 0 {
        &&& after is Finished
        &&& a == Action::Respond(LookupOutcome::NotFound)
    } else {
        exists|i: int|
            #![trigger rows[i]]
            {
                &&& is_chosen_row(rows, i)
                &&& if rows[i].contract is None {
                    &&& after is Finished
                    &&& a == Action::Respond(LookupOutcome::Failed(LookupError::MissingContract))
                } else {
                    &&& after == (Phase::AwaitingFragments { row: rows[i] })
                    &&& a == Action::FindFragments(rows[i].id)
                }
            }
    }
}

/// The fragments of `row` came back: the lookup answers with its response.
pub open spec fn is_fragments_step(row: EligibleRow, f: Seq<ProofFragment>, a: Action) -> bool {
    match row.contract {
        Some(c) => {
            &&& a is Respond
            &&& a->Respond_0 is Found
            &&& is_response_for(a->Respond_0->Found_0, row, c, f)
        },
        None => a == Action::Respond(LookupOutcome::Failed(LookupError::MissingContract)),
    }
}

/// A lookup in phase `before` that receives `e` moves to `after` and asks for
/// `a`. A failed read ends the lookup with the matching error.
pub open spec fn is_step(before: Phase, e: StoreEvent, after: Phase, a: Action) -> bool {
    match (before, e) {
        (Phase::AwaitingRecord, StoreEvent::Records(Err(err))) => {
            &&& after is Finished
            &&& a == Action::Respond(LookupOutcome::Failed(error_of(err)))
        },
        (Phase::AwaitingRecord, StoreEvent::Records(Ok(rows))) => is_records_step(
            rows@,
            after,
            a,
        ),
        (Phase::AwaitingFragments { .. }, StoreEvent::Fragments(Err(err))) => {
            &&& after is Finished
            &&& a == Action::Respond(LookupOutcome::Failed(error_of(err)))
        },
        (Phase::AwaitingFragments { row }, StoreEvent::Fragments(Ok(f))) => {
            &&& after is Finished
            &&& is_fragments_step(row, f@, a)
        },
        _ => false,
    }
}

fn on_records(rows: Vec<EligibleRow>) -> (r: (Phase, Action))
    ensures
        is_records_step(rows@, r.0, r.1),
{
    let ghost rows0 = rows@;
    let mut rows = rows;
    match choose_row(&rows) {
        None => (Phase::Finished, Action::Respond(LookupOutcome::NotFound)),
        Some(i) => {
            let row = rows.swap_remove(i);
            assert(rows0[i as int] == row);
            if row.contract.is_none() {
                (Phase::Finished, Action::Respond(LookupOutcome::Failed(LookupError::MissingContract)))
            } else {
                let id = row.id;
                (Phase::AwaitingFragments { row }, Action::FindFragments(id))
            }
        },
    }
}

fn on_fragments(row: &EligibleRow, f: &Vec<ProofFragment>) -> (a: Action)
    ensures
        is_fragments_step(*row, f@, a),
{
    match &row.contract {
        Some(c) => Action::Respond(LookupOutcome::Found(assemble(row, c, f))),
        None => Action::Respond(LookupOutcome::Failed(LookupError::MissingContract)),
    }
}

impl Lookup {
    /// Begins a lookup of `identity`: the first read asked for is its record,
    /// unless the identity is refused.
    pub fn start(identity: String) -> (r: (Lookup, Action))
        ensures
            valid_identity(identity@) ==> r.0.phase is AwaitingRecord && r.1 is FindRecord
                && r.1->FindRecord_0@ == identity@,
            !valid_identity(identity@) ==> r.0.phase is Finished && r.1 == Action::Respond(
                LookupOutcome::Failed(LookupError::InvalidInput),
            ),
    {
        if is_valid_identity(identity.as_str()) {
            (Lookup { phase: Phase::AwaitingRecord }, Action::FindRecord(identity))
        } else {
            (
                Lookup { phase: Phase::Finished },
                Action::Respond(LookupOutcome::Failed(LookupError::InvalidInput)),
            )
        }
    }

    /// Whether the lookup waits for `event`.
    pub fn awaits(&self, event: &StoreEvent) -> (r: bool)
        ensures
            r == awaits(self.phase, *event),
    {
        match (&self.phase, event) {
            (Phase::AwaitingRecord, StoreEvent::Records(_)) => true,
            (Phase::AwaitingFragments { .. }, StoreEvent::Fragments(_)) => true,
            _ => false,
        }
    }

    /// Whether the lookup has answered.
    pub fn is_finished(&self) -> (r: bool)
        ensures
            r == self.phase is Finished,
    {
        match self.phase {
            Phase::Finished => true,
            _ => false,
        }
    }

    /// Takes in what the store gave back and decides the next action.
    pub fn step(&mut self, event: StoreEvent) -> (a: Action)
        requires
            awaits(old(self).phase, event),
        ensures
            is_step(old(self).phase, event, final(self).phase, a),
    {
        let mut phase = Phase::Finished;
        std::mem::swap(&mut self.phase, &mut phase);
        match event {
            StoreEvent::Records(Err(err)) => Action::Respond(
                LookupOutcome::Failed(err.to_lookup_error()),
            ),
            StoreEvent::Records(Ok(rows)) => {
                let (next, a) = on_records(rows);
                self.phase = next;
                a
            },
            StoreEvent::Fragments(Err(err)) => Action::Respond(
                LookupOutcome::Failed(err.to_lookup_error()),
            ),
            StoreEvent::Fragments(Ok(f)) => match phase {
                Phase::AwaitingFragments { row } => on_fragments(&row, &f),
                // the precondition leaves no other phase for fragments
                _ => Action::Respond(LookupOutcome::Failed(LookupError::QueryFailed)),
            },
        }
    }
}

/// A lookup whose identity has no record answers "not found", asks for no
/// proof fragments, and waits for nothing more.
pub proof fn lemma_absent_identity_not_found(rows: Vec<EligibleRow>, after: Phase, a: Action)
    requires
        rows@.len() == 0,
        is_step(Phase::AwaitingRecord, StoreEvent::Records(Ok(rows)), after, a),
    ensures
        a == Action::Respond(LookupOutcome::NotFound),
        !(a is FindFragments),
        forall|e: StoreEvent| !awaits(after, e),
{
}

/// The response to a record with proof fragments `f` carries one segment per
/// fragment, states that count as its path length, and has an empty path
/// where the record has no fragments.
pub proof fn lemma_path_length(row: EligibleRow, f: Vec<ProofFragment>, after: Phase, a: Action)
    requires
        row.contract is Some,
        is_step(Phase::AwaitingFragments { row }, StoreEvent::Fragments(Ok(f)), after, a),
    ensures
        a is Respond && a->Respond_0 is Found,
        a->Respond_0->Found_0.merkle_path@.len() == f@.len(),
        a->Respond_0->Found_0.merkle_path_len == f@.len(),
        f@.len() == 0 ==> a->Respond_0->Found_0.merkle_path@.len() == 0
            && a->Respond_0->Found_0.merkle_path_len == 0,
{
}

/// In the response to a record, the segments of its proof fragments follow
/// the fragments' positions, not the order in which the store returned them.
pub proof fn lemma_path_in_position_order(
    row: EligibleRow,
    f: Vec<ProofFragment>,
    after: Phase,
    a: Action,
    i: int,
    j: int,
)
    requires
        row.contract is Some,
        is_step(Phase::AwaitingFragments { row }, StoreEvent::Fragments(Ok(f)), after, a),
        0 <= i < f@.len(),
        0 <= j < f@.len(),
        f@[i].position < f@[j].position,
    ensures
        rank(f@, i) < rank(f@, j) < a->Respond_0->Found_0.merkle_path@.len(),
        a->Respond_0->Found_0.merkle_path@[rank(f@, i) as int]@ == f@[i].path@,
        a->Respond_0->Found_0.merkle_path@[rank(f@, j) as int]@ == f@[j].path@,
{
    lemma_path_follows_positions(f@, a->Respond_0->Found_0.merkle_path@, i, j);
}

/// A response carries the record's amount and merkle index as the very
/// strings the store held, however many digits they have.
pub proof fn lemma_amount_and_index_verbatim(
    row: EligibleRow,
    f: Vec<ProofFragment>,
    after: Phase,
    a: Action,
)
    requires
        row.contract is Some,
        is_step(Phase::AwaitingFragments { row }, StoreEvent::Fragments(Ok(f)), after, a),
    ensures
        a->Respond_0->Found_0.amount@ == row.amount@,
        a->Respond_0->Found_0.merkle_index@ == row.merkle_index@,
        a->Respond_0->Found_0.identity@ == row.identity@,
{
}

} // verus!

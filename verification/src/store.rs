//! The store: the parameters of the contract and one record for each
//! recipient.
//!
//! To the contracts a store is a [`StoreView`]: a map from each recipient to
//! its record. The records are kept in a vector in which no recipient occurs
//! twice.

use vstd::prelude::*;

use crate::error::ContractError;
use crate::state::{Config, ConfigView, VestingInfo, VestingInfoView};

verus! {

/// Whether one of `records` belongs to `recipient`.
pub open spec fn holds(records: Seq<VestingInfo>, recipient: Seq<char>) -> bool {
    exists|i: int| 0 <= i < records.len() && (#[trigger] records[i]).recipient@ == recipient
}

/// The place of a record of `recipient` among `records`, if there is one.
pub open spec fn index_of(records: Seq<VestingInfo>, recipient: Seq<char>) -> int {
    choose|i: int| 0 <= i < records.len() && (#[trigger] records[i]).recipient@ == recipient
}

/// No two of `records` belong to the same recipient.
pub open spec fn distinct_recipients(records: Seq<VestingInfo>) -> bool {
    forall|i: int, j: int|
        0 <= i < j < records.len() ==> (#[trigger] records[i]).recipient@ != (
        #[trigger] records[j]).recipient@
}

/// The records as a map from each recipient to its record.
pub open spec fn records_view(records: Seq<VestingInfo>) -> Map<Seq<char>, VestingInfoView> {
    Map::new(
        |recipient: Seq<char>| holds(records, recipient),
        |recipient: Seq<char>| records[index_of(records, recipient)]@,
    )
}

/// Among records of distinct recipients, each is the one that the map holds
/// for its recipient.
pub proof fn lemma_record_at(records: Seq<VestingInfo>, i: int)
    requires
        distinct_recipients(records),
        0 <= i < records.len(),
    ensures
        records_view(records).contains_key(records[i].recipient@),
        records_view(records)[records[i].recipient@] == records[i]@,
{
    let recipient = records[i].recipient@;
    assert(holds(records, recipient));
    let j = index_of(records, recipient);
    assert(records[j].recipient@ == recipient);
    assert(j == i);
}

/// Replacing a record by one of the same recipient overwrites its entry.
pub proof fn lemma_replace(records: Seq<VestingInfo>, i: int, record: VestingInfo)
    requires
        distinct_recipients(records),
        0 <= i < records.len(),
        record.recipient@ == records[i].recipient@,
    ensures
        distinct_recipients(records.update(i, record)),
        records_view(records.update(i, record)) == records_view(records).insert(
            record.recipient@,
            record@,
        ),
{
    let after = records.update(i, record);
    let target = records_view(records).insert(record.recipient@, record@);
    assert forall|a: int, b: int| 0 <= a < b < after.len() implies (#[trigger] after[a]).recipient@
        != (#[trigger] after[b]).recipient@ by {
        assert(after[a].recipient@ == records[a].recipient@);
        assert(after[b].recipient@ == records[b].recipient@);
    }
    assert forall|k: Seq<char>| holds(after, k) == holds(records, k) by {
        if holds(records, k) {
            let j = index_of(records, k);
            assert(after[j].recipient@ == k);
        }
        if holds(after, k) {
            let j = index_of(after, k);
            assert(records[j].recipient@ == k);
        }
    }
    assert forall|k: Seq<char>| holds(after, k) implies records_view(after)[k] == target[k] by {
        let j = index_of(after, k);
        lemma_record_at(after, j);
        if j != i {
            assert(after[j] == records[j]);
            lemma_record_at(records, j);
        }
    }
    assert(records_view(after) =~= target);
}

/// Adding a record of a recipient that has none adds its entry.
pub proof fn lemma_append(records: Seq<VestingInfo>, record: VestingInfo)
    requires
        distinct_recipients(records),
        !holds(records, record.recipient@),
    ensures
        distinct_recipients(records.push(record)),
        records_view(records.push(record)) == records_view(records).insert(
            record.recipient@,
            record@,
        ),
{
    let after = records.push(record);
    let last = records.len() as int;
    let target = records_view(records).insert(record.recipient@, record@);
    assert forall|a: int, b: int| 0 <= a < b < after.len() implies (#[trigger] after[a]).recipient@
        != (#[trigger] after[b]).recipient@ by {
        assert(after[a] == records[a]);
        if b < last {
            assert(after[b] == records[b]);
        }
    }
    assert forall|k: Seq<char>| holds(after, k) == (holds(records, k) || k == record.recipient@) by {
        if holds(records, k) {
            let j = index_of(records, k);
            assert(after[j].recipient@ == k);
        }
        if k == record.recipient@ {
            assert(after[last].recipient@ == k);
        }
        if holds(after, k) {
            let j = index_of(after, k);
            if j < last {
                assert(records[j].recipient@ == k);
            }
        }
    }
    assert forall|k: Seq<char>| holds(after, k) implies records_view(after)[k] == target[k] by {
        let j = index_of(after, k);
        lemma_record_at(after, j);
        if j < last {
            assert(after[j] == records[j]);
            lemma_record_at(records, j);
        }
    }
    assert(records_view(after) =~= target);
}

/// A [`Store`] as a mathematical value: the parameters, and the record of
/// each recipient.
pub struct StoreView {
    pub config: ConfigView,
    pub vestings: Map<Seq<char>, VestingInfoView>,
}

impl StoreView {
    /// The parameters are usable, and each recipient has a record of its own
    /// that the operations can have produced.
    pub open spec fn wf(self) -> bool {
        &&& self.config.wf()
        &&& forall|recipient: Seq<char>| #[trigger]
            self.vestings.contains_key(recipient) ==> {
                &&& self.vestings[recipient].wf()
                &&& self.vestings[recipient].recipient == recipient
            }
    }

    /// The store with the record of `recipient` set to `record`.
    pub open spec fn with(self, recipient: Seq<char>, record: VestingInfoView) -> StoreView {
        StoreView { config: self.config, vestings: self.vestings.insert(recipient, record) }
    }
}

/// Setting the record of its recipient to a record that the operations
/// accept keeps the store as they accept it.
pub proof fn lemma_with_keeps_wf(state: StoreView, record: VestingInfoView)
    requires
        state.wf(),
        record.wf(),
    ensures
        state.with(record.recipient, record).wf(),
{
    let after = state.with(record.recipient, record);
    assert forall|k: Seq<char>| #[trigger] after.vestings.contains_key(k) implies {
        &&& after.vestings[k].wf()
        &&& after.vestings[k].recipient == k
    } by {
        if k != record.recipient {
            assert(state.vestings.contains_key(k));
        }
    }
}

/// The state of the contract: its parameters, and one record for each
/// recipient. The store owns the records; they change only through the
/// operations of the contract, so that every store is in a state that the
/// operations can have produced: its view is well formed.
#[derive(Debug, PartialEq, Eq)]
pub struct Store {
    config: Config,
    vestings: Vec<VestingInfo>,
}

impl View for Store {
    type V = StoreView;

    closed spec fn view(&self) -> StoreView {
        StoreView { config: self.config@, vestings: records_view(self.vestings@) }
    }
}

impl Store {
    #[verifier::type_invariant]
    spec fn inv(self) -> bool {
        distinct_recipients(self.vestings@) && self@.wf()
    }

    /// A store with the given parameters and no record.
    pub(crate) fn new(config: Config) -> (store: Store)
        requires
            config@.wf(),
        ensures
            store@ == (StoreView { config: config@, vestings: Map::empty() }),
            store@.wf(),
    {
        let ghost empty = Seq::<VestingInfo>::empty();
        assert(records_view(empty) =~= Map::empty());
        Store { config, vestings: Vec::new() }
    }

    fn position(&self, recipient: &String) -> (found: Option<usize>)
        ensures
            match found {
                Some(i) => i < self.vestings.len() && self.vestings[i as int].recipient@
                    == recipient@,
                None => !holds(self.vestings@, recipient@),
            },
    {
        let mut i: usize = 0;
        while i < self.vestings.len()
            invariant
                i <= self.vestings.len(),
                forall|j: int| 0 <= j < i ==> (#[trigger] self.vestings[j]).recipient@ != recipient@,
            decreases self.vestings.len() - i,
        {
            if self.vestings[i].recipient == *recipient {
                return Some(i);
            }
            i += 1;
        }
        None
    }

    /// The parameters of the contract.
    pub fn config(&self) -> (config: &Config)
        ensures
            config@ == self@.config,
            self@.wf(),
    {
        proof {
            use_type_invariant(self);
        }
        &self.config
    }

    /// The records, one for each recipient.
    pub fn vestings(&self) -> (records: &Vec<VestingInfo>)
        ensures
            records_view(records@) == self@.vestings,
            distinct_recipients(records@),
            self@.wf(),
    {
        proof {
            use_type_invariant(self);
        }
        &self.vestings
    }

    /// Whether `recipient` has a record.
    pub fn contains(&self, recipient: &String) -> (found: bool)
        ensures
            found == self@.vestings.contains_key(recipient@),
            self@.wf(),
    {
        proof {
            use_type_invariant(self);
        }
        self.position(recipient).is_some()
    }

    /// The record of `recipient`.
    pub fn get(&self, recipient: &String) -> (res: Result<VestingInfo, ContractError>)
        ensures
            match self@.vestings.get(recipient@) {
                Some(record) => res is Ok && res->Ok_0@ == record,
                None => res == Err::<VestingInfo, ContractError>(ContractError::NotFound {  }),
            },
            self@.wf(),
    {
        proof {
            use_type_invariant(self);
        }
        match self.position(recipient) {
            Some(i) => {
                proof {
                    lemma_record_at(self.vestings@, i as int);
                }
                Ok(self.vestings[i].clone())
            },
            None => Err(ContractError::NotFound {  }),
        }
    }

    /// Sets the record of its recipient to `record`, whether or not the
    /// recipient had one.
    pub(crate) fn put(&mut self, record: VestingInfo)
        requires
            record@.wf(),
        ensures
            final(self)@ == old(self)@.with(record.recipient@, record@),
            final(self)@.wf(),
    {
        proof {
            use_type_invariant(&*self);
            lemma_with_keeps_wf(self@, record@);
        }
        let found = self.position(&record.recipient);
        // the records leave the store while they change, so that the store
        // is well formed at every step
        let mut records: Vec<VestingInfo> = Vec::new();
        std::mem::swap(&mut self.vestings, &mut records);
        match found {
            Some(i) => {
                proof {
                    lemma_replace(records@, i as int, record);
                }
                records[i] = record;
            },
            None => {
                proof {
                    lemma_append(records@, record);
                }
                records.push(record);
            },
        }
        std::mem::swap(&mut self.vestings, &mut records);
    }
}

} // verus!

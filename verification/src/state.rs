//! What the app keeps between requests: its configuration, the id counter and the
//! DCAs, each under its id.

use vstd::prelude::*;

use crate::dca_id::{dca_id, dca_id_spec};
use crate::error::AppError;
use crate::msg::{option_text, Frequency};

verus! {

/// Settings fixed when the app is set up.
#[derive(Debug, PartialEq, Eq)]
pub struct Config {
    /// Denomination of the coin that pays for task executions.
    pub native_denom: String,
    /// Amount of `native_denom` a task is funded with when it is created or refilled.
    pub dca_creation_amount: u128,
    /// Task balance, in `native_denom`, below which a conversion refills the task.
    pub refill_threshold: u128,
}

/// A [`Config`] with its text as a character sequence.
pub struct ConfigView {
    pub native_denom: Seq<char>,
    pub dca_creation_amount: u128,
    pub refill_threshold: u128,
}

impl View for Config {
    type V = ConfigView;

    open spec fn view(&self) -> ConfigView {
        ConfigView {
            native_denom: self.native_denom@,
            dca_creation_amount: self.dca_creation_amount,
            refill_threshold: self.refill_threshold,
        }
    }
}

impl Clone for Config {
    fn clone(&self) -> (copy: Self)
        ensures
            copy == *self,
    {
        Config {
            native_denom: self.native_denom.clone(),
            dca_creation_amount: self.dca_creation_amount,
            refill_threshold: self.refill_threshold,
        }
    }
}

/// One recurring purchase: what is sold, what is bought, how often and where.
#[derive(Debug, PartialEq, Eq)]
pub struct DCAEntry {
    /// The name of the asset to be used for purchasing
    pub source_asset: String,
    /// The name of the asset to be purchased
    pub target_asset: String,
    /// The frequency of purchase
    pub frequency: Frequency,
    /// The DEX to be used for the swap
    pub dex: String,
}

/// A [`DCAEntry`] with its texts as character sequences.
pub struct DCAEntryView {
    pub source_asset: Seq<char>,
    pub target_asset: Seq<char>,
    pub frequency: Frequency,
    pub dex: Seq<char>,
}

impl View for DCAEntry {
    type V = DCAEntryView;

    open spec fn view(&self) -> DCAEntryView {
        DCAEntryView {
            source_asset: self.source_asset@,
            target_asset: self.target_asset@,
            frequency: self.frequency,
            dex: self.dex@,
        }
    }
}

impl Clone for DCAEntry {
    fn clone(&self) -> (copy: Self)
        ensures
            copy == *self,
    {
        DCAEntry {
            source_asset: self.source_asset.clone(),
            target_asset: self.target_asset.clone(),
            frequency: self.frequency,
            dex: self.dex.clone(),
        }
    }
}

/// What an optional DCA says, with its texts as character sequences.
pub open spec fn option_dca_view(dca: Option<DCAEntry>) -> Option<DCAEntryView> {
    match dca {
        Some(dca) => Some(dca@),
        None => None,
    }
}

/// A DCA together with the id it is stored under.
#[derive(Debug, PartialEq, Eq)]
struct DCARecord {
    dca_id: String,
    dca: DCAEntry,
}

/// Whether some record of `records` carries the id `dca_id`.
spec fn has_id(records: Seq<DCARecord>, dca_id: Seq<char>) -> bool {
    exists|i: int| 0 <= i < records.len() && (#[trigger] records[i]).dca_id@ == dca_id
}

/// The position of a record that carries `dca_id`.
spec fn position_of(records: Seq<DCARecord>, dca_id: Seq<char>) -> int {
    choose|i: int| 0 <= i < records.len() && (#[trigger] records[i]).dca_id@ == dca_id
}

/// No two records share an id.
spec fn distinct_ids(records: Seq<DCARecord>) -> bool {
    forall|i: int, j: int|
        0 <= i < j < records.len() ==> (#[trigger] records[i]).dca_id@ != (
        #[trigger] records[j]).dca_id@
}

/// The records as a map from id to DCA.
spec fn records_map(records: Seq<DCARecord>) -> Map<Seq<char>, DCAEntryView> {
    Map::new(
        |dca_id: Seq<char>| has_id(records, dca_id),
        |dca_id: Seq<char>| records[position_of(records, dca_id)].dca@,
    )
}

/// Under distinct ids, the record at `i` is the one the map shows for its id.
proof fn lemma_record_in_map(records: Seq<DCARecord>, i: int)
    requires
        distinct_ids(records),
        0 <= i < records.len(),
    ensures
        records_map(records).contains_key(records[i].dca_id@),
        records_map(records)[records[i].dca_id@] == records[i].dca@,
        position_of(records, records[i].dca_id@) == i,
{
}

/// Appending a record under an unused id adds one entry to the map.
proof fn lemma_push_record(records: Seq<DCARecord>, record: DCARecord)
    requires
        distinct_ids(records),
        !has_id(records, record.dca_id@),
    ensures
        distinct_ids(records.push(record)),
        records_map(records.push(record)) == records_map(records).insert(
            record.dca_id@,
            record.dca@,
        ),
{
    let after = records.push(record);
    let expected = records_map(records).insert(record.dca_id@, record.dca@);
    assert forall|dca_id: Seq<char>| #[trigger]
        records_map(after).contains_key(dca_id) == expected.contains_key(dca_id) by {
        if has_id(records, dca_id) {
            let p = position_of(records, dca_id);
            assert(after[p].dca_id@ == dca_id);
        }
        if dca_id == record.dca_id@ {
            assert(after[records.len() as int].dca_id@ == dca_id);
        }
    }
    assert forall|dca_id: Seq<char>| #[trigger]
        records_map(after).contains_key(dca_id) implies records_map(after)[dca_id]
        == expected[dca_id] by {
        let p = position_of(after, dca_id);
        lemma_record_in_map(after, p);
        if p < records.len() {
            lemma_record_in_map(records, p);
        }
    }
}

/// Replacing the DCA of the record at `i` replaces the map's entry for its id.
proof fn lemma_update_record(records: Seq<DCARecord>, i: int, record: DCARecord)
    requires
        distinct_ids(records),
        0 <= i < records.len(),
        record.dca_id@ == records[i].dca_id@,
    ensures
        distinct_ids(records.update(i, record)),
        records_map(records.update(i, record)) == records_map(records).insert(
            record.dca_id@,
            record.dca@,
        ),
{
    let after = records.update(i, record);
    let expected = records_map(records).insert(record.dca_id@, record.dca@);
    lemma_record_in_map(records, i);
    assert forall|dca_id: Seq<char>| #[trigger]
        records_map(after).contains_key(dca_id) == expected.contains_key(dca_id) by {
        if has_id(records, dca_id) {
            let p = position_of(records, dca_id);
            assert(after[p].dca_id@ == dca_id);
        }
    }
    assert forall|dca_id: Seq<char>| #[trigger]
        records_map(after).contains_key(dca_id) implies records_map(after)[dca_id]
        == expected[dca_id] by {
        let p = position_of(after, dca_id);
        lemma_record_in_map(after, p);
        if p != i {
            lemma_record_in_map(records, p);
        }
    }
}

/// Taking out the record at `i` takes its id out of the map.
proof fn lemma_remove_record(records: Seq<DCARecord>, i: int)
    requires
        distinct_ids(records),
        0 <= i < records.len(),
    ensures
        distinct_ids(records.remove(i)),
        records_map(records.remove(i)) == records_map(records).remove(records[i].dca_id@),
{
    let after = records.remove(i);
    let expected = records_map(records).remove(records[i].dca_id@);
    assert forall|dca_id: Seq<char>| #[trigger]
        records_map(after).contains_key(dca_id) == expected.contains_key(dca_id) by {
        if has_id(records, dca_id) && dca_id != records[i].dca_id@ {
            let p = position_of(records, dca_id);
            let q = if p < i { p } else { p - 1 };
            assert(after[q].dca_id@ == dca_id);
        }
    }
    assert forall|dca_id: Seq<char>| #[trigger]
        records_map(after).contains_key(dca_id) implies records_map(after)[dca_id]
        == expected[dca_id] by {
        let p = position_of(after, dca_id);
        lemma_record_in_map(after, p);
        let p0 = if p < i { p } else { p + 1 };
        lemma_record_in_map(records, p0);
    }
}

/// The app's stored state: who administers it, its configuration, the id counter
/// and the DCAs under their ids.
#[derive(Debug)]
pub struct State {
    admin: Option<String>,
    config: Config,
    next_id: u64,
    records: Vec<DCARecord>,
}

/// A [`State`] as contracts see it.
pub struct StateView {
    /// The administrator's address, if one is set.
    pub admin: Option<Seq<char>>,
    pub config: ConfigView,
    /// The counter value that the DCA created last was named after.
    pub next_id: u64,
    /// The stored DCAs, each under its id.
    pub dca_list: Map<Seq<char>, DCAEntryView>,
}

impl View for State {
    type V = StateView;

    closed spec fn view(&self) -> StateView {
        StateView {
            admin: match self.admin {
                Some(admin) => Some(admin@),
                None => None,
            },
            config: self.config@,
            next_id: self.next_id,
            dca_list: records_map(self.records@),
        }
    }
}

impl StateView {
    /// Whether `caller` is the administrator.
    pub open spec fn is_admin(self, caller: Seq<char>) -> bool {
        self.admin == Some(caller)
    }

    /// The DCA stored under `dca_id`, if any.
    pub open spec fn dca(self, dca_id: Seq<char>) -> Option<DCAEntryView> {
        if self.dca_list.contains_key(dca_id) {
            Some(self.dca_list[dca_id])
        } else {
            None
        }
    }

    /// The state with its id counter advanced by one.
    pub open spec fn count_up(self) -> StateView
        recommends
            self.next_id < u64::MAX,
    {
        StateView { next_id: (self.next_id + 1) as u64, ..self }
    }

    /// The state with `dca` under `dca_id`, in place of what was there before.
    pub open spec fn save(self, dca_id: Seq<char>, dca: DCAEntryView) -> StateView {
        StateView { dca_list: self.dca_list.insert(dca_id, dca), ..self }
    }

    /// The state without an entry for `dca_id`.
    pub open spec fn remove(self, dca_id: Seq<char>) -> StateView {
        StateView { dca_list: self.dca_list.remove(dca_id), ..self }
    }
}

impl State {
    /// No two records share an id, so that the records are a map.
    #[verifier::type_invariant]
    spec fn ids_are_distinct(self) -> bool {
        distinct_ids(self.records@)
    }

    /// A state without DCAs.
    pub fn new(admin: Option<String>, config: Config, next_id: u64) -> (state: State)
        ensures
            state@.admin == option_text(admin),
            state@.config == config@,
            state@.next_id == next_id,
            state@.dca_list == Map::<Seq<char>, DCAEntryView>::empty(),
    {
        let state = State { admin, config, next_id, records: Vec::new() };
        state
    }

    /// Whether `caller` is the administrator. Nobody is while none is set.
    pub fn is_admin(&self, caller: &String) -> (yes: bool)
        ensures
            yes == self@.is_admin(caller@),
    {
        match &self.admin {
            Some(admin) => *admin == *caller,
            None => false,
        }
    }

    /// Passes the administrator and turns everyone else down.
    pub fn assert_admin(&self, caller: &String) -> (outcome: Result<(), AppError>)
        ensures
            outcome == if self@.is_admin(caller@) {
                Ok::<(), AppError>(())
            } else {
                Err(AppError::Unauthorized)
            },
    {
        if self.is_admin(caller) {
            Ok(())
        } else {
            Err(AppError::Unauthorized)
        }
    }

    /// The configuration.
    pub fn config(&self) -> (config: &Config)
        ensures
            config@ == self@.config,
    {
        &self.config
    }

    /// The counter value that the DCA created last was named after.
    pub fn next_id(&self) -> (next_id: u64)
        ensures
            next_id == self@.next_id,
    {
        self.next_id
    }

    /// Position of the record stored under `dca_id`, if there is one.
    fn find(&self, dca_id: &String) -> (found: Option<usize>)
        ensures
            match found {
                Some(i) => i < self.records.len() && self.records[i as int].dca_id@ == dca_id@,
                None => !has_id(self.records@, dca_id@),
            },
    {
        let mut i: usize = 0;
        while i < self.records.len()
            invariant
                i <= self.records.len(),
                forall|k: int| 0 <= k < i ==> (#[trigger] self.records[k]).dca_id@ != dca_id@,
            decreases self.records.len() - i,
        {
            if self.records[i].dca_id == *dca_id {
                return Some(i);
            }
            i += 1;
        }
        None
    }

    /// Advances the id counter by one and returns the id named after its new value.
    /// A counter that has reached its last value stays put and the call fails.
    pub fn generate_id(&mut self) -> (outcome: Result<String, AppError>)
        ensures
            match outcome {
                Ok(dca_id) => {
                    &&& old(self)@.next_id < u64::MAX
                    &&& final(self)@ == old(self)@.count_up()
                    &&& dca_id@ == dca_id_spec(final(self)@.next_id as nat)
                },
                Err(e) => {
                    &&& old(self)@.next_id == u64::MAX
                    &&& e == AppError::IdOverflow
                    &&& final(self)@ == old(self)@
                },
            },
    {
        proof {
            use_type_invariant(&*self);
        }
        if self.next_id == u64::MAX {
            return Err(AppError::IdOverflow);
        }
        self.next_id = self.next_id + 1;
        Ok(dca_id(self.next_id))
    }

    /// Stores `dca` under `dca_id`, in place of what was stored there before.
    pub fn save(&mut self, dca_id: String, dca: DCAEntry)
        ensures
            final(self)@ == old(self)@.save(dca_id@, dca@),
    {
        proof {
            use_type_invariant(&*self);
        }
        let found = self.find(&dca_id);
        let record = DCARecord { dca_id, dca };
        // The records are edited outside the state and put back in one step, so
        // that the state never holds a half-edited list.
        let mut records: Vec<DCARecord> = Vec::new();
        core::mem::swap(&mut self.records, &mut records);
        match found {
            Some(i) => {
                proof {
                    lemma_update_record(records@, i as int, record);
                }
                records.set(i, record);
            },
            None => {
                proof {
                    lemma_push_record(records@, record);
                }
                records.push(record);
            },
        }
        core::mem::swap(&mut self.records, &mut records);
    }

    /// Whether a DCA is stored under `dca_id`.
    pub fn has(&self, dca_id: &String) -> (yes: bool)
        ensures
            yes == self@.dca_list.contains_key(dca_id@),
    {
        self.find(dca_id).is_some()
    }

    /// The DCA stored under `dca_id`, or `None` where the id is not in use.
    pub fn may_load(&self, dca_id: &String) -> (found: Option<DCAEntry>)
        ensures
            match found {
                Some(dca) => self@.dca_list.contains_key(dca_id@) && dca@
                    == self@.dca_list[dca_id@],
                None => !self@.dca_list.contains_key(dca_id@),
            },
    {
        proof {
            use_type_invariant(self);
        }
        match self.find(dca_id) {
            Some(i) => {
                proof {
                    lemma_record_in_map(self.records@, i as int);
                }
                Some(self.records[i].dca.clone())
            },
            None => None,
        }
    }

    /// The DCA stored under `dca_id`; fails where the id is not in use.
    pub fn load(&self, dca_id: &String) -> (outcome: Result<DCAEntry, AppError>)
        ensures
            match outcome {
                Ok(dca) => self@.dca_list.contains_key(dca_id@) && dca@
                    == self@.dca_list[dca_id@],
                Err(e) => !self@.dca_list.contains_key(dca_id@) && e == AppError::DcaNotFound,
            },
    {
        match self.may_load(dca_id) {
            Some(dca) => Ok(dca),
            None => Err(AppError::DcaNotFound),
        }
    }

    /// Loads what is stored under `dca_id`, lets `action` make the new DCA of it,
    /// stores that under `dca_id` and returns it. `action` is also asked where the
    /// id is not in use; where it fails, nothing is stored and its error is
    /// returned.
    pub fn update<A>(&mut self, dca_id: String, action: A) -> (outcome: Result<
        DCAEntry,
        AppError,
    >) where A: FnOnce(Option<DCAEntry>) -> Result<DCAEntry, AppError>
        requires
            forall|input: Option<DCAEntry>| call_requires(action, (input,)),
        ensures
            exists|input: Option<DCAEntry>|
                {
                    &&& option_dca_view(input) == old(self)@.dca(dca_id@)
                    &&& call_ensures(action, (input,), outcome)
                },
            match outcome {
                Ok(dca) => final(self)@ == old(self)@.save(dca_id@, dca@),
                Err(_) => final(self)@ == old(self)@,
            },
    {
        let input = self.may_load(&dca_id);
        let ghost given = input;
        let outcome = action(input);
        assert(option_dca_view(given) == old(self)@.dca(dca_id@) && call_ensures(
            action,
            (given,),
            outcome,
        ));
        match &outcome {
            Ok(dca) => {
                self.save(dca_id, dca.clone());
            },
            Err(_) => {},
        }
        outcome
    }

    /// Deletes what is stored under `dca_id`. Nothing changes where the id is not in
    /// use.
    pub fn remove(&mut self, dca_id: &String)
        ensures
            final(self)@ == old(self)@.remove(dca_id@),
    {
        proof {
            use_type_invariant(&*self);
        }
        match self.find(dca_id) {
            Some(i) => {
                let mut records: Vec<DCARecord> = Vec::new();
                core::mem::swap(&mut self.records, &mut records);
                proof {
                    lemma_remove_record(records@, i as int);
                }
                let _ = records.remove(i);
                core::mem::swap(&mut self.records, &mut records);
            },
            None => {
                assert(self@.dca_list.remove(dca_id@) =~= self@.dca_list);
            },
        }
    }
}

} // verus!

//! The crowdfunding campaign registry and its message handler.
//!
//! [`Assets`] holds every campaign ever created (an append-only historical
//! log), an owner-keyed mapping to each owner's most recent campaign, the
//! campaigns that reached completion, and a strictly increasing campaign-id
//! counter. Its single message handler, [`Assets::create_crowdfund`],
//! records a new campaign, reacts to the outcome of the host's
//! value-transfer primitive, and produces the event to emit — all as one
//! atomic unit: on a failed transfer nothing is mutated.
//!
//! The host runtime performs the actual transfer and event emission; it
//! hands the handler the caller identity, the block data and the transfer
//! outcome as plain values, and emits the returned event.

use vstd::prelude::*;
use crate::env::{CustomEnv, EnvironmentConfig, topics_within_limit};
use crate::identifier::MyAccountId;

verus! {

/// The fixed amount of the self-transfer the handler asks the host to
/// attempt as a balance-availability probe.
pub const TRANSFER_PROBE_AMOUNT: u128 = 1000;

/// The number of indexed topics [`MyEvent`] declares.
pub const MY_EVENT_TOPIC_COUNT: usize = 4;

/// The contract's error payload: one variant wrapping a free-form
/// diagnostic text.
#[derive(Debug)]
pub enum Error {
    E(String),
}

impl Error {
    /// The diagnostic text carried by this error.
    pub fn message(&self) -> (m: &String)
        ensures
            match self {
                Error::E(s) => m@ == s@,
            },
    {
        match self {
            Error::E(s) => s,
        }
    }
}

/// The event emitted for each created campaign: four declared indexed
/// topics and one non-indexed field, all 128-bit values.
#[derive(Clone, Copy, Debug, PartialEq, Eq, Structural)]
pub struct MyEvent {
    pub topic_one: u128,
    pub topic_two: u128,
    pub topic_three: u128,
    pub topic_four: u128,
    pub topic_five: u128,
}

impl Default for MyEvent {
    /// The all-zero event value.
    fn default() -> (r: Self)
        ensures
            r.topic_one == 0 && r.topic_two == 0 && r.topic_three == 0 && r.topic_four == 0
                && r.topic_five == 0,
    {
        MyEvent { topic_one: 0, topic_two: 0, topic_three: 0, topic_four: 0, topic_five: 0 }
    }
}

/// Builds the campaign-creation event, validating its declared topic count
/// against the environment's configured maximum at the point of
/// construction: exceeding the maximum is a hard failure, never a silent
/// truncation. On success the block number and block timestamp fill the
/// first two topics and every other field is left at zero.
pub fn build_event<E: EnvironmentConfig>(block_number: u64, block_timestamp: u64) -> (r: Result<
    MyEvent,
    Error,
>)
    ensures
        r is Ok <==> topics_within_limit(
            MY_EVENT_TOPIC_COUNT as nat,
            E::spec_max_event_topics(),
        ),
        r matches Ok(e) ==> e.topic_one == block_number as u128 && e.topic_two
            == block_timestamp as u128 && e.topic_three == 0 && e.topic_four == 0 && e.topic_five
            == 0,
        r matches Err(err) ==> (err matches Error::E(m) && m@ == "too many event topics"@),
{
    if crate::env::topic_count_ok::<E>(MY_EVENT_TOPIC_COUNT) {
        let base = MyEvent::default();
        Ok(
            MyEvent {
                topic_one: block_number as u128,
                topic_two: block_timestamp as u128,
                topic_three: base.topic_three,
                topic_four: base.topic_four,
                topic_five: base.topic_five,
            },
        )
    } else {
        Err(Error::E("too many event topics".to_owned()))
    }
}

/// One crowdfunding campaign.
#[derive(Debug)]
pub struct IndividualFundMe {
    /// The campaign's owner: the caller that created it.
    pub account_id: MyAccountId,
    /// The registry-assigned campaign id; never chosen by the caller.
    pub go_fund_id: u64,
    /// Display name.
    pub name: String,
    /// Funding reason.
    pub reason_for_fund: String,
    /// Amount asked for.
    pub amount_needed: u128,
    /// Amount collected so far; must never exceed `amount_needed`
    /// (a contract-level responsibility of the callers that donate).
    pub amount_gotten: u128,
    /// Whether the campaign reached completion.
    pub status: bool,
    /// Donor identifiers in insertion order; duplicates permitted.
    pub donators: Vec<MyAccountId>,
}

/// A just-created campaign record: owned by `caller`, carrying the assigned
/// `id` and the given texts and target amount, with nothing collected, not
/// completed, and no donors.
pub open spec fn fresh_record(
    r: IndividualFundMe,
    caller: MyAccountId,
    id: u64,
    name: Seq<char>,
    reason: Seq<char>,
    amount_needed: u128,
) -> bool {
    &&& r.account_id@ == caller@
    &&& r.go_fund_id == id
    &&& r.name@ == name
    &&& r.reason_for_fund@ == reason
    &&& r.amount_needed == amount_needed
    &&& r.amount_gotten == 0
    &&& r.status == false
    &&& r.donators@.len() == 0
}

/// The owner-keyed campaign mapping: each account identifier maps to the
/// most recent campaign record inserted under it.
///
/// Entries are appended and the latest entry for a key wins, so an insert
/// for an owner that already has a campaign overwrites that owner's mapping
/// entry at the abstraction level.
pub struct OwnerMap {
    entries: Vec<(MyAccountId, IndividualFundMe)>,
}

/// The mapping abstraction of an entry sequence: later entries overwrite
/// earlier ones with the same key bytes.
pub open spec fn map_of(s: Seq<(MyAccountId, IndividualFundMe)>) -> Map<Seq<u8>, IndividualFundMe>
    decreases s.len(),
{
    if s.len() == 0 {
        Map::empty()
    } else {
        map_of(s.drop_last()).insert(s.last().0@, s.last().1)
    }
}

impl View for OwnerMap {
    type V = Map<Seq<u8>, IndividualFundMe>;

    closed spec fn view(&self) -> Map<Seq<u8>, IndividualFundMe> {
        map_of(self.entries@)
    }
}

proof fn lemma_map_of_match_at(s: Seq<(MyAccountId, IndividualFundMe)>, k: Seq<u8>, i: int)
    requires
        0 <= i < s.len(),
        s[i].0@ == k,
        forall|j: int| i < j < s.len() ==> s[j].0@ != k,
    ensures
        map_of(s).contains_key(k),
        map_of(s)[k] == s[i].1,
    decreases s.len(),
{
    if i == s.len() - 1 {
    } else {
        lemma_map_of_match_at(s.drop_last(), k, i);
    }
}

proof fn lemma_map_of_no_match(s: Seq<(MyAccountId, IndividualFundMe)>, k: Seq<u8>)
    requires
        forall|j: int| 0 <= j < s.len() ==> s[j].0@ != k,
    ensures
        !map_of(s).contains_key(k),
    decreases s.len(),
{
    if s.len() > 0 {
        lemma_map_of_no_match(s.drop_last(), k);
    }
}

impl OwnerMap {
    /// The empty mapping.
    pub fn new() -> (r: Self)
        ensures
            r@ == Map::<Seq<u8>, IndividualFundMe>::empty(),
    {
        OwnerMap { entries: Vec::new() }
    }

    /// Inserts a record under a key, overwriting the key's previous record
    /// in the mapping abstraction if there was one.
    pub fn insert(&mut self, key: MyAccountId, value: IndividualFundMe)
        ensures
            final(self)@ == old(self)@.insert(key@, value),
    {
        self.entries.push((key, value));
        proof {
            assert(self.entries@.drop_last() =~= old(self).entries@);
        }
    }

    /// Looks up the most recent record inserted under a key.
    pub fn get(&self, key: &MyAccountId) -> (r: Option<&IndividualFundMe>)
        ensures
            match r {
                Some(v) => self@.contains_key(key@) && *v == self@[key@],
                None => !self@.contains_key(key@),
            },
    {
        let n = self.entries.len();
        let mut i: usize = n;
        while i > 0
            invariant
                i <= n,
                n == self.entries.len(),
                forall|j: int| i <= j < n ==> self.entries@[j].0@ != key@,
            decreases i,
        {
            i = i - 1;
            if self.entries[i].0 == *key {
                proof {
                    lemma_map_of_match_at(self.entries@, key@, i as int);
                }
                return Some(&self.entries[i].1);
            }
        }
        proof {
            lemma_map_of_no_match(self.entries@, key@);
        }
        None
    }
}

/// The contract's aggregate state: the campaign registry.
pub struct Assets {
    /// Owner-keyed mapping to each owner's most recent campaign.
    pub go_funds: OwnerMap,
    /// Append-only historical log of every campaign ever created.
    pub all_go_funds: Vec<IndividualFundMe>,
    /// Append-only log of campaigns that reached completion.
    pub successfull_go_funds: Vec<IndividualFundMe>,
    /// The next campaign id; strictly increasing, starting at 1.
    pub go_fund_id: u64,
}

impl Assets {
    /// Well-formedness of a registry state: the next campaign id is one past
    /// the historical log's length, and every logged campaign carries the id
    /// the registry assigned it — the ids 1, 2, ... in creation order. Ids
    /// are assigned by the registry alone, never by a caller.
    pub open spec fn wf(self) -> bool {
        &&& self.go_fund_id == self.all_go_funds@.len() + 1
        &&& forall|i: int|
            0 <= i < self.all_go_funds@.len() ==> #[trigger] self.all_go_funds@[i].go_fund_id == i
                + 1
    }

    /// The initial contract state: empty mapping, empty logs, counter at 1.
    pub fn new() -> (r: Self)
        ensures
            r.go_funds@ == Map::<Seq<u8>, IndividualFundMe>::empty(),
            r.all_go_funds@.len() == 0,
            r.successfull_go_funds@.len() == 0,
            r.go_fund_id == 1,
            r.wf(),
    {
        Assets {
            go_funds: OwnerMap::new(),
            all_go_funds: Vec::new(),
            successfull_go_funds: Vec::new(),
            go_fund_id: 1,
        }
    }

    /// Creates a crowdfunding campaign as one atomic unit.
    ///
    /// The host supplies the caller identity, the current block number and
    /// timestamp, and the outcome of the [`TRANSFER_PROBE_AMOUNT`]
    /// self-transfer it attempted for this invocation. On a failed transfer
    /// the whole operation aborts: the error text is propagated and no state
    /// changes. On success the new record is inserted under the caller
    /// (overwriting the caller's previous mapping entry, while the
    /// historical log keeps every record), the record is appended to the
    /// log, the counter advances, and the event to emit is returned, its
    /// declared topic count validated against the environment's maximum.
    pub fn create_crowdfund(
        &mut self,
        caller: MyAccountId,
        block_number: u64,
        block_timestamp: u64,
        transfer_result: Result<(), String>,
        name: String,
        reason_for_fund: String,
        amount_needed: u128,
    ) -> (r: Result<MyEvent, Error>)
        requires
            old(self).go_fund_id < u64::MAX,
        ensures
            r is Ok <==> transfer_result is Ok,
            transfer_result matches Err(m) ==> (r matches Err(e) && e matches Error::E(t) && t
                == m),
            r is Err ==> *final(self) == *old(self),
            r matches Ok(e) ==> e.topic_one == block_number as u128 && e.topic_two
                == block_timestamp as u128 && e.topic_three == 0 && e.topic_four == 0
                && e.topic_five == 0,
            r is Ok ==> final(self).go_fund_id == old(self).go_fund_id + 1,
            r is Ok ==> final(self).go_funds@.contains_key(caller@) && fresh_record(
                final(self).go_funds@[caller@],
                caller,
                old(self).go_fund_id,
                name@,
                reason_for_fund@,
                amount_needed,
            ) && final(self).go_funds@ == old(self).go_funds@.insert(
                caller@,
                final(self).go_funds@[caller@],
            ),
            r is Ok ==> final(self).all_go_funds@.len() == old(self).all_go_funds@.len() + 1
                && final(self).all_go_funds@ == old(self).all_go_funds@.push(
                final(self).all_go_funds@.last(),
            ) && fresh_record(
                final(self).all_go_funds@.last(),
                caller,
                old(self).go_fund_id,
                name@,
                reason_for_fund@,
                amount_needed,
            ),
            final(self).successfull_go_funds == old(self).successfull_go_funds,
            old(self).wf() ==> final(self).wf(),
    {
        match transfer_result {
            Err(m) => Err(Error::E(m)),
            Ok(()) => {
                let event = match build_event::<CustomEnv>(block_number, block_timestamp) {
                    Ok(e) => e,
                    Err(err) => {
                        return Err(err);
                    },
                };
                let record = IndividualFundMe {
                    account_id: caller,
                    go_fund_id: self.go_fund_id,
                    name: name.clone(),
                    reason_for_fund: reason_for_fund.clone(),
                    amount_needed,
                    amount_gotten: 0,
                    status: false,
                    donators: Vec::new(),
                };
                self.go_funds.insert(caller, record);
                let logged = IndividualFundMe {
                    account_id: caller,
                    go_fund_id: self.go_fund_id,
                    name,
                    reason_for_fund,
                    amount_needed,
                    amount_gotten: 0,
                    status: false,
                    donators: Vec::new(),
                };
                self.all_go_funds.push(logged);
                self.go_fund_id = self.go_fund_id + 1;
                Ok(event)
            },
        }
    }
}

/// Law: in a well-formed registry state, no two campaigns in the historical
/// log share a campaign id.
pub proof fn lemma_campaign_ids_unique(a: Assets, i: int, j: int)
    requires
        a.wf(),
        0 <= i < a.all_go_funds@.len(),
        0 <= j < a.all_go_funds@.len(),
        i != j,
    ensures
        a.all_go_funds@[i].go_fund_id != a.all_go_funds@[j].go_fund_id,
{
}

} // verus!

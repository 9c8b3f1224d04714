//! Cron events: one record for each outside event that matched a rule.

use vstd::prelude::*;
use vstd::string::*;
use crate::identity::{hash_text, identity_of};
use crate::node::defaults::{CRON_TX_STATUS_FAILED, CRON_TX_TABLE_NAME};
use crate::node::error::ServiceError;
use crate::node::storage_impl::{
    fetch, find, first, first_index, invalid_data_format, lemma_first_index, rows_of, select, selected,
    views, RQLiteResult, Record, Row, Selector, Storage, StorageView,
};
use crate::text::{decimal, decimal_string};

verus! {

/// An event reported for a rule.
#[derive(Debug)]
pub struct CronTx {
    pub hash: String,
    pub address: String,
    pub topic: String,
    pub token_type: String,
    pub chain: String,
    pub meta_contract_id: String,
    pub timestamp: u64,
    pub tx_block_number: u64,
    pub tx_hash: String,
    pub status: i64,
    pub data: String,
    pub error_text: String,
    pub token_id: String,
    pub data_key: String,
    pub token_key: String,
}

/// What a record of this kind holds, as plain values.
pub struct CronTxView {
    pub hash: Seq<char>,
    pub address: Seq<char>,
    pub topic: Seq<char>,
    pub token_type: Seq<char>,
    pub chain: Seq<char>,
    pub meta_contract_id: Seq<char>,
    pub timestamp: u64,
    pub tx_block_number: u64,
    pub tx_hash: Seq<char>,
    pub status: i64,
    pub data: Seq<char>,
    pub error_text: Seq<char>,
    pub token_id: Seq<char>,
    pub data_key: Seq<char>,
    pub token_key: Seq<char>,
}

impl View for CronTx {
    type V = CronTxView;

    open spec fn view(&self) -> CronTxView {
        CronTxView {
            hash: self.hash@,
            address: self.address@,
            topic: self.topic@,
            token_type: self.token_type@,
            chain: self.chain@,
            meta_contract_id: self.meta_contract_id@,
            timestamp: self.timestamp,
            tx_block_number: self.tx_block_number,
            tx_hash: self.tx_hash@,
            status: self.status,
            data: self.data@,
            error_text: self.error_text@,
            token_id: self.token_id@,
            data_key: self.data_key@,
            token_key: self.token_key@,
        }
    }
}


impl Clone for CronTx {
    fn clone(&self) -> (r: Self)
        ensures
            r == *self,
    {
        CronTx {
            hash: self.hash.clone(),
            address: self.address.clone(),
            topic: self.topic.clone(),
            token_type: self.token_type.clone(),
            chain: self.chain.clone(),
            meta_contract_id: self.meta_contract_id.clone(),
            timestamp: self.timestamp,
            tx_block_number: self.tx_block_number,
            tx_hash: self.tx_hash.clone(),
            status: self.status,
            data: self.data.clone(),
            error_text: self.error_text.clone(),
            token_id: self.token_id.clone(),
            data_key: self.data_key.clone(),
            token_key: self.token_key.clone(),
        }
    }
}

impl CronTx {
    /// Whether every text of the record is empty and every number zero.
    pub open spec fn is_zero(&self) -> bool {
        &&& self.hash@.len() == 0
        &&& self.address@.len() == 0
        &&& self.topic@.len() == 0
        &&& self.token_type@.len() == 0
        &&& self.chain@.len() == 0
        &&& self.meta_contract_id@.len() == 0
        &&& self.timestamp == 0
        &&& self.tx_block_number == 0
        &&& self.tx_hash@.len() == 0
        &&& self.status == 0
        &&& self.data@.len() == 0
        &&& self.error_text@.len() == 0
        &&& self.token_id@.len() == 0
        &&& self.data_key@.len() == 0
        &&& self.token_key@.len() == 0
    }
}

impl Default for CronTx {
    fn default() -> (r: Self)
        ensures
            r.is_zero(),
    {
        CronTx {
            hash: String::new(),
            address: String::new(),
            topic: String::new(),
            token_type: String::new(),
            chain: String::new(),
            meta_contract_id: String::new(),
            timestamp: 0,
            tx_block_number: 0,
            tx_hash: String::new(),
            status: 0,
            data: String::new(),
            error_text: String::new(),
            token_id: String::new(),
            data_key: String::new(),
            token_key: String::new(),
        }
    }
}
impl CronTx {
    /// The identity of an event; the block number enters it in decimal.
    pub open spec fn identity(address: Seq<char>, topic: Seq<char>, token_type: Seq<char>, chain: Seq<char>, tx_block_number: u64, tx_hash: Seq<char>, token_id: Seq<char>) -> Seq<char> {
        identity_of(address + topic + token_type + chain + decimal(tx_block_number as nat) + tx_hash + token_id)
    }

    /// Computes the identity: the hash of the fields, concatenated in the order of the
    /// parameters.
    pub fn generate_hash(address: String, topic: String, token_type: String, chain: String, tx_block_number: u64, tx_hash: String, token_id: String) -> (hash: String)
        ensures
            hash@ == Self::identity(address@, topic@, token_type@, chain@, tx_block_number, tx_hash@, token_id@),
    {
        let mut preimage = String::new();
        preimage.append(address.as_str());
        preimage.append(topic.as_str());
        preimage.append(token_type.as_str());
        preimage.append(chain.as_str());
        preimage.append(decimal_string(tx_block_number).as_str());
        preimage.append(tx_hash.as_str());
        preimage.append(token_id.as_str());
        assert(preimage@ =~= address@ + topic@ + token_type@ + chain@ + decimal(tx_block_number as nat) + tx_hash@ + token_id@);
        hash_text(preimage.as_str())
    }

    /// Makes an event record and computes its identity.
    pub fn new(
        address: String,
        topic: String,
        token_type: String,
        chain: String,
        meta_contract_id: String,
        timestamp: u64,
        tx_block_number: u64,
        tx_hash: String,
        status: i64,
        data: String,
        error_text: String,
        token_id: String,
        data_key: String,
        token_key: String,
    ) -> (c: Self)
        ensures
            c.hash@ == Self::identity(
                address@,
                topic@,
                token_type@,
                chain@,
                tx_block_number,
                tx_hash@,
                token_id@,
            ),
            c.address == address,
            c.topic == topic,
            c.token_type == token_type,
            c.chain == chain,
            c.meta_contract_id == meta_contract_id,
            c.timestamp == timestamp,
            c.tx_block_number == tx_block_number,
            c.tx_hash == tx_hash,
            c.status == status,
            c.data == data,
            c.error_text == error_text,
            c.token_id == token_id,
            c.data_key == data_key,
            c.token_key == token_key,
    {
        let hash = Self::generate_hash(
            address.clone(),
            topic.clone(),
            token_type.clone(),
            chain.clone(),
            tx_block_number,
            tx_hash.clone(),
            token_id.clone(),
        );
        Self {
            hash,
            address,
            topic,
            token_type,
            chain,
            meta_contract_id,
            timestamp,
            tx_block_number,
            tx_hash,
            status,
            data,
            error_text,
            token_id,
            data_key,
            token_key,
        }
    }
}

impl CronTxView {
    /// Whether the event was reported for the given address, chain and topic.
    pub open spec fn of_rule(self, address: Seq<char>, chain: Seq<char>, topic: Seq<char>) -> bool {
        self.address == address && self.chain == chain && self.topic == topic
    }

    /// Whether two records stand for the same event: the same outside
    /// transaction, reported for the same address, chain and topic.
    pub open spec fn same_event(self, other: CronTxView) -> bool {
        self.of_rule(other.address, other.chain, other.topic) && self.tx_hash == other.tx_hash
    }
}

/// A condition on events.
pub enum CronTxKey {
    /// The event of this outside transaction for this address, chain and topic.
    TxHash { tx_hash: String, address: String, chain: String, topic: String },
    /// The events for this address, chain and topic.
    Rule { address: String, chain: String, topic: String },
}

/// What a condition of this kind asks for, as plain values.
pub enum CronTxKeyView {
    TxHash { tx_hash: Seq<char>, address: Seq<char>, chain: Seq<char>, topic: Seq<char> },
    Rule { address: Seq<char>, chain: Seq<char>, topic: Seq<char> },
}

impl View for CronTxKey {
    type V = CronTxKeyView;

    open spec fn view(&self) -> CronTxKeyView {
        match self {
            CronTxKey::TxHash { tx_hash, address, chain, topic } => CronTxKeyView::TxHash { tx_hash: tx_hash@, address: address@, chain: chain@, topic: topic@ },
            CronTxKey::Rule { address, chain, topic } => CronTxKeyView::Rule { address: address@, chain: chain@, topic: topic@ },
        }
    }
}

impl Selector<CronTx> for CronTxKey {
    open spec fn selects(key: CronTxKeyView, row: CronTxView) -> bool {
        match key {
            CronTxKeyView::TxHash { tx_hash, address, chain, topic } => row.of_rule(address, chain, topic) && row.tx_hash == tx_hash,
            CronTxKeyView::Rule { address, chain, topic } => row.of_rule(address, chain, topic),
        }
    }

    fn test(&self, row: &CronTx) -> (b: bool) {
        match self {
            CronTxKey::TxHash { tx_hash, address, chain, topic } => { row.address == *address && row.chain == *chain && row.topic == *topic && row.tx_hash == *tx_hash },
            CronTxKey::Rule { address, chain, topic } => { row.address == *address && row.chain == *chain && row.topic == *topic },
        }
    }
}

impl Record for CronTx {
    fn duplicate(&self) -> (r: Self) {
        self.clone()
    }
}
/// The condition that selects the event that `c` stands for.
pub open spec fn event_of(c: CronTxView) -> CronTxKeyView {
    CronTxKeyView::TxHash { tx_hash: c.tx_hash, address: c.address, chain: c.chain, topic: c.topic }
}

/// The table after the event `c` was reported: a new record where the
/// event is new, the new record in place of a record of a failure, and
/// no change where the event is already recorded without a failure.
pub open spec fn with_event(rows: Seq<CronTxView>, c: CronTxView) -> Seq<CronTxView> {
    match first_index::<CronTx, CronTxKey>(rows, event_of(c)) {
        Some(i) => if rows[i].status == CRON_TX_STATUS_FAILED {
            rows.update(i, c)
        } else {
            rows
        },
        None => rows.push(c),
    }
}

/// Whether the table refuses the event `c`: it is recorded already, and
/// not as a failure.
pub open spec fn refuses_event(rows: Seq<CronTxView>, c: CronTxView) -> bool {
    match first::<CronTx, CronTxKey>(rows, event_of(c)) {
        Some(row) => row.status != CRON_TX_STATUS_FAILED,
        None => false,
    }
}

/// Among the events that `key` selects, the one with the highest block
/// number, the earliest of them where several share it.
pub open spec fn latest(rows: Seq<CronTxView>, key: CronTxKeyView) -> Option<CronTxView>
    decreases rows.len(),
{
    if rows.len() == 0 {
        None
    } else {
        let rest = latest(rows.drop_last(), key);
        if CronTxKey::selects(key, rows.last()) {
            match rest {
                Some(best) => if rows.last().tx_block_number > best.tx_block_number {
                    Some(rows.last())
                } else {
                    Some(best)
                },
                None => Some(rows.last()),
            }
        } else {
            rest
        }
    }
}

/// The latest event is a selected event of the table, and no selected
/// event has a higher block number; where there is none, nothing is selected.
pub proof fn law_latest_is_highest(rows: Seq<CronTxView>, key: CronTxKeyView)
    ensures
        match latest(rows, key) {
            Some(best) => CronTxKey::selects(key, best) && rows.contains(best) && forall|j: int|
                0 <= j < rows.len() && CronTxKey::selects(key, #[trigger] rows[j])
                    ==> rows[j].tx_block_number <= best.tx_block_number,
            None => forall|j: int| 0 <= j < rows.len() ==> !CronTxKey::selects(key, #[trigger] rows[j]),
        },
    decreases rows.len(),
{
    if rows.len() > 0 {
        let front = rows.drop_last();
        law_latest_is_highest(front, key);
        assert forall|j: int| 0 <= j < front.len() implies front[j] == rows[j] by {}
        match latest(rows, key) {
            Some(best) => {
                if best == rows.last() {
                    assert(rows[rows.len() - 1] == best);
                } else {
                    let k = choose|k: int| 0 <= k < front.len() && front[k] == best;
                    assert(rows[k] == best);
                }
                assert forall|j: int|
                    0 <= j < rows.len() && CronTxKey::selects(
                        key,
                        #[trigger] rows[j],
                    ) implies rows[j].tx_block_number <= best.tx_block_number by {
                    if j < front.len() {
                        assert(front[j] == rows[j]);
                    }
                }
            },
            None => {
                assert forall|j: int| 0 <= j < rows.len() implies !CronTxKey::selects(
                    key,
                    #[trigger] rows[j],
                ) by {
                    if j < front.len() {
                        assert(front[j] == rows[j]);
                    }
                }
            },
        }
    }
}

impl Storage {
    /// Records an event. Where the same event is already recorded, a
    /// record of a failure gives way to the new one; any other stays, and
    /// the write is refused.
    pub fn write_cron_tx(&mut self, cron: CronTx) -> (r: Result<(), ServiceError>)
        requires
            old(self).wf(),
        ensures
            final(self).wf(),
            final(self)@ == (StorageView {
                cron_txs: with_event(old(self)@.cron_txs, cron@),
                ..old(self)@
            }),
            if refuses_event(old(self)@.cron_txs, cron@) {
                r matches Err(ServiceError::InternalError(s)) && s@ == "UNIQUE constraint failed: "@
                    + CRON_TX_TABLE_NAME@
            } else {
                r is Ok
            },
    {
        let key = CronTxKey::TxHash {
            tx_hash: cron.tx_hash.clone(),
            address: cron.address.clone(),
            chain: cron.chain.clone(),
            topic: cron.topic.clone(),
        };
        let ghost before = self@.cron_txs;
        proof {
            assert(key@ == event_of(cron@));
            lemma_first_index::<CronTx, CronTxKey>(before, key@);
        }
        match find(&self.cron_txs, &key) {
            Some(i) => {
                if self.cron_txs[i].status == CRON_TX_STATUS_FAILED {
                    self.cron_txs.set(i, cron);
                    proof {
                        let after = self@.cron_txs;
                        assert(after =~= before.update(i as int, cron@));
                        assert forall|a: int, b: int|
                            #![trigger after[a], after[b]]
                            0 <= a < b < after.len() implies !after[a].same_event(after[b]) by {
                            assert(!before[a].same_event(before[b]));
                        }
                    }
                    Ok(())
                } else {
                    Err(Storage::unique_violation(CRON_TX_TABLE_NAME))
                }
            },
            None => {
                self.cron_txs.push(cron);
                proof {
                    let after = self@.cron_txs;
                    assert(after =~= before.push(cron@));
                    assert forall|a: int, b: int|
                        #![trigger after[a], after[b]]
                        0 <= a < b < after.len() implies !after[a].same_event(after[b]) by {
                        if b < before.len() {
                            assert(!before[a].same_event(before[b]));
                        } else {
                            assert(!CronTxKey::selects(key@, before[a]));
                        }
                    }
                }
                Ok(())
            },
        }
    }

    /// The event of an outside transaction for an address, chain and topic.
    pub fn get_cron_tx_by_tx_hash(
        &self,
        transaction_hash: String,
        address: String,
        chain: String,
        topic: String,
    ) -> (r: Result<CronTx, ServiceError>)
        ensures
            match first::<CronTx, CronTxKey>(
                self@.cron_txs,
                (CronTxKeyView::TxHash {
                    tx_hash: transaction_hash@,
                    address: address@,
                    chain: chain@,
                    topic: topic@,
                }),
            ) {
                Some(row) => r is Ok && r->Ok_0@ == row,
                None => r matches Err(ServiceError::RecordNotFound(s)) && s@ == "No record found"@,
            },
    {
        fetch(&self.cron_txs, &CronTxKey::TxHash { tx_hash: transaction_hash, address, chain, topic })
    }

    /// The event with the highest block number for an address, chain and topic.
    pub fn get_cron_tx_latest_block(&self, address: String, chain: String, topic: String) -> (r: Result<
        CronTx,
        ServiceError,
    >)
        ensures
            match latest(
                self@.cron_txs,
                (CronTxKeyView::Rule { address: address@, chain: chain@, topic: topic@ }),
            ) {
                Some(row) => r is Ok && r->Ok_0@ == row,
                None => r matches Err(ServiceError::RecordNotFound(s)) && s@ == "No record found"@,
            },
    {
        let key = CronTxKey::Rule { address, chain, topic };
        let mut best: Option<usize> = None;
        let mut i: usize = 0;
        while i < self.cron_txs.len()
            invariant
                i <= self.cron_txs.len(),
                match best {
                    Some(b) => b < i && latest(self@.cron_txs.take(i as int), key@) == Some(
                        self@.cron_txs[b as int],
                    ),
                    None => latest(self@.cron_txs.take(i as int), key@) is None,
                },
            decreases self.cron_txs.len() - i,
        {
            proof {
                assert(self@.cron_txs.take(i + 1).drop_last() =~= self@.cron_txs.take(i as int));
                assert(self@.cron_txs.take(i + 1).last() == self@.cron_txs[i as int]);
                assert(self@.cron_txs[i as int] == self.cron_txs@[i as int]@);
            }
            if key.test(&self.cron_txs[i]) {
                match best {
                    Some(b) => {
                        assert(self@.cron_txs[b as int] == self.cron_txs@[b as int]@);
                        if self.cron_txs[i].tx_block_number > self.cron_txs[b].tx_block_number {
                            best = Some(i);
                        }
                    },
                    None => {
                        best = Some(i);
                    },
                }
            }
            i += 1;
        }
        assert(self@.cron_txs.take(i as int) =~= self@.cron_txs);
        match best {
            Some(b) => {
                assert(self@.cron_txs[b as int] == self.cron_txs@[b as int]@);
                Ok(self.cron_txs[b].clone())
            },
            None => Err(ServiceError::not_found()),
        }
    }

    /// The events for an address, chain and topic.
    pub fn search_cron_tx(&self, address: String, chain: String, topic: String) -> (r: Result<
        Vec<CronTx>,
        ServiceError,
    >)
        ensures
            r is Ok,
            views(r->Ok_0@) == selected::<CronTx, CronTxKey>(
                self@.cron_txs,
                (CronTxKeyView::Rule { address: address@, chain: chain@, topic: topic@ }),
            ),
    {
        Ok(select(&self.cron_txs, &CronTxKey::Rule { address, chain, topic }))
    }
}

/// The events of an answer, where every row of it is one.
pub open spec fn read_spec(rows: Seq<Row>) -> Option<Seq<CronTx>> {
    if forall|i: int| 0 <= i < rows.len() ==> (#[trigger] rows[i]) is CronTx {
        Some(Seq::new(rows.len(), |i: int| rows[i]->CronTx_0))
    } else {
        None
    }
}

/// Reads the events out of an answer of the store. An answer that holds
/// a record of another table is an error.
pub fn read(result: RQLiteResult) -> (r: Result<Vec<CronTx>, ServiceError>)
    ensures
        match read_spec(rows_of(result)) {
            Some(rows) => r is Ok && r->Ok_0@ == rows,
            None => r matches Err(ServiceError::InternalError(s)) && s@
                == "Invalid data format: "@ + CRON_TX_TABLE_NAME@,
        },
{
    let mut out: Vec<CronTx> = Vec::new();
    match result.rows {
        None => {
            assert(out@ =~= Seq::new(0, |i: int| rows_of(result)[i]->CronTx_0));
        },
        Some(rows) => {
            let mut i: usize = 0;
            while i < rows.len()
                invariant
                    i <= rows.len(),
                    rows_of(result) == rows@,
                    out@.len() == i,
                    forall|j: int| 0 <= j < i ==> (#[trigger] rows@[j]) is CronTx,
                    forall|j: int| 0 <= j < i ==> out@[j] == (#[trigger] rows@[j])->CronTx_0,
                decreases rows.len() - i,
            {
                match &rows[i] {
                    Row::CronTx(row) => {
                        out.push(row.clone());
                    },
                    _ => {
                        assert(!(rows@[i as int] is CronTx));
                        return Err(invalid_data_format(CRON_TX_TABLE_NAME));
                    },
                }
                i += 1;
            }
            assert(out@ =~= Seq::new(rows@.len(), |i: int| rows@[i]->CronTx_0));
        },
    }
    Ok(out)
}

} // verus!

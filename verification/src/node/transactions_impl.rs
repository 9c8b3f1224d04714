//! The table of transactions.

use vstd::prelude::*;
use vstd::string::*;
use crate::node::error::ServiceError;
use crate::node::storage_impl::{
    fetch, find, first, invalid_data_format, lemma_first_index, rows_of, select, selected, views,
    RQLiteResult, Record, Row, Selector, Storage, StorageView,
};
use crate::node::defaults::{STATUS_DONE, STATUS_PENDING, TRANSACTIONS_TABLE_NAME};
use crate::node::transaction::{Transaction, TransactionView};

verus! {

/// A condition on transactions.
pub enum TransactionKey {
    /// The transaction with this hash.
    Hash(String),
    /// The transactions in this status.
    Status(i64),
    /// The transactions that are done and were submitted in this span of time, both ends included.
    Complete { from: i64, to: i64 },
}

/// What a condition of this kind asks for, as plain values.
pub enum TransactionKeyView {
    Hash(Seq<char>),
    Status(i64),
    Complete { from: i64, to: i64 },
}

impl View for TransactionKey {
    type V = TransactionKeyView;

    open spec fn view(&self) -> TransactionKeyView {
        match self {
            TransactionKey::Hash(hash) => TransactionKeyView::Hash(hash@),
            TransactionKey::Status(status) => TransactionKeyView::Status(*status),
            TransactionKey::Complete { from, to } => TransactionKeyView::Complete { from: *from, to: *to },
        }
    }
}

impl Selector<Transaction> for TransactionKey {
    open spec fn selects(key: TransactionKeyView, row: TransactionView) -> bool {
        match key {
            TransactionKeyView::Hash(hash) => row.hash == hash,
            TransactionKeyView::Status(status) => row.status == status,
            TransactionKeyView::Complete { from, to } => row.status == STATUS_DONE && from <= row.timestamp <= to,
        }
    }

    fn test(&self, row: &Transaction) -> (b: bool) {
        match self {
            TransactionKey::Hash(hash) => { row.hash == *hash },
            TransactionKey::Status(status) => { row.status == *status },
            TransactionKey::Complete { from, to } => { row.status == STATUS_DONE && *to >= 0 && (*from < 0 || *from as u64 <= row.timestamp) && row.timestamp <= *to as u64 },
        }
    }
}

impl Record for Transaction {
    fn duplicate(&self) -> (r: Self) {
        self.clone()
    }
}
/// The transaction `t` after an attempt to set the status of the pending
/// transaction `hash`: only that one changes, and only while it is pending.
pub open spec fn with_status(t: TransactionView, hash: Seq<char>, status: i64) -> TransactionView {
    if t.hash == hash && t.status == STATUS_PENDING {
        TransactionView { status, ..t }
    } else {
        t
    }
}

/// The transaction with the given hash, if the table holds one.
pub open spec fn transaction_of(rows: Seq<TransactionView>, hash: Seq<char>) -> Option<TransactionView> {
    first::<Transaction, TransactionKey>(rows, TransactionKeyView::Hash(hash))
}

impl Storage {
    /// Records a transaction. A second transaction with the same hash is
    /// refused and the table stays as it is.
    pub fn write_transaction(&mut self, transaction: Transaction) -> (r: Result<String, ServiceError>)
        requires
            old(self).wf(),
        ensures
            final(self).wf(),
            match transaction_of(old(self)@.transactions, transaction.hash@) {
                Some(_) => r matches Err(ServiceError::InternalError(s)) && s@
                    == "UNIQUE constraint failed: "@ + TRANSACTIONS_TABLE_NAME@ && final(self)@
                    == old(self)@,
                None => r matches Ok(hash) && hash@ == transaction.hash@ && final(self)@
                    == (StorageView {
                    transactions: old(self)@.transactions.push(transaction@),
                    ..old(self)@
                }),
            },
    {
        let key = TransactionKey::Hash(transaction.hash.clone());
        let ghost before = self@.transactions;
        proof {
            lemma_first_index::<Transaction, TransactionKey>(before, key@);
        }
        match find(&self.transactions, &key) {
            Some(_) => Err(Storage::unique_violation(TRANSACTIONS_TABLE_NAME)),
            None => {
                let hash = transaction.hash.clone();
                self.transactions.push(transaction);
                proof {
                    let after = self@.transactions;
                    assert(after =~= before.push(transaction@));
                    assert forall|a: int, b: int|
                        #![trigger after[a], after[b]]
                        0 <= a < b < after.len() implies after[a].hash != after[b].hash by {
                        if b < before.len() {
                            assert(before[a].hash != before[b].hash);
                        } else {
                            assert(!TransactionKey::selects(key@, before[a]));
                        }
                    }
                }
                Ok(hash)
            },
        }
    }

    /// Sets the status of the transaction `hash` if it is still pending. A
    /// transaction that is done keeps its status for good.
    pub fn update_transaction_status(&mut self, hash: String, status: i64) -> (r: Result<
        (),
        ServiceError,
    >)
        requires
            old(self).wf(),
        ensures
            final(self).wf(),
            r is Ok,
            final(self)@ == (StorageView {
                transactions: old(self)@.transactions.map_values(
                    |t: TransactionView| with_status(t, hash@, status),
                ),
                ..old(self)@
            }),
    {
        let key = TransactionKey::Hash(hash);
        let ghost before = self@.transactions;
        proof {
            lemma_first_index::<Transaction, TransactionKey>(before, key@);
        }
        match find(&self.transactions, &key) {
            Some(i) => {
                if self.transactions[i].status == STATUS_PENDING {
                    self.transactions[i].status = status;
                }
                proof {
                    let after = self@.transactions;
                    assert forall|k: int| 0 <= k < before.len() implies with_status(
                        #[trigger] before[k],
                        hash@,
                        status,
                    ) == after[k] by {
                        if k < i {
                            assert(before[k].hash != before[i as int].hash);
                        } else if k > i {
                            assert(before[i as int].hash != before[k].hash);
                        }
                    }
                    assert(after =~= before.map_values(
                        |t: TransactionView| with_status(t, hash@, status),
                    ));
                    assert forall|a: int, b: int|
                        #![trigger after[a], after[b]]
                        0 <= a < b < after.len() implies after[a].hash != after[b].hash by {
                        assert(before[a].hash != before[b].hash);
                    }
                }
            },
            None => {
                proof {
                    assert(before =~= before.map_values(
                        |t: TransactionView| with_status(t, hash@, status),
                    ));
                }
            },
        }
        Ok(())
    }

    /// The transaction with the given hash.
    pub fn get_transaction(&self, hash: String) -> (r: Result<Transaction, ServiceError>)
        ensures
            match transaction_of(self@.transactions, hash@) {
                Some(row) => r is Ok && r->Ok_0@ == row,
                None => r matches Err(ServiceError::RecordNotFound(s)) && s@ == "No record found"@,
            },
    {
        fetch(&self.transactions, &TransactionKey::Hash(hash))
    }

    /// The transactions that wait for their finalisation.
    pub fn get_pending_transactions(&self) -> (r: Result<Vec<Transaction>, ServiceError>)
        ensures
            r is Ok,
            views(r->Ok_0@) == selected::<Transaction, TransactionKey>(
                self@.transactions,
                TransactionKeyView::Status(STATUS_PENDING),
            ),
    {
        Ok(select(&self.transactions, &TransactionKey::Status(STATUS_PENDING)))
    }

    /// The transactions that are done and were submitted between `from`
    /// and `to`, both included.
    pub fn get_complete_transactions(&self, from: i64, to: i64) -> (r: Result<
        Vec<Transaction>,
        ServiceError,
    >)
        ensures
            r is Ok,
            views(r->Ok_0@) == selected::<Transaction, TransactionKey>(
                self@.transactions,
                (TransactionKeyView::Complete { from, to }),
            ),
    {
        Ok(select(&self.transactions, &TransactionKey::Complete { from, to }))
    }
}

/// The transactions of an answer, where every row of it is one.
pub open spec fn read_spec(rows: Seq<Row>) -> Option<Seq<Transaction>> {
    if forall|i: int| 0 <= i < rows.len() ==> (#[trigger] rows[i]) is Transaction {
        Some(Seq::new(rows.len(), |i: int| rows[i]->Transaction_0))
    } else {
        None
    }
}

/// Reads the transactions out of an answer of the store. An answer that holds
/// a record of another table is an error.
pub fn read(result: RQLiteResult) -> (r: Result<Vec<Transaction>, ServiceError>)
    ensures
        match read_spec(rows_of(result)) {
            Some(rows) => r is Ok && r->Ok_0@ == rows,
            None => r matches Err(ServiceError::InternalError(s)) && s@
                == "Invalid data format: "@ + TRANSACTIONS_TABLE_NAME@,
        },
{
    let mut out: Vec<Transaction> = Vec::new();
    match result.rows {
        None => {
            assert(out@ =~= Seq::new(0, |i: int| rows_of(result)[i]->Transaction_0));
        },
        Some(rows) => {
            let mut i: usize = 0;
            while i < rows.len()
                invariant
                    i <= rows.len(),
                    rows_of(result) == rows@,
                    out@.len() == i,
                    forall|j: int| 0 <= j < i ==> (#[trigger] rows@[j]) is Transaction,
                    forall|j: int| 0 <= j < i ==> out@[j] == (#[trigger] rows@[j])->Transaction_0,
                decreases rows.len() - i,
            {
                match &rows[i] {
                    Row::Transaction(row) => {
                        out.push(row.clone());
                    },
                    _ => {
                        assert(!(rows@[i as int] is Transaction));
                        return Err(invalid_data_format(TRANSACTIONS_TABLE_NAME));
                    },
                }
                i += 1;
            }
            assert(out@ =~= Seq::new(rows@.len(), |i: int| rows@[i]->Transaction_0));
        },
    }
    Ok(out)
}

} // verus!

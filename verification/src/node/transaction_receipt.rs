//! The table of receipts: one outcome for each transaction hash.

use vstd::prelude::*;
use vstd::string::*;
use crate::node::error::ServiceError;
use crate::node::storage_impl::{
    fetch, find, first, first_index, invalid_data_format, lemma_first_index, rows_of, RQLiteResult, Record,
    Row, Selector, Storage, StorageView,
};
use crate::node::defaults::TRANSACTION_RECEIPT_TABLE_NAME;
use crate::node::transaction::{TransactionReceipt, TransactionReceiptView};

verus! {

/// A condition on receipts.
pub enum ReceiptKey {
    /// The receipt of this transaction hash.
    Hash(String),
}

/// What a condition of this kind asks for, as plain values.
pub enum ReceiptKeyView {
    Hash(Seq<char>),
}

impl View for ReceiptKey {
    type V = ReceiptKeyView;

    open spec fn view(&self) -> ReceiptKeyView {
        match self {
            ReceiptKey::Hash(hash) => ReceiptKeyView::Hash(hash@),
        }
    }
}

impl Selector<TransactionReceipt> for ReceiptKey {
    open spec fn selects(key: ReceiptKeyView, row: TransactionReceiptView) -> bool {
        match key {
            ReceiptKeyView::Hash(hash) => row.hash == hash,
        }
    }

    fn test(&self, row: &TransactionReceipt) -> (b: bool) {
        match self {
            ReceiptKey::Hash(hash) => { row.hash == *hash },
        }
    }
}

impl Record for TransactionReceipt {
    fn duplicate(&self) -> (r: Self) {
        self.clone()
    }
}
/// The receipt of the transaction `hash`, if the table holds one.
pub open spec fn receipt_of(rows: Seq<TransactionReceiptView>, hash: Seq<char>) -> Option<
    TransactionReceiptView,
> {
    first::<TransactionReceipt, ReceiptKey>(rows, ReceiptKeyView::Hash(hash))
}

/// The table after `receipt` was recorded: in place of the receipt that
/// its hash already had, else at the end.
pub open spec fn with_receipt(rows: Seq<TransactionReceiptView>, receipt: TransactionReceiptView) -> Seq<
    TransactionReceiptView,
> {
    match first_index::<TransactionReceipt, ReceiptKey>(rows, ReceiptKeyView::Hash(receipt.hash)) {
        Some(i) => rows.update(i, receipt),
        None => rows.push(receipt),
    }
}

impl Storage {
    /// Records the outcome of a transaction: in place of the receipt that
    /// its hash already has, else as a new one. Answers the hash.
    pub fn write_transaction_receipt(&mut self, receipt: TransactionReceipt) -> (r: Result<
        String,
        ServiceError,
    >)
        requires
            old(self).wf(),
        ensures
            final(self).wf(),
            r matches Ok(hash) && hash@ == receipt.hash@,
            final(self)@ == (StorageView {
                receipts: with_receipt(old(self)@.receipts, receipt@),
                ..old(self)@
            }),
    {
        let key = ReceiptKey::Hash(receipt.hash.clone());
        let hash = receipt.hash.clone();
        let ghost before = self@.receipts;
        proof {
            lemma_first_index::<TransactionReceipt, ReceiptKey>(before, key@);
        }
        match find(&self.receipts, &key) {
            Some(i) => {
                self.receipts.set(i, receipt);
                proof {
                    let after = self@.receipts;
                    assert(after =~= before.update(i as int, receipt@));
                    assert forall|a: int, b: int|
                        #![trigger after[a], after[b]]
                        0 <= a < b < after.len() implies after[a].hash != after[b].hash by {
                        assert(before[a].hash != before[b].hash);
                    }
                }
            },
            None => {
                self.receipts.push(receipt);
                proof {
                    let after = self@.receipts;
                    assert(after =~= before.push(receipt@));
                    assert forall|a: int, b: int|
                        #![trigger after[a], after[b]]
                        0 <= a < b < after.len() implies after[a].hash != after[b].hash by {
                        if b < before.len() {
                            assert(before[a].hash != before[b].hash);
                        } else {
                            assert(!ReceiptKey::selects(key@, before[a]));
                        }
                    }
                }
            },
        }
        Ok(hash)
    }

    /// The receipt of the transaction `hash`.
    pub fn get_transaction_receipt(&self, hash: String) -> (r: Result<TransactionReceipt, ServiceError>)
        ensures
            match receipt_of(self@.receipts, hash@) {
                Some(row) => r is Ok && r->Ok_0@ == row,
                None => r matches Err(ServiceError::RecordNotFound(s)) && s@ == "No record found"@,
            },
    {
        fetch(&self.receipts, &ReceiptKey::Hash(hash))
    }
}

/// The receipts of an answer, where every row of it is one.
pub open spec fn read_spec(rows: Seq<Row>) -> Option<Seq<TransactionReceipt>> {
    if forall|i: int| 0 <= i < rows.len() ==> (#[trigger] rows[i]) is TransactionReceipt {
        Some(Seq::new(rows.len(), |i: int| rows[i]->TransactionReceipt_0))
    } else {
        None
    }
}

/// Reads the receipts out of an answer of the store. An answer that holds
/// a record of another table is an error.
pub fn read(result: RQLiteResult) -> (r: Result<Vec<TransactionReceipt>, ServiceError>)
    ensures
        match read_spec(rows_of(result)) {
            Some(rows) => r is Ok && r->Ok_0@ == rows,
            None => r matches Err(ServiceError::InternalError(s)) && s@
                == "Invalid data format: "@ + TRANSACTION_RECEIPT_TABLE_NAME@,
        },
{
    let mut out: Vec<TransactionReceipt> = Vec::new();
    match result.rows {
        None => {
            assert(out@ =~= Seq::new(0, |i: int| rows_of(result)[i]->TransactionReceipt_0));
        },
        Some(rows) => {
            let mut i: usize = 0;
            while i < rows.len()
                invariant
                    i <= rows.len(),
                    rows_of(result) == rows@,
                    out@.len() == i,
                    forall|j: int| 0 <= j < i ==> (#[trigger] rows@[j]) is TransactionReceipt,
                    forall|j: int| 0 <= j < i ==> out@[j] == (#[trigger] rows@[j])->TransactionReceipt_0,
                decreases rows.len() - i,
            {
                match &rows[i] {
                    Row::TransactionReceipt(row) => {
                        out.push(row.clone());
                    },
                    _ => {
                        assert(!(rows@[i as int] is TransactionReceipt));
                        return Err(invalid_data_format(TRANSACTION_RECEIPT_TABLE_NAME));
                    },
                }
                i += 1;
            }
            assert(out@ =~= Seq::new(rows@.len(), |i: int| rows@[i]->TransactionReceipt_0));
        },
    }
    Ok(out)
}

} // verus!

//! The tables of the node: six of them, kept in memory, each with the
//! uniqueness rule of its records, and the two ways of reading them. The
//! host mirrors what is recorded here to its relational store.

use vstd::prelude::*;
use vstd::string::*;
use crate::node::cron::{Cron, CronView};
use crate::node::cron_tx::{CronTx, CronTxView};
use crate::node::defaults::{SQL_EXECUTE, SQL_QUERY};
use crate::node::error::ServiceError;
use crate::node::meta_contract::{MetaContract, MetaContractView};
use crate::node::metadatas::{Metadata, MetadataView};
use crate::node::transaction::{Transaction, TransactionReceipt, TransactionReceiptView, TransactionView};

verus! {

/// A condition on the records of a table. Its view says what it asks for.
pub trait Selector<T: View>: View {
    /// Whether the condition `key` holds of `row`.
    spec fn selects(key: Self::V, row: T::V) -> bool;

    /// Tests the condition on `row`.
    fn test(&self, row: &T) -> (b: bool)
        ensures
            b == Self::selects(self@, row@),
    ;
}

/// A record that can be copied out of a table.
pub trait Record: View + Sized {
    /// A copy of the record.
    fn duplicate(&self) -> (r: Self)
        ensures
            r == *self,
    ;
}

/// The records of a table as plain values.
pub open spec fn views<T: View>(rows: Seq<T>) -> Seq<T::V> {
    rows.map_values(|r: T| r@)
}

/// The place of the first record that `key` selects, if there is one.
pub open spec fn first_index<T: View, S: Selector<T>>(rows: Seq<T::V>, key: S::V) -> Option<int>
    decreases rows.len(),
{
    if rows.len() == 0 {
        None
    } else {
        match first_index::<T, S>(rows.drop_last(), key) {
            Some(i) => Some(i),
            None => if S::selects(key, rows.last()) {
                Some(rows.len() - 1)
            } else {
                None
            },
        }
    }
}

/// The first record that `key` selects, if there is one.
pub open spec fn first<T: View, S: Selector<T>>(rows: Seq<T::V>, key: S::V) -> Option<T::V> {
    match first_index::<T, S>(rows, key) {
        Some(i) => Some(rows[i]),
        None => None,
    }
}

/// The records that `key` selects, in the order of the table.
pub open spec fn selected<T: View, S: Selector<T>>(rows: Seq<T::V>, key: S::V) -> Seq<T::V>
    decreases rows.len(),
{
    if rows.len() == 0 {
        Seq::empty()
    } else if S::selects(key, rows.last()) {
        selected::<T, S>(rows.drop_last(), key).push(rows.last())
    } else {
        selected::<T, S>(rows.drop_last(), key)
    }
}

/// The first selected record is selected and nothing before it is; where
/// there is none, nothing is selected.
pub proof fn lemma_first_index<T: View, S: Selector<T>>(rows: Seq<T::V>, key: S::V)
    ensures
        match first_index::<T, S>(rows, key) {
            Some(i) => 0 <= i < rows.len() && S::selects(key, rows[i]) && forall|j: int|
                0 <= j < i ==> !S::selects(key, #[trigger] rows[j]),
            None => forall|j: int| 0 <= j < rows.len() ==> !S::selects(key, #[trigger] rows[j]),
        },
    decreases rows.len(),
{
    if rows.len() > 0 {
        let front = rows.drop_last();
        lemma_first_index::<T, S>(front, key);
        assert forall|j: int| 0 <= j < front.len() implies front[j] == rows[j] by {}
        match first_index::<T, S>(front, key) {
            Some(i) => {
                assert(rows[i] == front[i]);
                assert forall|j: int| 0 <= j < i implies !S::selects(key, #[trigger] rows[j]) by {
                    assert(rows[j] == front[j]);
                }
            },
            None => {
                assert forall|j: int| 0 <= j < front.len() implies !S::selects(
                    key,
                    #[trigger] rows[j],
                ) by {
                    assert(rows[j] == front[j]);
                }
            },
        }
    }
}

/// A selected record with nothing selected before it is the first one.
pub proof fn lemma_first_is<T: View, S: Selector<T>>(rows: Seq<T::V>, key: S::V, i: int)
    requires
        0 <= i < rows.len(),
        S::selects(key, rows[i]),
        forall|j: int| 0 <= j < i ==> !S::selects(key, #[trigger] rows[j]),
    ensures
        first_index::<T, S>(rows, key) == Some(i),
{
    lemma_first_index::<T, S>(rows, key);
}

/// Where nothing is selected there is no first record.
pub proof fn lemma_first_none<T: View, S: Selector<T>>(rows: Seq<T::V>, key: S::V)
    requires
        forall|j: int| 0 <= j < rows.len() ==> !S::selects(key, #[trigger] rows[j]),
    ensures
        first_index::<T, S>(rows, key) is None,
{
    lemma_first_index::<T, S>(rows, key);
}

/// In a table that grew by a record, the first selected record is the
/// one that was first before, or else the new record where it is selected.
pub proof fn lemma_first_after_push<T: View, S: Selector<T>>(rows: Seq<T::V>, key: S::V, row: T::V)
    ensures
        first_index::<T, S>(rows.push(row), key) == match first_index::<T, S>(rows, key) {
            Some(i) => Some(i),
            None => if S::selects(key, row) {
                Some(rows.len() as int)
            } else {
                None
            },
        },
{
    assert(rows.push(row).drop_last() =~= rows);
    assert(rows.push(row).last() == row);
}

/// A change of the records that keeps what `key` selects keeps the place
/// of the first selected record.
pub proof fn lemma_first_after_change<T: View, S: Selector<T>>(
    rows: Seq<T::V>,
    key: S::V,
    change: spec_fn(T::V) -> T::V,
)
    requires
        forall|row: T::V| S::selects(key, #[trigger] change(row)) == S::selects(key, row),
    ensures
        first_index::<T, S>(rows.map_values(change), key) == first_index::<T, S>(rows, key),
    decreases rows.len(),
{
    if rows.len() > 0 {
        lemma_first_after_change::<T, S>(rows.drop_last(), key, change);
        assert(rows.map_values(change).drop_last() =~= rows.drop_last().map_values(change));
        assert(rows.map_values(change).last() == change(rows.last()));
    }
}

/// Finds the place of the first record that `sel` selects.
pub fn find<T: View, S: Selector<T>>(rows: &Vec<T>, sel: &S) -> (r: Option<usize>)
    ensures
        match r {
            Some(i) => first_index::<T, S>(views(rows@), sel@) == Some(i as int) && i < rows@.len(),
            None => first_index::<T, S>(views(rows@), sel@) is None,
        },
{
    let mut i: usize = 0;
    while i < rows.len()
        invariant
            i <= rows.len(),
            forall|j: int| 0 <= j < i ==> !S::selects(sel@, #[trigger] views(rows@)[j]),
        decreases rows.len() - i,
    {
        if sel.test(&rows[i]) {
            proof {
                assert(views(rows@)[i as int] == rows@[i as int]@);
                lemma_first_is::<T, S>(views(rows@), sel@, i as int);
            }
            return Some(i);
        }
        assert(views(rows@)[i as int] == rows@[i as int]@);
        i += 1;
    }
    proof {
        lemma_first_none::<T, S>(views(rows@), sel@);
    }
    None
}

/// Copies out the first record that `sel` selects; the error of a query
/// without a match where there is none.
pub fn fetch<T: Record, S: Selector<T>>(rows: &Vec<T>, sel: &S) -> (r: Result<T, ServiceError>)
    ensures
        match first::<T, S>(views(rows@), sel@) {
            Some(row) => r is Ok && r->Ok_0@ == row,
            None => r matches Err(ServiceError::RecordNotFound(s)) && s@ == "No record found"@,
        },
{
    match find(rows, sel) {
        Some(i) => {
            assert(views(rows@)[i as int] == rows@[i as int]@);
            Ok(rows[i].duplicate())
        },
        None => Err(ServiceError::not_found()),
    }
}

/// Copies out the records that `sel` selects, in the order of the table.
pub fn select<T: Record, S: Selector<T>>(rows: &Vec<T>, sel: &S) -> (out: Vec<T>)
    ensures
        views(out@) == selected::<T, S>(views(rows@), sel@),
{
    let mut out: Vec<T> = Vec::new();
    let mut i: usize = 0;
    assert(views(out@) =~= Seq::empty());
    while i < rows.len()
        invariant
            i <= rows.len(),
            views(out@) == selected::<T, S>(views(rows@).take(i as int), sel@),
        decreases rows.len() - i,
    {
        proof {
            assert(views(rows@).take(i + 1).drop_last() =~= views(rows@).take(i as int));
            assert(views(rows@).take(i + 1).last() == rows@[i as int]@);
        }
        if sel.test(&rows[i]) {
            let ghost done = views(out@);
            out.push(rows[i].duplicate());
            assert(views(out@) =~= done.push(rows@[i as int]@));
        }
        i += 1;
    }
    assert(views(rows@).take(i as int) =~= views(rows@));
    out
}

/// The condition that every record meets.
pub struct Every;

impl View for Every {
    type V = ();

    open spec fn view(&self) -> () {
        ()
    }
}

impl<T: View> Selector<T> for Every {
    open spec fn selects(key: (), row: T::V) -> bool {
        true
    }

    fn test(&self, row: &T) -> (b: bool) {
        true
    }
}

/// Selecting every record gives the table itself.
pub proof fn lemma_selected_every<T: View>(rows: Seq<T::V>)
    ensures
        selected::<T, Every>(rows, ()) == rows,
    decreases rows.len(),
{
    if rows.len() > 0 {
        lemma_selected_every::<T>(rows.drop_last());
        assert(rows.drop_last().push(rows.last()) =~= rows);
    }
}

/// One record of an answer of the store, of whichever table it came from.
#[derive(Debug)]
pub enum Row {
    Metadata(Metadata),
    MetaContract(MetaContract),
    Transaction(Transaction),
    TransactionReceipt(TransactionReceipt),
    Cron(Cron),
    CronTx(CronTx),
}

/// The answer of the store to one statement.
#[derive(Debug)]
pub struct RQLiteResult {
    pub last_insert_id: Option<i64>,
    pub rows_affected: Option<i64>,
    pub error: Option<String>,
    pub rows: Option<Vec<Row>>,
}

/// The answers of the store to the statements of one request.
#[derive(Debug)]
pub struct RQLiteResponse {
    pub results: Vec<RQLiteResult>,
}

/// The node's tables.
pub struct Storage {
    pub(crate) transactions: Vec<Transaction>,
    pub(crate) receipts: Vec<TransactionReceipt>,
    pub(crate) metadatas: Vec<Metadata>,
    pub(crate) meta_contracts: Vec<MetaContract>,
    pub(crate) crons: Vec<Cron>,
    pub(crate) cron_txs: Vec<CronTx>,
}

/// The records of the six tables, each in the order of arrival.
pub struct StorageView {
    pub transactions: Seq<TransactionView>,
    pub receipts: Seq<TransactionReceiptView>,
    pub metadatas: Seq<MetadataView>,
    pub meta_contracts: Seq<MetaContractView>,
    pub crons: Seq<CronView>,
    pub cron_txs: Seq<CronTxView>,
}

/// No two transactions share a hash.
pub open spec fn transactions_unique(rows: Seq<TransactionView>) -> bool {
    forall|i: int, j: int|
        #![trigger rows[i], rows[j]]
        0 <= i < j < rows.len() ==> rows[i].hash != rows[j].hash
}

/// No two receipts share a hash.
pub open spec fn receipts_unique(rows: Seq<TransactionReceiptView>) -> bool {
    forall|i: int, j: int|
        #![trigger rows[i], rows[j]]
        0 <= i < j < rows.len() ==> rows[i].hash != rows[j].hash
}

/// No two records name the same slot.
pub open spec fn metadatas_unique(rows: Seq<MetadataView>) -> bool {
    forall|i: int, j: int|
        #![trigger rows[i], rows[j]]
        0 <= i < j < rows.len() ==> !rows[i].same_slot(rows[j])
}

/// No two bindings share a token key.
pub open spec fn meta_contracts_unique(rows: Seq<MetaContractView>) -> bool {
    forall|i: int, j: int|
        #![trigger rows[i], rows[j]]
        0 <= i < j < rows.len() ==> rows[i].token_key != rows[j].token_key
}

/// No two rules watch the same address, chain and topic.
pub open spec fn crons_unique(rows: Seq<CronView>) -> bool {
    forall|i: int, j: int|
        #![trigger rows[i], rows[j]]
        0 <= i < j < rows.len() ==> !rows[i].watches(rows[j].address, rows[j].chain, rows[j].topic)
}

/// No two records stand for the same event.
pub open spec fn cron_txs_unique(rows: Seq<CronTxView>) -> bool {
    forall|i: int, j: int|
        #![trigger rows[i], rows[j]]
        0 <= i < j < rows.len() ==> !rows[i].same_event(rows[j])
}

impl StorageView {
    /// The uniqueness rules: one transaction and one receipt for a hash, one
    /// slot for its five key fields, one binding for a token key, one rule
    /// for an address, chain and topic, one event for a rule and an outside
    /// transaction.
    pub open spec fn wf(self) -> bool {
        &&& transactions_unique(self.transactions)
        &&& receipts_unique(self.receipts)
        &&& metadatas_unique(self.metadatas)
        &&& meta_contracts_unique(self.meta_contracts)
        &&& crons_unique(self.crons)
        &&& cron_txs_unique(self.cron_txs)
    }
}

impl View for Storage {
    type V = StorageView;

    open(crate) spec fn view(&self) -> StorageView {
        StorageView {
            transactions: views(self.transactions@),
            receipts: views(self.receipts@),
            metadatas: views(self.metadatas@),
            meta_contracts: views(self.meta_contracts@),
            crons: views(self.crons@),
            cron_txs: views(self.cron_txs@),
        }
    }
}

impl Storage {
    /// The validity of the store: its tables keep their uniqueness rules.
    pub open spec fn wf(&self) -> bool {
        self@.wf()
    }

    /// A store of empty tables.
    pub fn new() -> (s: Self)
        ensures
            s.wf(),
            s@.transactions.len() == 0,
            s@.receipts.len() == 0,
            s@.metadatas.len() == 0,
            s@.meta_contracts.len() == 0,
            s@.crons.len() == 0,
            s@.cron_txs.len() == 0,
    {
        Storage {
            transactions: Vec::new(),
            receipts: Vec::new(),
            metadatas: Vec::new(),
            meta_contracts: Vec::new(),
            crons: Vec::new(),
            cron_txs: Vec::new(),
        }
    }

    /// The error of a write that would break a uniqueness rule.
    pub fn unique_violation(table: &str) -> (e: ServiceError)
        ensures
            e matches ServiceError::InternalError(s) && s@ == "UNIQUE constraint failed: "@ + table@,
    {
        ServiceError::InternalError(String::from_str("UNIQUE constraint failed: ").concat(table))
    }
}

/// The rows of an answer; an answer without rows has none.
pub open spec fn rows_of(result: RQLiteResult) -> Seq<Row> {
    match result.rows {
        Some(rows) => rows@,
        None => Seq::empty(),
    }
}

/// The error of an answer that holds a record of another table.
pub fn invalid_data_format(table: &str) -> (e: ServiceError)
    ensures
        e matches ServiceError::InternalError(s) && s@ == "Invalid data format: "@ + table@,
{
    ServiceError::InternalError(String::from_str("Invalid data format: ").concat(table))
}

/// `query` without its line breaks, as `str::replace` gives it.
pub open spec fn one_line(query: Seq<char>) -> Seq<char> {
    query.filter(|c: char| c != '\n')
}

/// Calls `str::replace` with a line break and the empty text. Trusted:
/// the text returned is `query` without its line breaks.
#[verifier::external_body]
fn without_line_breaks(query: &str) -> (r: String)
    ensures
        r@ == one_line(query@),
{
    query.replace("\n", "")
}

/// The arguments of the request that carries `query` to the store at
/// `endpoint`: a silent POST of a JSON list with the statement, on one line.
pub fn request_args(endpoint: &str, query: &str) -> (args: Vec<String>)
    ensures
        args@.len() == 7,
        args@[0]@ == "-s"@,
        args@[1]@ == "-XPOST"@,
        args@[2]@ == endpoint@,
        args@[3]@ == "-H"@,
        args@[4]@ == "Content-Type: application/json"@,
        args@[5]@ == "-d"@,
        args@[6]@ == "[\""@ + one_line(query@) + "\"]"@,
{
    let mut body = String::from_str("[\"");
    body.append(without_line_breaks(query).as_str());
    body.append("\"]");
    let mut args: Vec<String> = Vec::new();
    args.push(String::from_str("-s"));
    args.push(String::from_str("-XPOST"));
    args.push(String::from_str(endpoint));
    args.push(String::from_str("-H"));
    args.push(String::from_str("Content-Type: application/json"));
    args.push(String::from_str("-d"));
    args.push(body);
    args
}

/// The text without its first and its last character; empty where it
/// has fewer than two.
pub open spec fn trimmed(input: Seq<char>) -> Seq<char> {
    if input.len() >= 2 {
        input.subrange(1, input.len() - 1)
    } else {
        Seq::empty()
    }
}

impl Storage {
    /// The arguments of the request that executes a statement.
    pub fn execute(query: String) -> (args: Vec<String>)
        ensures
            args@.len() == 7,
            args@[2]@ == SQL_EXECUTE@,
            args@[6]@ == "[\""@ + one_line(query@) + "\"]"@,
    {
        request_args(SQL_EXECUTE, query.as_str())
    }

    /// The arguments of the request that reads with a statement.
    pub fn read(query: String) -> (args: Vec<String>)
        ensures
            args@.len() == 7,
            args@[2]@ == SQL_QUERY@,
            args@[6]@ == "[\""@ + one_line(query@) + "\"]"@,
    {
        request_args(SQL_QUERY, query.as_str())
    }

    /// The answer to the first statement of a request: the answer itself,
    /// or the error that the store reports in it. A response without an
    /// answer is an error too.
    pub fn unwrap_mounted_binary_result(response: RQLiteResponse) -> (r: Result<RQLiteResult, ServiceError>)
        ensures
            if response.results@.len() == 0 {
                r matches Err(ServiceError::InternalError(s)) && s@ == "Invalid response"@
            } else {
                match response.results@[0].error {
                    Some(error) => r matches Err(ServiceError::InternalError(s)) && s == error,
                    None => r == Ok::<RQLiteResult, ServiceError>(response.results@[0]),
                }
            },
    {
        let mut results = response.results;
        if results.len() == 0 {
            return Err(ServiceError::InternalError(String::from_str("Invalid response")));
        }
        let first = results.remove(0);
        match first.error {
            Some(error) => Err(ServiceError::InternalError(error)),
            None => Ok(first),
        }
    }

    /// Strips the first and the last character, the quotes of a JSON string.
    pub fn trimmer(input: String) -> (r: String)
        ensures
            r@ == trimmed(input@),
    {
        let n = input.as_str().unicode_len();
        if n >= 2 {
            let inner = input.as_str().substring_char(1, n - 1);
            String::from_str(inner)
        } else {
            String::new()
        }
    }
}

/// The store that a node starts with: a store of empty tables.
pub fn get_storage() -> (s: Storage)
    ensures
        s.wf(),
        s@.transactions.len() == 0,
        s@.receipts.len() == 0,
        s@.metadatas.len() == 0,
        s@.meta_contracts.len() == 0,
        s@.crons.len() == 0,
        s@.cron_txs.len() == 0,
{
    Storage::new()
}

} // verus!

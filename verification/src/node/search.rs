//! Searches over the tables: conditions on columns, an order of the
//! matches, and a window of them.

use vstd::prelude::*;
use vstd::string::*;
use vstd::utf8::encode_utf8;
use crate::node::cron_tx::{CronTx, CronTxView};
use crate::node::error::{ServiceError, ServiceErrorView};
use crate::node::metadatas::{Metadata, MetadataOrdering, MetadataQuery, MetadataView};
use crate::node::storage_impl::{views, Record, Storage};
use crate::node::transaction::{Transaction, TransactionOrdering, TransactionQuery, TransactionView};
use crate::text::is_text;

verus! {

/// What a column holds: a number, or a text.
pub enum Field {
    Number(i128),
    Text(String),
}

/// What a column holds, as plain values: a number, or the bytes of a text.
pub enum FieldView {
    Number(int),
    Text(Seq<u8>),
}

impl View for Field {
    type V = FieldView;

    open spec fn view(&self) -> FieldView {
        match self {
            Field::Number(n) => FieldView::Number(*n as int),
            Field::Text(s) => FieldView::Text(encode_utf8(s@)),
        }
    }
}

/// How one value stands to another.
#[derive(Debug, Clone, Copy, PartialEq, Eq, Structural)]
pub enum Order {
    Before,
    Same,
    After,
}

/// The order of two byte sequences: by the first byte in which they
/// differ, a sequence before every longer one that starts with it.
pub open spec fn bytes_order(a: Seq<u8>, b: Seq<u8>) -> Order
    decreases a.len(),
{
    if a.len() == 0 {
        if b.len() == 0 {
            Order::Same
        } else {
            Order::Before
        }
    } else if b.len() == 0 {
        Order::After
    } else if a[0] < b[0] {
        Order::Before
    } else if a[0] > b[0] {
        Order::After
    } else {
        bytes_order(a.skip(1), b.skip(1))
    }
}

/// The order of what two columns hold: numbers by their value, texts by
/// their bytes, and every number before every text.
pub open spec fn field_order(a: FieldView, b: FieldView) -> Order {
    match (a, b) {
        (FieldView::Number(x), FieldView::Number(y)) => if x < y {
            Order::Before
        } else if x > y {
            Order::After
        } else {
            Order::Same
        },
        (FieldView::Number(_), FieldView::Text(_)) => Order::Before,
        (FieldView::Text(_), FieldView::Number(_)) => Order::After,
        (FieldView::Text(s), FieldView::Text(t)) => bytes_order(s, t),
    }
}

/// Compares two byte sequences.
pub fn compare_bytes(a: &[u8], b: &[u8]) -> (o: Order)
    ensures
        o == bytes_order(a@, b@),
{
    let mut i: usize = 0;
    proof {
        assert(a@.skip(0) =~= a@);
        assert(b@.skip(0) =~= b@);
    }
    while i < a.len() && i < b.len()
        invariant
            i <= a.len(),
            i <= b.len(),
            bytes_order(a@, b@) == bytes_order(a@.skip(i as int), b@.skip(i as int)),
        decreases a.len() - i,
    {
        proof {
            assert(a@.skip(i as int)[0] == a@[i as int]);
            assert(b@.skip(i as int)[0] == b@[i as int]);
            assert(a@.skip(i as int).skip(1) =~= a@.skip(i + 1));
            assert(b@.skip(i as int).skip(1) =~= b@.skip(i + 1));
        }
        if a[i] < b[i] {
            return Order::Before;
        }
        if a[i] > b[i] {
            return Order::After;
        }
        i += 1;
    }
    if i < b.len() {
        Order::Before
    } else if i < a.len() {
        Order::After
    } else {
        Order::Same
    }
}

/// Compares what two columns hold.
pub fn compare_fields(a: &Field, b: &Field) -> (o: Order)
    ensures
        o == field_order(a@, b@),
{
    match a {
        Field::Number(x) => match b {
            Field::Number(y) => if *x < *y {
                Order::Before
            } else if *x > *y {
                Order::After
            } else {
                Order::Same
            },
            Field::Text(_) => Order::Before,
        },
        Field::Text(s) => match b {
            Field::Number(_) => Order::After,
            Field::Text(t) => compare_bytes(s.as_str().as_bytes(), t.as_str().as_bytes()),
        },
    }
}

/// A comparison that a condition asks for.
#[derive(Debug, Clone, Copy, PartialEq, Eq, Structural)]
pub enum Op {
    Equal,
    NotEqual,
    Less,
    LessOrEqual,
    Greater,
    GreaterOrEqual,
}

/// The comparison that an operator stands for.
pub open spec fn op_of(text: Seq<char>) -> Option<Op> {
    if text == "="@ {
        Some(Op::Equal)
    } else if text == "!="@ || text == "<>"@ {
        Some(Op::NotEqual)
    } else if text == "<"@ {
        Some(Op::Less)
    } else if text == "<="@ {
        Some(Op::LessOrEqual)
    } else if text == ">"@ {
        Some(Op::Greater)
    } else if text == ">="@ {
        Some(Op::GreaterOrEqual)
    } else {
        None
    }
}

/// Reads an operator.
pub fn read_op(text: &String) -> (op: Option<Op>)
    ensures
        op == op_of(text@),
{
    if is_text(text, "=") {
        Some(Op::Equal)
    } else if is_text(text, "!=") || is_text(text, "<>") {
        Some(Op::NotEqual)
    } else if is_text(text, "<") {
        Some(Op::Less)
    } else if is_text(text, "<=") {
        Some(Op::LessOrEqual)
    } else if is_text(text, ">") {
        Some(Op::Greater)
    } else if is_text(text, ">=") {
        Some(Op::GreaterOrEqual)
    } else {
        None
    }
}

/// Whether a comparison holds of two values that stand in `order`.
pub open spec fn holds(op: Op, order: Order) -> bool {
    match op {
        Op::Equal => order is Same,
        Op::NotEqual => !(order is Same),
        Op::Less => order is Before,
        Op::LessOrEqual => !(order is After),
        Op::Greater => order is After,
        Op::GreaterOrEqual => !(order is Before),
    }
}

/// Tests a comparison on two values that stand in `order`.
pub fn test_op(op: Op, order: Order) -> (b: bool)
    ensures
        b == holds(op, order),
{
    match op {
        Op::Equal => order == Order::Same,
        Op::NotEqual => order != Order::Same,
        Op::Less => order == Order::Before,
        Op::LessOrEqual => order != Order::After,
        Op::Greater => order == Order::After,
        Op::GreaterOrEqual => order != Order::Before,
    }
}

/// Whether every byte is an ASCII digit, and there is one at least.
pub open spec fn digits(s: Seq<u8>) -> bool {
    s.len() > 0 && forall|i: int| 0 <= i < s.len() ==> 0x30 <= #[trigger] s[i] <= 0x39
}

/// The number that decimal digits stand for.
pub open spec fn digits_value(s: Seq<u8>) -> int
    decreases s.len(),
{
    if s.len() == 0 {
        0
    } else {
        digits_value(s.drop_last()) * 10 + (s.last() - 0x30)
    }
}

/// The integer that a text stands for: decimal digits, after a minus sign
/// for a negative number, with a value that fits in 127 bits.
pub open spec fn integer_of_text(s: Seq<u8>) -> Option<int> {
    if s.len() > 0 && s[0] == 0x2d {
        if digits(s.skip(1)) && digits_value(s.skip(1)) <= i128::MAX {
            Some(-digits_value(s.skip(1)))
        } else {
            None
        }
    } else if digits(s) && digits_value(s) <= i128::MAX {
        Some(digits_value(s))
    } else {
        None
    }
}

/// The value of digits never falls when more digits follow.
pub proof fn lemma_digits_grow(s: Seq<u8>, n: int)
    requires
        digits(s),
        0 <= n <= s.len(),
    ensures
        0 <= digits_value(s.take(n)) <= digits_value(s),
    decreases s.len() - n,
{
    lemma_digits_value_nonnegative(s.take(n), n);
    if n < s.len() {
        lemma_digits_grow(s, n + 1);
        assert(s.take(n + 1).drop_last() =~= s.take(n));
        assert(s.take(n + 1).last() == s[n]);
    } else {
        assert(s.take(n) =~= s);
    }
}

/// The value of digits is not negative.
pub proof fn lemma_digits_value_nonnegative(s: Seq<u8>, n: int)
    requires
        s.len() == n,
        forall|i: int| 0 <= i < s.len() ==> 0x30 <= #[trigger] s[i] <= 0x39,
    ensures
        digits_value(s) >= 0,
    decreases s.len(),
{
    if s.len() > 0 {
        lemma_digits_value_nonnegative(s.drop_last(), n - 1);
    }
}

/// Reads the value of decimal digits; none where a byte is no digit,
/// there is no digit, or the value does not fit.
pub fn parse_digits(s: &[u8]) -> (r: Option<i128>)
    ensures
        if digits(s@) && digits_value(s@) <= i128::MAX {
            r is Some && r->0 as int == digits_value(s@) && r->0 >= 0
        } else {
            r is None
        },
{
    if s.len() == 0 {
        return None;
    }
    let mut value: i128 = 0;
    let mut i: usize = 0;
    assert(s@.take(0) =~= Seq::<u8>::empty());
    while i < s.len()
        invariant
            i <= s.len(),
            forall|k: int| 0 <= k < i ==> 0x30 <= #[trigger] s@[k] <= 0x39,
            0 <= value,
            value == digits_value(s@.take(i as int)),
        decreases s.len() - i,
    {
        let byte = s[i];
        if byte < 0x30 || byte > 0x39 {
            return None;
        }
        let digit: i128 = (byte - 0x30) as i128;
        proof {
            assert(s@.take(i + 1).drop_last() =~= s@.take(i as int));
            assert(s@.take(i + 1).last() == byte);
        }
        if value > (i128::MAX - digit) / 10 {
            proof {
                // The digits read so far are beyond what fits, and so is the whole.
                assert(digits_value(s@.take(i + 1)) > i128::MAX);
                if digits(s@) {
                    lemma_digits_grow(s@, i + 1);
                }
            }
            return None;
        }
        value = value * 10 + digit;
        i += 1;
    }
    assert(s@.take(i as int) =~= s@);
    Some(value)
}

/// Reads an integer: decimal digits, after a minus sign for a negative number.
pub fn parse_integer(text: &str) -> (r: Option<i128>)
    ensures
        match integer_of_text(encode_utf8(text@)) {
            Some(n) => r is Some && r->0 as int == n,
            None => r is None,
        },
{
    let bytes = text.as_bytes();
    if bytes.len() > 0 && bytes[0] == 0x2d {
        let rest = vstd::slice::slice_subrange(bytes, 1, bytes.len());
        assert(rest@ =~= bytes@.skip(1));
        match parse_digits(rest) {
            Some(n) => Some(-n),
            None => None,
        }
    } else {
        parse_digits(bytes)
    }
}

/// A record with columns that a search can ask for.
pub trait Columns: View {
    /// Whether the column `name` holds numbers; none where the table has
    /// no such column.
    spec fn numeric(name: Seq<char>) -> Option<bool>;

    /// Tells the kind of the column `name`.
    fn kind(name: &String) -> (k: Option<bool>)
        ensures
            k == Self::numeric(name@),
    ;

    /// What the column `name` of `row` holds.
    spec fn column_of(row: Self::V, name: Seq<char>) -> FieldView;

    /// Reads the column `name`.
    fn column(&self, name: &String) -> (f: Field)
        requires
            Self::numeric(name@) is Some,
        ensures
            f@ == Self::column_of(self@, name@),
    ;
}

/// A record that knows when it was made.
pub trait Timed: View {
    /// When the record was made.
    spec fn time_of(row: Self::V) -> u64;

    /// Reads when the record was made.
    fn time(&self) -> (t: u64)
        ensures
            t == Self::time_of(self@),
    ;
}

/// One condition of a search: what a column holds stands in the
/// comparison to the value.
pub struct Condition {
    pub column: String,
    pub op: Op,
    pub value: Field,
}

/// A condition as plain values.
pub struct ConditionView {
    pub column: Seq<char>,
    pub op: Op,
    pub value: FieldView,
}

impl View for Condition {
    type V = ConditionView;

    open spec fn view(&self) -> ConditionView {
        ConditionView { column: self.column@, op: self.op, value: self.value@ }
    }
}

/// The condition that a column, an operator and a value ask for: the
/// column is one of the table, the operator is a comparison, and the
/// value for a column of numbers is an integer.
pub open spec fn condition_of<T: Columns>(column: Seq<char>, op: Seq<char>, value: Seq<char>) -> Option<
    ConditionView,
> {
    match (T::numeric(column), op_of(op)) {
        (Some(true), Some(o)) => match integer_of_text(encode_utf8(value)) {
            Some(n) => Some(ConditionView { column, op: o, value: FieldView::Number(n) }),
            None => None,
        },
        (Some(false), Some(o)) => Some(
            ConditionView { column, op: o, value: FieldView::Text(encode_utf8(value)) },
        ),
        _ => None,
    }
}

/// Reads a condition.
pub fn read_condition<T: Columns>(column: &String, op: &String, value: &String) -> (r: Option<Condition>)
    ensures
        match condition_of::<T>(column@, op@, value@) {
            Some(c) => r is Some && r->0@ == c,
            None => r is None,
        },
{
    let kind = match T::kind(column) {
        Some(kind) => kind,
        None => {
            return None;
        },
    };
    let op = match read_op(op) {
        Some(op) => op,
        None => {
            return None;
        },
    };
    if kind {
        match parse_integer(value.as_str()) {
            Some(n) => Some(Condition { column: column.clone(), op, value: Field::Number(n) }),
            None => None,
        }
    } else {
        Some(Condition { column: column.clone(), op, value: Field::Text(value.clone()) })
    }
}

/// Whether `row` meets every condition.
pub open spec fn meets<T: Columns>(row: T::V, conditions: Seq<ConditionView>) -> bool {
    forall|i: int|
        0 <= i < conditions.len() ==> holds(
            (#[trigger] conditions[i]).op,
            field_order(T::column_of(row, conditions[i].column), conditions[i].value),
        )
}

/// The records that meet every condition, in the order of the table.
pub open spec fn matching<T: Columns>(rows: Seq<T::V>, conditions: Seq<ConditionView>) -> Seq<T::V>
    decreases rows.len(),
{
    if rows.len() == 0 {
        Seq::empty()
    } else if meets::<T>(rows.last(), conditions) {
        matching::<T>(rows.drop_last(), conditions).push(rows.last())
    } else {
        matching::<T>(rows.drop_last(), conditions)
    }
}

/// Whether every condition asks for a column of the table.
pub open spec fn on_columns<T: Columns>(conditions: Seq<ConditionView>) -> bool {
    forall|i: int| 0 <= i < conditions.len() ==> T::numeric((#[trigger] conditions[i]).column) is Some
}

/// Whether `row` meets every condition.
pub fn test_conditions<T: Columns>(row: &T, conditions: &Vec<Condition>) -> (b: bool)
    requires
        on_columns::<T>(views(conditions@)),
    ensures
        b == meets::<T>(row@, views(conditions@)),
{
    let mut i: usize = 0;
    while i < conditions.len()
        invariant
            i <= conditions.len(),
            on_columns::<T>(views(conditions@)),
            forall|k: int|
                0 <= k < i ==> holds(
                    (#[trigger] views(conditions@)[k]).op,
                    field_order(T::column_of(row@, views(conditions@)[k].column), views(conditions@)[k].value),
                ),
        decreases conditions.len() - i,
    {
        assert(views(conditions@)[i as int] == conditions@[i as int]@);
        let held = row.column(&conditions[i].column);
        if !test_op(conditions[i].op, compare_fields(&held, &conditions[i].value)) {
            return false;
        }
        i += 1;
    }
    true
}

/// Copies out the records that meet every condition.
pub fn filter<T: Columns + Record>(rows: &Vec<T>, conditions: &Vec<Condition>) -> (out: Vec<T>)
    requires
        on_columns::<T>(views(conditions@)),
    ensures
        views(out@) == matching::<T>(views(rows@), views(conditions@)),
{
    let mut out: Vec<T> = Vec::new();
    let mut i: usize = 0;
    assert(views(out@) =~= Seq::empty());
    while i < rows.len()
        invariant
            i <= rows.len(),
            on_columns::<T>(views(conditions@)),
            views(out@) == matching::<T>(views(rows@).take(i as int), views(conditions@)),
        decreases rows.len() - i,
    {
        proof {
            assert(views(rows@).take(i + 1).drop_last() =~= views(rows@).take(i as int));
            assert(views(rows@).take(i + 1).last() == rows@[i as int]@);
        }
        if test_conditions(&rows[i], conditions) {
            let ghost done = views(out@);
            out.push(rows[i].duplicate());
            assert(views(out@) =~= done.push(rows@[i as int]@));
        }
        i += 1;
    }
    assert(views(rows@).take(i as int) =~= views(rows@));
    out
}

/// One key of an order: a column, rising or falling.
pub struct SortKey {
    pub column: String,
    pub descending: bool,
}

/// A key of an order as plain values.
pub struct SortKeyView {
    pub column: Seq<char>,
    pub descending: bool,
}

impl View for SortKey {
    type V = SortKeyView;

    open spec fn view(&self) -> SortKeyView {
        SortKeyView { column: self.column@, descending: self.descending }
    }
}

/// Whether a direction asks for a falling order; none where it names no
/// direction. No direction at all stands for a rising order.
pub open spec fn falling(sort: Seq<char>) -> Option<bool> {
    if sort.len() == 0 || sort == "ASC"@ || sort == "asc"@ {
        Some(false)
    } else if sort == "DESC"@ || sort == "desc"@ {
        Some(true)
    } else {
        None
    }
}

/// The key that a column and a direction ask for.
pub open spec fn key_of<T: Columns>(column: Seq<char>, sort: Seq<char>) -> Option<SortKeyView> {
    match (T::numeric(column), falling(sort)) {
        (Some(_), Some(descending)) => Some(SortKeyView { column, descending }),
        _ => None,
    }
}

/// Reads a key of an order.
pub fn read_key<T: Columns>(column: &String, sort: &String) -> (r: Option<SortKey>)
    ensures
        match key_of::<T>(column@, sort@) {
            Some(k) => r is Some && r->0@ == k,
            None => r is None,
        },
{
    if T::kind(column).is_none() {
        return None;
    }
    if sort.as_str().is_empty() || is_text(sort, "ASC") || is_text(sort, "asc") {
        Some(SortKey { column: column.clone(), descending: false })
    } else if is_text(sort, "DESC") || is_text(sort, "desc") {
        Some(SortKey { column: column.clone(), descending: true })
    } else {
        None
    }
}

/// Whether every key names a column of the table.
pub open spec fn keys_on_columns<T: Columns>(keys: Seq<SortKeyView>) -> bool {
    forall|i: int| 0 <= i < keys.len() ==> T::numeric((#[trigger] keys[i]).column) is Some
}

/// An order the other way round.
pub open spec fn flipped(o: Order) -> Order {
    match o {
        Order::Before => Order::After,
        Order::Same => Order::Same,
        Order::After => Order::Before,
    }
}

/// The order of two records under the keys: by the first key in which
/// they differ, the other way round where the key asks for a falling order.
pub open spec fn row_order<T: Columns>(a: T::V, b: T::V, keys: Seq<SortKeyView>) -> Order
    decreases keys.len(),
{
    if keys.len() == 0 {
        Order::Same
    } else {
        let o = field_order(T::column_of(a, keys[0].column), T::column_of(b, keys[0].column));
        if o is Same {
            row_order::<T>(a, b, keys.skip(1))
        } else if keys[0].descending {
            flipped(o)
        } else {
            o
        }
    }
}

/// Compares two records under the keys.
pub fn compare_rows<T: Columns>(a: &T, b: &T, keys: &Vec<SortKey>) -> (o: Order)
    requires
        keys_on_columns::<T>(views(keys@)),
    ensures
        o == row_order::<T>(a@, b@, views(keys@)),
{
    let ghost all = views(keys@);
    let mut i: usize = 0;
    assert(all.skip(0) =~= all);
    while i < keys.len()
        invariant
            i <= keys.len(),
            all == views(keys@),
            keys_on_columns::<T>(all),
            row_order::<T>(a@, b@, all) == row_order::<T>(a@, b@, all.skip(i as int)),
        decreases keys.len() - i,
    {
        proof {
            assert(all.skip(i as int)[0] == all[i as int]);
            assert(all[i as int] == keys@[i as int]@);
            assert(all.skip(i as int).skip(1) =~= all.skip(i + 1));
        }
        let o = compare_fields(&a.column(&keys[i].column), &b.column(&keys[i].column));
        match o {
            Order::Same => {},
            Order::Before => {
                return if keys[i].descending {
                    Order::After
                } else {
                    Order::Before
                };
            },
            Order::After => {
                return if keys[i].descending {
                    Order::Before
                } else {
                    Order::After
                };
            },
        }
        i += 1;
    }
    Order::Same
}

/// `sorted` with `row` put in after every record that it does not come
/// before, and before the first that it comes before.
pub open spec fn placed<T: Columns>(sorted: Seq<T::V>, row: T::V, keys: Seq<SortKeyView>) -> Seq<T::V>
    decreases sorted.len(),
{
    if sorted.len() == 0 {
        seq![row]
    } else if !(row_order::<T>(row, sorted.last(), keys) is Before) {
        sorted.push(row)
    } else {
        placed::<T>(sorted.drop_last(), row, keys).push(sorted.last())
    }
}

/// The records in the order of the keys; records that the keys do not
/// tell apart keep the order of the table.
pub open spec fn ordered<T: Columns>(rows: Seq<T::V>, keys: Seq<SortKeyView>) -> Seq<T::V>
    decreases rows.len(),
{
    if rows.len() == 0 {
        Seq::empty()
    } else {
        placed::<T>(ordered::<T>(rows.drop_last(), keys), rows.last(), keys)
    }
}

/// Placing a record adds just that record.
pub proof fn lemma_placed_keeps<T: Columns>(sorted: Seq<T::V>, row: T::V, keys: Seq<SortKeyView>)
    ensures
        placed::<T>(sorted, row, keys).to_multiset() == sorted.to_multiset().insert(row),
        placed::<T>(sorted, row, keys).len() == sorted.len() + 1,
    decreases sorted.len(),
{
    broadcast use vstd::seq_lib::group_to_multiset_ensures;

    if sorted.len() == 0 {
        assert(seq![row] =~= Seq::<T::V>::empty().push(row));
        assert(sorted =~= Seq::<T::V>::empty());
    } else if row_order::<T>(row, sorted.last(), keys) is Before {
        lemma_placed_keeps::<T>(sorted.drop_last(), row, keys);
        assert(sorted.drop_last().push(sorted.last()) =~= sorted);
    }
}

/// Two byte sequences stand to each other the other way round when they
/// are swapped.
pub proof fn lemma_bytes_order_flips(a: Seq<u8>, b: Seq<u8>)
    ensures
        bytes_order(b, a) == flipped(bytes_order(a, b)),
    decreases a.len(),
{
    if a.len() > 0 && b.len() > 0 && a[0] == b[0] {
        lemma_bytes_order_flips(a.skip(1), b.skip(1));
    }
}

/// Byte sequences that stand the same to each other are equal.
pub proof fn lemma_bytes_order_same(a: Seq<u8>, b: Seq<u8>)
    requires
        bytes_order(a, b) is Same,
    ensures
        a == b,
    decreases a.len(),
{
    if a.len() > 0 {
        lemma_bytes_order_same(a.skip(1), b.skip(1));
        assert(a =~= seq![a[0]] + a.skip(1));
        assert(b =~= seq![b[0]] + b.skip(1));
    } else {
        assert(a =~= b);
    }
}

/// The order of byte sequences is transitive.
pub proof fn lemma_bytes_order_transitive(a: Seq<u8>, b: Seq<u8>, c: Seq<u8>)
    requires
        !(bytes_order(a, b) is After),
        !(bytes_order(b, c) is After),
    ensures
        !(bytes_order(a, c) is After),
    decreases a.len(),
{
    if a.len() > 0 && b.len() > 0 && c.len() > 0 && a[0] == b[0] && b[0] == c[0] {
        lemma_bytes_order_transitive(a.skip(1), b.skip(1), c.skip(1));
    }
}

/// What two columns hold stands the other way round when they are swapped.
pub proof fn lemma_field_order_flips(a: FieldView, b: FieldView)
    ensures
        field_order(b, a) == flipped(field_order(a, b)),
{
    match (a, b) {
        (FieldView::Text(s), FieldView::Text(t)) => {
            lemma_bytes_order_flips(s, t);
        },
        _ => {},
    }
}

/// Columns that hold the same stand the same to every third.
pub proof fn lemma_field_order_same(a: FieldView, b: FieldView)
    requires
        field_order(a, b) is Same,
    ensures
        a == b,
{
    match (a, b) {
        (FieldView::Text(s), FieldView::Text(t)) => {
            lemma_bytes_order_same(s, t);
        },
        _ => {},
    }
}

/// The order of what columns hold is transitive.
pub proof fn lemma_field_order_transitive(a: FieldView, b: FieldView, c: FieldView)
    requires
        !(field_order(a, b) is After),
        !(field_order(b, c) is After),
    ensures
        !(field_order(a, c) is After),
{
    match (a, b, c) {
        (FieldView::Text(s), FieldView::Text(t), FieldView::Text(u)) => {
            lemma_bytes_order_transitive(s, t, u);
        },
        _ => {},
    }
}

/// Two records stand to each other the other way round when they are swapped.
pub proof fn lemma_row_order_flips<T: Columns>(a: T::V, b: T::V, keys: Seq<SortKeyView>)
    ensures
        row_order::<T>(b, a, keys) == flipped(row_order::<T>(a, b, keys)),
    decreases keys.len(),
{
    if keys.len() > 0 {
        lemma_field_order_flips(T::column_of(a, keys[0].column), T::column_of(b, keys[0].column));
        lemma_row_order_flips::<T>(a, b, keys.skip(1));
    }
}

/// The order of records under keys is transitive.
pub proof fn lemma_row_order_transitive<T: Columns>(a: T::V, b: T::V, c: T::V, keys: Seq<SortKeyView>)
    requires
        !(row_order::<T>(a, b, keys) is After),
        !(row_order::<T>(b, c, keys) is After),
    ensures
        !(row_order::<T>(a, c, keys) is After),
    decreases keys.len(),
{
    if keys.len() > 0 {
        let x = T::column_of(a, keys[0].column);
        let y = T::column_of(b, keys[0].column);
        let z = T::column_of(c, keys[0].column);
        if field_order(x, y) is Same {
            lemma_field_order_same(x, y);
            if field_order(y, z) is Same {
                lemma_row_order_transitive::<T>(a, b, c, keys.skip(1));
            }
        } else if field_order(y, z) is Same {
            lemma_field_order_same(y, z);
        } else {
            lemma_field_order_flips(x, y);
            lemma_field_order_flips(y, z);
            lemma_field_order_flips(x, z);
            if keys[0].descending {
                lemma_field_order_transitive(z, y, x);
                if field_order(z, x) is Same {
                    lemma_field_order_same(z, x);
                }
            } else {
                lemma_field_order_transitive(x, y, z);
                if field_order(x, z) is Same {
                    lemma_field_order_same(x, z);
                }
            }
        }
    }
}

/// Whether no record stands after a later one in the order of the keys.
pub open spec fn in_order<T: Columns>(rows: Seq<T::V>, keys: Seq<SortKeyView>) -> bool {
    forall|i: int, j: int| 0 <= i < j < rows.len() ==> !(row_order::<T>(rows[i], rows[j], keys) is After)
}

/// Placing a record into records that are in order keeps them in order.
pub proof fn lemma_placed_in_order<T: Columns>(sorted: Seq<T::V>, row: T::V, keys: Seq<SortKeyView>)
    requires
        in_order::<T>(sorted, keys),
    ensures
        in_order::<T>(placed::<T>(sorted, row, keys), keys),
    decreases sorted.len(),
{
    broadcast use vstd::seq_lib::group_to_multiset_ensures;

    if sorted.len() == 0 {
    } else if !(row_order::<T>(row, sorted.last(), keys) is Before) {
        let out = sorted.push(row);
        let n = sorted.len() as int;
        lemma_row_order_flips::<T>(row, sorted.last(), keys);
        assert forall|i: int, j: int| 0 <= i < j < out.len() implies !(row_order::<T>(
            out[i],
            out[j],
            keys,
        ) is After) by {
            if j == n {
                if i < n - 1 {
                    assert(!(row_order::<T>(sorted[i], sorted[n - 1], keys) is After));
                    lemma_row_order_transitive::<T>(sorted[i], sorted[n - 1], row, keys);
                }
            } else {
                assert(!(row_order::<T>(sorted[i], sorted[j], keys) is After));
            }
        }
    } else {
        let front = sorted.drop_last();
        assert forall|i: int, j: int| 0 <= i < j < front.len() implies !(row_order::<T>(
            front[i],
            front[j],
            keys,
        ) is After) by {
            assert(front[i] == sorted[i] && front[j] == sorted[j]);
            assert(!(row_order::<T>(sorted[i], sorted[j], keys) is After));
        }
        lemma_placed_in_order::<T>(front, row, keys);
        lemma_placed_keeps::<T>(front, row, keys);
        let inner = placed::<T>(front, row, keys);
        let out = inner.push(sorted.last());
        assert forall|i: int, j: int| 0 <= i < j < out.len() implies !(row_order::<T>(
            out[i],
            out[j],
            keys,
        ) is After) by {
            if j == inner.len() {
                assert(inner.to_multiset().count(inner[i]) > 0);
                if inner[i] != row {
                    assert(front.to_multiset().count(inner[i]) > 0);
                    let k = choose|k: int| 0 <= k < front.len() && front[k] == inner[i];
                    assert(sorted[k] == inner[i]);
                    assert(!(row_order::<T>(sorted[k], sorted[sorted.len() - 1], keys) is After));
                }
            } else {
                assert(!(row_order::<T>(inner[i], inner[j], keys) is After));
            }
        }
    }
}

/// Ordering puts the records in the order of the keys, and neither drops
/// nor adds a record.
pub proof fn law_ordered_sorts<T: Columns>(rows: Seq<T::V>, keys: Seq<SortKeyView>)
    ensures
        in_order::<T>(ordered::<T>(rows, keys), keys),
        ordered::<T>(rows, keys).to_multiset() == rows.to_multiset(),
        ordered::<T>(rows, keys).len() == rows.len(),
    decreases rows.len(),
{
    broadcast use vstd::seq_lib::group_to_multiset_ensures;

    if rows.len() == 0 {
        assert(rows =~= Seq::<T::V>::empty());
    } else {
        law_ordered_sorts::<T>(rows.drop_last(), keys);
        lemma_placed_in_order::<T>(ordered::<T>(rows.drop_last(), keys), rows.last(), keys);
        lemma_placed_keeps::<T>(ordered::<T>(rows.drop_last(), keys), rows.last(), keys);
        assert(rows.drop_last().push(rows.last()) =~= rows);
    }
}

/// Puts `row` into a sequence at its place in the order of the keys.
pub fn place<T: Columns>(sorted: &mut Vec<T>, row: T, keys: &Vec<SortKey>)
    requires
        keys_on_columns::<T>(views(keys@)),
    ensures
        views(final(sorted)@) == placed::<T>(views(old(sorted)@), row@, views(keys@)),
{
    let ghost before = views(sorted@);
    let ghost order = views(keys@);
    let mut at: usize = sorted.len();
    proof {
        assert(before.take(at as int) =~= before);
        assert(before.skip(at as int) =~= Seq::<T::V>::empty());
        assert(placed::<T>(before, row@, order) + Seq::<T::V>::empty() =~= placed::<T>(before, row@, order));
    }
    while at > 0 && compare_rows(&row, &sorted[at - 1], keys) == Order::Before
        invariant
            at <= sorted.len(),
            sorted@ == old(sorted)@,
            before == views(sorted@),
            order == views(keys@),
            keys_on_columns::<T>(order),
            placed::<T>(before, row@, order) == placed::<T>(before.take(at as int), row@, order) + before.skip(
                at as int,
            ),
        decreases at,
    {
        proof {
            let part = before.take(at as int);
            assert(part.last() == sorted@[at - 1]@);
            assert(part.drop_last() =~= before.take(at - 1));
            assert(placed::<T>(part.drop_last(), row@, order).push(part.last()) + before.skip(at as int)
                =~= placed::<T>(before.take(at - 1), row@, order) + before.skip(at - 1));
        }
        at -= 1;
    }
    proof {
        let part = before.take(at as int);
        if at > 0 {
            assert(part.last() == sorted@[at - 1]@);
        }
        assert(placed::<T>(part, row@, order) =~= part.push(row@));
    }
    sorted.insert(at, row);
    assert(views(sorted@) =~= before.take(at as int).push(row@) + before.skip(at as int));
}

/// Sorts records in the order of the keys; records that the keys do not
/// tell apart keep their order.
pub fn sort<T: Columns + Record>(rows: &Vec<T>, keys: &Vec<SortKey>) -> (out: Vec<T>)
    requires
        keys_on_columns::<T>(views(keys@)),
    ensures
        views(out@) == ordered::<T>(views(rows@), views(keys@)),
{
    let mut out: Vec<T> = Vec::new();
    let mut i: usize = 0;
    assert(views(out@) =~= Seq::empty());
    while i < rows.len()
        invariant
            i <= rows.len(),
            keys_on_columns::<T>(views(keys@)),
            views(out@) == ordered::<T>(views(rows@).take(i as int), views(keys@)),
        decreases rows.len() - i,
    {
        proof {
            assert(views(rows@).take(i + 1).drop_last() =~= views(rows@).take(i as int));
            assert(views(rows@).take(i + 1).last() == rows@[i as int]@);
        }
        place(&mut out, rows[i].duplicate(), keys);
        i += 1;
    }
    assert(views(rows@).take(i as int) =~= views(rows@));
    out
}

/// `sorted` with `row` put in after every record that is as new or
/// newer, and before the first that is older.
pub open spec fn put_in<T: Timed>(sorted: Seq<T::V>, row: T::V) -> Seq<T::V>
    decreases sorted.len(),
{
    if sorted.len() == 0 {
        seq![row]
    } else if T::time_of(sorted.last()) >= T::time_of(row) {
        sorted.push(row)
    } else {
        put_in::<T>(sorted.drop_last(), row).push(sorted.last())
    }
}

/// The records with the newest first; records of the same time keep the
/// order of the table.
pub open spec fn newest_first<T: Timed>(rows: Seq<T::V>) -> Seq<T::V>
    decreases rows.len(),
{
    if rows.len() == 0 {
        Seq::empty()
    } else {
        put_in::<T>(newest_first::<T>(rows.drop_last()), rows.last())
    }
}

/// Whether no record comes before a newer one.
pub open spec fn descending<T: Timed>(rows: Seq<T::V>) -> bool {
    forall|i: int, j: int| 0 <= i < j < rows.len() ==> T::time_of(rows[i]) >= T::time_of(rows[j])
}

/// Putting a record into a descending sequence keeps it descending and
/// adds just that record.
pub proof fn lemma_put_in<T: Timed>(sorted: Seq<T::V>, row: T::V)
    requires
        descending::<T>(sorted),
    ensures
        descending::<T>(put_in::<T>(sorted, row)),
        put_in::<T>(sorted, row).to_multiset() == sorted.to_multiset().insert(row),
        put_in::<T>(sorted, row).len() == sorted.len() + 1,
    decreases sorted.len(),
{
    broadcast use vstd::seq_lib::group_to_multiset_ensures;

    if sorted.len() == 0 {
        assert(seq![row] =~= Seq::<T::V>::empty().push(row));
        assert(sorted =~= Seq::<T::V>::empty());
    } else if T::time_of(sorted.last()) >= T::time_of(row) {
        let out = sorted.push(row);
        assert forall|i: int, j: int| 0 <= i < j < out.len() implies T::time_of(out[i]) >= T::time_of(
            out[j],
        ) by {
            if j == sorted.len() {
                if i < sorted.len() - 1 {
                    assert(T::time_of(sorted[i]) >= T::time_of(sorted[sorted.len() - 1]));
                }
            }
        }
    } else {
        let front = sorted.drop_last();
        assert forall|i: int, j: int| 0 <= i < j < front.len() implies T::time_of(front[i])
            >= T::time_of(front[j]) by {
            assert(front[i] == sorted[i] && front[j] == sorted[j]);
        }
        lemma_put_in::<T>(front, row);
        let inner = put_in::<T>(front, row);
        let out = inner.push(sorted.last());
        assert(front.push(sorted.last()) =~= sorted);
        assert forall|i: int, j: int| 0 <= i < j < out.len() implies T::time_of(out[i]) >= T::time_of(
            out[j],
        ) by {
            if j == inner.len() {
                // Every record of `inner` is the new one or one of `front`.
                assert(inner.to_multiset().count(inner[i]) > 0);
                if inner[i] != row {
                    assert(front.to_multiset().count(inner[i]) > 0);
                    let k = choose|k: int| 0 <= k < front.len() && front[k] == inner[i];
                    assert(sorted[k] == inner[i]);
                    assert(T::time_of(sorted[k]) >= T::time_of(sorted[sorted.len() - 1]));
                }
            }
        }
    }
}

/// The newest records come first, and sorting neither drops nor adds one.
pub proof fn law_newest_first_sorts<T: Timed>(rows: Seq<T::V>)
    ensures
        descending::<T>(newest_first::<T>(rows)),
        newest_first::<T>(rows).to_multiset() == rows.to_multiset(),
        newest_first::<T>(rows).len() == rows.len(),
    decreases rows.len(),
{
    broadcast use vstd::seq_lib::group_to_multiset_ensures;

    if rows.len() == 0 {
        assert(rows =~= Seq::<T::V>::empty());
    } else {
        law_newest_first_sorts::<T>(rows.drop_last());
        lemma_put_in::<T>(newest_first::<T>(rows.drop_last()), rows.last());
        assert(rows.drop_last().push(rows.last()) =~= rows);
    }
}

/// Puts `row` into a sequence that has the newest first.
pub fn insert_newest<T: Timed>(sorted: &mut Vec<T>, row: T)
    ensures
        views(final(sorted)@) == put_in::<T>(views(old(sorted)@), row@),
{
    let ghost before = views(sorted@);
    let time = row.time();
    let mut at: usize = sorted.len();
    proof {
        assert(before.take(at as int) =~= before);
        assert(before.skip(at as int) =~= Seq::<T::V>::empty());
        assert(put_in::<T>(before, row@) + Seq::<T::V>::empty() =~= put_in::<T>(before, row@));
    }
    while at > 0 && sorted[at - 1].time() < time
        invariant
            at <= sorted.len(),
            sorted@ == old(sorted)@,
            before == views(sorted@),
            time == T::time_of(row@),
            put_in::<T>(before, row@) == put_in::<T>(before.take(at as int), row@) + before.skip(at as int),
        decreases at,
    {
        proof {
            let part = before.take(at as int);
            assert(part.last() == sorted@[at - 1]@);
            assert(part.drop_last() =~= before.take(at - 1));
            assert(put_in::<T>(part.drop_last(), row@).push(part.last()) + before.skip(at as int)
                =~= put_in::<T>(before.take(at - 1), row@) + before.skip(at - 1));
        }
        at -= 1;
    }
    proof {
        let part = before.take(at as int);
        if at > 0 {
            assert(part.last() == sorted@[at - 1]@);
        }
        assert(put_in::<T>(part, row@) =~= part.push(row@));
    }
    sorted.insert(at, row);
    assert(views(sorted@) =~= before.take(at as int).push(row@) + before.skip(at as int));
}

/// Sorts records with the newest first; records of the same time keep
/// their order.
pub fn sort_newest_first<T: Timed + Record>(rows: &Vec<T>) -> (out: Vec<T>)
    ensures
        views(out@) == newest_first::<T>(views(rows@)),
{
    let mut out: Vec<T> = Vec::new();
    let mut i: usize = 0;
    assert(views(out@) =~= Seq::empty());
    while i < rows.len()
        invariant
            i <= rows.len(),
            views(out@) == newest_first::<T>(views(rows@).take(i as int)),
        decreases rows.len() - i,
    {
        proof {
            assert(views(rows@).take(i + 1).drop_last() =~= views(rows@).take(i as int));
            assert(views(rows@).take(i + 1).last() == rows@[i as int]@);
        }
        insert_newest(&mut out, rows[i].duplicate());
        i += 1;
    }
    assert(views(rows@).take(i as int) =~= views(rows@));
    out
}

/// The window of the matches that a search hands out: all of them where
/// `to` is zero, else at most `to` of them after the first `from`.
pub open spec fn window<V>(rows: Seq<V>, from: u32, to: u32) -> Seq<V> {
    if to == 0 {
        rows
    } else if from >= rows.len() {
        Seq::empty()
    } else if from + to >= rows.len() {
        rows.subrange(from as int, rows.len() as int)
    } else {
        rows.subrange(from as int, from + to)
    }
}

/// Cuts the window of a search out of the matches.
pub fn cut<T: Record>(rows: Vec<T>, from: u32, to: u32) -> (out: Vec<T>)
    ensures
        views(out@) == window(views(rows@), from, to),
{
    if to == 0 {
        return rows;
    }
    let mut out: Vec<T> = Vec::new();
    let start = from as usize;
    if start >= rows.len() {
        assert(views(out@) =~= Seq::empty());
        return out;
    }
    let end = if to as usize >= rows.len() - start {
        rows.len()
    } else {
        start + to as usize
    };
    let mut i: usize = start;
    assert(views(out@) =~= views(rows@).subrange(start as int, start as int));
    while i < end
        invariant
            start <= i <= end <= rows.len(),
            views(out@) == views(rows@).subrange(start as int, i as int),
        decreases end - i,
    {
        let ghost done = views(out@);
        out.push(rows[i].duplicate());
        assert(views(out@) =~= done.push(rows@[i as int]@));
        assert(done.push(rows@[i as int]@) =~= views(rows@).subrange(start as int, i + 1));
        i += 1;
    }
    out
}

/// The error of a search that asks for a column, a comparison or a
/// direction that the table does not offer.
pub open spec fn unsupported() -> ServiceErrorView {
    ServiceErrorView::InternalError("unsupported search"@)
}

/// The error of a search that asks for more than the table offers.
pub fn unsupported_search() -> (e: ServiceError)
    ensures
        e@ == unsupported(),
{
    ServiceError::InternalError(String::from_str("unsupported search"))
}

impl Columns for Metadata {
    open spec fn numeric(name: Seq<char>) -> Option<bool> {
        if name == "loose"@ {
            Some(true)
        } else if name == "hash"@ || name == "token_key"@ || name == "data_key"@ || name
            == "meta_contract_id"@ || name == "token_id"@ || name == "alias"@ || name == "cid"@ || name
            == "public_key"@ || name == "version"@ {
            Some(false)
        } else {
            None
        }
    }

    fn kind(name: &String) -> (k: Option<bool>) {
        if is_text(name, "loose") {
            Some(true)
        } else if is_text(name, "hash") || is_text(name, "token_key") || is_text(name, "data_key")
            || is_text(name, "meta_contract_id") || is_text(name, "token_id") || is_text(name, "alias")
            || is_text(name, "cid") || is_text(name, "public_key") || is_text(name, "version") {
            Some(false)
        } else {
            None
        }
    }

    open spec fn column_of(row: MetadataView, name: Seq<char>) -> FieldView {
        if name == "loose"@ {
            FieldView::Number(row.loose as int)
        } else if name == "hash"@ {
            FieldView::Text(encode_utf8(row.hash))
        } else if name == "token_key"@ {
            FieldView::Text(encode_utf8(row.token_key))
        } else if name == "data_key"@ {
            FieldView::Text(encode_utf8(row.data_key))
        } else if name == "meta_contract_id"@ {
            FieldView::Text(encode_utf8(row.meta_contract_id))
        } else if name == "token_id"@ {
            FieldView::Text(encode_utf8(row.token_id))
        } else if name == "alias"@ {
            FieldView::Text(encode_utf8(row.alias))
        } else if name == "cid"@ {
            FieldView::Text(encode_utf8(row.cid))
        } else if name == "public_key"@ {
            FieldView::Text(encode_utf8(row.public_key))
        } else {
            FieldView::Text(encode_utf8(row.version))
        }
    }

    fn column(&self, name: &String) -> (f: Field) {
        if is_text(name, "loose") {
            Field::Number(self.loose as i128)
        } else if is_text(name, "hash") {
            Field::Text(self.hash.clone())
        } else if is_text(name, "token_key") {
            Field::Text(self.token_key.clone())
        } else if is_text(name, "data_key") {
            Field::Text(self.data_key.clone())
        } else if is_text(name, "meta_contract_id") {
            Field::Text(self.meta_contract_id.clone())
        } else if is_text(name, "token_id") {
            Field::Text(self.token_id.clone())
        } else if is_text(name, "alias") {
            Field::Text(self.alias.clone())
        } else if is_text(name, "cid") {
            Field::Text(self.cid.clone())
        } else if is_text(name, "public_key") {
            Field::Text(self.public_key.clone())
        } else {
            Field::Text(self.version.clone())
        }
    }
}

impl Columns for Transaction {
    open spec fn numeric(name: Seq<char>) -> Option<bool> {
        if name == "timestamp"@ || name == "status"@ {
            Some(true)
        } else if name == "hash"@ || name == "method"@ || name == "meta_contract_id"@ || name
            == "data_key"@ || name == "token_key"@ || name == "data"@ || name == "public_key"@ || name
            == "alias"@ || name == "chain_id"@ || name == "token_address"@ || name == "token_id"@ || name
            == "version"@ || name == "mcdata"@ || name == "error_text"@ {
            Some(false)
        } else {
            None
        }
    }

    fn kind(name: &String) -> (k: Option<bool>) {
        if is_text(name, "timestamp") || is_text(name, "status") {
            Some(true)
        } else if is_text(name, "hash") || is_text(name, "method") || is_text(name, "meta_contract_id")
            || is_text(name, "data_key") || is_text(name, "token_key") || is_text(name, "data")
            || is_text(name, "public_key") || is_text(name, "alias") || is_text(name, "chain_id")
            || is_text(name, "token_address") || is_text(name, "token_id") || is_text(name, "version")
            || is_text(name, "mcdata") || is_text(name, "error_text") {
            Some(false)
        } else {
            None
        }
    }

    open spec fn column_of(row: TransactionView, name: Seq<char>) -> FieldView {
        if name == "timestamp"@ {
            FieldView::Number(row.timestamp as int)
        } else if name == "status"@ {
            FieldView::Number(row.status as int)
        } else if name == "hash"@ {
            FieldView::Text(encode_utf8(row.hash))
        } else if name == "method"@ {
            FieldView::Text(encode_utf8(row.method))
        } else if name == "meta_contract_id"@ {
            FieldView::Text(encode_utf8(row.meta_contract_id))
        } else if name == "data_key"@ {
            FieldView::Text(encode_utf8(row.data_key))
        } else if name == "token_key"@ {
            FieldView::Text(encode_utf8(row.token_key))
        } else if name == "data"@ {
            FieldView::Text(encode_utf8(row.data))
        } else if name == "public_key"@ {
            FieldView::Text(encode_utf8(row.public_key))
        } else if name == "alias"@ {
            FieldView::Text(encode_utf8(row.alias))
        } else if name == "chain_id"@ {
            FieldView::Text(encode_utf8(row.chain_id))
        } else if name == "token_address"@ {
            FieldView::Text(encode_utf8(row.token_address))
        } else if name == "token_id"@ {
            FieldView::Text(encode_utf8(row.token_id))
        } else if name == "version"@ {
            FieldView::Text(encode_utf8(row.version))
        } else if name == "mcdata"@ {
            FieldView::Text(encode_utf8(row.mcdata))
        } else {
            FieldView::Text(encode_utf8(row.error_text))
        }
    }

    fn column(&self, name: &String) -> (f: Field) {
        if is_text(name, "timestamp") {
            Field::Number(self.timestamp as i128)
        } else if is_text(name, "status") {
            Field::Number(self.status as i128)
        } else if is_text(name, "hash") {
            Field::Text(self.hash.clone())
        } else if is_text(name, "method") {
            Field::Text(self.method.clone())
        } else if is_text(name, "meta_contract_id") {
            Field::Text(self.meta_contract_id.clone())
        } else if is_text(name, "data_key") {
            Field::Text(self.data_key.clone())
        } else if is_text(name, "token_key") {
            Field::Text(self.token_key.clone())
        } else if is_text(name, "data") {
            Field::Text(self.data.clone())
        } else if is_text(name, "public_key") {
            Field::Text(self.public_key.clone())
        } else if is_text(name, "alias") {
            Field::Text(self.alias.clone())
        } else if is_text(name, "chain_id") {
            Field::Text(self.chain_id.clone())
        } else if is_text(name, "token_address") {
            Field::Text(self.token_address.clone())
        } else if is_text(name, "token_id") {
            Field::Text(self.token_id.clone())
        } else if is_text(name, "version") {
            Field::Text(self.version.clone())
        } else if is_text(name, "mcdata") {
            Field::Text(self.mcdata.clone())
        } else {
            Field::Text(self.error_text.clone())
        }
    }
}

impl Timed for Transaction {
    open spec fn time_of(row: TransactionView) -> u64 {
        row.timestamp
    }

    fn time(&self) -> (t: u64) {
        self.timestamp
    }
}

impl Timed for CronTx {
    open spec fn time_of(row: CronTxView) -> u64 {
        row.timestamp
    }

    fn time(&self) -> (t: u64) {
        self.timestamp
    }
}

/// The conditions of a search for slots, where the table offers every
/// one of them.
pub open spec fn metadata_conditions(query: Seq<MetadataQuery>) -> Option<Seq<ConditionView>> {
    if forall|i: int|
        0 <= i < query.len() ==> condition_of::<Metadata>(
            (#[trigger] query[i]).column@,
            query[i].op@,
            query[i].query@,
        ) is Some {
        Some(
            Seq::new(
                query.len(),
                |i: int| condition_of::<Metadata>(query[i].column@, query[i].op@, query[i].query@)->0,
            ),
        )
    } else {
        None
    }
}

/// The keys of an order of slots, where the table offers every one of them.
pub open spec fn metadata_keys(ordering: Seq<MetadataOrdering>) -> Option<Seq<SortKeyView>> {
    if forall|i: int|
        0 <= i < ordering.len() ==> key_of::<Metadata>((#[trigger] ordering[i]).column@, ordering[i].sort@) is Some {
        Some(Seq::new(ordering.len(), |i: int| key_of::<Metadata>(ordering[i].column@, ordering[i].sort@)->0))
    } else {
        None
    }
}

/// The conditions of a search for transactions, where the table offers
/// every one of them.
pub open spec fn transaction_conditions(query: Seq<TransactionQuery>) -> Option<Seq<ConditionView>> {
    if forall|i: int|
        0 <= i < query.len() ==> condition_of::<Transaction>(
            (#[trigger] query[i]).column@,
            query[i].op@,
            query[i].query@,
        ) is Some {
        Some(
            Seq::new(
                query.len(),
                |i: int| condition_of::<Transaction>(query[i].column@, query[i].op@, query[i].query@)->0,
            ),
        )
    } else {
        None
    }
}

/// The keys of an order of transactions, where the table offers every
/// one of them.
pub open spec fn transaction_keys(ordering: Seq<TransactionOrdering>) -> Option<Seq<SortKeyView>> {
    if forall|i: int|
        0 <= i < ordering.len() ==> key_of::<Transaction>(
            (#[trigger] ordering[i]).column@,
            ordering[i].sort@,
        ) is Some {
        Some(
            Seq::new(ordering.len(), |i: int| key_of::<Transaction>(ordering[i].column@, ordering[i].sort@)->0),
        )
    } else {
        None
    }
}

/// Reads the conditions of a search for slots.
pub fn read_metadata_query(query: &Vec<MetadataQuery>) -> (r: Option<Vec<Condition>>)
    ensures
        match metadata_conditions(query@) {
            Some(c) => r is Some && views(r->0@) == c && on_columns::<Metadata>(c),
            None => r is None,
        },
{
    let mut out: Vec<Condition> = Vec::new();
    let mut i: usize = 0;
    while i < query.len()
        invariant
            i <= query.len(),
            out@.len() == i,
            forall|k: int|
                0 <= k < i ==> condition_of::<Metadata>(
                    (#[trigger] query@[k]).column@,
                    query@[k].op@,
                    query@[k].query@,
                ) == Some(out@[k]@),
        decreases query.len() - i,
    {
        match read_condition::<Metadata>(&query[i].column, &query[i].op, &query[i].query) {
            Some(c) => {
                out.push(c);
            },
            None => {
                return None;
            },
        }
        i += 1;
    }
    proof {
        let want = metadata_conditions(query@)->0;
        assert(views(out@) =~= want);
    }
    Some(out)
}

/// Reads the keys of an order of slots.
pub fn read_metadata_ordering(ordering: &Vec<MetadataOrdering>) -> (r: Option<Vec<SortKey>>)
    ensures
        match metadata_keys(ordering@) {
            Some(k) => r is Some && views(r->0@) == k && keys_on_columns::<Metadata>(k),
            None => r is None,
        },
{
    let mut out: Vec<SortKey> = Vec::new();
    let mut i: usize = 0;
    while i < ordering.len()
        invariant
            i <= ordering.len(),
            out@.len() == i,
            forall|k: int|
                0 <= k < i ==> key_of::<Metadata>((#[trigger] ordering@[k]).column@, ordering@[k].sort@) == Some(
                    out@[k]@,
                ),
        decreases ordering.len() - i,
    {
        match read_key::<Metadata>(&ordering[i].column, &ordering[i].sort) {
            Some(k) => {
                out.push(k);
            },
            None => {
                return None;
            },
        }
        i += 1;
    }
    proof {
        let want = metadata_keys(ordering@)->0;
        assert(views(out@) =~= want);
    }
    Some(out)
}

/// Reads the conditions of a search for transactions.
pub fn read_transaction_query(query: &Vec<TransactionQuery>) -> (r: Option<Vec<Condition>>)
    ensures
        match transaction_conditions(query@) {
            Some(c) => r is Some && views(r->0@) == c && on_columns::<Transaction>(c),
            None => r is None,
        },
{
    let mut out: Vec<Condition> = Vec::new();
    let mut i: usize = 0;
    while i < query.len()
        invariant
            i <= query.len(),
            out@.len() == i,
            forall|k: int|
                0 <= k < i ==> condition_of::<Transaction>(
                    (#[trigger] query@[k]).column@,
                    query@[k].op@,
                    query@[k].query@,
                ) == Some(out@[k]@),
        decreases query.len() - i,
    {
        match read_condition::<Transaction>(&query[i].column, &query[i].op, &query[i].query) {
            Some(c) => {
                out.push(c);
            },
            None => {
                return None;
            },
        }
        i += 1;
    }
    proof {
        let want = transaction_conditions(query@)->0;
        assert(views(out@) =~= want);
    }
    Some(out)
}

/// Reads the keys of an order of transactions.
pub fn read_transaction_ordering(ordering: &Vec<TransactionOrdering>) -> (r: Option<Vec<SortKey>>)
    ensures
        match transaction_keys(ordering@) {
            Some(k) => r is Some && views(r->0@) == k && keys_on_columns::<Transaction>(k),
            None => r is None,
        },
{
    let mut out: Vec<SortKey> = Vec::new();
    let mut i: usize = 0;
    while i < ordering.len()
        invariant
            i <= ordering.len(),
            out@.len() == i,
            forall|k: int|
                0 <= k < i ==> key_of::<Transaction>(
                    (#[trigger] ordering@[k]).column@,
                    ordering@[k].sort@,
                ) == Some(out@[k]@),
        decreases ordering.len() - i,
    {
        match read_key::<Transaction>(&ordering[i].column, &ordering[i].sort) {
            Some(k) => {
                out.push(k);
            },
            None => {
                return None;
            },
        }
        i += 1;
    }
    proof {
        let want = transaction_keys(ordering@)->0;
        assert(views(out@) =~= want);
    }
    Some(out)
}

/// The slots that a search finds: those that meet every condition, in
/// the order of the keys, cut to the window; none where the search asks
/// for what the table does not offer.
pub open spec fn metadatas_found(
    rows: Seq<MetadataView>,
    query: Seq<MetadataQuery>,
    ordering: Seq<MetadataOrdering>,
    from: u32,
    to: u32,
) -> Option<Seq<MetadataView>> {
    match (metadata_conditions(query), metadata_keys(ordering)) {
        (Some(c), Some(k)) => Some(window(ordered::<Metadata>(matching::<Metadata>(rows, c), k), from, to)),
        _ => None,
    }
}

/// The transactions that a search finds: those that meet every
/// condition, in the order of the keys or, without a key, the newest
/// first, cut to the window; none where the search asks for what the
/// table does not offer.
pub open spec fn transactions_found(
    rows: Seq<TransactionView>,
    query: Seq<TransactionQuery>,
    ordering: Seq<TransactionOrdering>,
    from: u32,
    to: u32,
) -> Option<Seq<TransactionView>> {
    match (transaction_conditions(query), transaction_keys(ordering)) {
        (Some(c), Some(k)) => Some(
            window(
                if k.len() == 0 {
                    newest_first::<Transaction>(matching::<Transaction>(rows, c))
                } else {
                    ordered::<Transaction>(matching::<Transaction>(rows, c), k)
                },
                from,
                to,
            ),
        ),
        _ => None,
    }
}

impl Storage {
    /// The slots that meet every condition of `query`, in the order that
    /// `ordering` asks for, cut to the window of `from` and `to`. A search
    /// for a column, a comparison or a direction that the table does not
    /// offer is answered with an error.
    pub fn search_metadatas(
        &self,
        query: Vec<MetadataQuery>,
        ordering: Vec<MetadataOrdering>,
        from: u32,
        to: u32,
    ) -> (r: Result<Vec<Metadata>, ServiceError>)
        ensures
            match metadatas_found(self@.metadatas, query@, ordering@, from, to) {
                Some(rows) => r is Ok && views(r->Ok_0@) == rows,
                None => r is Err && r->Err_0@ == unsupported(),
            },
    {
        let conditions = match read_metadata_query(&query) {
            Some(conditions) => conditions,
            None => {
                return Err(unsupported_search());
            },
        };
        let keys = match read_metadata_ordering(&ordering) {
            Some(keys) => keys,
            None => {
                return Err(unsupported_search());
            },
        };
        Ok(cut(sort(&filter(&self.metadatas, &conditions), &keys), from, to))
    }

    /// The transactions that meet every condition of `query`, in the
    /// order that `ordering` asks for or, without one, the newest first,
    /// cut to the window of `from` and `to`. A search for a column, a
    /// comparison or a direction that the table does not offer is
    /// answered with an error.
    pub fn get_transactions(
        &self,
        query: Vec<TransactionQuery>,
        ordering: Vec<TransactionOrdering>,
        from: u32,
        to: u32,
    ) -> (r: Result<Vec<Transaction>, ServiceError>)
        ensures
            match transactions_found(self@.transactions, query@, ordering@, from, to) {
                Some(rows) => r is Ok && views(r->Ok_0@) == rows,
                None => r is Err && r->Err_0@ == unsupported(),
            },
    {
        let conditions = match read_transaction_query(&query) {
            Some(conditions) => conditions,
            None => {
                return Err(unsupported_search());
            },
        };
        let keys = match read_transaction_ordering(&ordering) {
            Some(keys) => keys,
            None => {
                return Err(unsupported_search());
            },
        };
        let found = filter(&self.transactions, &conditions);
        if keys.len() == 0 {
            Ok(cut(sort_newest_first(&found), from, to))
        } else {
            Ok(cut(sort(&found, &keys), from, to))
        }
    }

    /// All events, the newest first.
    pub fn get_all_cron_txs(&self) -> (r: Result<Vec<CronTx>, ServiceError>)
        ensures
            r is Ok,
            views(r->Ok_0@) == newest_first::<CronTx>(self@.cron_txs),
    {
        Ok(sort_newest_first(&self.cron_txs))
    }
}

} // verus!

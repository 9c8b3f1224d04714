//! Rows of the key table as the store hands them out.

use vstd::prelude::*;
use vstd::string::*;

verus! {

/// One cell of a row of the store.
#[derive(Debug)]
pub enum Cell {
    /// Binary data.
    Binary(Vec<u8>),
    /// A number with a fraction; its value is of no use here.
    Float,
    /// An integer number.
    Integer(i64),
    /// A text.
    Text(String),
    /// No value.
    Null,
}

/// An error of the store: a code, a message, or both.
#[derive(Debug)]
pub struct RowError {
    pub code: Option<i64>,
    pub message: Option<String>,
}

/// The error of a cell that holds no value of the kind that is asked for.
pub fn get_none_error() -> (e: RowError)
    ensures
        e.code is None,
        e.message is Some,
        e.message->0@ == "Value doesn't exist"@,
{
    RowError { code: None, message: Some(String::from_str("Value doesn't exist")) }
}

/// A row of the key table, or the message of the error that stands in its place.
#[derive(Debug)]
pub struct Record {
    pub uuid: i64,
    pub data_key: String,
    pub alias: String,
    pub cid: String,
    pub public_key: String,
    pub enc: String,
    pub err_msg: String,
    pub success: bool,
}

impl Clone for Record {
    fn clone(&self) -> (r: Self)
        ensures
            r == *self,
    {
        Record {
            uuid: self.uuid,
            data_key: self.data_key.clone(),
            alias: self.alias.clone(),
            cid: self.cid.clone(),
            public_key: self.public_key.clone(),
            enc: self.enc.clone(),
            err_msg: self.err_msg.clone(),
            success: self.success,
        }
    }
}

impl Record {
    /// Whether every text of the record is empty and every number zero.
    pub open spec fn is_zero(&self) -> bool {
        &&& self.uuid == 0
        &&& self.data_key@.len() == 0
        &&& self.alias@.len() == 0
        &&& self.cid@.len() == 0
        &&& self.public_key@.len() == 0
        &&& self.enc@.len() == 0
        &&& self.err_msg@.len() == 0
        &&& !self.success
    }
}

impl Default for Record {
    fn default() -> (r: Self)
        ensures
            r.is_zero(),
    {
        Record {
            uuid: 0,
            data_key: String::new(),
            alias: String::new(),
            cid: String::new(),
            public_key: String::new(),
            enc: String::new(),
            err_msg: String::new(),
            success: false,
        }
    }
}
/// The integer in a cell.
pub open spec fn integer_of(cell: Cell) -> Option<i64> {
    match cell {
        Cell::Integer(n) => Some(n),
        _ => None,
    }
}

/// The text in a cell.
pub open spec fn text_in(cell: Cell) -> Option<Seq<char>> {
    match cell {
        Cell::Text(s) => Some(s@),
        _ => None,
    }
}

/// Whether a row can be read as a record: its first cell is an integer,
/// and the second, fourth, fifth and sixth are texts.
pub open spec fn readable(row: Seq<Cell>) -> bool {
    &&& integer_of(row[0]) is Some
    &&& text_in(row[1]) is Some
    &&& text_in(row[3]) is Some
    &&& text_in(row[4]) is Some
    &&& text_in(row[5]) is Some
}

impl Cell {
    /// The integer in the cell, if it holds one.
    pub fn as_integer(&self) -> (n: Option<i64>)
        ensures
            n == integer_of(*self),
    {
        match self {
            Cell::Integer(n) => Some(*n),
            _ => None,
        }
    }

    /// The text in the cell, if it holds one.
    pub fn as_string(&self) -> (s: Option<String>)
        ensures
            crate::json::text_of(s) == text_in(*self),
    {
        match self {
            Cell::Text(s) => Some(s.clone()),
            _ => None,
        }
    }
}

impl Record {
    /// Reads a row of six cells or more: the number, the data key, the
    /// alias, the content, the owner and the scheme. A missing alias reads
    /// as empty; any other cell of another kind is an error.
    pub fn from_row(row: &Vec<Cell>) -> (r: Result<Record, RowError>)
        requires
            row@.len() >= 6,
        ensures
            if readable(row@) {
                &&& r is Ok
                &&& r->Ok_0.uuid == integer_of(row@[0])->0
                &&& r->Ok_0.data_key@ == text_in(row@[1])->0
                &&& r->Ok_0.alias@ == match text_in(row@[2]) {
                    Some(alias) => alias,
                    None => Seq::empty(),
                }
                &&& r->Ok_0.cid@ == text_in(row@[3])->0
                &&& r->Ok_0.public_key@ == text_in(row@[4])->0
                &&& r->Ok_0.enc@ == text_in(row@[5])->0
                &&& r->Ok_0.err_msg@.len() == 0
                &&& r->Ok_0.success
            } else {
                &&& r is Err
                &&& r->Err_0.code is None
                &&& r->Err_0.message is Some
                &&& r->Err_0.message->0@ == "Value doesn't exist"@
            },
    {
        let uuid = match row[0].as_integer() {
            Some(n) => n,
            None => {
                return Err(get_none_error());
            },
        };
        let data_key = match row[1].as_string() {
            Some(s) => s,
            None => {
                return Err(get_none_error());
            },
        };
        let alias = match row[2].as_string() {
            Some(s) => s,
            None => String::new(),
        };
        let cid = match row[3].as_string() {
            Some(s) => s,
            None => {
                return Err(get_none_error());
            },
        };
        let public_key = match row[4].as_string() {
            Some(s) => s,
            None => {
                return Err(get_none_error());
            },
        };
        let enc = match row[5].as_string() {
            Some(s) => s,
            None => {
                return Err(get_none_error());
            },
        };
        Ok(Record { uuid, data_key, alias, cid, public_key, enc, err_msg: String::new(), success: true })
    }

    /// The record in a result, or a record of empty fields with the
    /// message of the error.
    pub fn from_res(res: Result<Record, String>) -> (r: Record)
        ensures
            match res {
                Ok(v) => r == v,
                Err(e) => !r.success && r.err_msg == e && r.uuid == 0 && r.data_key@.len() == 0
                    && r.alias@.len() == 0 && r.cid@.len() == 0 && r.public_key@.len() == 0 && r.enc@.len()
                    == 0,
            },
    {
        match res {
            Ok(v) => v,
            Err(e) => {
                let mut res_data = Record::default();
                res_data.err_msg = e;
                res_data.success = false;
                res_data
            },
        }
    }
}

} // verus!

//! One block of a version chain.

use vstd::prelude::*;
use vstd::string::*;
use crate::json::{compact, json_compact_text, json_quoted_text, quote, text_of};
use crate::text::{decimal, decimal_string};

verus! {

/// A stored unit of content: when it was written, the content as compact
/// JSON, the identifier of the block before it (empty for the first of a
/// chain), and the transaction it came from, as compact JSON.
#[derive(Debug)]
pub struct Block {
    pub timestamp: u64,
    pub content: String,
    pub previous: String,
    pub transaction: String,
}

/// What a block holds, as plain values.
pub struct BlockView {
    pub timestamp: u64,
    pub content: Seq<char>,
    pub previous: Seq<char>,
    pub transaction: Seq<char>,
}

impl View for Block {
    type V = BlockView;

    open spec fn view(&self) -> BlockView {
        BlockView {
            timestamp: self.timestamp,
            content: self.content@,
            previous: self.previous@,
            transaction: self.transaction@,
        }
    }
}

impl Clone for Block {
    fn clone(&self) -> (r: Self)
        ensures
            r == *self,
    {
        Block {
            timestamp: self.timestamp,
            content: self.content.clone(),
            previous: self.previous.clone(),
            transaction: self.transaction.clone(),
        }
    }
}

/// The content of a block made from `raw`: its compact form where it is
/// JSON, else the text itself as a JSON string.
pub open spec fn content_value_spec(parsed: Option<Seq<char>>, raw: Seq<char>) -> Seq<char> {
    match parsed {
        Some(json) => json,
        None => json_quoted_text(raw),
    }
}

/// The block made from content, the identifier of the block before it,
/// and a transaction envelope; none where the envelope is no JSON.
pub open spec fn serialize_spec(
    content: Seq<char>,
    previous_cid: Seq<char>,
    transaction: Seq<char>,
    timestamp: u64,
) -> Option<BlockView> {
    match json_compact_text(transaction) {
        Some(tx) => Some(
            BlockView {
                timestamp,
                content: content_value_spec(json_compact_text(content), content),
                previous: previous_cid,
                transaction: tx,
            },
        ),
        None => None,
    }
}

/// The link to the block before, as it stands in the JSON of a block: the
/// string `"{}"` where there is none, else an object with the identifier
/// under `/`.
pub open spec fn previous_json(previous: Seq<char>) -> Seq<char> {
    if previous.len() == 0 {
        "\"{}\""@
    } else {
        "{\"/\":"@ + json_quoted_text(previous) + "}"@
    }
}

/// The JSON text of a block: compact, its members in alphabetical order.
pub open spec fn block_json(block: BlockView) -> Seq<char> {
    "{\"content\":"@ + block.content + ",\"previous\":"@ + previous_json(block.previous)
        + ",\"timestamp\":"@ + decimal(block.timestamp as nat) + ",\"transaction\":"@
        + block.transaction + "}"@
}

/// Chooses the content of a block, given what parsing `raw` as JSON gave.
pub fn content_value(parsed: Option<String>, raw: &str) -> (content: String)
    ensures
        content@ == content_value_spec(text_of(parsed), raw@),
{
    match parsed {
        Some(json) => json,
        None => quote(raw),
    }
}

/// Puts a block together from its parts, given what parsing the envelope
/// as JSON gave.
pub fn assemble(timestamp: u64, content: String, previous_cid: String, envelope: Option<String>) -> (block:
    Option<Block>)
    ensures
        match envelope {
            Some(tx) => block == Some(
                (Block { timestamp, content, previous: previous_cid, transaction: tx }),
            ),
            None => block is None,
        },
{
    match envelope {
        Some(tx) => Some(Block { timestamp, content, previous: previous_cid, transaction: tx }),
        None => None,
    }
}

/// Makes the block for `content` written at `timestamp` after the block
/// `previous_cid`. Content that is no JSON is kept as a JSON string; an
/// envelope that is no JSON makes no block.
pub fn serialize(content: String, previous_cid: String, transaction: String, timestamp: u64) -> (block:
    Option<Block>)
    ensures
        block is Some == serialize_spec(content@, previous_cid@, transaction@, timestamp) is Some,
        block matches Some(b) ==> Some(b@) == serialize_spec(
            content@,
            previous_cid@,
            transaction@,
            timestamp,
        ),
{
    let value = content_value(compact(content.as_str()), content.as_str());
    assemble(timestamp, value, previous_cid, compact(transaction.as_str()))
}

impl Block {
    /// The JSON text of the block.
    pub fn to_json(&self) -> (json: String)
        ensures
            json@ == block_json(self@),
    {
        let mut json = String::from_str("{\"content\":");
        json.append(self.content.as_str());
        json.append(",\"previous\":");
        if self.previous.as_str().is_empty() {
            json.append("\"{}\"");
        } else {
            json.append("{\"/\":");
            let quoted = quote(self.previous.as_str());
            json.append(quoted.as_str());
            json.append("}");
        }
        json.append(",\"timestamp\":");
        let ts = decimal_string(self.timestamp);
        json.append(ts.as_str());
        json.append(",\"transaction\":");
        json.append(self.transaction.as_str());
        json.append("}");
        assert(json@ =~= block_json(self@));
        json
    }
}

} // verus!

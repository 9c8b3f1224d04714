//! The store of blocks and the chains that their links form.

use vstd::prelude::*;
use vstd::string::*;
use crate::identity::{hash_text, identity_of};
use crate::ipfsdag::block::{block_json, serialize, serialize_spec, Block, BlockView};
use crate::text::{decimal, decimal_string};
use crate::types::ipfs::{IpfsDagGetResult, IpfsDagPutResult};

verus! {

/// The timeout, in seconds, used where the caller names none.
pub const DEFAULT_TIMEOUT_SEC: u64 = 1;

/// A block under its content identifier.
pub struct StoredBlock {
    pub cid: String,
    pub block: Block,
}

/// A block and its content identifier, as plain values.
pub struct StoredBlockView {
    pub cid: Seq<char>,
    pub block: BlockView,
}

impl View for StoredBlock {
    type V = StoredBlockView;

    open spec fn view(&self) -> StoredBlockView {
        StoredBlockView { cid: self.cid@, block: self.block@ }
    }
}

/// The content store: every block ever put, in the order of arrival.
pub struct Dag {
    blocks: Vec<StoredBlock>,
}

/// Why a block was not stored.
#[derive(Debug, Clone, Copy, PartialEq, Eq, Structural)]
pub enum PutError {
    /// The transaction envelope is no JSON.
    InvalidEnvelope,
    /// The block names a block before it that the store does not hold.
    UnknownPrevious,
    /// The block has no usable identifier: it is empty, or taken by a
    /// block of other content.
    IdentifierClash,
}

/// The content identifier of a block: the identity of its JSON text.
pub open spec fn cid_of(block: BlockView) -> Seq<char> {
    identity_of(block_json(block))
}

/// Whether some block is stored under `cid`.
pub open spec fn holds(s: Seq<StoredBlockView>, cid: Seq<char>) -> bool {
    exists|i: int| 0 <= i < s.len() && #[trigger] s[i].cid == cid
}

/// A place where the block under `cid` is stored.
pub open spec fn place(s: Seq<StoredBlockView>, cid: Seq<char>) -> int {
    choose|i: int| 0 <= i < s.len() && #[trigger] s[i].cid == cid
}

/// The block stored under `cid`, if any.
pub open spec fn lookup(s: Seq<StoredBlockView>, cid: Seq<char>) -> Option<BlockView> {
    if holds(s, cid) {
        Some(s[place(s, cid)].block)
    } else {
        None
    }
}

/// The validity of a store: identifiers are not empty, no two blocks
/// share one, and every link leads to a block that arrived earlier.
pub open spec fn well_formed(s: Seq<StoredBlockView>) -> bool {
    &&& forall|i: int| 0 <= i < s.len() ==> (#[trigger] s[i]).cid.len() > 0
    &&& forall|i: int, j: int|
        0 <= i < s.len() && 0 <= j < s.len() && (#[trigger] s[i]).cid == (#[trigger] s[j]).cid ==> i
            == j
    &&& forall|i: int|
        0 <= i < s.len() && (#[trigger] s[i]).block.previous.len() > 0 ==> exists|j: int|
            0 <= j < i && #[trigger] s[j].cid == s[i].block.previous
}

/// The chain that starts at `cid`: the block under it, then the block it
/// names as the one before, and so on, newest first, until a block names
/// none, the store holds none, or `limit` blocks are read.
pub open spec fn history(s: Seq<StoredBlockView>, cid: Seq<char>, limit: nat) -> Seq<BlockView>
    decreases limit,
{
    if limit == 0 || cid.len() == 0 {
        Seq::empty()
    } else {
        match lookup(s, cid) {
            Some(block) => seq![block] + history(s, block.previous, (limit - 1) as nat),
            None => Seq::empty(),
        }
    }
}

/// The whole chain that starts at `cid`.
pub open spec fn chain(s: Seq<StoredBlockView>, cid: Seq<char>) -> Seq<BlockView> {
    history(s, cid, s.len())
}

/// What storing `block` does to the store, and what it answers.
pub open spec fn put_outcome(s: Seq<StoredBlockView>, block: BlockView) -> Result<Seq<char>, PutError> {
    let cid = cid_of(block);
    if block.previous.len() > 0 && !holds(s, block.previous) {
        Err(PutError::UnknownPrevious)
    } else if cid.len() == 0 {
        Err(PutError::IdentifierClash)
    } else if holds(s, cid) && lookup(s, cid) != Some(block) {
        Err(PutError::IdentifierClash)
    } else {
        Ok(cid)
    }
}

/// The store after `block` was put: with the block at its end where it is
/// accepted and new, else as it was.
pub open spec fn with_block(s: Seq<StoredBlockView>, block: BlockView) -> Seq<StoredBlockView> {
    match put_outcome(s, block) {
        Ok(cid) => if holds(s, cid) {
            s
        } else {
            s.push(StoredBlockView { cid, block })
        },
        Err(_) => s,
    }
}

/// What putting content answers: the identifier of the block made from
/// it, or why none was stored.
pub open spec fn put_answer(
    s: Seq<StoredBlockView>,
    content: Seq<char>,
    previous_cid: Seq<char>,
    transaction: Seq<char>,
    timestamp: u64,
) -> Result<Seq<char>, PutError> {
    match serialize_spec(content, previous_cid, transaction, timestamp) {
        None => Err(PutError::InvalidEnvelope),
        Some(block) => put_outcome(s, block),
    }
}

/// The store after content was put.
pub open spec fn with_put(
    s: Seq<StoredBlockView>,
    content: Seq<char>,
    previous_cid: Seq<char>,
    transaction: Seq<char>,
    timestamp: u64,
) -> Seq<StoredBlockView> {
    match serialize_spec(content, previous_cid, transaction, timestamp) {
        None => s,
        Some(block) => with_block(s, block),
    }
}

/// The message of a failed put.
pub open spec fn put_error_text(e: PutError) -> Seq<char> {
    match e {
        PutError::InvalidEnvelope => "transaction envelope is not valid JSON"@,
        PutError::UnknownPrevious => "previous block not found"@,
        PutError::IdentifierClash => "content identifier not usable"@,
    }
}

impl PutError {
    /// The message of the error.
    pub fn to_string(&self) -> (text: String)
        ensures
            text@ == put_error_text(*self),
    {
        match self {
            PutError::InvalidEnvelope => String::from_str("transaction envelope is not valid JSON"),
            PutError::UnknownPrevious => String::from_str("previous block not found"),
            PutError::IdentifierClash => String::from_str("content identifier not usable"),
        }
    }
}

/// In a valid store a block is found at the one place that has its identifier.
pub proof fn lemma_lookup_at(s: Seq<StoredBlockView>, i: int)
    requires
        well_formed(s),
        0 <= i < s.len(),
    ensures
        holds(s, s[i].cid),
        place(s, s[i].cid) == i,
        lookup(s, s[i].cid) == Some(s[i].block),
{
    assert(s[i].cid == s[i].cid);
}

/// A store that grew by a block under a new identifier still finds every
/// block it held, and reads the same chain from every identifier it held.
pub proof fn lemma_history_stable(s: Seq<StoredBlockView>, e: StoredBlockView, cid: Seq<char>, limit: nat)
    requires
        well_formed(s),
        !holds(s, e.cid),
        cid.len() == 0 || holds(s, cid),
    ensures
        history(s.push(e), cid, limit) == history(s, cid, limit),
    decreases limit,
{
    let t = s.push(e);
    if limit == 0 || cid.len() == 0 {
    } else {
        let i = place(s, cid);
        assert(t[i].cid == cid);
        assert(holds(t, cid));
        let k = place(t, cid);
        if k == s.len() {
            assert(e.cid == cid);
            assert(false);
        }
        assert(t[k] == s[k]);
        lemma_lookup_at(s, k);
        lemma_lookup_at(s, i);
        assert(k == i);
        let block = s[i].block;
        assert(lookup(t, cid) == Some(block));
        assert(lookup(s, cid) == Some(block));
        if block.previous.len() > 0 {
            let j = choose|j: int| 0 <= j < i && #[trigger] s[j].cid == s[i].block.previous;
            assert(holds(s, block.previous));
        }
        lemma_history_stable(s, e, block.previous, (limit - 1) as nat);
    }
}

/// A chain is no longer than the place of its first block allows, so
/// reading with a limit of the store's size reads all of it.
pub proof fn lemma_history_bounded(s: Seq<StoredBlockView>, cid: Seq<char>, limit: nat)
    requires
        well_formed(s),
        holds(s, cid),
        limit > place(s, cid),
    ensures
        history(s, cid, limit).len() <= place(s, cid) + 1,
        history(s, cid, limit) == history(s, cid, (place(s, cid) + 1) as nat),
    decreases limit,
{
    let i = place(s, cid);
    lemma_lookup_at(s, i);
    assert(s[i].cid.len() > 0);
    let block = s[i].block;
    if block.previous.len() > 0 {
        let j = choose|j: int| 0 <= j < i && #[trigger] s[j].cid == s[i].block.previous;
        lemma_lookup_at(s, j);
        assert(place(s, block.previous) == j);
        lemma_history_bounded(s, block.previous, (limit - 1) as nat);
        lemma_history_bounded(s, block.previous, i as nat);
    } else {
        assert(history(s, block.previous, (limit - 1) as nat) =~= Seq::empty());
        assert(history(s, block.previous, i as nat) =~= Seq::empty());
    }
}

/// Putting an accepted block keeps the store valid and every block in
/// its place, and leaves the block under its identifier.
pub proof fn lemma_put_keeps(s: Seq<StoredBlockView>, block: BlockView)
    requires
        well_formed(s),
        put_outcome(s, block) is Ok,
    ensures
        well_formed(with_block(s, block)),
        with_block(s, block).len() >= s.len(),
        lookup(with_block(s, block), cid_of(block)) == Some(block),
        forall|c: Seq<char>| holds(s, c) ==> #[trigger] lookup(with_block(s, block), c) == lookup(s, c),
{
    let cid = cid_of(block);
    let t = with_block(s, block);
    if holds(s, cid) {
        assert(t == s);
    } else {
        let e = StoredBlockView { cid, block };
        assert(t == s.push(e));
        let n = s.len() as int;
        assert(t[n] == e);
        assert forall|i: int| 0 <= i < t.len() && (#[trigger] t[i]).block.previous.len() > 0 implies exists|
            j: int,
        | 0 <= j < i && #[trigger] t[j].cid == t[i].block.previous by {
            if i < n {
                let j = choose|j: int| 0 <= j < i && #[trigger] s[j].cid == s[i].block.previous;
                assert(t[j].cid == t[i].block.previous);
            } else {
                let j = place(s, block.previous);
                assert(t[j].cid == t[i].block.previous);
            }
        }
        assert forall|i: int, j: int|
            0 <= i < t.len() && 0 <= j < t.len() && (#[trigger] t[i]).cid == (#[trigger] t[j]).cid implies i
            == j by {
            if i < n && j < n {
                assert(s[i].cid == s[j].cid);
            } else if i < n {
                assert(s[i].cid == cid);
            } else if j < n {
                assert(s[j].cid == cid);
            }
        }
        lemma_lookup_at(t, n);
        assert forall|c: Seq<char>| holds(s, c) implies #[trigger] lookup(t, c) == lookup(s, c) by {
            let i = place(s, c);
            assert(t[i].cid == c);
            lemma_lookup_at(t, i);
            lemma_lookup_at(s, i);
        }
    }
}

/// After an accepted block was put, the chain from its identifier is the
/// block followed by the chain that its link started before.
pub proof fn lemma_put_extends(s: Seq<StoredBlockView>, block: BlockView)
    requires
        well_formed(s),
        put_outcome(s, block) is Ok,
    ensures
        chain(with_block(s, block), cid_of(block)) == seq![block] + chain(s, block.previous),
{
    let cid = cid_of(block);
    let t = with_block(s, block);
    lemma_put_keeps(s, block);
    assert(holds(t, cid));
    let limit = t.len();
    assert(cid.len() > 0);
    assert(history(t, cid, limit) == seq![block] + history(t, block.previous, (limit - 1) as nat));
    if block.previous.len() == 0 {
        assert(history(t, block.previous, (limit - 1) as nat) =~= Seq::<BlockView>::empty());
        assert(history(s, block.previous, s.len()) =~= Seq::<BlockView>::empty());
    } else {
        let j = place(s, block.previous);
        lemma_lookup_at(s, j);
        if holds(s, cid) {
            let i = place(s, cid);
            lemma_lookup_at(s, i);
            assert(s[i].block == block);
            let k = choose|k: int| 0 <= k < i && #[trigger] s[k].cid == s[i].block.previous;
            lemma_lookup_at(s, k);
            assert(k == j);
            lemma_history_bounded(s, block.previous, (limit - 1) as nat);
            lemma_history_bounded(s, block.previous, s.len());
        } else {
            let e = StoredBlockView { cid, block };
            lemma_history_stable(s, e, block.previous, s.len());
        }
    }
}

/// After an accepted block was put, every chain that started at a block
/// of the store is as it was.
pub proof fn lemma_put_preserves(s: Seq<StoredBlockView>, block: BlockView, cid: Seq<char>)
    requires
        well_formed(s),
        put_outcome(s, block) is Ok,
        cid.len() == 0 || holds(s, cid),
    ensures
        chain(with_block(s, block), cid) == chain(s, cid),
{
    let t = with_block(s, block);
    if cid.len() == 0 {
        assert(history(t, cid, t.len()) =~= Seq::<BlockView>::empty());
        assert(history(s, cid, s.len()) =~= Seq::<BlockView>::empty());
    } else if !holds(s, cid_of(block)) {
        let e = StoredBlockView { cid: cid_of(block), block };
        lemma_history_stable(s, e, cid, t.len());
        lemma_history_bounded(s, cid, t.len());
        lemma_history_bounded(s, cid, s.len());
    }
}

/// In the chain from `cid`, every block but the last names the block
/// after it, and the last names none: walking the links from the newest
/// block reaches the oldest in one hop less than the chain has blocks.
pub proof fn law_chain_linked(s: Seq<StoredBlockView>, cid: Seq<char>)
    requires
        well_formed(s),
    ensures
        chain(s, cid).len() > 0 <==> holds(s, cid),
        chain(s, cid).len() > 0 ==> lookup(s, cid) == Some(chain(s, cid)[0]) && chain(s, cid).last().previous.len()
            == 0,
        forall|j: int|
            0 <= j < chain(s, cid).len() - 1 ==> (#[trigger] chain(s, cid)[j]).previous.len() > 0 && lookup(
                s,
                chain(s, cid)[j].previous,
            ) == Some(chain(s, cid)[j + 1]),
{
    if holds(s, cid) {
        lemma_history_linked(s, cid, s.len());
    } else {
        assert(chain(s, cid) =~= Seq::<BlockView>::empty());
    }
}

/// The links of a chain that was read to its end.
pub proof fn lemma_history_linked(s: Seq<StoredBlockView>, cid: Seq<char>, limit: nat)
    requires
        well_formed(s),
        holds(s, cid),
        limit > place(s, cid),
    ensures
        history(s, cid, limit).len() > 0,
        lookup(s, cid) == Some(history(s, cid, limit)[0]),
        history(s, cid, limit).last().previous.len() == 0,
        forall|j: int|
            0 <= j < history(s, cid, limit).len() - 1 ==> (#[trigger] history(s, cid, limit)[j]).previous.len()
                > 0 && lookup(s, history(s, cid, limit)[j].previous) == Some(history(s, cid, limit)[j + 1]),
    decreases limit,
{
    let i = place(s, cid);
    lemma_lookup_at(s, i);
    let block = s[i].block;
    let rest = history(s, block.previous, (limit - 1) as nat);
    let all = history(s, cid, limit);
    assert(all == seq![block] + rest);
    if block.previous.len() > 0 {
        let j = choose|j: int| 0 <= j < i && #[trigger] s[j].cid == s[i].block.previous;
        lemma_lookup_at(s, j);
        lemma_history_linked(s, block.previous, (limit - 1) as nat);
        assert forall|k: int| 0 <= k < all.len() - 1 implies (#[trigger] all[k]).previous.len() > 0
            && lookup(s, all[k].previous) == Some(all[k + 1]) by {
            if k > 0 {
                assert(all[k] == rest[k - 1]);
                assert(all[k + 1] == rest[k]);
            } else {
                assert(all[1] == rest[0]);
            }
        }
        assert(all.last() == rest.last());
    } else {
        assert(rest =~= Seq::<BlockView>::empty());
        assert(all =~= seq![block]);
    }
}

impl Dag {
    /// The blocks of the store, in the order of arrival.
    pub closed spec fn view(&self) -> Seq<StoredBlockView> {
        self.blocks@.map_values(|b: StoredBlock| b@)
    }

    /// The validity of the store.
    pub open spec fn wf(&self) -> bool {
        well_formed(self@)
    }

    /// An empty store.
    pub fn new() -> (dag: Self)
        ensures
            dag.wf(),
            dag@.len() == 0,
    {
        Dag { blocks: Vec::new() }
    }

    /// The number of blocks in the store.
    pub fn len(&self) -> (n: usize)
        ensures
            n == self@.len(),
    {
        self.blocks.len()
    }

    /// The place of the block under `cid`, if the store holds one.
    fn find(&self, cid: &String) -> (r: Option<usize>)
        requires
            self.wf(),
        ensures
            r is Some == holds(self@, cid@),
            r matches Some(i) ==> i < self@.len() && place(self@, cid@) == i && self@[i as int]
                == self.blocks@[i as int]@ && self@[i as int].cid == cid@,
    {
        let mut i: usize = 0;
        while i < self.blocks.len()
            invariant
                i <= self.blocks.len(),
                self.wf(),
                forall|j: int| 0 <= j < i ==> (#[trigger] self@[j]).cid != cid@,
            decreases self.blocks.len() - i,
        {
            assert(self@[i as int] == self.blocks@[i as int]@);
            if self.blocks[i].cid == *cid {
                proof {
                    lemma_lookup_at(self@, i as int);
                }
                return Some(i);
            }
            i += 1;
        }
        None
    }

    /// The block stored under `cid`, if any.
    pub fn get_block(&self, cid: &String) -> (r: Option<Block>)
        requires
            self.wf(),
        ensures
            r is Some == lookup(self@, cid@) is Some,
            r matches Some(b) ==> lookup(self@, cid@) == Some(b@),
    {
        match self.find(cid) {
            Some(i) => Some(self.blocks[i].block.clone()),
            None => None,
        }
    }

    /// Stores `block` under the identifier computed from its content and
    /// returns the identifier. A block that is already there is not stored
    /// again. Refused are a block whose `previous` names no stored block,
    /// and one whose identifier is empty or taken by other content.
    pub fn store(&mut self, block: Block) -> (r: Result<String, PutError>)
        requires
            old(self).wf(),
        ensures
            final(self).wf(),
            final(self)@ == with_block(old(self)@, block@),
            match put_outcome(old(self)@, block@) {
                Ok(cid) => r is Ok && r->Ok_0@ == cid && lookup(final(self)@, cid) == Some(block@),
                Err(e) => r == Err::<String, PutError>(e),
            },
    {
        if !block.previous.as_str().is_empty() {
            if self.find(&block.previous).is_none() {
                return Err(PutError::UnknownPrevious);
            }
        }
        let json = block.to_json();
        let cid = hash_text(json.as_str());
        if cid.as_str().is_empty() {
            return Err(PutError::IdentifierClash);
        }
        match self.find(&cid) {
            Some(i) => {
                let stored = &self.blocks[i].block;
                if stored.timestamp == block.timestamp && stored.content == block.content
                    && stored.previous == block.previous && stored.transaction
                    == block.transaction {
                    Ok(cid)
                } else {
                    Err(PutError::IdentifierClash)
                }
            },
            None => {
                let ghost before = self@;
                self.blocks.push(StoredBlock { cid: cid.clone(), block });
                proof {
                    let after = self@;
                    let entry = StoredBlockView { cid: cid@, block: block@ };
                    assert(after =~= before.push(entry));
                    let n = before.len() as int;
                    assert(after[n].cid == cid@);
                    assert forall|i: int|
                        0 <= i < after.len() && (#[trigger] after[i]).block.previous.len()
                            > 0 implies exists|j: int|
                        0 <= j < i && #[trigger] after[j].cid == after[i].block.previous by {
                        if i < n {
                            let j = choose|j: int|
                                0 <= j < i && #[trigger] before[j].cid == before[i].block.previous;
                            assert(after[j].cid == after[i].block.previous);
                        } else {
                            let j = place(before, block.previous@);
                            assert(after[j].cid == after[i].block.previous);
                        }
                    }
                    assert forall|i: int, j: int|
                        0 <= i < after.len() && 0 <= j < after.len() && (#[trigger] after[i]).cid == (
                        #[trigger] after[j]).cid implies i == j by {
                        if i < n && j < n {
                            assert(before[i].cid == before[j].cid);
                        } else if i < n {
                            assert(before[i].cid == cid@);
                        } else if j < n {
                            assert(before[j].cid == cid@);
                        }
                    }
                    assert(well_formed(after));
                    lemma_lookup_at(after, n);
                }
                Ok(cid)
            },
        }
    }

    /// Makes a block from `content` and the transaction envelope, links it
    /// to the block `previous_cid`, stores it and answers its identifier.
    pub fn put_block(
        &mut self,
        content: String,
        previous_cid: String,
        transaction: String,
        timestamp: u64,
    ) -> (r: IpfsDagPutResult)
        requires
            old(self).wf(),
        ensures
            final(self).wf(),
            final(self)@ == with_put(old(self)@, content@, previous_cid@, transaction@, timestamp),
            match put_answer(old(self)@, content@, previous_cid@, transaction@, timestamp) {
                Ok(cid) => r.success && r.error@.len() == 0 && r.cid@ == cid,
                Err(e) => !r.success && r.cid@.len() == 0 && r.error@ == put_error_text(e),
            },
    {
        match serialize(content, previous_cid, transaction, timestamp) {
            None => IpfsDagPutResult::from(Err(PutError::InvalidEnvelope.to_string())),
            Some(block) => {
                match self.store(block) {
                    Ok(cid) => IpfsDagPutResult::from(Ok(cid)),
                    Err(e) => IpfsDagPutResult::from(Err(e.to_string())),
                }
            },
        }
    }

    /// Stores `content` in a block that starts a chain and carries an empty
    /// envelope, and answers its identifier.
    pub fn put(&mut self, content: String, timestamp: u64) -> (r: IpfsDagPutResult)
        requires
            old(self).wf(),
        ensures
            final(self).wf(),
            final(self)@ == with_put(old(self)@, content@, Seq::empty(), "{}"@, timestamp),
            match put_answer(old(self)@, content@, Seq::empty(), "{}"@, timestamp) {
                Ok(cid) => r.success && r.error@.len() == 0 && r.cid@ == cid,
                Err(e) => !r.success && r.cid@.len() == 0 && r.error@ == put_error_text(e),
            },
    {
        self.put_block(content, String::new(), String::from_str("{}"), timestamp)
    }

    /// Fetches the JSON text of the block under `hash`.
    pub fn get(&self, hash: String) -> (r: IpfsDagGetResult)
        requires
            self.wf(),
        ensures
            match lookup(self@, hash@) {
                Some(block) => r.success && r.error@.len() == 0 && r.block@ == block_json(block),
                None => !r.success && r.block@.len() == 0 && r.error@ == "block not found"@,
            },
    {
        match self.get_block(&hash) {
            Some(block) => IpfsDagGetResult::from(Ok(block.to_json())),
            None => IpfsDagGetResult::from(Err(String::from_str("block not found"))),
        }
    }

    /// Reads the chain that starts at `cid`, newest block first, and stops
    /// after `limit` blocks.
    pub fn read_history(&self, cid: &String, limit: usize) -> (blocks: Vec<Block>)
        requires
            self.wf(),
        ensures
            blocks@.map_values(|b: Block| b@) == history(self@, cid@, limit as nat),
    {
        let mut blocks: Vec<Block> = Vec::new();
        let mut current = cid.clone();
        let mut left: usize = limit;
        while left > 0 && !current.as_str().is_empty()
            invariant
                self.wf(),
                left <= limit,
                history(self@, cid@, limit as nat) == blocks@.map_values(|b: Block| b@) + history(
                    self@,
                    current@,
                    left as nat,
                ),
            decreases left,
        {
            match self.get_block(&current) {
                None => {
                    left = 0;
                },
                Some(block) => {
                    let ghost read = blocks@.map_values(|b: Block| b@);
                    current = block.previous.clone();
                    blocks.push(block);
                    left = left - 1;
                    proof {
                        assert(blocks@.map_values(|b: Block| b@) =~= read.push(block@));
                        assert(read + (seq![block@] + history(self@, current@, left as nat))
                            =~= read.push(block@) + history(self@, current@, left as nat));
                    }
                },
            }
        }
        proof {
            assert(history(self@, current@, left as nat) =~= Seq::<BlockView>::empty());
            assert(blocks@.map_values(|b: Block| b@) + Seq::<BlockView>::empty()
                =~= blocks@.map_values(|b: Block| b@));
        }
        blocks
    }
}

/// The outcome of a command of the host: its exit code, the message of
/// the host where it failed, and what the command wrote.
#[derive(Debug)]
pub struct BinaryResult {
    pub ret_code: i32,
    pub error: String,
    pub stdout: Vec<u8>,
    pub stderr: Vec<u8>,
}

/// What a command gave, as text: its output where it succeeded, the
/// host's message and its error output where it failed, and nothing
/// where the bytes to read are no UTF-8.
pub open spec fn std_of(result: BinaryResult) -> Option<Result<Seq<char>, Seq<char>>> {
    if result.ret_code == 0 {
        if vstd::utf8::valid_utf8(result.stdout@) {
            Some(Ok(vstd::utf8::decode_utf8(result.stdout@)))
        } else {
            None
        }
    } else if vstd::utf8::valid_utf8(result.stderr@) {
        Some(Err("error: "@ + result.error@ + ", stderr: "@ + vstd::utf8::decode_utf8(result.stderr@)))
    } else {
        None
    }
}

/// The texts in an outcome.
pub open spec fn std_text(r: Option<Result<String, String>>) -> Option<Result<Seq<char>, Seq<char>>> {
    match r {
        Some(Ok(s)) => Some(Ok(s@)),
        Some(Err(s)) => Some(Err(s@)),
        None => None,
    }
}

/// Calls `marine_rs_sdk::MountedBinaryResult::into_std`. Trusted: a
/// command that ended with code 0 gives its output, any other the host's
/// message and its error output after `error: ` and `, stderr: `; bytes
/// that are no UTF-8 give nothing.
#[verifier::external_body]
fn into_std(result: BinaryResult) -> (r: Option<Result<String, String>>)
    ensures
        std_text(r) == std_of(result),
{
    let mounted = marine_rs_sdk::MountedBinaryResult {
        ret_code: result.ret_code,
        error: result.error,
        stdout: result.stdout,
        stderr: result.stderr,
    };
    mounted.into_std()
}

/// What the call of a command answers, given what it gave as text.
pub open spec fn unwrapped(std: Option<Result<Seq<char>, Seq<char>>>) -> Result<Seq<char>, Seq<char>> {
    match std {
        Some(Ok(out)) => Ok(out),
        Some(Err(e)) => Err("ipfs cli call failed: "@ + e),
        None => Err("stdout or stderr contains non valid UTF8 string"@),
    }
}

/// The texts in an answer.
pub open spec fn answer_text(r: Result<String, String>) -> Result<Seq<char>, Seq<char>> {
    match r {
        Ok(s) => Ok(s@),
        Err(s) => Err(s@),
    }
}

/// Turns what a command gave as text into the answer of the call.
pub fn unwrap_std(std: Option<Result<String, String>>) -> (r: Result<String, String>)
    ensures
        answer_text(r) == unwrapped(std_text(std)),
{
    match std {
        Some(Ok(out)) => Ok(out),
        Some(Err(e)) => Err(String::from_str("ipfs cli call failed: ").concat(e.as_str())),
        None => Err(String::from_str("stdout or stderr contains non valid UTF8 string")),
    }
}

/// The answer of the call of a command of the content store's client: its
/// output, or why there is none.
pub fn unwrap_mounted_binary_result(result: BinaryResult) -> (r: Result<String, String>)
    ensures
        answer_text(r) == unwrapped(std_of(result)),
{
    unwrap_std(into_std(result))
}

/// The timeout option of the store's command line: the seconds and `s`.
pub fn get_timeout_string(timeout: u64) -> (s: String)
    ensures
        s@ == decimal(timeout as nat) + "s"@,
{
    let mut s = decimal_string(timeout);
    s.append("s");
    s
}

/// The command line of the store's client: `args`, then the timeout and
/// the address of the API.
pub fn make_cmd_args(args: Vec<String>, api_multiaddr: String, timeout_sec: u64) -> (cmd: Vec<String>)
    ensures
        cmd@.len() == args@.len() + 4,
        cmd@.subrange(0, args@.len() as int) == args@,
        cmd@[args@.len() as int]@ == "--timeout"@,
        cmd@[args@.len() as int + 1]@ == decimal(timeout_sec as nat) + "s"@,
        cmd@[args@.len() as int + 2]@ == "--api"@,
        cmd@[args@.len() as int + 3] == api_multiaddr,
{
    let mut cmd = args;
    cmd.push(String::from_str("--timeout"));
    cmd.push(get_timeout_string(timeout_sec));
    cmd.push(String::from_str("--api"));
    cmd.push(api_multiaddr);
    assert(cmd@.subrange(0, args@.len() as int) =~= args@);
    cmd
}

} // verus!

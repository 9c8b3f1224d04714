//! Cron rules: recurring watches on an address, a chain and a topic.

use vstd::prelude::*;
use vstd::string::*;
use crate::identity::{hash_text, identity_of};
use crate::node::defaults::{CRON_STATUS_DISABLE, CRON_STATUS_ENABLE, CRON_TABLE_NAME};
use crate::node::error::ServiceError;
use crate::node::storage_impl::{
    fetch, find, first, invalid_data_format, lemma_first_index, lemma_selected_every, rows_of, select,
    selected, views, Every, RQLiteResult, Record, Row, Selector, Storage, StorageView,
};

verus! {

/// A registered watch and the key that owns it.
#[derive(Debug)]
pub struct Cron {
    pub hash: String,
    pub token_key: String,
    pub address: String,
    pub topic: String,
    pub token_type: String,
    pub chain: String,
    pub status: i64,
    pub meta_contract_id: String,
    pub node_url: String,
    pub public_key: String,
    pub last_processed_block: u64,
}

/// What a record of this kind holds, as plain values.
pub struct CronView {
    pub hash: Seq<char>,
    pub token_key: Seq<char>,
    pub address: Seq<char>,
    pub topic: Seq<char>,
    pub token_type: Seq<char>,
    pub chain: Seq<char>,
    pub status: i64,
    pub meta_contract_id: Seq<char>,
    pub node_url: Seq<char>,
    pub public_key: Seq<char>,
    pub last_processed_block: u64,
}

impl View for Cron {
    type V = CronView;

    open spec fn view(&self) -> CronView {
        CronView {
            hash: self.hash@,
            token_key: self.token_key@,
            address: self.address@,
            topic: self.topic@,
            token_type: self.token_type@,
            chain: self.chain@,
            status: self.status,
            meta_contract_id: self.meta_contract_id@,
            node_url: self.node_url@,
            public_key: self.public_key@,
            last_processed_block: self.last_processed_block,
        }
    }
}

impl Clone for Cron {
    fn clone(&self) -> (r: Self)
        ensures
            r == *self,
    {
        Cron {
            hash: self.hash.clone(),
            token_key: self.token_key.clone(),
            address: self.address.clone(),
            topic: self.topic.clone(),
            token_type: self.token_type.clone(),
            chain: self.chain.clone(),
            status: self.status,
            meta_contract_id: self.meta_contract_id.clone(),
            node_url: self.node_url.clone(),
            public_key: self.public_key.clone(),
            last_processed_block: self.last_processed_block,
        }
    }
}

impl Cron {
    /// Whether every text of the record is empty and every number zero.
    pub open spec fn is_zero(&self) -> bool {
        &&& self.hash@.len() == 0
        &&& self.token_key@.len() == 0
        &&& self.address@.len() == 0
        &&& self.topic@.len() == 0
        &&& self.token_type@.len() == 0
        &&& self.chain@.len() == 0
        &&& self.status == 0
        &&& self.meta_contract_id@.len() == 0
        &&& self.node_url@.len() == 0
        &&& self.public_key@.len() == 0
        &&& self.last_processed_block == 0
    }
}

impl Default for Cron {
    fn default() -> (r: Self)
        ensures
            r.is_zero(),
    {
        Cron {
            hash: String::new(),
            token_key: String::new(),
            address: String::new(),
            topic: String::new(),
            token_type: String::new(),
            chain: String::new(),
            status: 0,
            meta_contract_id: String::new(),
            node_url: String::new(),
            public_key: String::new(),
            last_processed_block: 0,
        }
    }
}
/// A watch as it is handed out.
#[derive(Debug)]
pub struct CronResult {
    pub hash: String,
    pub token_key: String,
    pub address: String,
    pub topic: String,
    pub token_type: String,
    pub chain: String,
    pub status: i64,
    pub meta_contract_id: String,
    pub node_url: String,
    pub public_key: String,
}

/// What a record of this kind holds, as plain values.
pub struct CronResultView {
    pub hash: Seq<char>,
    pub token_key: Seq<char>,
    pub address: Seq<char>,
    pub topic: Seq<char>,
    pub token_type: Seq<char>,
    pub chain: Seq<char>,
    pub status: i64,
    pub meta_contract_id: Seq<char>,
    pub node_url: Seq<char>,
    pub public_key: Seq<char>,
}

impl View for CronResult {
    type V = CronResultView;

    open spec fn view(&self) -> CronResultView {
        CronResultView {
            hash: self.hash@,
            token_key: self.token_key@,
            address: self.address@,
            topic: self.topic@,
            token_type: self.token_type@,
            chain: self.chain@,
            status: self.status,
            meta_contract_id: self.meta_contract_id@,
            node_url: self.node_url@,
            public_key: self.public_key@,
        }
    }
}

/// The rule `c` as it is handed out: without its count of processed blocks.
pub open spec fn handed_out(c: CronView) -> CronResultView {
    CronResultView {
        hash: c.hash,
        token_key: c.token_key,
        address: c.address,
        topic: c.topic,
        token_type: c.token_type,
        chain: c.chain,
        status: c.status,
        meta_contract_id: c.meta_contract_id,
        node_url: c.node_url,
        public_key: c.public_key,
    }
}

impl Clone for CronResult {
    fn clone(&self) -> (r: Self)
        ensures
            r == *self,
    {
        CronResult {
            hash: self.hash.clone(),
            token_key: self.token_key.clone(),
            address: self.address.clone(),
            topic: self.topic.clone(),
            token_type: self.token_type.clone(),
            chain: self.chain.clone(),
            status: self.status,
            meta_contract_id: self.meta_contract_id.clone(),
            node_url: self.node_url.clone(),
            public_key: self.public_key.clone(),
        }
    }
}

impl CronResult {
    /// Whether every text of the record is empty and every number zero.
    pub open spec fn is_zero(&self) -> bool {
        &&& self.hash@.len() == 0
        &&& self.token_key@.len() == 0
        &&& self.address@.len() == 0
        &&& self.topic@.len() == 0
        &&& self.token_type@.len() == 0
        &&& self.chain@.len() == 0
        &&& self.status == 0
        &&& self.meta_contract_id@.len() == 0
        &&& self.node_url@.len() == 0
        &&& self.public_key@.len() == 0
    }
}

impl Default for CronResult {
    fn default() -> (r: Self)
        ensures
            r.is_zero(),
    {
        CronResult {
            hash: String::new(),
            token_key: String::new(),
            address: String::new(),
            topic: String::new(),
            token_type: String::new(),
            chain: String::new(),
            status: 0,
            meta_contract_id: String::new(),
            node_url: String::new(),
            public_key: String::new(),
        }
    }
}
/// The payload of a cron transaction: what to do, and the rule's fields.
#[derive(Debug)]
pub struct SerdeCron {
    pub action: String,
    pub hash: String,
    pub address: String,
    pub topic: String,
    pub token_type: String,
    pub chain: String,
    pub status: i64,
    pub node_url: String,
}

impl Clone for SerdeCron {
    fn clone(&self) -> (r: Self)
        ensures
            r == *self,
    {
        SerdeCron {
            action: self.action.clone(),
            hash: self.hash.clone(),
            address: self.address.clone(),
            topic: self.topic.clone(),
            token_type: self.token_type.clone(),
            chain: self.chain.clone(),
            status: self.status,
            node_url: self.node_url.clone(),
        }
    }
}
impl Cron {
    /// The identity of a rule: of its chain, address and topic, in this order.
    pub open spec fn identity(address: Seq<char>, topic: Seq<char>, chain: Seq<char>) -> Seq<char> {
        identity_of(chain + address + topic)
    }

    /// Computes the identity of a rule.
    pub fn generate_hash(address: String, topic: String, chain: String) -> (hash: String)
        ensures
            hash@ == Self::identity(address@, topic@, chain@),
    {
        let mut preimage = String::new();
        preimage.append(chain.as_str());
        preimage.append(address.as_str());
        preimage.append(topic.as_str());
        assert(preimage@ =~= chain@ + address@ + topic@);
        hash_text(preimage.as_str())
    }

    /// Makes a rule that has processed no block yet, and computes its identity.
    pub fn new(
        token_key: String,
        address: String,
        topic: String,
        token_type: String,
        chain: String,
        status: i64,
        meta_contract_id: String,
        node_url: String,
        public_key: String,
    ) -> (c: Self)
        ensures
            c.hash@ == Self::identity(address@, topic@, chain@),
            c.token_key == token_key,
            c.address == address,
            c.topic == topic,
            c.token_type == token_type,
            c.chain == chain,
            c.status == status,
            c.meta_contract_id == meta_contract_id,
            c.node_url == node_url,
            c.public_key == public_key,
            c.last_processed_block == 0,
    {
        let hash = Self::generate_hash(address.clone(), topic.clone(), chain.clone());
        Self {
            hash,
            token_key,
            address,
            topic,
            token_type,
            chain,
            status,
            meta_contract_id,
            node_url,
            public_key,
            last_processed_block: 0,
        }
    }

    /// The rule as it is handed out.
    pub fn to_result(&self) -> (r: CronResult)
        ensures
            r@ == handed_out(self@),
    {
        CronResult {
            hash: self.hash.clone(),
            token_key: self.token_key.clone(),
            address: self.address.clone(),
            topic: self.topic.clone(),
            token_type: self.token_type.clone(),
            chain: self.chain.clone(),
            status: self.status,
            meta_contract_id: self.meta_contract_id.clone(),
            node_url: self.node_url.clone(),
            public_key: self.public_key.clone(),
        }
    }
}

impl CronView {
    /// Whether the rule watches the given address, chain and topic.
    pub open spec fn watches(self, address: Seq<char>, chain: Seq<char>, topic: Seq<char>) -> bool {
        self.address == address && self.chain == chain && self.topic == topic
    }
}

/// A condition on rules.
pub enum CronKey {
    /// The rules with this hash.
    Hash(String),
    /// The rule that watches this address, chain and topic.
    Triple { address: String, chain: String, topic: String },
    /// The rules of this meta contract.
    MetaContract(String),
    /// The rules in this status.
    Status(i64),
}

/// What a condition of this kind asks for, as plain values.
pub enum CronKeyView {
    Hash(Seq<char>),
    Triple { address: Seq<char>, chain: Seq<char>, topic: Seq<char> },
    MetaContract(Seq<char>),
    Status(i64),
}

impl View for CronKey {
    type V = CronKeyView;

    open spec fn view(&self) -> CronKeyView {
        match self {
            CronKey::Hash(hash) => CronKeyView::Hash(hash@),
            CronKey::Triple { address, chain, topic } => CronKeyView::Triple { address: address@, chain: chain@, topic: topic@ },
            CronKey::MetaContract(meta_contract_id) => CronKeyView::MetaContract(meta_contract_id@),
            CronKey::Status(status) => CronKeyView::Status(*status),
        }
    }
}

impl Selector<Cron> for CronKey {
    open spec fn selects(key: CronKeyView, row: CronView) -> bool {
        match key {
            CronKeyView::Hash(hash) => row.hash == hash,
            CronKeyView::Triple { address, chain, topic } => row.watches(address, chain, topic),
            CronKeyView::MetaContract(meta_contract_id) => row.meta_contract_id == meta_contract_id,
            CronKeyView::Status(status) => row.status == status,
        }
    }

    fn test(&self, row: &Cron) -> (b: bool) {
        match self {
            CronKey::Hash(hash) => { row.hash == *hash },
            CronKey::Triple { address, chain, topic } => { row.address == *address && row.chain == *chain && row.topic == *topic },
            CronKey::MetaContract(meta_contract_id) => { row.meta_contract_id == *meta_contract_id },
            CronKey::Status(status) => { row.status == *status },
        }
    }
}

impl Record for Cron {
    fn duplicate(&self) -> (r: Self) {
        self.clone()
    }
}
/// A change to the rules that a condition selects.
pub enum CronChange {
    /// Another status.
    Status(i64),
    /// Another meta contract and another node.
    Binding { meta_contract_id: String, node_url: String },
}

/// What a change does, as plain values.
pub enum CronChangeView {
    Status(i64),
    Binding { meta_contract_id: Seq<char>, node_url: Seq<char> },
}

impl View for CronChange {
    type V = CronChangeView;

    open spec fn view(&self) -> CronChangeView {
        match self {
            CronChange::Status(status) => CronChangeView::Status(*status),
            CronChange::Binding { meta_contract_id, node_url } => CronChangeView::Binding {
                meta_contract_id: meta_contract_id@,
                node_url: node_url@,
            },
        }
    }
}

/// The rule `c` after `change` was applied to the rules that `key`
/// selects. What a rule watches and who owns it never change.
pub open spec fn changed(c: CronView, key: CronKeyView, change: CronChangeView) -> CronView {
    if CronKey::selects(key, c) {
        match change {
            CronChangeView::Status(status) => CronView { status, ..c },
            CronChangeView::Binding { meta_contract_id, node_url } => CronView {
                meta_contract_id,
                node_url,
                ..c
            },
        }
    } else {
        c
    }
}

/// The condition that selects the rule for an address, a chain and a topic.
pub open spec fn triple_key(address: Seq<char>, chain: Seq<char>, topic: Seq<char>) -> CronKeyView {
    CronKeyView::Triple { address, chain, topic }
}

/// The rule that watches an address, a chain and a topic, if there is one.
pub open spec fn rule_for(rows: Seq<CronView>, address: Seq<char>, chain: Seq<char>, topic: Seq<char>) -> Option<
    CronView,
> {
    first::<Cron, CronKey>(rows, triple_key(address, chain, topic))
}

/// The first rule with the given hash, if there is one.
pub open spec fn rule_of(rows: Seq<CronView>, hash: Seq<char>) -> Option<CronView> {
    first::<Cron, CronKey>(rows, CronKeyView::Hash(hash))
}

impl Storage {
    /// Applies `change` to every rule that `key` selects.
    pub fn change_crons(&mut self, key: &CronKey, change: &CronChange)
        requires
            old(self).wf(),
        ensures
            final(self).wf(),
            final(self)@ == (StorageView {
                crons: old(self)@.crons.map_values(|c: CronView| changed(c, key@, change@)),
                ..old(self)@
            }),
    {
        let ghost before = self@.crons;
        let mut i: usize = 0;
        while i < self.crons.len()
            invariant
                i <= self.crons.len(),
                before == old(self)@.crons,
                self@ == (StorageView { crons: self@.crons, ..old(self)@ }),
                self@.crons.len() == before.len(),
                forall|k: int| 0 <= k < i ==> #[trigger] self@.crons[k] == changed(before[k], key@, change@),
                forall|k: int| i <= k < before.len() ==> #[trigger] self@.crons[k] == before[k],
            decreases self.crons.len() - i,
        {
            let ghost rows = self.crons@;
            assert(self@.crons[i as int] == rows[i as int]@);
            if key.test(&self.crons[i]) {
                match change {
                    CronChange::Status(status) => {
                        self.crons[i].status = *status;
                    },
                    CronChange::Binding { meta_contract_id, node_url } => {
                        self.crons[i].meta_contract_id = meta_contract_id.clone();
                        self.crons[i].node_url = node_url.clone();
                    },
                }
            }
            proof {
                assert(self.crons@.len() == rows.len());
                assert forall|k: int| 0 <= k < rows.len() && k != i implies #[trigger] self@.crons[k]
                    == views(rows)[k] by {
                    assert(self.crons@[k] == rows[k]);
                }
                assert(self@.crons[i as int] == self.crons@[i as int]@);
            }
            i += 1;
        }
        proof {
            let after = self@.crons;
            assert(after =~= before.map_values(|c: CronView| changed(c, key@, change@)));
            assert forall|a: int, b: int|
                #![trigger after[a], after[b]]
                0 <= a < b < after.len() implies !after[a].watches(
                after[b].address,
                after[b].chain,
                after[b].topic,
            ) by {
                assert(!before[a].watches(before[b].address, before[b].chain, before[b].topic));
            }
        }
    }

    /// Records a new rule. A second rule for the same address, chain and
    /// topic is refused and the table stays as it is.
    pub fn write_cron(&mut self, cron: Cron) -> (r: Result<(), ServiceError>)
        requires
            old(self).wf(),
        ensures
            final(self).wf(),
            match rule_for(old(self)@.crons, cron.address@, cron.chain@, cron.topic@) {
                Some(_) => r matches Err(ServiceError::InternalError(s)) && s@
                    == "UNIQUE constraint failed: "@ + CRON_TABLE_NAME@ && final(self)@ == old(
                    self,
                )@,
                None => r is Ok && final(self)@ == (StorageView {
                    crons: old(self)@.crons.push(cron@),
                    ..old(self)@
                }),
            },
    {
        let key = CronKey::Triple {
            address: cron.address.clone(),
            chain: cron.chain.clone(),
            topic: cron.topic.clone(),
        };
        let ghost before = self@.crons;
        proof {
            lemma_first_index::<Cron, CronKey>(before, key@);
        }
        match find(&self.crons, &key) {
            Some(_) => Err(Storage::unique_violation(CRON_TABLE_NAME)),
            None => {
                self.crons.push(cron);
                proof {
                    let after = self@.crons;
                    assert(after =~= before.push(cron@));
                    assert forall|a: int, b: int|
                        #![trigger after[a], after[b]]
                        0 <= a < b < after.len() implies !after[a].watches(
                        after[b].address,
                        after[b].chain,
                        after[b].topic,
                    ) by {
                        if b < before.len() {
                            assert(!before[a].watches(before[b].address, before[b].chain, before[b].topic));
                        } else {
                            assert(!CronKey::selects(key@, before[a]));
                        }
                    }
                }
                Ok(())
            },
        }
    }

    /// Disables every rule of a meta contract.
    pub fn cron_disable(&mut self, meta_contract_id: String) -> (r: Result<(), ServiceError>)
        requires
            old(self).wf(),
        ensures
            final(self).wf(),
            r is Ok,
            final(self)@ == (StorageView {
                crons: old(self)@.crons.map_values(
                    |c: CronView|
                        changed(
                            c,
                            CronKeyView::MetaContract(meta_contract_id@),
                            CronChangeView::Status(CRON_STATUS_DISABLE),
                        ),
                ),
                ..old(self)@
            }),
    {
        self.change_crons(
            &CronKey::MetaContract(meta_contract_id),
            &CronChange::Status(CRON_STATUS_DISABLE),
        );
        Ok(())
    }

    /// Enables every rule of a meta contract.
    pub fn cron_enable(&mut self, meta_contract_id: String) -> (r: Result<(), ServiceError>)
        requires
            old(self).wf(),
        ensures
            final(self).wf(),
            r is Ok,
            final(self)@ == (StorageView {
                crons: old(self)@.crons.map_values(
                    |c: CronView|
                        changed(
                            c,
                            CronKeyView::MetaContract(meta_contract_id@),
                            CronChangeView::Status(CRON_STATUS_ENABLE),
                        ),
                ),
                ..old(self)@
            }),
    {
        self.change_crons(
            &CronKey::MetaContract(meta_contract_id),
            &CronChange::Status(CRON_STATUS_ENABLE),
        );
        Ok(())
    }

    /// Gives the rules with the hash `hash` the meta contract and the node
    /// of `cron`.
    pub fn update_cron(&mut self, hash: String, cron: Cron) -> (r: Result<(), ServiceError>)
        requires
            old(self).wf(),
        ensures
            final(self).wf(),
            r is Ok,
            final(self)@ == (StorageView {
                crons: old(self)@.crons.map_values(
                    |c: CronView|
                        changed(
                            c,
                            CronKeyView::Hash(hash@),
                            (CronChangeView::Binding {
                                meta_contract_id: cron.meta_contract_id@,
                                node_url: cron.node_url@,
                            }),
                        ),
                ),
                ..old(self)@
            }),
    {
        self.change_crons(
            &CronKey::Hash(hash),
            &CronChange::Binding { meta_contract_id: cron.meta_contract_id, node_url: cron.node_url },
        );
        Ok(())
    }

    /// Gives the rules with the hash `hash` another status.
    pub fn update_cron_status(&mut self, hash: String, status: i64) -> (r: Result<(), ServiceError>)
        requires
            old(self).wf(),
        ensures
            final(self).wf(),
            r is Ok,
            final(self)@ == (StorageView {
                crons: old(self)@.crons.map_values(
                    |c: CronView| changed(c, CronKeyView::Hash(hash@), CronChangeView::Status(status)),
                ),
                ..old(self)@
            }),
    {
        self.change_crons(&CronKey::Hash(hash), &CronChange::Status(status));
        Ok(())
    }

    /// The first rule with the given hash.
    pub fn get_cron_by_hash(&self, hash: String) -> (r: Result<Cron, ServiceError>)
        ensures
            match rule_of(self@.crons, hash@) {
                Some(row) => r is Ok && r->Ok_0@ == row,
                None => r matches Err(ServiceError::RecordNotFound(s)) && s@ == "No record found"@,
            },
    {
        fetch(&self.crons, &CronKey::Hash(hash))
    }

    /// The rule that watches the given address, chain and topic.
    pub fn search_cron(&self, address: String, chain: String, topic: String) -> (r: Result<
        Cron,
        ServiceError,
    >)
        ensures
            match rule_for(self@.crons, address@, chain@, topic@) {
                Some(row) => r is Ok && r->Ok_0@ == row,
                None => r matches Err(ServiceError::RecordNotFound(s)) && s@ == "No record found"@,
            },
    {
        fetch(&self.crons, &CronKey::Triple { address, chain, topic })
    }

    /// The first rule of a meta contract.
    pub fn get_cron_by_meta_contract_id(&self, meta_contract_id: String) -> (r: Result<
        Cron,
        ServiceError,
    >)
        ensures
            match first::<Cron, CronKey>(self@.crons, CronKeyView::MetaContract(meta_contract_id@)) {
                Some(row) => r is Ok && r->Ok_0@ == row,
                None => r matches Err(ServiceError::RecordNotFound(s)) && s@ == "No record found"@,
            },
    {
        fetch(&self.crons, &CronKey::MetaContract(meta_contract_id))
    }

    /// The rules that are enabled.
    pub fn get_enabled_crons(&self) -> (r: Result<Vec<Cron>, ServiceError>)
        ensures
            r is Ok,
            views(r->Ok_0@) == selected::<Cron, CronKey>(
                self@.crons,
                CronKeyView::Status(CRON_STATUS_ENABLE),
            ),
    {
        Ok(select(&self.crons, &CronKey::Status(CRON_STATUS_ENABLE)))
    }

    /// All rules.
    pub fn get_all_crons(&self) -> (r: Result<Vec<Cron>, ServiceError>)
        ensures
            r is Ok,
            views(r->Ok_0@) == self@.crons,
    {
        let all = select(&self.crons, &Every);
        proof {
            lemma_selected_every::<Cron>(self@.crons);
        }
        Ok(all)
    }
}

/// The rules of an answer, where every row of it is one.
pub open spec fn read_spec(rows: Seq<Row>) -> Option<Seq<Cron>> {
    if forall|i: int| 0 <= i < rows.len() ==> (#[trigger] rows[i]) is Cron {
        Some(Seq::new(rows.len(), |i: int| rows[i]->Cron_0))
    } else {
        None
    }
}

/// Reads the rules out of an answer of the store. An answer that holds
/// a record of another table is an error.
pub fn read(result: RQLiteResult) -> (r: Result<Vec<Cron>, ServiceError>)
    ensures
        match read_spec(rows_of(result)) {
            Some(rows) => r is Ok && r->Ok_0@ == rows,
            None => r matches Err(ServiceError::InternalError(s)) && s@
                == "Invalid data format: "@ + CRON_TABLE_NAME@,
        },
{
    let mut out: Vec<Cron> = Vec::new();
    match result.rows {
        None => {
            assert(out@ =~= Seq::new(0, |i: int| rows_of(result)[i]->Cron_0));
        },
        Some(rows) => {
            let mut i: usize = 0;
            while i < rows.len()
                invariant
                    i <= rows.len(),
                    rows_of(result) == rows@,
                    out@.len() == i,
                    forall|j: int| 0 <= j < i ==> (#[trigger] rows@[j]) is Cron,
                    forall|j: int| 0 <= j < i ==> out@[j] == (#[trigger] rows@[j])->Cron_0,
                decreases rows.len() - i,
            {
                match &rows[i] {
                    Row::Cron(row) => {
                        out.push(row.clone());
                    },
                    _ => {
                        assert(!(rows@[i as int] is Cron));
                        return Err(invalid_data_format(CRON_TABLE_NAME));
                    },
                }
                i += 1;
            }
            assert(out@ =~= Seq::new(rows@.len(), |i: int| rows@[i]->Cron_0));
        },
    }
    Ok(out)
}

} // verus!

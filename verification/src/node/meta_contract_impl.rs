//! The table of meta-contract bindings.

use vstd::prelude::*;
use vstd::string::*;
use crate::node::error::ServiceError;
use crate::node::storage_impl::{
    fetch, find, first, invalid_data_format, lemma_first_index, rows_of, RQLiteResult, Record, Row,
    Selector, Storage, StorageView,
};
use crate::node::defaults::META_CONTRACT_TABLE_NAME;
use crate::node::meta_contract::{MetaContract, MetaContractView};

verus! {

/// A condition on bindings.
pub enum MetaContractKey {
    /// The binding of this token key.
    TokenKey(String),
    /// The bindings to this meta contract.
    Id(String),
    /// The bindings to this meta contract that this key owns.
    IdAndPk(String, String),
    /// The binding of this token key, if this key owns it.
    Owned { token_key: String, public_key: String },
}

/// What a condition of this kind asks for, as plain values.
pub enum MetaContractKeyView {
    TokenKey(Seq<char>),
    Id(Seq<char>),
    IdAndPk(Seq<char>, Seq<char>),
    Owned { token_key: Seq<char>, public_key: Seq<char> },
}

impl View for MetaContractKey {
    type V = MetaContractKeyView;

    open spec fn view(&self) -> MetaContractKeyView {
        match self {
            MetaContractKey::TokenKey(token_key) => MetaContractKeyView::TokenKey(token_key@),
            MetaContractKey::Id(meta_contract_id) => MetaContractKeyView::Id(meta_contract_id@),
            MetaContractKey::IdAndPk(meta_contract_id, public_key) => MetaContractKeyView::IdAndPk(meta_contract_id@, public_key@),
            MetaContractKey::Owned { token_key, public_key } => MetaContractKeyView::Owned { token_key: token_key@, public_key: public_key@ },
        }
    }
}

impl Selector<MetaContract> for MetaContractKey {
    open spec fn selects(key: MetaContractKeyView, row: MetaContractView) -> bool {
        match key {
            MetaContractKeyView::TokenKey(token_key) => row.token_key == token_key,
            MetaContractKeyView::Id(meta_contract_id) => row.meta_contract_id == meta_contract_id,
            MetaContractKeyView::IdAndPk(meta_contract_id, public_key) => row.meta_contract_id == meta_contract_id && row.public_key == public_key,
            MetaContractKeyView::Owned { token_key, public_key } => row.token_key == token_key && row.public_key == public_key,
        }
    }

    fn test(&self, row: &MetaContract) -> (b: bool) {
        match self {
            MetaContractKey::TokenKey(token_key) => { row.token_key == *token_key },
            MetaContractKey::Id(meta_contract_id) => { row.meta_contract_id == *meta_contract_id },
            MetaContractKey::IdAndPk(meta_contract_id, public_key) => { row.meta_contract_id == *meta_contract_id && row.public_key == *public_key },
            MetaContractKey::Owned { token_key, public_key } => { row.token_key == *token_key && row.public_key == *public_key },
        }
    }
}

impl Record for MetaContract {
    fn duplicate(&self) -> (r: Self) {
        self.clone()
    }
}
/// The binding of a token key, if the table holds one.
pub open spec fn binding_of(rows: Seq<MetaContractView>, token_key: Seq<char>) -> Option<MetaContractView> {
    first::<MetaContract, MetaContractKey>(rows, MetaContractKeyView::TokenKey(token_key))
}

/// The binding `m` after `public_key` bound `token_key` to another meta
/// contract: only the owner's own binding changes, and of it only the
/// meta contract and the identity that follows from it.
pub open spec fn rebound(
    m: MetaContractView,
    token_key: Seq<char>,
    meta_contract_id: Seq<char>,
    public_key: Seq<char>,
) -> MetaContractView {
    if m.token_key == token_key && m.public_key == public_key {
        MetaContractView {
            meta_contract_id,
            hash: MetaContract::identity(token_key, meta_contract_id, public_key),
            ..m
        }
    } else {
        m
    }
}

impl Storage {
    /// Records a new binding. A token key that is already bound is not
    /// bound again: the write is refused and the table stays as it is.
    pub fn write_meta_contract(&mut self, contract: MetaContract) -> (r: Result<(), ServiceError>)
        requires
            old(self).wf(),
        ensures
            final(self).wf(),
            match binding_of(old(self)@.meta_contracts, contract.token_key@) {
                Some(_) => r matches Err(ServiceError::InternalError(s)) && s@
                    == "UNIQUE constraint failed: "@ + META_CONTRACT_TABLE_NAME@ && final(self)@
                    == old(self)@,
                None => r is Ok && final(self)@ == (StorageView {
                    meta_contracts: old(self)@.meta_contracts.push(contract@),
                    ..old(self)@
                }),
            },
    {
        let key = MetaContractKey::TokenKey(contract.token_key.clone());
        let ghost before = self@.meta_contracts;
        proof {
            lemma_first_index::<MetaContract, MetaContractKey>(before, key@);
        }
        match find(&self.meta_contracts, &key) {
            Some(_) => Err(Storage::unique_violation(META_CONTRACT_TABLE_NAME)),
            None => {
                self.meta_contracts.push(contract);
                proof {
                    let after = self@.meta_contracts;
                    assert(after =~= before.push(contract@));
                    assert forall|a: int, b: int|
                        #![trigger after[a], after[b]]
                        0 <= a < b < after.len() implies after[a].token_key != after[b].token_key by {
                        if b < before.len() {
                            assert(before[a].token_key != before[b].token_key);
                        } else {
                            assert(!MetaContractKey::selects(key@, before[a]));
                        }
                    }
                }
                Ok(())
            },
        }
    }

    /// Binds the token key to another meta contract, if `pk` owns the
    /// binding. The token key and the owner stay; the identity follows the
    /// new meta contract. A binding of another owner, or none, is left alone.
    pub fn rebind_meta_contract(&mut self, token_key: String, meta_contract_id: String, pk: String) -> (r:
        Result<(), ServiceError>)
        requires
            old(self).wf(),
        ensures
            final(self).wf(),
            r is Ok,
            final(self)@ == (StorageView {
                meta_contracts: old(self)@.meta_contracts.map_values(
                    |m: MetaContractView| rebound(m, token_key@, meta_contract_id@, pk@),
                ),
                ..old(self)@
            }),
    {
        let key = MetaContractKey::Owned { token_key, public_key: pk };
        let ghost before = self@.meta_contracts;
        proof {
            lemma_first_index::<MetaContract, MetaContractKey>(before, key@);
        }
        match find(&self.meta_contracts, &key) {
            Some(i) => {
                let hash = MetaContract::generate_hash(
                    self.meta_contracts[i].token_key.clone(),
                    meta_contract_id.clone(),
                    self.meta_contracts[i].public_key.clone(),
                );
                self.meta_contracts[i].hash = hash;
                self.meta_contracts[i].meta_contract_id = meta_contract_id;
                proof {
                    let after = self@.meta_contracts;
                    assert forall|k: int| 0 <= k < before.len() implies rebound(
                        #[trigger] before[k],
                        token_key@,
                        meta_contract_id@,
                        pk@,
                    ) == after[k] by {
                        if k < i {
                            assert(before[k].token_key != before[i as int].token_key);
                        } else if k > i {
                            assert(before[i as int].token_key != before[k].token_key);
                        }
                    }
                    assert(after =~= before.map_values(
                        |m: MetaContractView| rebound(m, token_key@, meta_contract_id@, pk@),
                    ));
                    assert forall|a: int, b: int|
                        #![trigger after[a], after[b]]
                        0 <= a < b < after.len() implies after[a].token_key != after[b].token_key by {
                        assert(before[a].token_key != before[b].token_key);
                    }
                }
            },
            None => {
                proof {
                    assert(before =~= before.map_values(
                        |m: MetaContractView| rebound(m, token_key@, meta_contract_id@, pk@),
                    ));
                }
            },
        }
        Ok(())
    }

    /// The binding of a token key.
    pub fn get_meta_contract_by_tokenkey(&self, token_key: String) -> (r: Result<MetaContract, ServiceError>)
        ensures
            match binding_of(self@.meta_contracts, token_key@) {
                Some(row) => r is Ok && r->Ok_0@ == row,
                None => r matches Err(ServiceError::RecordNotFound(s)) && s@ == "No record found"@,
            },
    {
        fetch(&self.meta_contracts, &MetaContractKey::TokenKey(token_key))
    }

    /// The first binding to a meta contract.
    pub fn get_meta_contract_by_id(&self, meta_contract_id: String) -> (r: Result<
        MetaContract,
        ServiceError,
    >)
        ensures
            match first::<MetaContract, MetaContractKey>(
                self@.meta_contracts,
                MetaContractKeyView::Id(meta_contract_id@),
            ) {
                Some(row) => r is Ok && r->Ok_0@ == row,
                None => r matches Err(ServiceError::RecordNotFound(s)) && s@ == "No record found"@,
            },
    {
        fetch(&self.meta_contracts, &MetaContractKey::Id(meta_contract_id))
    }

    /// The first binding to a meta contract that `public_key` owns.
    pub fn get_meta_contract_by_id_and_pk(&self, meta_contract_id: String, public_key: String) -> (r:
        Result<MetaContract, ServiceError>)
        ensures
            match first::<MetaContract, MetaContractKey>(
                self@.meta_contracts,
                MetaContractKeyView::IdAndPk(meta_contract_id@, public_key@),
            ) {
                Some(row) => r is Ok && r->Ok_0@ == row,
                None => r matches Err(ServiceError::RecordNotFound(s)) && s@ == "No record found"@,
            },
    {
        fetch(&self.meta_contracts, &MetaContractKey::IdAndPk(meta_contract_id, public_key))
    }
}

/// The bindings of an answer, where every row of it is one.
pub open spec fn read_spec(rows: Seq<Row>) -> Option<Seq<MetaContract>> {
    if forall|i: int| 0 <= i < rows.len() ==> (#[trigger] rows[i]) is MetaContract {
        Some(Seq::new(rows.len(), |i: int| rows[i]->MetaContract_0))
    } else {
        None
    }
}

/// Reads the bindings out of an answer of the store. An answer that holds
/// a record of another table is an error.
pub fn read(result: RQLiteResult) -> (r: Result<Vec<MetaContract>, ServiceError>)
    ensures
        match read_spec(rows_of(result)) {
            Some(rows) => r is Ok && r->Ok_0@ == rows,
            None => r matches Err(ServiceError::InternalError(s)) && s@
                == "Invalid data format: "@ + META_CONTRACT_TABLE_NAME@,
        },
{
    let mut out: Vec<MetaContract> = Vec::new();
    match result.rows {
        None => {
            assert(out@ =~= Seq::new(0, |i: int| rows_of(result)[i]->MetaContract_0));
        },
        Some(rows) => {
            let mut i: usize = 0;
            while i < rows.len()
                invariant
                    i <= rows.len(),
                    rows_of(result) == rows@,
                    out@.len() == i,
                    forall|j: int| 0 <= j < i ==> (#[trigger] rows@[j]) is MetaContract,
                    forall|j: int| 0 <= j < i ==> out@[j] == (#[trigger] rows@[j])->MetaContract_0,
                decreases rows.len() - i,
            {
                match &rows[i] {
                    Row::MetaContract(row) => {
                        out.push(row.clone());
                    },
                    _ => {
                        assert(!(rows@[i as int] is MetaContract));
                        return Err(invalid_data_format(META_CONTRACT_TABLE_NAME));
                    },
                }
                i += 1;
            }
            assert(out@ =~= Seq::new(rows@.len(), |i: int| rows@[i]->MetaContract_0));
        },
    }
    Ok(out)
}

} // verus!

//! The table of metadata slots.

use vstd::prelude::*;
use vstd::string::*;
use crate::node::error::ServiceError;
use crate::node::storage_impl::{
    fetch, find, first, invalid_data_format, lemma_first_index, rows_of, select, selected, views,
    RQLiteResult, Record, Row, Selector, Storage, StorageView,
};
use crate::node::defaults::METADATAS_TABLE_NAME;
use crate::node::metadatas::{Metadata, MetadataView};

verus! {

/// A condition on slots.
pub enum MetadataKey {
    /// The slot of these five key fields.
    Slot { data_key: String, meta_contract_id: String, public_key: String, alias: String, version: String },
    /// The slots of a data key in a version.
    DataKeyVersion { data_key: String, version: String },
    /// The slots of a token in a version.
    TokenKeyTokenId { token_key: String, token_id: String, version: String },
    /// The slots of an owner and an alias under a data key in a version, whatever the meta contract.
    DataKeyAlias { data_key: String, version: String, public_key: String, alias: String },
}

/// What a condition of this kind asks for, as plain values.
pub enum MetadataKeyView {
    Slot { data_key: Seq<char>, meta_contract_id: Seq<char>, public_key: Seq<char>, alias: Seq<char>, version: Seq<char> },
    DataKeyVersion { data_key: Seq<char>, version: Seq<char> },
    TokenKeyTokenId { token_key: Seq<char>, token_id: Seq<char>, version: Seq<char> },
    DataKeyAlias { data_key: Seq<char>, version: Seq<char>, public_key: Seq<char>, alias: Seq<char> },
}

impl View for MetadataKey {
    type V = MetadataKeyView;

    open spec fn view(&self) -> MetadataKeyView {
        match self {
            MetadataKey::Slot { data_key, meta_contract_id, public_key, alias, version } => MetadataKeyView::Slot { data_key: data_key@, meta_contract_id: meta_contract_id@, public_key: public_key@, alias: alias@, version: version@ },
            MetadataKey::DataKeyVersion { data_key, version } => MetadataKeyView::DataKeyVersion { data_key: data_key@, version: version@ },
            MetadataKey::TokenKeyTokenId { token_key, token_id, version } => MetadataKeyView::TokenKeyTokenId { token_key: token_key@, token_id: token_id@, version: version@ },
            MetadataKey::DataKeyAlias { data_key, version, public_key, alias } => MetadataKeyView::DataKeyAlias { data_key: data_key@, version: version@, public_key: public_key@, alias: alias@ },
        }
    }
}

impl Selector<Metadata> for MetadataKey {
    open spec fn selects(key: MetadataKeyView, row: MetadataView) -> bool {
        match key {
            MetadataKeyView::Slot { data_key, meta_contract_id, public_key, alias, version } => row.in_slot(data_key, meta_contract_id, public_key, alias, version),
            MetadataKeyView::DataKeyVersion { data_key, version } => row.data_key == data_key && row.version == version,
            MetadataKeyView::TokenKeyTokenId { token_key, token_id, version } => row.token_key == token_key && row.token_id == token_id && row.version == version,
            MetadataKeyView::DataKeyAlias { data_key, version, public_key, alias } => row.data_key == data_key && row.version == version && row.public_key == public_key && row.alias == alias,
        }
    }

    fn test(&self, row: &Metadata) -> (b: bool) {
        match self {
            MetadataKey::Slot { data_key, meta_contract_id, public_key, alias, version } => { row.data_key == *data_key && row.meta_contract_id == *meta_contract_id && row.public_key == *public_key && row.alias == *alias && row.version == *version },
            MetadataKey::DataKeyVersion { data_key, version } => { row.data_key == *data_key && row.version == *version },
            MetadataKey::TokenKeyTokenId { token_key, token_id, version } => { row.token_key == *token_key && row.token_id == *token_id && row.version == *version },
            MetadataKey::DataKeyAlias { data_key, version, public_key, alias } => { row.data_key == *data_key && row.version == *version && row.public_key == *public_key && row.alias == *alias },
        }
    }
}

impl Record for Metadata {
    fn duplicate(&self) -> (r: Self) {
        self.clone()
    }
}
/// The condition that selects the slot of the five key fields.
pub open spec fn slot_key(
    data_key: Seq<char>,
    meta_contract_id: Seq<char>,
    public_key: Seq<char>,
    alias: Seq<char>,
    version: Seq<char>,
) -> MetadataKeyView {
    MetadataKeyView::Slot { data_key, meta_contract_id, public_key, alias, version }
}

/// The condition that selects the slot of the record `m`.
pub open spec fn slot_of(m: MetadataView) -> MetadataKeyView {
    slot_key(m.data_key, m.meta_contract_id, m.public_key, m.alias, m.version)
}

/// The slot that `key` selects, if the table holds it.
pub open spec fn slot(rows: Seq<MetadataView>, key: MetadataKeyView) -> Option<MetadataView> {
    first::<Metadata, MetadataKey>(rows, key)
}

/// The record `m` after the slot `key` was pointed to `cid`: only that
/// slot changes, and only its content identifier.
pub open spec fn with_cid(m: MetadataView, key: MetadataKeyView, cid: Seq<char>) -> MetadataView {
    if MetadataKey::selects(key, m) {
        MetadataView { cid, ..m }
    } else {
        m
    }
}

impl Storage {
    /// Records a new slot. A slot that is already there is not written
    /// again: the write is refused and the table stays as it is.
    pub fn write_metadata(&mut self, metadata: Metadata) -> (r: Result<(), ServiceError>)
        requires
            old(self).wf(),
        ensures
            final(self).wf(),
            match slot(old(self)@.metadatas, slot_of(metadata@)) {
                Some(_) => r matches Err(ServiceError::InternalError(s)) && s@
                    == "UNIQUE constraint failed: "@ + METADATAS_TABLE_NAME@ && final(self)@
                    == old(self)@,
                None => r is Ok && final(self)@ == (StorageView {
                    metadatas: old(self)@.metadatas.push(metadata@),
                    ..old(self)@
                }),
            },
    {
        let key = MetadataKey::Slot {
            data_key: metadata.data_key.clone(),
            meta_contract_id: metadata.meta_contract_id.clone(),
            public_key: metadata.public_key.clone(),
            alias: metadata.alias.clone(),
            version: metadata.version.clone(),
        };
        let ghost before = self@.metadatas;
        proof {
            assert(key@ == slot_of(metadata@));
            lemma_first_index::<Metadata, MetadataKey>(before, key@);
        }
        match find(&self.metadatas, &key) {
            Some(_) => Err(Storage::unique_violation(METADATAS_TABLE_NAME)),
            None => {
                self.metadatas.push(metadata);
                proof {
                    let after = self@.metadatas;
                    assert(after =~= before.push(metadata@));
                    assert forall|a: int, b: int|
                        #![trigger after[a], after[b]]
                        0 <= a < b < after.len() implies !after[a].same_slot(after[b]) by {
                        if b < before.len() {
                            assert(!before[a].same_slot(before[b]));
                        } else {
                            assert(!MetadataKey::selects(key@, before[a]));
                        }
                    }
                }
                Ok(())
            },
        }
    }

    /// Points the slot of the five key fields to the content `cid`. Where
    /// there is no such slot nothing changes.
    pub fn update_cid(
        &mut self,
        data_key: String,
        meta_contract_id: String,
        alias: String,
        public_key: String,
        cid: String,
        version: String,
    ) -> (r: Result<(), ServiceError>)
        requires
            old(self).wf(),
        ensures
            final(self).wf(),
            r is Ok,
            final(self)@ == (StorageView {
                metadatas: old(self)@.metadatas.map_values(
                    |m: MetadataView|
                        with_cid(
                            m,
                            slot_key(data_key@, meta_contract_id@, public_key@, alias@, version@),
                            cid@,
                        ),
                ),
                ..old(self)@
            }),
    {
        let key = MetadataKey::Slot { data_key, meta_contract_id, public_key, alias, version };
        let ghost before = self@.metadatas;
        proof {
            lemma_first_index::<Metadata, MetadataKey>(before, key@);
        }
        match find(&self.metadatas, &key) {
            Some(i) => {
                self.metadatas[i].cid = cid;
                proof {
                    let after = self@.metadatas;
                    assert forall|k: int| 0 <= k < before.len() implies with_cid(
                        #[trigger] before[k],
                        key@,
                        cid@,
                    ) == after[k] by {
                        if k < i {
                            assert(!before[k].same_slot(before[i as int]));
                        } else if k > i {
                            assert(!before[i as int].same_slot(before[k]));
                        }
                    }
                    assert(after =~= before.map_values(|m: MetadataView| with_cid(m, key@, cid@)));
                    assert forall|a: int, b: int|
                        #![trigger after[a], after[b]]
                        0 <= a < b < after.len() implies !after[a].same_slot(after[b]) by {
                        assert(!before[a].same_slot(before[b]));
                    }
                }
            },
            None => {
                proof {
                    assert(before =~= before.map_values(|m: MetadataView| with_cid(m, key@, cid@)));
                }
            },
        }
        Ok(())
    }

    /// The slot of the five key fields.
    pub fn get_owner_metadata(
        &self,
        data_key: String,
        meta_contract_id: String,
        public_key: String,
        alias: String,
        version: String,
    ) -> (r: Result<Metadata, ServiceError>)
        ensures
            match slot(
                self@.metadatas,
                slot_key(data_key@, meta_contract_id@, public_key@, alias@, version@),
            ) {
                Some(row) => r is Ok && r->Ok_0@ == row,
                None => r matches Err(ServiceError::RecordNotFound(s)) && s@ == "No record found"@,
            },
    {
        fetch(
            &self.metadatas,
            &MetadataKey::Slot { data_key, meta_contract_id, public_key, alias, version },
        )
    }

    /// The slots of a data key in a version.
    pub fn get_metadata_by_datakey_and_version(&self, data_key: String, version: String) -> (r: Result<
        Vec<Metadata>,
        ServiceError,
    >)
        ensures
            r is Ok,
            views(r->Ok_0@) == selected::<Metadata, MetadataKey>(
                self@.metadatas,
                (MetadataKeyView::DataKeyVersion { data_key: data_key@, version: version@ }),
            ),
    {
        Ok(select(&self.metadatas, &MetadataKey::DataKeyVersion { data_key, version }))
    }

    /// The slots of a token in a version.
    pub fn get_metadata_by_tokenkey_and_tokenid(
        &self,
        token_key: String,
        token_id: String,
        version: String,
    ) -> (r: Result<Vec<Metadata>, ServiceError>)
        ensures
            r is Ok,
            views(r->Ok_0@) == selected::<Metadata, MetadataKey>(
                self@.metadatas,
                (MetadataKeyView::TokenKeyTokenId {
                    token_key: token_key@,
                    token_id: token_id@,
                    version: version@,
                }),
            ),
    {
        Ok(select(&self.metadatas, &MetadataKey::TokenKeyTokenId { token_key, token_id, version }))
    }

    /// The first slot of an owner and an alias under a data key in a
    /// version, whatever its meta contract.
    pub fn get_owner_metadata_by_datakey_and_alias(
        &self,
        data_key: String,
        version: String,
        public_key: String,
        alias: String,
    ) -> (r: Result<Metadata, ServiceError>)
        ensures
            match first::<Metadata, MetadataKey>(
                self@.metadatas,
                (MetadataKeyView::DataKeyAlias {
                    data_key: data_key@,
                    version: version@,
                    public_key: public_key@,
                    alias: alias@,
                }),
            ) {
                Some(row) => r is Ok && r->Ok_0@ == row,
                None => r matches Err(ServiceError::RecordNotFound(s)) && s@ == "No record found"@,
            },
    {
        fetch(&self.metadatas, &MetadataKey::DataKeyAlias { data_key, version, public_key, alias })
    }
}

/// The slots of an answer, where every row of it is one.
pub open spec fn read_spec(rows: Seq<Row>) -> Option<Seq<Metadata>> {
    if forall|i: int| 0 <= i < rows.len() ==> (#[trigger] rows[i]) is Metadata {
        Some(Seq::new(rows.len(), |i: int| rows[i]->Metadata_0))
    } else {
        None
    }
}

/// Reads the slots out of an answer of the store. An answer that holds
/// a record of another table is an error.
pub fn read(result: RQLiteResult) -> (r: Result<Vec<Metadata>, ServiceError>)
    ensures
        match read_spec(rows_of(result)) {
            Some(rows) => r is Ok && r->Ok_0@ == rows,
            None => r matches Err(ServiceError::InternalError(s)) && s@
                == "Invalid data format: "@ + METADATAS_TABLE_NAME@,
        },
{
    let mut out: Vec<Metadata> = Vec::new();
    match result.rows {
        None => {
            assert(out@ =~= Seq::new(0, |i: int| rows_of(result)[i]->Metadata_0));
        },
        Some(rows) => {
            let mut i: usize = 0;
            while i < rows.len()
                invariant
                    i <= rows.len(),
                    rows_of(result) == rows@,
                    out@.len() == i,
                    forall|j: int| 0 <= j < i ==> (#[trigger] rows@[j]) is Metadata,
                    forall|j: int| 0 <= j < i ==> out@[j] == (#[trigger] rows@[j])->Metadata_0,
                decreases rows.len() - i,
            {
                match &rows[i] {
                    Row::Metadata(row) => {
                        out.push(row.clone());
                    },
                    _ => {
                        assert(!(rows@[i as int] is Metadata));
                        return Err(invalid_data_format(METADATAS_TABLE_NAME));
                    },
                }
                i += 1;
            }
            assert(out@ =~= Seq::new(rows@.len(), |i: int| rows@[i]->Metadata_0));
        },
    }
    Ok(out)
}

} // verus!

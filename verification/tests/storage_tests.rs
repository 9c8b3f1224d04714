use fdb::identity::hash_text;
use fdb::node::cron::{Cron, CronChange, CronKey};
use fdb::node::cron_tx::CronTx;
use fdb::node::error::ServiceError;
use fdb::node::meta_contract::MetaContract;
use fdb::node::metadatas::{Metadata, MetadataOrdering, MetadataQuery};
use fdb::node::registry::Registry;
use fdb::node::result::{
    FdbCronTxResult, FdbMetaContractResult, FdbMetadataHistoryResult, FdbMetadataResult, FdbMetadatasResult,
    FdbTransactionReceiptResult, FdbTransactionResult, FdbTransactionsResult,
};
use fdb::node::search::{compare_bytes, cut, parse_integer, sort_newest_first, Order};
use fdb::text::signed_decimal_string;
use fdb::node::storage_impl::{get_storage, request_args, RQLiteResponse, RQLiteResult, Row, Storage};
use fdb::node::transaction::{
    Transaction, TransactionOrdering, TransactionQuery, TransactionReceipt, TransactionSubset,
};
use fdb::node::{
    deserialize_fork, generate_data_key, generate_token_key, get_active_crons, get_all_cron_txs, get_all_crons,
    get_complete_transactions, get_meta_contract, get_meta_contract_by_id, get_metadatas, get_metadatas_by_tokenkey,
    get_pending_transactions, get_transactions, publish_batch, search_cron_tx, search_metadatas, wrapped_try,
    TransactionPayload,
};
use fdb::node::data_types::{DataTypeFork, SerdeDataTypeFork};
use fdb::node::transaction::TransactionRequest;

fn failure<T>() -> Result<T, ServiceError> {
    Err(ServiceError::RecordNotFound("gone".to_string()))
}

fn tx(data: &str, timestamp: u64, status: i64) -> Transaction {
    Transaction::new(
        "mc".to_string(),
        "tk".to_string(),
        "dk".to_string(),
        data.to_string(),
        "pk".to_string(),
        "a".to_string(),
        timestamp,
        "metadata".to_string(),
        "1".to_string(),
        "0xt".to_string(),
        "1".to_string(),
        "v1".to_string(),
        "".to_string(),
        status,
        "".to_string(),
    )
}

fn slot(data_key: &str, owner: &str, cid: &str) -> Metadata {
    Metadata::new(
        data_key.to_string(),
        "tk".to_string(),
        "mc".to_string(),
        "1".to_string(),
        "a".to_string(),
        cid.to_string(),
        owner.to_string(),
        "v1".to_string(),
        1,
    )
}

fn rule(address: &str, owner: &str, mc: &str) -> Cron {
    Cron::new(
        "tk".to_string(),
        address.to_string(),
        "Transfer".to_string(),
        "erc721".to_string(),
        "1".to_string(),
        1,
        mc.to_string(),
        "http://node".to_string(),
        owner.to_string(),
    )
}

fn event(tx_hash: &str, block: u64, timestamp: u64, status: i64) -> CronTx {
    CronTx::new(
        "0xw".to_string(),
        "Transfer".to_string(),
        "erc721".to_string(),
        "1".to_string(),
        "mc".to_string(),
        timestamp,
        block,
        tx_hash.to_string(),
        status,
        "".to_string(),
        "".to_string(),
        "1".to_string(),
        "dk".to_string(),
        "tk".to_string(),
    )
}

#[test]
fn identities_follow_their_field_order() {
    assert_eq!(
        Transaction::generate_hash(
            "1".into(), "2".into(), "3".into(), "4".into(), "5".into(), "6".into(), "7".into(), "8".into(),
            "9".into(), "0".into()
        ),
        hash_text("1234567890")
    );
    assert_eq!(
        Metadata::generate_hash("dk".into(), "mc".into(), "al".into(), "pk".into(), "v".into()),
        hash_text("dkmcalpkv")
    );
    assert_eq!(generate_token_key("chain".into(), "addr".into()), hash_text("chainaddr"));
    assert_eq!(generate_data_key("chain".into(), "addr".into(), "7".into()), hash_text("chainaddr7"));
    assert_eq!(MetaContract::generate_hash("tk".into(), "mc".into(), "pk".into()), hash_text("tkmcpk"));
    // A rule is hashed from its chain, address and topic, in this order.
    assert_eq!(Cron::generate_hash("addr".into(), "topic".into(), "chain".into()), hash_text("chainaddrtopic"));
    assert_eq!(
        CronTx::generate_hash("a".into(), "t".into(), "ty".into(), "c".into(), 42, "h".into(), "id".into()),
        hash_text("attyc42hid")
    );
    // The time and the status are no part of the identity of a transaction.
    assert_eq!(tx("d", 1, 0).hash, tx("d", 2, 1).hash);
    assert_ne!(tx("d", 1, 0).hash, tx("e", 1, 0).hash);
}

#[test]
fn constructors_keep_their_fields() {
    let t = tx("d", 5, 0);
    assert_eq!((t.method.as_str(), t.meta_contract_id.as_str(), t.data_key.as_str()), ("metadata", "mc", "dk"));
    assert_eq!((t.token_key.as_str(), t.data.as_str(), t.public_key.as_str()), ("tk", "d", "pk"));
    assert_eq!((t.timestamp, t.status, t.error_text.as_str()), (5, 0, ""));
    let m = slot("dk", "pk", "cid");
    assert_eq!((m.cid.as_str(), m.token_id.as_str(), m.loose), ("cid", "1", 1));
    let r = Registry::new("id".into(), "name".into(), "mc".into(), "pk".into());
    assert_eq!((r.registry_id.as_str(), r.registry_name.as_str()), ("id", "name"));
    assert_eq!((r.meta_contract_id.as_str(), r.public_key.as_str()), ("mc", "pk"));
    let c = rule("0xw", "pk", "mc");
    assert_eq!(c.last_processed_block, 0);
    assert_eq!(c.to_result().address, "0xw");
    assert_eq!(Transaction::default().hash, "");
    assert_eq!(Metadata::default().loose, 0);
}

#[test]
fn envelope_is_json() {
    let subset = TransactionSubset {
        hash: "h\"1".to_string(),
        timestamp: 12,
        meta_contract_id: "mc".to_string(),
        method: "metadata".to_string(),
        value: "".to_string(),
    };
    assert_eq!(
        subset.to_json(),
        "{\"hash\":\"h\\\"1\",\"timestamp\":12,\"meta_contract_id\":\"mc\",\"method\":\"metadata\",\"value\":\"\"}"
    );
    let parsed: serde_json::Value = serde_json::from_str(&subset.to_json()).unwrap();
    assert_eq!(parsed["hash"].as_str(), Some("h\"1"));
}

#[test]
fn transactions_table() {
    let mut storage = get_storage();
    let one = tx("1", 10, 0);
    let hash = storage.write_transaction(one.clone()).unwrap();
    assert_eq!(hash, one.hash);
    assert!(storage.write_transaction(one.clone()).is_err());
    storage.write_transaction(tx("2", 20, 0)).unwrap();
    storage.write_transaction(tx("3", 30, 1)).unwrap();
    assert_eq!(storage.get_pending_transactions().unwrap().len(), 2);
    assert_eq!(get_pending_transactions(&storage).transactions.len(), 2);
    assert!(matches!(storage.get_transaction("nowhere".into()), Err(ServiceError::RecordNotFound(_))));

    storage.update_transaction_status(hash.clone(), 1).unwrap();
    assert_eq!(storage.get_transaction(hash.clone()).unwrap().status, 1);
    // A transaction that is done keeps its status.
    storage.update_transaction_status(hash.clone(), 0).unwrap();
    assert_eq!(storage.get_transaction(hash.clone()).unwrap().status, 1);
    storage.update_transaction_status("nowhere".into(), 1).unwrap();

    let done = storage.get_complete_transactions(10, 30).unwrap();
    assert_eq!(done.len(), 2);
    assert_eq!(storage.get_complete_transactions(11, 30).unwrap().len(), 1);
    assert_eq!(storage.get_complete_transactions(-5, 10).unwrap().len(), 1);
    assert_eq!(storage.get_complete_transactions(0, -1).unwrap().len(), 0);
    assert_eq!(get_complete_transactions(&storage, 0, 0, 15).transactions.len(), 1);
    assert_eq!(get_complete_transactions(&storage, 0, 100, 15).transactions.len(), 2);
}

#[test]
fn transactions_are_searched_newest_first() {
    let mut storage = Storage::new();
    for (d, t) in [("1", 10), ("2", 30), ("3", 20), ("4", 30)] {
        storage.write_transaction(tx(d, t, 0)).unwrap();
    }
    let all = storage.get_transactions(vec![], vec![], 0, 0).unwrap();
    let data: Vec<&str> = all.iter().map(|t| t.data.as_str()).collect();
    assert_eq!(data, vec!["2", "4", "3", "1"]);
    let window = storage.get_transactions(vec![], vec![], 1, 2).unwrap();
    let data: Vec<&str> = window.iter().map(|t| t.data.as_str()).collect();
    assert_eq!(data, vec!["4", "3"]);
    assert_eq!(storage.get_transactions(vec![], vec![], 3, 5).unwrap().len(), 1);
    assert_eq!(storage.get_transactions(vec![], vec![], 9, 5).unwrap().len(), 0);

    let by = |column: &str, value: &str| TransactionQuery {
        column: column.to_string(),
        query: value.to_string(),
        op: "=".to_string(),
    };
    assert_eq!(storage.get_transactions(vec![by("timestamp", "30")], vec![], 0, 0).unwrap().len(), 2);
    assert_eq!(
        storage.get_transactions(vec![by("timestamp", "30"), by("data", "4")], vec![], 0, 0).unwrap().len(),
        1
    );
    assert_eq!(storage.get_transactions(vec![by("status", "0")], vec![], 0, 0).unwrap().len(), 4);
    let with = |column: &str, op: &str, value: &str| TransactionQuery {
        column: column.to_string(),
        query: value.to_string(),
        op: op.to_string(),
    };
    let data = |rows: Vec<Transaction>| rows.iter().map(|t| t.data.clone()).collect::<Vec<String>>().join("");
    // Numbers are compared by their value, texts by their bytes.
    assert_eq!(data(storage.get_transactions(vec![with("timestamp", ">", "9")], vec![], 0, 0).unwrap()), "2431");
    assert_eq!(data(storage.get_transactions(vec![with("timestamp", ">=", "20")], vec![], 0, 0).unwrap()), "243");
    assert_eq!(data(storage.get_transactions(vec![with("timestamp", "<", "20")], vec![], 0, 0).unwrap()), "1");
    assert_eq!(data(storage.get_transactions(vec![with("timestamp", "<=", "20")], vec![], 0, 0).unwrap()), "31");
    assert_eq!(data(storage.get_transactions(vec![with("timestamp", "!=", "30")], vec![], 0, 0).unwrap()), "31");
    assert_eq!(data(storage.get_transactions(vec![with("timestamp", "<>", "30")], vec![], 0, 0).unwrap()), "31");
    assert_eq!(data(storage.get_transactions(vec![with("status", ">", "-1")], vec![], 0, 0).unwrap()), "2431");
    assert_eq!(data(storage.get_transactions(vec![with("data", ">", "2")], vec![], 0, 0).unwrap()), "43");
    assert_eq!(data(storage.get_transactions(vec![with("data", "<", "10")], vec![], 0, 0).unwrap()), "1");
    // What the table does not offer is an error.
    assert!(storage.get_transactions(vec![by("colour", "red")], vec![], 0, 0).is_err());
    assert!(storage.get_transactions(vec![with("data", "like", "1")], vec![], 0, 0).is_err());
    assert!(storage.get_transactions(vec![with("timestamp", "=", "soon")], vec![], 0, 0).is_err());
    assert!(storage.get_transactions(vec![with("timestamp", "=", "")], vec![], 0, 0).is_err());
    let order = |column: &str, sort: &str| TransactionOrdering { column: column.to_string(), sort: sort.to_string() };
    assert_eq!(data(storage.get_transactions(vec![], vec![order("data", "asc")], 0, 0).unwrap()), "1234");
    assert_eq!(data(storage.get_transactions(vec![], vec![order("data", "DESC")], 0, 0).unwrap()), "4321");
    assert_eq!(data(storage.get_transactions(vec![], vec![order("timestamp", "")], 0, 0).unwrap()), "1324");
    assert_eq!(
        data(storage.get_transactions(vec![], vec![order("timestamp", "desc"), order("data", "desc")], 0, 0).unwrap()),
        "4231"
    );
    assert_eq!(data(storage.get_transactions(vec![], vec![order("timestamp", "ASC")], 1, 2).unwrap()), "32");
    let r = get_transactions(&storage, vec![], vec![order("data", "sideways")], 0, 0);
    assert!(!r.success);
    assert_eq!(r.err_msg, "Internal error: unsupported search");
    assert!(!get_transactions(&storage, vec![], vec![order("colour", "asc")], 0, 0).success);
    assert!(get_transactions(&storage, vec![], vec![], 0, 0).success);
}

#[test]
fn sorting_and_windows() {
    let rows = vec![tx("1", 5, 0), tx("2", 5, 0), tx("3", 9, 0), tx("4", 1, 0)];
    let sorted = sort_newest_first(&rows);
    let data: Vec<&str> = sorted.iter().map(|t| t.data.as_str()).collect();
    assert_eq!(data, vec!["3", "1", "2", "4"]);
    assert_eq!(cut(rows.clone(), 0, 0).len(), 4);
    assert_eq!(cut(rows.clone(), 1, 2)[0].data, "2");
    assert_eq!(cut(rows.clone(), 4, 2).len(), 0);
    assert_eq!(cut(rows, 2, u32::MAX).len(), 2);
    assert_eq!(compare_bytes(b"abc", b"abd"), Order::Before);
    assert_eq!(compare_bytes(b"abc", b"ab"), Order::After);
    assert_eq!(compare_bytes(b"", b""), Order::Same);
    assert_eq!(compare_bytes(b"B", b"a"), Order::Before);
    assert_eq!(parse_integer("0"), Some(0));
    assert_eq!(parse_integer("-17"), Some(-17));
    assert_eq!(parse_integer("007"), Some(7));
    assert_eq!(parse_integer("170141183460469231731687303715884105727"), Some(i128::MAX));
    assert_eq!(parse_integer("170141183460469231731687303715884105728"), None);
    assert_eq!(parse_integer("-170141183460469231731687303715884105727"), Some(-i128::MAX));
    assert_eq!(parse_integer("99999999999999999999999999999999999999999"), None);
    assert_eq!(parse_integer(""), None);
    assert_eq!(parse_integer("-"), None);
    assert_eq!(parse_integer("+1"), None);
    assert_eq!(parse_integer("1 "), None);
    assert_eq!(parse_integer("1.5"), None);
    assert_eq!(signed_decimal_string(-12), "-12");
    assert_eq!(signed_decimal_string(i64::MIN), "-9223372036854775808");
    assert_eq!(signed_decimal_string(0), "0");
}

#[test]
fn receipts_table() {
    let mut storage = Storage::new();
    let receipt = |status: i64, timestamp: u64| TransactionReceipt {
        hash: "h".to_string(),
        meta_contract_id: "mc".to_string(),
        status,
        timestamp,
        error_text: "".to_string(),
        data: "".to_string(),
    };
    assert_eq!(storage.write_transaction_receipt(receipt(2, 1)).unwrap(), "h");
    assert_eq!(storage.get_transaction_receipt("h".into()).unwrap().status, 2);
    // A second receipt takes the place of the first.
    storage.write_transaction_receipt(receipt(1, 2)).unwrap();
    let stored = storage.get_transaction_receipt("h".into()).unwrap();
    assert_eq!((stored.status, stored.timestamp), (1, 2));
    assert!(storage.get_transaction_receipt("x".into()).is_err());
}

#[test]
fn metadatas_table() {
    let mut storage = Storage::new();
    storage.write_metadata(slot("d1", "pk1", "c1")).unwrap();
    storage.write_metadata(slot("d1", "pk2", "c2")).unwrap();
    storage.write_metadata(slot("d2", "pk1", "c3")).unwrap();
    // One slot for the five key fields.
    let refused = storage.write_metadata(slot("d1", "pk1", "other"));
    assert_eq!(refused.unwrap_err().to_string(), "Internal error: UNIQUE constraint failed: metadatas");
    let found = storage
        .get_owner_metadata("d1".into(), "mc".into(), "pk1".into(), "a".into(), "v1".into())
        .unwrap();
    assert_eq!(found.cid, "c1");
    assert!(storage.get_owner_metadata("d1".into(), "mc".into(), "pk3".into(), "a".into(), "v1".into()).is_err());
    assert!(storage.get_owner_metadata("d1".into(), "mc".into(), "pk1".into(), "a".into(), "v2".into()).is_err());

    storage
        .update_cid("d1".into(), "mc".into(), "a".into(), "pk1".into(), "c9".into(), "v1".into())
        .unwrap();
    let all = storage.get_metadata_by_datakey_and_version("d1".into(), "v1".into()).unwrap();
    let cids: Vec<&str> = all.iter().map(|m| m.cid.as_str()).collect();
    assert_eq!(cids, vec!["c9", "c2"]);
    storage
        .update_cid("nowhere".into(), "mc".into(), "a".into(), "pk1".into(), "c0".into(), "v1".into())
        .unwrap();
    assert_eq!(get_metadatas(&storage, "d1".into(), "v1".into()).metadatas.len(), 2);
    assert_eq!(storage.get_metadata_by_tokenkey_and_tokenid("tk".into(), "1".into(), "v1".into()).unwrap().len(), 3);
    assert_eq!(get_metadatas_by_tokenkey(&storage, "tk".into(), "2".into(), "v1".into()).metadatas.len(), 0);
    let first = storage
        .get_owner_metadata_by_datakey_and_alias("d1".into(), "v1".into(), "pk2".into(), "a".into())
        .unwrap();
    assert_eq!(first.cid, "c2");

    let by = |column: &str, value: &str| MetadataQuery {
        column: column.to_string(),
        query: value.to_string(),
        op: "=".to_string(),
    };
    assert_eq!(storage.search_metadatas(vec![by("public_key", "pk1")], vec![], 0, 0).unwrap().len(), 2);
    assert_eq!(storage.search_metadatas(vec![by("loose", "1")], vec![], 1, 1).unwrap()[0].cid, "c2");
    assert_eq!(
        storage.search_metadatas(vec![by("public_key", "pk1"), by("data_key", "d2")], vec![], 0, 0).unwrap()[0].cid,
        "c3"
    );
    let order = MetadataOrdering { column: "cid".into(), sort: "desc".into() };
    let sorted = storage.search_metadatas(vec![], vec![order], 0, 0).unwrap();
    let cids: Vec<&str> = sorted.iter().map(|m| m.cid.as_str()).collect();
    assert_eq!(cids, vec!["c9", "c3", "c2"]);
    let order = MetadataOrdering { column: "cid".into(), sort: "up".into() };
    assert!(storage.search_metadatas(vec![], vec![order], 0, 0).is_err());
    let above = MetadataQuery { column: "cid".into(), query: "c2".into(), op: ">".into() };
    assert_eq!(storage.search_metadatas(vec![above], vec![], 0, 0).unwrap().len(), 2);
    let odd = MetadataQuery { column: "loose".into(), query: "one".into(), op: "=".into() };
    assert!(storage.search_metadatas(vec![odd], vec![], 0, 0).is_err());
    let r = search_metadatas(&storage, vec![by("cid", "c9")], vec![], 0, 0);
    assert!(r.success);
    assert_eq!(r.metadatas.len(), 1);
}

#[test]
fn meta_contracts_table() {
    let mut storage = Storage::new();
    storage.write_meta_contract(MetaContract::new("tk".into(), "mc1".into(), "pk1".into(), "".into())).unwrap();
    assert!(storage.write_meta_contract(MetaContract::new("tk".into(), "mc2".into(), "pk2".into(), "".into())).is_err());
    storage.write_meta_contract(MetaContract::new("tk2".into(), "mc1".into(), "pk2".into(), "".into())).unwrap();
    assert_eq!(storage.get_meta_contract_by_tokenkey("tk".into()).unwrap().public_key, "pk1");
    assert_eq!(storage.get_meta_contract_by_id("mc1".into()).unwrap().token_key, "tk");
    assert_eq!(storage.get_meta_contract_by_id_and_pk("mc1".into(), "pk2".into()).unwrap().token_key, "tk2");
    assert!(storage.get_meta_contract_by_id_and_pk("mc1".into(), "pk3".into()).is_err());
    // Another key does not rebind.
    storage.rebind_meta_contract("tk".into(), "mc9".into(), "pk2".into()).unwrap();
    assert_eq!(storage.get_meta_contract_by_tokenkey("tk".into()).unwrap().meta_contract_id, "mc1");
    storage.rebind_meta_contract("tk".into(), "mc9".into(), "pk1".into()).unwrap();
    let rebound = storage.get_meta_contract_by_tokenkey("tk".into()).unwrap();
    assert_eq!(rebound.meta_contract_id, "mc9");
    assert_eq!(rebound.hash, MetaContract::generate_hash("tk".into(), "mc9".into(), "pk1".into()));
    assert!(get_meta_contract(&storage, "tk".into()).success);
    assert!(!get_meta_contract(&storage, "tk3".into()).success);
    assert_eq!(get_meta_contract_by_id(&storage, "mc9".into()).meta.token_key, "tk");
}

#[test]
fn crons_table() {
    let mut storage = Storage::new();
    storage.write_cron(rule("0xa", "pk1", "mc1")).unwrap();
    storage.write_cron(rule("0xb", "pk2", "mc1")).unwrap();
    storage.write_cron(rule("0xc", "pk2", "mc2")).unwrap();
    let refused = storage.write_cron(rule("0xa", "pk9", "mc9"));
    assert_eq!(refused.unwrap_err().to_string(), "Internal error: UNIQUE constraint failed: cron");
    assert_eq!(storage.get_all_crons().unwrap().len(), 3);

    storage.cron_disable("mc1".into()).unwrap();
    let enabled = storage.get_enabled_crons().unwrap();
    assert_eq!(enabled.len(), 1);
    assert_eq!(enabled[0].address, "0xc");
    assert_eq!(get_active_crons(&storage).crons.len(), 1);
    assert_eq!(get_all_crons(&storage).crons[0].status, 0);
    storage.cron_enable("mc1".into()).unwrap();
    assert_eq!(storage.get_enabled_crons().unwrap().len(), 3);

    let a = storage.search_cron("0xa".into(), "1".into(), "Transfer".into()).unwrap();
    assert!(storage.search_cron("0xa".into(), "2".into(), "Transfer".into()).is_err());
    assert_eq!(storage.get_cron_by_hash(a.hash.clone()).unwrap().address, "0xa");
    assert_eq!(storage.get_cron_by_meta_contract_id("mc2".into()).unwrap().address, "0xc");
    let mut with = rule("0xz", "pkz", "mc5");
    with.node_url = "http://new".to_string();
    storage.update_cron(a.hash.clone(), with).unwrap();
    let changed = storage.get_cron_by_hash(a.hash.clone()).unwrap();
    assert_eq!((changed.meta_contract_id.as_str(), changed.node_url.as_str()), ("mc5", "http://new"));
    assert_eq!((changed.address.as_str(), changed.public_key.as_str()), ("0xa", "pk1"));
    storage.update_cron_status(a.hash.clone(), 0).unwrap();
    assert_eq!(storage.get_cron_by_hash(a.hash).unwrap().status, 0);
    storage.change_crons(&CronKey::Status(1), &CronChange::Status(7));
    let statuses: Vec<i64> = storage.get_all_crons().unwrap().iter().map(|c| c.status).collect();
    assert_eq!(statuses, vec![0, 7, 7]);
}

#[test]
fn cron_txs_table() {
    let mut storage = Storage::new();
    storage.write_cron_tx(event("h1", 5, 100, 1)).unwrap();
    storage.write_cron_tx(event("h2", 9, 300, 1)).unwrap();
    storage.write_cron_tx(event("h3", 9, 200, 2)).unwrap();
    assert!(storage.write_cron_tx(event("h1", 6, 400, 1)).is_err());
    // A record of a failure gives way.
    storage.write_cron_tx(event("h3", 7, 250, 1)).unwrap();
    assert_eq!(storage.search_cron_tx("0xw".into(), "1".into(), "Transfer".into()).unwrap().len(), 3);
    assert_eq!(search_cron_tx(&storage, "0xw".into(), "1".into(), "Other".into()).cron_txs.len(), 0);
    let latest = storage.get_cron_tx_latest_block("0xw".into(), "1".into(), "Transfer".into()).unwrap();
    assert_eq!(latest.tx_hash, "h2");
    assert!(storage.get_cron_tx_latest_block("0xv".into(), "1".into(), "Transfer".into()).is_err());
    assert_eq!(
        storage
            .get_cron_tx_by_tx_hash("h3".into(), "0xw".into(), "1".into(), "Transfer".into())
            .unwrap()
            .tx_block_number,
        7
    );
    let all = storage.get_all_cron_txs().unwrap();
    let hashes: Vec<&str> = all.iter().map(|e| e.tx_hash.as_str()).collect();
    assert_eq!(hashes, vec!["h2", "h3", "h1"]);
    assert_eq!(get_all_cron_txs(&storage).cron_txs.len(), 3);
}

#[test]
fn rows_are_read_by_their_table() {
    let answer = |rows: Option<Vec<Row>>| RQLiteResult { last_insert_id: None, rows_affected: None, error: None, rows };
    let read = fdb::node::transactions_impl::read(answer(Some(vec![
        Row::Transaction(tx("1", 1, 0)),
        Row::Transaction(tx("2", 2, 0)),
    ])))
    .unwrap();
    assert_eq!(read.len(), 2);
    assert_eq!(read[1].data, "2");
    assert!(fdb::node::transactions_impl::read(answer(None)).unwrap().is_empty());
    let mixed = fdb::node::transactions_impl::read(answer(Some(vec![
        Row::Transaction(tx("1", 1, 0)),
        Row::Metadata(slot("d", "pk", "c")),
    ])));
    assert_eq!(mixed.unwrap_err().to_string(), "Internal error: Invalid data format: transactions");
    assert_eq!(fdb::node::metadatas_impl::read(answer(Some(vec![Row::Metadata(slot("d", "pk", "c"))]))).unwrap().len(), 1);
    assert_eq!(
        fdb::node::metadatas_impl::read(answer(Some(vec![Row::Cron(rule("a", "p", "m"))]))).unwrap_err().to_string(),
        "Internal error: Invalid data format: metadatas"
    );
    assert_eq!(
        fdb::node::meta_contract_impl::read(answer(Some(vec![Row::Cron(rule("a", "p", "m"))]))).unwrap_err().to_string(),
        "Internal error: Invalid data format: metacontracts"
    );
    assert_eq!(fdb::node::cron::read(answer(Some(vec![Row::Cron(rule("a", "p", "m"))]))).unwrap().len(), 1);
    assert_eq!(
        fdb::node::cron::read(answer(Some(vec![Row::CronTx(event("h", 1, 1, 1))]))).unwrap_err().to_string(),
        "Internal error: Invalid data format: cron"
    );
    assert_eq!(fdb::node::cron_tx::read(answer(Some(vec![Row::CronTx(event("h", 1, 1, 1))]))).unwrap().len(), 1);
    assert_eq!(
        fdb::node::cron_tx::read(answer(Some(vec![Row::Cron(rule("a", "p", "m"))]))).unwrap_err().to_string(),
        "Internal error: Invalid data format: cron_tx"
    );
    assert_eq!(
        fdb::node::transaction_receipt::read(answer(Some(vec![Row::Cron(rule("a", "p", "m"))])))
            .unwrap_err()
            .to_string(),
        "Internal error: Invalid data format: transaction_receipt"
    );
    assert!(fdb::node::transaction_receipt::read(answer(Some(vec![]))).unwrap().is_empty());
}

#[test]
fn requests_to_the_store() {
    assert_eq!(
        request_args("http://store", "select *\nfrom t\n"),
        vec!["-s", "-XPOST", "http://store", "-H", "Content-Type: application/json", "-d", "[\"select *from t\"]"]
    );
    assert_eq!(Storage::execute("x".into())[2], "http://172.17.0.1:4101/db/execute");
    assert_eq!(Storage::read("x".into())[2], "http://172.17.0.1:4101/db/query?associative");
    assert_eq!(Storage::trimmer("\"quoted\"".into()), "quoted");
    assert_eq!(Storage::trimmer("\"\"".into()), "");
    assert_eq!(Storage::trimmer("x".into()), "");
    assert_eq!(Storage::trimmer("äöü".into()), "ö");

    let answer = |error: Option<&str>| RQLiteResult {
        last_insert_id: Some(1),
        rows_affected: Some(1),
        error: error.map(|e| e.to_string()),
        rows: None,
    };
    let ok = Storage::unwrap_mounted_binary_result(RQLiteResponse { results: vec![answer(None), answer(Some("late"))] });
    assert_eq!(ok.unwrap().last_insert_id, Some(1));
    let failed = Storage::unwrap_mounted_binary_result(RQLiteResponse { results: vec![answer(Some("no such table"))] });
    assert_eq!(failed.unwrap_err().to_string(), "Internal error: no such table");
    let empty = Storage::unwrap_mounted_binary_result(RQLiteResponse { results: vec![] });
    assert_eq!(empty.unwrap_err().to_string(), "Internal error: Invalid response");
}

#[test]
fn error_messages() {
    let s = || "x".to_string();
    assert_eq!(ServiceError::InternalError(s()).to_string(), "Internal error: x");
    assert_eq!(ServiceError::RecordNotFound(s()).to_string(), "Record not found: x");
    assert_eq!(ServiceError::RecordFound(s()).to_string(), "Record found: x");
    assert_eq!(ServiceError::InvalidSignature(s()).to_string(), "Invalid signature: x");
    assert_eq!(ServiceError::InvalidEncryption(s()).to_string(), "Invalid encryption key: x");
    assert_eq!(ServiceError::InvalidMethod(s()).to_string(), "Invalid method: x");
    assert_eq!(ServiceError::InvalidOwner(s()).to_string(), "Invalid owner: x");
    assert_eq!(ServiceError::NotSupportedEncryptionType(s()).to_string(), "Not supported encryption: x");
    assert_eq!(ServiceError::NoEncryptionType().to_string(), "Does not specify encryption");
    assert_eq!(ServiceError::InvalidDataFormatForMethodType(s()).to_string(), "Invalid data format: x");
    assert_eq!(ServiceError::NoProgramId().to_string(), "No Meta Contract ID specify");
    assert_eq!(ServiceError::not_found().to_string(), "Record not found: No record found");
    assert_eq!(ServiceError::InvalidOwner(s()).clone().to_string(), "Invalid owner: x");
}

#[test]
fn results_carry_a_flag_a_message_and_a_payload() {
    let r = FdbTransactionResult::from(Ok(tx("1", 1, 0)));
    assert!(r.success && r.err_msg.is_empty() && r.transaction.data == "1");
    let r = FdbTransactionResult::from(failure());
    assert!(!r.success && r.err_msg == "Record not found: gone" && r.transaction.hash.is_empty());
    let r = FdbTransactionsResult::from(Ok(vec![tx("1", 1, 0)]));
    assert!(r.success && r.transactions.len() == 1);
    assert!(FdbTransactionsResult::from(failure()).transactions.is_empty());
    assert!(!FdbTransactionReceiptResult::from(failure()).success);
    assert!(FdbMetadataResult::from(Ok(slot("d", "p", "c"))).success);
    assert_eq!(FdbMetadataResult::from(failure()).metadata.cid, "");
    assert!(FdbMetadatasResult::from(failure()).metadatas.is_empty());
    assert!(FdbMetaContractResult::from(failure()).meta.token_key.is_empty());
    assert!(FdbCronTxResult::from(Ok(event("h", 1, 1, 1))).success);
    let h = FdbMetadataHistoryResult::from(Ok(vec!["new".to_string(), "old".to_string(), "older".to_string()]));
    assert!(h.success);
    assert_eq!(h.metadata, "new");
    assert_eq!(h.history, vec!["old", "older"]);
    let h = FdbMetadataHistoryResult::from(Ok(vec![]));
    assert!(h.success && h.metadata == "{}" && h.history.is_empty());
    let h = FdbMetadataHistoryResult::from(failure());
    assert!(!h.success && h.metadata == "{}" && h.history.is_empty());
}

#[test]
fn fork_requests() {
    let fork = DataTypeFork::from(SerdeDataTypeFork { data: Some("d".into()), to: Some("0xto".into()), token_id: Some(42) });
    assert_eq!((fork.data.as_str(), fork.token_id.as_str(), fork.address.as_str()), ("d", "42", "0xto"));
    let fork = deserialize_fork(Some(SerdeDataTypeFork { data: None, to: None, token_id: None }));
    assert_eq!((fork.data.as_str(), fork.token_id.as_str(), fork.address.as_str()), ("", "0", ""));
    let fork = deserialize_fork(None);
    assert_eq!((fork.data.as_str(), fork.token_id.as_str(), fork.address.as_str()), ("", "0", ""));
}

#[test]
fn batches_are_published_in_order() {
    let mut storage = Storage::new();
    let request = |data: &str| TransactionRequest {
        meta_contract_id: "mc".into(),
        alias: "a".into(),
        public_key: "nobody".into(),
        signature: "".into(),
        data: data.to_string(),
        method: "metadata".into(),
        chain_id: "1".into(),
        token_address: "0xt".into(),
        token_id: "1".into(),
        version: "v1".into(),
        mcdata: "".into(),
    };
    let txs = vec![
        (request("1"), TransactionPayload::Plain),
        (request("2"), TransactionPayload::Plain),
        (request("1"), TransactionPayload::Plain),
    ];
    let results = publish_batch(&mut storage, &txs, 5);
    assert_eq!(results.len(), 3);
    assert_eq!(results[0].transaction_hash, results[2].transaction_hash);
    assert_ne!(results[0].transaction_hash, results[1].transaction_hash);
    assert_eq!(storage.get_transactions(vec![], vec![], 0, 0).unwrap().len(), 2);
    assert_eq!(wrapped_try(|| 5), 5);
}

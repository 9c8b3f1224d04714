use fdb::crypto::secp256k1;
use fdb::ipfsdag::store::Dag;
use fdb::node::cron::SerdeCron;
use fdb::node::data_types::DataTypeClone;
use fdb::node::error::ServiceError;
use fdb::node::metadatas::{FinalMetadata, Metadata, SerdeMetadata};
use fdb::node::storage_impl::Storage;
use fdb::node::transaction::{Transaction, TransactionRequest};
use fdb::node::validators::{
    finalize, validate_clone, validate_cron, validate_meta_contract, validate_metadata, validate_metadata_cron,
    External,
};
use fdb::node::{
    get_metadata, get_metadata_with_history, get_transaction, get_transaction_receipt, publish,
    read_metadata_history, send_cron_tx, TransactionPayload,
};

struct Signer {
    sk: libsecp256k1::SecretKey,
    address: String,
}

fn signer(secret: u8) -> Signer {
    let sk = libsecp256k1::SecretKey::parse(&[secret; 32]).unwrap();
    let pk = libsecp256k1::PublicKey::from_secret_key(&sk);
    Signer { sk, address: secp256k1::public_key_to_address(pk.serialize()) }
}

fn signature(who: &Signer, message: &str) -> String {
    let digest = secp256k1::eth_message(message.to_string());
    let (sig, id) = libsecp256k1::sign(&libsecp256k1::Message::parse(&digest), &who.sk);
    let mut bytes = sig.serialize().to_vec();
    bytes.push(id.serialize() + 27);
    format!("0x{}", hex::encode(bytes))
}

fn request(who: &Signer, method: &str, meta_contract_id: &str, data: &str) -> TransactionRequest {
    TransactionRequest {
        meta_contract_id: meta_contract_id.to_string(),
        alias: "a".to_string(),
        public_key: who.address.clone(),
        signature: signature(who, data),
        data: data.to_string(),
        method: method.to_string(),
        chain_id: "1".to_string(),
        token_address: "0xtoken".to_string(),
        token_id: "1".to_string(),
        version: "v1".to_string(),
        mcdata: "".to_string(),
    }
}

fn data_key() -> String {
    Metadata::generate_data_key("1".to_string(), "0xtoken".to_string(), "1".to_string())
}

fn item(who: &Signer, content: &str) -> FinalMetadata {
    FinalMetadata {
        public_key: who.address.clone(),
        alias: "a".to_string(),
        content: content.to_string(),
        version: "v1".to_string(),
        loose: 1,
    }
}

fn update(storage: &mut Storage, dag: &mut Dag, who: &Signer, content: &str, now: u64) -> String {
    let hash = publish(storage, request(who, "metadata", "mc", content), TransactionPayload::Plain, now)
        .transaction_hash;
    let receipt = validate_metadata(
        storage,
        dag,
        hash.clone(),
        "mc".to_string(),
        true,
        vec![item(who, content)],
        "".to_string(),
        None,
        now + 1,
    )
    .unwrap();
    assert_eq!(receipt.status, 1, "{}", receipt.error_text);
    hash
}

fn failure_of(storage: &Storage, hash: &str) -> String {
    let receipt = storage.get_transaction_receipt(hash.to_string()).unwrap();
    assert_eq!(receipt.status, 2);
    let tx = storage.get_transaction(hash.to_string()).unwrap();
    assert_eq!(tx.status, 1);
    assert_eq!(tx.error_text, receipt.error_text);
    receipt.error_text
}

fn cron_payload(action: &str, hash: &str) -> SerdeCron {
    SerdeCron {
        action: action.to_string(),
        hash: hash.to_string(),
        address: "0xwatched".to_string(),
        topic: "Transfer".to_string(),
        token_type: "erc721".to_string(),
        chain: "1".to_string(),
        status: 1,
        node_url: "http://node".to_string(),
    }
}

#[test]
fn metadata_is_versioned_in_a_chain() {
    let mut storage = Storage::new();
    let mut dag = Dag::new();
    let pk1 = signer(1);
    update(&mut storage, &mut dag, &pk1, "{\"x\":1}", 1000);

    let first = get_metadata_with_history(
        &storage,
        &dag,
        data_key(),
        "mc".to_string(),
        pk1.address.clone(),
        "a".to_string(),
        "v1".to_string(),
    );
    assert!(first.success);
    assert_eq!(first.err_msg, "");
    assert!(first.history.is_empty());
    let block: serde_json::Value = serde_json::from_str(&first.metadata).unwrap();
    assert_eq!(block["content"].to_string(), "{\"x\":1}");
    assert_eq!(block["previous"].as_str(), Some("{}"));
    assert!(block["previous"].get("/").is_none());
    let first_cid = get_metadata(
        &storage,
        data_key(),
        "mc".to_string(),
        pk1.address.clone(),
        "a".to_string(),
        "v1".to_string(),
    )
    .metadata
    .cid;
    assert!(!first_cid.is_empty());

    update(&mut storage, &mut dag, &pk1, "{\"x\":2}", 2000);
    let second = get_metadata_with_history(
        &storage,
        &dag,
        data_key(),
        "mc".to_string(),
        pk1.address.clone(),
        "a".to_string(),
        "v1".to_string(),
    );
    assert!(second.success);
    assert_eq!(second.history.len(), 1);
    assert_eq!(second.history[0], first.metadata);
    let newest: serde_json::Value = serde_json::from_str(&second.metadata).unwrap();
    assert_eq!(newest["content"].to_string(), "{\"x\":2}");
    assert_eq!(newest["previous"]["/"].as_str(), Some(first_cid.as_str()));
    assert_eq!(newest["transaction"]["method"].as_str(), Some("metadata"));
    assert_eq!(newest["transaction"]["meta_contract_id"].as_str(), Some("mc"));
}

#[test]
fn chain_has_one_block_for_each_update() {
    let mut storage = Storage::new();
    let mut dag = Dag::new();
    let owner = signer(1);
    let n = 5;
    for k in 0..n {
        update(&mut storage, &mut dag, &owner, &format!("{{\"x\":{}}}", k), 1000 * (k + 1));
    }
    let blocks = read_metadata_history(
        &storage,
        &dag,
        data_key(),
        "mc".to_string(),
        owner.address.clone(),
        "a".to_string(),
        "v1".to_string(),
        100,
    )
    .unwrap();
    assert_eq!(blocks.len() as u64, n);
    for (j, block) in blocks.iter().enumerate() {
        assert_eq!(block.content, format!("{{\"x\":{}}}", n as usize - 1 - j));
    }
    // Walking the links from the newest block reaches the oldest in n - 1 hops.
    let mut hops = 0;
    let mut current = blocks[0].clone();
    while !current.previous.is_empty() {
        current = dag.get_block(&current.previous).unwrap();
        hops += 1;
    }
    assert_eq!(hops, n - 1);
    assert_eq!(current.content, "{\"x\":0}");
    // A limit ends the reading early.
    let some = read_metadata_history(
        &storage,
        &dag,
        data_key(),
        "mc".to_string(),
        owner.address.clone(),
        "a".to_string(),
        "v1".to_string(),
        2,
    )
    .unwrap();
    assert_eq!(some.len(), 2);
}

#[test]
fn history_of_a_missing_slot_is_an_error() {
    let storage = Storage::new();
    let dag = Dag::new();
    let r = get_metadata_with_history(
        &storage,
        &dag,
        "d".to_string(),
        "mc".to_string(),
        "pk".to_string(),
        "a".to_string(),
        "v1".to_string(),
    );
    assert!(!r.success);
    assert_eq!(r.err_msg, "Record not found: No record found");
    assert_eq!(r.metadata, "{}");
    assert!(r.history.is_empty());
}

#[test]
fn submission_is_idempotent() {
    let mut storage = Storage::new();
    let who = signer(1);
    let one = publish(&mut storage, request(&who, "metadata", "mc", "{}"), TransactionPayload::Plain, 1);
    let two = publish(&mut storage, request(&who, "metadata", "mc", "{}"), TransactionPayload::Plain, 99);
    assert_eq!(one.transaction_hash, two.transaction_hash);
    assert_eq!(storage.get_pending_transactions().unwrap().len(), 1);
    // The record of the first submission stands.
    assert_eq!(storage.get_transaction(one.transaction_hash.clone()).unwrap().timestamp, 1);
    // The store refuses a second record with the hash.
    let tx = storage.get_transaction(one.transaction_hash).unwrap();
    let refused = storage.write_transaction(tx);
    assert!(matches!(refused, Err(ServiceError::InternalError(_))));
    assert_eq!(refused.unwrap_err().to_string(), "Internal error: UNIQUE constraint failed: transactions");
}

#[test]
fn transaction_hash_is_the_identity_of_its_fields() {
    let mut storage = Storage::new();
    let who = signer(1);
    let hash = publish(&mut storage, request(&who, "metadata", "mc", "{}"), TransactionPayload::Plain, 1)
        .transaction_hash;
    let token_key = Metadata::generate_token_key("1".to_string(), "0xtoken".to_string());
    let expected = Transaction::generate_hash(
        "mc".to_string(),
        token_key.clone(),
        data_key(),
        "{}".to_string(),
        who.address.clone(),
        "a".to_string(),
        "metadata".to_string(),
        "v1".to_string(),
        "".to_string(),
        "".to_string(),
    );
    assert_eq!(hash, expected);
    let tx = get_transaction(&storage, hash).transaction;
    assert_eq!(tx.status, 0);
    assert_eq!(tx.token_key, token_key);
    assert_eq!(tx.data_key, data_key());
    assert_eq!(tx.error_text, "");
    assert_eq!(tx.timestamp, 1);
}

#[test]
fn keys_are_empty_without_chain_or_token() {
    let mut storage = Storage::new();
    let who = signer(1);
    let mut req = request(&who, "metadata", "mc", "{}");
    req.token_id = "".to_string();
    let hash = publish(&mut storage, req, TransactionPayload::Plain, 1).transaction_hash;
    let tx = storage.get_transaction(hash).unwrap();
    assert_eq!(tx.data_key, "");
    assert!(!tx.token_key.is_empty());
    let mut req = request(&who, "metadata", "mc", "{\"y\":1}");
    req.chain_id = "".to_string();
    let hash = publish(&mut storage, req, TransactionPayload::Plain, 1).transaction_hash;
    let tx = storage.get_transaction(hash).unwrap();
    assert_eq!(tx.data_key, "");
    assert_eq!(tx.token_key, "");
}

#[test]
fn rejected_submissions_are_recorded_with_their_error() {
    let who = signer(1);

    let mut storage = Storage::new();
    let hash = publish(&mut storage, request(&who, "delete", "mc", "{}"), TransactionPayload::Plain, 1)
        .transaction_hash;
    assert_eq!(failure_of(&storage, &hash), "Invalid method: invalid method: delete");

    let mut req = request(&who, "metadata", "mc", "{}");
    req.public_key = "nobody".to_string();
    let hash = publish(&mut storage, req, TransactionPayload::Plain, 1).transaction_hash;
    assert_eq!(failure_of(&storage, &hash), "Invalid encryption key: nobody");

    // A key without a scheme comes before an unknown method.
    let mut req = request(&who, "delete", "mc", "{}");
    req.public_key = "".to_string();
    let hash = publish(&mut storage, req, TransactionPayload::Plain, 1).transaction_hash;
    assert_eq!(failure_of(&storage, &hash), "Invalid encryption key: ");

    let hash = publish(&mut storage, request(&who, "metadata", "", "{}"), TransactionPayload::Plain, 1)
        .transaction_hash;
    assert_eq!(failure_of(&storage, &hash), "No Meta Contract ID specify");

    let hash = publish(&mut storage, request(&who, "contract", "", ""), TransactionPayload::Plain, 1)
        .transaction_hash;
    assert_eq!(failure_of(&storage, &hash), "No Meta Contract ID specify");

    let mut req = request(&who, "metadata", "mc", "{\"z\":1}");
    req.signature = signature(&who, "something else");
    let hash = publish(&mut storage, req, TransactionPayload::Plain, 1).transaction_hash;
    assert_eq!(
        failure_of(&storage, &hash),
        format!("Invalid signature: not owner of data_key: {}", who.address)
    );

    let mut req = request(&who, "metadata", "mc", "{\"z\":2}");
    req.signature = "0x12".to_string();
    let hash = publish(&mut storage, req, TransactionPayload::Plain, 1).transaction_hash;
    assert_eq!(
        failure_of(&storage, &hash),
        format!("Invalid signature: not owner of data_key: {}", who.address)
    );

    let hash = publish(&mut storage, request(&who, "clone", "mc", "x"), TransactionPayload::Plain, 1)
        .transaction_hash;
    assert_eq!(failure_of(&storage, &hash), "Invalid data format: clone");

    let hash = publish(
        &mut storage,
        request(&who, "cron", "mc", "{"),
        TransactionPayload::Malformed("EOF while parsing".to_string()),
        1,
    )
    .transaction_hash;
    assert_eq!(failure_of(&storage, &hash), "Invalid data format: EOF while parsing");

    let origin = DataTypeClone {
        origin_data_key: "nowhere".to_string(),
        origin_meta_contract_id: "mc".to_string(),
        origin_public_key: who.address.clone(),
        origin_alias: "a".to_string(),
        origin_version: "v1".to_string(),
    };
    let hash =
        publish(&mut storage, request(&who, "clone", "mc", "c"), TransactionPayload::Clone(origin), 1)
            .transaction_hash;
    assert_eq!(failure_of(&storage, &hash), "Record not found: No record found");

    // Nothing that was rejected waits for a finalisation.
    assert!(storage.get_pending_transactions().unwrap().is_empty());
}

#[test]
fn rejected_submission_is_not_finalised() {
    let mut storage = Storage::new();
    let mut dag = Dag::new();
    let who = signer(1);
    let mut req = request(&who, "metadata", "mc", "{}");
    req.signature = signature(&who, "other");
    let hash = publish(&mut storage, req, TransactionPayload::Plain, 1).transaction_hash;
    let recorded = storage.get_transaction_receipt(hash.clone()).unwrap();
    let receipt = validate_metadata(
        &mut storage,
        &mut dag,
        hash.clone(),
        "mc".to_string(),
        true,
        vec![item(&who, "{}")],
        "".to_string(),
        None,
        50,
    )
    .unwrap();
    assert_eq!(receipt.status, 2);
    assert_eq!(receipt.timestamp, recorded.timestamp);
    assert_eq!(dag.len(), 0);
    assert!(storage
        .get_owner_metadata(data_key(), "mc".to_string(), who.address.clone(), "a".to_string(), "v1".to_string())
        .is_err());
}

#[test]
fn finalisation_of_an_unknown_transaction_is_an_error() {
    let mut storage = Storage::new();
    let mut dag = Dag::new();
    let r = validate_meta_contract(&mut storage, "nowhere".to_string(), 1);
    assert!(matches!(r, Err(ServiceError::RecordNotFound(_))));
    let r = validate_metadata(
        &mut storage,
        &mut dag,
        "nowhere".to_string(),
        "mc".to_string(),
        true,
        vec![],
        "".to_string(),
        None,
        1,
    );
    assert_eq!(r.unwrap_err().to_string(), "Record not found: No record found");
    assert!(validate_clone(&mut storage, &mut dag, "x".to_string(), "mc".to_string(), true, None, "".to_string(), 1)
        .is_err());
    assert!(validate_cron(&mut storage, "x".to_string(), None, 1).is_err());
    assert!(!get_transaction_receipt(&storage, "x".to_string()).success);
}

#[test]
fn finalisation_happens_once() {
    let mut storage = Storage::new();
    let mut dag = Dag::new();
    let who = signer(1);
    let hash = update(&mut storage, &mut dag, &who, "{\"x\":1}", 1000);
    assert_eq!(storage.get_transaction(hash.clone()).unwrap().status, 1);
    let blocks = dag.len();
    let again = validate_metadata(
        &mut storage,
        &mut dag,
        hash.clone(),
        "mc".to_string(),
        true,
        vec![item(&who, "{\"x\":9}")],
        "".to_string(),
        None,
        5000,
    )
    .unwrap();
    assert_eq!(again.status, 1);
    assert_eq!(again.timestamp, 1001);
    assert_eq!(dag.len(), blocks);
    assert_eq!(storage.get_transaction_receipt(hash).unwrap().timestamp, 1001);
}

#[test]
fn transaction_is_finalised_as_its_own_method_only() {
    let mut storage = Storage::new();
    let mut dag = Dag::new();
    let who = signer(1);
    let hash = publish(&mut storage, request(&who, "metadata", "mc", "{}"), TransactionPayload::Plain, 1)
        .transaction_hash;
    let receipt = validate_meta_contract(&mut storage, hash.clone(), 2).unwrap();
    assert_eq!(receipt.status, 2);
    assert_eq!(receipt.error_text, "Invalid method: metadata");
    assert!(storage.get_meta_contract_by_id("mc".to_string()).is_err());
    assert_eq!(storage.get_transaction(hash).unwrap().status, 1);

    let hash = publish(&mut storage, request(&who, "contract", "", "mc1"), TransactionPayload::Plain, 1)
        .transaction_hash;
    let receipt = validate_metadata(
        &mut storage,
        &mut dag,
        hash,
        "mc".to_string(),
        true,
        vec![item(&who, "{}")],
        "".to_string(),
        None,
        2,
    )
    .unwrap();
    assert_eq!(receipt.error_text, "Invalid method: contract");
    assert_eq!(dag.len(), 0);
    let hash = publish(&mut storage, request(&who, "contract", "", "mc2"), TransactionPayload::Plain, 1)
        .transaction_hash;
    assert_eq!(validate_cron(&mut storage, hash, None, 2).unwrap().error_text, "Invalid method: contract");
    let hash = publish(&mut storage, request(&who, "contract", "", "mc3"), TransactionPayload::Plain, 1)
        .transaction_hash;
    let receipt =
        validate_clone(&mut storage, &mut dag, hash, "mc".to_string(), true, None, "".to_string(), 2).unwrap();
    assert_eq!(receipt.error_text, "Invalid method: contract");
}

fn external(who: &Signer, content: &str) -> External {
    External {
        meta_contract_id: "mc".to_string(),
        on_metacontract_result: true,
        final_error_msg: "".to_string(),
        metadatas: vec![item(who, content)],
        options: None,
        clone_payload: None,
        cron_payload: Some(cron_payload("create", "")),
    }
}

#[test]
fn finalisation_follows_the_method() {
    let mut storage = Storage::new();
    let mut dag = Dag::new();
    let who = signer(1);

    let hash = publish(&mut storage, request(&who, "metadata", "mc", "{\"x\":1}"), TransactionPayload::Plain, 1)
        .transaction_hash;
    let receipt = finalize(&mut storage, &mut dag, hash.clone(), external(&who, "{\"x\":1}"), 2).unwrap();
    assert_eq!(receipt.status, 1, "{}", receipt.error_text);
    assert_eq!(dag.len(), 1);
    // A second finalisation changes nothing and answers the same receipt.
    let again = finalize(&mut storage, &mut dag, hash, external(&who, "{\"x\":2}"), 3).unwrap();
    assert_eq!((again.status, again.timestamp), (1, 2));
    assert_eq!(dag.len(), 1);

    let hash = publish(&mut storage, request(&who, "contract", "", "mc1"), TransactionPayload::Plain, 1)
        .transaction_hash;
    assert_eq!(finalize(&mut storage, &mut dag, hash, external(&who, ""), 2).unwrap().status, 1);
    assert!(storage.get_meta_contract_by_id("mc1".to_string()).is_ok());

    let create = cron_payload("create", "");
    let hash = publish(&mut storage, request(&who, "cron", "mc", "c"), TransactionPayload::Cron(create), 1)
        .transaction_hash;
    assert_eq!(finalize(&mut storage, &mut dag, hash, external(&who, ""), 2).unwrap().status, 1);
    assert_eq!(storage.get_all_crons().unwrap().len(), 1);

    let origin = DataTypeClone {
        origin_data_key: data_key(),
        origin_meta_contract_id: "mc".to_string(),
        origin_public_key: who.address.clone(),
        origin_alias: "a".to_string(),
        origin_version: "v1".to_string(),
    };
    let mut req = request(&who, "clone", "mc", "copy");
    req.token_id = "5".to_string();
    let hash = publish(&mut storage, req, TransactionPayload::Clone(origin.clone()), 1).transaction_hash;
    let mut with = external(&who, "");
    with.clone_payload = Some(origin);
    assert_eq!(finalize(&mut storage, &mut dag, hash, with, 2).unwrap().status, 1);
    assert_eq!(dag.len(), 2);

    assert!(finalize(&mut storage, &mut dag, "nowhere".to_string(), external(&who, ""), 2).is_err());
    let forged = Transaction::new(
        "mc".to_string(), "".to_string(), "".to_string(), "d".to_string(), who.address.clone(), "".to_string(), 4,
        "remove".to_string(), "".to_string(), "".to_string(), "".to_string(), "v1".to_string(), "".to_string(), 0,
        "".to_string(),
    );
    let hash = storage.write_transaction(forged).unwrap();
    let receipt = finalize(&mut storage, &mut dag, hash, external(&who, ""), 5).unwrap();
    assert_eq!((receipt.status, receipt.error_text.as_str()), (2, "Invalid method: remove"));
}

#[test]
fn refused_by_the_meta_contract() {
    let mut storage = Storage::new();
    let mut dag = Dag::new();
    let who = signer(1);
    let hash = publish(&mut storage, request(&who, "metadata", "mc", "{}"), TransactionPayload::Plain, 1)
        .transaction_hash;
    let receipt = validate_metadata(
        &mut storage,
        &mut dag,
        hash.clone(),
        "mc".to_string(),
        false,
        vec![item(&who, "{}")],
        "".to_string(),
        None,
        2,
    )
    .unwrap();
    assert_eq!(receipt.status, 2);
    assert_eq!(receipt.error_text, "Metadata not updateable");
    assert_eq!(receipt.hash, hash);
    assert_eq!(receipt.meta_contract_id, "mc");
    assert_eq!(receipt.timestamp, 2);
    assert_eq!(dag.len(), 0);
    assert_eq!(storage.get_transaction(hash).unwrap().status, 1);

    let hash = publish(&mut storage, request(&who, "metadata", "mc", "{\"a\":1}"), TransactionPayload::Plain, 1)
        .transaction_hash;
    let receipt = validate_metadata(
        &mut storage,
        &mut dag,
        hash,
        "mc".to_string(),
        false,
        vec![],
        "no".to_string(),
        None,
        2,
    )
    .unwrap();
    assert_eq!(receipt.error_text, "no");

    let hash = publish(&mut storage, request(&who, "clone", "mc", "{\"b\":1}"), TransactionPayload::Plain, 1)
        .transaction_hash;
    // Rejected at submission: the recorded failure is answered.
    let receipt =
        validate_clone(&mut storage, &mut dag, hash, "mc".to_string(), false, None, "".to_string(), 2).unwrap();
    assert_eq!(receipt.error_text, "Invalid data format: clone");
}

#[test]
fn strict_slot_is_written_by_its_owner_only() {
    let mut storage = Storage::new();
    let mut dag = Dag::new();
    let a = signer(1);
    let b = signer(2);
    // A creates a slot that enforces its ownership.
    let hash = publish(&mut storage, request(&a, "metadata", "mc", "{\"x\":1}"), TransactionPayload::Plain, 1)
        .transaction_hash;
    let receipt = validate_metadata(
        &mut storage,
        &mut dag,
        hash,
        "mc".to_string(),
        true,
        vec![item(&a, "{\"x\":1}")],
        "".to_string(),
        Some(SerdeMetadata { loose: 0 }),
        2,
    )
    .unwrap();
    assert_eq!(receipt.status, 1);
    let before = storage
        .get_owner_metadata(data_key(), "mc".to_string(), a.address.clone(), "a".to_string(), "v1".to_string())
        .unwrap();
    assert_eq!(before.loose, 0);
    let blocks = dag.len();

    // A transaction of B brings an item for the slot of A.
    let hash = publish(&mut storage, request(&b, "metadata", "mc", "{\"x\":2}"), TransactionPayload::Plain, 3)
        .transaction_hash;
    let receipt = validate_metadata(
        &mut storage,
        &mut dag,
        hash,
        "mc".to_string(),
        true,
        vec![item(&a, "{\"x\":2}")],
        "".to_string(),
        None,
        4,
    )
    .unwrap();
    assert_eq!(receipt.status, 2);
    assert_eq!(receipt.error_text, format!("Invalid owner: {}", b.address));
    let after = storage
        .get_owner_metadata(data_key(), "mc".to_string(), a.address.clone(), "a".to_string(), "v1".to_string())
        .unwrap();
    assert_eq!(after.cid, before.cid);
    assert_eq!(dag.len(), blocks);

    // The owner still writes to it.
    update(&mut storage, &mut dag, &a, "{\"x\":3}", 10);
    let last = storage
        .get_owner_metadata(data_key(), "mc".to_string(), a.address.clone(), "a".to_string(), "v1".to_string())
        .unwrap();
    assert_ne!(last.cid, before.cid);
}

#[test]
fn loose_slot_is_written_on_behalf_of_its_owner() {
    let mut storage = Storage::new();
    let mut dag = Dag::new();
    let a = signer(1);
    let b = signer(2);
    update(&mut storage, &mut dag, &a, "{\"x\":1}", 1);
    let hash = publish(&mut storage, request(&b, "metadata", "mc", "{\"x\":2}"), TransactionPayload::Plain, 3)
        .transaction_hash;
    let receipt = validate_metadata(
        &mut storage,
        &mut dag,
        hash,
        "mc".to_string(),
        true,
        vec![item(&a, "{\"x\":2}")],
        "".to_string(),
        None,
        4,
    )
    .unwrap();
    assert_eq!(receipt.status, 1);
    assert_eq!(dag.len(), 2);
}

#[test]
fn each_owner_has_a_slot_of_its_own() {
    let mut storage = Storage::new();
    let mut dag = Dag::new();
    let a = signer(1);
    let b = signer(2);
    update(&mut storage, &mut dag, &a, "{\"x\":1}", 1);
    update(&mut storage, &mut dag, &b, "{\"x\":2}", 10);
    let all = storage.get_metadata_by_datakey_and_version(data_key(), "v1".to_string()).unwrap();
    assert_eq!(all.len(), 2);
    assert_eq!(all[0].public_key, a.address);
    assert_eq!(all[1].public_key, b.address);
    assert_ne!(all[0].hash, all[1].hash);
}

#[test]
fn binding_is_changed_by_its_owner_only() {
    let mut storage = Storage::new();
    let a = signer(1);
    let b = signer(2);
    let token_key = Metadata::generate_token_key("1".to_string(), "0xtoken".to_string());

    let hash = publish(&mut storage, request(&a, "contract", "", "mc1"), TransactionPayload::Plain, 1)
        .transaction_hash;
    assert_eq!(storage.get_transaction(hash.clone()).unwrap().meta_contract_id, "mc1");
    let receipt = validate_meta_contract(&mut storage, hash, 2).unwrap();
    assert_eq!(receipt.status, 1);
    let bound = storage.get_meta_contract_by_tokenkey(token_key.clone()).unwrap();
    assert_eq!(bound.meta_contract_id, "mc1");
    assert_eq!(bound.public_key, a.address);

    // Another key is rejected when it submits ...
    let hash = publish(&mut storage, request(&b, "contract", "", "mc2"), TransactionPayload::Plain, 3)
        .transaction_hash;
    assert_eq!(
        failure_of(&storage, &hash),
        format!("Invalid owner: not owner of default meta contract: {}", b.address)
    );
    assert_eq!(storage.get_meta_contract_by_tokenkey(token_key.clone()).unwrap().meta_contract_id, "mc1");

    // ... and when a transaction of its own is finalised.
    let forged = Transaction::new(
        "mc2".to_string(),
        token_key.clone(),
        "".to_string(),
        "mc2".to_string(),
        b.address.clone(),
        "".to_string(),
        4,
        "contract".to_string(),
        "1".to_string(),
        "0xtoken".to_string(),
        "".to_string(),
        "v1".to_string(),
        "".to_string(),
        0,
        "".to_string(),
    );
    let hash = storage.write_transaction(forged).unwrap();
    let receipt = validate_meta_contract(&mut storage, hash, 5).unwrap();
    assert_eq!(receipt.status, 2);
    assert_eq!(receipt.error_text, format!("Invalid owner: {}", b.address));
    assert_eq!(storage.get_meta_contract_by_tokenkey(token_key.clone()).unwrap().meta_contract_id, "mc1");

    // The owner binds the key to another meta contract.
    let hash = publish(&mut storage, request(&a, "contract", "", "mc3"), TransactionPayload::Plain, 6)
        .transaction_hash;
    assert_eq!(validate_meta_contract(&mut storage, hash, 7).unwrap().status, 1);
    let rebound = storage.get_meta_contract_by_tokenkey(token_key.clone()).unwrap();
    assert_eq!(rebound.meta_contract_id, "mc3");
    assert_eq!(rebound.public_key, a.address);
    assert_eq!(rebound.token_key, token_key);
    assert_eq!(
        rebound.hash,
        fdb::node::meta_contract::MetaContract::generate_hash(token_key, "mc3".to_string(), a.address.clone())
    );
}

#[test]
fn clone_starts_a_chain_of_its_own() {
    let mut storage = Storage::new();
    let mut dag = Dag::new();
    let a = signer(1);
    let b = signer(2);
    for k in 0..3 {
        update(&mut storage, &mut dag, &a, &format!("{{\"x\":{}}}", k), 100 * (k + 1));
    }
    let origin = DataTypeClone {
        origin_data_key: data_key(),
        origin_meta_contract_id: "mc".to_string(),
        origin_public_key: a.address.clone(),
        origin_alias: "a".to_string(),
        origin_version: "v1".to_string(),
    };
    let mut req = request(&b, "clone", "mc", "copy");
    req.token_id = "2".to_string();
    let hash = publish(&mut storage, req, TransactionPayload::Clone(origin.clone()), 1000).transaction_hash;
    assert_eq!(storage.get_transaction(hash.clone()).unwrap().status, 0);
    let receipt = validate_clone(
        &mut storage,
        &mut dag,
        hash,
        "mc".to_string(),
        true,
        Some(origin.clone()),
        "".to_string(),
        1001,
    )
    .unwrap();
    assert_eq!(receipt.status, 1, "{}", receipt.error_text);

    let new_key = Metadata::generate_data_key("1".to_string(), "0xtoken".to_string(), "2".to_string());
    let copy = storage
        .get_owner_metadata(new_key.clone(), "mc".to_string(), b.address.clone(), "a".to_string(), "v1".to_string())
        .unwrap();
    assert_eq!(copy.public_key, b.address);
    let chain = dag.read_history(&copy.cid, 100);
    assert_eq!(chain.len(), 1);
    assert_eq!(chain[0].content, "{\"x\":2}");
    assert_eq!(chain[0].previous, "");
    let envelope: serde_json::Value = serde_json::from_str(&chain[0].transaction).unwrap();
    assert_eq!(envelope["method"].as_str(), Some("clone"));
    assert_eq!(envelope["value"].as_str(), Some(origin.to_json().as_str()));

    // The origin keeps its chain.
    let source = storage
        .get_owner_metadata(data_key(), "mc".to_string(), a.address.clone(), "a".to_string(), "v1".to_string())
        .unwrap();
    assert_eq!(dag.read_history(&source.cid, 100).len(), 3);
    assert_ne!(source.cid, copy.cid);

    // A clone never overwrites: the second one is rejected.
    let mut req = request(&b, "clone", "mc", "copy again");
    req.token_id = "2".to_string();
    let hash = publish(&mut storage, req, TransactionPayload::Clone(origin), 2000).transaction_hash;
    assert_eq!(failure_of(&storage, &hash), format!("Record found: {}", new_key));
}

#[test]
fn cron_rule_is_registered_once() {
    let mut storage = Storage::new();
    let a = signer(1);
    let b = signer(2);
    let create = cron_payload("create", "");
    let hash = publish(&mut storage, request(&a, "cron", "mc", "c1"), TransactionPayload::Cron(create.clone()), 1)
        .transaction_hash;
    let receipt = validate_cron(&mut storage, hash, Some(create.clone()), 2).unwrap();
    assert_eq!(receipt.status, 1, "{}", receipt.error_text);
    let rule = storage
        .search_cron("0xwatched".to_string(), "1".to_string(), "Transfer".to_string())
        .unwrap();
    assert_eq!(rule.status, 1);
    assert_eq!(rule.public_key, a.address);
    assert_eq!(rule.meta_contract_id, "mc");
    assert_eq!(rule.last_processed_block, 0);
    assert_eq!(
        rule.hash,
        fdb::node::cron::Cron::generate_hash("0xwatched".to_string(), "Transfer".to_string(), "1".to_string())
    );

    // The same triple again, whatever else differs.
    let mut again = cron_payload("create", "");
    again.token_type = "erc20".to_string();
    again.node_url = "http://other".to_string();
    again.status = 0;
    for who in [&a, &b] {
        let hash = publish(&mut storage, request(who, "cron", "mc2", "c2"), TransactionPayload::Cron(again.clone()), 3)
            .transaction_hash;
        assert_eq!(failure_of(&storage, &hash), "Record found: 0xwatched 1 Transfer");
    }
    assert_eq!(storage.get_all_crons().unwrap().len(), 1);
    // The store refuses a second rule too.
    assert!(storage.write_cron(rule).is_err());
}

#[test]
fn cron_rule_is_changed_by_its_owner_only() {
    let mut storage = Storage::new();
    let a = signer(1);
    let b = signer(2);
    let create = cron_payload("create", "");
    let hash = publish(&mut storage, request(&a, "cron", "mc", "c1"), TransactionPayload::Cron(create.clone()), 1)
        .transaction_hash;
    validate_cron(&mut storage, hash, Some(create), 2).unwrap();
    let rule = storage.get_all_crons().unwrap().remove(0);

    let mut disable = cron_payload("update_status", &rule.hash);
    disable.status = 0;
    let hash =
        publish(&mut storage, request(&b, "cron", "mc", "c2"), TransactionPayload::Cron(disable.clone()), 3)
            .transaction_hash;
    let receipt = validate_cron(&mut storage, hash, Some(disable.clone()), 4).unwrap();
    assert_eq!(receipt.status, 2);
    assert_eq!(receipt.error_text, format!("Invalid owner: {}", b.address));
    assert_eq!(storage.get_enabled_crons().unwrap().len(), 1);

    let hash =
        publish(&mut storage, request(&a, "cron", "mc", "c3"), TransactionPayload::Cron(disable.clone()), 5)
            .transaction_hash;
    assert_eq!(validate_cron(&mut storage, hash, Some(disable), 6).unwrap().status, 1);
    assert_eq!(storage.get_enabled_crons().unwrap().len(), 0);

    let mut change = cron_payload("update", &rule.hash);
    change.node_url = "http://new".to_string();
    let hash =
        publish(&mut storage, request(&a, "cron", "mc9", "c4"), TransactionPayload::Cron(change.clone()), 7)
            .transaction_hash;
    assert_eq!(validate_cron(&mut storage, hash, Some(change), 8).unwrap().status, 1);
    let changed = storage.get_cron_by_hash(rule.hash.clone()).unwrap();
    assert_eq!(changed.node_url, "http://new");
    assert_eq!(changed.meta_contract_id, "mc9");
    assert_eq!(changed.status, 0);
    assert_eq!(changed.address, "0xwatched");
}

#[test]
fn cron_payload_is_checked() {
    let mut storage = Storage::new();
    let a = signer(1);
    let mut empty = cron_payload("create", "");
    empty.topic = "".to_string();
    let hash = publish(&mut storage, request(&a, "cron", "mc", "c1"), TransactionPayload::Cron(empty), 1)
        .transaction_hash;
    assert_eq!(failure_of(&storage, &hash), "Invalid data format: cron");

    let hash = publish(
        &mut storage,
        request(&a, "cron", "mc", "c2"),
        TransactionPayload::Cron(cron_payload("update", "")),
        1,
    )
    .transaction_hash;
    assert_eq!(failure_of(&storage, &hash), "Invalid data format: cron");

    let mut status = cron_payload("update_status", "h");
    status.status = 7;
    let hash = publish(&mut storage, request(&a, "cron", "mc", "c3"), TransactionPayload::Cron(status), 1)
        .transaction_hash;
    assert_eq!(failure_of(&storage, &hash), "Invalid data format: cron");

    let hash = publish(
        &mut storage,
        request(&a, "cron", "mc", "c4"),
        TransactionPayload::Cron(cron_payload("remove", "h")),
        1,
    )
    .transaction_hash;
    assert_eq!(failure_of(&storage, &hash), "Invalid data format: cron");

    let hash = publish(
        &mut storage,
        request(&a, "cron", "mc", "c5"),
        TransactionPayload::Cron(cron_payload("update", "unknown")),
        1,
    )
    .transaction_hash;
    assert_eq!(failure_of(&storage, &hash), "Record not found: No record found");

    // A payload that does not name the rule it changes fails at the finalisation.
    let create = cron_payload("create", "");
    let hash = publish(&mut storage, request(&a, "cron", "mc", "c6"), TransactionPayload::Cron(create.clone()), 1)
        .transaction_hash;
    validate_cron(&mut storage, hash, Some(create), 2).unwrap();
    let pending = Transaction::new(
        "mc".to_string(),
        "".to_string(),
        "".to_string(),
        "c7".to_string(),
        a.address.clone(),
        "".to_string(),
        4,
        "cron".to_string(),
        "".to_string(),
        "".to_string(),
        "".to_string(),
        "v1".to_string(),
        "".to_string(),
        0,
        "".to_string(),
    );
    let hash = storage.write_transaction(pending).unwrap();
    let receipt = validate_cron(&mut storage, hash, Some(cron_payload("update", "other")), 5).unwrap();
    assert_eq!(receipt.status, 2);
    assert_eq!(receipt.error_text, "Invalid cron hash: other");
}

#[test]
fn cron_events_are_recorded_once() {
    let mut storage = Storage::new();
    let mut dag = Dag::new();
    let a = signer(1);
    let create = cron_payload("create", "");
    let hash = publish(&mut storage, request(&a, "cron", "mc", "c1"), TransactionPayload::Cron(create.clone()), 1)
        .transaction_hash;
    validate_cron(&mut storage, hash, Some(create), 2).unwrap();
    let rule = storage.get_all_crons().unwrap().remove(0);

    let sent = send_cron_tx(&mut storage, rule.hash.clone(), "log".to_string(), 7, "0xabc".to_string(), "9".to_string(), 100);
    assert!(sent.success);
    assert_eq!(sent.cron_tx.tx_block_number, 7);
    assert_eq!(sent.cron_tx.status, 1);
    assert_eq!(sent.cron_tx.timestamp, 100);
    assert_eq!(
        sent.cron_tx.data_key,
        Metadata::generate_data_key("1".to_string(), "0xwatched".to_string(), "9".to_string())
    );
    assert_eq!(
        sent.cron_tx.hash,
        fdb::node::cron_tx::CronTx::generate_hash(
            "0xwatched".to_string(),
            "Transfer".to_string(),
            "erc721".to_string(),
            "1".to_string(),
            7,
            "0xabc".to_string(),
            "9".to_string()
        )
    );
    let again = send_cron_tx(&mut storage, rule.hash.clone(), "other".to_string(), 8, "0xabc".to_string(), "9".to_string(), 200);
    assert_eq!(again.cron_tx.timestamp, 100);
    assert_eq!(again.cron_tx.data, "log");
    assert_eq!(storage.search_cron_tx("0xwatched".to_string(), "1".to_string(), "Transfer".to_string()).unwrap().len(), 1);

    send_cron_tx(&mut storage, rule.hash.clone(), "log".to_string(), 12, "0xdef".to_string(), "9".to_string(), 300);
    send_cron_tx(&mut storage, rule.hash.clone(), "log".to_string(), 10, "0x123".to_string(), "9".to_string(), 400);
    assert_eq!(
        fdb::node::get_cron_tx_latest_block(&storage, "0xwatched".to_string(), "1".to_string(), "Transfer".to_string()),
        12
    );
    assert_eq!(
        fdb::node::get_cron_tx_latest_block(&storage, "0xother".to_string(), "1".to_string(), "Transfer".to_string()),
        0
    );

    let unknown = send_cron_tx(&mut storage, "nowhere".to_string(), "log".to_string(), 7, "0xabc".to_string(), "9".to_string(), 100);
    assert!(unknown.success);
    assert_eq!(unknown.cron_tx.hash, "");

    // The metadata of an event: missing slots are created, existing ones are reported.
    let binding = fdb::node::meta_contract::MetaContract::new("tk".to_string(), "mc".to_string(), a.address.clone(), "".to_string());
    let first = validate_metadata_cron(&mut storage, &mut dag, binding.clone(), rule.clone(), "9".to_string(), true, vec![item(&a, "{\"e\":1}")], 500);
    assert!(first.success);
    assert_eq!(first.err_msg, "");
    assert_eq!(first.metadatas.len(), 1);
    assert_eq!(first.metadatas[0].data_key, sent.cron_tx.data_key);
    assert_eq!(dag.read_history(&first.metadatas[0].cid, 10)[0].content, "{\"e\":1}");
    let second = validate_metadata_cron(&mut storage, &mut dag, binding.clone(), rule.clone(), "9".to_string(), true, vec![item(&a, "{\"e\":2}")], 600);
    assert_eq!(second.metadatas[0].cid, first.metadatas[0].cid);
    assert_eq!(dag.len(), 1);
    let refused = validate_metadata_cron(&mut storage, &mut dag, binding, rule, "10".to_string(), false, vec![item(&a, "{\"e\":3}")], 700);
    assert!(!refused.success);
    assert!(refused.metadatas.is_empty());
    assert_eq!(dag.len(), 1);
}

#[test]
fn failed_cron_event_gives_way_to_a_new_report() {
    let mut storage = Storage::new();
    let a = signer(1);
    let create = cron_payload("create", "");
    let hash = publish(&mut storage, request(&a, "cron", "mc", "c1"), TransactionPayload::Cron(create.clone()), 1)
        .transaction_hash;
    validate_cron(&mut storage, hash, Some(create), 2).unwrap();
    let rule = storage.get_all_crons().unwrap().remove(0);
    let failed = fdb::node::cron_tx::CronTx::new(
        rule.address.clone(),
        rule.topic.clone(),
        rule.token_type.clone(),
        rule.chain.clone(),
        rule.meta_contract_id.clone(),
        50,
        7,
        "0xabc".to_string(),
        2,
        "".to_string(),
        "boom".to_string(),
        "9".to_string(),
        "".to_string(),
        "".to_string(),
    );
    storage.write_cron_tx(failed.clone()).unwrap();
    assert!(storage.write_cron_tx(failed.clone()).is_ok());
    let sent = send_cron_tx(&mut storage, rule.hash.clone(), "log".to_string(), 7, "0xabc".to_string(), "9".to_string(), 100);
    assert_eq!(sent.cron_tx.status, 1);
    let all = storage.search_cron_tx(rule.address.clone(), rule.chain.clone(), rule.topic.clone()).unwrap();
    assert_eq!(all.len(), 1);
    assert_eq!(all[0].status, 1);
    // A settled event refuses another record.
    assert!(storage.write_cron_tx(failed).is_err());
}

#[test]
fn finalisation_by_the_names_of_the_service() {
    let mut storage = Storage::new();
    let mut dag = Dag::new();
    let who = signer(1);
    let hash = publish(&mut storage, request(&who, "contract", "", "mc1"), TransactionPayload::Plain, 1)
        .transaction_hash;
    assert_eq!(fdb::node::bind_meta_contract(&mut storage, hash, 2).unwrap().status, 1);
    let hash = publish(&mut storage, request(&who, "metadata", "mc", "{}"), TransactionPayload::Plain, 1)
        .transaction_hash;
    let receipt = fdb::node::set_metadata(
        &mut storage,
        &mut dag,
        hash,
        "mc".to_string(),
        true,
        vec![item(&who, "{}")],
        "".to_string(),
        None,
        2,
    )
    .unwrap();
    assert_eq!(receipt.status, 1);
    let create = cron_payload("create", "");
    let hash = publish(&mut storage, request(&who, "cron", "mc", "c"), TransactionPayload::Cron(create.clone()), 1)
        .transaction_hash;
    assert_eq!(fdb::node::set_cron(&mut storage, hash, Some(create), 2).unwrap().status, 1);
    let rule = storage.get_all_crons().unwrap().remove(0);
    let binding = fdb::node::meta_contract::MetaContract::new("tk".to_string(), "mc".to_string(), who.address.clone(), "".to_string());
    let slots = fdb::node::set_metadata_cron(&mut storage, &mut dag, binding, rule, "3".to_string(), true, vec![item(&who, "1")], 5);
    assert_eq!(slots.metadatas.len(), 1);
    let hash = publish(&mut storage, request(&who, "clone", "mc", "x"), TransactionPayload::Plain, 1).transaction_hash;
    let receipt =
        fdb::node::set_clone(&mut storage, &mut dag, hash, "mc".to_string(), true, None, "".to_string(), 2).unwrap();
    assert_eq!(receipt.status, 2);
}

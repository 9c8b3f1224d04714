use fdb::crypto::secp256k1;
use fdb::dht::error::ServiceError;
use fdb::dht::meta_contract::MetaContract;
use fdb::dht::metadatas::Metadata;
use fdb::dht::record::{get_none_error, Cell, Record};
use fdb::dht::result::{FdbMetaContractResult, FdbMetadataResult, FdbTransactionResult, FdbTransactionsResult};
use fdb::dht::transaction::Transaction;
use fdb::dht::{bind_meta_contract, create_metadata, send_transaction, update_metadata, wrapped_try, BindAction, Submission};
use fdb::identity::hash_text;
use fdb::types::dht::{DhtGetResult, DhtsGetResult, FdbDht};
use fdb::types::get::FdbGetResult;
use fdb::types::result::FdbResult;

fn signed(secret: u8, message: &str) -> (String, String) {
    let sk = libsecp256k1::SecretKey::parse(&[secret; 32]).unwrap();
    let pk = libsecp256k1::PublicKey::from_secret_key(&sk);
    let digest = secp256k1::eth_message(message.to_string());
    let (sig, id) = libsecp256k1::sign(&libsecp256k1::Message::parse(&digest), &sk);
    let mut bytes = sig.serialize().to_vec();
    bytes.push(id.serialize() + 27);
    (secp256k1::public_key_to_address(pk.serialize()), format!("0x{}", hex::encode(bytes)))
}

fn submission(method: &str, enc: &str, data: &str) -> Submission {
    let (public_key, signature) = signed(3, data);
    Submission {
        data_key: "dk".into(),
        token_key: "tk".into(),
        alias: "a".into(),
        public_key,
        signature,
        data: data.to_string(),
        enc: enc.to_string(),
        method: method.to_string(),
        nonce: 7,
        from_peer_id: "peer".into(),
        host_id: "host".into(),
        timestamp: 99,
    }
}

fn failure<T>() -> Result<T, ServiceError> {
    Err(ServiceError::InternalError("down".into()))
}

fn missing() -> Result<Metadata, ServiceError> {
    Err(ServiceError::RecordNotFound("dk".into()))
}

#[test]
fn creation_is_accepted_with_a_valid_signature() {
    let s = submission("create", "secp256k1", "service");
    let pk = s.public_key.clone();
    let tx = send_transaction(s, missing());
    assert_eq!(tx.status, 0);
    assert_eq!(tx.error_text, "");
    assert_eq!(tx.service_id, "service");
    assert_eq!(tx.encryption_type, "secp256k1");
    assert_eq!(tx.version, "7");
    assert_eq!(tx.timestamp, 99);
    assert_eq!(
        tx.hash,
        hash_text(&format!("tk7peerhostdkservice{}asecp256k1servicecreate", pk))
    );
}

#[test]
fn submissions_are_rejected_with_their_error() {
    let tx = send_transaction(submission("delete", "secp256k1", "d"), missing());
    assert_eq!((tx.status, tx.error_text.as_str()), (2, "Invalid method: invalid method: delete"));

    let tx = send_transaction(submission("update", "secp256k1", "d"), missing());
    assert_eq!((tx.status, tx.error_text.as_str()), (2, "Record not found: dk"));

    let stored = Metadata::new("dk".into(), "a".into(), "c".into(), "other".into(), "secp256k1".into(), "svc".into());
    let s = submission("update", "", "d");
    let pk = s.public_key.clone();
    let tx = send_transaction(s, Ok(stored));
    assert_eq!(tx.error_text, format!("Invalid owner: not owner of data_key: {}", pk));
    assert_eq!(tx.service_id, "svc");

    let tx = send_transaction(submission("create", "", "d"), missing());
    assert_eq!(tx.error_text, "Does not specify encryption");
    let tx = send_transaction(submission("create", "rsa", "d"), missing());
    assert_eq!(tx.error_text, "Not supported encryption: rsa");

    let mut s = submission("create", "secp256k1", "d");
    s.signature = signed(3, "other").1;
    let tx = send_transaction(s, missing());
    assert_eq!(tx.error_text, format!("Invalid signature: not owner of data_key: {}", pk));
    let tx = send_transaction(submission("create", "ed25519", "d"), missing());
    assert_eq!(tx.status, 2);
}

#[test]
fn update_is_verified_under_the_scheme_of_the_entry() {
    let s = submission("update", "ignored", "d");
    let stored =
        Metadata::new("dk".into(), "a".into(), "c".into(), s.public_key.clone(), "secp256k1".into(), "svc".into());
    let tx = send_transaction(s, Ok(stored));
    assert_eq!((tx.status, tx.error_text.as_str()), (0, ""));
    assert_eq!((tx.encryption_type.as_str(), tx.service_id.as_str()), ("secp256k1", "svc"));
}

#[test]
fn bindings_of_the_key_table() {
    let tx = send_transaction(submission("create", "secp256k1", "service"), missing());
    let (action, status, text) = bind_meta_contract(&tx, Err(ServiceError::RecordNotFound("tk".into())));
    assert_eq!((status, text.as_str()), (1, ""));
    match action {
        BindAction::Write(m) => {
            assert_eq!((m.token_key.as_str(), m.service_id.as_str()), ("tk", "service"));
            assert_eq!(m.public_key, tx.public_key);
        }
        _ => panic!("a new binding is recorded"),
    }
    let own = MetaContract { token_key: "tk".into(), service_id: "old".into(), public_key: tx.public_key.clone() };
    let (action, status, _) = bind_meta_contract(&tx, Ok(own));
    assert_eq!(status, 1);
    assert!(matches!(action, BindAction::Rebind { token_key, service_id } if token_key == "tk" && service_id == "service"));
    let foreign = MetaContract { token_key: "tk".into(), service_id: "old".into(), public_key: "other".into() };
    let (action, status, text) = bind_meta_contract(&tx, Ok(foreign));
    assert!(matches!(action, BindAction::Nothing));
    assert_eq!((status, text), (2, format!("Invalid owner: {}", tx.public_key)));
    let (action, status, text) = bind_meta_contract(&tx, Err(ServiceError::InternalError("down".into())));
    assert!(matches!(action, BindAction::Nothing));
    assert_eq!((status, text.as_str()), (2, "Internal error: down"));
}

#[test]
fn entries_of_the_key_table() {
    let tx = send_transaction(submission("create", "secp256k1", "service"), missing());
    let hash = tx.hash.clone();
    let (entry, done) = create_metadata(tx, true, "cid".into(), "".into());
    let entry = entry.unwrap();
    assert_eq!((entry.data_key.as_str(), entry.cid.as_str(), entry.service_id.as_str()), ("dk", "cid", "service"));
    assert_eq!((done.status, done.hash), (1, hash));
    let tx = send_transaction(submission("create", "secp256k1", "service"), missing());
    let (entry, done) = create_metadata(tx, false, "cid".into(), "refused".into());
    assert!(entry.is_none());
    assert_eq!((done.status, done.error_text.as_str()), (2, "refused"));

    let tx = send_transaction(submission("create", "secp256k1", "service"), missing());
    let stored = Metadata::new("dk".into(), "a".into(), "c1".into(), "pk".into(), "secp256k1".into(), "svc".into());
    let (entry, done) = update_metadata(tx, true, Ok(stored), "c2".into(), "".into());
    let entry = entry.unwrap();
    assert_eq!((entry.cid.as_str(), entry.public_key.as_str(), done.status), ("c2", "pk", 1));
    let tx = send_transaction(submission("create", "secp256k1", "service"), missing());
    let (entry, done) = update_metadata(tx, true, missing(), "c2".into(), "".into());
    assert!(entry.is_none());
    assert_eq!((done.status, done.error_text.as_str()), (2, "Record not found: dk"));
    let tx = send_transaction(submission("create", "secp256k1", "service"), missing());
    let (entry, done) = update_metadata(tx, false, missing(), "c2".into(), "no".into());
    assert!(entry.is_none());
    assert_eq!((done.status, done.error_text.as_str()), (2, "no"));
}

#[test]
fn transactions_of_the_key_table() {
    let hash = Transaction::generate_hash(
        "a".into(), "b".into(), "c".into(), "d".into(), "e".into(), "f".into(), "g".into(), "h".into(), "i".into(),
        "j".into(), "k".into(), "l".into(), "m".into(),
    );
    assert_eq!(hash, hash_text("abcdefghijklm"));
    let tx = Transaction::new(
        "a".into(), "b".into(), "c".into(), "d".into(), "e".into(), "f".into(), "g".into(), "h".into(), "i".into(),
        "j".into(), 5, "k".into(), "l".into(), "m".into(),
    );
    assert_eq!(tx.hash, hash);
    assert_eq!((tx.status, tx.timestamp, tx.error_text.as_str()), (0, 5, ""));
    assert_eq!((tx.from_peer_id.as_str(), tx.method.as_str()), ("e", "m"));
    assert_eq!(wrapped_try(|| "x"), "x");
}

#[test]
fn rows_of_the_key_table() {
    let row = vec![
        Cell::Integer(4),
        Cell::Text("dk".into()),
        Cell::Null,
        Cell::Text("cid".into()),
        Cell::Text("pk".into()),
        Cell::Text("enc".into()),
        Cell::Binary(vec![1]),
    ];
    let record = Record::from_row(&row).unwrap();
    assert_eq!((record.uuid, record.data_key.as_str(), record.alias.as_str()), (4, "dk", ""));
    assert_eq!((record.cid.as_str(), record.public_key.as_str(), record.enc.as_str()), ("cid", "pk", "enc"));
    assert!(record.success && record.err_msg.is_empty());
    let bad = vec![
        Cell::Text("4".into()),
        Cell::Text("dk".into()),
        Cell::Text("a".into()),
        Cell::Text("cid".into()),
        Cell::Text("pk".into()),
        Cell::Text("enc".into()),
    ];
    let e = Record::from_row(&bad).unwrap_err();
    assert_eq!((e.code, e.message), (None, Some("Value doesn't exist".to_string())));
    let bad = vec![Cell::Integer(4), Cell::Text("dk".into()), Cell::Null, Cell::Float, Cell::Null, Cell::Null];
    assert!(Record::from_row(&bad).is_err());
    assert_eq!(get_none_error().message.unwrap(), "Value doesn't exist");
    assert_eq!(Cell::Integer(3).as_integer(), Some(3));
    assert_eq!(Cell::Null.as_string(), None);
    let kept = Record::from_res(Ok(record));
    assert_eq!(kept.uuid, 4);
    let failed = Record::from_res(Err("boom".into()));
    assert!(!failed.success);
    assert_eq!((failed.err_msg.as_str(), failed.uuid, failed.data_key.as_str()), ("boom", 0, ""));
}

#[test]
fn results_of_the_key_table() {
    let r = FdbTransactionResult::from(failure());
    assert!(!r.success && r.err_msg == "Internal error: down" && r.transaction.hash.is_empty());
    assert!(FdbTransactionsResult::from(Ok(vec![])).success);
    let m = Metadata::new("dk".into(), "a".into(), "c".into(), "pk".into(), "e".into(), "s".into());
    assert_eq!(FdbMetadataResult::from(Ok(m)).metadata.cid, "c");
    assert!(!FdbMetaContractResult::from(failure()).success);
    assert_eq!(ServiceError::NoEncryptionType().to_string(), "Does not specify encryption");
    assert_eq!(ServiceError::NotSupportedEncryptionType("x".into()).to_string(), "Not supported encryption: x");
}

#[test]
fn shared_results() {
    let r = FdbResult::from_err_str("boom");
    assert!(!r.success && r.err_msg == "boom");
    let r = FdbResult::from_res(Ok(()));
    assert!(r.success && r.err_msg.is_empty());
    let e = marine_sqlite_connector::Error { code: Some(5), message: Some("locked".into()) };
    let r = FdbResult::from_res(Err(e));
    assert!(!r.success);
    assert_eq!(r.err_msg, "locked (code 5)");
    let g = FdbGetResult::from(Ok("d".into()));
    assert!(g.success && g.data == "d");
    let g = FdbGetResult::from(Err("e".into()));
    assert!(!g.success && g.error == "e" && g.data.is_empty());
    let one = DhtGetResult::from(Err("e".into()));
    assert!(!one.success && one.data.cid.is_empty());
    let entry = FdbDht { public_key: "pk".into(), alias: "a".into(), cid: "c".into(), data_key: "dk".into() };
    let many = DhtsGetResult::from(Ok(vec![entry]));
    assert!(many.success && many.datas.len() == 1 && many.error.is_empty());
    assert!(DhtsGetResult::from(Err("e".into())).datas.is_empty());
}

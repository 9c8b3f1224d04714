use fdb::ipfsdag::block::{assemble, content_value, serialize, Block};
use fdb::ipfsdag::store::{
    get_timeout_string, make_cmd_args, unwrap_mounted_binary_result, unwrap_std, BinaryResult, Dag, PutError,
};
use fdb::identity::hash_text;
use fdb::types::ipfs::{IpfsDagGetResult, IpfsDagPutResult};

#[test]
fn serialize_keeps_json_content_compact() {
    let block = serialize("{ \"x\" : 1 }".to_string(), "".to_string(), "{}".to_string(), 5).unwrap();
    assert_eq!(block.content, "{\"x\":1}");
    assert_eq!(block.previous, "");
    assert_eq!(block.transaction, "{}");
    assert_eq!(block.timestamp, 5);
}

#[test]
fn serialize_quotes_content_that_is_no_json() {
    let block = serialize("plain \"text\"".to_string(), "".to_string(), "{}".to_string(), 5).unwrap();
    assert_eq!(block.content, "\"plain \\\"text\\\"\"");
}

#[test]
fn serialize_needs_a_json_envelope() {
    assert!(serialize("1".to_string(), "".to_string(), "not json".to_string(), 5).is_none());
}

#[test]
fn block_parts() {
    assert_eq!(content_value(Some("[1]".to_string()), "[ 1 ]"), "[1]");
    assert_eq!(content_value(None, "a"), "\"a\"");
    assert!(assemble(1, "1".to_string(), "".to_string(), None).is_none());
    let block = assemble(1, "1".to_string(), "p".to_string(), Some("{}".to_string())).unwrap();
    assert_eq!(block.previous, "p");
}

#[test]
fn block_json_has_sorted_members() {
    let first = Block {
        timestamp: 12,
        content: "{\"x\":1}".to_string(),
        previous: "".to_string(),
        transaction: "{}".to_string(),
    };
    assert_eq!(
        first.to_json(),
        "{\"content\":{\"x\":1},\"previous\":\"{}\",\"timestamp\":12,\"transaction\":{}}"
    );
    let second = Block { previous: "Qm\"x".to_string(), ..first.clone() };
    assert_eq!(
        second.to_json(),
        "{\"content\":{\"x\":1},\"previous\":{\"/\":\"Qm\\\"x\"},\"timestamp\":12,\"transaction\":{}}"
    );
    // The JSON of a block is JSON.
    let parsed: serde_json::Value = serde_json::from_str(&second.to_json()).unwrap();
    assert_eq!(parsed.to_string(), second.to_json());
}

#[test]
fn put_block_answers_the_identity_of_the_block() {
    let mut dag = Dag::new();
    let put = dag.put_block("{\"x\":1}".to_string(), "".to_string(), "{}".to_string(), 12);
    assert!(put.success);
    assert_eq!(put.error, "");
    let json = "{\"content\":{\"x\":1},\"previous\":\"{}\",\"timestamp\":12,\"transaction\":{}}";
    assert_eq!(put.cid, hash_text(json));
    assert_eq!(dag.len(), 1);
    let got = dag.get(put.cid.clone());
    assert!(got.success);
    assert_eq!(got.block, json);
    assert_eq!(dag.get_block(&put.cid).unwrap().content, "{\"x\":1}");
}

#[test]
fn put_is_idempotent() {
    let mut dag = Dag::new();
    let one = dag.put_block("1".to_string(), "".to_string(), "{}".to_string(), 12);
    let two = dag.put_block("1".to_string(), "".to_string(), "{}".to_string(), 12);
    assert!(one.success && two.success);
    assert_eq!(one.cid, two.cid);
    assert_eq!(dag.len(), 1);
    let three = dag.put_block("1".to_string(), "".to_string(), "{}".to_string(), 13);
    assert_ne!(three.cid, one.cid);
    assert_eq!(dag.len(), 2);
}

#[test]
fn put_content_starts_a_chain() {
    let mut dag = Dag::new();
    let put = dag.put("hello".to_string(), 3);
    assert!(put.success);
    let block = dag.get_block(&put.cid).unwrap();
    assert_eq!(block.content, "\"hello\"");
    assert_eq!(block.previous, "");
    assert_eq!(block.transaction, "{}");
}

#[test]
fn put_refuses_unknown_previous_and_bad_envelope() {
    let mut dag = Dag::new();
    let dangling = dag.put_block("1".to_string(), "nowhere".to_string(), "{}".to_string(), 12);
    assert!(!dangling.success);
    assert_eq!(dangling.cid, "");
    assert_eq!(dangling.error, "previous block not found");
    let bad = dag.put_block("1".to_string(), "".to_string(), "{".to_string(), 12);
    assert!(!bad.success);
    assert_eq!(bad.error, "transaction envelope is not valid JSON");
    assert_eq!(dag.len(), 0);
    assert_eq!(PutError::IdentifierClash.to_string(), "content identifier not usable");
    let block = Block {
        timestamp: 1,
        content: "1".to_string(),
        previous: "nowhere".to_string(),
        transaction: "{}".to_string(),
    };
    assert_eq!(dag.store(block), Err(PutError::UnknownPrevious));
}

#[test]
fn get_of_unknown_block_fails() {
    let dag = Dag::new();
    let got = dag.get("nowhere".to_string());
    assert!(!got.success);
    assert_eq!(got.error, "block not found");
    assert_eq!(got.block, "");
    assert!(dag.get_block(&"".to_string()).is_none());
}

#[test]
fn history_walks_previous_links_newest_first() {
    let mut dag = Dag::new();
    let a = dag.put_block("1".to_string(), "".to_string(), "{}".to_string(), 1).cid;
    let b = dag.put_block("2".to_string(), a.clone(), "{}".to_string(), 2).cid;
    let c = dag.put_block("3".to_string(), b.clone(), "{}".to_string(), 3).cid;
    let all = dag.read_history(&c, dag.len());
    let contents: Vec<String> = all.iter().map(|x| x.content.clone()).collect();
    assert_eq!(contents, vec!["3", "2", "1"]);
    assert_eq!(all[0].previous, b);
    assert_eq!(all[1].previous, a);
    assert_eq!(all[2].previous, "");
    // A limit ends the walk early.
    assert_eq!(dag.read_history(&c, 2).len(), 2);
    assert_eq!(dag.read_history(&c, 0).len(), 0);
    assert_eq!(dag.read_history(&c, 100).len(), 3);
    assert_eq!(dag.read_history(&a, 100).len(), 1);
    assert_eq!(dag.read_history(&"".to_string(), 100).len(), 0);
    assert_eq!(dag.read_history(&"nowhere".to_string(), 100).len(), 0);
}

#[test]
fn command_line_of_the_client() {
    assert_eq!(get_timeout_string(0), "0s");
    assert_eq!(get_timeout_string(15), "15s");
    let args = vec!["dag".to_string(), "get".to_string(), "cid".to_string()];
    assert_eq!(
        make_cmd_args(args, "/ip4/127.0.0.1/tcp/5001".to_string(), 1),
        vec!["dag", "get", "cid", "--timeout", "1s", "--api", "/ip4/127.0.0.1/tcp/5001"]
    );
    assert_eq!(make_cmd_args(vec![], "a".to_string(), 2), vec!["--timeout", "2s", "--api", "a"]);
}

#[test]
fn command_results() {
    let ok = BinaryResult { ret_code: 0, error: "".to_string(), stdout: b"cid\n".to_vec(), stderr: vec![] };
    assert_eq!(unwrap_mounted_binary_result(ok), Ok("cid\n".to_string()));
    let failed = BinaryResult {
        ret_code: 1,
        error: "boom".to_string(),
        stdout: b"ignored".to_vec(),
        stderr: b"no such file".to_vec(),
    };
    assert_eq!(
        unwrap_mounted_binary_result(failed),
        Err("ipfs cli call failed: error: boom, stderr: no such file".to_string())
    );
    let garbled = BinaryResult { ret_code: 0, error: "".to_string(), stdout: vec![0xff], stderr: vec![] };
    assert_eq!(
        unwrap_mounted_binary_result(garbled),
        Err("stdout or stderr contains non valid UTF8 string".to_string())
    );
    assert_eq!(unwrap_std(Some(Ok("x".to_string()))), Ok("x".to_string()));
    assert_eq!(unwrap_std(Some(Err("e".to_string()))), Err("ipfs cli call failed: e".to_string()));
}

#[test]
fn results_of_the_content_store() {
    let put = IpfsDagPutResult::from(Ok("cid".to_string()));
    assert!(put.success && put.error.is_empty() && put.cid == "cid");
    let put = IpfsDagPutResult::from(Err("e".to_string()));
    assert!(!put.success && put.error == "e" && put.cid.is_empty());
    let got = IpfsDagGetResult::from(Ok("b".to_string()));
    assert!(got.success && got.error.is_empty() && got.block == "b");
    let got = IpfsDagGetResult::from(Err("e".to_string()));
    assert!(!got.success && got.error == "e" && got.block.is_empty());
}

#[test]
fn content_store_by_its_functions() {
    let mut dag = Dag::new();
    let first = fdb::ipfsdag::put(&mut dag, "{\"a\":1}".to_string(), 1);
    assert!(first.success);
    let second = fdb::ipfsdag::put_block(&mut dag, "{\"a\":2}".to_string(), first.cid.clone(), "{}".to_string(), 2);
    assert!(second.success);
    let got = fdb::ipfsdag::get(&dag, second.cid);
    assert!(got.success);
    assert_eq!(
        got.block,
        format!("{{\"content\":{{\"a\":2}},\"previous\":{{\"/\":\"{}\"}},\"timestamp\":2,\"transaction\":{{}}}}", first.cid)
    );
    assert!(!fdb::ipfsdag::get(&dag, "nowhere".to_string()).success);
}

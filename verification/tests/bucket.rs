use bidon::bucket::{
    Answer, BucketActor, BucketActorMessages, BucketActorState, BucketErrors, BucketMsgParams,
    Return, Value,
};
use std::collections::HashMap;
use tokio::sync::oneshot;

fn started() -> BucketActorState {
    let mut state = BucketActorState::new();
    BucketActor {}.init(&mut state);
    state
}

/// Serves one message and returns what arrived at the caller's end.
fn ask(
    state: &mut BucketActorState,
    kind: fn(BucketMsgParams) -> BucketActorMessages,
    key: &str,
    value: Option<Value>,
) -> Return {
    let (tx, mut rx) = oneshot::channel::<Return>();
    let msg = kind(BucketMsgParams { key: key.to_string(), value, ch: tx });
    BucketActor {}.handle(state, msg).send();
    rx.try_recv().expect("exactly one reply per request")
}

#[test]
fn test_bucket_crud() {
    let mut bucket = started();

    let fixture = HashMap::from([
        ("foo", "foo"),
        ("bar", "bar"),
        ("xpto", "xpto"),
        ("long", "aaaaaaaaaaaaaaaaaaaaaaaaaaaaaaaaaaaaaaaaaaaaaaaaaaaaaaaaaaaaaaaaaaaaaaaaaaaaaaaaaaaaaaaaaaaaaaaaaaaaaaaaaaaaaaaaa"),
    ]);

    for k in fixture.keys() {
        match fixture.get(k) {
            Some(v) => {
                let ret = ask(&mut bucket, BucketActorMessages::Put, k, Some(Value::from(*v)));
                assert_eq!(ret.err, BucketErrors::NoError);
                assert_eq!(ret.val, None);
            }
            None => {}
        }
    }

    for k in fixture.keys() {
        let expected = Value::from(*fixture.get(k).unwrap());
        let ret = ask(&mut bucket, BucketActorMessages::Get, k, None);
        assert_eq!(ret.err, BucketErrors::NoError);
        assert_eq!(ret.val, Some(expected));
    }

    {
        let expected = Value::from(*fixture.get(&"bar").unwrap());
        let ret = ask(&mut bucket, BucketActorMessages::Put, "bar", Some(Value::from("new")));
        assert_eq!(ret.err, BucketErrors::NoError);
        assert_eq!(ret.val, Some(expected));
    }

    {
        let expected = Value::from(*fixture.get(&"foo").unwrap());
        let ret = ask(&mut bucket, BucketActorMessages::Delete, "foo", None);
        assert_eq!(ret.err, BucketErrors::NoError);
        assert_eq!(ret.val, Some(expected));
    }

    for k in vec!["foo", "not"] {
        let ret = ask(&mut bucket, BucketActorMessages::Get, k, None);
        assert_eq!(ret.err, BucketErrors::NotFound);
    }
}

#[test]
fn bucket_starts_empty() {
    let bucket = BucketActorState::new();
    assert_eq!(bucket.len(), 0);
    assert!(!bucket.contains("foo"));
}

#[test]
fn init_empties_the_map() {
    let mut bucket = started();
    ask(&mut bucket, BucketActorMessages::Put, "foo", Some(b"bar".to_vec()));
    assert_eq!(bucket.len(), 1);
    BucketActor {}.init(&mut bucket);
    assert_eq!(bucket.len(), 0);
    let ret = ask(&mut bucket, BucketActorMessages::Get, "foo", None);
    assert_eq!(ret.err, BucketErrors::NotFound);
    assert_eq!(ret.val, None);
}

#[test]
fn get_of_absent_key_is_not_found_without_value() {
    let mut bucket = started();
    let ret = ask(&mut bucket, BucketActorMessages::Get, "nope", None);
    assert_eq!(ret.err, BucketErrors::NotFound);
    assert_eq!(ret.val, None);
    assert_eq!(bucket.len(), 0);
}

#[test]
fn get_ignores_a_value_in_the_request() {
    let mut bucket = started();
    ask(&mut bucket, BucketActorMessages::Put, "k", Some(vec![1, 2, 3]));
    let ret = ask(&mut bucket, BucketActorMessages::Get, "k", Some(vec![9]));
    assert_eq!(ret.err, BucketErrors::NoError);
    assert_eq!(ret.val, Some(vec![1, 2, 3]));
    assert_eq!(bucket.len(), 1);
}

#[test]
fn put_reports_previous_value_then_get_sees_latest() {
    let mut bucket = started();
    let first = ask(&mut bucket, BucketActorMessages::Put, "k", Some(b"v1".to_vec()));
    assert_eq!(first.err, BucketErrors::NoError);
    assert_eq!(first.val, None);
    let second = ask(&mut bucket, BucketActorMessages::Put, "k", Some(b"v2".to_vec()));
    assert_eq!(second.err, BucketErrors::NoError);
    assert_eq!(second.val, Some(b"v1".to_vec()));
    let read = ask(&mut bucket, BucketActorMessages::Get, "k", None);
    assert_eq!(read.err, BucketErrors::NoError);
    assert_eq!(read.val, Some(b"v2".to_vec()));
    assert_eq!(bucket.len(), 1);
}

#[test]
fn put_without_value_is_a_failure_and_changes_nothing() {
    let mut bucket = started();
    ask(&mut bucket, BucketActorMessages::Put, "k", Some(b"v".to_vec()));
    let ret = ask(&mut bucket, BucketActorMessages::Put, "k", None);
    assert_eq!(ret.err, BucketErrors::Failure);
    assert_eq!(ret.val, None);
    let other = ask(&mut bucket, BucketActorMessages::Put, "fresh", None);
    assert_eq!(other.err, BucketErrors::Failure);
    assert_eq!(other.val, None);
    assert_eq!(bucket.len(), 1);
    assert!(!bucket.contains("fresh"));
    let read = ask(&mut bucket, BucketActorMessages::Get, "k", None);
    assert_eq!(read.val, Some(b"v".to_vec()));
}

#[test]
fn put_accepts_an_empty_value_and_an_empty_key() {
    let mut bucket = started();
    let ret = ask(&mut bucket, BucketActorMessages::Put, "", Some(Vec::new()));
    assert_eq!(ret.err, BucketErrors::NoError);
    assert_eq!(ret.val, None);
    let read = ask(&mut bucket, BucketActorMessages::Get, "", None);
    assert_eq!(read.err, BucketErrors::NoError);
    assert_eq!(read.val, Some(Vec::new()));
}

#[test]
fn delete_returns_value_then_get_is_not_found() {
    let mut bucket = started();
    ask(&mut bucket, BucketActorMessages::Put, "k", Some(b"gone".to_vec()));
    let removed = ask(&mut bucket, BucketActorMessages::Delete, "k", None);
    assert_eq!(removed.err, BucketErrors::NoError);
    assert_eq!(removed.val, Some(b"gone".to_vec()));
    assert_eq!(bucket.len(), 0);
    let read = ask(&mut bucket, BucketActorMessages::Get, "k", None);
    assert_eq!(read.err, BucketErrors::NotFound);
    assert_eq!(read.val, None);
}

#[test]
fn delete_of_absent_key_is_not_found_and_changes_nothing() {
    let mut bucket = started();
    ask(&mut bucket, BucketActorMessages::Put, "kept", Some(b"v".to_vec()));
    let ret = ask(&mut bucket, BucketActorMessages::Delete, "absent", None);
    assert_eq!(ret.err, BucketErrors::NotFound);
    assert_eq!(ret.val, None);
    assert_eq!(bucket.len(), 1);
    let read = ask(&mut bucket, BucketActorMessages::Get, "kept", None);
    assert_eq!(read.val, Some(b"v".to_vec()));
}

#[test]
fn delete_twice_second_is_not_found() {
    let mut bucket = started();
    ask(&mut bucket, BucketActorMessages::Put, "k", Some(b"v".to_vec()));
    let first = ask(&mut bucket, BucketActorMessages::Delete, "k", None);
    assert_eq!(first.err, BucketErrors::NoError);
    let second = ask(&mut bucket, BucketActorMessages::Delete, "k", None);
    assert_eq!(second.err, BucketErrors::NotFound);
    assert_eq!(second.val, None);
}

#[test]
fn reply_is_a_copy_of_the_stored_value() {
    let mut bucket = started();
    ask(&mut bucket, BucketActorMessages::Put, "k", Some(vec![1, 2, 3]));
    let mut read = ask(&mut bucket, BucketActorMessages::Get, "k", None);
    read.val.as_mut().unwrap().push(4);
    let again = ask(&mut bucket, BucketActorMessages::Get, "k", None);
    assert_eq!(again.val, Some(vec![1, 2, 3]));
}

#[test]
fn handlers_return_the_answer_for_the_destination_they_were_given() {
    let mut bucket = started();
    let (tx, mut rx) = oneshot::channel::<Return>();
    let (other_tx, mut other_rx) = oneshot::channel::<Return>();
    let ans = BucketActor {}.handle_put(
        &mut bucket,
        BucketMsgParams { key: "k".to_string(), value: Some(vec![7]), ch: tx },
    );
    assert_eq!(ans.ret.err, BucketErrors::NoError);
    assert_eq!(ans.ret.val, None);
    // Nothing is delivered before the answer is sent.
    assert!(rx.try_recv().is_err());
    ans.send();
    assert_eq!(rx.try_recv().unwrap().err, BucketErrors::NoError);

    let ans = BucketActor {}.handle_get(
        &mut bucket,
        BucketMsgParams { key: "k".to_string(), value: None, ch: other_tx },
    );
    assert_eq!(ans.ret.val, Some(vec![7]));
    ans.send();
    let got = other_rx.try_recv().unwrap();
    assert_eq!(got.val, Some(vec![7]));
    assert_eq!(got.err, BucketErrors::NoError);

    let (tx, mut rx) = oneshot::channel::<Return>();
    let ans = BucketActor {}.handle_delete(
        &mut bucket,
        BucketMsgParams { key: "k".to_string(), value: None, ch: tx },
    );
    assert_eq!(ans.ret.val, Some(vec![7]));
    ans.send();
    assert_eq!(rx.try_recv().unwrap().val, Some(vec![7]));
}

#[test]
fn send_delivers_the_reply_it_holds() {
    let (tx, mut rx) = oneshot::channel::<Return>();
    let back =
        Answer { ch: tx, ret: Return { val: Some(vec![1, 2]), err: BucketErrors::Conflict } }.send();
    assert!(back.is_none());
    let got = rx.try_recv().unwrap();
    assert_eq!(got.val, Some(vec![1, 2]));
    assert_eq!(got.err, BucketErrors::Conflict);
}

#[test]
fn a_reply_destination_that_is_gone_is_ignored() {
    let mut bucket = started();
    let (tx, rx) = oneshot::channel::<Return>();
    drop(rx);
    let msg = BucketActorMessages::Put(BucketMsgParams {
        key: "k".to_string(),
        value: Some(b"v".to_vec()),
        ch: tx,
    });
    let back = BucketActor {}.handle(&mut bucket, msg).send();
    // The reply comes back as it was, with nobody to take it.
    let back = back.expect("an undelivered reply comes back");
    assert_eq!(back.err, BucketErrors::NoError);
    assert_eq!(back.val, None);
    // The bucket goes on serving, and the write took place.
    let read = ask(&mut bucket, BucketActorMessages::Get, "k", None);
    assert_eq!(read.err, BucketErrors::NoError);
    assert_eq!(read.val, Some(b"v".to_vec()));
}

#[test]
fn refuse_answers_failure_for_every_kind() {
    for kind in [
        BucketActorMessages::Get as fn(BucketMsgParams) -> BucketActorMessages,
        BucketActorMessages::Put,
        BucketActorMessages::Delete,
    ] {
        let (tx, mut rx) = oneshot::channel::<Return>();
        let msg = kind(BucketMsgParams { key: "k".to_string(), value: Some(vec![1]), ch: tx });
        BucketActor {}.refuse(msg).send();
        let got = rx.try_recv().unwrap();
        assert_eq!(got.err, BucketErrors::Failure);
        assert_eq!(got.val, None);
    }
}

#[test]
fn writes_to_distinct_keys_are_all_visible_in_any_order() {
    let keys = ["a", "b", "c", "d"];
    let orders: [[usize; 4]; 4] = [[0, 1, 2, 3], [3, 2, 1, 0], [2, 0, 3, 1], [1, 3, 0, 2]];
    for order in orders {
        let mut bucket = started();
        ask(&mut bucket, BucketActorMessages::Put, "untouched", Some(b"same".to_vec()));
        for i in order {
            let ret = ask(
                &mut bucket,
                BucketActorMessages::Put,
                keys[i],
                Some(keys[i].as_bytes().to_vec()),
            );
            assert_eq!(ret.err, BucketErrors::NoError);
            assert_eq!(ret.val, None);
        }
        assert_eq!(bucket.len(), 5);
        for k in keys {
            let read = ask(&mut bucket, BucketActorMessages::Get, k, None);
            assert_eq!(read.err, BucketErrors::NoError);
            assert_eq!(read.val, Some(k.as_bytes().to_vec()));
        }
        let read = ask(&mut bucket, BucketActorMessages::Get, "untouched", None);
        assert_eq!(read.val, Some(b"same".to_vec()));
    }
}

#[test]
fn requests_are_served_in_the_order_given() {
    let mut bucket = started();
    let mut receivers = Vec::new();
    let mut queue = Vec::new();
    for (kind, key, value) in [
        (BucketActorMessages::Put as fn(BucketMsgParams) -> BucketActorMessages, "k", Some(b"1".to_vec())),
        (BucketActorMessages::Get, "k", None),
        (BucketActorMessages::Put, "k", Some(b"2".to_vec())),
        (BucketActorMessages::Delete, "k", None),
        (BucketActorMessages::Get, "k", None),
    ] {
        let (tx, rx) = oneshot::channel::<Return>();
        receivers.push(rx);
        queue.push(kind(BucketMsgParams { key: key.to_string(), value, ch: tx }));
    }
    for msg in queue {
        BucketActor {}.handle(&mut bucket, msg).send();
    }
    let replies: Vec<Return> = receivers.into_iter().map(|mut rx| rx.try_recv().unwrap()).collect();
    assert_eq!(replies[0].val, None);
    assert_eq!(replies[1].val, Some(b"1".to_vec()));
    assert_eq!(replies[2].val, Some(b"1".to_vec()));
    assert_eq!(replies[3].val, Some(b"2".to_vec()));
    assert_eq!(replies[4].val, None);
    assert_eq!(replies[4].err, BucketErrors::NotFound);
}

//! The bucket: exclusive owner of one namespace's key-value map.

use vstd::hash_map::StringHashMap;
use vstd::prelude::*;

verus! {

/// The opaque bytes stored under a key.
pub type Value = Vec<u8>;

/// The error kinds a reply can carry.
#[derive(Clone, Debug, PartialEq, Eq, Structural)]
pub enum BucketErrors {
    NoError,
    Failure,
    NotFound,
    Conflict,
}

/// The reply to a request: an optional value and an error kind.
#[derive(Clone, Debug)]
pub struct Return {
    pub val: Option<Value>,
    pub err: BucketErrors,
}

/// What a `Return` says, with the value as a sequence of bytes.
pub struct ReturnView {
    pub val: Option<Seq<u8>>,
    pub err: BucketErrors,
}

impl View for Return {
    type V = ReturnView;

    open spec fn view(&self) -> ReturnView {
        ReturnView {
            val: value_view(self.val),
            err: self.err,
        }
    }
}

/// Declares `tokio::sync::oneshot::Sender`, the sending half of a single-use
/// channel, as an opaque type. It is the reply destination that every request
/// carries; the library only moves it to where the reply is sent.
#[verifier::external_type_specification]
#[verifier::external_body]
#[verifier::reject_recursive_types(T)]
pub struct ExReplySender<T>(tokio::sync::oneshot::Sender<T>);

/// A request addressed to a bucket.
#[derive(Debug)]
pub struct BucketMsgParams {
    pub key: String,
    pub value: Option<Value>,
    pub ch: tokio::sync::oneshot::Sender<Return>,
}

/// The messages a bucket accepts.
#[derive(Debug)]
pub enum BucketActorMessages {
    Get(BucketMsgParams),
    Put(BucketMsgParams),
    Delete(BucketMsgParams),
}

impl BucketActorMessages {
    /// The request that the message carries, whatever its kind.
    pub open spec fn params(self) -> BucketMsgParams {
        match self {
            BucketActorMessages::Get(p) => p,
            BucketActorMessages::Put(p) => p,
            BucketActorMessages::Delete(p) => p,
        }
    }
}

/// A reply together with the destination it is owed to.
#[derive(Debug)]
pub struct Answer {
    pub ch: tokio::sync::oneshot::Sender<Return>,
    pub ret: Return,
}

/// Calls `tokio::sync::oneshot::Sender::send`, which hands `ret` to the
/// receiving half, or gives it back when that half is gone. Claimed: what
/// comes back is the reply that went in. Whether the reply is delivered
/// depends on the receiver, and nothing is claimed of it.
#[verifier::external_body]
fn deliver(ch: tokio::sync::oneshot::Sender<Return>, ret: Return) -> (back: Option<Return>)
    ensures
        back matches Some(r) ==> r == ret,
{
    ch.send(ret).err()
}

impl Answer {
    /// Delivers the reply to its destination, consuming both. A destination
    /// that nobody listens on any more is not an error: the reply then comes
    /// back, for the caller to drop.
    pub fn send(self) -> (back: Option<Return>)
        ensures
            back matches Some(r) ==> r == self.ret,
    {
        deliver(self.ch, self.ret)
    }
}

/// The reply to `Get(key)` on a map `store`.
pub open spec fn get_reply(store: Map<Seq<char>, Seq<u8>>, key: Seq<char>) -> ReturnView {
    if store.contains_key(key) {
        ReturnView { val: Some(store[key]), err: BucketErrors::NoError }
    } else {
        ReturnView { val: None, err: BucketErrors::NotFound }
    }
}

/// The reply to `Put(key, value)` on a map `store`: a request without a value
/// is malformed; otherwise the reply carries what the key held before.
pub open spec fn put_reply(
    store: Map<Seq<char>, Seq<u8>>,
    key: Seq<char>,
    value: Option<Seq<u8>>,
) -> ReturnView {
    match value {
        Some(_) => ReturnView {
            val: if store.contains_key(key) {
                Some(store[key])
            } else {
                None
            },
            err: BucketErrors::NoError,
        },
        None => ReturnView { val: None, err: BucketErrors::Failure },
    }
}

/// The map that `Put(key, value)` leaves behind.
pub open spec fn put_store(
    store: Map<Seq<char>, Seq<u8>>,
    key: Seq<char>,
    value: Option<Seq<u8>>,
) -> Map<Seq<char>, Seq<u8>> {
    match value {
        Some(v) => store.insert(key, v),
        None => store,
    }
}

/// The reply to `Delete(key)` on a map `store`.
pub open spec fn delete_reply(store: Map<Seq<char>, Seq<u8>>, key: Seq<char>) -> ReturnView {
    if store.contains_key(key) {
        ReturnView { val: Some(store[key]), err: BucketErrors::NoError }
    } else {
        ReturnView { val: None, err: BucketErrors::NotFound }
    }
}

/// The map that `Delete(key)` leaves behind.
pub open spec fn delete_store(store: Map<Seq<char>, Seq<u8>>, key: Seq<char>) -> Map<
    Seq<char>,
    Seq<u8>,
> {
    store.remove(key)
}

/// The view of an optional value.
pub open spec fn value_view(value: Option<Value>) -> Option<Seq<u8>> {
    match value {
        Some(v) => Some(v@),
        None => None,
    }
}

/// The reply that a bucket holding `store` owes to `msg`.
pub open spec fn reply_to(store: Map<Seq<char>, Seq<u8>>, msg: BucketActorMessages) -> ReturnView {
    match msg {
        BucketActorMessages::Get(p) => get_reply(store, p.key@),
        BucketActorMessages::Put(p) => put_reply(store, p.key@, value_view(p.value)),
        BucketActorMessages::Delete(p) => delete_reply(store, p.key@),
    }
}

/// The map that a bucket holding `store` is left with once it has served `msg`.
pub open spec fn store_after(store: Map<Seq<char>, Seq<u8>>, msg: BucketActorMessages) -> Map<
    Seq<char>,
    Seq<u8>,
> {
    match msg {
        BucketActorMessages::Get(p) => store,
        BucketActorMessages::Put(p) => put_store(store, p.key@, value_view(p.value)),
        BucketActorMessages::Delete(p) => delete_store(store, p.key@),
    }
}

/// The state of a bucket actor: the map it owns.
pub struct BucketActorState {
    store: StringHashMap<Value>,
}

impl View for BucketActorState {
    type V = Map<Seq<char>, Seq<u8>>;

    closed spec fn view(&self) -> Map<Seq<char>, Seq<u8>> {
        self.store@.map_values(|v: Value| v@)
    }
}

impl BucketActorState {
    /// A state with an empty map.
    pub fn new() -> (state: BucketActorState)
        ensures
            state@ == Map::<Seq<char>, Seq<u8>>::empty(),
    {
        BucketActorState { store: StringHashMap::new() }
    }

    /// Whether `key` is held.
    pub fn contains(&self, key: &str) -> (found: bool)
        ensures
            found == self@.contains_key(key@),
    {
        self.store.contains_key(key)
    }

    /// The number of keys held.
    pub fn len(&self) -> (n: usize)
        ensures
            n == self@.len(),
    {
        assert(self@.dom() =~= self.store@.dom());
        self.store.len()
    }
}

/// The bucket actor: its handlers are the steps of the bucket's state machine.
#[derive(Debug)]
pub struct BucketActor {}

impl BucketActor {
    /// Gives the bucket its initial, empty map.
    pub fn init(&self, state: &mut BucketActorState)
        ensures
            final(state)@ == Map::<Seq<char>, Seq<u8>>::empty(),
    {
        state.store = StringHashMap::new();
    }

    /// Serves one message: the step of the bucket's state machine. Exactly one
    /// answer comes back, owed to the destination that the message carried.
    pub fn handle(&self, state: &mut BucketActorState, msg: BucketActorMessages) -> (ans: Answer)
        ensures
            final(state)@ == store_after(old(state)@, msg),
            ans.ch == msg.params().ch,
            ans.ret@ == reply_to(old(state)@, msg),
    {
        match msg {
            BucketActorMessages::Get(p) => self.handle_get(state, p),
            BucketActorMessages::Put(p) => self.handle_put(state, p),
            BucketActorMessages::Delete(p) => self.handle_delete(state, p),
        }
    }

    /// Answers a message that cannot be served because the bucket has no map
    /// yet: `Failure`, whatever the message asks for.
    pub fn refuse(&self, msg: BucketActorMessages) -> (ans: Answer)
        ensures
            ans.ch == msg.params().ch,
            ans.ret@ == (ReturnView { val: None, err: BucketErrors::Failure }),
    {
        let p = match msg {
            BucketActorMessages::Get(p) => p,
            BucketActorMessages::Put(p) => p,
            BucketActorMessages::Delete(p) => p,
        };
        Answer { ch: p.ch, ret: Return { val: None, err: BucketErrors::Failure } }
    }

    /// Looks `msg.key` up; the reply holds a copy of the stored value.
    pub fn handle_get(&self, state: &mut BucketActorState, msg: BucketMsgParams) -> (ans: Answer)
        ensures
            final(state)@ == old(state)@,
            ans.ch == msg.ch,
            ans.ret@ == get_reply(old(state)@, msg.key@),
    {
        let ret = match state.store.get(msg.key.as_str()) {
            Some(v) => Return { val: Some(v.clone()), err: BucketErrors::NoError },
            None => Return { val: None, err: BucketErrors::NotFound },
        };
        Answer { ch: msg.ch, ret }
    }

    /// Stores `msg.value` under `msg.key`; the reply holds what the key held
    /// before. A request without a value changes nothing and is answered with
    /// `Failure`.
    pub fn handle_put(&self, state: &mut BucketActorState, msg: BucketMsgParams) -> (ans: Answer)
        ensures
            final(state)@ == put_store(old(state)@, msg.key@, value_view(msg.value)),
            ans.ch == msg.ch,
            ans.ret@ == put_reply(old(state)@, msg.key@, value_view(msg.value)),
    {
        let BucketMsgParams { key, value, ch } = msg;
        let ret = match value {
            Some(v) => {
                let prev = match state.store.get(key.as_str()) {
                    Some(p) => Some(p.clone()),
                    None => None,
                };
                state.store.insert(key, v);
                Return { val: prev, err: BucketErrors::NoError }
            },
            None => Return { val: None, err: BucketErrors::Failure },
        };
        Answer { ch, ret }
    }

    /// Removes `msg.key`; the reply holds the removed value.
    pub fn handle_delete(&self, state: &mut BucketActorState, msg: BucketMsgParams) -> (ans: Answer)
        ensures
            final(state)@ == delete_store(old(state)@, msg.key@),
            ans.ch == msg.ch,
            ans.ret@ == delete_reply(old(state)@, msg.key@),
    {
        let ret = match state.store.get(msg.key.as_str()) {
            Some(p) => {
                let prev = p.clone();
                state.store.remove(msg.key.as_str());
                Return { val: Some(prev), err: BucketErrors::NoError }
            },
            None => Return { val: None, err: BucketErrors::NotFound },
        };
        Answer { ch: msg.ch, ret }
    }
}

/// A first write to a key reports no previous value; a second write to it
/// reports the first value; a read then sees the second.
pub proof fn write_overwrite_read(
    store: Map<Seq<char>, Seq<u8>>,
    key: Seq<char>,
    v1: Seq<u8>,
    v2: Seq<u8>,
)
    requires
        !store.contains_key(key),
    ensures
        put_reply(store, key, Some(v1)) == (ReturnView { val: None, err: BucketErrors::NoError }),
        put_reply(put_store(store, key, Some(v1)), key, Some(v2)) == (ReturnView {
            val: Some(v1),
            err: BucketErrors::NoError,
        }),
        get_reply(put_store(put_store(store, key, Some(v1)), key, Some(v2)), key) == (ReturnView {
            val: Some(v2),
            err: BucketErrors::NoError,
        }),
{
}

/// A write is seen by the next read of the same key, whatever the key held
/// before, and by no read of another key.
pub proof fn write_then_read(
    store: Map<Seq<char>, Seq<u8>>,
    key: Seq<char>,
    value: Seq<u8>,
    other: Seq<char>,
)
    ensures
        get_reply(put_store(store, key, Some(value)), key) == (ReturnView {
            val: Some(value),
            err: BucketErrors::NoError,
        }),
        other != key ==> get_reply(put_store(store, key, Some(value)), other) == get_reply(
            store,
            other,
        ),
{
}

/// Deleting a key that is present returns what it held, and a read of the key
/// then finds nothing.
pub proof fn delete_then_read(store: Map<Seq<char>, Seq<u8>>, key: Seq<char>)
    requires
        store.contains_key(key),
    ensures
        delete_reply(store, key) == (ReturnView {
            val: Some(store[key]),
            err: BucketErrors::NoError,
        }),
        get_reply(delete_store(store, key), key) == (ReturnView {
            val: None,
            err: BucketErrors::NotFound,
        }),
{
}

/// Deleting a key that is absent is answered with `NotFound` and leaves the
/// map as it was.
pub proof fn delete_absent(store: Map<Seq<char>, Seq<u8>>, key: Seq<char>)
    requires
        !store.contains_key(key),
    ensures
        delete_reply(store, key) == (ReturnView { val: None, err: BucketErrors::NotFound }),
        delete_store(store, key) == store,
{
    assert(store.remove(key) =~= store);
}

/// A read never changes the map, and a write without a value changes nothing
/// either.
pub proof fn reads_and_malformed_writes_change_nothing(
    store: Map<Seq<char>, Seq<u8>>,
    msg: BucketActorMessages,
)
    requires
        msg is Get || (msg is Put && msg.params().value is None),
    ensures
        store_after(store, msg) == store,
        msg is Put ==> reply_to(store, msg) == (ReturnView {
            val: None,
            err: BucketErrors::Failure,
        }),
{
}

/// The map after a queue of writes has been served in order, first to last.
pub open spec fn after_puts(
    store: Map<Seq<char>, Seq<u8>>,
    writes: Seq<(Seq<char>, Seq<u8>)>,
) -> Map<Seq<char>, Seq<u8>>
    decreases writes.len(),
{
    if writes.len() == 0 {
        store
    } else {
        put_store(after_puts(store, writes.drop_last()), writes.last().0, Some(writes.last().1))
    }
}

/// Whether no two writes of the queue go to the same key.
pub open spec fn distinct_keys(writes: Seq<(Seq<char>, Seq<u8>)>) -> bool {
    forall|i: int, j: int| 0 <= i < j < writes.len() ==> writes[i].0 != writes[j].0
}

/// Whether some write of the queue goes to `key`.
pub open spec fn writes_to(writes: Seq<(Seq<char>, Seq<u8>)>, key: Seq<char>) -> bool {
    exists|i: int| 0 <= i < writes.len() && writes[i].0 == key
}

/// Writes to distinct keys, served one at a time in whatever order they
/// arrived, are all kept: each is answered without error, each is seen by a
/// later read of its key, and keys that none of them names are as before.
pub proof fn no_write_is_lost(
    store: Map<Seq<char>, Seq<u8>>,
    writes: Seq<(Seq<char>, Seq<u8>)>,
)
    requires
        distinct_keys(writes),
    ensures
        forall|i: int|
            0 <= i < writes.len() ==> (#[trigger] put_reply(
                after_puts(store, writes.take(i)),
                writes[i].0,
                Some(writes[i].1),
            )).err == BucketErrors::NoError,
        forall|i: int|
            0 <= i < writes.len() ==> get_reply(after_puts(store, writes), #[trigger] writes[i].0)
                == (ReturnView { val: Some(writes[i].1), err: BucketErrors::NoError }),
        forall|key: Seq<char>|
            !writes_to(writes, key) ==> #[trigger] get_reply(after_puts(store, writes), key)
                == get_reply(store, key),
    decreases writes.len(),
{
    if writes.len() > 0 {
        let front = writes.drop_last();
        no_write_is_lost(store, front);
        assert forall|i: int| 0 <= i < writes.len() implies get_reply(
            after_puts(store, writes),
            #[trigger] writes[i].0,
        ) == (ReturnView { val: Some(writes[i].1), err: BucketErrors::NoError }) by {
            if i < writes.len() - 1 {
                assert(front[i] == writes[i]);
                assert(writes[i].0 != writes.last().0);
            }
        }
        assert forall|key: Seq<char>| !writes_to(writes, key) implies #[trigger] get_reply(
            after_puts(store, writes),
            key,
        ) == get_reply(store, key) by {
            assert(writes[writes.len() - 1].0 != key);
            assert(!writes_to(front, key)) by {
                if writes_to(front, key) {
                    let i = choose|i: int| 0 <= i < front.len() && front[i].0 == key;
                    assert(writes[i].0 == key);
                }
            }
            assert(get_reply(after_puts(store, front), key) == get_reply(store, key));
        }
    }
}

/// The order in which writes to distinct keys are served does not matter: two
/// queues that hold the same writes leave the same map.
pub proof fn interleaving_does_not_matter(
    store: Map<Seq<char>, Seq<u8>>,
    a: Seq<(Seq<char>, Seq<u8>)>,
    b: Seq<(Seq<char>, Seq<u8>)>,
)
    requires
        distinct_keys(a),
        distinct_keys(b),
        a.to_multiset() == b.to_multiset(),
    ensures
        after_puts(store, a) == after_puts(store, b),
{
    no_write_is_lost(store, a);
    no_write_is_lost(store, b);
    a.to_multiset_ensures();
    b.to_multiset_ensures();
    let ma = after_puts(store, a);
    let mb = after_puts(store, b);
    assert forall|key: Seq<char>| get_reply(ma, key) == get_reply(mb, key) by {
        if writes_to(a, key) {
            let i = choose|i: int| 0 <= i < a.len() && a[i].0 == key;
            assert(a.contains(a[i]));
            assert(a.to_multiset().count(a[i]) > 0);
            assert(b.to_multiset().count(a[i]) > 0);
            assert(b.contains(a[i]));
            let j = choose|j: int| 0 <= j < b.len() && b[j] == a[i];
            assert(get_reply(ma, a[i].0) == get_reply(mb, b[j].0));
        } else {
            assert(!writes_to(b, key)) by {
                if writes_to(b, key) {
                    let j = choose|j: int| 0 <= j < b.len() && b[j].0 == key;
                    assert(b.contains(b[j]));
                    assert(b.to_multiset().count(b[j]) > 0);
                    assert(a.to_multiset().count(b[j]) > 0);
                    assert(a.contains(b[j]));
                    let i = choose|i: int| 0 <= i < a.len() && a[i] == b[j];
                    assert(a[i].0 == key);
                }
            }
            assert(get_reply(ma, key) == get_reply(store, key));
            assert(get_reply(mb, key) == get_reply(store, key));
        }
    }
    assert forall|key: Seq<char>| #[trigger] ma.dom().contains(key) == mb.dom().contains(key) by {
        assert(get_reply(ma, key) == get_reply(mb, key));
    }
    assert forall|key: Seq<char>| ma.dom().contains(key) implies #[trigger] ma[key] == mb[key] by {
        assert(get_reply(ma, key) == get_reply(mb, key));
    }
    assert(ma =~= mb);
}

} // verus!

//! The registry: single owner of the table from namespace names to buckets.

use crate::bucket::{
    Answer, BucketActorMessages, BucketErrors, BucketMsgParams, Return, ReturnView, Value,
};
use vstd::hash_map::StringHashMap;
use vstd::prelude::*;

verus! {

/// A request addressed to the registry.
#[derive(Debug)]
pub struct MsgParams {
    pub ns: String,
    pub key: Option<String>,
    pub value: Option<Value>,
    pub ch: tokio::sync::oneshot::Sender<Return>,
}

/// The messages the registry accepts.
#[derive(Debug)]
pub enum BidonActorMessages {
    CreateNS(MsgParams),
    SaveNS(MsgParams),
    LoadNS(MsgParams),
    Get(MsgParams),
    Put(MsgParams),
    Delete(MsgParams),
}

impl BidonActorMessages {
    /// The request that the message carries, whatever its kind.
    pub open spec fn params(self) -> MsgParams {
        match self {
            BidonActorMessages::CreateNS(p) => p,
            BidonActorMessages::SaveNS(p) => p,
            BidonActorMessages::LoadNS(p) => p,
            BidonActorMessages::Get(p) => p,
            BidonActorMessages::Put(p) => p,
            BidonActorMessages::Delete(p) => p,
        }
    }
}

/// What the registry does with a request. Either it hands a bucket-level
/// message to the bucket that owns the namespace, and takes no further part,
/// or it answers the caller itself. Never both: the reply destination travels
/// with exactly one of the two.
pub enum Routed<'a, H> {
    Forward(&'a H, BucketActorMessages),
    Reply(Answer),
}

/// The state of the registry: the namespace table. `H` is whatever addresses a
/// running bucket.
#[verifier::reject_recursive_types(H)]
pub struct BidonActorState<H> {
    buckets: StringHashMap<H>,
}

impl<H> View for BidonActorState<H> {
    type V = Map<Seq<char>, H>;

    closed spec fn view(&self) -> Map<Seq<char>, H> {
        self.buckets@
    }
}

/// Whether a per-key request is handed on to a bucket: its namespace exists
/// and it names a key.
pub open spec fn forwards<H>(table: Map<Seq<char>, H>, p: MsgParams) -> bool {
    table.contains_key(p.ns@) && p.key is Some
}

/// The bucket-level request that a per-key registry request turns into: the
/// namespace is stripped; key, value and reply destination are kept.
pub open spec fn stripped(p: MsgParams) -> BucketMsgParams {
    BucketMsgParams { key: p.key->0, value: p.value, ch: p.ch }
}

/// The registry's own reply to a per-key request that it does not hand on:
/// `NotFound` for a namespace that does not exist, `Failure` for a request
/// that names no key.
pub open spec fn unrouted_reply<H>(table: Map<Seq<char>, H>, p: MsgParams) -> ReturnView {
    ReturnView {
        val: None,
        err: if table.contains_key(p.ns@) {
            BucketErrors::Failure
        } else {
            BucketErrors::NotFound
        },
    }
}

/// The reply to `CreateNamespace(ns)`.
pub open spec fn createns_reply<H>(table: Map<Seq<char>, H>, ns: Seq<char>) -> ReturnView {
    ReturnView {
        val: None,
        err: if table.contains_key(ns) {
            BucketErrors::Conflict
        } else {
            BucketErrors::NoError
        },
    }
}

/// The table that `CreateNamespace(ns)` leaves behind, where `bucket` is the
/// bucket started for the new namespace.
pub open spec fn createns_table<H>(table: Map<Seq<char>, H>, ns: Seq<char>, bucket: H) -> Map<
    Seq<char>,
    H,
> {
    if table.contains_key(ns) {
        table
    } else {
        table.insert(ns, bucket)
    }
}

/// Whether `r` is what the registry owes to the per-key request `p` on
/// `table`, where `m` is the bucket-level message that it would hand on.
pub open spec fn routes<'a, H>(
    r: Routed<'a, H>,
    table: Map<Seq<char>, H>,
    p: MsgParams,
    m: BucketActorMessages,
) -> bool {
    if forwards(table, p) {
        r matches Routed::Forward(h, fm) && *h == table[p.ns@] && fm == m
    } else {
        answers(r, p, unrouted_reply(table, p))
    }
}

/// Whether `r` is the registry's own answer `reply` to the request `p`.
pub open spec fn answers<'a, H>(r: Routed<'a, H>, p: MsgParams, reply: ReturnView) -> bool {
    r matches Routed::Reply(a) && a.ch == p.ch && a.ret@ == reply
}

/// Resolves the namespace of a per-key request against the table. Where the
/// request is to be handed on, the bucket's handle comes back with the
/// bucket-level request; otherwise the answer that the registry owes.
pub fn route_to_bucket<'a, H>(msg: MsgParams, buckets: &'a BidonActorState<H>) -> (r: Result<
    (&'a H, BucketMsgParams),
    Answer,
>)
    ensures
        r is Ok <==> forwards(buckets@, msg),
        r matches Ok((h, p)) ==> *h == buckets@[msg.ns@] && p == stripped(msg),
        r matches Err(a) ==> a.ch == msg.ch && a.ret@ == unrouted_reply(buckets@, msg),
{
    let MsgParams { ns, key, value, ch } = msg;
    match buckets.buckets.get(ns.as_str()) {
        Some(h) => match key {
            Some(key) => Ok((h, BucketMsgParams { key, value, ch })),
            None => Err(Answer { ch, ret: Return { val: None, err: BucketErrors::Failure } }),
        },
        None => Err(Answer { ch, ret: Return { val: None, err: BucketErrors::NotFound } }),
    }
}

impl<H> BidonActorState<H> {
    /// A state with an empty table.
    pub fn new() -> (state: BidonActorState<H>)
        ensures
            state@ == Map::<Seq<char>, H>::empty(),
    {
        BidonActorState { buckets: StringHashMap::new() }
    }

    /// The number of namespaces.
    pub fn len(&self) -> (n: usize)
        ensures
            n == self@.len(),
    {
        self.buckets.len()
    }

    /// Whether the namespace `ns` exists.
    pub fn contains(&self, ns: &str) -> (found: bool)
        ensures
            found == self@.contains_key(ns@),
    {
        self.buckets.contains_key(ns)
    }
}

/// The registry actor: its handlers are the steps of the registry's state
/// machine.
#[derive(Debug)]
pub struct BidonActor {}

impl BidonActor {
    /// Gives the registry its initial, empty table.
    pub fn init<H>(&self, state: &mut BidonActorState<H>)
        ensures
            final(state)@ == Map::<Seq<char>, H>::empty(),
    {
        state.buckets = StringHashMap::new();
    }

    /// Registers a bucket under `msg.ns` unless the name is taken. `start` is
    /// called, once, only for a new name, and what it returns is registered.
    pub fn handle_createns<H, F: FnOnce(&String) -> H>(
        &self,
        state: &mut BidonActorState<H>,
        msg: MsgParams,
        start: F,
    ) -> (ans: Answer)
        requires
            call_requires(start, (&msg.ns,)),
        ensures
            ans.ch == msg.ch,
            ans.ret@ == createns_reply(old(state)@, msg.ns@),
            final(state)@ == createns_table(old(state)@, msg.ns@, final(state)@[msg.ns@]),
            !old(state)@.contains_key(msg.ns@) ==> call_ensures(
                start,
                (&msg.ns,),
                final(state)@[msg.ns@],
            ),
    {
        let MsgParams { ns, ch, .. } = msg;
        if state.buckets.contains_key(ns.as_str()) {
            Answer { ch, ret: Return { val: None, err: BucketErrors::Conflict } }
        } else {
            let bucket = start(&ns);
            state.buckets.insert(ns, bucket);
            Answer { ch, ret: Return { val: None, err: BucketErrors::NoError } }
        }
    }

    /// Saving is reserved: the answer is always `Failure`.
    pub fn handle_savens<H>(&self, state: &mut BidonActorState<H>, msg: MsgParams) -> (ans: Answer)
        ensures
            final(state)@ == old(state)@,
            ans.ch == msg.ch,
            ans.ret@ == (ReturnView { val: None, err: BucketErrors::Failure }),
    {
        Answer { ch: msg.ch, ret: Return { val: None, err: BucketErrors::Failure } }
    }

    /// Loading is reserved: the answer is always `NotFound`.
    pub fn handle_loadns<H>(&self, state: &mut BidonActorState<H>, msg: MsgParams) -> (ans: Answer)
        ensures
            final(state)@ == old(state)@,
            ans.ch == msg.ch,
            ans.ret@ == (ReturnView { val: None, err: BucketErrors::NotFound }),
    {
        Answer { ch: msg.ch, ret: Return { val: None, err: BucketErrors::NotFound } }
    }

    /// Routes a `Get`: resolves the namespace and, where it exists, hands the
    /// request on to its bucket unchanged.
    pub fn handle_get<'a, H>(&self, state: &'a BidonActorState<H>, msg: MsgParams) -> (r: Routed<
        'a,
        H,
    >)
        ensures
            routes(r, state@, msg, BucketActorMessages::Get(stripped(msg))),
    {
        match route_to_bucket(msg, state) {
            Ok((h, p)) => Routed::Forward(h, BucketActorMessages::Get(p)),
            Err(a) => Routed::Reply(a),
        }
    }

    /// Routes a `Put`: resolves the namespace and, where it exists, hands the
    /// request on to its bucket unchanged.
    pub fn handle_put<'a, H>(&self, state: &'a BidonActorState<H>, msg: MsgParams) -> (r: Routed<
        'a,
        H,
    >)
        ensures
            routes(r, state@, msg, BucketActorMessages::Put(stripped(msg))),
    {
        match route_to_bucket(msg, state) {
            Ok((h, p)) => Routed::Forward(h, BucketActorMessages::Put(p)),
            Err(a) => Routed::Reply(a),
        }
    }

    /// Routes a `Delete`: resolves the namespace and, where it exists, hands
    /// the request on to its bucket unchanged.
    pub fn handle_delete<'a, H>(&self, state: &'a BidonActorState<H>, msg: MsgParams) -> (r: Routed<
        'a,
        H,
    >)
        ensures
            routes(r, state@, msg, BucketActorMessages::Delete(stripped(msg))),
    {
        match route_to_bucket(msg, state) {
            Ok((h, p)) => Routed::Forward(h, BucketActorMessages::Delete(p)),
            Err(a) => Routed::Reply(a),
        }
    }

    /// Serves one message: the step of the registry's state machine. Only
    /// `CreateNS` can change the table; the per-key operations are routed, and
    /// everything else is answered on the spot.
    pub fn handle<'a, H, F: FnOnce(&String) -> H>(
        &self,
        state: &'a mut BidonActorState<H>,
        msg: BidonActorMessages,
        start: F,
    ) -> (r: Routed<'a, H>)
        requires
            msg matches BidonActorMessages::CreateNS(p) ==> call_requires(start, (&p.ns,)),
        ensures
            match msg {
                BidonActorMessages::CreateNS(p) => {
                    &&& final(state)@ == createns_table(old(state)@, p.ns@, final(state)@[p.ns@])
                    &&& !old(state)@.contains_key(p.ns@) ==> call_ensures(
                        start,
                        (&p.ns,),
                        final(state)@[p.ns@],
                    )
                    &&& answers(r, p, createns_reply(old(state)@, p.ns@))
                },
                BidonActorMessages::SaveNS(p) => {
                    &&& final(state)@ == old(state)@
                    &&& answers(r, p, ReturnView { val: None, err: BucketErrors::Failure })
                },
                BidonActorMessages::LoadNS(p) => {
                    &&& final(state)@ == old(state)@
                    &&& answers(r, p, ReturnView { val: None, err: BucketErrors::NotFound })
                },
                BidonActorMessages::Get(p) => {
                    &&& final(state)@ == old(state)@
                    &&& routes(r, old(state)@, p, BucketActorMessages::Get(stripped(p)))
                },
                BidonActorMessages::Put(p) => {
                    &&& final(state)@ == old(state)@
                    &&& routes(r, old(state)@, p, BucketActorMessages::Put(stripped(p)))
                },
                BidonActorMessages::Delete(p) => {
                    &&& final(state)@ == old(state)@
                    &&& routes(r, old(state)@, p, BucketActorMessages::Delete(stripped(p)))
                },
            },
    {
        match msg {
            BidonActorMessages::CreateNS(p) => Routed::Reply(self.handle_createns(state, p, start)),
            BidonActorMessages::SaveNS(p) => Routed::Reply(self.handle_savens(state, p)),
            BidonActorMessages::LoadNS(p) => Routed::Reply(self.handle_loadns(state, p)),
            BidonActorMessages::Get(p) => self.handle_get(state, p),
            BidonActorMessages::Put(p) => self.handle_put(state, p),
            BidonActorMessages::Delete(p) => self.handle_delete(state, p),
        }
    }
}

/// A per-key request for a namespace that was never created is answered by
/// the registry itself, with `NotFound` and no value; no bucket sees it.
pub proof fn unknown_namespace_is_not_found<'a, H>(
    r: Routed<'a, H>,
    table: Map<Seq<char>, H>,
    p: MsgParams,
    m: BucketActorMessages,
)
    requires
        !table.contains_key(p.ns@),
        routes(r, table, p, m),
    ensures
        r matches Routed::Reply(a) && a.ch == p.ch && a.ret@ == (ReturnView {
            val: None,
            err: BucketErrors::NotFound,
        }),
{
}

/// A per-key request that names a key, for a namespace that exists, reaches
/// that namespace's bucket as it was sent: same key, same value, same reply
/// destination. The registry answers nothing itself.
pub proof fn known_namespace_is_forwarded<'a, H>(
    r: Routed<'a, H>,
    table: Map<Seq<char>, H>,
    p: MsgParams,
    m: BucketActorMessages,
)
    requires
        table.contains_key(p.ns@),
        p.key is Some,
        routes(r, table, p, m),
        m.params() == stripped(p),
    ensures
        r matches Routed::Forward(h, fm) && *h == table[p.ns@] && fm.params().key == p.key->0
            && fm.params().value == p.value && fm.params().ch == p.ch,
{
}

/// Creating a namespace twice: the second request is answered with
/// `Conflict`, and the table, hence its size, stays as the first left it.
pub proof fn second_create_conflicts<H>(
    table: Map<Seq<char>, H>,
    ns: Seq<char>,
    first: H,
    second: H,
)
    ensures
        createns_reply(createns_table(table, ns, first), ns) == (ReturnView {
            val: None,
            err: BucketErrors::Conflict,
        }),
        createns_table(createns_table(table, ns, first), ns, second) == createns_table(
            table,
            ns,
            first,
        ),
        createns_table(createns_table(table, ns, first), ns, second).len() == createns_table(
            table,
            ns,
            first,
        ).len(),
{
}

/// Creating a namespace leaves every other namespace as it was, and never
/// replaces a bucket that is already registered.
pub proof fn create_keeps_the_others<H>(
    table: Map<Seq<char>, H>,
    ns: Seq<char>,
    bucket: H,
    other: Seq<char>,
)
    ensures
        createns_table(table, ns, bucket).contains_key(ns),
        table.contains_key(ns) ==> createns_table(table, ns, bucket)[ns] == table[ns],
        other != ns ==> createns_table(table, ns, bucket).contains_key(other) == table.contains_key(
            other,
        ),
        other != ns && table.contains_key(other) ==> createns_table(table, ns, bucket)[other]
            == table[other],
{
}

/// The name of the namespace that exists from the start.
pub fn default_namespace() -> (ns: String)
    ensures
        ns@ == "default"@,
{
    "default".to_owned()
}

/// Where start-up stands. The registry first creates the default namespace,
/// then asks for it to be loaded, and only then serves outside traffic.
#[derive(Clone, Copy, Debug, PartialEq, Eq, Structural)]
pub enum Boot {
    CreateDefault,
    LoadDefault,
    Ready,
    Failed,
}

/// The stage that follows `stage` once its request was answered with `reply`
/// (`None` where no reply came at all). Creating the default namespace must
/// succeed; loading it may also find nothing. Anything else is fatal.
pub open spec fn boot_after(stage: Boot, reply: Option<ReturnView>) -> Boot {
    match stage {
        Boot::CreateDefault => match reply {
            Some(r) => if r.err == BucketErrors::NoError {
                Boot::LoadDefault
            } else {
                Boot::Failed
            },
            None => Boot::Failed,
        },
        Boot::LoadDefault => match reply {
            Some(r) => if r.err == BucketErrors::NoError || r.err == BucketErrors::NotFound {
                Boot::Ready
            } else {
                Boot::Failed
            },
            None => Boot::Failed,
        },
        Boot::Ready => Boot::Ready,
        Boot::Failed => Boot::Failed,
    }
}

/// Whether `p` is a start-up request: for the default namespace, without key
/// or value, to be answered on `ch`.
pub open spec fn boot_params(p: MsgParams, ch: tokio::sync::oneshot::Sender<Return>) -> bool {
    p.ns@ == "default"@ && p.key is None && p.value is None && p.ch == ch
}

/// The view of an optional reply.
pub open spec fn reply_view(reply: Option<&Return>) -> Option<ReturnView> {
    match reply {
        Some(r) => Some(r@),
        None => None,
    }
}

impl Boot {
    /// The stage that start-up begins with.
    pub fn first() -> (stage: Boot)
        ensures
            stage == Boot::CreateDefault,
    {
        Boot::CreateDefault
    }

    /// The request that this stage sends to the registry, to be answered on
    /// `ch`; none once start-up is over.
    pub fn request(&self, ch: tokio::sync::oneshot::Sender<Return>) -> (msg: Option<
        BidonActorMessages,
    >)
        ensures
            match *self {
                Boot::CreateDefault => msg matches Some(BidonActorMessages::CreateNS(p))
                    && boot_params(p, ch),
                Boot::LoadDefault => msg matches Some(BidonActorMessages::LoadNS(p)) && boot_params(
                    p,
                    ch,
                ),
                Boot::Ready => msg is None,
                Boot::Failed => msg is None,
            },
    {
        match self {
            Boot::CreateDefault => Some(
                BidonActorMessages::CreateNS(
                    MsgParams { ns: default_namespace(), key: None, value: None, ch },
                ),
            ),
            Boot::LoadDefault => Some(
                BidonActorMessages::LoadNS(
                    MsgParams { ns: default_namespace(), key: None, value: None, ch },
                ),
            ),
            Boot::Ready => None,
            Boot::Failed => None,
        }
    }

    /// Moves on once the request of this stage was answered with `reply`;
    /// `None` stands for a reply that never came.
    pub fn after(self, reply: Option<&Return>) -> (next: Boot)
        ensures
            next == boot_after(self, reply_view(reply)),
    {
        match self {
            Boot::CreateDefault => match reply {
                Some(r) => match r.err {
                    BucketErrors::NoError => Boot::LoadDefault,
                    _ => Boot::Failed,
                },
                None => Boot::Failed,
            },
            Boot::LoadDefault => match reply {
                Some(r) => match r.err {
                    BucketErrors::NoError => Boot::Ready,
                    BucketErrors::NotFound => Boot::Ready,
                    _ => Boot::Failed,
                },
                None => Boot::Failed,
            },
            Boot::Ready => Boot::Ready,
            Boot::Failed => Boot::Failed,
        }
    }
}

/// Start-up against a fresh registry reaches `Ready`: the default namespace
/// is created without conflict, and the reserved load finds nothing.
pub proof fn fresh_registry_boots<H>(bucket: H)
    ensures
        boot_after(
            boot_after(
                Boot::CreateDefault,
                Some(createns_reply(Map::<Seq<char>, H>::empty(), "default"@)),
            ),
            Some(ReturnView { val: None, err: BucketErrors::NotFound }),
        ) == Boot::Ready,
        createns_table(Map::<Seq<char>, H>::empty(), "default"@, bucket).contains_key("default"@),
{
}

/// A conflict on the first start-up request is fatal.
pub proof fn conflict_at_boot_is_fatal<H>(table: Map<Seq<char>, H>)
    requires
        table.contains_key("default"@),
    ensures
        boot_after(Boot::CreateDefault, Some(createns_reply(table, "default"@))) == Boot::Failed,
{
}

} // verus!

use vstd::prelude::*;
use std::collections::HashMap;
use vstd::wrapping::u128_specs;
use crate::node::{Node, Request, Service};
use crate::payload::Payload;

verus! {

/// The state of an echo node: it keeps nothing.
pub struct Echo {}

impl Default for Echo {
    fn default() -> (r: Self) {
        Echo {}
    }
}

/// The fields of an `echo` request and of its `echo_ok` reply.
pub struct EchoPayload {
    pub echo: String,
}

/// The `echo_ok` reply to an `echo` request: the same text, and the request's
/// id as its own.
pub fn echo_reply(request: Payload<EchoPayload>) -> (r: Payload<EchoPayload>)
    ensures
        r.type_payload@ == "echo_ok"@,
        r.msg_id == request.msg_id,
        r.in_reply_to is None,
        r.info.echo@ == request.info.echo@,
{
    let mut response = Payload::new("echo_ok".to_string(), request.info);
    response.msg_id = request.msg_id;
    response
}

impl Request for EchoPayload {
    type Response = EchoPayload;
}

impl Service<Echo, EchoPayload, EchoPayload> for Node<Echo> {
    /// The node is unchanged; the reply is `echo_ok` with the request's id
    /// and text.
    open spec fn handled(
        before: Self,
        request: Payload<EchoPayload>,
        after: Self,
        r: Result<Payload<EchoPayload>, String>,
    ) -> bool {
        &&& after == before
        &&& r is Ok
        &&& r->Ok_0.type_payload@ == "echo_ok"@
        &&& r->Ok_0.msg_id == request.msg_id
        &&& r->Ok_0.in_reply_to is None
        &&& r->Ok_0.info.echo@ == request.info.echo@
    }

    fn handle(&mut self, request: Payload<EchoPayload>) -> Result<Payload<EchoPayload>, String> {
        Ok(echo_reply(request))
    }
}

/// The state of a broadcast node: the values it was given, in the order they
/// came.
pub struct Broadcast {
    pub messages: Vec<usize>,
}

impl Default for Broadcast {
    fn default() -> (r: Self)
        ensures
            r.messages@ == Seq::<usize>::empty(),
    {
        Broadcast { messages: Vec::new() }
    }
}

/// The fields of a `broadcast` request: the value to keep.
pub struct BroadcastRequest {
    pub message: usize,
}

/// The (empty) fields of a `broadcast_ok` reply.
pub struct BroadcastResponse {}

/// The (empty) fields of a `read` request.
pub struct ReadRequest {}

/// The fields of a `read_ok` reply: every value kept so far.
pub struct ReadResponse {
    pub messages: Vec<usize>,
}

/// The fields of a `topology` request: each node's neighbours.
pub struct TopologyRequest {
    pub map: HashMap<String, Vec<String>>,
}

/// The (empty) fields of a `topology_ok` reply.
pub struct TopologyResponse {}

impl Request for BroadcastRequest {
    type Response = BroadcastResponse;
}

impl Request for ReadRequest {
    type Response = ReadResponse;
}

impl Request for TopologyRequest {
    type Response = TopologyResponse;
}

/// The kinds of request that a broadcast node answers.
#[derive(PartialEq, Eq, Structural, Debug, Clone, Copy)]
pub enum BroadcastKind {
    Broadcast,
    Read,
    Topology,
}

/// The kind of request that the type tag `tag` names, if a broadcast node
/// answers it.
pub fn broadcast_kind(tag: &String) -> (r: Option<BroadcastKind>)
    ensures
        r == Some(BroadcastKind::Broadcast) <==> tag@ == "broadcast"@,
        r == Some(BroadcastKind::Read) <==> tag@ == "read"@,
        r == Some(BroadcastKind::Topology) <==> tag@ == "topology"@,
{
    proof {
        reveal_strlit("broadcast");
        reveal_strlit("read");
        reveal_strlit("topology");
        assert("broadcast"@.len() == 9 && "read"@.len() == 4 && "topology"@.len() == 8);
    }
    if *tag == "broadcast".to_string() {
        Some(BroadcastKind::Broadcast)
    } else if *tag == "read".to_string() {
        Some(BroadcastKind::Read)
    } else if *tag == "topology".to_string() {
        Some(BroadcastKind::Topology)
    } else {
        None
    }
}

impl Broadcast {
    /// Keeps `message` after the values already kept.
    pub fn store(&mut self, message: usize) -> (r: Payload<BroadcastResponse>)
        ensures
            final(self).messages@ == old(self).messages@.push(message),
            r.type_payload@ == "broadcast_ok"@,
            r.msg_id is None,
            r.in_reply_to is None,
    {
        self.messages.push(message);
        Payload::new("broadcast_ok".to_string(), BroadcastResponse {})
    }

    /// Every value kept so far, in the order in which it was kept.
    pub fn read(&self) -> (r: Payload<ReadResponse>)
        ensures
            r.info.messages@ == self.messages@,
            r.type_payload@ == "read_ok"@,
            r.msg_id is None,
            r.in_reply_to is None,
    {
        let messages = self.messages.clone();
        assert(messages@ =~= self.messages@);
        Payload::new("read_ok".to_string(), ReadResponse { messages })
    }
}

/// Storing `a` and then `b` on an empty node, a read returns `[a, b]`.
pub proof fn lemma_reads_in_store_order(s0: Broadcast, s1: Broadcast, s2: Broadcast, a: usize, b: usize)
    requires
        s0.messages@.len() == 0,
        s1.messages@ == s0.messages@.push(a),
        s2.messages@ == s1.messages@.push(b),
    ensures
        s2.messages@ == seq![a, b],
{
    assert(s2.messages@ =~= seq![a, b]);
}

impl Service<Broadcast, BroadcastRequest, BroadcastResponse> for Node<Broadcast> {
    /// The value is kept after those kept before; the identity is unchanged;
    /// the reply is `broadcast_ok`.
    open spec fn handled(
        before: Self,
        request: Payload<BroadcastRequest>,
        after: Self,
        r: Result<Payload<BroadcastResponse>, String>,
    ) -> bool {
        &&& after.id == before.id
        &&& after.node_ids == before.node_ids
        &&& after.state.messages@ == before.state.messages@.push(request.info.message)
        &&& r is Ok
        &&& r->Ok_0.type_payload@ == "broadcast_ok"@
        &&& r->Ok_0.msg_id is None
        &&& r->Ok_0.in_reply_to is None
    }

    fn handle(&mut self, request: Payload<BroadcastRequest>) -> Result<Payload<BroadcastResponse>, String> {
        Ok(self.state.store(request.info.message))
    }
}

impl Service<Broadcast, ReadRequest, ReadResponse> for Node<Broadcast> {
    /// The node is unchanged; the reply is `read_ok` with every value kept,
    /// in the order kept.
    open spec fn handled(
        before: Self,
        request: Payload<ReadRequest>,
        after: Self,
        r: Result<Payload<ReadResponse>, String>,
    ) -> bool {
        &&& after == before
        &&& r is Ok
        &&& r->Ok_0.type_payload@ == "read_ok"@
        &&& r->Ok_0.msg_id is None
        &&& r->Ok_0.in_reply_to is None
        &&& r->Ok_0.info.messages@ == before.state.messages@
    }

    fn handle(&mut self, request: Payload<ReadRequest>) -> Result<Payload<ReadResponse>, String> {
        Ok(self.state.read())
    }
}

impl Service<Broadcast, TopologyRequest, TopologyResponse> for Node<Broadcast> {
    /// The node is unchanged (the neighbour map is not kept); the reply is
    /// `topology_ok`.
    open spec fn handled(
        before: Self,
        request: Payload<TopologyRequest>,
        after: Self,
        r: Result<Payload<TopologyResponse>, String>,
    ) -> bool {
        &&& after == before
        &&& r is Ok
        &&& r->Ok_0.type_payload@ == "topology_ok"@
        &&& r->Ok_0.msg_id is None
        &&& r->Ok_0.in_reply_to is None
    }

    fn handle(&mut self, request: Payload<TopologyRequest>) -> Result<Payload<TopologyResponse>, String> {
        Ok(Payload::new("topology_ok".to_string(), TopologyResponse {}))
    }
}

/// The state of a node that hands out unique ids: how many it has issued.
pub struct UidState {
    pub message_count: u128,
}

impl Default for UidState {
    fn default() -> (r: Self)
        ensures
            r.message_count == 0,
    {
        UidState { message_count: 0 }
    }
}

/// The fields of a `generate_ok` reply: the new id.
pub struct GenerateResponse {
    pub id: u128,
}

/// The id issued as number `count`, at `time` nanoseconds, with random
/// `noise`: `31^2 * count + 31 * time + noise`, wrapping at 2^128.
pub open spec fn uid_of(count: u128, time: u128, noise: u128) -> u128 {
    u128_specs::wrapping_add(
        u128_specs::wrapping_add(u128_specs::wrapping_mul(961, count), u128_specs::wrapping_mul(31, time)),
        noise,
    )
}

/// The results of issuing an id from `before` with clock reading `time` and
/// random value `noise`: the reply's own id is the number of ids issued
/// before; where that number does not fit a message id, nothing is issued.
pub open spec fn issued(
    before: UidState,
    time: u128,
    noise: u128,
    after: UidState,
    r: Result<Payload<GenerateResponse>, String>,
) -> bool {
    &&& before.message_count <= usize::MAX <==> r is Ok
    &&& r is Ok ==> {
        &&& r->Ok_0.type_payload@ == "generate_ok"@
        &&& r->Ok_0.info.id == uid_of(before.message_count, time, noise)
        &&& r->Ok_0.msg_id == Some(before.message_count as usize)
        &&& r->Ok_0.in_reply_to is None
        &&& after.message_count == u128_specs::wrapping_add(before.message_count, 1)
    }
    &&& r is Err ==> after == before
}

impl UidState {
    /// Issues the next id from the clock reading `time` and the random value
    /// `noise`.
    pub fn issue(&mut self, time: u128, noise: u128) -> (r: Result<Payload<GenerateResponse>, String>)
        ensures
            issued(*old(self), time, noise, *final(self), r),
    {
        let count = self.message_count;
        if count > usize::MAX as u128 {
            return Err("message count does not fit a message id".to_string());
        }
        let id = 961u128.wrapping_mul(count).wrapping_add(31u128.wrapping_mul(time)).wrapping_add(noise);
        let mut response = Payload::new("generate_ok".to_string(), GenerateResponse { id });
        response.msg_id = Some(count as usize);
        self.message_count = count.wrapping_add(1);
        Ok(response)
    }
}

/// The (empty) fields of a `generate` request.
pub struct GenerateRequest {}

impl Request for GenerateRequest {
    type Response = GenerateResponse;
}

#[verifier::external_type_specification]
#[verifier::external_body]
pub struct ExSystemTime(std::time::SystemTime);

/// Relies on std's `SystemTime::now`: a reading of the system clock, of which
/// nothing is promised.
pub assume_specification[ std::time::SystemTime::now ]() -> std::time::SystemTime;

/// Relies on std's `Duration::as_nanos`: the duration in nanoseconds, of
/// which nothing more is needed here.
pub assume_specification[ core::time::Duration::as_nanos ](d: &core::time::Duration) -> u128;

/// Relies on rand's `OsRng` through `RngCore::try_fill_bytes`: sixteen bytes
/// from the operating system's random source, read as a little-endian
/// integer; `None` where that source fails. Nothing is promised of the value.
#[verifier::external_body]
fn draw_noise() -> Option<u128> {
    let mut bytes = [0u8; 16];
    rand::RngCore::try_fill_bytes(&mut rand::rngs::OsRng, &mut bytes).ok().map(|_| u128::from_le_bytes(bytes))
}

/// Relies on std's `SystemTime::duration_since`, measured from the Unix epoch:
/// `None` where the clock reads before the epoch.
#[verifier::external_body]
fn since_epoch(t: &std::time::SystemTime) -> Option<core::time::Duration> {
    t.duration_since(std::time::UNIX_EPOCH).ok()
}

impl Service<UidState, GenerateRequest, GenerateResponse> for Node<UidState> {
    /// The identity is unchanged; an id is issued from some clock reading and
    /// some random value, or, where the clock or the random source cannot be
    /// read, the state is unchanged and the handler fails.
    open spec fn handled(
        before: Self,
        request: Payload<GenerateRequest>,
        after: Self,
        r: Result<Payload<GenerateResponse>, String>,
    ) -> bool {
        &&& after.id == before.id
        &&& after.node_ids == before.node_ids
        &&& (exists|time: u128, noise: u128| issued(before.state, time, noise, after.state, r))
            || (r is Err && after.state == before.state)
    }

    fn handle(&mut self, request: Payload<GenerateRequest>) -> Result<Payload<GenerateResponse>, String> {
        let now = std::time::SystemTime::now();
        match since_epoch(&now) {
            Some(elapsed) => {
                let time = elapsed.as_nanos();
                match draw_noise() {
                    Some(noise) => {
                        let ghost before = self.state;
                        let r = self.state.issue(time, noise);
                        assert(issued(before, time, noise, self.state, r));
                        r
                    },
                    None => Err("the random source failed".to_string()),
                }
            },
            None => Err("the system clock reads before the Unix epoch".to_string()),
        }
    }
}
} // verus!

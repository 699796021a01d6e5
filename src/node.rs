use vstd::prelude::*;
use crate::payload::{InitOk, InitRequest, Message, Payload, PayloadError, HANDLER_FAILURE, PARSE_FAILURE};

verus! {

/// Ties a request's fields to the fields of the reply it expects.
pub trait Request {
    type Response;
}

/// Application logic for one kind of request against the node's state.
/// A handler only mutates the node's state; sending is left to the node.
pub trait Service<ExtraState, Request, Response>: Sized {
    /// What handling `request` does: the service, from `before`, may leave
    /// `after` and return `r`.
    spec fn handled(
        before: Self,
        request: Payload<Request>,
        after: Self,
        r: Result<Payload<Response>, String>,
    ) -> bool;

    fn handle(&mut self, request: Payload<Request>) -> (r: Result<Payload<Response>, String>)
        ensures
            Self::handled(*old(self), request, *final(self), r),
    ;
}

/// The body of a reply: the handler's payload, or an error payload.
pub enum Reply<Res> {
    Success(Payload<Res>),
    Failure(Payload<PayloadError>),
}

impl<Res> Reply<Res> {
    pub open spec fn in_reply_to(self) -> Option<usize> {
        match self {
            Reply::Success(p) => p.in_reply_to,
            Reply::Failure(p) => p.in_reply_to,
        }
    }
}

/// What the input stream handed over: a decoded request, a line that did not
/// decode, or the end of the stream.
pub enum Input<Req> {
    Request(Message<Payload<Req>>),
    Malformed,
    Closed,
}

/// What to do after one input: send one reply, read on, or stop.
pub enum Step<Res> {
    Send(Message<Reply<Res>>),
    Skip,
    Stop,
}

/// The text of the error reply for a handler failure with description `e`.
pub open spec fn handler_failure_text(e: Seq<char>) -> Seq<char> {
    "error processing message: "@ + e
}

/// The text of the error reply for a handshake that failed to decode.
pub open spec fn init_failure_text(e: Seq<char>) -> Seq<char> {
    "error parsing init message: "@ + e
}

/// `r` is the reply, from `node_id` to `dest`, that answers a request with
/// id `msg_id` whose handler gave `outcome`.
pub open spec fn is_reply_to<Res>(
    r: Message<Reply<Res>>,
    node_id: Seq<char>,
    dest: Seq<char>,
    msg_id: Option<usize>,
    outcome: Result<Payload<Res>, String>,
) -> bool {
    &&& r.src@ == node_id
    &&& r.dest@ == dest
    &&& match outcome {
        Ok(p) => r.body == Reply::Success(Payload { in_reply_to: msg_id, ..p }),
        Err(e) => match r.body {
            Reply::Success(_) => false,
            Reply::Failure(f) => {
                &&& f.type_payload@ == "error"@
                &&& f.msg_id is None
                &&& f.in_reply_to == msg_id
                &&& f.info.code == HANDLER_FAILURE
                &&& f.info.text@ == handler_failure_text(e@)
            },
        },
    }
}

/// Builds the reply to a request from `request_src` with id `msg_id`, given
/// what its handler returned: the reply goes from `node_id` back to the
/// sender and carries `msg_id` as its `in_reply_to`.
pub fn correlate<Res>(
    node_id: String,
    request_src: String,
    msg_id: Option<usize>,
    outcome: Result<Payload<Res>, String>,
) -> (r: Message<Reply<Res>>)
    ensures
        is_reply_to(r, node_id@, request_src@, msg_id, outcome),
        r.body.in_reply_to() == msg_id,
{
    let body = match outcome {
        Ok(response) => {
            let mut response = response;
            response.in_reply_to = msg_id;
            Reply::Success(response)
        },
        Err(e) => {
            let text = "error processing message: ".to_string().concat(e.as_str());
            let mut error = PayloadError::error(HANDLER_FAILURE, text);
            error.in_reply_to = msg_id;
            Reply::Failure(error)
        },
    };
    Message { src: node_id, dest: request_src, body }
}

/// The error payload sent when the handshake line does not decode; `e`
/// describes why.
pub fn init_failure(e: String) -> (r: Payload<PayloadError>)
    ensures
        r.type_payload@ == "error"@,
        r.msg_id is None,
        r.in_reply_to is None,
        r.info.code == PARSE_FAILURE,
        r.info.text@ == init_failure_text(e@),
{
    let text = "error parsing init message: ".to_string().concat(e.as_str());
    PayloadError::error(PARSE_FAILURE, text)
}

/// A running node: its identity, fixed by the handshake, and the state that
/// its services mutate.
pub struct Node<State> {
    pub id: String,
    pub node_ids: Vec<String>,
    pub state: State,
}

impl<State: Default> Node<State> {
    /// Completes the handshake on a decoded `init` request: returns the node
    /// it names, with the default state, and the `init_ok` acknowledgement,
    /// which goes back to the sender and answers the request's id.
    pub fn new(init: Message<Payload<InitRequest>>) -> (r: (Node<State>, Message<Payload<InitOk>>))
        ensures
            r.0.id@ == init.body.info.node_id@,
            r.0.node_ids@ == init.body.info.node_ids@,
            r.1.src@ == init.dest@,
            r.1.dest@ == init.src@,
            r.1.body.type_payload@ == "init_ok"@,
            r.1.body.msg_id is None,
            r.1.body.in_reply_to == init.body.msg_id,
            call_ensures(State::default, (), r.0.state),
    {
        let Message { src, dest, body } = init;
        let mut ack_body = Payload::new("init_ok".to_string(), InitOk {});
        ack_body.in_reply_to = body.msg_id;
        let ack = Message { src: dest, dest: src, body: ack_body };
        let node = Node { id: body.info.node_id, node_ids: body.info.node_ids, state: State::default() };
        (node, ack)
    }
}

impl<State> Node<State> {
    /// Handles one decoded request: runs the service once on the request's
    /// payload as it came and returns the correlated reply, from this node
    /// back to the request's sender. The node keeps its identity whatever the
    /// service did; the service's state change is kept.
    pub fn dispatch<Req, Res>(&mut self, request: Message<Payload<Req>>) -> (r: Message<Reply<Res>>)
        where Self: Service<State, Req, Res>,
        ensures
            exists|outcome: Result<Payload<Res>, String>, after: Self|
                #[trigger] <Self as Service<State, Req, Res>>::handled(*old(self), request.body, after, outcome)
                && is_reply_to(r, old(self).id@, request.src@, request.body.msg_id, outcome)
                && final(self).state == after.state,
            final(self).id == old(self).id,
            final(self).node_ids@ == old(self).node_ids@,
            r.src@ == old(self).id@,
            r.dest@ == request.src@,
            r.body.in_reply_to() == request.body.msg_id,
    {
        let id = self.id.clone();
        let node_ids = self.node_ids.clone();
        assert(node_ids@ =~= self.node_ids@);
        let msg_id = request.body.msg_id;
        let ghost body = request.body;
        let outcome = self.handle(request.body);
        let ghost after = *self;
        self.id = id.clone();
        self.node_ids = node_ids;
        let r = correlate(id, request.src, msg_id, outcome);
        assert(<Self as Service<State, Req, Res>>::handled(*old(self), body, after, outcome));
        r
    }

    /// One turn of the dispatch loop: a decoded request gets exactly one
    /// reply, built by `dispatch`; a line that did not decode is passed over
    /// with the node unchanged, and the end of input stops the loop.
    pub fn step<Req, Res>(&mut self, input: Input<Req>) -> (r: Step<Res>)
        where Self: Service<State, Req, Res>,
        ensures
            input is Request ==> r is Send && (exists|outcome: Result<Payload<Res>, String>, after: Self|
                #[trigger] <Self as Service<State, Req, Res>>::handled(*old(self), input->Request_0.body, after, outcome)
                && is_reply_to(r->Send_0, old(self).id@, input->Request_0.src@,
                    input->Request_0.body.msg_id, outcome)
                && final(self).state == after.state),
            input is Request ==> final(self).id == old(self).id && final(self).node_ids@ == old(self).node_ids@,
            input is Malformed ==> r is Skip && *final(self) == *old(self),
            input is Closed ==> r is Stop && *final(self) == *old(self),
    {
        match input {
            Input::Request(m) => {
                let ghost m0 = m;
                let reply = self.dispatch(m);
                let r = Step::Send(reply);
                assert(m0 == input->Request_0);
                assert(r->Send_0 == reply);
                r
            },
            Input::Malformed => Step::Skip,
            Input::Closed => Step::Stop,
        }
    }
}

} // verus!

use vstd::prelude::*;

verus! {

/// Error code carried by the reply to an input that could not be decoded.
pub const PARSE_FAILURE: usize = 0;

/// Error code carried by the reply to a request whose handler failed.
pub const HANDLER_FAILURE: usize = 1;

/// The body of a protocol message: a type tag, the two correlation ids and
/// the type-specific fields, which travel flattened beside them.
pub struct Payload<Info> {
    pub type_payload: String,
    pub msg_id: Option<usize>,
    pub in_reply_to: Option<usize>,
    pub info: Info,
}

impl<Info> Payload<Info> {
    /// A fresh payload with the given type tag and extra fields, carrying no ids.
    pub fn new(type_payload: String, info: Info) -> (r: Self)
        ensures
            r.type_payload@ == type_payload@,
            r.msg_id is None,
            r.in_reply_to is None,
            r.info == info,
    {
        Payload { type_payload, msg_id: None, in_reply_to: None, info }
    }
}

/// The envelope around a body: who sent it and to whom.
pub struct Message<Body> {
    pub src: String,
    pub dest: String,
    pub body: Body,
}

/// The fields of the handshake request: this node's id and all node ids.
pub struct InitRequest {
    pub node_id: String,
    pub node_ids: Vec<String>,
}

/// The (empty) fields of the handshake acknowledgement.
pub struct InitOk {}

/// The fields of an error reply.
pub struct PayloadError {
    pub code: usize,
    pub text: String,
}

impl PayloadError {
    /// An `error` payload with the given code and text, carrying no ids.
    pub fn error(code: usize, text: String) -> (r: Payload<PayloadError>)
        ensures
            r.type_payload@ == "error"@,
            r.msg_id is None,
            r.in_reply_to is None,
            r.info.code == code,
            r.info.text@ == text@,
    {
        let error = PayloadError { code, text };
        Payload::new("error".to_string(), error)
    }
}

} // verus!

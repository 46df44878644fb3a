//! The ABCI gRPC service a node offers its relayers: the messages, the
//! routing of calls, and the answer to each relayed request.
use vstd::prelude::*;

use crate::text::{decimal, parse_u16, parse_u16_spec, push_decimal, str_eq};

verus! {

/// A request of a relayer: a JSON payload.
#[derive(Debug)]
pub struct ScalarAbciRequest {
    pub payload: String,
}

/// The acknowledgement of a request, echoing its payload.
#[derive(Debug)]
pub struct RequestArk {
    pub payload: String,
}

/// A transaction the consensus produced, as JSON.
#[derive(Debug)]
pub struct ScalarOutTransaction {
    pub message: String,
}

/// The public key a key generation produced.
#[derive(Debug)]
pub struct KeygenOutput {
    pub pub_key: Vec<u8>,
}

/// What a response carries.
#[derive(Debug)]
pub enum AbciMessage {
    Ark(RequestArk),
    Tran(ScalarOutTransaction),
    Keygen(KeygenOutput),
}

/// A response of the service.
#[derive(Debug)]
pub struct ScalarAbciResponse {
    pub message: Option<AbciMessage>,
}

/// The methods of the service.
#[derive(Debug, PartialEq, Eq, Structural)]
pub enum AbciMethod {
    Unary,
    ServerStreaming,
    ClientStreaming,
    BidirectionalStreaming,
}

/// The gRPC status a call of an unknown method is answered with
/// (unimplemented).
pub const UNIMPLEMENTED_GRPC_STATUS: &'static str = "12";

/// The method a request path names.
pub open spec fn method_of(path: Seq<char>) -> Option<AbciMethod> {
    if path == "/abci.ScalarAbci/UnaryScalarAbci"@ {
        Some(AbciMethod::Unary)
    } else if path == "/abci.ScalarAbci/ServerStreamingScalarAbci"@ {
        Some(AbciMethod::ServerStreaming)
    } else if path == "/abci.ScalarAbci/ClientStreamingScalarAbci"@ {
        Some(AbciMethod::ClientStreaming)
    } else if path == "/abci.ScalarAbci/BidirectionalStreamingScalarAbci"@ {
        Some(AbciMethod::BidirectionalStreaming)
    } else {
        None
    }
}

/// The method of the service that handles a call to `path`; none for an
/// unknown path, which is answered with [`UNIMPLEMENTED_GRPC_STATUS`].
pub fn route(path: &str) -> (r: Option<AbciMethod>)
    ensures
        r == method_of(path@),
{
    if str_eq(path, "/abci.ScalarAbci/UnaryScalarAbci") {
        Some(AbciMethod::Unary)
    } else if str_eq(path, "/abci.ScalarAbci/ServerStreamingScalarAbci") {
        Some(AbciMethod::ServerStreaming)
    } else if str_eq(path, "/abci.ScalarAbci/ClientStreamingScalarAbci") {
        Some(AbciMethod::ClientStreaming)
    } else if str_eq(path, "/abci.ScalarAbci/BidirectionalStreamingScalarAbci") {
        Some(AbciMethod::BidirectionalStreaming)
    } else {
        None
    }
}

/// The answer to a call of a method the service does not have: HTTP status
/// 200, gRPC status "unimplemented", the gRPC content type and no body.
#[derive(Debug)]
pub struct UnimplementedReply {
    pub http_status: u16,
    pub grpc_status: String,
    pub content_type: String,
    pub body: Vec<u8>,
}

/// Dispatches a call to `path`: the method that handles it, or for an
/// unknown path the unimplemented answer.
pub fn dispatch(path: &str) -> (r: Result<AbciMethod, UnimplementedReply>)
    ensures
        match method_of(path@) {
            Some(m) => r == Ok::<AbciMethod, UnimplementedReply>(m),
            None => r matches Err(reply) && reply.http_status == 200 && reply.grpc_status@
                == UNIMPLEMENTED_GRPC_STATUS@ && reply.content_type@ == "application/grpc"@ && reply.body@.len() == 0,
        },
{
    match route(path) {
        Some(m) => Ok(m),
        None => Err(
            UnimplementedReply {
                http_status: 200,
                grpc_status: UNIMPLEMENTED_GRPC_STATUS.to_owned(),
                content_type: "application/grpc".to_owned(),
                body: Vec::new(),
            },
        ),
    }
}

/// The kind of a failure on a relayer's request stream, by the I/O error
/// found among its causes.
#[derive(Debug, Clone, Copy, PartialEq, Eq, Structural)]
pub enum StreamErrorKind {
    /// The relayer disconnected: the pipe is broken.
    BrokenPipe,
    /// Any other failure.
    Other,
}

/// What the node does on a failure of a relayer's request stream.
#[derive(Debug, Clone, Copy, PartialEq, Eq, Structural)]
pub enum StreamAction {
    /// Stop reading the stream.
    Stop,
    /// Pass the error on to the relayer on the response stream (and stop
    /// if that stream is gone).
    ForwardError,
}

/// A broken pipe ends the request stream; any other error is passed on to
/// the relayer.
pub fn on_stream_error(kind: StreamErrorKind) -> (r: StreamAction)
    ensures
        r == (if kind == StreamErrorKind::BrokenPipe { StreamAction::Stop } else { StreamAction::ForwardError }),
{
    match kind {
        StreamErrorKind::BrokenPipe => StreamAction::Stop,
        StreamErrorKind::Other => StreamAction::ForwardError,
    }
}

/// What the node does with one request of a relayer's stream.
#[derive(Debug)]
pub struct Acknowledgement {
    /// The external message handed to the primary: the payload's UTF-8 bytes.
    pub external_message: Vec<u8>,
    /// The request, passed on to the node's transaction channel.
    pub forward: ScalarAbciRequest,
    /// The answer to the relayer.
    pub reply: ScalarAbciResponse,
}

/// The handling of a relayed request: its payload becomes an external
/// message, the request is passed on, and the relayer is answered with an
/// acknowledgement carrying the payload.
pub fn acknowledge(request: ScalarAbciRequest) -> (r: Acknowledgement)
    ensures
        r.external_message@ == vstd::utf8::encode_utf8(request.payload@),
        r.forward == request,
        r.reply.message matches Some(AbciMessage::Ark(ark)) && ark.payload@ == request.payload@,
{
    let bytes = vstd::slice::slice_to_vec(request.payload.as_str().as_bytes());
    let echo = request.payload.clone();
    Acknowledgement {
        external_message: bytes,
        forward: request,
        reply: ScalarAbciResponse { message: Some(AbciMessage::Ark(RequestArk { payload: echo })) },
    }
}

/// The response that carries a transaction the consensus produced, given as
/// JSON.
pub fn transaction_response(json: String) -> (r: ScalarAbciResponse)
    ensures
        r.message matches Some(AbciMessage::Tran(t)) && t.message@ == json@,
{
    ScalarAbciResponse { message: Some(AbciMessage::Tran(ScalarOutTransaction { message: json })) }
}

/// The port a setting gives: the setting parsed as a port number, or
/// `default` when it is unset or not a port number.
pub open spec fn configured_port(setting: Option<Seq<char>>, default: u16) -> u16 {
    match setting {
        Some(t) => match parse_u16_spec(t) {
            Some(p) => p,
            None => default,
        },
        None => default,
    }
}

/// The text of an optional setting.
pub open spec fn setting(s: Option<String>) -> Option<Seq<char>> {
    match s {
        Some(t) => Some(t@),
        None => None,
    }
}

fn port_setting(text: &Option<String>, default: u16) -> (r: u16)
    ensures
        r == configured_port(setting(*text), default),
{
    match text {
        Some(t) => match parse_u16(t.as_str()) {
            Some(p) => p,
            None => default,
        },
        None => default,
    }
}

/// The address the ABCI server of authority `id` listens on: the host set
/// by `GRPC_HOST` (by default `0.0.0.0`) and the port set by `GRPC_PORT`
/// (by default 50050) plus the authority's identifier.
pub fn grpc_listen_address(host: Option<String>, port: Option<String>, id: u16) -> (r: String)
    requires
        configured_port(setting(port), 50050) + id <= u16::MAX,
    ensures
        r@ == (match host {
            Some(h) => h@,
            None => "0.0.0.0"@,
        }) + ":"@ + decimal((configured_port(setting(port), 50050) + id) as nat),
{
    let p = port_setting(&port, 50050);
    let mut addr = match host {
        Some(h) => h,
        None => "0.0.0.0".to_owned(),
    };
    addr.append(":");
    push_decimal(&mut addr, (p + id) as u64);
    addr
}

/// The address of the tofnd daemon of authority `id`: the host set by
/// `TSS_HOST` (by default `127.0.0.1`) and the port set by `TSS_PORT`, by
/// default 50010 plus the authority's identifier.
pub fn tss_address(host: Option<String>, port: Option<String>, id: u16) -> (r: String)
    requires
        (match setting(port) {
            Some(t) => parse_u16_spec(t) is Some,
            None => false,
        }) || id <= 15525,
    ensures
        r@ == "http://"@ + (match host {
            Some(h) => h@,
            None => "127.0.0.1"@,
        }) + ":"@ + decimal(
            match setting(port) {
                Some(t) => match parse_u16_spec(t) {
                    Some(p) => p as nat,
                    None => (50010 + id) as nat,
                },
                None => (50010 + id) as nat,
            },
        ),
{
    let parsed = match &port {
        Some(t) => parse_u16(t.as_str()),
        None => None,
    };
    let p: u16 = match parsed {
        Some(p) => p,
        None => 50010 + id,
    };
    let mut addr = "http://".to_owned();
    match host {
        Some(h) => addr.append(h.as_str()),
        None => addr.append("127.0.0.1"),
    }
    addr.append(":");
    push_decimal(&mut addr, p as u64);
    addr
}

} // verus!

//! The query runner: resolve the effective node, validate the arguments,
//! pick the transport, build the request, and decode the reply. Everything
//! here turns plain values into plain values; the surrounding process does
//! the network call in between.

use vstd::prelude::*;

use crate::config::Config;
use crate::request::{
    build_request, request_body, spec_envelope, spec_filter_address, spec_request_method,
    spec_request_params, spec_valid_address, spec_valid_method, valid_address, valid_method,
    CliArgs, RpcRequest,
};
use crate::transport::{select_transport, spec_is_websocket_url, TransportKind};

verus! {

/// Why a query never reached dispatch.
#[derive(Clone, Copy, Debug, PartialEq, Eq, Structural)]
pub enum PlanError {
    /// No node address anywhere: none persisted, none supplied.
    NodeNotConfigured,
    /// The address argument is not hexadecimal and not the placeholder.
    InvalidAddress,
    /// The method name would not embed in the envelope.
    InvalidMethod,
}

/// The effective node URL under the layering: CLI flag over environment
/// variable over persisted configuration. `None` when all three are
/// absent or empty.
pub open spec fn spec_resolve_node(
    cli: Seq<char>,
    env: Option<Seq<char>>,
    persisted: Seq<char>,
) -> Option<Seq<char>> {
    if cli.len() > 0 {
        Some(cli)
    } else if match env {
        Some(e) => e.len() > 0,
        None => false,
    } {
        env
    } else if persisted.len() > 0 {
        Some(persisted)
    } else {
        None
    }
}

/// Resolve the effective node URL for this invocation.
pub fn resolve_node(cli_node: &String, env_node: &Option<String>, persisted: &String) -> (r: Option<
    String,
>)
    ensures
        r.deep_view() == spec_resolve_node(cli_node@, env_node.deep_view(), persisted@),
{
    if cli_node.as_str().unicode_len() > 0 {
        return Some(cli_node.clone());
    }
    match env_node {
        Some(e) => {
            if e.as_str().unicode_len() > 0 {
                return Some(e.clone());
            }
        },
        None => {},
    }
    if persisted.as_str().unicode_len() > 0 {
        return Some(persisted.clone());
    }
    None
}

/// Everything needed to dispatch one query: where to send it, over what,
/// and the request itself.
pub struct Dispatch {
    pub url: String,
    pub transport: TransportKind,
    pub request: RpcRequest,
}

/// The pre-dispatch half of the query runner. A missing node address
/// aborts before anything else is looked at; a malformed address or
/// method aborts before dispatch; otherwise the plan carries the resolved
/// URL, the transport its scheme calls for, and the built request.
pub fn plan_query(config: &Config, env_node: &Option<String>, args: &CliArgs) -> (r: Result<
    Dispatch,
    PlanError,
>)
    ensures
        match r {
            Err(PlanError::NodeNotConfigured) => spec_resolve_node(
                args.node@,
                env_node.deep_view(),
                config.node_address@,
            ) is None,
            Err(PlanError::InvalidAddress) => spec_resolve_node(
                args.node@,
                env_node.deep_view(),
                config.node_address@,
            ) is Some && !spec_valid_address(args.address@),
            Err(PlanError::InvalidMethod) => spec_resolve_node(
                args.node@,
                env_node.deep_view(),
                config.node_address@,
            ) is Some && spec_valid_address(args.address@) && !spec_valid_method(args.method@),
            Ok(d) => spec_resolve_node(args.node@, env_node.deep_view(), config.node_address@)
                == Some(d.url@) && spec_valid_address(args.address@) && spec_valid_method(
                args.method@,
            ) && ((d.transport == TransportKind::Websocket) <==> spec_is_websocket_url(d.url@))
                && d.request.method@ == spec_request_method(args.method@)
                && d.request.params_json@ == spec_request_params(
                args.from,
                args.to,
                spec_filter_address(args.address@),
            ),
        },
{
    let resolved = resolve_node(&args.node, env_node, &config.node_address);
    match resolved {
        None => Err(PlanError::NodeNotConfigured),
        Some(url) => {
            if !valid_address(args.address.as_str()) {
                return Err(PlanError::InvalidAddress);
            }
            if !valid_method(args.method.as_str()) {
                return Err(PlanError::InvalidMethod);
            }
            let transport = select_transport(url.as_str());
            let request = build_request(args);
            Ok(Dispatch { url, transport, request })
        },
    }
}

/// One bound client: the transport its URL calls for and a monotonic
/// per-connection request counter.
pub struct RpcClient {
    pub transport: TransportKind,
    pub url: String,
    pub next_id: u64,
}

impl RpcClient {
    /// Bind a client to a node URL; the request counter starts at 1.
    pub fn connect(url: String) -> (c: RpcClient)
        ensures
            c.url@ == url@,
            (c.transport == TransportKind::Websocket) <==> spec_is_websocket_url(url@),
            c.next_id == 1,
    {
        let transport = select_transport(url.as_str());
        RpcClient { transport, url, next_id: 1 }
    }

    /// The wire body for the next request; the counter moves on by one.
    pub fn next_request_body(&mut self, req: &RpcRequest) -> (body: String)
        requires
            old(self).next_id < u64::MAX,
        ensures
            body@ == spec_envelope(old(self).next_id, req.method@, req.params_json@),
            final(self).next_id == old(self).next_id + 1,
            final(self).transport == old(self).transport,
            final(self).url == old(self).url,
    {
        let body = request_body(self.next_id, req);
        self.next_id = self.next_id + 1;
        body
    }
}

/// How one call failed.
pub enum RpcError {
    /// Connection, timeout or decode failure below the protocol.
    Transport { description: String },
    /// The node answered with a JSON-RPC error object.
    Remote { code: i64, message: String },
}

/// A remote JSON-RPC error object: its code and message.
pub struct RemoteError {
    pub code: i64,
    pub message: String,
}

/// One reply, reduced to its envelope fields: the error object if the
/// reply carried one, and the raw result text if it carried one. The
/// surrounding process parses the wire bytes this far; the decision on
/// them is made here.
pub struct RawReply {
    pub error: Option<RemoteError>,
    pub result: Option<String>,
}

/// Decode one reply: an error field maps to a remote error, otherwise a
/// result field yields its value, and a reply with neither is malformed.
pub fn decode_reply(reply: RawReply) -> (r: Result<String, RpcError>)
    ensures
        match reply.error {
            Some(e) => r matches Err(RpcError::Remote { code, message }) && code == e.code
                && message@ == e.message@,
            None => match reply.result {
                Some(v) => r matches Ok(out) && out@ == v@,
                None => r matches Err(RpcError::Transport { description }) && description@
                    == "reply carries neither result nor error"@,
            },
        },
{
    match reply.error {
        Some(e) => Err(RpcError::Remote { code: e.code, message: e.message }),
        None => match reply.result {
            Some(v) => Ok(v),
            None => Err(
                RpcError::Transport {
                    description: String::from_str("reply carries neither result nor error"),
                },
            ),
        },
    }
}

} // verus!

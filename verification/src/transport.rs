//! Transport selection: classify a node URL as HTTP or WebSocket.

use vstd::prelude::*;

use crate::text::has_prefix;

verus! {

/// Which transport a node URL calls for.
#[derive(Clone, Copy, Debug, PartialEq, Eq, Structural)]
pub enum TransportKind {
    Http,
    Websocket,
}

/// A URL calls for the websocket transport exactly when it begins with
/// `ws://` or `wss://`; the comparison is case-sensitive.
pub open spec fn spec_is_websocket_url(url: Seq<char>) -> bool {
    ||| url.len() >= 5 && url.subrange(0, 5) == "ws://"@
    ||| url.len() >= 6 && url.subrange(0, 6) == "wss://"@
}

/// Classify a node URL: `Websocket` for a `ws://` or `wss://` scheme,
/// `Http` for everything else.
pub fn select_transport(url: &str) -> (t: TransportKind)
    ensures
        (t == TransportKind::Websocket) <==> spec_is_websocket_url(url@),
        (t == TransportKind::Http) <==> !spec_is_websocket_url(url@),
{
    proof {
        reveal_strlit("ws://");
        reveal_strlit("wss://");
    }
    let ws = has_prefix(url, "ws://");
    let wss = has_prefix(url, "wss://");
    if ws || wss {
        TransportKind::Websocket
    } else {
        TransportKind::Http
    }
}

} // verus!

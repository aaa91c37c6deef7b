//! Query arguments, the `eth_getLogs` filter object, and the JSON-RPC
//! request text built from them.

use vstd::prelude::*;

use crate::hexnum::{hex_str, is_hex_digit, lemma_hex_round_trip, spec_parse_hex, u64_to_hex};
use crate::text::{dec_digits, str_eq, u64_to_dec};

verus! {

/// One invocation's parsed query arguments, immutable once parsed.
pub struct CliArgs {
    /// Address to query, as hexadecimal digits; `0x0` means none.
    pub address: String,
    /// First block of the queried range.
    pub from: u64,
    /// Last block of the queried range.
    pub to: u64,
    /// Method to run; `logs` takes the specialized branch.
    pub method: String,
    /// Node URL override; empty when not supplied.
    pub node: String,
    /// Bound on one call, in milliseconds.
    pub timeout: u64,
}

/// The address field a filter carries: none for the `0x0` placeholder
/// (the zero address is not a real filter target), otherwise the given
/// digits behind a `0x` prefix.
pub open spec fn spec_filter_address(addr: Seq<char>) -> Option<Seq<char>> {
    if addr == "0x0"@ {
        None
    } else {
        Some("0x"@ + addr)
    }
}

/// The `eth_getLogs` filter: a block range and an optional address.
pub struct FilterObject {
    pub from_block: u64,
    pub to_block: u64,
    pub address: Option<String>,
}

/// Build the filter for a logs query from the invocation's arguments.
pub fn build_filter(args: &CliArgs) -> (f: FilterObject)
    ensures
        f.from_block == args.from,
        f.to_block == args.to,
        f.address.deep_view() == spec_filter_address(args.address@),
{
    let address = if str_eq(args.address.as_str(), "0x0") {
        Option::<String>::None
    } else {
        let mut a = String::from_str("0x");
        a.append(args.address.as_str());
        Some(a)
    };
    FilterObject { from_block: args.from, to_block: args.to, address }
}

/// The JSON text of a filter: block bounds as `0x`-prefixed hexadecimal
/// strings, and the address field only when there is an address.
pub open spec fn spec_filter_json(from_block: u64, to_block: u64, address: Option<Seq<char>>) -> Seq<
    char,
> {
    "{\"fromBlock\":\""@ + hex_str(from_block as nat) + "\",\"toBlock\":\""@ + hex_str(
        to_block as nat,
    ) + match address {
        Some(a) => "\",\"address\":\""@ + a + "\"}"@,
        None => "\"}"@,
    }
}

/// Render a filter as JSON text.
pub fn filter_to_json(f: &FilterObject) -> (s: String)
    ensures
        s@ == spec_filter_json(f.from_block, f.to_block, f.address.deep_view()),
{
    let mut s = String::from_str("{\"fromBlock\":\"");
    let from_hex = u64_to_hex(f.from_block);
    s.append(from_hex.as_str());
    s.append("\",\"toBlock\":\"");
    let to_hex = u64_to_hex(f.to_block);
    s.append(to_hex.as_str());
    match &f.address {
        Some(a) => {
            s.append("\",\"address\":\"");
            s.append(a.as_str());
            s.append("\"}");
        },
        None => {
            s.append("\"}");
        },
    }
    proof {
        assert(s@ =~= spec_filter_json(f.from_block, f.to_block, f.address.deep_view()));
    }
    s
}

/// Law: the hex-encoded block bounds of a filter decode back to the
/// original integers, for every block range.
pub proof fn lemma_filter_hex_round_trip(f: FilterObject)
    requires
        f.to_block >= f.from_block,
    ensures
        spec_parse_hex(hex_str(f.from_block as nat)) == Some(f.from_block),
        spec_parse_hex(hex_str(f.to_block as nat)) == Some(f.to_block),
{
    lemma_hex_round_trip(f.from_block);
    lemma_hex_round_trip(f.to_block);
}

/// The method name a request carries: the `logs` branch is the specialized
/// `eth_getLogs` call; any other method passes through unchanged.
pub open spec fn spec_request_method(method: Seq<char>) -> Seq<char> {
    if method == "logs"@ {
        "eth_getLogs"@
    } else {
        method
    }
}

/// The params text of a request: a one-element array holding the filter.
pub open spec fn spec_request_params(from_block: u64, to_block: u64, address: Option<Seq<char>>) -> Seq<
    char,
> {
    "["@ + spec_filter_json(from_block, to_block, address) + "]"@
}

/// One JSON-RPC request: a method name and its params text, constructed
/// fresh per call.
pub struct RpcRequest {
    pub method: String,
    pub params_json: String,
}

/// Build the request for the invocation: `logs` becomes the specialized
/// `eth_getLogs` call, any other method passes through; both carry the
/// filter object as their single parameter.
pub fn build_request(args: &CliArgs) -> (r: RpcRequest)
    ensures
        r.method@ == spec_request_method(args.method@),
        r.params_json@ == spec_request_params(
            args.from,
            args.to,
            spec_filter_address(args.address@),
        ),
{
    let method = if str_eq(args.method.as_str(), "logs") {
        String::from_str("eth_getLogs")
    } else {
        String::from_str(args.method.as_str())
    };
    let f = build_filter(args);
    let mut params = String::from_str("[");
    let filter_json = filter_to_json(&f);
    params.append(filter_json.as_str());
    params.append("]");
    proof {
        assert(params@ =~= spec_request_params(
            args.from,
            args.to,
            spec_filter_address(args.address@),
        ));
    }
    RpcRequest { method, params_json: params }
}

/// The JSON-RPC 2.0 envelope for one request.
pub open spec fn spec_envelope(id: u64, method: Seq<char>, params: Seq<char>) -> Seq<char> {
    "{\"jsonrpc\":\"2.0\",\"id\":"@ + dec_digits(id as nat) + ",\"method\":\""@ + method
        + "\",\"params\":"@ + params + "}"@
}

/// Render the full JSON-RPC 2.0 envelope for a request under a given id.
pub fn request_body(id: u64, req: &RpcRequest) -> (s: String)
    ensures
        s@ == spec_envelope(id, req.method@, req.params_json@),
{
    let mut s = String::from_str("{\"jsonrpc\":\"2.0\",\"id\":");
    let id_dec = u64_to_dec(id);
    s.append(id_dec.as_str());
    s.append(",\"method\":\"");
    s.append(req.method.as_str());
    s.append("\",\"params\":");
    s.append(req.params_json.as_str());
    s.append("}");
    proof {
        assert(s@ =~= spec_envelope(id, req.method@, req.params_json@));
    }
    s
}

/// A character that may stand in a method name: an ASCII letter, a digit,
/// or an underscore.
pub open spec fn is_method_char(c: char) -> bool {
    ||| ('a' as int) <= c as int <= ('z' as int)
    ||| ('A' as int) <= c as int <= ('Z' as int)
    ||| ('0' as int) <= c as int <= ('9' as int)
    ||| c == '_'
}

/// A well-formed method name: nonempty, method characters only. Such a
/// name embeds in the envelope without escaping.
pub open spec fn spec_valid_method(m: Seq<char>) -> bool {
    m.len() > 0 && forall|i: int| 0 <= i < m.len() ==> is_method_char(#[trigger] m[i])
}

/// An upper-case hexadecimal digit.
pub open spec fn is_upper_hex_digit(c: char) -> bool {
    ('A' as int) <= c as int <= ('F' as int)
}

/// A well-formed address argument: the `0x0` placeholder, or a nonempty
/// string of hexadecimal digits of either case.
pub open spec fn spec_valid_address(a: Seq<char>) -> bool {
    ||| a == "0x0"@
    ||| (a.len() > 0 && forall|i: int|
        0 <= i < a.len() ==> is_hex_digit(#[trigger] a[i]) || is_upper_hex_digit(a[i]))
}

/// Check a method name for well-formedness.
pub fn valid_method(m: &str) -> (r: bool)
    ensures
        r == spec_valid_method(m@),
{
    let n = m.unicode_len();
    if n == 0 {
        return false;
    }
    let mut i: usize = 0;
    while i < n
        invariant
            i <= n,
            n == m@.len(),
            forall|j: int| 0 <= j < i ==> is_method_char(#[trigger] m@[j]),
        decreases n - i,
    {
        let c = m.get_char(i);
        let u = c as u32;
        let ok = (97 <= u && u <= 122) || (65 <= u && u <= 90) || (48 <= u && u <= 57) || c == '_';
        if !ok {
            return false;
        }
        i += 1;
    }
    true
}

/// Check an address argument for well-formedness.
pub fn valid_address(a: &str) -> (r: bool)
    ensures
        r == spec_valid_address(a@),
{
    if str_eq(a, "0x0") {
        return true;
    }
    let n = a.unicode_len();
    if n == 0 {
        return false;
    }
    let mut i: usize = 0;
    while i < n
        invariant
            i <= n,
            n == a@.len(),
            a@ != "0x0"@,
            forall|j: int|
                0 <= j < i ==> is_hex_digit(#[trigger] a@[j]) || is_upper_hex_digit(a@[j]),
        decreases n - i,
    {
        let c = a.get_char(i);
        let u = c as u32;
        let ok = (48 <= u && u <= 57) || (97 <= u && u <= 102) || (65 <= u && u <= 70);
        if !ok {
            return false;
        }
        i += 1;
    }
    true
}

} // verus!

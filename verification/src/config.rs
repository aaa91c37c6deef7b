//! The persisted node configuration and its file-text codec.
//!
//! The surrounding process reads and writes the configuration file; this
//! module fixes the text that goes into it and proves that decoding gives
//! back exactly what encoding wrote.

use vstd::prelude::*;

use crate::text::has_prefix;

verus! {

/// The single persisted record: the node endpoint the tool queries.
pub struct Config {
    pub node_address: String,
}

/// The fixed key the file line starts with.
pub open spec fn config_prefix() -> Seq<char> {
    "node_address="@
}

/// The file text for a configuration: the key, the address, one final
/// newline.
pub open spec fn spec_encode_config(c: Config) -> Seq<char> {
    config_prefix() + c.node_address@ + "\n"@
}

/// What decoding accepts: exactly the text the codec writes. The result is
/// the address between the key and the final newline.
pub open spec fn spec_decode_config(s: Seq<char>) -> Option<Seq<char>> {
    if s.len() > config_prefix().len() && s.subrange(0, config_prefix().len() as int)
        == config_prefix() && s.last() == '\n' {
        Some(s.subrange(config_prefix().len() as int, s.len() - 1))
    } else {
        None
    }
}

impl Config {
    /// A fresh configuration with an empty node address.
    pub fn new() -> (c: Config)
        ensures
            c.node_address@ == Seq::<char>::empty(),
    {
        Config { node_address: String::new() }
    }

    /// The text that saving this configuration writes to the file.
    pub fn to_file_text(&self) -> (s: String)
        ensures
            s@ == spec_encode_config(*self),
    {
        let mut s = String::from_str("node_address=");
        s.append(self.node_address.as_str());
        s.append("\n");
        proof {
            assert(("node_address="@ + self.node_address@) + "\n"@ =~= spec_encode_config(*self));
        }
        s
    }

    /// Rebuild a configuration from persisted text. Loading is tolerant:
    /// malformed text gives the empty address rather than an error, and the
    /// caller decides whether an empty address is fatal.
    pub fn from_file_text(s: &str) -> (c: Config)
        ensures
            match spec_decode_config(s@) {
                Some(a) => c.node_address@ == a,
                None => c.node_address@ == Seq::<char>::empty(),
            },
    {
        proof {
            reveal_strlit("node_address=");
        }
        let n = s.unicode_len();
        if n < 14 {
            return Config::new();
        }
        if !has_prefix(s, "node_address=") {
            return Config::new();
        }
        if s.get_char(n - 1) != '\n' {
            return Config::new();
        }
        let mid = s.substring_char(13, n - 1);
        Config { node_address: String::from_str(mid) }
    }
}

/// Round-trip law: decoding the text that encoding produced gives back the
/// same node address, for every configuration.
pub proof fn lemma_config_round_trip(c: Config)
    ensures
        spec_decode_config(spec_encode_config(c)) == Some(c.node_address@),
{
    reveal_strlit("node_address=");
    reveal_strlit("\n");
    let s = spec_encode_config(c);
    assert(s.len() == config_prefix().len() + c.node_address@.len() + 1);
    assert(s.subrange(0, config_prefix().len() as int) =~= config_prefix());
    assert(s.last() == '\n');
    assert(s.subrange(config_prefix().len() as int, s.len() - 1) =~= c.node_address@);
}

} // verus!

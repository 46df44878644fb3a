//! Talking to a Firehose endpoint: the transport its URL calls for, the
//! authorization header, and finding the block of a given number in the
//! blocks the endpoint streams back.
use vstd::prelude::*;

use crate::text::str_eq;

verus! {

/// The initial HTTP/2 connection window, in bytes.
pub const INITIAL_CONNECTION_WINDOW_SIZE: u32 = 0x7fff_ffff;

/// How long connecting may take, in seconds.
pub const CONNECT_TIMEOUT_SECS: u64 = 10;

/// The TCP keep-alive interval, in seconds.
pub const TCP_KEEPALIVE_SECS: u64 = 15;

/// How long a request may take, in seconds.
pub const REQUEST_TIMEOUT_SECS: u64 = 120;

/// How the channel to an endpoint is secured.
#[derive(Debug, PartialEq, Eq, Structural)]
pub enum Transport {
    Plain,
    Tls,
}

/// The transport a URL scheme calls for: plain for `http` or no scheme, TLS
/// for `https`; no other scheme is supported.
pub open spec fn transport_of(scheme: Option<Seq<char>>) -> Option<Transport> {
    match scheme {
        None => Some(Transport::Plain),
        Some(s) => if s == "http"@ {
            Some(Transport::Plain)
        } else if s == "https"@ {
            Some(Transport::Tls)
        } else {
            None
        },
    }
}

/// The transport for the scheme of an endpoint's URL.
pub fn transport_for_scheme(scheme: Option<&str>) -> (r: Option<Transport>)
    ensures
        r == transport_of(match scheme {
            Some(s) => Some(s@),
            None => None,
        }),
{
    match scheme {
        None => Some(Transport::Plain),
        Some(s) => {
            if str_eq(s, "http") {
                Some(Transport::Plain)
            } else if str_eq(s, "https") {
                Some(Transport::Tls)
            } else {
                None
            }
        },
    }
}

/// The authorization value for an API token.
pub fn bearer_token(token: &str) -> (r: String)
    ensures
        r@ == "bearer "@ + token@,
{
    let mut s = "bearer ".to_owned();
    s.append(token);
    s
}

/// A block's number and hash.
#[derive(Debug)]
pub struct BlockPtr {
    pub number: i32,
    pub hash: Vec<u8>,
}

/// The search, in the blocks streamed back for a block number, for the last
/// block before the stream moves past that number.
#[derive(Debug)]
pub struct BlockScan {
    pub latest: Option<BlockPtr>,
}

impl BlockScan {
    /// No block seen yet.
    pub fn new() -> (r: Self)
        ensures
            r.latest is None,
    {
        BlockScan { latest: None }
    }

    /// Takes the next block of the stream; says whether to read on. A block
    /// with a higher number than the one kept ends the search.
    pub fn on_block(&mut self, block: BlockPtr) -> (r: bool)
        ensures
            match old(self).latest {
                Some(l) => if block.number > l.number {
                    !r && final(self).latest == old(self).latest
                } else {
                    r && final(self).latest == Some(block)
                },
                None => r && final(self).latest == Some(block),
            },
    {
        match &self.latest {
            Some(l) => {
                if block.number > l.number {
                    return false;
                }
            },
            None => {},
        }
        self.latest = Some(block);
        true
    }
}

} // verus!

//! Rate-limit keys: the client address a request is counted against, and
//! the body of the response to a request over the limit.

use vstd::prelude::*;
use crate::text::{decimal, push_char, push_decimal};

verus! {

/// An IP address: IPv4 as its 32-bit value, IPv6 as its 128-bit value.
#[derive(Debug, Clone, Copy, PartialEq, Eq, Structural)]
pub enum IpAddress {
    V4(u32),
    V6(u128),
}

/// Extracts the rate-limit key of a request: the real client address when
/// the request comes through the trusted reverse proxy, else the peer.
#[derive(Debug, Clone, Copy, PartialEq, Eq)]
pub struct RealIpKeyExtractor;

/// Which address of a request is its key.
#[derive(Debug, Clone, Copy, PartialEq, Eq, Structural)]
pub enum KeySource {
    /// The address the proxy forwarded (`Forwarded` / `X-Forwarded-For`).
    ForwardedRealIp,
    /// The address of the connection's peer.
    PeerAddress,
}

/// An address text as parsed both as a socket address and as a bare IP.
#[derive(Debug, Clone, Copy)]
pub struct ParsedAddress {
    /// The IP of the text read as `ip:port`, when it reads so.
    pub socket_ip: Option<IpAddress>,
    /// The text read as a bare IP address, when it reads so.
    pub plain_ip: Option<IpAddress>,
}

/// The proxy address used when none is configured: `0.0.0.0`.
pub open spec fn default_proxy() -> IpAddress {
    IpAddress::V4(0)
}

/// The key source: the forwarded address exactly when the peer is the
/// trusted proxy.
pub open spec fn key_source_of(reverse_proxy_ip: Option<IpAddress>, peer_ip: Option<IpAddress>) -> KeySource {
    let proxy = match reverse_proxy_ip {
        Some(ip) => ip,
        None => default_proxy(),
    };
    if peer_ip == Some(proxy) {
        KeySource::ForwardedRealIp
    } else {
        KeySource::PeerAddress
    }
}

/// The key for a source, given its address text parsed (`None`: no text).
/// A forwarded address may be `ip:port` or a bare IP; a peer address must
/// be `ip:port`.
pub open spec fn key_of(source: KeySource, address: Option<ParsedAddress>) -> Result<IpAddress, Seq<char>> {
    match source {
        KeySource::ForwardedRealIp => match address {
            Some(ParsedAddress { socket_ip: Some(ip), .. }) => Ok(ip),
            Some(ParsedAddress { socket_ip: None, plain_ip: Some(ip) }) => Ok(ip),
            _ => Err("Could not extract real IP address from request"@),
        },
        KeySource::PeerAddress => match address {
            Some(ParsedAddress { socket_ip: Some(ip), .. }) => Ok(ip),
            _ => Err("Could not extract peer IP address from request"@),
        },
    }
}

/// The body of the response to a request over the limit, telling when to
/// retry.
pub open spec fn rate_limit_body(wait_time_secs: nat) -> Seq<char> {
    "{\"code\":429, \"error\": \"TooManyRequests\", \"message\": \"Too Many Requests\", \"after\": "@
        + decimal(wait_time_secs) + "}"@
}

impl RealIpKeyExtractor {
    /// Which address of the request is its key.
    pub fn key_source(&self, reverse_proxy_ip: Option<IpAddress>, peer_ip: Option<IpAddress>) -> (r: KeySource)
        ensures
            r == key_source_of(reverse_proxy_ip, peer_ip),
    {
        let proxy = match reverse_proxy_ip {
            Some(ip) => ip,
            None => IpAddress::V4(0),
        };
        match peer_ip {
            Some(peer) => if peer == proxy {
                KeySource::ForwardedRealIp
            } else {
                KeySource::PeerAddress
            },
            None => KeySource::PeerAddress,
        }
    }

    /// The key of the request, or the message of the extraction error.
    pub fn resolve_key(&self, source: KeySource, address: Option<ParsedAddress>) -> (r: Result<IpAddress, &'static str>)
        ensures
            match key_of(source, address) {
                Ok(ip) => r == Ok::<IpAddress, &'static str>(ip),
                Err(m) => r matches Err(e) && e@ == m,
            },
    {
        match source {
            KeySource::ForwardedRealIp => match address {
                Some(a) => match a.socket_ip {
                    Some(ip) => Ok(ip),
                    None => match a.plain_ip {
                        Some(ip) => Ok(ip),
                        None => Err("Could not extract real IP address from request"),
                    },
                },
                None => Err("Could not extract real IP address from request"),
            },
            KeySource::PeerAddress => match address {
                Some(a) => match a.socket_ip {
                    Some(ip) => Ok(ip),
                    None => Err("Could not extract peer IP address from request"),
                },
                None => Err("Could not extract peer IP address from request"),
            },
        }
    }

    /// The JSON body of the 429 response, with the seconds to wait.
    pub fn exceed_rate_limit_body(&self, wait_time_secs: u64) -> (r: String)
        ensures
            r@ == rate_limit_body(wait_time_secs as nat),
    {
        let mut body =
            "{\"code\":429, \"error\": \"TooManyRequests\", \"message\": \"Too Many Requests\", \"after\": ".to_owned();
        push_decimal(&mut body, wait_time_secs);
        push_char(&mut body, '}');
        proof {
            reveal_strlit("}");
        }
        body
    }
}

/// Which address is the key, stated over the parsed address text: for
/// either source, text that reads as a socket address gives that socket's
/// IP, whatever else it reads as; for a forwarded address, text that reads
/// only as a bare IP gives that IP; a peer address that is not a socket
/// address, and a missing text, give no key.
pub proof fn lemma_key_of_address(source: KeySource, a: ParsedAddress)
    ensures
        forall|ip: IpAddress| a.socket_ip == Some(ip) ==> key_of(source, Some(a)) == Ok::<IpAddress, Seq<char>>(ip),
        forall|ip: IpAddress| (a.socket_ip is None && a.plain_ip == Some(ip)) ==> key_of(
            KeySource::ForwardedRealIp,
            Some(a),
        ) == Ok::<IpAddress, Seq<char>>(ip),
        a.socket_ip is None ==> key_of(KeySource::PeerAddress, Some(a)) is Err,
        key_of(source, None) is Err,
{
}

} // verus!

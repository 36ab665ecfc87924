//! Endpoint configuration: resolves a target address into a channel
//! descriptor — plaintext or TLS with a server-name-indication host derived
//! from the address — together with the fixed timeout and keep-alive
//! parameters every connection uses.

use vstd::prelude::*;
use crate::errors::Error;
use vstd::string::is_ascii;

verus! {

/// Fallback server name when no host can be extracted from a secure
/// address; TLS is still attempted.
pub const DEFAULT_SNI_HOST: &'static str = "rpc.mainnet.monero-chan.org";

/// Bound on one whole request, in seconds.
pub const REQUEST_TIMEOUT_SECS: u64 = 60;

/// Bound on establishing a connection, shorter than the request bound.
pub const CONNECT_TIMEOUT_SECS: u64 = 15;

/// Interval of protocol-level keep-alive probes, in seconds.
pub const KEEP_ALIVE_INTERVAL_SECS: u64 = 15;

/// How long a keep-alive probe may go unanswered, in seconds.
pub const KEEP_ALIVE_TIMEOUT_SECS: u64 = 15;

/// Interval of TCP-level keep-alive probes, in seconds.
pub const TCP_KEEPALIVE_SECS: u64 = 60;

/// What a connection attempt needs to know: where to connect, whether to
/// speak TLS and under which server name, and the fixed operational
/// parameters.
#[derive(Debug, PartialEq, Eq)]
pub struct ChannelDescriptor {
    pub address: String,
    pub use_tls: bool,
    /// Server name for TLS; empty on plaintext channels.
    pub sni_host: String,
    pub request_timeout_secs: u64,
    pub connect_timeout_secs: u64,
    pub keep_alive_interval_secs: u64,
    pub keep_alive_timeout_secs: u64,
    pub tcp_keepalive_secs: u64,
    pub keep_alive_while_idle: bool,
    pub tcp_nodelay: bool,
}

/// The index of the first occurrence of `c`, or the length if absent.
pub open spec fn spec_first_index_of(s: Seq<char>, c: char) -> int
    decreases s.len(),
{
    if s.len() == 0 {
        0
    } else if s[0] == c {
        0
    } else {
        1 + spec_first_index_of(s.drop_first(), c)
    }
}

/// A position left of every occurrence of `c` and at the first one, or at
/// the end when there is none, is the first index of `c`.
proof fn lemma_first_index_unique(s: Seq<char>, c: char, i: int)
    requires
        0 <= i <= s.len(),
        forall|j: int| 0 <= j < i ==> s[j] != c,
        i < s.len() ==> s[i] == c,
    ensures
        i == spec_first_index_of(s, c),
    decreases s.len(),
{
    if s.len() == 0 {
    } else if s[0] == c {
        assert(i == 0);
    } else {
        assert(i >= 1);
        let s2 = s.drop_first();
        assert forall|j: int| 0 <= j < i - 1 implies s2[j] != c by {
            assert(s[j + 1] != c);
        }
        lemma_first_index_unique(s2, c, i - 1);
    }
}

/// Whether `p` is a prefix of `s`.
pub open spec fn spec_has_prefix(s: Seq<char>, p: Seq<char>) -> bool {
    p.len() <= s.len() && s.subrange(0, p.len() as int) == p
}

/// A secure address: one with the TLS scheme.
pub open spec fn spec_is_https(s: Seq<char>) -> bool {
    spec_has_prefix(s, "https://"@)
}

/// A plaintext address.
pub open spec fn spec_is_http(s: Seq<char>) -> bool {
    spec_has_prefix(s, "http://"@)
}

/// The authority segment of what follows the scheme: everything up to the
/// first slash.
pub open spec fn spec_authority_of(rest: Seq<char>) -> Seq<char> {
    rest.take(spec_first_index_of(rest, '/'))
}

/// The server name a secure address yields: the authority up to the first
/// colon, or the fixed fallback host when that is empty.
pub open spec fn spec_sni_of(rest: Seq<char>) -> Seq<char> {
    let seg = spec_authority_of(rest);
    let host = seg.take(spec_first_index_of(seg, ':'));
    if host.len() == 0 {
        DEFAULT_SNI_HOST@
    } else {
        host
    }
}

/// The fixed operational parameters every descriptor carries.
pub open spec fn spec_fixed_params(d: ChannelDescriptor) -> bool {
    &&& d.request_timeout_secs == REQUEST_TIMEOUT_SECS
    &&& d.connect_timeout_secs == CONNECT_TIMEOUT_SECS
    &&& d.keep_alive_interval_secs == KEEP_ALIVE_INTERVAL_SECS
    &&& d.keep_alive_timeout_secs == KEEP_ALIVE_TIMEOUT_SECS
    &&& d.tcp_keepalive_secs == TCP_KEEPALIVE_SECS
    &&& d.keep_alive_while_idle
    &&& d.tcp_nodelay
}

/// Whether `p` is a prefix of `s`, character by character.
pub(crate) fn has_prefix(s: &str, p: &str) -> (r: bool)
    ensures
        r == spec_has_prefix(s@, p@),
{
    let pn = p.unicode_len();
    let sn = s.unicode_len();
    if pn > sn {
        return false;
    }
    let mut i: usize = 0;
    while i < pn
        invariant
            pn == p@.len(),
            sn == s@.len(),
            pn <= sn,
            i <= pn,
            forall|j: int| 0 <= j < i ==> s@[j] == p@[j],
        decreases pn - i,
    {
        if s.get_char(i) != p.get_char(i) {
            assert(s@.subrange(0, p@.len() as int)[i as int] != p@[i as int]);
            return false;
        }
        i = i + 1;
    }
    assert(s@.subrange(0, p@.len() as int) =~= p@);
    true
}

/// The index of the first occurrence of `c` in `s`, or the length if `c`
/// does not occur.
fn first_index_of(s: &str, c: char) -> (r: usize)
    ensures
        r == spec_first_index_of(s@, c),
        r <= s@.len(),
{
    let n = s.unicode_len();
    let mut i: usize = 0;
    while i < n
        invariant
            n == s@.len(),
            i <= n,
            forall|j: int| 0 <= j < i ==> s@[j] != c,
        decreases n - i,
    {
        if s.get_char(i) == c {
            proof {
                lemma_first_index_unique(s@, c, i as int);
            }
            return i;
        }
        i = i + 1;
    }
    proof {
        lemma_first_index_unique(s@, c, n as int);
    }
    n
}

/// Resolves a target address into a channel descriptor.
///
/// A secure address yields a TLS descriptor whose server name is the host
/// extracted from the address, or the fixed fallback host when extraction
/// yields nothing — TLS is still attempted. A plaintext address yields a
/// plaintext descriptor. An address that is structurally unusable — no
/// known scheme, an empty authority, or characters no endpoint address can
/// hold — is rejected.
pub fn configure_endpoint(addr: &str) -> (r: Result<ChannelDescriptor, Error>)
    ensures
        !is_ascii(addr) ==> r == Result::<ChannelDescriptor, Error>::Err(Error::TransportConfig),
        is_ascii(addr) ==> ({
            let v = addr@;
            if spec_is_https(v) {
                let rest = v.subrange(8, v.len() as int);
                if spec_authority_of(rest).len() == 0 {
                    r == Result::<ChannelDescriptor, Error>::Err(Error::TransportConfig)
                } else {
                    r matches Ok(d)
                    && d.address@ == v
                    && d.use_tls
                    && d.sni_host@ == spec_sni_of(rest)
                    && spec_fixed_params(d)
                }
            } else if spec_is_http(v) {
                let rest = v.subrange(7, v.len() as int);
                if spec_authority_of(rest).len() == 0 {
                    r == Result::<ChannelDescriptor, Error>::Err(Error::TransportConfig)
                } else {
                    r matches Ok(d)
                    && d.address@ == v
                    && !d.use_tls
                    && d.sni_host@.len() == 0
                    && spec_fixed_params(d)
                }
            } else {
                r == Result::<ChannelDescriptor, Error>::Err(Error::TransportConfig)
            }
        }),
{
    if !addr.is_ascii() {
        return Err(Error::TransportConfig);
    }
    let n = addr.unicode_len();
    let https = has_prefix(addr, "https://");
    let http = if https { false } else { has_prefix(addr, "http://") };
    if !https && !http {
        return Err(Error::TransportConfig);
    }
    let scheme_len: usize = if https { 8 } else { 7 };
    proof {
        reveal_strlit("https://");
        reveal_strlit("http://");
    }
    let rest = addr.substring_ascii(scheme_len, n);
    let a_end = first_index_of(rest, '/');
    if a_end == 0 {
        assert(spec_authority_of(rest@).len() == 0);
        return Err(Error::TransportConfig);
    }
    assert(spec_authority_of(rest@).len() != 0);
    let sni_host: String = if https {
        let seg = rest.substring_ascii(0, a_end);
        assert(seg@ == spec_authority_of(rest@));
        let h_end = first_index_of(seg, ':');
        if h_end == 0 {
            assert(spec_sni_of(rest@) == DEFAULT_SNI_HOST@);
            String::from_str(DEFAULT_SNI_HOST)
        } else {
            let host = seg.substring_ascii(0, h_end);
            assert(host@ == spec_sni_of(rest@));
            String::from_str(host)
        }
    } else {
        String::new()
    };
    Ok(ChannelDescriptor {
        address: String::from_str(addr),
        use_tls: https,
        sni_host,
        request_timeout_secs: REQUEST_TIMEOUT_SECS,
        connect_timeout_secs: CONNECT_TIMEOUT_SECS,
        keep_alive_interval_secs: KEEP_ALIVE_INTERVAL_SECS,
        keep_alive_timeout_secs: KEEP_ALIVE_TIMEOUT_SECS,
        tcp_keepalive_secs: TCP_KEEPALIVE_SECS,
        keep_alive_while_idle: true,
        tcp_nodelay: true,
    })
}

} // verus!

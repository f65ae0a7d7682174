//! The backend route resolver.
//!
//! A `Route` result carries the payload of a `backend` node. The resolver
//! turns it into the descriptor that the transport connects by: the cleaned
//! host and the port, the `Host` header, and the TLS, pooling, keepalive and
//! timeout settings that apply.

use crate::text::{
    chars_of, decimal, has_prefix, matches_at, opt_text, push_decimal, push_str, slice_of,
    string_from_chars,
};
use crate::types::{BackendNodeData, BackendNodeDataView};
use vstd::prelude::*;

verus! {

/// The port of a backend that names none.
pub const DEFAULT_PORT: u16 = 443;

/// What the transport needs to connect to a backend and send the request.
#[derive(Debug, Clone, PartialEq, Eq)]
pub struct BackendDescriptor {
    /// A name for the connection that no other request uses.
    pub unique_name: String,
    /// The host and port to connect to, as `host:port`.
    pub target: String,
    /// The host that the outgoing request names in its `Host` header: the
    /// override where the backend has one, else the cleaned host.
    pub override_host: String,
    /// Connect timeout in milliseconds.
    pub connect_timeout_ms: Option<u64>,
    /// First-byte timeout in milliseconds.
    pub first_byte_timeout_ms: Option<u64>,
    /// Between-bytes timeout in milliseconds.
    pub between_bytes_timeout_ms: Option<u64>,
    /// Whether to connect with TLS. The TLS settings below are given only
    /// where it is set.
    pub use_tls: bool,
    /// The host name to check the origin's certificate against.
    pub check_certificate: Option<String>,
    /// The name to send for server name indication: the backend's own name
    /// for it where it gives one, else `override_host`. Given with TLS only.
    pub sni_hostname: Option<String>,
    /// The certificate authority to trust.
    pub ca_certificate: Option<String>,
    /// The client certificate; given together with `client_key`.
    pub client_certificate: Option<String>,
    /// The client certificate's key; given together with
    /// `client_certificate`.
    pub client_key: Option<String>,
    /// Whether to prefer IPv6 addresses.
    pub prefer_ipv6: bool,
    /// Whether to pool connections.
    pub enable_pooling: Option<bool>,
    /// HTTP keepalive time in milliseconds.
    pub keepalive_time_ms: Option<u64>,
    /// The most connections to hold.
    pub max_connections: Option<u32>,
    /// The most uses of one connection.
    pub max_connection_uses: Option<u32>,
    /// The longest life of one connection in milliseconds.
    pub max_lifetime_ms: Option<u64>,
    /// Whether to send TCP keepalive probes. The three settings below are
    /// given only where it is set.
    pub tcp_keepalive: bool,
    /// Idle seconds before the first probe; never zero.
    pub tcp_keepalive_time_secs: Option<u32>,
    /// Seconds between probes; never zero.
    pub tcp_keepalive_interval_secs: Option<u32>,
    /// Probes before the connection counts as dead; never zero.
    pub tcp_keepalive_probes: Option<u32>,
}

/// The mathematical view of [`BackendDescriptor`]: texts are sequences of characters.
pub struct BackendDescriptorView {
    pub unique_name: Seq<char>,
    pub target: Seq<char>,
    pub override_host: Seq<char>,
    pub connect_timeout_ms: Option<u64>,
    pub first_byte_timeout_ms: Option<u64>,
    pub between_bytes_timeout_ms: Option<u64>,
    pub use_tls: bool,
    pub check_certificate: Option<Seq<char>>,
    pub sni_hostname: Option<Seq<char>>,
    pub ca_certificate: Option<Seq<char>>,
    pub client_certificate: Option<Seq<char>>,
    pub client_key: Option<Seq<char>>,
    pub prefer_ipv6: bool,
    pub enable_pooling: Option<bool>,
    pub keepalive_time_ms: Option<u64>,
    pub max_connections: Option<u32>,
    pub max_connection_uses: Option<u32>,
    pub max_lifetime_ms: Option<u64>,
    pub tcp_keepalive: bool,
    pub tcp_keepalive_time_secs: Option<u32>,
    pub tcp_keepalive_interval_secs: Option<u32>,
    pub tcp_keepalive_probes: Option<u32>,
}

impl View for BackendDescriptor {
    type V = BackendDescriptorView;

    open spec fn view(&self) -> BackendDescriptorView {
        BackendDescriptorView {
            unique_name: self.unique_name@,
            target: self.target@,
            override_host: self.override_host@,
            connect_timeout_ms: self.connect_timeout_ms,
            first_byte_timeout_ms: self.first_byte_timeout_ms,
            between_bytes_timeout_ms: self.between_bytes_timeout_ms,
            use_tls: self.use_tls,
            check_certificate: opt_text(self.check_certificate),
            sni_hostname: opt_text(self.sni_hostname),
            ca_certificate: opt_text(self.ca_certificate),
            client_certificate: opt_text(self.client_certificate),
            client_key: opt_text(self.client_key),
            prefer_ipv6: self.prefer_ipv6,
            enable_pooling: self.enable_pooling,
            keepalive_time_ms: self.keepalive_time_ms,
            max_connections: self.max_connections,
            max_connection_uses: self.max_connection_uses,
            max_lifetime_ms: self.max_lifetime_ms,
            tcp_keepalive: self.tcp_keepalive,
            tcp_keepalive_time_secs: self.tcp_keepalive_time_secs,
            tcp_keepalive_interval_secs: self.tcp_keepalive_interval_secs,
            tcp_keepalive_probes: self.tcp_keepalive_probes,
        }
    }
}

// ---------------------------------------------------------------------------
// The host
// ---------------------------------------------------------------------------

/// `s` without every leading repetition of `prefix`.
pub open spec fn without_leading(s: Seq<char>, prefix: Seq<char>) -> Seq<char>
    decreases s.len(),
{
    if prefix.len() > 0 && has_prefix(s, prefix) {
        without_leading(s.skip(prefix.len() as int), prefix)
    } else {
        s
    }
}

/// `s` without every trailing `c`.
pub open spec fn without_trailing(s: Seq<char>, c: char) -> Seq<char>
    decreases s.len(),
{
    if s.len() > 0 && s.last() == c {
        without_trailing(s.drop_last(), c)
    } else {
        s
    }
}

/// The host to connect to: the configured host without a leading `https://`
/// or `http://` and without trailing slashes.
pub open spec fn clean_host(host: Seq<char>) -> Seq<char> {
    without_trailing(without_leading(without_leading(host, "https://"@), "http://"@), '/')
}

fn skip_leading(s: &Vec<char>, from: usize, prefix: &Vec<char>) -> (r: usize)
    requires
        from <= s.len(),
    ensures
        from <= r <= s.len(),
        s@.skip(r as int) == without_leading(s@.skip(from as int), prefix@),
{
    let mut at: usize = from;
    while prefix.len() > 0 && matches_at(s, prefix, at)
        invariant
            from <= at <= s.len(),
            without_leading(s@.skip(at as int), prefix@) == without_leading(
                s@.skip(from as int),
                prefix@,
            ),
        decreases s.len() - at,
    {
        proof {
            let cur = s@.skip(at as int);
            assert(
                cur.subrange(0, prefix@.len() as int) =~= s@.subrange(
                    at as int,
                    at + prefix@.len(),
                )
            );
            assert(cur.skip(prefix@.len() as int) =~= s@.skip(at + prefix@.len()));
        }
        at += prefix.len();
    }
    proof {
        let cur = s@.skip(at as int);
        if prefix@.len() > 0 {
            if at + prefix@.len() <= s@.len() {
                assert(
                    cur.subrange(0, prefix@.len() as int) =~= s@.subrange(
                        at as int,
                        at + prefix@.len(),
                    )
                );
            }
            assert(!has_prefix(cur, prefix@));
        }
    }
    at
}

fn skip_trailing(s: &Vec<char>, from: usize, c: char) -> (r: usize)
    requires
        from <= s.len(),
    ensures
        from <= r <= s.len(),
        s@.subrange(from as int, r as int) == without_trailing(s@.skip(from as int), c),
{
    let mut end: usize = s.len();
    proof {
        assert(s@.subrange(from as int, end as int) =~= s@.skip(from as int));
    }
    while end > from && s[end - 1] == c
        invariant
            from <= end <= s.len(),
            without_trailing(s@.subrange(from as int, end as int), c) == without_trailing(
                s@.skip(from as int),
                c,
            ),
        decreases end,
    {
        proof {
            let cur = s@.subrange(from as int, end as int);
            assert(cur.last() == s@[end - 1]);
            assert(cur.drop_last() =~= s@.subrange(from as int, end - 1));
        }
        end -= 1;
    }
    proof {
        let cur = s@.subrange(from as int, end as int);
        if cur.len() > 0 {
            assert(cur.last() == s@[end - 1]);
        }
    }
    end
}

/// Cleans a configured host for use as a connection target.
pub fn cleaned_host(host: &str) -> (r: String)
    ensures
        r@ == clean_host(host@),
{
    let chars = chars_of(host);
    let secure = chars_of("https://");
    let plain = chars_of("http://");
    proof {
        assert(chars@.skip(0) =~= chars@);
    }
    let a = skip_leading(&chars, 0, &secure);
    let b = skip_leading(&chars, a, &plain);
    let end = skip_trailing(&chars, b, '/');
    let part = slice_of(&chars, b, end);
    string_from_chars(&part)
}

// ---------------------------------------------------------------------------
// The descriptor
// ---------------------------------------------------------------------------

/// An optional text that is given and not empty.
pub open spec fn non_empty(text: Option<Seq<char>>) -> Option<Seq<char>> {
    match text {
        Some(t) => if t.len() > 0 {
            Some(t)
        } else {
            None
        },
        None => None,
    }
}

/// A count of seconds for a TCP keepalive setting: the low 32 bits of the
/// configured number, and none where they are zero.
pub open spec fn keepalive_secs(value: Option<u64>) -> Option<u32> {
    match value {
        Some(v) => if v % 0x1_0000_0000 != 0 {
            Some((v % 0x1_0000_0000) as u32)
        } else {
            None
        },
        None => None,
    }
}

/// A count that is given and not zero.
pub open spec fn non_zero(value: Option<u32>) -> Option<u32> {
    match value {
        Some(v) => if v != 0 {
            Some(v)
        } else {
            None
        },
        None => None,
    }
}

/// The name of a connection: `dyn_`, the backend's name, `_` and a number
/// that the host takes from its clock.
pub open spec fn connection_name(name: Seq<char>, stamp: u128) -> Seq<char> {
    "dyn_"@ + name + seq!['_'] + decimal(stamp as nat)
}

/// The connection target: the cleaned host, a colon and the port.
pub open spec fn connection_target(host: Seq<char>, port: Option<u16>) -> Seq<char> {
    clean_host(host) + seq![':'] + decimal(
        (match port {
            Some(p) => p,
            None => DEFAULT_PORT,
        }) as nat,
    )
}

/// The host that a request to the backend names: the override where the
/// backend has one, else the cleaned host.
pub open spec fn host_to_name(data: BackendNodeDataView) -> Seq<char> {
    match data.override_host {
        Some(h) => h,
        None => clean_host(data.host),
    }
}

/// The name for server name indication: the one that the backend gives for
/// it where it gives one that is not empty, else the host that the request
/// names.
pub open spec fn sni_name(data: BackendNodeDataView) -> Seq<char> {
    match non_empty(data.sni_hostname) {
        Some(name) => name,
        None => host_to_name(data),
    }
}

/// The descriptor of a backend.
///
/// The host override, where the backend has one, wins over the cleaned host
/// for the `Host` header and for server name indication; a name that the
/// backend gives for server name indication itself wins over both.
///
/// TLS is on unless the backend switches it off, and the TLS settings apply
/// only with TLS: the certificate is checked against the cleaned host where
/// the backend asks for it, and a name or a certificate that is empty counts
/// as not given. A client certificate is used only together with its key.
/// The TCP keepalive settings apply only where TCP keepalive is on.
pub open spec fn descriptor_of(data: BackendNodeDataView, stamp: u128) -> BackendDescriptorView {
    let host = clean_host(data.host);
    let use_tls = data.use_tls != Some(false);
    let with_client = use_tls && non_empty(data.client_certificate) is Some && non_empty(
        data.client_key,
    )
        is Some;
    let tcp_keepalive = data.tcp_keepalive == Some(true);
    let override_host = host_to_name(data);
    BackendDescriptorView {
        unique_name: connection_name(data.name, stamp),
        target: connection_target(data.host, data.port),
        override_host,
        connect_timeout_ms: data.connect_timeout,
        first_byte_timeout_ms: data.first_byte_timeout,
        between_bytes_timeout_ms: data.between_bytes_timeout,
        use_tls,
        check_certificate: if use_tls && data.verify_certificate == Some(true) {
            Some(host)
        } else {
            None
        },
        sni_hostname: if use_tls {
            Some(sni_name(data))
        } else {
            None
        },
        ca_certificate: if use_tls {
            non_empty(data.ca_certificate)
        } else {
            None
        },
        client_certificate: if with_client {
            data.client_certificate
        } else {
            None
        },
        client_key: if with_client {
            data.client_key
        } else {
            None
        },
        prefer_ipv6: data.prefer_ipv6 == Some(true),
        enable_pooling: data.enable_pooling,
        keepalive_time_ms: data.keepalive_time,
        max_connections: data.max_connections,
        max_connection_uses: data.max_connection_uses,
        max_lifetime_ms: data.max_connection_lifetime,
        tcp_keepalive,
        tcp_keepalive_time_secs: if tcp_keepalive {
            keepalive_secs(data.tcp_keepalive_time)
        } else {
            None
        },
        tcp_keepalive_interval_secs: if tcp_keepalive {
            keepalive_secs(data.tcp_keepalive_interval)
        } else {
            None
        },
        tcp_keepalive_probes: if tcp_keepalive {
            non_zero(data.tcp_keepalive_probes)
        } else {
            None
        },
    }
}

fn given(text: &Option<String>) -> (r: Option<String>)
    ensures
        opt_text(r) == non_empty(opt_text(*text)),
{
    match text {
        Some(t) => if t.as_str().unicode_len() > 0 {
            Some(t.clone())
        } else {
            None
        },
        None => None,
    }
}

fn secs(value: Option<u64>) -> (r: Option<u32>)
    ensures
        r == keepalive_secs(value),
{
    match value {
        Some(v) => {
            let low: u64 = v % 0x1_0000_0000;
            if low != 0 {
                Some(low as u32)
            } else {
                None
            }
        },
        None => None,
    }
}

fn count(value: Option<u32>) -> (r: Option<u32>)
    ensures
        r == non_zero(value),
{
    match value {
        Some(v) => if v != 0 {
            Some(v)
        } else {
            None
        },
        None => None,
    }
}

/// Resolves the payload of a `backend` node into the descriptor that the
/// transport connects by. `stamp` is a number from the host's clock that
/// makes the connection's name unique.
pub fn resolve_backend(data: &BackendNodeData, stamp: u128) -> (r: BackendDescriptor)
    ensures
        r@ == descriptor_of(data@, stamp),
{
    let host = cleaned_host(data.host.as_str());
    let port: u16 = match data.port {
        Some(p) => p,
        None => DEFAULT_PORT,
    };
    let use_tls: bool = match data.use_tls {
        Some(false) => false,
        _ => true,
    };
    let tcp_keepalive: bool = match data.tcp_keepalive {
        Some(true) => true,
        _ => false,
    };
    let mut name: Vec<char> = Vec::new();
    push_str(&mut name, "dyn_");
    push_str(&mut name, data.name.as_str());
    name.push('_');
    push_decimal(&mut name, stamp);
    let mut target: Vec<char> = Vec::new();
    push_str(&mut target, host.as_str());
    target.push(':');
    push_decimal(&mut target, port as u128);
    proof {
        assert(name@ =~= connection_name(data@.name, stamp));
        assert(target@ =~= connection_target(data@.host, data@.port));
    }
    let certificate = if use_tls {
        given(&data.client_certificate)
    } else {
        None
    };
    let key = if use_tls {
        given(&data.client_key)
    } else {
        None
    };
    let with_client = certificate.is_some() && key.is_some();
    let override_host = match &data.override_host {
        Some(h) => h.clone(),
        None => host.clone(),
    };
    let sni_hostname = if use_tls {
        match given(&data.sni_hostname) {
            Some(name) => Some(name),
            None => Some(override_host.clone()),
        }
    } else {
        None
    };
    BackendDescriptor {
        unique_name: string_from_chars(&name),
        target: string_from_chars(&target),
        override_host,
        connect_timeout_ms: data.connect_timeout,
        first_byte_timeout_ms: data.first_byte_timeout,
        between_bytes_timeout_ms: data.between_bytes_timeout,
        use_tls,
        check_certificate: if use_tls && matches!(data.verify_certificate, Some(true)) {
            Some(host.clone())
        } else {
            None
        },
        sni_hostname,
        ca_certificate: if use_tls {
            given(&data.ca_certificate)
        } else {
            None
        },
        client_certificate: if with_client {
            certificate
        } else {
            None
        },
        client_key: if with_client {
            key
        } else {
            None
        },
        prefer_ipv6: matches!(data.prefer_ipv6, Some(true)),
        enable_pooling: data.enable_pooling,
        keepalive_time_ms: data.keepalive_time,
        max_connections: data.max_connections,
        max_connection_uses: data.max_connection_uses,
        max_lifetime_ms: data.max_connection_lifetime,
        tcp_keepalive,
        tcp_keepalive_time_secs: if tcp_keepalive {
            secs(data.tcp_keepalive_time)
        } else {
            None
        },
        tcp_keepalive_interval_secs: if tcp_keepalive {
            secs(data.tcp_keepalive_interval)
        } else {
            None
        },
        tcp_keepalive_probes: if tcp_keepalive {
            count(data.tcp_keepalive_probes)
        } else {
            None
        },
    }
}

} // verus!

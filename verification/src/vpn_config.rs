//! Parsing of third-party VPN configuration files: WireGuard and OpenVPN.
use vstd::prelude::*;
use vstd::string::*;

use crate::text::{
    eq_ignore_case, parse_dec_capped, spec_all_digits, spec_dec_val, spec_eq_ignore_case,
    spec_find, spec_split, spec_trim, spec_words, split_on, split_once_at, split_words, trim_str,
};

verus! {


// ---------------------------------------------------------------------------
// WireGuard
// ---------------------------------------------------------------------------
/// Parsed information from a WireGuard configuration.
#[derive(Debug, Clone, PartialEq)]
pub struct WireGuardParsedConfig {
    pub interface_address: Option<String>,
    pub interface_dns: Option<String>,
    pub peers: Vec<WireGuardPeer>,
}

#[derive(Debug, Clone, PartialEq)]
pub struct WireGuardPeer {
    pub endpoint: Option<String>,
    pub allowed_ips: Option<String>,
    /// Taken from the comment above the peer, or from the endpoint's host.
    pub name: Option<String>,
}

/// The ghost mirror of one peer under construction.
pub struct WgPeerView {
    pub endpoint: Option<Seq<char>>,
    pub allowed_ips: Option<Seq<char>>,
    pub name: Option<Seq<char>>,
}

/// The ghost mirror of the scan state: the interface fields seen so far,
/// the finished peers, the peer being built, and the last comment.
pub struct WgScanState {
    pub interface_address: Option<Seq<char>>,
    pub interface_dns: Option<Seq<char>>,
    pub peers: Seq<WgPeerView>,
    pub cur: Option<WgPeerView>,
    pub comment: Seq<char>,
}

pub open spec fn spec_wg_flush(peers: Seq<WgPeerView>, cur: Option<WgPeerView>) -> Seq<
    WgPeerView,
> {
    match cur {
        Some(p) => peers.push(p),
        None => peers,
    }
}

/// Leading `#` characters removed.
pub open spec fn spec_strip_hashes(s: Seq<char>) -> Seq<char>
    decreases s.len(),
{
    if s.len() > 0 && s[0] == '#' {
        spec_strip_hashes(s.skip(1))
    } else {
        s
    }
}

/// The endpoint's host: what precedes the first colon.
pub open spec fn spec_endpoint_host(v: Seq<char>) -> Seq<char> {
    match spec_find(v, ':') {
        Some(j) => v.take(j),
        None => v,
    }
}

/// One line of a WireGuard file applied to the scan state: comments are
/// remembered as candidate peer names, section headers flush the peer under
/// construction, and `key = value` pairs fill the interface or the current
/// peer; unknown keys are ignored.
pub open spec fn spec_wg_step(st: WgScanState, raw: Seq<char>) -> WgScanState {
    let line = spec_trim(raw);
    if line.len() > 0 && line[0] == '#' {
        WgScanState { comment: spec_trim(spec_strip_hashes(line)), ..st }
    } else if line.len() == 0 {
        st
    } else if spec_eq_ignore_case(line, "[interface]"@) {
        WgScanState { peers: spec_wg_flush(st.peers, st.cur), cur: None, ..st }
    } else if spec_eq_ignore_case(line, "[peer]"@) {
        WgScanState {
            peers: spec_wg_flush(st.peers, st.cur),
            cur: Some(
                WgPeerView {
                    endpoint: None,
                    allowed_ips: None,
                    name: if st.comment.len() > 0 {
                        Some(st.comment)
                    } else {
                        None
                    },
                },
            ),
            comment: Seq::<char>::empty(),
            ..st
        }
    } else {
        match spec_find(line, '=') {
            None => st,
            Some(i) => {
                let key = spec_trim(line.take(i));
                let value = spec_trim(line.skip(i + 1));
                if spec_eq_ignore_case(key, "address"@) {
                    WgScanState { interface_address: Some(value), ..st }
                } else if spec_eq_ignore_case(key, "dns"@) {
                    WgScanState { interface_dns: Some(value), ..st }
                } else if spec_eq_ignore_case(key, "endpoint"@) {
                    match st.cur {
                        Some(p) => WgScanState {
                            cur: Some(
                                WgPeerView {
                                    endpoint: Some(value),
                                    name: if p.name is None {
                                        Some(spec_endpoint_host(value))
                                    } else {
                                        p.name
                                    },
                                    ..p
                                },
                            ),
                            ..st
                        },
                        None => st,
                    }
                } else if spec_eq_ignore_case(key, "allowedips"@) {
                    match st.cur {
                        Some(p) => WgScanState {
                            cur: Some(WgPeerView { allowed_ips: Some(value), ..p }),
                            ..st
                        },
                        None => st,
                    }
                } else {
                    st
                }
            },
        }
    }
}

pub open spec fn spec_wg_init() -> WgScanState {
    WgScanState {
        interface_address: None,
        interface_dns: None,
        peers: Seq::<WgPeerView>::empty(),
        cur: None,
        comment: Seq::<char>::empty(),
    }
}

pub open spec fn spec_wg_scan(lines: Seq<Seq<char>>) -> WgScanState
    decreases lines.len(),
{
    if lines.len() == 0 {
        spec_wg_init()
    } else {
        spec_wg_step(spec_wg_scan(lines.drop_last()), lines.last())
    }
}

/// The peers a WireGuard file denotes: the scan's finished peers, with the
/// one still under construction flushed.
pub open spec fn spec_wg_peers(content: Seq<char>) -> Seq<WgPeerView> {
    let st = spec_wg_scan(spec_split(content, '\n'));
    spec_wg_flush(st.peers, st.cur)
}

pub open spec fn spec_opt_view(o: Option<String>, v: Option<Seq<char>>) -> bool {
    match o {
        None => v is None,
        Some(s) => v matches Some(t) && s@ == t,
    }
}

pub open spec fn spec_peer_view(p: WireGuardPeer, v: WgPeerView) -> bool {
    &&& spec_opt_view(p.endpoint, v.endpoint)
    &&& spec_opt_view(p.allowed_ips, v.allowed_ips)
    &&& spec_opt_view(p.name, v.name)
}

fn strip_hashes(s: &str) -> (r: String)
    ensures
        r@ == spec_strip_hashes(s@),
    decreases s@.len(),
{
    let n = s.unicode_len();
    if n > 0 && s.get_char(0) == '#' {
        let rest = s.substring_char(1, n);
        proof {
            assert(rest@ =~= s@.skip(1));
        }
        strip_hashes(rest)
    } else {
        String::from_str(s)
    }
}

fn clone_opt(o: &Option<String>) -> (r: Option<String>)
    ensures
        r == *o,
{
    match o {
        Some(s) => Some(s.clone()),
        None => None,
    }
}

impl WireGuardParsedConfig {
    /// Parses WireGuard configuration content. Every input parses; the
    /// result's fields are exactly what the line scan denotes.
    pub fn parse(content: &str) -> (r: Option<WireGuardParsedConfig>)
        ensures
            r matches Some(c) ==> {
                let st = spec_wg_scan(spec_split(content@, '\n'));
                let peers = spec_wg_peers(content@);
                &&& spec_opt_view(c.interface_address, st.interface_address)
                &&& spec_opt_view(c.interface_dns, st.interface_dns)
                &&& c.peers@.len() == peers.len()
                &&& forall|i: int|
                    0 <= i < peers.len() ==> spec_peer_view(#[trigger] c.peers@[i], peers[i])
            },
            r is Some,
    {
        let lines = split_on(content, '\n');
        let ghost all = lines.deep_view();
        let mut interface_address: Option<String> = None;
        let mut interface_dns: Option<String> = None;
        let mut peers: Vec<WireGuardPeer> = Vec::new();
        let mut cur: Option<WireGuardPeer> = None;
        let mut comment: String = String::new();
        let mut i: usize = 0;
        while i < lines.len()
            invariant
                all == lines.deep_view(),
                i <= lines.len(),
                ({
                    let st = spec_wg_scan(all.take(i as int));
                    &&& spec_opt_view(interface_address, st.interface_address)
                    &&& spec_opt_view(interface_dns, st.interface_dns)
                    &&& peers@.len() == st.peers.len()
                    &&& forall|k: int|
                        0 <= k < st.peers.len() ==> spec_peer_view(
                            #[trigger] peers@[k],
                            st.peers[k],
                        )
                    &&& (cur matches Some(p) ==> st.cur matches Some(v) && spec_peer_view(p, v))
                    &&& (cur is None ==> st.cur is None)
                    &&& comment@ == st.comment
                }),
            decreases lines.len() - i,
        {
            proof {
                assert(all.take(i + 1).drop_last() =~= all.take(i as int));
                assert(all.take(i + 1).last() == all[i as int]);
            }
            let line = trim_str(lines[i].as_str());
            let ln = line.as_str().unicode_len();
            if ln > 0 && line.as_str().get_char(0) == '#' {
                let stripped = strip_hashes(line.as_str());
                comment = trim_str(stripped.as_str());
            } else if ln == 0 {
                // nothing
            } else if eq_ignore_case(line.as_str(), "[interface]") {
                match cur {
                    Some(p) => {
                        peers.push(p);
                        cur = None;
                    },
                    None => {},
                }
            } else if eq_ignore_case(line.as_str(), "[peer]") {
                match cur {
                    Some(p) => {
                        peers.push(p);
                    },
                    None => {},
                }
                let name: Option<String> = if comment.as_str().unicode_len() > 0 {
                    Some(comment.clone())
                } else {
                    None
                };
                cur = Some(WireGuardPeer { endpoint: None, allowed_ips: None, name });
                comment = String::new();
            } else {
                match split_once_at(line.as_str(), '=') {
                    None => {},
                    Some((k, v)) => {
                        let key = trim_str(k.as_str());
                        let value = trim_str(v.as_str());
                        if eq_ignore_case(key.as_str(), "address") {
                            interface_address = Some(value);
                        } else if eq_ignore_case(key.as_str(), "dns") {
                            interface_dns = Some(value);
                        } else if eq_ignore_case(key.as_str(), "endpoint") {
                            match cur {
                                Some(p) => {
                                    let host: String = match split_once_at(value.as_str(), ':') {
                                        Some((h, _)) => h,
                                        None => value.clone(),
                                    };
                                    let new_name: Option<String> = match p.name {
                                        Some(n) => Some(n),
                                        None => Some(host),
                                    };
                                    cur = Some(
                                        WireGuardPeer {
                                            endpoint: Some(value),
                                            allowed_ips: p.allowed_ips,
                                            name: new_name,
                                        },
                                    );
                                },
                                None => {},
                            }
                        } else if eq_ignore_case(key.as_str(), "allowedips") {
                            match cur {
                                Some(p) => {
                                    cur = Some(
                                        WireGuardPeer {
                                            endpoint: p.endpoint,
                                            allowed_ips: Some(value),
                                            name: p.name,
                                        },
                                    );
                                },
                                None => {},
                            }
                        }
                    },
                }
            }
            i = i + 1;
        }
        proof {
            assert(all.take(lines.len() as int) =~= all);
        }
        match cur {
            Some(p) => {
                peers.push(p);
            },
            None => {},
        }
        Some(WireGuardParsedConfig { interface_address, interface_dns, peers })
    }

    /// A display name for this configuration: the first peer's name, else
    /// its endpoint, else a fixed label.
    pub fn display_name(&self) -> (r: String)
        ensures
            self.peers@[0].name matches Some(n) ==> (self.peers@.len() > 0 ==> r == n),
            self.peers@[0].endpoint matches Some(e) ==> (self.peers@.len() > 0
                && self.peers@[0].name is None ==> r == e),
            self.peers@.len() > 0 && self.peers@[0].name is None && self.peers@[0].endpoint
                is None ==> r@ == "WireGuard Config"@,
            self.peers@.len() == 0 ==> r@ == "WireGuard Config"@,
    {
        if self.peers.len() > 0 {
            let p = &self.peers[0];
            match &p.name {
                Some(n) => {
                    return n.clone();
                },
                None => {},
            }
            match &p.endpoint {
                Some(e) => {
                    return e.clone();
                },
                None => {},
            }
        }
        String::from_str("WireGuard Config")
    }
}

// ---------------------------------------------------------------------------
// OpenVPN
// ---------------------------------------------------------------------------
/// Parsed information from an OpenVPN configuration.
#[derive(Debug, Clone, PartialEq)]
pub struct OpenVpnParsedConfig {
    pub remotes: Vec<OpenVpnRemote>,
    pub protocol: Option<String>,
    pub dev_type: Option<String>,
}

#[derive(Debug, Clone, PartialEq)]
pub struct OpenVpnRemote {
    pub host: String,
    pub port: Option<u16>,
    pub protocol: Option<String>,
}

pub struct OvRemoteView {
    pub host: Seq<char>,
    pub port: Option<u16>,
    pub protocol: Option<Seq<char>>,
}

pub struct OvScanState {
    pub remotes: Seq<OvRemoteView>,
    pub protocol: Option<Seq<char>>,
    pub dev_type: Option<Seq<char>>,
}

/// A declared port: a plain decimal that fits; anything else is dropped.
pub open spec fn spec_ov_port(w: Seq<char>) -> Option<u16> {
    if spec_all_digits(w) && spec_dec_val(w) <= 0xffff {
        Some(spec_dec_val(w) as u16)
    } else {
        None
    }
}

/// One line of an OpenVPN file applied to the scan state: `remote`, `proto`
/// and `dev` directives are read, everything else is ignored.
pub open spec fn spec_ov_step(st: OvScanState, raw: Seq<char>) -> OvScanState {
    let line = spec_trim(raw);
    if line.len() == 0 || line[0] == '#' || line[0] == ';' {
        st
    } else {
        let ws = spec_words(line);
        if ws.len() == 0 {
            st
        } else if spec_eq_ignore_case(ws[0], "remote"@) {
            if ws.len() >= 2 {
                OvScanState {
                    remotes: st.remotes.push(
                        OvRemoteView {
                            host: ws[1],
                            port: if ws.len() >= 3 {
                                spec_ov_port(ws[2])
                            } else {
                                None
                            },
                            protocol: if ws.len() >= 4 {
                                Some(ws[3])
                            } else {
                                None
                            },
                        },
                    ),
                    ..st
                }
            } else {
                st
            }
        } else if spec_eq_ignore_case(ws[0], "proto"@) {
            if ws.len() >= 2 {
                OvScanState { protocol: Some(ws[1]), ..st }
            } else {
                st
            }
        } else if spec_eq_ignore_case(ws[0], "dev"@) {
            if ws.len() >= 2 {
                OvScanState { dev_type: Some(ws[1]), ..st }
            } else {
                st
            }
        } else {
            st
        }
    }
}

pub open spec fn spec_ov_scan(lines: Seq<Seq<char>>) -> OvScanState
    decreases lines.len(),
{
    if lines.len() == 0 {
        OvScanState { remotes: Seq::<OvRemoteView>::empty(), protocol: None, dev_type: None }
    } else {
        spec_ov_step(spec_ov_scan(lines.drop_last()), lines.last())
    }
}

pub open spec fn spec_remote_view(r: OpenVpnRemote, v: OvRemoteView) -> bool {
    &&& r.host@ == v.host
    &&& r.port == v.port
    &&& spec_opt_view(r.protocol, v.protocol)
}

impl OpenVpnParsedConfig {
    /// Parses OpenVPN configuration content. Every input parses; the
    /// result's fields are exactly what the line scan denotes.
    pub fn parse(content: &str) -> (r: Option<OpenVpnParsedConfig>)
        ensures
            r matches Some(c) ==> {
                let st = spec_ov_scan(spec_split(content@, '\n'));
                &&& spec_opt_view(c.protocol, st.protocol)
                &&& spec_opt_view(c.dev_type, st.dev_type)
                &&& c.remotes@.len() == st.remotes.len()
                &&& forall|i: int|
                    0 <= i < st.remotes.len() ==> spec_remote_view(
                        #[trigger] c.remotes@[i],
                        st.remotes[i],
                    )
            },
            r is Some,
    {
        let lines = split_on(content, '\n');
        let ghost all = lines.deep_view();
        let mut remotes: Vec<OpenVpnRemote> = Vec::new();
        let mut protocol: Option<String> = None;
        let mut dev_type: Option<String> = None;
        let mut i: usize = 0;
        while i < lines.len()
            invariant
                all == lines.deep_view(),
                i <= lines.len(),
                ({
                    let st = spec_ov_scan(all.take(i as int));
                    &&& spec_opt_view(protocol, st.protocol)
                    &&& spec_opt_view(dev_type, st.dev_type)
                    &&& remotes@.len() == st.remotes.len()
                    &&& forall|k: int|
                        0 <= k < st.remotes.len() ==> spec_remote_view(
                            #[trigger] remotes@[k],
                            st.remotes[k],
                        )
                }),
            decreases lines.len() - i,
        {
            proof {
                assert(all.take(i + 1).drop_last() =~= all.take(i as int));
                assert(all.take(i + 1).last() == all[i as int]);
            }
            let line = trim_str(lines[i].as_str());
            let ln = line.as_str().unicode_len();
            if ln == 0 || line.as_str().get_char(0) == '#' || line.as_str().get_char(0) == ';' {
                // comment or blank
            } else {
                let ws = split_words(line.as_str());
                if ws.len() == 0 {
                    // no words
                } else if eq_ignore_case(ws[0].as_str(), "remote") {
                    if ws.len() >= 2 {
                        let port: Option<u16> = if ws.len() >= 3 {
                            match parse_dec_capped(ws[2].as_str(), 0xffff) {
                                Some(v) => Some(v as u16),
                                None => None,
                            }
                        } else {
                            None
                        };
                        let proto: Option<String> = if ws.len() >= 4 {
                            Some(ws[3].clone())
                        } else {
                            None
                        };
                        remotes.push(OpenVpnRemote { host: ws[1].clone(), port, protocol: proto });
                    }
                } else if eq_ignore_case(ws[0].as_str(), "proto") {
                    if ws.len() >= 2 {
                        protocol = Some(ws[1].clone());
                    }
                } else if eq_ignore_case(ws[0].as_str(), "dev") {
                    if ws.len() >= 2 {
                        dev_type = Some(ws[1].clone());
                    }
                }
            }
            i = i + 1;
        }
        proof {
            assert(all.take(lines.len() as int) =~= all);
        }
        Some(OpenVpnParsedConfig { remotes, protocol, dev_type })
    }

    /// A display name for this configuration: the first remote as
    /// `host:port` (the port when declared), else a fixed label.
    pub fn display_name(&self) -> (r: String)
        ensures
            self.remotes@.len() == 0 ==> r@ == "OpenVPN Config"@,
            self.remotes@.len() > 0 && self.remotes@[0].port is None ==> r
                == self.remotes@[0].host,
            self.remotes@[0].port matches Some(p) ==> (self.remotes@.len() > 0 ==> r@
                == self.remotes@[0].host@ + ":"@ + crate::text::spec_dec(p as nat)),
    {
        if self.remotes.len() > 0 {
            let remote = &self.remotes[0];
            match remote.port {
                Some(p) => {
                    let n = crate::text::u64_to_string(p as u64);
                    let mut s = remote.host.clone();
                    s.append(":");
                    s.append(n.as_str());
                    s
                },
                None => remote.host.clone(),
            }
        } else {
            String::from_str("OpenVPN Config")
        }
    }
}

} // verus!

//! Domain model: gateway modes, proxy hops, VM and network descriptors,
//! and role-name validation.
use vstd::prelude::*;
use vstd::string::*;

use crate::text::{
    eq_ignore_case, is_space, spec_eq_ignore_case, spec_is_space, spec_trim, trim_str,
};

verus! {


// ---------------------------------------------------------------------------
// Gateway mode and proxy chain types
// ---------------------------------------------------------------------------
/// Gateway mode for a proxy VM.
#[derive(Debug, Clone, Copy, PartialEq, Eq, Structural)]
pub enum GatewayMode {
    ProxyChain,
    WireGuard,
    OpenVpn,
}

pub open spec fn spec_gateway_mode_str(m: GatewayMode) -> Seq<char> {
    match m {
        GatewayMode::ProxyChain => "PROXY_CHAIN"@,
        GatewayMode::WireGuard => "WIREGUARD"@,
        GatewayMode::OpenVpn => "OPENVPN"@,
    }
}

impl GatewayMode {
    pub fn as_str(&self) -> (r: &'static str)
        ensures
            r@ == spec_gateway_mode_str(*self),
    {
        match self {
            GatewayMode::ProxyChain => "PROXY_CHAIN",
            GatewayMode::WireGuard => "WIREGUARD",
            GatewayMode::OpenVpn => "OPENVPN",
        }
    }

    pub fn display_name(&self) -> (r: &'static str)
        ensures
            *self is ProxyChain ==> r@ == "Proxy Chain (SOCKS5/HTTP)"@,
            *self is WireGuard ==> r@ == "WireGuard VPN"@,
            *self is OpenVpn ==> r@ == "OpenVPN"@,
    {
        match self {
            GatewayMode::ProxyChain => "Proxy Chain (SOCKS5/HTTP)",
            GatewayMode::WireGuard => "WireGuard VPN",
            GatewayMode::OpenVpn => "OpenVPN",
        }
    }
}

/// Proxy type for a hop in the chain.
#[derive(Debug, Clone, Copy, PartialEq, Eq, Structural)]
pub enum ProxyType {
    Socks5,
    Http,
}

pub open spec fn spec_proxy_type_str(t: ProxyType) -> Seq<char> {
    match t {
        ProxyType::Socks5 => "SOCKS5"@,
        ProxyType::Http => "HTTP"@,
    }
}

impl ProxyType {
    pub fn as_str(&self) -> (r: &'static str)
        ensures
            r@ == spec_proxy_type_str(*self),
    {
        match self {
            ProxyType::Socks5 => "SOCKS5",
            ProxyType::Http => "HTTP",
        }
    }

    pub fn proxychains_name(&self) -> (r: &'static str)
        ensures
            *self is Socks5 ==> r@ == "socks5"@,
            *self is Http ==> r@ == "http"@,
    {
        match self {
            ProxyType::Socks5 => "socks5",
            ProxyType::Http => "http",
        }
    }
}

/// Chain strategy for proxychains.
#[derive(Debug, Clone, Copy, PartialEq, Eq, Structural)]
pub enum ChainStrategy {
    StrictChain,
    DynamicChain,
    RandomChain,
}

pub open spec fn spec_chain_strategy_str(s: ChainStrategy) -> Seq<char> {
    match s {
        ChainStrategy::StrictChain => "strict_chain"@,
        ChainStrategy::DynamicChain => "dynamic_chain"@,
        ChainStrategy::RandomChain => "random_chain"@,
    }
}

impl ChainStrategy {
    pub fn as_str(&self) -> (r: &'static str)
        ensures
            r@ == spec_chain_strategy_str(*self),
    {
        match self {
            ChainStrategy::StrictChain => "strict_chain",
            ChainStrategy::DynamicChain => "dynamic_chain",
            ChainStrategy::RandomChain => "random_chain",
        }
    }
}

/// A single proxy hop in the chain.
#[derive(Debug, Clone, PartialEq)]
pub struct ProxyHop {
    pub index: u8,
    pub proxy_type: ProxyType,
    pub host: String,
    pub port: u16,
    pub username: Option<String>,
    pub password: Option<String>,
    pub label: Option<String>,
}

/// A hop is acceptable when its host is non-empty and its port is non-zero.
pub open spec fn spec_hop_ok(h: ProxyHop) -> bool {
    h.host@.len() > 0 && h.port != 0
}

impl ProxyHop {
    pub fn new(index: u8, proxy_type: ProxyType, host: String, port: u16) -> (r: Self)
        ensures
            r.index == index,
            r.proxy_type == proxy_type,
            r.host == host,
            r.port == port,
            r.username is None,
            r.password is None,
            r.label is None,
    {
        Self { index, proxy_type, host, port, username: None, password: None, label: None }
    }

    pub fn with_auth(self, username: String, password: String) -> (r: Self)
        ensures
            r == (Self { username: Some(username), password: Some(password), ..self }),
    {
        Self { username: Some(username), password: Some(password), ..self }
    }

    pub fn with_label(self, label: String) -> (r: Self)
        ensures
            r == (Self { label: Some(label), ..self }),
    {
        Self { label: Some(label), ..self }
    }

    /// Rejects an empty host, then a zero port.
    pub fn validate(&self) -> (r: Result<(), String>)
        ensures
            r is Ok <==> spec_hop_ok(*self),
            self.host@.len() == 0 ==> (r matches Err(m) && m@ == "Host cannot be empty"@),
            self.host@.len() > 0 && self.port == 0 ==> (r matches Err(m) && m@
                == "Port must be greater than 0"@),
    {
        if self.host.as_str().unicode_len() == 0 {
            return Err(String::from_str("Host cannot be empty"));
        }
        if self.port == 0 {
            return Err(String::from_str("Port must be greater than 0"));
        }
        Ok(())
    }
}

/// WireGuard configuration.
#[derive(Debug, Clone, PartialEq)]
pub struct WireGuardConfig {
    pub config_path: String,
    pub interface_name: String,
    pub route_all_traffic: bool,
}

/// OpenVPN configuration.
#[derive(Debug, Clone, PartialEq)]
pub struct OpenVpnConfig {
    pub config_path: String,
    pub auth_file: Option<String>,
    pub route_all_traffic: bool,
}

/// Complete proxy configuration for a role.
#[derive(Debug, Clone, PartialEq)]
pub struct ProxyConfig {
    pub role: String,
    pub gateway_mode: GatewayMode,
    pub chain_strategy: ChainStrategy,
    pub hops: Vec<ProxyHop>,
    pub wireguard: Option<WireGuardConfig>,
    pub openvpn: Option<OpenVpnConfig>,
}

/// What `ProxyConfig::validate` accepts: a named role, and for the chosen
/// mode either one to eight acceptable hops, or a mode configuration with a
/// non-empty path.
pub open spec fn spec_proxy_config_ok(c: ProxyConfig) -> bool {
    &&& c.role@.len() > 0
    &&& match c.gateway_mode {
        GatewayMode::ProxyChain => 1 <= c.hops@.len() <= 8 && forall|i: int|
            0 <= i < c.hops@.len() ==> spec_hop_ok(#[trigger] c.hops@[i]),
        GatewayMode::WireGuard => c.wireguard matches Some(w) && w.config_path@.len() > 0,
        GatewayMode::OpenVpn => c.openvpn matches Some(o) && o.config_path@.len() > 0,
    }
}

impl ProxyConfig {
    pub fn new(role: String, gateway_mode: GatewayMode) -> (r: Self)
        ensures
            r.role == role,
            r.gateway_mode == gateway_mode,
            r.chain_strategy == ChainStrategy::StrictChain,
            r.hops@.len() == 0,
            r.wireguard is None,
            r.openvpn is None,
    {
        Self {
            role,
            gateway_mode,
            chain_strategy: ChainStrategy::StrictChain,
            hops: Vec::new(),
            wireguard: None,
            openvpn: None,
        }
    }

    pub fn add_hop(&mut self, hop: ProxyHop)
        ensures
            final(self).hops@ == old(self).hops@.push(hop),
            final(self).role == old(self).role,
            final(self).gateway_mode == old(self).gateway_mode,
            final(self).chain_strategy == old(self).chain_strategy,
            final(self).wireguard == old(self).wireguard,
            final(self).openvpn == old(self).openvpn,
    {
        self.hops.push(hop);
    }

    /// Accepts exactly the configurations described by `spec_proxy_config_ok`.
    pub fn validate(&self) -> (r: Result<(), String>)
        ensures
            r is Ok <==> spec_proxy_config_ok(*self),
    {
        if self.role.as_str().unicode_len() == 0 {
            return Err(String::from_str("Role name cannot be empty"));
        }
        match self.gateway_mode {
            GatewayMode::ProxyChain => {
                if self.hops.len() == 0 {
                    return Err(String::from_str("Proxy chain requires at least one hop"));
                }
                if self.hops.len() > 8 {
                    return Err(String::from_str("Maximum 8 proxy hops allowed"));
                }
                let mut i: usize = 0;
                while i < self.hops.len()
                    invariant
                        i <= self.hops@.len(),
                        self.gateway_mode is ProxyChain,
                        1 <= self.hops@.len() <= 8,
                        forall|j: int| 0 <= j < i ==> spec_hop_ok(#[trigger] self.hops@[j]),
                    decreases self.hops@.len() - i,
                {
                    match self.hops[i].validate() {
                        Ok(()) => {},
                        Err(m) => {
                            proof {
                                assert(!spec_proxy_config_ok(*self)) by {
                                    if spec_proxy_config_ok(*self) {
                                        assert(spec_hop_ok(self.hops@[i as int]));
                                    }
                                }
                            }
                            return Err(m);
                        },
                    }
                    i = i + 1;
                }
                Ok(())
            },
            GatewayMode::WireGuard => {
                match &self.wireguard {
                    Some(wg) => {
                        if wg.config_path.as_str().unicode_len() == 0 {
                            Err(String::from_str("WireGuard config path cannot be empty"))
                        } else {
                            Ok(())
                        }
                    },
                    None => Err(String::from_str("WireGuard mode requires WireGuard config")),
                }
            },
            GatewayMode::OpenVpn => {
                match &self.openvpn {
                    Some(ovpn) => {
                        if ovpn.config_path.as_str().unicode_len() == 0 {
                            Err(String::from_str("OpenVPN config path cannot be empty"))
                        } else {
                            Ok(())
                        }
                    },
                    None => Err(String::from_str("OpenVPN mode requires OpenVPN config")),
                }
            },
        }
    }
}

// ---------------------------------------------------------------------------
// VM and network descriptors
// ---------------------------------------------------------------------------
/// Kind of VM.
#[derive(Debug, Clone, Copy, PartialEq, Eq, Structural)]
pub enum VmKind {
    ProxyGateway,
    App,
    DisposableApp,
}

impl VmKind {
    pub fn display_name(&self) -> (r: &'static str)
        ensures
            *self is ProxyGateway ==> r@ == "Proxy/Gateway VM"@,
            *self is App ==> r@ == "App VM"@,
            *self is DisposableApp ==> r@ == "Disposable App VM"@,
    {
        match self {
            VmKind::ProxyGateway => "Proxy/Gateway VM",
            VmKind::App => "App VM",
            VmKind::DisposableApp => "Disposable App VM",
        }
    }
}

/// Role kind for templates.
#[derive(Debug, Clone, Copy, PartialEq, Eq, Structural)]
pub enum RoleKind {
    ProxyGateway,
    App,
    DisposableApp,
    Generic,
}

impl RoleKind {
    pub fn display_name(&self) -> (r: &'static str)
        ensures
            *self is ProxyGateway ==> r@ == "Proxy/Gateway"@,
            *self is App ==> r@ == "App"@,
            *self is DisposableApp ==> r@ == "Disposable App"@,
            *self is Generic ==> r@ == "Generic"@,
    {
        match self {
            RoleKind::ProxyGateway => "Proxy/Gateway",
            RoleKind::App => "App",
            RoleKind::DisposableApp => "Disposable App",
            RoleKind::Generic => "Generic",
        }
    }
}

/// VM state as reported by the virtualization toolchain.
#[derive(Debug, Clone, Copy, PartialEq, Eq, Structural)]
pub enum VmState {
    Running,
    Paused,
    ShutOff,
    Unknown,
}

/// The state that a status line denotes: trimmed, compared without regard
/// to ASCII case; anything unrecognized is `Unknown`.
pub open spec fn spec_vm_state_of(s: Seq<char>) -> VmState {
    let t = spec_trim(s);
    if spec_eq_ignore_case(t, "running"@) {
        VmState::Running
    } else if spec_eq_ignore_case(t, "paused"@) {
        VmState::Paused
    } else if spec_eq_ignore_case(t, "shut off"@) || spec_eq_ignore_case(t, "shutoff"@) {
        VmState::ShutOff
    } else {
        VmState::Unknown
    }
}

impl VmState {
    pub fn from_virsh_state(state: &str) -> (r: VmState)
        ensures
            r == spec_vm_state_of(state@),
    {
        let t = trim_str(state);
        if eq_ignore_case(t.as_str(), "running") {
            VmState::Running
        } else if eq_ignore_case(t.as_str(), "paused") {
            VmState::Paused
        } else if eq_ignore_case(t.as_str(), "shut off") || eq_ignore_case(t.as_str(), "shutoff") {
            VmState::ShutOff
        } else {
            VmState::Unknown
        }
    }

    pub fn display_name(&self) -> (r: &'static str)
        ensures
            *self is Running ==> r@ == "Running"@,
            *self is Paused ==> r@ == "Paused"@,
            *self is ShutOff ==> r@ == "Shut Off"@,
            *self is Unknown ==> r@ == "Unknown"@,
    {
        match self {
            VmState::Running => "Running",
            VmState::Paused => "Paused",
            VmState::ShutOff => "Shut Off",
            VmState::Unknown => "Unknown",
        }
    }

    pub fn is_running(&self) -> (r: bool)
        ensures
            r == (*self is Running),
    {
        matches!(self, VmState::Running)
    }
}

/// Information about a VM.
#[derive(Debug, Clone, PartialEq)]
pub struct VmInfo {
    pub name: String,
    pub state: VmState,
    pub kind: VmKind,
    pub role: Option<String>,
}

/// Network state.
#[derive(Debug, Clone, Copy, PartialEq, Eq, Structural)]
pub enum NetworkState {
    Active,
    Inactive,
    Unknown,
}

impl NetworkState {
    pub fn is_active(&self) -> (r: bool)
        ensures
            r == (*self is Active),
    {
        matches!(self, NetworkState::Active)
    }
}

/// Information about a virtual network.
#[derive(Debug, Clone, PartialEq)]
pub struct NetworkInfo {
    pub name: String,
    pub state: NetworkState,
    pub autostart: bool,
}

// ---------------------------------------------------------------------------
// Role names
// ---------------------------------------------------------------------------
/// The characters a role name may contain.
pub open spec fn spec_role_char_ok(c: char) -> bool {
    ('a' <= c && c <= 'z') || ('0' <= c && c <= '9') || c == '_' || c == '-'
}

/// An acceptable role name: one to thirty-two characters, all from the
/// allowed set.
pub open spec fn spec_role_name_ok(s: Seq<char>) -> bool {
    1 <= s.len() <= 32 && forall|i: int| 0 <= i < s.len() ==> spec_role_char_ok(#[trigger] s[i])
}

/// Validates a role name: rejects the empty name, then any disallowed
/// character, then names longer than thirty-two characters.
pub fn validate_role_name(name: &str) -> (r: Result<(), String>)
    ensures
        r is Ok <==> spec_role_name_ok(name@),
        name@.len() == 0 ==> (r matches Err(m) && m@ == "Role name cannot be empty"@),
        (exists|i: int| 0 <= i < name@.len() && !spec_role_char_ok(name@[i])) ==> (r matches Err(m)
            && m@
            == "Role name must contain only lowercase letters, numbers, underscores, and hyphens"@),
        name@.len() > 32 && (forall|i: int|
            0 <= i < name@.len() ==> spec_role_char_ok(#[trigger] name@[i])) ==> (r matches Err(m)
            && m@ == "Role name must be 32 characters or less"@),
{
    let n = name.unicode_len();
    if n == 0 {
        return Err(String::from_str("Role name cannot be empty"));
    }
    let mut i: usize = 0;
    while i < n
        invariant
            n == name@.len(),
            i <= n,
            forall|j: int| 0 <= j < i ==> spec_role_char_ok(#[trigger] name@[j]),
        decreases n - i,
    {
        let c = name.get_char(i);
        if !(('a' <= c && c <= 'z') || ('0' <= c && c <= '9') || c == '_' || c == '-') {
            return Err(
                String::from_str(
                    "Role name must contain only lowercase letters, numbers, underscores, and hyphens",
                ),
            );
        }
        i = i + 1;
    }
    if n > 32 {
        return Err(String::from_str("Role name must be 32 characters or less"));
    }
    Ok(())
}

/// What `str::to_lowercase` returns: a function of the characters alone.
pub uninterp spec fn lowercase_of(s: Seq<char>) -> Seq<char>;

/// Relies on `str::to_lowercase` for Unicode lower-casing; the result
/// depends on the input characters alone.
#[verifier::external_body]
fn to_lowercase_string(s: &str) -> (r: String)
    ensures
        r@ == lowercase_of(s@),
{
    s.to_lowercase()
}

/// `s` with every whitespace character removed.
pub open spec fn spec_remove_spaces(s: Seq<char>) -> Seq<char>
    decreases s.len(),
{
    if s.len() == 0 {
        Seq::<char>::empty()
    } else if spec_is_space(s.last()) {
        spec_remove_spaces(s.drop_last())
    } else {
        spec_remove_spaces(s.drop_last()).push(s.last())
    }
}

/// Normalizes a role name: lower-cased, with all whitespace removed.
pub fn normalize_role_name(name: &str) -> (r: String)
    ensures
        r@ == spec_remove_spaces(lowercase_of(name@)),
{
    let lowered = to_lowercase_string(name);
    let l = lowered.as_str();
    let n = l.unicode_len();
    let mut out: String = String::new();
    let mut i: usize = 0;
    while i < n
        invariant
            n == l@.len(),
            l@ == lowercase_of(name@),
            i <= n,
            out@ == spec_remove_spaces(l@.take(i as int)),
        decreases n - i,
    {
        proof {
            assert(l@.take(i + 1).drop_last() =~= l@.take(i as int));
            assert(l@.take(i + 1).last() == l@[i as int]);
        }
        let c = l.get_char(i);
        if !is_space(c) {
            let piece = l.substring_char(i, i + 1);
            proof {
                assert(piece@ =~= seq![l@[i as int]]);
            }
            out.append(piece);
            proof {
                assert(out@ =~= spec_remove_spaces(l@.take(i + 1)));
            }
        }
        i = i + 1;
    }
    proof {
        assert(l@.take(n as int) =~= l@);
    }
    out
}

} // verus!

//! Generation and parsing of the per-role gateway configuration artifacts:
//! the `proxy.conf` key-value file and the `apply-proxy.sh` script.
use vstd::prelude::*;
use vstd::string::*;

use crate::model::{
    spec_chain_strategy_str, spec_gateway_mode_str, spec_proxy_type_str, GatewayMode, OpenVpnConfig,
    ProxyConfig, ProxyHop, ProxyType, WireGuardConfig,
};
use crate::text::{concat2, concat3, join_newline, spec_contains_sub, spec_dec, spec_join, u64_to_string};

verus! {


/// Builder for generating `proxy.conf` and `apply-proxy.sh` content.
#[derive(Debug)]
pub struct ProxyConfigBuilder {
}

// ---------------------------------------------------------------------------
// The generated proxy.conf, line by line
// ---------------------------------------------------------------------------
pub open spec fn spec_opt_str(o: Option<String>) -> Seq<char> {
    match o {
        None => Seq::<char>::empty(),
        Some(s) => s@,
    }
}

pub open spec fn spec_bool_str(b: bool) -> Seq<char> {
    if b {
        "true"@
    } else {
        "false"@
    }
}

/// The four header lines and the blank line after them.
pub open spec fn spec_conf_header(c: ProxyConfig) -> Seq<Seq<char>> {
    seq![
        "# Proxy config for role: "@ + c.role@,
        "GATEWAY_MODE="@ + spec_gateway_mode_str(c.gateway_mode),
        "CHAIN_STRATEGY="@ + spec_chain_strategy_str(c.chain_strategy),
        "PROXY_COUNT="@ + spec_dec(c.hops@.len()),
        Seq::<char>::empty(),
    ]
}

/// The six lines written for one hop, keyed by the hop's own index.
pub open spec fn spec_hop_lines(h: ProxyHop) -> Seq<Seq<char>> {
    seq![
        "PROXY_"@ + spec_dec(h.index as nat) + "_TYPE="@ + spec_proxy_type_str(h.proxy_type),
        "PROXY_"@ + spec_dec(h.index as nat) + "_HOST="@ + h.host@,
        "PROXY_"@ + spec_dec(h.index as nat) + "_PORT="@ + spec_dec(h.port as nat),
        "PROXY_"@ + spec_dec(h.index as nat) + "_USER="@ + spec_opt_str(h.username),
        "PROXY_"@ + spec_dec(h.index as nat) + "_PASS="@ + spec_opt_str(h.password),
        "PROXY_"@ + spec_dec(h.index as nat) + "_LABEL="@ + spec_opt_str(h.label),
    ]
}

pub open spec fn spec_hops_lines(hops: Seq<ProxyHop>) -> Seq<Seq<char>>
    decreases hops.len(),
{
    if hops.len() == 0 {
        Seq::<Seq<char>>::empty()
    } else {
        spec_hops_lines(hops.drop_last()) + spec_hop_lines(hops.last())
    }
}

/// The compatibility block for the first hop: the active protocol's fields
/// filled, the other protocol's fields left blank.
pub open spec fn spec_first_compat(first: ProxyHop) -> Seq<Seq<char>> {
    seq![
        Seq::<char>::empty(),
        "# First proxy (for compatibility)"@,
        "ACTIVE_PROTOCOL="@ + spec_proxy_type_str(first.proxy_type),
    ] + match first.proxy_type {
        ProxyType::Socks5 => seq![
            "SOCKS5_HOST="@ + first.host@,
            "SOCKS5_PORT="@ + spec_dec(first.port as nat),
            "SOCKS5_USER="@ + spec_opt_str(first.username),
            "SOCKS5_PASS="@ + spec_opt_str(first.password),
            "HTTP_HOST="@,
            "HTTP_PORT="@,
            "HTTP_USER="@,
            "HTTP_PASS="@,
        ],
        ProxyType::Http => seq![
            "SOCKS5_HOST="@,
            "SOCKS5_PORT="@,
            "SOCKS5_USER="@,
            "SOCKS5_PASS="@,
            "HTTP_HOST="@ + first.host@,
            "HTTP_PORT="@ + spec_dec(first.port as nat),
            "HTTP_USER="@ + spec_opt_str(first.username),
            "HTTP_PASS="@ + spec_opt_str(first.password),
        ],
    }
}

/// The compatibility block when there is no chain: everything blank.
pub open spec fn spec_empty_compat() -> Seq<Seq<char>> {
    seq![
        "# First proxy (for compatibility)"@,
        "ACTIVE_PROTOCOL="@,
        "SOCKS5_HOST="@,
        "SOCKS5_PORT="@,
        "SOCKS5_USER="@,
        "SOCKS5_PASS="@,
        "HTTP_HOST="@,
        "HTTP_PORT="@,
        "HTTP_USER="@,
        "HTTP_PASS="@,
    ]
}

pub open spec fn spec_wg_lines(wg: Option<WireGuardConfig>) -> Seq<Seq<char>> {
    match wg {
        Some(w) => seq![
            "WG_CONFIG_PATH="@ + w.config_path@,
            "WG_INTERFACE_NAME="@ + w.interface_name@,
            "WG_ROUTE_ALL_TRAFFIC="@ + spec_bool_str(w.route_all_traffic),
        ],
        None => seq!["WG_CONFIG_PATH="@, "WG_INTERFACE_NAME="@, "WG_ROUTE_ALL_TRAFFIC="@],
    }
}

pub open spec fn spec_ovpn_lines(o: Option<OpenVpnConfig>) -> Seq<Seq<char>> {
    match o {
        Some(v) => seq![
            "OPENVPN_CONFIG_PATH="@ + v.config_path@,
            "OPENVPN_AUTH_FILE="@ + spec_opt_str(v.auth_file),
            "OPENVPN_ROUTE_ALL_TRAFFIC="@ + spec_bool_str(v.route_all_traffic),
        ],
        None => seq![
            "OPENVPN_CONFIG_PATH="@,
            "OPENVPN_AUTH_FILE="@,
            "OPENVPN_ROUTE_ALL_TRAFFIC="@,
        ],
    }
}

/// Every line of the generated file, in order.
pub open spec fn spec_conf_lines(c: ProxyConfig) -> Seq<Seq<char>> {
    spec_conf_header(c) + (if c.gateway_mode is ProxyChain && c.hops@.len() > 0 {
        seq!["# Proxy chain configuration"@] + spec_hops_lines(c.hops@) + spec_first_compat(
            c.hops@[0],
        )
    } else {
        spec_empty_compat()
    }) + seq![Seq::<char>::empty(), "# VPN / other modes"@] + spec_wg_lines(c.wireguard)
        + spec_ovpn_lines(c.openvpn)
}

/// The generated file: the lines joined with newlines.
pub open spec fn spec_proxy_conf(c: ProxyConfig) -> Seq<char> {
    spec_join(spec_conf_lines(c), '\n')
}

fn opt_str(o: &Option<String>) -> (r: &str)
    ensures
        r@ == spec_opt_str(*o),
{
    proof {
        reveal_strlit("");
        assert(""@ =~= Seq::<char>::empty());
    }
    match o {
        Some(s) => s.as_str(),
        None => "",
    }
}

fn bool_str(b: bool) -> (r: &'static str)
    ensures
        r@ == spec_bool_str(b),
{
    if b {
        "true"
    } else {
        "false"
    }
}

fn push_empty_line(lines: &mut Vec<String>)
    ensures
        final(lines)@.len() == old(lines)@.len() + 1,
        final(lines).deep_view() == old(lines).deep_view().push(Seq::<char>::empty()),
{
    lines.push(String::new());
    proof {
        assert(lines.deep_view() =~= old(lines).deep_view().push(Seq::<char>::empty()));
    }
}

fn push_kv(lines: &mut Vec<String>, key: &str, value: &str)
    ensures
        final(lines).deep_view() == old(lines).deep_view().push(key@ + value@),
{
    lines.push(concat2(key, value));
    proof {
        assert(lines.deep_view() =~= old(lines).deep_view().push(key@ + value@));
    }
}

fn push_lit(lines: &mut Vec<String>, line: &str)
    ensures
        final(lines).deep_view() == old(lines).deep_view().push(line@),
{
    lines.push(String::from_str(line));
    proof {
        assert(lines.deep_view() =~= old(lines).deep_view().push(line@));
    }
}

/// The six per-hop lines.
fn push_hop_lines(lines: &mut Vec<String>, h: &ProxyHop)
    ensures
        final(lines).deep_view() == old(lines).deep_view() + spec_hop_lines(*h),
{
    let idx = u64_to_string(h.index as u64);
    let prefix = concat2("PROXY_", idx.as_str());
    let port = u64_to_string(h.port as u64);
    push_kv(lines, concat2(prefix.as_str(), "_TYPE=").as_str(), h.proxy_type.as_str());
    push_kv(lines, concat2(prefix.as_str(), "_HOST=").as_str(), h.host.as_str());
    push_kv(lines, concat2(prefix.as_str(), "_PORT=").as_str(), port.as_str());
    push_kv(lines, concat2(prefix.as_str(), "_USER=").as_str(), opt_str(&h.username));
    push_kv(lines, concat2(prefix.as_str(), "_PASS=").as_str(), opt_str(&h.password));
    push_kv(lines, concat2(prefix.as_str(), "_LABEL=").as_str(), opt_str(&h.label));
    proof {
        assert(lines.deep_view() =~= old(lines).deep_view() + spec_hop_lines(*h));
    }
}


/// The compatibility block for the first hop.
fn push_first_compat(lines: &mut Vec<String>, first: &ProxyHop)
    ensures
        final(lines).deep_view() == old(lines).deep_view() + spec_first_compat(*first),
{
    push_empty_line(lines);
    push_lit(lines, "# First proxy (for compatibility)");
    push_kv(lines, "ACTIVE_PROTOCOL=", first.proxy_type.as_str());
    let first_port = u64_to_string(first.port as u64);
    match first.proxy_type {
        ProxyType::Socks5 => {
            push_kv(lines, "SOCKS5_HOST=", first.host.as_str());
            push_kv(lines, "SOCKS5_PORT=", first_port.as_str());
            push_kv(lines, "SOCKS5_USER=", opt_str(&first.username));
            push_kv(lines, "SOCKS5_PASS=", opt_str(&first.password));
            push_lit(lines, "HTTP_HOST=");
            push_lit(lines, "HTTP_PORT=");
            push_lit(lines, "HTTP_USER=");
            push_lit(lines, "HTTP_PASS=");
        },
        ProxyType::Http => {
            push_lit(lines, "SOCKS5_HOST=");
            push_lit(lines, "SOCKS5_PORT=");
            push_lit(lines, "SOCKS5_USER=");
            push_lit(lines, "SOCKS5_PASS=");
            push_kv(lines, "HTTP_HOST=", first.host.as_str());
            push_kv(lines, "HTTP_PORT=", first_port.as_str());
            push_kv(lines, "HTTP_USER=", opt_str(&first.username));
            push_kv(lines, "HTTP_PASS=", opt_str(&first.password));
        },
    }
    proof {
        assert(lines.deep_view() =~= old(lines).deep_view() + spec_first_compat(*first));
    }
}

/// The compatibility block when no chain is configured.
fn push_empty_compat(lines: &mut Vec<String>)
    ensures
        final(lines).deep_view() == old(lines).deep_view() + spec_empty_compat(),
{
    push_lit(lines, "# First proxy (for compatibility)");
    push_lit(lines, "ACTIVE_PROTOCOL=");
    push_lit(lines, "SOCKS5_HOST=");
    push_lit(lines, "SOCKS5_PORT=");
    push_lit(lines, "SOCKS5_USER=");
    push_lit(lines, "SOCKS5_PASS=");
    push_lit(lines, "HTTP_HOST=");
    push_lit(lines, "HTTP_PORT=");
    push_lit(lines, "HTTP_USER=");
    push_lit(lines, "HTTP_PASS=");
    proof {
        assert(lines.deep_view() =~= old(lines).deep_view() + spec_empty_compat());
    }
}

/// The VPN block: a blank line, its heading, and the WireGuard and OpenVPN
/// fields.
fn push_vpn_block(lines: &mut Vec<String>, wg: &Option<WireGuardConfig>, ovpn: &Option<OpenVpnConfig>)
    ensures
        final(lines).deep_view() == old(lines).deep_view() + seq![
            Seq::<char>::empty(),
            "# VPN / other modes"@,
        ] + spec_wg_lines(*wg) + spec_ovpn_lines(*ovpn),
{
    push_empty_line(lines);
    push_lit(lines, "# VPN / other modes");
    match wg {
        Some(w) => {
            push_kv(lines, "WG_CONFIG_PATH=", w.config_path.as_str());
            push_kv(lines, "WG_INTERFACE_NAME=", w.interface_name.as_str());
            push_kv(lines, "WG_ROUTE_ALL_TRAFFIC=", bool_str(w.route_all_traffic));
        },
        None => {
            push_lit(lines, "WG_CONFIG_PATH=");
            push_lit(lines, "WG_INTERFACE_NAME=");
            push_lit(lines, "WG_ROUTE_ALL_TRAFFIC=");
        },
    }
    match ovpn {
        Some(v) => {
            push_kv(lines, "OPENVPN_CONFIG_PATH=", v.config_path.as_str());
            push_kv(lines, "OPENVPN_AUTH_FILE=", opt_str(&v.auth_file));
            push_kv(lines, "OPENVPN_ROUTE_ALL_TRAFFIC=", bool_str(v.route_all_traffic));
        },
        None => {
            push_lit(lines, "OPENVPN_CONFIG_PATH=");
            push_lit(lines, "OPENVPN_AUTH_FILE=");
            push_lit(lines, "OPENVPN_ROUTE_ALL_TRAFFIC=");
        },
    }
    proof {
        assert(lines.deep_view() =~= old(lines).deep_view() + seq![
            Seq::<char>::empty(),
            "# VPN / other modes"@,
        ] + spec_wg_lines(*wg) + spec_ovpn_lines(*ovpn));
    }
}

impl ProxyConfigBuilder {
    /// Generates the `proxy.conf` content for a role's gateway configuration.
    pub fn generate_proxy_conf(config: &ProxyConfig) -> (r: String)
        ensures
            r@ == spec_proxy_conf(*config),
    {
        let mut lines: Vec<String> = Vec::new();
        push_kv(&mut lines, "# Proxy config for role: ", config.role.as_str());
        push_kv(&mut lines, "GATEWAY_MODE=", config.gateway_mode.as_str());
        push_kv(&mut lines, "CHAIN_STRATEGY=", config.chain_strategy.as_str());
        let count = u64_to_string(config.hops.len() as u64);
        push_kv(&mut lines, "PROXY_COUNT=", count.as_str());
        push_empty_line(&mut lines);
        proof {
            assert(lines.deep_view() =~= spec_conf_header(*config));
        }
        let is_chain = matches!(config.gateway_mode, GatewayMode::ProxyChain);
        if is_chain && config.hops.len() > 0 {
            push_lit(&mut lines, "# Proxy chain configuration");
            let ghost base = lines.deep_view();
            let mut i: usize = 0;
            while i < config.hops.len()
                invariant
                    i <= config.hops@.len(),
                    lines.deep_view() == base + spec_hops_lines(config.hops@.take(i as int)),
                decreases config.hops@.len() - i,
            {
                proof {
                    assert(config.hops@.take(i + 1).drop_last() =~= config.hops@.take(i as int));
                    assert(config.hops@.take(i + 1).last() == config.hops@[i as int]);
                }
                push_hop_lines(&mut lines, &config.hops[i]);
                proof {
                    assert(lines.deep_view() =~= base + spec_hops_lines(config.hops@.take(i + 1)));
                }
                i = i + 1;
            }
            proof {
                assert(config.hops@.take(config.hops@.len() as int) =~= config.hops@);
            }
            push_first_compat(&mut lines, &config.hops[0]);
            proof {
                assert(lines.deep_view() =~= spec_conf_header(*config) + (seq![
                    "# Proxy chain configuration"@,
                ] + spec_hops_lines(config.hops@) + spec_first_compat(config.hops@[0])));
            }
        } else {
            push_empty_compat(&mut lines);
            proof {
                assert(lines.deep_view() =~= spec_conf_header(*config) + spec_empty_compat());
            }
        }
        let ghost mid = lines.deep_view();
        push_vpn_block(&mut lines, &config.wireguard, &config.openvpn);
        proof {
            assert(lines.deep_view() =~= spec_conf_lines(*config));
            assert(lines@.len() == lines.deep_view().len());
        }
        join_newline(&lines)
    }
}


// ---------------------------------------------------------------------------
// The apply-proxy script
// ---------------------------------------------------------------------------
/// The full text of the apply-proxy script for a role.
pub open spec fn spec_apply_proxy_script(role: Seq<char>) -> Seq<char> {
    "#!/usr/bin/env bash\nset -euo pipefail\n\nROLE=\""@ + role
                + "\"\nCONF=\"/proxy/proxy.conf\"\nOUT=\"/etc/proxychains.conf\"\n\nlog() { echo \"[apply-proxy][${ROLE}] $*\"; }\n\nif [[ ! -f \"$CONF\" ]]; then\n  log \"Config file $CONF not found – nothing to do.\"\n  exit 0\nfi\n\n# shellcheck disable=SC1090\n. \"$CONF\" || {\n  log \"Failed to source config from $CONF.\"\n  exit 1\n}\n\nMODE=\"${GATEWAY_MODE:-}\"\nif [[ \"$MODE\" = \"PROXY_CHAIN\" ]]; then\n  COUNT=\"${PROXY_COUNT:-0}\"\n  if ! [[ \"$COUNT\" =~ ^[0-9]+$ ]] || [[ \"$COUNT\" -lt 1 ]]; then\n    log \"PROXY_CHAIN mode but PROXY_COUNT is invalid ('$COUNT').\"\n    exit 0\n  fi\n\n  STRAT=\"${CHAIN_STRATEGY:-strict_chain}\"\n  cat > \"$OUT\" <<EOC\n# Auto-generated by apply-proxy.sh for role ${ROLE}\n"@
                + "${STRAT}\nproxy_dns\ntcp_read_time_out 15000\ntcp_connect_time_out 8000\n\n[ProxyList]\nEOC\n\n  any=0\n  for ((i=1; i<=COUNT; i++)); do\n    T=\"\"\n    H=\"\"\n    P=\"\"\n    U=\"\"\n    PW=\"\"\n    eval \"T=\\\"\\${PROXY_${i}_TYPE:-}\\\"\"\n    eval \"H=\\\"\\${PROXY_${i}_HOST:-}\\\"\"\n    eval \"P=\\\"\\${PROXY_${i}_PORT:-}\\\"\"\n    eval \"U=\\\"\\${PROXY_${i}_USER:-}\\\"\"\n    eval \"PW=\\\"\\${PROXY_${i}_PASS:-}\\\"\"\n\n    if [[ -z \"$T\" || -z \"$H\" || -z \"$P\" ]]; then\n      log \"Proxy $i incomplete (type/host/port missing) – skipping.\"\n      continue\n    fi\n\n    case \"$T\" in\n      SOCKS5|socks5)\n        if [[ -n \"$U\" || -n \"$PW\" ]]; then\n          echo \"socks5 $H $P $U $PW\" >> \"$OUT\"\n"@
                + "        else\n          echo \"socks5 $H $P\" >> \"$OUT\"\n        fi\n        any=1\n        ;;\n      HTTP|http)\n        if [[ -n \"$U\" || -n \"$PW\" ]]; then\n          echo \"http $H $P $U $PW\" >> \"$OUT\"\n        else\n          echo \"http $H $P\" >> \"$OUT\"\n        fi\n        any=1\n        ;;\n      *)\n        log \"Proxy $i has unsupported type '$T' – skipping.\"\n        ;;\n    esac\n  done\n\n  if [[ \"$any\" -eq 0 ]]; then\n    log \"No valid proxies found in chain – leaving $OUT untouched.\"\n    exit 0\n  fi\n\n  log \"proxychains.conf updated for PROXY_CHAIN (count=$COUNT).\"\n  exit 0\nfi\n\n# Backward compatibility: single ACTIVE_PROTOCOL mode\n"@
                + "case \"${ACTIVE_PROTOCOL:-}\" in\n  SOCKS5)\n    if [[ -z \"${SOCKS5_HOST:-}\" || -z \"${SOCKS5_PORT:-}\" ]]; then\n      log \"SOCKS5 selected but SOCKS5_HOST or SOCKS5_PORT is empty.\"\n      exit 0\n    fi\n    cat > \"$OUT\" <<EOC\n# Auto-generated by apply-proxy.sh for role ${ROLE}\nstrict_chain\nproxy_dns\ntcp_read_time_out 15000\ntcp_connect_time_out 8000\n\n[ProxyList]\nEOC\n    if [[ -n \"${SOCKS5_USER:-}\" || -n \"${SOCKS5_PASS:-}\" ]]; then\n      echo \"socks5 ${SOCKS5_HOST} ${SOCKS5_PORT} ${SOCKS5_USER:-} ${SOCKS5_PASS:-}\" >> \"$OUT\"\n    else\n      echo \"socks5 ${SOCKS5_HOST} ${SOCKS5_PORT}\" >> \"$OUT\"\n    fi\n    log \"proxychains.conf updated for single SOCKS5.\"\n"@
                + "    ;;\n  HTTP)\n    if [[ -z \"${HTTP_HOST:-}\" || -z \"${HTTP_PORT:-}\" ]]; then\n      log \"HTTP selected but HTTP_HOST or HTTP_PORT is empty.\"\n      exit 0\n    fi\n    cat > \"$OUT\" <<EOC\n# Auto-generated by apply-proxy.sh for role ${ROLE}\nstrict_chain\nproxy_dns\ntcp_read_time_out 15000\ntcp_connect_time_out 8000\n\n[ProxyList]\nEOC\n    if [[ -n \"${HTTP_USER:-}\" || -n \"${HTTP_PASS:-}\" ]]; then\n      echo \"http ${HTTP_HOST} ${HTTP_PORT} ${HTTP_USER:-} ${HTTP_PASS:-}\" >> \"$OUT\"\n    else\n      echo \"http ${HTTP_HOST} ${HTTP_PORT}\" >> \"$OUT\"\n    fi\n    log \"proxychains.conf updated for single HTTP.\"\n    ;;\n  *)\n"@
                + "    log \"GATEWAY_MODE='${MODE}' and ACTIVE_PROTOCOL='${ACTIVE_PROTOCOL:-}' – nothing to do in apply-proxy.sh yet.\"\n    ;;\nesac\n\nexit 0\n"@
}

impl ProxyConfigBuilder {
    /// Generates the `apply-proxy.sh` script content for a role; the role
    /// name is embedded once, in the `ROLE` assignment.
    pub fn generate_apply_proxy_script(role: &str) -> (r: String)
        ensures
            r@ == spec_apply_proxy_script(role@),
    {
        let mut out = String::from_str(
            "#!/usr/bin/env bash\nset -euo pipefail\n\nROLE=\"",
        );
        out.append(role);
        out.append(
            "\"\nCONF=\"/proxy/proxy.conf\"\nOUT=\"/etc/proxychains.conf\"\n\nlog() { echo \"[apply-proxy][${ROLE}] $*\"; }\n\nif [[ ! -f \"$CONF\" ]]; then\n  log \"Config file $CONF not found – nothing to do.\"\n  exit 0\nfi\n\n# shellcheck disable=SC1090\n. \"$CONF\" || {\n  log \"Failed to source config from $CONF.\"\n  exit 1\n}\n\nMODE=\"${GATEWAY_MODE:-}\"\nif [[ \"$MODE\" = \"PROXY_CHAIN\" ]]; then\n  COUNT=\"${PROXY_COUNT:-0}\"\n  if ! [[ \"$COUNT\" =~ ^[0-9]+$ ]] || [[ \"$COUNT\" -lt 1 ]]; then\n    log \"PROXY_CHAIN mode but PROXY_COUNT is invalid ('$COUNT').\"\n    exit 0\n  fi\n\n  STRAT=\"${CHAIN_STRATEGY:-strict_chain}\"\n  cat > \"$OUT\" <<EOC\n# Auto-generated by apply-proxy.sh for role ${ROLE}\n",
        );
        out.append(
            "${STRAT}\nproxy_dns\ntcp_read_time_out 15000\ntcp_connect_time_out 8000\n\n[ProxyList]\nEOC\n\n  any=0\n  for ((i=1; i<=COUNT; i++)); do\n    T=\"\"\n    H=\"\"\n    P=\"\"\n    U=\"\"\n    PW=\"\"\n    eval \"T=\\\"\\${PROXY_${i}_TYPE:-}\\\"\"\n    eval \"H=\\\"\\${PROXY_${i}_HOST:-}\\\"\"\n    eval \"P=\\\"\\${PROXY_${i}_PORT:-}\\\"\"\n    eval \"U=\\\"\\${PROXY_${i}_USER:-}\\\"\"\n    eval \"PW=\\\"\\${PROXY_${i}_PASS:-}\\\"\"\n\n    if [[ -z \"$T\" || -z \"$H\" || -z \"$P\" ]]; then\n      log \"Proxy $i incomplete (type/host/port missing) – skipping.\"\n      continue\n    fi\n\n    case \"$T\" in\n      SOCKS5|socks5)\n        if [[ -n \"$U\" || -n \"$PW\" ]]; then\n          echo \"socks5 $H $P $U $PW\" >> \"$OUT\"\n",
        );
        out.append(
            "        else\n          echo \"socks5 $H $P\" >> \"$OUT\"\n        fi\n        any=1\n        ;;\n      HTTP|http)\n        if [[ -n \"$U\" || -n \"$PW\" ]]; then\n          echo \"http $H $P $U $PW\" >> \"$OUT\"\n        else\n          echo \"http $H $P\" >> \"$OUT\"\n        fi\n        any=1\n        ;;\n      *)\n        log \"Proxy $i has unsupported type '$T' – skipping.\"\n        ;;\n    esac\n  done\n\n  if [[ \"$any\" -eq 0 ]]; then\n    log \"No valid proxies found in chain – leaving $OUT untouched.\"\n    exit 0\n  fi\n\n  log \"proxychains.conf updated for PROXY_CHAIN (count=$COUNT).\"\n  exit 0\nfi\n\n# Backward compatibility: single ACTIVE_PROTOCOL mode\n",
        );
        out.append(
            "case \"${ACTIVE_PROTOCOL:-}\" in\n  SOCKS5)\n    if [[ -z \"${SOCKS5_HOST:-}\" || -z \"${SOCKS5_PORT:-}\" ]]; then\n      log \"SOCKS5 selected but SOCKS5_HOST or SOCKS5_PORT is empty.\"\n      exit 0\n    fi\n    cat > \"$OUT\" <<EOC\n# Auto-generated by apply-proxy.sh for role ${ROLE}\nstrict_chain\nproxy_dns\ntcp_read_time_out 15000\ntcp_connect_time_out 8000\n\n[ProxyList]\nEOC\n    if [[ -n \"${SOCKS5_USER:-}\" || -n \"${SOCKS5_PASS:-}\" ]]; then\n      echo \"socks5 ${SOCKS5_HOST} ${SOCKS5_PORT} ${SOCKS5_USER:-} ${SOCKS5_PASS:-}\" >> \"$OUT\"\n    else\n      echo \"socks5 ${SOCKS5_HOST} ${SOCKS5_PORT}\" >> \"$OUT\"\n    fi\n    log \"proxychains.conf updated for single SOCKS5.\"\n",
        );
        out.append(
            "    ;;\n  HTTP)\n    if [[ -z \"${HTTP_HOST:-}\" || -z \"${HTTP_PORT:-}\" ]]; then\n      log \"HTTP selected but HTTP_HOST or HTTP_PORT is empty.\"\n      exit 0\n    fi\n    cat > \"$OUT\" <<EOC\n# Auto-generated by apply-proxy.sh for role ${ROLE}\nstrict_chain\nproxy_dns\ntcp_read_time_out 15000\ntcp_connect_time_out 8000\n\n[ProxyList]\nEOC\n    if [[ -n \"${HTTP_USER:-}\" || -n \"${HTTP_PASS:-}\" ]]; then\n      echo \"http ${HTTP_HOST} ${HTTP_PORT} ${HTTP_USER:-} ${HTTP_PASS:-}\" >> \"$OUT\"\n    else\n      echo \"http ${HTTP_HOST} ${HTTP_PORT}\" >> \"$OUT\"\n    fi\n    log \"proxychains.conf updated for single HTTP.\"\n    ;;\n  *)\n",
        );
        out.append(
            "    log \"GATEWAY_MODE='${MODE}' and ACTIVE_PROTOCOL='${ACTIVE_PROTOCOL:-}' – nothing to do in apply-proxy.sh yet.\"\n    ;;\nesac\n\nexit 0\n",
        );
        out
    }
}

// ---------------------------------------------------------------------------
// Parsing a generated proxy.conf back
// ---------------------------------------------------------------------------
/// A `KEY=VALUE` line: trimmed, non-empty, no leading `#`, split at its
/// first `=`.
pub open spec fn spec_line_kv(line: Seq<char>) -> Option<(Seq<char>, Seq<char>)> {
    let t = crate::text::spec_trim(line);
    if t.len() == 0 || t[0] == '#' {
        None
    } else {
        match crate::text::spec_find(t, '=') {
            None => None,
            Some(i) => Some((t.take(i), t.skip(i + 1))),
        }
    }
}

/// The value recorded for `key`: the last carrying line wins.
pub open spec fn spec_lookup_kv(lines: Seq<Seq<char>>, key: Seq<char>) -> Option<Seq<char>>
    decreases lines.len(),
{
    if lines.len() == 0 {
        None
    } else {
        match spec_line_kv(lines.last()) {
            Some(kv) => if kv.0 == key {
                Some(kv.1)
            } else {
                spec_lookup_kv(lines.drop_last(), key)
            },
            None => spec_lookup_kv(lines.drop_last(), key),
        }
    }
}

/// A looked-up value, with a missing key read as the empty value.
pub open spec fn spec_lookup_or_empty(lines: Seq<Seq<char>>, key: Seq<char>) -> Seq<char> {
    match spec_lookup_kv(lines, key) {
        Some(v) => v,
        None => Seq::<char>::empty(),
    }
}

/// The gateway mode a file denotes; anything unrecognized or missing is the
/// proxy-chain mode.
pub open spec fn spec_parse_mode(lines: Seq<Seq<char>>) -> GatewayMode {
    match spec_lookup_kv(lines, "GATEWAY_MODE"@) {
        Some(v) => if v == "WIREGUARD"@ {
            GatewayMode::WireGuard
        } else if v == "OPENVPN"@ {
            GatewayMode::OpenVpn
        } else {
            GatewayMode::ProxyChain
        },
        None => GatewayMode::ProxyChain,
    }
}

/// The declared hop count: a plain decimal up to 255; anything else is zero.
pub open spec fn spec_parse_count(lines: Seq<Seq<char>>) -> nat {
    match spec_lookup_kv(lines, "PROXY_COUNT"@) {
        Some(v) => if crate::text::spec_all_digits(v) && crate::text::spec_dec_val(v) <= 255 {
            crate::text::spec_dec_val(v)
        } else {
            0
        },
        None => 0,
    }
}

/// The key of one hop field, for slot `idx`.
pub open spec fn spec_hop_key(idx: nat, suffix: Seq<char>) -> Seq<char> {
    "PROXY_"@ + spec_dec(idx) + "_"@ + suffix
}

pub open spec fn spec_hop_field(lines: Seq<Seq<char>>, idx: nat, suffix: Seq<char>) -> Seq<char> {
    spec_lookup_or_empty(lines, spec_hop_key(idx, suffix))
}

/// The slots in `1..=count` whose host field is non-empty, in order.
pub open spec fn spec_kept_slots(lines: Seq<Seq<char>>, count: nat) -> Seq<nat>
    decreases count,
{
    if count == 0 {
        Seq::<nat>::empty()
    } else {
        let rest = spec_kept_slots(lines, (count - 1) as nat);
        if spec_hop_field(lines, count, "HOST"@).len() > 0 {
            rest.push(count)
        } else {
            rest
        }
    }
}

/// One rebuilt hop corresponds to its slot: the slot number as index, the
/// slot's fields as values, a malformed or oversized port read as 1080, and
/// empty credentials read as absent.
pub open spec fn spec_hop_from_slot(h: ProxyHop, lines: Seq<Seq<char>>, idx: nat) -> bool {
    &&& h.index == idx
    &&& h.proxy_type == (if spec_hop_field(lines, idx, "TYPE"@) == "HTTP"@ {
        ProxyType::Http
    } else {
        ProxyType::Socks5
    })
    &&& h.host@ == spec_hop_field(lines, idx, "HOST"@)
    &&& {
        let p = spec_hop_field(lines, idx, "PORT"@);
        h.port == if crate::text::spec_all_digits(p) && crate::text::spec_dec_val(p) <= 0xffff {
            crate::text::spec_dec_val(p)
        } else {
            1080nat
        }
    }
    &&& spec_opt_field(h.username, spec_hop_field(lines, idx, "USER"@))
    &&& spec_opt_field(h.password, spec_hop_field(lines, idx, "PASS"@))
    &&& spec_opt_field(h.label, spec_hop_field(lines, idx, "LABEL"@))
}

/// An optional field: absent exactly when the recorded value is empty.
pub open spec fn spec_opt_field(o: Option<String>, v: Seq<char>) -> bool {
    match o {
        None => v.len() == 0,
        Some(s) => s@ == v && v.len() > 0,
    }
}

/// What the file records for the WireGuard reference, as the builder that
/// wrote it reads it back: the path relative to the in-guest mount, the
/// interface with its default, and the routing flag.
pub open spec fn spec_parsed_wg(w: WireGuardConfig, lines: Seq<Seq<char>>) -> bool {
    &&& w.config_path@ == "/proxy/"@ + crate::text::spec_remove_sub(
        spec_lookup_or_empty(lines, "WG_CONFIG_PATH"@),
        "/proxy/"@,
    )
    &&& w.interface_name@ == {
        let v = spec_lookup_or_empty(lines, "WG_INTERFACE_NAME"@);
        if v.len() == 0 {
            "wg0"@
        } else {
            v
        }
    }
    &&& w.route_all_traffic == (spec_lookup_or_empty(lines, "WG_ROUTE_ALL_TRAFFIC"@) == "true"@)
}

pub open spec fn spec_parsed_ovpn(o: OpenVpnConfig, lines: Seq<Seq<char>>) -> bool {
    &&& o.config_path@ == "/proxy/"@ + crate::text::spec_remove_sub(
        spec_lookup_or_empty(lines, "OPENVPN_CONFIG_PATH"@),
        "/proxy/"@,
    )
    &&& {
        let a = crate::text::spec_remove_sub(
            spec_lookup_or_empty(lines, "OPENVPN_AUTH_FILE"@),
            "/proxy/"@,
        );
        match o.auth_file {
            None => a.len() == 0,
            Some(f) => a.len() > 0 && f@ == "/proxy/"@ + a,
        }
    }
    &&& o.route_all_traffic == (spec_lookup_or_empty(lines, "OPENVPN_ROUTE_ALL_TRAFFIC"@)
        == "true"@)
}

fn line_kv(line: &str) -> (r: Option<(String, String)>)
    ensures
        r is Some <==> spec_line_kv(line@) is Some,
        r matches Some(kv) ==> (spec_line_kv(line@) matches Some(skv) && kv.0@ == skv.0 && kv.1@
            == skv.1),
{
    let t = crate::text::trim_str(line);
    let n = t.as_str().unicode_len();
    if n == 0 {
        return None;
    }
    if t.as_str().get_char(0) == '#' {
        return None;
    }
    crate::text::split_once_at(t.as_str(), '=')
}

fn lookup_kv(lines: &Vec<String>, key: &str) -> (r: Option<String>)
    ensures
        r is Some <==> spec_lookup_kv(lines.deep_view(), key@) is Some,
        r matches Some(v) ==> (spec_lookup_kv(lines.deep_view(), key@) matches Some(sv) && v@
            == sv),
{
    let ghost all = lines.deep_view();
    let mut cur: Option<String> = None;
    let mut i: usize = 0;
    while i < lines.len()
        invariant
            all == lines.deep_view(),
            i <= lines.len(),
            (cur is Some <==> spec_lookup_kv(all.take(i as int), key@) is Some),
            cur matches Some(v) ==> (spec_lookup_kv(all.take(i as int), key@) matches Some(sv)
                && v@ == sv),
        decreases lines.len() - i,
    {
        proof {
            assert(all.take(i + 1).drop_last() =~= all.take(i as int));
            assert(all.take(i + 1).last() == all[i as int]);
        }
        match line_kv(lines[i].as_str()) {
            Some((k, v)) => {
                if crate::text::eq_str(k.as_str(), key) {
                    cur = Some(v);
                }
            },
            None => {},
        }
        i = i + 1;
    }
    proof {
        assert(all.take(lines.len() as int) =~= all);
    }
    cur
}

fn lookup_or_empty(lines: &Vec<String>, key: &str) -> (r: String)
    ensures
        r@ == spec_lookup_or_empty(lines.deep_view(), key@),
{
    match lookup_kv(lines, key) {
        Some(v) => v,
        None => String::new(),
    }
}

fn hop_field(lines: &Vec<String>, idx: u64, suffix: &str) -> (r: String)
    ensures
        r@ == spec_hop_field(lines.deep_view(), idx as nat, suffix@),
{
    let n = u64_to_string(idx);
    let key = concat3("PROXY_", n.as_str(), "_");
    let full = concat2(key.as_str(), suffix);
    lookup_or_empty(lines, full.as_str())
}

impl ProxyConfigBuilder {
    /// Reads a generated `proxy.conf` back into a gateway configuration for
    /// `role`, exactly as the configuration editor that writes these files
    /// reads them: the chain strategy is not read back, hop slots with an
    /// empty host are dropped, and slot counts above 255 are rejected.
    pub fn parse_proxy_conf(role: String, content: &str) -> (r: ProxyConfig)
        ensures
            ({
                let lines = crate::text::spec_split(content@, '\n');
                &&& r.role == role
                &&& r.chain_strategy == crate::model::ChainStrategy::StrictChain
                &&& r.gateway_mode == spec_parse_mode(lines)
                &&& (spec_parse_mode(lines) is ProxyChain ==> {
                    let slots = spec_kept_slots(lines, spec_parse_count(lines));
                    &&& r.wireguard is None
                    &&& r.openvpn is None
                    &&& r.hops@.len() == slots.len()
                    &&& forall|k: int|
                        0 <= k < slots.len() ==> spec_hop_from_slot(
                            #[trigger] r.hops@[k],
                            lines,
                            slots[k],
                        )
                })
                &&& (spec_parse_mode(lines) is WireGuard ==> r.hops@.len() == 0 && r.openvpn
                    is None && (r.wireguard matches Some(w) && spec_parsed_wg(w, lines)))
                &&& (spec_parse_mode(lines) is OpenVpn ==> r.hops@.len() == 0 && r.wireguard
                    is None && (r.openvpn matches Some(o) && spec_parsed_ovpn(o, lines)))
            }),
    {
        let lines = crate::text::split_on(content, '\n');
        let ghost all = lines.deep_view();
        let mode = match lookup_kv(&lines, "GATEWAY_MODE") {
            Some(v) => {
                if crate::text::eq_str(v.as_str(), "WIREGUARD") {
                    GatewayMode::WireGuard
                } else if crate::text::eq_str(v.as_str(), "OPENVPN") {
                    GatewayMode::OpenVpn
                } else {
                    GatewayMode::ProxyChain
                }
            },
            None => GatewayMode::ProxyChain,
        };
        let ghost orig_role = role;
        let mut config = ProxyConfig::new(role, mode);
        match mode {
            GatewayMode::ProxyChain => {
                let count: u64 = match lookup_kv(&lines, "PROXY_COUNT") {
                    Some(v) => {
                        match crate::text::parse_dec_capped(v.as_str(), 255) {
                            Some(c) => c,
                            None => 0,
                        }
                    },
                    None => 0,
                };
                proof {
                    assert(count == spec_parse_count(all));
                }
                let mut slot: u64 = 1;
                while slot <= count
                    invariant
                        count <= 255,
                        1 <= slot <= count + 1,
                        config.role == orig_role,
                        config.gateway_mode is ProxyChain,
                        config.chain_strategy == crate::model::ChainStrategy::StrictChain,
                        config.wireguard is None,
                        config.openvpn is None,
                        all == lines.deep_view(),
                        config.hops@.len() == spec_kept_slots(all, (slot - 1) as nat).len(),
                        forall|k: int|
                            0 <= k < config.hops@.len() ==> spec_hop_from_slot(
                                #[trigger] config.hops@[k],
                                all,
                                spec_kept_slots(all, (slot - 1) as nat)[k],
                            ),
                    decreases count + 1 - slot,
                {
                    let host = hop_field(&lines, slot, "HOST");
                    if host.as_str().unicode_len() > 0 {
                        let tval = hop_field(&lines, slot, "TYPE");
                        let ptype = if crate::text::eq_str(tval.as_str(), "HTTP") {
                            ProxyType::Http
                        } else {
                            ProxyType::Socks5
                        };
                        let pval = hop_field(&lines, slot, "PORT");
                        let port: u16 = match crate::text::parse_dec_capped(
                            pval.as_str(),
                            0xffff,
                        ) {
                            Some(v) => v as u16,
                            None => 1080,
                        };
                        let user = hop_field(&lines, slot, "USER");
                        let pass = hop_field(&lines, slot, "PASS");
                        let label = hop_field(&lines, slot, "LABEL");
                        let hop = ProxyHop {
                            index: slot as u8,
                            proxy_type: ptype,
                            host,
                            port,
                            username: if user.as_str().unicode_len() == 0 {
                                None
                            } else {
                                Some(user)
                            },
                            password: if pass.as_str().unicode_len() == 0 {
                                None
                            } else {
                                Some(pass)
                            },
                            label: if label.as_str().unicode_len() == 0 {
                                None
                            } else {
                                Some(label)
                            },
                        };
                        config.add_hop(hop);
                        proof {
                            let prev = spec_kept_slots(all, (slot - 1) as nat);
                            assert(spec_kept_slots(all, slot as nat) == prev.push(slot as nat));
                        }
                    } else {
                        proof {
                            assert(spec_kept_slots(all, slot as nat) == spec_kept_slots(
                                all,
                                (slot - 1) as nat,
                            ));
                        }
                    }
                    slot = slot + 1;
                }
                proof {
                    assert((slot - 1) as nat == spec_parse_count(all));
                }
            },
            GatewayMode::WireGuard => {
                let raw = lookup_or_empty(&lines, "WG_CONFIG_PATH");
                let fname = crate::text::remove_occurrences(raw.as_str(), "/proxy/");
                let iface = lookup_or_empty(&lines, "WG_INTERFACE_NAME");
                let route = lookup_or_empty(&lines, "WG_ROUTE_ALL_TRAFFIC");
                config.wireguard = Some(
                    WireGuardConfig {
                        config_path: concat2("/proxy/", fname.as_str()),
                        interface_name: if iface.as_str().unicode_len() == 0 {
                            String::from_str("wg0")
                        } else {
                            iface
                        },
                        route_all_traffic: crate::text::eq_str(route.as_str(), "true"),
                    },
                );
            },
            GatewayMode::OpenVpn => {
                let raw = lookup_or_empty(&lines, "OPENVPN_CONFIG_PATH");
                let fname = crate::text::remove_occurrences(raw.as_str(), "/proxy/");
                let araw = lookup_or_empty(&lines, "OPENVPN_AUTH_FILE");
                let aname = crate::text::remove_occurrences(araw.as_str(), "/proxy/");
                let route = lookup_or_empty(&lines, "OPENVPN_ROUTE_ALL_TRAFFIC");
                config.openvpn = Some(
                    OpenVpnConfig {
                        config_path: concat2("/proxy/", fname.as_str()),
                        auth_file: if aname.as_str().unicode_len() == 0 {
                            None
                        } else {
                            Some(concat2("/proxy/", aname.as_str()))
                        },
                        route_all_traffic: crate::text::eq_str(route.as_str(), "true"),
                    },
                );
            },
        }
        config
    }
}

// ---------------------------------------------------------------------------
// Round trip: a written configuration reads back to the same values
// ---------------------------------------------------------------------------
/// A value safe to write on a key-value line: it holds no newline, and does
/// not end in whitespace (the reader trims line ends).
pub open spec fn spec_token_clean(s: Seq<char>) -> bool {
    !s.contains('\n') && (s.len() > 0 ==> !crate::text::spec_is_space(s.last()))
}

/// This line carries this key.
pub open spec fn spec_line_yields(line: Seq<char>, key: Seq<char>) -> bool {
    spec_line_kv(line) matches Some(kv) && kv.0 == key
}

/// A `KEY=VALUE` line splits back into its key and value, provided the key
/// is a plain token and the value does not end in whitespace.
proof fn lemma_line_kv_of(key: Seq<char>, value: Seq<char>)
    requires
        key.len() > 0,
        !crate::text::spec_is_space(key[0]),
        key[0] != '#',
        forall|j: int| 0 <= j < key.len() ==> key[j] != '=',
        value.len() > 0 ==> !crate::text::spec_is_space(value.last()),
    ensures
        spec_line_kv(key + "="@ + value) == Some((key, value)),
        spec_line_yields(key + "="@ + value, key),
{
    reveal_strlit("=");
    let line = key + "="@ + value;
    assert(line[0] == key[0]);
    assert(line.last() == if value.len() > 0 {
        value.last()
    } else {
        '='
    });
    assert(!crate::text::spec_is_space('='));
    crate::text::lemma_trim_identity(line);
    assert(line[key.len() as int] == '=');
    assert(forall|j: int| 0 <= j < key.len() ==> line[j] == key[j]);
    crate::text::lemma_find_some(line, '=', key.len() as int);
    assert(line.take(key.len() as int) =~= key);
    assert(line.skip(key.len() as int + 1) =~= value);
}

/// A line whose first character is `#` carries nothing.
proof fn lemma_comment_line(line: Seq<char>)
    requires
        line.len() > 0,
        line[0] == '#',
    ensures
        spec_line_kv(line) is None,
{
    assert(!crate::text::spec_is_space('#'));
    crate::text::lemma_trim_keeps_head(line);
}

/// An empty line carries nothing.
proof fn lemma_empty_line()
    ensures
        spec_line_kv(Seq::<char>::empty()) is None,
{
    assert(crate::text::spec_trim(Seq::<char>::empty()).len() == 0);
}

/// Lines that do not carry the key do not change a lookup.
proof fn lemma_lookup_append(a: Seq<Seq<char>>, b: Seq<Seq<char>>, key: Seq<char>)
    requires
        forall|i: int| 0 <= i < b.len() ==> !spec_line_yields(#[trigger] b[i], key),
    ensures
        spec_lookup_kv(a + b, key) == spec_lookup_kv(a, key),
    decreases b.len(),
{
    if b.len() == 0 {
        assert(a + b =~= a);
    } else {
        let s = a + b;
        assert(s.len() > 0);
        assert(s.last() == b.last());
        assert(s.drop_last() =~= a + b.drop_last());
        assert(!spec_line_yields(b.last(), key)) by {
            assert(b[b.len() - 1] == b.last());
        }
        assert(forall|i: int|
            0 <= i < b.drop_last().len() ==> !spec_line_yields(
                #[trigger] b.drop_last()[i],
                key,
            )) by {
            assert(forall|i: int| 0 <= i < b.len() - 1 ==> b.drop_last()[i] == b[i]);
        }
        lemma_lookup_append(a, b.drop_last(), key);
    }
}

/// A lookup lands on the line that carries the key.
proof fn lemma_lookup_hit(a: Seq<Seq<char>>, line: Seq<char>, key: Seq<char>, value: Seq<char>)
    requires
        spec_line_kv(line) == Some((key, value)),
    ensures
        spec_lookup_kv(a.push(line), key) == Some(value),
{
    let s = a.push(line);
    assert(s.last() == line);
}

/// What `WireGuardConfig::route_all_traffic` writes reads back as itself.
proof fn lemma_bool_str_read_back(b: bool)
    ensures
        (spec_bool_str(b) == "true"@) == b,
{
    reveal_strlit("true");
    reveal_strlit("false");
    assert("false"@.len() != "true"@.len());
}

/// The round-trip law for the WireGuard mode: a configuration the builder
/// writes, read back by its own reader, names the same file, interface and
/// routing flag. The file reference must live under the in-guest `/proxy/`
/// mount (as the orchestrator arranges) and the interface must be named;
/// both must be writable as line values.
#[verifier::rlimit(100)]
pub proof fn lemma_wg_conf_round_trip(c: ProxyConfig)
    requires
        c.gateway_mode is WireGuard,
        c.hops@.len() == 0,
        c.openvpn is None,
        c.wireguard matches Some(w) && {
            &&& crate::text::spec_starts_with(w.config_path@, "/proxy/"@)
            &&& !spec_contains_sub_of(w.config_path@.skip(7), "/proxy/"@)
            &&& spec_token_clean(w.config_path@)
            &&& w.interface_name@.len() > 0
            &&& spec_token_clean(w.interface_name@)
            &&& !c.role@.contains('\n')
        },
    ensures
        ({
            let lines = crate::text::spec_split(spec_proxy_conf(c), '\n');
            &&& spec_parse_mode(lines) == GatewayMode::WireGuard
            &&& (forall|w2: WireGuardConfig|
                spec_parsed_wg(w2, lines) ==> w2.config_path@ == (c.wireguard->Some_0).config_path@
                    && w2.interface_name@ == (c.wireguard->Some_0).interface_name@
                    && w2.route_all_traffic == (c.wireguard->Some_0).route_all_traffic)
        }),
{
    let w = c.wireguard->Some_0;
    reveal_strlit("# Proxy config for role: ");
    reveal_strlit("GATEWAY_MODE");
    reveal_strlit("GATEWAY_MODE=");
    reveal_strlit("WIREGUARD");
    reveal_strlit("CHAIN_STRATEGY");
    reveal_strlit("CHAIN_STRATEGY=");
    reveal_strlit("strict_chain");
    reveal_strlit("dynamic_chain");
    reveal_strlit("random_chain");
    reveal_strlit("PROXY_COUNT");
    reveal_strlit("PROXY_COUNT=");
    reveal_strlit("# First proxy (for compatibility)");
    reveal_strlit("ACTIVE_PROTOCOL");
    reveal_strlit("ACTIVE_PROTOCOL=");
    reveal_strlit("SOCKS5_HOST=");
    reveal_strlit("SOCKS5_PORT=");
    reveal_strlit("SOCKS5_USER=");
    reveal_strlit("SOCKS5_PASS=");
    reveal_strlit("HTTP_HOST=");
    reveal_strlit("HTTP_PORT=");
    reveal_strlit("HTTP_USER=");
    reveal_strlit("HTTP_PASS=");
    reveal_strlit("SOCKS5_HOST");
    reveal_strlit("SOCKS5_PORT");
    reveal_strlit("SOCKS5_USER");
    reveal_strlit("SOCKS5_PASS");
    reveal_strlit("HTTP_HOST");
    reveal_strlit("HTTP_PORT");
    reveal_strlit("HTTP_USER");
    reveal_strlit("HTTP_PASS");
    reveal_strlit("# VPN / other modes");
    reveal_strlit("WG_CONFIG_PATH");
    reveal_strlit("WG_CONFIG_PATH=");
    reveal_strlit("WG_INTERFACE_NAME");
    reveal_strlit("WG_INTERFACE_NAME=");
    reveal_strlit("WG_ROUTE_ALL_TRAFFIC");
    reveal_strlit("WG_ROUTE_ALL_TRAFFIC=");
    reveal_strlit("OPENVPN_CONFIG_PATH");
    reveal_strlit("OPENVPN_CONFIG_PATH=");
    reveal_strlit("OPENVPN_AUTH_FILE");
    reveal_strlit("OPENVPN_AUTH_FILE=");
    reveal_strlit("OPENVPN_ROUTE_ALL_TRAFFIC");
    reveal_strlit("OPENVPN_ROUTE_ALL_TRAFFIC=");
    reveal_strlit("true");
    reveal_strlit("false");
    reveal_strlit("=");
    reveal_strlit("/proxy/");
    reveal_strlit("wg0");
    let strat = spec_chain_strategy_str(c.chain_strategy);
    assert(!strat.contains('\n') && strat.len() > 0 && !crate::text::spec_is_space(strat.last()));
    let count = crate::text::spec_dec(0);
    assert(count =~= seq!['0']);
    let bool_line = spec_bool_str(w.route_all_traffic);
    assert(!bool_line.contains('\n') && bool_line.len() > 0 && !crate::text::spec_is_space(
        bool_line.last(),
    ));
    let lines = spec_conf_lines(c);
    let e = Seq::<char>::empty();
    let l0 = "# Proxy config for role: "@ + c.role@;
    let l1 = "GATEWAY_MODE="@ + "WIREGUARD"@;
    let l2 = "CHAIN_STRATEGY="@ + strat;
    let l3 = "PROXY_COUNT="@ + count;
    let l17 = "WG_CONFIG_PATH="@ + w.config_path@;
    let l18 = "WG_INTERFACE_NAME="@ + w.interface_name@;
    let l19 = "WG_ROUTE_ALL_TRAFFIC="@ + bool_line;
    assert(lines =~~= seq![
        l0,
        l1,
        l2,
        l3,
        e,
        "# First proxy (for compatibility)"@,
        "ACTIVE_PROTOCOL="@ + e,
        "SOCKS5_HOST="@ + e,
        "SOCKS5_PORT="@ + e,
        "SOCKS5_USER="@ + e,
        "SOCKS5_PASS="@ + e,
        "HTTP_HOST="@ + e,
        "HTTP_PORT="@ + e,
        "HTTP_USER="@ + e,
        "HTTP_PASS="@ + e,
        e,
        "# VPN / other modes"@,
        l17,
        l18,
        l19,
        "OPENVPN_CONFIG_PATH="@ + e,
        "OPENVPN_AUTH_FILE="@ + e,
        "OPENVPN_ROUTE_ALL_TRAFFIC="@ + e,
    ]) by {
        assert("ACTIVE_PROTOCOL="@ + e =~= "ACTIVE_PROTOCOL="@);
        assert("SOCKS5_HOST="@ + e =~= "SOCKS5_HOST="@);
        assert("SOCKS5_PORT="@ + e =~= "SOCKS5_PORT="@);
        assert("SOCKS5_USER="@ + e =~= "SOCKS5_USER="@);
        assert("SOCKS5_PASS="@ + e =~= "SOCKS5_PASS="@);
        assert("HTTP_HOST="@ + e =~= "HTTP_HOST="@);
        assert("HTTP_PORT="@ + e =~= "HTTP_PORT="@);
        assert("HTTP_USER="@ + e =~= "HTTP_USER="@);
        assert("HTTP_PASS="@ + e =~= "HTTP_PASS="@);
        assert("OPENVPN_CONFIG_PATH="@ + e =~= "OPENVPN_CONFIG_PATH="@);
        assert("OPENVPN_AUTH_FILE="@ + e =~= "OPENVPN_AUTH_FILE="@);
        assert("OPENVPN_ROUTE_ALL_TRAFFIC="@ + e =~= "OPENVPN_ROUTE_ALL_TRAFFIC="@);
    }
    // every line is newline-free, so splitting the joined file restores it
    assert(forall|i: int| 0 <= i < lines.len() ==> !(#[trigger] lines[i]).contains('\n')) by {
        crate::text::lemma_concat_no_char("# Proxy config for role: "@, c.role@, '\n');
        crate::text::lemma_concat_no_char("GATEWAY_MODE="@, "WIREGUARD"@, '\n');
        crate::text::lemma_concat_no_char("CHAIN_STRATEGY="@, strat, '\n');
        crate::text::lemma_concat_no_char("PROXY_COUNT="@, count, '\n');
        crate::text::lemma_concat_no_char("WG_CONFIG_PATH="@, w.config_path@, '\n');
        crate::text::lemma_concat_no_char("WG_INTERFACE_NAME="@, w.interface_name@, '\n');
        crate::text::lemma_concat_no_char("WG_ROUTE_ALL_TRAFFIC="@, bool_line, '\n');
        assert forall|i: int| 0 <= i < lines.len() implies !(#[trigger] lines[i]).contains(
            '\n',
        ) by {
            if lines[i].contains('\n') {
                let j = choose|j: int| 0 <= j < lines[i].len() && lines[i][j] == '\n';
                assert(false);
            }
        }
    }
    crate::text::lemma_split_of_join(lines, '\n');
    // the lines carry their keys
    lemma_comment_line(l0);
    lemma_line_kv_of("GATEWAY_MODE"@, "WIREGUARD"@);
    assert("GATEWAY_MODE"@ + "="@ + "WIREGUARD"@ =~= l1);
    lemma_line_kv_of("CHAIN_STRATEGY"@, strat);
    assert("CHAIN_STRATEGY"@ + "="@ + strat =~= l2);
    lemma_line_kv_of("PROXY_COUNT"@, count);
    assert("PROXY_COUNT"@ + "="@ + count =~= l3);
    lemma_empty_line();
    lemma_comment_line("# First proxy (for compatibility)"@);
    lemma_line_kv_of("ACTIVE_PROTOCOL"@, e);
    assert("ACTIVE_PROTOCOL"@ + "="@ + e =~= "ACTIVE_PROTOCOL="@ + e);
    lemma_line_kv_of("SOCKS5_HOST"@, e);
    assert("SOCKS5_HOST"@ + "="@ + e =~= "SOCKS5_HOST="@ + e);
    lemma_line_kv_of("SOCKS5_PORT"@, e);
    assert("SOCKS5_PORT"@ + "="@ + e =~= "SOCKS5_PORT="@ + e);
    lemma_line_kv_of("SOCKS5_USER"@, e);
    assert("SOCKS5_USER"@ + "="@ + e =~= "SOCKS5_USER="@ + e);
    lemma_line_kv_of("SOCKS5_PASS"@, e);
    assert("SOCKS5_PASS"@ + "="@ + e =~= "SOCKS5_PASS="@ + e);
    lemma_line_kv_of("HTTP_HOST"@, e);
    assert("HTTP_HOST"@ + "="@ + e =~= "HTTP_HOST="@ + e);
    lemma_line_kv_of("HTTP_PORT"@, e);
    assert("HTTP_PORT"@ + "="@ + e =~= "HTTP_PORT="@ + e);
    lemma_line_kv_of("HTTP_USER"@, e);
    assert("HTTP_USER"@ + "="@ + e =~= "HTTP_USER="@ + e);
    lemma_line_kv_of("HTTP_PASS"@, e);
    assert("HTTP_PASS"@ + "="@ + e =~= "HTTP_PASS="@ + e);
    lemma_comment_line("# VPN / other modes"@);
    lemma_line_kv_of("WG_CONFIG_PATH"@, w.config_path@);
    assert("WG_CONFIG_PATH"@ + "="@ + w.config_path@ =~= l17);
    lemma_line_kv_of("WG_INTERFACE_NAME"@, w.interface_name@);
    assert("WG_INTERFACE_NAME"@ + "="@ + w.interface_name@ =~= l18);
    lemma_line_kv_of("WG_ROUTE_ALL_TRAFFIC"@, bool_line);
    assert("WG_ROUTE_ALL_TRAFFIC"@ + "="@ + bool_line =~= l19);
    lemma_line_kv_of("OPENVPN_CONFIG_PATH"@, e);
    assert("OPENVPN_CONFIG_PATH"@ + "="@ + e =~= "OPENVPN_CONFIG_PATH="@ + e);
    lemma_line_kv_of("OPENVPN_AUTH_FILE"@, e);
    assert("OPENVPN_AUTH_FILE"@ + "="@ + e =~= "OPENVPN_AUTH_FILE="@ + e);
    lemma_line_kv_of("OPENVPN_ROUTE_ALL_TRAFFIC"@, e);
    assert("OPENVPN_ROUTE_ALL_TRAFFIC"@ + "="@ + e =~= "OPENVPN_ROUTE_ALL_TRAFFIC="@ + e);
    // evaluate each lookup by peeling the carried keys
    reveal_with_fuel(spec_lookup_kv, 26);
    assert(spec_lookup_kv(lines, "GATEWAY_MODE"@) == Some("WIREGUARD"@));
    assert(spec_lookup_kv(lines, "WG_CONFIG_PATH"@) == Some(w.config_path@));
    assert(spec_lookup_kv(lines, "WG_INTERFACE_NAME"@) == Some(w.interface_name@));
    assert(spec_lookup_kv(lines, "WG_ROUTE_ALL_TRAFFIC"@) == Some(bool_line));
    // read the looked-up values back
    assert(spec_parse_mode(lines) == GatewayMode::WireGuard);
    let rest = w.config_path@.skip(7);
    crate::text::lemma_remove_sub_prefix("/proxy/"@, rest);
    assert("/proxy/"@ + rest =~= w.config_path@);
    lemma_bool_str_read_back(w.route_all_traffic);
    assert forall|w2: WireGuardConfig| spec_parsed_wg(w2, lines) implies w2.config_path@
        == w.config_path@ && w2.interface_name@ == w.interface_name@ && w2.route_all_traffic
        == w.route_all_traffic by {
        assert(spec_lookup_or_empty(lines, "WG_CONFIG_PATH"@) == w.config_path@);
        assert(spec_lookup_or_empty(lines, "WG_INTERFACE_NAME"@) == w.interface_name@);
        assert(spec_lookup_or_empty(lines, "WG_ROUTE_ALL_TRAFFIC"@) == bool_line);
    }
}

/// The first occurrence check used by the round-trip laws.
pub open spec fn spec_contains_sub_of(hay: Seq<char>, needle: Seq<char>) -> bool {
    spec_contains_sub(hay, needle)
}


/// The round-trip law for the OpenVPN mode: the configuration file
/// reference, the optional credentials file reference and the routing flag
/// read back as themselves. File references must live under the in-guest
/// `/proxy/` mount and be writable as line values.
#[verifier::rlimit(100)]
pub proof fn lemma_ovpn_conf_round_trip(c: ProxyConfig)
    requires
        c.gateway_mode is OpenVpn,
        c.hops@.len() == 0,
        c.wireguard is None,
        c.openvpn matches Some(o) && {
            &&& crate::text::spec_starts_with(o.config_path@, "/proxy/"@)
            &&& !spec_contains_sub_of(o.config_path@.skip(7), "/proxy/"@)
            &&& spec_token_clean(o.config_path@)
            &&& (o.auth_file matches Some(a) ==> crate::text::spec_starts_with(a@, "/proxy/"@)
                && a@.len() > 7 && !spec_contains_sub_of(a@.skip(7), "/proxy/"@)
                && spec_token_clean(a@))
            &&& !c.role@.contains('\n')
        },
    ensures
        ({
            let lines = crate::text::spec_split(spec_proxy_conf(c), '\n');
            &&& spec_parse_mode(lines) == GatewayMode::OpenVpn
            &&& (forall|o2: OpenVpnConfig|
                spec_parsed_ovpn(o2, lines) ==> o2.config_path@ == (
                c.openvpn->Some_0).config_path@ && o2.route_all_traffic == (
                c.openvpn->Some_0).route_all_traffic && (match (o2.auth_file, (
                c.openvpn->Some_0).auth_file) {
                    (Option::None, Option::None) => true,
                    (Option::Some(a2), Option::Some(a1)) => a2@ == a1@,
                    _ => false,
                }))
        }),
{
    let o = c.openvpn->Some_0;
    reveal_strlit("# Proxy config for role: ");
    reveal_strlit("GATEWAY_MODE");
    reveal_strlit("GATEWAY_MODE=");
    reveal_strlit("OPENVPN");
    reveal_strlit("WIREGUARD");
    reveal_strlit("PROXY_CHAIN");
    reveal_strlit("CHAIN_STRATEGY");
    reveal_strlit("CHAIN_STRATEGY=");
    reveal_strlit("strict_chain");
    reveal_strlit("dynamic_chain");
    reveal_strlit("random_chain");
    reveal_strlit("PROXY_COUNT");
    reveal_strlit("PROXY_COUNT=");
    reveal_strlit("# First proxy (for compatibility)");
    reveal_strlit("ACTIVE_PROTOCOL");
    reveal_strlit("ACTIVE_PROTOCOL=");
    reveal_strlit("SOCKS5_HOST=");
    reveal_strlit("SOCKS5_PORT=");
    reveal_strlit("SOCKS5_USER=");
    reveal_strlit("SOCKS5_PASS=");
    reveal_strlit("HTTP_HOST=");
    reveal_strlit("HTTP_PORT=");
    reveal_strlit("HTTP_USER=");
    reveal_strlit("HTTP_PASS=");
    reveal_strlit("SOCKS5_HOST");
    reveal_strlit("SOCKS5_PORT");
    reveal_strlit("SOCKS5_USER");
    reveal_strlit("SOCKS5_PASS");
    reveal_strlit("HTTP_HOST");
    reveal_strlit("HTTP_PORT");
    reveal_strlit("HTTP_USER");
    reveal_strlit("HTTP_PASS");
    reveal_strlit("# VPN / other modes");
    reveal_strlit("WG_CONFIG_PATH");
    reveal_strlit("WG_CONFIG_PATH=");
    reveal_strlit("WG_INTERFACE_NAME");
    reveal_strlit("WG_INTERFACE_NAME=");
    reveal_strlit("WG_ROUTE_ALL_TRAFFIC");
    reveal_strlit("WG_ROUTE_ALL_TRAFFIC=");
    reveal_strlit("OPENVPN_CONFIG_PATH");
    reveal_strlit("OPENVPN_CONFIG_PATH=");
    reveal_strlit("OPENVPN_AUTH_FILE");
    reveal_strlit("OPENVPN_AUTH_FILE=");
    reveal_strlit("OPENVPN_ROUTE_ALL_TRAFFIC");
    reveal_strlit("OPENVPN_ROUTE_ALL_TRAFFIC=");
    reveal_strlit("true");
    reveal_strlit("false");
    reveal_strlit("=");
    reveal_strlit("/proxy/");
    let strat = spec_chain_strategy_str(c.chain_strategy);
    assert(!strat.contains('\n') && strat.len() > 0 && !crate::text::spec_is_space(strat.last()));
    let count = crate::text::spec_dec(0);
    assert(count =~= seq!['0']);
    let bool_line = spec_bool_str(o.route_all_traffic);
    assert(!bool_line.contains('\n') && bool_line.len() > 0 && !crate::text::spec_is_space(
        bool_line.last(),
    ));
    let auth_val = spec_opt_str(o.auth_file);
    assert(!auth_val.contains('\n') && (auth_val.len() > 0 ==> !crate::text::spec_is_space(
        auth_val.last(),
    )));
    let lines = spec_conf_lines(c);
    let e = Seq::<char>::empty();
    let l0 = "# Proxy config for role: "@ + c.role@;
    let l1 = "GATEWAY_MODE="@ + "OPENVPN"@;
    let l2 = "CHAIN_STRATEGY="@ + strat;
    let l3 = "PROXY_COUNT="@ + count;
    let l20 = "OPENVPN_CONFIG_PATH="@ + o.config_path@;
    let l21 = "OPENVPN_AUTH_FILE="@ + auth_val;
    let l22 = "OPENVPN_ROUTE_ALL_TRAFFIC="@ + bool_line;
    assert(lines =~~= seq![
        l0,
        l1,
        l2,
        l3,
        e,
        "# First proxy (for compatibility)"@,
        "ACTIVE_PROTOCOL="@ + e,
        "SOCKS5_HOST="@ + e,
        "SOCKS5_PORT="@ + e,
        "SOCKS5_USER="@ + e,
        "SOCKS5_PASS="@ + e,
        "HTTP_HOST="@ + e,
        "HTTP_PORT="@ + e,
        "HTTP_USER="@ + e,
        "HTTP_PASS="@ + e,
        e,
        "# VPN / other modes"@,
        "WG_CONFIG_PATH="@ + e,
        "WG_INTERFACE_NAME="@ + e,
        "WG_ROUTE_ALL_TRAFFIC="@ + e,
        l20,
        l21,
        l22,
    ]) by {
        assert("ACTIVE_PROTOCOL="@ + e =~= "ACTIVE_PROTOCOL="@);
        assert("SOCKS5_HOST="@ + e =~= "SOCKS5_HOST="@);
        assert("SOCKS5_PORT="@ + e =~= "SOCKS5_PORT="@);
        assert("SOCKS5_USER="@ + e =~= "SOCKS5_USER="@);
        assert("SOCKS5_PASS="@ + e =~= "SOCKS5_PASS="@);
        assert("HTTP_HOST="@ + e =~= "HTTP_HOST="@);
        assert("HTTP_PORT="@ + e =~= "HTTP_PORT="@);
        assert("HTTP_USER="@ + e =~= "HTTP_USER="@);
        assert("HTTP_PASS="@ + e =~= "HTTP_PASS="@);
        assert("WG_CONFIG_PATH="@ + e =~= "WG_CONFIG_PATH="@);
        assert("WG_INTERFACE_NAME="@ + e =~= "WG_INTERFACE_NAME="@);
        assert("WG_ROUTE_ALL_TRAFFIC="@ + e =~= "WG_ROUTE_ALL_TRAFFIC="@);
    }
    assert(forall|i: int| 0 <= i < lines.len() ==> !(#[trigger] lines[i]).contains('\n')) by {
        crate::text::lemma_concat_no_char("# Proxy config for role: "@, c.role@, '\n');
        crate::text::lemma_concat_no_char("GATEWAY_MODE="@, "OPENVPN"@, '\n');
        crate::text::lemma_concat_no_char("CHAIN_STRATEGY="@, strat, '\n');
        crate::text::lemma_concat_no_char("PROXY_COUNT="@, count, '\n');
        crate::text::lemma_concat_no_char("OPENVPN_CONFIG_PATH="@, o.config_path@, '\n');
        crate::text::lemma_concat_no_char("OPENVPN_AUTH_FILE="@, auth_val, '\n');
        crate::text::lemma_concat_no_char("OPENVPN_ROUTE_ALL_TRAFFIC="@, bool_line, '\n');
        assert forall|i: int| 0 <= i < lines.len() implies !(#[trigger] lines[i]).contains(
            '\n',
        ) by {
            if lines[i].contains('\n') {
                let j = choose|j: int| 0 <= j < lines[i].len() && lines[i][j] == '\n';
                assert(false);
            }
        }
    }
    crate::text::lemma_split_of_join(lines, '\n');
    lemma_comment_line(l0);
    lemma_line_kv_of("GATEWAY_MODE"@, "OPENVPN"@);
    assert("GATEWAY_MODE"@ + "="@ + "OPENVPN"@ =~= l1);
    lemma_line_kv_of("CHAIN_STRATEGY"@, strat);
    assert("CHAIN_STRATEGY"@ + "="@ + strat =~= l2);
    lemma_line_kv_of("PROXY_COUNT"@, count);
    assert("PROXY_COUNT"@ + "="@ + count =~= l3);
    lemma_empty_line();
    lemma_comment_line("# First proxy (for compatibility)"@);
    lemma_line_kv_of("ACTIVE_PROTOCOL"@, e);
    assert("ACTIVE_PROTOCOL"@ + "="@ + e =~= "ACTIVE_PROTOCOL="@ + e);
    lemma_line_kv_of("SOCKS5_HOST"@, e);
    assert("SOCKS5_HOST"@ + "="@ + e =~= "SOCKS5_HOST="@ + e);
    lemma_line_kv_of("SOCKS5_PORT"@, e);
    assert("SOCKS5_PORT"@ + "="@ + e =~= "SOCKS5_PORT="@ + e);
    lemma_line_kv_of("SOCKS5_USER"@, e);
    assert("SOCKS5_USER"@ + "="@ + e =~= "SOCKS5_USER="@ + e);
    lemma_line_kv_of("SOCKS5_PASS"@, e);
    assert("SOCKS5_PASS"@ + "="@ + e =~= "SOCKS5_PASS="@ + e);
    lemma_line_kv_of("HTTP_HOST"@, e);
    assert("HTTP_HOST"@ + "="@ + e =~= "HTTP_HOST="@ + e);
    lemma_line_kv_of("HTTP_PORT"@, e);
    assert("HTTP_PORT"@ + "="@ + e =~= "HTTP_PORT="@ + e);
    lemma_line_kv_of("HTTP_USER"@, e);
    assert("HTTP_USER"@ + "="@ + e =~= "HTTP_USER="@ + e);
    lemma_line_kv_of("HTTP_PASS"@, e);
    assert("HTTP_PASS"@ + "="@ + e =~= "HTTP_PASS="@ + e);
    lemma_comment_line("# VPN / other modes"@);
    lemma_line_kv_of("WG_CONFIG_PATH"@, e);
    assert("WG_CONFIG_PATH"@ + "="@ + e =~= "WG_CONFIG_PATH="@ + e);
    lemma_line_kv_of("WG_INTERFACE_NAME"@, e);
    assert("WG_INTERFACE_NAME"@ + "="@ + e =~= "WG_INTERFACE_NAME="@ + e);
    lemma_line_kv_of("WG_ROUTE_ALL_TRAFFIC"@, e);
    assert("WG_ROUTE_ALL_TRAFFIC"@ + "="@ + e =~= "WG_ROUTE_ALL_TRAFFIC="@ + e);
    lemma_line_kv_of("OPENVPN_CONFIG_PATH"@, o.config_path@);
    assert("OPENVPN_CONFIG_PATH"@ + "="@ + o.config_path@ =~= l20);
    lemma_line_kv_of("OPENVPN_AUTH_FILE"@, auth_val);
    assert("OPENVPN_AUTH_FILE"@ + "="@ + auth_val =~= l21);
    lemma_line_kv_of("OPENVPN_ROUTE_ALL_TRAFFIC"@, bool_line);
    assert("OPENVPN_ROUTE_ALL_TRAFFIC"@ + "="@ + bool_line =~= l22);
    reveal_with_fuel(spec_lookup_kv, 26);
    assert(spec_lookup_kv(lines, "GATEWAY_MODE"@) == Some("OPENVPN"@));
    assert(spec_lookup_kv(lines, "OPENVPN_CONFIG_PATH"@) == Some(o.config_path@));
    assert(spec_lookup_kv(lines, "OPENVPN_AUTH_FILE"@) == Some(auth_val));
    assert(spec_lookup_kv(lines, "OPENVPN_ROUTE_ALL_TRAFFIC"@) == Some(bool_line));
    assert("OPENVPN"@ != "WIREGUARD"@);
    assert(spec_parse_mode(lines) == GatewayMode::OpenVpn);
    let rest = o.config_path@.skip(7);
    crate::text::lemma_remove_sub_prefix("/proxy/"@, rest);
    assert("/proxy/"@ + rest =~= o.config_path@);
    match o.auth_file {
        Some(a) => {
            let arest = a@.skip(7);
            crate::text::lemma_remove_sub_prefix("/proxy/"@, arest);
            assert("/proxy/"@ + arest =~= a@);
            assert(arest.len() > 0);
        },
        None => {
            assert(auth_val.len() == 0);
            assert(crate::text::spec_remove_sub(auth_val, "/proxy/"@) =~= e);
        },
    }
    lemma_bool_str_read_back(o.route_all_traffic);
    assert forall|o2: OpenVpnConfig| spec_parsed_ovpn(o2, lines) implies o2.config_path@
        == o.config_path@ && o2.route_all_traffic == o.route_all_traffic && (match (
    o2.auth_file,
    o.auth_file,
    ) {
        (Option::None, Option::None) => true,
        (Option::Some(a2), Option::Some(a1)) => a2@ == a1@,
        _ => false,
    }) by {
        assert(spec_lookup_or_empty(lines, "OPENVPN_CONFIG_PATH"@) == o.config_path@);
        assert(spec_lookup_or_empty(lines, "OPENVPN_AUTH_FILE"@) == auth_val);
        assert(spec_lookup_or_empty(lines, "OPENVPN_ROUTE_ALL_TRAFFIC"@) == bool_line);
    }
}



/// An optional credential or label value as written: absent, or non-empty
/// and writable.
pub open spec fn spec_opt_writable(o: Option<String>) -> bool {
    match o {
        None => true,
        Some(s) => s@.len() > 0 && spec_token_clean(s@),
    }
}

/// A single-hop chain configuration the builder can write and read back:
/// slot number one, and writable field values.
pub open spec fn spec_chain_single_writable(c: ProxyConfig) -> bool {
    &&& c.gateway_mode is ProxyChain
    &&& c.wireguard is None
    &&& c.openvpn is None
    &&& c.hops@.len() == 1
    &&& c.hops@[0].index == 1
    &&& c.hops@[0].host@.len() > 0
    &&& spec_token_clean(c.hops@[0].host@)
    &&& spec_opt_writable(c.hops@[0].username)
    &&& spec_opt_writable(c.hops@[0].password)
    &&& spec_opt_writable(c.hops@[0].label)
    &&& !c.role@.contains('\n')
}

/// What reading the written file back gives: the chain mode, one kept slot,
/// and a hop with the same type, host, port and credentials.
pub open spec fn spec_chain_single_read_back(c: ProxyConfig) -> bool {
    let lines = crate::text::spec_split(spec_proxy_conf(c), '\n');
    let h = c.hops@[0];
    &&& spec_parse_mode(lines) == GatewayMode::ProxyChain
    &&& spec_parse_count(lines) == 1
    &&& spec_kept_slots(lines, 1) == seq![1nat]
    &&& (forall|h2: ProxyHop|
        spec_hop_from_slot(h2, lines, 1) ==> h2.index == 1 && h2.proxy_type == h.proxy_type
            && h2.host@ == h.host@ && h2.port == h.port && spec_opt_field(
            h2.username,
            spec_opt_str(h.username),
        ) && spec_opt_field(h2.password, spec_opt_str(h.password)) && spec_opt_field(
            h2.label,
            spec_opt_str(h.label),
        ))
}

/// The round-trip law for a single-hop proxy chain: the written
/// configuration reads back with the same hop — type, host, port and
/// credentials.
pub proof fn lemma_chain_conf_round_trip_single(c: ProxyConfig)
    requires
        spec_chain_single_writable(c),
    ensures
        spec_chain_single_read_back(c),
{
    match c.hops@[0].proxy_type {
        ProxyType::Socks5 => lemma_chain_round_trip_socks5(c),
        ProxyType::Http => lemma_chain_round_trip_http(c),
    }
}

/// The single-hop chain round trip for a Socks5 hop.
#[verifier::rlimit(100)]
#[verifier::spinoff_prover]
proof fn lemma_chain_round_trip_socks5(c: ProxyConfig)
    requires
        spec_chain_single_writable(c),
        c.hops@[0].proxy_type is Socks5,
    ensures
        spec_chain_single_read_back(c),
{
    let h = c.hops@[0];
    reveal_strlit("# Proxy config for role: ");
    reveal_strlit("GATEWAY_MODE");
    reveal_strlit("GATEWAY_MODE=");
    reveal_strlit("PROXY_CHAIN");
    reveal_strlit("WIREGUARD");
    reveal_strlit("OPENVPN");
    reveal_strlit("CHAIN_STRATEGY");
    reveal_strlit("CHAIN_STRATEGY=");
    reveal_strlit("strict_chain");
    reveal_strlit("dynamic_chain");
    reveal_strlit("random_chain");
    reveal_strlit("PROXY_COUNT");
    reveal_strlit("PROXY_COUNT=");
    reveal_strlit("# Proxy chain configuration");
    reveal_strlit("PROXY_1_TYPE");
    reveal_strlit("PROXY_1_HOST");
    reveal_strlit("PROXY_1_PORT");
    reveal_strlit("PROXY_1_USER");
    reveal_strlit("PROXY_1_PASS");
    reveal_strlit("PROXY_1_LABEL");
    reveal_strlit("PROXY_1_TYPE=");
    reveal_strlit("PROXY_1_HOST=");
    reveal_strlit("PROXY_1_PORT=");
    reveal_strlit("PROXY_1_USER=");
    reveal_strlit("PROXY_1_PASS=");
    reveal_strlit("PROXY_1_LABEL=");
    reveal_strlit("PROXY_");
    reveal_strlit("_TYPE=");
    reveal_strlit("_HOST=");
    reveal_strlit("_PORT=");
    reveal_strlit("_USER=");
    reveal_strlit("_PASS=");
    reveal_strlit("_LABEL=");
    reveal_strlit("_TYPE");
    reveal_strlit("_HOST");
    reveal_strlit("_PORT");
    reveal_strlit("_USER");
    reveal_strlit("_PASS");
    reveal_strlit("_LABEL");
    reveal_strlit("TYPE");
    reveal_strlit("HOST");
    reveal_strlit("PORT");
    reveal_strlit("USER");
    reveal_strlit("PASS");
    reveal_strlit("LABEL");
    reveal_strlit("_");
    reveal_strlit("SOCKS5");
    reveal_strlit("HTTP");
    reveal_strlit("# First proxy (for compatibility)");
    reveal_strlit("ACTIVE_PROTOCOL");
    reveal_strlit("ACTIVE_PROTOCOL=");
    reveal_strlit("SOCKS5_HOST=");
    reveal_strlit("SOCKS5_PORT=");
    reveal_strlit("SOCKS5_USER=");
    reveal_strlit("SOCKS5_PASS=");
    reveal_strlit("HTTP_HOST=");
    reveal_strlit("HTTP_PORT=");
    reveal_strlit("HTTP_USER=");
    reveal_strlit("HTTP_PASS=");
    reveal_strlit("SOCKS5_HOST");
    reveal_strlit("SOCKS5_PORT");
    reveal_strlit("SOCKS5_USER");
    reveal_strlit("SOCKS5_PASS");
    reveal_strlit("HTTP_HOST");
    reveal_strlit("HTTP_PORT");
    reveal_strlit("HTTP_USER");
    reveal_strlit("HTTP_PASS");
    reveal_strlit("# VPN / other modes");
    reveal_strlit("WG_CONFIG_PATH");
    reveal_strlit("WG_CONFIG_PATH=");
    reveal_strlit("WG_INTERFACE_NAME");
    reveal_strlit("WG_INTERFACE_NAME=");
    reveal_strlit("WG_ROUTE_ALL_TRAFFIC");
    reveal_strlit("WG_ROUTE_ALL_TRAFFIC=");
    reveal_strlit("OPENVPN_CONFIG_PATH");
    reveal_strlit("OPENVPN_CONFIG_PATH=");
    reveal_strlit("OPENVPN_AUTH_FILE");
    reveal_strlit("OPENVPN_AUTH_FILE=");
    reveal_strlit("OPENVPN_ROUTE_ALL_TRAFFIC");
    reveal_strlit("OPENVPN_ROUTE_ALL_TRAFFIC=");
    reveal_strlit("=");
    let e = Seq::<char>::empty();
    let strat = spec_chain_strategy_str(c.chain_strategy);
    assert(!strat.contains('\n') && strat.len() > 0 && !crate::text::spec_is_space(strat.last()));
    let one = crate::text::spec_dec(1);
    assert(one =~= seq!['1']);
    crate::text::lemma_dec_round_trip(h.port as nat);
    let port_txt = crate::text::spec_dec(h.port as nat);
    assert(!port_txt.contains('\n') && port_txt.len() > 0 && !crate::text::spec_is_space(
        port_txt.last(),
    )) by {
        assert(crate::text::spec_all_digits(port_txt));
        assert('0' <= port_txt.last() <= '9') by {
            assert(port_txt[port_txt.len() - 1] == port_txt.last());
        }
        if port_txt.contains('\n') {
            let j = choose|j: int| 0 <= j < port_txt.len() && port_txt[j] == '\n';
            assert('0' <= port_txt[j] <= '9');
        }
    }
    let tname = spec_proxy_type_str(h.proxy_type);
    assert(tname == "SOCKS5"@);
    let user_v = spec_opt_str(h.username);
    let pass_v = spec_opt_str(h.password);
    let label_v = spec_opt_str(h.label);
    assert(!h.host@.contains('\n'));
    assert(!user_v.contains('\n') && (user_v.len() > 0 ==> !crate::text::spec_is_space(
        user_v.last(),
    )));
    assert(!pass_v.contains('\n') && (pass_v.len() > 0 ==> !crate::text::spec_is_space(
        pass_v.last(),
    )));
    assert(!label_v.contains('\n') && (label_v.len() > 0 ==> !crate::text::spec_is_space(
        label_v.last(),
    )));
    let lines = spec_conf_lines(c);
    let l0 = "# Proxy config for role: "@ + c.role@;
    assert(c.hops@ =~= seq![h]);
    assert(spec_hops_lines(c.hops@) =~~= spec_hop_lines(h)) by {
        assert(c.hops@.drop_last() =~= Seq::<ProxyHop>::empty());
        assert(c.hops@.last() == h);
        assert(spec_hops_lines(Seq::<ProxyHop>::empty()) =~~= Seq::<Seq<char>>::empty());
        assert(Seq::<Seq<char>>::empty() + spec_hop_lines(h) =~~= spec_hop_lines(h));
    }
    assert("PROXY_"@ + one + "_TYPE="@ =~= "PROXY_1_TYPE="@);
    assert("PROXY_"@ + one + "_HOST="@ =~= "PROXY_1_HOST="@);
    assert("PROXY_"@ + one + "_PORT="@ =~= "PROXY_1_PORT="@);
    assert("PROXY_"@ + one + "_USER="@ =~= "PROXY_1_USER="@);
    assert("PROXY_"@ + one + "_PASS="@ =~= "PROXY_1_PASS="@);
    assert("PROXY_"@ + one + "_LABEL="@ =~= "PROXY_1_LABEL="@);
    assert(lines =~~= seq![
        l0,
        "GATEWAY_MODE="@ + "PROXY_CHAIN"@,
        "CHAIN_STRATEGY="@ + strat,
        "PROXY_COUNT="@ + one,
        e,
        "# Proxy chain configuration"@,
        "PROXY_1_TYPE="@ + tname,
        "PROXY_1_HOST="@ + h.host@,
        "PROXY_1_PORT="@ + port_txt,
        "PROXY_1_USER="@ + user_v,
        "PROXY_1_PASS="@ + pass_v,
        "PROXY_1_LABEL="@ + label_v,
        e,
        "# First proxy (for compatibility)"@,
        "ACTIVE_PROTOCOL="@ + tname,
        "SOCKS5_HOST="@ + h.host@,
        "SOCKS5_PORT="@ + port_txt,
        "SOCKS5_USER="@ + user_v,
        "SOCKS5_PASS="@ + pass_v,
        "HTTP_HOST="@ + e,
        "HTTP_PORT="@ + e,
        "HTTP_USER="@ + e,
        "HTTP_PASS="@ + e,
        e,
        "# VPN / other modes"@,
        "WG_CONFIG_PATH="@ + e,
        "WG_INTERFACE_NAME="@ + e,
        "WG_ROUTE_ALL_TRAFFIC="@ + e,
        "OPENVPN_CONFIG_PATH="@ + e,
        "OPENVPN_AUTH_FILE="@ + e,
        "OPENVPN_ROUTE_ALL_TRAFFIC="@ + e,
    ]) by {
        assert("WG_CONFIG_PATH="@ + e =~= "WG_CONFIG_PATH="@);
        assert("WG_INTERFACE_NAME="@ + e =~= "WG_INTERFACE_NAME="@);
        assert("WG_ROUTE_ALL_TRAFFIC="@ + e =~= "WG_ROUTE_ALL_TRAFFIC="@);
        assert("OPENVPN_CONFIG_PATH="@ + e =~= "OPENVPN_CONFIG_PATH="@);
        assert("OPENVPN_AUTH_FILE="@ + e =~= "OPENVPN_AUTH_FILE="@);
        assert("OPENVPN_ROUTE_ALL_TRAFFIC="@ + e =~= "OPENVPN_ROUTE_ALL_TRAFFIC="@);
    }
    assert(forall|i: int| 0 <= i < lines.len() ==> !(#[trigger] lines[i]).contains('\n')) by {
        crate::text::lemma_concat_no_char("# Proxy config for role: "@, c.role@, '\n');
        crate::text::lemma_concat_no_char("GATEWAY_MODE="@, "PROXY_CHAIN"@, '\n');
        crate::text::lemma_concat_no_char("CHAIN_STRATEGY="@, strat, '\n');
        crate::text::lemma_concat_no_char("PROXY_COUNT="@, one, '\n');
        crate::text::lemma_concat_no_char("PROXY_1_TYPE="@, tname, '\n');
        crate::text::lemma_concat_no_char("PROXY_1_HOST="@, h.host@, '\n');
        crate::text::lemma_concat_no_char("PROXY_1_PORT="@, port_txt, '\n');
        crate::text::lemma_concat_no_char("PROXY_1_USER="@, user_v, '\n');
        crate::text::lemma_concat_no_char("PROXY_1_PASS="@, pass_v, '\n');
        crate::text::lemma_concat_no_char("PROXY_1_LABEL="@, label_v, '\n');
        crate::text::lemma_concat_no_char("ACTIVE_PROTOCOL="@, tname, '\n');
        crate::text::lemma_concat_no_char("SOCKS5_HOST="@, h.host@, '\n');
        crate::text::lemma_concat_no_char("SOCKS5_PORT="@, port_txt, '\n');
        crate::text::lemma_concat_no_char("SOCKS5_USER="@, user_v, '\n');
        crate::text::lemma_concat_no_char("SOCKS5_PASS="@, pass_v, '\n');
        crate::text::lemma_concat_no_char("HTTP_HOST="@, h.host@, '\n');
        crate::text::lemma_concat_no_char("HTTP_PORT="@, port_txt, '\n');
        crate::text::lemma_concat_no_char("HTTP_USER="@, user_v, '\n');
        crate::text::lemma_concat_no_char("HTTP_PASS="@, pass_v, '\n');
        assert forall|i: int| 0 <= i < lines.len() implies !(#[trigger] lines[i]).contains(
            '\n',
        ) by {
            if lines[i].contains('\n') {
                let j = choose|j: int| 0 <= j < lines[i].len() && lines[i][j] == '\n';
                assert(false);
            }
        }
    }
    crate::text::lemma_split_of_join(lines, '\n');
    lemma_comment_line(l0);
    lemma_line_kv_of("GATEWAY_MODE"@, "PROXY_CHAIN"@);
    assert("GATEWAY_MODE"@ + "="@ + "PROXY_CHAIN"@ =~= "GATEWAY_MODE="@ + "PROXY_CHAIN"@);
    lemma_line_kv_of("CHAIN_STRATEGY"@, strat);
    assert("CHAIN_STRATEGY"@ + "="@ + strat =~= "CHAIN_STRATEGY="@ + strat);
    lemma_line_kv_of("PROXY_COUNT"@, one);
    assert("PROXY_COUNT"@ + "="@ + one =~= "PROXY_COUNT="@ + one);
    lemma_empty_line();
    lemma_comment_line("# Proxy chain configuration"@);
    lemma_line_kv_of("PROXY_1_TYPE"@, tname);
    assert("PROXY_1_TYPE"@ + "="@ + tname =~= "PROXY_1_TYPE="@ + tname);
    lemma_line_kv_of("PROXY_1_HOST"@, h.host@);
    assert("PROXY_1_HOST"@ + "="@ + h.host@ =~= "PROXY_1_HOST="@ + h.host@);
    lemma_line_kv_of("PROXY_1_PORT"@, port_txt);
    assert("PROXY_1_PORT"@ + "="@ + port_txt =~= "PROXY_1_PORT="@ + port_txt);
    lemma_line_kv_of("PROXY_1_USER"@, user_v);
    assert("PROXY_1_USER"@ + "="@ + user_v =~= "PROXY_1_USER="@ + user_v);
    lemma_line_kv_of("PROXY_1_PASS"@, pass_v);
    assert("PROXY_1_PASS"@ + "="@ + pass_v =~= "PROXY_1_PASS="@ + pass_v);
    lemma_line_kv_of("PROXY_1_LABEL"@, label_v);
    assert("PROXY_1_LABEL"@ + "="@ + label_v =~= "PROXY_1_LABEL="@ + label_v);
    lemma_comment_line("# First proxy (for compatibility)"@);
    lemma_line_kv_of("ACTIVE_PROTOCOL"@, tname);
    assert("ACTIVE_PROTOCOL"@ + "="@ + tname =~= "ACTIVE_PROTOCOL="@ + tname);
    lemma_line_kv_of("SOCKS5_HOST"@, h.host@);
    assert("SOCKS5_HOST"@ + "="@ + h.host@ =~= "SOCKS5_HOST="@ + h.host@);
    lemma_line_kv_of("SOCKS5_PORT"@, port_txt);
    assert("SOCKS5_PORT"@ + "="@ + port_txt =~= "SOCKS5_PORT="@ + port_txt);
    lemma_line_kv_of("SOCKS5_USER"@, user_v);
    assert("SOCKS5_USER"@ + "="@ + user_v =~= "SOCKS5_USER="@ + user_v);
    lemma_line_kv_of("SOCKS5_PASS"@, pass_v);
    assert("SOCKS5_PASS"@ + "="@ + pass_v =~= "SOCKS5_PASS="@ + pass_v);
    lemma_line_kv_of("HTTP_HOST"@, e);
    assert("HTTP_HOST"@ + "="@ + e =~= "HTTP_HOST="@ + e);
    lemma_line_kv_of("HTTP_PORT"@, e);
    assert("HTTP_PORT"@ + "="@ + e =~= "HTTP_PORT="@ + e);
    lemma_line_kv_of("HTTP_USER"@, e);
    assert("HTTP_USER"@ + "="@ + e =~= "HTTP_USER="@ + e);
    lemma_line_kv_of("HTTP_PASS"@, e);
    assert("HTTP_PASS"@ + "="@ + e =~= "HTTP_PASS="@ + e);
    lemma_comment_line("# VPN / other modes"@);
    lemma_line_kv_of("WG_CONFIG_PATH"@, e);
    assert("WG_CONFIG_PATH"@ + "="@ + e =~= "WG_CONFIG_PATH="@ + e);
    lemma_line_kv_of("WG_INTERFACE_NAME"@, e);
    assert("WG_INTERFACE_NAME"@ + "="@ + e =~= "WG_INTERFACE_NAME="@ + e);
    lemma_line_kv_of("WG_ROUTE_ALL_TRAFFIC"@, e);
    assert("WG_ROUTE_ALL_TRAFFIC"@ + "="@ + e =~= "WG_ROUTE_ALL_TRAFFIC="@ + e);
    lemma_line_kv_of("OPENVPN_CONFIG_PATH"@, e);
    assert("OPENVPN_CONFIG_PATH"@ + "="@ + e =~= "OPENVPN_CONFIG_PATH="@ + e);
    lemma_line_kv_of("OPENVPN_AUTH_FILE"@, e);
    assert("OPENVPN_AUTH_FILE"@ + "="@ + e =~= "OPENVPN_AUTH_FILE="@ + e);
    lemma_line_kv_of("OPENVPN_ROUTE_ALL_TRAFFIC"@, e);
    assert("OPENVPN_ROUTE_ALL_TRAFFIC"@ + "="@ + e =~= "OPENVPN_ROUTE_ALL_TRAFFIC="@ + e);
    // the hop keys share a length; a distinguishing character settles each pair
    assert("PROXY_1_TYPE"@ != "PROXY_1_HOST"@) by {
        assert("PROXY_1_TYPE"@[8] != "PROXY_1_HOST"@[8]);
    }
    assert("PROXY_1_TYPE"@ != "PROXY_1_PORT"@) by {
        assert("PROXY_1_TYPE"@[8] != "PROXY_1_PORT"@[8]);
    }
    assert("PROXY_1_TYPE"@ != "PROXY_1_USER"@) by {
        assert("PROXY_1_TYPE"@[8] != "PROXY_1_USER"@[8]);
    }
    assert("PROXY_1_TYPE"@ != "PROXY_1_PASS"@) by {
        assert("PROXY_1_TYPE"@[8] != "PROXY_1_PASS"@[8]);
    }
    assert("PROXY_1_HOST"@ != "PROXY_1_PORT"@) by {
        assert("PROXY_1_HOST"@[8] != "PROXY_1_PORT"@[8]);
    }
    assert("PROXY_1_HOST"@ != "PROXY_1_USER"@) by {
        assert("PROXY_1_HOST"@[8] != "PROXY_1_USER"@[8]);
    }
    assert("PROXY_1_HOST"@ != "PROXY_1_PASS"@) by {
        assert("PROXY_1_HOST"@[8] != "PROXY_1_PASS"@[8]);
    }
    assert("PROXY_1_PORT"@ != "PROXY_1_USER"@) by {
        assert("PROXY_1_PORT"@[8] != "PROXY_1_USER"@[8]);
    }
    assert("PROXY_1_PORT"@ != "PROXY_1_PASS"@) by {
        assert("PROXY_1_PORT"@[9] != "PROXY_1_PASS"@[9]);
    }
    assert("PROXY_1_USER"@ != "PROXY_1_PASS"@) by {
        assert("PROXY_1_USER"@[8] != "PROXY_1_PASS"@[8]);
    }
    assert("GATEWAY_MODE"@ != "PROXY_1_TYPE"@ && "GATEWAY_MODE"@ != "PROXY_1_HOST"@
        && "GATEWAY_MODE"@ != "PROXY_1_PORT"@ && "GATEWAY_MODE"@ != "PROXY_1_USER"@
        && "GATEWAY_MODE"@ != "PROXY_1_PASS"@) by {
        assert("GATEWAY_MODE"@[0] != "PROXY_1_TYPE"@[0]);
        assert("GATEWAY_MODE"@[0] != "PROXY_1_HOST"@[0]);
        assert("GATEWAY_MODE"@[0] != "PROXY_1_PORT"@[0]);
        assert("GATEWAY_MODE"@[0] != "PROXY_1_USER"@[0]);
        assert("GATEWAY_MODE"@[0] != "PROXY_1_PASS"@[0]);
    }
    assert(spec_lookup_kv(lines, "GATEWAY_MODE"@) == Some("PROXY_CHAIN"@)) by {
        reveal_with_fuel(spec_lookup_kv, 34);
    }
    assert(spec_lookup_kv(lines, "PROXY_COUNT"@) == Some(one)) by {
        reveal_with_fuel(spec_lookup_kv, 34);
    }
    assert(spec_lookup_kv(lines, "PROXY_1_TYPE"@) == Some(tname)) by {
        reveal_with_fuel(spec_lookup_kv, 34);
    }
    assert(spec_lookup_kv(lines, "PROXY_1_HOST"@) == Some(h.host@)) by {
        reveal_with_fuel(spec_lookup_kv, 34);
    }
    assert(spec_lookup_kv(lines, "PROXY_1_PORT"@) == Some(port_txt)) by {
        reveal_with_fuel(spec_lookup_kv, 34);
    }
    assert(spec_lookup_kv(lines, "PROXY_1_USER"@) == Some(user_v)) by {
        reveal_with_fuel(spec_lookup_kv, 34);
    }
    assert(spec_lookup_kv(lines, "PROXY_1_PASS"@) == Some(pass_v)) by {
        reveal_with_fuel(spec_lookup_kv, 34);
    }
    assert(spec_lookup_kv(lines, "PROXY_1_LABEL"@) == Some(label_v)) by {
        reveal_with_fuel(spec_lookup_kv, 34);
    }
    assert("PROXY_CHAIN"@ != "WIREGUARD"@ && "PROXY_CHAIN"@ != "OPENVPN"@);
    assert(spec_parse_mode(lines) == GatewayMode::ProxyChain);
    crate::text::lemma_dec_round_trip(1);
    assert(spec_parse_count(lines) == 1);
    assert(spec_hop_key(1, "TYPE"@) =~= "PROXY_1_TYPE"@);
    assert(spec_hop_key(1, "HOST"@) =~= "PROXY_1_HOST"@);
    assert(spec_hop_key(1, "PORT"@) =~= "PROXY_1_PORT"@);
    assert(spec_hop_key(1, "USER"@) =~= "PROXY_1_USER"@);
    assert(spec_hop_key(1, "PASS"@) =~= "PROXY_1_PASS"@);
    assert(spec_hop_key(1, "LABEL"@) =~= "PROXY_1_LABEL"@);
    assert(spec_hop_field(lines, 1, "HOST"@) == h.host@);
    assert(spec_kept_slots(lines, 0) =~= Seq::<nat>::empty());
    assert(spec_kept_slots(lines, 1) =~= seq![1nat]);
    assert(tname == "HTTP"@ <==> h.proxy_type is Http) by {
        assert("SOCKS5"@.len() != "HTTP"@.len());
    }
    assert forall|h2: ProxyHop| spec_hop_from_slot(h2, lines, 1) implies h2.index == 1
        && h2.proxy_type == h.proxy_type && h2.host@ == h.host@ && h2.port == h.port
        && spec_opt_field(h2.username, spec_opt_str(h.username)) && spec_opt_field(
        h2.password,
        spec_opt_str(h.password),
    ) && spec_opt_field(h2.label, spec_opt_str(h.label)) by {
        assert(spec_hop_field(lines, 1, "TYPE"@) == tname);
        assert(spec_hop_field(lines, 1, "PORT"@) == port_txt);
        assert(spec_hop_field(lines, 1, "USER"@) == user_v);
        assert(spec_hop_field(lines, 1, "PASS"@) == pass_v);
        assert(spec_hop_field(lines, 1, "LABEL"@) == label_v);
        assert(crate::text::spec_dec_val(port_txt) == h.port as nat);
    }
}

/// The single-hop chain round trip for a Http hop.
#[verifier::rlimit(100)]
#[verifier::spinoff_prover]
proof fn lemma_chain_round_trip_http(c: ProxyConfig)
    requires
        spec_chain_single_writable(c),
        c.hops@[0].proxy_type is Http,
    ensures
        spec_chain_single_read_back(c),
{
    let h = c.hops@[0];
    reveal_strlit("# Proxy config for role: ");
    reveal_strlit("GATEWAY_MODE");
    reveal_strlit("GATEWAY_MODE=");
    reveal_strlit("PROXY_CHAIN");
    reveal_strlit("WIREGUARD");
    reveal_strlit("OPENVPN");
    reveal_strlit("CHAIN_STRATEGY");
    reveal_strlit("CHAIN_STRATEGY=");
    reveal_strlit("strict_chain");
    reveal_strlit("dynamic_chain");
    reveal_strlit("random_chain");
    reveal_strlit("PROXY_COUNT");
    reveal_strlit("PROXY_COUNT=");
    reveal_strlit("# Proxy chain configuration");
    reveal_strlit("PROXY_1_TYPE");
    reveal_strlit("PROXY_1_HOST");
    reveal_strlit("PROXY_1_PORT");
    reveal_strlit("PROXY_1_USER");
    reveal_strlit("PROXY_1_PASS");
    reveal_strlit("PROXY_1_LABEL");
    reveal_strlit("PROXY_1_TYPE=");
    reveal_strlit("PROXY_1_HOST=");
    reveal_strlit("PROXY_1_PORT=");
    reveal_strlit("PROXY_1_USER=");
    reveal_strlit("PROXY_1_PASS=");
    reveal_strlit("PROXY_1_LABEL=");
    reveal_strlit("PROXY_");
    reveal_strlit("_TYPE=");
    reveal_strlit("_HOST=");
    reveal_strlit("_PORT=");
    reveal_strlit("_USER=");
    reveal_strlit("_PASS=");
    reveal_strlit("_LABEL=");
    reveal_strlit("_TYPE");
    reveal_strlit("_HOST");
    reveal_strlit("_PORT");
    reveal_strlit("_USER");
    reveal_strlit("_PASS");
    reveal_strlit("_LABEL");
    reveal_strlit("TYPE");
    reveal_strlit("HOST");
    reveal_strlit("PORT");
    reveal_strlit("USER");
    reveal_strlit("PASS");
    reveal_strlit("LABEL");
    reveal_strlit("_");
    reveal_strlit("SOCKS5");
    reveal_strlit("HTTP");
    reveal_strlit("# First proxy (for compatibility)");
    reveal_strlit("ACTIVE_PROTOCOL");
    reveal_strlit("ACTIVE_PROTOCOL=");
    reveal_strlit("SOCKS5_HOST=");
    reveal_strlit("SOCKS5_PORT=");
    reveal_strlit("SOCKS5_USER=");
    reveal_strlit("SOCKS5_PASS=");
    reveal_strlit("HTTP_HOST=");
    reveal_strlit("HTTP_PORT=");
    reveal_strlit("HTTP_USER=");
    reveal_strlit("HTTP_PASS=");
    reveal_strlit("SOCKS5_HOST");
    reveal_strlit("SOCKS5_PORT");
    reveal_strlit("SOCKS5_USER");
    reveal_strlit("SOCKS5_PASS");
    reveal_strlit("HTTP_HOST");
    reveal_strlit("HTTP_PORT");
    reveal_strlit("HTTP_USER");
    reveal_strlit("HTTP_PASS");
    reveal_strlit("# VPN / other modes");
    reveal_strlit("WG_CONFIG_PATH");
    reveal_strlit("WG_CONFIG_PATH=");
    reveal_strlit("WG_INTERFACE_NAME");
    reveal_strlit("WG_INTERFACE_NAME=");
    reveal_strlit("WG_ROUTE_ALL_TRAFFIC");
    reveal_strlit("WG_ROUTE_ALL_TRAFFIC=");
    reveal_strlit("OPENVPN_CONFIG_PATH");
    reveal_strlit("OPENVPN_CONFIG_PATH=");
    reveal_strlit("OPENVPN_AUTH_FILE");
    reveal_strlit("OPENVPN_AUTH_FILE=");
    reveal_strlit("OPENVPN_ROUTE_ALL_TRAFFIC");
    reveal_strlit("OPENVPN_ROUTE_ALL_TRAFFIC=");
    reveal_strlit("=");
    let e = Seq::<char>::empty();
    let strat = spec_chain_strategy_str(c.chain_strategy);
    assert(!strat.contains('\n') && strat.len() > 0 && !crate::text::spec_is_space(strat.last()));
    let one = crate::text::spec_dec(1);
    assert(one =~= seq!['1']);
    crate::text::lemma_dec_round_trip(h.port as nat);
    let port_txt = crate::text::spec_dec(h.port as nat);
    assert(!port_txt.contains('\n') && port_txt.len() > 0 && !crate::text::spec_is_space(
        port_txt.last(),
    )) by {
        assert(crate::text::spec_all_digits(port_txt));
        assert('0' <= port_txt.last() <= '9') by {
            assert(port_txt[port_txt.len() - 1] == port_txt.last());
        }
        if port_txt.contains('\n') {
            let j = choose|j: int| 0 <= j < port_txt.len() && port_txt[j] == '\n';
            assert('0' <= port_txt[j] <= '9');
        }
    }
    let tname = spec_proxy_type_str(h.proxy_type);
    assert(tname == "HTTP"@);
    let user_v = spec_opt_str(h.username);
    let pass_v = spec_opt_str(h.password);
    let label_v = spec_opt_str(h.label);
    assert(!h.host@.contains('\n'));
    assert(!user_v.contains('\n') && (user_v.len() > 0 ==> !crate::text::spec_is_space(
        user_v.last(),
    )));
    assert(!pass_v.contains('\n') && (pass_v.len() > 0 ==> !crate::text::spec_is_space(
        pass_v.last(),
    )));
    assert(!label_v.contains('\n') && (label_v.len() > 0 ==> !crate::text::spec_is_space(
        label_v.last(),
    )));
    let lines = spec_conf_lines(c);
    let l0 = "# Proxy config for role: "@ + c.role@;
    assert(c.hops@ =~= seq![h]);
    assert(spec_hops_lines(c.hops@) =~~= spec_hop_lines(h)) by {
        assert(c.hops@.drop_last() =~= Seq::<ProxyHop>::empty());
        assert(c.hops@.last() == h);
        assert(spec_hops_lines(Seq::<ProxyHop>::empty()) =~~= Seq::<Seq<char>>::empty());
        assert(Seq::<Seq<char>>::empty() + spec_hop_lines(h) =~~= spec_hop_lines(h));
    }
    assert("PROXY_"@ + one + "_TYPE="@ =~= "PROXY_1_TYPE="@);
    assert("PROXY_"@ + one + "_HOST="@ =~= "PROXY_1_HOST="@);
    assert("PROXY_"@ + one + "_PORT="@ =~= "PROXY_1_PORT="@);
    assert("PROXY_"@ + one + "_USER="@ =~= "PROXY_1_USER="@);
    assert("PROXY_"@ + one + "_PASS="@ =~= "PROXY_1_PASS="@);
    assert("PROXY_"@ + one + "_LABEL="@ =~= "PROXY_1_LABEL="@);
    assert(lines =~~= seq![
        l0,
        "GATEWAY_MODE="@ + "PROXY_CHAIN"@,
        "CHAIN_STRATEGY="@ + strat,
        "PROXY_COUNT="@ + one,
        e,
        "# Proxy chain configuration"@,
        "PROXY_1_TYPE="@ + tname,
        "PROXY_1_HOST="@ + h.host@,
        "PROXY_1_PORT="@ + port_txt,
        "PROXY_1_USER="@ + user_v,
        "PROXY_1_PASS="@ + pass_v,
        "PROXY_1_LABEL="@ + label_v,
        e,
        "# First proxy (for compatibility)"@,
        "ACTIVE_PROTOCOL="@ + tname,
        "SOCKS5_HOST="@ + e,
        "SOCKS5_PORT="@ + e,
        "SOCKS5_USER="@ + e,
        "SOCKS5_PASS="@ + e,
        "HTTP_HOST="@ + h.host@,
        "HTTP_PORT="@ + port_txt,
        "HTTP_USER="@ + user_v,
        "HTTP_PASS="@ + pass_v,
        e,
        "# VPN / other modes"@,
        "WG_CONFIG_PATH="@ + e,
        "WG_INTERFACE_NAME="@ + e,
        "WG_ROUTE_ALL_TRAFFIC="@ + e,
        "OPENVPN_CONFIG_PATH="@ + e,
        "OPENVPN_AUTH_FILE="@ + e,
        "OPENVPN_ROUTE_ALL_TRAFFIC="@ + e,
    ]) by {
        assert("WG_CONFIG_PATH="@ + e =~= "WG_CONFIG_PATH="@);
        assert("WG_INTERFACE_NAME="@ + e =~= "WG_INTERFACE_NAME="@);
        assert("WG_ROUTE_ALL_TRAFFIC="@ + e =~= "WG_ROUTE_ALL_TRAFFIC="@);
        assert("OPENVPN_CONFIG_PATH="@ + e =~= "OPENVPN_CONFIG_PATH="@);
        assert("OPENVPN_AUTH_FILE="@ + e =~= "OPENVPN_AUTH_FILE="@);
        assert("OPENVPN_ROUTE_ALL_TRAFFIC="@ + e =~= "OPENVPN_ROUTE_ALL_TRAFFIC="@);
    }
    assert(forall|i: int| 0 <= i < lines.len() ==> !(#[trigger] lines[i]).contains('\n')) by {
        crate::text::lemma_concat_no_char("# Proxy config for role: "@, c.role@, '\n');
        crate::text::lemma_concat_no_char("GATEWAY_MODE="@, "PROXY_CHAIN"@, '\n');
        crate::text::lemma_concat_no_char("CHAIN_STRATEGY="@, strat, '\n');
        crate::text::lemma_concat_no_char("PROXY_COUNT="@, one, '\n');
        crate::text::lemma_concat_no_char("PROXY_1_TYPE="@, tname, '\n');
        crate::text::lemma_concat_no_char("PROXY_1_HOST="@, h.host@, '\n');
        crate::text::lemma_concat_no_char("PROXY_1_PORT="@, port_txt, '\n');
        crate::text::lemma_concat_no_char("PROXY_1_USER="@, user_v, '\n');
        crate::text::lemma_concat_no_char("PROXY_1_PASS="@, pass_v, '\n');
        crate::text::lemma_concat_no_char("PROXY_1_LABEL="@, label_v, '\n');
        crate::text::lemma_concat_no_char("ACTIVE_PROTOCOL="@, tname, '\n');
        crate::text::lemma_concat_no_char("SOCKS5_HOST="@, h.host@, '\n');
        crate::text::lemma_concat_no_char("SOCKS5_PORT="@, port_txt, '\n');
        crate::text::lemma_concat_no_char("SOCKS5_USER="@, user_v, '\n');
        crate::text::lemma_concat_no_char("SOCKS5_PASS="@, pass_v, '\n');
        crate::text::lemma_concat_no_char("HTTP_HOST="@, h.host@, '\n');
        crate::text::lemma_concat_no_char("HTTP_PORT="@, port_txt, '\n');
        crate::text::lemma_concat_no_char("HTTP_USER="@, user_v, '\n');
        crate::text::lemma_concat_no_char("HTTP_PASS="@, pass_v, '\n');
        assert forall|i: int| 0 <= i < lines.len() implies !(#[trigger] lines[i]).contains(
            '\n',
        ) by {
            if lines[i].contains('\n') {
                let j = choose|j: int| 0 <= j < lines[i].len() && lines[i][j] == '\n';
                assert(false);
            }
        }
    }
    crate::text::lemma_split_of_join(lines, '\n');
    lemma_comment_line(l0);
    lemma_line_kv_of("GATEWAY_MODE"@, "PROXY_CHAIN"@);
    assert("GATEWAY_MODE"@ + "="@ + "PROXY_CHAIN"@ =~= "GATEWAY_MODE="@ + "PROXY_CHAIN"@);
    lemma_line_kv_of("CHAIN_STRATEGY"@, strat);
    assert("CHAIN_STRATEGY"@ + "="@ + strat =~= "CHAIN_STRATEGY="@ + strat);
    lemma_line_kv_of("PROXY_COUNT"@, one);
    assert("PROXY_COUNT"@ + "="@ + one =~= "PROXY_COUNT="@ + one);
    lemma_empty_line();
    lemma_comment_line("# Proxy chain configuration"@);
    lemma_line_kv_of("PROXY_1_TYPE"@, tname);
    assert("PROXY_1_TYPE"@ + "="@ + tname =~= "PROXY_1_TYPE="@ + tname);
    lemma_line_kv_of("PROXY_1_HOST"@, h.host@);
    assert("PROXY_1_HOST"@ + "="@ + h.host@ =~= "PROXY_1_HOST="@ + h.host@);
    lemma_line_kv_of("PROXY_1_PORT"@, port_txt);
    assert("PROXY_1_PORT"@ + "="@ + port_txt =~= "PROXY_1_PORT="@ + port_txt);
    lemma_line_kv_of("PROXY_1_USER"@, user_v);
    assert("PROXY_1_USER"@ + "="@ + user_v =~= "PROXY_1_USER="@ + user_v);
    lemma_line_kv_of("PROXY_1_PASS"@, pass_v);
    assert("PROXY_1_PASS"@ + "="@ + pass_v =~= "PROXY_1_PASS="@ + pass_v);
    lemma_line_kv_of("PROXY_1_LABEL"@, label_v);
    assert("PROXY_1_LABEL"@ + "="@ + label_v =~= "PROXY_1_LABEL="@ + label_v);
    lemma_comment_line("# First proxy (for compatibility)"@);
    lemma_line_kv_of("ACTIVE_PROTOCOL"@, tname);
    assert("ACTIVE_PROTOCOL"@ + "="@ + tname =~= "ACTIVE_PROTOCOL="@ + tname);
    lemma_line_kv_of("SOCKS5_HOST"@, e);
    assert("SOCKS5_HOST"@ + "="@ + e =~= "SOCKS5_HOST="@ + e);
    lemma_line_kv_of("SOCKS5_PORT"@, e);
    assert("SOCKS5_PORT"@ + "="@ + e =~= "SOCKS5_PORT="@ + e);
    lemma_line_kv_of("SOCKS5_USER"@, e);
    assert("SOCKS5_USER"@ + "="@ + e =~= "SOCKS5_USER="@ + e);
    lemma_line_kv_of("SOCKS5_PASS"@, e);
    assert("SOCKS5_PASS"@ + "="@ + e =~= "SOCKS5_PASS="@ + e);
    lemma_line_kv_of("HTTP_HOST"@, h.host@);
    assert("HTTP_HOST"@ + "="@ + h.host@ =~= "HTTP_HOST="@ + h.host@);
    lemma_line_kv_of("HTTP_PORT"@, port_txt);
    assert("HTTP_PORT"@ + "="@ + port_txt =~= "HTTP_PORT="@ + port_txt);
    lemma_line_kv_of("HTTP_USER"@, user_v);
    assert("HTTP_USER"@ + "="@ + user_v =~= "HTTP_USER="@ + user_v);
    lemma_line_kv_of("HTTP_PASS"@, pass_v);
    assert("HTTP_PASS"@ + "="@ + pass_v =~= "HTTP_PASS="@ + pass_v);
    lemma_comment_line("# VPN / other modes"@);
    lemma_line_kv_of("WG_CONFIG_PATH"@, e);
    assert("WG_CONFIG_PATH"@ + "="@ + e =~= "WG_CONFIG_PATH="@ + e);
    lemma_line_kv_of("WG_INTERFACE_NAME"@, e);
    assert("WG_INTERFACE_NAME"@ + "="@ + e =~= "WG_INTERFACE_NAME="@ + e);
    lemma_line_kv_of("WG_ROUTE_ALL_TRAFFIC"@, e);
    assert("WG_ROUTE_ALL_TRAFFIC"@ + "="@ + e =~= "WG_ROUTE_ALL_TRAFFIC="@ + e);
    lemma_line_kv_of("OPENVPN_CONFIG_PATH"@, e);
    assert("OPENVPN_CONFIG_PATH"@ + "="@ + e =~= "OPENVPN_CONFIG_PATH="@ + e);
    lemma_line_kv_of("OPENVPN_AUTH_FILE"@, e);
    assert("OPENVPN_AUTH_FILE"@ + "="@ + e =~= "OPENVPN_AUTH_FILE="@ + e);
    lemma_line_kv_of("OPENVPN_ROUTE_ALL_TRAFFIC"@, e);
    assert("OPENVPN_ROUTE_ALL_TRAFFIC"@ + "="@ + e =~= "OPENVPN_ROUTE_ALL_TRAFFIC="@ + e);
    // the hop keys share a length; a distinguishing character settles each pair
    assert("PROXY_1_TYPE"@ != "PROXY_1_HOST"@) by {
        assert("PROXY_1_TYPE"@[8] != "PROXY_1_HOST"@[8]);
    }
    assert("PROXY_1_TYPE"@ != "PROXY_1_PORT"@) by {
        assert("PROXY_1_TYPE"@[8] != "PROXY_1_PORT"@[8]);
    }
    assert("PROXY_1_TYPE"@ != "PROXY_1_USER"@) by {
        assert("PROXY_1_TYPE"@[8] != "PROXY_1_USER"@[8]);
    }
    assert("PROXY_1_TYPE"@ != "PROXY_1_PASS"@) by {
        assert("PROXY_1_TYPE"@[8] != "PROXY_1_PASS"@[8]);
    }
    assert("PROXY_1_HOST"@ != "PROXY_1_PORT"@) by {
        assert("PROXY_1_HOST"@[8] != "PROXY_1_PORT"@[8]);
    }
    assert("PROXY_1_HOST"@ != "PROXY_1_USER"@) by {
        assert("PROXY_1_HOST"@[8] != "PROXY_1_USER"@[8]);
    }
    assert("PROXY_1_HOST"@ != "PROXY_1_PASS"@) by {
        assert("PROXY_1_HOST"@[8] != "PROXY_1_PASS"@[8]);
    }
    assert("PROXY_1_PORT"@ != "PROXY_1_USER"@) by {
        assert("PROXY_1_PORT"@[8] != "PROXY_1_USER"@[8]);
    }
    assert("PROXY_1_PORT"@ != "PROXY_1_PASS"@) by {
        assert("PROXY_1_PORT"@[9] != "PROXY_1_PASS"@[9]);
    }
    assert("PROXY_1_USER"@ != "PROXY_1_PASS"@) by {
        assert("PROXY_1_USER"@[8] != "PROXY_1_PASS"@[8]);
    }
    assert("GATEWAY_MODE"@ != "PROXY_1_TYPE"@ && "GATEWAY_MODE"@ != "PROXY_1_HOST"@
        && "GATEWAY_MODE"@ != "PROXY_1_PORT"@ && "GATEWAY_MODE"@ != "PROXY_1_USER"@
        && "GATEWAY_MODE"@ != "PROXY_1_PASS"@) by {
        assert("GATEWAY_MODE"@[0] != "PROXY_1_TYPE"@[0]);
        assert("GATEWAY_MODE"@[0] != "PROXY_1_HOST"@[0]);
        assert("GATEWAY_MODE"@[0] != "PROXY_1_PORT"@[0]);
        assert("GATEWAY_MODE"@[0] != "PROXY_1_USER"@[0]);
        assert("GATEWAY_MODE"@[0] != "PROXY_1_PASS"@[0]);
    }
    assert(spec_lookup_kv(lines, "GATEWAY_MODE"@) == Some("PROXY_CHAIN"@)) by {
        reveal_with_fuel(spec_lookup_kv, 34);
    }
    assert(spec_lookup_kv(lines, "PROXY_COUNT"@) == Some(one)) by {
        reveal_with_fuel(spec_lookup_kv, 34);
    }
    assert(spec_lookup_kv(lines, "PROXY_1_TYPE"@) == Some(tname)) by {
        reveal_with_fuel(spec_lookup_kv, 34);
    }
    assert(spec_lookup_kv(lines, "PROXY_1_HOST"@) == Some(h.host@)) by {
        reveal_with_fuel(spec_lookup_kv, 34);
    }
    assert(spec_lookup_kv(lines, "PROXY_1_PORT"@) == Some(port_txt)) by {
        reveal_with_fuel(spec_lookup_kv, 34);
    }
    assert(spec_lookup_kv(lines, "PROXY_1_USER"@) == Some(user_v)) by {
        reveal_with_fuel(spec_lookup_kv, 34);
    }
    assert(spec_lookup_kv(lines, "PROXY_1_PASS"@) == Some(pass_v)) by {
        reveal_with_fuel(spec_lookup_kv, 34);
    }
    assert(spec_lookup_kv(lines, "PROXY_1_LABEL"@) == Some(label_v)) by {
        reveal_with_fuel(spec_lookup_kv, 34);
    }
    assert("PROXY_CHAIN"@ != "WIREGUARD"@ && "PROXY_CHAIN"@ != "OPENVPN"@);
    assert(spec_parse_mode(lines) == GatewayMode::ProxyChain);
    crate::text::lemma_dec_round_trip(1);
    assert(spec_parse_count(lines) == 1);
    assert(spec_hop_key(1, "TYPE"@) =~= "PROXY_1_TYPE"@);
    assert(spec_hop_key(1, "HOST"@) =~= "PROXY_1_HOST"@);
    assert(spec_hop_key(1, "PORT"@) =~= "PROXY_1_PORT"@);
    assert(spec_hop_key(1, "USER"@) =~= "PROXY_1_USER"@);
    assert(spec_hop_key(1, "PASS"@) =~= "PROXY_1_PASS"@);
    assert(spec_hop_key(1, "LABEL"@) =~= "PROXY_1_LABEL"@);
    assert(spec_hop_field(lines, 1, "HOST"@) == h.host@);
    assert(spec_kept_slots(lines, 0) =~= Seq::<nat>::empty());
    assert(spec_kept_slots(lines, 1) =~= seq![1nat]);
    assert(tname == "HTTP"@ <==> h.proxy_type is Http) by {
        assert("SOCKS5"@.len() != "HTTP"@.len());
    }
    assert forall|h2: ProxyHop| spec_hop_from_slot(h2, lines, 1) implies h2.index == 1
        && h2.proxy_type == h.proxy_type && h2.host@ == h.host@ && h2.port == h.port
        && spec_opt_field(h2.username, spec_opt_str(h.username)) && spec_opt_field(
        h2.password,
        spec_opt_str(h.password),
    ) && spec_opt_field(h2.label, spec_opt_str(h.label)) by {
        assert(spec_hop_field(lines, 1, "TYPE"@) == tname);
        assert(spec_hop_field(lines, 1, "PORT"@) == port_txt);
        assert(spec_hop_field(lines, 1, "USER"@) == user_v);
        assert(spec_hop_field(lines, 1, "PASS"@) == pass_v);
        assert(spec_hop_field(lines, 1, "LABEL"@) == label_v);
        assert(crate::text::spec_dec_val(port_txt) == h.port as nat);
    }
}

} // verus!

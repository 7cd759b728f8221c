//! Provisioning orchestrator: the multi-step create-role workflow as an
//! explicit state machine with a compensating-rollback ledger.
//!
//! The machine never performs outside work itself. `next_action` says what
//! the driver must do next — run a planned command, probe a path, write a
//! file, save the metadata record, or execute a best-effort teardown — and
//! `advance` feeds the outcome back. The ledger records exactly the
//! resources this run newly created; on any fatal step the machine emits
//! compensations for those, in reverse creation order, and nothing else.
use vstd::prelude::*;
use vstd::string::*;

use crate::adapter::{
    network_xml, spec_file_name, spec_gateway_args, spec_overlay_create_args, spec_parent_dir,
    file_name_of, LibvirtAdapter, TeardownAction,
};
use crate::command::{spec_needs_privilege, CmdRequest, CommandOutput, Tool};
use crate::config::{GlobalConfig, RoleMeta, Template, TemplateRegistry};
use crate::error::Error;
use crate::model::{
    spec_role_name_ok, normalize_role_name, validate_role_name, GatewayMode, ProxyConfig, ProxyHop,
};
use crate::proxy_config::{spec_proxy_conf, ProxyConfigBuilder};
use crate::text::{concat2, concat3};

verus! {

/// What the run has newly created so far. An entry is present only if this
/// run created the resource; pre-existing resources are never recorded, so
/// rollback never destroys state it did not create.
#[derive(Debug, Clone, PartialEq)]
pub struct Ledger {
    pub network: Option<String>,
    pub role_dir: Option<String>,
    pub overlay: Option<String>,
    pub vm: Option<String>,
}

impl Ledger {
    pub fn empty() -> (r: Self)
        ensures
            r.network is None,
            r.role_dir is None,
            r.overlay is None,
            r.vm is None,
    {
        Self { network: None, role_dir: None, overlay: None, vm: None }
    }
}

/// The place of a teardown step in the reverse-creation order: the VM
/// first, then its overlay, then the network, then the role directory.
pub open spec fn spec_teardown_rank(a: TeardownAction) -> int {
    match a {
        TeardownAction::DestroyVm(_) => 0,
        TeardownAction::UndefineVm(_) => 0,
        TeardownAction::DeleteOverlay(_) => 1,
        TeardownAction::DestroyNetwork(_) => 2,
        TeardownAction::RemoveDirIfSparse(_, _) => 3,
        TeardownAction::RemoveDirAll(_) => 4,
        TeardownAction::RemoveFile(_) => 4,
    }
}

/// The compensations a ledger owes: every step is drawn from a ledger
/// entry, every ledger entry is compensated (the VM both force-stopped and
/// undefined, the directory removed only when sparse), and the steps stand
/// in reverse creation order.
pub open spec fn spec_rollback_plan(acts: Seq<TeardownAction>, ledger: Ledger) -> bool {
    &&& (forall|i: int|
        0 <= i < acts.len() ==> match #[trigger] acts[i] {
            TeardownAction::DestroyVm(n) => ledger.vm matches Some(v) && n@ == v@,
            TeardownAction::UndefineVm(n) => ledger.vm matches Some(v) && n@ == v@,
            TeardownAction::DeleteOverlay(p) => ledger.overlay matches Some(o) && p@ == o@,
            TeardownAction::DestroyNetwork(n) => ledger.network matches Some(m) && n@ == m@,
            TeardownAction::RemoveDirIfSparse(d, max) => ledger.role_dir matches Some(rd) && d@
                == rd@ && max == 3,
            _ => false,
        })
    &&& (ledger.vm matches Some(v) ==> exists|i: int|
        0 <= i < acts.len() && (#[trigger] acts[i] matches TeardownAction::DestroyVm(n) && n@
            == v@))
    &&& (ledger.vm matches Some(v) ==> exists|i: int|
        0 <= i < acts.len() && (#[trigger] acts[i] matches TeardownAction::UndefineVm(n) && n@
            == v@))
    &&& (ledger.overlay matches Some(o) ==> exists|i: int|
        0 <= i < acts.len() && (#[trigger] acts[i] matches TeardownAction::DeleteOverlay(p) && p@
            == o@))
    &&& (ledger.network matches Some(m) ==> exists|i: int|
        0 <= i < acts.len() && (#[trigger] acts[i] matches TeardownAction::DestroyNetwork(n) && n@
            == m@))
    &&& (ledger.role_dir matches Some(rd) ==> exists|i: int|
        0 <= i < acts.len() && (#[trigger] acts[i] matches TeardownAction::RemoveDirIfSparse(
            d,
            max,
        ) && d@ == rd@ && max == 3))
    &&& (forall|i: int, j: int|
        0 <= i < j < acts.len() ==> spec_teardown_rank(#[trigger] acts[i]) <= spec_teardown_rank(
            #[trigger] acts[j],
        ))
}

/// The compensations for a ledger, in reverse creation order: the VM, then
/// its overlay, then the network, then the role directory (the directory
/// only when it still holds at most the few files this run wrote).
pub fn rollback_actions(ledger: &Ledger) -> (r: Vec<TeardownAction>)
    ensures
        spec_rollback_plan(r@, *ledger),
{
    let mut acts: Vec<TeardownAction> = Vec::new();
    match &ledger.vm {
        Some(v) => {
            acts.push(TeardownAction::DestroyVm(v.clone()));
            acts.push(TeardownAction::UndefineVm(v.clone()));
        },
        None => {},
    }
    match &ledger.overlay {
        Some(o) => {
            acts.push(TeardownAction::DeleteOverlay(o.clone()));
        },
        None => {},
    }
    match &ledger.network {
        Some(n) => {
            acts.push(TeardownAction::DestroyNetwork(n.clone()));
        },
        None => {},
    }
    match &ledger.role_dir {
        Some(d) => {
            acts.push(TeardownAction::RemoveDirIfSparse(d.clone(), 3));
        },
        None => {},
    }
    proof {
        let vm_n: int = if ledger.vm is Some {
            2
        } else {
            0
        };
        let ov_n: int = if ledger.overlay is Some {
            1
        } else {
            0
        };
        let net_n: int = if ledger.network is Some {
            1
        } else {
            0
        };
        if ledger.vm is Some {
            assert(acts@[0] is DestroyVm);
            assert(acts@[1] is UndefineVm);
        }
        if ledger.overlay is Some {
            assert(acts@[vm_n] is DeleteOverlay);
        }
        if ledger.network is Some {
            assert(acts@[vm_n + ov_n] is DestroyNetwork);
        }
        if ledger.role_dir is Some {
            assert(acts@[vm_n + ov_n + net_n] is RemoveDirIfSparse);
        }
        let dir_n: int = if ledger.role_dir is Some {
            1
        } else {
            0
        };
        assert(acts@.len() == vm_n + ov_n + net_n + dir_n);
        assert forall|i: int| 0 <= i < acts@.len() implies spec_teardown_rank(#[trigger] acts@[i])
            == (if i < vm_n {
            0int
        } else if i < vm_n + ov_n {
            1int
        } else if i < vm_n + ov_n + net_n {
            2int
        } else {
            3int
        }) by {
            if i < vm_n {
                assert(acts@[0] is DestroyVm && acts@[1] is UndefineVm);
            }
        }
    }
    acts
}

/// The caller's request: role parameters and the chosen gateway mode, as
/// entered.
#[derive(Debug, Clone, PartialEq)]
pub struct RoleRequest {
    /// The role name as entered; it is normalized and validated first.
    pub role_name: String,
    pub gw_template_id: Option<String>,
    pub app_template_id: Option<String>,
    pub disp_template_id: Option<String>,
    pub gateway_mode: GatewayMode,
    /// Proxy-chain hops, indices already minted 1-based.
    pub hops: Vec<ProxyHop>,
    /// WireGuard: the selected configuration file (a path to copy in, or a
    /// bare name already in place), interface and routing flag.
    pub wg_filename: String,
    pub wg_interface: String,
    pub wg_route_all: bool,
    /// OpenVPN: configuration file, optional credentials file, routing flag.
    pub ovpn_filename: String,
    pub ovpn_auth: String,
    pub ovpn_route_all: bool,
}

/// What the driver must do next.
#[derive(Debug, Clone, PartialEq)]
pub enum Action {
    /// Run the planned command and report its captured output.
    Run(CmdRequest),
    /// Report whether this directory exists.
    ProbeDir(String),
    /// Report whether this path exists, whether it is a regular file, and
    /// any error from reading its metadata.
    ProbePath(String),
    /// Report the overlay preconditions: the template file's existence, the
    /// overlay path's existence, and the overlay's parent directory's
    /// existence.
    ProbeOverlay { template_path: String, overlay_path: String },
    /// Create the directory and every missing parent.
    MakeDir(String),
    /// Copy one file, verbatim.
    CopyFile { from: String, to: String },
    /// Write this content to this path.
    WriteFile { path: String, content: String },
    /// Write this content to this path and mark it executable.
    WriteExecutable { path: String, content: String },
    /// Persist the role metadata record.
    StoreMeta(RoleMeta),
    /// Perform these best-effort teardown steps, in order.
    Teardown(Vec<TeardownAction>),
}

/// The driver's report on a finished action.
#[derive(Debug, Clone, PartialEq)]
pub enum Event {
    Cmd(CommandOutput),
    DirStatus { dir_exists: bool },
    PathStatus { path_exists: bool, path_is_file: bool, read_error: Option<String> },
    OverlayStatus { template_exists: bool, overlay_exists: bool, parent_exists: bool },
    /// A directory creation, file write, copy, metadata store or teardown
    /// finished; `ok` is its success, `message` its failure text.
    OpDone { ok: bool, message: String },
}

#[derive(Debug, Clone, Copy, PartialEq, Eq, Structural)]
pub enum Phase {
    ProbeRoleDir,
    ProbeTemplateFile,
    ProbeLanNet,
    NetProbe,
    WriteNetXml,
    NetDefine,
    NetAutostart,
    NetStart,
    NetUndoAutostart,
    NetUndoDestroy,
    NetUndoUndefine,
    MakeRoleDir,
    ProbeWgSource,
    CopyWgFile,
    ProbeOvpnSource,
    CopyOvpnFile,
    ProbeOvpnAuth,
    CopyOvpnAuth,
    WriteConf,
    WriteScript,
    ProbeOverlayPre,
    MkdirOverlayParent,
    CreateOverlay,
    ChmodOverlay,
    ProbeGwVm,
    CreateGwVm,
    StoreMeta,
    RollingBack,
    Done,
    Failed,
}

/// The provisioning run.
#[derive(Debug, Clone, PartialEq)]
pub struct Orchestrator {
    pub adapter: LibvirtAdapter,
    // fixed parameters
    pub role: String,
    pub role_dir: String,
    pub role_net: String,
    pub gw_name: String,
    pub lan_net: String,
    pub images_dir: String,
    pub cfg_root: String,
    pub net_xml_path: String,
    pub overlay_path: String,
    pub template_path: String,
    pub os_variant: String,
    pub ram_mb: u32,
    // gateway-mode inputs; the file names are rewritten to their base names
    // once the sources are copied into the role directory
    pub gateway_mode: GatewayMode,
    pub hops: Vec<ProxyHop>,
    pub wg_filename: String,
    pub wg_interface: String,
    pub wg_route_all: bool,
    pub ovpn_filename: String,
    pub ovpn_auth: String,
    pub ovpn_route_all: bool,
    /// The configuration to write, built once the file names are final.
    pub conf: Option<ProxyConfig>,
    pub meta: RoleMeta,
    // probed overlay preconditions
    pub template_exists: bool,
    pub overlay_exists: bool,
    pub parent_exists: bool,
    // dynamic state
    pub phase: Phase,
    pub ledger: Ledger,
    pub error: Option<Error>,
    /// A non-fatal complaint (a credentials file that could not be copied,
    /// a metadata record that could not be stored).
    pub warning: Option<String>,
}

impl Orchestrator {
    pub open spec fn wf(self) -> bool {
        &&& (self.phase is Failed || self.phase is RollingBack || self.phase
            is NetUndoAutostart || self.phase is NetUndoDestroy || self.phase is NetUndoUndefine
            ==> self.error is Some)
        &&& (!(self.phase is Failed) && !(self.phase is RollingBack) && !(self.phase
            is NetUndoAutostart) && !(self.phase is NetUndoDestroy) && !(self.phase
            is NetUndoUndefine) ==> self.error is None)
        &&& (self.phase is Done || self.phase is Failed ==> self.ledger.network is None
            && self.ledger.role_dir is None && self.ledger.overlay is None && self.ledger.vm
            is None)
        // nothing is ever recorded before its creating step has succeeded
        &&& (spec_phase_before_dir(self.phase) ==> self.ledger.role_dir is None
            && self.ledger.overlay is None && self.ledger.vm is None)
        &&& (spec_phase_before_net_done(self.phase) ==> self.ledger.network is None)
        &&& (spec_phase_before_overlay(self.phase) ==> self.ledger.overlay is None
            && self.ledger.vm is None)
        &&& (spec_phase_before_vm(self.phase) ==> self.ledger.vm is None)
        &&& (self.phase is WriteConf || self.phase is WriteScript ==> self.conf is Some)
        &&& (self.phase is MkdirOverlayParent ==> crate::adapter::spec_parent_dir(
            self.overlay_path@,
        ) is Some)
    }
}

/// Phases at or before the role-directory creation.
pub open spec fn spec_phase_before_dir(p: Phase) -> bool {
    ||| p is ProbeRoleDir
    ||| p is ProbeTemplateFile
    ||| p is ProbeLanNet
    ||| p is NetProbe
    ||| p is WriteNetXml
    ||| p is NetDefine
    ||| p is NetAutostart
    ||| p is NetStart
    ||| p is NetUndoAutostart
    ||| p is NetUndoDestroy
    ||| p is NetUndoUndefine
    ||| p is MakeRoleDir
}

/// Phases strictly before the network could have been created.
pub open spec fn spec_phase_before_net_done(p: Phase) -> bool {
    ||| p is ProbeRoleDir
    ||| p is ProbeTemplateFile
    ||| p is ProbeLanNet
    ||| p is NetProbe
    ||| p is WriteNetXml
    ||| p is NetDefine
    ||| p is NetAutostart
    ||| p is NetStart
}

/// Phases strictly before the overlay disk could have been created.
pub open spec fn spec_phase_before_overlay(p: Phase) -> bool {
    ||| spec_phase_before_dir(p)
    ||| p is ProbeWgSource
    ||| p is CopyWgFile
    ||| p is ProbeOvpnSource
    ||| p is CopyOvpnFile
    ||| p is ProbeOvpnAuth
    ||| p is CopyOvpnAuth
    ||| p is WriteConf
    ||| p is WriteScript
    ||| p is ProbeOverlayPre
    ||| p is MkdirOverlayParent
    ||| p is CreateOverlay
}

/// Phases strictly before the gateway VM could have been created.
pub open spec fn spec_phase_before_vm(p: Phase) -> bool {
    ||| spec_phase_before_overlay(p)
    ||| p is ChmodOverlay
    ||| p is ProbeGwVm
    ||| p is CreateGwVm
}

/// The fixed parameters and inputs never change after `start`.
pub open spec fn spec_same_params(a: Orchestrator, b: Orchestrator) -> bool {
    &&& a.adapter == b.adapter
    &&& a.role == b.role
    &&& a.role_dir == b.role_dir
    &&& a.role_net == b.role_net
    &&& a.gw_name == b.gw_name
    &&& a.lan_net == b.lan_net
    &&& a.images_dir == b.images_dir
    &&& a.cfg_root == b.cfg_root
    &&& a.net_xml_path == b.net_xml_path
    &&& a.overlay_path == b.overlay_path
    &&& a.template_path == b.template_path
    &&& a.os_variant == b.os_variant
    &&& a.ram_mb == b.ram_mb
    &&& a.gateway_mode == b.gateway_mode
    &&& a.hops == b.hops
    &&& a.wg_interface == b.wg_interface
    &&& a.wg_route_all == b.wg_route_all
    &&& a.ovpn_route_all == b.ovpn_route_all
    &&& a.meta == b.meta
}

fn clone_role_meta(m: &RoleMeta) -> (r: RoleMeta)
    ensures
        r == *m,
{
    RoleMeta {
        version: m.version,
        role_name: m.role_name.clone(),
        gw_template_id: clone_opt(&m.gw_template_id),
        app_template_id: clone_opt(&m.app_template_id),
        disp_template_id: clone_opt(&m.disp_template_id),
        lan_net: clone_opt(&m.lan_net),
        gw_ram_mb: m.gw_ram_mb,
        app_ram_mb: m.app_ram_mb,
        gw_vcpus: m.gw_vcpus,
        gateway_mode: m.gateway_mode,
        app_vm_count: m.app_vm_count,
    }
}

fn clone_opt(o: &Option<String>) -> (r: Option<String>)
    ensures
        r == *o,
{
    match o {
        Some(s) => Some(s.clone()),
        None => None,
    }
}

fn clone_hops(hops: &Vec<ProxyHop>) -> (r: Vec<ProxyHop>)
    ensures
        r@ == hops@,
{
    let mut out: Vec<ProxyHop> = Vec::new();
    let mut i: usize = 0;
    while i < hops.len()
        invariant
            i <= hops@.len(),
            out@ == hops@.take(i as int),
        decreases hops@.len() - i,
    {
        let h = &hops[i];
        out.push(
            ProxyHop {
                index: h.index,
                proxy_type: h.proxy_type,
                host: h.host.clone(),
                port: h.port,
                username: clone_opt(&h.username),
                password: clone_opt(&h.password),
                label: clone_opt(&h.label),
            },
        );
        proof {
            assert(out@ =~= hops@.take(i + 1));
        }
        i = i + 1;
    }
    proof {
        assert(hops@.take(hops@.len() as int) =~= hops@);
    }
    out
}

/// The gateway configuration as it will be written: for the chain mode the
/// hops as given; for a VPN mode the in-guest `/proxy/` path of the copied
/// file, the interface default, and the routing flag.
fn build_gateway_conf(
    role: String,
    mode: GatewayMode,
    hops: &Vec<ProxyHop>,
    wg_filename: &str,
    wg_interface: &str,
    wg_route_all: bool,
    ovpn_filename: &str,
    ovpn_auth: &str,
    ovpn_route_all: bool,
) -> (c: ProxyConfig)
    ensures
        c.role == role,
        c.gateway_mode == mode,
        c.chain_strategy == crate::model::ChainStrategy::StrictChain,
        mode is ProxyChain ==> c.hops@ == hops@ && c.wireguard is None && c.openvpn is None,
        mode is WireGuard ==> {
            &&& c.hops@.len() == 0
            &&& c.openvpn is None
            &&& (c.wireguard matches Some(w) && w.config_path@ == "/proxy/"@ + wg_filename@
                && w.interface_name@ == (if wg_interface@.len() == 0 {
                "wg0"@
            } else {
                wg_interface@
            }) && w.route_all_traffic == wg_route_all)
        },
        mode is OpenVpn ==> {
            &&& c.hops@.len() == 0
            &&& c.wireguard is None
            &&& (c.openvpn matches Some(o) && o.config_path@ == "/proxy/"@ + ovpn_filename@ && (
            match o.auth_file {
                None => ovpn_auth@.len() == 0,
                Some(a) => ovpn_auth@.len() > 0 && a@ == "/proxy/"@ + ovpn_auth@,
            }) && o.route_all_traffic == ovpn_route_all)
        },
{
    let mut c = ProxyConfig::new(role, mode);
    match mode {
        GatewayMode::ProxyChain => {
            c.hops = clone_hops(hops);
        },
        GatewayMode::WireGuard => {
            c.wireguard = Some(
                crate::model::WireGuardConfig {
                    config_path: concat2("/proxy/", wg_filename),
                    interface_name: if wg_interface.unicode_len() == 0 {
                        String::from_str("wg0")
                    } else {
                        String::from_str(wg_interface)
                    },
                    route_all_traffic: wg_route_all,
                },
            );
        },
        GatewayMode::OpenVpn => {
            c.openvpn = Some(
                crate::model::OpenVpnConfig {
                    config_path: concat2("/proxy/", ovpn_filename),
                    auth_file: if ovpn_auth.unicode_len() == 0 {
                        None
                    } else {
                        Some(concat2("/proxy/", ovpn_auth))
                    },
                    route_all_traffic: ovpn_route_all,
                },
            );
        },
    }
    c
}

impl Orchestrator {
    /// Validates the request and prepares the run.
    ///
    /// The role name is normalized and must be acceptable, the global
    /// configuration must satisfy its invariants, and the gateway template
    /// must be selected and registered — each failure is fatal here, before
    /// any resource is touched: the machine starts in its terminal `Failed`
    /// phase, with an empty ledger, and never issues an action.
    pub fn start(
        adapter: LibvirtAdapter,
        config: &GlobalConfig,
        registry: &TemplateRegistry,
        request: RoleRequest,
        net_xml_dir: &str,
    ) -> (r: Orchestrator)
        ensures
            r.wf(),
            r.ledger.network is None && r.ledger.role_dir is None && r.ledger.overlay is None
                && r.ledger.vm is None,
            r.role@ == crate::model::spec_remove_spaces(
                crate::model::lowercase_of(request.role_name@),
            ),
            !spec_role_name_ok(r.role@) ==> r.phase is Failed && (r.error matches Some(e) && e
                is Validation),
            r.phase is Failed || r.phase is ProbeRoleDir,
            // a valid request always begins a run
            spec_role_name_ok(r.role@) && crate::config::spec_global_config_ok(*config) && (
            request.gw_template_id matches Some(id) && crate::config::spec_has_template(
                registry.templates@,
                id@,
            )) ==> r.phase is ProbeRoleDir,
            r.phase is ProbeRoleDir ==> {
                &&& spec_role_name_ok(r.role@)
                &&& crate::config::spec_global_config_ok(*config)
                &&& r.role_dir@ == config.cfg.root@ + "/"@ + r.role@
                &&& r.role_net@ == r.role@ + "-inet"@
                &&& r.gw_name@ == r.role@ + "-gw"@
                &&& r.lan_net == config.libvirt.lan_net
                &&& r.images_dir == config.libvirt.images_dir
                &&& r.cfg_root == config.cfg.root
                &&& r.overlay_path@ == config.libvirt.images_dir@ + "/"@ + r.role@ + "-gw.qcow2"@
                &&& r.net_xml_path@ == net_xml_dir@ + "/net-"@ + r.role_net@ + ".xml"@
                &&& (exists|i: int|
                    0 <= i < registry.templates@.len() && (request.gw_template_id matches Some(id)
                        && (#[trigger] registry.templates@[i]).id@ == id@)
                        && r.template_path == registry.templates@[i].path && r.os_variant
                        == registry.templates@[i].os_variant && r.ram_mb == (if registry.templates@[i].default_ram_mb
                        >= config.defaults.gateway_ram_mb {
                        registry.templates@[i].default_ram_mb
                    } else {
                        config.defaults.gateway_ram_mb
                    }))
                &&& r.gateway_mode == request.gateway_mode
                &&& r.hops == request.hops
                &&& r.wg_filename == request.wg_filename
                &&& r.wg_interface == request.wg_interface
                &&& r.wg_route_all == request.wg_route_all
                &&& r.ovpn_filename == request.ovpn_filename
                &&& r.ovpn_auth == request.ovpn_auth
                &&& r.ovpn_route_all == request.ovpn_route_all
                &&& r.meta.role_name == r.role
                &&& r.meta.gw_template_id == request.gw_template_id
                &&& r.meta.app_template_id == request.app_template_id
                &&& r.meta.disp_template_id == request.disp_template_id
                &&& r.meta.gateway_mode == request.gateway_mode
                &&& r.meta.app_vm_count == 0
                &&& r.error is None
                &&& r.warning is None
            },
    {
        let role = normalize_role_name(request.role_name.as_str());
        let mut failed_error: Option<Error> = None;
        match validate_role_name(role.as_str()) {
            Err(m) => {
                failed_error = Some(Error::Validation(m));
            },
            Ok(()) => {
                match config.validate() {
                    Err(e) => {
                        failed_error = Some(e);
                    },
                    Ok(()) => {},
                }
            },
        }
        let mut template_path = String::new();
        let mut os_variant = String::new();
        let mut ram_mb: u32 = 0;
        if failed_error.is_none() {
            match &request.gw_template_id {
                None => {
                    failed_error = Some(
                        Error::Validation(String::from_str("No gateway template selected")),
                    );
                },
                Some(id) => {
                    match registry.get(id.as_str()) {
                        None => {
                            failed_error = Some(
                                Error::Validation(String::from_str("Gateway template not found")),
                            );
                        },
                        Some(t) => {
                            template_path = t.path.clone();
                            os_variant = t.os_variant.clone();
                            ram_mb = if t.default_ram_mb >= config.defaults.gateway_ram_mb {
                                t.default_ram_mb
                            } else {
                                config.defaults.gateway_ram_mb
                            };
                        },
                    }
                },
            }
        }
        let role_net = concat2(role.as_str(), "-inet");
        let gw_name = concat2(role.as_str(), "-gw");
        let role_dir = concat3(config.cfg.root.as_str(), "/", role.as_str());
        let overlay_path = {
            let a = LibvirtAdapter::new();
            a.gateway_overlay_path(config.libvirt.images_dir.as_str(), role.as_str())
        };
        let net_xml_path = {
            let mut s = String::from_str(net_xml_dir);
            s.append("/net-");
            s.append(role_net.as_str());
            s.append(".xml");
            s
        };
        let mut meta = RoleMeta::new(role.clone());
        meta.gw_template_id = clone_opt(&request.gw_template_id);
        meta.app_template_id = clone_opt(&request.app_template_id);
        meta.disp_template_id = clone_opt(&request.disp_template_id);
        meta.gateway_mode = request.gateway_mode;
        let phase = match &failed_error {
            Some(_) => Phase::Failed,
            None => Phase::ProbeRoleDir,
        };
        Orchestrator {
            adapter,
            role,
            role_dir,
            role_net,
            gw_name,
            lan_net: config.libvirt.lan_net.clone(),
            images_dir: config.libvirt.images_dir.clone(),
            cfg_root: config.cfg.root.clone(),
            net_xml_path,
            overlay_path,
            template_path,
            os_variant,
            ram_mb,
            gateway_mode: request.gateway_mode,
            hops: request.hops,
            wg_filename: request.wg_filename,
            wg_interface: request.wg_interface,
            wg_route_all: request.wg_route_all,
            ovpn_filename: request.ovpn_filename,
            ovpn_auth: request.ovpn_auth,
            ovpn_route_all: request.ovpn_route_all,
            conf: None,
            meta,
            template_exists: false,
            overlay_exists: false,
            parent_exists: false,
            phase,
            ledger: Ledger::empty(),
            error: failed_error,
            warning: None,
        }
    }
}

fn virsh_request(sub: &str, arg: &str) -> (r: CmdRequest)
    ensures
        r.tool == Tool::Virsh,
        !r.elevated,
        r.args.deep_view() == seq![sub@, arg@],
{
    let mut args: Vec<String> = Vec::new();
    args.push(String::from_str(sub));
    args.push(String::from_str(arg));
    proof {
        assert(args.deep_view() =~= seq![sub@, arg@]);
    }
    CmdRequest { tool: Tool::Virsh, args, elevated: false }
}

impl Orchestrator {
    /// What the driver must do next; nothing once the run is over.
    pub fn next_action(&self) -> (r: Option<Action>)
        requires
            self.wf(),
        ensures
            r is None <==> self.phase is Done || self.phase is Failed,
            self.phase is ProbeRoleDir ==> (r matches Some(a) && a matches Action::ProbeDir(d)
                && d@ == self.role_dir@),
            self.phase is ProbeTemplateFile ==> (r matches Some(a) && a
                matches Action::ProbePath(p) && p@ == self.template_path@),
            self.phase is ProbeLanNet ==> (r matches Some(a) && a matches Action::Run(q)
                && q.tool == Tool::Virsh && q.args.deep_view() == seq!["net-info"@, self.lan_net@]),
            self.phase is NetProbe ==> (r matches Some(a) && a matches Action::Run(q) && q.tool
                == Tool::Virsh && q.args.deep_view() == seq!["net-info"@, self.role_net@]),
            self.phase is WriteNetXml ==> (r matches Some(a) && a matches Action::WriteFile {
                path,
                content,
            } && path@ == self.net_xml_path@ && content@ == "<network>\n  <name>"@ + self.role_net@
                + "</name>\n  <bridge stp='on' delay='0'/>\n</network>"@),
            self.phase is NetDefine ==> (r matches Some(a) && a matches Action::Run(q) && q.tool
                == Tool::Virsh && q.args.deep_view() == seq!["net-define"@, self.net_xml_path@]),
            self.phase is NetAutostart ==> (r matches Some(a) && a matches Action::Run(q)
                && q.tool == Tool::Virsh && q.args.deep_view() == seq![
                "net-autostart"@,
                self.role_net@,
            ]),
            self.phase is NetStart ==> (r matches Some(a) && a matches Action::Run(q) && q.tool
                == Tool::Virsh && q.args.deep_view() == seq!["net-start"@, self.role_net@]),
            self.phase is NetUndoAutostart || self.phase is NetUndoUndefine ==> (r matches Some(a)
                && a matches Action::Run(q) && q.tool == Tool::Virsh && q.args.deep_view()
                == seq!["net-undefine"@, self.role_net@]),
            self.phase is NetUndoDestroy ==> (r matches Some(a) && a matches Action::Run(q)
                && q.tool == Tool::Virsh && q.args.deep_view() == seq![
                "net-destroy"@,
                self.role_net@,
            ]),
            self.phase is MakeRoleDir ==> (r matches Some(a) && a matches Action::MakeDir(d)
                && d@ == self.role_dir@),
            self.phase is ProbeWgSource ==> (r matches Some(a) && a matches Action::ProbePath(p)
                && p@ == self.wg_filename@),
            self.phase is CopyWgFile ==> (r matches Some(a) && a matches Action::CopyFile {
                from,
                to,
            } && from@ == self.wg_filename@ && to@ == self.role_dir@ + "/"@ + spec_file_name(
                self.wg_filename@,
            )),
            self.phase is ProbeOvpnSource ==> (r matches Some(a) && a
                matches Action::ProbePath(p) && p@ == self.ovpn_filename@),
            self.phase is CopyOvpnFile ==> (r matches Some(a) && a matches Action::CopyFile {
                from,
                to,
            } && from@ == self.ovpn_filename@ && to@ == self.role_dir@ + "/"@ + spec_file_name(
                self.ovpn_filename@,
            )),
            self.phase is ProbeOvpnAuth ==> (r matches Some(a) && a matches Action::ProbePath(p)
                && p@ == self.ovpn_auth@),
            self.phase is CopyOvpnAuth ==> (r matches Some(a) && a matches Action::CopyFile {
                from,
                to,
            } && from@ == self.ovpn_auth@ && to@ == self.role_dir@ + "/"@ + spec_file_name(
                self.ovpn_auth@,
            )),
            self.phase is WriteConf ==> (r matches Some(a) && a matches Action::WriteFile {
                path,
                content,
            } && path@ == self.role_dir@ + "/proxy.conf"@ && (self.conf matches Some(c)
                && content@ == spec_proxy_conf(c))),
            self.phase is WriteScript ==> (r matches Some(a) && a
                matches Action::WriteExecutable { path, content } && path@ == self.role_dir@
                + "/apply-proxy.sh"@ && content@ == crate::proxy_config::spec_apply_proxy_script(
                self.role@,
            )),
            self.phase is ProbeOverlayPre ==> (r matches Some(a) && a
                matches Action::ProbeOverlay { template_path, overlay_path } && template_path@
                == self.template_path@ && overlay_path@ == self.overlay_path@),
            self.phase is MkdirOverlayParent ==> (r matches Some(a) && a matches Action::Run(q)
                && q.tool == Tool::Mkdir && q.elevated && (spec_parent_dir(self.overlay_path@)
                matches Some(d) && q.args.deep_view() == seq!["-p"@, d])),
            self.phase is CreateOverlay ==> (r matches Some(a) && a matches Action::Run(q)
                && q.tool == Tool::QemuImg && q.elevated == spec_needs_privilege(
                self.overlay_path@,
            ) && q.args.deep_view() == spec_overlay_create_args(
                self.template_path@,
                self.overlay_path@,
            )),
            self.phase is ChmodOverlay ==> (r matches Some(a) && a matches Action::Run(q)
                && q.tool == Tool::Chmod && q.elevated && q.args.deep_view() == seq![
                "644"@,
                self.overlay_path@,
            ]),
            self.phase is ProbeGwVm ==> (r matches Some(a) && a matches Action::Run(q) && q.tool
                == Tool::Virsh && q.args.deep_view() == seq!["dominfo"@, self.gw_name@]),
            self.phase is CreateGwVm ==> (r matches Some(a) && a matches Action::Run(q) && q.tool
                == Tool::VirtInstall && !q.elevated && q.args.deep_view() == spec_gateway_args(
                self.gw_name@,
                self.overlay_path@,
                self.lan_net@,
                self.role_net@,
                self.role_dir@,
                self.os_variant@,
                self.ram_mb as nat,
            )),
            self.phase is StoreMeta ==> (r matches Some(a) && a matches Action::StoreMeta(m) && m
                == self.meta),
            self.phase is RollingBack ==> (r matches Some(a) && a matches Action::Teardown(
                acts,
            ) && spec_rollback_plan(acts@, self.ledger)),
    {
        match self.phase {
            Phase::ProbeRoleDir => Some(Action::ProbeDir(self.role_dir.clone())),
            Phase::ProbeTemplateFile => Some(Action::ProbePath(self.template_path.clone())),
            Phase::ProbeLanNet => Some(Action::Run(virsh_request("net-info", self.lan_net.as_str()))),
            Phase::NetProbe => Some(Action::Run(virsh_request("net-info", self.role_net.as_str()))),
            Phase::WriteNetXml => Some(
                Action::WriteFile {
                    path: self.net_xml_path.clone(),
                    content: network_xml(self.role_net.as_str()),
                },
            ),
            Phase::NetDefine => Some(
                Action::Run(virsh_request("net-define", self.net_xml_path.as_str())),
            ),
            Phase::NetAutostart => Some(
                Action::Run(virsh_request("net-autostart", self.role_net.as_str())),
            ),
            Phase::NetStart => Some(
                Action::Run(virsh_request("net-start", self.role_net.as_str())),
            ),
            Phase::NetUndoAutostart => Some(
                Action::Run(virsh_request("net-undefine", self.role_net.as_str())),
            ),
            Phase::NetUndoDestroy => Some(
                Action::Run(virsh_request("net-destroy", self.role_net.as_str())),
            ),
            Phase::NetUndoUndefine => Some(
                Action::Run(virsh_request("net-undefine", self.role_net.as_str())),
            ),
            Phase::MakeRoleDir => Some(Action::MakeDir(self.role_dir.clone())),
            Phase::ProbeWgSource => Some(Action::ProbePath(self.wg_filename.clone())),
            Phase::CopyWgFile => {
                let base = file_name_of(self.wg_filename.as_str());
                Some(
                    Action::CopyFile {
                        from: self.wg_filename.clone(),
                        to: concat3(self.role_dir.as_str(), "/", base.as_str()),
                    },
                )
            },
            Phase::ProbeOvpnSource => Some(Action::ProbePath(self.ovpn_filename.clone())),
            Phase::CopyOvpnFile => {
                let base = file_name_of(self.ovpn_filename.as_str());
                Some(
                    Action::CopyFile {
                        from: self.ovpn_filename.clone(),
                        to: concat3(self.role_dir.as_str(), "/", base.as_str()),
                    },
                )
            },
            Phase::ProbeOvpnAuth => Some(Action::ProbePath(self.ovpn_auth.clone())),
            Phase::CopyOvpnAuth => {
                let base = file_name_of(self.ovpn_auth.as_str());
                Some(
                    Action::CopyFile {
                        from: self.ovpn_auth.clone(),
                        to: concat3(self.role_dir.as_str(), "/", base.as_str()),
                    },
                )
            },
            Phase::WriteConf => {
                match &self.conf {
                    Some(c) => Some(
                        Action::WriteFile {
                            path: concat2(self.role_dir.as_str(), "/proxy.conf"),
                            content: ProxyConfigBuilder::generate_proxy_conf(c),
                        },
                    ),
                    None => {
                        proof {
                            assert(false);
                        }
                        None
                    },
                }
            },
            Phase::WriteScript => Some(
                Action::WriteExecutable {
                    path: concat2(self.role_dir.as_str(), "/apply-proxy.sh"),
                    content: ProxyConfigBuilder::generate_apply_proxy_script(self.role.as_str()),
                },
            ),
            Phase::ProbeOverlayPre => Some(
                Action::ProbeOverlay {
                    template_path: self.template_path.clone(),
                    overlay_path: self.overlay_path.clone(),
                },
            ),
            Phase::MkdirOverlayParent => {
                match crate::adapter::parent_dir(self.overlay_path.as_str()) {
                    Some(d) => {
                        let mut args: Vec<String> = Vec::new();
                        args.push(String::from_str("-p"));
                        args.push(d);
                        proof {
                            assert(args.deep_view() =~= seq![
                                "-p"@,
                                spec_parent_dir(self.overlay_path@)->Some_0,
                            ]);
                        }
                        Some(Action::Run(CmdRequest { tool: Tool::Mkdir, args, elevated: true }))
                    },
                    None => {
                        // the machine only enters this phase when the
                        // overlay path has a parent directory
                        proof {
                            assert(false);
                        }
                        None
                    },
                }
            },
            Phase::CreateOverlay => {
                let elevated = crate::command::needs_privilege(self.overlay_path.as_str());
                let mut args: Vec<String> = Vec::new();
                args.push(String::from_str("create"));
                args.push(String::from_str("-f"));
                args.push(String::from_str("qcow2"));
                args.push(String::from_str("-F"));
                args.push(String::from_str("qcow2"));
                args.push(String::from_str("-b"));
                args.push(self.template_path.clone());
                args.push(self.overlay_path.clone());
                proof {
                    assert(args.deep_view() =~= spec_overlay_create_args(
                        self.template_path@,
                        self.overlay_path@,
                    ));
                }
                Some(Action::Run(CmdRequest { tool: Tool::QemuImg, args, elevated }))
            },
            Phase::ChmodOverlay => {
                let mut args: Vec<String> = Vec::new();
                args.push(String::from_str("644"));
                args.push(self.overlay_path.clone());
                proof {
                    assert(args.deep_view() =~= seq!["644"@, self.overlay_path@]);
                }
                Some(Action::Run(CmdRequest { tool: Tool::Chmod, args, elevated: true }))
            },
            Phase::ProbeGwVm => Some(Action::Run(virsh_request("dominfo", self.gw_name.as_str()))),
            Phase::CreateGwVm => {
                let args = self.adapter.build_gateway_virt_install_args(
                    self.gw_name.as_str(),
                    self.overlay_path.as_str(),
                    self.lan_net.as_str(),
                    self.role_net.as_str(),
                    self.role_dir.as_str(),
                    self.os_variant.as_str(),
                    self.ram_mb,
                );
                Some(Action::Run(CmdRequest { tool: Tool::VirtInstall, args, elevated: false }))
            },
            Phase::StoreMeta => Some(Action::StoreMeta(clone_role_meta(&self.meta))),
            Phase::RollingBack => Some(Action::Teardown(rollback_actions(&self.ledger))),
            Phase::Done => None,
            Phase::Failed => None,
        }
    }
}

/// The shape of event each phase awaits.
pub open spec fn spec_event_fits(p: Phase, e: Event) -> bool {
    match p {
        Phase::ProbeRoleDir => e is DirStatus,
        Phase::ProbeTemplateFile => e is PathStatus,
        Phase::ProbeWgSource => e is PathStatus,
        Phase::ProbeOvpnSource => e is PathStatus,
        Phase::ProbeOvpnAuth => e is PathStatus,
        Phase::ProbeLanNet => e is Cmd,
        Phase::NetProbe => e is Cmd,
        Phase::NetDefine => e is Cmd,
        Phase::NetAutostart => e is Cmd,
        Phase::NetStart => e is Cmd,
        Phase::NetUndoAutostart => e is Cmd,
        Phase::NetUndoDestroy => e is Cmd,
        Phase::NetUndoUndefine => e is Cmd,
        Phase::MkdirOverlayParent => e is Cmd,
        Phase::CreateOverlay => e is Cmd,
        Phase::ChmodOverlay => e is Cmd,
        Phase::ProbeGwVm => e is Cmd,
        Phase::CreateGwVm => e is Cmd,
        Phase::WriteNetXml => e is OpDone,
        Phase::MakeRoleDir => e is OpDone,
        Phase::CopyWgFile => e is OpDone,
        Phase::CopyOvpnFile => e is OpDone,
        Phase::CopyOvpnAuth => e is OpDone,
        Phase::WriteConf => e is OpDone,
        Phase::WriteScript => e is OpDone,
        Phase::StoreMeta => e is OpDone,
        Phase::RollingBack => e is OpDone,
        Phase::ProbeOverlayPre => e is OverlayStatus,
        Phase::Done => false,
        Phase::Failed => false,
    }
}

/// The configuration the machine will write, over its current inputs.
pub open spec fn spec_conf_built(c: ProxyConfig, m: Orchestrator) -> bool {
    &&& c.role == m.role
    &&& c.gateway_mode == m.gateway_mode
    &&& c.chain_strategy == crate::model::ChainStrategy::StrictChain
    &&& (m.gateway_mode is ProxyChain ==> c.hops@ == m.hops@ && c.wireguard is None && c.openvpn
        is None)
    &&& (m.gateway_mode is WireGuard ==> c.hops@.len() == 0 && c.openvpn is None && (c.wireguard
        matches Some(w) && w.config_path@ == "/proxy/"@ + m.wg_filename@ && w.interface_name@ == (
    if m.wg_interface@.len() == 0 {
        "wg0"@
    } else {
        m.wg_interface@
    }) && w.route_all_traffic == m.wg_route_all))
    &&& (m.gateway_mode is OpenVpn ==> c.hops@.len() == 0 && c.wireguard is None && (c.openvpn
        matches Some(o) && o.config_path@ == "/proxy/"@ + m.ovpn_filename@ && (match o.auth_file {
        None => m.ovpn_auth@.len() == 0,
        Some(a) => m.ovpn_auth@.len() > 0 && a@ == "/proxy/"@ + m.ovpn_auth@,
    }) && o.route_all_traffic == m.ovpn_route_all))
}

impl Orchestrator {
    fn build_conf(&mut self)
        ensures
            spec_same_params(*final(self), *old(self)),
            final(self).phase == old(self).phase,
            final(self).ledger == old(self).ledger,
            final(self).error == old(self).error,
            final(self).warning == old(self).warning,
            final(self).wg_filename == old(self).wg_filename,
            final(self).ovpn_filename == old(self).ovpn_filename,
            final(self).ovpn_auth == old(self).ovpn_auth,
            final(self).template_exists == old(self).template_exists,
            final(self).overlay_exists == old(self).overlay_exists,
            final(self).parent_exists == old(self).parent_exists,
            final(self).conf matches Some(c) && spec_conf_built(c, *final(self)),
    {
        let c = build_gateway_conf(
            self.role.clone(),
            self.gateway_mode,
            &self.hops,
            self.wg_filename.as_str(),
            self.wg_interface.as_str(),
            self.wg_route_all,
            self.ovpn_filename.as_str(),
            self.ovpn_auth.as_str(),
            self.ovpn_route_all,
        );
        self.conf = Some(c);
    }

    /// Feeds one finished action's outcome back into the run.
    ///
    /// Fatal outcomes record their error and turn to the rollback branch;
    /// compensations and best-effort steps never escalate. A network found
    /// by the probe is never recorded in the ledger, so a later rollback
    /// leaves it standing; the gateway VM enters the ledger only after its
    /// creation succeeded, so a failure before or during creation rolls
    /// back without ever touching a VM. Once the rollback's teardown has
    /// run — and on overall success — the ledger is emptied.
    pub fn advance(&mut self, event: Event)
        requires
            old(self).wf(),
            spec_event_fits(old(self).phase, event),
        ensures
            final(self).wf(),
            spec_same_params(*final(self), *old(self)),
            // the ledger only ever grows at its designated steps, and only
            // when the creating command succeeded; it is emptied when a run
            // ends, successfully or after its rollback
            final(self).ledger.network == old(self).ledger.network || (old(self).phase is NetStart
                && (event matches Event::Cmd(o) && o.exit_code == 0)) || old(self).phase
                is StoreMeta || old(self).phase is RollingBack,
            final(self).ledger.role_dir == old(self).ledger.role_dir || (old(self).phase
                is MakeRoleDir && (event matches Event::OpDone { ok, .. } && ok)) || old(self).phase is StoreMeta || old(self).phase is RollingBack,
            final(self).ledger.overlay == old(self).ledger.overlay || (old(self).phase
                is CreateOverlay && (event matches Event::Cmd(o) && o.exit_code == 0)) || old(self).phase is StoreMeta || old(self).phase is RollingBack,
            final(self).ledger.vm == old(self).ledger.vm || (old(self).phase is CreateGwVm && (
            event matches Event::Cmd(o) && o.exit_code == 0)) || old(self).phase is StoreMeta
                || old(self).phase is RollingBack,
            // a pre-existing network is never recorded
            old(self).phase is NetProbe ==> (event matches Event::Cmd(o) ==> {
                &&& (o.exit_code == 0 ==> final(self).phase is MakeRoleDir && final(self).ledger.network is None)
                &&& (o.exit_code != 0 ==> final(self).phase is WriteNetXml)
            }),
            // the newly created network is recorded exactly on start success
            old(self).phase is NetStart ==> (event matches Event::Cmd(o) ==> {
                &&& (o.exit_code == 0 ==> final(self).phase is MakeRoleDir && (final(self).ledger.network matches Some(n) && n@ == old(self).role_net@))
                &&& (o.exit_code != 0 ==> final(self).phase is NetUndoDestroy && (final(self).error matches Some(e) && e matches Error::Libvirt(m) && m@
                    == "Failed to start network '"@ + old(self).role_net@ + "': "@ + o.stderr@))
            }),
            old(self).phase is ProbeRoleDir ==> (event matches Event::DirStatus { dir_exists }
                ==> {
                &&& (dir_exists ==> final(self).phase is Failed && (final(self).error
                    matches Some(e) && e matches Error::AlreadyExists(m) && m@
                    == "Role already exists"@))
                &&& (!dir_exists ==> final(self).phase is ProbeTemplateFile)
            }),
            old(self).phase is ProbeTemplateFile ==> (event matches Event::PathStatus {
                path_exists,
                path_is_file,
                read_error,
            } ==> {
                &&& (path_exists && path_is_file && read_error is None ==> final(self).phase
                    is ProbeLanNet)
                &&& (!(path_exists && path_is_file && read_error is None) ==> final(self).phase
                    is Failed && (final(self).error matches Some(e) && e is Template))
            }),
            old(self).phase is ProbeLanNet ==> (event matches Event::Cmd(o) ==> {
                &&& (o.exit_code == 0 ==> final(self).phase is NetProbe)
                &&& (o.exit_code != 0 ==> final(self).phase is Failed && (final(self).error
                    matches Some(e) && e matches Error::Libvirt(m) && m@ == "LAN network '"@
                    + old(self).lan_net@
                    + "' does not exist in libvirt. Create/verify it via virt-manager (this is your pfSense LAN)."@))
            }),
            old(self).phase is WriteNetXml ==> (event matches Event::OpDone { ok, message } ==> {
                &&& (ok ==> final(self).phase is NetDefine)
                &&& (!ok ==> final(self).phase is RollingBack && (final(self).error
                    matches Some(e) && e matches Error::Io(m) && m@
                    == "Failed to create network: "@ + message@))
            }),
            old(self).phase is NetDefine ==> (event matches Event::Cmd(o) ==> {
                &&& (o.exit_code == 0 ==> final(self).phase is NetAutostart)
                &&& (o.exit_code != 0 ==> final(self).phase is RollingBack && (final(self).error
                    matches Some(e) && e matches Error::Libvirt(m) && m@
                    == "Failed to define network '"@ + old(self).role_net@ + "': "@ + o.stderr@))
            }),
            old(self).phase is NetAutostart ==> (event matches Event::Cmd(o) ==> {
                &&& (o.exit_code == 0 ==> final(self).phase is NetStart)
                &&& (o.exit_code != 0 ==> final(self).phase is NetUndoAutostart && (final(self).error matches Some(e) && e matches Error::Libvirt(m) && m@
                    == "Failed to set autostart for network '"@ + old(self).role_net@ + "': "@
                    + o.stderr@))
            }),
            old(self).phase is NetUndoAutostart ==> final(self).phase is RollingBack && final(self).error == old(self).error,
            old(self).phase is NetUndoDestroy ==> final(self).phase is NetUndoUndefine && final(self).error == old(self).error,
            old(self).phase is NetUndoUndefine ==> final(self).phase is RollingBack && final(self).error == old(self).error,
            old(self).phase is MakeRoleDir ==> (event matches Event::OpDone { ok, message }
                ==> {
                &&& (ok ==> (final(self).ledger.role_dir matches Some(d) && d@ == old(self).role_dir@) && (old(self).gateway_mode is ProxyChain ==> final(self).phase
                    is WriteConf && (final(self).conf matches Some(c) && spec_conf_built(
                    c,
                    *final(self),
                ))) && (old(self).gateway_mode is WireGuard ==> final(self).phase
                    is ProbeWgSource) && (old(self).gateway_mode is OpenVpn ==> final(self).phase
                    is ProbeOvpnSource))
                &&& (!ok ==> final(self).phase is RollingBack && (final(self).error
                    matches Some(e) && e matches Error::Io(m) && m@
                    == "Failed to create role directory: "@ + message@))
            }),
            old(self).phase is ProbeWgSource ==> (event matches Event::PathStatus {
                path_exists,
                path_is_file,
                ..
            } ==> {
                &&& (path_exists && path_is_file ==> final(self).phase is CopyWgFile && final(self).wg_filename == old(self).wg_filename)
                &&& (!(path_exists && path_is_file) ==> final(self).phase is WriteConf && final(self).wg_filename == old(self).wg_filename && (final(self).conf matches Some(c)
                    && spec_conf_built(c, *final(self))))
            }),
            old(self).phase is CopyWgFile ==> (event matches Event::OpDone { ok, message } ==> {
                &&& (ok ==> final(self).phase is WriteConf && final(self).wg_filename@
                    == spec_file_name(old(self).wg_filename@) && (final(self).conf
                    matches Some(c) && spec_conf_built(c, *final(self))))
                &&& (!ok ==> final(self).phase is RollingBack && (final(self).error
                    matches Some(e) && e matches Error::Io(m) && m@
                    == "Failed to copy WireGuard config: "@ + message@))
            }),
            old(self).phase is ProbeOvpnSource ==> (event matches Event::PathStatus {
                path_exists,
                path_is_file,
                ..
            } ==> {
                &&& (path_exists && path_is_file ==> final(self).phase is CopyOvpnFile)
                &&& (!(path_exists && path_is_file) ==> (old(self).ovpn_auth@.len() > 0 ==> final(self).phase is ProbeOvpnAuth) && (old(self).ovpn_auth@.len() == 0 ==> final(self).phase is WriteConf && (final(self).conf matches Some(c) && spec_conf_built(
                    c,
                    *final(self),
                ))))
            }),
            old(self).phase is CopyOvpnFile ==> (event matches Event::OpDone { ok, message }
                ==> {
                &&& (ok ==> final(self).ovpn_filename@ == spec_file_name(old(self).ovpn_filename@)
                    && (old(self).ovpn_auth@.len() > 0 ==> final(self).phase is ProbeOvpnAuth) && (
                old(self).ovpn_auth@.len() == 0 ==> final(self).phase is WriteConf && (final(self).conf matches Some(c) && spec_conf_built(c, *final(self)))))
                &&& (!ok ==> final(self).phase is RollingBack && (final(self).error
                    matches Some(e) && e matches Error::Io(m) && m@
                    == "Failed to copy OpenVPN config: "@ + message@))
            }),
            old(self).phase is ProbeOvpnAuth ==> (event matches Event::PathStatus {
                path_exists,
                path_is_file,
                ..
            } ==> {
                &&& (path_exists && path_is_file ==> final(self).phase is CopyOvpnAuth)
                &&& (!(path_exists && path_is_file) ==> final(self).phase is WriteConf && (final(self).conf matches Some(c) && spec_conf_built(c, *final(self))))
            }),
            old(self).phase is CopyOvpnAuth ==> (event matches Event::OpDone { ok, message }
                ==> {
                &&& final(self).phase is WriteConf
                &&& (final(self).conf matches Some(c) && spec_conf_built(c, *final(self)))
                &&& (ok ==> final(self).ovpn_auth@ == spec_file_name(old(self).ovpn_auth@))
                &&& (!ok ==> final(self).ovpn_auth == old(self).ovpn_auth && (final(self).warning
                    matches Some(w) && w@ == "Failed to copy auth file: "@ + message@))
            }),
            old(self).phase is WriteConf ==> (event matches Event::OpDone { ok, message } ==> {
                &&& (ok ==> final(self).phase is WriteScript)
                &&& (!ok ==> final(self).phase is RollingBack && (final(self).error
                    matches Some(e) && e matches Error::Io(m) && m@ == "Failed to write config: "@
                    + message@))
            }),
            old(self).phase is WriteScript ==> (event matches Event::OpDone { ok, message }
                ==> {
                &&& (ok ==> final(self).phase is ProbeOverlayPre)
                &&& (!ok ==> final(self).phase is RollingBack && (final(self).error
                    matches Some(e) && e matches Error::Io(m) && m@ == "Failed to write config: "@
                    + message@))
            }),
            old(self).phase is ProbeOverlayPre ==> (event matches Event::OverlayStatus {
                template_exists,
                overlay_exists,
                parent_exists,
            } ==> {
                &&& (!template_exists ==> final(self).phase is RollingBack && (final(self).error
                    matches Some(e) && e matches Error::Template(m) && m@
                    == "Template disk does not exist: "@ + old(self).template_path@))
                &&& (template_exists && overlay_exists ==> final(self).phase is RollingBack && (
                final(self).error matches Some(e) && e matches Error::AlreadyExists(m) && m@
                    == "Overlay disk already exists: "@ + old(self).overlay_path@))
                &&& (template_exists && !overlay_exists ==> (final(self).phase
                    is MkdirOverlayParent || final(self).phase is CreateOverlay) && (final(self).phase is MkdirOverlayParent <==> !parent_exists && spec_parent_dir(
                    old(self).overlay_path@,
                ) is Some))
            }),
            old(self).phase is MkdirOverlayParent ==> final(self).phase is CreateOverlay,
            old(self).phase is CreateOverlay ==> (event matches Event::Cmd(o) ==> {
                &&& (o.exit_code == 0 ==> (final(self).ledger.overlay matches Some(p) && p@ == old(self).overlay_path@) && (final(self).phase is ChmodOverlay <==> spec_needs_privilege(
                    old(self).overlay_path@,
                )) && (final(self).phase is ChmodOverlay || final(self).phase is ProbeGwVm))
                &&& (o.exit_code != 0 ==> final(self).phase is RollingBack && final(self).ledger.vm is None && (final(self).error matches Some(e) && e
                    matches Error::Libvirt(m) && m@ == "Failed to create overlay disk: "@
                    + o.stderr@))
            }),
            old(self).phase is ChmodOverlay ==> final(self).phase is ProbeGwVm,
            old(self).phase is ProbeGwVm ==> (event matches Event::Cmd(o) ==> {
                &&& (o.exit_code == 0 ==> final(self).phase is RollingBack && final(self).ledger.vm is None && (final(self).error matches Some(e) && e
                    matches Error::AlreadyExists(m) && m@ == "VM '"@ + old(self).gw_name@
                    + "' already exists"@))
                &&& (o.exit_code != 0 ==> final(self).phase is CreateGwVm)
            }),
            old(self).phase is CreateGwVm ==> (event matches Event::Cmd(o) ==> {
                &&& (o.exit_code == 0 ==> final(self).phase is StoreMeta && (final(self).ledger.vm
                    matches Some(v) && v@ == old(self).gw_name@))
                &&& (o.exit_code != 0 ==> final(self).phase is RollingBack && final(self).ledger.vm is None && (final(self).error matches Some(e) && e
                    matches Error::Libvirt(m) && m@ == "Failed to create VM '"@
                    + old(self).gw_name@ + "': "@ + o.stderr@))
            }),
            old(self).phase is StoreMeta ==> (event matches Event::OpDone { ok, message } ==> {
                &&& final(self).phase is Done
                &&& final(self).ledger.network is None && final(self).ledger.role_dir is None
                    && final(self).ledger.overlay is None && final(self).ledger.vm is None
                &&& (!ok ==> (final(self).warning matches Some(w) && w@
                    == "Failed to save role metadata: "@ + message@))
            }),
            old(self).phase is RollingBack ==> final(self).phase is Failed && final(self).error
                == old(self).error && final(self).ledger.network is None && final(self).ledger.role_dir is None && final(self).ledger.overlay is None && final(self).ledger.vm is None,
    {
        match self.phase {
            Phase::ProbeRoleDir => {
                match event {
                    Event::DirStatus { dir_exists } => {
                        if dir_exists {
                            self.error = Some(
                                Error::AlreadyExists(String::from_str("Role already exists")),
                            );
                            self.phase = Phase::Failed;
                        } else {
                            self.phase = Phase::ProbeTemplateFile;
                        }
                    },
                    _ => {
                        proof {
                            assert(false);
                        }
                    },
                }
            },
            Phase::ProbeTemplateFile => {
                match event {
                    Event::PathStatus { path_exists, path_is_file, read_error } => {
                        let probe_err = match &read_error {
                            Some(m) => Some(m.as_str()),
                            None => None,
                        };
                        let t = Template {
                            id: String::new(),
                            label: String::new(),
                            path: self.template_path.clone(),
                            os_variant: String::new(),
                            role_kind: crate::model::RoleKind::Generic,
                            default_ram_mb: 0,
                            notes: None,
                        };
                        match t.validate(path_exists, path_is_file, probe_err) {
                            Ok(()) => {
                                self.phase = Phase::ProbeLanNet;
                            },
                            Err(e) => {
                                self.error = Some(e);
                                self.phase = Phase::Failed;
                            },
                        }
                    },
                    _ => {
                        proof {
                            assert(false);
                        }
                    },
                }
            },
            Phase::ProbeLanNet => {
                match event {
                    Event::Cmd(o) => {
                        let exists = self.adapter.network_exists(&o);
                        match self.adapter.ensure_lan_net_exists(self.lan_net.as_str(), exists) {
                            Ok(()) => {
                                self.phase = Phase::NetProbe;
                            },
                            Err(e) => {
                                self.error = Some(e);
                                self.phase = Phase::Failed;
                            },
                        }
                    },
                    _ => {
                        proof {
                            assert(false);
                        }
                    },
                }
            },
            Phase::NetProbe => {
                match event {
                    Event::Cmd(o) => {
                        if self.adapter.network_exists(&o) {
                            self.phase = Phase::MakeRoleDir;
                        } else {
                            self.phase = Phase::WriteNetXml;
                        }
                    },
                    _ => {
                        proof {
                            assert(false);
                        }
                    },
                }
            },
            Phase::WriteNetXml => {
                match event {
                    Event::OpDone { ok, message } => {
                        if ok {
                            self.phase = Phase::NetDefine;
                        } else {
                            self.error = Some(
                                Error::Io(concat2("Failed to create network: ", message.as_str())),
                            );
                            self.phase = Phase::RollingBack;
                        }
                    },
                    _ => {
                        proof {
                            assert(false);
                        }
                    },
                }
            },
            Phase::NetDefine => {
                match event {
                    Event::Cmd(o) => {
                        if o.success() {
                            self.phase = Phase::NetAutostart;
                        } else {
                            let mut m = String::from_str("Failed to define network '");
                            m.append(self.role_net.as_str());
                            m.append("': ");
                            m.append(o.stderr.as_str());
                            self.error = Some(Error::Libvirt(m));
                            self.phase = Phase::RollingBack;
                        }
                    },
                    _ => {
                        proof {
                            assert(false);
                        }
                    },
                }
            },
            Phase::NetAutostart => {
                match event {
                    Event::Cmd(o) => {
                        if o.success() {
                            self.phase = Phase::NetStart;
                        } else {
                            let mut m = String::from_str("Failed to set autostart for network '");
                            m.append(self.role_net.as_str());
                            m.append("': ");
                            m.append(o.stderr.as_str());
                            self.error = Some(Error::Libvirt(m));
                            self.phase = Phase::NetUndoAutostart;
                        }
                    },
                    _ => {
                        proof {
                            assert(false);
                        }
                    },
                }
            },
            Phase::NetStart => {
                match event {
                    Event::Cmd(o) => {
                        if o.success() {
                            self.ledger.network = Some(self.role_net.clone());
                            self.phase = Phase::MakeRoleDir;
                        } else {
                            let mut m = String::from_str("Failed to start network '");
                            m.append(self.role_net.as_str());
                            m.append("': ");
                            m.append(o.stderr.as_str());
                            self.error = Some(Error::Libvirt(m));
                            self.phase = Phase::NetUndoDestroy;
                        }
                    },
                    _ => {
                        proof {
                            assert(false);
                        }
                    },
                }
            },
            Phase::NetUndoAutostart => {
                self.phase = Phase::RollingBack;
            },
            Phase::NetUndoDestroy => {
                self.phase = Phase::NetUndoUndefine;
            },
            Phase::NetUndoUndefine => {
                self.phase = Phase::RollingBack;
            },
            Phase::MakeRoleDir => {
                match event {
                    Event::OpDone { ok, message } => {
                        if ok {
                            self.ledger.role_dir = Some(self.role_dir.clone());
                            match self.gateway_mode {
                                GatewayMode::ProxyChain => {
                                    self.build_conf();
                                    self.phase = Phase::WriteConf;
                                },
                                GatewayMode::WireGuard => {
                                    self.phase = Phase::ProbeWgSource;
                                },
                                GatewayMode::OpenVpn => {
                                    self.phase = Phase::ProbeOvpnSource;
                                },
                            }
                        } else {
                            self.error = Some(
                                Error::Io(
                                    concat2(
                                        "Failed to create role directory: ",
                                        message.as_str(),
                                    ),
                                ),
                            );
                            self.phase = Phase::RollingBack;
                        }
                    },
                    _ => {
                        proof {
                            assert(false);
                        }
                    },
                }
            },
            Phase::ProbeWgSource => {
                match event {
                    Event::PathStatus { path_exists, path_is_file, .. } => {
                        if path_exists && path_is_file {
                            self.phase = Phase::CopyWgFile;
                        } else {
                            self.build_conf();
                            self.phase = Phase::WriteConf;
                        }
                    },
                    _ => {
                        proof {
                            assert(false);
                        }
                    },
                }
            },
            Phase::CopyWgFile => {
                match event {
                    Event::OpDone { ok, message } => {
                        if ok {
                            self.wg_filename = file_name_of(self.wg_filename.as_str());
                            self.build_conf();
                            self.phase = Phase::WriteConf;
                        } else {
                            self.error = Some(
                                Error::Io(
                                    concat2("Failed to copy WireGuard config: ", message.as_str()),
                                ),
                            );
                            self.phase = Phase::RollingBack;
                        }
                    },
                    _ => {
                        proof {
                            assert(false);
                        }
                    },
                }
            },
            Phase::ProbeOvpnSource => {
                match event {
                    Event::PathStatus { path_exists, path_is_file, .. } => {
                        if path_exists && path_is_file {
                            self.phase = Phase::CopyOvpnFile;
                        } else {
                            if self.ovpn_auth.as_str().unicode_len() > 0 {
                                self.phase = Phase::ProbeOvpnAuth;
                            } else {
                                self.build_conf();
                                self.phase = Phase::WriteConf;
                            }
                        }
                    },
                    _ => {
                        proof {
                            assert(false);
                        }
                    },
                }
            },
            Phase::CopyOvpnFile => {
                match event {
                    Event::OpDone { ok, message } => {
                        if ok {
                            self.ovpn_filename = file_name_of(self.ovpn_filename.as_str());
                            if self.ovpn_auth.as_str().unicode_len() > 0 {
                                self.phase = Phase::ProbeOvpnAuth;
                            } else {
                                self.build_conf();
                                self.phase = Phase::WriteConf;
                            }
                        } else {
                            self.error = Some(
                                Error::Io(
                                    concat2("Failed to copy OpenVPN config: ", message.as_str()),
                                ),
                            );
                            self.phase = Phase::RollingBack;
                        }
                    },
                    _ => {
                        proof {
                            assert(false);
                        }
                    },
                }
            },
            Phase::ProbeOvpnAuth => {
                match event {
                    Event::PathStatus { path_exists, path_is_file, .. } => {
                        if path_exists && path_is_file {
                            self.phase = Phase::CopyOvpnAuth;
                        } else {
                            self.build_conf();
                            self.phase = Phase::WriteConf;
                        }
                    },
                    _ => {
                        proof {
                            assert(false);
                        }
                    },
                }
            },
            Phase::CopyOvpnAuth => {
                match event {
                    Event::OpDone { ok, message } => {
                        if ok {
                            self.ovpn_auth = file_name_of(self.ovpn_auth.as_str());
                        } else {
                            self.warning = Some(
                                concat2("Failed to copy auth file: ", message.as_str()),
                            );
                        }
                        self.build_conf();
                        self.phase = Phase::WriteConf;
                    },
                    _ => {
                        proof {
                            assert(false);
                        }
                    },
                }
            },
            Phase::WriteConf => {
                match event {
                    Event::OpDone { ok, message } => {
                        if ok {
                            self.phase = Phase::WriteScript;
                        } else {
                            self.error = Some(
                                Error::Io(concat2("Failed to write config: ", message.as_str())),
                            );
                            self.phase = Phase::RollingBack;
                        }
                    },
                    _ => {
                        proof {
                            assert(false);
                        }
                    },
                }
            },
            Phase::WriteScript => {
                match event {
                    Event::OpDone { ok, message } => {
                        if ok {
                            self.phase = Phase::ProbeOverlayPre;
                        } else {
                            self.error = Some(
                                Error::Io(concat2("Failed to write config: ", message.as_str())),
                            );
                            self.phase = Phase::RollingBack;
                        }
                    },
                    _ => {
                        proof {
                            assert(false);
                        }
                    },
                }
            },
            Phase::ProbeOverlayPre => {
                match event {
                    Event::OverlayStatus { template_exists, overlay_exists, parent_exists } => {
                        if !template_exists {
                            self.error = Some(
                                Error::Template(
                                    concat2(
                                        "Template disk does not exist: ",
                                        self.template_path.as_str(),
                                    ),
                                ),
                            );
                            self.phase = Phase::RollingBack;
                        } else if overlay_exists {
                            self.error = Some(
                                Error::AlreadyExists(
                                    concat2(
                                        "Overlay disk already exists: ",
                                        self.overlay_path.as_str(),
                                    ),
                                ),
                            );
                            self.phase = Phase::RollingBack;
                        } else {
                            self.template_exists = template_exists;
                            self.overlay_exists = overlay_exists;
                            self.parent_exists = parent_exists;
                            let has_parent = match crate::adapter::parent_dir(
                                self.overlay_path.as_str(),
                            ) {
                                Some(_) => true,
                                None => false,
                            };
                            if !parent_exists && has_parent {
                                self.phase = Phase::MkdirOverlayParent;
                            } else {
                                self.phase = Phase::CreateOverlay;
                            }
                        }
                    },
                    _ => {
                        proof {
                            assert(false);
                        }
                    },
                }
            },
            Phase::MkdirOverlayParent => {
                self.phase = Phase::CreateOverlay;
            },
            Phase::CreateOverlay => {
                match event {
                    Event::Cmd(o) => {
                        match self.adapter.overlay_create_result(&o) {
                            Ok(()) => {
                                self.ledger.overlay = Some(self.overlay_path.clone());
                                if crate::command::needs_privilege(self.overlay_path.as_str()) {
                                    self.phase = Phase::ChmodOverlay;
                                } else {
                                    self.phase = Phase::ProbeGwVm;
                                }
                            },
                            Err(e) => {
                                self.error = Some(e);
                                self.phase = Phase::RollingBack;
                            },
                        }
                    },
                    _ => {
                        proof {
                            assert(false);
                        }
                    },
                }
            },
            Phase::ChmodOverlay => {
                self.phase = Phase::ProbeGwVm;
            },
            Phase::ProbeGwVm => {
                match event {
                    Event::Cmd(o) => {
                        if self.adapter.vm_exists(&o) {
                            let mut m = String::from_str("VM '");
                            m.append(self.gw_name.as_str());
                            m.append("' already exists");
                            self.error = Some(Error::AlreadyExists(m));
                            self.phase = Phase::RollingBack;
                        } else {
                            self.phase = Phase::CreateGwVm;
                        }
                    },
                    _ => {
                        proof {
                            assert(false);
                        }
                    },
                }
            },
            Phase::CreateGwVm => {
                match event {
                    Event::Cmd(o) => {
                        match self.adapter.vm_create_result(self.gw_name.as_str(), &o) {
                            Ok(()) => {
                                self.ledger.vm = Some(self.gw_name.clone());
                                self.phase = Phase::StoreMeta;
                            },
                            Err(e) => {
                                self.error = Some(e);
                                self.phase = Phase::RollingBack;
                            },
                        }
                    },
                    _ => {
                        proof {
                            assert(false);
                        }
                    },
                }
            },
            Phase::StoreMeta => {
                match event {
                    Event::OpDone { ok, message } => {
                        if !ok {
                            self.warning = Some(
                                concat2("Failed to save role metadata: ", message.as_str()),
                            );
                        }
                        self.ledger = Ledger::empty();
                        self.phase = Phase::Done;
                    },
                    _ => {
                        proof {
                            assert(false);
                        }
                    },
                }
            },
            Phase::RollingBack => {
                self.ledger = Ledger::empty();
                self.phase = Phase::Failed;
            },
            Phase::Done => {
                proof {
                    assert(false);
                }
            },
            Phase::Failed => {
                proof {
                    assert(false);
                }
            },
        }
    }

    /// The run's outcome, once it is over: success, or the error of the
    /// step that failed (its rollback already executed).
    pub fn take_outcome(self) -> (r: Option<Result<(), Error>>)
        requires
            self.wf(),
        ensures
            r is None <==> !(self.phase is Done) && !(self.phase is Failed),
            self.phase is Done ==> r == Some(Result::<(), Error>::Ok(())),
            self.phase is Failed ==> (r matches Some(res) && res matches Err(e) && Some(e)
                == self.error),
    {
        match self.phase {
            Phase::Done => Some(Ok(())),
            Phase::Failed => {
                match self.error {
                    Some(e) => Some(Err(e)),
                    None => None,
                }
            },
            _ => None,
        }
    }
}

// ---------------------------------------------------------------------------
// Role deletion
// ---------------------------------------------------------------------------
/// The unconditional, exhaustive teardown of a whole role, every step
/// best-effort: stop and undefine every associated VM and the gateway by
/// name, drop the gateway overlay and the bounded range of guessed app
/// overlays, remove the disposable scratch directory, destroy the private
/// network, and remove the role directory.
pub fn role_teardown_plan(
    role: &str,
    images_dir: &str,
    cfg_root: &str,
    vms: &Vec<String>,
) -> (r: Vec<TeardownAction>)
    ensures
        r@.len() == 2 * vms@.len() + 26,
        forall|k: int|
            0 <= k < vms@.len() ==> (#[trigger] r@[2 * k] matches TeardownAction::DestroyVm(n)
                && n@ == vms@[k]@) && (r@[2 * k + 1] matches TeardownAction::UndefineVm(n) && n@
                == vms@[k]@),
        ({
            let b = 2 * vms@.len() as int;
            &&& (r@[b] matches TeardownAction::DestroyVm(n) && n@ == role@ + "-gw"@)
            &&& (r@[b + 1] matches TeardownAction::UndefineVm(n) && n@ == role@ + "-gw"@)
            &&& (r@[b + 2] matches TeardownAction::DeleteOverlay(p) && p@ == images_dir@ + "/"@
                + role@ + "-gw.qcow2"@)
            &&& (forall|i: int|
                0 <= i < 20 ==> (#[trigger] r@[b + 3 + i] matches TeardownAction::DeleteOverlay(p)
                    && p@ == images_dir@ + "/"@ + role@ + "-app-"@ + crate::text::spec_dec(
                    (i + 1) as nat,
                ) + "-overlay.qcow2"@))
            &&& (r@[b + 23] matches TeardownAction::RemoveDirAll(d) && d@ == cfg_root@ + "/"@
                + role@ + "/disposable"@)
            &&& (r@[b + 24] matches TeardownAction::DestroyNetwork(n) && n@ == role@ + "-inet"@)
            &&& (r@[b + 25] matches TeardownAction::RemoveDirAll(d) && d@ == cfg_root@ + "/"@
                + role@)
        }),
{
    let adapter = LibvirtAdapter::new();
    let mut acts: Vec<TeardownAction> = Vec::new();
    let mut k: usize = 0;
    while k < vms.len()
        invariant
            k <= vms@.len(),
            acts@.len() == 2 * k,
            forall|j: int|
                0 <= j < k ==> (#[trigger] acts@[2 * j] matches TeardownAction::DestroyVm(n)
                    && n@ == vms@[j]@) && (acts@[2 * j + 1] matches TeardownAction::UndefineVm(n)
                    && n@ == vms@[j]@),
        decreases vms@.len() - k,
    {
        acts.push(TeardownAction::DestroyVm(vms[k].clone()));
        acts.push(TeardownAction::UndefineVm(vms[k].clone()));
        k = k + 1;
    }
    let ghost vm_part = acts@;
    let ghost base = 2 * vms@.len() as int;
    let gw = concat2(role, "-gw");
    acts.push(TeardownAction::DestroyVm(gw.clone()));
    acts.push(TeardownAction::UndefineVm(gw));
    acts.push(TeardownAction::DeleteOverlay(adapter.gateway_overlay_path(images_dir, role)));
    let ghost head = acts@;
    proof {
        assert(head.len() == base + 3);
        assert(forall|j: int| 0 <= j < base ==> head[j] == vm_part[j]);
        assert(head[base] matches TeardownAction::DestroyVm(n) && n@ == role@ + "-gw"@);
        assert(head[base + 1] matches TeardownAction::UndefineVm(n) && n@ == role@ + "-gw"@);
        assert(head[base + 2] matches TeardownAction::DeleteOverlay(p) && p@ == images_dir@ + "/"@
            + role@ + "-gw.qcow2"@);
    }
    let mut i: u32 = 1;
    while i <= 20
        invariant
            1 <= i <= 21,
            head.len() == base + 3,
            acts@.len() == base + 3 + (i - 1),
            acts@.take(base + 3) == head,
            forall|j: int|
                0 <= j < i - 1 ==> (#[trigger] acts@[base + 3 + j]
                    matches TeardownAction::DeleteOverlay(p) && p@ == images_dir@ + "/"@ + role@
                    + "-app-"@ + crate::text::spec_dec((j + 1) as nat) + "-overlay.qcow2"@),
        decreases 21 - i,
    {
        let ghost before = acts@;
        acts.push(TeardownAction::DeleteOverlay(adapter.app_overlay_path(images_dir, role, i)));
        proof {
            assert(acts@.take(base + 3) =~= before.take(base + 3));
            assert(acts@[base + 3 + (i - 1)] matches TeardownAction::DeleteOverlay(p) && p@
                == images_dir@ + "/"@ + role@ + "-app-"@ + crate::text::spec_dec(i as nat)
                + "-overlay.qcow2"@);
        }
        i = i + 1;
    }
    let ghost mid = acts@;
    acts.push(TeardownAction::RemoveDirAll(concat5_path(cfg_root, "/", role, "/disposable")));
    acts.push(TeardownAction::DestroyNetwork(concat2(role, "-inet")));
    acts.push(TeardownAction::RemoveDirAll(concat3(cfg_root, "/", role)));
    proof {
        assert(mid.len() == base + 23);
        assert(forall|j: int| 0 <= j < base + 23 ==> acts@[j] == mid[j]);
        assert(acts@[base + 23] matches TeardownAction::RemoveDirAll(d) && d@ == cfg_root@ + "/"@
            + role@ + "/disposable"@);
        assert(acts@[base + 24] matches TeardownAction::DestroyNetwork(n) && n@ == role@
            + "-inet"@);
        assert(acts@[base + 25] matches TeardownAction::RemoveDirAll(d) && d@ == cfg_root@ + "/"@
            + role@);
        assert(mid.take(base + 3) == head);
        assert forall|kk: int|
            0 <= kk < vms@.len() implies (#[trigger] acts@[2 * kk]
            matches TeardownAction::DestroyVm(n) && n@ == vms@[kk]@) && (acts@[2 * kk + 1]
            matches TeardownAction::UndefineVm(n) && n@ == vms@[kk]@) by {
            assert(acts@[2 * kk] == mid[2 * kk]);
            assert(mid[2 * kk] == mid.take(base + 3)[2 * kk]);
            assert(head[2 * kk] == vm_part[2 * kk]);
            assert(acts@[2 * kk + 1] == mid[2 * kk + 1]);
            assert(mid[2 * kk + 1] == mid.take(base + 3)[2 * kk + 1]);
            assert(head[2 * kk + 1] == vm_part[2 * kk + 1]);
        }
        assert forall|j: int|
            0 <= j < 20 implies (#[trigger] acts@[base + 3 + j]
            matches TeardownAction::DeleteOverlay(p) && p@ == images_dir@ + "/"@ + role@
            + "-app-"@ + crate::text::spec_dec((j + 1) as nat) + "-overlay.qcow2"@) by {
            assert(acts@[base + 3 + j] == mid[base + 3 + j]);
        }
        assert(acts@[base] == mid[base] && mid[base] == mid.take(base + 3)[base]);
        assert(acts@[base + 1] == mid[base + 1] && mid[base + 1] == mid.take(base + 3)[base + 1]);
        assert(acts@[base + 2] == mid[base + 2] && mid[base + 2] == mid.take(base + 3)[base + 2]);
    }
    acts
}

fn concat5_path(a: &str, b: &str, c: &str, d: &str) -> (r: String)
    ensures
        r@ == a@ + b@ + c@ + d@,
{
    let mut s = String::from_str(a);
    s.append(b);
    s.append(c);
    s.append(d);
    s
}

} // verus!

//! Resource lifecycle adapter for the virtualization toolchain.
//!
//! The adapter plans every external invocation as a [`CmdRequest`] and
//! interprets every captured [`CommandOutput`]; an unverified driver runs the
//! planned commands and hands their outputs back. All decisions — argument
//! lists, privilege selection, idempotent interpretations of failures, and
//! text-protocol parsing — are made here.
use vstd::prelude::*;
use vstd::string::*;

use crate::command::{needs_privilege, spec_needs_privilege, CmdRequest, CommandOutput, Tool};
use crate::error::Error;
use crate::model::{NetworkInfo, NetworkState, VmInfo, VmKind, VmState};
use crate::text::{concat2, concat3, contains_sub, spec_contains_sub, spec_dec, u64_to_string};

verus! {


/// Adapter for the virtualization toolchain.
#[derive(Debug, Clone, PartialEq)]
pub struct LibvirtAdapter {
    /// Timeout for connectivity tests in seconds.
    pub connect_timeout_secs: u64,
}

impl LibvirtAdapter {
    pub fn new() -> (r: Self)
        ensures
            r.connect_timeout_secs == 5,
    {
        Self { connect_timeout_secs: 5 }
    }
}

// ---------------------------------------------------------------------------
// Request builders
// ---------------------------------------------------------------------------
fn virsh2(sub: &str, arg: &str) -> (r: CmdRequest)
    ensures
        r.tool == Tool::Virsh,
        !r.elevated,
        r.args.deep_view() == seq![sub@, arg@],
{
    let mut args: Vec<String> = Vec::new();
    args.push(String::from_str(sub));
    args.push(String::from_str(arg));
    proof {
        assert(args.deep_view() =~= seq![sub@, arg@]);
    }
    CmdRequest { tool: Tool::Virsh, args, elevated: false }
}

impl LibvirtAdapter {
    /// The status query whose success means "this network exists".
    pub fn network_query(&self, name: &str) -> (r: CmdRequest)
        ensures
            r.tool == Tool::Virsh,
            !r.elevated,
            r.args.deep_view() == seq!["net-info"@, name@],
    {
        virsh2("net-info", name)
    }

    /// The status query whose success means "this VM exists".
    pub fn vm_query(&self, name: &str) -> (r: CmdRequest)
        ensures
            r.tool == Tool::Virsh,
            !r.elevated,
            r.args.deep_view() == seq!["dominfo"@, name@],
    {
        virsh2("dominfo", name)
    }

    /// Lists the names of all defined VMs.
    pub fn list_query(&self) -> (r: CmdRequest)
        ensures
            r.tool == Tool::Virsh,
            !r.elevated,
            r.args.deep_view() == seq!["list"@, "--all"@, "--name"@],
    {
        let mut args: Vec<String> = Vec::new();
        args.push(String::from_str("list"));
        args.push(String::from_str("--all"));
        args.push(String::from_str("--name"));
        proof {
            assert(args.deep_view() =~= seq!["list"@, "--all"@, "--name"@]);
        }
        CmdRequest { tool: Tool::Virsh, args, elevated: false }
    }

    /// Dumps a VM's definition, for disk-path extraction.
    pub fn dumpxml_query(&self, name: &str) -> (r: CmdRequest)
        ensures
            r.tool == Tool::Virsh,
            !r.elevated,
            r.args.deep_view() == seq!["dumpxml"@, name@],
    {
        virsh2("dumpxml", name)
    }

    /// Inspects a disk image, for backing-file resolution.
    pub fn image_info_query(&self, disk_path: &str) -> (r: CmdRequest)
        ensures
            r.tool == Tool::QemuImg,
            !r.elevated,
            r.args.deep_view() == seq!["info"@, disk_path@],
    {
        let mut args: Vec<String> = Vec::new();
        args.push(String::from_str("info"));
        args.push(String::from_str(disk_path));
        proof {
            assert(args.deep_view() =~= seq!["info"@, disk_path@]);
        }
        CmdRequest { tool: Tool::QemuImg, args, elevated: false }
    }

    pub fn start_request(&self, name: &str) -> (r: CmdRequest)
        ensures
            r.tool == Tool::Virsh,
            !r.elevated,
            r.args.deep_view() == seq!["start"@, name@],
    {
        virsh2("start", name)
    }

    pub fn stop_request(&self, name: &str) -> (r: CmdRequest)
        ensures
            r.tool == Tool::Virsh,
            !r.elevated,
            r.args.deep_view() == seq!["shutdown"@, name@],
    {
        virsh2("shutdown", name)
    }

    pub fn destroy_request(&self, name: &str) -> (r: CmdRequest)
        ensures
            r.tool == Tool::Virsh,
            !r.elevated,
            r.args.deep_view() == seq!["destroy"@, name@],
    {
        virsh2("destroy", name)
    }

    pub fn undefine_request(&self, name: &str) -> (r: CmdRequest)
        ensures
            r.tool == Tool::Virsh,
            !r.elevated,
            r.args.deep_view() == seq!["undefine"@, name@],
    {
        virsh2("undefine", name)
    }

    pub fn net_destroy_request(&self, name: &str) -> (r: CmdRequest)
        ensures
            r.tool == Tool::Virsh,
            !r.elevated,
            r.args.deep_view() == seq!["net-destroy"@, name@],
    {
        virsh2("net-destroy", name)
    }

    pub fn net_undefine_request(&self, name: &str) -> (r: CmdRequest)
        ensures
            r.tool == Tool::Virsh,
            !r.elevated,
            r.args.deep_view() == seq!["net-undefine"@, name@],
    {
        virsh2("net-undefine", name)
    }
}

// ---------------------------------------------------------------------------
// Existence checks and idempotent lifecycle interpretations
// ---------------------------------------------------------------------------
impl LibvirtAdapter {
    /// A network exists exactly when its status query exited zero; any other
    /// exit is read as "does not exist", never as an adapter error.
    pub fn network_exists(&self, out: &CommandOutput) -> (r: bool)
        ensures
            r == (out.exit_code == 0),
    {
        out.success()
    }

    /// A VM exists exactly when its status query exited zero.
    pub fn vm_exists(&self, out: &CommandOutput) -> (r: bool)
        ensures
            r == (out.exit_code == 0),
    {
        out.success()
    }

    /// Interprets the probe of `virsh list --all`: failure means no access.
    pub fn check_libvirt_access(&self, out: &CommandOutput) -> (r: Result<(), Error>)
        ensures
            r is Ok <==> out.exit_code == 0,
            out.exit_code != 0 ==> (r matches Err(e) && e matches Error::PermissionDenied(m)
                && m@
                == "Cannot access libvirt. Ensure you are in the 'libvirt' group or run with sudo. Error: "@
                + out.stderr@),
    {
        if out.success() {
            Ok(())
        } else {
            Err(
                Error::PermissionDenied(
                    concat2(
                        "Cannot access libvirt. Ensure you are in the 'libvirt' group or run with sudo. Error: ",
                        out.stderr.as_str(),
                    ),
                ),
            )
        }
    }

    /// Read-only precondition on the shared ingress network: reports, never
    /// creates.
    pub fn ensure_lan_net_exists(&self, lan_net: &str, exists: bool) -> (r: Result<(), Error>)
        ensures
            r is Ok <==> exists,
            !exists ==> (r matches Err(e) && e matches Error::Libvirt(m) && m@ == "LAN network '"@
                + lan_net@
                + "' does not exist in libvirt. Create/verify it via virt-manager (this is your pfSense LAN)."@),
    {
        if exists {
            Ok(())
        } else {
            Err(
                Error::Libvirt(
                    concat3(
                        "LAN network '",
                        lan_net,
                        "' does not exist in libvirt. Create/verify it via virt-manager (this is your pfSense LAN).",
                    ),
                ),
            )
        }
    }

    /// Interprets `virsh start`.
    pub fn start_vm(&self, name: &str, out: &CommandOutput) -> (r: Result<(), Error>)
        ensures
            r is Ok <==> out.exit_code == 0,
            out.exit_code != 0 ==> (r matches Err(e) && e matches Error::Libvirt(m) && m@
                == "Failed to start VM '"@ + name@ + "': "@ + out.stderr@),
    {
        if out.success() {
            Ok(())
        } else {
            Err(Error::Libvirt(concat4_msg("Failed to start VM '", name, "': ", &out.stderr)))
        }
    }

    /// Interprets `virsh shutdown`: "not running" counts as success, so the
    /// teardown primitive is idempotent.
    pub fn stop_vm(&self, name: &str, out: &CommandOutput) -> (r: Result<(), Error>)
        ensures
            r is Ok <==> out.exit_code == 0 || spec_contains_sub(out.stderr@, "not running"@),
            r matches Err(e) ==> (e matches Error::Libvirt(m) && m@ == "Failed to stop VM '"@
                + name@ + "': "@ + out.stderr@),
    {
        if out.success() || contains_sub(out.stderr.as_str(), "not running") {
            Ok(())
        } else {
            Err(Error::Libvirt(concat4_msg("Failed to stop VM '", name, "': ", &out.stderr)))
        }
    }

    /// Interprets `virsh destroy`: "not running" counts as success, so the
    /// teardown primitive is idempotent.
    pub fn destroy_vm(&self, name: &str, out: &CommandOutput) -> (r: Result<(), Error>)
        ensures
            r is Ok <==> out.exit_code == 0 || spec_contains_sub(out.stderr@, "not running"@),
            r matches Err(e) ==> (e matches Error::Libvirt(m) && m@ == "Failed to destroy VM '"@
                + name@ + "': "@ + out.stderr@),
    {
        if out.success() || contains_sub(out.stderr.as_str(), "not running") {
            Ok(())
        } else {
            Err(Error::Libvirt(concat4_msg("Failed to destroy VM '", name, "': ", &out.stderr)))
        }
    }

    /// Interprets `virsh undefine`: "already gone" counts as success.
    pub fn undefine_vm(&self, name: &str, out: &CommandOutput) -> (r: Result<(), Error>)
        ensures
            r is Ok <==> out.exit_code == 0 || spec_contains_sub(
                out.stderr@,
                "failed to get domain"@,
            ),
            r matches Err(e) ==> (e matches Error::Libvirt(m) && m@ == "Failed to undefine VM '"@
                + name@ + "': "@ + out.stderr@),
    {
        if out.success() || contains_sub(out.stderr.as_str(), "failed to get domain") {
            Ok(())
        } else {
            Err(Error::Libvirt(concat4_msg("Failed to undefine VM '", name, "': ", &out.stderr)))
        }
    }

    /// Interprets `virsh net-undefine` after a best-effort `net-destroy`:
    /// "not found" counts as success.
    pub fn destroy_network(&self, name: &str, out: &CommandOutput) -> (r: Result<(), Error>)
        ensures
            r is Ok <==> out.exit_code == 0 || spec_contains_sub(out.stderr@, "not found"@),
            r matches Err(e) ==> (e matches Error::Libvirt(m) && m@
                == "Failed to undefine network '"@ + name@ + "': "@ + out.stderr@),
    {
        if out.success() || contains_sub(out.stderr.as_str(), "not found") {
            Ok(())
        } else {
            Err(
                Error::Libvirt(
                    concat4_msg("Failed to undefine network '", name, "': ", &out.stderr),
                ),
            )
        }
    }
}

fn concat4_msg(a: &str, b: &str, c: &str, d: &String) -> (r: String)
    ensures
        r@ == a@ + b@ + c@ + d@,
{
    let mut s = String::from_str(a);
    s.append(b);
    s.append(c);
    s.append(d.as_str());
    s
}

// ---------------------------------------------------------------------------
// Overlay disk paths
// ---------------------------------------------------------------------------
impl LibvirtAdapter {
    /// `{images_dir}/{role}-gw.qcow2`
    pub fn gateway_overlay_path(&self, images_dir: &str, role: &str) -> (r: String)
        ensures
            r@ == images_dir@ + "/"@ + role@ + "-gw.qcow2"@,
    {
        concat4_msg(images_dir, "/", role, &String::from_str("-gw.qcow2"))
    }

    /// `{images_dir}/{role}-app-{number}-overlay.qcow2`
    pub fn app_overlay_path(&self, images_dir: &str, role: &str, number: u32) -> (r: String)
        ensures
            r@ == images_dir@ + "/"@ + role@ + "-app-"@ + spec_dec(number as nat)
                + "-overlay.qcow2"@,
    {
        let n = u64_to_string(number as u64);
        let mut s = String::from_str(images_dir);
        s.append("/");
        s.append(role);
        s.append("-app-");
        s.append(n.as_str());
        s.append("-overlay.qcow2");
        s
    }

    /// `{cfg_root}/{role}/disposable/disp-{timestamp}.qcow2`; the caller
    /// supplies the timestamp.
    pub fn disposable_overlay_path(&self, cfg_root: &str, role: &str, timestamp: &str) -> (r:
        String)
        ensures
            r@ == cfg_root@ + "/"@ + role@ + "/disposable/disp-"@ + timestamp@ + ".qcow2"@,
    {
        let mut s = String::from_str(cfg_root);
        s.append("/");
        s.append(role);
        s.append("/disposable/disp-");
        s.append(timestamp);
        s.append(".qcow2");
        s
    }

    /// `path` lies at or under `images_dir`, component-wise.
    pub fn is_in_images_dir(&self, path: &str, images_dir: &str) -> (r: bool)
        ensures
            r == crate::command::spec_path_under(path@, images_dir@),
    {
        let mut with_slash = String::from_str(images_dir);
        with_slash.append("/");
        proof {
            reveal_strlit("/");
            assert(with_slash@ =~= images_dir@.push('/'));
        }
        crate::text::eq_str(path, images_dir) || crate::text::starts_with_str(
            path,
            with_slash.as_str(),
        )
    }
}

// ---------------------------------------------------------------------------
// virt-install argument lists
// ---------------------------------------------------------------------------
/// The fixed argument template for a gateway VM: imported qcow2 disk, the
/// shared ingress network and the role network, a shared-filesystem mount of
/// the role directory, and no interactive console.
pub open spec fn spec_gateway_args(
    vm_name: Seq<char>,
    overlay_path: Seq<char>,
    lan_net: Seq<char>,
    role_net: Seq<char>,
    role_dir: Seq<char>,
    os_variant: Seq<char>,
    ram_mb: nat,
) -> Seq<Seq<char>> {
    seq![
        "--name"@,
        vm_name,
        "--memory"@,
        spec_dec(ram_mb),
        "--vcpus"@,
        "1"@,
        "--import"@,
        "--disk"@,
        "path="@ + overlay_path + ",format=qcow2"@,
        "--network"@,
        "network="@ + lan_net + ",model=virtio"@,
        "--network"@,
        "network="@ + role_net + ",model=virtio"@,
        "--filesystem"@,
        "source="@ + role_dir + ",target=proxy,accessmode=mapped"@,
        "--os-variant"@,
        os_variant,
        "--noautoconsole"@,
    ]
}

/// The fixed argument template for an app VM: one network, an optional
/// shared-filesystem mount.
pub open spec fn spec_app_args(
    vm_name: Seq<char>,
    overlay_path: Seq<char>,
    role_net: Seq<char>,
    os_variant: Seq<char>,
    ram_mb: nat,
    share_dir: Option<Seq<char>>,
) -> Seq<Seq<char>> {
    let base = seq![
        "--name"@,
        vm_name,
        "--memory"@,
        spec_dec(ram_mb),
        "--vcpus"@,
        "2"@,
        "--import"@,
        "--disk"@,
        "path="@ + overlay_path + ",format=qcow2"@,
        "--network"@,
        "network="@ + role_net + ",model=virtio"@,
        "--os-variant"@,
        os_variant,
        "--noautoconsole"@,
    ];
    match share_dir {
        None => base,
        Some(share) => base.push("--filesystem"@).push(
            "source="@ + share + ",target=shared,accessmode=mapped"@,
        ),
    }
}

/// The fixed argument template for a disposable VM: transient, so the
/// runtime discards its state on shutdown.
pub open spec fn spec_disposable_args(
    vm_name: Seq<char>,
    overlay_path: Seq<char>,
    role_net: Seq<char>,
    os_variant: Seq<char>,
    ram_mb: nat,
) -> Seq<Seq<char>> {
    seq![
        "--name"@,
        vm_name,
        "--memory"@,
        spec_dec(ram_mb),
        "--vcpus"@,
        "2"@,
        "--import"@,
        "--transient"@,
        "--disk"@,
        "path="@ + overlay_path + ",format=qcow2"@,
        "--network"@,
        "network="@ + role_net + ",model=virtio"@,
        "--os-variant"@,
        os_variant,
        "--noautoconsole"@,
    ]
}

impl LibvirtAdapter {
    pub fn build_gateway_virt_install_args(
        &self,
        vm_name: &str,
        overlay_path: &str,
        lan_net: &str,
        role_net: &str,
        role_dir: &str,
        os_variant: &str,
        ram_mb: u32,
    ) -> (r: Vec<String>)
        ensures
            r.deep_view() == spec_gateway_args(
                vm_name@,
                overlay_path@,
                lan_net@,
                role_net@,
                role_dir@,
                os_variant@,
                ram_mb as nat,
            ),
    {
        let mut args: Vec<String> = Vec::new();
        args.push(String::from_str("--name"));
        args.push(String::from_str(vm_name));
        args.push(String::from_str("--memory"));
        args.push(u64_to_string(ram_mb as u64));
        args.push(String::from_str("--vcpus"));
        args.push(String::from_str("1"));
        args.push(String::from_str("--import"));
        args.push(String::from_str("--disk"));
        args.push(concat3("path=", overlay_path, ",format=qcow2"));
        args.push(String::from_str("--network"));
        args.push(concat3("network=", lan_net, ",model=virtio"));
        args.push(String::from_str("--network"));
        args.push(concat3("network=", role_net, ",model=virtio"));
        args.push(String::from_str("--filesystem"));
        args.push(concat3("source=", role_dir, ",target=proxy,accessmode=mapped"));
        args.push(String::from_str("--os-variant"));
        args.push(String::from_str(os_variant));
        args.push(String::from_str("--noautoconsole"));
        proof {
            assert(args.deep_view() =~= spec_gateway_args(
                vm_name@,
                overlay_path@,
                lan_net@,
                role_net@,
                role_dir@,
                os_variant@,
                ram_mb as nat,
            ));
        }
        args
    }

    pub fn build_app_virt_install_args(
        &self,
        vm_name: &str,
        overlay_path: &str,
        role_net: &str,
        os_variant: &str,
        ram_mb: u32,
        share_dir: Option<&str>,
    ) -> (r: Vec<String>)
        ensures
            r.deep_view() == spec_app_args(
                vm_name@,
                overlay_path@,
                role_net@,
                os_variant@,
                ram_mb as nat,
                match share_dir {
                    None => None,
                    Some(s) => Some(s@),
                },
            ),
    {
        let mut args: Vec<String> = Vec::new();
        args.push(String::from_str("--name"));
        args.push(String::from_str(vm_name));
        args.push(String::from_str("--memory"));
        args.push(u64_to_string(ram_mb as u64));
        args.push(String::from_str("--vcpus"));
        args.push(String::from_str("2"));
        args.push(String::from_str("--import"));
        args.push(String::from_str("--disk"));
        args.push(concat3("path=", overlay_path, ",format=qcow2"));
        args.push(String::from_str("--network"));
        args.push(concat3("network=", role_net, ",model=virtio"));
        args.push(String::from_str("--os-variant"));
        args.push(String::from_str(os_variant));
        args.push(String::from_str("--noautoconsole"));
        proof {
            assert(args.deep_view() =~= spec_app_args(
                vm_name@,
                overlay_path@,
                role_net@,
                os_variant@,
                ram_mb as nat,
                None,
            ));
        }
        match share_dir {
            Some(share) => {
                args.push(String::from_str("--filesystem"));
                args.push(concat3("source=", share, ",target=shared,accessmode=mapped"));
                proof {
                    assert(args.deep_view() =~= spec_app_args(
                        vm_name@,
                        overlay_path@,
                        role_net@,
                        os_variant@,
                        ram_mb as nat,
                        Some(share@),
                    ));
                }
            },
            None => {},
        }
        args
    }

    pub fn build_disposable_virt_install_args(
        &self,
        vm_name: &str,
        overlay_path: &str,
        role_net: &str,
        os_variant: &str,
        ram_mb: u32,
    ) -> (r: Vec<String>)
        ensures
            r.deep_view() == spec_disposable_args(
                vm_name@,
                overlay_path@,
                role_net@,
                os_variant@,
                ram_mb as nat,
            ),
    {
        let mut args: Vec<String> = Vec::new();
        args.push(String::from_str("--name"));
        args.push(String::from_str(vm_name));
        args.push(String::from_str("--memory"));
        args.push(u64_to_string(ram_mb as u64));
        args.push(String::from_str("--vcpus"));
        args.push(String::from_str("2"));
        args.push(String::from_str("--import"));
        args.push(String::from_str("--transient"));
        args.push(String::from_str("--disk"));
        args.push(concat3("path=", overlay_path, ",format=qcow2"));
        args.push(String::from_str("--network"));
        args.push(concat3("network=", role_net, ",model=virtio"));
        args.push(String::from_str("--os-variant"));
        args.push(String::from_str(os_variant));
        args.push(String::from_str("--noautoconsole"));
        proof {
            assert(args.deep_view() =~= spec_disposable_args(
                vm_name@,
                overlay_path@,
                role_net@,
                os_variant@,
                ram_mb as nat,
            ));
        }
        args
    }
}

// ---------------------------------------------------------------------------
// VM creation: fail fast on duplicates, then one virt-install call
// ---------------------------------------------------------------------------
impl LibvirtAdapter {
    /// Plans creation of a gateway VM. `already_exists` is the result of the
    /// `vm_query` probe; a duplicate fails fast with `AlreadyExists` before
    /// anything is invoked.
    pub fn create_gateway_vm(
        &self,
        vm_name: &str,
        overlay_path: &str,
        lan_net: &str,
        role_net: &str,
        role_dir: &str,
        os_variant: &str,
        ram_mb: u32,
        already_exists: bool,
    ) -> (r: Result<CmdRequest, Error>)
        ensures
            r is Ok <==> !already_exists,
            already_exists ==> (r matches Err(e) && e matches Error::AlreadyExists(m) && m@
                == "VM '"@ + vm_name@ + "' already exists"@),
            r matches Ok(req) ==> req.tool == Tool::VirtInstall && !req.elevated
                && req.args.deep_view() == spec_gateway_args(
                vm_name@,
                overlay_path@,
                lan_net@,
                role_net@,
                role_dir@,
                os_variant@,
                ram_mb as nat,
            ),
    {
        if already_exists {
            return Err(Error::AlreadyExists(concat3("VM '", vm_name, "' already exists")));
        }
        let args = self.build_gateway_virt_install_args(
            vm_name,
            overlay_path,
            lan_net,
            role_net,
            role_dir,
            os_variant,
            ram_mb,
        );
        Ok(CmdRequest { tool: Tool::VirtInstall, args, elevated: false })
    }

    /// Plans creation of an app VM; duplicates fail fast.
    pub fn create_app_vm(
        &self,
        vm_name: &str,
        overlay_path: &str,
        role_net: &str,
        os_variant: &str,
        ram_mb: u32,
        share_dir: Option<&str>,
        already_exists: bool,
    ) -> (r: Result<CmdRequest, Error>)
        ensures
            r is Ok <==> !already_exists,
            already_exists ==> (r matches Err(e) && e matches Error::AlreadyExists(m) && m@
                == "VM '"@ + vm_name@ + "' already exists"@),
            r matches Ok(req) ==> req.tool == Tool::VirtInstall && !req.elevated
                && req.args.deep_view() == spec_app_args(
                vm_name@,
                overlay_path@,
                role_net@,
                os_variant@,
                ram_mb as nat,
                match share_dir {
                    None => None,
                    Some(s) => Some(s@),
                },
            ),
    {
        if already_exists {
            return Err(Error::AlreadyExists(concat3("VM '", vm_name, "' already exists")));
        }
        let args = self.build_app_virt_install_args(
            vm_name,
            overlay_path,
            role_net,
            os_variant,
            ram_mb,
            share_dir,
        );
        Ok(CmdRequest { tool: Tool::VirtInstall, args, elevated: false })
    }

    /// Plans creation of a disposable (transient) VM; duplicates fail fast,
    /// as for the other kinds.
    pub fn create_disposable_vm(
        &self,
        vm_name: &str,
        overlay_path: &str,
        role_net: &str,
        os_variant: &str,
        ram_mb: u32,
        already_exists: bool,
    ) -> (r: Result<CmdRequest, Error>)
        ensures
            r is Ok <==> !already_exists,
            already_exists ==> (r matches Err(e) && e matches Error::AlreadyExists(m) && m@
                == "VM '"@ + vm_name@ + "' already exists"@),
            r matches Ok(req) ==> req.tool == Tool::VirtInstall && !req.elevated
                && req.args.deep_view() == spec_disposable_args(
                vm_name@,
                overlay_path@,
                role_net@,
                os_variant@,
                ram_mb as nat,
            ),
    {
        if already_exists {
            return Err(Error::AlreadyExists(concat3("VM '", vm_name, "' already exists")));
        }
        let args = self.build_disposable_virt_install_args(
            vm_name,
            overlay_path,
            role_net,
            os_variant,
            ram_mb,
        );
        Ok(CmdRequest { tool: Tool::VirtInstall, args, elevated: false })
    }

    /// Interprets the `virt-install` output for a gateway or app VM.
    pub fn vm_create_result(&self, vm_name: &str, out: &CommandOutput) -> (r: Result<(), Error>)
        ensures
            r is Ok <==> out.exit_code == 0,
            out.exit_code != 0 ==> (r matches Err(e) && e matches Error::Libvirt(m) && m@
                == "Failed to create VM '"@ + vm_name@ + "': "@ + out.stderr@),
    {
        if out.success() {
            Ok(())
        } else {
            Err(Error::Libvirt(concat4_msg("Failed to create VM '", vm_name, "': ", &out.stderr)))
        }
    }

    /// Interprets the `virt-install` output for a disposable VM.
    pub fn disposable_create_result(&self, vm_name: &str, out: &CommandOutput) -> (r: Result<
        (),
        Error,
    >)
        ensures
            r is Ok <==> out.exit_code == 0,
            out.exit_code != 0 ==> (r matches Err(e) && e matches Error::Libvirt(m) && m@
                == "Failed to create disposable VM '"@ + vm_name@ + "': "@ + out.stderr@),
    {
        if out.success() {
            Ok(())
        } else {
            Err(
                Error::Libvirt(
                    concat4_msg("Failed to create disposable VM '", vm_name, "': ", &out.stderr),
                ),
            )
        }
    }
}

// ---------------------------------------------------------------------------
// Colon-delimited status output
// ---------------------------------------------------------------------------
/// A `key: value` line split at its first colon, both sides trimmed; a line
/// with no colon carries nothing.
pub open spec fn spec_kv_split(line: Seq<char>) -> Option<(Seq<char>, Seq<char>)> {
    match crate::text::spec_find(line, ':') {
        None => None,
        Some(i) => Some((crate::text::spec_trim(line.take(i)), crate::text::spec_trim(line.skip(i + 1)))),
    }
}

/// The network state that a sequence of status lines denotes: the last
/// `Active:` line wins; `yes` means active; no such line leaves `Unknown`.
pub open spec fn spec_net_state_of(lines: Seq<Seq<char>>) -> NetworkState
    decreases lines.len(),
{
    if lines.len() == 0 {
        NetworkState::Unknown
    } else {
        match spec_kv_split(lines.last()) {
            Some(kv) => if crate::text::spec_eq_ignore_case(kv.0, "active"@) {
                if crate::text::spec_eq_ignore_case(kv.1, "yes"@) {
                    NetworkState::Active
                } else {
                    NetworkState::Inactive
                }
            } else {
                spec_net_state_of(lines.drop_last())
            },
            None => spec_net_state_of(lines.drop_last()),
        }
    }
}

/// The autostart flag that a sequence of status lines denotes: the last
/// `Autostart:` line wins; absent means `false`.
pub open spec fn spec_net_autostart_of(lines: Seq<Seq<char>>) -> bool
    decreases lines.len(),
{
    if lines.len() == 0 {
        false
    } else {
        match spec_kv_split(lines.last()) {
            Some(kv) => if crate::text::spec_eq_ignore_case(kv.0, "autostart"@) {
                crate::text::spec_eq_ignore_case(kv.1, "yes"@)
            } else {
                spec_net_autostart_of(lines.drop_last())
            },
            None => spec_net_autostart_of(lines.drop_last()),
        }
    }
}

/// The VM state that a sequence of `dominfo` lines denotes: the last
/// `State:` line wins; absent means `Unknown`.
pub open spec fn spec_dominfo_state_of(lines: Seq<Seq<char>>) -> VmState
    decreases lines.len(),
{
    if lines.len() == 0 {
        VmState::Unknown
    } else {
        match spec_kv_split(lines.last()) {
            Some(kv) => if crate::text::spec_eq_ignore_case(kv.0, "state"@) {
                crate::model::spec_vm_state_of(kv.1)
            } else {
                spec_dominfo_state_of(lines.drop_last())
            },
            None => spec_dominfo_state_of(lines.drop_last()),
        }
    }
}

/// Splits one output line into trimmed key and value, exactly as
/// `spec_kv_split` describes.
fn kv_split(line: &str) -> (r: Option<(String, String)>)
    ensures
        r is Some <==> spec_kv_split(line@) is Some,
        r matches Some(kv) ==> (spec_kv_split(line@) matches Some(skv) && kv.0@ == skv.0 && kv.1@
            == skv.1),
{
    match crate::text::split_once_at(line, ':') {
        None => None,
        Some((k, v)) => Some((crate::text::trim_str(k.as_str()), crate::text::trim_str(v.as_str()))),
    }
}

impl LibvirtAdapter {
    /// Parses `virsh net-info` output. A failed query is "no such network";
    /// unrecognized keys are ignored.
    pub fn get_network_info(&self, name: &str, out: &CommandOutput) -> (r: Option<NetworkInfo>)
        ensures
            r is Some <==> out.exit_code == 0,
            r matches Some(info) ==> {
                let lines = crate::text::spec_split(out.stdout@, '\n');
                &&& info.name@ == name@
                &&& info.state == spec_net_state_of(lines)
                &&& info.autostart == spec_net_autostart_of(lines)
            },
    {
        if !out.success() {
            return None;
        }
        let lines = crate::text::split_on(out.stdout.as_str(), '\n');
        let ghost all = lines.deep_view();
        let mut state = NetworkState::Unknown;
        let mut autostart = false;
        let mut i: usize = 0;
        while i < lines.len()
            invariant
                all == lines.deep_view(),
                i <= lines.len(),
                state == spec_net_state_of(all.take(i as int)),
                autostart == spec_net_autostart_of(all.take(i as int)),
            decreases lines.len() - i,
        {
            proof {
                assert(all.take(i + 1).drop_last() =~= all.take(i as int));
                assert(all.take(i + 1).last() == all[i as int]);
                reveal_strlit("active");
                reveal_strlit("autostart");
                assert(crate::text::spec_lower("active"@).len() == 6);
                assert(crate::text::spec_lower("autostart"@).len() == 9);
            }
            match kv_split(lines[i].as_str()) {
                Some((key, value)) => {
                    if crate::text::eq_ignore_case(key.as_str(), "active") {
                        if crate::text::eq_ignore_case(value.as_str(), "yes") {
                            state = NetworkState::Active;
                        } else {
                            state = NetworkState::Inactive;
                        }
                    } else if crate::text::eq_ignore_case(key.as_str(), "autostart") {
                        autostart = crate::text::eq_ignore_case(value.as_str(), "yes");
                    }
                },
                None => {},
            }
            i = i + 1;
        }
        proof {
            assert(all.take(lines.len() as int) =~= all);
        }
        Some(NetworkInfo { name: String::from_str(name), state, autostart })
    }
}

// ---------------------------------------------------------------------------
// Name-derived VM identity
// ---------------------------------------------------------------------------
/// The kind a VM name denotes, by the naming convention: `-gw` suffix for a
/// gateway, `-app-` infix for an app VM, `disp-` prefix for a disposable.
pub open spec fn spec_vm_kind_of_name(name: Seq<char>) -> VmKind {
    if crate::text::spec_ends_with(name, "-gw"@) {
        VmKind::ProxyGateway
    } else if spec_contains_sub(name, "-app-"@) {
        VmKind::App
    } else if crate::text::spec_starts_with(name, "disp-"@) {
        VmKind::DisposableApp
    } else {
        VmKind::ProxyGateway
    }
}

/// The role a VM name denotes: what precedes the `-gw` suffix or the first
/// `-app-` infix; a disposable VM's name carries no role.
pub open spec fn spec_vm_role_of_name(name: Seq<char>) -> Option<Seq<char>> {
    if crate::text::spec_ends_with(name, "-gw"@) {
        Some(name.take(name.len() - 3))
    } else if spec_contains_sub(name, "-app-"@) {
        match crate::text::spec_find_sub(name, "-app-"@) {
            Some(i) => Some(name.take(i)),
            None => None,
        }
    } else {
        None
    }
}

/// The single place where the naming convention is read back.
pub fn vm_identity_from_name(name: &str) -> (r: (VmKind, Option<String>))
    ensures
        r.0 == spec_vm_kind_of_name(name@),
        r.1 is Some <==> spec_vm_role_of_name(name@) is Some,
        r.1 matches Some(role) ==> (spec_vm_role_of_name(name@) matches Some(sr) && role@ == sr),
{
    let n = name.unicode_len();
    if crate::text::ends_with_str(name, "-gw") {
        proof {
            reveal_strlit("-gw");
        }
        let role = name.substring_char(0, n - 3);
        proof {
            assert(role@ =~= name@.take(name@.len() - 3));
        }
        (VmKind::ProxyGateway, Some(String::from_str(role)))
    } else {
        match crate::text::find_sub(name, "-app-") {
            Some(i) => {
                let role = name.substring_char(0, i);
                proof {
                    assert(role@ =~= name@.take(i as int));
                    assert(spec_contains_sub(name@, "-app-"@));
                }
                (VmKind::App, Some(String::from_str(role)))
            },
            None => {
                if crate::text::starts_with_str(name, "disp-") {
                    (VmKind::DisposableApp, None)
                } else {
                    (VmKind::ProxyGateway, None)
                }
            },
        }
    }
}

impl LibvirtAdapter {
    /// Parses `virsh dominfo` output and infers kind and role from the name.
    pub fn get_vm_info(&self, name: &str, out: &CommandOutput) -> (r: Option<VmInfo>)
        ensures
            r is Some <==> out.exit_code == 0,
            r matches Some(info) ==> {
                &&& info.name@ == name@
                &&& info.state == spec_dominfo_state_of(crate::text::spec_split(out.stdout@, '\n'))
                &&& info.kind == spec_vm_kind_of_name(name@)
                &&& (info.role is Some <==> spec_vm_role_of_name(name@) is Some)
                &&& (info.role matches Some(role) ==> (spec_vm_role_of_name(name@) matches Some(sr)
                    && role@ == sr))
            },
    {
        if !out.success() {
            return None;
        }
        let lines = crate::text::split_on(out.stdout.as_str(), '\n');
        let ghost all = lines.deep_view();
        let mut state = VmState::Unknown;
        let mut i: usize = 0;
        while i < lines.len()
            invariant
                all == lines.deep_view(),
                i <= lines.len(),
                state == spec_dominfo_state_of(all.take(i as int)),
            decreases lines.len() - i,
        {
            proof {
                assert(all.take(i + 1).drop_last() =~= all.take(i as int));
                assert(all.take(i + 1).last() == all[i as int]);
            }
            match kv_split(lines[i].as_str()) {
                Some((key, value)) => {
                    if crate::text::eq_ignore_case(key.as_str(), "state") {
                        state = VmState::from_virsh_state(value.as_str());
                    }
                },
                None => {},
            }
            i = i + 1;
        }
        proof {
            assert(all.take(lines.len() as int) =~= all);
        }
        let (kind, role) = vm_identity_from_name(name);
        Some(VmInfo { name: String::from_str(name), state, kind, role })
    }

    /// Parses `virsh list --all --name` output: one trimmed, non-empty name
    /// per line. A failed listing is an adapter error.
    pub fn parse_vm_names(&self, out: &CommandOutput) -> (r: Result<Vec<String>, Error>)
        ensures
            r is Ok <==> out.exit_code == 0,
            r matches Ok(names) ==> names.deep_view() == spec_name_lines(
                crate::text::spec_split(out.stdout@, '\n'),
            ),
            out.exit_code != 0 ==> (r matches Err(e) && e matches Error::Libvirt(m) && m@
                == "Failed to list VMs: "@ + out.stderr@),
    {
        if !out.success() {
            return Err(Error::Libvirt(concat2("Failed to list VMs: ", out.stderr.as_str())));
        }
        let lines = crate::text::split_on(out.stdout.as_str(), '\n');
        let ghost all = lines.deep_view();
        let mut names: Vec<String> = Vec::new();
        let mut i: usize = 0;
        while i < lines.len()
            invariant
                all == lines.deep_view(),
                i <= lines.len(),
                names.deep_view() == spec_name_lines(all.take(i as int)),
            decreases lines.len() - i,
        {
            proof {
                assert(all.take(i + 1).drop_last() =~= all.take(i as int));
                assert(all.take(i + 1).last() == all[i as int]);
            }
            let t = crate::text::trim_str(lines[i].as_str());
            if t.as_str().unicode_len() > 0 {
                names.push(t);
                proof {
                    assert(names.deep_view() =~= spec_name_lines(all.take(i + 1)));
                }
            }
            i = i + 1;
        }
        proof {
            assert(all.take(lines.len() as int) =~= all);
        }
        Ok(names)
    }
}

/// The trimmed, non-empty lines, in order.
pub open spec fn spec_name_lines(lines: Seq<Seq<char>>) -> Seq<Seq<char>>
    decreases lines.len(),
{
    if lines.len() == 0 {
        Seq::<Seq<char>>::empty()
    } else {
        let rest = spec_name_lines(lines.drop_last());
        let t = crate::text::spec_trim(lines.last());
        if t.len() > 0 {
            rest.push(t)
        } else {
            rest
        }
    }
}

// ---------------------------------------------------------------------------
// Disk-path and backing-file extraction
// ---------------------------------------------------------------------------
/// The text between `open` (first occurrence) and the next `close` character.
pub open spec fn spec_extract_delim(t: Seq<char>, open: Seq<char>, close: char) -> Option<
    Seq<char>,
> {
    match crate::text::spec_find_sub(t, open) {
        None => None,
        Some(i) => {
            let rest = t.skip(i + open.len());
            match crate::text::spec_find(rest, close) {
                None => None,
                Some(j) => Some(rest.take(j)),
            }
        },
    }
}

fn extract_delim(t: &str, open: &str, close: char) -> (r: Option<String>)
    ensures
        r is Some <==> spec_extract_delim(t@, open@, close) is Some,
        r matches Some(p) ==> (spec_extract_delim(t@, open@, close) matches Some(sp) && p@ == sp),
{
    let n = t.unicode_len();
    match crate::text::find_sub(t, open) {
        None => None,
        Some(i) => {
            let on = open.unicode_len();
            let rest = t.substring_char(i + on, n);
            proof {
                assert(rest@ =~= t@.skip(i + open@.len()));
            }
            match crate::text::split_once_at(rest, close) {
                None => None,
                Some((before, _after)) => Some(before),
            }
        },
    }
}

/// The disk path a definition line carries: the first `<source file=` line
/// with a quoted path, single quotes tried before double quotes.
pub open spec fn spec_disk_of_line(line: Seq<char>) -> Option<Seq<char>> {
    let t = crate::text::spec_trim(line);
    if !spec_contains_sub(t, "<source file="@) {
        None
    } else {
        match spec_extract_delim(t, "file='"@, '\'') {
            Some(p) => Some(p),
            None => spec_extract_delim(t, "file=\""@, '"'),
        }
    }
}

/// The first line that yields a disk path decides.
pub open spec fn spec_disk_of_lines(lines: Seq<Seq<char>>) -> Option<Seq<char>>
    decreases lines.len(),
{
    if lines.len() == 0 {
        None
    } else {
        match spec_disk_of_line(lines[0]) {
            Some(p) => Some(p),
            None => spec_disk_of_lines(lines.skip(1)),
        }
    }
}

proof fn lemma_disk_lines_at(lines: Seq<Seq<char>>, i: int)
    requires
        0 <= i < lines.len(),
        forall|j: int| 0 <= j < i ==> spec_disk_of_line(#[trigger] lines[j]) is None,
        spec_disk_of_line(lines[i]) is Some,
    ensures
        spec_disk_of_lines(lines) == spec_disk_of_line(lines[i]),
    decreases i,
{
    if i > 0 {
        assert(spec_disk_of_line(lines[0]) is None);
        assert(forall|j: int|
            0 <= j < i - 1 ==> lines.skip(1)[j] == lines[j + 1] && spec_disk_of_line(
                #[trigger] lines.skip(1)[j],
            ) is None);
        assert(lines.skip(1)[i - 1] == lines[i]);
        lemma_disk_lines_at(lines.skip(1), i - 1);
    }
}

proof fn lemma_disk_lines_none(lines: Seq<Seq<char>>)
    requires
        forall|j: int| 0 <= j < lines.len() ==> spec_disk_of_line(#[trigger] lines[j]) is None,
    ensures
        spec_disk_of_lines(lines) is None,
    decreases lines.len(),
{
    if lines.len() > 0 {
        assert(forall|j: int|
            0 <= j < lines.skip(1).len() ==> lines.skip(1)[j] == lines[j + 1]
                && spec_disk_of_line(#[trigger] lines.skip(1)[j]) is None);
        lemma_disk_lines_none(lines.skip(1));
    }
}

fn disk_of_line(line: &str) -> (r: Option<String>)
    ensures
        r is Some <==> spec_disk_of_line(line@) is Some,
        r matches Some(p) ==> (spec_disk_of_line(line@) matches Some(sp) && p@ == sp),
{
    let t = crate::text::trim_str(line);
    if !contains_sub(t.as_str(), "<source file=") {
        return None;
    }
    match extract_delim(t.as_str(), "file='", '\'') {
        Some(p) => Some(p),
        None => extract_delim(t.as_str(), "file=\"", '"'),
    }
}

impl LibvirtAdapter {
    /// Extracts a VM's disk-image path from its dumped definition: a failed
    /// dump, or a definition with no recognizable disk source, is `None`.
    pub fn get_vm_disk_path(&self, out: &CommandOutput) -> (r: Option<String>)
        ensures
            out.exit_code != 0 ==> r is None,
            out.exit_code == 0 ==> {
                let spec_r = spec_disk_of_lines(crate::text::spec_split(out.stdout@, '\n'));
                &&& (r is Some <==> spec_r is Some)
                &&& (r matches Some(p) ==> (spec_r matches Some(sp) && p@ == sp))
            },
    {
        if !out.success() {
            return None;
        }
        let lines = crate::text::split_on(out.stdout.as_str(), '\n');
        let ghost all = lines.deep_view();
        let mut i: usize = 0;
        while i < lines.len()
            invariant
                out.exit_code == 0,
                all == lines.deep_view(),
                all == crate::text::spec_split(out.stdout@, '\n'),
                i <= lines.len(),
                forall|j: int| 0 <= j < i ==> spec_disk_of_line(#[trigger] all[j]) is None,
            decreases lines.len() - i,
        {
            match disk_of_line(lines[i].as_str()) {
                Some(p) => {
                    proof {
                        lemma_disk_lines_at(all, i as int);
                    }
                    return Some(p);
                },
                None => {},
            }
            i = i + 1;
        }
        proof {
            lemma_disk_lines_none(all);
        }
        None
    }
}

/// The backing path a `qemu-img info` line carries: after a
/// `backing file:` prefix, the first whitespace-free token, when non-empty.
pub open spec fn spec_backing_of_line(line: Seq<char>) -> Option<Seq<char>> {
    let t = crate::text::spec_trim(line);
    if crate::text::spec_starts_with(t, "backing file:"@) {
        let rest = crate::text::spec_trim(t.skip("backing file:"@.len() as int));
        let w = crate::text::spec_first_word(rest);
        if w.len() > 0 {
            Some(w)
        } else {
            None
        }
    } else {
        None
    }
}

/// The first line that yields a backing path decides.
pub open spec fn spec_backing_of_lines(lines: Seq<Seq<char>>) -> Option<Seq<char>>
    decreases lines.len(),
{
    if lines.len() == 0 {
        None
    } else {
        match spec_backing_of_line(lines[0]) {
            Some(p) => Some(p),
            None => spec_backing_of_lines(lines.skip(1)),
        }
    }
}

proof fn lemma_backing_lines_at(lines: Seq<Seq<char>>, i: int)
    requires
        0 <= i < lines.len(),
        forall|j: int| 0 <= j < i ==> spec_backing_of_line(#[trigger] lines[j]) is None,
        spec_backing_of_line(lines[i]) is Some,
    ensures
        spec_backing_of_lines(lines) == spec_backing_of_line(lines[i]),
    decreases i,
{
    if i > 0 {
        assert(spec_backing_of_line(lines[0]) is None);
        assert(forall|j: int|
            0 <= j < i - 1 ==> lines.skip(1)[j] == lines[j + 1] && spec_backing_of_line(
                #[trigger] lines.skip(1)[j],
            ) is None);
        assert(lines.skip(1)[i - 1] == lines[i]);
        lemma_backing_lines_at(lines.skip(1), i - 1);
    }
}

proof fn lemma_backing_lines_none(lines: Seq<Seq<char>>)
    requires
        forall|j: int| 0 <= j < lines.len() ==> spec_backing_of_line(#[trigger] lines[j]) is None,
    ensures
        spec_backing_of_lines(lines) is None,
    decreases lines.len(),
{
    if lines.len() > 0 {
        assert(forall|j: int|
            0 <= j < lines.skip(1).len() ==> lines.skip(1)[j] == lines[j + 1]
                && spec_backing_of_line(#[trigger] lines.skip(1)[j]) is None);
        lemma_backing_lines_none(lines.skip(1));
    }
}

fn backing_of_line(line: &str) -> (r: Option<String>)
    ensures
        r is Some <==> spec_backing_of_line(line@) is Some,
        r matches Some(p) ==> (spec_backing_of_line(line@) matches Some(sp) && p@ == sp),
{
    let t = crate::text::trim_str(line);
    if !crate::text::starts_with_str(t.as_str(), "backing file:") {
        return None;
    }
    proof {
        reveal_strlit("backing file:");
    }
    let n = t.as_str().unicode_len();
    let rest_raw = t.as_str().substring_char(13, n);
    proof {
        assert(rest_raw@ =~= t@.skip("backing file:"@.len() as int));
    }
    let rest = crate::text::trim_str(rest_raw);
    let w = crate::text::first_word(rest.as_str());
    if w.as_str().unicode_len() > 0 {
        Some(w)
    } else {
        None
    }
}

impl LibvirtAdapter {
    /// Resolves the one-level qcow2 backing reference from `qemu-img info`
    /// output; a failed inspection is `None`.
    pub fn get_backing_file(&self, out: &CommandOutput) -> (r: Option<String>)
        ensures
            out.exit_code != 0 ==> r is None,
            out.exit_code == 0 ==> {
                let spec_r = spec_backing_of_lines(crate::text::spec_split(out.stdout@, '\n'));
                &&& (r is Some <==> spec_r is Some)
                &&& (r matches Some(p) ==> (spec_r matches Some(sp) && p@ == sp))
            },
    {
        if !out.success() {
            return None;
        }
        let lines = crate::text::split_on(out.stdout.as_str(), '\n');
        let ghost all = lines.deep_view();
        let mut i: usize = 0;
        while i < lines.len()
            invariant
                out.exit_code == 0,
                all == lines.deep_view(),
                all == crate::text::spec_split(out.stdout@, '\n'),
                i <= lines.len(),
                forall|j: int| 0 <= j < i ==> spec_backing_of_line(#[trigger] all[j]) is None,
            decreases lines.len() - i,
        {
            match backing_of_line(lines[i].as_str()) {
                Some(p) => {
                    proof {
                        lemma_backing_lines_at(all, i as int);
                    }
                    return Some(p);
                },
                None => {},
            }
            i = i + 1;
        }
        proof {
            lemma_backing_lines_none(all);
        }
        None
    }
}

// ---------------------------------------------------------------------------
// Path helpers
// ---------------------------------------------------------------------------
/// The directory part of a path: what precedes the last slash (the root for
/// a top-level entry), or nothing for a bare name.
pub open spec fn spec_parent_dir(p: Seq<char>) -> Option<Seq<char>> {
    match crate::text::spec_rfind(p, '/') {
        None => None,
        Some(i) => if i == 0 {
            Some("/"@)
        } else {
            Some(p.take(i))
        },
    }
}

pub fn parent_dir(p: &str) -> (r: Option<String>)
    ensures
        r is Some <==> spec_parent_dir(p@) is Some,
        r matches Some(d) ==> (spec_parent_dir(p@) matches Some(sd) && d@ == sd),
{
    match crate::text::rfind_char(p, '/') {
        None => None,
        Some(i) => {
            if i == 0 {
                Some(String::from_str("/"))
            } else {
                let d = p.substring_char(0, i);
                proof {
                    assert(d@ =~= p@.take(i as int));
                }
                Some(String::from_str(d))
            }
        },
    }
}

/// The file-name part of a path: what follows the last slash.
pub open spec fn spec_file_name(p: Seq<char>) -> Seq<char> {
    match crate::text::spec_rfind(p, '/') {
        None => p,
        Some(i) => p.skip(i + 1),
    }
}

pub fn file_name_of(p: &str) -> (r: String)
    ensures
        r@ == spec_file_name(p@),
{
    let n = p.unicode_len();
    match crate::text::rfind_char(p, '/') {
        None => String::from_str(p),
        Some(i) => {
            let f = p.substring_char(i + 1, n);
            proof {
                assert(f@ =~= p@.skip(i + 1));
            }
            String::from_str(f)
        },
    }
}

// ---------------------------------------------------------------------------
// Overlay disks: plans over probed facts, and interpreters
// ---------------------------------------------------------------------------
/// The planned commands for one overlay creation, in order: an optional
/// parent-directory creation, the `qemu-img create` call, and an optional
/// permission fix after an elevated creation. Each is run by the driver; the
/// first and last are best-effort.
#[derive(Debug, Clone, PartialEq)]
pub struct OverlayPlan {
    pub mkdir_parent: Option<CmdRequest>,
    pub create: CmdRequest,
    pub chmod: Option<CmdRequest>,
}

/// `qemu-img create -f qcow2 -F qcow2 -b <template> <overlay>`
pub open spec fn spec_overlay_create_args(template: Seq<char>, overlay: Seq<char>) -> Seq<
    Seq<char>,
> {
    seq!["create"@, "-f"@, "qcow2"@, "-F"@, "qcow2"@, "-b"@, template, overlay]
}

impl LibvirtAdapter {
    /// Plans an overlay creation. `template_exists`, `overlay_exists` and
    /// `parent_exists` are probed by the driver; a missing template or a
    /// pre-existing overlay fails fast, with nothing invoked. The creation
    /// runs elevated exactly when the overlay lies under a host-protected
    /// prefix, and only then is a permission fix planned.
    pub fn create_overlay_disk(
        &self,
        template_path: &str,
        overlay_path: &str,
        template_exists: bool,
        overlay_exists: bool,
        parent_exists: bool,
    ) -> (r: Result<OverlayPlan, Error>)
        ensures
            r is Ok <==> template_exists && !overlay_exists,
            !template_exists ==> (r matches Err(e) && e matches Error::Template(m) && m@
                == "Template disk does not exist: "@ + template_path@),
            template_exists && overlay_exists ==> (r matches Err(e) && e
                matches Error::AlreadyExists(m) && m@ == "Overlay disk already exists: "@
                + overlay_path@),
            r matches Ok(plan) ==> {
                &&& plan.create.tool == Tool::QemuImg
                &&& plan.create.args.deep_view() == spec_overlay_create_args(
                    template_path@,
                    overlay_path@,
                )
                &&& plan.create.elevated == spec_needs_privilege(overlay_path@)
                &&& (plan.chmod is Some <==> spec_needs_privilege(overlay_path@))
                &&& (plan.chmod matches Some(ch) ==> ch.tool == Tool::Chmod && ch.elevated
                    && ch.args.deep_view() == seq!["644"@, overlay_path@])
                &&& (plan.mkdir_parent is Some <==> !parent_exists && spec_parent_dir(
                    overlay_path@,
                ) is Some)
                &&& (plan.mkdir_parent matches Some(mk) ==> mk.tool == Tool::Mkdir && mk.elevated
                    && (spec_parent_dir(overlay_path@) matches Some(d) && mk.args.deep_view()
                    == seq!["-p"@, d]))
            },
    {
        if !template_exists {
            return Err(
                Error::Template(concat2("Template disk does not exist: ", template_path)),
            );
        }
        if overlay_exists {
            return Err(
                Error::AlreadyExists(concat2("Overlay disk already exists: ", overlay_path)),
            );
        }
        let mkdir_parent: Option<CmdRequest> = if !parent_exists {
            match parent_dir(overlay_path) {
                Some(d) => {
                    let mut margs: Vec<String> = Vec::new();
                    margs.push(String::from_str("-p"));
                    margs.push(d);
                    proof {
                        assert(margs.deep_view() =~= seq![
                            "-p"@,
                            spec_parent_dir(overlay_path@)->Some_0,
                        ]);
                    }
                    Some(CmdRequest { tool: Tool::Mkdir, args: margs, elevated: true })
                },
                None => None,
            }
        } else {
            None
        };
        let elevated = needs_privilege(overlay_path);
        let mut args: Vec<String> = Vec::new();
        args.push(String::from_str("create"));
        args.push(String::from_str("-f"));
        args.push(String::from_str("qcow2"));
        args.push(String::from_str("-F"));
        args.push(String::from_str("qcow2"));
        args.push(String::from_str("-b"));
        args.push(String::from_str(template_path));
        args.push(String::from_str(overlay_path));
        proof {
            assert(args.deep_view() =~= spec_overlay_create_args(template_path@, overlay_path@));
        }
        let chmod: Option<CmdRequest> = if elevated {
            let mut cargs: Vec<String> = Vec::new();
            cargs.push(String::from_str("644"));
            cargs.push(String::from_str(overlay_path));
            proof {
                assert(cargs.deep_view() =~= seq!["644"@, overlay_path@]);
            }
            Some(CmdRequest { tool: Tool::Chmod, args: cargs, elevated: true })
        } else {
            None
        };
        Ok(OverlayPlan { mkdir_parent, create: CmdRequest { tool: Tool::QemuImg, args, elevated }, chmod })
    }

    /// Interprets the `qemu-img create` output.
    pub fn overlay_create_result(&self, out: &CommandOutput) -> (r: Result<(), Error>)
        ensures
            r is Ok <==> out.exit_code == 0,
            out.exit_code != 0 ==> (r matches Err(e) && e matches Error::Libvirt(m) && m@
                == "Failed to create overlay disk: "@ + out.stderr@),
    {
        if out.success() {
            Ok(())
        } else {
            Err(Error::Libvirt(concat2("Failed to create overlay disk: ", out.stderr.as_str())))
        }
    }
}

/// How one overlay disk is deleted: not at all when absent, through the
/// elevation wrapper under a host-protected prefix, or by a direct
/// best-effort file removal otherwise.
#[derive(Debug, Clone, PartialEq)]
pub enum OverlayDelete {
    Nothing,
    Elevated(CmdRequest),
    Direct,
}

impl LibvirtAdapter {
    /// Plans an overlay deletion: a no-op (not an error) for an absent path.
    pub fn delete_overlay_disk(&self, path: &str, exists: bool) -> (r: OverlayDelete)
        ensures
            !exists ==> r is Nothing,
            exists && spec_needs_privilege(path@) ==> (r matches OverlayDelete::Elevated(req)
                && req.tool == Tool::Rm && req.elevated && req.args.deep_view() == seq![
                "-f"@,
                path@,
            ]),
            exists && !spec_needs_privilege(path@) ==> r is Direct,
    {
        if !exists {
            return OverlayDelete::Nothing;
        }
        if needs_privilege(path) {
            let mut args: Vec<String> = Vec::new();
            args.push(String::from_str("-f"));
            args.push(String::from_str(path));
            proof {
                assert(args.deep_view() =~= seq!["-f"@, path@]);
            }
            OverlayDelete::Elevated(CmdRequest { tool: Tool::Rm, args, elevated: true })
        } else {
            OverlayDelete::Direct
        }
    }

    /// Interprets the elevated `rm -f`: "No such file" counts as success.
    pub fn delete_overlay_result(&self, out: &CommandOutput) -> (r: Result<(), Error>)
        ensures
            r is Ok <==> out.exit_code == 0 || spec_contains_sub(out.stderr@, "No such file"@),
            r matches Err(e) ==> (e matches Error::Libvirt(m) && m@ == "Failed to delete overlay: "@
                + out.stderr@),
    {
        if out.success() || contains_sub(out.stderr.as_str(), "No such file") {
            Ok(())
        } else {
            Err(Error::Libvirt(concat2("Failed to delete overlay: ", out.stderr.as_str())))
        }
    }

    /// Plans creation of the images directory when it is missing.
    pub fn ensure_images_dir(&self, images_dir: &str, exists: bool) -> (r: Option<CmdRequest>)
        ensures
            exists ==> r is None,
            !exists ==> (r matches Some(req) && req.tool == Tool::Mkdir && req.elevated
                && req.args.deep_view() == seq!["-p"@, images_dir@]),
    {
        if exists {
            None
        } else {
            let mut args: Vec<String> = Vec::new();
            args.push(String::from_str("-p"));
            args.push(String::from_str(images_dir));
            proof {
                assert(args.deep_view() =~= seq!["-p"@, images_dir@]);
            }
            Some(CmdRequest { tool: Tool::Mkdir, args, elevated: true })
        }
    }

    /// Interprets the images-directory creation.
    pub fn images_dir_result(&self, out: &CommandOutput) -> (r: Result<(), Error>)
        ensures
            r is Ok <==> out.exit_code == 0,
            out.exit_code != 0 ==> (r matches Err(e) && e matches Error::Libvirt(m) && m@
                == "Failed to create images directory: "@ + out.stderr@),
    {
        if out.success() {
            Ok(())
        } else {
            Err(
                Error::Libvirt(
                    concat2("Failed to create images directory: ", out.stderr.as_str()),
                ),
            )
        }
    }
}

// ---------------------------------------------------------------------------
// Copying a template into the images directory
// ---------------------------------------------------------------------------
/// The planned commands for bringing a template under the images directory.
/// The driver runs `copy` and interprets it with `copy_template_result`;
/// then, best-effort: the primary ownership change, the fallback ownership
/// change only if the primary failed, and the permission fix.
#[derive(Debug, Clone, PartialEq)]
pub struct CopyTemplatePlan {
    pub dest: String,
    pub copy: Option<CmdRequest>,
    pub chown_primary: Option<CmdRequest>,
    pub chown_fallback: Option<CmdRequest>,
    pub chmod: Option<CmdRequest>,
}

impl LibvirtAdapter {
    /// Plans the copy. When the destination already exists the plan is empty
    /// and the existing path is reused; a source without a file name is
    /// rejected.
    pub fn copy_template_to_images_dir(
        &self,
        source: &str,
        images_dir: &str,
        dest_exists: bool,
    ) -> (r: Result<CopyTemplatePlan, Error>)
        ensures
            r is Ok <==> spec_file_name(source@).len() > 0,
            spec_file_name(source@).len() == 0 ==> (r matches Err(e) && e
                matches Error::Template(m) && m@ == "Invalid template filename"@),
            r matches Ok(plan) ==> {
                &&& plan.dest@ == images_dir@ + "/"@ + spec_file_name(source@)
                &&& (plan.copy is None <==> dest_exists)
                &&& (plan.copy matches Some(cp) ==> cp.tool == Tool::Cp && cp.elevated
                    && cp.args.deep_view() == seq![source@, plan.dest@])
                &&& (dest_exists ==> plan.chown_primary is None && plan.chown_fallback is None
                    && plan.chmod is None)
                &&& (!dest_exists ==> (plan.chown_primary matches Some(c1) && c1.tool
                    == Tool::Chown && c1.elevated && c1.args.deep_view() == seq![
                    "libvirt-qemu:kvm"@,
                    plan.dest@,
                ]) && (plan.chown_fallback matches Some(c2) && c2.tool == Tool::Chown
                    && c2.elevated && c2.args.deep_view() == seq!["root:root"@, plan.dest@]) && (
                plan.chmod matches Some(c3) && c3.tool == Tool::Chmod && c3.elevated
                    && c3.args.deep_view() == seq!["644"@, plan.dest@]))
            },
    {
        let fname = file_name_of(source);
        if fname.as_str().unicode_len() == 0 {
            return Err(Error::Template(String::from_str("Invalid template filename")));
        }
        let dest = concat3(images_dir, "/", fname.as_str());
        if dest_exists {
            return Ok(
                CopyTemplatePlan {
                    dest,
                    copy: None,
                    chown_primary: None,
                    chown_fallback: None,
                    chmod: None,
                },
            );
        }
        let mut cp_args: Vec<String> = Vec::new();
        cp_args.push(String::from_str(source));
        cp_args.push(dest.clone());
        proof {
            assert(cp_args.deep_view() =~= seq![source@, dest@]);
        }
        let mut c1_args: Vec<String> = Vec::new();
        c1_args.push(String::from_str("libvirt-qemu:kvm"));
        c1_args.push(dest.clone());
        proof {
            assert(c1_args.deep_view() =~= seq!["libvirt-qemu:kvm"@, dest@]);
        }
        let mut c2_args: Vec<String> = Vec::new();
        c2_args.push(String::from_str("root:root"));
        c2_args.push(dest.clone());
        proof {
            assert(c2_args.deep_view() =~= seq!["root:root"@, dest@]);
        }
        let mut c3_args: Vec<String> = Vec::new();
        c3_args.push(String::from_str("644"));
        c3_args.push(dest.clone());
        proof {
            assert(c3_args.deep_view() =~= seq!["644"@, dest@]);
        }
        Ok(
            CopyTemplatePlan {
                dest,
                copy: Some(CmdRequest { tool: Tool::Cp, args: cp_args, elevated: true }),
                chown_primary: Some(
                    CmdRequest { tool: Tool::Chown, args: c1_args, elevated: true },
                ),
                chown_fallback: Some(
                    CmdRequest { tool: Tool::Chown, args: c2_args, elevated: true },
                ),
                chmod: Some(CmdRequest { tool: Tool::Chmod, args: c3_args, elevated: true }),
            },
        )
    }

    /// Interprets the elevated `cp`.
    pub fn copy_template_result(&self, out: &CommandOutput) -> (r: Result<(), Error>)
        ensures
            r is Ok <==> out.exit_code == 0,
            out.exit_code != 0 ==> (r matches Err(e) && e matches Error::Libvirt(m) && m@
                == "Failed to copy template: "@ + out.stderr@),
    {
        if out.success() {
            Ok(())
        } else {
            Err(Error::Libvirt(concat2("Failed to copy template: ", out.stderr.as_str())))
        }
    }
}

// ---------------------------------------------------------------------------
// Role network setup: a three-step nested saga
// ---------------------------------------------------------------------------
/// The XML definition written for a role network.
pub fn network_xml(net_name: &str) -> (r: String)
    ensures
        r@ == "<network>\n  <name>"@ + net_name@ + "</name>\n  <bridge stp='on' delay='0'/>\n</network>"@,
{
    concat3("<network>\n  <name>", net_name, "</name>\n  <bridge stp='on' delay='0'/>\n</network>")
}

/// The file name under which that definition is written.
pub fn net_xml_filename(net_name: &str) -> (r: String)
    ensures
        r@ == "net-"@ + net_name@ + ".xml"@,
{
    concat3("net-", net_name, ".xml")
}

#[derive(Debug, Clone, Copy, PartialEq, Eq, Structural)]
pub enum NetSetupPhase {
    /// Probing whether the network already exists.
    Probe,
    /// Defining the network from its XML file.
    Define,
    /// Enabling autostart.
    Autostart,
    /// Starting the network.
    Start,
    /// Compensating a failed autostart: undefine.
    UndoAfterAutostart,
    /// Compensating a failed start: destroy, then undefine.
    UndoDestroy,
    UndoUndefine,
    Done,
    Failed,
}

/// The saga that brings a role's private network up: probe, then define,
/// autostart and start, undoing the earlier successful steps when a later
/// one fails. A network that already existed is left exactly as it was and
/// reported as not created.
#[derive(Debug, Clone, PartialEq)]
pub struct RoleNetworkSetup {
    pub net_name: String,
    pub xml_path: String,
    pub phase: NetSetupPhase,
    pub created: bool,
    pub error: Option<Error>,
}

impl RoleNetworkSetup {
    pub open spec fn wf(self) -> bool {
        &&& (self.phase is Failed ==> self.error is Some)
        &&& (self.created ==> self.phase is Done)
        &&& (self.phase is Probe || self.phase is Define || self.phase is Autostart || self.phase
            is Start || self.phase is Done ==> self.error is None)
        &&& (self.phase is UndoAfterAutostart || self.phase is UndoDestroy || self.phase
            is UndoUndefine ==> self.error is Some)
    }

    /// Begins the saga for `role`; the driver chooses where the XML
    /// definition is written and writes it before the define step runs.
    pub fn new(role: &str, xml_path: String) -> (r: Self)
        ensures
            r.net_name@ == role@ + "-inet"@,
            r.xml_path == xml_path,
            r.phase is Probe,
            !r.created,
            r.error is None,
            r.wf(),
    {
        Self {
            net_name: concat2(role, "-inet"),
            xml_path,
            phase: NetSetupPhase::Probe,
            created: false,
            error: None,
        }
    }

    /// The command to run next, when one is pending.
    pub fn pending_request(&self, adapter: &LibvirtAdapter) -> (r: Option<CmdRequest>)
        ensures
            r is None <==> self.phase is Done || self.phase is Failed,
            self.phase is Probe ==> (r matches Some(q) && q.tool == Tool::Virsh && !q.elevated
                && q.args.deep_view() == seq!["net-info"@, self.net_name@]),
            self.phase is Define ==> (r matches Some(q) && q.tool == Tool::Virsh && !q.elevated
                && q.args.deep_view() == seq!["net-define"@, self.xml_path@]),
            self.phase is Autostart ==> (r matches Some(q) && q.tool == Tool::Virsh && !q.elevated
                && q.args.deep_view() == seq!["net-autostart"@, self.net_name@]),
            self.phase is Start ==> (r matches Some(q) && q.tool == Tool::Virsh && !q.elevated
                && q.args.deep_view() == seq!["net-start"@, self.net_name@]),
            self.phase is UndoAfterAutostart || self.phase is UndoUndefine ==> (r matches Some(q)
                && q.tool == Tool::Virsh && !q.elevated && q.args.deep_view() == seq![
                "net-undefine"@,
                self.net_name@,
            ]),
            self.phase is UndoDestroy ==> (r matches Some(q) && q.tool == Tool::Virsh
                && !q.elevated && q.args.deep_view() == seq!["net-destroy"@, self.net_name@]),
    {
        match self.phase {
            NetSetupPhase::Probe => Some(virsh2("net-info", self.net_name.as_str())),
            NetSetupPhase::Define => Some(virsh2("net-define", self.xml_path.as_str())),
            NetSetupPhase::Autostart => Some(virsh2("net-autostart", self.net_name.as_str())),
            NetSetupPhase::Start => Some(virsh2("net-start", self.net_name.as_str())),
            NetSetupPhase::UndoAfterAutostart => Some(
                virsh2("net-undefine", self.net_name.as_str()),
            ),
            NetSetupPhase::UndoDestroy => Some(virsh2("net-destroy", self.net_name.as_str())),
            NetSetupPhase::UndoUndefine => Some(virsh2("net-undefine", self.net_name.as_str())),
            NetSetupPhase::Done => None,
            NetSetupPhase::Failed => None,
        }
    }

    /// Feeds the outcome of the pending command back into the saga.
    ///
    /// A network found by the probe is reported as already existing and is
    /// never touched again; a failure of a later step records the captured
    /// standard error and drives the compensations, whose own outcomes are
    /// deliberately ignored.
    pub fn advance(&mut self, out: &CommandOutput)
        requires
            old(self).wf(),
            !(old(self).phase is Done),
            !(old(self).phase is Failed),
        ensures
            final(self).wf(),
            final(self).net_name == old(self).net_name,
            final(self).xml_path == old(self).xml_path,
            old(self).phase is Probe && out.exit_code == 0 ==> final(self).phase is Done
                && !final(self).created && final(self).error is None,
            old(self).phase is Probe && out.exit_code != 0 ==> final(self).phase is Define
                && !final(self).created && final(self).error is None,
            old(self).phase is Define && out.exit_code == 0 ==> final(self).phase is Autostart
                && !final(self).created && final(self).error is None,
            old(self).phase is Define && out.exit_code != 0 ==> (final(self).phase is Failed
                && !final(self).created && (final(self).error matches Some(e) && e
                matches Error::Libvirt(m) && m@ == "Failed to define network '"@
                + old(self).net_name@ + "': "@ + out.stderr@)),
            old(self).phase is Autostart && out.exit_code == 0 ==> final(self).phase is Start
                && !final(self).created && final(self).error is None,
            old(self).phase is Autostart && out.exit_code != 0 ==> (final(self).phase is UndoAfterAutostart && !final(self).created && (final(self).error
                matches Some(e) && e matches Error::Libvirt(m) && m@
                == "Failed to set autostart for network '"@ + old(self).net_name@ + "': "@
                + out.stderr@)),
            old(self).phase is Start && out.exit_code == 0 ==> final(self).phase is Done && final(self).created && final(self).error is None,
            old(self).phase is Start && out.exit_code != 0 ==> (final(self).phase is UndoDestroy
                && !final(self).created && (final(self).error matches Some(e) && e
                matches Error::Libvirt(m) && m@ == "Failed to start network '"@
                + old(self).net_name@ + "': "@ + out.stderr@)),
            old(self).phase is UndoAfterAutostart ==> final(self).phase is Failed && final(self).created == old(self).created && final(self).error == old(self).error,
            old(self).phase is UndoDestroy ==> final(self).phase is UndoUndefine && final(self).created == old(self).created && final(self).error == old(self).error,
            old(self).phase is UndoUndefine ==> final(self).phase is Failed && final(self).created
                == old(self).created && final(self).error == old(self).error,
    {
        let ok = out.success();
        match self.phase {
            NetSetupPhase::Probe => {
                if ok {
                    self.phase = NetSetupPhase::Done;
                } else {
                    self.phase = NetSetupPhase::Define;
                }
            },
            NetSetupPhase::Define => {
                if ok {
                    self.phase = NetSetupPhase::Autostart;
                } else {
                    let msg = concat4_msg(
                        "Failed to define network '",
                        self.net_name.as_str(),
                        "': ",
                        &out.stderr,
                    );
                    self.error = Some(Error::Libvirt(msg));
                    self.phase = NetSetupPhase::Failed;
                }
            },
            NetSetupPhase::Autostart => {
                if ok {
                    self.phase = NetSetupPhase::Start;
                } else {
                    let msg = concat4_msg(
                        "Failed to set autostart for network '",
                        self.net_name.as_str(),
                        "': ",
                        &out.stderr,
                    );
                    self.error = Some(Error::Libvirt(msg));
                    self.phase = NetSetupPhase::UndoAfterAutostart;
                }
            },
            NetSetupPhase::Start => {
                if ok {
                    self.created = true;
                    self.phase = NetSetupPhase::Done;
                } else {
                    let msg = concat4_msg(
                        "Failed to start network '",
                        self.net_name.as_str(),
                        "': ",
                        &out.stderr,
                    );
                    self.error = Some(Error::Libvirt(msg));
                    self.phase = NetSetupPhase::UndoDestroy;
                }
            },
            NetSetupPhase::UndoAfterAutostart => {
                self.phase = NetSetupPhase::Failed;
            },
            NetSetupPhase::UndoDestroy => {
                self.phase = NetSetupPhase::UndoUndefine;
            },
            NetSetupPhase::UndoUndefine => {
                self.phase = NetSetupPhase::Failed;
            },
            NetSetupPhase::Done => {},
            NetSetupPhase::Failed => {},
        }
    }

    /// The saga's outcome, once it has reached a terminal phase: whether the
    /// network was newly created, or the error of the step that failed.
    pub fn take_result(self) -> (r: Option<Result<bool, Error>>)
        requires
            self.wf(),
        ensures
            r is None <==> !(self.phase is Done) && !(self.phase is Failed),
            self.phase is Done ==> r == Some(Result::<bool, Error>::Ok(self.created)),
            self.phase is Failed ==> (r matches Some(res) && res matches Err(e) && Some(e)
                == self.error),
    {
        match self.phase {
            NetSetupPhase::Done => Some(Ok(self.created)),
            NetSetupPhase::Failed => {
                match self.error {
                    Some(e) => Some(Err(e)),
                    None => None,  // unreachable under wf
                }
            },
            _ => None,
        }
    }
}

// ---------------------------------------------------------------------------
// Teardown actions
// ---------------------------------------------------------------------------
/// One best-effort teardown step for the driver to perform. Failures are
/// swallowed: teardown must keep going.
#[derive(Debug, Clone, PartialEq)]
pub enum TeardownAction {
    /// `virsh destroy` the named VM, tolerating "not running".
    DestroyVm(String),
    /// `virsh undefine` the named VM, tolerating "already gone".
    UndefineVm(String),
    /// Probe the path and delete the overlay as `delete_overlay_disk` plans.
    DeleteOverlay(String),
    /// `virsh net-destroy` then `net-undefine`, tolerating "not found".
    DestroyNetwork(String),
    /// Remove a directory tree.
    RemoveDirAll(String),
    /// Remove a directory tree only when it holds at most this many entries.
    RemoveDirIfSparse(String, u64),
    /// Remove a single file.
    RemoveFile(String),
}

impl LibvirtAdapter {
    /// Full cleanup of one VM: force stop, undefine, and drop its overlay.
    pub fn cleanup_vm(&self, name: &str, overlay_path: Option<&str>) -> (r: Vec<TeardownAction>)
        ensures
            overlay_path is Some ==> r@.len() == 3,
            overlay_path is None ==> r@.len() == 2,
            r@[0] matches TeardownAction::DestroyVm(n) && n@ == name@,
            r@[1] matches TeardownAction::UndefineVm(n) && n@ == name@,
            overlay_path matches Some(p) ==> (r@[2] matches TeardownAction::DeleteOverlay(q) && q@
                == p@),
    {
        let mut steps: Vec<TeardownAction> = Vec::new();
        steps.push(TeardownAction::DestroyVm(String::from_str(name)));
        steps.push(TeardownAction::UndefineVm(String::from_str(name)));
        match overlay_path {
            Some(p) => {
                steps.push(TeardownAction::DeleteOverlay(String::from_str(p)));
            },
            None => {},
        }
        steps
    }
}

// ---------------------------------------------------------------------------
// Cross-referencing disks against a template image
// ---------------------------------------------------------------------------
/// The VMs matching a name filter, in their original order.
pub open spec fn spec_role_vms(vms: Seq<VmInfo>, pattern: Seq<char>) -> Seq<VmInfo>
    decreases vms.len(),
{
    if vms.len() == 0 {
        Seq::<VmInfo>::empty()
    } else {
        let rest = spec_role_vms(vms.drop_last(), pattern);
        if spec_contains_sub(vms.last().name@, pattern) {
            rest.push(vms.last())
        } else {
            rest
        }
    }
}

fn clone_vm_info(v: &VmInfo) -> (r: VmInfo)
    ensures
        r == *v,
{
    VmInfo {
        name: v.name.clone(),
        state: v.state,
        kind: v.kind,
        role: match &v.role {
            Some(s) => Some(s.clone()),
            None => None,
        },
    }
}

impl LibvirtAdapter {
    /// Filters a VM listing down to the VMs whose name mentions the role.
    pub fn list_role_vms(&self, role: &str, all: &Vec<VmInfo>) -> (r: Vec<VmInfo>)
        ensures
            r@ == spec_role_vms(all@, role@),
    {
        let mut picked: Vec<VmInfo> = Vec::new();
        let mut i: usize = 0;
        while i < all.len()
            invariant
                i <= all@.len(),
                picked@ == spec_role_vms(all@.take(i as int), role@),
            decreases all@.len() - i,
        {
            proof {
                assert(all@.take(i + 1).drop_last() =~= all@.take(i as int));
                assert(all@.take(i + 1).last() == all@[i as int]);
            }
            if contains_sub(all[i].name.as_str(), role) {
                picked.push(clone_vm_info(&all[i]));
            }
            i = i + 1;
        }
        proof {
            assert(all@.take(all@.len() as int) =~= all@);
        }
        picked
    }
}

/// The backing path recorded for `disk`, by its first entry in the table.
pub open spec fn spec_lookup_backing(
    backings: Seq<(String, Option<String>)>,
    disk: Seq<char>,
) -> Option<Seq<char>>
    decreases backings.len(),
{
    if backings.len() == 0 {
        None
    } else if backings[0].0@ == disk {
        match backings[0].1 {
            Some(b) => Some(b@),
            None => None,
        }
    } else {
        spec_lookup_backing(backings.skip(1), disk)
    }
}

proof fn lemma_lookup_backing_at(backings: Seq<(String, Option<String>)>, disk: Seq<char>, i: int)
    requires
        0 <= i < backings.len(),
        forall|j: int| 0 <= j < i ==> (#[trigger] backings[j]).0@ != disk,
        backings[i].0@ == disk,
    ensures
        spec_lookup_backing(backings, disk) == match backings[i].1 {
            Some(b) => Some(b@),
            None => None::<Seq<char>>,
        },
    decreases i,
{
    if i > 0 {
        assert(backings[0].0@ != disk);
        assert(forall|j: int|
            0 <= j < i - 1 ==> backings.skip(1)[j] == backings[j + 1] && (#[trigger] backings.skip(
                1,
            )[j]).0@ != disk);
        assert(backings.skip(1)[i - 1] == backings[i]);
        lemma_lookup_backing_at(backings.skip(1), disk, i - 1);
    }
}

proof fn lemma_lookup_backing_none(backings: Seq<(String, Option<String>)>, disk: Seq<char>)
    requires
        forall|j: int| 0 <= j < backings.len() ==> (#[trigger] backings[j]).0@ != disk,
    ensures
        spec_lookup_backing(backings, disk) is None,
    decreases backings.len(),
{
    if backings.len() > 0 {
        assert(forall|j: int|
            0 <= j < backings.skip(1).len() ==> backings.skip(1)[j] == backings[j + 1] && (
            #[trigger] backings.skip(1)[j]).0@ != disk);
        lemma_lookup_backing_none(backings.skip(1), disk);
    }
}

fn lookup_backing(backings: &Vec<(String, Option<String>)>, disk: &str) -> (r: Option<String>)
    ensures
        r is Some <==> spec_lookup_backing(backings@, disk@) is Some,
        r matches Some(b) ==> (spec_lookup_backing(backings@, disk@) matches Some(sb) && b@ == sb),
{
    let mut i: usize = 0;
    while i < backings.len()
        invariant
            i <= backings@.len(),
            forall|j: int| 0 <= j < i ==> (#[trigger] backings@[j]).0@ != disk@,
        decreases backings@.len() - i,
    {
        if crate::text::eq_str(backings[i].0.as_str(), disk) {
            proof {
                lemma_lookup_backing_at(backings@, disk@, i as int);
            }
            return match &backings[i].1 {
                Some(b) => Some(b.clone()),
                None => None,
            };
        }
        i = i + 1;
    }
    proof {
        lemma_lookup_backing_none(backings@, disk@);
    }
    None
}

/// A VM's disk row points at the image: directly, or through its recorded
/// backing file.
pub open spec fn spec_uses_image(
    row: (String, String),
    backings: Seq<(String, Option<String>)>,
    image: Seq<char>,
) -> bool {
    row.1@ == image || spec_lookup_backing(backings, row.1@) == Some(image)
}

/// The names of the VMs whose disks point at the image, first appearance
/// kept, duplicates dropped.
pub open spec fn spec_image_users(
    disks: Seq<(String, String)>,
    backings: Seq<(String, Option<String>)>,
    image: Seq<char>,
) -> Seq<Seq<char>>
    decreases disks.len(),
{
    if disks.len() == 0 {
        Seq::<Seq<char>>::empty()
    } else {
        let rest = spec_image_users(disks.drop_last(), backings, image);
        if spec_uses_image(disks.last(), backings, image) && !rest.contains(disks.last().0@) {
            rest.push(disks.last().0@)
        } else {
            rest
        }
    }
}

/// Names in ascending lexicographic order.
pub open spec fn spec_sorted_names(s: Seq<Seq<char>>) -> bool {
    forall|i: int, j: int|
        0 <= i < j < s.len() ==> crate::text::spec_seq_le(#[trigger] s[i], #[trigger] s[j])
}

/// Names pairwise distinct.
pub open spec fn spec_distinct_names(s: Seq<Seq<char>>) -> bool {
    forall|i: int, j: int| 0 <= i < j < s.len() ==> #[trigger] s[i] != #[trigger] s[j]
}

/// Inserts a fresh name at its sorted position.
fn insert_sorted(names: &mut Vec<String>, value: String)
    requires
        spec_sorted_names(old(names).deep_view()),
        spec_distinct_names(old(names).deep_view()),
        !old(names).deep_view().contains(value@),
    ensures
        final(names).deep_view().len() == old(names).deep_view().len() + 1,
        spec_sorted_names(final(names).deep_view()),
        spec_distinct_names(final(names).deep_view()),
        forall|x: Seq<char>|
            #[trigger] final(names).deep_view().contains(x) <==> old(names).deep_view().contains(
                x,
            ) || x == value@,
{
    let ghost old_deep = names.deep_view();
    let mut j: usize = 0;
    let mut found = false;
    while !found && j < names.len()
        invariant
            old_deep == names.deep_view(),
            names@.len() == old_deep.len(),
            j <= old_deep.len(),
            forall|k: int| 0 <= k < j ==> !crate::text::spec_seq_le(value@, #[trigger] old_deep[k]),
            found ==> j < old_deep.len() && crate::text::spec_seq_le(value@, old_deep[j as int]),
        decreases old_deep.len() - j + (if found {
            0int
        } else {
            1int
        }),
    {
        if crate::text::str_le(value.as_str(), names[j].as_str()) {
            found = true;
        } else {
            j = j + 1;
        }
    }
    proof {
        assert forall|k: int| 0 <= k < j implies crate::text::spec_seq_le(
            #[trigger] old_deep[k],
            value@,
        ) by {
            crate::text::lemma_seq_le_total(value@, old_deep[k]);
        }
        assert forall|k: int| 0 <= k < old_deep.len() implies old_deep[k] != value@ by {
            if old_deep[k] == value@ {
                assert(old_deep.contains(value@));
            }
        }
    }
    let ghost vv = value@;
    names.insert(j, value);
    proof {
        let nd = names.deep_view();
        assert(nd =~~= old_deep.insert(j as int, vv)) by {
            assert(names@ == old(names)@.insert(j as int, names@[j as int]));
        }
        assert(nd.len() == old_deep.len() + 1);
        assert(forall|k: int| 0 <= k < j ==> nd[k] == old_deep[k]);
        assert(nd[j as int] == vv);
        assert(forall|k: int| j < k < nd.len() ==> nd[k] == old_deep[k - 1]);
        assert forall|a: int, b: int|
            0 <= a < b < nd.len() implies crate::text::spec_seq_le(
            #[trigger] nd[a],
            #[trigger] nd[b],
        ) by {
            if b < j {
            } else if a < j && b == j {
            } else if a == j {
                if found {
                    if b - 1 > j {
                        crate::text::lemma_seq_le_trans(vv, old_deep[j as int], old_deep[b - 1]);
                    }
                }
            } else if a < j && b > j {
                crate::text::lemma_seq_le_total(vv, old_deep[b - 1]);
                if !crate::text::spec_seq_le(old_deep[a], old_deep[b - 1]) {
                    assert(a <= b - 1);
                    if a < b - 1 {
                        assert(crate::text::spec_seq_le(old_deep[a], old_deep[b - 1]));
                    }
                }
            } else {
            }
        }
        assert forall|x: Seq<char>|
            #[trigger] nd.contains(x) <==> old_deep.contains(x) || x == vv by {
            if nd.contains(x) {
                let k = choose|k: int| 0 <= k < nd.len() && nd[k] == x;
                if k < j {
                    assert(old_deep[k] == x);
                } else if k > j {
                    assert(old_deep[k - 1] == x);
                }
            }
            if old_deep.contains(x) {
                let k = choose|k: int| 0 <= k < old_deep.len() && old_deep[k] == x;
                if k < j {
                    assert(nd[k] == x);
                } else {
                    assert(nd[k + 1] == x);
                }
            }
            if x == vv {
                assert(nd[j as int] == x);
            }
        }
    }
}

impl LibvirtAdapter {
    /// Answers "what breaks if I delete this image": the names of every VM
    /// whose disk is the image itself, or an overlay backed by it — sorted
    /// ascending and free of duplicates. `disks` holds one
    /// `(vm name, disk path)` row per VM; `backings` records each disk's
    /// resolved backing file.
    pub fn get_vms_using_image(
        &self,
        image_path: &str,
        disks: &Vec<(String, String)>,
        backings: &Vec<(String, Option<String>)>,
    ) -> (r: Vec<String>)
        ensures
            spec_sorted_names(r.deep_view()),
            spec_distinct_names(r.deep_view()),
            forall|x: Seq<char>|
                #[trigger] r.deep_view().contains(x) <==> spec_image_users(
                    disks@,
                    backings@,
                    image_path@,
                ).contains(x),
    {
        let mut names: Vec<String> = Vec::new();
        let mut i: usize = 0;
        while i < disks.len()
            invariant
                i <= disks@.len(),
                spec_sorted_names(names.deep_view()),
                spec_distinct_names(names.deep_view()),
                forall|x: Seq<char>|
                    #[trigger] names.deep_view().contains(x) <==> spec_image_users(
                        disks@.take(i as int),
                        backings@,
                        image_path@,
                    ).contains(x),
            decreases disks@.len() - i,
        {
            proof {
                assert(disks@.take(i + 1).drop_last() =~= disks@.take(i as int));
                assert(disks@.take(i + 1).last() == disks@[i as int]);
            }
            let ghost prev = spec_image_users(disks@.take(i as int), backings@, image_path@);
            let ghost cur = spec_image_users(disks@.take(i + 1), backings@, image_path@);
            let ghost name_v = disks@[i as int].0@;
            let direct = crate::text::eq_str(disks[i].1.as_str(), image_path);
            let through_backing = if direct {
                false
            } else {
                match lookup_backing(backings, disks[i].1.as_str()) {
                    Some(b) => crate::text::eq_str(b.as_str(), image_path),
                    None => false,
                }
            };
            if direct || through_backing {
                proof {
                    assert(spec_uses_image(disks@[i as int], backings@, image_path@));
                    if prev.contains(name_v) {
                        assert(cur == prev);
                    } else {
                        assert(cur == prev.push(name_v));
                    }
                    assert forall|x: Seq<char>| #[trigger] cur.contains(x) <==> prev.contains(x)
                        || x == name_v by {
                        if !prev.contains(name_v) {
                            if cur.contains(x) {
                                let k = choose|k: int| 0 <= k < cur.len() && cur[k] == x;
                                if k < prev.len() {
                                    assert(prev[k] == x);
                                }
                            }
                            if prev.contains(x) {
                                let k = choose|k: int| 0 <= k < prev.len() && prev[k] == x;
                                assert(cur[k] == x);
                            }
                            if x == name_v {
                                assert(cur[cur.len() - 1] == x);
                            }
                        } else {
                            if x == name_v {
                                assert(prev.contains(x));
                            }
                        }
                    }
                }
                if !contains_name(&names, disks[i].0.as_str()) {
                    insert_sorted(&mut names, disks[i].0.clone());
                }
            } else {
                proof {
                    assert(cur == prev);
                }
            }
            i = i + 1;
        }
        proof {
            assert(disks@.take(disks@.len() as int) =~= disks@);
        }
        names
    }
}

fn contains_name(names: &Vec<String>, target: &str) -> (r: bool)
    ensures
        r == names.deep_view().contains(target@),
{
    let mut i: usize = 0;
    while i < names.len()
        invariant
            i <= names@.len(),
            forall|j: int| 0 <= j < i ==> names.deep_view()[j] != target@,
        decreases names@.len() - i,
    {
        if crate::text::eq_str(names[i].as_str(), target) {
            proof {
                assert(names.deep_view()[i as int] == target@);
            }
            return true;
        }
        i = i + 1;
    }
    proof {
        if names.deep_view().contains(target@) {
            let j = choose|j: int|
                0 <= j < names.deep_view().len() && names.deep_view()[j] == target@;
            assert(names.deep_view()[j] != target@);
        }
    }
    false
}

/// Adding rows never removes a name from the answer.
proof fn lemma_image_users_monotone(
    disks: Seq<(String, String)>,
    backings: Seq<(String, Option<String>)>,
    image: Seq<char>,
    name: Seq<char>,
)
    requires
        disks.len() > 0,
        spec_image_users(disks.drop_last(), backings, image).contains(name),
    ensures
        spec_image_users(disks, backings, image).contains(name),
{
    let rest = spec_image_users(disks.drop_last(), backings, image);
    let full = spec_image_users(disks, backings, image);
    if spec_uses_image(disks.last(), backings, image) && !rest.contains(disks.last().0@) {
        let j = choose|j: int| 0 <= j < rest.len() && rest[j] == name;
        assert(full[j] == name);
    }
}

/// Backing-chain resolution: a VM whose disk points at the image — directly
/// or through its recorded backing file — is always among the image's users.
pub proof fn lemma_backed_vm_is_user(
    disks: Seq<(String, String)>,
    backings: Seq<(String, Option<String>)>,
    image: Seq<char>,
    k: int,
)
    requires
        0 <= k < disks.len(),
        spec_uses_image(disks[k], backings, image),
    ensures
        spec_image_users(disks, backings, image).contains(disks[k].0@),
    decreases disks.len(),
{
    let rest = spec_image_users(disks.drop_last(), backings, image);
    let full = spec_image_users(disks, backings, image);
    if k == disks.len() - 1 {
        if rest.contains(disks.last().0@) {
            lemma_image_users_monotone(disks, backings, image, disks.last().0@);
        } else {
            assert(full.last() == disks.last().0@);
            assert(full.contains(disks[k].0@));
        }
    } else {
        assert(disks.drop_last()[k] == disks[k]);
        lemma_backed_vm_is_user(disks.drop_last(), backings, image, k);
        lemma_image_users_monotone(disks, backings, image, disks[k].0@);
    }
}

} // verus!

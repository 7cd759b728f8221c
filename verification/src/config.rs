//! Global settings, the template registry, and per-role metadata.
//!
//! Loading and saving these records is the caller-side driver's work; the
//! logic here — defaults, validation, registry operations, naming — is
//! verified.
use vstd::prelude::*;
use vstd::string::*;

use crate::error::Error;
use crate::model::{GatewayMode, RoleKind};
use crate::text::{concat2, concat3, spec_dec, u64_to_string};

verus! {


/// Current configuration format version.
pub const CONFIG_VERSION: u32 = 1;

/// Root directory for per-role configurations.
#[derive(Debug, Clone, PartialEq)]
pub struct CfgSection {
    pub root: String,
}

#[derive(Debug, Clone, PartialEq)]
pub struct LibvirtSection {
    /// Directory where qcow2 images are stored.
    pub images_dir: String,
    /// The shared ingress network (the gateway's first NIC).
    pub lan_net: String,
}

#[derive(Debug, Clone, PartialEq)]
pub struct DefaultsSection {
    pub gateway_ram_mb: u32,
    pub app_ram_mb: u32,
    pub disp_ram_mb: u32,
    pub debian_os_variant: String,
    pub fedora_os_variant: String,
}

/// Global configuration for the application. The configuration root is kept
/// as a plain path; the driver resolves it against the user's home
/// directory when it loads or stores the record.
#[derive(Debug, Clone, PartialEq)]
pub struct GlobalConfig {
    pub version: u32,
    pub cfg: CfgSection,
    pub libvirt: LibvirtSection,
    pub defaults: DefaultsSection,
}

impl Default for GlobalConfig {
    /// The stock configuration: the standard images directory, the shared
    /// `lan-net`, and the recommended memory floors. The configuration root
    /// is left empty for the driver to resolve.
    fn default() -> (r: Self)
        ensures
            r.version == CONFIG_VERSION,
            r.cfg.root@.len() == 0,
            r.libvirt.images_dir@ == "/var/lib/libvirt/images"@,
            r.libvirt.lan_net@ == "lan-net"@,
            r.defaults.gateway_ram_mb == 1024,
            r.defaults.app_ram_mb == 2048,
            r.defaults.disp_ram_mb == 2048,
            r.defaults.debian_os_variant@ == "debian12"@,
            r.defaults.fedora_os_variant@ == "fedora40"@,
    {
        GlobalConfig {
            version: CONFIG_VERSION,
            cfg: CfgSection { root: String::new() },
            libvirt: LibvirtSection {
                images_dir: String::from_str("/var/lib/libvirt/images"),
                lan_net: String::from_str("lan-net"),
            },
            defaults: DefaultsSection {
                gateway_ram_mb: 1024,
                app_ram_mb: 2048,
                disp_ram_mb: 2048,
                debian_os_variant: String::from_str("debian12"),
                fedora_os_variant: String::from_str("fedora40"),
            },
        }
    }
}

/// What `GlobalConfig::validate` accepts: a named shared network and the
/// memory floors.
pub open spec fn spec_global_config_ok(c: GlobalConfig) -> bool {
    c.libvirt.lan_net@.len() > 0 && c.defaults.gateway_ram_mb >= 128 && c.defaults.app_ram_mb
        >= 256
}

impl GlobalConfig {
    /// The directory that holds one role's configuration.
    pub fn role_dir(&self, role: &str) -> (r: String)
        ensures
            r@ == self.cfg.root@ + "/"@ + role@,
    {
        concat3(self.cfg.root.as_str(), "/", role)
    }

    /// Checks the global invariants: a non-empty shared network name and the
    /// memory floors, in that order.
    pub fn validate(&self) -> (r: Result<(), Error>)
        ensures
            r is Ok <==> spec_global_config_ok(*self),
            self.libvirt.lan_net@.len() == 0 ==> (r matches Err(e) && e
                matches Error::Validation(m) && m@ == "LAN network name cannot be empty"@),
            self.libvirt.lan_net@.len() > 0 && self.defaults.gateway_ram_mb < 128 ==> (r
                matches Err(e) && e matches Error::Validation(m) && m@
                == "Gateway RAM must be at least 128 MB"@),
            self.libvirt.lan_net@.len() > 0 && self.defaults.gateway_ram_mb >= 128
                && self.defaults.app_ram_mb < 256 ==> (r matches Err(e) && e
                matches Error::Validation(m) && m@ == "App RAM must be at least 256 MB"@),
    {
        if self.libvirt.lan_net.as_str().unicode_len() == 0 {
            return Err(Error::Validation(String::from_str("LAN network name cannot be empty")));
        }
        if self.defaults.gateway_ram_mb < 128 {
            return Err(
                Error::Validation(String::from_str("Gateway RAM must be at least 128 MB")),
            );
        }
        if self.defaults.app_ram_mb < 256 {
            return Err(Error::Validation(String::from_str("App RAM must be at least 256 MB")));
        }
        Ok(())
    }
}

// ---------------------------------------------------------------------------
// Templates
// ---------------------------------------------------------------------------
/// A registered base disk image.
#[derive(Debug, Clone, PartialEq)]
pub struct Template {
    /// Stable internal identifier.
    pub id: String,
    /// Human-readable label.
    pub label: String,
    /// Absolute path of the qcow2 file.
    pub path: String,
    /// OS variant hint for VM creation.
    pub os_variant: String,
    /// What kind of role this template serves.
    pub role_kind: RoleKind,
    /// Default RAM in MB for VMs using this template.
    pub default_ram_mb: u32,
    /// Optional notes.
    pub notes: Option<String>,
}

impl Template {
    pub fn new(id: String, label: String, path: String, os_variant: String, role_kind: RoleKind)
        -> (r: Self)
        ensures
            r.id == id,
            r.label == label,
            r.path == path,
            r.os_variant == os_variant,
            r.role_kind == role_kind,
            r.default_ram_mb == 1024,
            r.notes is None,
    {
        Self { id, label, path, os_variant, role_kind, default_ram_mb: 1024, notes: None }
    }

    /// Judges the probed state of the template file: it must exist, be a
    /// regular file, and be readable. The driver probes; `read_error`
    /// carries the probe's failure text, if any.
    pub fn validate(&self, exists: bool, is_file: bool, read_error: Option<&str>) -> (r: Result<
        (),
        Error,
    >)
        ensures
            r is Ok <==> exists && is_file && read_error is None,
            !exists ==> (r matches Err(e) && e matches Error::Template(m) && m@
                == "Template file does not exist: "@ + self.path@),
            exists && !is_file ==> (r matches Err(e) && e matches Error::Template(m) && m@
                == "Template path is not a file: "@ + self.path@),
            read_error matches Some(msg) ==> (exists && is_file ==> (r matches Err(e) && e
                matches Error::Template(m) && m@ == "Cannot access template file "@ + self.path@
                + ": "@ + msg@)),
    {
        if !exists {
            return Err(
                Error::Template(concat2("Template file does not exist: ", self.path.as_str())),
            );
        }
        if !is_file {
            return Err(
                Error::Template(concat2("Template path is not a file: ", self.path.as_str())),
            );
        }
        match read_error {
            Some(msg) => {
                let mut m = String::from_str("Cannot access template file ");
                m.append(self.path.as_str());
                m.append(": ");
                m.append(msg);
                Err(Error::Template(m))
            },
            None => Ok(()),
        }
    }

    /// The probed existence check, as a plain judgement.
    pub fn is_present(&self, path_exists: bool, path_is_file: bool) -> (r: bool)
        ensures
            r == (path_exists && path_is_file),
    {
        path_exists && path_is_file
    }
}

// ---------------------------------------------------------------------------
// Template registry
// ---------------------------------------------------------------------------
/// Registry of all templates, keyed by their identifiers; identifiers are
/// unique.
#[derive(Debug, Clone, PartialEq)]
pub struct TemplateRegistry {
    pub version: u32,
    pub templates: Vec<Template>,
}

/// The index of the template with this identifier, if any.
pub open spec fn spec_find_template(ts: Seq<Template>, id: Seq<char>) -> Option<int>
    decreases ts.len(),
{
    if ts.len() == 0 {
        None
    } else if ts[0].id@ == id {
        Some(0int)
    } else {
        match spec_find_template(ts.skip(1), id) {
            None => None,
            Some(j) => Some(j + 1),
        }
    }
}

pub open spec fn spec_has_template(ts: Seq<Template>, id: Seq<char>) -> bool {
    exists|i: int| 0 <= i < ts.len() && (#[trigger] ts[i]).id@ == id
}

proof fn lemma_find_template_props(ts: Seq<Template>, id: Seq<char>)
    ensures
        spec_find_template(ts, id) matches Some(i) ==> 0 <= i < ts.len() && ts[i].id@ == id,
        spec_find_template(ts, id) is Some <==> spec_has_template(ts, id),
    decreases ts.len(),
{
    if ts.len() > 0 && ts[0].id@ != id {
        lemma_find_template_props(ts.skip(1), id);
        assert(forall|j: int| 0 <= j < ts.skip(1).len() ==> ts.skip(1)[j] == ts[j + 1]);
        if spec_has_template(ts, id) {
            let i = choose|i: int| 0 <= i < ts.len() && (#[trigger] ts[i]).id@ == id;
            assert(ts.skip(1)[i - 1] == ts[i]);
            assert(spec_has_template(ts.skip(1), id));
        }
        if spec_has_template(ts.skip(1), id) {
            let i = choose|i: int|
                0 <= i < ts.skip(1).len() && (#[trigger] ts.skip(1)[i]).id@ == id;
            assert(ts[i + 1].id@ == id);
        }
    }
}

/// Identifiers are pairwise distinct.
pub open spec fn spec_registry_wf(r: TemplateRegistry) -> bool {
    forall|i: int, j: int|
        0 <= i < j < r.templates@.len() ==> (#[trigger] r.templates@[i]).id@ != (
        #[trigger] r.templates@[j]).id@
}

fn find_template_index(ts: &Vec<Template>, id: &str) -> (r: Option<usize>)
    ensures
        r is Some <==> spec_has_template(ts@, id@),
        r matches Some(i) ==> i < ts@.len() && ts@[i as int].id@ == id@,
{
    let mut i: usize = 0;
    while i < ts.len()
        invariant
            i <= ts@.len(),
            forall|j: int| 0 <= j < i ==> (#[trigger] ts@[j]).id@ != id@,
        decreases ts@.len() - i,
    {
        if crate::text::eq_str(ts[i].id.as_str(), id) {
            return Some(i);
        }
        i = i + 1;
    }
    proof {
        if spec_has_template(ts@, id@) {
            let j = choose|j: int| 0 <= j < ts@.len() && (#[trigger] ts@[j]).id@ == id@;
            assert(ts@[j].id@ != id@);
        }
    }
    None
}

/// A template is offered for `kind` when its own kind matches or it is
/// generic.
pub open spec fn spec_kind_match(t: Template, kind: RoleKind) -> bool {
    t.role_kind == kind || t.role_kind == RoleKind::Generic
}

/// A template is offered for app use when it is an app, disposable-app or
/// generic template.
pub open spec fn spec_app_match(t: Template) -> bool {
    t.role_kind == RoleKind::App || t.role_kind == RoleKind::DisposableApp || t.role_kind
        == RoleKind::Generic
}

impl Default for TemplateRegistry {
    /// An empty registry.
    fn default() -> (r: Self)
        ensures
            r.version == 0,
            r.templates@.len() == 0,
            spec_registry_wf(r),
    {
        TemplateRegistry { version: 0, templates: Vec::new() }
    }
}

impl TemplateRegistry {
    /// Relies on `uuid::Uuid::new_v4` for a fresh random identifier;
    /// nothing can be promised of its value.
    #[verifier::external_body]
    pub fn generate_id(&self) -> String {
        uuid::Uuid::new_v4().to_string()
    }

    /// An empty registry.
    pub fn new() -> (r: Self)
        ensures
            r.version == 0,
            r.templates@.len() == 0,
            spec_registry_wf(r),
    {
        Self { version: 0, templates: Vec::new() }
    }

    /// Adds a template; a duplicate identifier is rejected.
    pub fn add(&mut self, template: Template) -> (r: Result<(), Error>)
        requires
            spec_registry_wf(*old(self)),
        ensures
            spec_registry_wf(*final(self)),
            final(self).version == old(self).version,
            r is Ok <==> !spec_has_template(old(self).templates@, template.id@),
            r is Ok ==> final(self).templates@ == old(self).templates@.push(template),
            r matches Err(e) ==> ({
                &&& final(self).templates@ == old(self).templates@
                &&& e matches Error::AlreadyExists(m)
                &&& m@ == "Template with ID '"@ + template.id@ + "' already exists"@
            }),
    {
        match find_template_index(&self.templates, template.id.as_str()) {
            Some(_) => Err(
                Error::AlreadyExists(
                    concat3("Template with ID '", template.id.as_str(), "' already exists"),
                ),
            ),
            None => {
                self.templates.push(template);
                proof {
                    assert forall|i: int, j: int|
                        0 <= i < j < self.templates@.len() implies (
                    #[trigger] self.templates@[i]).id@ != (#[trigger] self.templates@[j]).id@ by {
                        if j == self.templates@.len() - 1 {
                            assert(old(self).templates@[i].id@ != template.id@);
                        }
                    }
                }
                Ok(())
            },
        }
    }

    /// Replaces the template with the same identifier; an unknown
    /// identifier is rejected.
    pub fn update(&mut self, template: Template) -> (r: Result<(), Error>)
        requires
            spec_registry_wf(*old(self)),
        ensures
            spec_registry_wf(*final(self)),
            final(self).version == old(self).version,
            r is Ok <==> spec_has_template(old(self).templates@, template.id@),
            r is Ok ==> exists|i: int|
                0 <= i < old(self).templates@.len() && old(self).templates@[i].id@ == template.id@
                    && final(self).templates@ == old(self).templates@.update(i, template),
            r matches Err(e) ==> ({
                &&& final(self).templates@ == old(self).templates@
                &&& e matches Error::NotFound(m)
                &&& m@ == "Template with ID '"@ + template.id@ + "' not found"@
            }),
    {
        match find_template_index(&self.templates, template.id.as_str()) {
            Some(i) => {
                let ghost idx = i as int;
                self.templates.set(i, template);
                proof {
                    assert forall|a: int, b: int|
                        0 <= a < b < self.templates@.len() implies (
                    #[trigger] self.templates@[a]).id@ != (#[trigger] self.templates@[b]).id@ by {
                        assert(old(self).templates@[a].id@ != old(self).templates@[b].id@);
                        if a == idx {
                            assert(self.templates@[a].id@ == old(self).templates@[idx].id@);
                        }
                        if b == idx {
                            assert(self.templates@[b].id@ == old(self).templates@[idx].id@);
                        }
                    }
                }
                Ok(())
            },
            None => Err(
                Error::NotFound(
                    concat3("Template with ID '", template.id.as_str(), "' not found"),
                ),
            ),
        }
    }

    /// Removes the template with this identifier; an unknown identifier is
    /// rejected.
    pub fn remove(&mut self, id: &str) -> (r: Result<(), Error>)
        requires
            spec_registry_wf(*old(self)),
        ensures
            spec_registry_wf(*final(self)),
            final(self).version == old(self).version,
            r is Ok <==> spec_has_template(old(self).templates@, id@),
            r is Ok ==> exists|i: int|
                0 <= i < old(self).templates@.len() && old(self).templates@[i].id@ == id@ && final(self).templates@ == old(self).templates@.remove(i),
            r matches Err(e) ==> ({
                &&& final(self).templates@ == old(self).templates@
                &&& e matches Error::NotFound(m)
                &&& m@ == "Template with ID '"@ + id@ + "' not found"@
            }),
    {
        match find_template_index(&self.templates, id) {
            Some(i) => {
                let ghost idx = i as int;
                self.templates.remove(i);
                proof {
                    assert forall|a: int, b: int|
                        0 <= a < b < self.templates@.len() implies (
                    #[trigger] self.templates@[a]).id@ != (#[trigger] self.templates@[b]).id@ by {
                        let oa = if a < idx {
                            a
                        } else {
                            a + 1
                        };
                        let ob = if b < idx {
                            b
                        } else {
                            b + 1
                        };
                        assert(self.templates@[a] == old(self).templates@[oa]);
                        assert(self.templates@[b] == old(self).templates@[ob]);
                        assert(old(self).templates@[oa].id@ != old(self).templates@[ob].id@);
                    }
                }
                Ok(())
            },
            None => Err(Error::NotFound(concat3("Template with ID '", id, "' not found"))),
        }
    }

    /// The template with this identifier, if registered.
    pub fn get(&self, id: &str) -> (r: Option<&Template>)
        ensures
            r is Some <==> spec_has_template(self.templates@, id@),
            r matches Some(t) ==> exists|i: int|
                0 <= i < self.templates@.len() && self.templates@[i] == *t && (
                #[trigger] self.templates@[i]).id@ == id@,
    {
        match find_template_index(&self.templates, id) {
            Some(i) => Some(&self.templates[i]),
            None => None,
        }
    }

    /// The templates offered for a role kind, in registration order.
    pub fn get_by_role_kind(&self, kind: RoleKind) -> (r: Vec<&Template>)
        ensures
            r@.len() <= self.templates@.len(),
            forall|k: int|
                0 <= k < r@.len() ==> spec_kind_match(*(#[trigger] r@[k]), kind)
                    && self.templates@.contains(*r@[k]),
            forall|i: int|
                0 <= i < self.templates@.len() && spec_kind_match(#[trigger] self.templates@[i], kind)
                    ==> r@.contains(&self.templates@[i]) || exists|k: int|
                    0 <= k < r@.len() && *(#[trigger] r@[k]) == self.templates@[i],
    {
        let mut out: Vec<&Template> = Vec::new();
        let mut i: usize = 0;
        while i < self.templates.len()
            invariant
                i <= self.templates@.len(),
                out@.len() <= i,
                forall|k: int|
                    0 <= k < out@.len() ==> spec_kind_match(*(#[trigger] out@[k]), kind)
                        && self.templates@.contains(*out@[k]),
                forall|j: int|
                    0 <= j < i && spec_kind_match(#[trigger] self.templates@[j], kind) ==> exists|
                        k: int,
                    | 0 <= k < out@.len() && *(#[trigger] out@[k]) == self.templates@[j],
            decreases self.templates@.len() - i,
        {
            let matches_kind = {
                let tk = self.templates[i].role_kind;
                tk == kind || tk == RoleKind::Generic
            };
            let ghost prev = out@;
            if matches_kind {
                out.push(&self.templates[i]);
                proof {
                    assert(self.templates@.contains(self.templates@[i as int]));
                }
            }
            proof {
                assert forall|j: int|
                    0 <= j < i + 1 && spec_kind_match(
                        #[trigger] self.templates@[j],
                        kind,
                    ) implies exists|k: int|
                    0 <= k < out@.len() && *(#[trigger] out@[k]) == self.templates@[j] by {
                    if j == i {
                        assert(*out@[out@.len() - 1] == self.templates@[j]);
                    } else {
                        let k = choose|k: int|
                            0 <= k < prev.len() && *(#[trigger] prev[k]) == self.templates@[j];
                        assert(*out@[k] == self.templates@[j]);
                    }
                }
            }
            i = i + 1;
        }
        out
    }

    /// The templates suitable for proxy gateways.
    pub fn get_gateway_templates(&self) -> (r: Vec<&Template>)
        ensures
            forall|k: int|
                0 <= k < r@.len() ==> spec_kind_match(*(#[trigger] r@[k]), RoleKind::ProxyGateway)
                    && self.templates@.contains(*r@[k]),
            forall|i: int|
                0 <= i < self.templates@.len() && spec_kind_match(
                    #[trigger] self.templates@[i],
                    RoleKind::ProxyGateway,
                ) ==> exists|k: int| 0 <= k < r@.len() && *(#[trigger] r@[k]) == self.templates@[i],
    {
        self.get_by_role_kind(RoleKind::ProxyGateway)
    }

    /// The templates suitable for app and disposable VMs.
    pub fn get_app_templates(&self) -> (r: Vec<&Template>)
        ensures
            forall|k: int|
                0 <= k < r@.len() ==> spec_app_match(*(#[trigger] r@[k])) && self.templates@.contains(
                    *r@[k],
                ),
            forall|i: int|
                0 <= i < self.templates@.len() && spec_app_match(#[trigger] self.templates@[i])
                    ==> exists|k: int| 0 <= k < r@.len() && *(#[trigger] r@[k]) == self.templates@[i],
    {
        let mut out: Vec<&Template> = Vec::new();
        let mut i: usize = 0;
        while i < self.templates.len()
            invariant
                i <= self.templates@.len(),
                forall|k: int|
                    0 <= k < out@.len() ==> spec_app_match(*(#[trigger] out@[k]))
                        && self.templates@.contains(*out@[k]),
                forall|j: int|
                    0 <= j < i && spec_app_match(#[trigger] self.templates@[j]) ==> exists|k: int|
                        0 <= k < out@.len() && *(#[trigger] out@[k]) == self.templates@[j],
            decreases self.templates@.len() - i,
        {
            let matches_kind = {
                let tk = self.templates[i].role_kind;
                tk == RoleKind::App || tk == RoleKind::DisposableApp || tk == RoleKind::Generic
            };
            let ghost prev = out@;
            if matches_kind {
                out.push(&self.templates[i]);
                proof {
                    assert(self.templates@.contains(self.templates@[i as int]));
                }
            }
            proof {
                assert forall|j: int|
                    0 <= j < i + 1 && spec_app_match(#[trigger] self.templates@[j]) implies exists|
                    k: int,
                |
                    0 <= k < out@.len() && *(#[trigger] out@[k]) == self.templates@[j] by {
                    if j == i {
                        assert(*out@[out@.len() - 1] == self.templates@[j]);
                    } else {
                        let k = choose|k: int|
                            0 <= k < prev.len() && *(#[trigger] prev[k]) == self.templates@[j];
                        assert(*out@[k] == self.templates@[j]);
                    }
                }
            }
            i = i + 1;
        }
        out
    }

    /// Every template, in registration order.
    pub fn list(&self) -> (r: Vec<&Template>)
        ensures
            r@.len() == self.templates@.len(),
            forall|i: int| 0 <= i < r@.len() ==> *(#[trigger] r@[i]) == self.templates@[i],
    {
        let mut out: Vec<&Template> = Vec::new();
        let mut i: usize = 0;
        while i < self.templates.len()
            invariant
                i <= self.templates@.len(),
                out@.len() == i,
                forall|j: int| 0 <= j < i ==> *(#[trigger] out@[j]) == self.templates@[j],
            decreases self.templates@.len() - i,
        {
            out.push(&self.templates[i]);
            i = i + 1;
        }
        out
    }
}

// ---------------------------------------------------------------------------
// Role metadata
// ---------------------------------------------------------------------------
/// Metadata stored in a role's directory.
#[derive(Debug, Clone, PartialEq)]
pub struct RoleMeta {
    pub version: u32,
    pub role_name: String,
    /// Template for the gateway VM.
    pub gw_template_id: Option<String>,
    /// Template for app VMs.
    pub app_template_id: Option<String>,
    /// Template for disposable app VMs.
    pub disp_template_id: Option<String>,
    /// Shared-network override.
    pub lan_net: Option<String>,
    /// RAM override for the gateway.
    pub gw_ram_mb: Option<u32>,
    /// RAM override for app VMs.
    pub app_ram_mb: Option<u32>,
    /// vCPU override for the gateway.
    pub gw_vcpus: Option<u32>,
    /// Gateway mode configuration.
    pub gateway_mode: GatewayMode,
    /// How many app VMs have been minted for this role.
    pub app_vm_count: u32,
}

impl RoleMeta {
    pub fn new(role_name: String) -> (r: Self)
        ensures
            r.version == CONFIG_VERSION,
            r.role_name == role_name,
            r.gw_template_id is None,
            r.app_template_id is None,
            r.disp_template_id is None,
            r.lan_net is None,
            r.gw_ram_mb is None,
            r.app_ram_mb is None,
            r.gw_vcpus is None,
            r.gateway_mode == GatewayMode::ProxyChain,
            r.app_vm_count == 0,
    {
        Self {
            version: CONFIG_VERSION,
            role_name,
            gw_template_id: None,
            app_template_id: None,
            disp_template_id: None,
            lan_net: None,
            gw_ram_mb: None,
            app_ram_mb: None,
            gw_vcpus: None,
            gateway_mode: GatewayMode::ProxyChain,
            app_vm_count: 0,
        }
    }

    /// Where a role's metadata file lives.
    pub fn path_for_role(cfg_root: &str, role: &str) -> (r: String)
        ensures
            r@ == cfg_root@ + "/"@ + role@ + "/role-meta.toml"@,
    {
        let mut s = String::from_str(cfg_root);
        s.append("/");
        s.append(role);
        s.append("/role-meta.toml");
        s
    }

    /// Mints the next app-VM ordinal: the counter moves up by one and the
    /// new value is returned.
    pub fn next_app_number(&mut self) -> (r: u32)
        requires
            old(self).app_vm_count < 0xffff_ffff,
        ensures
            final(self).app_vm_count == old(self).app_vm_count + 1,
            r == final(self).app_vm_count,
            *final(self) == (RoleMeta { app_vm_count: final(self).app_vm_count, ..*old(self) }),
    {
        self.app_vm_count = self.app_vm_count + 1;
        self.app_vm_count
    }

    /// `{role}-gw`
    pub fn gw_vm_name(&self) -> (r: String)
        ensures
            r@ == self.role_name@ + "-gw"@,
    {
        concat2(self.role_name.as_str(), "-gw")
    }

    /// `{role}-app-{number}`
    pub fn app_vm_name(&self, number: u32) -> (r: String)
        ensures
            r@ == self.role_name@ + "-app-"@ + spec_dec(number as nat),
    {
        let n = u64_to_string(number as u64);
        concat3(self.role_name.as_str(), "-app-", n.as_str())
    }

    /// `{role}-inet`
    pub fn role_net_name(&self) -> (r: String)
        ensures
            r@ == self.role_name@ + "-inet"@,
    {
        concat2(self.role_name.as_str(), "-inet")
    }
}

} // verus!

use proxy_vm_core::adapter::{vm_identity_from_name, LibvirtAdapter, RoleNetworkSetup};
use proxy_vm_core::command::{needs_privilege, CommandOutput};
use proxy_vm_core::error::Error;
use proxy_vm_core::model::{NetworkState, VmKind, VmState};

fn out(exit_code: i32, stdout: &str, stderr: &str) -> CommandOutput {
    CommandOutput {
        exit_code,
        stdout: stdout.to_string(),
        stderr: stderr.to_string(),
    }
}

#[test]
fn test_gateway_virt_install_args() {
    let adapter = LibvirtAdapter::new();
    let args = adapter.build_gateway_virt_install_args(
        "work-gw",
        "/var/lib/libvirt/images/work-gw.qcow2",
        "lan-net",
        "work-inet",
        "/home/user/VMS/VM-Proxy-configs/work",
        "debian12",
        512,
    );

    assert!(args.contains(&"--name".to_string()));
    assert!(args.contains(&"work-gw".to_string()));
    assert!(args.contains(&"--import".to_string()));
    assert!(args.iter().any(|a| a.contains("lan-net")));
    assert!(args.iter().any(|a| a.contains("work-inet")));
    assert!(args.iter().any(|a| a.contains("proxy,accessmode=mapped")));
    assert!(args.contains(&"512".to_string()));
}

#[test]
fn test_app_virt_install_args() {
    let adapter = LibvirtAdapter::new();
    let args = adapter.build_app_virt_install_args(
        "work-app-1",
        "/var/lib/libvirt/images/work-app-1.qcow2",
        "work-inet",
        "fedora40",
        2048,
        None,
    );

    assert!(args.contains(&"--name".to_string()));
    assert!(args.contains(&"work-app-1".to_string()));
    assert!(args.contains(&"2048".to_string()));
    assert!(args.iter().any(|a| a.contains("work-inet")));
    // Should not have lan-net
    assert!(!args.iter().any(|a| a.contains("lan-net")));
}

#[test]
fn test_disposable_virt_install_args() {
    let adapter = LibvirtAdapter::new();
    let args = adapter.build_disposable_virt_install_args(
        "disp-work-20240101-120000",
        "/tmp/disp.qcow2",
        "work-inet",
        "debian12",
        2048,
    );

    assert!(args.contains(&"--transient".to_string()));
    assert!(args.contains(&"--import".to_string()));
}

#[test]
fn existence_is_exactly_exit_code_zero() {
    let adapter = LibvirtAdapter::new();
    assert!(adapter.network_exists(&out(0, "", "")));
    assert!(!adapter.network_exists(&out(1, "", "error: no network")));
    assert!(adapter.vm_exists(&out(0, "", "")));
    assert!(!adapter.vm_exists(&out(2, "", "anything at all")));
}

#[test]
fn destroy_then_undefine_on_absent_resources_is_success() {
    let adapter = LibvirtAdapter::new();
    // force stop of a VM that is not running
    assert!(adapter
        .destroy_vm("work-gw", &out(1, "", "error: domain is not running"))
        .is_ok());
    // undefine of a VM that is already gone
    assert!(adapter
        .undefine_vm("work-gw", &out(1, "", "error: failed to get domain 'work-gw'"))
        .is_ok());
    // network undefine of a network that is not found
    assert!(adapter
        .destroy_network("work-inet", &out(1, "", "error: network not found"))
        .is_ok());
    // a genuine failure still surfaces, with the captured standard error
    let e = adapter.destroy_vm("work-gw", &out(1, "", "permission denied")).unwrap_err();
    match e {
        Error::Libvirt(m) => assert_eq!(m, "Failed to destroy VM 'work-gw': permission denied"),
        other => panic!("unexpected error {:?}", other),
    }
}

#[test]
fn start_and_stop_report_their_stderr() {
    let adapter = LibvirtAdapter::new();
    assert!(adapter.start_vm("work-gw", &out(0, "", "")).is_ok());
    // stopping a VM that is not running counts as success
    assert!(adapter
        .stop_vm("work-gw", &out(1, "", "error: domain is not running"))
        .is_ok());
    match adapter.start_vm("work-gw", &out(1, "", "boom")).unwrap_err() {
        Error::Libvirt(m) => assert_eq!(m, "Failed to start VM 'work-gw': boom"),
        other => panic!("unexpected error {:?}", other),
    }
    match adapter.stop_vm("work-gw", &out(1, "", "nope")).unwrap_err() {
        Error::Libvirt(m) => assert_eq!(m, "Failed to stop VM 'work-gw': nope"),
        other => panic!("unexpected error {:?}", other),
    }
}

#[test]
fn access_check_reports_permission_trouble() {
    let adapter = LibvirtAdapter::new();
    assert!(adapter.check_libvirt_access(&out(0, "", "")).is_ok());
    match adapter.check_libvirt_access(&out(1, "", "denied")).unwrap_err() {
        Error::PermissionDenied(m) => assert!(m.ends_with("Error: denied")),
        other => panic!("unexpected error {:?}", other),
    }
}

#[test]
fn network_info_reads_the_status_lines() {
    let adapter = LibvirtAdapter::new();
    let stdout = "Name:           work-inet\nUUID:           1234\nActive:         yes\nPersistent:     yes\nAutostart:      yes\nBridge:         virbr1\n";
    let info = adapter.get_network_info("work-inet", &out(0, stdout, "")).unwrap();
    assert_eq!(info.name, "work-inet");
    assert_eq!(info.state, NetworkState::Active);
    assert!(info.autostart);

    let inactive = adapter
        .get_network_info("work-inet", &out(0, "Active: no\nAutostart: no\n", ""))
        .unwrap();
    assert_eq!(inactive.state, NetworkState::Inactive);
    assert!(!inactive.autostart);

    assert!(adapter.get_network_info("work-inet", &out(1, "", "gone")).is_none());
}

#[test]
fn vm_info_reads_state_and_infers_identity_from_the_name() {
    let adapter = LibvirtAdapter::new();
    let stdout = "Id:             7\nName:           work-gw\nState:          running\n";
    let info = adapter.get_vm_info("work-gw", &out(0, stdout, "")).unwrap();
    assert_eq!(info.state, VmState::Running);
    assert_eq!(info.kind, VmKind::ProxyGateway);
    assert_eq!(info.role, Some("work".to_string()));

    let (kind, role) = vm_identity_from_name("bank-app-3");
    assert_eq!(kind, VmKind::App);
    assert_eq!(role, Some("bank".to_string()));

    let (kind, role) = vm_identity_from_name("disp-work-20240101-120000");
    assert_eq!(kind, VmKind::DisposableApp);
    assert_eq!(role, None);
}

#[test]
fn vm_name_listing_skips_blank_lines() {
    let adapter = LibvirtAdapter::new();
    let names = adapter
        .parse_vm_names(&out(0, " work-gw\n work-app-1\n\n other\n", ""))
        .unwrap();
    assert_eq!(names, vec!["work-gw", "work-app-1", "other"]);
    match adapter.parse_vm_names(&out(1, "", "broken")).unwrap_err() {
        Error::Libvirt(m) => assert_eq!(m, "Failed to list VMs: broken"),
        other => panic!("unexpected error {:?}", other),
    }
}

#[test]
fn disk_path_is_read_from_the_definition() {
    let adapter = LibvirtAdapter::new();
    let xml = "<domain>\n  <devices>\n    <disk type='file'>\n      <source file='/var/lib/libvirt/images/work-gw.qcow2'/>\n    </disk>\n  </devices>\n</domain>\n";
    assert_eq!(
        adapter.get_vm_disk_path(&out(0, xml, "")),
        Some("/var/lib/libvirt/images/work-gw.qcow2".to_string())
    );
    let xml_dq = "  <source file=\"/tmp/disk.qcow2\"/>\n";
    assert_eq!(adapter.get_vm_disk_path(&out(0, xml_dq, "")), Some("/tmp/disk.qcow2".to_string()));
    assert_eq!(adapter.get_vm_disk_path(&out(0, "<domain/>", "")), None);
}

#[test]
fn backing_file_is_read_from_image_info() {
    let adapter = LibvirtAdapter::new();
    let stdout = "image: /var/lib/libvirt/images/work-gw.qcow2\nfile format: qcow2\nbacking file: /var/lib/libvirt/images/debian12-base.qcow2\nbacking file format: qcow2\n";
    assert_eq!(
        adapter.get_backing_file(&out(0, stdout, "")),
        Some("/var/lib/libvirt/images/debian12-base.qcow2".to_string())
    );
    assert_eq!(adapter.get_backing_file(&out(0, "image: x\n", "")), None);
}

#[test]
fn backing_chain_resolution_includes_overlay_users() {
    // a template T, an overlay O backed by T, and a VM whose disk is O
    let adapter = LibvirtAdapter::new();
    let template = "/var/lib/libvirt/images/debian12-base.qcow2";
    let overlay = "/var/lib/libvirt/images/work-gw.qcow2";
    let disks = vec![
        ("work-gw".to_string(), overlay.to_string()),
        ("other-vm".to_string(), "/tmp/unrelated.qcow2".to_string()),
        ("direct-vm".to_string(), template.to_string()),
    ];
    let backings = vec![
        (overlay.to_string(), Some(template.to_string())),
        ("/tmp/unrelated.qcow2".to_string(), None),
        (template.to_string(), None),
    ];
    let users = adapter.get_vms_using_image(template, &disks, &backings);
    assert_eq!(users, vec!["direct-vm".to_string(), "work-gw".to_string()]); // sorted ascending
    assert!(!users.contains(&"other-vm".to_string()));
}

#[test]
fn disposable_creation_fails_fast_on_duplicates() {
    let adapter = LibvirtAdapter::new();
    match adapter
        .create_disposable_vm("disp-work-1", "/tmp/d.qcow2", "work-inet", "debian12", 2048, true)
        .unwrap_err()
    {
        Error::AlreadyExists(m) => assert_eq!(m, "VM 'disp-work-1' already exists"),
        other => panic!("unexpected error {:?}", other),
    }
    let req = adapter
        .create_disposable_vm("disp-work-1", "/tmp/d.qcow2", "work-inet", "debian12", 2048, false)
        .unwrap();
    assert!(req.args.contains(&"--transient".to_string()));
}

#[test]
fn privilege_selection_is_a_pure_path_predicate() {
    assert!(needs_privilege("/var/lib/libvirt/images/x.qcow2"));
    assert!(needs_privilege("/etc/something"));
    assert!(needs_privilege("/usr"));
    assert!(!needs_privilege("/home/user/images/x.qcow2"));
    assert!(!needs_privilege("/var/library")); // not under /var/lib as a path
}

#[test]
fn overlay_plans_fail_fast_and_pick_the_privileged_front_end() {
    let adapter = LibvirtAdapter::new();
    match adapter
        .create_overlay_disk("/t.qcow2", "/var/lib/libvirt/images/o.qcow2", false, false, true)
        .unwrap_err()
    {
        Error::Template(m) => assert_eq!(m, "Template disk does not exist: /t.qcow2"),
        other => panic!("unexpected error {:?}", other),
    }
    match adapter
        .create_overlay_disk("/t.qcow2", "/var/lib/libvirt/images/o.qcow2", true, true, true)
        .unwrap_err()
    {
        Error::AlreadyExists(m) => {
            assert_eq!(m, "Overlay disk already exists: /var/lib/libvirt/images/o.qcow2")
        }
        other => panic!("unexpected error {:?}", other),
    }
    let plan = adapter
        .create_overlay_disk("/t.qcow2", "/var/lib/libvirt/images/o.qcow2", true, false, true)
        .unwrap();
    assert!(plan.create.elevated);
    assert!(plan.chmod.is_some());
    assert!(plan.mkdir_parent.is_none());
    let args: Vec<String> = plan.create.args;
    assert_eq!(
        args,
        vec!["create", "-f", "qcow2", "-F", "qcow2", "-b", "/t.qcow2", "/var/lib/libvirt/images/o.qcow2"]
    );

    let home_plan = adapter
        .create_overlay_disk("/t.qcow2", "/home/u/o.qcow2", true, false, true)
        .unwrap();
    assert!(!home_plan.create.elevated);
    assert!(home_plan.chmod.is_none());
}

#[test]
fn ensure_lan_net_only_reports() {
    let adapter = LibvirtAdapter::new();
    assert!(adapter.ensure_lan_net_exists("lan-net", true).is_ok());
    match adapter.ensure_lan_net_exists("lan-net", false).unwrap_err() {
        Error::Libvirt(m) => assert!(m.starts_with("LAN network 'lan-net' does not exist")),
        other => panic!("unexpected error {:?}", other),
    }
}

#[test]
fn role_network_setup_is_a_three_step_saga_with_compensation() {
    let adapter = LibvirtAdapter::new();

    // a pre-existing network: reported as not created, nothing else run
    let mut saga = RoleNetworkSetup::new("work", "/tmp/net-work-inet.xml".to_string());
    let probe = saga.pending_request(&adapter).unwrap();
    assert_eq!(probe.args, vec!["net-info", "work-inet"]);
    saga.advance(&out(0, "", ""));
    assert!(saga.pending_request(&adapter).is_none());
    assert_eq!(saga.take_result(), Some(Ok(false)));

    // the full create path
    let mut saga = RoleNetworkSetup::new("work", "/tmp/net-work-inet.xml".to_string());
    saga.advance(&out(1, "", "not found"));
    assert_eq!(saga.pending_request(&adapter).unwrap().args[0], "net-define");
    saga.advance(&out(0, "", ""));
    assert_eq!(
        saga.pending_request(&adapter).unwrap().args,
        vec!["net-autostart", "work-inet"]
    );
    saga.advance(&out(0, "", ""));
    assert_eq!(saga.pending_request(&adapter).unwrap().args, vec!["net-start", "work-inet"]);
    saga.advance(&out(0, "", ""));
    assert_eq!(saga.take_result(), Some(Ok(true)));

    // a failed start undoes the define: destroy, then undefine, then the error
    let mut saga = RoleNetworkSetup::new("work", "/tmp/net-work-inet.xml".to_string());
    saga.advance(&out(1, "", "not found"));
    saga.advance(&out(0, "", "")); // define
    saga.advance(&out(0, "", "")); // autostart
    saga.advance(&out(1, "", "bridge in use")); // start fails
    assert_eq!(saga.pending_request(&adapter).unwrap().args, vec!["net-destroy", "work-inet"]);
    saga.advance(&out(0, "", ""));
    assert_eq!(
        saga.pending_request(&adapter).unwrap().args,
        vec!["net-undefine", "work-inet"]
    );
    saga.advance(&out(0, "", ""));
    match saga.take_result() {
        Some(Err(Error::Libvirt(m))) => {
            assert_eq!(m, "Failed to start network 'work-inet': bridge in use");
        }
        other => panic!("unexpected outcome {:?}", other),
    }
}

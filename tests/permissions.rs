use flubber::permissions::{AllowAllPermissions, Capability, DenyListPermissions, PermissionGate};

#[test]
fn allow_all_grants_every_capability() {
    let gate = AllowAllPermissions;
    assert!(gate.allow_hrtime());
    gate.check_unstable("Deno.anything");
    assert!(gate.check_net_url("https://example.com/", "fetch").is_ok());
    assert!(gate.check_read("/etc/hosts", "fetch").is_ok());
}

#[test]
fn deny_list_refuses_listed_url_only() {
    let gate = DenyListPermissions::deny_urls(vec!["https://blocked.example/".to_string()]);
    let err = gate.check_net_url("https://blocked.example/", "fetch").unwrap_err();
    assert_eq!(err.capability, Capability::Network);
    assert_eq!(err.target, "https://blocked.example/");
    assert_eq!(err.api_name, "fetch");
    assert!(gate.check_net_url("https://open.example/", "fetch").is_ok());
    assert!(gate.allow_hrtime());
}

#[test]
fn deny_list_refuses_listed_path() {
    let gate = DenyListPermissions {
        hrtime: false,
        denied_urls: vec![],
        denied_paths: vec!["/secret".to_string()],
    };
    let err = gate.check_read("/secret", "read").unwrap_err();
    assert_eq!(err.capability, Capability::FilesystemRead);
    assert_eq!(err.target, "/secret");
    assert!(gate.check_read("/public", "read").is_ok());
    assert!(!gate.allow_hrtime());
}

use ferris::wifi_handshake::config::{ApConfig, AutoApConfig};
use ferris::wifi_handshake::installer::autoap::SystemdServicesStep;
use ferris::wifi_handshake::installer::configuration::ConfigurationStep;
use ferris::wifi_handshake::installer::confirmation::ConfirmationStep;
use ferris::wifi_handshake::installer::service_config::ServiceConfigStep;
use ferris::wifi_handshake::installer::system_check::{ConflictChoice, Service, SystemCheckStep};
use ferris::wifi_handshake::installer::systemd_network::SystemdNetworkStep;
use ferris::wifi_handshake::installer::verify::VerificationStep;
use ferris::wifi_handshake::installer::wpa_supplicant::WpaSupplicantStep;
use ferris::wifi_handshake::installer::{Action, InstallError, Installer, InstallerStep};
use ferris::wifi_handshake::utils::{
    backup_file, has_connected_stations, is_autoap_installed, is_systemd_networkd_active,
    is_systemd_resolved_active, wpa_cli_command, FileOperation, InstalledFiles,
};
use ferris::system::{Failure, Reply};

fn ap() -> ApConfig {
    ApConfig {
        ssid: "bo\"x".to_string(),
        psk: "sec\"ret12".to_string(),
        ip_address: "192.168.16.1".to_string(),
    }
}

fn ctl(args: &[&str], required: bool) -> Action {
    Action::Systemctl { args: args.iter().map(|a| a.to_string()).collect(), required }
}

fn run(program: &str, args: &[&str], required: bool) -> Action {
    Action::Run {
        program: program.to_string(),
        args: args.iter().map(|a| a.to_string()).collect(),
        required,
    }
}

#[test]
fn the_installer_runs_its_steps_in_order() {
    let config = ap();
    let mut expected = ConfirmationStep::new(&config).execute();
    expected.extend(WpaSupplicantStep::new(&config).execute());
    expected.extend(SystemdNetworkStep::new(&config).execute());
    expected.extend(SystemdServicesStep::new().execute());
    expected.extend(ServiceConfigStep::new().execute());
    expected.extend(VerificationStep::new().execute());
    let plan = Installer::new().install(&config);
    assert_eq!(plan.len(), 8 + 2 + 7 + 4 + 6 + 8);
    assert_eq!(plan, expected);
    assert!(matches!(plan[7], Action::Confirm { .. }));
    assert!(matches!(plan[8], Action::Preserve { .. }));
}

#[test]
fn the_units_are_backed_up_and_written() {
    let plan = SystemdServicesStep::new().execute();
    assert_eq!(plan.len(), 4);
    assert_eq!(plan[0], Action::Backup("/etc/systemd/system/wpa-autoap@wlan0.service".to_string()));
    assert_eq!(plan[1], Action::Backup("/etc/systemd/system/wpa-autoap-restore.service".to_string()));
    match &plan[2] {
        Action::Write { path, content } => {
            assert_eq!(path, "/etc/systemd/system/wpa-autoap@wlan0.service");
            assert!(content.starts_with("[Unit]\nDescription=autoAP Automatic Access Point"));
            assert!(content.contains("\nExecStart=/usr/local/bin/autoap start %I\n"));
            assert!(content.ends_with("[Install]\nWantedBy=multi-user.target\n\n"));
        }
        _ => panic!("no write"),
    }
    match &plan[3] {
        Action::Write { path, content } => {
            assert_eq!(path, "/etc/systemd/system/wpa-autoap-restore.service");
            assert!(content.contains(
                "ExecStart=/bin/bash -c '[ -x /usr/local/bin/autoap ] && /usr/local/bin/autoap reset'\n"
            ));
        }
        _ => panic!("no write"),
    }
}

#[test]
fn the_network_descriptors_are_written() {
    let config = ap();
    let plan = SystemdNetworkStep::new(&config).execute();
    assert_eq!(plan.len(), 7);
    assert_eq!(plan[1], Action::Backup("/etc/systemd/network/11-wlan0.network".to_string()));
    assert_eq!(plan[3], Action::RemoveIfPresent("/etc/systemd/network/11-wlan0.network~".to_string()));
    assert_eq!(
        plan[4],
        Action::Write {
            path: "/etc/systemd/network/10-eth0.network".to_string(),
            content: "[Match]\nName=eth0\n\n[Network]\nDHCP=ipv4\n\n[DHCP]\nRouteMetric=10\nUseDomains=yes\nUseDNS=yes\n\n".to_string()
        }
    );
    assert_eq!(
        plan[6],
        Action::Write {
            path: "/etc/systemd/network/12-wlan0AP.network".to_string(),
            content: "[Match]\nName=wlan0\n\n[Network]\nDHCPServer=yes\nAddress=192.168.16.1/24\n\n".to_string()
        }
    );
}

#[test]
fn the_supplicant_configuration_holds_the_access_point() {
    let config = ap();
    let step = WpaSupplicantStep::new(&config);
    let text = step.render();
    assert!(text.starts_with("country=US\nctrl_interface=DIR=/var/run/wpa_supplicant GROUP=netdev\n"));
    assert!(text.ends_with("network={\n    ssid=\"box\"\n    mode=2\n    key_mgmt=WPA-PSK\n    psk=\"secret12\"\n    frequency=2462\n}\n"));
    let plan = step.execute();
    assert_eq!(
        plan[0],
        Action::Preserve {
            first: "/etc/wpa_supplicant/wpa_supplicant.conf".to_string(),
            second: "/etc/wpa_supplicant/wpa_supplicant-wlan0.conf".to_string()
        }
    );
    assert_eq!(
        plan[1],
        Action::Write { path: "/etc/wpa_supplicant/wpa_supplicant-wlan0.conf".to_string(), content: text }
    );
}

#[test]
fn the_services_are_enabled_in_order() {
    let plan = ServiceConfigStep::new().execute();
    assert_eq!(
        plan,
        vec![
            Action::Write {
                path: "/usr/local/bin/autoAP.conf".to_string(),
                content: AutoApConfig::default().save()
            },
            ctl(&["daemon-reload"], true),
            ctl(&["enable", "wpa_supplicant@wlan0"], true),
            ctl(&["disable", "wpa_supplicant"], false),
            ctl(&["enable", "wpa-autoap@wlan0"], true),
            ctl(&["enable", "wpa-autoap-restore"], true),
        ]
    );
}

#[test]
fn the_installation_is_looked_over() {
    let plan = VerificationStep::new().execute();
    assert_eq!(plan.len(), 8);
    assert_eq!(
        plan[0],
        Action::RequireActive {
            service: "systemd-networkd".to_string(),
            message: "systemd-networkd is not active after installation".to_string()
        }
    );
    assert_eq!(plan[2], Action::ReportEnabled("wpa_supplicant@wlan0".to_string()));
    assert_eq!(plan[6], Action::ReportEnabled("systemd-resolved".to_string()));
    assert_eq!(plan[7], run("/usr/local/bin/autoap", &["--help"], true));
}

#[test]
fn the_operator_is_shown_the_access_point_and_asked() {
    let config = ap();
    let plan = ConfirmationStep::new(&config).execute();
    assert_eq!(plan.len(), 8);
    assert_eq!(plan[1], Action::Show(" Access Point SSID:     bo\"x".to_string()));
    assert_eq!(plan[3], Action::Show(" Access Point IP addr:  192.168.16.1".to_string()));
    assert_eq!(
        plan[7],
        Action::Confirm {
            prompt: "Are you ready to proceed?".to_string(),
            refusal: "Installation cancelled by user".to_string()
        }
    );
}

#[test]
fn a_password_must_take_eight_to_sixty_three_bytes() {
    let step = ConfigurationStep::new();
    assert_eq!(step.clean_password("1234567"), None);
    assert_eq!(step.clean_password("12345678"), Some("12345678".to_string()));
    assert_eq!(step.clean_password("\"1234567\""), None);
    assert_eq!(step.clean_password("\"12345678\""), Some("12345678".to_string()));
    assert_eq!(step.clean_password(&"a".repeat(63)), Some("a".repeat(63)));
    assert_eq!(step.clean_password(&"a".repeat(64)), None);
    assert_eq!(step.clean_password("üüüü"), Some("üüüü".to_string()));
    assert_eq!(step.clean_password(&"ü".repeat(32)), None);
    assert_eq!(step.default_ip_address(), "192.168.16.1");
    assert_eq!(
        step.gather_config("box".to_string(), "pass\"word", "10.0.0.1".to_string()),
        Some(ApConfig {
            ssid: "box".to_string(),
            psk: "password".to_string(),
            ip_address: "10.0.0.1".to_string()
        })
    );
    assert_eq!(step.gather_config("box".to_string(), "short", "10.0.0.1".to_string()), None);
}

#[test]
fn another_network_manager_is_dealt_with_as_the_operator_says() {
    let step = SystemCheckStep::new();
    assert_eq!(step.check_network_manager_conflict(false, ConflictChoice::Refuse), Ok(vec![]));
    assert_eq!(
        step.check_network_manager_conflict(true, ConflictChoice::Disable),
        Ok(vec![
            ctl(&["stop", "NetworkManager"], false),
            ctl(&["disable", "NetworkManager"], false),
            ctl(&["mask", "NetworkManager"], false),
        ])
    );
    assert_eq!(
        step.check_network_manager_conflict(true, ConflictChoice::Ignore),
        Ok(vec![
            Action::CreateDir("/etc/NetworkManager/conf.d".to_string()),
            Action::Write {
                path: "/etc/NetworkManager/conf.d/99-unmanaged-devices.conf".to_string(),
                content: "[keyfile]\nunmanaged-devices=interface-name:wlan0\n".to_string()
            },
            ctl(&["restart", "NetworkManager"], false),
        ])
    );
    assert_eq!(
        step.check_network_manager_conflict(true, ConflictChoice::Refuse),
        Err(InstallError::NetworkManagerConflict)
    );
}

#[test]
fn the_resolver_is_installed_with_the_first_package_manager() {
    let step = SystemCheckStep::new();
    assert_eq!(
        step.install_systemd_resolved(true, true, false, false),
        Ok(vec![
            run("apt", &["update"], false),
            run("apt", &["install", "-y", "systemd-resolved"], true),
            ctl(&["daemon-reload"], true),
        ])
    );
    assert_eq!(
        step.install_systemd_resolved(false, false, true, true),
        Ok(vec![run("yum", &["install", "-y", "systemd-resolved"], true), ctl(&["daemon-reload"], true)])
    );
    assert_eq!(
        step.install_systemd_resolved(false, false, false, true),
        Ok(vec![
            run("pacman", &["-S", "--noconfirm", "systemd-resolvconf"], true),
            ctl(&["daemon-reload"], true)
        ])
    );
    assert_eq!(step.install_with_dnf(), vec![run("dnf", &["install", "-y", "systemd-resolved"], true)]);
    assert_eq!(
        step.install_systemd_resolved(false, false, false, false),
        Err(InstallError::NoPackageManager)
    );
}

#[test]
fn a_missing_service_is_installed_only_if_it_is_the_resolver() {
    let step = SystemCheckStep::new();
    assert_eq!(
        step.service_exists(Service::Networkd, true, true, true, true, true),
        Err(InstallError::NetworkdMissing)
    );
    assert_eq!(
        step.service_exists(Service::Resolved, false, true, true, true, true),
        Err(InstallError::ResolvedDeclined)
    );
    assert_eq!(
        step.service_exists(Service::Resolved, true, false, false, false, false),
        Err(InstallError::NoPackageManager)
    );
    assert_eq!(
        step.service_exists(Service::Resolved, true, false, true, false, false),
        step.install_systemd_resolved(false, true, false, false)
    );
}

#[test]
fn a_service_that_is_not_active_is_enabled_if_the_operator_agrees() {
    let step = SystemCheckStep::new();
    assert_eq!(step.check_and_enable_service(Service::Networkd, true, false), Ok(vec![]));
    assert_eq!(
        step.check_and_enable_service(Service::Resolved, false, true),
        Ok(vec![
            ctl(&["enable", "systemd-resolved"], true),
            ctl(&["start", "systemd-resolved"], true),
            Action::RequireActive {
                service: "systemd-resolved".to_string(),
                message: "Failed to start systemd-resolved".to_string()
            },
        ])
    );
    assert_eq!(
        step.check_and_enable_service(Service::Networkd, false, false),
        Err(InstallError::ServiceDeclined)
    );
    assert_eq!(Service::Networkd.as_str(), "systemd-networkd");
}

#[test]
fn a_device_is_provisioned_when_its_files_are_there() {
    let all = InstalledFiles {
        config: true,
        autoap_service: true,
        restore_service: true,
        supplicant_config: true,
        ap_network: true,
        client_network: true,
        client_network_backup: false,
    };
    assert!(is_autoap_installed(&all));
    assert!(is_autoap_installed(&InstalledFiles {
        client_network: false,
        client_network_backup: true,
        ..all
    }));
    assert!(!is_autoap_installed(&InstalledFiles { client_network: false, ..all }));
    assert!(!is_autoap_installed(&InstalledFiles { config: false, ..all }));
    assert!(!is_autoap_installed(&InstalledFiles { autoap_service: false, ..all }));
    assert!(!is_autoap_installed(&InstalledFiles { restore_service: false, ..all }));
    assert!(!is_autoap_installed(&InstalledFiles { supplicant_config: false, ..all }));
    assert!(!is_autoap_installed(&InstalledFiles { ap_network: false, ..all }));
}

#[test]
fn the_answers_of_the_service_manager_are_read() {
    let exit = |success: bool, text: &str| Reply::Exit { success, stdout: text.to_string() };
    assert_eq!(is_systemd_networkd_active(&exit(true, "active\n")), Ok(true));
    assert_eq!(is_systemd_networkd_active(&exit(true, "activating\n")), Ok(false));
    assert_eq!(is_systemd_networkd_active(&exit(false, "active\n")), Ok(false));
    assert_eq!(is_systemd_resolved_active(&exit(false, "inactive\n")), Ok(false));
    assert_eq!(is_systemd_resolved_active(&Reply::Failed), Err(Failure::ServiceQueryFailed));
    assert!(has_connected_stations(&exit(true, "aa:bb:cc:dd:ee:ff\n")));
    assert!(!has_connected_stations(&exit(true, " \n")));
    assert!(!has_connected_stations(&exit(false, "aa:bb:cc:dd:ee:ff\n")));
    assert!(!has_connected_stations(&Reply::Failed));
}

#[test]
fn a_copy_is_kept_with_the_older_copy_moved_away() {
    let copy = FileOperation::Copy { from: "/a/b".to_string(), to: "/a/b.bak".to_string() };
    let rename =
        FileOperation::Rename { from: "/a/b.bak".to_string(), to: "/a/b.bak.old".to_string() };
    let remove = FileOperation::Remove("/a/b.bak.old".to_string());
    assert_eq!(backup_file("/a/b", false, true, true), vec![]);
    assert_eq!(backup_file("/a/b", true, false, false), vec![copy.clone()]);
    assert_eq!(backup_file("/a/b", true, false, true), vec![copy.clone()]);
    assert_eq!(backup_file("/a/b", true, true, false), vec![rename.clone(), copy.clone()]);
    assert_eq!(backup_file("/a/b", true, true, true), vec![remove, rename, copy]);
    assert_eq!(wpa_cli_command("wlan0", &["all_sta"]), vec!["-i", "wlan0", "all_sta"]);
}

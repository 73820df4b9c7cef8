use ferris::binary_initializer::BinaryInitializer;
use ferris::desktop::window::{create_desktop_webview, AppEvent, WindowCommand};
use ferris::desktop::{get_initial_url, start_connectivity_monitoring, Transition};
use ferris::server::globals::{
    get_binary_path, get_binary_paths, init_config_dir, set_binary_path, BinaryPath, Globals,
};
use ferris::server::routes::sys::{
    autoap_status, detect_autoap_web_server_port, extract_port_from_command_line,
    test_port_connectivity,
};
use ferris::system::{Probe, Request, Sentinel};
use ferris::ui_state_controller::{Screen, UrlState};
use ferris::wifi_handshake::web_server::{ApiResponse, WebServer, WifiConfig};
use std::path::PathBuf;

#[test]
fn the_window_opens_with_the_view_for_the_connection() {
    assert_eq!(get_initial_url(true), "http://localhost:8000/goldie?view=loading");
    assert_eq!(get_initial_url(false), "http://localhost:8000/goldie?view=waiting-for-wifi");
    assert_eq!(Screen::Home.url(), "http://localhost:8000/goldie?view=home");
}

#[test]
fn the_window_follows_the_connection() {
    assert_eq!(start_connectivity_monitoring(true, false, true), Transition::ShowHome);
    assert_eq!(start_connectivity_monitoring(true, false, false), Transition::Initialize);
    assert_eq!(start_connectivity_monitoring(false, true, true), Transition::ShowWaiting);
    assert_eq!(start_connectivity_monitoring(false, false, false), Transition::ShowWaiting);
    assert_eq!(start_connectivity_monitoring(true, true, false), Transition::Stay);
}

#[test]
fn an_address_is_loaded_only_when_it_changes() {
    let mut state = UrlState::new("http://a");
    assert!(!state.load_url_if_different("http://a"));
    assert!(state.load_url_if_different("http://b"));
    assert_eq!(state.current, Some("http://b".to_string()));
    assert!(!state.load_url_if_different("http://b"));
    let mut empty = UrlState { current: None };
    assert!(empty.load_url_if_different(""));
}

#[test]
fn the_first_address_makes_the_window_draw() {
    let mut first = true;
    assert_eq!(create_desktop_webview(AppEvent::Hide, &mut first), vec![WindowCommand::SetVisible(false)]);
    assert!(first);
    assert_eq!(
        create_desktop_webview(AppEvent::LoadUrl("http://a".to_string()), &mut first),
        vec![
            WindowCommand::SetVisible(false),
            WindowCommand::Pause(100),
            WindowCommand::SetVisible(true),
            WindowCommand::Load("http://a".to_string()),
        ]
    );
    assert!(!first);
    assert_eq!(
        create_desktop_webview(AppEvent::LoadUrl("http://b".to_string()), &mut first),
        vec![WindowCommand::Load("http://b".to_string())]
    );
    assert_eq!(create_desktop_webview(AppEvent::Show, &mut first), vec![WindowCommand::SetVisible(true)]);
}

#[test]
fn the_programs_count_as_fetched_once_all_downloads_succeed() {
    let mut state = BinaryInitializer::new();
    assert!(!state.are_binaries_initialized());
    state.initialize(&[true, false]);
    assert!(!state.are_binaries_initialized());
    state.initialize(&[true, true]);
    assert!(state.are_binaries_initialized());
    state.initialize(&[false]);
    assert!(state.are_binaries_initialized());
}

#[test]
fn a_program_lies_where_it_was_registered_or_in_the_directory() {
    let mut globals = Globals::new();
    init_config_dir(&mut globals, PathBuf::from("./config"));
    match get_binary_path(&globals, "ffmpeg", false) {
        BinaryPath::InConfigDir { directory, file } => {
            assert_eq!(directory, PathBuf::from("./config"));
            assert_eq!(file, "ffmpeg");
        }
        _ => panic!("nothing was registered"),
    }
    match get_binary_path(&globals, "ffmpeg", true) {
        BinaryPath::InConfigDir { file, .. } => assert_eq!(file, "ffmpeg.exe"),
        _ => panic!("nothing was registered"),
    }
    set_binary_path(&mut globals, "ffmpeg", PathBuf::from("/opt/ffmpeg"));
    set_binary_path(&mut globals, "yt-dlp", PathBuf::from("/opt/yt-dlp"));
    set_binary_path(&mut globals, "ffmpeg", PathBuf::from("/usr/bin/ffmpeg"));
    assert_eq!(get_binary_paths(&globals).len(), 2);
    match get_binary_path(&globals, "ffmpeg", true) {
        BinaryPath::Registered(path) => assert_eq!(path, PathBuf::from("/usr/bin/ffmpeg")),
        _ => panic!("the registration is lost"),
    }
    match get_binary_path(&globals, "yt-dlp", false) {
        BinaryPath::Registered(path) => assert_eq!(path, PathBuf::from("/opt/yt-dlp")),
        _ => panic!("the registration is lost"),
    }
}

#[test]
fn a_port_is_read_from_a_command_line() {
    assert_eq!(extract_port_from_command_line("autoap web-server --port 8081"), Some(8081));
    assert_eq!(extract_port_from_command_line("autoap web-server -p 9000 --port 1"), Some(9000));
    assert_eq!(extract_port_from_command_line("autoap web-server --port=8082"), Some(8082));
    assert_eq!(extract_port_from_command_line("autoap --port x --port=77"), Some(77));
    assert_eq!(extract_port_from_command_line("autoap --port 70000 -p 5"), Some(5));
    assert_eq!(extract_port_from_command_line("autoap --port"), None);
    assert_eq!(extract_port_from_command_line("autoap --port="), None);
    assert_eq!(extract_port_from_command_line("autoap start wlan0"), None);
    assert_eq!(extract_port_from_command_line(""), None);
}

#[test]
fn the_port_of_the_page_is_looked_for_in_the_process_list() {
    let list = "root 1 /sbin/init --port 1\nroot 7 autoap web-server --port 8081\nroot 8 autoap status -p 3\nroot 9 /usr/local/bin/autoap start wlan0 --port=8090\nroot 10 autoap web\n";
    assert_eq!(detect_autoap_web_server_port(list), vec![8081, 8090]);
    assert_eq!(detect_autoap_web_server_port(""), Vec::<u16>::new());
    assert_eq!(test_port_connectivity(true, &vec![(8081, true)]), 8080);
    assert_eq!(test_port_connectivity(false, &vec![(8081, false), (8090, true)]), 8090);
    assert_eq!(test_port_connectivity(false, &vec![(8081, false)]), 8080);
    assert_eq!(test_port_connectivity(false, &vec![]), 8080);
}

#[test]
fn the_daemon_runs_when_a_sentinel_or_its_unit_is_there() {
    assert!(autoap_status(true, false, false));
    assert!(autoap_status(false, true, false));
    assert!(autoap_status(false, false, true));
    assert!(!autoap_status(false, false, false));
}

#[test]
fn the_page_answers_in_words() {
    let _ = WebServer::new();
    assert_eq!(WebServer::default_port(), 8080);
    let config = WifiConfig { ssid: "home".to_string(), password: "pw".to_string() };
    assert_eq!(
        WebServer::api_configure_wifi(&config, None),
        ApiResponse { success: true, message: "WiFi network 'home' configured successfully".to_string() }
    );
    assert_eq!(
        WebServer::api_configure_wifi(&config, Some("disk full")),
        ApiResponse { success: false, message: "Failed to configure WiFi: disk full".to_string() }
    );
    assert_eq!(
        WebServer::api_status(),
        ApiResponse { success: true, message: "WiFi configuration server is running".to_string() }
    );
    assert_eq!(WebServer::serve_config_page(Some("<p>x</p>".to_string())), "<p>x</p>");
    let fallback = WebServer::serve_config_page(None);
    assert!(fallback.starts_with("<!DOCTYPE html>\n<html><head><title>WiFi Config</title></head>"));
    assert!(fallback.contains("<form action=\"/configure\" method=\"POST\">"));
}

#[test]
fn the_files_and_commands_of_an_interface() {
    assert_eq!(Probe::ActiveDescriptor.path("wlan0"), "/etc/systemd/network/11-wlan0.network");
    assert_eq!(Probe::BackupDescriptor.path("wlan0"), "/etc/systemd/network/11-wlan0.network~");
    assert_eq!(Probe::Sentinel(Sentinel::Locked).path("wlan0"), "/var/run/autoAP.locked");
    assert_eq!(Probe::Sentinel(Sentinel::Unlock).path("wlan0"), "/var/run/autoAP.unlock");
    assert_eq!(Probe::ControlSocket.path("wlan1"), "/var/run/wpa_supplicant/wlan1");
    assert_eq!(
        Request::Status.command("wlan0", "/usr/local/bin/autoap"),
        Some(vec!["/sbin/wpa_cli".to_string(), "-i".to_string(), "wlan0".to_string(), "status".to_string()])
    );
    assert_eq!(
        Request::Monitor.command("wlan0", "/usr/local/bin/autoap").unwrap(),
        vec!["/sbin/wpa_cli", "-i", "wlan0", "-a", "/usr/local/bin/autoap"]
    );
    assert_eq!(
        Request::ServiceRestart.command("wlan0", "x").unwrap(),
        vec!["systemctl", "restart", "systemd-networkd"]
    );
    assert_eq!(Request::Stations.command("wlan0", "x").unwrap(), vec!["wpa_cli", "-i", "wlan0", "all_sta"]);
    assert_eq!(Request::Addresses.command("wlan0", "x").unwrap(), vec!["ip", "addr", "show", "wlan0"]);
    assert_eq!(Request::Pause(5).command("wlan0", "x"), None);
    assert_eq!(Request::MoveToBackup.command("wlan0", "x"), None);
}

use remit::platform::{show_custom_titlebar_in_os, uses_native_decorations, Platform};
use remit::reception::{
    documents_to_move, listen_address, server_ip, server_ip_or_loopback, WatchedPath, GREETING,
    PASSIVE_PORT_FIRST, PASSIVE_PORT_LAST, RECEPTION_FOLDER,
};

#[test]
fn server_constants() {
    assert_eq!(RECEPTION_FOLDER, "Remit");
    assert_eq!(GREETING, "Welcome to my FTP server");
    assert_eq!(PASSIVE_PORT_FIRST, 50000);
    assert_eq!(PASSIVE_PORT_LAST, 50010);
}

#[test]
fn server_address_falls_back_to_loopback() {
    assert_eq!(server_ip_or_loopback(Some("192.168.1.4".to_string())), "192.168.1.4");
    assert_eq!(server_ip_or_loopback(None), "127.0.0.1");
    assert!(!server_ip().is_empty());
}

#[test]
fn server_address_is_ip_text() {
    let ip = server_ip();
    assert!(!ip.is_empty());
    assert!(ip.chars().all(|c| c.is_ascii_digit() || ('a'..='f').contains(&c) || c == '.' || c == ':'));
}

#[test]
fn server_listens_on_every_interface() {
    assert_eq!(listen_address(), "0.0.0.0:2001");
}

fn watched(path: &str, is_file: bool, name: Option<&str>) -> WatchedPath {
    WatchedPath { path: path.to_string(), is_file, file_name: name.map(|n| n.to_string()) }
}

#[test]
fn written_files_with_names_are_moved_in_order() {
    let paths = vec![
        watched("/data/Remit/a.txt", true, Some("a.txt")),
        watched("/data/Remit/sub", false, Some("sub")),
        watched("/data/Remit/\u{FFFD}", true, None),
        watched("/data/Remit/b.png", true, Some("b.png")),
    ];
    let moves = documents_to_move(true, &paths);
    assert_eq!(moves.len(), 2);
    assert_eq!(moves[0].source_path, "/data/Remit/a.txt");
    assert_eq!(moves[0].file_name, "a.txt");
    assert_eq!(moves[1].source_path, "/data/Remit/b.png");
    assert_eq!(moves[1].file_name, "b.png");
}

#[test]
fn only_finished_writes_move_files() {
    let paths = vec![watched("/data/Remit/a.txt", true, Some("a.txt"))];
    assert!(documents_to_move(false, &paths).is_empty());
    assert!(documents_to_move(true, &Vec::new()).is_empty());
}

#[test]
fn title_bar_for_each_platform() {
    assert!(!show_custom_titlebar_in_os(Platform::MacOs));
    assert!(!show_custom_titlebar_in_os(Platform::Linux));
    assert!(show_custom_titlebar_in_os(Platform::Windows));
    assert!(show_custom_titlebar_in_os(Platform::Android));
    assert!(show_custom_titlebar_in_os(Platform::Ios));
    assert!(show_custom_titlebar_in_os(Platform::Other));
}

#[test]
fn native_decorations_exactly_where_no_custom_title_bar() {
    let both = |p: fn() -> Platform| (show_custom_titlebar_in_os(p()), uses_native_decorations(p()));
    assert_eq!(both(|| Platform::Windows), (true, false));
    assert_eq!(both(|| Platform::MacOs), (false, true));
    assert_eq!(both(|| Platform::Linux), (false, true));
    assert_eq!(both(|| Platform::Android), (true, false));
    assert_eq!(both(|| Platform::Ios), (true, false));
    assert_eq!(both(|| Platform::Other), (true, false));
}

use server_monitor::server::ServerInfo;

#[test]
fn server_info_holds_address_and_name() {
    let server = ServerInfo::new("https://example.org/health", "front");
    assert_eq!(server.target_url, "https://example.org/health");
    assert_eq!(server.server_name, "front");
    assert_eq!(
        server,
        ServerInfo {
            target_url: "https://example.org/health".to_string(),
            server_name: "front".to_string()
        }
    );
}

use worterbuch_client::endpoint::endpoint_url;

#[test]
fn endpoint_is_scheme_host_port_and_path() {
    assert_eq!(endpoint_url("ws", "localhost", 8080), "ws://localhost:8080/ws");
    assert_eq!(endpoint_url("wss", "example.org", 443), "wss://example.org:443/ws");
}

#[test]
fn port_is_written_in_decimal() {
    assert_eq!(endpoint_url("ws", "h", 0), "ws://h:0/ws");
    assert_eq!(endpoint_url("ws", "h", 9), "ws://h:9/ws");
    assert_eq!(endpoint_url("ws", "h", 10), "ws://h:10/ws");
    assert_eq!(endpoint_url("ws", "h", 100), "ws://h:100/ws");
    assert_eq!(endpoint_url("ws", "h", 1005), "ws://h:1005/ws");
    assert_eq!(endpoint_url("ws", "h", 65535), "ws://h:65535/ws");
}

#[test]
fn endpoint_agrees_with_plain_formatting() {
    for port in [0u16, 1, 7, 42, 80, 999, 1000, 8081, 40000, 65534] {
        let scheme = "ws";
        let host = "127.0.0.1";
        assert_eq!(endpoint_url(scheme, host, port), format!("{scheme}://{host}:{port}/ws"));
    }
}

#[test]
fn empty_parts_are_kept_empty() {
    assert_eq!(endpoint_url("", "", 1), "://:1/ws");
}

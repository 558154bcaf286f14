use z2prod::startup::{server_address, ApplicationBaseUrl};

#[test]
fn server_address_joins_host_and_port() {
    assert_eq!(server_address("127.0.0.1", 8000), "127.0.0.1:8000");
}

#[test]
fn server_address_with_port_zero() {
    assert_eq!(server_address("localhost", 0), "localhost:0");
}

#[test]
fn server_address_with_largest_port() {
    assert_eq!(server_address("h", 65535), "h:65535");
}

#[test]
fn server_address_with_round_port() {
    assert_eq!(server_address("h", 10), "h:10");
}

#[test]
fn application_base_url_holds_the_url() {
    let u = ApplicationBaseUrl("http://127.0.0.1".to_string());
    assert_eq!(u.0, "http://127.0.0.1");
}

use p5136::auth_client::LauncherAuthError;
use p5136::auth_protocol::AuthStatus;
use p5136::i18n::GuiLanguage;
use p5136::lan::{select_lan_candidates, InterfaceAddress, LanCandidate};
use p5136::local_files::{log_file_name, xun_attach_configuration};
use p5136::server_inputs::{
    validate_advertised_address, validate_configured_port, validate_max_login_sessions,
};

fn interface(name: &str, ipv4: Option<[u8; 4]>) -> InterfaceAddress {
    InterfaceAddress { name: name.to_owned(), ipv4 }
}

fn candidate(name: &str, address: [u8; 4]) -> LanCandidate {
    LanCandidate { name: name.to_owned(), address }
}

#[test]
fn lan_candidates_are_filtered_ordered_and_deduplicated() {
    let interfaces = vec![
        interface("vEthernet (WSL)", Some([172, 20, 0, 1])),
        interface("loopback", Some([127, 0, 0, 1])),
        interface("Tailscale", Some([100, 100, 1, 2])),
        interface("Ethernet", Some([10, 0, 0, 5])),
        interface("Ethernet", None),
        interface("link", Some([169, 254, 3, 4])),
        interface("Wi-Fi", Some([192, 168, 1, 20])),
        interface("Ethernet 2", Some([192, 168, 1, 3])),
        interface("multicast", Some([224, 0, 0, 1])),
        interface("none", Some([0, 0, 0, 0])),
        interface("Wi-Fi again", Some([192, 168, 1, 20])),
    ];
    let candidates = select_lan_candidates(&interfaces, GuiLanguage::English).unwrap();
    assert_eq!(
        candidates,
        vec![
            candidate("Ethernet 2", [192, 168, 1, 3]),
            candidate("Wi-Fi", [192, 168, 1, 20]),
            candidate("Ethernet", [10, 0, 0, 5]),
            candidate("vEthernet (WSL)", [172, 20, 0, 1]),
            candidate("Tailscale", [100, 100, 1, 2]),
        ]
    );
}

#[test]
fn no_usable_lan_address_is_an_error() {
    let interfaces = vec![interface("lo", Some([127, 0, 0, 1])), interface("v6", None)];
    assert_eq!(
        select_lan_candidates(&interfaces, GuiLanguage::English).unwrap_err(),
        "No usable LAN IPv4 address was found"
    );
    assert!(select_lan_candidates(&Vec::new(), GuiLanguage::Korean).is_err());
}

#[test]
fn advertised_addresses_must_be_reachable_ipv4() {
    assert_eq!(validate_advertised_address(" 192.0.2.20 ", GuiLanguage::English).unwrap(), [192, 0, 2, 20]);
    assert_eq!(
        validate_advertised_address("server.lan", GuiLanguage::English).unwrap_err(),
        "The advertised client address must be IPv4"
    );
    for refused in ["0.0.0.0", "224.0.0.1", "239.255.255.255", "255.255.255.255"] {
        assert_eq!(
            validate_advertised_address(refused, GuiLanguage::English).unwrap_err(),
            "The advertised IPv4 cannot be 0.0.0.0, multicast, or broadcast"
        );
    }
    assert!(validate_advertised_address("240.0.0.1", GuiLanguage::English).is_ok());
}

#[test]
fn server_inputs_reject_a_zero_login_session_limit_before_starting() {
    assert!(validate_max_login_sessions("0", GuiLanguage::Korean).unwrap_err().contains("최대 로그인 세션 수"));
}

#[test]
fn login_session_limits_are_positive_integers() {
    assert_eq!(validate_max_login_sessions("64", GuiLanguage::English).unwrap(), 64);
    assert_eq!(
        validate_max_login_sessions("x", GuiLanguage::English).unwrap_err(),
        "Maximum login sessions must be a non-negative integer"
    );
}

#[test]
fn log_file_names_are_distinct_per_retry() {
    assert_eq!(log_file_name(123, 456, 0), "p5136-123-456.log");
    assert_eq!(log_file_name(123, 456, 1), "p5136-123-456-1.log");
    assert_eq!(log_file_name(u128::MAX, 7, 99), format!("p5136-{}-7-99.log", u128::MAX));
}

#[test]
fn xun_attach_configuration_controls_only_logging_and_keeps_hooks_enabled() {
    let contents = xun_attach_configuration(false);
    assert!(contents.contains("enabled=1"));
    assert!(contents.contains("logging=0"));
    assert_eq!(
        xun_attach_configuration(true),
        "[xun]\r\n; Hooks stay fail-closed until the server selects a kart profile.\r\nenabled=1\r\nlogging=1\r\n"
    );
}

#[test]
fn launcher_auth_errors_read_as_the_original_texts() {
    assert_eq!(LauncherAuthError::Timeout.display_text(), "launcher authentication timed out");
    assert_eq!(
        LauncherAuthError::Protocol("x".to_owned()).display_text(),
        "launcher authentication protocol error: x"
    );
    assert_eq!(
        LauncherAuthError::Rejected(AuthStatus::WrongPassword, "wrong password".to_owned()).display_text(),
        "launcher authentication rejected (WrongPassword): wrong password"
    );
    let io = LauncherAuthError::Io(std::io::Error::new(std::io::ErrorKind::Other, "reset"));
    assert_eq!(io.display_text(), "launcher authentication I/O failure: reset");
}

#[test]
fn the_base_port_is_a_sixteen_bit_integer() {
    assert_eq!(validate_configured_port(" 39311 ", GuiLanguage::English), Ok(39311));
    assert_eq!(validate_configured_port("0", GuiLanguage::English), Ok(0));
    assert_eq!(validate_configured_port("65535", GuiLanguage::English), Ok(65535));
    for refused in ["65536", "-1", "port", ""] {
        assert_eq!(
            validate_configured_port(refused, GuiLanguage::English).unwrap_err(),
            "The base port must be in the range 0–65535"
        );
    }
}

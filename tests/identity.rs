use dhcp_client::config::{ClientConfig, EngineOptions, Transport, MAX_LOG_LEVEL};
use dhcp_client::identity::{
    interface_argument, interface_identity, parse_mac, strip_newline, IdentityError,
};
use dhcp_client::startup::{after_stage, first_stage, StartupOutcome, StartupStage};

#[test]
fn missing_interface_argument_is_none() {
    let args = vec!["dhcp-client".to_string()];
    assert_eq!(interface_argument(&args), None);
    let none: Vec<String> = Vec::new();
    assert_eq!(interface_argument(&none), None);
}

#[test]
fn interface_argument_is_first_after_program() {
    let args = vec!["dhcp-client".to_string(), "eth0".to_string(), "extra".to_string()];
    assert_eq!(interface_argument(&args), Some("eth0".to_string()));
}

#[test]
fn strips_only_one_trailing_newline() {
    assert_eq!(strip_newline("3\n"), "3");
    assert_eq!(strip_newline("3"), "3");
    assert_eq!(strip_newline("3\n\n"), "3\n");
    assert_eq!(strip_newline(""), "");
}

#[test]
fn parses_mac_text() {
    assert_eq!(parse_mac("aa:bb:cc:dd:ee:ff"), Some([0xaa, 0xbb, 0xcc, 0xdd, 0xee, 0xff]));
    assert_eq!(parse_mac("00:1A:2b:3C:4d:5E"), Some([0x00, 0x1a, 0x2b, 0x3c, 0x4d, 0x5e]));
}

#[test]
fn rejects_malformed_mac_text() {
    assert_eq!(parse_mac(""), None);
    assert_eq!(parse_mac("aa:bb:cc:dd:ee"), None);
    assert_eq!(parse_mac("aa:bb:cc:dd:ee:fg"), None);
    assert_eq!(parse_mac("aa-bb-cc-dd-ee-ff"), None);
    assert_eq!(parse_mac("aa:bb:cc:dd:ee:ff:"), None);
    assert_eq!(parse_mac("aa:bb:cc:dd:ee:ff\n"), None);
}

#[test]
fn identity_from_host_attributes() {
    let id = interface_identity("aa:bb:cc:dd:ee:ff\n", "3\n").unwrap();
    assert_eq!(id.mac, [0xaa, 0xbb, 0xcc, 0xdd, 0xee, 0xff]);
    assert_eq!(id.ifindex, 3);
}

#[test]
fn identity_index_follows_decimal_parse() {
    assert_eq!(interface_identity("aa:bb:cc:dd:ee:ff", "+7").unwrap().ifindex, 7);
    assert_eq!(interface_identity("aa:bb:cc:dd:ee:ff", "-12").unwrap().ifindex, -12);
    assert_eq!(interface_identity("aa:bb:cc:dd:ee:ff", "2147483647").unwrap().ifindex, i32::MAX);
}

#[test]
fn identity_errors() {
    assert_eq!(
        interface_identity("not a mac\n", "3\n").unwrap_err(),
        IdentityError::BadAddress
    );
    assert_eq!(
        interface_identity("aa:bb:cc:dd:ee:ff\n", "three\n").unwrap_err(),
        IdentityError::BadIndex
    );
    assert_eq!(
        interface_identity("aa:bb:cc:dd:ee:ff", "2147483648").unwrap_err(),
        IdentityError::BadIndex
    );
    assert_eq!(interface_identity("aa:bb:cc:dd:ee:ff", "-").unwrap_err(), IdentityError::BadIndex);
    assert_eq!(interface_identity("aa:bb:cc:dd:ee:ff", "").unwrap_err(), IdentityError::BadIndex);
}

#[test]
fn config_for_eth0_scenario() {
    let id = interface_identity("aa:bb:cc:dd:ee:ff\n", "3\n").unwrap();
    let config = ClientConfig::new(id.ifindex, id.mac);
    assert_eq!(config.ifindex, 3);
    assert_eq!(config.transport, Transport::Ethernet);
    assert_eq!(config.mac, [0xaa, 0xbb, 0xcc, 0xdd, 0xee, 0xff]);
    assert_eq!(config.broadcast_mac, [0xff; 6]);
    assert_eq!(config.client_id, vec![0x01, 0xaa, 0xbb, 0xcc, 0xdd, 0xee, 0xff]);

    let options = EngineOptions::standard();
    assert_eq!(options.log_level, MAX_LOG_LEVEL);
    let probe = options.probe_config();
    assert_eq!(probe.start_delay, 1);

    let mut stage = first_stage();
    let mut stages = 0;
    loop {
        let step = after_stage(stage, true);
        stages += 1;
        match step.outcome {
            StartupOutcome::Continue(next) => stage = next,
            StartupOutcome::Ready => break,
            StartupOutcome::Failed(e) => panic!("startup failed: {:?}", e),
        }
    }
    assert_eq!(stage, StartupStage::StartProbe);
    assert_eq!(stages, 4);
}

use mintlayer_zk::config::{EventRelayConfigFile, RunOptions, SocketAddress};

const RPC_PORT: u16 = 3030;

fn v4(a: u8, port: u16) -> SocketAddress {
    SocketAddress::V4 { ip: [127, 0, 0, a], port }
}

#[test]
fn default_bind_address_is_all_interfaces_next_port() {
    assert_eq!(
        EventRelayConfigFile::default_bind_address(RPC_PORT),
        SocketAddress::V4 { ip: [0, 0, 0, 0], port: 3031 }
    );
}

#[test]
fn empty_file_and_options_give_defaults() {
    let file = EventRelayConfigFile::default();
    assert_eq!(file.event_relay_enabled, None);
    assert_eq!(file.bind_address, None);
    let options = RunOptions { event_relay_enabled: None, event_relay_bind_address: None };
    let merged = EventRelayConfigFile::with_run_options(RPC_PORT, file, &options);
    assert_eq!(merged.event_relay_enabled, Some(false));
    assert_eq!(merged.bind_address, Some(SocketAddress::V4 { ip: [0, 0, 0, 0], port: 3031 }));
}

#[test]
fn file_settings_stand_without_options() {
    let file = EventRelayConfigFile { event_relay_enabled: Some(true), bind_address: Some(v4(1, 9000)) };
    let options = RunOptions { event_relay_enabled: None, event_relay_bind_address: None };
    let merged = EventRelayConfigFile::with_run_options(RPC_PORT, file, &options);
    assert_eq!(merged.event_relay_enabled, Some(true));
    assert_eq!(merged.bind_address, Some(v4(1, 9000)));
}

#[test]
fn options_override_file() {
    let file = EventRelayConfigFile { event_relay_enabled: Some(true), bind_address: Some(v4(1, 9000)) };
    let six = SocketAddress::V6 { ip: [0; 16], port: 8080, flowinfo: 0, scope_id: 0 };
    let options = RunOptions { event_relay_enabled: Some(false), event_relay_bind_address: Some(six) };
    let merged = EventRelayConfigFile::with_run_options(RPC_PORT, file, &options);
    assert_eq!(merged.event_relay_enabled, Some(false));
    assert_eq!(merged.bind_address, Some(six));
}

#[test]
fn merging_twice_changes_nothing() {
    let file = EventRelayConfigFile { event_relay_enabled: None, bind_address: None };
    let options = RunOptions { event_relay_enabled: Some(true), event_relay_bind_address: None };
    let once = EventRelayConfigFile::with_run_options(RPC_PORT, file, &options);
    let twice = EventRelayConfigFile::with_run_options(RPC_PORT, once, &options);
    assert_eq!(once.event_relay_enabled, twice.event_relay_enabled);
    assert_eq!(once.bind_address, twice.bind_address);
    assert_eq!(once.event_relay_enabled, Some(true));
}

#[test]
fn last_rpc_port_is_fine_when_an_address_is_given() {
    let file = EventRelayConfigFile { event_relay_enabled: None, bind_address: Some(v4(2, 1)) };
    let options = RunOptions { event_relay_enabled: None, event_relay_bind_address: None };
    let merged = EventRelayConfigFile::with_run_options(u16::MAX, file, &options);
    assert_eq!(merged.bind_address, Some(v4(2, 1)));
}

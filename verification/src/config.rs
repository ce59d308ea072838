//! Configuration of the WebSocket event relay: the section of the node's configuration
//! file, and its merge with the options the node was started with.

use vstd::prelude::*;

verus! {

/// A socket address, as the configuration holds it.
#[derive(Debug, Clone, Copy, PartialEq, Eq)]
pub enum SocketAddress {
    /// An IPv4 address and a port.
    V4 { ip: [u8; 4], port: u16 },
    /// An IPv6 address, a port, and the IPv6 flow information and scope id.
    V6 { ip: [u8; 16], port: u16, flowinfo: u32, scope_id: u32 },
}

/// The options the node was started with, as far as the event relay reads them.
#[derive(Debug, Clone, Copy)]
pub struct RunOptions {
    /// Whether the WebSocket event relay is enabled.
    pub event_relay_enabled: Option<bool>,
    /// Address to bind the WebSocket server to.
    pub event_relay_bind_address: Option<SocketAddress>,
}

/// Configuration for the WebSocket event relay subsystem.
#[derive(Debug, Clone, Copy)]
pub struct EventRelayConfigFile {
    /// Whether the WebSocket event relay is enabled.
    pub event_relay_enabled: Option<bool>,
    /// Address to bind the WebSocket server to.
    pub bind_address: Option<SocketAddress>,
}

impl Default for EventRelayConfigFile {
    /// Nothing set.
    fn default() -> (r: Self)
        ensures
            r.event_relay_enabled is None,
            r.bind_address is None,
    {
        EventRelayConfigFile { event_relay_enabled: None, bind_address: None }
    }
}

/// The default bind address: all IPv4 interfaces, on the port after the RPC port.
pub open spec fn default_bind_address_of(default_rpc_port: u16) -> SocketAddress {
    SocketAddress::V4 { ip: [0u8, 0u8, 0u8, 0u8], port: (default_rpc_port + 1) as u16 }
}

/// Whether the relay is enabled: the run option if given, else the file's setting, else
/// disabled.
pub open spec fn merged_enabled(file: EventRelayConfigFile, options: RunOptions) -> bool {
    match options.event_relay_enabled {
        Some(b) => b,
        None => match file.event_relay_enabled {
            Some(b) => b,
            None => false,
        },
    }
}

/// The bind address: the run option if given, else the file's setting, else the default.
pub open spec fn merged_bind_address(
    default_rpc_port: u16,
    file: EventRelayConfigFile,
    options: RunOptions,
) -> SocketAddress {
    match options.event_relay_bind_address {
        Some(a) => a,
        None => match file.bind_address {
            Some(a) => a,
            None => default_bind_address_of(default_rpc_port),
        },
    }
}

/// The default port would not fit: the RPC port is the last one, and no address is given.
pub open spec fn needs_default_port_overflow(
    default_rpc_port: u16,
    file: EventRelayConfigFile,
    options: RunOptions,
) -> bool {
    &&& options.event_relay_bind_address is None
    &&& file.bind_address is None
    &&& default_rpc_port == u16::MAX
}

/// The configuration after merging the file with the run options.
pub open spec fn merged_config(
    default_rpc_port: u16,
    file: EventRelayConfigFile,
    options: RunOptions,
) -> EventRelayConfigFile {
    EventRelayConfigFile {
        event_relay_enabled: Some(merged_enabled(file, options)),
        bind_address: Some(merged_bind_address(default_rpc_port, file, options)),
    }
}

impl EventRelayConfigFile {
    /// The address the relay binds to when none is configured: `0.0.0.0` on the port after
    /// the chain's default RPC port.
    pub fn default_bind_address(default_rpc_port: u16) -> (r: SocketAddress)
        requires
            default_rpc_port < u16::MAX,
        ensures
            r == default_bind_address_of(default_rpc_port),
    {
        SocketAddress::V4 { ip: [0u8, 0u8, 0u8, 0u8], port: default_rpc_port + 1 }
    }

    /// The configuration file's settings, overridden by the run options where those are
    /// given, with every setting filled in.
    pub fn with_run_options(
        default_rpc_port: u16,
        config_file: EventRelayConfigFile,
        options: &RunOptions,
    ) -> (r: EventRelayConfigFile)
        requires
            !needs_default_port_overflow(default_rpc_port, config_file, *options),
        ensures
            r == merged_config(default_rpc_port, config_file, *options),
            options.event_relay_bind_address is None && config_file.bind_address is None ==> (
            r.bind_address matches Some(SocketAddress::V4 { ip, port }) && ip@ == seq![
                0u8,
                0u8,
                0u8,
                0u8,
            ] && port == default_rpc_port + 1),
    {
        let EventRelayConfigFile { event_relay_enabled, bind_address } = config_file;

        let event_relay_enabled = match options.event_relay_enabled {
            Some(b) => b,
            None => match event_relay_enabled {
                Some(b) => b,
                None => false,
            },
        };

        let bind_address = match options.event_relay_bind_address {
            Some(a) => a,
            None => match bind_address {
                Some(a) => a,
                None => Self::default_bind_address(default_rpc_port),
            },
        };

        EventRelayConfigFile {
            event_relay_enabled: Some(event_relay_enabled),
            bind_address: Some(bind_address),
        }
    }
}

/// The default bind address listens on every IPv4 interface (`0.0.0.0`) on the port right
/// after the chain's default RPC port, whatever that port is.
pub proof fn lemma_default_bind_address_port(default_rpc_port: u16)
    requires
        default_rpc_port < u16::MAX,
    ensures
        default_bind_address_of(default_rpc_port) matches SocketAddress::V4 { ip, port } && ip@
            == seq![0u8, 0u8, 0u8, 0u8] && port as int == default_rpc_port as int + 1,
{
    let a = default_bind_address_of(default_rpc_port);
    if let SocketAddress::V4 { ip, port } = a {
        assert(ip@ =~= seq![0u8, 0u8, 0u8, 0u8]);
    }
}

/// With no address from the options or the file, the merged bind address is `0.0.0.0` on
/// the port after the RPC port.
pub proof fn lemma_merge_default_address(
    default_rpc_port: u16,
    file: EventRelayConfigFile,
    options: RunOptions,
)
    requires
        default_rpc_port < u16::MAX,
        options.event_relay_bind_address is None,
        file.bind_address is None,
    ensures
        merged_config(default_rpc_port, file, options).bind_address matches Some(
            SocketAddress::V4 { ip, port },
        ) && ip@ == seq![0u8, 0u8, 0u8, 0u8] && port as int == default_rpc_port as int + 1,
{
    lemma_default_bind_address_port(default_rpc_port);
}

/// Merging fills in every setting, and merging the result again with the same options
/// changes nothing.
pub proof fn lemma_merge_idempotent(
    default_rpc_port: u16,
    file: EventRelayConfigFile,
    options: RunOptions,
)
    ensures
        merged_config(default_rpc_port, file, options).event_relay_enabled is Some,
        merged_config(default_rpc_port, file, options).bind_address is Some,
        !needs_default_port_overflow(
            default_rpc_port,
            merged_config(default_rpc_port, file, options),
            options,
        ),
        merged_config(default_rpc_port, merged_config(default_rpc_port, file, options), options)
            == merged_config(default_rpc_port, file, options),
{
}

/// A run option that is given wins over the file, and a file setting stands where the run
/// option is absent.
pub proof fn lemma_merge_precedence(
    default_rpc_port: u16,
    file: EventRelayConfigFile,
    options: RunOptions,
)
    ensures
        options.event_relay_enabled is Some ==> merged_enabled(file, options)
            == options.event_relay_enabled.unwrap(),
        options.event_relay_bind_address is Some ==> merged_bind_address(
            default_rpc_port,
            file,
            options,
        ) == options.event_relay_bind_address.unwrap(),
        options.event_relay_enabled is None && file.event_relay_enabled is Some ==> merged_enabled(
            file,
            options,
        ) == file.event_relay_enabled.unwrap(),
        options.event_relay_bind_address is None && file.bind_address is Some
            ==> merged_bind_address(default_rpc_port, file, options) == file.bind_address.unwrap(),
        options.event_relay_enabled is None && file.event_relay_enabled is None ==> !merged_enabled(
            file,
            options,
        ),
{
}

} // verus!

use vstd::prelude::*;

verus! {

/// The kinds of probe that the application records.
///
/// Their identifiers (`port_scan`, `host_scan`, `ping`, `traceroute`) are the
/// ones that `rushmap_core::option::CommandType::id` gives and that the
/// `probe_type` table holds; re-check them against `rushmap_core` when it
/// changes.
#[derive(PartialEq, Eq, Structural, Clone, Copy, Debug)]
pub enum CommandType {
    PortScan,
    HostScan,
    Ping,
    Traceroute,
}

impl CommandType {
    pub open spec fn spec_id(self) -> Seq<char> {
        match self {
            CommandType::PortScan => "port_scan"@,
            CommandType::HostScan => "host_scan"@,
            CommandType::Ping => "ping"@,
            CommandType::Traceroute => "traceroute"@,
        }
    }

    /// The identifier stored in the `probe_type_id` column.
    pub fn id(&self) -> (s: String)
        ensures
            s@ == self.spec_id(),
    {
        match self {
            CommandType::PortScan => String::from_str("port_scan"),
            CommandType::HostScan => String::from_str("host_scan"),
            CommandType::Ping => String::from_str("ping"),
            CommandType::Traceroute => String::from_str("traceroute"),
        }
    }
}

/// The transport or network protocol a probe used.
///
/// Their identifiers (`tcp`, `udp`, `icmpv4`, `icmpv6`) are the ones that
/// `rushmap_core::option::IpNextLevelProtocol::id` gives; re-check them
/// against `rushmap_core` when it changes.
#[derive(PartialEq, Eq, Structural, Clone, Copy, Debug)]
pub enum IpNextLevelProtocol {
    TCP,
    UDP,
    ICMPv4,
    ICMPv6,
}

impl IpNextLevelProtocol {
    pub open spec fn spec_id(self) -> Seq<char> {
        match self {
            IpNextLevelProtocol::TCP => "tcp"@,
            IpNextLevelProtocol::UDP => "udp"@,
            IpNextLevelProtocol::ICMPv4 => "icmpv4"@,
            IpNextLevelProtocol::ICMPv6 => "icmpv6"@,
        }
    }

    /// The identifier stored in the `protocol_id` column.
    pub fn id(&self) -> (s: String)
        ensures
            s@ == self.spec_id(),
    {
        match self {
            IpNextLevelProtocol::TCP => String::from_str("tcp"),
            IpNextLevelProtocol::UDP => String::from_str("udp"),
            IpNextLevelProtocol::ICMPv4 => String::from_str("icmpv4"),
            IpNextLevelProtocol::ICMPv6 => String::from_str("icmpv6"),
        }
    }

    /// Whether the protocol has no notion of ports (ICMP).
    pub open spec fn spec_is_portless(self) -> bool {
        self is ICMPv4 || self is ICMPv6
    }

    pub fn is_portless(&self) -> (b: bool)
        ensures
            b == self.spec_is_portless(),
    {
        match self {
            IpNextLevelProtocol::ICMPv4 | IpNextLevelProtocol::ICMPv6 => true,
            _ => false,
        }
    }
}

/// A port found on a scanned host.
#[derive(Clone, Debug, PartialEq, Eq)]
pub struct ServiceInfo {
    pub port_number: u16,
    /// The name of the port's status (open, closed, ...).
    pub port_status: String,
    pub service_name: String,
    pub service_version: String,
}

/// A scanned host; `ip_addr` is the textual form of its address.
#[derive(Clone, Debug, PartialEq, Eq)]
pub struct NodeInfo {
    pub ip_addr: String,
    pub host_name: String,
    pub mac_addr: String,
    pub vendor_info: String,
    pub os_name: String,
    pub cpe: String,
    pub services: Vec<ServiceInfo>,
}

#[derive(Clone, Debug, PartialEq, Eq)]
pub struct PortScanResult {
    pub nodes: Vec<NodeInfo>,
}

#[derive(Clone, Debug, PartialEq, Eq)]
pub struct HostScanResult {
    pub nodes: Vec<NodeInfo>,
    pub protocol: IpNextLevelProtocol,
}

/// One reply of a ping or one hop of a traceroute.
#[derive(Clone, Debug, PartialEq, Eq)]
pub struct PingResponse {
    pub seq: u32,
    pub ip_addr: String,
    pub host_name: String,
    pub port_number: Option<u16>,
    /// The name of the reply's status.
    pub status: String,
    pub ttl: u8,
    pub hop: u8,
    pub rtt: u64,
    pub protocol: String,
    /// The name of the node's type (gateway, relay, destination).
    pub node_type: String,
}

impl PingResponse {
    /// An empty reply: the unspecified address `0.0.0.0`, empty names, zeros.
    /// This is the reply that `rushmap_core::result::PingResponse::new` gives
    /// (an unspecified IPv4 address); re-check it against `rushmap_core` when
    /// it changes.
    pub fn new() -> (r: PingResponse)
        ensures
            r.seq == 0 && r.port_number is None && r.ttl == 0 && r.hop == 0 && r.rtt == 0,
            r.ip_addr@ == "0.0.0.0"@,
            r.host_name@ == Seq::<char>::empty(),
            r.status@ == Seq::<char>::empty(),
            r.protocol@ == Seq::<char>::empty(),
            r.node_type@ == Seq::<char>::empty(),
    {
        PingResponse {
            seq: 0,
            ip_addr: String::from_str("0.0.0.0"),
            host_name: String::new(),
            port_number: None,
            status: String::new(),
            ttl: 0,
            hop: 0,
            rtt: 0,
            protocol: String::new(),
            node_type: String::new(),
        }
    }
}

#[derive(Clone, Debug, PartialEq, Eq)]
pub struct PingStat {
    pub responses: Vec<PingResponse>,
    pub transmitted_count: usize,
    pub received_count: usize,
    pub min: u64,
    pub avg: u64,
    pub max: u64,
}

#[derive(Clone, Debug, PartialEq, Eq)]
pub struct PingResult {
    pub stat: PingStat,
}

#[derive(Clone, Debug, PartialEq, Eq)]
pub struct TracerouteResult {
    pub nodes: Vec<PingResponse>,
}

/// A probed host as listed for selection: its address and its name.
#[derive(Clone, Debug, PartialEq, Eq)]
pub struct DataSetItem {
    pub id: String,
    pub name: String,
}

#[derive(Clone, Debug, PartialEq, Eq)]
pub struct MapInfo {
    pub map_id: u32,
    pub map_name: String,
    pub display_order: u32,
    pub created_at: String,
}

impl MapInfo {
    pub fn new() -> (m: MapInfo)
        ensures
            m.map_id == 0 && m.display_order == 0,
            m.map_name@ == Seq::<char>::empty(),
            m.created_at@ == Seq::<char>::empty(),
    {
        MapInfo { map_id: 0, map_name: String::new(), display_order: 0, created_at: String::new() }
    }
}

#[derive(Clone, Debug, PartialEq, Eq)]
pub struct MapNode {
    pub map_id: u32,
    pub node_id: String,
    pub node_name: String,
    pub ip_addr: String,
    pub host_name: String,
}

#[derive(Clone, Debug, PartialEq, Eq)]
pub struct MapEdge {
    pub map_id: u32,
    pub edge_id: String,
    pub source_node_id: String,
    pub target_node_id: String,
    pub edge_label: String,
}

/// The position of a node on a map; the coordinates are floating-point
/// numbers carried by their IEEE-754 bit patterns.
#[derive(Clone, Debug, PartialEq, Eq)]
pub struct MapLayout {
    pub map_id: u32,
    pub node_id: String,
    pub x_bits: u64,
    pub y_bits: u64,
}

#[derive(Clone, Debug, PartialEq, Eq)]
pub struct MapData {
    pub map_info: MapInfo,
    pub nodes: Vec<MapNode>,
    pub edges: Vec<MapEdge>,
    pub layouts: Vec<MapLayout>,
}

impl MapData {
    pub open spec fn is_empty_map(&self) -> bool {
        &&& self.map_info.map_id == 0
        &&& self.map_info.display_order == 0
        &&& self.map_info.map_name@ == Seq::<char>::empty()
        &&& self.map_info.created_at@ == Seq::<char>::empty()
        &&& self.nodes@.len() == 0
        &&& self.edges@.len() == 0
        &&& self.layouts@.len() == 0
    }

    pub fn new() -> (d: MapData)
        ensures
            d.is_empty_map(),
    {
        MapData { map_info: MapInfo::new(), nodes: Vec::new(), edges: Vec::new(), layouts: Vec::new() }
    }
}

/// How many probes of each kind were recorded.
#[derive(Clone, Debug, PartialEq, Eq)]
pub struct ProbeStat {
    pub portscan_count: u32,
    pub hostscan_count: u32,
    pub ping_count: u32,
    pub traceroute_count: u32,
}

impl ProbeStat {
    pub fn new() -> (s: ProbeStat)
        ensures
            s.portscan_count == 0 && s.hostscan_count == 0 && s.ping_count == 0
                && s.traceroute_count == 0,
    {
        ProbeStat { portscan_count: 0, hostscan_count: 0, ping_count: 0, traceroute_count: 0 }
    }
}

/// A host that the user registered.
#[derive(Clone, Debug, PartialEq, Eq)]
pub struct UserHost {
    pub host_id: String,
    pub ip_addr: String,
    pub host_name: String,
    pub mac_addr: String,
    pub vendor_name: String,
    pub os_name: String,
    pub os_cpe: String,
    pub valid_flag: bool,
}

impl UserHost {
    /// A host record with every text empty and the host disabled.
    pub open spec fn is_blank(&self) -> bool {
        &&& self.host_id@ == Seq::<char>::empty()
        &&& self.ip_addr@ == Seq::<char>::empty()
        &&& self.host_name@ == Seq::<char>::empty()
        &&& self.mac_addr@ == Seq::<char>::empty()
        &&& self.vendor_name@ == Seq::<char>::empty()
        &&& self.os_name@ == Seq::<char>::empty()
        &&& self.os_cpe@ == Seq::<char>::empty()
        &&& !self.valid_flag
    }

    pub fn new() -> (h: UserHost)
        ensures
            h.is_blank(),
    {
        UserHost {
            host_id: String::new(),
            ip_addr: String::new(),
            host_name: String::new(),
            mac_addr: String::new(),
            vendor_name: String::new(),
            os_name: String::new(),
            os_cpe: String::new(),
            valid_flag: false,
        }
    }
}

/// A service that the user registered on a host.
#[derive(Clone, Debug, PartialEq, Eq)]
pub struct UserService {
    pub host_id: String,
    pub port: u16,
    pub protocol: String,
    pub service_name: String,
    pub service_description: String,
    pub service_cpe: String,
}

/// A host's membership of a user group.
#[derive(Clone, Debug, PartialEq, Eq)]
pub struct UserHostGroup {
    pub host_id: String,
    pub group_id: String,
}

/// A tag that the user put on a host.
#[derive(Clone, Debug, PartialEq, Eq)]
pub struct UserHostTag {
    pub host_id: String,
    pub tag_id: String,
}

/// A registered host with its services, groups and tags.
#[derive(Clone, Debug, PartialEq, Eq)]
pub struct UserProbeData {
    pub host_id: String,
    pub host: UserHost,
    pub services: Vec<UserService>,
    pub groups: Vec<String>,
    pub tags: Vec<String>,
}

impl UserProbeData {
    pub fn new() -> (d: UserProbeData)
        ensures
            d.host_id@ == Seq::<char>::empty(),
            d.host.is_blank(),
            d.services@.len() == 0,
            d.groups@.len() == 0,
            d.tags@.len() == 0,
    {
        UserProbeData {
            host_id: String::new(),
            host: UserHost::new(),
            services: Vec::new(),
            groups: Vec::new(),
            tags: Vec::new(),
        }
    }
}

} // verus!

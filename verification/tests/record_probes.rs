use rushmap_db::batch::BatchMode;
use rushmap_db::models::{
    HostScanResult, IpNextLevelProtocol, NodeInfo, PingResponse, PingResult, PingStat,
    PortScanResult, ServiceInfo, TracerouteResult,
};
use rushmap_db::record::{
    insert_host_scan_result, insert_ping_result, insert_port_scan_result, insert_trace_result,
    HOST_SCAN_HOST_SQL, PING_STAT_SQL, PORT_SCAN_HOST_SQL, PORT_SCAN_PORT_SQL,
    PORT_SCAN_PROBE_SQL, TRACE_PROBE_SQL, TRACE_RESULT_SQL,
};
use rushmap_db::sql::SqlValue;

fn s(x: &str) -> String {
    x.to_string()
}

fn text(x: &str) -> SqlValue {
    SqlValue::Text(s(x))
}

fn service(port: u16, name: &str) -> ServiceInfo {
    ServiceInfo { port_number: port, port_status: s("Open"), service_name: s(name), service_version: s("1.0") }
}

fn node(ip: &str, services: Vec<ServiceInfo>) -> NodeInfo {
    NodeInfo {
        ip_addr: s(ip),
        host_name: s("host"),
        mac_addr: s("aa:bb"),
        vendor_info: s("vendor"),
        os_name: s("linux"),
        cpe: s("cpe:/o:linux"),
        services,
    }
}

fn reply(seq: u32, ip: &str, port: Option<u16>) -> PingResponse {
    PingResponse {
        seq,
        ip_addr: s(ip),
        host_name: s("h"),
        port_number: port,
        status: s("Done"),
        ttl: 64,
        hop: 2,
        rtt: 1500,
        protocol: s("icmpv4"),
        node_type: s("Relay"),
    }
}

#[test]
fn port_scan_records_probe_host_and_ports() {
    let result = PortScanResult {
        nodes: vec![node("192.168.1.10", vec![service(22, "ssh"), service(443, "https")])],
    };
    let batch = insert_port_scan_result(&s("p1"), &result, &s("{}"));
    assert_eq!(batch.mode, BatchMode::Direct);
    let plan = batch.statements;
    assert_eq!(plan.len(), 4);
    assert_eq!(plan[0].sql, PORT_SCAN_PROBE_SQL);
    assert_eq!(
        plan[0].params,
        vec![text("p1"), text("port_scan"), text("192.168.1.10"), text("host"), text("tcp"), text("{}")]
    );
    assert_eq!(plan[1].sql, PORT_SCAN_HOST_SQL);
    assert_eq!(plan[1].params[3], SqlValue::Int(0));
    assert_eq!(plan[1].params[8], text("cpe:/o:linux"));
    assert_eq!(plan[2].sql, PORT_SCAN_PORT_SQL);
    assert_eq!(
        plan[2].params,
        vec![
            text("p1"),
            text("192.168.1.10:22"),
            text("192.168.1.10"),
            text("host"),
            SqlValue::Int(22),
            text("Open"),
            text("tcp"),
            text("ssh"),
            text("1.0"),
        ]
    );
    assert_eq!(plan[3].params[1], text("192.168.1.10:443"));
}

#[test]
fn host_scan_ports_depend_on_protocol() {
    let hosts = vec![node("10.0.0.1", vec![service(80, "http")]), node("10.0.0.2", vec![service(8080, "alt")])];
    let tcp = HostScanResult { nodes: hosts.clone(), protocol: IpNextLevelProtocol::TCP };
    let plan = insert_host_scan_result(&s("p2"), &tcp, &s("opt")).statements;
    assert_eq!(plan.len(), 3);
    assert_eq!(plan[0].params, vec![text("p2"), text("host_scan"), text(""), text(""), text("tcp"), text("opt")]);
    assert_eq!(plan[1].sql, HOST_SCAN_HOST_SQL);
    assert_eq!(plan[1].params[3], SqlValue::Int(80));
    assert_eq!(plan[2].params[3], SqlValue::Int(8080));
    let icmp = HostScanResult {
        nodes: vec![node("10.0.0.3", vec![])],
        protocol: IpNextLevelProtocol::ICMPv4,
    };
    let plan = insert_host_scan_result(&s("p3"), &icmp, &s("opt")).statements;
    assert_eq!(plan[0].params[4], text("icmpv4"));
    assert_eq!(plan[1].params[3], SqlValue::Int(0));
    assert_eq!(plan[1].params.len(), 8);
}

#[test]
fn ping_records_first_reply_and_stats() {
    let result = PingResult {
        stat: PingStat {
            responses: vec![reply(1, "1.1.1.1", Some(443)), reply(2, "1.1.1.1", None)],
            transmitted_count: 2,
            received_count: 2,
            min: 1000,
            avg: 1500,
            max: 2000,
        },
    };
    let plan = insert_ping_result(&s("p4"), &result, &s("o")).statements;
    assert_eq!(plan.len(), 4);
    assert_eq!(plan[0].params, vec![text("p4"), text("ping"), text("1.1.1.1"), text("h"), text("icmpv4"), text("o")]);
    assert_eq!(plan[1].sql, PING_STAT_SQL);
    assert_eq!(
        plan[1].params,
        vec![
            text("p4"),
            text("1.1.1.1"),
            text("h"),
            SqlValue::UInt(2),
            SqlValue::UInt(2),
            SqlValue::UInt(1000),
            SqlValue::UInt(1500),
            SqlValue::UInt(2000),
        ]
    );
    assert_eq!(plan[2].params[4], SqlValue::Int(443));
    assert_eq!(plan[3].params[4], SqlValue::Int(0));
    assert_eq!(plan[3].params[8], SqlValue::UInt(1500));
}

#[test]
fn ping_without_replies_uses_empty_target() {
    let result = PingResult {
        stat: PingStat { responses: vec![], transmitted_count: 3, received_count: 0, min: 0, avg: 0, max: 0 },
    };
    let plan = insert_ping_result(&s("p5"), &result, &s("o")).statements;
    assert_eq!(plan.len(), 2);
    assert_eq!(plan[0].params[2], text("0.0.0.0"));
    assert_eq!(plan[0].params[3], text(""));
    assert_eq!(plan[1].params[3], SqlValue::UInt(3));
}

#[test]
fn traceroute_records_last_hop_as_target() {
    let result = TracerouteResult { nodes: vec![reply(1, "10.0.0.1", None), reply(2, "8.8.8.8", None)] };
    let plan = insert_trace_result(&s("p6"), &result, &s("o")).statements;
    assert_eq!(plan.len(), 3);
    assert_eq!(plan[0].sql, TRACE_PROBE_SQL);
    assert_eq!(plan[0].params, vec![text("p6"), text("traceroute"), text("8.8.8.8"), text("h"), text("udp"), text("o")]);
    assert_eq!(plan[1].sql, TRACE_RESULT_SQL);
    assert_eq!(
        plan[1].params,
        vec![
            text("p6"),
            SqlValue::Int(1),
            text("10.0.0.1"),
            text("h"),
            SqlValue::Int(64),
            SqlValue::Int(2),
            SqlValue::UInt(1500),
            text("Relay"),
        ]
    );
    let empty = insert_trace_result(&s("p7"), &TracerouteResult { nodes: vec![] }, &s("o")).statements;
    assert_eq!(empty.len(), 1);
    assert_eq!(empty[0].params[2], text("0.0.0.0"));
}

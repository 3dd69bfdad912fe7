use vstd::prelude::*;
use crate::models::{
    CommandType, HostScanResult, IpNextLevelProtocol, NodeInfo, PingResponse, PingResult, PingStat,
    PortScanResult, ServiceInfo, TracerouteResult,
};
use crate::batch::{Batch, BatchMode};
use crate::sql::{
    decimal, decimal_string, lemma_statements_view_push, statement, statements_view, text, text_value, SqlValue,
    SqlValueView, Statement, StatementView,
};

verus! {

pub const PORT_SCAN_PROBE_SQL: &'static str = "INSERT INTO probe_result (\n        probe_id, \n        probe_type_id,\n        probe_target_addr,\n        probe_target_name,\n        protocol_id,\n        probe_option,\n        issued_at)  \n        VALUES (?1,?2,?3,?4,?5,?6, datetime(CURRENT_TIMESTAMP, 'localtime'));";
pub const PORT_SCAN_HOST_SQL: &'static str = "INSERT INTO host_scan_result (probe_id, ip_addr, host_name, port, protocol_id, mac_addr, vendor, os_name, cpe, issued_at)\n    VALUES (?1,?2,?3,?4,?5,?6,?7,?8,?9,datetime(CURRENT_TIMESTAMP, 'localtime'));";
pub const PORT_SCAN_PORT_SQL: &'static str = "INSERT INTO port_scan_result (probe_id, socket_addr, ip_addr, host_name, port, port_status_id, protocol_id, service_id, service_version, issued_at)\n        VALUES (?1,?2,?3,?4,?5,?6,?7,?8,?9,datetime(CURRENT_TIMESTAMP, 'localtime'));";
pub const HOST_SCAN_PROBE_SQL: &'static str = "INSERT INTO probe_result (\n        probe_id, \n        probe_type_id,\n        probe_target_addr,\n        probe_target_name,\n        protocol_id,\n        probe_option,\n        issued_at)  \n        VALUES (?1,?2,?3,?4,?5,?6,datetime(CURRENT_TIMESTAMP, 'localtime'));";
pub const HOST_SCAN_HOST_SQL: &'static str = "INSERT INTO host_scan_result (probe_id, ip_addr, host_name, port, protocol_id, mac_addr, vendor, os_name, issued_at)\n        VALUES (?1,?2,?3,?4,?5,?6,?7,?8,datetime(CURRENT_TIMESTAMP, 'localtime'));";
pub const PING_PROBE_SQL: &'static str = "INSERT INTO probe_result (\n        probe_id, \n        probe_type_id,\n        probe_target_addr,\n        probe_target_name,\n        protocol_id,\n        probe_option, \n        issued_at)  \n        VALUES (?1,?2,?3,?4,?5,?6,datetime(CURRENT_TIMESTAMP, 'localtime'));";
pub const PING_STAT_SQL: &'static str = "INSERT INTO ping_stat (probe_id, ip_addr, host_name, transmitted_count, received_count, min_rtt, avg_rtt, max_rtt, issued_at)\n    VALUES (?1,?2,?3,?4,?5,?6,?7,?8,datetime(CURRENT_TIMESTAMP, 'localtime'));";
pub const PING_RESULT_SQL: &'static str = "INSERT INTO ping_result (probe_id, seq, ip_addr, host_name, port, port_status_id, ttl, hop, rtt, issued_at) \n        VALUES (?1,?2,?3,?4,?5,?6,?7,?8,?9,datetime(CURRENT_TIMESTAMP, 'localtime'));";
pub const TRACE_PROBE_SQL: &'static str = "INSERT INTO probe_result (\n        probe_id, \n        probe_type_id,\n        probe_target_addr,\n        probe_target_name,\n        protocol_id,\n        probe_option,\n        issued_at)  \n        VALUES (?1,?2,?3,?4,?5,?6,datetime(CURRENT_TIMESTAMP, 'localtime'));";
pub const TRACE_RESULT_SQL: &'static str = "INSERT INTO traceroute_result (probe_id, seq, ip_addr, host_name, ttl, hop, rtt, node_type, issued_at)\n        VALUES (?1,?2,?3,?4,?5,?6,?7,?8,datetime(CURRENT_TIMESTAMP, 'localtime'));";

/// The column list of the host row of a host scan.
pub const INSERT_HOST_COLUMNS: &'static str = "INSERT INTO host_scan_result (probe_id, ip_addr, host_name, port, protocol_id, mac_addr, vendor, os_name, issued_at)";
/// The column list of the reply row of a ping.
pub const INSERT_PING_COLUMNS: &'static str = "INSERT INTO ping_result (probe_id, seq, ip_addr, host_name, port, port_status_id, ttl, hop, rtt, issued_at)";

/// The `probe_result` row that every recorded probe begins with.
pub open spec fn probe_row(
    sql: Seq<char>,
    probe_id: Seq<char>,
    kind: CommandType,
    target_addr: Seq<char>,
    target_name: Seq<char>,
    protocol: Seq<char>,
    option: Seq<char>,
) -> StatementView {
    StatementView {
        sql,
        params: seq![
            text(probe_id),
            text(kind.spec_id()),
            text(target_addr),
            text(target_name),
            text(protocol),
            text(option),
        ],
    }
}

fn probe_statement(
    sql: &'static str,
    probe_id: &String,
    kind: CommandType,
    target_addr: &String,
    target_name: &String,
    protocol: &String,
    option: &String,
) -> (st: Statement)
    ensures
        st@ == probe_row(sql@, probe_id@, kind, target_addr@, target_name@, protocol@, option@),
{
    let st = statement(
        sql,
        vec![
            text_value(probe_id),
            text_value(&kind.id()),
            text_value(target_addr),
            text_value(target_name),
            text_value(protocol),
            text_value(option),
        ],
    );
    assert(st@.params =~= probe_row(
        sql@,
        probe_id@,
        kind,
        target_addr@,
        target_name@,
        protocol@,
        option@,
    ).params);
    st
}

// ---------------------------------------------------------------- port scan

/// The socket address `ip:port`, as `format!("{}:{}", ip, port)` writes it.
pub open spec fn socket_addr(ip: Seq<char>, port: u16) -> Seq<char> {
    ip + ":"@ + decimal(port as nat)
}

/// The `port_scan_result` row of one port of `node`.
pub open spec fn port_row(probe_id: Seq<char>, node: NodeInfo, s: ServiceInfo) -> StatementView {
    StatementView {
        sql: PORT_SCAN_PORT_SQL@,
        params: seq![
            text(probe_id),
            text(socket_addr(node.ip_addr@, s.port_number)),
            text(node.ip_addr@),
            text(node.host_name@),
            SqlValueView::Int(s.port_number as i64),
            text(s.port_status@),
            text(IpNextLevelProtocol::TCP.spec_id()),
            text(s.service_name@),
            text(s.service_version@),
        ],
    }
}

pub open spec fn port_rows(probe_id: Seq<char>, node: NodeInfo, services: Seq<ServiceInfo>) -> Seq<
    StatementView,
>
    decreases services.len(),
{
    if services.len() == 0 {
        seq![]
    } else {
        port_rows(probe_id, node, services.drop_last()).push(
            port_row(probe_id, node, services.last()),
        )
    }
}

/// What recording a port scan writes: the probe, the scanned host (the first
/// node) and one row per port of that host.
pub open spec fn port_scan_plan(probe_id: Seq<char>, r: PortScanResult, option: Seq<char>) -> Seq<
    StatementView,
> {
    let node = r.nodes@[0];
    let tcp = IpNextLevelProtocol::TCP.spec_id();
    seq![
        probe_row(
            PORT_SCAN_PROBE_SQL@,
            probe_id,
            CommandType::PortScan,
            node.ip_addr@,
            node.host_name@,
            tcp,
            option,
        ),
        StatementView {
            sql: PORT_SCAN_HOST_SQL@,
            params: seq![
                text(probe_id),
                text(node.ip_addr@),
                text(node.host_name@),
                SqlValueView::Int(0),
                text(tcp),
                text(node.mac_addr@),
                text(node.vendor_info@),
                text(node.os_name@),
                text(node.cpe@),
            ],
        },
    ] + port_rows(probe_id, node, node.services@)
}

fn port_statement(probe_id: &String, node: &NodeInfo, s: &ServiceInfo) -> (st: Statement)
    ensures
        st@ == port_row(probe_id@, *node, *s),
{
    let mut addr = node.ip_addr.clone();
    addr.append(":");
    let port = decimal_string(s.port_number as u128);
    addr.append(port.as_str());
    let st = statement(
        PORT_SCAN_PORT_SQL,
        vec![
            text_value(probe_id),
            SqlValue::Text(addr),
            text_value(&node.ip_addr),
            text_value(&node.host_name),
            SqlValue::Int(s.port_number as i64),
            text_value(&s.port_status),
            text_value(&IpNextLevelProtocol::TCP.id()),
            text_value(&s.service_name),
            text_value(&s.service_version),
        ],
    );
    assert(st@.params =~= port_row(probe_id@, *node, *s).params);
    st
}

/// The statements that record a port scan, in the order they run.
pub fn insert_port_scan_result(
    probe_id: &String,
    scan_result: &PortScanResult,
    option_value: &String,
) -> (batch: Batch)
    requires
        scan_result.nodes@.len() > 0,
    ensures
        batch.mode is Direct,
        statements_view(batch.statements@) == port_scan_plan(probe_id@, *scan_result, option_value@),
{
    let node = &scan_result.nodes[0];
    let tcp = IpNextLevelProtocol::TCP.id();
    let mut plan: Vec<Statement> = Vec::new();
    let first = probe_statement(
        PORT_SCAN_PROBE_SQL,
        probe_id,
        CommandType::PortScan,
        &node.ip_addr,
        &node.host_name,
        &tcp,
        option_value,
    );
    let host = statement(
        PORT_SCAN_HOST_SQL,
        vec![
            text_value(probe_id),
            text_value(&node.ip_addr),
            text_value(&node.host_name),
            SqlValue::Int(0),
            text_value(&tcp),
            text_value(&node.mac_addr),
            text_value(&node.vendor_info),
            text_value(&node.os_name),
            text_value(&node.cpe),
        ],
    );
    proof {
        lemma_statements_view_push(plan@, first);
        lemma_statements_view_push(plan@.push(first), host);
    }
    plan.push(first);
    plan.push(host);
    let ghost head = statements_view(plan@);
    assert(host@.params =~= port_scan_plan(probe_id@, *scan_result, option_value@)[1].params);
    assert(head =~= port_scan_plan(probe_id@, *scan_result, option_value@).take(2));
    let n = node.services.len();
    for i in 0..n
        invariant
            n == node.services@.len(),
            scan_result.nodes@.len() > 0,
            node == scan_result.nodes@[0],
            statements_view(plan@) == head + port_rows(
                probe_id@,
                *node,
                node.services@.take(i as int),
            ),
    {
        let st = port_statement(probe_id, node, &node.services[i]);
        proof {
            lemma_statements_view_push(plan@, st);
            assert(node.services@.take(i + 1).drop_last() =~= node.services@.take(i as int));
        }
        plan.push(st);
    }
    assert(node.services@.take(n as int) =~= node.services@);
    assert(statements_view(plan@) =~= port_scan_plan(probe_id@, *scan_result, option_value@));
    Batch { statements: plan, mode: BatchMode::Direct }
}

// ---------------------------------------------------------------- host scan

/// The port recorded for a host found by a host scan: none (0) for an ICMP
/// scan, else the port of the host's first service.
pub open spec fn host_scan_port(protocol: IpNextLevelProtocol, host: NodeInfo) -> u16 {
    if protocol.spec_is_portless() {
        0
    } else {
        host.services@[0].port_number
    }
}

/// Whether every host of a non-ICMP host scan has a service to take its port from.
pub open spec fn host_scan_has_ports(r: HostScanResult) -> bool {
    !r.protocol.spec_is_portless() ==> forall|i: int|
        0 <= i < r.nodes@.len() ==> #[trigger] r.nodes@[i].services@.len() > 0
}

pub open spec fn host_row(probe_id: Seq<char>, protocol: IpNextLevelProtocol, host: NodeInfo) -> StatementView {
    StatementView {
        sql: HOST_SCAN_HOST_SQL@,
        params: seq![
            text(probe_id),
            text(host.ip_addr@),
            text(host.host_name@),
            SqlValueView::Int(host_scan_port(protocol, host) as i64),
            text(protocol.spec_id()),
            text(host.mac_addr@),
            text(host.vendor_info@),
            text(host.os_name@),
        ],
    }
}

pub open spec fn host_rows(probe_id: Seq<char>, protocol: IpNextLevelProtocol, hosts: Seq<NodeInfo>) -> Seq<
    StatementView,
>
    decreases hosts.len(),
{
    if hosts.len() == 0 {
        seq![]
    } else {
        host_rows(probe_id, protocol, hosts.drop_last()).push(
            host_row(probe_id, protocol, hosts.last()),
        )
    }
}

/// What recording a host scan writes: the probe (with no single target) and
/// one row per host found.
pub open spec fn host_scan_plan(probe_id: Seq<char>, r: HostScanResult, option: Seq<char>) -> Seq<
    StatementView,
> {
    seq![
        probe_row(
            HOST_SCAN_PROBE_SQL@,
            probe_id,
            CommandType::HostScan,
            Seq::empty(),
            Seq::empty(),
            r.protocol.spec_id(),
            option,
        ),
    ] + host_rows(probe_id, r.protocol, r.nodes@)
}

/// The statements that record a host scan, in the order they run.
pub fn insert_host_scan_result(
    probe_id: &String,
    scan_result: &HostScanResult,
    option_value: &String,
) -> (batch: Batch)
    requires
        host_scan_has_ports(*scan_result),
    ensures
        batch.mode is Direct,
        statements_view(batch.statements@) == host_scan_plan(probe_id@, *scan_result, option_value@),
{
    let protocol = scan_result.protocol;
    let mut plan: Vec<Statement> = Vec::new();
    let first = probe_statement(
        HOST_SCAN_PROBE_SQL,
        probe_id,
        CommandType::HostScan,
        &String::new(),
        &String::new(),
        &protocol.id(),
        option_value,
    );
    proof {
        lemma_statements_view_push(plan@, first);
    }
    plan.push(first);
    let ghost head = statements_view(plan@);
    let n = scan_result.nodes.len();
    for i in 0..n
        invariant
            n == scan_result.nodes@.len(),
            protocol == scan_result.protocol,
            host_scan_has_ports(*scan_result),
            head == seq![first@],
            statements_view(plan@) == head + host_rows(
                probe_id@,
                protocol,
                scan_result.nodes@.take(i as int),
            ),
    {
        let host = &scan_result.nodes[i];
        let port: u16 = if protocol.is_portless() {
            0
        } else {
            assert(scan_result.nodes@[i as int].services@.len() > 0);
            host.services[0].port_number
        };
        let st = statement(
            HOST_SCAN_HOST_SQL,
            vec![
                text_value(probe_id),
                text_value(&host.ip_addr),
                text_value(&host.host_name),
                SqlValue::Int(port as i64),
                text_value(&protocol.id()),
                text_value(&host.mac_addr),
                text_value(&host.vendor_info),
                text_value(&host.os_name),
            ],
        );
        assert(st@.params =~= host_row(probe_id@, protocol, *host).params);
        proof {
            lemma_statements_view_push(plan@, st);
            assert(scan_result.nodes@.take(i + 1).drop_last() =~= scan_result.nodes@.take(i as int));
        }
        plan.push(st);
    }
    assert(scan_result.nodes@.take(n as int) =~= scan_result.nodes@);
    assert(statements_view(plan@) =~= host_scan_plan(probe_id@, *scan_result, option_value@));
    Batch { statements: plan, mode: BatchMode::Direct }
}

proof fn lemma_host_rows_len(probe_id: Seq<char>, protocol: IpNextLevelProtocol, hosts: Seq<NodeInfo>)
    ensures
        host_rows(probe_id, protocol, hosts).len() == hosts.len(),
    decreases hosts.len(),
{
    if hosts.len() > 0 {
        lemma_host_rows_len(probe_id, protocol, hosts.drop_last());
    }
}

proof fn lemma_host_rows_index(probe_id: Seq<char>, protocol: IpNextLevelProtocol, hosts: Seq<NodeInfo>, k: int)
    requires
        0 <= k < hosts.len(),
    ensures
        host_rows(probe_id, protocol, hosts).len() == hosts.len(),
        host_rows(probe_id, protocol, hosts)[k] == host_row(probe_id, protocol, hosts[k]),
    decreases hosts.len(),
{
    lemma_host_rows_len(probe_id, protocol, hosts);
    lemma_host_rows_len(probe_id, protocol, hosts.drop_last());
    if k < hosts.len() - 1 {
        lemma_host_rows_index(probe_id, protocol, hosts.drop_last(), k);
    }
}

/// Recording a host scan writes, after the probe row, one row per host found,
/// in order; each binds, in the order of the insert's column list
/// (`probe_id, ip_addr, host_name, port, protocol_id, mac_addr, vendor,
/// os_name`), the probe id, the host's address, its name, its port (0 for an
/// ICMP scan, else its first service's port), the scan's protocol, its MAC
/// address, its vendor and its OS.
pub proof fn law_host_scan_rows(probe_id: Seq<char>, r: HostScanResult, option: Seq<char>, k: int)
    requires
        0 <= k < r.nodes@.len(),
    ensures
        INSERT_HOST_COLUMNS@ == HOST_SCAN_HOST_SQL@.take(INSERT_HOST_COLUMNS@.len() as int),
        host_scan_plan(probe_id, r, option).len() == 1 + r.nodes@.len(),
        ({
            let row = host_scan_plan(probe_id, r, option)[1 + k];
            let host = r.nodes@[k];
            &&& row.sql == HOST_SCAN_HOST_SQL@
            &&& row.params.len() == 8
            &&& row.params[0] == text(probe_id)
            &&& row.params[1] == text(host.ip_addr@)
            &&& row.params[2] == text(host.host_name@)
            &&& row.params[3] == SqlValueView::Int(
                if r.protocol is ICMPv4 || r.protocol is ICMPv6 {
                    0
                } else {
                    host.services@[0].port_number as i64
                },
            )
            &&& row.params[4] == text(r.protocol.spec_id())
            &&& row.params[5] == text(host.mac_addr@)
            &&& row.params[6] == text(host.vendor_info@)
            &&& row.params[7] == text(host.os_name@)
        }),
{
    lemma_host_rows_index(probe_id, r.protocol, r.nodes@, k);
    reveal_strlit("INSERT INTO host_scan_result (probe_id, ip_addr, host_name, port, protocol_id, mac_addr, vendor, os_name, issued_at)\n        VALUES (?1,?2,?3,?4,?5,?6,?7,?8,datetime(CURRENT_TIMESTAMP, 'localtime'));");
    reveal_strlit("INSERT INTO host_scan_result (probe_id, ip_addr, host_name, port, protocol_id, mac_addr, vendor, os_name, issued_at)");
    assert(INSERT_HOST_COLUMNS@ =~= HOST_SCAN_HOST_SQL@.take(INSERT_HOST_COLUMNS@.len() as int));
}

// ---------------------------------------------------------------- ping

/// The address, name and protocol that a ping is recorded under: those of
/// its first reply, or of an empty reply (`0.0.0.0`) when there is none.
pub open spec fn ping_target(stat: PingStat) -> (Seq<char>, Seq<char>, Seq<char>) {
    if stat.responses@.len() > 0 {
        let r = stat.responses@[0];
        (r.ip_addr@, r.host_name@, r.protocol@)
    } else {
        ("0.0.0.0"@, Seq::empty(), Seq::empty())
    }
}

pub open spec fn ping_reply_row(probe_id: Seq<char>, r: PingResponse) -> StatementView {
    StatementView {
        sql: PING_RESULT_SQL@,
        params: seq![
            text(probe_id),
            SqlValueView::Int(r.seq as i64),
            text(r.ip_addr@),
            text(r.host_name@),
            SqlValueView::Int(
                match r.port_number {
                    Some(p) => p as i64,
                    None => 0,
                },
            ),
            text(r.status@),
            SqlValueView::Int(r.ttl as i64),
            SqlValueView::Int(r.hop as i64),
            SqlValueView::UInt(r.rtt),
        ],
    }
}

pub open spec fn ping_reply_rows(probe_id: Seq<char>, rs: Seq<PingResponse>) -> Seq<StatementView>
    decreases rs.len(),
{
    if rs.len() == 0 {
        seq![]
    } else {
        ping_reply_rows(probe_id, rs.drop_last()).push(ping_reply_row(probe_id, rs.last()))
    }
}

/// What recording a ping writes: the probe, its statistics, one row per reply.
pub open spec fn ping_plan(probe_id: Seq<char>, r: PingResult, option: Seq<char>) -> Seq<
    StatementView,
> {
    let (addr, name, protocol) = ping_target(r.stat);
    seq![
        probe_row(PING_PROBE_SQL@, probe_id, CommandType::Ping, addr, name, protocol, option),
        StatementView {
            sql: PING_STAT_SQL@,
            params: seq![
                text(probe_id),
                text(addr),
                text(name),
                SqlValueView::UInt(r.stat.transmitted_count as u64),
                SqlValueView::UInt(r.stat.received_count as u64),
                SqlValueView::UInt(r.stat.min),
                SqlValueView::UInt(r.stat.avg),
                SqlValueView::UInt(r.stat.max),
            ],
        },
    ] + ping_reply_rows(probe_id, r.stat.responses@)
}

fn ping_reply_statement(probe_id: &String, r: &PingResponse) -> (st: Statement)
    ensures
        st@ == ping_reply_row(probe_id@, *r),
        st@.params[6] == SqlValueView::Int(r.ttl as i64),
        st@.params[7] == SqlValueView::Int(r.hop as i64),
{
    let port: u16 = match r.port_number {
        Some(p) => p,
        None => 0,
    };
    let st = statement(
        PING_RESULT_SQL,
        vec![
            text_value(probe_id),
            SqlValue::Int(r.seq as i64),
            text_value(&r.ip_addr),
            text_value(&r.host_name),
            SqlValue::Int(port as i64),
            text_value(&r.status),
            SqlValue::Int(r.ttl as i64),
            SqlValue::Int(r.hop as i64),
            SqlValue::UInt(r.rtt),
        ],
    );
    assert(st@.params =~= ping_reply_row(probe_id@, *r).params);
    st
}

/// The statements that record a ping, in the order they run.
pub fn insert_ping_result(probe_id: &String, ping_result: &PingResult, option_value: &String) -> (batch: Batch)
    ensures
        batch.mode is Direct,
        statements_view(batch.statements@) == ping_plan(probe_id@, *ping_result, option_value@),
{
    let stat = &ping_result.stat;
    let empty = PingResponse::new();
    let target: &PingResponse = if stat.responses.len() > 0 {
        &stat.responses[0]
    } else {
        &empty
    };
    let ghost (addr, name, protocol) = ping_target(*stat);
    assert(target.ip_addr@ == addr && target.host_name@ == name && target.protocol@ == protocol);
    let mut plan: Vec<Statement> = Vec::new();
    let first = probe_statement(
        PING_PROBE_SQL,
        probe_id,
        CommandType::Ping,
        &target.ip_addr,
        &target.host_name,
        &target.protocol,
        option_value,
    );
    let summary = statement(
        PING_STAT_SQL,
        vec![
            text_value(probe_id),
            text_value(&target.ip_addr),
            text_value(&target.host_name),
            SqlValue::UInt(stat.transmitted_count as u64),
            SqlValue::UInt(stat.received_count as u64),
            SqlValue::UInt(stat.min),
            SqlValue::UInt(stat.avg),
            SqlValue::UInt(stat.max),
        ],
    );
    proof {
        lemma_statements_view_push(plan@, first);
        lemma_statements_view_push(plan@.push(first), summary);
    }
    plan.push(first);
    plan.push(summary);
    let ghost head = statements_view(plan@);
    assert(summary@.params =~= ping_plan(probe_id@, *ping_result, option_value@)[1].params);
    assert(head =~= ping_plan(probe_id@, *ping_result, option_value@).take(2));
    let n = stat.responses.len();
    for i in 0..n
        invariant
            n == stat.responses@.len(),
            stat == ping_result.stat,
            statements_view(plan@) == head + ping_reply_rows(
                probe_id@,
                stat.responses@.take(i as int),
            ),
    {
        let st = ping_reply_statement(probe_id, &stat.responses[i]);
        proof {
            lemma_statements_view_push(plan@, st);
            assert(stat.responses@.take(i + 1).drop_last() =~= stat.responses@.take(i as int));
        }
        plan.push(st);
    }
    assert(stat.responses@.take(n as int) =~= stat.responses@);
    assert(statements_view(plan@) =~= ping_plan(probe_id@, *ping_result, option_value@));
    Batch { statements: plan, mode: BatchMode::Direct }
}

proof fn lemma_ping_reply_rows_len(probe_id: Seq<char>, rs: Seq<PingResponse>)
    ensures
        ping_reply_rows(probe_id, rs).len() == rs.len(),
    decreases rs.len(),
{
    if rs.len() > 0 {
        lemma_ping_reply_rows_len(probe_id, rs.drop_last());
    }
}

proof fn lemma_ping_reply_rows_index(probe_id: Seq<char>, rs: Seq<PingResponse>, k: int)
    requires
        0 <= k < rs.len(),
    ensures
        ping_reply_rows(probe_id, rs).len() == rs.len(),
        ping_reply_rows(probe_id, rs)[k] == ping_reply_row(probe_id, rs[k]),
    decreases rs.len(),
{
    lemma_ping_reply_rows_len(probe_id, rs);
    lemma_ping_reply_rows_len(probe_id, rs.drop_last());
    if k < rs.len() - 1 {
        lemma_ping_reply_rows_index(probe_id, rs.drop_last(), k);
    }
}

/// Recording a ping writes, after the probe and statistics rows, one row per
/// reply, in order; each binds, in the order of the insert's column list
/// (`probe_id, seq, ip_addr, host_name, port, port_status_id, ttl, hop, rtt`),
/// the probe id, the reply's sequence number, address, host name, port (0
/// when it has none), status, TTL, hop count and round-trip time.
pub proof fn law_ping_reply_rows(probe_id: Seq<char>, r: PingResult, option: Seq<char>, k: int)
    requires
        0 <= k < r.stat.responses@.len(),
    ensures
        INSERT_PING_COLUMNS@ == PING_RESULT_SQL@.take(INSERT_PING_COLUMNS@.len() as int),
        ping_plan(probe_id, r, option).len() == 2 + r.stat.responses@.len(),
        ({
            let row = ping_plan(probe_id, r, option)[2 + k];
            let reply = r.stat.responses@[k];
            &&& row.sql == PING_RESULT_SQL@
            &&& row.params.len() == 9
            &&& row.params[0] == text(probe_id)
            &&& row.params[1] == SqlValueView::Int(reply.seq as i64)
            &&& row.params[2] == text(reply.ip_addr@)
            &&& row.params[3] == text(reply.host_name@)
            &&& row.params[4] == SqlValueView::Int(
                match reply.port_number {
                    Some(p) => p as i64,
                    None => 0,
                },
            )
            &&& row.params[5] == text(reply.status@)
            &&& row.params[6] == SqlValueView::Int(reply.ttl as i64)
            &&& row.params[7] == SqlValueView::Int(reply.hop as i64)
            &&& row.params[8] == SqlValueView::UInt(reply.rtt)
        }),
{
    lemma_ping_reply_rows_index(probe_id, r.stat.responses@, k);
    reveal_strlit("INSERT INTO ping_result (probe_id, seq, ip_addr, host_name, port, port_status_id, ttl, hop, rtt, issued_at) \n        VALUES (?1,?2,?3,?4,?5,?6,?7,?8,?9,datetime(CURRENT_TIMESTAMP, 'localtime'));");
    reveal_strlit("INSERT INTO ping_result (probe_id, seq, ip_addr, host_name, port, port_status_id, ttl, hop, rtt, issued_at)");
    assert(INSERT_PING_COLUMNS@ =~= PING_RESULT_SQL@.take(INSERT_PING_COLUMNS@.len() as int));
}

// ---------------------------------------------------------------- traceroute

/// The address and name that a traceroute is recorded under: those of its
/// last hop, or of an empty reply (`0.0.0.0`) when there is none.
pub open spec fn trace_target(r: TracerouteResult) -> (Seq<char>, Seq<char>) {
    if r.nodes@.len() > 0 {
        let last = r.nodes@.last();
        (last.ip_addr@, last.host_name@)
    } else {
        ("0.0.0.0"@, Seq::empty())
    }
}

pub open spec fn hop_row(probe_id: Seq<char>, r: PingResponse) -> StatementView {
    StatementView {
        sql: TRACE_RESULT_SQL@,
        params: seq![
            text(probe_id),
            SqlValueView::Int(r.seq as i64),
            text(r.ip_addr@),
            text(r.host_name@),
            SqlValueView::Int(r.ttl as i64),
            SqlValueView::Int(r.hop as i64),
            SqlValueView::UInt(r.rtt),
            text(r.node_type@),
        ],
    }
}

pub open spec fn hop_rows(probe_id: Seq<char>, rs: Seq<PingResponse>) -> Seq<StatementView>
    decreases rs.len(),
{
    if rs.len() == 0 {
        seq![]
    } else {
        hop_rows(probe_id, rs.drop_last()).push(hop_row(probe_id, rs.last()))
    }
}

/// What recording a traceroute writes: the probe (over UDP) and one row per hop.
pub open spec fn trace_plan(probe_id: Seq<char>, r: TracerouteResult, option: Seq<char>) -> Seq<
    StatementView,
> {
    let (addr, name) = trace_target(r);
    seq![
        probe_row(
            TRACE_PROBE_SQL@,
            probe_id,
            CommandType::Traceroute,
            addr,
            name,
            IpNextLevelProtocol::UDP.spec_id(),
            option,
        ),
    ] + hop_rows(probe_id, r.nodes@)
}

fn hop_statement(probe_id: &String, r: &PingResponse) -> (st: Statement)
    ensures
        st@ == hop_row(probe_id@, *r),
{
    let st = statement(
        TRACE_RESULT_SQL,
        vec![
            text_value(probe_id),
            SqlValue::Int(r.seq as i64),
            text_value(&r.ip_addr),
            text_value(&r.host_name),
            SqlValue::Int(r.ttl as i64),
            SqlValue::Int(r.hop as i64),
            SqlValue::UInt(r.rtt),
            text_value(&r.node_type),
        ],
    );
    assert(st@.params =~= hop_row(probe_id@, *r).params);
    st
}

/// The statements that record a traceroute, in the order they run.
pub fn insert_trace_result(
    probe_id: &String,
    trace_result: &TracerouteResult,
    option_value: &String,
) -> (batch: Batch)
    ensures
        batch.mode is Direct,
        statements_view(batch.statements@) == trace_plan(probe_id@, *trace_result, option_value@),
{
    let nodes = &trace_result.nodes;
    let empty = PingResponse::new();
    let target: &PingResponse = if nodes.len() > 0 {
        &nodes[nodes.len() - 1]
    } else {
        &empty
    };
    let mut plan: Vec<Statement> = Vec::new();
    let first = probe_statement(
        TRACE_PROBE_SQL,
        probe_id,
        CommandType::Traceroute,
        &target.ip_addr,
        &target.host_name,
        &IpNextLevelProtocol::UDP.id(),
        option_value,
    );
    proof {
        lemma_statements_view_push(plan@, first);
    }
    plan.push(first);
    let ghost head = statements_view(plan@);
    let n = nodes.len();
    for i in 0..n
        invariant
            n == nodes@.len(),
            nodes == trace_result.nodes,
            head == seq![first@],
            statements_view(plan@) == head + hop_rows(probe_id@, nodes@.take(i as int)),
    {
        let st = hop_statement(probe_id, &nodes[i]);
        proof {
            lemma_statements_view_push(plan@, st);
            assert(nodes@.take(i + 1).drop_last() =~= nodes@.take(i as int));
        }
        plan.push(st);
    }
    assert(nodes@.take(n as int) =~= nodes@);
    assert(statements_view(plan@) =~= trace_plan(probe_id@, *trace_result, option_value@));
    Batch { statements: plan, mode: BatchMode::Direct }
}

} // verus!

use vstd::prelude::*;
use crate::hostname::{is_valid_hostname, valid_hostname};
use crate::models::{CommandType, DataSetItem, ProbeStat};
use crate::sql::{
    decimal, decimal_string, statement, text, text_value, values_view, SqlValue,
    Statement,
};

verus! {

pub const PROBE_LOG_SELECT_SQL: &'static str = "SELECT A.id, A.probe_id, A.probe_type_id, B.probe_type_name, A.probe_target_addr, A.probe_target_name, A.protocol_id, A.probe_option, A.issued_at \n    FROM probe_result AS A INNER JOIN probe_type AS B ON A.probe_type_id = B.probe_type_id ";
pub const PROBED_HOSTS_SQL: &'static str = "SELECT DISTINCT probe_target_addr, probe_target_name FROM probe_result WHERE probe_target_addr IS NOT NULL AND probe_target_addr <> '' ORDER BY probe_target_addr ASC;";
pub const TOP_PROBE_HIST_SQL: &'static str = "SELECT A.id, A.probe_id, A.probe_type_id, B.probe_type_name, A.probe_target_addr, A.probe_target_name, A.protocol_id, A.probe_option, A.issued_at \n    FROM probe_result AS A INNER JOIN probe_type AS B ON A.probe_type_id = B.probe_type_id ORDER BY A.id DESC LIMIT 10 ; ";
pub const PROBE_STAT_SQL: &'static str = "SELECT probe_type_id, COUNT(*) FROM probe_result GROUP BY probe_type_id;";
pub const PROBE_LOG_DATES_SQL: &'static str = " WHERE A.issued_at BETWEEN ?1 AND ?2 ";
pub const PROBE_LOG_TARGET_SQL: &'static str = " AND (A.probe_target_addr LIKE ?3 OR A.probe_target_name LIKE ?4) ";
pub const PROBE_LOG_TYPES_OPEN_SQL: &'static str = " AND A.probe_type_id IN (";
pub const PROBE_LOG_TYPES_CLOSE_SQL: &'static str = ") ";
pub const PROBE_LOG_ORDER_SQL: &'static str = " ORDER BY A.issued_at DESC;";

// ---------------------------------------------------------------- probe log search

/// The LIKE pattern that a search for `host` uses: the host name itself when
/// it is a valid one, else `%`, which matches every target.
pub open spec fn target_pattern(host: Seq<char>) -> Seq<char> {
    if host.len() > 0 && valid_hostname(host) {
        host
    } else {
        "%"@
    }
}

/// A search matches either every target or a valid host name.
pub proof fn law_target_pattern(host: Seq<char>)
    ensures
        target_pattern(host) == "%"@ || valid_hostname(target_pattern(host)),
{
}

/// A search for a valid host name is filtered to exactly that target.
pub proof fn law_valid_host_filters(host: Seq<char>)
    requires
        host.len() > 0,
        valid_hostname(host),
    ensures
        target_pattern(host) == host,
{
}

/// A search for an empty or invalid host name applies no host filter: it
/// is the very search made for an empty host.
pub proof fn law_unfiltered_host_same_search(host: Seq<char>)
    requires
        host.len() == 0 || !valid_hostname(host),
    ensures
        target_pattern(host) == target_pattern(Seq::<char>::empty()),
        target_pattern(host) == "%"@,
{
}

/// The list `?first, ?first+1, ...` of `count` numbered placeholders.
pub open spec fn placeholders(first: nat, count: nat) -> Seq<char>
    decreases count,
{
    if count == 0 {
        Seq::empty()
    } else if count == 1 {
        "?"@ + decimal(first)
    } else {
        placeholders(first, (count - 1) as nat) + ", ?"@ + decimal((first + count - 1) as nat)
    }
}

/// The probe log search over `k` probe types.
pub open spec fn probe_log_sql(k: nat) -> Seq<char> {
    PROBE_LOG_SELECT_SQL@ + PROBE_LOG_DATES_SQL@ + PROBE_LOG_TARGET_SQL@ + PROBE_LOG_TYPES_OPEN_SQL@
        + placeholders(5, k) + PROBE_LOG_TYPES_CLOSE_SQL@ + PROBE_LOG_ORDER_SQL@
}

pub open spec fn texts(v: Seq<String>) -> Seq<crate::sql::SqlValueView>
    decreases v.len(),
{
    if v.len() == 0 {
        Seq::empty()
    } else {
        texts(v.drop_last()).push(text(v.last()@))
    }
}

/// The search of the probe log: the probes issued between the two dates,
/// whose target matches the host (any target unless the host is a valid
/// host name), of one of the given types, newest first.
pub fn get_probe_result(
    target_host: &String,
    probe_types: &Vec<String>,
    start_date: &String,
    end_date: &String,
) -> (st: Statement)
    ensures
        st@.sql == probe_log_sql(probe_types@.len()),
        st@.params == seq![
            text(start_date@),
            text(end_date@),
            text(target_pattern(target_host@)),
            text(target_pattern(target_host@)),
        ] + texts(probe_types@),
        st@.params.len() == 4 + probe_types@.len(),
        target_host@.len() > 0 && valid_hostname(target_host@) ==> st@.params[2] == text(
            target_host@,
        ) && st@.params[3] == text(target_host@),
        !(target_host@.len() > 0 && valid_hostname(target_host@)) ==> st@.params[2] == text("%"@)
            && st@.params[3] == text("%"@),
{
    let pattern = if target_host.unicode_len() > 0 && is_valid_hostname(target_host) {
        target_host.clone()
    } else {
        String::from_str("%")
    };
    let k = probe_types.len();
    let mut list = String::new();
    let mut idx: u128 = 4;
    for i in 0..k
        invariant
            k == probe_types@.len(),
            idx == 4 + i,
            list@ == placeholders(5, i as nat),
    {
        idx = idx + 1;
        let num = decimal_string(idx);
        if idx == 5 {
            list = String::from_str("?");
            list.append(num.as_str());
        } else {
            list.append(", ?");
            list.append(num.as_str());
        }
        assert(list@ =~= placeholders(5, (i + 1) as nat));
    }
    let mut sql = String::from_str(PROBE_LOG_SELECT_SQL);
    sql.append(PROBE_LOG_DATES_SQL);
    sql.append(PROBE_LOG_TARGET_SQL);
    sql.append(PROBE_LOG_TYPES_OPEN_SQL);
    sql.append(list.as_str());
    sql.append(PROBE_LOG_TYPES_CLOSE_SQL);
    sql.append(PROBE_LOG_ORDER_SQL);
    let mut params: Vec<SqlValue> = vec![
        text_value(start_date),
        text_value(end_date),
        text_value(&pattern),
        text_value(&pattern),
    ];
    let ghost head = values_view(params@);
    assert(head =~= seq![
        text(start_date@),
        text(end_date@),
        text(target_pattern(target_host@)),
        text(target_pattern(target_host@)),
    ]);
    for i in 0..k
        invariant
            k == probe_types@.len(),
            values_view(params@) == head + texts(probe_types@.take(i as int)),
    {
        let v = text_value(&probe_types[i]);
        assert(values_view(params@.push(v)) =~= values_view(params@).push(v@));
        assert(probe_types@.take(i + 1).drop_last() =~= probe_types@.take(i as int));
        params.push(v);
    }
    assert(probe_types@.take(k as int) =~= probe_types@);
    proof {
        lemma_texts_len(probe_types@);
    }
    Statement { sql, params }
}

pub proof fn lemma_texts_len(v: Seq<String>)
    ensures
        texts(v).len() == v.len(),
    decreases v.len(),
{
    if v.len() > 0 {
        lemma_texts_len(v.drop_last());
    }
}

// ---------------------------------------------------------------- probed hosts

pub fn probed_hosts_query() -> (st: Statement)
    ensures
        st@.sql == PROBED_HOSTS_SQL@,
        st@.params.len() == 0,
{
    statement(PROBED_HOSTS_SQL, Vec::new())
}

/// Whether a row names its host: a name that is neither empty nor the address.
pub open spec fn is_named(it: DataSetItem) -> bool {
    it.name@.len() > 0 && it.name@ != it.id@
}

/// How many rows have the address `id`.
pub open spec fn count_id(rows: Seq<DataSetItem>, id: Seq<char>) -> nat
    decreases rows.len(),
{
    if rows.len() == 0 {
        0
    } else {
        count_id(rows.drop_last(), id) + if rows.last().id@ == id {
            1nat
        } else {
            0nat
        }
    }
}

/// How many rows have the address `id` and name it.
pub open spec fn count_named(rows: Seq<DataSetItem>, id: Seq<char>) -> nat
    decreases rows.len(),
{
    if rows.len() == 0 {
        0
    } else {
        count_named(rows.drop_last(), id) + if rows.last().id@ == id && is_named(rows.last()) {
            1nat
        } else {
            0nat
        }
    }
}

/// A row is listed unless its address has several rows, one of which names
/// it, and the row itself does not.
pub open spec fn keep_host(rows: Seq<DataSetItem>, it: DataSetItem) -> bool {
    !(count_id(rows, it.id@) > 1 && count_named(rows, it.id@) > 0 && !is_named(it))
}

/// The name a listed row is shown with: its own, or its address when it has none.
pub open spec fn shown_name(it: DataSetItem) -> Seq<char> {
    if it.name@.len() == 0 {
        it.id@
    } else {
        it.name@
    }
}

/// The list made of the rows of `prefix`, judged against all `rows`.
pub open spec fn probed_hosts(rows: Seq<DataSetItem>, prefix: Seq<DataSetItem>) -> Seq<
    (Seq<char>, Seq<char>),
>
    decreases prefix.len(),
{
    if prefix.len() == 0 {
        Seq::empty()
    } else {
        let rest = probed_hosts(rows, prefix.drop_last());
        let it = prefix.last();
        if keep_host(rows, it) {
            rest.push((it.id@, shown_name(it)))
        } else {
            rest
        }
    }
}

pub open spec fn items_view(v: Seq<DataSetItem>) -> Seq<(Seq<char>, Seq<char>)> {
    v.map_values(|it: DataSetItem| (it.id@, it.name@))
}

fn count_host_rows(rows: &Vec<DataSetItem>, id: &String) -> (res: (usize, usize))
    ensures
        res.0 == count_id(rows@, id@),
        res.1 == count_named(rows@, id@),
{
    let mut all: usize = 0;
    let mut named: usize = 0;
    let n = rows.len();
    for j in 0..n
        invariant
            n == rows@.len(),
            all == count_id(rows@.take(j as int), id@),
            named == count_named(rows@.take(j as int), id@),
            all <= j && named <= j,
    {
        assert(rows@.take(j + 1).drop_last() =~= rows@.take(j as int));
        let row = &rows[j];
        if row.id == *id {
            all = all + 1;
            if row.id != row.name && row.name.unicode_len() > 0 {
                named = named + 1;
            }
        }
    }
    assert(rows@.take(n as int) =~= rows@);
    (all, named)
}

/// The hosts that were probed, for selection: one entry per row, except that
/// an address with several rows loses its unnamed rows when one of them
/// names it; an entry without a name is shown under its address.
pub fn get_probed_hosts(rows: &Vec<DataSetItem>) -> (hosts: Vec<DataSetItem>)
    ensures
        items_view(hosts@) == probed_hosts(rows@, rows@),
{
    let mut hosts: Vec<DataSetItem> = Vec::new();
    let n = rows.len();
    for i in 0..n
        invariant
            n == rows@.len(),
            items_view(hosts@) == probed_hosts(rows@, rows@.take(i as int)),
    {
        let item = &rows[i];
        let (all, named) = count_host_rows(rows, &item.id);
        assert(rows@.take(i + 1).drop_last() =~= rows@.take(i as int));
        let unnamed = item.name.unicode_len() == 0 || item.id == item.name;
        if all > 1 && named > 0 && unnamed {
            assert(!keep_host(rows@, rows@[i as int]));
        } else {
            let name = if item.name.unicode_len() == 0 {
                item.id.clone()
            } else {
                item.name.clone()
            };
            let entry = DataSetItem { id: item.id.clone(), name };
            assert(items_view(hosts@.push(entry)) =~= items_view(hosts@).push(
                (entry.id@, entry.name@),
            ));
            hosts.push(entry);
        }
    }
    assert(rows@.take(n as int) =~= rows@);
    hosts
}

pub proof fn lemma_probed_hosts_lists_kept(rows: Seq<DataSetItem>, prefix: Seq<DataSetItem>, k: int)
    requires
        0 <= k < prefix.len(),
        keep_host(rows, prefix[k]),
    ensures
        probed_hosts(rows, prefix).contains((prefix[k].id@, shown_name(prefix[k]))),
    decreases prefix.len(),
{
    let rest = probed_hosts(rows, prefix.drop_last());
    if k < prefix.len() - 1 {
        lemma_probed_hosts_lists_kept(rows, prefix.drop_last(), k);
        let w = choose|w: int| 0 <= w < rest.len() && rest[w] == (
        prefix[k].id@, shown_name(prefix[k]));
        if keep_host(rows, prefix.last()) {
            assert(rest.push((prefix.last().id@, shown_name(prefix.last())))[w] == rest[w]);
        }
    } else {
        let out = rest.push((prefix.last().id@, shown_name(prefix.last())));
        assert(out[out.len() - 1] == (prefix[k].id@, shown_name(prefix[k])));
    }
}

pub proof fn lemma_count_named_witness(rows: Seq<DataSetItem>, id: Seq<char>)
    requires
        count_named(rows, id) > 0,
    ensures
        exists|j: int| 0 <= j < rows.len() && rows[j].id@ == id && is_named(#[trigger] rows[j]),
    decreases rows.len(),
{
    if rows.last().id@ == id && is_named(rows.last()) {
        assert(is_named(rows[rows.len() - 1]));
    } else {
        lemma_count_named_witness(rows.drop_last(), id);
        let j = choose|j: int|
            0 <= j < rows.drop_last().len() && rows.drop_last()[j].id@ == id && is_named(
                #[trigger] rows.drop_last()[j],
            );
        assert(rows[j] == rows.drop_last()[j]);
    }
}

/// Every probed address stays in the list: filtering only drops duplicate
/// rows of an address that another row names.
pub proof fn law_probed_hosts_keep_every_address(rows: Seq<DataSetItem>, i: int)
    requires
        0 <= i < rows.len(),
    ensures
        exists|e: (Seq<char>, Seq<char>)| #[trigger]
            probed_hosts(rows, rows).contains(e) && e.0 == rows[i].id@,
{
    if keep_host(rows, rows[i]) {
        lemma_probed_hosts_lists_kept(rows, rows, i);
        assert(probed_hosts(rows, rows).contains((rows[i].id@, shown_name(rows[i]))));
    } else {
        lemma_count_named_witness(rows, rows[i].id@);
        let j = choose|j: int|
            0 <= j < rows.len() && rows[j].id@ == rows[i].id@ && is_named(#[trigger] rows[j]);
        lemma_probed_hosts_lists_kept(rows, rows, j);
        assert(probed_hosts(rows, rows).contains((rows[j].id@, shown_name(rows[j]))));
    }
}

proof fn lemma_probed_hosts_origin(rows: Seq<DataSetItem>, prefix: Seq<DataSetItem>, k: int)
    requires
        0 <= k < probed_hosts(rows, prefix).len(),
    ensures
        exists|m: int|
            0 <= m < prefix.len() && keep_host(rows, prefix[m]) && probed_hosts(rows, prefix)[k]
                == (#[trigger] prefix[m].id@, shown_name(prefix[m])),
    decreases prefix.len(),
{
    let rest = probed_hosts(rows, prefix.drop_last());
    if k < rest.len() {
        lemma_probed_hosts_origin(rows, prefix.drop_last(), k);
        let m = choose|m: int|
            0 <= m < prefix.drop_last().len() && keep_host(rows, prefix.drop_last()[m])
                && rest[k] == (#[trigger] prefix.drop_last()[m].id@, shown_name(
                prefix.drop_last()[m],
            ));
        assert(prefix[m] == prefix.drop_last()[m]);
        if keep_host(rows, prefix.last()) {
            assert(probed_hosts(rows, prefix)[k] == rest[k]);
        }
        assert(prefix[m].id@ == prefix.drop_last()[m].id@);
    } else {
        let m = prefix.len() - 1;
        assert(prefix[m].id@ == prefix.last().id@);
    }
}

proof fn lemma_count_id_two(rows: Seq<DataSetItem>, i: int, j: int)
    requires
        0 <= i < rows.len(),
        0 <= j < rows.len(),
        i != j,
        rows[i].id@ == rows[j].id@,
    ensures
        count_id(rows, rows[i].id@) >= 2,
    decreases rows.len(),
{
    let last = rows.len() - 1;
    if i == last || j == last {
        let other = if i == last { j } else { i };
        lemma_count_id_one(rows.drop_last(), other);
        assert(rows.drop_last()[other] == rows[other]);
    } else {
        lemma_count_id_two(rows.drop_last(), i, j);
        assert(rows.drop_last()[i] == rows[i]);
    }
}

proof fn lemma_count_id_one(rows: Seq<DataSetItem>, i: int)
    requires
        0 <= i < rows.len(),
    ensures
        count_id(rows, rows[i].id@) >= 1,
    decreases rows.len(),
{
    if i < rows.len() - 1 {
        lemma_count_id_one(rows.drop_last(), i);
        assert(rows.drop_last()[i] == rows[i]);
    }
}

proof fn lemma_count_named_one(rows: Seq<DataSetItem>, j: int)
    requires
        0 <= j < rows.len(),
        is_named(rows[j]),
    ensures
        count_named(rows, rows[j].id@) >= 1,
    decreases rows.len(),
{
    if j < rows.len() - 1 {
        lemma_count_named_one(rows.drop_last(), j);
        assert(rows.drop_last()[j] == rows[j]);
    }
}

/// When some row gives an address a name (one that is neither empty nor the
/// address itself), every entry listed for that address shows a real name:
/// the rows whose name is empty or just the address are left out.
pub proof fn law_probed_hosts_prefer_named(rows: Seq<DataSetItem>, j: int, k: int)
    requires
        0 <= j < rows.len(),
        rows[j].name@.len() > 0,
        rows[j].name@ != rows[j].id@,
        0 <= k < probed_hosts(rows, rows).len(),
        probed_hosts(rows, rows)[k].0 == rows[j].id@,
    ensures
        probed_hosts(rows, rows)[k].1.len() > 0,
        probed_hosts(rows, rows)[k].1 != rows[j].id@,
{
    lemma_probed_hosts_origin(rows, rows, k);
    let m = choose|m: int|
        0 <= m < rows.len() && keep_host(rows, rows[m]) && probed_hosts(rows, rows)[k] == (
        #[trigger] rows[m].id@, shown_name(rows[m]));
    if !is_named(rows[m]) {
        lemma_count_named_one(rows, j);
        assert(m != j);
        lemma_count_id_two(rows, m, j);
        assert(false);
    }
}

/// Every listed entry has a name, unless its address is empty too.
pub proof fn law_probed_hosts_named(rows: Seq<DataSetItem>, prefix: Seq<DataSetItem>, k: int)
    requires
        0 <= k < probed_hosts(rows, prefix).len(),
        probed_hosts(rows, prefix)[k].0.len() > 0,
    ensures
        probed_hosts(rows, prefix)[k].1.len() > 0,
    decreases prefix.len(),
{
    if prefix.len() > 0 {
        let rest = probed_hosts(rows, prefix.drop_last());
        if k < rest.len() {
            law_probed_hosts_named(rows, prefix.drop_last(), k);
            if keep_host(rows, prefix.last()) {
                assert(probed_hosts(rows, prefix)[k] == rest[k]);
            }
        }
    }
}

// ---------------------------------------------------------------- recent probes

/// The ten most recent probes, newest first.
pub fn get_top_probe_hist() -> (st: Statement)
    ensures
        st@.sql == TOP_PROBE_HIST_SQL@,
        st@.params.len() == 0,
{
    statement(TOP_PROBE_HIST_SQL, Vec::new())
}

// ---------------------------------------------------------------- statistics

pub fn probe_stat_query() -> (st: Statement)
    ensures
        st@.sql == PROBE_STAT_SQL@,
        st@.params.len() == 0,
{
    statement(PROBE_STAT_SQL, Vec::new())
}

/// The count of the last row whose probe type is `id`, or 0 when there is none.
pub open spec fn last_count(rows: Seq<(String, u32)>, id: Seq<char>) -> u32
    decreases rows.len(),
{
    if rows.len() == 0 {
        0
    } else if rows.last().0@ == id {
        rows.last().1
    } else {
        last_count(rows.drop_last(), id)
    }
}

pub proof fn lemma_command_ids_distinct()
    ensures
        CommandType::PortScan.spec_id() != CommandType::HostScan.spec_id(),
        CommandType::PortScan.spec_id() != CommandType::Ping.spec_id(),
        CommandType::PortScan.spec_id() != CommandType::Traceroute.spec_id(),
        CommandType::HostScan.spec_id() != CommandType::Ping.spec_id(),
        CommandType::HostScan.spec_id() != CommandType::Traceroute.spec_id(),
        CommandType::Ping.spec_id() != CommandType::Traceroute.spec_id(),
{
    reveal_strlit("port_scan");
    reveal_strlit("host_scan");
    reveal_strlit("ping");
    reveal_strlit("traceroute");
    assert("port_scan"@[0] != "host_scan"@[0]);
    assert("port_scan"@[1] != "ping"@[1]);
    assert("port_scan"@[0] != "traceroute"@[0]);
    assert("host_scan"@[0] != "ping"@[0]);
    assert("host_scan"@[0] != "traceroute"@[0]);
    assert("ping"@[0] != "traceroute"@[0]);
}

/// The number of probes of each kind, from the rows (probe type, count) of
/// the statistics query; a type without a row counts 0, rows of other types
/// are ignored, and of two rows of one type the later wins.
pub fn get_probe_stat(rows: &Vec<(String, u32)>) -> (stat: ProbeStat)
    ensures
        stat.portscan_count == last_count(rows@, CommandType::PortScan.spec_id()),
        stat.hostscan_count == last_count(rows@, CommandType::HostScan.spec_id()),
        stat.ping_count == last_count(rows@, CommandType::Ping.spec_id()),
        stat.traceroute_count == last_count(rows@, CommandType::Traceroute.spec_id()),
{
    proof {
        lemma_command_ids_distinct();
    }
    let mut stat = ProbeStat::new();
    let port_scan = CommandType::PortScan.id();
    let host_scan = CommandType::HostScan.id();
    let ping = CommandType::Ping.id();
    let traceroute = CommandType::Traceroute.id();
    let n = rows.len();
    for i in 0..n
        invariant
            n == rows@.len(),
            port_scan@ == CommandType::PortScan.spec_id(),
            host_scan@ == CommandType::HostScan.spec_id(),
            ping@ == CommandType::Ping.spec_id(),
            traceroute@ == CommandType::Traceroute.spec_id(),
            port_scan@ != host_scan@ && port_scan@ != ping@ && port_scan@ != traceroute@,
            host_scan@ != ping@ && host_scan@ != traceroute@ && ping@ != traceroute@,
            stat.portscan_count == last_count(rows@.take(i as int), port_scan@),
            stat.hostscan_count == last_count(rows@.take(i as int), host_scan@),
            stat.ping_count == last_count(rows@.take(i as int), ping@),
            stat.traceroute_count == last_count(rows@.take(i as int), traceroute@),
    {
        assert(rows@.take(i + 1).drop_last() =~= rows@.take(i as int));
        let (probe_type_id, count) = (&rows[i].0, rows[i].1);
        if *probe_type_id == port_scan {
            stat.portscan_count = count;
        } else if *probe_type_id == host_scan {
            stat.hostscan_count = count;
        } else if *probe_type_id == traceroute {
            stat.traceroute_count = count;
        } else if *probe_type_id == ping {
            stat.ping_count = count;
        }
    }
    assert(rows@.take(n as int) =~= rows@);
    stat
}

} // verus!

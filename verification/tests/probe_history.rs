use rushmap_db::history::{
    get_probe_result, get_probe_stat, get_probed_hosts, get_top_probe_hist, probe_stat_query,
    probed_hosts_query, PROBE_LOG_SELECT_SQL,
};
use rushmap_db::models::DataSetItem;
use rushmap_db::sql::SqlValue;

fn s(x: &str) -> String {
    x.to_string()
}

fn item(id: &str, name: &str) -> DataSetItem {
    DataSetItem { id: s(id), name: s(name) }
}

fn text(x: &str) -> SqlValue {
    SqlValue::Text(s(x))
}

#[test]
fn probe_log_search_numbers_type_placeholders() {
    let st = get_probe_result(
        &s("example.com"),
        &vec![s("ping"), s("port_scan"), s("traceroute")],
        &s("2024-01-01"),
        &s("2024-12-31"),
    );
    let expected = format!(
        "{} WHERE A.issued_at BETWEEN ?1 AND ?2  AND (A.probe_target_addr LIKE ?3 OR A.probe_target_name LIKE ?4)  AND A.probe_type_id IN (?5, ?6, ?7)  ORDER BY A.issued_at DESC;",
        PROBE_LOG_SELECT_SQL
    );
    assert_eq!(st.sql, expected);
    assert_eq!(
        st.params,
        vec![
            text("2024-01-01"),
            text("2024-12-31"),
            text("example.com"),
            text("example.com"),
            text("ping"),
            text("port_scan"),
            text("traceroute"),
        ]
    );
}

#[test]
fn probe_log_search_matches_any_target_for_bad_host() {
    let st = get_probe_result(&s("not a host!"), &vec![s("ping")], &s("a"), &s("b"));
    assert_eq!(st.params[2], text("%"));
    assert_eq!(st.params[3], text("%"));
    assert!(st.sql.contains("IN (?5)"));
    let st = get_probe_result(&s(""), &vec![], &s("a"), &s("b"));
    assert_eq!(st.params, vec![text("a"), text("b"), text("%"), text("%")]);
    assert!(st.sql.contains("IN ()"));
}

#[test]
fn probe_log_search_with_twelve_types() {
    let types: Vec<String> = (0..12).map(|i| format!("t{}", i)).collect();
    let st = get_probe_result(&s("h"), &types, &s("a"), &s("b"));
    assert!(st.sql.contains("IN (?5, ?6, ?7, ?8, ?9, ?10, ?11, ?12, ?13, ?14, ?15, ?16)"));
    assert_eq!(st.params.len(), 16);
}

#[test]
fn probed_hosts_prefer_named_rows() {
    let rows = vec![
        item("10.0.0.1", ""),
        item("10.0.0.1", "router"),
        item("10.0.0.2", ""),
        item("10.0.0.3", "10.0.0.3"),
        item("10.0.0.3", ""),
        item("10.0.0.4", "10.0.0.4"),
        item("10.0.0.5", "a"),
        item("10.0.0.5", "b"),
    ];
    let hosts = get_probed_hosts(&rows);
    assert_eq!(
        hosts,
        vec![
            item("10.0.0.1", "router"),
            item("10.0.0.2", "10.0.0.2"),
            item("10.0.0.3", "10.0.0.3"),
            item("10.0.0.3", "10.0.0.3"),
            item("10.0.0.4", "10.0.0.4"),
            item("10.0.0.5", "a"),
            item("10.0.0.5", "b"),
        ]
    );
}

#[test]
fn probed_hosts_empty() {
    assert_eq!(get_probed_hosts(&vec![]), vec![]);
}

#[test]
fn probe_stat_counts_known_types() {
    let rows = vec![
        (s("host_scan"), 3),
        (s("ping"), 5),
        (s("domain_scan"), 9),
        (s("port_scan"), 2),
    ];
    let stat = get_probe_stat(&rows);
    assert_eq!(stat.portscan_count, 2);
    assert_eq!(stat.hostscan_count, 3);
    assert_eq!(stat.ping_count, 5);
    assert_eq!(stat.traceroute_count, 0);
}

#[test]
fn fixed_queries() {
    assert!(get_top_probe_hist().sql.contains("ORDER BY A.id DESC LIMIT 10"));
    assert!(get_top_probe_hist().params.is_empty());
    assert_eq!(probe_stat_query().sql, "SELECT probe_type_id, COUNT(*) FROM probe_result GROUP BY probe_type_id;");
    assert!(probed_hosts_query().sql.starts_with("SELECT DISTINCT probe_target_addr"));
}

#[test]
fn invalid_host_searches_like_empty_host() {
    let types = vec![s("ping"), s("host_scan")];
    let bad = get_probe_result(&s("bad host!"), &types, &s("a"), &s("b"));
    let empty = get_probe_result(&s(""), &types, &s("a"), &s("b"));
    assert_eq!(bad, empty);
    let good = get_probe_result(&s("example.com"), &types, &s("a"), &s("b"));
    assert_ne!(good, empty);
}

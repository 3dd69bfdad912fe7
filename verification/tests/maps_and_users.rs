use rushmap_db::batch::BatchMode;
use rushmap_db::map::map_part_queries;
use rushmap_db::user::user_host_reads;
use rushmap_db::map::{
    delete_map_edge, delete_map_info, delete_map_layout, delete_map_node, get_map_data,
    get_map_edges, get_map_info, get_map_layouts, get_map_list, get_map_nodes, insert_map_info,
    map_info_query, save_map_data, DELETE_MAP_EDGES_SQL, DELETE_MAP_LAYOUTS_SQL,
    DELETE_MAP_NODES_SQL, INSERT_MAP_EDGE_SQL, INSERT_MAP_INFO_SQL, INSERT_MAP_LAYOUT_SQL,
    INSERT_MAP_NODE_SQL,
};
use rushmap_db::models::{
    MapData, MapEdge, MapInfo, MapLayout, MapNode, UserHost, UserProbeData, UserService,
};
use rushmap_db::sql::SqlValue;
use rushmap_db::user::{
    get_user_hosts, get_user_probe_data, get_valid_user_hosts, save_user_probe_data,
    user_groups_query, user_probe_data, user_services_query, user_tags_query,
    USER_GROUP_DELETE_SQL, USER_GROUP_INSERT_SQL, USER_HOST_DELETE_SQL, USER_HOST_INSERT_SQL,
    USER_SERVICE_DELETE_SQL, USER_SERVICE_INSERT_SQL, USER_TAG_DELETE_SQL, USER_TAG_INSERT_SQL,
};

fn s(x: &str) -> String {
    x.to_string()
}

fn text(x: &str) -> SqlValue {
    SqlValue::Text(s(x))
}

fn info(id: u32) -> MapInfo {
    MapInfo { map_id: id, map_name: s("office"), display_order: 2, created_at: s("2024-01-01") }
}

fn sample_map() -> MapData {
    MapData {
        map_info: info(7),
        nodes: vec![
            MapNode { map_id: 7, node_id: s("n1"), node_name: s("gw"), ip_addr: s("10.0.0.1"), host_name: s("gw.local") },
            MapNode { map_id: 7, node_id: s("n2"), node_name: s("pc"), ip_addr: s("10.0.0.2"), host_name: s("pc.local") },
        ],
        edges: vec![MapEdge { map_id: 7, edge_id: s("e1"), source_node_id: s("n1"), target_node_id: s("n2"), edge_label: s("lan") }],
        layouts: vec![MapLayout { map_id: 7, node_id: s("n1"), x_bits: 12.5f64.to_bits(), y_bits: (-3.0f64).to_bits() }],
    }
}

#[test]
fn saving_a_new_map_writes_its_info_first() {
    let batch = save_map_data(&sample_map(), false);
    assert_eq!(batch.mode, BatchMode::Transaction);
    let sqls: Vec<&str> = batch.statements.iter().map(|st| st.sql.as_str()).collect();
    assert_eq!(
        sqls,
        vec![
            INSERT_MAP_INFO_SQL,
            DELETE_MAP_NODES_SQL,
            INSERT_MAP_NODE_SQL,
            INSERT_MAP_NODE_SQL,
            DELETE_MAP_EDGES_SQL,
            INSERT_MAP_EDGE_SQL,
            DELETE_MAP_LAYOUTS_SQL,
            INSERT_MAP_LAYOUT_SQL,
        ]
    );
    assert_eq!(batch.statements[0].params, vec![SqlValue::Int(7), text("office"), SqlValue::Int(2)]);
    assert_eq!(batch.statements[1].params, vec![SqlValue::Int(7)]);
    assert_eq!(
        batch.statements[7].params,
        vec![SqlValue::Int(7), text("n1"), SqlValue::RealBits(12.5f64.to_bits()), SqlValue::RealBits((-3.0f64).to_bits())]
    );
}

#[test]
fn saving_an_existing_map_keeps_its_info() {
    let batch = save_map_data(&sample_map(), true);
    assert_eq!(batch.statements.len(), 7);
    assert_eq!(batch.statements[0].sql, DELETE_MAP_NODES_SQL);
    assert_eq!(
        batch.statements[4].params,
        vec![SqlValue::Int(7), text("e1"), text("n1"), text("n2"), text("lan")]
    );
}

#[test]
fn map_data_for_missing_map_is_empty() {
    let data = get_map_data(None, vec![], vec![], vec![]);
    assert_eq!(data, MapData::new());
    assert_eq!(data.map_info.map_id, 0);
    let m = sample_map();
    let data = get_map_data(Some(info(7)), m.nodes.clone(), m.edges.clone(), m.layouts.clone());
    assert_eq!(data, m);
}

#[test]
fn map_info_is_first_readable_row() {
    let rows: Vec<Result<MapInfo, String>> = vec![Err(s("bad row")), Ok(info(3)), Ok(info(4))];
    assert_eq!(get_map_info(rows), Some(info(3)));
    let rows: Vec<Result<MapInfo, String>> = vec![Err(s("bad row"))];
    assert_eq!(get_map_info(rows), None);
}

#[test]
fn map_item_statements() {
    assert_eq!(map_info_query(5).params, vec![SqlValue::Int(5)]);
    assert_eq!(get_map_list().sql, "SELECT map_id, map_name, display_order, created_at FROM map_info ORDER BY display_order ASC;");
    assert_eq!(get_map_nodes(5).params, vec![SqlValue::Int(5)]);
    assert_eq!(get_map_edges(5).sql, "SELECT map_id, edge_id, source_node_id, target_node_id, edge_label FROM map_edge WHERE map_id = ?1");
    assert_eq!(get_map_layouts(5).sql, "SELECT map_id, node_id, x_value, y_value FROM map_layout WHERE map_id = $1");
    assert_eq!(delete_map_info(5).sql, "DELETE FROM map_info WHERE map_id = ?1;");
    let m = sample_map();
    assert_eq!(delete_map_node(&m.nodes[1]).params, vec![SqlValue::Int(7), text("n2")]);
    assert_eq!(delete_map_edge(&m.edges[0]).params, vec![SqlValue::Int(7), text("e1")]);
    assert_eq!(delete_map_layout(&m.layouts[0]).sql, "DELETE FROM map_layout WHERE map_id = ?1 AND node_id = ?2;");
    assert_eq!(insert_map_info(&info(1)).params[1], text("office"));
}

fn user_host(id: &str) -> UserHost {
    UserHost {
        host_id: s(id),
        ip_addr: s("10.0.0.9"),
        host_name: s("nas"),
        mac_addr: s("00:11"),
        vendor_name: s("acme"),
        os_name: s("bsd"),
        os_cpe: s("cpe:/o:bsd"),
        valid_flag: true,
    }
}

fn user_service(id: &str, port: u16) -> UserService {
    UserService {
        host_id: s(id),
        port,
        protocol: s("tcp"),
        service_name: s("smb"),
        service_description: s("share"),
        service_cpe: s(""),
    }
}

#[test]
fn saving_user_data_replaces_every_part() {
    let data = UserProbeData {
        host_id: s("h1"),
        host: user_host("h1"),
        services: vec![user_service("h1", 445)],
        groups: vec![s("g1"), s("g2")],
        tags: vec![s("t1")],
    };
    let batch = save_user_probe_data(&data);
    assert_eq!(batch.mode, BatchMode::Direct);
    let sqls: Vec<&str> = batch.statements.iter().map(|st| st.sql.as_str()).collect();
    assert_eq!(
        sqls,
        vec![
            USER_HOST_DELETE_SQL,
            USER_HOST_INSERT_SQL,
            USER_SERVICE_DELETE_SQL,
            USER_SERVICE_INSERT_SQL,
            USER_GROUP_DELETE_SQL,
            USER_GROUP_INSERT_SQL,
            USER_GROUP_DELETE_SQL,
            USER_GROUP_INSERT_SQL,
            USER_TAG_DELETE_SQL,
            USER_TAG_INSERT_SQL,
        ]
    );
    assert_eq!(batch.statements[1].params[7], SqlValue::Int(1));
    assert_eq!(batch.statements[3].params[1], SqlValue::Int(445));
    assert_eq!(batch.statements[6].params, vec![text("h1"), text("g2")]);
    assert_eq!(batch.statements[9].params, vec![text("h1"), text("t1")]);
}

#[test]
fn user_reads() {
    assert!(get_user_probe_data().sql.ends_with("WHERE valid_flag = 1;"));
    assert_eq!(get_valid_user_hosts().sql, get_user_probe_data().sql);
    assert!(get_user_hosts().sql.ends_with("FROM user_host;"));
    assert_eq!(user_services_query(&s("h1")).params, vec![text("h1")]);
    assert_eq!(user_groups_query(&s("h1")).sql, "SELECT group_id FROM user_host_group WHERE host_id = ?1;");
    assert_eq!(user_tags_query(&s("h1")).sql, "SELECT tag_id FROM user_host_tag WHERE host_id = ?1;");
    let d = user_probe_data(user_host("h2"), vec![user_service("h2", 22)], vec![s("g")], vec![]);
    assert_eq!(d.host_id, "h2");
    assert_eq!(d.services.len(), 1);
    assert_eq!(d.groups, vec![s("g")]);
}

#[test]
fn reads_after_map_query() {
    assert!(map_part_queries(&None, 4).is_empty());
    let reads = map_part_queries(&Some(info(4)), 4);
    assert_eq!(reads, vec![get_map_nodes(4), get_map_edges(4), get_map_layouts(4)]);
}

#[test]
fn reads_for_each_user_host() {
    let reads = user_host_reads(&s("h9"));
    assert_eq!(
        reads,
        vec![user_services_query(&s("h9")), user_groups_query(&s("h9")), user_tags_query(&s("h9"))]
    );
}

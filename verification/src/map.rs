use vstd::prelude::*;
use crate::batch::{Batch, BatchMode};
use crate::models::{MapData, MapEdge, MapInfo, MapLayout, MapNode};
use crate::sql::{
    lemma_statements_view_push, statement, statements_view, text, text_value, SqlValue, SqlValueView, Statement,
    StatementView,
};

verus! {

pub const MAP_LIST_SQL: &'static str = "SELECT map_id, map_name, display_order, created_at FROM map_info ORDER BY display_order ASC;";
pub const MAP_INFO_SQL: &'static str = "SELECT map_id, map_name, display_order, created_at FROM map_info WHERE map_id = ?1;";
pub const INSERT_MAP_INFO_SQL: &'static str = "INSERT INTO map_info (map_id, map_name, display_order, created_at) \n        VALUES (?1,?2,?3,datetime(CURRENT_TIMESTAMP, 'localtime'));";
pub const DELETE_MAP_INFO_SQL: &'static str = "DELETE FROM map_info WHERE map_id = ?1;";
pub const INSERT_MAP_NODE_SQL: &'static str = "INSERT INTO map_node (map_id, node_id, node_name, ip_addr, host_name) \n        VALUES (?1,?2,?3,?4,?5);";
pub const DELETE_MAP_NODE_SQL: &'static str = "DELETE FROM map_node WHERE map_id = ?1 AND node_id = ?2;";
pub const DELETE_MAP_NODES_SQL: &'static str = "DELETE FROM map_node WHERE map_id = ?1;";
pub const INSERT_MAP_EDGE_SQL: &'static str = "INSERT INTO map_edge (map_id, edge_id, source_node_id, target_node_id, edge_label) \n        VALUES (?1,?2,?3,?4,?5);";
pub const DELETE_MAP_EDGE_SQL: &'static str = "DELETE FROM map_edge WHERE map_id = ?1 AND edge_id = ?2;";
pub const DELETE_MAP_EDGES_SQL: &'static str = "DELETE FROM map_edge WHERE map_id = ?1;";
pub const INSERT_MAP_LAYOUT_SQL: &'static str = "INSERT INTO map_layout (map_id, node_id, x_value, y_value) \n        VALUES (?1,?2,?3,?4);";
pub const DELETE_MAP_LAYOUT_SQL: &'static str = "DELETE FROM map_layout WHERE map_id = ?1 AND node_id = ?2;";
pub const DELETE_MAP_LAYOUTS_SQL: &'static str = "DELETE FROM map_layout WHERE map_id = ?1;";
pub const MAP_NODES_SQL: &'static str = "SELECT map_id, node_id, node_name, ip_addr, host_name FROM map_node WHERE map_id = ?1;";
pub const MAP_EDGES_SQL: &'static str = "SELECT map_id, edge_id, source_node_id, target_node_id, edge_label FROM map_edge WHERE map_id = ?1";
pub const MAP_LAYOUTS_SQL: &'static str = "SELECT map_id, node_id, x_value, y_value FROM map_layout WHERE map_id = $1";

/// A statement whose only parameter is a map id.
pub open spec fn by_map_id(sql: Seq<char>, map_id: u32) -> StatementView {
    StatementView { sql, params: seq![SqlValueView::Int(map_id as i64)] }
}

/// A statement whose parameters are a map id and the id of an item of it.
pub open spec fn by_map_item(sql: Seq<char>, map_id: u32, item: Seq<char>) -> StatementView {
    StatementView { sql, params: seq![SqlValueView::Int(map_id as i64), text(item)] }
}

fn map_id_statement(sql: &'static str, map_id: u32) -> (st: Statement)
    ensures
        st@ == by_map_id(sql@, map_id),
{
    let st = statement(sql, vec![SqlValue::Int(map_id as i64)]);
    assert(st@.params =~= by_map_id(sql@, map_id).params);
    st
}

fn map_item_statement(sql: &'static str, map_id: u32, item: &String) -> (st: Statement)
    ensures
        st@ == by_map_item(sql@, map_id, item@),
{
    let st = statement(sql, vec![SqlValue::Int(map_id as i64), text_value(item)]);
    assert(st@.params =~= by_map_item(sql@, map_id, item@).params);
    st
}

// ---------------------------------------------------------------- reading maps

/// All maps, in display order.
pub fn get_map_list() -> (st: Statement)
    ensures
        st@.sql == MAP_LIST_SQL@,
        st@.params.len() == 0,
{
    statement(MAP_LIST_SQL, Vec::new())
}

/// The map with the given id.
pub fn map_info_query(map_id: u32) -> (st: Statement)
    ensures
        st@ == by_map_id(MAP_INFO_SQL@, map_id),
{
    map_id_statement(MAP_INFO_SQL, map_id)
}

/// The first row that could be read, skipping rows that failed.
pub open spec fn first_ok<E>(rows: Seq<Result<MapInfo, E>>) -> Option<MapInfo>
    decreases rows.len(),
{
    if rows.len() == 0 {
        None
    } else {
        match rows[0] {
            Ok(m) => Some(m),
            Err(_) => first_ok(rows.drop_first()),
        }
    }
}

/// The map read by the map query: its first row that could be read, if any.
pub fn get_map_info<E>(rows: Vec<Result<MapInfo, E>>) -> (info: Option<MapInfo>)
    ensures
        info == first_ok(rows@),
{
    let mut rest = rows;
    let ghost all = rest@;
    let mut skipped: usize = 0;
    let total = rest.len();
    assert(all.skip(0) =~= all);
    while rest.len() > 0
        invariant
            all == rows@,
            all.len() == total,
            skipped <= all.len(),
            rest@ == all.skip(skipped as int),
            first_ok(all) == first_ok(all.skip(skipped as int)),
        decreases rest@.len(),
    {
        assert(all.skip(skipped as int).len() == all.len() - skipped);
        let row = rest.remove(0);
        assert(all.skip(skipped as int)[0] == row);
        assert(all.skip(skipped as int).drop_first() =~= all.skip(skipped + 1));
        match row {
            Ok(m) => {
                return Some(m);
            },
            Err(_) => {},
        }
        skipped = skipped + 1;
    }
    None
}

/// The nodes of a map.
pub fn get_map_nodes(map_id: u32) -> (st: Statement)
    ensures
        st@ == by_map_id(MAP_NODES_SQL@, map_id),
{
    map_id_statement(MAP_NODES_SQL, map_id)
}

/// The edges of a map.
pub fn get_map_edges(map_id: u32) -> (st: Statement)
    ensures
        st@ == by_map_id(MAP_EDGES_SQL@, map_id),
{
    map_id_statement(MAP_EDGES_SQL, map_id)
}

/// The node positions of a map.
pub fn get_map_layouts(map_id: u32) -> (st: Statement)
    ensures
        st@ == by_map_id(MAP_LAYOUTS_SQL@, map_id),
{
    map_id_statement(MAP_LAYOUTS_SQL, map_id)
}

/// The reads that follow the map query: none when there is no map with the
/// id, else its nodes, its edges and its layouts, in that order.
pub fn map_part_queries(map_info: &Option<MapInfo>, map_id: u32) -> (reads: Vec<Statement>)
    ensures
        map_info is None ==> reads@.len() == 0,
        map_info is Some ==> statements_view(reads@) == seq![
            by_map_id(MAP_NODES_SQL@, map_id),
            by_map_id(MAP_EDGES_SQL@, map_id),
            by_map_id(MAP_LAYOUTS_SQL@, map_id),
        ],
{
    let mut reads: Vec<Statement> = Vec::new();
    if map_info.is_none() {
        return reads;
    }
    let st = get_map_nodes(map_id);
    proof { lemma_statements_view_push(reads@, st); }
    reads.push(st);
    let st = get_map_edges(map_id);
    proof { lemma_statements_view_push(reads@, st); }
    reads.push(st);
    let st = get_map_layouts(map_id);
    proof { lemma_statements_view_push(reads@, st); }
    reads.push(st);
    assert(statements_view(reads@) =~= seq![
        by_map_id(MAP_NODES_SQL@, map_id),
        by_map_id(MAP_EDGES_SQL@, map_id),
        by_map_id(MAP_LAYOUTS_SQL@, map_id),
    ]);
    reads
}

/// A whole map from what the map queries read: an empty map when there is no
/// map with the id (its nodes, edges and layouts are then not read), else the
/// map with its nodes, edges and layouts.
pub fn get_map_data(
    map_info: Option<MapInfo>,
    nodes: Vec<MapNode>,
    edges: Vec<MapEdge>,
    layouts: Vec<MapLayout>,
) -> (data: MapData)
    ensures
        map_info is None ==> data.is_empty_map(),
        map_info matches Some(info) ==> data == (MapData { map_info: info, nodes, edges, layouts }),
{
    let mut map_data = MapData::new();
    match map_info {
        Some(info) => {
            map_data.map_info = info;
        },
        None => {
            return map_data;
        },
    }
    map_data.nodes = nodes;
    map_data.edges = edges;
    map_data.layouts = layouts;
    map_data
}

// ---------------------------------------------------------------- writing maps

pub open spec fn map_info_row(m: MapInfo) -> StatementView {
    StatementView {
        sql: INSERT_MAP_INFO_SQL@,
        params: seq![
            SqlValueView::Int(m.map_id as i64),
            text(m.map_name@),
            SqlValueView::Int(m.display_order as i64),
        ],
    }
}

pub open spec fn node_row(n: MapNode) -> StatementView {
    StatementView {
        sql: INSERT_MAP_NODE_SQL@,
        params: seq![
            SqlValueView::Int(n.map_id as i64),
            text(n.node_id@),
            text(n.node_name@),
            text(n.ip_addr@),
            text(n.host_name@),
        ],
    }
}

pub open spec fn edge_row(e: MapEdge) -> StatementView {
    StatementView {
        sql: INSERT_MAP_EDGE_SQL@,
        params: seq![
            SqlValueView::Int(e.map_id as i64),
            text(e.edge_id@),
            text(e.source_node_id@),
            text(e.target_node_id@),
            text(e.edge_label@),
        ],
    }
}

pub open spec fn layout_row(l: MapLayout) -> StatementView {
    StatementView {
        sql: INSERT_MAP_LAYOUT_SQL@,
        params: seq![
            SqlValueView::Int(l.map_id as i64),
            text(l.node_id@),
            SqlValueView::RealBits(l.x_bits),
            SqlValueView::RealBits(l.y_bits),
        ],
    }
}

/// A saved node binds, in the order of the column list of the insert
/// (`map_id, node_id, node_name, ip_addr, host_name`), the node's map id, id,
/// name, address and host name.
pub proof fn law_map_node_columns(n: MapNode)
    ensures
        INSERT_MAP_NODE_SQL@.take(
            "INSERT INTO map_node (map_id, node_id, node_name, ip_addr, host_name)"@.len() as int,
        ) == "INSERT INTO map_node (map_id, node_id, node_name, ip_addr, host_name)"@,
        node_row(n).sql == INSERT_MAP_NODE_SQL@,
        node_row(n).params.len() == 5,
        node_row(n).params[0] == SqlValueView::Int(n.map_id as i64),
        node_row(n).params[1] == text(n.node_id@),
        node_row(n).params[2] == text(n.node_name@),
        node_row(n).params[3] == text(n.ip_addr@),
        node_row(n).params[4] == text(n.host_name@),
{
    reveal_strlit("INSERT INTO map_node (map_id, node_id, node_name, ip_addr, host_name) \n        VALUES (?1,?2,?3,?4,?5);");
    reveal_strlit("INSERT INTO map_node (map_id, node_id, node_name, ip_addr, host_name)");
    assert(INSERT_MAP_NODE_SQL@.take(
        "INSERT INTO map_node (map_id, node_id, node_name, ip_addr, host_name)"@.len() as int,
    ) =~= "INSERT INTO map_node (map_id, node_id, node_name, ip_addr, host_name)"@);
}

/// Records a map (its creation time is the database's current local time).
pub fn insert_map_info(model: &MapInfo) -> (st: Statement)
    ensures
        st@ == map_info_row(*model),
{
    let st = statement(
        INSERT_MAP_INFO_SQL,
        vec![
            SqlValue::Int(model.map_id as i64),
            text_value(&model.map_name),
            SqlValue::Int(model.display_order as i64),
        ],
    );
    assert(st@.params =~= map_info_row(*model).params);
    st
}

pub fn delete_map_info(map_id: u32) -> (st: Statement)
    ensures
        st@ == by_map_id(DELETE_MAP_INFO_SQL@, map_id),
{
    map_id_statement(DELETE_MAP_INFO_SQL, map_id)
}

pub fn insert_map_node(model: &MapNode) -> (st: Statement)
    ensures
        st@ == node_row(*model),
        st@.params[3] == text(model.ip_addr@),
        st@.params[4] == text(model.host_name@),
{
    let st = statement(
        INSERT_MAP_NODE_SQL,
        vec![
            SqlValue::Int(model.map_id as i64),
            text_value(&model.node_id),
            text_value(&model.node_name),
            text_value(&model.ip_addr),
            text_value(&model.host_name),
        ],
    );
    assert(st@.params =~= node_row(*model).params);
    st
}

pub fn delete_map_node(model: &MapNode) -> (st: Statement)
    ensures
        st@ == by_map_item(DELETE_MAP_NODE_SQL@, model.map_id, model.node_id@),
{
    map_item_statement(DELETE_MAP_NODE_SQL, model.map_id, &model.node_id)
}

pub fn delete_map_nodes(map_id: u32) -> (st: Statement)
    ensures
        st@ == by_map_id(DELETE_MAP_NODES_SQL@, map_id),
{
    map_id_statement(DELETE_MAP_NODES_SQL, map_id)
}

pub fn insert_map_edge(model: &MapEdge) -> (st: Statement)
    ensures
        st@ == edge_row(*model),
{
    let st = statement(
        INSERT_MAP_EDGE_SQL,
        vec![
            SqlValue::Int(model.map_id as i64),
            text_value(&model.edge_id),
            text_value(&model.source_node_id),
            text_value(&model.target_node_id),
            text_value(&model.edge_label),
        ],
    );
    assert(st@.params =~= edge_row(*model).params);
    st
}

pub fn delete_map_edge(model: &MapEdge) -> (st: Statement)
    ensures
        st@ == by_map_item(DELETE_MAP_EDGE_SQL@, model.map_id, model.edge_id@),
{
    map_item_statement(DELETE_MAP_EDGE_SQL, model.map_id, &model.edge_id)
}

pub fn delete_map_edges(map_id: u32) -> (st: Statement)
    ensures
        st@ == by_map_id(DELETE_MAP_EDGES_SQL@, map_id),
{
    map_id_statement(DELETE_MAP_EDGES_SQL, map_id)
}

pub fn insert_map_layout(model: &MapLayout) -> (st: Statement)
    ensures
        st@ == layout_row(*model),
{
    let st = statement(
        INSERT_MAP_LAYOUT_SQL,
        vec![
            SqlValue::Int(model.map_id as i64),
            text_value(&model.node_id),
            SqlValue::RealBits(model.x_bits),
            SqlValue::RealBits(model.y_bits),
        ],
    );
    assert(st@.params =~= layout_row(*model).params);
    st
}

pub fn delete_map_layout(model: &MapLayout) -> (st: Statement)
    ensures
        st@ == by_map_item(DELETE_MAP_LAYOUT_SQL@, model.map_id, model.node_id@),
{
    map_item_statement(DELETE_MAP_LAYOUT_SQL, model.map_id, &model.node_id)
}

pub fn delete_map_layouts(map_id: u32) -> (st: Statement)
    ensures
        st@ == by_map_id(DELETE_MAP_LAYOUTS_SQL@, map_id),
{
    map_id_statement(DELETE_MAP_LAYOUTS_SQL, map_id)
}

pub open spec fn node_rows(v: Seq<MapNode>) -> Seq<StatementView>
    decreases v.len(),
{
    if v.len() == 0 {
        Seq::empty()
    } else {
        node_rows(v.drop_last()).push(node_row(v.last()))
    }
}

pub open spec fn edge_rows(v: Seq<MapEdge>) -> Seq<StatementView>
    decreases v.len(),
{
    if v.len() == 0 {
        Seq::empty()
    } else {
        edge_rows(v.drop_last()).push(edge_row(v.last()))
    }
}

pub open spec fn layout_rows(v: Seq<MapLayout>) -> Seq<StatementView>
    decreases v.len(),
{
    if v.len() == 0 {
        Seq::empty()
    } else {
        layout_rows(v.drop_last()).push(layout_row(v.last()))
    }
}

/// What saving a map writes, in order: the map itself when it is new; then,
/// for its nodes, edges and layouts in turn, the deletion of all the map's
/// old rows followed by one row per new item.
pub open spec fn save_map_plan(model: MapData, map_exists: bool) -> Seq<StatementView> {
    let id = model.map_info.map_id;
    (if map_exists {
        Seq::empty()
    } else {
        seq![map_info_row(model.map_info)]
    }) + seq![by_map_id(DELETE_MAP_NODES_SQL@, id)] + node_rows(model.nodes@) + seq![
        by_map_id(DELETE_MAP_EDGES_SQL@, id),
    ] + edge_rows(model.edges@) + seq![by_map_id(DELETE_MAP_LAYOUTS_SQL@, id)] + layout_rows(
        model.layouts@,
    )
}

proof fn lemma_rows_len(nodes: Seq<MapNode>, edges: Seq<MapEdge>, layouts: Seq<MapLayout>)
    ensures
        node_rows(nodes).len() == nodes.len(),
        edge_rows(edges).len() == edges.len(),
        layout_rows(layouts).len() == layouts.len(),
    decreases nodes.len() + edges.len() + layouts.len(),
{
    if nodes.len() > 0 {
        lemma_rows_len(nodes.drop_last(), edges, layouts);
    } else if edges.len() > 0 {
        lemma_rows_len(nodes, edges.drop_last(), layouts);
    } else if layouts.len() > 0 {
        lemma_rows_len(nodes, edges, layouts.drop_last());
    }
}

/// Saving a map writes the map itself only when it is new, and always
/// replaces all of its nodes, edges and layouts: one deletion per table and
/// one insertion per item, the deletion of a table's old rows coming first.
pub proof fn law_save_map_layout(model: MapData, map_exists: bool)
    ensures
        ({
            let plan = save_map_plan(model, map_exists);
            let id = model.map_info.map_id;
            let start: int = if map_exists { 0 } else { 1 };
            let n = model.nodes@.len() as int;
            let e = model.edges@.len() as int;
            let l = model.layouts@.len() as int;
            &&& plan.len() == start + 3 + n + e + l
            &&& !map_exists ==> plan[0] == map_info_row(model.map_info)
            &&& plan[start] == by_map_id(DELETE_MAP_NODES_SQL@, id)
            &&& forall|k: int| 0 <= k < n ==> plan[start + 1 + k] == node_row(#[trigger] model.nodes@[k])
            &&& plan[start + 1 + n] == by_map_id(DELETE_MAP_EDGES_SQL@, id)
            &&& forall|k: int|
                0 <= k < e ==> plan[start + 2 + n + k] == edge_row(#[trigger] model.edges@[k])
            &&& plan[start + 2 + n + e] == by_map_id(DELETE_MAP_LAYOUTS_SQL@, id)
            &&& forall|k: int|
                0 <= k < l ==> plan[start + 3 + n + e + k] == layout_row(
                    #[trigger] model.layouts@[k],
                )
        }),
{
    lemma_rows_len(model.nodes@, model.edges@, model.layouts@);
    assert forall|k: int| 0 <= k < model.nodes@.len() implies node_rows(model.nodes@)[k] == node_row(
        #[trigger] model.nodes@[k],
    ) by {
        lemma_node_rows_index(model.nodes@, k);
    }
    assert forall|k: int| 0 <= k < model.edges@.len() implies edge_rows(model.edges@)[k] == edge_row(
        #[trigger] model.edges@[k],
    ) by {
        lemma_edge_rows_index(model.edges@, k);
    }
    assert forall|k: int|
        0 <= k < model.layouts@.len() implies layout_rows(model.layouts@)[k] == layout_row(
        #[trigger] model.layouts@[k],
    ) by {
        lemma_layout_rows_index(model.layouts@, k);
    }
}

proof fn lemma_node_rows_index(v: Seq<MapNode>, k: int)
    requires
        0 <= k < v.len(),
    ensures
        node_rows(v).len() == v.len(),
        node_rows(v)[k] == node_row(v[k]),
    decreases v.len(),
{
    lemma_rows_len(v, Seq::empty(), Seq::empty());
    if k < v.len() - 1 {
        lemma_node_rows_index(v.drop_last(), k);
    }
}

proof fn lemma_edge_rows_index(v: Seq<MapEdge>, k: int)
    requires
        0 <= k < v.len(),
    ensures
        edge_rows(v).len() == v.len(),
        edge_rows(v)[k] == edge_row(v[k]),
    decreases v.len(),
{
    lemma_rows_len(Seq::empty(), v, Seq::empty());
    if k < v.len() - 1 {
        lemma_edge_rows_index(v.drop_last(), k);
    }
}

proof fn lemma_layout_rows_index(v: Seq<MapLayout>, k: int)
    requires
        0 <= k < v.len(),
    ensures
        layout_rows(v).len() == v.len(),
        layout_rows(v)[k] == layout_row(v[k]),
    decreases v.len(),
{
    lemma_rows_len(Seq::empty(), Seq::empty(), v);
    if k < v.len() - 1 {
        lemma_layout_rows_index(v.drop_last(), k);
    }
}

/// The statements that save a map, run in one transaction; `map_exists`
/// tells whether the map query found the map already.
pub fn save_map_data(model: &MapData, map_exists: bool) -> (batch: Batch)
    ensures
        batch.mode is Transaction,
        statements_view(batch.statements@) == save_map_plan(*model, map_exists),
{
    let map_id = model.map_info.map_id;
    let mut plan: Vec<Statement> = Vec::new();
    if !map_exists {
        let st = insert_map_info(&model.map_info);
        proof { lemma_statements_view_push(plan@, st); }
        plan.push(st);
    }
    let st = delete_map_nodes(map_id);
    proof { lemma_statements_view_push(plan@, st); }
    plan.push(st);
    let ghost head = statements_view(plan@);
    let n = model.nodes.len();
    for i in 0..n
        invariant
            n == model.nodes@.len(),
            statements_view(plan@) == head + node_rows(model.nodes@.take(i as int)),
    {
        let st = insert_map_node(&model.nodes[i]);
        proof {
            lemma_statements_view_push(plan@, st);
            assert(model.nodes@.take(i + 1).drop_last() =~= model.nodes@.take(i as int));
        }
        plan.push(st);
    }
    assert(model.nodes@.take(n as int) =~= model.nodes@);
    let st = delete_map_edges(map_id);
    proof { lemma_statements_view_push(plan@, st); }
    plan.push(st);
    let ghost head = statements_view(plan@);
    let n = model.edges.len();
    for i in 0..n
        invariant
            n == model.edges@.len(),
            statements_view(plan@) == head + edge_rows(model.edges@.take(i as int)),
    {
        let st = insert_map_edge(&model.edges[i]);
        proof {
            lemma_statements_view_push(plan@, st);
            assert(model.edges@.take(i + 1).drop_last() =~= model.edges@.take(i as int));
        }
        plan.push(st);
    }
    assert(model.edges@.take(n as int) =~= model.edges@);
    let st = delete_map_layouts(map_id);
    proof { lemma_statements_view_push(plan@, st); }
    plan.push(st);
    let ghost head = statements_view(plan@);
    let n = model.layouts.len();
    for i in 0..n
        invariant
            n == model.layouts@.len(),
            statements_view(plan@) == head + layout_rows(model.layouts@.take(i as int)),
    {
        let st = insert_map_layout(&model.layouts[i]);
        proof {
            lemma_statements_view_push(plan@, st);
            assert(model.layouts@.take(i + 1).drop_last() =~= model.layouts@.take(i as int));
        }
        plan.push(st);
    }
    assert(model.layouts@.take(n as int) =~= model.layouts@);
    assert(statements_view(plan@) =~= save_map_plan(*model, map_exists));
    Batch { statements: plan, mode: BatchMode::Transaction }
}

} // verus!

use vstd::prelude::*;
use crate::batch::{Batch, BatchMode};
use crate::models::{UserHost, UserHostGroup, UserHostTag, UserProbeData, UserService};
use crate::sql::{
    lemma_statements_view_push, statement, statements_view, text, text_value, SqlValue, SqlValueView, Statement,
    StatementView,
};

verus! {

pub const VALID_USER_HOSTS_SQL: &'static str = "SELECT host_id, ip_addr, host_name, mac_addr, vendor_name, os_name, os_cpe, valid_flag FROM user_host WHERE valid_flag = 1;";
pub const USER_SERVICES_SQL: &'static str = "SELECT host_id, port, protocol, service_name, service_description, service_cpe FROM user_service WHERE host_id = ?1;";
pub const USER_GROUPS_SQL: &'static str = "SELECT group_id FROM user_host_group WHERE host_id = ?1;";
pub const USER_TAGS_SQL: &'static str = "SELECT tag_id FROM user_host_tag WHERE host_id = ?1;";
pub const USER_HOSTS_SQL: &'static str = "SELECT host_id, ip_addr, host_name, mac_addr, vendor_name, os_name, os_cpe, valid_flag FROM user_host;";
pub const USER_HOST_DELETE_SQL: &'static str = "DELETE FROM user_host WHERE host_id = ?1;";
pub const USER_HOST_INSERT_SQL: &'static str = "INSERT INTO user_host (host_id, ip_addr, host_name, mac_addr, vendor_name, os_name, os_cpe, valid_flag) VALUES (?1,?2,?3,?4,?5,?6,?7,?8);";
pub const USER_SERVICE_DELETE_SQL: &'static str = "DELETE FROM user_service WHERE host_id = ?1;";
pub const USER_SERVICE_INSERT_SQL: &'static str = "INSERT INTO user_service (host_id, port, protocol, service_name, service_description, service_cpe) VALUES (?1,?2,?3,?4,?5,?6);";
pub const USER_GROUP_DELETE_SQL: &'static str = "DELETE FROM user_host_group WHERE host_id = ?1 AND group_id = ?2;";
pub const USER_GROUP_INSERT_SQL: &'static str = "INSERT INTO user_host_group (host_id, group_id) VALUES (?1,?2);";
pub const USER_TAG_DELETE_SQL: &'static str = "DELETE FROM user_host_tag WHERE host_id = ?1 AND tag_id = ?2;";
pub const USER_TAG_INSERT_SQL: &'static str = "INSERT INTO user_host_tag (host_id, tag_id) VALUES (?1,?2);";

/// A statement whose only parameter is a host id.
pub open spec fn by_host(sql: Seq<char>, host_id: Seq<char>) -> StatementView {
    StatementView { sql, params: seq![text(host_id)] }
}

/// A statement whose parameters are a host id and a group or tag id.
pub open spec fn by_host_pair(sql: Seq<char>, host_id: Seq<char>, other: Seq<char>) -> StatementView {
    StatementView { sql, params: seq![text(host_id), text(other)] }
}

fn host_statement(sql: &'static str, host_id: &String) -> (st: Statement)
    ensures
        st@ == by_host(sql@, host_id@),
{
    let st = statement(sql, vec![text_value(host_id)]);
    assert(st@.params =~= by_host(sql@, host_id@).params);
    st
}

fn host_pair_statement(sql: &'static str, host_id: &String, other: &String) -> (st: Statement)
    ensures
        st@ == by_host_pair(sql@, host_id@, other@),
{
    let st = statement(sql, vec![text_value(host_id), text_value(other)]);
    assert(st@.params =~= by_host_pair(sql@, host_id@, other@).params);
    st
}

pub open spec fn user_host_row(h: UserHost) -> StatementView {
    StatementView {
        sql: USER_HOST_INSERT_SQL@,
        params: seq![
            text(h.host_id@),
            text(h.ip_addr@),
            text(h.host_name@),
            text(h.mac_addr@),
            text(h.vendor_name@),
            text(h.os_name@),
            text(h.os_cpe@),
            SqlValueView::Int(if h.valid_flag { 1 } else { 0 }),
        ],
    }
}

pub open spec fn user_service_row(s: UserService) -> StatementView {
    StatementView {
        sql: USER_SERVICE_INSERT_SQL@,
        params: seq![
            text(s.host_id@),
            SqlValueView::Int(s.port as i64),
            text(s.protocol@),
            text(s.service_name@),
            text(s.service_description@),
            text(s.service_cpe@),
        ],
    }
}

impl UserHost {
    /// Records the host.
    pub fn insert(&self) -> (st: Statement)
        ensures
            st@ == user_host_row(*self),
    {
        let flag: i64 = if self.valid_flag { 1 } else { 0 };
        let st = statement(
            USER_HOST_INSERT_SQL,
            vec![
                text_value(&self.host_id),
                text_value(&self.ip_addr),
                text_value(&self.host_name),
                text_value(&self.mac_addr),
                text_value(&self.vendor_name),
                text_value(&self.os_name),
                text_value(&self.os_cpe),
                SqlValue::Int(flag),
            ],
        );
        assert(st@.params =~= user_host_row(*self).params);
        st
    }

    /// Removes the host's record.
    pub fn delete(&self) -> (st: Statement)
        ensures
            st@ == by_host(USER_HOST_DELETE_SQL@, self.host_id@),
    {
        host_statement(USER_HOST_DELETE_SQL, &self.host_id)
    }
}

impl UserService {
    /// Records the service.
    pub fn insert(&self) -> (st: Statement)
        ensures
            st@ == user_service_row(*self),
    {
        let st = statement(
            USER_SERVICE_INSERT_SQL,
            vec![
                text_value(&self.host_id),
                SqlValue::Int(self.port as i64),
                text_value(&self.protocol),
                text_value(&self.service_name),
                text_value(&self.service_description),
                text_value(&self.service_cpe),
            ],
        );
        assert(st@.params =~= user_service_row(*self).params);
        st
    }

    /// Removes every service recorded for a host.
    pub fn delete_by_host_id(host_id: &String) -> (st: Statement)
        ensures
            st@ == by_host(USER_SERVICE_DELETE_SQL@, host_id@),
    {
        host_statement(USER_SERVICE_DELETE_SQL, host_id)
    }
}

impl UserHostGroup {
    pub fn insert(&self) -> (st: Statement)
        ensures
            st@ == by_host_pair(USER_GROUP_INSERT_SQL@, self.host_id@, self.group_id@),
    {
        host_pair_statement(USER_GROUP_INSERT_SQL, &self.host_id, &self.group_id)
    }

    pub fn delete(&self) -> (st: Statement)
        ensures
            st@ == by_host_pair(USER_GROUP_DELETE_SQL@, self.host_id@, self.group_id@),
    {
        host_pair_statement(USER_GROUP_DELETE_SQL, &self.host_id, &self.group_id)
    }
}

impl UserHostTag {
    pub fn insert(&self) -> (st: Statement)
        ensures
            st@ == by_host_pair(USER_TAG_INSERT_SQL@, self.host_id@, self.tag_id@),
    {
        host_pair_statement(USER_TAG_INSERT_SQL, &self.host_id, &self.tag_id)
    }

    pub fn delete(&self) -> (st: Statement)
        ensures
            st@ == by_host_pair(USER_TAG_DELETE_SQL@, self.host_id@, self.tag_id@),
    {
        host_pair_statement(USER_TAG_DELETE_SQL, &self.host_id, &self.tag_id)
    }
}

pub open spec fn service_rows(v: Seq<UserService>) -> Seq<StatementView>
    decreases v.len(),
{
    if v.len() == 0 {
        Seq::empty()
    } else {
        service_rows(v.drop_last()).push(user_service_row(v.last()))
    }
}

/// For each id, the deletion of the host's link to it, then the link itself.
pub open spec fn relink_rows(
    delete_sql: Seq<char>,
    insert_sql: Seq<char>,
    host_id: Seq<char>,
    ids: Seq<String>,
) -> Seq<StatementView>
    decreases ids.len(),
{
    if ids.len() == 0 {
        Seq::empty()
    } else {
        relink_rows(delete_sql, insert_sql, host_id, ids.drop_last()).push(
            by_host_pair(delete_sql, host_id, ids.last()@),
        ).push(by_host_pair(insert_sql, host_id, ids.last()@))
    }
}

/// What saving a registered host writes, in order: its record replaced, all
/// its services deleted and the given ones recorded, and each of its groups
/// and tags unlinked and linked again.
pub open spec fn save_user_plan(d: UserProbeData) -> Seq<StatementView> {
    seq![
        by_host(USER_HOST_DELETE_SQL@, d.host.host_id@),
        user_host_row(d.host),
        by_host(USER_SERVICE_DELETE_SQL@, d.host_id@),
    ] + service_rows(d.services@) + relink_rows(
        USER_GROUP_DELETE_SQL@,
        USER_GROUP_INSERT_SQL@,
        d.host_id@,
        d.groups@,
    ) + relink_rows(USER_TAG_DELETE_SQL@, USER_TAG_INSERT_SQL@, d.host_id@, d.tags@)
}

/// The statements that save a registered host, run one after the other
/// inside the caller's transaction.
pub fn save_user_probe_data(user_data: &UserProbeData) -> (batch: Batch)
    ensures
        batch.mode is Direct,
        statements_view(batch.statements@) == save_user_plan(*user_data),
{
    let mut plan: Vec<Statement> = Vec::new();
    let st = user_data.host.delete();
    proof { lemma_statements_view_push(plan@, st); }
    plan.push(st);
    let st = user_data.host.insert();
    proof { lemma_statements_view_push(plan@, st); }
    plan.push(st);
    let st = UserService::delete_by_host_id(&user_data.host_id);
    proof { lemma_statements_view_push(plan@, st); }
    plan.push(st);
    let ghost head = statements_view(plan@);
    let n = user_data.services.len();
    for i in 0..n
        invariant
            n == user_data.services@.len(),
            statements_view(plan@) == head + service_rows(user_data.services@.take(i as int)),
    {
        let st = user_data.services[i].insert();
        proof {
            lemma_statements_view_push(plan@, st);
            assert(user_data.services@.take(i + 1).drop_last() =~= user_data.services@.take(
                i as int,
            ));
        }
        plan.push(st);
    }
    assert(user_data.services@.take(n as int) =~= user_data.services@);
    let ghost head = statements_view(plan@);
    let n = user_data.groups.len();
    for i in 0..n
        invariant
            n == user_data.groups@.len(),
            statements_view(plan@) == head + relink_rows(
                USER_GROUP_DELETE_SQL@,
                USER_GROUP_INSERT_SQL@,
                user_data.host_id@,
                user_data.groups@.take(i as int),
            ),
    {
        let host_group = UserHostGroup {
            host_id: user_data.host_id.clone(),
            group_id: user_data.groups[i].clone(),
        };
        let del = host_group.delete();
        let ins = host_group.insert();
        proof {
            lemma_statements_view_push(plan@, del);
            lemma_statements_view_push(plan@.push(del), ins);
            assert(user_data.groups@.take(i + 1).drop_last() =~= user_data.groups@.take(i as int));
        }
        plan.push(del);
        plan.push(ins);
    }
    assert(user_data.groups@.take(n as int) =~= user_data.groups@);
    let ghost head = statements_view(plan@);
    let n = user_data.tags.len();
    for i in 0..n
        invariant
            n == user_data.tags@.len(),
            statements_view(plan@) == head + relink_rows(
                USER_TAG_DELETE_SQL@,
                USER_TAG_INSERT_SQL@,
                user_data.host_id@,
                user_data.tags@.take(i as int),
            ),
    {
        let host_tag = UserHostTag {
            host_id: user_data.host_id.clone(),
            tag_id: user_data.tags[i].clone(),
        };
        let del = host_tag.delete();
        let ins = host_tag.insert();
        proof {
            lemma_statements_view_push(plan@, del);
            lemma_statements_view_push(plan@.push(del), ins);
            assert(user_data.tags@.take(i + 1).drop_last() =~= user_data.tags@.take(i as int));
        }
        plan.push(del);
        plan.push(ins);
    }
    assert(user_data.tags@.take(n as int) =~= user_data.tags@);
    assert(statements_view(plan@) =~= save_user_plan(*user_data));
    Batch { statements: plan, mode: BatchMode::Direct }
}

// ---------------------------------------------------------------- reading registered hosts

/// The registered hosts that are enabled: the first query of reading the
/// registered hosts with their services, groups and tags.
pub fn get_user_probe_data() -> (st: Statement)
    ensures
        st@.sql == VALID_USER_HOSTS_SQL@,
        st@.params.len() == 0,
{
    statement(VALID_USER_HOSTS_SQL, Vec::new())
}

/// The services of a registered host.
pub fn user_services_query(host_id: &String) -> (st: Statement)
    ensures
        st@ == by_host(USER_SERVICES_SQL@, host_id@),
{
    host_statement(USER_SERVICES_SQL, host_id)
}

/// The groups of a registered host.
pub fn user_groups_query(host_id: &String) -> (st: Statement)
    ensures
        st@ == by_host(USER_GROUPS_SQL@, host_id@),
{
    host_statement(USER_GROUPS_SQL, host_id)
}

/// The tags of a registered host.
pub fn user_tags_query(host_id: &String) -> (st: Statement)
    ensures
        st@ == by_host(USER_TAGS_SQL@, host_id@),
{
    host_statement(USER_TAGS_SQL, host_id)
}

/// The reads made for each registered host, in order: its services, its
/// groups, its tags.
pub fn user_host_reads(host_id: &String) -> (reads: Vec<Statement>)
    ensures
        statements_view(reads@) == seq![
            by_host(USER_SERVICES_SQL@, host_id@),
            by_host(USER_GROUPS_SQL@, host_id@),
            by_host(USER_TAGS_SQL@, host_id@),
        ],
{
    let mut reads: Vec<Statement> = Vec::new();
    let st = user_services_query(host_id);
    proof { lemma_statements_view_push(reads@, st); }
    reads.push(st);
    let st = user_groups_query(host_id);
    proof { lemma_statements_view_push(reads@, st); }
    reads.push(st);
    let st = user_tags_query(host_id);
    proof { lemma_statements_view_push(reads@, st); }
    reads.push(st);
    assert(statements_view(reads@) =~= seq![
        by_host(USER_SERVICES_SQL@, host_id@),
        by_host(USER_GROUPS_SQL@, host_id@),
        by_host(USER_TAGS_SQL@, host_id@),
    ]);
    reads
}

/// A registered host with what the three reads of `user_host_reads` on its
/// id give, in that order.
pub fn user_probe_data(
    host: UserHost,
    services: Vec<UserService>,
    groups: Vec<String>,
    tags: Vec<String>,
) -> (d: UserProbeData)
    ensures
        d.host_id@ == host.host_id@,
        d.host == host,
        d.services == services,
        d.groups == groups,
        d.tags == tags,
{
    let mut data = UserProbeData::new();
    data.host_id = host.host_id.clone();
    data.host = host;
    data.services = services;
    data.groups = groups;
    data.tags = tags;
    data
}

/// All registered hosts.
pub fn get_user_hosts() -> (st: Statement)
    ensures
        st@.sql == USER_HOSTS_SQL@,
        st@.params.len() == 0,
{
    statement(USER_HOSTS_SQL, Vec::new())
}

/// The registered hosts that are enabled.
pub fn get_valid_user_hosts() -> (st: Statement)
    ensures
        st@.sql == VALID_USER_HOSTS_SQL@,
        st@.params.len() == 0,
{
    statement(VALID_USER_HOSTS_SQL, Vec::new())
}

} // verus!

//! The laws of the config adapter, proved over its document models.
//!
//! Every public lemma here states a guarantee of the adapter that spans more
//! than one operation: enabling twice changes nothing further, enabling makes
//! `is_enabled` true, disabling makes it false, disabling what is absent
//! changes nothing, and an enable or disable touches nothing but the server's
//! own entry.

use vstd::prelude::*;
use crate::jsondoc::{JsonData, obj_map_of};
use crate::tomldoc::{TomlData, table_map_of};
use crate::mcp::config::{
    json_servers_map, json_entry_model, json_enable_model, json_disable_model, json_has_server,
    toml_servers_map, toml_enable_model, toml_disable_model, toml_has_server,
};
use crate::mcp::servers::McpServer;
use crate::mcp::targets::{ConfigMethod, McpTarget, effective_server_name, method_servers_key};
use crate::mcp::actions::{
    ServerStatus, spec_status, json_enable_step, json_enable_fold, toml_enable_step,
    toml_enable_fold,
};

verus! {

/// Enabling a server twice gives exactly the document of enabling it once:
/// the second write replaces the entry with the same launch descriptor.
pub proof fn lemma_enable_idempotent_json(
    doc: JsonData,
    skey: Seq<char>,
    name: Seq<char>,
    args: Seq<Seq<char>>,
    type_value: Option<Seq<char>>,
    include_tools_field: bool,
)
    ensures
        json_enable_model(
            json_enable_model(doc, skey, name, args, type_value, include_tools_field),
            skey,
            name,
            args,
            type_value,
            include_tools_field,
        ) == json_enable_model(doc, skey, name, args, type_value, include_tools_field),
{
    let top = obj_map_of(doc);
    let sm = json_servers_map(top, skey);
    let e = json_entry_model(args, type_value, include_tools_field);
    let top1 = top.insert(skey, JsonData::Obj(sm.insert(name, e)));
    assert(json_servers_map(top1, skey) == sm.insert(name, e));
    assert(sm.insert(name, e).insert(name, e) =~= sm.insert(name, e));
    assert(top1.insert(skey, JsonData::Obj(sm.insert(name, e))) =~= top1);
}

/// Enabling a server twice gives exactly the document of enabling it once,
/// in the text-table format: the second write replaces the entry with the
/// same launch descriptor.
pub proof fn lemma_enable_idempotent_toml(
    top: Map<Seq<char>, TomlData>,
    id: Seq<char>,
    args: Seq<Seq<char>>,
)
    ensures
        toml_enable_model(toml_enable_model(top, id, args), id, args) == toml_enable_model(
            top,
            id,
            args,
        ),
{
    let servers0 = toml_servers_map(top);
    let entry = Map::<Seq<char>, TomlData>::empty().insert(
        "command"@,
        TomlData::Str("npx"@),
    ).insert("args"@, TomlData::StrArr(args));
    let servers1 = servers0.insert(id, TomlData::Table(entry));
    let top1 = top.insert("mcp_servers"@, TomlData::Table(servers1));
    assert(toml_servers_map(top1) == servers1);
    assert(servers1.insert(id, TomlData::Table(entry)) =~= servers1);
    assert(top1.insert("mcp_servers"@, TomlData::Table(servers1)) =~= top1);
}

/// After enabling a server, it reads as enabled.
pub proof fn lemma_enable_then_enabled_json(
    doc: JsonData,
    skey: Seq<char>,
    name: Seq<char>,
    args: Seq<Seq<char>>,
    type_value: Option<Seq<char>>,
    include_tools_field: bool,
)
    ensures
        json_has_server(
            json_enable_model(doc, skey, name, args, type_value, include_tools_field),
            skey,
            name,
        ),
{
}

/// After enabling a server, it reads as enabled, in the text-table format.
pub proof fn lemma_enable_then_enabled_toml(
    top: Map<Seq<char>, TomlData>,
    id: Seq<char>,
    args: Seq<Seq<char>>,
)
    ensures
        toml_has_server(toml_enable_model(top, id, args), id),
{
}

/// After disabling a server, it reads as disabled.
pub proof fn lemma_disable_then_disabled_json(doc: JsonData, skey: Seq<char>, name: Seq<char>)
    ensures
        !json_has_server(json_disable_model(doc, skey, name), skey, name),
{
}

/// After disabling a server, it reads as disabled, in the text-table format.
pub proof fn lemma_disable_then_disabled_toml(top: Map<Seq<char>, TomlData>, id: Seq<char>)
    ensures
        !toml_has_server(toml_disable_model(top, id), id),
{
}

/// Disabling a server that is not configured leaves the document exactly as
/// it was (and a missing file is left missing by `disable_server` itself).
pub proof fn lemma_disable_absent_noop_json(doc: JsonData, skey: Seq<char>, name: Seq<char>)
    requires
        !json_has_server(doc, skey, name),
    ensures
        json_disable_model(doc, skey, name) == doc,
{
    match doc {
        JsonData::Obj(top) => {
            if top.contains_key(skey) && top[skey] is Obj {
                let sm = obj_map_of(top[skey]);
                assert(sm.remove(name) =~= sm);
                assert(top[skey] == JsonData::Obj(sm));
                assert(top.insert(skey, JsonData::Obj(sm)) =~= top);
            }
        },
        _ => {},
    }
}

/// Disabling a server that is not configured leaves the document exactly as
/// it was, in the text-table format.
pub proof fn lemma_disable_absent_noop_toml(top: Map<Seq<char>, TomlData>, id: Seq<char>)
    requires
        !toml_has_server(top, id),
    ensures
        toml_disable_model(top, id) == top,
{
    if top.contains_key("mcp_servers"@) && top["mcp_servers"@] is Table {
        let sm = table_map_of(top["mcp_servers"@]);
        assert(sm.remove(id) =~= sm);
        assert(top["mcp_servers"@] == TomlData::Table(sm));
        assert(top.insert("mcp_servers"@, TomlData::Table(sm)) =~= top);
    }
}

/// Enabling a server touches nothing else: every unrelated top-level key and
/// every sibling server entry survives with exactly its old value.
pub proof fn lemma_enable_isolation_json(
    doc: JsonData,
    skey: Seq<char>,
    name: Seq<char>,
    args: Seq<Seq<char>>,
    type_value: Option<Seq<char>>,
    include_tools_field: bool,
    k: Seq<char>,
    n: Seq<char>,
)
    requires
        k != skey,
        n != name,
    ensures
        ({
            let d1 = json_enable_model(doc, skey, name, args, type_value, include_tools_field);
            &&& obj_map_of(d1).contains_key(k) == obj_map_of(doc).contains_key(k)
            &&& (obj_map_of(doc).contains_key(k) ==> obj_map_of(d1)[k] == obj_map_of(doc)[k])
            &&& json_servers_map(obj_map_of(d1), skey).contains_key(n) == json_servers_map(
                obj_map_of(doc),
                skey,
            ).contains_key(n)
            &&& (json_servers_map(obj_map_of(doc), skey).contains_key(n) ==> json_servers_map(
                obj_map_of(d1),
                skey,
            )[n] == json_servers_map(obj_map_of(doc), skey)[n])
        }),
{
}

/// Disabling a server touches nothing else: every unrelated top-level key and
/// every sibling server entry survives with exactly its old value.
pub proof fn lemma_disable_isolation_json(
    doc: JsonData,
    skey: Seq<char>,
    name: Seq<char>,
    k: Seq<char>,
    n: Seq<char>,
)
    requires
        k != skey,
        n != name,
    ensures
        ({
            let d1 = json_disable_model(doc, skey, name);
            &&& obj_map_of(d1).contains_key(k) == obj_map_of(doc).contains_key(k)
            &&& (obj_map_of(doc).contains_key(k) ==> obj_map_of(d1)[k] == obj_map_of(doc)[k])
            &&& json_servers_map(obj_map_of(d1), skey).contains_key(n) == json_servers_map(
                obj_map_of(doc),
                skey,
            ).contains_key(n)
            &&& (json_servers_map(obj_map_of(doc), skey).contains_key(n) ==> json_servers_map(
                obj_map_of(d1),
                skey,
            )[n] == json_servers_map(obj_map_of(doc), skey)[n])
        }),
{
}

/// Enabling a server touches nothing else, in the text-table format.
pub proof fn lemma_enable_isolation_toml(
    top: Map<Seq<char>, TomlData>,
    id: Seq<char>,
    args: Seq<Seq<char>>,
    k: Seq<char>,
    n: Seq<char>,
)
    requires
        k != "mcp_servers"@,
        n != id,
    ensures
        ({
            let t1 = toml_enable_model(top, id, args);
            &&& t1.contains_key(k) == top.contains_key(k)
            &&& (top.contains_key(k) ==> t1[k] == top[k])
            &&& toml_servers_map(t1).contains_key(n) == toml_servers_map(top).contains_key(n)
            &&& (toml_servers_map(top).contains_key(n) ==> toml_servers_map(t1)[n]
                == toml_servers_map(top)[n])
        }),
{
}

/// Disabling a server touches nothing else, in the text-table format.
pub proof fn lemma_disable_isolation_toml(
    top: Map<Seq<char>, TomlData>,
    id: Seq<char>,
    k: Seq<char>,
    n: Seq<char>,
)
    requires
        k != "mcp_servers"@,
        n != id,
    ensures
        ({
            let t1 = toml_disable_model(top, id);
            &&& t1.contains_key(k) == top.contains_key(k)
            &&& (top.contains_key(k) ==> t1[k] == top[k])
            &&& toml_servers_map(t1).contains_key(n) == toml_servers_map(top).contains_key(n)
            &&& (toml_servers_map(top).contains_key(n) ==> toml_servers_map(t1)[n]
                == toml_servers_map(top)[n])
        }),
{
}

proof fn lemma_json_enable_step_has(m: ConfigMethod, d: JsonData, s: McpServer)
    requires
        m is JsonConfig,
    ensures
        json_has_server(json_enable_step(m, d, s), method_servers_key(m), effective_server_name(m, s)),
{
}

proof fn lemma_json_enable_step_keeps(m: ConfigMethod, d: JsonData, s: McpServer, n: Seq<char>)
    requires
        m is JsonConfig,
        json_has_server(d, method_servers_key(m), n),
    ensures
        json_has_server(json_enable_step(m, d, s), method_servers_key(m), n),
{
}

proof fn lemma_json_enable_fold_keeps(m: ConfigMethod, d: JsonData, ss: Seq<McpServer>, n: Seq<char>)
    requires
        m is JsonConfig,
        json_has_server(d, method_servers_key(m), n),
    ensures
        json_has_server(json_enable_fold(m, d, ss), method_servers_key(m), n),
    decreases ss.len(),
{
    if ss.len() == 0 {
        assert(json_enable_fold(m, d, ss) == d);
    } else {
        lemma_json_enable_step_keeps(m, d, ss[0], n);
        lemma_json_enable_fold_keeps(m, json_enable_step(m, d, ss[0]), ss.drop_first(), n);
        assert(json_enable_fold(m, d, ss) == json_enable_fold(
            m,
            json_enable_step(m, d, ss[0]),
            ss.drop_first(),
        ));
    }
}

/// A batch enable enables every server of the selection: after the fold, each
/// selected server's entry is present.
pub proof fn lemma_enable_fold_enables_selected_json(
    m: ConfigMethod,
    d: JsonData,
    ss: Seq<McpServer>,
    i: int,
)
    requires
        m is JsonConfig,
        0 <= i < ss.len(),
    ensures
        json_has_server(
            json_enable_fold(m, d, ss),
            method_servers_key(m),
            effective_server_name(m, ss[i]),
        ),
    decreases ss.len(),
{
    assert(json_enable_fold(m, d, ss) == json_enable_fold(
        m,
        json_enable_step(m, d, ss[0]),
        ss.drop_first(),
    ));
    if i == 0 {
        lemma_json_enable_step_has(m, d, ss[0]);
        lemma_json_enable_fold_keeps(
            m,
            json_enable_step(m, d, ss[0]),
            ss.drop_first(),
            effective_server_name(m, ss[0]),
        );
    } else {
        lemma_enable_fold_enables_selected_json(m, json_enable_step(m, d, ss[0]), ss.drop_first(), i - 1);
        assert(ss.drop_first()[i - 1] == ss[i]);
    }
}

proof fn lemma_toml_enable_step_has(d: Map<Seq<char>, TomlData>, s: McpServer)
    ensures
        toml_has_server(toml_enable_step(d, s), s.id@),
{
}

proof fn lemma_toml_enable_step_keeps(d: Map<Seq<char>, TomlData>, s: McpServer, n: Seq<char>)
    requires
        toml_has_server(d, n),
    ensures
        toml_has_server(toml_enable_step(d, s), n),
{
}

proof fn lemma_toml_enable_fold_keeps(d: Map<Seq<char>, TomlData>, ss: Seq<McpServer>, n: Seq<char>)
    requires
        toml_has_server(d, n),
    ensures
        toml_has_server(toml_enable_fold(d, ss), n),
    decreases ss.len(),
{
    if ss.len() == 0 {
        assert(toml_enable_fold(d, ss) == d);
    } else {
        lemma_toml_enable_step_keeps(d, ss[0], n);
        lemma_toml_enable_fold_keeps(toml_enable_step(d, ss[0]), ss.drop_first(), n);
        assert(toml_enable_fold(d, ss) == toml_enable_fold(
            toml_enable_step(d, ss[0]),
            ss.drop_first(),
        ));
    }
}

/// A batch enable enables every server of the selection, in the text-table
/// format.
pub proof fn lemma_enable_fold_enables_selected_toml(
    d: Map<Seq<char>, TomlData>,
    ss: Seq<McpServer>,
    i: int,
)
    requires
        0 <= i < ss.len(),
    ensures
        toml_has_server(toml_enable_fold(d, ss), ss[i].id@),
    decreases ss.len(),
{
    assert(toml_enable_fold(d, ss) == toml_enable_fold(
        toml_enable_step(d, ss[0]),
        ss.drop_first(),
    ));
    if i == 0 {
        lemma_toml_enable_step_has(d, ss[0]);
        lemma_toml_enable_fold_keeps(toml_enable_step(d, ss[0]), ss.drop_first(), ss[0].id@);
    } else {
        lemma_enable_fold_enables_selected_toml(toml_enable_step(d, ss[0]), ss.drop_first(), i - 1);
        assert(ss.drop_first()[i - 1] == ss[i]);
    }
}

/// A target that is not installed probes as `NotInstalled` for every server,
/// whatever its configuration file holds.
pub proof fn lemma_probe_not_installed(t: McpTarget, server: McpServer, text: Option<Seq<char>>)
    ensures
        spec_status(t, server, false, text) == ServerStatus::NotInstalled,
{
}

} // verus!

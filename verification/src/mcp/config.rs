//! The format-specific read-modify-write operations of the config adapter.
//!
//! Each operation takes the current text of a target's configuration file
//! (`None` where the file does not exist) and computes the new text to write,
//! so that reading and writing the file stay at the caller's edge. The
//! contracts pin the semantic content of the result down exactly, over the
//! ghost document models of [`crate::jsondoc`].

use vstd::prelude::*;
use crate::jsondoc::{
    JsonData, json_model, json_of_text, obj_map_of, json_parse, json_to_string, json_new_object,
    json_string, json_string_array, json_is_object, json_is_null, json_get, json_insert,
    json_take,
};
use crate::strutil::str_eq;
use crate::tomldoc::{
    TomlData, table_map_of, toml_doc_model, toml_table_model, toml_of_text,
    toml_parse, toml_new_doc, toml_to_string, toml_doc_get, toml_item_as_table,
    toml_table_contains_key, toml_doc_insert_empty_table, toml_take_entry, toml_put_entry,
    toml_table_new, toml_table_set_str, toml_table_set_str_array,
};

verus! {

/// Errors of the config adapter and of the orchestration actions.
#[derive(Debug, Clone, Copy, PartialEq, Eq, Structural)]
pub enum McpError {
    /// The requested server is not in the catalog.
    UnknownServer,
    /// An existing configuration file is not valid in its declared format.
    ParseError,
}

impl McpError {
    /// A short human-readable description.
    pub fn describe(&self) -> (r: &'static str)
        ensures
            *self is UnknownServer ==> r@ == "unknown server"@,
            *self is ParseError ==> r@ == "could not parse configuration file"@,
    {
        match self {
            McpError::UnknownServer => "unknown server",
            McpError::ParseError => "could not parse configuration file",
        }
    }
}

/// The servers collection under `skey`, as a map: empty where the key is
/// absent or does not hold an object.
pub open spec fn json_servers_map(top: Map<Seq<char>, JsonData>, skey: Seq<char>) -> Map<
    Seq<char>,
    JsonData,
> {
    if top.contains_key(skey) && top[skey] is Obj {
        obj_map_of(top[skey])
    } else {
        Map::empty()
    }
}

/// The launch descriptor written for a server: command, arguments, and the
/// optional type / environment / capabilities fields.
pub open spec fn json_entry_model(
    args: Seq<Seq<char>>,
    type_value: Option<Seq<char>>,
    include_tools_field: bool,
) -> JsonData {
    let base = Map::<Seq<char>, JsonData>::empty().insert(
        "command"@,
        JsonData::Str("npx"@),
    ).insert("args"@, JsonData::StrArr(args));
    let with_type = match type_value {
        Some(t) => {
            let m = base.insert("type"@, JsonData::Str(t));
            if t == "stdio"@ {
                m.insert("env"@, JsonData::Obj(Map::empty()))
            } else {
                m
            }
        },
        None => base,
    };
    let with_tools = if include_tools_field {
        with_type.insert("tools"@, JsonData::StrArr(seq!["*"@]))
    } else {
        with_type
    };
    JsonData::Obj(with_tools)
}

/// What enabling a server does to a structured document: the server's entry
/// under the servers collection is replaced by the launch descriptor, and
/// everything else is kept. A non-object document stands for the empty one
/// (enable accepts only an object or null top level).
pub open spec fn json_enable_model(
    doc: JsonData,
    skey: Seq<char>,
    name: Seq<char>,
    args: Seq<Seq<char>>,
    type_value: Option<Seq<char>>,
    include_tools_field: bool,
) -> JsonData {
    let top = obj_map_of(doc);
    let servers = json_servers_map(top, skey);
    JsonData::Obj(
        top.insert(
            skey,
            JsonData::Obj(
                servers.insert(name, json_entry_model(args, type_value, include_tools_field)),
            ),
        ),
    )
}

/// What disabling a server does to a structured document: the server's entry
/// is removed where the servers collection is an object holding it; any other
/// document is left as it is.
pub open spec fn json_disable_model(doc: JsonData, skey: Seq<char>, name: Seq<char>) -> JsonData {
    match doc {
        JsonData::Obj(top) => {
            if top.contains_key(skey) && top[skey] is Obj {
                JsonData::Obj(top.insert(skey, JsonData::Obj(obj_map_of(top[skey]).remove(name))))
            } else {
                doc
            }
        },
        _ => doc,
    }
}

/// Whether a structured document has an entry for `name` under `skey`.
pub open spec fn json_has_server(doc: JsonData, skey: Seq<char>, name: Seq<char>) -> bool {
    &&& doc matches JsonData::Obj(top)
    &&& top.contains_key(skey)
    &&& top[skey] matches JsonData::Obj(servers)
    &&& servers.contains_key(name)
}

/// The view of an optional text.
pub open spec fn text_view(content: Option<&str>) -> Option<Seq<char>> {
    match content {
        Some(s) => Some(s@),
        None => None,
    }
}

/// The view of an optional owned string.
pub open spec fn opt_string_view(o: Option<String>) -> Option<Seq<char>> {
    match o {
        Some(t) => Some(t@),
        None => None,
    }
}

/// Whether a text parses in the structured format with an object or null top
/// level — the documents enable accepts.
pub open spec fn json_enables(text: Option<Seq<char>>) -> bool {
    match text {
        None => true,
        Some(s) => json_of_text(s) matches Some(d) && (d is Obj || d is Null),
    }
}

/// The document model a text stands for on enable: the parse, or the empty
/// object for a missing file or a null top level.
pub open spec fn json_doc_for_enable(text: Option<Seq<char>>) -> JsonData {
    match text {
        None => JsonData::Obj(Map::empty()),
        Some(s) => json_of_text(s)->Some_0,
    }
}

/// Enable a server in a structured (JSON) configuration text.
///
/// A missing file stands for the empty document; an unparseable file, or one
/// whose top level is neither an object nor null, is rejected rather than
/// overwritten.
pub fn enable_in_json(
    content: Option<&str>,
    servers_key: &str,
    server_name: &str,
    args: &Vec<String>,
    type_value: Option<&String>,
    include_tools_field: bool,
) -> (r: Result<String, McpError>)
    ensures
        r is Ok <==> json_enables(text_view(content)),
        r matches Err(e) ==> e == McpError::ParseError,
        r matches Ok(out) ==> json_of_text(out@) == Some(
            json_enable_model(
                json_doc_for_enable(text_view(content)),
                servers_key@,
                server_name@,
                args.deep_view(),
                match type_value {
                    Some(t) => Some(t@),
                    None => None,
                },
                include_tools_field,
            ),
        ),
{
    let mut doc: serde_json::Value = match content {
        None => json_new_object(),
        Some(s) => match json_parse(s) {
            None => {
                return Err(McpError::ParseError);
            },
            Some(v) => v,
        },
    };
    // The top level must be an object; a null document becomes the empty one.
    if json_is_null(&doc) {
        doc = json_new_object();
    } else if !json_is_object(&doc) {
        return Err(McpError::ParseError);
    }
    let ghost d0 = json_doc_for_enable(text_view(content));
    assert(obj_map_of(json_model(doc)) =~= obj_map_of(d0));

    // Locate the servers collection; anything there that is not an object is
    // replaced by an empty one.
    let taken = json_take(&mut doc, servers_key);
    let mut servers: serde_json::Value = match taken {
        Some(v) => {
            if json_is_object(&v) {
                v
            } else {
                json_new_object()
            }
        },
        None => json_new_object(),
    };
    assert(obj_map_of(json_model(servers)) =~= json_servers_map(obj_map_of(d0), servers_key@));

    // Build the launch descriptor.
    let mut entry = json_new_object();
    json_insert(&mut entry, "command", json_string("npx"));
    json_insert(&mut entry, "args", json_string_array(args));
    if let Some(tv) = type_value {
        json_insert(&mut entry, "type", json_string(tv.as_str()));
        if str_eq(tv.as_str(), "stdio") {
            json_insert(&mut entry, "env", json_new_object());
        }
    }
    if include_tools_field {
        let mut star: Vec<String> = Vec::new();
        star.push(String::from_str("*"));
        assert(star.deep_view() =~= seq!["*"@]);
        json_insert(&mut entry, "tools", json_string_array(&star));
    }
    assert(json_model(entry) =~= json_entry_model(
        args.deep_view(),
        match type_value {
            Some(t) => Some(t@),
            None => None,
        },
        include_tools_field,
    ));

    json_insert(&mut servers, server_name, entry);
    let ghost sv_model = json_model(servers);
    json_insert(&mut doc, servers_key, servers);
    proof {
        let tv = match type_value {
            Some(t) => Some(t@),
            None => None,
        };
        let m0 = obj_map_of(d0);
        assert(sv_model == JsonData::Obj(
            json_servers_map(m0, servers_key@).insert(
                server_name@,
                json_entry_model(args.deep_view(), tv, include_tools_field),
            ),
        ));
        assert(obj_map_of(json_model(doc)) =~= m0.insert(servers_key@, sv_model));
        assert(json_model(doc) == json_enable_model(
            d0,
            servers_key@,
            server_name@,
            args.deep_view(),
            tv,
            include_tools_field,
        ));
    }
    Ok(json_to_string(&doc))
}

/// Disable a server in a structured (JSON) configuration text.
///
/// A missing file is left missing (`Ok(None)`); an unparseable file is never
/// overwritten; otherwise the server's entry is removed if present and the
/// new text is returned.
pub fn disable_in_json(content: Option<&str>, servers_key: &str, server_name: &str) -> (r: Result<
    Option<String>,
    McpError,
>)
    ensures
        content is None ==> (r matches Ok(o) && o is None),
        content matches Some(s) ==> match json_of_text(s@) {
            None => r == Err::<Option<String>, McpError>(McpError::ParseError),
            Some(d) => r matches Ok(Some(out)) && json_of_text(out@) == Some(
                json_disable_model(d, servers_key@, server_name@),
            ),
        },
{
    match content {
        None => Ok(None),
        Some(s) => match json_parse(s) {
            None => Err(McpError::ParseError),
            Some(doc) => {
                let ghost d0 = json_model(doc);
                let mut doc = doc;
                if json_is_object(&doc) {
                    match json_take(&mut doc, servers_key) {
                        Some(sv) => {
                            let ghost top = obj_map_of(d0);
                            let ghost sv0 = json_model(sv);
                            if json_is_object(&sv) {
                                let mut sv2 = sv;
                                let _ = json_take(&mut sv2, server_name);
                                let ghost sv2m = json_model(sv2);
                                json_insert(&mut doc, servers_key, sv2);
                                proof {
                                    assert(obj_map_of(json_model(doc)) =~= top.insert(
                                        servers_key@,
                                        sv2m,
                                    ));
                                    assert(json_model(doc) == json_disable_model(
                                        d0,
                                        servers_key@,
                                        server_name@,
                                    ));
                                }
                            } else {
                                json_insert(&mut doc, servers_key, sv);
                                proof {
                                    assert(obj_map_of(json_model(doc)) =~= top);
                                    assert(d0 == JsonData::Obj(top));
                                    assert(json_model(doc) == d0);
                                }
                            }
                        },
                        None => {
                            proof {
                                let top = obj_map_of(d0);
                                assert(obj_map_of(json_model(doc)) =~= top);
                                assert(d0 == JsonData::Obj(top));
                                assert(json_model(doc) == d0);
                            }
                        },
                    }
                }
                assert(json_model(doc) == json_disable_model(d0, servers_key@, server_name@));
                Ok(Some(json_to_string(&doc)))
            },
        },
    }
}

/// Report whether a server is enabled in a structured (JSON) configuration
/// text. A missing file means disabled; an unparseable file is an error, so
/// that callers can tell "disabled" from "unknown".
pub fn is_enabled_in_json(content: Option<&str>, servers_key: &str, server_name: &str) -> (r:
    Result<bool, McpError>)
    ensures
        content is None ==> r == Ok::<bool, McpError>(false),
        content matches Some(s) ==> match json_of_text(s@) {
            None => r == Err::<bool, McpError>(McpError::ParseError),
            Some(d) => r == Ok::<bool, McpError>(json_has_server(d, servers_key@, server_name@)),
        },
{
    match content {
        None => Ok(false),
        Some(s) => match json_parse(s) {
            None => Err(McpError::ParseError),
            Some(doc) => match json_get(&doc, servers_key) {
                None => Ok(false),
                Some(sv) => Ok(json_get(sv, server_name).is_some()),
            },
        },
    }
}


/// The servers table of a text-table document: empty where the `mcp_servers`
/// key is absent or does not hold a proper table.
pub open spec fn toml_servers_map(top: Map<Seq<char>, TomlData>) -> Map<Seq<char>, TomlData> {
    if top.contains_key("mcp_servers"@) && top["mcp_servers"@] is Table {
        table_map_of(top["mcp_servers"@])
    } else {
        Map::empty()
    }
}

/// What enabling a server does to a text-table document: the server's entry
/// is replaced by exactly the launch descriptor (command and arguments), and
/// everything else in the document is kept.
pub open spec fn toml_enable_model(
    top: Map<Seq<char>, TomlData>,
    id: Seq<char>,
    args: Seq<Seq<char>>,
) -> Map<Seq<char>, TomlData> {
    let servers0 = toml_servers_map(top);
    let entry = Map::<Seq<char>, TomlData>::empty().insert(
        "command"@,
        TomlData::Str("npx"@),
    ).insert("args"@, TomlData::StrArr(args));
    top.insert("mcp_servers"@, TomlData::Table(servers0.insert(id, TomlData::Table(entry))))
}

/// What disabling a server does to a text-table document: its entry is
/// removed where the servers table holds it; any other document is left as
/// it is.
pub open spec fn toml_disable_model(top: Map<Seq<char>, TomlData>, id: Seq<char>) -> Map<
    Seq<char>,
    TomlData,
> {
    if top.contains_key("mcp_servers"@) && top["mcp_servers"@] is Table {
        top.insert(
            "mcp_servers"@,
            TomlData::Table(table_map_of(top["mcp_servers"@]).remove(id)),
        )
    } else {
        top
    }
}

/// Whether a text-table document has an entry for `id` in its servers table.
pub open spec fn toml_has_server(top: Map<Seq<char>, TomlData>, id: Seq<char>) -> bool {
    &&& top.contains_key("mcp_servers"@)
    &&& top["mcp_servers"@] matches TomlData::Table(servers)
    &&& servers.contains_key(id)
}

/// The document model a text stands for on enable: the parse, or the empty
/// document for a missing file.
pub open spec fn toml_doc_for_enable(text: Option<Seq<char>>) -> Map<Seq<char>, TomlData> {
    match text {
        None => Map::empty(),
        Some(s) => toml_of_text(s)->Some_0,
    }
}

/// Enable a server in a text-table (TOML) configuration text.
///
/// A missing file stands for the empty document; an unparseable file is
/// rejected rather than overwritten. An existing entry for the server is
/// replaced whole by the launch descriptor.
pub fn enable_in_toml(content: Option<&str>, server_id: &str, args: &Vec<String>) -> (r: Result<
    String,
    McpError,
>)
    ensures
        r is Ok <==> (content matches Some(s) ==> toml_of_text(s@) is Some),
        r matches Err(e) ==> e == McpError::ParseError,
        r matches Ok(out) ==> toml_of_text(out@) == Some(
            toml_enable_model(
                toml_doc_for_enable(text_view(content)),
                server_id@,
                args.deep_view(),
            ),
        ),
{
    let mut doc: toml_edit::DocumentMut = match content {
        None => toml_new_doc(),
        Some(s) => match toml_parse(s) {
            None => {
                return Err(McpError::ParseError);
            },
            Some(d) => d,
        },
    };
    let ghost m0 = toml_doc_model(doc);

    // Make sure a proper table stands at `mcp_servers`; anything else there
    // is replaced by an empty table, as the structured format does.
    let needs_table = match toml_doc_get(&doc, "mcp_servers") {
        None => true,
        Some(i) => toml_item_as_table(i).is_none(),
    };
    if needs_table {
        toml_doc_insert_empty_table(&mut doc, "mcp_servers");
    }

    // Build the launch descriptor and put it in place of any existing entry.
    let mut entry: toml_edit::Table = toml_table_new();
    toml_table_set_str(&mut entry, "command", "npx");
    toml_table_set_str_array(&mut entry, "args", args);
    let ghost em = toml_table_model(entry);
    toml_put_entry(&mut doc, "mcp_servers", server_id, entry);
    proof {
        let servers0 = toml_servers_map(m0);
        assert(table_map_of(toml_doc_model(doc)["mcp_servers"@]) =~= servers0.insert(
            server_id@,
            TomlData::Table(em),
        ));
        assert(toml_doc_model(doc) =~= toml_enable_model(m0, server_id@, args.deep_view()));
    }
    Ok(toml_to_string(&doc))
}

/// Disable a server in a text-table (TOML) configuration text.
///
/// A missing file is left missing (`Ok(None)`); an unparseable file is never
/// overwritten; otherwise the server's entry is removed if present and the
/// new text is returned.
pub fn disable_in_toml(content: Option<&str>, server_id: &str) -> (r: Result<
    Option<String>,
    McpError,
>)
    ensures
        content is None ==> (r matches Ok(o) && o is None),
        content matches Some(s) ==> match toml_of_text(s@) {
            None => r == Err::<Option<String>, McpError>(McpError::ParseError),
            Some(m) => r matches Ok(Some(out)) && toml_of_text(out@) == Some(
                toml_disable_model(m, server_id@),
            ),
        },
{
    match content {
        None => Ok(None),
        Some(s) => match toml_parse(s) {
            None => Err(McpError::ParseError),
            Some(doc) => {
                let ghost m0 = toml_doc_model(doc);
                let mut doc = doc;
                let _ = toml_take_entry(&mut doc, "mcp_servers", server_id);
                assert(toml_doc_model(doc) == toml_disable_model(m0, server_id@));
                Ok(Some(toml_to_string(&doc)))
            },
        },
    }
}

/// Report whether a server is enabled in a text-table (TOML) configuration
/// text. A missing file means disabled; an unparseable file is an error, so
/// that callers can tell "disabled" from "unknown".
pub fn is_enabled_in_toml(content: Option<&str>, server_id: &str) -> (r: Result<bool, McpError>)
    ensures
        content is None ==> r == Ok::<bool, McpError>(false),
        content matches Some(s) ==> match toml_of_text(s@) {
            None => r == Err::<bool, McpError>(McpError::ParseError),
            Some(m) => r == Ok::<bool, McpError>(toml_has_server(m, server_id@)),
        },
{
    match content {
        None => Ok(false),
        Some(s) => match toml_parse(s) {
            None => Err(McpError::ParseError),
            Some(doc) => match toml_doc_get(&doc, "mcp_servers") {
                None => Ok(false),
                Some(i) => match toml_item_as_table(i) {
                    None => Ok(false),
                    Some(t) => Ok(toml_table_contains_key(t, server_id)),
                },
            },
        },
    }
}

} // verus!

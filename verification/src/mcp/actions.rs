//! The orchestration core: the status probe over all (target, server) pairs,
//! selector resolution, and the batch enable/disable runs.
//!
//! Everything here is pure: the caller gathers, per target, whether the tool
//! is installed and the current text of its configuration file, hands both in,
//! and gets back per-target outcomes holding the new texts to write. A batch
//! run never aborts on one target's failure: each outcome stands on its own.

use vstd::prelude::*;
use crate::mcp::servers::{McpServer, is_linear, is_playwright, known_server_id};
use crate::mcp::servers;
use crate::mcp::targets::{
    McpTarget, ConfigMethod, effective_server_name, spec_is_enabled,
};
use crate::mcp::config::{
    McpError, text_view, opt_string_view, json_enables, json_doc_for_enable, json_enable_model,
    json_disable_model, toml_doc_for_enable, toml_enable_model, toml_disable_model,
};
use crate::jsondoc::JsonData;
use crate::jsondoc::json_of_text;
use crate::tomldoc::TomlData;
use crate::tomldoc::toml_of_text;
use crate::strutil::str_eq;

verus! {

/// Enablement status of one (target, server) pair. Derived on demand, never
/// stored: `NotInstalled` where the target tool is absent, `Unknown` where
/// its configuration file exists but cannot be parsed.
#[derive(Debug, Clone, Copy, PartialEq, Eq, Structural)]
pub enum ServerStatus {
    Enabled,
    Disabled,
    Unknown,
    NotInstalled,
}

/// What the caller gathered about one target before a batch operation:
/// whether the tool is installed, and the current text of its configuration
/// file (`None` where the file does not exist).
pub struct TargetState {
    pub installed: bool,
    pub content: Option<String>,
}

/// The view of a gathered configuration text.
pub open spec fn state_text(st: TargetState) -> Option<Seq<char>> {
    match st.content {
        Some(c) => Some(c@),
        None => None,
    }
}

/// What one probe entry is: `NotInstalled` for an absent target, and
/// otherwise the mapped result of `is_server_enabled` — errors narrow to
/// `Unknown`, never to a failure of the probe.
pub open spec fn spec_status(
    t: McpTarget,
    server: McpServer,
    installed: bool,
    text: Option<Seq<char>>,
) -> ServerStatus {
    if !installed {
        ServerStatus::NotInstalled
    } else {
        match spec_is_enabled(t.config_method, server, text) {
            Ok(b) => if b {
                ServerStatus::Enabled
            } else {
                ServerStatus::Disabled
            },
            Err(_) => ServerStatus::Unknown,
        }
    }
}

/// The status of one server for one target.
pub fn server_status(
    target: &McpTarget,
    server: &McpServer,
    installed: bool,
    content: Option<&str>,
) -> (r: ServerStatus)
    ensures
        r == spec_status(*target, *server, installed, text_view(content)),
{
    if !installed {
        ServerStatus::NotInstalled
    } else {
        match target.is_server_enabled(server, content) {
            Ok(true) => ServerStatus::Enabled,
            Ok(false) => ServerStatus::Disabled,
            Err(_) => ServerStatus::Unknown,
        }
    }
}

/// The statuses of every server for one target — one probe worker's whole
/// assignment, from one read of the target's configuration file.
pub fn target_statuses(
    target: &McpTarget,
    servers_list: &Vec<McpServer>,
    installed: bool,
    content: Option<&str>,
) -> (r: Vec<ServerStatus>)
    ensures
        r@.len() == servers_list@.len(),
        forall|i: int|
            0 <= i < servers_list@.len() ==> r@[i] == spec_status(
                *target,
                servers_list@[i],
                installed,
                text_view(content),
            ),
{
    let mut out: Vec<ServerStatus> = Vec::new();
    let mut i: usize = 0;
    while i < servers_list.len()
        invariant
            i <= servers_list@.len(),
            out@.len() == i,
            forall|j: int|
                0 <= j < i ==> out@[j] == spec_status(
                    *target,
                    servers_list@[j],
                    installed,
                    text_view(content),
                ),
        decreases servers_list@.len() - i,
    {
        out.push(server_status(target, &servers_list[i], installed, content));
        i = i + 1;
    }
    out
}

/// The full status matrix, target-major: row `t` holds the status of every
/// server for target `t`, computed from that target's gathered state alone.
pub fn probe_matrix(
    targets: &Vec<McpTarget>,
    servers_list: &Vec<McpServer>,
    states: &Vec<TargetState>,
) -> (r: Vec<Vec<ServerStatus>>)
    requires
        states@.len() == targets@.len(),
    ensures
        r@.len() == targets@.len(),
        forall|t: int| 0 <= t < targets@.len() ==> r@[t]@.len() == servers_list@.len(),
        forall|t: int, s: int|
            0 <= t < targets@.len() && 0 <= s < servers_list@.len() ==> r@[t]@[s] == spec_status(
                targets@[t],
                servers_list@[s],
                states@[t].installed,
                state_text(states@[t]),
            ),
{
    let mut rows: Vec<Vec<ServerStatus>> = Vec::new();
    let mut t: usize = 0;
    while t < targets.len()
        invariant
            states@.len() == targets@.len(),
            t <= targets@.len(),
            rows@.len() == t,
            forall|j: int| 0 <= j < t ==> rows@[j]@.len() == servers_list@.len(),
            forall|j: int, s: int|
                0 <= j < t && 0 <= s < servers_list@.len() ==> rows@[j]@[s] == spec_status(
                    targets@[j],
                    servers_list@[s],
                    states@[j].installed,
                    state_text(states@[j]),
                ),
        decreases targets@.len() - t,
    {
        let st = &states[t];
        let content: Option<&str> = match &st.content {
            Some(c) => Some(c.as_str()),
            None => None,
        };
        assert(text_view(content) == state_text(states@[t as int]));
        rows.push(target_statuses(&targets[t], servers_list, st.installed, content));
        t = t + 1;
    }
    rows
}

/// Whether a selector names something enableable: the sentinel "all", or a
/// catalog server id.
pub open spec fn selector_resolves(selector: Seq<char>) -> bool {
    selector == "all"@ || known_server_id(selector)
}

/// What a resolved selection holds: the whole catalog for "all", the one
/// named server otherwise.
pub open spec fn resolved_selection(selector: Seq<char>, sel: Seq<McpServer>) -> bool {
    if selector == "all"@ {
        sel.len() == 2 && is_linear(sel[0]) && is_playwright(sel[1])
    } else {
        sel.len() == 1 && sel[0].id@ == selector && (is_linear(sel[0]) || is_playwright(sel[0]))
    }
}

/// Resolve a server selector, before any file is touched: `UnknownServer`
/// for anything that is neither "all" nor a catalog id.
pub fn resolve_servers(selector: &str) -> (r: Result<Vec<McpServer>, McpError>)
    ensures
        r is Ok <==> selector_resolves(selector@),
        r matches Err(e) ==> e == McpError::UnknownServer,
        r matches Ok(v) ==> resolved_selection(selector@, v@) && v@.len() >= 1,
{
    if str_eq(selector, "all") {
        Ok(servers::catalog())
    } else {
        match servers::find(selector) {
            Some(s) => {
                let mut v: Vec<McpServer> = Vec::new();
                v.push(s);
                Ok(v)
            },
            None => Err(McpError::UnknownServer),
        }
    }
}

/// One enable step at the model level, for a structured-config target.
pub open spec fn json_enable_step(m: ConfigMethod, d: JsonData, s: McpServer) -> JsonData {
    match m {
        ConfigMethod::JsonConfig { servers_key, type_value, include_tools_field, .. } => {
            json_enable_model(
                d,
                servers_key@,
                effective_server_name(m, s),
                s.args.deep_view(),
                opt_string_view(type_value),
                include_tools_field,
            )
        },
        _ => d,
    }
}

/// Enabling a sequence of servers in turn, at the model level.
pub open spec fn json_enable_fold(m: ConfigMethod, d: JsonData, ss: Seq<McpServer>) -> JsonData
    decreases ss.len(),
{
    if ss.len() == 0 {
        d
    } else {
        json_enable_fold(m, json_enable_step(m, d, ss[0]), ss.drop_first())
    }
}

/// One enable step at the model level, for a text-table target.
pub open spec fn toml_enable_step(
    d: Map<Seq<char>, TomlData>,
    s: McpServer,
) -> Map<Seq<char>, TomlData> {
    toml_enable_model(d, s.id@, s.args.deep_view())
}

/// Enabling a sequence of servers in turn, at the model level.
pub open spec fn toml_enable_fold(d: Map<Seq<char>, TomlData>, ss: Seq<McpServer>) -> Map<
    Seq<char>,
    TomlData,
>
    decreases ss.len(),
{
    if ss.len() == 0 {
        d
    } else {
        toml_enable_fold(toml_enable_step(d, ss[0]), ss.drop_first())
    }
}

/// One disable step at the model level, for a structured-config target.
pub open spec fn json_disable_step(m: ConfigMethod, d: JsonData, s: McpServer) -> JsonData {
    match m {
        ConfigMethod::JsonConfig { servers_key, .. } => {
            json_disable_model(d, servers_key@, effective_server_name(m, s))
        },
        _ => d,
    }
}

/// Disabling a sequence of servers in turn, at the model level.
pub open spec fn json_disable_fold(m: ConfigMethod, d: JsonData, ss: Seq<McpServer>) -> JsonData
    decreases ss.len(),
{
    if ss.len() == 0 {
        d
    } else {
        json_disable_fold(m, json_disable_step(m, d, ss[0]), ss.drop_first())
    }
}

/// One disable step at the model level, for a text-table target.
pub open spec fn toml_disable_step(
    d: Map<Seq<char>, TomlData>,
    s: McpServer,
) -> Map<Seq<char>, TomlData> {
    toml_disable_model(d, s.id@)
}

/// Disabling a sequence of servers in turn, at the model level.
pub open spec fn toml_disable_fold(d: Map<Seq<char>, TomlData>, ss: Seq<McpServer>) -> Map<
    Seq<char>,
    TomlData,
>
    decreases ss.len(),
{
    if ss.len() == 0 {
        d
    } else {
        toml_disable_fold(toml_disable_step(d, ss[0]), ss.drop_first())
    }
}

proof fn lemma_json_enable_fold_push(m: ConfigMethod, d: JsonData, ss: Seq<McpServer>, x: McpServer)
    ensures
        json_enable_fold(m, d, ss.push(x)) == json_enable_step(m, json_enable_fold(m, d, ss), x),
    decreases ss.len(),
{
    if ss.len() == 0 {
        assert(ss.push(x)[0] == x);
        assert(ss.push(x).drop_first() =~= Seq::<McpServer>::empty());
        assert(json_enable_fold(m, d, ss.push(x)) == json_enable_fold(
            m,
            json_enable_step(m, d, x),
            ss.push(x).drop_first(),
        ));
        assert(json_enable_fold(m, json_enable_step(m, d, x), Seq::<McpServer>::empty())
            == json_enable_step(m, d, x));
        assert(json_enable_fold(m, d, ss) == d);
    } else {
        assert(ss.push(x)[0] == ss[0]);
        assert(ss.push(x).drop_first() =~= ss.drop_first().push(x));
        lemma_json_enable_fold_push(m, json_enable_step(m, d, ss[0]), ss.drop_first(), x);
        assert(json_enable_fold(m, d, ss.push(x)) == json_enable_fold(
            m,
            json_enable_step(m, d, ss[0]),
            ss.drop_first().push(x),
        ));
        assert(json_enable_fold(m, d, ss) == json_enable_fold(
            m,
            json_enable_step(m, d, ss[0]),
            ss.drop_first(),
        ));
    }
}

proof fn lemma_toml_enable_fold_push(
    d: Map<Seq<char>, TomlData>,
    ss: Seq<McpServer>,
    x: McpServer,
)
    ensures
        toml_enable_fold(d, ss.push(x)) == toml_enable_step(toml_enable_fold(d, ss), x),
    decreases ss.len(),
{
    if ss.len() == 0 {
        assert(ss.push(x)[0] == x);
        assert(ss.push(x).drop_first() =~= Seq::<McpServer>::empty());
        assert(toml_enable_fold(d, ss.push(x)) == toml_enable_fold(
            toml_enable_step(d, x),
            ss.push(x).drop_first(),
        ));
        assert(toml_enable_fold(toml_enable_step(d, x), Seq::<McpServer>::empty())
            == toml_enable_step(d, x));
        assert(toml_enable_fold(d, ss) == d);
    } else {
        assert(ss.push(x)[0] == ss[0]);
        assert(ss.push(x).drop_first() =~= ss.drop_first().push(x));
        lemma_toml_enable_fold_push(toml_enable_step(d, ss[0]), ss.drop_first(), x);
        assert(toml_enable_fold(d, ss.push(x)) == toml_enable_fold(
            toml_enable_step(d, ss[0]),
            ss.drop_first().push(x),
        ));
        assert(toml_enable_fold(d, ss) == toml_enable_fold(
            toml_enable_step(d, ss[0]),
            ss.drop_first(),
        ));
    }
}

proof fn lemma_json_disable_fold_push(
    m: ConfigMethod,
    d: JsonData,
    ss: Seq<McpServer>,
    x: McpServer,
)
    ensures
        json_disable_fold(m, d, ss.push(x)) == json_disable_step(m, json_disable_fold(m, d, ss), x),
    decreases ss.len(),
{
    if ss.len() == 0 {
        assert(ss.push(x)[0] == x);
        assert(ss.push(x).drop_first() =~= Seq::<McpServer>::empty());
        assert(json_disable_fold(m, d, ss.push(x)) == json_disable_fold(
            m,
            json_disable_step(m, d, x),
            ss.push(x).drop_first(),
        ));
        assert(json_disable_fold(m, json_disable_step(m, d, x), Seq::<McpServer>::empty())
            == json_disable_step(m, d, x));
        assert(json_disable_fold(m, d, ss) == d);
    } else {
        assert(ss.push(x)[0] == ss[0]);
        assert(ss.push(x).drop_first() =~= ss.drop_first().push(x));
        lemma_json_disable_fold_push(m, json_disable_step(m, d, ss[0]), ss.drop_first(), x);
        assert(json_disable_fold(m, d, ss.push(x)) == json_disable_fold(
            m,
            json_disable_step(m, d, ss[0]),
            ss.drop_first().push(x),
        ));
        assert(json_disable_fold(m, d, ss) == json_disable_fold(
            m,
            json_disable_step(m, d, ss[0]),
            ss.drop_first(),
        ));
    }
}

proof fn lemma_toml_disable_fold_push(
    d: Map<Seq<char>, TomlData>,
    ss: Seq<McpServer>,
    x: McpServer,
)
    ensures
        toml_disable_fold(d, ss.push(x)) == toml_disable_step(toml_disable_fold(d, ss), x),
    decreases ss.len(),
{
    if ss.len() == 0 {
        assert(ss.push(x)[0] == x);
        assert(ss.push(x).drop_first() =~= Seq::<McpServer>::empty());
        assert(toml_disable_fold(d, ss.push(x)) == toml_disable_fold(
            toml_disable_step(d, x),
            ss.push(x).drop_first(),
        ));
        assert(toml_disable_fold(toml_disable_step(d, x), Seq::<McpServer>::empty())
            == toml_disable_step(d, x));
        assert(toml_disable_fold(d, ss) == d);
    } else {
        assert(ss.push(x)[0] == ss[0]);
        assert(ss.push(x).drop_first() =~= ss.drop_first().push(x));
        lemma_toml_disable_fold_push(toml_disable_step(d, ss[0]), ss.drop_first(), x);
        assert(toml_disable_fold(d, ss.push(x)) == toml_disable_fold(
            toml_disable_step(d, ss[0]),
            ss.drop_first().push(x),
        ));
        assert(toml_disable_fold(d, ss) == toml_disable_fold(
            toml_disable_step(d, ss[0]),
            ss.drop_first(),
        ));
    }
}

proof fn lemma_json_enable_fold_obj(m: ConfigMethod, d: JsonData, ss: Seq<McpServer>)
    requires
        m is JsonConfig,
        ss.len() >= 1,
    ensures
        json_enable_fold(m, d, ss) is Obj,
    decreases ss.len(),
{
    if ss.len() == 1 {
        assert(ss.drop_first().len() == 0);
    } else {
        lemma_json_enable_fold_obj(m, json_enable_step(m, d, ss[0]), ss.drop_first());
    }
}

/// Whether enabling can succeed on this target's current configuration text.
pub open spec fn enable_succeeds(t: McpTarget, text: Option<Seq<char>>) -> bool {
    match t.config_method {
        ConfigMethod::JsonConfig { .. } => json_enables(text),
        ConfigMethod::TomlConfig { .. } => (text matches Some(s) ==> toml_of_text(s) is Some),
    }
}

/// Whether disabling can succeed on this target's current configuration text.
pub open spec fn disable_succeeds(t: McpTarget, text: Option<Seq<char>>) -> bool {
    match t.config_method {
        ConfigMethod::JsonConfig { .. } => (text matches Some(s) ==> json_of_text(s) is Some),
        ConfigMethod::TomlConfig { .. } => (text matches Some(s) ==> toml_of_text(s) is Some),
    }
}

/// Everything enabling a whole selection on one target promises.
pub open spec fn enable_all_post(
    t: McpTarget,
    sel: Seq<McpServer>,
    text: Option<Seq<char>>,
    r: Result<String, McpError>,
) -> bool {
    &&& (r is Ok <==> enable_succeeds(t, text))
    &&& (r matches Err(e) ==> e == McpError::ParseError)
    &&& (r matches Ok(out) ==> match t.config_method {
        ConfigMethod::JsonConfig { .. } => json_of_text(out@) == Some(
            json_enable_fold(t.config_method, json_doc_for_enable(text), sel),
        ),
        ConfigMethod::TomlConfig { .. } => toml_of_text(out@) == Some(
            toml_enable_fold(toml_doc_for_enable(text), sel),
        ),
    })
}

/// Enable every server of the selection on one target, in order, over the
/// current text of its configuration file. After the first server the run
/// works on its own output, so later steps cannot hit a parse failure; only
/// an unreadable initial text fails, and then nothing is changed.
pub fn enable_all_servers(
    target: &McpTarget,
    servers_list: &Vec<McpServer>,
    content: Option<&str>,
) -> (r: Result<String, McpError>)
    requires
        servers_list@.len() >= 1,
    ensures
        enable_all_post(*target, servers_list@, text_view(content), r),
{
    let ghost text = text_view(content);
    let first = target.enable_server(&servers_list[0], content);
    let mut cur: String = match first {
        Ok(c) => c,
        Err(e) => {
            return Err(e);
        },
    };
    proof {
        assert(Seq::<McpServer>::empty().push(servers_list@[0]) =~= servers_list@.take(1));
        if target.config_method is JsonConfig {
            lemma_json_enable_fold_push(
                target.config_method,
                json_doc_for_enable(text),
                Seq::<McpServer>::empty(),
                servers_list@[0],
            );
        } else {
            lemma_toml_enable_fold_push(
                toml_doc_for_enable(text),
                Seq::<McpServer>::empty(),
                servers_list@[0],
            );
        }
    }
    let mut i: usize = 1;
    while i < servers_list.len()
        invariant
            1 <= i <= servers_list@.len(),
            target.config_method is JsonConfig ==> json_of_text(cur@) == Some(
                json_enable_fold(
                    target.config_method,
                    json_doc_for_enable(text),
                    servers_list@.take(i as int),
                ),
            ),
            target.config_method is TomlConfig ==> toml_of_text(cur@) == Some(
                toml_enable_fold(toml_doc_for_enable(text), servers_list@.take(i as int)),
            ),
        decreases servers_list@.len() - i,
    {
        proof {
            if target.config_method is JsonConfig {
                lemma_json_enable_fold_obj(
                    target.config_method,
                    json_doc_for_enable(text),
                    servers_list@.take(i as int),
                );
            }
        }
        let next = target.enable_server(&servers_list[i], Some(cur.as_str()));
        match next {
            Ok(c) => {
                proof {
                    assert(servers_list@.take(i as int).push(servers_list@[i as int])
                        =~= servers_list@.take(i + 1 as int));
                    if target.config_method is JsonConfig {
                        lemma_json_enable_fold_push(
                            target.config_method,
                            json_doc_for_enable(text),
                            servers_list@.take(i as int),
                            servers_list@[i as int],
                        );
                    } else {
                        lemma_toml_enable_fold_push(
                            toml_doc_for_enable(text),
                            servers_list@.take(i as int),
                            servers_list@[i as int],
                        );
                    }
                }
                cur = c;
            },
            Err(e) => {
                // Unreachable: the text handed in is the previous step's own
                // output, which always parses and has an object top level.
                proof {
                    assert(false);
                }
                return Err(e);
            },
        }
        i = i + 1;
    }
    proof {
        assert(servers_list@.take(servers_list@.len() as int) =~= servers_list@);
    }
    Ok(cur)
}

/// Everything disabling a whole selection on one target promises. `Ok(None)`
/// means the configuration file does not exist and nothing is to be written.
pub open spec fn disable_all_post(
    t: McpTarget,
    sel: Seq<McpServer>,
    text: Option<Seq<char>>,
    r: Result<Option<String>, McpError>,
) -> bool {
    &&& (r is Ok <==> disable_succeeds(t, text))
    &&& (r matches Err(e) ==> e == McpError::ParseError)
    &&& (text is None ==> (r matches Ok(o) && o is None))
    &&& (r matches Ok(Some(out)) ==> text is Some && match t.config_method {
        ConfigMethod::JsonConfig { .. } => json_of_text(out@) == Some(
            json_disable_fold(t.config_method, json_of_text(text->Some_0)->Some_0, sel),
        ),
        ConfigMethod::TomlConfig { .. } => toml_of_text(out@) == Some(
            toml_disable_fold(toml_of_text(text->Some_0)->Some_0, sel),
        ),
    })
    &&& ((r is Ok && text is Some) ==> (r matches Ok(o) && o is Some))
}

/// Disable every server of the selection on one target, in order. A missing
/// configuration file is a successful no-op; an unparseable one is never
/// overwritten.
pub fn disable_all_servers(
    target: &McpTarget,
    servers_list: &Vec<McpServer>,
    content: Option<&str>,
) -> (r: Result<Option<String>, McpError>)
    requires
        servers_list@.len() >= 1,
    ensures
        disable_all_post(*target, servers_list@, text_view(content), r),
{
    let ghost text = text_view(content);
    let content2: Option<&str> = match content {
        Some(c) => Some(c),
        None => {
            return Ok(None);
        },
    };
    let first = target.disable_server(&servers_list[0], content2);
    let mut cur: String = match first {
        Ok(Some(c)) => c,
        Ok(None) => {
            // Unreachable: with an existing text, disable always has a new
            // text to hand back.
            proof {
                assert(false);
            }
            return Ok(None);
        },
        Err(e) => {
            return Err(e);
        },
    };
    proof {
        assert(Seq::<McpServer>::empty().push(servers_list@[0]) =~= servers_list@.take(1));
        if target.config_method is JsonConfig {
            lemma_json_disable_fold_push(
                target.config_method,
                json_of_text(text->Some_0)->Some_0,
                Seq::<McpServer>::empty(),
                servers_list@[0],
            );
        } else {
            lemma_toml_disable_fold_push(
                toml_of_text(text->Some_0)->Some_0,
                Seq::<McpServer>::empty(),
                servers_list@[0],
            );
        }
    }
    let mut i: usize = 1;
    while i < servers_list.len()
        invariant
            1 <= i <= servers_list@.len(),
            text is Some,
            target.config_method is JsonConfig ==> json_of_text(cur@) == Some(
                json_disable_fold(
                    target.config_method,
                    json_of_text(text->Some_0)->Some_0,
                    servers_list@.take(i as int),
                ),
            ),
            target.config_method is TomlConfig ==> toml_of_text(cur@) == Some(
                toml_disable_fold(
                    toml_of_text(text->Some_0)->Some_0,
                    servers_list@.take(i as int),
                ),
            ),
        decreases servers_list@.len() - i,
    {
        let next = target.disable_server(&servers_list[i], Some(cur.as_str()));
        match next {
            Ok(Some(c)) => {
                proof {
                    assert(servers_list@.take(i as int).push(servers_list@[i as int])
                        =~= servers_list@.take(i + 1 as int));
                    if target.config_method is JsonConfig {
                        lemma_json_disable_fold_push(
                            target.config_method,
                            json_of_text(text->Some_0)->Some_0,
                            servers_list@.take(i as int),
                            servers_list@[i as int],
                        );
                    } else {
                        lemma_toml_disable_fold_push(
                            toml_of_text(text->Some_0)->Some_0,
                            servers_list@.take(i as int),
                            servers_list@[i as int],
                        );
                    }
                }
                cur = c;
            },
            Ok(None) => {
                // Unreachable, as above.
                proof {
                    assert(false);
                }
                return Ok(None);
            },
            Err(e) => {
                // Unreachable: the text handed in is the previous step's own
                // output, which always parses.
                proof {
                    assert(false);
                }
                return Err(e);
            },
        }
        i = i + 1;
    }
    proof {
        assert(servers_list@.take(servers_list@.len() as int) =~= servers_list@);
    }
    Ok(Some(cur))
}

/// The outcome of a batch operation for one target. `Updated(Some(text))`
/// asks the caller to write `text` to the target's configuration file;
/// `Updated(None)` means success with nothing to write.
#[derive(Debug, Clone, PartialEq, Eq)]
pub enum TargetOutcome {
    Updated(Option<String>),
    Skipped,
    Failed(McpError),
}

/// What one target's outcome of a batch enable is: skipped where the tool is
/// not installed, failed exactly where its configuration cannot be read, and
/// otherwise the new text, whose contents are the fold of all the enables.
pub open spec fn enable_outcome_post(
    t: McpTarget,
    sel: Seq<McpServer>,
    st: TargetState,
    out: TargetOutcome,
) -> bool {
    if !st.installed {
        out is Skipped
    } else if enable_succeeds(t, state_text(st)) {
        &&& out matches TargetOutcome::Updated(Some(text)) && enable_all_post(
            t,
            sel,
            state_text(st),
            Ok(text),
        )
    } else {
        out == TargetOutcome::Failed(McpError::ParseError)
    }
}

/// What one target's outcome of a batch disable is.
pub open spec fn disable_outcome_post(
    t: McpTarget,
    sel: Seq<McpServer>,
    st: TargetState,
    out: TargetOutcome,
) -> bool {
    if !st.installed {
        out is Skipped
    } else if disable_succeeds(t, state_text(st)) {
        &&& out matches TargetOutcome::Updated(o) && disable_all_post(
            t,
            sel,
            state_text(st),
            Ok(o),
        )
    } else {
        out == TargetOutcome::Failed(McpError::ParseError)
    }
}

/// Run a batch enable of an already-resolved selection: per target, skip
/// where not installed, otherwise enable every selected server; one target's
/// failure never aborts the others.
pub fn run_enable_resolved(
    servers_list: &Vec<McpServer>,
    targets: &Vec<McpTarget>,
    states: &Vec<TargetState>,
) -> (r: Vec<TargetOutcome>)
    requires
        states@.len() == targets@.len(),
        servers_list@.len() >= 1,
    ensures
        r@.len() == targets@.len(),
        forall|t: int|
            0 <= t < targets@.len() ==> enable_outcome_post(
                targets@[t],
                servers_list@,
                states@[t],
                r@[t],
            ),
{
    let mut outs: Vec<TargetOutcome> = Vec::new();
    let mut t: usize = 0;
    while t < targets.len()
        invariant
            states@.len() == targets@.len(),
            servers_list@.len() >= 1,
            t <= targets@.len(),
            outs@.len() == t,
            forall|j: int|
                0 <= j < t ==> enable_outcome_post(
                    targets@[j],
                    servers_list@,
                    states@[j],
                    outs@[j],
                ),
        decreases targets@.len() - t,
    {
        let st = &states[t];
        let out: TargetOutcome = if !st.installed {
            TargetOutcome::Skipped
        } else {
            let content: Option<&str> = match &st.content {
                Some(c) => Some(c.as_str()),
                None => None,
            };
            assert(text_view(content) == state_text(states@[t as int]));
            match enable_all_servers(&targets[t], servers_list, content) {
                Ok(text) => TargetOutcome::Updated(Some(text)),
                Err(e) => TargetOutcome::Failed(e),
            }
        };
        outs.push(out);
        t = t + 1;
    }
    outs
}

/// Run a batch disable of an already-resolved selection.
pub fn run_disable_resolved(
    servers_list: &Vec<McpServer>,
    targets: &Vec<McpTarget>,
    states: &Vec<TargetState>,
) -> (r: Vec<TargetOutcome>)
    requires
        states@.len() == targets@.len(),
        servers_list@.len() >= 1,
    ensures
        r@.len() == targets@.len(),
        forall|t: int|
            0 <= t < targets@.len() ==> disable_outcome_post(
                targets@[t],
                servers_list@,
                states@[t],
                r@[t],
            ),
{
    let mut outs: Vec<TargetOutcome> = Vec::new();
    let mut t: usize = 0;
    while t < targets.len()
        invariant
            states@.len() == targets@.len(),
            servers_list@.len() >= 1,
            t <= targets@.len(),
            outs@.len() == t,
            forall|j: int|
                0 <= j < t ==> disable_outcome_post(
                    targets@[j],
                    servers_list@,
                    states@[j],
                    outs@[j],
                ),
        decreases targets@.len() - t,
    {
        let st = &states[t];
        let out: TargetOutcome = if !st.installed {
            TargetOutcome::Skipped
        } else {
            let content: Option<&str> = match &st.content {
                Some(c) => Some(c.as_str()),
                None => None,
            };
            assert(text_view(content) == state_text(states@[t as int]));
            match disable_all_servers(&targets[t], servers_list, content) {
                Ok(o) => TargetOutcome::Updated(o),
                Err(e) => TargetOutcome::Failed(e),
            }
        };
        outs.push(out);
        t = t + 1;
    }
    outs
}

/// Resolve a selector and run the batch enable. Resolution failure aborts the
/// whole run before any target's state is looked at.
pub fn run_enable(selector: &str, targets: &Vec<McpTarget>, states: &Vec<TargetState>) -> (r:
    Result<Vec<TargetOutcome>, McpError>)
    requires
        states@.len() == targets@.len(),
    ensures
        r is Ok <==> selector_resolves(selector@),
        r matches Err(e) ==> e == McpError::UnknownServer,
        r matches Ok(outs) ==> outs@.len() == targets@.len() && exists|sel: Seq<McpServer>|
            {
                &&& #[trigger] resolved_selection(selector@, sel)
                &&& sel.len() >= 1
                &&& forall|t: int|
                    0 <= t < targets@.len() ==> enable_outcome_post(
                        targets@[t],
                        sel,
                        states@[t],
                        outs@[t],
                    )
            },
{
    let resolved = match resolve_servers(selector) {
        Ok(v) => v,
        Err(e) => {
            return Err(e);
        },
    };
    let outs = run_enable_resolved(&resolved, targets, states);
    proof {
        assert(resolved_selection(selector@, resolved@));
    }
    Ok(outs)
}

/// Resolve a selector and run the batch disable.
pub fn run_disable(selector: &str, targets: &Vec<McpTarget>, states: &Vec<TargetState>) -> (r:
    Result<Vec<TargetOutcome>, McpError>)
    requires
        states@.len() == targets@.len(),
    ensures
        r is Ok <==> selector_resolves(selector@),
        r matches Err(e) ==> e == McpError::UnknownServer,
        r matches Ok(outs) ==> outs@.len() == targets@.len() && exists|sel: Seq<McpServer>|
            {
                &&& #[trigger] resolved_selection(selector@, sel)
                &&& sel.len() >= 1
                &&& forall|t: int|
                    0 <= t < targets@.len() ==> disable_outcome_post(
                        targets@[t],
                        sel,
                        states@[t],
                        outs@[t],
                    )
            },
{
    let resolved = match resolve_servers(selector) {
        Ok(v) => v,
        Err(e) => {
            return Err(e);
        },
    };
    let outs = run_disable_resolved(&resolved, targets, states);
    proof {
        assert(resolved_selection(selector@, resolved@));
    }
    Ok(outs)
}

/// How many outcomes of a sequence were updates.
pub open spec fn count_updated(outs: Seq<TargetOutcome>) -> int
    decreases outs.len(),
{
    if outs.len() == 0 {
        0
    } else {
        count_updated(outs.drop_last()) + if outs.last() is Updated {
            1int
        } else {
            0int
        }
    }
}

/// How many outcomes of a sequence were skips.
pub open spec fn count_skipped(outs: Seq<TargetOutcome>) -> int
    decreases outs.len(),
{
    if outs.len() == 0 {
        0
    } else {
        count_skipped(outs.drop_last()) + if outs.last() is Skipped {
            1int
        } else {
            0int
        }
    }
}

/// How many outcomes of a sequence were failures.
pub open spec fn count_failed(outs: Seq<TargetOutcome>) -> int
    decreases outs.len(),
{
    if outs.len() == 0 {
        0
    } else {
        count_failed(outs.drop_last()) + if outs.last() is Failed {
            1int
        } else {
            0int
        }
    }
}

/// Count a batch's outcomes: (updated, skipped, failed). The three always
/// add up to the number of targets.
pub fn count_outcomes(outs: &Vec<TargetOutcome>) -> (r: (usize, usize, usize))
    ensures
        r.0 == count_updated(outs@),
        r.1 == count_skipped(outs@),
        r.2 == count_failed(outs@),
        r.0 + r.1 + r.2 == outs@.len(),
{
    let mut updated: usize = 0;
    let mut skipped: usize = 0;
    let mut failed: usize = 0;
    let mut i: usize = 0;
    while i < outs.len()
        invariant
            i <= outs@.len(),
            updated == count_updated(outs@.take(i as int)),
            skipped == count_skipped(outs@.take(i as int)),
            failed == count_failed(outs@.take(i as int)),
            updated + skipped + failed == i,
        decreases outs@.len() - i,
    {
        proof {
            assert(outs@.take(i + 1 as int).drop_last() =~= outs@.take(i as int));
            assert(outs@.take(i + 1 as int).last() == outs@[i as int]);
        }
        match &outs[i] {
            TargetOutcome::Updated(_) => {
                updated = updated + 1;
            },
            TargetOutcome::Skipped => {
                skipped = skipped + 1;
            },
            TargetOutcome::Failed(_) => {
                failed = failed + 1;
            },
        }
        i = i + 1;
    }
    proof {
        assert(outs@.take(outs@.len() as int) =~= outs@);
    }
    (updated, skipped, failed)
}

} // verus!

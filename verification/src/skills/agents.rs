//! The fixed registry of agents that can have skills installed.

use vstd::prelude::*;
use crate::strutil::chars_of;

verus! {

/// An AI agent that can have skills installed.
pub struct SkillAgent {
    /// Display name
    pub name: String,
    /// CLI identifier (used with an --agent flag)
    pub id: String,
    /// Binary name to check whether the agent is installed
    pub binary_name: String,
    /// Global skills directory path
    pub skills_path: String,
}

/// The lowercase code of a character, folding only ASCII letters.
pub open spec fn spec_lower_code(c: char) -> int {
    if 'A' <= c && c <= 'Z' {
        c as int + 32
    } else {
        c as int
    }
}

/// Case-insensitive equality of two character sequences, folding ASCII case.
pub open spec fn spec_eq_ignore_case(a: Seq<char>, b: Seq<char>) -> bool {
    a.len() == b.len() && forall|i: int|
        0 <= i < a.len() ==> spec_lower_code(#[trigger] a[i]) == spec_lower_code(b[i])
}

/// The ASCII-lowercase counterpart of a character.
fn lower_char(c: char) -> (r: char)
    ensures
        r as int == spec_lower_code(c),
{
    match c {
        'A' => 'a',
        'B' => 'b',
        'C' => 'c',
        'D' => 'd',
        'E' => 'e',
        'F' => 'f',
        'G' => 'g',
        'H' => 'h',
        'I' => 'i',
        'J' => 'j',
        'K' => 'k',
        'L' => 'l',
        'M' => 'm',
        'N' => 'n',
        'O' => 'o',
        'P' => 'p',
        'Q' => 'q',
        'R' => 'r',
        'S' => 's',
        'T' => 't',
        'U' => 'u',
        'V' => 'v',
        'W' => 'w',
        'X' => 'x',
        'Y' => 'y',
        'Z' => 'z',
        _ => c,
    }
}

/// Case-insensitive equality of two strings, folding ASCII case.
pub fn eq_ignore_ascii_case_str(a: &str, b: &str) -> (r: bool)
    ensures
        r == spec_eq_ignore_case(a@, b@),
{
    let av = chars_of(a);
    let bv = chars_of(b);
    if av.len() != bv.len() {
        return false;
    }
    let n = av.len();
    let mut i: usize = 0;
    while i < n
        invariant
            av@ == a@,
            bv@ == b@,
            n == av@.len(),
            av@.len() == bv@.len(),
            i <= n,
            forall|j: int| 0 <= j < i ==> spec_lower_code(#[trigger] a@[j]) == spec_lower_code(b@[j]),
        decreases n - i,
    {
        let x = lower_char(av[i]);
        let y = lower_char(bv[i]);
        if x != y {
            assert(spec_lower_code(a@[i as int]) != spec_lower_code(b@[i as int]));
            return false;
        }
        assert(spec_lower_code(a@[i as int]) == spec_lower_code(b@[i as int]));
        i = i + 1;
    }
    true
}

/// What one agent's registry entry looks like.
pub open spec fn agent_spec(
    a: SkillAgent,
    name: Seq<char>,
    id: Seq<char>,
    binary: Seq<char>,
    home: Seq<char>,
    rel: Seq<char>,
) -> bool {
    &&& a.name@ == name
    &&& a.id@ == id
    &&& a.binary_name@ == binary
    &&& a.skills_path@ == home + rel
}

fn agent(home: &str, name: &str, id: &str, binary: &str, rel: &str) -> (a: SkillAgent)
    ensures
        agent_spec(a, name@, id@, binary@, home@, rel@),
{
    SkillAgent {
        name: String::from_str(name),
        id: String::from_str(id),
        binary_name: String::from_str(binary),
        skills_path: String::from_str(home).concat(rel),
    }
}

/// Returns all supported agents for skills, in their fixed order. `home` is
/// the user's home directory, under which every skills directory lives.
pub fn catalog(home: &str) -> (r: Vec<SkillAgent>)
    ensures
        r@.len() == 7,
        agent_spec(r@[0], "Nova CLI"@, "nova"@, "nova"@, home@, "/.nova/skills"@),
        agent_spec(r@[1], "Gemini CLI"@, "gemini"@, "gemini"@, home@, "/.gemini/skills"@),
        agent_spec(r@[2], "Codex CLI"@, "codex"@, "codex"@, home@, "/.codex/skills"@),
        agent_spec(r@[3], "Amp"@, "amp"@, "amp"@, home@, "/.config/agents/skills"@),
        agent_spec(r@[4], "Cursor"@, "cursor"@, "cursor"@, home@, "/.cursor/skills"@),
        agent_spec(r@[5], "GitHub Copilot"@, "copilot"@, "copilot"@, home@, "/.copilot/skills"@),
        agent_spec(r@[6], "OpenCode"@, "opencode"@, "opencode"@, home@, "/.config/opencode/skill"@),
{
    let mut v: Vec<SkillAgent> = Vec::new();
    v.push(agent(home, "Nova CLI", "nova", "nova", "/.nova/skills"));
    v.push(agent(home, "Gemini CLI", "gemini", "gemini", "/.gemini/skills"));
    v.push(agent(home, "Codex CLI", "codex", "codex", "/.codex/skills"));
    v.push(agent(home, "Amp", "amp", "amp", "/.config/agents/skills"));
    v.push(agent(home, "Cursor", "cursor", "cursor", "/.cursor/skills"));
    v.push(agent(home, "GitHub Copilot", "copilot", "copilot", "/.copilot/skills"));
    v.push(agent(home, "OpenCode", "opencode", "opencode", "/.config/opencode/skill"));
    v
}

/// What the registry entry at position `i` looks like.
pub open spec fn catalog_agent_spec(a: SkillAgent, i: int, home: Seq<char>) -> bool {
    if i == 0 {
        agent_spec(a, "Nova CLI"@, "nova"@, "nova"@, home, "/.nova/skills"@)
    } else if i == 1 {
        agent_spec(a, "Gemini CLI"@, "gemini"@, "gemini"@, home, "/.gemini/skills"@)
    } else if i == 2 {
        agent_spec(a, "Codex CLI"@, "codex"@, "codex"@, home, "/.codex/skills"@)
    } else if i == 3 {
        agent_spec(a, "Amp"@, "amp"@, "amp"@, home, "/.config/agents/skills"@)
    } else if i == 4 {
        agent_spec(a, "Cursor"@, "cursor"@, "cursor"@, home, "/.cursor/skills"@)
    } else if i == 5 {
        agent_spec(a, "GitHub Copilot"@, "copilot"@, "copilot"@, home, "/.copilot/skills"@)
    } else if i == 6 {
        agent_spec(a, "OpenCode"@, "opencode"@, "opencode"@, home, "/.config/opencode/skill"@)
    } else {
        false
    }
}

/// Find an agent by ID, ignoring ASCII case. The result is the first
/// registry entry whose id matches, whole: name, binary and skills path
/// included.
pub fn find(home: &str, id: &str) -> (r: Option<SkillAgent>)
    ensures
        ({
            let c = catalog_result_ids();
            r is Some <==> exists|i: int|
                0 <= i < c.len() && spec_eq_ignore_case(#[trigger] c[i], id@)
        }),
        r matches Some(a) ==> exists|i: int|
            {
                &&& 0 <= i < 7
                &&& #[trigger] spec_eq_ignore_case(catalog_result_ids()[i], id@)
                &&& catalog_agent_spec(a, i, home@)
                &&& forall|j: int| 0 <= j < i ==> !spec_eq_ignore_case(
                    #[trigger] catalog_result_ids()[j],
                    id@,
                )
            },
{
    let agents = catalog(home);
    let mut i: usize = 0;
    assert(forall|j: int| 0 <= j < 7 ==> agents@[j].id@ == catalog_result_ids()[j]);
    assert(forall|j: int| 0 <= j < 7 ==> catalog_agent_spec(#[trigger] agents@[j], j, home@));
    while i < agents.len()
        invariant
            agents@.len() == 7,
            forall|j: int| 0 <= j < 7 ==> agents@[j].id@ == catalog_result_ids()[j],
            forall|j: int| 0 <= j < 7 ==> catalog_agent_spec(#[trigger] agents@[j], j, home@),
            i <= 7,
            forall|j: int|
                0 <= j < i ==> !spec_eq_ignore_case(#[trigger] catalog_result_ids()[j], id@),
        decreases agents@.len() - i,
    {
        if eq_ignore_ascii_case_str(agents[i].id.as_str(), id) {
            proof {
                assert(spec_eq_ignore_case(catalog_result_ids()[i as int], id@));
            }
            let mut agents = agents;
            let a = agents.remove(i);
            assert(catalog_agent_spec(a, i as int, home@));
            return Some(a);
        }
        i = i + 1;
    }
    None
}

/// The ids of the agent registry, in order.
pub open spec fn catalog_result_ids() -> Seq<Seq<char>> {
    seq![
        "nova"@,
        "gemini"@,
        "codex"@,
        "amp"@,
        "cursor"@,
        "copilot"@,
        "opencode"@,
    ]
}

} // verus!

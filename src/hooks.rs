//! Hook and permission data, and the rule that selects hooks by tool name.

use vstd::prelude::*;
use crate::text::{trim, trimmed_bounds};
use vstd::string::{StrSliceExecFns, StringExecFns};

verus! {

/// The moments at which hooks run.
#[derive(Debug, Clone, Copy, PartialEq, Eq, Hash)]
pub enum HookEvent {
    PreToolUse,
    PostToolUse,
    UserPromptSubmit,
    Stop,
    SubagentStop,
    PreCompact,
}

/// Context handed to a hook callback.
#[derive(Debug, Clone, Default)]
pub struct HookContext {}

/// The separator between alternatives in a matcher.
pub open spec fn is_bar(c: char) -> bool {
    c == '|'
}

/// `s[a..b]` is one of the `|`-separated alternatives of `s`.
pub open spec fn is_alternative(s: Seq<char>, a: int, b: int) -> bool {
    &&& 0 <= a <= b <= s.len()
    &&& (a == 0 || is_bar(s[a - 1]))
    &&& (b == s.len() || is_bar(s[b]))
    &&& forall|k: int| a <= k < b ==> !is_bar(#[trigger] s[k])
}

/// Whether one of the alternatives of `matcher`, trimmed, is `tool`.
pub open spec fn tool_matches(matcher: Seq<char>, tool: Seq<char>) -> bool {
    exists|a: int, b: int| #[trigger] is_alternative(matcher, a, b) && trim(matcher.subrange(a, b)) == tool
}

/// Whether a tool name matches a matcher: the matcher lists alternatives
/// separated by `|`, each compared with surrounding whitespace removed.
pub fn matches_tool(matcher: &str, tool_name: &str) -> (r: bool)
    ensures
        r == tool_matches(matcher@, tool_name@),
{
    let n = matcher.unicode_len();
    let tool = String::from_str(tool_name);
    let mut start: usize = 0;
    let mut i: usize = 0;
    while i <= n
        invariant
            0 <= start <= i <= n,
            start <= n,
            n == matcher@.len(),
            tool@ == tool_name@,
            start == 0 || is_bar(matcher@[start - 1]),
            forall|k: int| start <= k < i && k < n ==> !is_bar(#[trigger] matcher@[k]),
            forall|a: int, b: int| #[trigger] is_alternative(matcher@, a, b) && b < start ==> trim(matcher@.subrange(a, b))
                != tool_name@,
        decreases n + 1 - i,
    {
        if i == n || matcher.get_char(i) == '|' {
            assert(is_alternative(matcher@, start as int, i as int));
            let (a, b) = trimmed_bounds(matcher, start, i);
            let piece = String::from_str(matcher.substring_char(a, b));
            if piece == tool {
                return true;
            }
            proof {
                assert forall|x: int, y: int| #[trigger] is_alternative(matcher@, x, y) && y < i + 1 implies trim(
                    matcher@.subrange(x, y),
                ) != tool_name@ by {
                    if y >= start {
                        if y < i {
                            assert(!is_bar(matcher@[y]));
                        }
                        assert(y == i);
                        if x < start {
                            assert(!is_bar(matcher@[start - 1]));
                        }
                        if x > start {
                            assert(!is_bar(matcher@[x - 1]));
                        }
                    }
                }
            }
            if i == n {
                proof {
                    assert forall|x: int, y: int| #[trigger] is_alternative(matcher@, x, y) implies trim(
                        matcher@.subrange(x, y),
                    ) != tool_name@ by {
                        assert(y <= n);
                    }
                }
                return false;
            }
            start = i + 1;
        }
        i = i + 1;
    }
    false
}

/// Whether a hook with `matcher` runs for a call of `tool_name`: a hook
/// without a matcher always runs, and so does every hook when no tool is
/// involved.
pub fn hook_applies(matcher: &Option<String>, tool_name: &Option<String>) -> (r: bool)
    ensures
        r == match (matcher, tool_name) {
            (Some(m), Some(t)) => tool_matches(m@, t@),
            _ => true,
        },
{
    match (matcher, tool_name) {
        (Some(m), Some(t)) => matches_tool(m.as_str(), t.as_str()),
        _ => true,
    }
}

/// One rule of a permission update.
#[derive(Debug, Clone, PartialEq, Eq)]
pub struct PermissionRuleValue {
    pub tool_name: String,
    pub rule_content: Option<String>,
}

#[derive(Debug, Clone, Copy, PartialEq, Eq)]
pub enum PermissionUpdateType {
    AddRules,
    ReplaceRules,
    RemoveRules,
    SetMode,
    AddDirectories,
    RemoveDirectories,
}

#[derive(Debug, Clone, Copy, PartialEq, Eq)]
pub enum PermissionBehavior {
    Allow,
    Deny,
    Ask,
}

#[derive(Debug, Clone, Copy, PartialEq, Eq)]
pub enum PermissionUpdateDestination {
    UserSettings,
    ProjectSettings,
    LocalSettings,
    Session,
}

/// A change to the permission rules.
#[derive(Debug, Clone)]
pub struct PermissionUpdate {
    pub update_type: PermissionUpdateType,
    pub rules: Option<Vec<PermissionRuleValue>>,
    pub behavior: Option<PermissionBehavior>,
    pub mode: Option<String>,
    pub directories: Option<Vec<String>>,
    pub destination: Option<PermissionUpdateDestination>,
}

/// What accompanies a request to use a tool.
#[derive(Debug, Clone)]
pub struct ToolPermissionContext {
    pub suggestions: Vec<PermissionUpdate>,
}

/// The answer to a request to use a tool.
#[derive(Debug, Clone)]
pub enum PermissionResult {
    /// Use it, with the input replaced (JSON text of an object) if given.
    Allow { updated_input: Option<Vec<u8>>, updated_permissions: Option<Vec<PermissionUpdate>> },
    Deny { message: String, interrupt: bool },
}

} // verus!

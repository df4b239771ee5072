//! Choosing the command-line executable to launch.
//!
//! The caller looks at the file system; the policy of which path to take,
//! and why a path is refused, is decided here.

use vstd::prelude::*;
use vstd::string::{StrSliceExecFns, StringExecFns};
use crate::config::{PermissionMode, SystemPromptConfig, SystemPromptPreset};
use crate::error::ClaudeAgentError;
use crate::json::{json_quoted, quote};
use crate::text::{decimal, decimal_string};

verus! {

/// What a look at a path on disk found.
#[derive(Debug, Clone)]
pub struct PathProbe {
    pub exists: bool,
    /// Why the path's metadata could not be read, if it could not.
    pub access_error: Option<String>,
    pub is_file: bool,
    /// Whether the file may be executed (always so where permissions do
    /// not carry an executable bit).
    pub executable: bool,
}

/// A path that can be launched.
pub open spec fn usable(p: PathProbe) -> bool {
    p.exists && p.access_error.is_none() && p.is_file && p.executable
}

/// Whether `e` is the not-found error with detail `detail`.
pub open spec fn not_found(e: ClaudeAgentError, detail: Seq<char>) -> bool {
    e matches ClaudeAgentError::CLINotFound(d) && d@ == detail
}

/// The index of the first usable candidate at or after `i`.
pub open spec fn first_usable(candidates: Seq<(String, PathProbe)>, i: int) -> Option<int>
    decreases candidates.len() - i,
{
    if i < 0 || i >= candidates.len() {
        None
    } else if usable(candidates[i].1) {
        Some(i)
    } else {
        first_usable(candidates, i + 1)
    }
}

/// Whether `r` is the executable chosen from an explicitly configured path,
/// the one found on the search path, and the usual install locations.
pub open spec fn cli_choice(
    explicit: Option<(String, PathProbe)>,
    on_path: Option<String>,
    candidates: Seq<(String, PathProbe)>,
    r: Result<String, ClaudeAgentError>,
) -> bool {
    match explicit {
        Some((path, probe)) => if !probe.exists {
            r matches Err(e) && not_found(e, "Specified CLI path does not exist: "@ + path@)
        } else if probe.access_error.is_some() {
            r matches Err(e) && not_found(e, "Cannot access CLI path: "@ + probe.access_error.unwrap()@)
        } else if !probe.is_file {
            r matches Err(e) && not_found(e, "CLI path is not a file: "@ + path@)
        } else if !probe.executable {
            r matches Err(e) && not_found(e, "CLI is not executable: "@ + path@)
        } else {
            r == Ok::<String, ClaudeAgentError>(path)
        },
        None => match on_path {
            Some(found) => r == Ok::<String, ClaudeAgentError>(found),
            None => match first_usable(candidates, 0) {
                Some(i) => r == Ok::<String, ClaudeAgentError>(candidates[i].0),
                None => r matches Err(e) && not_found(
                    e,
                    "Agent CLI not found. Please install it or specify cli_path."@,
                ),
            },
        },
    }
}

fn refusal(prefix: &str, detail: &String) -> (r: ClaudeAgentError)
    ensures
        not_found(r, prefix@ + detail@),
{
    let mut text = String::from_str(prefix);
    text.append(detail.as_str());
    ClaudeAgentError::CLINotFound(text)
}

/// Picks the executable: an explicitly configured path, which must exist
/// and be an executable file, else the one found on the search path, else
/// the first usable install location; never an unchecked path.
pub fn select_cli(
    explicit: Option<(String, PathProbe)>,
    on_path: Option<String>,
    candidates: &Vec<(String, PathProbe)>,
) -> (r: Result<String, ClaudeAgentError>)
    ensures
        cli_choice(explicit, on_path, candidates@, r),
{
    if let Some((path, probe)) = explicit {
        if !probe.exists {
            return Err(refusal("Specified CLI path does not exist: ", &path));
        }
        if let Some(reason) = &probe.access_error {
            return Err(refusal("Cannot access CLI path: ", reason));
        }
        if !probe.is_file {
            return Err(refusal("CLI path is not a file: ", &path));
        }
        if !probe.executable {
            return Err(refusal("CLI is not executable: ", &path));
        }
        return Ok(path);
    }
    if let Some(found) = on_path {
        return Ok(found);
    }
    let mut i: usize = 0;
    while i < candidates.len()
        invariant
            0 <= i <= candidates@.len(),
            first_usable(candidates@, 0) == first_usable(candidates@, i as int),
            explicit.is_none(),
            on_path.is_none(),
        decreases candidates@.len() - i,
    {
        let probe = &candidates[i].1;
        if probe.exists && probe.access_error.is_none() && probe.is_file && probe.executable {
            let chosen: &String = &candidates[i].0;
            let path = chosen.clone();

            return Ok(path);
        }
        i = i + 1;
    }
    Err(ClaudeAgentError::CLINotFound(String::from_str("Agent CLI not found. Please install it or specify cli_path.")))
}

/// What launching the process reads from the configuration.
#[derive(Debug, Clone)]
pub struct LaunchOptions {
    /// A prompt handed to the process on its command line.
    pub prompt: Option<String>,
    pub system_prompt: Option<SystemPromptConfig>,
    pub allowed_tools: Vec<String>,
    pub disallowed_tools: Vec<String>,
    pub model: Option<String>,
    pub fallback_model: Option<String>,
    pub permission_mode: Option<PermissionMode>,
    pub max_turns: Option<u32>,
    pub max_thinking_tokens: Option<u32>,
    pub add_dirs: Vec<String>,
    pub continue_conversation: bool,
    pub resume: Option<String>,
    /// Tool servers by name, each configuration as JSON text.
    pub mcp_servers: Vec<(String, String)>,
    pub settings: Option<String>,
    /// Further flags, with or without their leading `--`, and their values.
    pub extra_args: Vec<(String, Option<String>)>,
}

impl LaunchOptions {
    /// No prompt and no options set.
    pub fn new() -> (r: Self)
        ensures
            r.prompt.is_none(),
            r.system_prompt.is_none(),
            r.allowed_tools@.len() == 0,
            r.disallowed_tools@.len() == 0,
            r.model.is_none(),
            r.fallback_model.is_none(),
            r.permission_mode.is_none(),
            r.max_turns.is_none(),
            r.max_thinking_tokens.is_none(),
            r.add_dirs@.len() == 0,
            !r.continue_conversation,
            r.resume.is_none(),
            r.mcp_servers@.len() == 0,
            r.settings.is_none(),
            r.extra_args@.len() == 0,
    {
        LaunchOptions {
            prompt: None,
            system_prompt: None,
            allowed_tools: Vec::new(),
            disallowed_tools: Vec::new(),
            model: None,
            fallback_model: None,
            permission_mode: None,
            max_turns: None,
            max_thinking_tokens: None,
            add_dirs: Vec::new(),
            continue_conversation: false,
            resume: None,
            mcp_servers: Vec::new(),
            settings: None,
            extra_args: Vec::new(),
        }
    }
}

/// The texts of a vector of strings.
pub open spec fn texts(v: Seq<String>) -> Seq<Seq<char>> {
    v.map_values(|s: String| s@)
}

/// `items` joined with `sep` between neighbours.
pub open spec fn join(items: Seq<Seq<char>>, sep: Seq<char>) -> Seq<char>
    decreases items.len(),
{
    if items.len() == 0 {
        Seq::empty()
    } else if items.len() == 1 {
        items[0]
    } else {
        join(items.drop_last(), sep) + sep + items.last()
    }
}

/// A flag followed by its value.
pub open spec fn flag(name: Seq<char>, value: Seq<char>) -> Seq<Seq<char>> {
    seq![name, value]
}

/// A flag and its value when the value is given; nothing otherwise.
pub open spec fn opt_flag(name: Seq<char>, value: Option<String>) -> Seq<Seq<char>> {
    match value {
        Some(v) => flag(name, v@),
        None => Seq::empty(),
    }
}

/// A flag and a number when the number is given; nothing otherwise.
pub open spec fn opt_number_flag(name: Seq<char>, value: Option<u32>) -> Seq<Seq<char>> {
    match value {
        Some(v) => flag(name, decimal(v as nat)),
        None => Seq::empty(),
    }
}

/// The arguments that carry the system prompt.
pub open spec fn system_prompt_args(p: Option<SystemPromptConfig>) -> Seq<Seq<char>> {
    match p {
        Some(SystemPromptConfig::Text(text)) => flag("--system-prompt"@, text@),
        Some(SystemPromptConfig::Preset(SystemPromptPreset::Preset { preset: _, append: Some(a) })) => flag(
            "--append-system-prompt"@,
            a@,
        ),
        _ => Seq::empty(),
    }
}

/// A tool list flag, its names joined by commas, when the list is not empty.
pub open spec fn tools_args(name: Seq<char>, tools: Seq<String>) -> Seq<Seq<char>> {
    if tools.len() == 0 {
        Seq::empty()
    } else {
        flag(name, join(texts(tools), ","@))
    }
}

/// One `--add-dir` flag per directory.
pub open spec fn dir_args(dirs: Seq<String>) -> Seq<Seq<char>>
    decreases dirs.len(),
{
    if dirs.len() == 0 {
        Seq::empty()
    } else {
        dir_args(dirs.drop_last()) + flag("--add-dir"@, dirs.last()@)
    }
}

/// The JSON member `"name":config` of the tool-server configuration.
pub open spec fn server_entry(server: (String, String)) -> Seq<char> {
    json_quoted(server.0@) + ":"@ + server.1@
}

/// The tool-server configuration argument, when servers are configured.
pub open spec fn mcp_args(servers: Seq<(String, String)>) -> Seq<Seq<char>> {
    if servers.len() == 0 {
        Seq::empty()
    } else {
        flag("--mcp-config"@, "{\"mcpServers\":{"@ + join(servers.map_values(|e: (String, String)| server_entry(e)), ","@) + "}}"@)
    }
}

/// A flag name with its leading `--`.
pub open spec fn dashed(name: Seq<char>) -> Seq<char> {
    if name.len() >= 2 && name[0] == '-' && name[1] == '-' {
        name
    } else {
        "--"@ + name
    }
}

/// The further flags, each followed by its value when it has one.
pub open spec fn extra_args_of(extra: Seq<(String, Option<String>)>) -> Seq<Seq<char>>
    decreases extra.len(),
{
    if extra.len() == 0 {
        Seq::empty()
    } else {
        let (name, value) = extra.last();
        extra_args_of(extra.drop_last()) + seq![dashed(name@)] + match value {
            Some(v) => seq![v@],
            None => Seq::empty(),
        }
    }
}

/// The arguments that every launch starts with.
pub open spec fn launch_base() -> Seq<Seq<char>> {
    seq!["--output-format"@, "stream-json"@, "--input-format"@, "stream-json"@, "--verbose"@]
}

/// The prompt argument, when a prompt is given.
pub open spec fn prompt_args(prompt: Option<String>) -> Seq<Seq<char>> {
    match prompt {
        Some(p) => seq![p@],
        None => Seq::empty(),
    }
}

/// The permission mode flag, when a mode is given.
pub open spec fn mode_args(mode: Option<PermissionMode>) -> Seq<Seq<char>> {
    match mode {
        Some(m) => flag("--permission-mode"@, m.spec_name()),
        None => Seq::empty(),
    }
}

/// The flags that continue or resume a conversation.
pub open spec fn session_args(continue_conversation: bool, resume: Option<String>) -> Seq<Seq<char>> {
    if continue_conversation {
        seq!["--continue"@] + opt_flag("--resume"@, resume)
    } else {
        Seq::empty()
    }
}

/// The flags that carry the configured options, in order.
pub open spec fn option_args(o: LaunchOptions) -> Seq<Seq<char>> {
    system_prompt_args(o.system_prompt) + tools_args("--allowedTools"@, o.allowed_tools@) + tools_args(
        "--disallowedTools"@,
        o.disallowed_tools@,
    ) + opt_flag("--model"@, o.model) + opt_flag("--fallback-model"@, o.fallback_model) + mode_args(
        o.permission_mode,
    ) + opt_number_flag("--max-turns"@, o.max_turns) + opt_number_flag("--max-thinking-tokens"@, o.max_thinking_tokens)
        + dir_args(o.add_dirs@) + session_args(o.continue_conversation, o.resume) + mcp_args(o.mcp_servers@)
        + opt_flag("--settings"@, o.settings) + extra_args_of(o.extra_args@)
}

/// The command-line arguments of the process, in order.
pub open spec fn launch_args(o: LaunchOptions) -> Seq<Seq<char>> {
    launch_base() + prompt_args(o.prompt) + option_args(o)
}

proof fn lemma_texts_concat(a: Seq<String>, b: Seq<String>)
    ensures
        texts(a + b) == texts(a) + texts(b),
{
    assert(texts(a + b) =~= texts(a) + texts(b));
}

fn push_text(out: &mut Vec<String>, text: &str)
    ensures
        texts(final(out)@) == texts(old(out)@).push(text@),
{
    out.push(String::from_str(text));
    proof {
        assert(texts(out@) =~= texts(old(out)@).push(text@));
    }
}

fn push_flag(out: &mut Vec<String>, name: &str, value: &str)
    ensures
        texts(final(out)@) == texts(old(out)@) + flag(name@, value@),
{
    push_text(out, name);
    push_text(out, value);
    proof {
        assert(texts(out@) =~= texts(old(out)@) + flag(name@, value@));
    }
}

fn join_texts(items: &Vec<String>, sep: &str) -> (r: String)
    ensures
        r@ == join(texts(items@), sep@),
{
    let mut out = String::new();
    let mut i: usize = 0;
    while i < items.len()
        invariant
            0 <= i <= items@.len(),
            out@ == join(texts(items@.take(i as int)), sep@),
        decreases items@.len() - i,
    {
        if i > 0 {
            out.append(sep);
        }
        out.append(items[i].as_str());
        proof {
            let next = texts(items@.take(i + 1));
            assert(next.drop_last() =~= texts(items@.take(i as int)));
            assert(next.last() == items@[i as int]@);
            if i == 0 {
                assert(join(texts(items@.take(0)), sep@) =~= Seq::<char>::empty());
                assert(out@ =~= items@[0]@);
            }
        }
        i = i + 1;
    }
    proof {
        assert(items@.take(items@.len() as int) =~= items@);
    }
    out
}

/// Whether `name` starts with `--`.
fn has_dashes(name: &str) -> (r: bool)
    ensures
        r == (name@.len() >= 2 && name@[0] == '-' && name@[1] == '-'),
{
    name.unicode_len() >= 2 && name.get_char(0) == '-' && name.get_char(1) == '-'
}

fn push_opt_flag(out: &mut Vec<String>, name: &str, value: &Option<String>)
    ensures
        texts(final(out)@) == texts(old(out)@) + opt_flag(name@, *value),
{
    if let Some(v) = value {
        push_flag(out, name, v.as_str());
    }
    proof {
        assert(texts(out@) =~= texts(old(out)@) + opt_flag(name@, *value));
    }
}

fn push_number_flag(out: &mut Vec<String>, name: &str, value: Option<u32>)
    ensures
        texts(final(out)@) == texts(old(out)@) + opt_number_flag(name@, value),
{
    if let Some(n) = value {
        let digits = decimal_string(n as u64);
        push_flag(out, name, digits.as_str());
    }
    proof {
        assert(texts(out@) =~= texts(old(out)@) + opt_number_flag(name@, value));
    }
}

fn push_system_prompt(out: &mut Vec<String>, p: &Option<SystemPromptConfig>)
    ensures
        texts(final(out)@) == texts(old(out)@) + system_prompt_args(*p),
{
    match p {
        Some(SystemPromptConfig::Text(text)) => push_flag(out, "--system-prompt", text.as_str()),
        Some(SystemPromptConfig::Preset(SystemPromptPreset::Preset { preset: _, append: Some(a) })) => push_flag(
            out,
            "--append-system-prompt",
            a.as_str(),
        ),
        _ => {},
    }
    proof {
        assert(texts(out@) =~= texts(old(out)@) + system_prompt_args(*p));
    }
}

fn push_tools(out: &mut Vec<String>, name: &str, tools: &Vec<String>)
    ensures
        texts(final(out)@) == texts(old(out)@) + tools_args(name@, tools@),
{
    if tools.len() > 0 {
        let joined = join_texts(tools, ",");
        push_flag(out, name, joined.as_str());
    }
    proof {
        assert(texts(out@) =~= texts(old(out)@) + tools_args(name@, tools@));
    }
}

fn push_mode(out: &mut Vec<String>, mode: &Option<PermissionMode>)
    ensures
        texts(final(out)@) == texts(old(out)@) + mode_args(*mode),
{
    if let Some(m) = mode {
        let name = m.to_string();
        push_flag(out, "--permission-mode", name.as_str());
    }
    proof {
        assert(texts(out@) =~= texts(old(out)@) + mode_args(*mode));
    }
}

fn push_dirs(out: &mut Vec<String>, dirs: &Vec<String>)
    ensures
        texts(final(out)@) == texts(old(out)@) + dir_args(dirs@),
{
    let ghost mark = texts(out@);
    let mut i: usize = 0;
    while i < dirs.len()
        invariant
            0 <= i <= dirs@.len(),
            texts(out@) == mark + dir_args(dirs@.take(i as int)),
        decreases dirs@.len() - i,
    {
        push_flag(out, "--add-dir", dirs[i].as_str());
        proof {
            let next = dirs@.take(i + 1);
            assert(next.drop_last() =~= dirs@.take(i as int));
            assert(texts(out@) =~= mark + dir_args(next));
        }
        i = i + 1;
    }
    proof {
        assert(dirs@.take(dirs@.len() as int) =~= dirs@);
        if dirs@.len() == 0 {
            assert(texts(out@) =~= mark + dir_args(dirs@));
        }
    }
}

fn push_session(out: &mut Vec<String>, continue_conversation: bool, resume: &Option<String>)
    ensures
        texts(final(out)@) == texts(old(out)@) + session_args(continue_conversation, *resume),
{
    if continue_conversation {
        push_text(out, "--continue");
        push_opt_flag(out, "--resume", resume);
    }
    proof {
        assert(texts(out@) =~= texts(old(out)@) + session_args(continue_conversation, *resume));
    }
}

fn push_mcp(out: &mut Vec<String>, servers: &Vec<(String, String)>)
    ensures
        texts(final(out)@) == texts(old(out)@) + mcp_args(servers@),
{
    if servers.len() > 0 {
        let mut config = String::from_str("{\"mcpServers\":{");
        let ghost entries = servers@.map_values(|e: (String, String)| server_entry(e));
        let mut k: usize = 0;
        while k < servers.len()
            invariant
                0 <= k <= servers@.len(),
                entries == servers@.map_values(|e: (String, String)| server_entry(e)),
                config@ == "{\"mcpServers\":{"@ + join(entries.take(k as int), ","@),
            decreases servers@.len() - k,
        {
            if k > 0 {
                config.append(",");
            }
            config.append(quote(servers[k].0.as_str()).as_str());
            config.append(":");
            config.append(servers[k].1.as_str());
            proof {
                let next = entries.take(k + 1);
                assert(next.drop_last() =~= entries.take(k as int));
                assert(next.last() == server_entry(servers@[k as int]));
                if k == 0 {
                    assert(join(entries.take(0), ","@) =~= Seq::<char>::empty());
                }
                assert(config@ =~= "{\"mcpServers\":{"@ + join(next, ","@));
            }
            k = k + 1;
        }
        config.append("}}");
        proof {
            assert(entries.take(entries.len() as int) =~= entries);
        }
        push_flag(out, "--mcp-config", config.as_str());
    }
    proof {
        assert(texts(out@) =~= texts(old(out)@) + mcp_args(servers@));
    }
}

fn push_extra(out: &mut Vec<String>, extra: &Vec<(String, Option<String>)>)
    ensures
        texts(final(out)@) == texts(old(out)@) + extra_args_of(extra@),
{
    let ghost mark = texts(out@);
    let mut j: usize = 0;
    while j < extra.len()
        invariant
            0 <= j <= extra@.len(),
            texts(out@) == mark + extra_args_of(extra@.take(j as int)),
        decreases extra@.len() - j,
    {
        let name = &extra[j].0;
        if has_dashes(name.as_str()) {
            push_text(out, name.as_str());
        } else {
            let mut dashed_name = String::from_str("--");
            dashed_name.append(name.as_str());
            push_text(out, dashed_name.as_str());
        }
        if let Some(v) = &extra[j].1 {
            push_text(out, v.as_str());
        }
        proof {
            let next = extra@.take(j + 1);
            assert(next.drop_last() =~= extra@.take(j as int));
            assert(next.last() == extra@[j as int]);
            assert(texts(out@) =~= mark + extra_args_of(next));
        }
        j = j + 1;
    }
    proof {
        assert(extra@.take(extra@.len() as int) =~= extra@);
        if extra@.len() == 0 {
            assert(texts(out@) =~= mark + extra_args_of(extra@));
        }
    }
}

/// The command-line arguments that launch the process: the stream-JSON
/// input and output formats, then each configured option as its flag.
pub fn cli_arguments(o: &LaunchOptions) -> (r: Vec<String>)
    ensures
        texts(r@) == launch_args(*o),
{
    let mut out: Vec<String> = Vec::new();
    push_flag(&mut out, "--output-format", "stream-json");
    push_flag(&mut out, "--input-format", "stream-json");
    push_text(&mut out, "--verbose");
    proof {
        assert(texts(out@) =~= launch_base());
    }
    let mut prompt_part: Vec<String> = Vec::new();
    if let Some(p) = &o.prompt {
        push_text(&mut prompt_part, p.as_str());
    }
    proof {
        assert(texts(prompt_part@) =~= prompt_args(o.prompt));
    }
    let mut rest: Vec<String> = Vec::new();
    push_system_prompt(&mut rest, &o.system_prompt);
    proof {
        assert(texts(rest@) =~= system_prompt_args(o.system_prompt));
    }
    push_tools(&mut rest, "--allowedTools", &o.allowed_tools);
    push_tools(&mut rest, "--disallowedTools", &o.disallowed_tools);
    push_opt_flag(&mut rest, "--model", &o.model);
    push_opt_flag(&mut rest, "--fallback-model", &o.fallback_model);
    push_mode(&mut rest, &o.permission_mode);
    push_number_flag(&mut rest, "--max-turns", o.max_turns);
    push_number_flag(&mut rest, "--max-thinking-tokens", o.max_thinking_tokens);
    push_dirs(&mut rest, &o.add_dirs);
    push_session(&mut rest, o.continue_conversation, &o.resume);
    push_mcp(&mut rest, &o.mcp_servers);
    push_opt_flag(&mut rest, "--settings", &o.settings);
    push_extra(&mut rest, &o.extra_args);
    assert(texts(rest@) == option_args(*o));
    let ghost head = out@;
    let ghost middle = prompt_part@;
    let ghost tail = rest@;
    out.append(&mut prompt_part);
    out.append(&mut rest);
    proof {
        assert(out@ == head + middle + tail);
        lemma_texts_concat(head, middle);
        lemma_texts_concat(head + middle, tail);
    }
    out
}

} // verus!

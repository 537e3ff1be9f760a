//! The views of the report, each rendered from plain values that the caller
//! gathered: the tool's version, the shell, the tool's environment variables,
//! titled blocks of text, the configuration files and the plugin registry.
use vstd::prelude::*;

use crate::indent::{indent, indented};
use crate::paint::{bold, bold_text, is_plain, pad_right, padded, spaces};
use crate::text::{basename, has_prefix, path_basename, starts_with};

verus! {

/// One registered plugin, as the registry and its version-control metadata give it.
/// `revision` is `None` where looking it up failed; it is read only when `remote`
/// is present.
pub struct PluginRecord {
    pub name: String,
    pub installed: bool,
    pub remote: Option<String>,
    pub revision: Option<String>,
}

/// What was learnt of the calling shell.
pub enum ShellProbe {
    /// The shell could not be detected.
    Unknown,
    /// The shell was run as `command` with a version query; `version` is what it
    /// printed, or the reason it could not be run.
    Found { command: String, version: Result<String, String> },
}

pub open spec fn version_view(version: Seq<char>, on: bool) -> Seq<char> {
    bold_text("rtx version:\n"@, on) + "  "@ + version + "\n"@
}

/// The version line of the shell section: the shell's own answer, or the failure.
pub open spec fn shell_version_line(version: Result<String, String>) -> Seq<char> {
    match version {
        Ok(v) => v@,
        Err(e) => "failed to get shell version: "@ + e@,
    }
}

pub open spec fn shell_view(probe: ShellProbe, on: bool) -> Seq<char> {
    match probe {
        ShellProbe::Unknown => bold_text("shell:\n"@, on) + "  (unknown)\n"@,
        ShellProbe::Found { command, version } => bold_text("shell:\n"@, on) + indented(
            command@ + "\n"@ + shell_version_line(version) + "\n"@,
        ),
    }
}

/// The shell to run for the version query: the configured default shell's full
/// path where its last component names the detected shell, the bare name otherwise.
pub open spec fn shell_command_of(detected: Seq<char>, default_shell: Seq<char>) -> Seq<char> {
    if basename(default_shell) == detected {
        default_shell
    } else {
        detected
    }
}

/// The variables of the tool's own namespace, in the order they came.
pub open spec fn namespaced(vars: Seq<(String, String)>) -> Seq<(String, String)>
    decreases vars.len(),
{
    if vars.len() == 0 {
        vars
    } else if starts_with(vars.last().0@, "RTX_"@) {
        namespaced(vars.drop_last()).push(vars.last())
    } else {
        namespaced(vars.drop_last())
    }
}

pub open spec fn var_lines(vars: Seq<(String, String)>) -> Seq<char>
    decreases vars.len(),
{
    if vars.len() == 0 {
        Seq::empty()
    } else {
        var_lines(vars.drop_last()) + "  "@ + vars.last().0@ + "="@ + vars.last().1@ + "\n"@
    }
}

pub open spec fn env_view(vars: Seq<(String, String)>, on: bool) -> Seq<char> {
    let own = namespaced(vars);
    bold_text("rtx environment variables:\n"@, on) + (if own.len() == 0 {
        "  (none)\n"@
    } else {
        Seq::empty()
    }) + var_lines(own)
}

pub open spec fn block_view(title: Seq<char>, body: Seq<char>, on: bool) -> Seq<char> {
    bold_text(title, on) + "\n"@ + indented(body) + "\n"@
}

/// `s` in the opposite order.
pub open spec fn reversed<A>(s: Seq<A>) -> Seq<A> {
    Seq::new(s.len(), |i: int| s[s.len() - 1 - i])
}

/// One indented line for each entry, in the order given.
pub open spec fn entry_lines(entries: Seq<Seq<char>>) -> Seq<char>
    decreases entries.len(),
{
    if entries.len() == 0 {
        Seq::empty()
    } else {
        entry_lines(entries.drop_last()) + "  "@ + entries.last() + "\n"@
    }
}

pub open spec fn texts(items: Seq<String>) -> Seq<Seq<char>> {
    items.map_values(|s: String| s@)
}

/// The configuration files, the most overriding (discovered last) first.
pub open spec fn config_files_view(paths: Seq<Seq<char>>, on: bool) -> Seq<char> {
    bold_text("config files:\n"@, on) + entry_lines(reversed(paths))
}

/// The length of the longest plugin name, in characters; 0 for no plugins.
pub open spec fn name_width(ps: Seq<PluginRecord>) -> nat
    decreases ps.len(),
{
    if ps.len() == 0 {
        0
    } else if ps.last().name@.len() > name_width(ps.drop_last()) {
        ps.last().name@.len()
    } else {
        name_width(ps.drop_last())
    }
}

/// Where a plugin was installed from: its remote and its revision, or `(unknown)`
/// in place of a revision that could not be read; nothing without a remote.
pub open spec fn source_suffix(p: PluginRecord) -> Seq<char> {
    match p.remote {
        Some(url) => " "@ + url@ + "#"@ + match p.revision {
            Some(rev) => rev@,
            None => "(unknown)"@,
        },
        None => Seq::empty(),
    }
}

pub open spec fn plugin_row(p: PluginRecord, width: nat) -> Seq<char> {
    "  "@ + padded(p.name@, width) + source_suffix(p) + "\n"@
}

pub open spec fn plugin_rows(ps: Seq<PluginRecord>, width: nat) -> Seq<char>
    decreases ps.len(),
{
    if ps.len() == 0 {
        Seq::empty()
    } else {
        plugin_rows(ps.drop_last(), width) + plugin_row(ps.last(), width)
    }
}

/// A name followed by spaces up to `width` characters.
pub open spec fn aligned(name: Seq<char>, width: nat) -> Seq<char> {
    name + spaces(width - name.len())
}

/// Every plugin name is printable ASCII, so that its width is its length.
pub open spec fn plain_names(ps: Seq<PluginRecord>) -> bool {
    forall|i: int| 0 <= i < ps.len() ==> is_plain(#[trigger] ps[i].name@)
}

pub open spec fn aligned_rows(ps: Seq<PluginRecord>, width: nat) -> Seq<char>
    decreases ps.len(),
{
    if ps.len() == 0 {
        Seq::empty()
    } else {
        aligned_rows(ps.drop_last(), width) + "  "@ + aligned(ps.last().name@, width)
            + source_suffix(ps.last()) + "\n"@
    }
}

pub open spec fn plugins_view(ps: Seq<PluginRecord>, on: bool) -> Seq<char> {
    bold_text("plugins:\n"@, on) + plugin_rows(ps, name_width(ps))
}

/// Rendering the reversed discovery order lists the files in discovery order,
/// and reversing twice gives back the discovery order: the section lists the
/// files exactly in reverse.
pub proof fn lemma_config_files_reversed(paths: Seq<Seq<char>>, on: bool)
    ensures
        reversed(reversed(paths)) == paths,
        config_files_view(reversed(paths), on) == bold_text("config files:\n"@, on) + entry_lines(
            paths,
        ),
{
    assert(reversed(reversed(paths)) =~= paths);
}

/// A registry without plugins renders the section's title and no row.
pub proof fn lemma_no_plugin_rows(on: bool)
    ensures
        plugins_view(Seq::<PluginRecord>::empty(), on) == bold_text("plugins:\n"@, on),
{
    assert(plugins_view(Seq::<PluginRecord>::empty(), on) =~= bold_text("plugins:\n"@, on));
}

/// A plugin with a remote whose revision could not be read shows `(unknown)`
/// in place of the revision.
pub proof fn lemma_unknown_revision(p: PluginRecord, width: nat)
    requires
        p.remote is Some,
        p.revision is None,
    ensures
        plugin_row(p, width) == "  "@ + padded(p.name@, width) + " "@ + p.remote->0@
            + "#(unknown)\n"@,
{
    reveal_strlit("#");
    reveal_strlit("(unknown)");
    reveal_strlit("\n");
    reveal_strlit("#(unknown)\n");
    assert(plugin_row(p, width) =~= "  "@ + padded(p.name@, width) + " "@ + p.remote->0@
        + "#(unknown)\n"@);
}

/// The padding width is set by the whole registry: no name is longer than it,
/// some name is exactly as long, and each name aligned to it takes that many
/// characters. For names of printable ASCII the plugin section shows every name
/// aligned so (see `render_plugins`).
pub proof fn lemma_names_aligned(ps: Seq<PluginRecord>, i: int)
    requires
        0 <= i < ps.len(),
    ensures
        ps[i].name@.len() <= name_width(ps),
        aligned(ps[i].name@, name_width(ps)).len() == name_width(ps),
        exists|j: int| 0 <= j < ps.len() && #[trigger] ps[j].name@.len() == name_width(ps),
    decreases ps.len(),
{
    if i < ps.len() - 1 {
        lemma_names_aligned(ps.drop_last(), i);
        assert(ps.drop_last()[i] == ps[i]);
    } else if ps.len() > 1 {
        lemma_names_aligned(ps.drop_last(), 0);
    }
    if ps.len() > 1 {
        let j = choose|j: int| 0 <= j < ps.len() - 1 && #[trigger] ps.drop_last()[j].name@.len()
            == name_width(ps.drop_last());
        assert(ps[j] == ps.drop_last()[j]);
    } else {
        assert(ps.drop_last().len() == 0);
    }
    if name_width(ps) == ps.last().name@.len() {
        assert(ps[ps.len() - 1].name@.len() == name_width(ps));
    }
}

/// The section that names the running version of the tool.
pub fn rtx_version(version: &str, on: bool) -> (r: String)
    ensures
        r@ == version_view(version@, on),
{
    let mut s = bold("rtx version:\n", on);
    s.append("  ");
    s.append(version);
    s.append("\n");
    s
}

/// Picks the command that queries the detected shell's version.
pub fn shell_command(detected: &str, default_shell: &str) -> (r: String)
    ensures
        r@ == shell_command_of(detected@, default_shell@),
{
    let base = path_basename(default_shell);
    if base == String::from_str(detected) {
        String::from_str(default_shell)
    } else {
        String::from_str(detected)
    }
}

/// The shell section.
pub fn shell(probe: &ShellProbe, on: bool) -> (r: String)
    ensures
        r@ == shell_view(*probe, on),
{
    let mut s = bold("shell:\n", on);
    let ghost head = s@;
    match probe {
        ShellProbe::Unknown => {
            s.append("  (unknown)\n");
        },
        ShellProbe::Found { command, version } => {
            let mut out = command.clone();
            out.append("\n");
            match version {
                Ok(v) => out.append(v.as_str()),
                Err(e) => {
                    out.append("failed to get shell version: ");
                    out.append(e.as_str());
                },
            }
            out.append("\n");
            assert(out@ =~= command@ + "\n"@ + shell_version_line(*version) + "\n"@);
            let block = indent(out.as_str());
            s.append(block.as_str());
            assert(s@ == head + indented(out@));
        },
    }
    s
}

/// The variables whose name begins with the tool's prefix, in their order.
pub fn namespaced_vars(vars: &Vec<(String, String)>) -> (r: Vec<(String, String)>)
    ensures
        r@ == namespaced(vars@),
{
    let mut out: Vec<(String, String)> = Vec::new();
    let mut i: usize = 0;
    while i < vars.len()
        invariant
            i <= vars@.len(),
            out@ == namespaced(vars@.take(i as int)),
        decreases vars.len() - i,
    {
        assert(vars@.take(i + 1).drop_last() =~= vars@.take(i as int));
        let key = vars[i].0.as_str();
        if has_prefix(key, "RTX_") {
            out.push((vars[i].0.clone(), vars[i].1.clone()));
        }
        i = i + 1;
    }
    assert(vars@.take(vars@.len() as int) =~= vars@);
    out
}

/// The section of the tool's environment variables, taken from a snapshot of
/// the whole environment.
pub fn rtx_env_vars(vars: &Vec<(String, String)>, on: bool) -> (r: String)
    ensures
        r@ == env_view(vars@, on),
{
    let own = namespaced_vars(vars);
    let mut s = bold("rtx environment variables:\n", on);
    if own.len() == 0 {
        s.append("  (none)\n");
    }
    let ghost start = s@;
    let mut i: usize = 0;
    while i < own.len()
        invariant
            i <= own@.len(),
            s@ == start + var_lines(own@.take(i as int)),
        decreases own.len() - i,
    {
        assert(own@.take(i + 1).drop_last() =~= own@.take(i as int));
        s.append("  ");
        s.append(own[i].0.as_str());
        s.append("=");
        s.append(own[i].1.as_str());
        s.append("\n");
        i = i + 1;
    }
    assert(own@.take(own@.len() as int) =~= own@);
    s
}

/// A titled block: the title on a line of its own, then the body indented.
pub fn titled_block(title: &str, body: &str, on: bool) -> (r: String)
    ensures
        r@ == block_view(title@, body@, on),
{
    let mut s = bold(title, on);
    s.append("\n");
    let b = indent(body);
    s.append(b.as_str());
    s.append("\n");
    s
}

/// The section of configuration files, given in the order they were discovered.
pub fn render_config_files(paths: &Vec<String>, on: bool) -> (r: String)
    ensures
        r@ == config_files_view(texts(paths@), on),
{
    let mut s = bold("config files:\n", on);
    let ghost start = s@;
    let ghost all = texts(paths@);
    let n = paths.len();
    let mut i: usize = n;
    while i > 0
        invariant
            i <= n == paths@.len(),
            all == texts(paths@),
            s@ == start + entry_lines(reversed(all.subrange(i as int, n as int))),
        decreases i,
    {
        let ghost before = reversed(all.subrange(i as int, n as int));
        i = i - 1;
        assert(reversed(all.subrange(i as int, n as int)).drop_last() =~= before);
        assert(reversed(all.subrange(i as int, n as int)).last() == paths@[i as int]@);
        s.append("  ");
        s.append(paths[i].as_str());
        s.append("\n");
    }
    assert(all.subrange(0, n as int) =~= all);
    s
}

/// The length of the longest plugin name.
fn widest_name(plugins: &Vec<PluginRecord>) -> (r: usize)
    ensures
        r == name_width(plugins@),
{
    let mut w: usize = 0;
    let mut i: usize = 0;
    while i < plugins.len()
        invariant
            i <= plugins@.len(),
            w == name_width(plugins@.take(i as int)),
        decreases plugins.len() - i,
    {
        assert(plugins@.take(i + 1).drop_last() =~= plugins@.take(i as int));
        let len = plugins[i].name.as_str().unicode_len();
        if len > w {
            w = len;
        }
        i = i + 1;
    }
    assert(plugins@.take(plugins@.len() as int) =~= plugins@);
    w
}

/// One row of the plugin section, with the name padded to `width`.
fn plugin_line(p: &PluginRecord, width: usize) -> (r: String)
    ensures
        r@ == plugin_row(*p, width as nat),
        is_plain(p.name@) ==> r@ == "  "@ + aligned(p.name@, width as nat) + source_suffix(*p)
            + "\n"@,
{
    let mut s = String::from_str("  ");
    let name = pad_right(p.name.as_str(), width);
    s.append(name.as_str());
    match &p.remote {
        Some(url) => {
            s.append(" ");
            s.append(url.as_str());
            s.append("#");
            match &p.revision {
                Some(rev) => s.append(rev.as_str()),
                None => s.append("(unknown)"),
            }
        },
        None => {},
    }
    s.append("\n");
    s
}

/// The plugin section: every registered plugin in registry order, whether
/// installed or not, with names padded to the longest one.
pub fn render_plugins(plugins: &Vec<PluginRecord>, on: bool) -> (r: String)
    ensures
        r@ == plugins_view(plugins@, on),
        plain_names(plugins@) ==> r@ == bold_text("plugins:\n"@, on) + aligned_rows(
            plugins@,
            name_width(plugins@),
        ),
{
    let width = widest_name(plugins);
    let mut s = bold("plugins:\n", on);
    let ghost start = s@;
    let mut i: usize = 0;
    while i < plugins.len()
        invariant
            i <= plugins@.len(),
            width == name_width(plugins@),
            s@ == start + plugin_rows(plugins@.take(i as int), width as nat),
            plain_names(plugins@) ==> s@ == start + aligned_rows(
                plugins@.take(i as int),
                width as nat,
            ),
        decreases plugins.len() - i,
    {
        assert(plugins@.take(i + 1).drop_last() =~= plugins@.take(i as int));
        let row = plugin_line(&plugins[i], width);
        assert(plain_names(plugins@) ==> is_plain(plugins@[i as int].name@));
        s.append(row.as_str());
        i = i + 1;
    }
    assert(plugins@.take(plugins@.len() as int) =~= plugins@);
    s
}

} // verus!

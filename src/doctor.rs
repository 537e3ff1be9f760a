//! The whole report: every view in its fixed order, then the findings of the
//! checks, and the exit status that they call for.
use vstd::prelude::*;

use crate::checks::{
    activation_problems, exit_code, exit_status, find_problems, outcome_view, problems_of,
    release_problems, summarize,
};
use crate::paint::bold_text;
use crate::sections::{
    block_view, config_files_view, lemma_no_plugin_rows, env_view, plugins_view, render_config_files, render_plugins,
    rtx_env_vars, rtx_version, shell, shell_view, texts, titled_block, version_view, PluginRecord,
    ShellProbe,
};

verus! {

/// Checks the installation for possible problems.
pub struct Doctor {}

/// What the report is made from, gathered before it is written.
pub struct Facts {
    /// The running version of the tool, as it describes itself.
    pub version: String,
    pub shell: ShellProbe,
    /// A snapshot of the whole process environment, in its order.
    pub env: Vec<(String, String)>,
    /// The settings summary of the configuration.
    pub settings: String,
    /// The configuration files, in the order they were discovered and merged.
    pub config_files: Vec<String>,
    pub plugins: Vec<PluginRecord>,
    /// The summary of the resolved toolset.
    pub toolset: String,
    /// A newer release of the tool, where one was found.
    pub latest: Option<String>,
    /// The release number of the running tool.
    pub current_version: String,
    /// Whether the shell integration is active in this session.
    pub activated: bool,
    /// Whether standard output is styled.
    pub colors: bool,
    /// Whether text meant for the error stream is styled.
    pub colors_stderr: bool,
}

/// The written report, its findings and the process status.
pub struct Report {
    pub text: String,
    pub problems: Vec<String>,
    pub exit_code: i32,
}

pub open spec fn facts_problems(f: Facts) -> Seq<Seq<char>> {
    problems_of(f.plugins@, f.latest, f.current_version@, f.activated, f.colors_stderr)
}

/// Each view on its own line, in the fixed order, then the outcome.
pub open spec fn report_view(f: Facts) -> Seq<char> {
    let on = f.colors;
    version_view(f.version@, on) + "\n"@ + shell_view(f.shell, on) + "\n"@ + env_view(f.env@, on)
        + "\n"@ + block_view("settings:"@, f.settings@, on) + "\n"@ + config_files_view(
        texts(f.config_files@),
        on,
    ) + "\n"@ + plugins_view(f.plugins@, on) + "\n"@ + block_view("toolset:"@, f.toolset@, on)
        + "\n"@ + outcome_view(facts_problems(f), on)
}

/// With no plugins registered the plugin section has no rows and the plugin
/// check finds nothing: only the release and activation checks can report.
pub proof fn lemma_empty_registry(f: Facts)
    requires
        f.plugins@.len() == 0,
    ensures
        plugins_view(f.plugins@, f.colors) == bold_text("plugins:\n"@, f.colors),
        facts_problems(f) == release_problems(f.latest, f.current_version@) + activation_problems(
            f.activated,
            f.colors_stderr,
        ),
{
    lemma_no_plugin_rows(f.colors);
    assert(f.plugins@ =~= Seq::<PluginRecord>::empty());
    assert(facts_problems(f) =~= release_problems(f.latest, f.current_version@) + activation_problems(
        f.activated,
        f.colors_stderr,
    ));
}

impl Doctor {
    /// Writes the report of `facts`, runs the checks and gives the exit status.
    /// Every view is written whatever the checks find.
    pub fn report(&self, facts: &Facts) -> (r: Report)
        ensures
            r.text@ == report_view(*facts),
            texts(r.problems@) == facts_problems(*facts),
            r.exit_code == exit_status(facts_problems(*facts)),
    {
        let on = facts.colors;
        let mut s = rtx_version(facts.version.as_str(), on);
        s.append("\n");
        let part = shell(&facts.shell, on);
        s.append(part.as_str());
        s.append("\n");
        let part = rtx_env_vars(&facts.env, on);
        s.append(part.as_str());
        s.append("\n");
        let part = titled_block("settings:", facts.settings.as_str(), on);
        s.append(part.as_str());
        s.append("\n");
        let part = render_config_files(&facts.config_files, on);
        s.append(part.as_str());
        s.append("\n");
        let part = render_plugins(&facts.plugins, on);
        s.append(part.as_str());
        s.append("\n");
        let part = titled_block("toolset:", facts.toolset.as_str(), on);
        s.append(part.as_str());
        s.append("\n");
        let problems = find_problems(
            &facts.plugins,
            &facts.latest,
            facts.current_version.as_str(),
            facts.activated,
            facts.colors_stderr,
        );
        let part = summarize(&problems, on);
        s.append(part.as_str());
        let code = exit_code(&problems);
        Report { text: s, problems, exit_code: code }
    }
}

} // verus!

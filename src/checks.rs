//! The health checks: a fixed, ordered list of findings drawn from what the
//! report gathered, and the summary and exit status that follow from them.
use vstd::prelude::*;

use crate::paint::{red_bold, red_bold_text, yellow, yellow_text};
use crate::sections::{texts, PluginRecord};
use crate::text::{decimal, decimal_string};

verus! {

pub open spec fn not_installed_message(name: Seq<char>) -> Seq<char> {
    "plugin "@ + name + " is not installed"@
}

pub open spec fn release_message(latest: Seq<char>, current: Seq<char>) -> Seq<char> {
    "new rtx version "@ + latest + " available, currently on "@ + current
}

pub open spec fn activation_message(on: bool) -> Seq<char> {
    "rtx is not activated, run `"@ + yellow_text("rtx activate"@, on) + "` for setup instructions"@
}

/// One finding for each plugin that is not installed, in registry order.
pub open spec fn not_installed_problems(ps: Seq<PluginRecord>) -> Seq<Seq<char>>
    decreases ps.len(),
{
    if ps.len() == 0 {
        Seq::empty()
    } else if !ps.last().installed {
        not_installed_problems(ps.drop_last()).push(not_installed_message(ps.last().name@))
    } else {
        not_installed_problems(ps.drop_last())
    }
}

/// The finding of the release check: one where a newer release was reported.
pub open spec fn release_problems(latest: Option<String>, current: Seq<char>) -> Seq<Seq<char>> {
    match latest {
        Some(l) => seq![release_message(l@, current)],
        None => Seq::empty(),
    }
}

/// The finding of the activation check: one where the shell integration is off.
pub open spec fn activation_problems(activated: bool, on: bool) -> Seq<Seq<char>> {
    if activated {
        Seq::empty()
    } else {
        seq![activation_message(on)]
    }
}

/// Every finding, in the order the checks run.
pub open spec fn problems_of(
    ps: Seq<PluginRecord>,
    latest: Option<String>,
    current: Seq<char>,
    activated: bool,
    on: bool,
) -> Seq<Seq<char>> {
    not_installed_problems(ps) + release_problems(latest, current) + activation_problems(
        activated,
        on,
    )
}

/// The count line above the findings: `1 problem found:`, `2 problems found:`.
pub open spec fn summary_line(n: nat) -> Seq<char> {
    decimal(n) + " problem"@ + (if n == 1 {
        Seq::empty()
    } else {
        "s"@
    }) + " found:"@
}

/// Each finding followed by a blank line.
pub open spec fn problem_lines(problems: Seq<Seq<char>>) -> Seq<char>
    decreases problems.len(),
{
    if problems.len() == 0 {
        Seq::empty()
    } else {
        problem_lines(problems.drop_last()) + problems.last() + "\n\n"@
    }
}

/// The closing part of the report.
pub open spec fn outcome_view(problems: Seq<Seq<char>>, on: bool) -> Seq<char> {
    if problems.len() == 0 {
        "No problems found\n"@
    } else {
        red_bold_text(summary_line(problems.len()), on) + "\n"@ + problem_lines(problems)
    }
}

pub open spec fn exit_status(problems: Seq<Seq<char>>) -> i32 {
    if problems.len() == 0 {
        0
    } else {
        1
    }
}

/// Each plugin that is not installed gives exactly one finding, which names it;
/// these come in registry order and before the findings of the other checks,
/// which add at most two more.
pub proof fn lemma_uninstalled_first(
    ps: Seq<PluginRecord>,
    latest: Option<String>,
    current: Seq<char>,
    activated: bool,
    on: bool,
)
    ensures
        not_installed_problems(ps) == ps.filter(|p: PluginRecord| !p.installed).map_values(
            |p: PluginRecord| not_installed_message(p.name@),
        ),
        problems_of(ps, latest, current, activated, on).take(not_installed_problems(ps).len() as int)
            == not_installed_problems(ps),
        problems_of(ps, latest, current, activated, on).len() <= not_installed_problems(ps).len()
            + 2,
    decreases ps.len(),
{
    reveal(Seq::filter);
    if ps.len() > 0 {
        lemma_uninstalled_first(ps.drop_last(), latest, current, activated, on);
        assert(not_installed_problems(ps) =~= ps.filter(|p: PluginRecord| !p.installed).map_values(
            |p: PluginRecord| not_installed_message(p.name@),
        ));
    } else {
        assert(not_installed_problems(ps) =~= ps.filter(|p: PluginRecord| !p.installed).map_values(
            |p: PluginRecord| not_installed_message(p.name@),
        ));
    }
    assert(problems_of(ps, latest, current, activated, on).take(
        not_installed_problems(ps).len() as int,
    ) =~= not_installed_problems(ps));
}

/// Without findings the status is 0 and the report closes with the confirmation;
/// with `n` of them the status is 1 and the count line reads `n problem found:`
/// for one and `n problems found:` for more.
pub proof fn lemma_outcome(problems: Seq<Seq<char>>, on: bool)
    ensures
        problems.len() == 0 ==> exit_status(problems) == 0 && outcome_view(problems, on)
            == "No problems found\n"@,
        problems.len() > 0 ==> exit_status(problems) == 1 && outcome_view(problems, on)
            == red_bold_text(summary_line(problems.len()), on) + "\n"@ + problem_lines(problems),
        summary_line(1) == "1 problem found:"@,
        forall|n: nat| n > 1 ==> #[trigger] summary_line(n) == decimal(n) + " problems found:"@,
{
    reveal_strlit(" problem");
    reveal_strlit("s");
    reveal_strlit(" found:");
    reveal_strlit("1 problem found:");
    reveal_strlit(" problems found:");
    assert(decimal(1) == seq!['1']);
    assert(summary_line(1) =~= "1 problem found:"@);
    assert forall|n: nat| n > 1 implies #[trigger] summary_line(n) == decimal(n)
        + " problems found:"@ by {
        assert(summary_line(n) =~= decimal(n) + " problems found:"@);
    }
}

/// Runs the checks in their fixed order: uninstalled plugins, a newer release of
/// the tool (`latest`, absent where none was found or the query failed), and
/// the shell integration. `on` styles the command named in the activation finding.
pub fn find_problems(
    plugins: &Vec<PluginRecord>,
    latest: &Option<String>,
    current: &str,
    activated: bool,
    on: bool,
) -> (r: Vec<String>)
    ensures
        texts(r@) == problems_of(plugins@, *latest, current@, activated, on),
{
    let mut out: Vec<String> = Vec::new();
    let mut i: usize = 0;
    while i < plugins.len()
        invariant
            i <= plugins@.len(),
            texts(out@) == not_installed_problems(plugins@.take(i as int)),
        decreases plugins.len() - i,
    {
        assert(plugins@.take(i + 1).drop_last() =~= plugins@.take(i as int));
        if !plugins[i].installed {
            let mut m = String::from_str("plugin ");
            m.append(plugins[i].name.as_str());
            m.append(" is not installed");
            let ghost before = out@;
            out.push(m);
            assert(texts(out@) =~= texts(before).push(m@));
        }
        i = i + 1;
    }
    assert(plugins@.take(plugins@.len() as int) =~= plugins@);
    let ghost first = texts(out@);
    match latest {
        Some(l) => {
            let mut m = String::from_str("new rtx version ");
            m.append(l.as_str());
            m.append(" available, currently on ");
            m.append(current);
            out.push(m);
        },
        None => {},
    }
    assert(texts(out@) =~= first + release_problems(*latest, current@));
    let ghost second = texts(out@);
    if !activated {
        let mut m = String::from_str("rtx is not activated, run `");
        let cmd = yellow("rtx activate", on);
        m.append(cmd.as_str());
        m.append("` for setup instructions");
        out.push(m);
    }
    assert(texts(out@) =~= second + activation_problems(activated, on));
    out
}

/// The closing part of the report: a confirmation where nothing was found,
/// otherwise the count of findings and each finding in turn.
pub fn summarize(problems: &Vec<String>, on: bool) -> (r: String)
    ensures
        r@ == outcome_view(texts(problems@), on),
{
    if problems.len() == 0 {
        return String::from_str("No problems found\n");
    }
    let mut line = decimal_string(problems.len());
    line.append(" problem");
    if problems.len() != 1 {
        line.append("s");
    }
    line.append(" found:");
    assert(line@ == summary_line(texts(problems@).len()));
    let mut s = red_bold(line.as_str(), on);
    s.append("\n");
    let ghost start = s@;
    let ghost all = texts(problems@);
    let mut i: usize = 0;
    while i < problems.len()
        invariant
            i <= problems@.len(),
            all == texts(problems@),
            s@ == start + problem_lines(all.take(i as int)),
        decreases problems.len() - i,
    {
        assert(all.take(i + 1).drop_last() =~= all.take(i as int));
        s.append(problems[i].as_str());
        s.append("\n\n");
        i = i + 1;
    }
    assert(all.take(all.len() as int) =~= all);
    s
}

/// The process status that the findings call for: 0 when there are none, 1 otherwise.
pub fn exit_code(problems: &Vec<String>) -> (r: i32)
    ensures
        r == exit_status(texts(problems@)),
{
    if problems.len() == 0 {
        0
    } else {
        1
    }
}

} // verus!

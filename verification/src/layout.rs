//! The layout resolver: from a configuration (or the working directory's
//! base name) to the full build plan.

use vstd::prelude::*;

use crate::command::Command;
use crate::command::CommandModel;
use crate::command::attach_model;
use crate::command::cd_line;
use crate::command::new_session_model;
use crate::command::new_window_model;
use crate::command::pane_target;
use crate::command::probe_model;
use crate::command::select_window_model;
use crate::command::send_keys_model;
use crate::command::window_target;
use crate::config::Config;
use crate::config::WindowModel;

verus! {

/// The final path segment: everything after the last `/` (the whole
/// string when it has no `/`).
pub open spec fn base_of(s: Seq<char>) -> Seq<char>
    decreases s.len(),
{
    if s.len() == 0 {
        s
    } else if s.last() == '/' {
        Seq::empty()
    } else {
        base_of(s.drop_last()).push(s.last())
    }
}

proof fn lemma_base_of_subrange(s: Seq<char>, i: int)
    requires
        0 <= i <= s.len(),
        forall|j: int| i <= j < s.len() ==> s[j] != '/',
        i == 0 || s[i - 1] == '/',
    ensures
        base_of(s) == s.subrange(i, s.len() as int),
    decreases s.len(),
{
    if i == s.len() {
        if s.len() == 0 {
            assert(base_of(s) =~= s.subrange(i, s.len() as int));
        } else {
            assert(s.last() == '/');
            assert(base_of(s) =~= s.subrange(i, s.len() as int));
        }
    } else {
        assert(s.last() != '/');
        lemma_base_of_subrange(s.drop_last(), i);
        assert(s.drop_last().subrange(i, s.len() - 1) =~= s.subrange(i, s.len() - 1));
        assert(base_of(s) =~= s.subrange(i, s.len() as int));
    }
}

/// Extracts the final path segment of `cwd`.
pub fn base_name(cwd: &str) -> (r: String)
    ensures
        r@ == base_of(cwd@),
{
    let n = cwd.unicode_len();
    let mut i = n;
    while i > 0 && cwd.get_char(i - 1) != '/'
        invariant
            0 <= i <= n,
            n == cwd@.len(),
            forall|j: int| i <= j < n ==> cwd@[j] != '/',
        decreases i,
    {
        i = i - 1;
    }
    proof {
        lemma_base_of_subrange(cwd@, i as int);
    }
    let tail = cwd.substring_char(i, n);
    tail.to_owned()
}

/// The build plan: the ordered command batches that materialize the
/// session, plus the probe that decides whether any of them run.
pub struct Plan {
    /// Session creation first, then one window creation per window spec.
    pub creation: Vec<Command>,
    /// One directory change per window spec, ordered by window index.
    pub directories: Vec<Command>,
    /// Action injections, ordered by window index, then by action index.
    pub actions: Vec<Command>,
    /// The pending window selection, if any spec asked for one.
    pub select: Option<Command>,
    /// The final attach.
    pub attach: Command,
    /// The existence probe.
    pub probe: Command,
}

/// Mathematical model of a `Plan`.
#[verifier::ext_equal]
pub ghost struct PlanModel {
    pub creation: Seq<CommandModel>,
    pub directories: Seq<CommandModel>,
    pub actions: Seq<CommandModel>,
    pub select: Option<CommandModel>,
    pub attach: CommandModel,
    pub probe: CommandModel,
}

impl View for Plan {
    type V = PlanModel;

    open spec fn view(&self) -> PlanModel {
        PlanModel {
            creation: self.creation.deep_view(),
            directories: self.directories.deep_view(),
            actions: self.actions.deep_view(),
            select: self.select.deep_view(),
            attach: self.attach@,
            probe: self.probe@,
        }
    }
}

/// The creation batch: the session creation, then window `i`'s creation
/// for each window spec `i`.
pub open spec fn creation_model(session: Seq<char>, windows: Seq<WindowModel>) -> Seq<
    CommandModel,
> {
    seq![new_session_model(session)] + Seq::new(
        windows.len(),
        |i: int| new_window_model(session, i as nat, windows[i].name),
    )
}

/// The directory-change batch: `cd <pwd>` typed into window `i`'s pane,
/// for each window spec `i`.
pub open spec fn directories_model(session: Seq<char>, windows: Seq<WindowModel>) -> Seq<
    CommandModel,
> {
    Seq::new(windows.len(), |i: int| send_keys_model(session, i as nat, cd_line(windows[i].pwd)))
}

/// Window `i`'s actions, each typed into its pane, in declaration order.
pub open spec fn window_actions_model(session: Seq<char>, index: nat, w: WindowModel) -> Seq<
    CommandModel,
> {
    Seq::new(w.actions.len(), |j: int| send_keys_model(session, index, w.actions[j]))
}

/// The action batch: every window's actions, ordered by window index,
/// then by action index.
pub open spec fn actions_model(session: Seq<char>, windows: Seq<WindowModel>) -> Seq<CommandModel>
    decreases windows.len(),
{
    if windows.len() == 0 {
        Seq::empty()
    } else {
        actions_model(session, windows.drop_last()) + window_actions_model(
            session,
            (windows.len() - 1) as nat,
            windows.last(),
        )
    }
}

/// The index of the window whose selection survives: the last window
/// spec whose `select` flag is set.
pub open spec fn selected_index(windows: Seq<WindowModel>) -> Option<int>
    decreases windows.len(),
{
    if windows.len() == 0 {
        None
    } else if windows.last().select {
        Some(windows.len() - 1)
    } else {
        selected_index(windows.drop_last())
    }
}

/// The pending select command, if any window spec asked for one.
pub open spec fn select_model_opt(session: Seq<char>, windows: Seq<WindowModel>) -> Option<
    CommandModel,
> {
    match selected_index(windows) {
        Some(i) => Some(select_window_model(session, i as nat)),
        None => None,
    }
}

/// The whole plan resolved from a configuration.
pub open spec fn plan_model(session: Seq<char>, windows: Seq<WindowModel>) -> PlanModel {
    PlanModel {
        creation: creation_model(session, windows),
        directories: directories_model(session, windows),
        actions: actions_model(session, windows),
        select: select_model_opt(session, windows),
        attach: attach_model(session),
        probe: probe_model(session),
    }
}

/// The fixed fallback plan used when no configuration is present: the
/// session (first window "Server"), four fixed windows at indices 1 to 4,
/// and a selection of pane `base:0.0`.
pub open spec fn default_plan_model(base: Seq<char>) -> PlanModel {
    PlanModel {
        creation: seq![
            new_session_model(base),
            new_window_model(base, 1, "UI"@),
            new_window_model(base, 2, "Tests"@),
            new_window_model(base, 3, "Code"@),
            new_window_model(base, 4, "Zsh"@),
        ],
        directories: Seq::empty(),
        actions: Seq::empty(),
        select: Some(select_window_model(base, 0)),
        attach: attach_model(base),
        probe: probe_model(base),
    }
}

/// Resolves an explicit configuration into its session name and plan.
pub fn resolve_with_config(config: &Config) -> (r: (String, Plan))
    ensures
        r.0@ == config@.session,
        r.1@ == plan_model(config@.session, config@.windows),
{
    let session = config.session.as_str();
    let n = config.windows.len();
    let mut creation: Vec<Command> = Vec::new();
    creation.push(Command::new_session(session));
    let mut directories: Vec<Command> = Vec::new();
    let mut actions: Vec<Command> = Vec::new();
    let mut select: Option<Command> = None;
    let ghost ws = config@.windows;
    let mut i: usize = 0;
    while i < n
        invariant
            0 <= i <= n,
            n == ws.len(),
            ws == config@.windows,
            session@ == config@.session,
            config.windows@.len() == n,
            config.windows.deep_view() == ws,
            creation.deep_view() =~= creation_model(session@, ws.take(i as int)),
            directories.deep_view() =~= directories_model(session@, ws.take(i as int)),
            actions.deep_view() =~= actions_model(session@, ws.take(i as int)),
            select.deep_view() == select_model_opt(session@, ws.take(i as int)),
        decreases n - i,
    {
        let w = &config.windows[i];
        proof {
            assert(w@ == ws[i as int]);
            assert(ws.take(i + 1).drop_last() =~= ws.take(i as int));
            assert(ws.take(i + 1).last() == ws[i as int]);
        }
        let ghost pre_creation = creation.deep_view();
        let wincmd = Command::new_window(session, i as u64, w.name.as_str());
        creation.push(wincmd);
        proof {
            assert(creation.deep_view() =~= pre_creation.push(
                new_window_model(session@, i as nat, ws[i as int].name),
            ));
            assert(creation_model(session@, ws.take(i + 1)) =~= creation_model(
                session@,
                ws.take(i as int),
            ).push(new_window_model(session@, i as nat, ws[i as int].name)));
        }
        let mut line = String::from_str("cd ");
        line.append(w.pwd.as_str());
        proof {
            assert(line@ == cd_line(ws[i as int].pwd));
        }
        let ghost pre_directories = directories.deep_view();
        let dircmd = Command::send_keys(session, i as u64, line.as_str());
        directories.push(dircmd);
        proof {
            assert(directories.deep_view() =~= pre_directories.push(
                send_keys_model(session@, i as nat, cd_line(ws[i as int].pwd)),
            ));
            assert(directories_model(session@, ws.take(i + 1)) =~= directories_model(
                session@,
                ws.take(i as int),
            ).push(send_keys_model(session@, i as nat, cd_line(ws[i as int].pwd))));
        }
        let m = w.actions.len();
        let mut j: usize = 0;
        while j < m
            invariant
                0 <= j <= m,
                0 <= i < n,
                n == ws.len(),
                m == ws[i as int].actions.len(),
                w == &config.windows[i as int],
                w@ == ws[i as int],
                session@ == config@.session,
                actions.deep_view() =~= actions_model(session@, ws.take(i as int))
                    + window_actions_model(session@, i as nat, ws[i as int]).take(j as int),
            decreases m - j,
        {
            let ghost pre_actions = actions.deep_view();
            let actcmd = Command::send_keys(session, i as u64, w.actions[j].as_str());
            actions.push(actcmd);
            proof {
                assert(w.actions@[j as int]@ == ws[i as int].actions[j as int]);
                assert(actions.deep_view() =~= pre_actions.push(
                    send_keys_model(session@, i as nat, ws[i as int].actions[j as int]),
                ));
                assert(window_actions_model(session@, i as nat, ws[i as int]).take(j + 1)
                    =~= window_actions_model(session@, i as nat, ws[i as int]).take(j as int).push(
                    send_keys_model(session@, i as nat, ws[i as int].actions[j as int]),
                ));
                assert(actions.deep_view() =~= actions_model(session@, ws.take(i as int))
                    + window_actions_model(session@, i as nat, ws[i as int]).take(j + 1));
            }
            j = j + 1;
        }
        proof {
            assert(window_actions_model(session@, i as nat, ws[i as int]).take(m as int)
                =~= window_actions_model(session@, i as nat, ws[i as int]));
            assert(actions_model(session@, ws.take(i + 1)) == actions_model(
                session@,
                ws.take(i as int),
            ) + window_actions_model(session@, i as nat, ws[i as int]));
        }
        if w.select {
            select = Some(Command::select_window(session, i as u64));
        }
        proof {
            assert(select.deep_view() == select_model_opt(session@, ws.take(i + 1)));
        }
        i = i + 1;
    }
    proof {
        assert(ws.take(n as int) =~= ws);
    }
    let plan = Plan {
        creation,
        directories,
        actions,
        select,
        attach: Command::attach(session),
        probe: Command::probe(session),
    };
    proof {
        assert(plan@ =~= plan_model(config@.session, config@.windows));
    }
    (config.session.clone(), plan)
}

/// Resolves the fixed fallback layout from the working directory.
///
/// The working directory must have a non-empty final path segment; with
/// none there is no session name to derive.
pub fn resolve_default(cwd: &str) -> (r: (String, Plan))
    requires
        base_of(cwd@).len() > 0,
    ensures
        r.0@ == base_of(cwd@),
        r.1@ == default_plan_model(base_of(cwd@)),
{
    let base = base_name(cwd);
    let session = base.as_str();
    let mut creation: Vec<Command> = Vec::new();
    creation.push(Command::new_session(session));
    creation.push(Command::new_window(session, 1, "UI"));
    creation.push(Command::new_window(session, 2, "Tests"));
    creation.push(Command::new_window(session, 3, "Code"));
    creation.push(Command::new_window(session, 4, "Zsh"));
    let plan = Plan {
        creation,
        directories: Vec::new(),
        actions: Vec::new(),
        select: Some(Command::select_window(session, 0)),
        attach: Command::attach(session),
        probe: Command::probe(session),
    };
    proof {
        assert(plan@.creation =~= default_plan_model(base_of(cwd@)).creation);
        assert(plan@ =~= default_plan_model(base_of(cwd@)));
    }
    (base, plan)
}

/// The number of actions declared over all windows.
pub open spec fn total_actions(windows: Seq<WindowModel>) -> nat
    decreases windows.len(),
{
    if windows.len() == 0 {
        0
    } else {
        total_actions(windows.drop_last()) + windows.last().actions.len()
    }
}

/// The position, within the action batch, of window `index`'s first
/// action: all earlier windows' actions come before it.
pub open spec fn action_index(windows: Seq<WindowModel>, index: int) -> int {
    total_actions(windows.take(index)) as int
}

proof fn lemma_actions_model_len(session: Seq<char>, windows: Seq<WindowModel>)
    ensures
        actions_model(session, windows).len() == total_actions(windows),
    decreases windows.len(),
{
    if windows.len() > 0 {
        lemma_actions_model_len(session, windows.drop_last());
    }
}

/// Law: a configuration of N windows yields exactly one session-creation
/// command, then N window-creation commands, N directory changes, and one
/// action command per declared action.
pub proof fn lemma_plan_counts(session: Seq<char>, windows: Seq<WindowModel>)
    ensures
        plan_model(session, windows).creation.len() == 1 + windows.len(),
        plan_model(session, windows).creation[0] == new_session_model(session),
        plan_model(session, windows).directories.len() == windows.len(),
        plan_model(session, windows).actions.len() == total_actions(windows),
{
    lemma_actions_model_len(session, windows);
}

proof fn lemma_action_slot(session: Seq<char>, windows: Seq<WindowModel>, i: int, j: int)
    requires
        0 <= i < windows.len(),
        0 <= j < windows[i].actions.len(),
    ensures
        action_index(windows, i) + windows[i].actions.len() <= actions_model(
            session,
            windows,
        ).len(),
        actions_model(session, windows)[action_index(windows, i) + j] == send_keys_model(
            session,
            i as nat,
            windows[i].actions[j],
        ),
    decreases windows.len(),
{
    lemma_actions_model_len(session, windows);
    let dl = windows.drop_last();
    lemma_actions_model_len(session, dl);
    if i == windows.len() - 1 {
        assert(windows.take(i) =~= dl);
        assert(actions_model(session, windows)[action_index(windows, i) + j]
            == window_actions_model(session, i as nat, windows.last())[j]);
    } else {
        assert(dl.take(i) =~= windows.take(i));
        assert(dl[i] == windows[i]);
        lemma_action_slot(session, dl, i, j);
        assert(actions_model(session, windows)[action_index(windows, i) + j] == actions_model(
            session,
            dl,
        )[action_index(dl, i) + j]);
    }
}

/// Law: the window-creation command for window `i` targets `session:i`,
/// and the directory change and every action for window `i` target pane
/// `session:i.0`; window `i`'s actions sit consecutively, in declaration
/// order, after all earlier windows' actions.
pub proof fn lemma_command_targets(session: Seq<char>, windows: Seq<WindowModel>, i: int)
    requires
        0 <= i < windows.len(),
    ensures
        plan_model(session, windows).creation[i + 1] == new_window_model(
            session,
            i as nat,
            windows[i].name,
        ),
        new_window_model(session, i as nat, windows[i].name).args[2] == window_target(
            session,
            i as nat,
        ),
        plan_model(session, windows).directories[i] == send_keys_model(
            session,
            i as nat,
            cd_line(windows[i].pwd),
        ),
        send_keys_model(session, i as nat, cd_line(windows[i].pwd)).args[2] == pane_target(
            session,
            i as nat,
        ),
        forall|j: int|
            0 <= j < windows[i].actions.len() ==> plan_model(session, windows).actions[
                action_index(windows, i) + j] == send_keys_model(
                session,
                i as nat,
                windows[i].actions[j],
            ) && send_keys_model(session, i as nat, windows[i].actions[j]).args[2] == pane_target(
                session,
                i as nat,
            ),
{
    assert forall|j: int| 0 <= j < windows[i].actions.len() implies plan_model(session, windows)
        .actions[action_index(windows, i) + j] == send_keys_model(
        session,
        i as nat,
        windows[i].actions[j],
    ) by {
        lemma_action_slot(session, windows, i, j);
    }
}

proof fn lemma_selected_index_none(windows: Seq<WindowModel>)
    requires
        forall|i: int| 0 <= i < windows.len() ==> !windows[i].select,
    ensures
        selected_index(windows) is None,
    decreases windows.len(),
{
    if windows.len() > 0 {
        lemma_selected_index_none(windows.drop_last());
    }
}

/// Law: the surviving selection is the last window spec whose `select`
/// flag is set, and the select command targets that window's pane; with
/// no flagged window there is no select command.
pub proof fn lemma_select_last_wins(session: Seq<char>, windows: Seq<WindowModel>, i: int)
    requires
        0 <= i < windows.len(),
        windows[i].select,
        forall|j: int| i < j < windows.len() ==> !windows[j].select,
    ensures
        selected_index(windows) == Some(i),
        plan_model(session, windows).select == Some(select_window_model(session, i as nat)),
        select_window_model(session, i as nat).args[2] == pane_target(session, i as nat),
    decreases windows.len(),
{
    if i == windows.len() - 1 {
    } else {
        let dl = windows.drop_last();
        assert(dl[i] == windows[i]);
        lemma_select_last_wins(session, dl, i);
    }
}

/// Law: with exactly one flagged window the select command targets that
/// window's pane.
pub proof fn lemma_select_unique(session: Seq<char>, windows: Seq<WindowModel>, i: int)
    requires
        0 <= i < windows.len(),
        windows[i].select,
        forall|j: int| 0 <= j < windows.len() && j != i ==> !windows[j].select,
    ensures
        plan_model(session, windows).select == Some(select_window_model(session, i as nat)),
{
    lemma_select_last_wins(session, windows, i);
}

/// Law: with no flagged window no select command is issued.
pub proof fn lemma_select_absent(session: Seq<char>, windows: Seq<WindowModel>)
    requires
        forall|i: int| 0 <= i < windows.len() ==> !windows[i].select,
    ensures
        plan_model(session, windows).select is None,
{
    lemma_selected_index_none(windows);
}

/// Resolves the session name and build plan from an optional
/// configuration, falling back to the fixed layout derived from the
/// working directory's base name.
pub fn resolve(config: Option<&Config>, cwd: &str) -> (r: (String, Plan))
    requires
        config is None ==> base_of(cwd@).len() > 0,
    ensures
        match config {
            Some(c) => r.0@ == c@.session && r.1@ == plan_model(c@.session, c@.windows),
            None => r.0@ == base_of(cwd@) && r.1@ == default_plan_model(base_of(cwd@)),
        },
{
    match config {
        Some(c) => resolve_with_config(c),
        None => resolve_default(cwd),
    }
}

} // verus!

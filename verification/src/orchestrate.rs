//! The orchestrator's decision: which commands are issued after the
//! probe, in which order, and with which failure policy.
//!
//! Creation, directory-change and action commands tolerate any exit
//! status (`tolerant`); the select and attach commands abort the run when
//! they cannot be spawned (`fatal`).  An unrecognized probe exit code is
//! only reported; an abnormally terminated probe (no exit code) issues
//! nothing and reports nothing.

use vstd::prelude::*;

use crate::command::Command;
use crate::command::CommandModel;
use crate::existence::Existence;
use crate::existence::classification;
use crate::existence::classify;
use crate::layout::Plan;
use crate::layout::PlanModel;

verus! {

/// What the orchestrator does after the probe: commands to run with exit
/// statuses ignored, then commands whose spawn failure is fatal, or a
/// probe exit code to report instead.
pub struct IssueList {
    /// Run first, in order; exit statuses are ignored.
    pub tolerant: Vec<Command>,
    /// Run after `tolerant`, in order; a spawn failure aborts the run.
    pub fatal: Vec<Command>,
    /// An unrecognized probe exit code to report; nothing is run.
    pub report: Option<i32>,
}

/// Mathematical model of an `IssueList`.
#[verifier::ext_equal]
pub ghost struct IssueModel {
    pub tolerant: Seq<CommandModel>,
    pub fatal: Seq<CommandModel>,
    pub report: Option<i32>,
}

impl View for IssueList {
    type V = IssueModel;

    open spec fn view(&self) -> IssueModel {
        IssueModel {
            tolerant: self.tolerant.deep_view(),
            fatal: self.fatal.deep_view(),
            report: self.report,
        }
    }
}

/// The pending select command as a (zero- or one-element) batch.
pub open spec fn select_batch(select: Option<CommandModel>) -> Seq<CommandModel> {
    match select {
        Some(c) => seq![c],
        None => Seq::empty(),
    }
}

/// Every command an issue list makes the embedding program run, in order.
pub open spec fn issued(m: IssueModel) -> Seq<CommandModel> {
    m.tolerant + m.fatal
}

/// The issue list that no probe outcome can enlarge: nothing runs,
/// nothing is reported.
pub open spec fn silent_model() -> IssueModel {
    IssueModel { tolerant: Seq::empty(), fatal: Seq::empty(), report: None }
}

/// The orchestrator's decision as a pure function of the plan and the
/// probe's exit status.
pub open spec fn issue_model(p: PlanModel, status: Option<i32>) -> IssueModel {
    match status {
        Some(code) => match classification(code) {
            Existence::Exists => IssueModel {
                tolerant: Seq::empty(),
                fatal: seq![p.attach],
                report: None,
            },
            Existence::Absent => IssueModel {
                tolerant: p.creation + p.directories + p.actions,
                fatal: select_batch(p.select) + seq![p.attach],
                report: None,
            },
            Existence::UnknownStatus(c) => IssueModel {
                tolerant: Seq::empty(),
                fatal: Seq::empty(),
                report: Some(c),
            },
        },
        None => silent_model(),
    }
}

/// Decides what to issue after the probe.  Consumes the plan: each
/// command descriptor is handed out exactly once.
pub fn issue_list(plan: Plan, status: Option<i32>) -> (r: IssueList)
    ensures
        r@ == issue_model(plan@, status),
{
    let ghost p = plan@;
    match status {
        None => {
            let r = IssueList { tolerant: Vec::new(), fatal: Vec::new(), report: None };
            proof {
                assert(r@ =~= issue_model(p, status));
            }
            r
        },
        Some(code) => {
            let Plan { creation, directories, actions, select, attach, probe: _ } = plan;
            match classify(code) {
                Existence::Exists => {
                    let mut fatal: Vec<Command> = Vec::new();
                    fatal.push(attach);
                    let r = IssueList { tolerant: Vec::new(), fatal, report: None };
                    proof {
                        assert(r@.fatal =~= seq![p.attach]);
                        assert(r@ =~= issue_model(p, status));
                    }
                    r
                },
                Existence::Absent => {
                    let mut tolerant = creation;
                    let mut directories = directories;
                    let mut actions = actions;
                    tolerant.append(&mut directories);
                    tolerant.append(&mut actions);
                    let mut fatal: Vec<Command> = Vec::new();
                    if let Some(sel) = select {
                        fatal.push(sel);
                    }
                    fatal.push(attach);
                    let r = IssueList { tolerant, fatal, report: None };
                    proof {
                        assert(r@.tolerant =~= p.creation + p.directories + p.actions);
                        assert(r@.fatal =~= select_batch(p.select) + seq![p.attach]);
                        assert(r@ =~= issue_model(p, status));
                    }
                    r
                },
                Existence::UnknownStatus(c) => {
                    let r = IssueList { tolerant: Vec::new(), fatal: Vec::new(), report: Some(c) };
                    proof {
                        assert(r@ =~= issue_model(p, status));
                    }
                    r
                },
            }
        },
    }
}

/// Law: when the probe classifies the session as existing, exactly one
/// command — the plan's attach — is issued after the probe.
pub proof fn lemma_exists_attach_only(p: PlanModel, code: i32)
    requires
        classification(code) == Existence::Exists,
    ensures
        issued(issue_model(p, Some(code))) =~= seq![p.attach],
{
}

/// Law: when the probe classifies the session as absent, the issued
/// commands are exactly the creation batch, then the directory changes,
/// then the actions, then the pending selection (if any), then the
/// attach, in that order.
pub proof fn lemma_absent_order(p: PlanModel, code: i32)
    requires
        classification(code) == Existence::Absent,
    ensures
        issued(issue_model(p, Some(code))) =~= p.creation + p.directories + p.actions
            + select_batch(p.select) + seq![p.attach],
{
}

/// Law: an unrecognized probe exit code issues no command and reports
/// that code; an abnormally terminated probe issues and reports nothing.
pub proof fn lemma_no_build_without_classification(p: PlanModel, status: Option<i32>)
    ensures
        (match status {
            Some(code) => classification(code) is UnknownStatus,
            None => true,
        }) ==> issued(issue_model(p, status)) =~= Seq::<CommandModel>::empty(),
        status is None ==> issue_model(p, status) == silent_model(),
        (match status {
            Some(code) => classification(code) == Existence::UnknownStatus(code),
            None => false,
        }) ==> issue_model(p, status).report == status,
{
}

} // verus!

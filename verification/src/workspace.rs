//! Opening the workspace at start-up: the one marked opened, else the
//! primary workspace, which is created when missing.
//!
//! The database work is done by the caller; `WorkspaceService::next` decides,
//! from what the last request gave, which request comes next.

use vstd::prelude::*;
use vstd::string::StringExecFns;
use crate::ids::{hex_digits, id_text, parse_id, parsed_id};
use crate::records::Workspace;
use crate::text::push_str;

verus! {

/// The text of the primary workspace's id.
pub open spec fn primary_workspace_id_text() -> Seq<char> {
    "00000000-0000-4000-8000-000000000001"@
}

/// The id of the primary workspace, as a number.
pub open spec fn primary_workspace_id_value() -> u128 {
    0x0000_0000_0000_4000_8000_0000_0000_0001u128
}

/// The text of the primary workspace's id is the hyphenated text of its
/// number.
proof fn lemma_primary_id_text()
    ensures
        id_text(primary_workspace_id_value()) == primary_workspace_id_text(),
{
    reveal_strlit("00000000-0000-4000-8000-000000000001");
    // The digits, one at a time from the most significant.
    assert(hex_digits(0x0, 0) =~= Seq::<char>::empty());
    assert(hex_digits(0x0, 1) == hex_digits(0x0, 0).push('0'));
    assert(hex_digits(0x0, 2) == hex_digits(0x0, 1).push('0'));
    assert(hex_digits(0x0, 3) == hex_digits(0x0, 2).push('0'));
    assert(hex_digits(0x0, 4) == hex_digits(0x0, 3).push('0'));
    assert(hex_digits(0x0, 5) == hex_digits(0x0, 4).push('0'));
    assert(hex_digits(0x0, 6) == hex_digits(0x0, 5).push('0'));
    assert(hex_digits(0x0, 7) == hex_digits(0x0, 6).push('0'));
    assert(hex_digits(0x0, 8) == hex_digits(0x0, 7).push('0'));
    assert(hex_digits(0x0, 9) == hex_digits(0x0, 8).push('0'));
    assert(hex_digits(0x0, 10) == hex_digits(0x0, 9).push('0'));
    assert(hex_digits(0x0, 11) == hex_digits(0x0, 10).push('0'));
    assert(hex_digits(0x0, 12) == hex_digits(0x0, 11).push('0'));
    assert(hex_digits(0x4, 13) == hex_digits(0x0, 12).push('4'));
    assert(hex_digits(0x40, 14) == hex_digits(0x4, 13).push('0'));
    assert(hex_digits(0x400, 15) == hex_digits(0x40, 14).push('0'));
    assert(hex_digits(0x4000, 16) == hex_digits(0x400, 15).push('0'));
    assert(hex_digits(0x40008, 17) == hex_digits(0x4000, 16).push('8'));
    assert(hex_digits(0x400080, 18) == hex_digits(0x40008, 17).push('0'));
    assert(hex_digits(0x4000800, 19) == hex_digits(0x400080, 18).push('0'));
    assert(hex_digits(0x40008000, 20) == hex_digits(0x4000800, 19).push('0'));
    assert(hex_digits(0x400080000, 21) == hex_digits(0x40008000, 20).push('0'));
    assert(hex_digits(0x4000800000, 22) == hex_digits(0x400080000, 21).push('0'));
    assert(hex_digits(0x40008000000, 23) == hex_digits(0x4000800000, 22).push('0'));
    assert(hex_digits(0x400080000000, 24) == hex_digits(0x40008000000, 23).push('0'));
    assert(hex_digits(0x4000800000000, 25) == hex_digits(0x400080000000, 24).push('0'));
    assert(hex_digits(0x40008000000000, 26) == hex_digits(0x4000800000000, 25).push('0'));
    assert(hex_digits(0x400080000000000, 27) == hex_digits(0x40008000000000, 26).push('0'));
    assert(hex_digits(0x4000800000000000, 28) == hex_digits(0x400080000000000, 27).push('0'));
    assert(hex_digits(0x40008000000000000, 29) == hex_digits(0x4000800000000000, 28).push('0'));
    assert(hex_digits(0x400080000000000000, 30) == hex_digits(0x40008000000000000, 29).push('0'));
    assert(hex_digits(0x4000800000000000000, 31) == hex_digits(0x400080000000000000, 30).push('0'));
    assert(hex_digits(0x40008000000000000001, 32) == hex_digits(0x4000800000000000000, 31).push('1'));
    assert(id_text(primary_workspace_id_value()) =~= primary_workspace_id_text());
}

/// The name of the primary workspace.
pub open spec fn primary_workspace_name() -> Seq<char> {
    "Primary"@
}

/// The statement that gives the primary workspace its binary id where an
/// earlier version stored it as text.
pub open spec fn repair_primary_workspace_sql() -> Seq<char> {
    "UPDATE workspace SET id = x'"@ + "00000000000040008000000000000001"@ + "' WHERE name = '"@
        + "Primary"@ + "' AND typeof(id) = 'text'"@
}

/// Where the opening of the workspace stands.
#[derive(Clone, Copy, Debug, PartialEq, Eq, Structural)]
pub enum OpenWorkspaceStep {
    /// Nothing asked yet.
    Start,
    /// The repair statement was sent.
    Repairing,
    /// The opened workspace was asked for.
    FindingOpened,
    /// The primary workspace was asked for by name.
    FindingPrimary,
    /// A workspace was sent to be saved.
    Saving,
    /// The workspace is known.
    Done,
}

/// What the last request gave.
#[derive(Clone, Debug, PartialEq, Eq)]
pub enum OpenWorkspaceEvent {
    /// The opening begins.
    Begin,
    /// The repair statement ran.
    Repaired,
    /// The workspace marked opened (the most recently opened one), if any.
    FoundOpened(Option<Workspace>),
    /// The workspace named `Primary`, if any.
    FoundPrimary(Option<Workspace>),
    /// The workspace as saved.
    Saved(Workspace),
}

/// The request to make next.
#[derive(Clone, Debug, PartialEq, Eq)]
pub enum OpenWorkspaceAction {
    /// Run this SQL statement.
    Execute(String),
    /// Find the most recently opened workspace among those marked opened.
    FindOpened,
    /// Find the workspace with this name.
    FindByName(String),
    /// Save this existing workspace.
    Update(Workspace),
    /// Add this new workspace.
    Insert(Workspace),
    /// The workspace to use.
    Finish(Workspace),
    /// Stop with this message.
    Fail(String),
}

/// `workspace` marked opened at `now`.
pub open spec fn opened_at(w: Workspace, now: chrono::NaiveDateTime) -> Workspace {
    Workspace { is_opened: Some(true), last_opened: Some(now), updated_at: Some(now), ..w }
}

/// Whether `event` answers the request of `step`.
pub open spec fn event_fits(step: OpenWorkspaceStep, event: OpenWorkspaceEvent) -> bool {
    match step {
        OpenWorkspaceStep::Start => event is Begin,
        OpenWorkspaceStep::Repairing => event is Repaired,
        OpenWorkspaceStep::FindingOpened => event is FoundOpened,
        OpenWorkspaceStep::FindingPrimary => event is FoundPrimary,
        OpenWorkspaceStep::Saving => event is Saved,
        OpenWorkspaceStep::Done => false,
    }
}

/// The step that follows `step` when `event` comes.
pub open spec fn next_step(step: OpenWorkspaceStep, event: OpenWorkspaceEvent) -> OpenWorkspaceStep {
    match (step, event) {
        (OpenWorkspaceStep::Start, _) => OpenWorkspaceStep::Repairing,
        (OpenWorkspaceStep::Repairing, _) => OpenWorkspaceStep::FindingOpened,
        (OpenWorkspaceStep::FindingOpened, OpenWorkspaceEvent::FoundOpened(Some(_))) => OpenWorkspaceStep::Done,
        (OpenWorkspaceStep::FindingOpened, _) => OpenWorkspaceStep::FindingPrimary,
        (OpenWorkspaceStep::FindingPrimary, OpenWorkspaceEvent::FoundPrimary(Some(_))) => OpenWorkspaceStep::Saving,
        (OpenWorkspaceStep::FindingPrimary, _) => if parsed_id(primary_workspace_id_text()) is Some {
            OpenWorkspaceStep::Saving
        } else {
            OpenWorkspaceStep::Done
        },
        (OpenWorkspaceStep::Saving, _) => OpenWorkspaceStep::Done,
        (OpenWorkspaceStep::Done, _) => OpenWorkspaceStep::Done,
    }
}

/// How many requests at most remain from `step`.
pub open spec fn steps_left(step: OpenWorkspaceStep) -> nat {
    match step {
        OpenWorkspaceStep::Start => 5,
        OpenWorkspaceStep::Repairing => 4,
        OpenWorkspaceStep::FindingOpened => 3,
        OpenWorkspaceStep::FindingPrimary => 2,
        OpenWorkspaceStep::Saving => 1,
        OpenWorkspaceStep::Done => 0,
    }
}

/// Opening the workspace ends: whatever the database answers, each answer
/// moves closer to the end, so at most five requests are made.
pub proof fn lemma_opening_ends(step: OpenWorkspaceStep, event: OpenWorkspaceEvent)
    requires
        event_fits(step, event),
    ensures
        steps_left(next_step(step, event)) < steps_left(step),
{
}

/// Every workspace that opening saves is marked opened, at the time given.
pub proof fn lemma_saved_workspace_is_opened(w: Workspace, now: chrono::NaiveDateTime)
    ensures
        opened_at(w, now).is_opened == Some(true),
        opened_at(w, now).last_opened == Some(now),
        opened_at(w, now).id == w.id,
        opened_at(w, now).name == w.name,
        opened_at(w, now).created_at == w.created_at,
{
}

/// The step an opening has reached after the database gave `answers`, in
/// order, from the start.
pub open spec fn step_after(answers: Seq<OpenWorkspaceEvent>) -> OpenWorkspaceStep
    decreases answers.len(),
{
    if answers.len() == 0 {
        OpenWorkspaceStep::Start
    } else {
        next_step(step_after(answers.drop_last()), answers.last())
    }
}

/// The answers the database gives an opening that finds an opened
/// workspace `w`.
pub open spec fn answers_finding_opened(w: Workspace) -> Seq<OpenWorkspaceEvent> {
    seq![
        OpenWorkspaceEvent::Begin,
        OpenWorkspaceEvent::Repaired,
        OpenWorkspaceEvent::FoundOpened(Some(w)),
    ]
}

/// Opening again after an opening has stored its workspace marked opened
/// writes nothing: once the lookup of opened workspaces answers with a
/// workspace, the opening is done with that workspace, and none of its
/// steps is `Saving`, the step that `next` enters exactly when it asks for
/// an insert or an update.
pub proof fn lemma_reopening_writes_nothing(w: Workspace)
    ensures
        step_after(answers_finding_opened(w)) == OpenWorkspaceStep::Done,
        forall|k: int|
            0 <= k <= 3 ==> step_after(#[trigger] answers_finding_opened(w).take(k))
                != OpenWorkspaceStep::Saving,
        event_fits(OpenWorkspaceStep::FindingOpened, OpenWorkspaceEvent::FoundOpened(Some(w))),
        next_step(OpenWorkspaceStep::FindingOpened, OpenWorkspaceEvent::FoundOpened(Some(w)))
            == OpenWorkspaceStep::Done,
{
    let a = answers_finding_opened(w);
    assert(a.take(0) =~= Seq::<OpenWorkspaceEvent>::empty());
    assert(a.take(1).drop_last() =~= a.take(0));
    assert(a.take(2).drop_last() =~= a.take(1));
    assert(a.take(3).drop_last() =~= a.take(2));
    assert(a.take(3) =~= a);
    assert(step_after(a.take(0)) == OpenWorkspaceStep::Start);
    assert(step_after(a.take(1)) == OpenWorkspaceStep::Repairing);
    assert(step_after(a.take(2)) == OpenWorkspaceStep::FindingOpened);
    assert(step_after(a.take(3)) == OpenWorkspaceStep::Done);
}

/// The workspace service.
#[derive(Clone, Copy, Debug, PartialEq, Eq)]
pub struct WorkspaceService;

impl WorkspaceService {
    /// The statement that repairs the primary workspace's id.
    pub fn repair_primary_workspace_id_sql() -> (s: String)
        ensures
            s@ == repair_primary_workspace_sql(),
    {
        let mut s = String::from_str("UPDATE workspace SET id = x'");
        push_str(&mut s, "00000000000040008000000000000001");
        push_str(&mut s, "' WHERE name = '");
        push_str(&mut s, "Primary");
        push_str(&mut s, "' AND typeof(id) = 'text'");
        s
    }

    /// The id of the primary workspace, read from its text.
    pub fn primary_workspace_id() -> (r: Option<u128>)
        ensures
            r == parsed_id(primary_workspace_id_text()),
            r == Some(primary_workspace_id_value()),
    {
        proof {
            lemma_primary_id_text();
        }
        parse_id("00000000-0000-4000-8000-000000000001")
    }

    /// `workspace`, marked opened at `now`.
    pub fn mark_workspace_opened(workspace: Workspace, now: chrono::NaiveDateTime) -> (w: Workspace)
        ensures
            w == opened_at(workspace, now),
    {
        Workspace {
            is_opened: Some(true),
            last_opened: Some(now),
            updated_at: Some(now),
            ..workspace
        }
    }

    /// A new primary workspace with id `id`, opened and created at `now`.
    pub fn new_primary_workspace(id: u128, now: chrono::NaiveDateTime) -> (w: Workspace)
        ensures
            w.id == id,
            w.name@ == primary_workspace_name(),
            w.is_opened == Some(true),
            w.last_opened == Some(now),
            w.created_at == Some(now),
            w.updated_at == Some(now),
    {
        Workspace {
            id,
            name: String::from_str("Primary"),
            is_opened: Some(true),
            last_opened: Some(now),
            created_at: Some(now),
            updated_at: Some(now),
        }
    }

    /// The next step of opening the workspace, and the request to make.
    /// The primary id is read only when the primary workspace must be
    /// created. Every workspace that is saved is marked opened.
    pub fn next(step: OpenWorkspaceStep, event: OpenWorkspaceEvent, now: chrono::NaiveDateTime) -> (r: (
        OpenWorkspaceStep,
        OpenWorkspaceAction,
    ))
        requires
            event_fits(step, event),
        ensures
            r.0 == next_step(step, event),
            (r.1 is Update || r.1 is Insert) <==> r.0 == OpenWorkspaceStep::Saving,
            match (step, event) {
                (OpenWorkspaceStep::Start, _) => r.0 == OpenWorkspaceStep::Repairing && (r.1 matches OpenWorkspaceAction::Execute(s) && s@ == repair_primary_workspace_sql()),
                (OpenWorkspaceStep::Repairing, _) => r == (OpenWorkspaceStep::FindingOpened, OpenWorkspaceAction::FindOpened),
                (OpenWorkspaceStep::FindingOpened, OpenWorkspaceEvent::FoundOpened(Some(w))) => r == (OpenWorkspaceStep::Done, OpenWorkspaceAction::Finish(w)),
                (OpenWorkspaceStep::FindingOpened, _) => r.0 == OpenWorkspaceStep::FindingPrimary && (r.1 matches OpenWorkspaceAction::FindByName(n) && n@ == primary_workspace_name()),
                (OpenWorkspaceStep::FindingPrimary, OpenWorkspaceEvent::FoundPrimary(Some(w))) => r == (OpenWorkspaceStep::Saving, OpenWorkspaceAction::Update(opened_at(w, now))),
                (OpenWorkspaceStep::FindingPrimary, _) => match parsed_id(primary_workspace_id_text()) {
                    Some(id) => r.0 == OpenWorkspaceStep::Saving && (r.1 matches OpenWorkspaceAction::Insert(w) && w.id == id && w.name@ == primary_workspace_name() && w.is_opened == Some(true) && w.last_opened == Some(now) && w.created_at == Some(now) && w.updated_at == Some(now)),
                    None => r.0 == OpenWorkspaceStep::Done && (r.1 matches OpenWorkspaceAction::Fail(m) && m@ == "invalid primary workspace id"@),
                },
                (OpenWorkspaceStep::Saving, OpenWorkspaceEvent::Saved(w)) => r == (OpenWorkspaceStep::Done, OpenWorkspaceAction::Finish(w)),
                _ => true,
            },
    {
        match step {
            OpenWorkspaceStep::Start => (
                OpenWorkspaceStep::Repairing,
                OpenWorkspaceAction::Execute(Self::repair_primary_workspace_id_sql()),
            ),
            OpenWorkspaceStep::Repairing => (OpenWorkspaceStep::FindingOpened, OpenWorkspaceAction::FindOpened),
            OpenWorkspaceStep::FindingOpened => match event {
                OpenWorkspaceEvent::FoundOpened(Some(w)) => (OpenWorkspaceStep::Done, OpenWorkspaceAction::Finish(w)),
                _ => (
                    OpenWorkspaceStep::FindingPrimary,
                    OpenWorkspaceAction::FindByName(String::from_str("Primary")),
                ),
            },
            OpenWorkspaceStep::FindingPrimary => match event {
                OpenWorkspaceEvent::FoundPrimary(Some(w)) => (
                    OpenWorkspaceStep::Saving,
                    OpenWorkspaceAction::Update(Self::mark_workspace_opened(w, now)),
                ),
                _ => match Self::primary_workspace_id() {
                    Some(id) => (
                        OpenWorkspaceStep::Saving,
                        OpenWorkspaceAction::Insert(Self::new_primary_workspace(id, now)),
                    ),
                    None => (
                        OpenWorkspaceStep::Done,
                        OpenWorkspaceAction::Fail(String::from_str("invalid primary workspace id")),
                    ),
                },
            },
            OpenWorkspaceStep::Saving => match event {
                OpenWorkspaceEvent::Saved(w) => (OpenWorkspaceStep::Done, OpenWorkspaceAction::Finish(w)),
                _ => (OpenWorkspaceStep::Done, OpenWorkspaceAction::Fail(String::from_str("invalid primary workspace id"))),
            },
            OpenWorkspaceStep::Done => (OpenWorkspaceStep::Done, OpenWorkspaceAction::FindOpened),
        }
    }
}

} // verus!

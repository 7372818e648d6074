use chrono::NaiveDate;
use pyew::records::Workspace;
use pyew::workspace::{OpenWorkspaceAction, OpenWorkspaceEvent, OpenWorkspaceStep, WorkspaceService};

fn time(h: u32) -> chrono::NaiveDateTime {
    NaiveDate::from_ymd_opt(2025, 9, 25).unwrap().and_hms_opt(h, 0, 0).unwrap()
}

fn workspace(name: &str) -> Workspace {
    Workspace { id: 42, name: name.into(), is_opened: Some(false), last_opened: None, created_at: Some(time(1)), updated_at: None }
}

const PRIMARY: u128 = 0x00000000_0000_4000_8000_000000000001;

#[test]
fn repair_statement() {
    assert_eq!(
        WorkspaceService::repair_primary_workspace_id_sql(),
        "UPDATE workspace SET id = x'00000000000040008000000000000001' WHERE name = 'Primary' AND typeof(id) = 'text'"
    );
}

#[test]
fn primary_id_is_read_from_its_text() {
    assert_eq!(WorkspaceService::primary_workspace_id(), Some(PRIMARY));
}

#[test]
fn marking_opened() {
    let w = WorkspaceService::mark_workspace_opened(workspace("w"), time(9));
    assert_eq!(w.is_opened, Some(true));
    assert_eq!(w.last_opened, Some(time(9)));
    assert_eq!(w.updated_at, Some(time(9)));
    assert_eq!(w.created_at, Some(time(1)));
    assert_eq!(w.id, 42);
    assert_eq!(w.name, "w");
}

#[test]
fn opened_workspace_is_used_as_it_is() {
    let now = time(5);
    let (s, a) = WorkspaceService::next(OpenWorkspaceStep::Start, OpenWorkspaceEvent::Begin, now);
    assert_eq!(s, OpenWorkspaceStep::Repairing);
    assert_eq!(a, OpenWorkspaceAction::Execute(WorkspaceService::repair_primary_workspace_id_sql()));
    let (s, a) = WorkspaceService::next(s, OpenWorkspaceEvent::Repaired, now);
    assert_eq!((s, a), (OpenWorkspaceStep::FindingOpened, OpenWorkspaceAction::FindOpened));
    let (s, a) = WorkspaceService::next(s, OpenWorkspaceEvent::FoundOpened(Some(workspace("x"))), now);
    assert_eq!(s, OpenWorkspaceStep::Done);
    assert_eq!(a, OpenWorkspaceAction::Finish(workspace("x")));
}

#[test]
fn primary_workspace_is_opened_when_found_by_name() {
    let now = time(6);
    let (s, a) = WorkspaceService::next(OpenWorkspaceStep::FindingOpened, OpenWorkspaceEvent::FoundOpened(None), now);
    assert_eq!(s, OpenWorkspaceStep::FindingPrimary);
    assert_eq!(a, OpenWorkspaceAction::FindByName("Primary".into()));
    let (s, a) = WorkspaceService::next(s, OpenWorkspaceEvent::FoundPrimary(Some(workspace("Primary"))), now);
    assert_eq!(s, OpenWorkspaceStep::Saving);
    assert_eq!(a, OpenWorkspaceAction::Update(WorkspaceService::mark_workspace_opened(workspace("Primary"), now)));
    let saved = WorkspaceService::mark_workspace_opened(workspace("Primary"), now);
    let (s, a) = WorkspaceService::next(s, OpenWorkspaceEvent::Saved(saved.clone()), now);
    assert_eq!((s, a), (OpenWorkspaceStep::Done, OpenWorkspaceAction::Finish(saved)));
}

#[test]
fn primary_workspace_is_created_when_missing() {
    let now = time(7);
    let (s, a) = WorkspaceService::next(OpenWorkspaceStep::FindingPrimary, OpenWorkspaceEvent::FoundPrimary(None), now);
    assert_eq!(s, OpenWorkspaceStep::Saving);
    let expected = Workspace {
        id: PRIMARY,
        name: "Primary".into(),
        is_opened: Some(true),
        last_opened: Some(now),
        created_at: Some(now),
        updated_at: Some(now),
    };
    assert_eq!(a, OpenWorkspaceAction::Insert(expected.clone()));
    assert_eq!(WorkspaceService::new_primary_workspace(PRIMARY, now), expected);
}

#[test]
fn opening_ends_within_five_requests() {
    let now = time(8);
    let mut step = OpenWorkspaceStep::Start;
    let mut requests = 0;
    while step != OpenWorkspaceStep::Done {
        let event = match step {
            OpenWorkspaceStep::Start => OpenWorkspaceEvent::Begin,
            OpenWorkspaceStep::Repairing => OpenWorkspaceEvent::Repaired,
            OpenWorkspaceStep::FindingOpened => OpenWorkspaceEvent::FoundOpened(None),
            OpenWorkspaceStep::FindingPrimary => OpenWorkspaceEvent::FoundPrimary(None),
            OpenWorkspaceStep::Saving => OpenWorkspaceEvent::Saved(workspace("Primary")),
            OpenWorkspaceStep::Done => unreachable!(),
        };
        let (next, _) = WorkspaceService::next(step, event, now);
        step = next;
        requests += 1;
    }
    assert_eq!(requests, 5);
}

#[test]
fn reopening_an_opened_workspace_writes_nothing() {
    let now = time(9);
    let first = WorkspaceService::new_primary_workspace(PRIMARY, time(8));
    let mut step = OpenWorkspaceStep::Start;
    let mut actions = Vec::new();
    for event in [
        OpenWorkspaceEvent::Begin,
        OpenWorkspaceEvent::Repaired,
        OpenWorkspaceEvent::FoundOpened(Some(first.clone())),
    ] {
        let (next, action) = WorkspaceService::next(step, event, now);
        assert_ne!(next, OpenWorkspaceStep::Saving);
        step = next;
        actions.push(action);
    }
    assert_eq!(step, OpenWorkspaceStep::Done);
    assert!(actions
        .iter()
        .all(|a| !matches!(a, OpenWorkspaceAction::Insert(_) | OpenWorkspaceAction::Update(_))));
    assert_eq!(actions.last(), Some(&OpenWorkspaceAction::Finish(first)));
}

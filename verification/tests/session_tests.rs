use workspace_lock::enforce::{Command, Notice, Outcome, Urgency};
use workspace_lock::policy::{IdentifierMode, Policy};
use workspace_lock::session::{
    arbitrate, identifier_of, EventKind, FocusEvent, LockSession, SessionState, Wakeup,
};
use workspace_lock::wm::WorkspaceInfo;

fn policy(allowed: Vec<&str>, invert: bool, mode: IdentifierMode) -> Policy {
    Policy { allowed: allowed.into_iter().map(|s| s.to_string()).collect(), invert, mode }
}

fn focus(name: &str) -> Wakeup {
    Wakeup::Event(FocusEvent { kind: EventKind::Focus, name: Some(name.to_string()), num: None })
}

fn switch_target(out: &Outcome) -> Option<String> {
    match &out.command {
        Some(Command::Switch { target, .. }) => Some(target.clone()),
        _ => None,
    }
}

fn neutral_target_of(out: &Outcome) -> Option<String> {
    match &out.command {
        Some(Command::SwitchNeutral { target }) => Some(target.clone()),
        _ => None,
    }
}

#[test]
fn compliant_events_issue_no_commands() {
    let mut session = LockSession::new(policy(vec!["a", "b"], false, IdentifierMode::Name));
    let mut commands: usize = 0;
    let out = session.start(&Some(WorkspaceInfo {
        name: "a".to_string(),
        num: Some(1),
        focused: true,
    }));
    if out.command.is_some() {
        commands += 1;
    }
    for name in ["b", "a", "b", "b"] {
        let out = session.step(focus(name));
        if out.command.is_some() {
            commands += 1;
        }
        assert!(out.notice.is_none());
    }
    assert_eq!(commands, 0);
    // the fallback followed the latest compliant sighting: a disallowed event
    // is now reverted to "b", the last one seen
    let out = session.step(focus("elsewhere"));
    assert_eq!(switch_target(&out), Some("b".to_string()));
}

#[test]
fn fallback_tracks_latest_compliant_workspace() {
    let mut session = LockSession::new(policy(vec!["a", "b"], false, IdentifierMode::Name));
    session.start(&None);
    // before any compliant sighting the fallback is the designated first entry
    let out = session.step(focus("x"));
    assert_eq!(switch_target(&out), Some("a".to_string()));
    let out = session.step(focus("y"));
    assert_eq!(switch_target(&out), Some("a".to_string()));
    // a compliant sighting on "b" moves the fallback
    let out = session.step(focus("b"));
    assert!(out.command.is_none());
    let out = session.step(focus("x"));
    assert_eq!(switch_target(&out), Some("b".to_string()));
}

#[test]
fn degraded_fallback_switches_to_neutral_workspace() {
    let mut session = LockSession::new(policy(vec!["x"], true, IdentifierMode::Name));
    session.start(&None);
    // inverted policy, no compliant sighting yet: a disallowed event lands on
    // the neutral workspace instead of failing
    let out = session.step(focus("x"));
    assert_eq!(neutral_target_of(&out), Some("temp".to_string()));
    assert_eq!(out.notice, Some(Notice::Locked));
    assert_eq!(out.command.unwrap().text(), "workspace temp");
    // once a compliant workspace is sighted, it becomes the fallback
    let out = session.step(focus("other"));
    assert!(out.command.is_none());
    let out = session.step(focus("x"));
    assert_eq!(switch_target(&out), Some("other".to_string()));
}

#[test]
fn neutral_landing_spot_avoids_an_inverted_allow_list() {
    // an inverted policy that lists the reserved name itself: the landing
    // spot must still fall outside the list, or the revert would be a fresh
    // violation
    let mut session = LockSession::new(policy(vec!["temp", "temp_"], true, IdentifierMode::Name));
    session.start(&None);
    let out = session.step(focus("temp"));
    let target = neutral_target_of(&out).unwrap();
    assert_eq!(target, "temp__");
    assert!(!["temp", "temp_"].contains(&target.as_str()));
    assert_eq!(out.command.unwrap().text(), "workspace temp__");
}

#[test]
fn end_to_end_session() {
    let mut session = LockSession::new(policy(vec!["work"], false, IdentifierMode::Name));
    let mut commands: usize = 0;
    let mut notices: Vec<Notice> = Vec::new();

    // start focused on "work": no command issued at startup
    let out = session.start(&Some(WorkspaceInfo {
        name: "work".to_string(),
        num: Some(1),
        focused: true,
    }));
    assert!(out.command.is_none());
    assert!(out.notice.is_none());
    assert_eq!(session.state, SessionState::Running);

    // a switch to "play" is reverted with one command and one critical alert
    let out = session.step(focus("play"));
    assert_eq!(switch_target(&out), Some("work".to_string()));
    if out.command.is_some() {
        commands += 1;
    }
    let notice = out.notice.unwrap();
    assert_eq!(notice, Notice::Locked);
    assert_eq!(notice.summary(), "Workspace locked!");
    assert_eq!(notice.urgency(), Urgency::Critical);
    assert_eq!(notice.timeout_ms(), 2_000);
    notices.push(notice);

    // the countdown fires: one informational unlock note, then the session ends
    let out = session.step(Wakeup::Timer);
    assert_eq!(session.state, SessionState::Draining);
    assert!(out.command.is_none());
    let notice = out.notice.unwrap();
    assert_eq!(notice, Notice::Unlocked);
    assert_eq!(notice.summary(), "Workspaces unlocked");
    assert_eq!(notice.urgency(), Urgency::Normal);
    notices.push(notice);
    session.release();
    assert_eq!(session.state, SessionState::Ended);

    assert_eq!(commands, 1);
    assert_eq!(notices, vec![Notice::Locked, Notice::Unlocked]);
}

#[test]
fn countdown_wins_a_tie_with_a_ready_event() {
    let ready = FocusEvent { kind: EventKind::Focus, name: Some("play".to_string()), num: None };
    assert!(matches!(arbitrate(true, Some(ready)), Wakeup::Timer));
    let ready = FocusEvent { kind: EventKind::Focus, name: Some("play".to_string()), num: None };
    assert!(matches!(arbitrate(false, Some(ready)), Wakeup::Event(_)));
    assert!(matches!(arbitrate(true, None), Wakeup::Timer));
}

#[test]
fn non_focus_events_are_ignored() {
    let mut session = LockSession::new(policy(vec!["work"], false, IdentifierMode::Name));
    session.start(&None);
    let out = session.step(Wakeup::Event(FocusEvent {
        kind: EventKind::Other,
        name: Some("play".to_string()),
        num: None,
    }));
    assert!(out.command.is_none());
    assert!(out.notice.is_none());
    assert_eq!(session.state, SessionState::Running);
}

#[test]
fn numeric_mode_compares_rendered_numbers() {
    let mut session = LockSession::new(policy(vec!["3"], false, IdentifierMode::Number));
    session.start(&Some(WorkspaceInfo { name: "3: mail".to_string(), num: Some(3), focused: true }));
    // focus on workspace number 5 is reverted by number
    let out = session.step(Wakeup::Event(FocusEvent {
        kind: EventKind::Focus,
        name: Some("5: web".to_string()),
        num: Some(5),
    }));
    assert_eq!(switch_target(&out), Some("3".to_string()));
    assert_eq!(out.command.unwrap().text(), "workspace number 3");
    // an event with no number under numeric mode is disallowed as well
    let out = session.step(Wakeup::Event(FocusEvent {
        kind: EventKind::Focus,
        name: Some("named".to_string()),
        num: None,
    }));
    assert_eq!(switch_target(&out), Some("3".to_string()));
}

#[test]
fn identifier_extraction_follows_the_mode() {
    assert_eq!(
        identifier_of(&Some("web".to_string()), &Some(5), IdentifierMode::Name),
        Some("web".to_string())
    );
    assert_eq!(
        identifier_of(&Some("web".to_string()), &Some(5), IdentifierMode::Number),
        Some("5".to_string())
    );
    assert_eq!(identifier_of(&Some("web".to_string()), &None, IdentifierMode::Number), None);
    assert_eq!(identifier_of(&None, &Some(-7), IdentifierMode::Number), Some("-7".to_string()));
    assert_eq!(identifier_of(&None, &Some(5), IdentifierMode::Name), None);
}

#[test]
fn startup_pass_reverts_a_disallowed_start() {
    let mut session = LockSession::new(policy(vec!["work"], false, IdentifierMode::Name));
    let out = session.start(&Some(WorkspaceInfo {
        name: "play".to_string(),
        num: Some(2),
        focused: true,
    }));
    assert_eq!(switch_target(&out), Some("work".to_string()));
    assert_eq!(out.notice, Some(Notice::Locked));
    // no focused workspace at startup is treated defensively as disallowed
    let mut session = LockSession::new(policy(vec!["work"], false, IdentifierMode::Name));
    let out = session.start(&None);
    assert_eq!(switch_target(&out), Some("work".to_string()));
}

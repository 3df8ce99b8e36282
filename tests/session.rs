use s4killer::cli::start;
use s4killer::lookup::ProcessEntry;
use s4killer::protocol::CommandMessage;
use s4killer::session::{Action, Event, Failure, Outcome, Resource, Session, Stage};

#[derive(Clone, Copy, PartialEq, Debug)]
struct World {
    image_present: bool,
    registered: bool,
    loaded: bool,
}

/// Drives a session to its end; `fail_at` makes that action fail.
fn drive(session: &mut Session, world: &mut World, fail_at: Option<usize>) -> (Vec<Action>, usize, usize) {
    let mut actions = Vec::new();
    let (mut acquired, mut released) = (0, 0);
    loop {
        let a = session.action();
        if let Action::Finish(_) = a {
            return (actions, acquired, released);
        }
        actions.push(a);
        assert!(actions.len() < 100);
        let mut e = match a {
            Action::CheckImage => if world.image_present { Event::Succeeded } else { Event::NotFound },
            Action::WriteImage => { world.image_present = true; Event::Succeeded }
            Action::OpenService => if world.registered { Event::Succeeded } else { Event::NotFound },
            Action::CreateService => { world.registered = true; Event::Succeeded }
            Action::LoadFilter => { world.loaded = true; Event::Succeeded }
            Action::ConnectPort => if world.loaded { Event::Succeeded } else { Event::Failed },
            _ => Event::Succeeded,
        };
        if fail_at == Some(actions.len() - 1) {
            e = Event::Failed;
        }
        let before = session.held().len();
        session.advance(e);
        let after = session.held().len();
        if after > before { acquired += 1; }
        if after < before { released += 1; }
        if let Action::Close(r) = a {
            assert_eq!(after + 1, before);
            let _ = r;
        }
    }
}

const FRESH: World = World { image_present: false, registered: false, loaded: false };

#[test]
fn fresh_run_sends_target_then_enable() {
    let table = vec![ProcessEntry { pid: 4200, name: "notepad.exe".to_string() }];
    let mut s = start(&table, "notepad.exe", 77).unwrap();
    let mut w = FRESH;
    let (actions, acquired, released) = drive(&mut s, &mut w, None);
    assert_eq!(s.outcome(), Some(Outcome::Success));
    assert_eq!(acquired, released);
    let expected = vec![
        Action::OpenToken,
        Action::LookupPrivilege,
        Action::EnablePrivilege,
        Action::Close(Resource::Token),
        Action::CheckImage,
        Action::WriteImage,
        Action::OpenManager,
        Action::OpenService,
        Action::CreateService,
        Action::OpenServiceKey,
        Action::CreateInstancesKey,
        Action::CreateInstanceKey,
        Action::SetDefaultInstance,
        Action::SetAltitude,
        Action::Close(Resource::InstanceKey),
        Action::Close(Resource::InstancesKey),
        Action::Close(Resource::ServiceKey),
        Action::LoadFilter,
        Action::Close(Resource::Service),
        Action::Close(Resource::Manager),
        Action::ConnectPort,
        Action::Send(CommandMessage::SetTerminationTarget { target_pid: 4200 }),
        Action::Send(CommandMessage::EnableTermination { requester_pid: 77 }),
        Action::Close(Resource::Port),
    ];
    assert_eq!(actions, expected);
    let sends: Vec<Vec<u8>> = actions
        .iter()
        .filter_map(|a| if let Action::Send(m) = a { Some(m.encode()) } else { None })
        .collect();
    assert_eq!(sends[0], vec![3, 0, 0, 0, 0x68, 0x10, 0, 0]);
    assert_eq!(sends[1], vec![1, 0, 0, 0, 1, 0, 0, 0, 77, 0, 0, 0]);
}

#[test]
fn already_registered_skips_creation_and_load() {
    let mut s = Session::new(4200, 1);
    let mut w = World { image_present: true, registered: true, loaded: true };
    let (actions, _, _) = drive(&mut s, &mut w, None);
    assert_eq!(s.outcome(), Some(Outcome::Success));
    assert_eq!(
        actions[..7].to_vec(),
        vec![
            Action::OpenToken,
            Action::LookupPrivilege,
            Action::EnablePrivilege,
            Action::Close(Resource::Token),
            Action::CheckImage,
            Action::OpenManager,
            Action::OpenService,
        ]
    );
    assert_eq!(actions[7], Action::Close(Resource::Service));
    assert_eq!(actions[8], Action::Close(Resource::Manager));
    assert_eq!(actions[9], Action::ConnectPort);
    assert!(!actions.iter().any(|a| matches!(a, Action::WriteImage | Action::CreateService | Action::LoadFilter)));
}

#[test]
fn second_run_changes_nothing() {
    let mut w = FRESH;
    let mut first = Session::new(10, 20);
    drive(&mut first, &mut w, None);
    let after_first = w;
    let mut second = Session::new(10, 20);
    let (actions, _, _) = drive(&mut second, &mut w, None);
    assert_eq!(first.outcome(), Some(Outcome::Success));
    assert_eq!(second.outcome(), Some(Outcome::Success));
    assert_eq!(w, after_first);
    assert_eq!(w, World { image_present: true, registered: true, loaded: true });
    assert!(!actions.iter().any(|a| matches!(a, Action::WriteImage | Action::CreateService | Action::LoadFilter)));
}

#[test]
fn every_failure_releases_every_handle() {
    for k in 0..24 {
        let mut s = Session::new(1, 2);
        let mut w = FRESH;
        let (_, acquired, released) = drive(&mut s, &mut w, Some(k));
        assert_eq!(acquired, released, "failure at action {k}");
        assert!(s.held().is_empty());
        assert!(matches!(s.outcome(), Some(_)));
    }
}

#[test]
fn failure_kinds_by_step() {
    let cases = [
        (0, Outcome::Failed(Failure::Privilege)),
        (2, Outcome::Failed(Failure::Privilege)),
        (4, Outcome::Failed(Failure::Provisioning)),
        (5, Outcome::Failed(Failure::Provisioning)),
        (6, Outcome::Failed(Failure::Registration)),
        (7, Outcome::Failed(Failure::Registration)),
        (13, Outcome::Failed(Failure::Registration)),
        (17, Outcome::Failed(Failure::Activation)),
        (20, Outcome::Failed(Failure::Channel)),
        (21, Outcome::Failed(Failure::Channel)),
        (22, Outcome::Failed(Failure::Channel)),
        (3, Outcome::Success),
        (23, Outcome::Success),
    ];
    for (k, expected) in cases {
        let mut s = Session::new(1, 2);
        let mut w = FRESH;
        drive(&mut s, &mut w, Some(k));
        assert_eq!(s.outcome(), Some(expected), "failure at action {k}");
    }
}

#[test]
fn enable_is_not_sent_when_target_is_refused() {
    let mut s = Session::new(1, 2);
    let mut w = FRESH;
    let (actions, _, _) = drive(&mut s, &mut w, Some(21));
    assert!(!actions.iter().any(|a| matches!(a, Action::Send(CommandMessage::EnableTermination { .. }))));
    assert_eq!(actions.last(), Some(&Action::Close(Resource::Port)));
}

#[test]
fn unwinding_releases_in_reverse_order() {
    let mut s = Session::new(1, 2);
    let mut w = FRESH;
    let (actions, _, _) = drive(&mut s, &mut w, Some(13));
    assert_eq!(
        actions[14..].to_vec(),
        vec![
            Action::Close(Resource::InstanceKey),
            Action::Close(Resource::InstancesKey),
            Action::Close(Resource::ServiceKey),
            Action::Close(Resource::Service),
            Action::Close(Resource::Manager),
        ]
    );
    assert_eq!(s.action(), Action::Finish(Outcome::Failed(Failure::Registration)));
}

#[test]
fn unregistered_lookup_error_is_fatal_without_creation() {
    let mut s = Session::new(1, 2);
    let mut w = World { image_present: true, registered: true, loaded: true };
    // OpenService is the seventh action on this path.
    let (actions, acquired, released) = drive(&mut s, &mut w, Some(6));
    assert_eq!(s.outcome(), Some(Outcome::Failed(Failure::Registration)));
    assert!(!actions.iter().any(|a| matches!(a, Action::CreateService)));
    assert_eq!(acquired, released);
    assert_eq!(s.stage(), Stage::Finished(Outcome::Failed(Failure::Registration)));
}

#[test]
fn finished_session_stays_finished() {
    let mut s = Session::new(1, 2);
    s.advance(Event::Failed);
    assert_eq!(s.outcome(), Some(Outcome::Failed(Failure::Privilege)));
    s.advance(Event::Succeeded);
    assert_eq!(s.action(), Action::Finish(Outcome::Failed(Failure::Privilege)));
}

#[test]
fn privilege_failure_changes_nothing() {
    for k in 0..3 {
        let mut s = Session::new(1, 2);
        let mut w = FRESH;
        let (actions, acquired, released) = drive(&mut s, &mut w, Some(k));
        assert_eq!(s.outcome(), Some(Outcome::Failed(Failure::Privilege)));
        assert_eq!(w, FRESH);
        assert!(!actions.iter().any(|a| matches!(a, Action::CheckImage | Action::WriteImage | Action::OpenManager)));
        assert_eq!(acquired, released);
    }
}

//! The session registry.

use winmux::ids::{PaneId, SessionId, WindowId};
use winmux::messages::{AttachTarget, KillSessionTarget};
use winmux::session::{KillOutcome, PaneRuntime, Registry, RegistryError};
use winmux::types::{EnvMap, NewSessionRequest, PaneSize};

fn empty_request() -> NewSessionRequest {
    NewSessionRequest { name: None, shell: None, cwd: None, env: EnvMap::new(), detached: false }
}

fn named(name: &str) -> NewSessionRequest {
    let mut req = empty_request();
    req.name = Some(name.to_owned());
    req
}

#[test]
fn create_session_assigns_untitled_when_no_name() {
    let mut r: Registry<u32> = Registry::new();
    let id = r.create_session(&empty_request()).expect("create");
    let summary = r.list_summaries().into_iter().find(|s| s.id == id).expect("listed");
    assert!(summary.name.starts_with("untitled-"));
    assert_eq!(summary.windows, 1);
    assert_eq!(summary.attached_clients, 0);
}

#[test]
fn create_session_rejects_duplicate_name() {
    let mut r: Registry<u32> = Registry::new();
    let req = named("work");
    r.create_session(&req).expect("first");
    let dup = r.create_session(&req);
    assert!(matches!(dup, Err(RegistryError::NameTaken(_))));
}

#[test]
fn list_summaries_orders_by_created_at() {
    let mut r: Registry<u32> = Registry::new();
    for _ in 0..3 {
        r.create_session(&empty_request()).expect("create");
    }
    let summaries = r.list_summaries();
    assert_eq!(summaries.len(), 3);
    for pair in summaries.windows(2) {
        assert!(pair[0].created_at <= pair[1].created_at);
    }
}

#[test]
fn attach_increments_and_detach_decrements_counter() {
    let mut r: Registry<u32> = Registry::new();
    let id = r.create_session(&empty_request()).expect("create");
    let attach = r.attach(&AttachTarget::Id { id: id.clone() }).expect("attach");
    assert_eq!(attach.session_id, id);
    assert_eq!(r.attached_clients(&id), Some(1));
    r.detach(&id);
    assert_eq!(r.attached_clients(&id), Some(0));
    r.detach(&id);
    assert_eq!(r.attached_clients(&id), Some(0));
}

#[test]
fn attach_by_name_resolves() {
    let mut r: Registry<u32> = Registry::new();
    let id = r.create_session(&named("docs")).expect("create");
    let attach = r.attach(&AttachTarget::Name("docs".to_owned())).expect("attach by name");
    assert_eq!(attach.session_id, id);
}

#[test]
fn kill_removes_session_and_frees_name() {
    let mut r: Registry<u32> = Registry::new();
    let req = named("build");
    let id = r.create_session(&req).expect("create");
    let killed = r.kill_session(&KillSessionTarget::Name("build".to_owned())).expect("kill");
    assert_eq!(killed, id);
    assert!(r.list_summaries().is_empty());
    r.create_session(&req).expect("recreate");
}

#[test]
fn kill_unknown_target_returns_error() {
    let mut r: Registry<u32> = Registry::new();
    let res = r.kill_session(&KillSessionTarget::Name("nope".to_owned()));
    assert!(matches!(res, Err(RegistryError::SessionNotFound(_))));
}

fn ids(n: &str) -> (SessionId, WindowId, PaneId) {
    (
        SessionId::from_body(n).unwrap(),
        WindowId::from_body(n).unwrap(),
        PaneId::from_body(n).unwrap(),
    )
}

#[test]
fn untitled_names_count_up_and_skip_taken_ones() {
    let mut r: Registry<u32> = Registry::new();
    let (s1, w1, p1) = ids("A");
    r.create_session_with_ids(&named("untitled-2"), s1, w1, p1, "t0".to_owned()).unwrap();
    let (s2, w2, p2) = ids("B");
    r.create_session_with_ids(&empty_request(), s2.clone(), w2, p2, "t1".to_owned()).unwrap();
    let (s3, w3, p3) = ids("C");
    r.create_session_with_ids(&named(""), s3.clone(), w3, p3, "t2".to_owned()).unwrap();
    let list = r.list_summaries();
    let name_of = |id: &SessionId| list.iter().find(|s| &s.id == id).unwrap().name.clone();
    assert_eq!(name_of(&s2), "untitled-1");
    // untitled-2 is taken, so the empty name gets untitled-3.
    assert_eq!(name_of(&s3), "untitled-3");
}

#[test]
fn created_session_has_one_placeholder_pane() {
    let mut r: Registry<u32> = Registry::new();
    let (s, w, p) = ids("X");
    r.create_session_with_ids(&named("x"), s.clone(), w.clone(), p.clone(), "2024-01-01T00:00:00Z".to_owned())
        .unwrap();
    let a = r.attach(&AttachTarget::Name("x".to_owned())).unwrap();
    assert_eq!(a.session_id, s);
    assert_eq!(a.active_window, w);
    assert_eq!(a.windows.len(), 1);
    assert_eq!(a.panes.len(), 1);
    assert_eq!(a.panes[0].id, p);
    assert_eq!(a.panes[0].size, PaneSize { rows: 40, cols: 120 });
    assert!(!a.panes[0].alive);
    assert_eq!(r.list_summaries()[0].created_at, "2024-01-01T00:00:00Z");
}

#[test]
fn list_orders_by_creation_text_and_keeps_ties_in_order() {
    let mut r: Registry<u32> = Registry::new();
    for (n, t) in [("A", "2024-03"), ("B", "2024-01"), ("C", "2024-02"), ("D", "2024-01")] {
        let (s, w, p) = ids(n);
        r.create_session_with_ids(&empty_request(), s, w, p, t.to_owned()).unwrap();
    }
    let order: Vec<String> = r.list_summaries().iter().map(|s| s.id.body().to_owned()).collect();
    assert_eq!(order, vec!["B", "D", "C", "A"]);
}

#[test]
fn runtimes_follow_their_session() {
    let mut r: Registry<u32> = Registry::new();
    let (s, w, p) = ids("R");
    let rt = PaneRuntime { pane_id: p.clone(), window_id: w, session_id: s.clone(), pty: 7u32 };
    let (sid, pid) = r
        .create_session_with_runtime_at(&named("run"), PaneSize { rows: 24, cols: 80 }, rt, "t".to_owned())
        .unwrap();
    assert_eq!(sid, s);
    assert_eq!(pid, p);
    assert_eq!(r.pty_for_pane(&p), Some(&7u32));
    let ptys = r.ptys_for_session(&s);
    assert_eq!(ptys.len(), 1);
    assert_eq!(ptys[0].0, p);
    assert_eq!(*ptys[0].1, 7);
    assert_eq!(r.active_pane_of_session(&s), Some(p.clone()));
    assert!(r.update_pane_size(&p, PaneSize { rows: 30, cols: 100 }));
    let a = r.attach(&AttachTarget::Id { id: s.clone() }).unwrap();
    assert_eq!(a.panes[0].size, PaneSize { rows: 30, cols: 100 });
    assert!(a.panes[0].alive);
    r.kill_session(&KillSessionTarget::Id(s.clone())).unwrap();
    assert_eq!(r.pty_for_pane(&p), None);
    assert!(r.ptys_for_session(&s).is_empty());
    assert!(!r.update_pane_size(&p, PaneSize { rows: 1, cols: 1 }));
}

#[test]
fn attach_errors_name_the_target() {
    let mut r: Registry<u32> = Registry::new();
    let missing = SessionId::from_body("Z").unwrap();
    assert_eq!(
        r.attach(&AttachTarget::Id { id: missing }).unwrap_err(),
        RegistryError::SessionNotFound("ses-Z".to_owned())
    );
    assert_eq!(
        r.attach(&AttachTarget::Name("gone".to_owned())).unwrap_err(),
        RegistryError::SessionNotFound("gone".to_owned())
    );
    assert_eq!(RegistryError::NameTaken("w".to_owned()).message(), "session name `w` already exists");
    assert_eq!(RegistryError::SessionNotFound("w".to_owned()).message(), "session not found: w");
}

#[test]
fn new_ids_are_ulid_shaped() {
    let s = winmux::session::new_session_id();
    assert!(s.as_str().starts_with("ses-"));
    assert_eq!(s.body().len(), 26);
    assert!(s.body().chars().all(|c| "0123456789ABCDEFGHJKMNPQRSTVWXYZ".contains(c)));
    assert_ne!(winmux::session::new_pane_id(), winmux::session::new_pane_id());
    assert!(winmux::session::new_window_id().as_str().starts_with("win-"));
}

#[test]
fn killed_session_cannot_be_attached() {
    let mut r: Registry<u32> = Registry::new();
    let (s, w, p) = ids("K");
    let rt = PaneRuntime { pane_id: p.clone(), window_id: w, session_id: s.clone(), pty: 3u32 };
    r.create_session_with_runtime_at(&named("gone-soon"), PaneSize { rows: 24, cols: 80 }, rt, "t".to_owned())
        .unwrap();
    r.kill_session(&KillSessionTarget::Name("gone-soon".to_owned())).unwrap();
    assert_eq!(
        r.attach(&AttachTarget::Id { id: s.clone() }).unwrap_err(),
        RegistryError::SessionNotFound(s.as_str().to_owned())
    );
    assert_eq!(
        r.attach(&AttachTarget::Name("gone-soon".to_owned())).unwrap_err(),
        RegistryError::SessionNotFound("gone-soon".to_owned())
    );
    assert_eq!(r.pty_for_pane(&p), None);
}

#[test]
fn creation_time_is_an_rfc3339_timestamp() {
    let mut r: Registry<u32> = Registry::new();
    r.create_session(&named("clock")).unwrap();
    let s = r.list_summaries();
    let t = s[0].created_at.as_bytes();
    assert!(t.len() >= 20);
    for i in [0, 1, 2, 3, 5, 6, 8, 9, 11, 12, 14, 15, 17, 18] {
        assert!(t[i].is_ascii_digit(), "position {i} of {}", s[0].created_at);
    }
    assert_eq!((t[4], t[7], t[10], t[13], t[16]), (b'-', b'-', b'T', b':', b':'));
    assert_eq!(*t.last().unwrap(), b'Z');
}

#[test]
fn kill_pane_and_window_of_a_registry() {
    let mut r: Registry<u32> = Registry::new();
    let (s, w, p) = ids("Q");
    let rt = PaneRuntime { pane_id: p.clone(), window_id: w.clone(), session_id: s.clone(), pty: 5u32 };
    r.create_session_with_runtime_at(&named("q"), PaneSize { rows: 24, cols: 80 }, rt, "t".to_owned()).unwrap();
    assert_eq!(
        r.kill_window(&WindowId::from_body("nope").unwrap()).unwrap_err(),
        RegistryError::WindowNotFound("win-nope".to_owned())
    );
    assert_eq!(RegistryError::PaneNotFound("pane-x".to_owned()).message(), "pane not found: pane-x");
    let o = r.kill_pane(&p).unwrap();
    assert_eq!(o, KillOutcome { session_id: s.clone(), session_removed: true });
    assert_eq!(r.session_id_by_name("q"), None);
    assert_eq!(r.pty_for_pane(&p), None);
    assert_eq!(r.kill_pane(&p).unwrap_err(), RegistryError::PaneNotFound(p.as_str().to_owned()));
    assert_eq!(r.kill_window(&w).unwrap_err(), RegistryError::WindowNotFound(w.as_str().to_owned()));
}

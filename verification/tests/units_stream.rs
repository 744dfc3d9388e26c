use dcs_grpc::geometry::{
    orientation_equalish, position_equalish, vector_equalish, velocity_equalish, Orientation,
    Position, Vector, Velocity,
};
use dcs_grpc::status::{Code, RpcStatus};
use dcs_grpc::units::{
    backoff_after_unchanged, group_category, Group, StreamSettings, Transform, Unit, UnitEvent,
    UnitRegistry, UnitState, UnitUpdate,
};

const SEC: u128 = 1_000_000_000;

fn vector(x: i64, y: i64, z: i64) -> Vector {
    Vector { x, y, z }
}

fn unit(name: &str, category: Option<i32>) -> Unit {
    Unit {
        id: 7,
        name: name.to_string(),
        callsign: "Enfield11".to_string(),
        coalition: 3,
        unit_type: "FA-18C_hornet".to_string(),
        position: Some(Position { lat: 0, lon: 0, alt: 0, u: 0, v: 0 }),
        orientation: Some(Orientation {
            heading: 0,
            yaw: 0,
            pitch: 0,
            roll: 0,
            forward: Some(vector(0, 0, 0)),
            right: None,
            up: None,
        }),
        velocity: Some(Velocity { heading: 0, speed: 0, velocity: Some(vector(0, 0, 0)) }),
        player_name: None,
        group: category.map(|c| Group { id: 1, name: "g".to_string(), coalition: 3, category: c }),
        number_in_group: 1,
    }
}

#[test]
fn vector_equalish_uses_a_micro_tolerance() {
    let a = vector(0, 0, 0);
    assert!(vector_equalish(&a, &vector(999, -999, 0)));
    assert!(!vector_equalish(&a, &vector(1000, 0, 0)));
    assert!(!vector_equalish(&a, &vector(0, 0, -1000)));
}

#[test]
fn orientation_equalish_checks_vectors_and_angles() {
    let o = unit("a", None).orientation.unwrap();
    let mut p = o;
    p.heading = 9_999_999;
    assert!(orientation_equalish(&o, &p));
    p.heading = 10_000_000;
    assert!(!orientation_equalish(&o, &p));
    let mut q = o;
    q.forward = Some(vector(5000, 0, 0));
    assert!(!orientation_equalish(&o, &q));
    q.forward = None;
    assert!(orientation_equalish(&o, &q));
    assert!(orientation_equalish(&q, &q));
}

#[test]
fn velocity_equalish_checks_heading_and_speed() {
    let v = Velocity { heading: 0, speed: 0, velocity: None };
    assert!(velocity_equalish(&v, &Velocity { heading: 0, speed: 999_999, velocity: None }));
    assert!(!velocity_equalish(&v, &Velocity { heading: 0, speed: 1_000_000, velocity: None }));
    assert!(!velocity_equalish(&v, &Velocity { heading: -10_000_000, speed: 0, velocity: None }));
}

#[test]
fn position_equalish_tolerances() {
    let p = Position { lat: 0, lon: 0, alt: 0, u: 0, v: 0 };
    assert!(position_equalish(&p, &Position { lat: 999, lon: -999, alt: 999_999, u: 999_999, v: 0 }));
    assert!(!position_equalish(&p, &Position { lat: 1000, lon: 0, alt: 0, u: 0, v: 0 }));
    assert!(!position_equalish(&p, &Position { lat: 0, lon: 0, alt: 0, u: 0, v: 1_000_000 }));
    assert!(position_equalish(&Position { lat: i64::MAX, ..p }, &Position { lat: i64::MAX, ..p }));
    assert!(!position_equalish(&Position { lat: i64::MAX, ..p }, &Position { lat: i64::MIN, ..p }));
}

#[test]
fn stream_settings_defaults() {
    let s = StreamSettings::from_request(None, None, 0);
    assert_eq!((s.poll_rate_secs, s.max_backoff_secs, s.category), (5, 30, 0));
    let s = StreamSettings::from_request(Some(60), Some(10), 2);
    assert_eq!((s.poll_rate_secs, s.max_backoff_secs, s.category), (60, 60, 2));
    assert_eq!(StreamSettings::from_request(None, None, 99).category, 0);
    assert_eq!(group_category(-1), 0);
    assert_eq!(group_category(5), 5);
}

#[test]
fn backoff_doubles_up_to_the_limit() {
    let s = StreamSettings::from_request(Some(5), Some(30), 0);
    assert_eq!(backoff_after_unchanged(0, &s), 5);
    assert_eq!(backoff_after_unchanged(5, &s), 10);
    assert_eq!(backoff_after_unchanged(10, &s), 20);
    assert_eq!(backoff_after_unchanged(20, &s), 30);
    assert_eq!(backoff_after_unchanged(30, &s), 30);
}

#[test]
fn births_of_watched_categories_are_reported() {
    let settings = StreamSettings::from_request(None, None, 1);
    let mut reg = UnitRegistry::new();
    let r = reg.handle_event(42, UnitEvent::Birth { initiator: Some(unit("plane", Some(1))) }, &settings, 0);
    match r {
        Some(resp) => {
            assert_eq!(resp.time_bits, 42);
            assert!(matches!(resp.update, UnitUpdate::Unit(ref u) if u.name == "plane"));
        }
        None => panic!("expected a report"),
    }
    assert!(reg.handle_event(1, UnitEvent::Birth { initiator: Some(unit("ship", Some(4))) }, &settings, 0).is_none());
    assert!(reg.contains(&"plane".to_string()));
    assert!(!reg.contains(&"ship".to_string()));
    assert_eq!(reg.len(), 1);

    let all = StreamSettings::from_request(None, None, 0);
    assert!(reg.handle_event(1, UnitEvent::Birth { initiator: Some(unit("ship", Some(4))) }, &all, 0).is_some());
    assert!(reg.handle_event(1, UnitEvent::Birth { initiator: Some(unit("nogroup", None)) }, &all, 0).is_some());
    assert_eq!(reg.len(), 3);
    assert!(reg.handle_event(1, UnitEvent::Other, &all, 0).is_none());
    assert!(reg.handle_event(1, UnitEvent::Birth { initiator: None }, &all, 0).is_none());
}

#[test]
fn deaths_forget_known_units_once() {
    let all = StreamSettings::from_request(None, None, 0);
    let mut reg = UnitRegistry::new();
    reg.handle_event(1, UnitEvent::Birth { initiator: Some(unit("a", None)) }, &all, 0);
    let r = reg.handle_event(9, UnitEvent::Dead { initiator_name: Some("a".to_string()) }, &all, 0).unwrap();
    assert_eq!(r.time_bits, 9);
    assert!(matches!(r.update, UnitUpdate::Gone { id: 7, ref name } if name == "a"));
    assert!(!reg.contains(&"a".to_string()));
    assert!(reg.handle_event(9, UnitEvent::Dead { initiator_name: Some("a".to_string()) }, &all, 0).is_none());
}

#[test]
fn reports_update_due_units_and_back_off() {
    let settings = StreamSettings::from_request(Some(5), Some(30), 0);
    let mut reg = UnitRegistry::from_units(vec![unit("a", None), unit("b", None)], 0);
    assert_eq!(reg.len(), 2);
    assert_eq!(reg.snapshot().len(), 2);
    let mut due = reg.due_names(0);
    due.sort();
    assert_eq!(due, vec!["a".to_string(), "b".to_string()]);

    let same = Transform {
        time_bits: 5,
        position: Some(Position { lat: 1, lon: 0, alt: 0, u: 0, v: 0 }),
        orientation: None,
        velocity: None,
    };
    assert!(reg.apply_report(&"a".to_string(), Ok(same), SEC, &settings).unwrap().is_none());
    // unchanged: now waits 5 seconds
    assert!(!reg.due_names(3 * SEC).contains(&"a".to_string()));
    assert!(reg.due_names(6 * SEC).contains(&"a".to_string()));
    // not due: left alone
    let moved = Transform {
        time_bits: 6,
        position: Some(Position { lat: 5000, lon: 0, alt: 0, u: 0, v: 0 }),
        orientation: None,
        velocity: None,
    };
    assert!(reg.apply_report(&"a".to_string(), Ok(moved), 2 * SEC, &settings).unwrap().is_none());
    let r = reg.apply_report(&"a".to_string(), Ok(moved), 6 * SEC, &settings).unwrap().unwrap();
    assert_eq!(r.time_bits, 6);
    match r.update {
        UnitUpdate::Unit(u) => assert_eq!(u.position.unwrap().lat, 5000),
        _ => panic!("expected the moved unit"),
    }
    assert!(reg.due_names(6 * SEC).contains(&"a".to_string()));
}

#[test]
fn vanished_units_are_reported_gone_and_dropped() {
    let settings = StreamSettings::from_request(None, None, 0);
    let mut reg = UnitRegistry::from_units(vec![unit("a", None), unit("b", None)], 0);
    let gone = RpcStatus { code: Code::NotFound, message: "no unit".to_string() };
    let r = reg.apply_report(&"a".to_string(), Err(gone), 0, &settings).unwrap().unwrap();
    assert!(matches!(r.update, UnitUpdate::Gone { ref name, .. } if name == "a"));
    let other = RpcStatus { code: Code::Internal, message: "boom".to_string() };
    let e = reg.apply_report(&"b".to_string(), Err(other), 0, &settings).unwrap_err();
    assert_eq!(e.code, Code::Internal);
    assert_eq!(reg.len(), 2);
    reg.remove_gone();
    assert_eq!(reg.len(), 1);
    assert!(reg.contains(&"b".to_string()));
    assert!(reg.apply_report(&"zzz".to_string(), Ok(Transform { time_bits: 0, position: None, orientation: None, velocity: None }), 0, &settings).unwrap().is_none());
}

#[test]
fn later_units_of_the_same_name_win_the_initial_sync() {
    let mut second = unit("a", None);
    second.id = 99;
    let reg = UnitRegistry::from_units(vec![unit("a", None), second], 0);
    assert_eq!(reg.len(), 1);
    let snap = reg.snapshot();
    assert_eq!(snap.len(), 1);
    assert!(matches!(snap[0].update, UnitUpdate::Unit(ref u) if u.id == 99));
    let s = UnitState::new(unit("x", None), 0);
    assert!(s.should_update(0));
}

#[test]
fn initial_sync_reports_each_unit_once() {
    let reg = UnitRegistry::from_units(
        vec![unit("a", None), unit("b", None), unit("a", Some(2)), unit("c", None)],
        0,
    );
    let snap = reg.snapshot();
    assert_eq!(snap.len(), 3);
    let mut names: Vec<String> = snap
        .iter()
        .map(|r| match &r.update {
            UnitUpdate::Unit(u) => u.name.clone(),
            UnitUpdate::Gone { name, .. } => name.clone(),
        })
        .collect();
    names.sort();
    assert_eq!(names, vec!["a".to_string(), "b".to_string(), "c".to_string()]);
}

#[test]
fn a_checked_unit_backs_off_until_it_changes() {
    let settings = StreamSettings::from_request(Some(5), Some(12), 0);
    let mut st = UnitState::new(unit("a", None), 0);
    let same = Transform {
        time_bits: 1,
        position: Some(Position { lat: 10, lon: 0, alt: 0, u: 0, v: 0 }),
        orientation: None,
        velocity: None,
    };
    assert!(!st.update(same, SEC, &settings));
    assert_eq!((st.backoff_secs, st.last_checked, st.update_time_bits), (5, SEC, 1));
    assert!(!st.update(same, 2 * SEC, &settings));
    assert_eq!(st.backoff_secs, 10);
    assert!(!st.update(same, 3 * SEC, &settings));
    assert_eq!(st.backoff_secs, 12);
    let moved = Transform {
        time_bits: 2,
        position: Some(Position { lat: 5_000_000, lon: 0, alt: 0, u: 0, v: 0 }),
        orientation: None,
        velocity: None,
    };
    assert!(st.update(moved, 4 * SEC, &settings));
    assert_eq!((st.backoff_secs, st.last_changed), (0, 4 * SEC));
    assert_eq!(st.unit.position.unwrap().lat, 5_000_000);
}

#[test]
fn due_units_are_named_once() {
    let reg = UnitRegistry::from_units(vec![unit("a", None), unit("b", None), unit("a", None)], 0);
    let due = reg.due_names(0);
    assert_eq!(due.len(), 2);
    assert_ne!(due[0], due[1]);
}

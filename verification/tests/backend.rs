use signpost::logger::{
    CATEGORY_DYNAMIC_STACK_TRACING, CATEGORY_DYNAMIC_TRACING, CATEGORY_POINTS_OF_INTEREST,
};
use signpost::{Admission, Emission, Gate, Handle, OsLog, Reply, Request, SignpostKind};

/// One call that the fake backend has taken.
#[derive(Clone, Debug, PartialEq, Eq)]
enum Seen {
    CreateHandle(String, String),
    EnabledCheck(usize),
    Emit(usize, SignpostKind, u64, String),
}

/// A backend that records every primitive it is asked for.
struct Recorder {
    enabled: bool,
    next_handle: usize,
    seen: Vec<Seen>,
    waits: usize,
}

impl Recorder {
    fn new(enabled: bool) -> Recorder {
        Recorder { enabled, next_handle: 7, seen: Vec::new(), waits: 0 }
    }

    fn creations(&self) -> usize {
        self.seen.iter().filter(|s| matches!(s, Seen::CreateHandle(..))).count()
    }

    /// Performs one request and gives the reply, if one is owed.
    fn perform(&mut self, request: Request) -> Option<Reply> {
        match request {
            Request::CreateHandle { subsystem, category } => {
                self.seen.push(Seen::CreateHandle(subsystem.to_string(), category.to_string()));
                let handle = Handle { raw: self.next_handle };
                self.next_handle += 1;
                Some(Reply::Created(handle))
            }
            Request::Wait => {
                self.waits += 1;
                Some(Reply::Woken)
            }
            Request::IsEnabled { handle } => {
                self.seen.push(Seen::EnabledCheck(handle.raw));
                Some(Reply::Enabled(self.enabled))
            }
            Request::Emit { handle, signpost } => {
                self.seen.push(Seen::Emit(
                    handle.raw,
                    signpost.kind,
                    signpost.id,
                    signpost.name.to_string(),
                ));
                None
            }
            Request::Done => None,
        }
    }

    /// Runs one emission to its end.
    fn run(&mut self, log: &mut OsLog, mut emission: Emission) {
        let mut request = emission.request(log);
        while let Some(reply) = self.perform(request) {
            request = emission.advance(log, reply);
        }
        assert!(emission.is_finished());
    }
}

#[test]
fn gate_first_caller_creates_others_wait() {
    let mut gate = Gate::new();
    assert_eq!(gate, Gate::Uninitialized);
    assert_eq!(gate.enter(), Admission::Create);
    assert_eq!(gate, Gate::Initializing);
    assert_eq!(gate.enter(), Admission::Wait);
    assert_eq!(gate.enter(), Admission::Wait);
    gate.publish(Handle { raw: 11 });
    assert_eq!(gate, Gate::Ready(Handle { raw: 11 }));
    assert_eq!(gate.enter(), Admission::Resolved(Handle { raw: 11 }));
    assert_eq!(gate.enter(), Admission::Resolved(Handle { raw: 11 }));
}

#[test]
fn gate_handle_is_written_at_most_once() {
    let mut gate = Gate::new();
    gate.publish(Handle { raw: 1 });
    assert_eq!(gate, Gate::Uninitialized);
    assert_eq!(gate.enter(), Admission::Create);
    gate.publish(Handle { raw: 2 });
    gate.publish(Handle { raw: 3 });
    assert_eq!(gate, Gate::Ready(Handle { raw: 2 }));
    assert_eq!(gate.enter(), Admission::Resolved(Handle { raw: 2 }));
}

#[test]
fn sentinel_handle_is_zero() {
    assert_eq!(Handle::none(), Handle { raw: 0 });
}

#[test]
fn new_logger_touches_no_backend() {
    let log = OsLog::new("com.example.app", "PointsOfInterest");
    assert_eq!(log.subsystem(), "com.example.app");
    assert_eq!(log.category(), "PointsOfInterest");
    assert!(log.is_available());
    let off = OsLog::disabled("com.example.app", "PointsOfInterest");
    assert!(!off.is_available());
}

#[test]
fn categories_are_three_identifiers() {
    assert_eq!(CATEGORY_POINTS_OF_INTEREST, "PointsOfInterest");
    assert_eq!(CATEGORY_DYNAMIC_TRACING, "DynamicTracing");
    assert_eq!(CATEGORY_DYNAMIC_STACK_TRACING, "DynamicStackTracing");
}

#[test]
fn get_resolves_once() {
    let mut log = OsLog::new("com.example.app", "PointsOfInterest");
    assert_eq!(log.get(), Admission::Create);
    assert_eq!(log.get(), Admission::Wait);
    log.publish(Handle { raw: 5 });
    assert_eq!(log.get(), Admission::Resolved(Handle { raw: 5 }));
    log.publish(Handle { raw: 6 });
    assert_eq!(log.get(), Admission::Resolved(Handle { raw: 5 }));
}

#[test]
fn get_without_backend_is_the_sentinel() {
    let mut log = OsLog::disabled("com.example.app", "PointsOfInterest");
    assert_eq!(log.get(), Admission::Resolved(Handle { raw: 0 }));
    log.publish(Handle { raw: 9 });
    assert_eq!(log.get(), Admission::Resolved(Handle { raw: 0 }));
}

#[test]
fn emit_event_goes_through_check_then_emit() {
    let mut backend = Recorder::new(true);
    let mut log = OsLog::new("com.example.app", "PointsOfInterest");
    let emission = log.emit_event(1, "My event");
    assert_eq!(emission.signpost().kind, SignpostKind::Event);
    assert_eq!(emission.signpost().id, 1);
    assert_eq!(emission.signpost().name, "My event");
    backend.run(&mut log, emission);
    assert_eq!(
        backend.seen,
        vec![
            Seen::CreateHandle("com.example.app".to_string(), "PointsOfInterest".to_string()),
            Seen::EnabledCheck(7),
            Seen::Emit(7, SignpostKind::Event, 1, "My event".to_string()),
        ]
    );
}

#[test]
fn emit_event_is_dropped_when_tracing_is_off() {
    let mut backend = Recorder::new(false);
    let mut log = OsLog::new("com.example.app", "PointsOfInterest");
    let first = log.emit_event(1, "My event");
    backend.run(&mut log, first);
    let second = log.emit_event(2, "Other event");
    backend.run(&mut log, second);
    assert_eq!(
        backend.seen,
        vec![
            Seen::CreateHandle("com.example.app".to_string(), "PointsOfInterest".to_string()),
            Seen::EnabledCheck(7),
            Seen::EnabledCheck(7),
        ]
    );
}

#[test]
fn single_initialization_under_racing_callers() {
    let mut backend = Recorder::new(true);
    let mut log = OsLog::new("com.example.app", "PointsOfInterest");
    // Eight callers arrive before the first has created the handle.
    let names = ["a", "b", "c", "d", "e", "f", "g", "h"];
    let mut emissions: Vec<Emission> = Vec::new();
    for (i, name) in names.iter().enumerate() {
        emissions.push(log.emit_event(i as u64 + 1, name));
    }
    assert!(matches!(emissions[0].request(&log), Request::CreateHandle { .. }));
    for emission in &emissions[1..] {
        assert!(matches!(emission.request(&log), Request::Wait));
    }
    // A waiter that wakes too early is told to wait again.
    let early = emissions[3].advance(&mut log, Reply::Woken);
    assert!(matches!(early, Request::Wait));
    // The callers finish in another order than they came.
    for emission in emissions.into_iter().rev() {
        let request = emission.request(&log);
        if matches!(request, Request::Wait) {
            // Parked until the creator is through.
            let mut creator = log.emit_event(100, "late");
            assert!(matches!(creator.request(&log), Request::Wait));
            let again = creator.advance(&mut log, Reply::Woken);
            assert!(matches!(again, Request::Wait));
        }
        if matches!(request, Request::CreateHandle { .. }) {
            backend.run(&mut log, emission);
        }
    }
    assert_eq!(backend.creations(), 1);
    // Everybody who asks from now on gets the one handle.
    for i in 0..8 {
        let emission = log.emit_event(i + 1, "after");
        match emission.request(&log) {
            Request::IsEnabled { handle } => assert_eq!(handle, Handle { raw: 7 }),
            other => panic!("unexpected request {:?}", other),
        }
        backend.run(&mut log, emission);
    }
    assert_eq!(backend.creations(), 1);
    assert_eq!(log.get(), Admission::Resolved(Handle { raw: 7 }));
}

#[test]
fn waiters_resume_with_the_published_handle() {
    let mut backend = Recorder::new(true);
    let mut log = OsLog::new("com.example.app", "PointsOfInterest");
    let creator = log.emit_event(1, "first");
    let mut waiter = log.emit_event(2, "second");
    assert!(matches!(waiter.request(&log), Request::Wait));
    backend.run(&mut log, creator);
    let next = waiter.advance(&mut log, Reply::Woken);
    match next {
        Request::IsEnabled { handle } => assert_eq!(handle.raw, 7),
        other => panic!("unexpected request {:?}", other),
    }
    backend.run(&mut log, waiter);
    assert_eq!(backend.creations(), 1);
    assert_eq!(
        backend.seen,
        vec![
            Seen::CreateHandle("com.example.app".to_string(), "PointsOfInterest".to_string()),
            Seen::EnabledCheck(7),
            Seen::Emit(7, SignpostKind::Event, 1, "first".to_string()),
            Seen::EnabledCheck(7),
            Seen::Emit(7, SignpostKind::Event, 2, "second".to_string()),
        ]
    );
}

#[test]
fn a_reply_that_answers_nothing_changes_nothing() {
    let mut log = OsLog::new("com.example.app", "PointsOfInterest");
    let mut emission = log.emit_event(1, "My event");
    let request = emission.advance(&mut log, Reply::Enabled(true));
    assert!(matches!(request, Request::CreateHandle { .. }));
    let request = emission.advance(&mut log, Reply::Woken);
    assert!(matches!(request, Request::CreateHandle { .. }));
    assert_eq!(log.get(), Admission::Wait);
    let request = emission.advance(&mut log, Reply::Created(Handle { raw: 3 }));
    match request {
        Request::IsEnabled { handle } => assert_eq!(handle.raw, 3),
        other => panic!("unexpected request {:?}", other),
    }
    let request = emission.advance(&mut log, Reply::Created(Handle { raw: 4 }));
    match request {
        Request::IsEnabled { handle } => assert_eq!(handle.raw, 3),
        other => panic!("unexpected request {:?}", other),
    }
    let request = emission.advance(&mut log, Reply::Enabled(true));
    match request {
        Request::Emit { handle, signpost } => {
            assert_eq!(handle.raw, 3);
            assert_eq!(signpost.kind, SignpostKind::Event);
            assert_eq!(signpost.id, 1);
            assert_eq!(signpost.name, "My event");
        }
        other => panic!("unexpected request {:?}", other),
    }
    assert!(emission.is_finished());
    let request = emission.advance(&mut log, Reply::Enabled(true));
    assert!(matches!(request, Request::Done));
}

#[test]
fn disabled_backend_is_never_called() {
    let mut backend = Recorder::new(true);
    let mut log = OsLog::disabled("com.example.app", "PointsOfInterest");
    for id in [0u64, 1, 42, u64::MAX] {
        let emission = log.emit_event(id, "My event");
        assert!(emission.is_finished());
        assert!(matches!(emission.request(&log), Request::Done));
        backend.run(&mut log, emission);

        let (mut guard, begin) = log.begin_interval(id, "Compute");
        assert!(guard.is_open());
        assert!(begin.is_finished());
        backend.run(&mut log, begin);
        let end = guard.close(&mut log).unwrap();
        assert!(end.is_finished());
        backend.run(&mut log, end);
        assert!(!guard.is_open());
        assert!(guard.close(&mut log).is_none());
    }
    assert_eq!(backend.seen, Vec::new());
    assert_eq!(backend.waits, 0);
}

#[test]
fn disabled_emission_ignores_every_reply() {
    let mut log = OsLog::disabled("com.example.app", "PointsOfInterest");
    let mut emission = log.emit_event(u64::MAX, "My event");
    for reply in [
        Reply::Created(Handle { raw: 1 }),
        Reply::Woken,
        Reply::Enabled(true),
        Reply::Enabled(false),
    ] {
        assert!(matches!(emission.advance(&mut log, reply), Request::Done));
        assert!(emission.is_finished());
    }
    assert_eq!(log.get(), Admission::Resolved(Handle { raw: 0 }));
}

#[test]
fn sentinel_ids_are_passed_on_unchanged() {
    let mut backend = Recorder::new(true);
    let mut log = OsLog::new("com.example.app", "PointsOfInterest");
    let zero = log.emit_event(0, "zero");
    backend.run(&mut log, zero);
    let max = log.emit_event(u64::MAX, "max");
    backend.run(&mut log, max);
    assert_eq!(
        backend.seen[1..],
        [
            Seen::EnabledCheck(7),
            Seen::Emit(7, SignpostKind::Event, 0, "zero".to_string()),
            Seen::EnabledCheck(7),
            Seen::Emit(7, SignpostKind::Event, u64::MAX, "max".to_string()),
        ]
    );
}

#[test]
fn with_category_resolves_under_the_new_category() {
    let mut backend = Recorder::new(true);
    let mut log = OsLog::new("com.example.app", CATEGORY_POINTS_OF_INTEREST)
        .with_category(CATEGORY_DYNAMIC_STACK_TRACING);
    assert_eq!(log.subsystem(), "com.example.app");
    assert_eq!(log.category(), "DynamicStackTracing");
    let emission = log.emit_event(1, "My event");
    backend.run(&mut log, emission);
    assert_eq!(
        backend.seen[0],
        Seen::CreateHandle("com.example.app".to_string(), "DynamicStackTracing".to_string())
    );
    assert_eq!(backend.creations(), 1);
}

#[test]
fn with_category_keeps_a_resolved_handle() {
    let mut backend = Recorder::new(true);
    let mut log = OsLog::new("com.example.app", CATEGORY_POINTS_OF_INTEREST);
    let emission = log.emit_event(1, "My event");
    backend.run(&mut log, emission);
    let mut log = log.with_category(CATEGORY_DYNAMIC_TRACING);
    assert_eq!(log.get(), Admission::Resolved(Handle { raw: 7 }));
    let emission = log.emit_event(2, "Other event");
    backend.run(&mut log, emission);
    assert_eq!(backend.creations(), 1);
    assert_eq!(
        backend.seen,
        vec![
            Seen::CreateHandle("com.example.app".to_string(), "PointsOfInterest".to_string()),
            Seen::EnabledCheck(7),
            Seen::Emit(7, SignpostKind::Event, 1, "My event".to_string()),
            Seen::EnabledCheck(7),
            Seen::Emit(7, SignpostKind::Event, 2, "Other event".to_string()),
        ]
    );
}

#[test]
fn with_category_keeps_a_disabled_logger_disabled() {
    let log = OsLog::disabled("com.example.app", "PointsOfInterest").with_category("Other");
    assert!(!log.is_available());
    assert_eq!(log.category(), "Other");
}

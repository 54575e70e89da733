use launcher_core::state::ApplicationState;

#[test]
fn initialized_empty_slot_reads_empty() {
    let s: ApplicationState<u32> = ApplicationState::initialize(None);
    assert!(!s.server_present());
    let observed = s.with_server(|v: Option<u32>| (v, v));
    assert_eq!(observed, None);
}

#[test]
fn initialized_holding_slot_reads_the_stored_handle() {
    let s: ApplicationState<u32> = ApplicationState::initialize(Some(4242));
    assert!(s.server_present());
    let observed = s.with_server(|v: Option<u32>| (v, v));
    assert_eq!(observed, Some(4242));
}

#[test]
fn take_server_empties_the_slot_for_good() {
    let s: ApplicationState<u32> = ApplicationState::initialize(Some(7));
    assert_eq!(s.take_server(), Some(7));
    assert!(!s.server_present());
    assert_eq!(s.take_server(), None);
    assert!(!s.server_present());
}

#[test]
fn with_server_can_clear_the_slot() {
    let s: ApplicationState<u32> = ApplicationState::initialize(Some(9));
    let had = s.with_server(|v: Option<u32>| (None, v.is_some()));
    assert!(had);
    assert!(!s.server_present());
}

#[test]
fn with_server_calls_are_atomic_for_many_callers() {
    // Simulated concurrent callers: each call holds exclusive access for its
    // whole read-modify-write, so every caller sees either the full effect of
    // a previous call or none of it, never a partial mutation.
    let s: ApplicationState<u32> = ApplicationState::initialize(Some(1));
    let mut observations: Vec<Option<u32>> = Vec::new();
    for caller in 0..8 {
        let observed = s.with_server(|v: Option<u32>| {
            // A writer caller clears the slot; a reader caller leaves it.
            if caller == 3 { (None, v) } else { (v, v) }
        });
        observations.push(observed);
    }
    // Callers before the writer saw the one stored handle, whole; callers
    // after it saw the slot empty, whole.
    for (caller, observed) in observations.iter().enumerate() {
        if caller <= 3 {
            assert_eq!(*observed, Some(1));
        } else {
            assert_eq!(*observed, None);
        }
    }
}

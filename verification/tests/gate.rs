use rnode::gate::EmissionGate;

#[test]
fn try_emit_twice_succeeds_once() {
    let mut gate = EmissionGate::new();
    let first = gate.try_emit(5);
    let second = gate.try_emit(5);
    assert!(first);
    assert!(!second);
    assert_eq!(gate.last_emitted(), 5);
}

#[test]
fn try_emit_twice_with_earlier_attempts_between() {
    let mut gate = EmissionGate::new();
    assert!(gate.try_emit(5));
    assert!(!gate.try_emit(3));
    assert!(!gate.try_emit(4));
    assert!(!gate.try_emit(5));
    assert_eq!(gate.last_emitted(), 5);
}

#[test]
fn emitted_periods_strictly_increase() {
    let mut gate = EmissionGate::new();
    let attempts: [i64; 9] = [3, 1, 3, 7, 5, 7, 8, 0, -2];
    let mut emitted: Vec<i64> = Vec::new();
    for p in attempts {
        if gate.try_emit(p) {
            emitted.push(p);
        }
    }
    assert_eq!(emitted, vec![3, 7, 8]);
    assert_eq!(gate.last_emitted(), 8);
}

#[test]
fn new_gate_holds_back_period_zero() {
    let mut gate = EmissionGate::new();
    assert_eq!(gate.last_emitted(), 0);
    assert!(!gate.try_emit(0));
    assert!(!gate.try_emit(-1));
    assert!(gate.try_emit(1));
}

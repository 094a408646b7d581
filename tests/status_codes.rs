use rgsl::Value;

#[test]
fn known_codes_round_trip() {
    for c in -2..=32 {
        assert_eq!(Value::from_code(c).to_code(), c);
        assert!(!matches!(Value::from_code(c), Value::Unknown(_)));
    }
}

#[test]
fn unknown_code_is_kept() {
    let v = Value::from_code(9999);
    assert_eq!(v, Value::Unknown(9999));
    assert!(!v.is_success());
    assert_eq!(v.to_code(), 9999);
    assert_eq!(Value::from_code(-3), Value::Unknown(-3));
    assert_eq!(Value::from_code(33), Value::Unknown(33));
}

#[test]
fn conventional_codes() {
    assert_eq!(Value::Success.to_code(), 0);
    assert_eq!(Value::Failure.to_code(), -1);
    assert_eq!(Value::Continue.to_code(), -2);
    assert_eq!(Value::Domain.to_code(), 1);
    assert_eq!(Value::Invalid.to_code(), 4);
    assert_eq!(Value::NoMemory.to_code(), 8);
    assert_eq!(Value::MaxIteration.to_code(), 11);
    assert_eq!(Value::Tolerance.to_code(), 14);
    assert_eq!(Value::Diverge.to_code(), 22);
    assert_eq!(Value::NoProgress.to_code(), 27);
    assert_eq!(Value::EOF.to_code(), 32);
    assert_eq!(Value::from_code(14), Value::Tolerance);
    assert_eq!(Value::from_code(-2), Value::Continue);
}

#[test]
fn only_success_is_success() {
    assert!(Value::Success.is_success());
    assert!(!Value::Failure.is_success());
    assert!(!Value::Domain.is_success());
    assert!(!Value::Unknown(0).is_success());
}

#[test]
fn status_as_result() {
    assert_eq!(Value::Success.into_result(), Ok(()));
    assert_eq!(Value::Domain.into_result(), Err(Value::Domain));
    assert_eq!(Value::Unknown(77).into_result(), Err(Value::Unknown(77)));
}

#[test]
fn status_from_and_into_integers() {
    let v: Value = Value::from(8);
    assert_eq!(v, Value::NoMemory);
    let c: i32 = i32::from(Value::Range);
    assert_eq!(c, 2);
    let u: i32 = Value::Unknown(-40).into();
    assert_eq!(u, -40);
}

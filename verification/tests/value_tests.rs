use spell_framework::state_value::{
    find_value_reply, i32_to_string, parse_bool_exec, parse_i32_exec, route_request,
    set_value_decision, DataType, Route, SetValueDecision, ValueKind,
};

fn parse(s: &str) -> Option<i32> {
    parse_i32_exec(&s.chars().collect())
}

#[test]
fn parse_i32_like_std() {
    for s in ["0", "42", "-17", "+8", "2147483647", "-2147483648", "", "-", "+", "12a", " 1", "2147483648", "-2147483649", "007"] {
        assert_eq!(parse(s), s.parse::<i32>().ok(), "input {:?}", s);
    }
}

#[test]
fn parse_bool_like_std() {
    for s in ["true", "false", "True", "", "yes", "true "] {
        assert_eq!(parse_bool_exec(s), s.parse::<bool>().ok(), "input {:?}", s);
    }
}

#[test]
fn i32_text_like_std() {
    for n in [0, 7, -7, 10, 1234567, i32::MAX, i32::MIN] {
        assert_eq!(i32_to_string(n), n.to_string());
    }
}

#[test]
fn int_text_round_trip() {
    for n in [5, -300, i32::MIN] {
        assert_eq!(parse(&i32_to_string(n)), Some(n));
    }
}

#[test]
fn requests_for_other_layers_are_forwarded() {
    assert!(matches!(route_request("bar", "bar"), Route::Local));
    match route_request("bar", "clock") {
        Route::Forward(name) => assert_eq!(name, "org.VimYoung.clock"),
        other => panic!("unexpected {:?}", other),
    }
}

#[test]
fn set_value_by_kind() {
    match set_value_decision("flag", ValueKind::Boolean, " true ") {
        SetValueDecision::Change(k, DataType::Boolean(true)) => assert_eq!(k, "flag"),
        other => panic!("unexpected {:?}", other),
    }
    assert!(matches!(set_value_decision("flag", ValueKind::Boolean, "maybe"), SetValueDecision::NotSupported));
    match set_value_decision("n", ValueKind::Int, "\t-12\n") {
        SetValueDecision::Change(_, DataType::Int(-12)) => {}
        other => panic!("unexpected {:?}", other),
    }
    assert!(matches!(set_value_decision("n", ValueKind::Int, "1.5"), SetValueDecision::NotSupported));
    match set_value_decision("x", ValueKind::Float, " 1.5 ") {
        SetValueDecision::ReadFloat(k, t) => {
            assert_eq!(k, "x");
            assert_eq!(t, "1.5");
        }
        other => panic!("unexpected {:?}", other),
    }
    match set_value_decision("s", ValueKind::String, " kept as is ") {
        SetValueDecision::Change(_, DataType::String(v)) => assert_eq!(v, " kept as is "),
        other => panic!("unexpected {:?}", other),
    }
    assert!(matches!(set_value_decision("p", ValueKind::Panic, "1"), SetValueDecision::Failed));
}

#[test]
fn replies_for_values() {
    assert_eq!(find_value_reply(&DataType::Int(-4)), Some("-4".to_string()));
    assert_eq!(find_value_reply(&DataType::Boolean(false)), Some("false".to_string()));
    assert_eq!(find_value_reply(&DataType::String("hi".to_string())), Some("hi".to_string()));
    assert_eq!(find_value_reply(&DataType::Panic), None);
}

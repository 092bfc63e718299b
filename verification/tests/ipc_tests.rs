use spell_framework::cli::LogType;
use spell_framework::configure::KeyboardInteractivity;
use spell_framework::ipc::{
    ipc_action, log_filter_directive, IpcOutcome, log_request_word, log_type_from_word, parse_ipc_request,
    serve_ipc_request, serve_window_request, IpcAction,
};
use spell_framework::window_state::{SurfaceAction, WindowState};
use spell_framework::IpcController;
use std::collections::HashMap;

struct Counter {
    values: HashMap<String, String>,
}

impl IpcController for Counter {
    fn get_type(&self, key: &str) -> String {
        self.values.get(key).cloned().unwrap_or_default()
    }

    fn change_val(&mut self, key: &str, val: &str) {
        self.values.insert(key.to_string(), val.to_string());
    }
}

fn counter() -> Counter {
    let mut values = HashMap::new();
    values.insert("count".to_string(), "42".to_string());
    Counter { values }
}

#[test]
fn parse_update_request() {
    let q = parse_ipc_request("update count 43");
    assert_eq!(q.operation, "update");
    assert_eq!(q.command, "count");
    assert_eq!(q.args, "43");
}

#[test]
fn parse_request_with_spaces_in_value() {
    let q = parse_ipc_request("update title hello world");
    assert_eq!(q.command, "title");
    assert_eq!(q.args, "hello world");
}

#[test]
fn parse_look_request_trims_key() {
    let q = parse_ipc_request("look count\n");
    assert_eq!(q.operation, "look");
    assert_eq!(q.command, "count");
    assert_eq!(q.args, "");
}

#[test]
fn parse_bare_operation() {
    let q = parse_ipc_request("hide");
    assert_eq!(q.operation, "hide");
    assert_eq!(q.command, "");
    assert_eq!(q.args, "");
}

#[test]
fn actions_follow_documentation() {
    assert!(matches!(ipc_action(&parse_ipc_request("hide"), false), IpcAction::Hide));
    assert!(matches!(ipc_action(&parse_ipc_request("show"), false), IpcAction::Show));
    match ipc_action(&parse_ipc_request("look count"), true) {
        IpcAction::GetType(k) => assert_eq!(k, "count"),
        other => panic!("unexpected {:?}", other),
    }
    match ipc_action(&parse_ipc_request("update count 1"), true) {
        IpcAction::ChangeVal(k, v) => {
            assert_eq!(k, "count");
            assert_eq!(v, "1");
        }
        other => panic!("unexpected {:?}", other),
    }
    assert!(matches!(ipc_action(&parse_ipc_request("update count 1"), false), IpcAction::Ignore));
    assert!(matches!(ipc_action(&parse_ipc_request("dance now"), true), IpcAction::Ignore));
}

#[test]
fn window_requests_hide_and_show() {
    let mut w = WindowState::new(KeyboardInteractivity::NoFocus, None);
    assert_eq!(serve_window_request(&mut w, "hide"), vec![SurfaceAction::DetachBuffer]);
    assert!(w.is_hidden);
    assert_eq!(serve_window_request(&mut w, "look count"), vec![]);
    assert_eq!(
        serve_window_request(&mut w, "show"),
        vec![SurfaceAction::ApplyConfig, SurfaceAction::Commit]
    );
    assert!(!w.is_hidden);
}

#[test]
fn controller_answers_look_and_update() {
    let ui = counter();
    let mut w = WindowState::new(KeyboardInteractivity::NoFocus, None);
    let (reqs, outcome) = serve_ipc_request(&ui, &mut w, "look count");
    assert!(reqs.is_empty());
    match outcome {
        IpcOutcome::Reply(answer) => assert_eq!(answer, "42"),
        other => panic!("unexpected {:?}", other),
    }
    let (reqs, outcome) = serve_ipc_request(&ui, &mut w, "update count 7");
    assert!(reqs.is_empty());
    match outcome {
        IpcOutcome::SetValue(key, value) => {
            assert_eq!(key, "count");
            assert_eq!(value, "7");
        }
        other => panic!("unexpected {:?}", other),
    }
    let (reqs, outcome) = serve_ipc_request(&ui, &mut w, "hide");
    assert_eq!(reqs, vec![SurfaceAction::DetachBuffer]);
    assert!(matches!(outcome, IpcOutcome::Done));
    let (_, outcome) = serve_ipc_request(&ui, &mut w, "dance");
    assert!(matches!(outcome, IpcOutcome::Done));
}

#[test]
fn log_words_round_trip() {
    for t in [LogType::Slint, LogType::Debug, LogType::Dump, LogType::Dev] {
        assert_eq!(log_type_from_word(log_request_word(t)), Some(t));
    }
    assert_eq!(log_type_from_word("verbose"), None);
}

#[test]
fn log_filters() {
    assert_eq!(log_filter_directive(LogType::Slint), "spell_framework::slint_adapter=info,warn");
    assert_eq!(log_filter_directive(LogType::Debug), "spell_framework=info,warn");
    assert_eq!(log_filter_directive(LogType::Dump), "spell_framework=trace,info");
    assert_eq!(log_filter_directive(LogType::Dev), "spell_framework=trace,warn");
    assert_eq!(log_request_word(LogType::Slint), "slint_log");
}

use libonebot::action::{ActionError, ActionRegistry};

type Handler = fn(serde_json::Value) -> Result<String, String>;

fn echo(v: serde_json::Value) -> Result<String, String> {
    match serde_json::to_string(&v) {
        Ok(s) => Ok(s),
        Err(e) => Err(e.to_string()),
    }
}

fn always_fails(_v: serde_json::Value) -> Result<String, String> {
    Err("boom".to_string())
}

fn constant(_v: serde_json::Value) -> Result<String, String> {
    Ok("\"pong\"".to_string())
}

#[test]
fn dispatch_invokes_the_registered_handler_with_params_unmodified() {
    let mut reg: ActionRegistry<Handler> = ActionRegistry::new();
    reg.register("echo", echo);
    let params: serde_json::Value = serde_json::from_str("{\"x\":1}").unwrap();
    let r = reg.dispatch("echo", params);
    assert_eq!(r.unwrap(), "{\"x\":1}");
}

#[test]
fn dispatch_unknown_action_is_a_structured_error() {
    let reg: ActionRegistry<Handler> = ActionRegistry::new();
    let r = reg.dispatch("missing", serde_json::Value::Null);
    match r {
        Err(ActionError::UnknownAction { action }) => assert_eq!(action, "missing"),
        _ => panic!("expected an unknown-action error"),
    }
}

#[test]
fn dispatch_routes_by_name_between_several_handlers() {
    let mut reg: ActionRegistry<Handler> = ActionRegistry::new();
    reg.register("echo", echo);
    reg.register("ping", constant);
    let params: serde_json::Value = serde_json::from_str("[1,2]").unwrap();
    assert_eq!(reg.dispatch("ping", params.clone()).unwrap(), "\"pong\"");
    assert_eq!(reg.dispatch("echo", params).unwrap(), "[1,2]");
}

#[test]
fn handler_failure_is_caught_at_the_dispatch_boundary() {
    let mut reg: ActionRegistry<Handler> = ActionRegistry::new();
    reg.register("bad", always_fails);
    match reg.dispatch("bad", serde_json::Value::Null) {
        Err(ActionError::HandlerFailed { detail }) => assert_eq!(detail, "boom"),
        _ => panic!("expected a handler-failed error"),
    }
}

#[test]
fn register_replaces_an_earlier_handler_under_the_same_name() {
    let mut reg: ActionRegistry<Handler> = ActionRegistry::new();
    reg.register("a", always_fails);
    reg.register("a", constant);
    assert_eq!(reg.dispatch("a", serde_json::Value::Null).unwrap(), "\"pong\"");
}

#[test]
fn error_frames_have_the_documented_shape() {
    let unknown = ActionError::UnknownAction { action: "nope".to_string() };
    assert_eq!(
        unknown.to_frame_text(),
        "{\"status\":\"failed\",\"error\":\"unknown_action\",\"action\":\"nope\"}"
    );
    let failed = ActionError::HandlerFailed { detail: "boom".to_string() };
    assert_eq!(
        failed.to_frame_text(),
        "{\"status\":\"failed\",\"error\":\"handler_failed\",\"detail\":\"boom\"}"
    );
}

#[test]
fn handle_frame_text_answers_an_unparsable_frame() {
    let reg: ActionRegistry<Handler> = ActionRegistry::new();
    let r = reg.handle_frame_text("this is not json");
    assert_eq!(r, "{\"status\":\"failed\",\"error\":\"invalid_frame\"}");
    let r2 = reg.handle_frame_text("{\"params\":{}}");
    assert_eq!(r2, "{\"status\":\"failed\",\"error\":\"invalid_frame\"}");
}

#[test]
fn handle_frame_text_dispatches_a_well_formed_frame() {
    let mut reg: ActionRegistry<Handler> = ActionRegistry::new();
    reg.register("echo", echo);
    let r = reg.handle_frame_text("{\"action\":\"echo\",\"params\":{\"x\":1}}");
    assert_eq!(r, "{\"x\":1}");
}

#[test]
fn handle_frame_text_defaults_missing_params_to_null() {
    let mut reg: ActionRegistry<Handler> = ActionRegistry::new();
    reg.register("echo", echo);
    let r = reg.handle_frame_text("{\"action\":\"echo\"}");
    assert_eq!(r, "null");
}

#[test]
fn handle_frame_text_reports_an_unknown_action() {
    let reg: ActionRegistry<Handler> = ActionRegistry::new();
    let r = reg.handle_frame_text("{\"action\":\"nope\",\"params\":1}");
    assert_eq!(r, "{\"status\":\"failed\",\"error\":\"unknown_action\",\"action\":\"nope\"}");
}

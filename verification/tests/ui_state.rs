use goldenstorm::ui::{
    install_base_dir, tornado_alert_launch, IpcHandlers, IpcMessage, IpcOutcome, UiMessage, UiState,
};

fn msg(action: Option<&str>, s: Option<&str>, b: Option<bool>) -> IpcMessage {
    IpcMessage {
        action: action.map(|a| a.to_string()),
        value_str: s.map(|v| v.to_string()),
        value_bool: b,
    }
}

#[test]
fn ui_state_starts_serious() {
    let st = UiState::new();
    assert_eq!(st.get_persona(), "Serious");
    assert!(!st.get_chaos());
}

#[test]
fn setters_read_back_and_leave_the_other_alone() {
    let mut st = UiState::new();
    st.set_chaos(true);
    st.set_persona("Sheldon");
    assert_eq!(st.get_persona(), "Sheldon");
    assert!(st.get_chaos());
    st.set_chaos(false);
    assert_eq!(st.get_persona(), "Sheldon");
}

#[test]
fn ipc_actions() {
    let mut h = IpcHandlers::new(UiState::new());
    assert!(matches!(h.handle(None), IpcOutcome::InvalidJson));
    match h.handle(Some(&msg(Some("set_persona"), Some("Spock"), None))) {
        IpcOutcome::PersonaSet(p) => assert_eq!(p, "Spock"),
        _ => panic!("persona not set"),
    }
    assert_eq!(h.ui_state.get_persona(), "Spock");
    assert!(matches!(h.handle(Some(&msg(Some("set_persona"), None, Some(true)))), IpcOutcome::PersonaIgnored));
    assert_eq!(h.ui_state.get_persona(), "Spock");
    assert!(matches!(h.handle(Some(&msg(Some("toggle_chaos"), None, Some(true)))), IpcOutcome::ChaosSet(true)));
    assert!(h.ui_state.get_chaos());
    assert!(matches!(h.handle(Some(&msg(Some("toggle_chaos"), Some("yes"), None))), IpcOutcome::ChaosSet(false)));
    assert!(!h.ui_state.get_chaos());
    assert!(matches!(h.handle(Some(&msg(Some("manual_refresh"), None, None))), IpcOutcome::RefreshRequested));
    match h.handle(Some(&msg(Some("dance"), None, None))) {
        IpcOutcome::UnknownAction(a) => assert_eq!(a, "dance"),
        _ => panic!("expected unknown"),
    }
    match h.handle(Some(&msg(None, Some("Roast"), None))) {
        IpcOutcome::UnknownAction(a) => assert_eq!(a, ""),
        _ => panic!("expected unknown"),
    }
    assert_eq!(h.ui_state.get_persona(), "Spock");
}

#[test]
fn tornado_flag_detection() {
    let args = |v: &[&str]| v.iter().map(|s| s.to_string()).collect::<Vec<_>>();
    assert!(tornado_alert_launch(&args(&["GoldenStorm.exe", "--tornado-alert"])));
    assert!(!tornado_alert_launch(&args(&["GoldenStorm.exe"])));
    assert!(!tornado_alert_launch(&args(&["--tornado-alert=1"])));
    assert!(!tornado_alert_launch(&args(&[])));
}

#[test]
fn update_scripts() {
    assert_eq!(
        UiMessage::WeatherUpdate("{\"t\":1}".to_string()).script(),
        "window.dispatchEvent(new CustomEvent('weatherUpdate', { detail: {\"t\":1} }));"
    );
    assert_eq!(
        UiMessage::AlertUpdate("null".to_string()).script(),
        "window.dispatchEvent(new CustomEvent('alertUpdate', { detail: null }));"
    );
    assert_eq!(install_base_dir(), r"C:\Program Files\GoldenStorm");
}

#[test]
fn ipc_raw_text() {
    let mut h = IpcHandlers::new(UiState::new());
    assert!(matches!(h.handle_text("not json"), IpcOutcome::InvalidJson));
    match h.handle_text(r#"{"action":"set_persona","value":"Roast"}"#) {
        IpcOutcome::PersonaSet(p) => assert_eq!(p, "Roast"),
        _ => panic!("persona not set"),
    }
    assert_eq!(h.ui_state.get_persona(), "Roast");
    assert!(matches!(h.handle_text(r#"{"action":"toggle_chaos","value":true}"#), IpcOutcome::ChaosSet(true)));
    assert!(h.ui_state.get_chaos());
    assert!(matches!(h.handle_text(r#"{"action":"toggle_chaos","value":"on"}"#), IpcOutcome::ChaosSet(false)));
    assert!(matches!(h.handle_text(r#"{"action":"set_persona","value":7}"#), IpcOutcome::PersonaIgnored));
    assert!(matches!(h.handle_text(r#"{"action":"manual_refresh"}"#), IpcOutcome::RefreshRequested));
    match h.handle_text(r#"{"value":1}"#) {
        IpcOutcome::UnknownAction(a) => assert_eq!(a, ""),
        _ => panic!("expected unknown"),
    }
    match h.handle_text("[1,2]") {
        IpcOutcome::UnknownAction(a) => assert_eq!(a, ""),
        _ => panic!("expected unknown"),
    }
    assert_eq!(h.ui_state.get_persona(), "Roast");
}

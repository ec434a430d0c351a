use goldenstorm::agent::{
    alert_transition, is_more_severe, map_alerts, map_api_severity, quiet_state, severity_rank,
    AlertAction, AlertSeverity, AlertState, AlertTracker,
};
use goldenstorm::backend::{alerts_from_nws, map_weather_code, ApiAlert, NwsAlertProperties};

fn api(sev: &str, headline: &str) -> ApiAlert {
    ApiAlert {
        severity: sev.to_string(),
        headline: headline.to_string(),
        description: format!("about {}", headline),
        expires_at: Some("2025-06-01T12:00:00-05:00".to_string()),
    }
}

fn state(sev: AlertSeverity) -> AlertState {
    AlertState {
        severity: sev,
        headline: "h".to_string(),
        description: String::new(),
        expires_at: None,
    }
}

#[test]
fn severity_text_is_matched_without_case() {
    assert_eq!(map_api_severity("TORNADO WARNING"), AlertSeverity::TornadoWarning);
    assert_eq!(map_api_severity("Severe Thunderstorm Warning"), AlertSeverity::Warning);
    assert_eq!(map_api_severity("Flood Watch"), AlertSeverity::Watch);
    assert_eq!(map_api_severity("Heat Advisory"), AlertSeverity::Advisory);
    assert_eq!(map_api_severity("Severe"), AlertSeverity::NoAlert);
    assert_eq!(map_api_severity(""), AlertSeverity::NoAlert);
    assert_eq!(map_api_severity("Tornado Watch"), AlertSeverity::Watch);
}

#[test]
fn ranks_order_advisory_below_watch() {
    assert_eq!(severity_rank(AlertSeverity::NoAlert), 0);
    assert_eq!(severity_rank(AlertSeverity::Advisory), 1);
    assert_eq!(severity_rank(AlertSeverity::Watch), 2);
    assert_eq!(severity_rank(AlertSeverity::Warning), 3);
    assert_eq!(severity_rank(AlertSeverity::TornadoWarning), 4);
    assert!(is_more_severe(AlertSeverity::Watch, AlertSeverity::Advisory));
    assert!(!is_more_severe(AlertSeverity::Warning, AlertSeverity::Warning));
}

#[test]
fn map_alerts_of_nothing_is_quiet() {
    let st = map_alerts(&vec![]);
    assert_eq!(st.severity, AlertSeverity::NoAlert);
    assert_eq!(st.headline, "No active alerts");
    assert_eq!(st.description, "");
    assert_eq!(st.expires_at, None);
}

#[test]
fn map_alerts_with_only_unranked_alerts_is_quiet() {
    let st = map_alerts(&vec![api("Severe", "x"), api("Unknown", "y")]);
    assert_eq!(st.severity, AlertSeverity::NoAlert);
    assert_eq!(st.headline, "No active alerts");
}

#[test]
fn map_alerts_picks_first_of_highest() {
    let alerts = vec![
        api("Heat Advisory", "a"),
        api("Flood Warning", "b"),
        api("Tornado Watch", "c"),
        api("Flash Flood Warning", "d"),
    ];
    let st = map_alerts(&alerts);
    assert_eq!(st.severity, AlertSeverity::Warning);
    assert_eq!(st.headline, "b");
    assert_eq!(st.description, "about b");
    assert_eq!(st.expires_at.as_deref(), Some("2025-06-01T12:00:00-05:00"));
    let st = map_alerts(&vec![api("Flood Warning", "b"), api("tornado warning", "t")]);
    assert_eq!(st.severity, AlertSeverity::TornadoWarning);
    assert_eq!(st.headline, "t");
}

#[test]
fn transitions_fire_on_edges() {
    assert_eq!(alert_transition(&state(AlertSeverity::NoAlert), &state(AlertSeverity::TornadoWarning)), AlertAction::TornadoAlarm);
    assert_eq!(alert_transition(&state(AlertSeverity::NoAlert), &state(AlertSeverity::Warning)), AlertAction::SevereWarning);
    assert_eq!(alert_transition(&state(AlertSeverity::NoAlert), &state(AlertSeverity::Watch)), AlertAction::NewAlert);
    assert_eq!(alert_transition(&state(AlertSeverity::NoAlert), &state(AlertSeverity::Advisory)), AlertAction::NewAlert);
    assert_eq!(alert_transition(&state(AlertSeverity::Warning), &state(AlertSeverity::NoAlert)), AlertAction::Cleared);
    assert_eq!(alert_transition(&state(AlertSeverity::Watch), &state(AlertSeverity::TornadoWarning)), AlertAction::Nothing);
    assert_eq!(alert_transition(&state(AlertSeverity::NoAlert), &state(AlertSeverity::NoAlert)), AlertAction::Nothing);
}

#[test]
fn tracker_remembers_last_commit() {
    let mut t = AlertTracker::new();
    assert_eq!(t.last_alert.headline, "No active alerts");
    assert_eq!(t.commit(state(AlertSeverity::TornadoWarning)), AlertAction::TornadoAlarm);
    assert_eq!(t.commit(state(AlertSeverity::TornadoWarning)), AlertAction::Nothing);
    assert_eq!(t.commit(quiet_state()), AlertAction::Cleared);
    assert_eq!(t.last_alert.severity, AlertSeverity::NoAlert);
}

#[test]
fn weather_codes_have_names() {
    let cases = [
        (0, "Clear"),
        (2, "Partly Cloudy"),
        (48, "Fog"),
        (53, "Drizzle"),
        (65, "Rain"),
        (71, "Snow"),
        (95, "Thunderstorm"),
        (99, "Severe Thunderstorm"),
        (4, "Unknown"),
        (-1, "Unknown"),
    ];
    for (code, name) in cases {
        assert_eq!(map_weather_code(code), name);
    }
}

#[test]
fn nws_features_get_defaults() {
    let props = vec![
        NwsAlertProperties { severity: None, headline: None, description: None, expires: None },
        NwsAlertProperties {
            severity: Some("Tornado Warning".to_string()),
            headline: Some("Take cover".to_string()),
            description: Some("now".to_string()),
            expires: Some(Some("later".to_string())),
        },
        NwsAlertProperties { severity: None, headline: None, description: None, expires: Some(None) },
    ];
    let out = alerts_from_nws(&props);
    assert_eq!(out.len(), 3);
    assert_eq!(out[0].severity, "Unknown");
    assert_eq!(out[0].headline, "Weather Alert");
    assert_eq!(out[0].description, "");
    assert_eq!(out[0].expires_at, None);
    assert_eq!(out[1].severity, "Tornado Warning");
    assert_eq!(out[1].headline, "Take cover");
    assert_eq!(out[1].expires_at.as_deref(), Some("later"));
    assert_eq!(out[2].expires_at, None);
}

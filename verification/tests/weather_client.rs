use goldenstorm::weather_api::{
    alert_from_feature, best_active_alert, classify_lowered_event, classify_severity,
    grid_forecast_url, nominatim_search_url, select_best_alert, split_loc,
};
use goldenstorm::weather_models::{
    severity_level, AlertSeverity, NwsAlertFeature, NwsAlertProperties, WeatherAlert,
};

fn feature(id: &str, event: Option<&str>, sev: Option<&str>, urg: Option<&str>) -> NwsAlertFeature {
    NwsAlertFeature {
        id: id.to_string(),
        properties: NwsAlertProperties {
            event: event.map(|s| s.to_string()),
            severity: sev.map(|s| s.to_string()),
            urgency: urg.map(|s| s.to_string()),
            certainty: Some("Observed".to_string()),
            description: None,
            instruction: None,
        },
    }
}

#[test]
fn named_warnings_decide_first() {
    assert_eq!(classify_severity(Some("Minor"), None, None, "Tornado Warning"), AlertSeverity::Extreme);
    assert_eq!(classify_severity(None, None, None, "HURRICANE WARNING"), AlertSeverity::Extreme);
    assert_eq!(classify_severity(None, None, None, "Extreme Wind Warning"), AlertSeverity::Extreme);
    assert_eq!(
        classify_severity(Some("Extreme"), Some("Immediate"), None, "Severe Thunderstorm Warning"),
        AlertSeverity::Severe
    );
    assert_eq!(classify_severity(Some("Minor"), None, None, "Flash Flood Warning"), AlertSeverity::Severe);
}

#[test]
fn nws_severity_mapping() {
    assert_eq!(classify_severity(Some("Extreme"), Some("Immediate"), None, "Heat"), AlertSeverity::Extreme);
    assert_eq!(classify_severity(Some("Extreme"), Some("Expected"), None, "Heat"), AlertSeverity::Severe);
    assert_eq!(classify_severity(Some("Severe"), None, None, "Heat"), AlertSeverity::Severe);
    assert_eq!(classify_severity(Some("Moderate"), None, None, "Heat"), AlertSeverity::Moderate);
    assert_eq!(classify_severity(Some("Minor"), None, None, "Heat"), AlertSeverity::Minor);
    assert_eq!(classify_severity(None, None, None, "Heat"), AlertSeverity::Minor);
    assert_eq!(classify_severity(Some("extreme"), Some("Immediate"), None, "Heat"), AlertSeverity::Minor);
    assert_eq!(classify_lowered_event(None, None, "tornado warning"), AlertSeverity::Extreme);
    assert_eq!(classify_lowered_event(None, None, "Tornado Warning"), AlertSeverity::Minor);
}

#[test]
fn features_get_defaults_and_severity() {
    let a = alert_from_feature(&feature("urn:1", None, Some("Moderate"), None));
    assert_eq!(a.id, "urn:1");
    assert_eq!(a.event, "Unknown Alert");
    assert_eq!(a.description, "");
    assert_eq!(a.instruction, "No specific instructions provided.");
    assert_eq!(a.severity, AlertSeverity::Moderate);
}

#[test]
fn best_alert_is_first_of_highest() {
    assert!(best_active_alert(&vec![]).is_none());
    let fs = vec![
        feature("a", Some("Wind Advisory"), Some("Minor"), None),
        feature("b", Some("Flash Flood Warning"), Some("Minor"), None),
        feature("c", Some("Flood Watch"), Some("Severe"), None),
        feature("d", Some("Special Statement"), Some("Moderate"), None),
    ];
    let best = best_active_alert(&fs).unwrap();
    assert_eq!(best.id, "b");
    assert_eq!(best.severity, AlertSeverity::Severe);
    let only = best_active_alert(&vec![feature("z", None, None, None)]).unwrap();
    assert_eq!(only.id, "z");
    assert_eq!(only.severity, AlertSeverity::Minor);
}

#[test]
fn select_keeps_earlier_on_ties() {
    let mk = |id: &str, s: AlertSeverity| WeatherAlert {
        id: id.to_string(),
        event: String::new(),
        severity: s,
        description: String::new(),
        instruction: String::new(),
    };
    let v = vec![mk("1", AlertSeverity::Unknown), mk("2", AlertSeverity::Extreme), mk("3", AlertSeverity::Extreme)];
    assert_eq!(select_best_alert(&v).unwrap().id, "2");
    assert_eq!(severity_level(AlertSeverity::Unknown), 0);
    assert_eq!(severity_level(AlertSeverity::Extreme), 4);
}

#[test]
fn addresses() {
    assert_eq!(
        nominatim_search_url("Panama City, FL"),
        "https://nominatim.openstreetmap.org/search?q=Panama%20City%2C%20FL&format=json&limit=1"
    );
    assert_eq!(
        nominatim_search_url("31088"),
        "https://nominatim.openstreetmap.org/search?q=31088&format=json&limit=1"
    );
    assert_eq!(
        nominatim_search_url("Zürich~a_b.c-d"),
        "https://nominatim.openstreetmap.org/search?q=Z%C3%BCrich~a_b.c-d&format=json&limit=1"
    );
    assert_eq!(
        grid_forecast_url("TAE", 27, 0),
        "https://api.weather.gov/gridpoints/TAE/27,0/forecast"
    );
}

#[test]
fn loc_splits_at_single_comma() {
    assert_eq!(
        split_loc("30.1588,-85.6602"),
        Some(("30.1588".to_string(), "-85.6602".to_string()))
    );
    assert_eq!(split_loc("30.1588"), None);
    assert_eq!(split_loc("1,2,3"), None);
    assert_eq!(split_loc(","), Some((String::new(), String::new())));
}

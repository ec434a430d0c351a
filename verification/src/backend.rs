//! The agent's weather backend: the alert records it reads from the NWS
//! alert feed and the names of Open-Meteo weather codes.

use vstd::prelude::*;

verus! {

/// One active alert as the agent's backend reports it.
#[derive(Debug)]
pub struct ApiAlert {
    pub severity: String,
    pub headline: String,
    pub description: String,
    pub expires_at: Option<String>,
}

/// The properties of one NWS alert feature, as the agent's backend reads
/// them; `expires` is absent, null or a string.
#[derive(Debug)]
pub struct NwsAlertProperties {
    pub severity: Option<String>,
    pub headline: Option<String>,
    pub description: Option<String>,
    pub expires: Option<Option<String>>,
}

/// The name of an Open-Meteo (WMO) weather code.
pub open spec fn weather_condition(code: i32) -> Seq<char> {
    if code == 0 {
        "Clear"@
    } else if code == 1 || code == 2 || code == 3 {
        "Partly Cloudy"@
    } else if code == 45 || code == 48 {
        "Fog"@
    } else if code == 51 || code == 53 || code == 55 {
        "Drizzle"@
    } else if code == 61 || code == 63 || code == 65 {
        "Rain"@
    } else if code == 71 || code == 73 || code == 75 {
        "Snow"@
    } else if code == 95 {
        "Thunderstorm"@
    } else if code == 96 || code == 99 {
        "Severe Thunderstorm"@
    } else {
        "Unknown"@
    }
}

/// The name of an Open-Meteo weather code.
pub fn map_weather_code(code: i32) -> (r: String)
    ensures
        r@ == weather_condition(code),
{
    let name = if code == 0 {
        "Clear"
    } else if code == 1 || code == 2 || code == 3 {
        "Partly Cloudy"
    } else if code == 45 || code == 48 {
        "Fog"
    } else if code == 51 || code == 53 || code == 55 {
        "Drizzle"
    } else if code == 61 || code == 63 || code == 65 {
        "Rain"
    } else if code == 71 || code == 73 || code == 75 {
        "Snow"
    } else if code == 95 {
        "Thunderstorm"
    } else if code == 96 || code == 99 {
        "Severe Thunderstorm"
    } else {
        "Unknown"
    };
    String::from_str(name)
}

/// `Some` text as it is, `None` as `default`.
pub open spec fn text_or(v: Option<String>, default: Seq<char>) -> Seq<char> {
    match v {
        Some(s) => s@,
        None => default,
    }
}

/// The alert that the backend reports for one NWS alert feature.
pub open spec fn api_alert_matches(p: NwsAlertProperties, a: ApiAlert) -> bool {
    &&& a.severity@ == text_or(p.severity, "Unknown"@)
    &&& a.headline@ == text_or(p.headline, "Weather Alert"@)
    &&& a.description@ == text_or(p.description, Seq::empty())
    &&& a.expires_at == match p.expires {
        Some(e) => e,
        None => None,
    }
}

fn string_or(v: &Option<String>, default: &str) -> (r: String)
    ensures
        r@ == text_or(*v, default@),
{
    match v {
        Some(s) => s.clone(),
        None => String::from_str(default),
    }
}

/// The alert for one NWS feature: an absent severity reads "Unknown", an
/// absent headline "Weather Alert", an absent description is empty.
pub fn api_alert_from(p: &NwsAlertProperties) -> (a: ApiAlert)
    ensures
        api_alert_matches(*p, a),
{
    let expires_at = match &p.expires {
        Some(Some(e)) => Some(e.clone()),
        _ => None,
    };
    proof {
        reveal_strlit("");
    }
    let a = ApiAlert {
        severity: string_or(&p.severity, "Unknown"),
        headline: string_or(&p.headline, "Weather Alert"),
        description: string_or(&p.description, ""),
        expires_at,
    };
    assert(a.description@ =~= text_or(p.description, Seq::empty()));
    a
}

/// The alerts for the features of an NWS alert response, one for each, in
/// order.
pub fn alerts_from_nws(features: &Vec<NwsAlertProperties>) -> (r: Vec<ApiAlert>)
    ensures
        r.len() == features.len(),
        forall|i: int| 0 <= i < r.len() ==> api_alert_matches(features@[i], #[trigger] r@[i]),
{
    let mut r: Vec<ApiAlert> = Vec::new();
    let mut i: usize = 0;
    while i < features.len()
        invariant
            i <= features.len(),
            r.len() == i,
            forall|k: int| 0 <= k < i ==> api_alert_matches(features@[k], #[trigger] r@[k]),
        decreases features.len() - i,
    {
        let a = api_alert_from(&features[i]);
        r.push(a);
        i = i + 1;
    }
    r
}

} // verus!

verus! {

/// Each weather name belongs to exactly its WMO codes: 0 is clear, 1 to 3
/// partly cloudy, 45 and 48 fog, 51, 53 and 55 drizzle, 61, 63 and 65 rain,
/// 71, 73 and 75 snow, 95 thunderstorm, 96 and 99 severe thunderstorm, and
/// every other code unknown.
pub proof fn law_weather_code_names(code: i32)
    ensures
        (weather_condition(code) == "Clear"@) <==> code == 0,
        (weather_condition(code) == "Partly Cloudy"@) <==> (code == 1 || code == 2 || code == 3),
        (weather_condition(code) == "Fog"@) <==> (code == 45 || code == 48),
        (weather_condition(code) == "Drizzle"@) <==> (code == 51 || code == 53 || code == 55),
        (weather_condition(code) == "Rain"@) <==> (code == 61 || code == 63 || code == 65),
        (weather_condition(code) == "Snow"@) <==> (code == 71 || code == 73 || code == 75),
        (weather_condition(code) == "Thunderstorm"@) <==> code == 95,
        (weather_condition(code) == "Severe Thunderstorm"@) <==> (code == 96 || code == 99),
        (weather_condition(code) == "Unknown"@) <==> !(code == 0 || (1 <= code <= 3) || code == 45
            || code == 48 || code == 51 || code == 53 || code == 55 || code == 61 || code == 63
            || code == 65 || code == 71 || code == 73 || code == 75 || code == 95 || code == 96
            || code == 99),
{
    reveal_strlit("Clear");
    reveal_strlit("Partly Cloudy");
    reveal_strlit("Fog");
    reveal_strlit("Drizzle");
    reveal_strlit("Rain");
    reveal_strlit("Snow");
    reveal_strlit("Thunderstorm");
    reveal_strlit("Severe Thunderstorm");
    reveal_strlit("Unknown");
    assert("Clear"@.len() == 5);
    assert("Partly Cloudy"@.len() == 13);
    assert("Fog"@.len() == 3);
    assert("Drizzle"@.len() == 7);
    assert("Rain"@.len() == 4);
    assert("Snow"@.len() == 4);
    assert("Thunderstorm"@.len() == 12);
    assert("Severe Thunderstorm"@.len() == 19);
    assert("Unknown"@.len() == 7);
    assert("Rain"@[0] != "Snow"@[0]);
    assert("Drizzle"@[0] != "Unknown"@[0]);
}

/// The alert reported for a feature keeps its present texts; an absent
/// severity reads "Unknown", an absent headline "Weather Alert", an absent
/// description is empty, and an absent or null expiry stays absent.
pub proof fn law_api_alert_defaults(p: NwsAlertProperties, a: ApiAlert)
    requires
        api_alert_matches(p, a),
    ensures
        p.severity matches Some(x) ==> a.severity@ == x@,
        p.severity is None ==> a.severity@ == "Unknown"@,
        p.headline matches Some(x) ==> a.headline@ == x@,
        p.headline is None ==> a.headline@ == "Weather Alert"@,
        p.description matches Some(x) ==> a.description@ == x@,
        p.description is None ==> a.description@.len() == 0,
        p.expires matches Some(Some(x)) ==> a.expires_at == Some(x),
        (p.expires is None || p.expires == Some(None::<String>)) ==> a.expires_at is None,
{
}

} // verus!

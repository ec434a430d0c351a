//! The decisions of the UI's weather client: how severe an NWS alert is,
//! which active alert the UI shows, and the addresses it asks.

use vstd::prelude::*;
use crate::text::{
    ascii_lowercase, is_ascii_text,
    chars_of, contains, decimal, decimal_u64, lowercase, push_str, str_contains, str_eq,
    string_of, to_lowercase,
};
use crate::weather_models::{level, severity_level, AlertSeverity, NwsAlertFeature, WeatherAlert};

verus! {

/// The severity of an alert whose event name, in lower case, is `event_lc`,
/// with NWS severity `sev` and urgency `urg`. Named warnings decide first:
/// tornado, hurricane and extreme wind warnings are extreme, severe
/// thunderstorm and flash flood warnings severe; otherwise the NWS severity
/// is used, "Extreme" counting as extreme only when the urgency is
/// "Immediate".
pub open spec fn severity_of(
    sev: Option<Seq<char>>,
    urg: Option<Seq<char>>,
    event_lc: Seq<char>,
) -> AlertSeverity {
    if contains(event_lc, "tornado warning"@) || contains(event_lc, "hurricane warning"@)
        || contains(event_lc, "extreme wind warning"@) {
        AlertSeverity::Extreme
    } else if contains(event_lc, "severe thunderstorm warning"@) || contains(
        event_lc,
        "flash flood warning"@,
    ) {
        AlertSeverity::Severe
    } else {
        let s = match sev {
            Some(s) => s,
            None => "Unknown"@,
        };
        if s == "Extreme"@ && urg == Some("Immediate"@) {
            AlertSeverity::Extreme
        } else if s == "Extreme"@ || s == "Severe"@ {
            AlertSeverity::Severe
        } else if s == "Moderate"@ {
            AlertSeverity::Moderate
        } else {
            AlertSeverity::Minor
        }
    }
}

/// The characters of an optional string slice.
pub open spec fn opt_view(v: Option<&str>) -> Option<Seq<char>> {
    match v {
        Some(s) => Some(s@),
        None => None,
    }
}

/// The severity of an alert whose event name is already in lower case.
pub fn classify_lowered_event(
    severity_raw: Option<&str>,
    urgency_raw: Option<&str>,
    event_lc: &str,
) -> (r: AlertSeverity)
    ensures
        r == severity_of(opt_view(severity_raw), opt_view(urgency_raw), event_lc@),
{
    if str_contains(event_lc, "tornado warning") || str_contains(event_lc, "hurricane warning")
        || str_contains(event_lc, "extreme wind warning") {
        return AlertSeverity::Extreme;
    }
    if str_contains(event_lc, "severe thunderstorm warning") || str_contains(
        event_lc,
        "flash flood warning",
    ) {
        return AlertSeverity::Severe;
    }
    let s = match severity_raw {
        Some(s) => s,
        None => "Unknown",
    };
    let immediate = match urgency_raw {
        Some(u) => str_eq(u, "Immediate"),
        None => false,
    };
    if str_eq(s, "Extreme") && immediate {
        AlertSeverity::Extreme
    } else if str_eq(s, "Extreme") || str_eq(s, "Severe") {
        AlertSeverity::Severe
    } else if str_eq(s, "Moderate") {
        AlertSeverity::Moderate
    } else {
        AlertSeverity::Minor
    }
}

/// The severity of an NWS alert; the event name is matched without regard
/// to case. The certainty is not consulted.
pub fn classify_severity(
    severity_raw: Option<&str>,
    urgency_raw: Option<&str>,
    _certainty_raw: Option<&str>,
    event: &str,
) -> (r: AlertSeverity)
    ensures
        r == severity_of(opt_view(severity_raw), opt_view(urgency_raw), lowercase(event@)),
        is_ascii_text(event@) ==> r == severity_of(
            opt_view(severity_raw),
            opt_view(urgency_raw),
            ascii_lowercase(event@),
        ),
{
    let event_lc = to_lowercase(event);
    classify_lowered_event(severity_raw, urgency_raw, event_lc.as_str())
}

/// `Some` text as it is, `None` as `default`.
pub open spec fn or_text(v: Option<String>, default: Seq<char>) -> Seq<char> {
    match v {
        Some(s) => s@,
        None => default,
    }
}

/// The optional string as an optional slice.
pub open spec fn opt_string_view(v: Option<String>) -> Option<Seq<char>> {
    match v {
        Some(s) => Some(s@),
        None => None,
    }
}

/// `a` is the alert the UI makes of feature `f`: an absent event reads
/// "Unknown Alert", an absent description is empty, an absent instruction
/// reads "No specific instructions provided.", and the severity is that of
/// the event name.
pub open spec fn alert_of_feature(f: NwsAlertFeature, a: WeatherAlert) -> bool {
    let event = or_text(f.properties.event, "Unknown Alert"@);
    &&& a.id == f.id
    &&& a.event@ == event
    &&& a.description@ == or_text(f.properties.description, Seq::empty())
    &&& a.instruction@ == or_text(
        f.properties.instruction,
        "No specific instructions provided."@,
    )
    &&& a.severity == severity_of(
        opt_string_view(f.properties.severity),
        opt_string_view(f.properties.urgency),
        lowercase(event),
    )
}

fn text_or_default(v: &Option<String>, default: &str) -> (r: String)
    ensures
        r@ == or_text(*v, default@),
{
    match v {
        Some(s) => s.clone(),
        None => String::from_str(default),
    }
}

fn opt_as_str(v: &Option<String>) -> (r: Option<&str>)
    ensures
        opt_view(r) == opt_string_view(*v),
{
    match v {
        Some(s) => Some(s.as_str()),
        None => None,
    }
}

/// The alert the UI makes of one NWS alert feature.
pub fn alert_from_feature(f: &NwsAlertFeature) -> (a: WeatherAlert)
    ensures
        alert_of_feature(*f, a),
{
    let p = &f.properties;
    let event = text_or_default(&p.event, "Unknown Alert");
    let description = text_or_default(&p.description, "");
    let instruction = text_or_default(&p.instruction, "No specific instructions provided.");
    let severity = classify_severity(
        opt_as_str(&p.severity),
        opt_as_str(&p.urgency),
        opt_as_str(&p.certainty),
        event.as_str(),
    );
    proof {
        reveal_strlit("");
    }
    assert(description@ =~= or_text(p.description, Seq::empty()));
    WeatherAlert { id: f.id.clone(), event, severity, description, instruction }
}

/// Alert `k` is the one the UI shows among `alerts`: it has the highest
/// severity and no earlier alert is as severe.
pub open spec fn is_best(alerts: Seq<WeatherAlert>, k: int) -> bool {
    &&& 0 <= k < alerts.len()
    &&& forall|i: int|
        0 <= i < alerts.len() ==> level(#[trigger] alerts[i].severity) <= level(
            alerts[k].severity,
        )
    &&& forall|i: int|
        0 <= i < k ==> level(#[trigger] alerts[i].severity) < level(alerts[k].severity)
}

fn copy_alert(a: &WeatherAlert) -> (r: WeatherAlert)
    ensures
        r == *a,
{
    WeatherAlert {
        id: a.id.clone(),
        event: a.event.clone(),
        severity: a.severity,
        description: a.description.clone(),
        instruction: a.instruction.clone(),
    }
}

/// The alert the UI shows among `alerts`: the first of the highest
/// severity, or none when there is no alert.
pub fn select_best_alert(alerts: &Vec<WeatherAlert>) -> (r: Option<WeatherAlert>)
    ensures
        r is None <==> alerts.len() == 0,
        r is Some ==> exists|k: int| is_best(alerts@, k) && r == Some(#[trigger] alerts@[k]),
{
    if alerts.len() == 0 {
        return None;
    }
    let mut best: usize = 0;
    let mut i: usize = 1;
    while i < alerts.len()
        invariant
            0 < alerts.len(),
            best < i <= alerts.len(),
            forall|j: int|
                0 <= j < i ==> level(#[trigger] alerts@[j].severity) <= level(
                    alerts@[best as int].severity,
                ),
            forall|j: int|
                0 <= j < best ==> level(#[trigger] alerts@[j].severity) < level(
                    alerts@[best as int].severity,
                ),
        decreases alerts.len() - i,
    {
        if severity_level(alerts[i].severity) > severity_level(alerts[best].severity) {
            best = i;
        }
        i = i + 1;
    }
    assert(is_best(alerts@, best as int));
    Some(copy_alert(&alerts[best]))
}

/// The alerts the UI makes of the features, one for each, in order.
pub fn alerts_from_features(features: &Vec<NwsAlertFeature>) -> (r: Vec<WeatherAlert>)
    ensures
        r.len() == features.len(),
        forall|i: int| 0 <= i < r.len() ==> alert_of_feature(features@[i], #[trigger] r@[i]),
{
    let mut r: Vec<WeatherAlert> = Vec::new();
    let mut i: usize = 0;
    while i < features.len()
        invariant
            i <= features.len(),
            r.len() == i,
            forall|k: int| 0 <= k < i ==> alert_of_feature(features@[k], #[trigger] r@[k]),
        decreases features.len() - i,
    {
        r.push(alert_from_feature(&features[i]));
        i = i + 1;
    }
    r
}

/// The most relevant active alert of an NWS alert response: of the alerts
/// made from its features, the first of the highest severity.
pub fn best_active_alert(features: &Vec<NwsAlertFeature>) -> (r: Option<WeatherAlert>)
    ensures
        r is None <==> features.len() == 0,
        r is Some ==> exists|alerts: Seq<WeatherAlert>, k: int|
            alerts.len() == features.len() && (forall|i: int|
                0 <= i < alerts.len() ==> alert_of_feature(features@[i], #[trigger] alerts[i]))
                && is_best(alerts, k) && r == Some(#[trigger] alerts[k]),
{
    let alerts = alerts_from_features(features);
    select_best_alert(&alerts)
}

/// Bytes that percent-encoding leaves as they are: ASCII letters and
/// digits, `-`, `.`, `_` and `~`.
pub open spec fn is_unreserved(b: u8) -> bool {
    ||| 0x30 <= b <= 0x39
    ||| 0x41 <= b <= 0x5A
    ||| 0x61 <= b <= 0x7A
    ||| b == 0x2D
    ||| b == 0x2E
    ||| b == 0x5F
    ||| b == 0x7E
}

/// The upper-case hexadecimal digit of `d < 16`.
pub open spec fn hex_digit(d: u8) -> char {
    if d < 10 {
        (0x30 + d) as char
    } else {
        (0x41 + d - 10) as char
    }
}

/// Percent-encoding of a byte string: each unreserved byte as its character,
/// each other byte as `%` and two upper-case hexadecimal digits.
pub open spec fn percent_encode(bytes: Seq<u8>) -> Seq<char>
    decreases bytes.len(),
{
    if bytes.len() == 0 {
        seq![]
    } else {
        let b = bytes[0];
        let head = if is_unreserved(b) {
            seq![b as char]
        } else {
            seq!['%', hex_digit(b / 16), hex_digit(b % 16)]
        };
        head + percent_encode(bytes.drop_first())
    }
}

/// `urlencoding::encode`: percent-encodes every byte of the UTF-8 encoding
/// of `s` except ASCII letters, digits, `-`, `.`, `_` and `~`.
#[verifier::external_body]
fn url_encode(s: &str) -> (r: String)
    ensures
        r@ == percent_encode(vstd::utf8::encode_utf8(s@)),
{
    urlencoding::encode(s).into_owned()
}

/// The Nominatim search address for a free-text place query.
pub open spec fn nominatim_url(query: Seq<char>) -> Seq<char> {
    "https://nominatim.openstreetmap.org/search?q="@ + percent_encode(
        vstd::utf8::encode_utf8(query),
    ) + "&format=json&limit=1"@
}

/// The Nominatim address that geocodes `query` (a city name or ZIP code)
/// to its first match.
pub fn nominatim_search_url(query: &str) -> (r: String)
    ensures
        r@ == nominatim_url(query@),
{
    let enc = url_encode(query);
    let mut v = chars_of("https://nominatim.openstreetmap.org/search?q=");
    push_str(&mut v, enc.as_str());
    push_str(&mut v, "&format=json&limit=1");
    string_of(&v)
}

/// The NWS forecast address of a forecast grid cell.
pub open spec fn grid_url(grid_id: Seq<char>, x: u32, y: u32) -> Seq<char> {
    "https://api.weather.gov/gridpoints/"@ + grid_id + "/"@ + decimal(x as nat) + ","@
        + decimal(y as nat) + "/forecast"@
}

/// The NWS forecast address of grid cell `x`, `y` of office `grid_id`.
pub fn grid_forecast_url(grid_id: &str, x: u32, y: u32) -> (r: String)
    ensures
        r@ == grid_url(grid_id@, x, y),
{
    let mut v = chars_of("https://api.weather.gov/gridpoints/");
    push_str(&mut v, grid_id);
    push_str(&mut v, "/");
    let xd = decimal_u64(x as u64);
    crate::text::append_chars(&mut v, &xd);
    push_str(&mut v, ",");
    let yd = decimal_u64(y as u64);
    crate::text::append_chars(&mut v, &yd);
    push_str(&mut v, "/forecast");
    string_of(&v)
}

/// Tornado, hurricane and extreme wind warnings are extreme, and severe
/// thunderstorm and flash flood warnings are at least severe, whatever
/// severity and urgency the NWS gives them.
pub proof fn law_named_warnings_override(
    sev: Option<Seq<char>>,
    urg: Option<Seq<char>>,
    event_lc: Seq<char>,
)
    ensures
        contains(event_lc, "tornado warning"@) || contains(event_lc, "hurricane warning"@)
            || contains(event_lc, "extreme wind warning"@) ==> severity_of(sev, urg, event_lc)
            == AlertSeverity::Extreme,
        contains(event_lc, "severe thunderstorm warning"@) || contains(
            event_lc,
            "flash flood warning"@,
        ) ==> level(severity_of(sev, urg, event_lc)) >= 3,
        !contains(event_lc, "tornado warning"@) && !contains(event_lc, "hurricane warning"@)
            && !contains(event_lc, "extreme wind warning"@) && (contains(
            event_lc,
            "severe thunderstorm warning"@,
        ) || contains(event_lc, "flash flood warning"@)) ==> severity_of(sev, urg, event_lc)
            == AlertSeverity::Severe,
        severity_of(sev, urg, event_lc) != AlertSeverity::Unknown,
{
}

/// The number of commas in `s`.
pub open spec fn comma_count(s: Seq<char>) -> nat
    decreases s.len(),
{
    if s.len() == 0 {
        0
    } else {
        comma_count(s.drop_last()) + if s.last() == ',' {
            1nat
        } else {
            0nat
        }
    }
}

/// The two parts of an ipinfo `loc` field (`"lat,lon"`): the text before
/// and after its comma, when it has exactly one; none otherwise.
pub fn split_loc(loc: &str) -> (r: Option<(String, String)>)
    ensures
        r is Some <==> comma_count(loc@) == 1,
        r matches Some((a, b)) ==> loc@ == a@ + seq![','] + b@ && comma_count(a@) == 0
            && comma_count(b@) == 0,
{
    let c = chars_of(loc);
    let mut first: Vec<char> = Vec::new();
    let mut second: Vec<char> = Vec::new();
    let mut commas: usize = 0;
    let mut i: usize = 0;
    assert(c@.take(0) =~= Seq::<char>::empty());
    while i < c.len()
        invariant
            i <= c.len(),
            c@ == loc@,
            commas <= 2,
            commas < 2 ==> commas == comma_count(c@.take(i as int)),
            commas == 2 ==> comma_count(c@.take(i as int)) >= 2,
            commas == 0 ==> first@ == c@.take(i as int) && second@.len() == 0,
            commas == 1 ==> c@.take(i as int) == first@ + seq![','] + second@ && comma_count(
                first@,
            ) == 0 && comma_count(second@) == 0,
        decreases c.len() - i,
    {
        let ch = c[i];
        let ghost pre = c@.take(i as int);
        assert(c@.take(i as int + 1) =~= pre.push(ch));
        assert(pre.push(ch).drop_last() =~= pre);
        if ch == ',' {
            if commas < 2 {
                commas = commas + 1;
            }
            if commas == 1 {
                assert(second@ =~= Seq::<char>::empty());
                assert(pre.push(ch) =~= first@ + seq![','] + second@);
            }
        } else if commas == 0 {
            first.push(ch);
            assert(first@.drop_last() =~= pre);
        } else if commas == 1 {
            let ghost s0 = second@;
            second.push(ch);
            assert(second@.drop_last() =~= s0);
            assert(pre.push(ch) =~= first@ + seq![','] + second@);
        }
        i = i + 1;
    }
    assert(c@.take(c.len() as int) =~= c@);
    if commas == 1 {
        Some((string_of(&first), string_of(&second)))
    } else {
        None
    }
}

} // verus!

verus! {

/// The event name mentions none of the warnings that decide by name.
pub open spec fn names_no_listed_warning(event_lc: Seq<char>) -> bool {
    &&& !contains(event_lc, "tornado warning"@)
    &&& !contains(event_lc, "hurricane warning"@)
    &&& !contains(event_lc, "extreme wind warning"@)
    &&& !contains(event_lc, "severe thunderstorm warning"@)
    &&& !contains(event_lc, "flash flood warning"@)
}

/// When the event name decides nothing, the NWS severity does: the alert is
/// extreme exactly when the severity is "Extreme" and the urgency
/// "Immediate"; "Extreme" with another urgency, and "Severe" with any
/// urgency, are severe; "Moderate" is moderate; anything else, or no
/// severity, is minor.
pub proof fn law_classify_by_nws_severity(
    sev: Option<Seq<char>>,
    urg: Option<Seq<char>>,
    event_lc: Seq<char>,
)
    requires
        names_no_listed_warning(event_lc),
    ensures
        (severity_of(sev, urg, event_lc) == AlertSeverity::Extreme) <==> (sev == Some("Extreme"@)
            && urg == Some("Immediate"@)),
        sev == Some("Extreme"@) && urg != Some("Immediate"@) ==> severity_of(sev, urg, event_lc)
            == AlertSeverity::Severe,
        sev == Some("Severe"@) ==> severity_of(sev, urg, event_lc) == AlertSeverity::Severe,
        sev == Some("Moderate"@) ==> severity_of(sev, urg, event_lc) == AlertSeverity::Moderate,
        sev != Some("Extreme"@) && sev != Some("Severe"@) && sev != Some("Moderate"@)
            ==> severity_of(sev, urg, event_lc) == AlertSeverity::Minor,
{
    reveal_strlit("Extreme");
    reveal_strlit("Severe");
    reveal_strlit("Moderate");
    reveal_strlit("Unknown");
    assert("Extreme"@.len() == 7);
    assert("Severe"@.len() == 6);
    assert("Moderate"@.len() == 8);
    assert("Unknown"@.len() == 7);
    assert("Extreme"@[0] != "Unknown"@[0]);
}

/// Severities are ordered unknown, minor, moderate, severe, extreme.
pub proof fn law_level_order()
    ensures
        level(AlertSeverity::Unknown) < level(AlertSeverity::Minor),
        level(AlertSeverity::Minor) < level(AlertSeverity::Moderate),
        level(AlertSeverity::Moderate) < level(AlertSeverity::Severe),
        level(AlertSeverity::Severe) < level(AlertSeverity::Extreme),
{
}

/// The alert made of a feature keeps its id and its present texts; an
/// absent event reads "Unknown Alert" (and is classified as such), an
/// absent description is empty, and an absent instruction reads "No
/// specific instructions provided.".
pub proof fn law_alert_defaults(f: NwsAlertFeature, a: WeatherAlert)
    requires
        alert_of_feature(f, a),
    ensures
        a.id == f.id,
        f.properties.event matches Some(e) ==> a.event@ == e@,
        f.properties.event is None ==> a.event@ == "Unknown Alert"@,
        f.properties.description matches Some(d) ==> a.description@ == d@,
        f.properties.description is None ==> a.description@.len() == 0,
        f.properties.instruction matches Some(t) ==> a.instruction@ == t@,
        f.properties.instruction is None ==> a.instruction@
            == "No specific instructions provided."@,
        a.severity == severity_of(
            opt_string_view(f.properties.severity),
            opt_string_view(f.properties.urgency),
            lowercase(a.event@),
        ),
{
}

} // verus!

//! Decisions of the background agent: how severe each reported alert is,
//! which alert the agent shows, and what it does when the alert picture
//! changes between two polls.

use vstd::prelude::*;
use crate::backend::ApiAlert;
use crate::text::{ascii_lowercase, contains, is_ascii_text, lowercase, str_contains, to_lowercase};

verus! {

/// How severe an alert is, as the agent ranks it.
#[derive(Debug, Clone, Copy, PartialEq, Eq, Structural)]
pub enum AlertSeverity {
    NoAlert,
    Watch,
    Advisory,
    Warning,
    TornadoWarning,
}

/// The alert the agent currently shows.
#[derive(Debug)]
pub struct AlertState {
    pub severity: AlertSeverity,
    pub headline: String,
    pub description: String,
    pub expires_at: Option<String>,
}

/// The rank of a severity: none, advisory, watch, warning, tornado warning.
pub open spec fn rank(s: AlertSeverity) -> nat {
    match s {
        AlertSeverity::NoAlert => 0,
        AlertSeverity::Advisory => 1,
        AlertSeverity::Watch => 2,
        AlertSeverity::Warning => 3,
        AlertSeverity::TornadoWarning => 4,
    }
}

/// The rank of a severity.
pub fn severity_rank(s: AlertSeverity) -> (r: u8)
    ensures
        r == rank(s),
{
    match s {
        AlertSeverity::NoAlert => 0,
        AlertSeverity::Advisory => 1,
        AlertSeverity::Watch => 2,
        AlertSeverity::Warning => 3,
        AlertSeverity::TornadoWarning => 4,
    }
}

/// Whether `a` ranks above `b`.
pub fn is_more_severe(a: AlertSeverity, b: AlertSeverity) -> (r: bool)
    ensures
        r == (rank(a) > rank(b)),
{
    severity_rank(a) > severity_rank(b)
}

/// The severity of an alert whose severity text, in lower case, is `l`.
pub open spec fn severity_of_lowered(l: Seq<char>) -> AlertSeverity {
    if contains(l, "tornado warning"@) {
        AlertSeverity::TornadoWarning
    } else if contains(l, "warning"@) {
        AlertSeverity::Warning
    } else if contains(l, "watch"@) {
        AlertSeverity::Watch
    } else if contains(l, "advisory"@) {
        AlertSeverity::Advisory
    } else {
        AlertSeverity::NoAlert
    }
}

/// The severity the agent gives to an alert's severity text.
pub open spec fn api_severity(s: Seq<char>) -> AlertSeverity {
    severity_of_lowered(lowercase(s))
}

/// The severity of a lower-case severity text.
pub fn classify_lowered(l: &str) -> (r: AlertSeverity)
    ensures
        r == severity_of_lowered(l@),
{
    if str_contains(l, "tornado warning") {
        AlertSeverity::TornadoWarning
    } else if str_contains(l, "warning") {
        AlertSeverity::Warning
    } else if str_contains(l, "watch") {
        AlertSeverity::Watch
    } else if str_contains(l, "advisory") {
        AlertSeverity::Advisory
    } else {
        AlertSeverity::NoAlert
    }
}

/// The severity the agent gives to an alert's severity text, matched
/// without regard to case.
pub fn map_api_severity(api_sev: &str) -> (r: AlertSeverity)
    ensures
        r == api_severity(api_sev@),
        is_ascii_text(api_sev@) ==> r == severity_of_lowered(ascii_lowercase(api_sev@)),
{
    let l = to_lowercase(api_sev);
    classify_lowered(l.as_str())
}

/// The state shown when no alert is active.
pub open spec fn is_quiet_state(st: AlertState) -> bool {
    &&& st.severity == AlertSeverity::NoAlert
    &&& st.headline@ == "No active alerts"@
    &&& st.description@ == Seq::<char>::empty()
    &&& st.expires_at is None
}

/// `st` shows alert `a` at severity `sev`.
pub open spec fn shows_alert(st: AlertState, a: ApiAlert, sev: AlertSeverity) -> bool {
    &&& st.severity == sev
    &&& st.headline == a.headline
    &&& st.description == a.description
    &&& st.expires_at == a.expires_at
}

/// Alert `k` is the one the agent picks given the severities `sevs`: it
/// has the highest rank, no earlier alert has that rank, and the rank is
/// above none.
pub open spec fn is_pick(sevs: Seq<AlertSeverity>, k: int) -> bool {
    &&& 0 <= k < sevs.len()
    &&& rank(sevs[k]) > 0
    &&& forall|i: int| 0 <= i < sevs.len() ==> rank(#[trigger] sevs[i]) <= rank(sevs[k])
    &&& forall|i: int| 0 <= i < k ==> rank(#[trigger] sevs[i]) < rank(sevs[k])
}

/// The quiet state.
pub fn quiet_state() -> (st: AlertState)
    ensures
        is_quiet_state(st),
{
    proof {
        reveal_strlit("");
    }
    let st = AlertState {
        severity: AlertSeverity::NoAlert,
        headline: String::from_str("No active alerts"),
        description: String::from_str(""),
        expires_at: None,
    };
    assert(st.description@ =~= Seq::<char>::empty());
    st
}

fn copy_opt(v: &Option<String>) -> (r: Option<String>)
    ensures
        r == *v,
{
    match v {
        Some(s) => Some(s.clone()),
        None => None,
    }
}

/// The alert state for the alerts `alerts` whose severities are `sevs`:
/// the first alert of the highest rank, or the quiet state when no alert
/// ranks above none.
pub fn select_alert(alerts: &Vec<ApiAlert>, sevs: &Vec<AlertSeverity>) -> (st: AlertState)
    requires
        alerts.len() == sevs.len(),
    ensures
        (forall|i: int| 0 <= i < sevs.len() ==> rank(#[trigger] sevs@[i]) == 0) ==> is_quiet_state(
            st,
        ),
        (exists|i: int| 0 <= i < sevs.len() && rank(#[trigger] sevs@[i]) > 0) ==> exists|k: int|
            is_pick(sevs@, k) && shows_alert(st, #[trigger] alerts@[k], sevs@[k]),
{
    let mut highest = AlertSeverity::NoAlert;
    let mut chosen: Option<usize> = None;
    let mut i: usize = 0;
    while i < alerts.len()
        invariant
            alerts.len() == sevs.len(),
            i <= sevs.len(),
            chosen is None ==> highest == AlertSeverity::NoAlert && forall|j: int|
                0 <= j < i ==> rank(#[trigger] sevs@[j]) == 0,
            chosen is Some ==> {
                let k = chosen->0 as int;
                &&& k < i
                &&& highest == sevs@[k]
                &&& rank(sevs@[k]) > 0
                &&& forall|j: int| 0 <= j < i ==> rank(#[trigger] sevs@[j]) <= rank(sevs@[k])
                &&& forall|j: int| 0 <= j < k ==> rank(#[trigger] sevs@[j]) < rank(sevs@[k])
            },
        decreases alerts.len() - i,
    {
        let sev = sevs[i];
        if is_more_severe(sev, highest) {
            highest = sev;
            chosen = Some(i);
        }
        i = i + 1;
    }
    match chosen {
        Some(k) => {
            let a = &alerts[k];
            let st = AlertState {
                severity: highest,
                headline: a.headline.clone(),
                description: a.description.clone(),
                expires_at: copy_opt(&a.expires_at),
            };
            assert(is_pick(sevs@, k as int));
            assert(shows_alert(st, alerts@[k as int], sevs@[k as int]));
            st
        },
        None => quiet_state(),
    }
}

/// The severities the agent gives to the alerts, in order.
pub fn alert_severities(alerts: &Vec<ApiAlert>) -> (sevs: Vec<AlertSeverity>)
    ensures
        sevs.len() == alerts.len(),
        forall|i: int|
            0 <= i < alerts.len() ==> #[trigger] sevs@[i] == api_severity(alerts@[i].severity@),
{
    let mut sevs: Vec<AlertSeverity> = Vec::new();
    let mut i: usize = 0;
    while i < alerts.len()
        invariant
            i <= alerts.len(),
            sevs.len() == i,
            forall|j: int|
                0 <= j < i ==> #[trigger] sevs@[j] == api_severity(alerts@[j].severity@),
        decreases alerts.len() - i,
    {
        let s = map_api_severity(alerts[i].severity.as_str());
        sevs.push(s);
        i = i + 1;
    }
    sevs
}

/// The severities of `alerts` as the agent ranks them.
pub open spec fn severities_of(alerts: Seq<ApiAlert>) -> Seq<AlertSeverity> {
    alerts.map_values(|a: ApiAlert| api_severity(a.severity@))
}

/// The alert state the agent shows for the reported alerts: the first
/// alert of the highest severity, or the quiet state when none is ranked.
pub fn map_alerts(api_alerts: &Vec<ApiAlert>) -> (st: AlertState)
    ensures
        (forall|i: int|
            0 <= i < api_alerts.len() ==> rank(#[trigger] severities_of(api_alerts@)[i]) == 0)
            ==> is_quiet_state(st),
        (exists|i: int|
            0 <= i < api_alerts.len() && rank(#[trigger] severities_of(api_alerts@)[i]) > 0)
            ==> exists|k: int|
            is_pick(severities_of(api_alerts@), k) && shows_alert(
                st,
                #[trigger] api_alerts@[k],
                severities_of(api_alerts@)[k],
            ),
{
    let sevs = alert_severities(api_alerts);
    assert(sevs@ =~= severities_of(api_alerts@));
    select_alert(api_alerts, &sevs)
}

/// What the agent does when the shown alert changes between two polls.
#[derive(Debug, Clone, Copy, PartialEq, Eq, Structural)]
pub enum AlertAction {
    /// Nothing to do.
    Nothing,
    /// A tornado warning began: alert icon, flashing, notification, and the
    /// UI opened in emergency mode.
    TornadoAlarm,
    /// A severe weather warning began: alert icon, flashing, notification.
    SevereWarning,
    /// A lesser alert began: alert icon without flashing.
    NewAlert,
    /// All alerts ended: normal icon, flashing stopped.
    Cleared,
}

/// The action for a change of the shown severity from `prev` to `cur`.
pub open spec fn transition(prev: AlertSeverity, cur: AlertSeverity) -> AlertAction {
    if prev == AlertSeverity::NoAlert && cur != AlertSeverity::NoAlert {
        match cur {
            AlertSeverity::TornadoWarning => AlertAction::TornadoAlarm,
            AlertSeverity::Warning => AlertAction::SevereWarning,
            _ => AlertAction::NewAlert,
        }
    } else if prev != AlertSeverity::NoAlert && cur == AlertSeverity::NoAlert {
        AlertAction::Cleared
    } else {
        AlertAction::Nothing
    }
}

/// The action for a change of the shown alert from `prev` to `current`.
pub fn alert_transition(prev: &AlertState, current: &AlertState) -> (r: AlertAction)
    ensures
        r == transition(prev.severity, current.severity),
{
    if prev.severity == AlertSeverity::NoAlert && current.severity != AlertSeverity::NoAlert {
        match current.severity {
            AlertSeverity::TornadoWarning => AlertAction::TornadoAlarm,
            AlertSeverity::Warning => AlertAction::SevereWarning,
            _ => AlertAction::NewAlert,
        }
    } else if prev.severity != AlertSeverity::NoAlert && current.severity
        == AlertSeverity::NoAlert {
        AlertAction::Cleared
    } else {
        AlertAction::Nothing
    }
}

/// The agent acts only when alerts begin or end: the action is not
/// `Nothing` exactly when one of the two severities is "no alert" and the
/// other is not; an alert that begins is never answered with `Cleared`, and
/// one that ends always is.
pub proof fn law_actions_on_edges_only(prev: AlertSeverity, cur: AlertSeverity)
    ensures
        (transition(prev, cur) != AlertAction::Nothing) <==> ((prev == AlertSeverity::NoAlert)
            != (cur == AlertSeverity::NoAlert)),
        transition(cur, cur) == AlertAction::Nothing,
        prev == AlertSeverity::NoAlert && cur != AlertSeverity::NoAlert ==> transition(prev, cur)
            != AlertAction::Cleared,
        prev != AlertSeverity::NoAlert && cur == AlertSeverity::NoAlert ==> transition(prev, cur)
            == AlertAction::Cleared,
{
}

/// The emergency UI opens exactly when a tornado warning follows a poll
/// with no alert.
pub proof fn law_tornado_alarm(prev: AlertSeverity, cur: AlertSeverity)
    ensures
        (transition(prev, cur) == AlertAction::TornadoAlarm) <==> (prev == AlertSeverity::NoAlert
            && cur == AlertSeverity::TornadoWarning),
{
}

/// The alert the agent showed after its last successful poll.
pub struct AlertTracker {
    pub last_alert: AlertState,
}

impl AlertTracker {
    /// A tracker that has shown no alert yet.
    pub fn new() -> (t: Self)
        ensures
            is_quiet_state(t.last_alert),
    {
        AlertTracker { last_alert: quiet_state() }
    }

    /// Records the alert state of a poll whose results were written, and
    /// returns the action for the change from the previous one.
    pub fn commit(&mut self, current: AlertState) -> (r: AlertAction)
        ensures
            r == transition(old(self).last_alert.severity, current.severity),
            final(self).last_alert == current,
    {
        let r = alert_transition(&self.last_alert, &current);
        self.last_alert = current;
        r
    }
}

} // verus!

verus! {

/// How the agent reads an alert's lower-case severity text: a tornado
/// warning exactly when it mentions "tornado warning"; another warning when
/// it mentions "warning" but not "tornado warning"; a watch when it
/// mentions "watch" and no warning; an advisory when it mentions
/// "advisory" and neither a warning nor a watch; and no alert otherwise.
pub proof fn law_agent_severity_text(text: Seq<char>)
    ensures
        (severity_of_lowered(text) == AlertSeverity::TornadoWarning) <==> contains(
            text,
            "tornado warning"@,
        ),
        (severity_of_lowered(text) == AlertSeverity::Warning) <==> (contains(text, "warning"@)
            && !contains(text, "tornado warning"@)),
        (severity_of_lowered(text) == AlertSeverity::Watch) <==> (!contains(text, "warning"@)
            && contains(text, "watch"@)),
        (severity_of_lowered(text) == AlertSeverity::Advisory) <==> (!contains(text, "warning"@)
            && !contains(text, "watch"@) && contains(text, "advisory"@)),
        (severity_of_lowered(text) == AlertSeverity::NoAlert) <==> (!contains(text, "warning"@)
            && !contains(text, "watch"@) && !contains(text, "advisory"@)),
{
    assert(contains(text, "tornado warning"@) ==> contains(text, "warning"@)) by {
        if contains(text, "tornado warning"@) {
            reveal_strlit("tornado warning");
            reveal_strlit("warning");
            crate::text::lemma_contains_part(text, "tornado warning"@, 8, 15);
            assert("tornado warning"@.subrange(8, 15) =~= "warning"@);
        }
    }
}

/// The agent ranks no alert below an advisory, an advisory below a watch,
/// a watch below a warning, and a warning below a tornado warning.
pub proof fn law_rank_order()
    ensures
        rank(AlertSeverity::NoAlert) < rank(AlertSeverity::Advisory),
        rank(AlertSeverity::Advisory) < rank(AlertSeverity::Watch),
        rank(AlertSeverity::Watch) < rank(AlertSeverity::Warning),
        rank(AlertSeverity::Warning) < rank(AlertSeverity::TornadoWarning),
        rank(AlertSeverity::NoAlert) == 0,
{
}

/// When alerts begin, a tornado warning raises the tornado alarm, another
/// warning the severe-weather warning, and a watch or advisory a plain new
/// alert; when they end, the alert is cleared.
pub proof fn law_alert_begin_actions(cur: AlertSeverity)
    ensures
        cur == AlertSeverity::TornadoWarning ==> transition(AlertSeverity::NoAlert, cur)
            == AlertAction::TornadoAlarm,
        cur == AlertSeverity::Warning ==> transition(AlertSeverity::NoAlert, cur)
            == AlertAction::SevereWarning,
        (cur == AlertSeverity::Watch || cur == AlertSeverity::Advisory) ==> transition(
            AlertSeverity::NoAlert,
            cur,
        ) == AlertAction::NewAlert,
        cur != AlertSeverity::NoAlert ==> transition(cur, AlertSeverity::NoAlert)
            == AlertAction::Cleared,
{
}

/// The quiet state reads "No active alerts", with no severity, description
/// or expiry.
pub proof fn law_quiet_state(st: AlertState)
    requires
        is_quiet_state(st),
    ensures
        st.severity == AlertSeverity::NoAlert,
        st.headline@ == "No active alerts"@,
        st.description@.len() == 0,
        st.expires_at is None,
{
}

} // verus!

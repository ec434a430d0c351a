//! The UI side: the persona and chaos settings that the page changes over
//! IPC, the messages the page sends, and the scripts that push new data to
//! the page.

use vstd::prelude::*;
use crate::text::{chars_of, push_str, str_eq, string_of};

verus! {

/// The settings the page can change.
#[derive(Debug)]
pub struct UiState {
    pub persona: String,
    pub chaos_mode: bool,
}

impl UiState {
    /// The settings at start: the "Serious" persona, chaos off.
    pub fn new() -> (s: Self)
        ensures
            s.persona@ == "Serious"@,
            !s.chaos_mode,
    {
        UiState { persona: String::from_str("Serious"), chaos_mode: false }
    }

    /// Sets the persona; chaos mode is unchanged.
    pub fn set_persona(&mut self, p: &str)
        ensures
            final(self).persona@ == p@,
            final(self).chaos_mode == old(self).chaos_mode,
    {
        self.persona = String::from_str(p);
    }

    /// Sets chaos mode; the persona is unchanged.
    pub fn set_chaos(&mut self, enabled: bool)
        ensures
            final(self).chaos_mode == enabled,
            final(self).persona == old(self).persona,
    {
        self.chaos_mode = enabled;
    }

    /// The current persona.
    pub fn get_persona(&self) -> (r: String)
        ensures
            r@ == self.persona@,
    {
        self.persona.clone()
    }

    /// Whether chaos mode is on.
    pub fn get_chaos(&self) -> (r: bool)
        ensures
            r == self.chaos_mode,
    {
        self.chaos_mode
    }
}

/// An IPC message of the page, as read from its JSON: the `action` field
/// when it is a string, and the `value` field when it is a string or a
/// boolean.
#[derive(Debug)]
pub struct IpcMessage {
    pub action: Option<String>,
    pub value_str: Option<String>,
    pub value_bool: Option<bool>,
}

/// What handling an IPC message did.
#[derive(Debug)]
pub enum IpcOutcome {
    /// The message was not JSON.
    InvalidJson,
    /// The persona was set to the given name.
    PersonaSet(String),
    /// A persona change without a string value; nothing changed.
    PersonaIgnored,
    /// Chaos mode was set as given.
    ChaosSet(bool),
    /// The page asked for a refresh; it is acknowledged.
    RefreshRequested,
    /// An action that is not known (empty when there was none).
    UnknownAction(String),
}

/// The IPC endpoint of the page.
#[derive(Debug)]
pub struct IpcHandlers {
    pub ui_state: UiState,
}

/// The fields of a message: its action, its string value and its boolean
/// value.
pub open spec fn message_fields(m: IpcMessage) -> (
    Option<Seq<char>>,
    Option<Seq<char>>,
    Option<bool>,
) {
    (
        match m.action {
            Some(a) => Some(a@),
            None => None,
        },
        match m.value_str {
            Some(v) => Some(v@),
            None => None,
        },
        m.value_bool,
    )
}

/// What `serde_json` reads from the text of an IPC message: `None` when the
/// text is not JSON, otherwise the `action` field when it is a string, the
/// `value` field when it is a string, and the `value` field when it is a
/// boolean.
pub uninterp spec fn ipc_fields(msg: Seq<char>) -> Option<
    (Option<Seq<char>>, Option<Seq<char>>, Option<bool>),
>;

/// `serde_json::from_str` of the message text into a `serde_json::Value`,
/// then `Value`'s indexing by `"action"` and `"value"` with `as_str` and
/// `as_bool`; the fields read are named by `ipc_fields`.
#[verifier::external_body]
pub(crate) fn parse_ipc_message(msg: &str) -> (r: Option<IpcMessage>)
    ensures
        match r {
            Some(m) => ipc_fields(msg@) == Some(message_fields(m)),
            None => ipc_fields(msg@) is None,
        },
{
    let parsed: serde_json::Value = match serde_json::from_str(msg) {
        Ok(v) => v,
        Err(_) => return None,
    };
    let action = match parsed["action"].as_str() {
        Some(a) => Some(a.to_string()),
        None => None,
    };
    let value_str = match parsed["value"].as_str() {
        Some(v) => Some(v.to_string()),
        None => None,
    };
    Some(IpcMessage { action, value_str, value_bool: parsed["value"].as_bool() })
}

/// Handling a message with fields `f` (`None` for text that is not JSON)
/// turned the settings `before` into `after` and answered `r`:
/// `set_persona` with a string value sets the persona, `toggle_chaos` sets
/// chaos mode to the boolean value (off when it is not a boolean),
/// `manual_refresh` is acknowledged, and anything else, a missing action
/// counting as empty, is unknown and changes nothing.
pub open spec fn ipc_handled(
    before: UiState,
    after: UiState,
    f: Option<(Option<Seq<char>>, Option<Seq<char>>, Option<bool>)>,
    r: IpcOutcome,
) -> bool {
    match f {
        None => r is InvalidJson && after == before,
        Some((action, value_str, value_bool)) => {
            let a = match action {
                Some(a) => a,
                None => Seq::empty(),
            };
            if a == "set_persona"@ {
                match value_str {
                    Some(p) => (r matches IpcOutcome::PersonaSet(x) && x@ == p) && after.persona@
                        == p && after.chaos_mode == before.chaos_mode,
                    None => r is PersonaIgnored && after == before,
                }
            } else if a == "toggle_chaos"@ {
                let enabled = match value_bool {
                    Some(b) => b,
                    None => false,
                };
                r == IpcOutcome::ChaosSet(enabled) && after.chaos_mode == enabled && after.persona
                    == before.persona
            } else if a == "manual_refresh"@ {
                r is RefreshRequested && after == before
            } else {
                (r matches IpcOutcome::UnknownAction(x) && x@ == a) && after == before
            }
        },
    }
}

/// The fields of a message that may be missing.
pub open spec fn opt_fields(msg: Option<&IpcMessage>) -> Option<
    (Option<Seq<char>>, Option<Seq<char>>, Option<bool>),
> {
    match msg {
        Some(m) => Some(message_fields(*m)),
        None => None,
    }
}

impl IpcHandlers {
    /// An endpoint that changes `ui_state`.
    pub fn new(ui_state: UiState) -> (h: Self)
        ensures
            h.ui_state == ui_state,
    {
        IpcHandlers { ui_state }
    }

    /// Handles the raw text of a message from the page.
    pub fn handle_text(&mut self, msg: &str) -> (r: IpcOutcome)
        ensures
            ipc_handled(old(self).ui_state, final(self).ui_state, ipc_fields(msg@), r),
    {
        let parsed = parse_ipc_message(msg);
        match &parsed {
            Some(m) => self.handle(Some(m)),
            None => self.handle(None),
        }
    }

    /// Handles one parsed message; `None` stands for text that was not JSON.
    pub fn handle(&mut self, msg: Option<&IpcMessage>) -> (r: IpcOutcome)
        ensures
            ipc_handled(old(self).ui_state, final(self).ui_state, opt_fields(msg), r),
    {
        match msg {
            None => IpcOutcome::InvalidJson,
            Some(m) => {
                let action: &str = match &m.action {
                    Some(a) => a.as_str(),
                    None => "",
                };
                proof {
                    reveal_strlit("");
                }
                assert(action@ =~= match message_fields(*m).0 {
                    Some(a) => a,
                    None => Seq::empty(),
                });
                if str_eq(action, "set_persona") {
                    match &m.value_str {
                        Some(p) => {
                            self.ui_state.set_persona(p.as_str());
                            IpcOutcome::PersonaSet(p.clone())
                        },
                        None => IpcOutcome::PersonaIgnored,
                    }
                } else if str_eq(action, "toggle_chaos") {
                    let enabled = match m.value_bool {
                        Some(b) => b,
                        None => false,
                    };
                    self.ui_state.set_chaos(enabled);
                    IpcOutcome::ChaosSet(enabled)
                } else if str_eq(action, "manual_refresh") {
                    IpcOutcome::RefreshRequested
                } else {
                    IpcOutcome::UnknownAction(String::from_str(action))
                }
            },
        }
    }
}

/// The command-line flag with which the agent opens the UI for a tornado
/// warning.
pub open spec fn tornado_flag() -> Seq<char> {
    "--tornado-alert"@
}

/// Whether the UI was opened for a tornado warning: one of its arguments is
/// exactly `--tornado-alert`.
pub fn tornado_alert_launch(args: &Vec<String>) -> (r: bool)
    ensures
        r == exists|i: int| 0 <= i < args.len() && (#[trigger] args@[i])@ == tornado_flag(),
{
    let mut i: usize = 0;
    while i < args.len()
        invariant
            i <= args.len(),
            forall|j: int| 0 <= j < i ==> (#[trigger] args@[j])@ != tornado_flag(),
        decreases args.len() - i,
    {
        if str_eq(args[i].as_str(), "--tornado-alert") {
            return true;
        }
        i = i + 1;
    }
    false
}

/// New data for the page, as JSON text.
#[derive(Debug)]
pub enum UiMessage {
    WeatherUpdate(String),
    AlertUpdate(String),
}

/// The script that hands JSON `json` to the page as event `name`.
pub open spec fn event_script(name: Seq<char>, json: Seq<char>) -> Seq<char> {
    "window.dispatchEvent(new CustomEvent('"@ + name + "', { detail: "@ + json + " }));"@
}

impl UiMessage {
    /// The script that delivers this message to the page: a `weatherUpdate`
    /// or `alertUpdate` event whose detail is the JSON.
    pub fn script(&self) -> (r: String)
        ensures
            r@ == match self {
                UiMessage::WeatherUpdate(j) => event_script("weatherUpdate"@, j@),
                UiMessage::AlertUpdate(j) => event_script("alertUpdate"@, j@),
            },
    {
        let (name, json) = match self {
            UiMessage::WeatherUpdate(j) => ("weatherUpdate", j),
            UiMessage::AlertUpdate(j) => ("alertUpdate", j),
        };
        let mut v = chars_of("window.dispatchEvent(new CustomEvent('");
        push_str(&mut v, name);
        push_str(&mut v, "', { detail: ");
        push_str(&mut v, json.as_str());
        push_str(&mut v, " }));");
        string_of(&v)
    }
}

/// The directory the programs are installed in.
pub fn install_base_dir() -> (r: &'static str)
    ensures
        r@ == "C:\\Program Files\\GoldenStorm"@,
{
    "C:\\Program Files\\GoldenStorm"
}

/// The page's actions: text that is not JSON changes nothing; a
/// `set_persona` with a string value sets exactly the persona; a
/// `toggle_chaos` sets exactly chaos mode, to the boolean value or off; a
/// `manual_refresh` and every other action change nothing, and an unknown
/// action is reported by its name.
pub proof fn law_ipc_actions(
    before: UiState,
    after: UiState,
    f: Option<(Option<Seq<char>>, Option<Seq<char>>, Option<bool>)>,
    r: IpcOutcome,
)
    requires
        ipc_handled(before, after, f, r),
    ensures
        f is None ==> after == before && r is InvalidJson,
        f is Some ==> {
            let (action, value_str, value_bool) = f->0;
            &&& action == Some("set_persona"@) && value_str is Some ==> after.persona@
                == value_str->0 && after.chaos_mode == before.chaos_mode && (r matches IpcOutcome::PersonaSet(
                x,
            ) && x@ == value_str->0)
            &&& action == Some("set_persona"@) && value_str is None ==> after == before
                && r is PersonaIgnored
            &&& action == Some("toggle_chaos"@) ==> after.chaos_mode == (value_bool == Some(true))
                && after.persona == before.persona
            &&& action == Some("manual_refresh"@) ==> after == before && r is RefreshRequested
            &&& action is Some && action != Some("set_persona"@) && action != Some(
                "toggle_chaos"@,
            ) && action != Some("manual_refresh"@) ==> after == before && (
            r matches IpcOutcome::UnknownAction(x) && x@ == action->0)
            &&& action is None ==> after == before && (r matches IpcOutcome::UnknownAction(x)
                && x@.len() == 0)
        },
{
    reveal_strlit("set_persona");
    reveal_strlit("toggle_chaos");
    reveal_strlit("manual_refresh");
    assert("set_persona"@.len() == 11);
    assert("toggle_chaos"@.len() == 12);
    assert("manual_refresh"@.len() == 14);
}

/// The agent opens the UI in emergency mode with the flag
/// `--tornado-alert`, and only that exact argument counts.
pub proof fn law_tornado_flag()
    ensures
        tornado_flag() == "--tornado-alert"@,
{
}

} // verus!

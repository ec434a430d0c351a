//! The personality engine: remarks about the weather in the voice of a
//! persona, with phrases drawn at random from banks.

use vstd::prelude::*;
use chrono::Timelike;
use rand::Rng;
use crate::text::{
    append_chars, chars_eq, chars_of, contains, decimal_i64, int_decimal, join, lowercase,
    push_str, str_contains, string_of, to_lowercase, trim, trim_chars,
};

verus! {

/// A bank of phrases from which a remark draws one at random.
#[derive(Debug, Clone, Copy, PartialEq, Eq, Structural)]
pub enum Bank {
    TempColdNormal,
    TempHotNormal,
    TempMildNormal,
    TempColdChaos,
    TempHotChaos,
    TempMildChaos,
    HumidHighNormal,
    HumidHighChaos,
    WindStrongNormal,
    WindStrongChaos,
    MoodMorning,
    MoodAfternoon,
    MoodNight,
    MoodMorningChaos,
    MoodAfternoonChaos,
    MoodNightChaos,
    SithHeat,
    StarWarsGeneral,
    SheldonRemarks,
    ApocalypseSting,
}

/// The phrases of a bank.
pub open spec fn bank(b: Bank) -> Seq<Seq<char>> {
    match b {
        Bank::TempColdNormal => seq!["bone-shattering cold"@, "arctic nonsense"@, "frost-gremlin-approved chill"@],
        Bank::TempHotNormal => seq!["skin-melting heat"@, "Florida-level scorch"@, "sweat-summoning misery"@],
        Bank::TempMildNormal => seq!["pleasantly boring air"@, "statistically average conditions"@, "the meteorological equivalent of beige"@],
        Bank::TempColdChaos => seq!["cold enough to make penguins file HR complaints"@, "so cold your thoughts are forming icicles"@],
        Bank::TempHotChaos => seq!["so hot your DNA is reconsidering its life choices"@, "lava-adjacent suffering"@],
        Bank::TempMildChaos => seq!["so mild it’s suspicious"@, "emotionally neutral weather"@],
        Bank::HumidHighNormal => seq!["thick enough to chew."@, "basically gravy."@, "air with the consistency of warm, wet pudding."@],
        Bank::HumidHighChaos => seq!["moist enough to qualify as soup."@, "humidity so high your lungs need snorkels."@, "the atmosphere has entered its stew phase."@, "thick enough to chew with a fork."@],
        Bank::WindStrongNormal => seq!["strong enough to yeet a lawn chair."@, "perfect for involuntary hang-gliding."@, "capable of rearranging your face."@],
        Bank::WindStrongChaos => seq!["wind so aggressive it’s basically a personality test."@, "gusts strong enough to uninstall your roof."@, "nature’s way of shuffling humans like loose papers."@],
        Bank::MoodMorning => seq!["too early for this nonsense."@, "the sun is judging you."@, "your coffee needs coffee."@],
        Bank::MoodAfternoon => seq!["the afternoon slump is real."@, "the sun is bored and so am I."@, "peak 'why am I still here' hours."@],
        Bank::MoodNight => seq!["nighttime chaos energy."@, "the moon is silently judging you."@, "perfect conditions for overthinking everything."@],
        Bank::MoodMorningChaos => seq!["the sun rose and immediately regretted it."@, "this morning is sponsored by poor life choices."@],
        Bank::MoodAfternoonChaos => seq!["the afternoon where time stops but suffering continues."@, "emotionally it’s 3:17 PM forever."@],
        Bank::MoodNightChaos => seq!["the kind of night where side quests happen."@, "the sky is dark and so is your browser history."@],
        Bank::SithHeat => seq!["I find your lack of air conditioning disturbing. Mustafar is cooler than this."@, "The sun is a cruel master. I can feel your anger. It gives you focus... and a migraine."@, "You underestimate the power of a triple-digit heatwave! It is useless to resist the indoors."@],
        Bank::StarWarsGeneral => seq!["I find your lack of meteorological awareness disturbing."@, "The forecast is strong with this one."@, "In my experience, there is no such thing as 'perfect weather'."@],
        Bank::SheldonRemarks => seq!["Bazinga! You thought it was 'nice' out, but you ignored the localized adiabatic cooling."@, "I’ve occupied 'my spot' on the couch because the current dew point is physically repulsive."@, "I'm not crazy; my mother had me tested. But staying out in this wind? Certifiably insane."@, "It's a common misconception that 75 degrees is 'pleasant.' Not with this nitrogen ratio."@],
        Bank::ApocalypseSting => seq!["The sun is actively trying to delete your soul. You're just poorly-rendered bacon now."@, "Humidity is at 99%. The air is a hot, wet lung-transplant rejection. Go lie in a freezer."@, "Barometric pressure is so low the earth is trying to suck your organs out through your pores."@, "It’s so hot even the devil is calling Panama City to ask for the thermostat settings."@],
    }
}

/// The number of phrases of a bank.
pub fn bank_len(b: Bank) -> (n: u32)
    ensures
        n == bank(b).len(),
        n > 0,
{
    match b {
        Bank::TempColdNormal => 3,
        Bank::TempHotNormal => 3,
        Bank::TempMildNormal => 3,
        Bank::TempColdChaos => 2,
        Bank::TempHotChaos => 2,
        Bank::TempMildChaos => 2,
        Bank::HumidHighNormal => 3,
        Bank::HumidHighChaos => 4,
        Bank::WindStrongNormal => 3,
        Bank::WindStrongChaos => 3,
        Bank::MoodMorning => 3,
        Bank::MoodAfternoon => 3,
        Bank::MoodNight => 3,
        Bank::MoodMorningChaos => 2,
        Bank::MoodAfternoonChaos => 2,
        Bank::MoodNightChaos => 2,
        Bank::SithHeat => 3,
        Bank::StarWarsGeneral => 3,
        Bank::SheldonRemarks => 4,
        Bank::ApocalypseSting => 4,
    }
}

/// Phrase `i` of a bank.
pub fn phrase(b: Bank, i: u32) -> (r: &'static str)
    requires
        i < bank(b).len(),
    ensures
        r@ == bank(b)[i as int],
{
    match b {
        Bank::TempColdNormal => {
            if i == 0 {
                "bone-shattering cold"
            } else if i == 1 {
                "arctic nonsense"
            } else {
                "frost-gremlin-approved chill"
            }
        },
        Bank::TempHotNormal => {
            if i == 0 {
                "skin-melting heat"
            } else if i == 1 {
                "Florida-level scorch"
            } else {
                "sweat-summoning misery"
            }
        },
        Bank::TempMildNormal => {
            if i == 0 {
                "pleasantly boring air"
            } else if i == 1 {
                "statistically average conditions"
            } else {
                "the meteorological equivalent of beige"
            }
        },
        Bank::TempColdChaos => {
            if i == 0 {
                "cold enough to make penguins file HR complaints"
            } else {
                "so cold your thoughts are forming icicles"
            }
        },
        Bank::TempHotChaos => {
            if i == 0 {
                "so hot your DNA is reconsidering its life choices"
            } else {
                "lava-adjacent suffering"
            }
        },
        Bank::TempMildChaos => {
            if i == 0 {
                "so mild it’s suspicious"
            } else {
                "emotionally neutral weather"
            }
        },
        Bank::HumidHighNormal => {
            if i == 0 {
                "thick enough to chew."
            } else if i == 1 {
                "basically gravy."
            } else {
                "air with the consistency of warm, wet pudding."
            }
        },
        Bank::HumidHighChaos => {
            if i == 0 {
                "moist enough to qualify as soup."
            } else if i == 1 {
                "humidity so high your lungs need snorkels."
            } else if i == 2 {
                "the atmosphere has entered its stew phase."
            } else {
                "thick enough to chew with a fork."
            }
        },
        Bank::WindStrongNormal => {
            if i == 0 {
                "strong enough to yeet a lawn chair."
            } else if i == 1 {
                "perfect for involuntary hang-gliding."
            } else {
                "capable of rearranging your face."
            }
        },
        Bank::WindStrongChaos => {
            if i == 0 {
                "wind so aggressive it’s basically a personality test."
            } else if i == 1 {
                "gusts strong enough to uninstall your roof."
            } else {
                "nature’s way of shuffling humans like loose papers."
            }
        },
        Bank::MoodMorning => {
            if i == 0 {
                "too early for this nonsense."
            } else if i == 1 {
                "the sun is judging you."
            } else {
                "your coffee needs coffee."
            }
        },
        Bank::MoodAfternoon => {
            if i == 0 {
                "the afternoon slump is real."
            } else if i == 1 {
                "the sun is bored and so am I."
            } else {
                "peak 'why am I still here' hours."
            }
        },
        Bank::MoodNight => {
            if i == 0 {
                "nighttime chaos energy."
            } else if i == 1 {
                "the moon is silently judging you."
            } else {
                "perfect conditions for overthinking everything."
            }
        },
        Bank::MoodMorningChaos => {
            if i == 0 {
                "the sun rose and immediately regretted it."
            } else {
                "this morning is sponsored by poor life choices."
            }
        },
        Bank::MoodAfternoonChaos => {
            if i == 0 {
                "the afternoon where time stops but suffering continues."
            } else {
                "emotionally it’s 3:17 PM forever."
            }
        },
        Bank::MoodNightChaos => {
            if i == 0 {
                "the kind of night where side quests happen."
            } else {
                "the sky is dark and so is your browser history."
            }
        },
        Bank::SithHeat => {
            if i == 0 {
                "I find your lack of air conditioning disturbing. Mustafar is cooler than this."
            } else if i == 1 {
                "The sun is a cruel master. I can feel your anger. It gives you focus... and a migraine."
            } else {
                "You underestimate the power of a triple-digit heatwave! It is useless to resist the indoors."
            }
        },
        Bank::StarWarsGeneral => {
            if i == 0 {
                "I find your lack of meteorological awareness disturbing."
            } else if i == 1 {
                "The forecast is strong with this one."
            } else {
                "In my experience, there is no such thing as 'perfect weather'."
            }
        },
        Bank::SheldonRemarks => {
            if i == 0 {
                "Bazinga! You thought it was 'nice' out, but you ignored the localized adiabatic cooling."
            } else if i == 1 {
                "I’ve occupied 'my spot' on the couch because the current dew point is physically repulsive."
            } else if i == 2 {
                "I'm not crazy; my mother had me tested. But staying out in this wind? Certifiably insane."
            } else {
                "It's a common misconception that 75 degrees is 'pleasant.' Not with this nitrogen ratio."
            }
        },
        Bank::ApocalypseSting => {
            if i == 0 {
                "The sun is actively trying to delete your soul. You're just poorly-rendered bacon now."
            } else if i == 1 {
                "Humidity is at 99%. The air is a hot, wet lung-transplant rejection. Go lie in a freezer."
            } else if i == 2 {
                "Barometric pressure is so low the earth is trying to suck your organs out through your pores."
            } else {
                "It’s so hot even the devil is calling Panama City to ask for the thermostat settings."
            }
        },
    }
}

/// Whether the remarks are merely snarky or unhinged.
#[derive(Debug, Clone, Copy, PartialEq, Eq, Structural)]
pub enum ChaosLevel {
    Normal,
    Chaos,
}

/// The voice of the remarks.
#[derive(Debug, Clone, Copy, PartialEq, Eq, Structural)]
pub enum PersonaMode {
    Serious,
    StarWars,
    Spock,
    Roast,
    Sheldon,
    Apocalypse,
}

/// Where a temperature falls: below 45°, above 85°, or in between.
#[derive(Debug, Clone, Copy, PartialEq, Eq, Structural)]
pub enum TempBand {
    Cold,
    Mild,
    Hot,
}

/// The weather a remark is about, as the remark reads it: the band of the
/// temperature, whether the wind is below 10 mph and the pressure below
/// 1005 hPa, the readings as they are printed (temperature and wind without
/// decimals, pressure with one), the humidity in percent, the places, and
/// the text of an active alert.
#[derive(Debug)]
pub struct WeatherStatus {
    pub temp_band: TempBand,
    pub temp_text: String,
    pub humidity: i32,
    pub pressure_low: bool,
    pub pressure_text: String,
    pub code: i32,
    pub wind_calm: bool,
    pub wind_text: String,
    pub home_location: String,
    pub target_location: String,
    pub alert: Option<String>,
}

/// `rand::rngs::ThreadRng`, the generator of the current thread.
#[verifier::external_type_specification]
#[verifier::external_body]
pub struct ExThreadRng(rand::rngs::ThreadRng);

/// `rand::thread_rng`: the generator of the current thread, seeded by the
/// system. Nothing is claimed of its state.
#[verifier::external_body]
fn thread_rng() -> rand::rngs::ThreadRng {
    rand::thread_rng()
}

/// `Rng::gen_range(0..len)`: a number below `len`, uniformly at random (the
/// way `SliceRandom::choose` picks an element of a slice shorter than
/// 2^32). It panics on an empty range, which `requires` leaves out.
#[verifier::external_body]
fn gen_range(rng: &mut rand::rngs::ThreadRng, len: u32) -> (r: u32)
    requires
        len > 0,
    ensures
        r < len,
{
    rng.gen_range(0..len)
}

/// `Rng::gen_ratio(numerator, denominator)`: true with that probability;
/// which value comes back is not claimed. It panics when the denominator is
/// 0 or below the numerator, which `requires` leaves out.
#[verifier::external_body]
fn gen_ratio(rng: &mut rand::rngs::ThreadRng, numerator: u32, denominator: u32) -> bool
    requires
        0 < denominator,
        numerator <= denominator,
{
    rng.gen_ratio(numerator, denominator)
}

/// `chrono::Local::now` followed by `Timelike::hour`: the hour of the
/// current time in the machine's time zone, from 0 to 23. Which hour comes
/// back depends on the clock and the time zone and is not claimed.
#[verifier::external_body]
fn local_hour() -> (h: u32)
    ensures
        h < 24,
{
    chrono::Local::now().hour()
}

/// The remark about where the user is looking: another place than home, or
/// home in Panama City, in Warner Robins, or elsewhere. Places are compared
/// in lower case without surrounding white space.
pub open spec fn location_snark(s: WeatherStatus) -> Seq<char> {
    let home = trim(lowercase(s.home_location@));
    let target = trim(lowercase(s.target_location@));
    if target != home {
        "Looking at "@ + s.target_location@
            + "? Brave choice. It's a different flavor of atmospheric failure."@
    } else if contains(home, "panama city"@) {
        "You're in Panama City. The air is basically salt-flavored soup. Breathe it in."@
    } else if contains(home, "warner robins"@) {
        "Middle Georgia. Still here. Still humid. Still a sauna for your lungs."@
    } else {
        "You're home. The weather is exactly as emotionally confusing as you remember."@
    }
}

fn lowered_trimmed(s: &String) -> (r: Vec<char>)
    ensures
        r@ == trim(lowercase(s@)),
{
    let l = to_lowercase(s.as_str());
    let c = chars_of(l.as_str());
    trim_chars(&c)
}

/// The remark about where the user is looking.
pub fn generate_location_snark(s: &WeatherStatus) -> (r: Vec<char>)
    ensures
        r@ == location_snark(*s),
{
    let home = lowered_trimmed(&s.home_location);
    let target = lowered_trimmed(&s.target_location);
    if !chars_eq(&target, &home) {
        let mut v = chars_of("Looking at ");
        push_str(&mut v, s.target_location.as_str());
        push_str(&mut v, "? Brave choice. It's a different flavor of atmospheric failure.");
        v
    } else if crate::text::contains_chars(&home, &chars_of("panama city")) {
        chars_of("You're in Panama City. The air is basically salt-flavored soup. Breathe it in.")
    } else if crate::text::contains_chars(&home, &chars_of("warner robins")) {
        chars_of("Middle Georgia. Still here. Still humid. Still a sauna for your lungs.")
    } else {
        chars_of("You're home. The weather is exactly as emotionally confusing as you remember.")
    }
}

/// The remark about an active alert, matched in lower case: tornado,
/// hurricane or tropical storm, or anything else; none without an alert.
pub open spec fn alert_snark(s: WeatherStatus) -> Option<Seq<char>> {
    match s.alert {
        None => None,
        Some(a) => {
            let l = lowercase(a@);
            if contains(l, "tornado"@) {
                Some(
                    "Tornado watch. Grab a lawn chair. If you get sucked up, try to land on a developer who writes better code than me."@,
                )
            } else if contains(l, "hurricane"@) || contains(l, "tropical"@) {
                Some(
                    "Hurricane incoming. The ocean is just trying to come inside for a drink. Don't be a bad host."@,
                )
            } else {
                Some("The NWS is yelling again. Just nod and stay inside."@)
            }
        },
    }
}

/// The remark about an active alert, if there is one.
pub fn generate_alert_snark(s: &WeatherStatus) -> (r: Option<Vec<char>>)
    ensures
        match r {
            Some(v) => alert_snark(*s) == Some(v@),
            None => alert_snark(*s) is None,
        },
{
    match &s.alert {
        None => None,
        Some(a) => {
            let l = to_lowercase(a.as_str());
            if str_contains(l.as_str(), "tornado") {
                Some(
                    chars_of(
                        "Tornado watch. Grab a lawn chair. If you get sucked up, try to land on a developer who writes better code than me.",
                    ),
                )
            } else if str_contains(l.as_str(), "hurricane") || str_contains(
                l.as_str(),
                "tropical",
            ) {
                Some(
                    chars_of(
                        "Hurricane incoming. The ocean is just trying to come inside for a drink. Don't be a bad host.",
                    ),
                )
            } else {
                Some(chars_of("The NWS is yelling again. Just nod and stay inside."))
            }
        },
    }
}

/// The plain report of the serious persona, with the alert remark after
/// it when an alert is active.
pub open spec fn serious_report(s: WeatherStatus) -> Seq<char> {
    let base = "Temperature: "@ + s.temp_text@ + "°. Humidity: "@ + int_decimal(s.humidity as int)
        + "%. Wind: "@ + s.wind_text@ + " mph. Pressure: "@ + s.pressure_text@ + " hPa."@;
    match alert_snark(s) {
        Some(a) => base + " ALERT: "@ + a,
        None => base,
    }
}

/// The plain report of the serious persona.
pub fn generate_serious_report(s: &WeatherStatus) -> (r: Vec<char>)
    ensures
        r@ == serious_report(*s),
{
    let mut v = chars_of("Temperature: ");
    push_str(&mut v, s.temp_text.as_str());
    push_str(&mut v, "°. Humidity: ");
    let h = decimal_i64(s.humidity as i64);
    append_chars(&mut v, &h);
    push_str(&mut v, "%. Wind: ");
    push_str(&mut v, s.wind_text.as_str());
    push_str(&mut v, " mph. Pressure: ");
    push_str(&mut v, s.pressure_text.as_str());
    push_str(&mut v, " hPa.");
    match generate_alert_snark(s) {
        Some(a) => {
            push_str(&mut v, " ALERT: ");
            append_chars(&mut v, &a);
        },
        None => {},
    }
    v
}

/// The bank of temperature phrases for a band and chaos level.
pub open spec fn temp_bank(band: TempBand, chaos: ChaosLevel) -> Bank {
    match chaos {
        ChaosLevel::Normal => match band {
            TempBand::Cold => Bank::TempColdNormal,
            TempBand::Hot => Bank::TempHotNormal,
            TempBand::Mild => Bank::TempMildNormal,
        },
        ChaosLevel::Chaos => match band {
            TempBand::Cold => Bank::TempColdChaos,
            TempBand::Hot => Bank::TempHotChaos,
            TempBand::Mild => Bank::TempMildChaos,
        },
    }
}

fn temp_bank_of(band: TempBand, chaos: ChaosLevel) -> (b: Bank)
    ensures
        b == temp_bank(band, chaos),
{
    match chaos {
        ChaosLevel::Normal => match band {
            TempBand::Cold => Bank::TempColdNormal,
            TempBand::Hot => Bank::TempHotNormal,
            TempBand::Mild => Bank::TempMildNormal,
        },
        ChaosLevel::Chaos => match band {
            TempBand::Cold => Bank::TempColdChaos,
            TempBand::Hot => Bank::TempHotChaos,
            TempBand::Mild => Bank::TempMildChaos,
        },
    }
}

/// The temperature remark with phrase `pick` of its bank.
pub open spec fn temp_snark(s: WeatherStatus, chaos: ChaosLevel, pick: u32) -> Seq<char> {
    "Temperature "@ + s.temp_text@ + "° — "@ + bank(temp_bank(s.temp_band, chaos))[pick as int]
        + "."@
}

/// The temperature remark with phrase `pick` of its bank.
pub fn generate_temp_snark(s: &WeatherStatus, chaos: ChaosLevel, pick: u32) -> (r: Vec<char>)
    requires
        pick < bank(temp_bank(s.temp_band, chaos)).len(),
    ensures
        r@ == temp_snark(*s, chaos, pick),
{
    let mut v = chars_of("Temperature ");
    push_str(&mut v, s.temp_text.as_str());
    push_str(&mut v, "° — ");
    push_str(&mut v, phrase(temp_bank_of(s.temp_band, chaos), pick));
    push_str(&mut v, ".");
    v
}

/// The bank of strong-wind phrases for a chaos level.
pub open spec fn wind_bank(chaos: ChaosLevel) -> Bank {
    match chaos {
        ChaosLevel::Normal => Bank::WindStrongNormal,
        ChaosLevel::Chaos => Bank::WindStrongChaos,
    }
}

/// The wind remark: a fixed line when the wind is calm, otherwise the speed
/// with phrase `pick` of the strong-wind bank.
pub open spec fn wind_snark(s: WeatherStatus, chaos: ChaosLevel, pick: u32) -> Seq<char> {
    if s.wind_calm {
        match chaos {
            ChaosLevel::Normal => "Wind is calm enough that even your hair won’t complain."@,
            ChaosLevel::Chaos => "The wind is suspiciously calm. Something is plotting."@,
        }
    } else {
        "Wind "@ + s.wind_text@ + " mph — "@ + bank(wind_bank(chaos))[pick as int] + "."@
    }
}

/// The wind remark.
pub fn generate_wind_snark(s: &WeatherStatus, chaos: ChaosLevel, pick: u32) -> (r: Vec<char>)
    requires
        pick < bank(wind_bank(chaos)).len(),
    ensures
        r@ == wind_snark(*s, chaos, pick),
{
    if s.wind_calm {
        return match chaos {
            ChaosLevel::Normal => chars_of(
                "Wind is calm enough that even your hair won’t complain.",
            ),
            ChaosLevel::Chaos => chars_of("The wind is suspiciously calm. Something is plotting."),
        };
    }
    let b = match chaos {
        ChaosLevel::Normal => Bank::WindStrongNormal,
        ChaosLevel::Chaos => Bank::WindStrongChaos,
    };
    let mut v = chars_of("Wind ");
    push_str(&mut v, s.wind_text.as_str());
    push_str(&mut v, " mph — ");
    push_str(&mut v, phrase(b, pick));
    push_str(&mut v, ".");
    v
}

/// The bank of high-humidity phrases for a chaos level.
pub open spec fn humid_bank(chaos: ChaosLevel) -> Bank {
    match chaos {
        ChaosLevel::Normal => Bank::HumidHighNormal,
        ChaosLevel::Chaos => Bank::HumidHighChaos,
    }
}

/// The humidity remark: a fixed line below 50%, otherwise the humidity with
/// phrase `pick` of the high-humidity bank.
pub open spec fn humidity_snark(h: i32, chaos: ChaosLevel, pick: u32) -> Seq<char> {
    if h < 50 {
        match chaos {
            ChaosLevel::Normal => "Humidity is tolerable. A rare blessing."@,
            ChaosLevel::Chaos => "Humidity is low, which feels like a clerical error in this region."@,
        }
    } else {
        "Humidity "@ + int_decimal(h as int) + "% — "@ + bank(humid_bank(chaos))[pick as int]
    }
}

/// The humidity remark.
pub fn generate_humidity_snark(h: i32, chaos: ChaosLevel, pick: u32) -> (r: Vec<char>)
    requires
        pick < bank(humid_bank(chaos)).len(),
    ensures
        r@ == humidity_snark(h, chaos, pick),
{
    if h < 50 {
        return match chaos {
            ChaosLevel::Normal => chars_of("Humidity is tolerable. A rare blessing."),
            ChaosLevel::Chaos => chars_of(
                "Humidity is low, which feels like a clerical error in this region.",
            ),
        };
    }
    let b = match chaos {
        ChaosLevel::Normal => Bank::HumidHighNormal,
        ChaosLevel::Chaos => Bank::HumidHighChaos,
    };
    let mut v = chars_of("Humidity ");
    let d = decimal_i64(h as i64);
    append_chars(&mut v, &d);
    push_str(&mut v, "% — ");
    push_str(&mut v, phrase(b, pick));
    v
}

/// The mood bank for an hour: morning from 5 to 11, afternoon from 12 to
/// 17, night otherwise; in chaos mode the chaos bank of that time of day
/// unless the coin chose the ordinary one.
pub open spec fn mood_bank(hour: u32, chaos: ChaosLevel, ordinary: bool) -> Bank {
    let use_base = chaos == ChaosLevel::Normal || ordinary;
    if 5 <= hour <= 11 {
        if use_base {
            Bank::MoodMorning
        } else {
            Bank::MoodMorningChaos
        }
    } else if 12 <= hour <= 17 {
        if use_base {
            Bank::MoodAfternoon
        } else {
            Bank::MoodAfternoonChaos
        }
    } else {
        if use_base {
            Bank::MoodNight
        } else {
            Bank::MoodNightChaos
        }
    }
}

fn mood_bank_of(hour: u32, chaos: ChaosLevel, ordinary: bool) -> (b: Bank)
    ensures
        b == mood_bank(hour, chaos, ordinary),
{
    let use_base = chaos == ChaosLevel::Normal || ordinary;
    if 5 <= hour && hour <= 11 {
        if use_base {
            Bank::MoodMorning
        } else {
            Bank::MoodMorningChaos
        }
    } else if 12 <= hour && hour <= 17 {
        if use_base {
            Bank::MoodAfternoon
        } else {
            Bank::MoodAfternoonChaos
        }
    } else {
        if use_base {
            Bank::MoodNight
        } else {
            Bank::MoodNightChaos
        }
    }
}

/// The bank of the persona's closing line, when it draws one.
pub open spec fn stinger_bank(persona: PersonaMode, band: TempBand) -> Option<Bank> {
    match persona {
        PersonaMode::StarWars => if band == TempBand::Hot {
            Some(Bank::SithHeat)
        } else {
            Some(Bank::StarWarsGeneral)
        },
        PersonaMode::Sheldon => Some(Bank::SheldonRemarks),
        PersonaMode::Apocalypse => Some(Bank::ApocalypseSting),
        _ => None,
    }
}

fn stinger_bank_of(persona: PersonaMode, band: TempBand) -> (b: Option<Bank>)
    ensures
        b == stinger_bank(persona, band),
{
    match persona {
        PersonaMode::StarWars => if band == TempBand::Hot {
            Some(Bank::SithHeat)
        } else {
            Some(Bank::StarWarsGeneral)
        },
        PersonaMode::Sheldon => Some(Bank::SheldonRemarks),
        PersonaMode::Apocalypse => Some(Bank::ApocalypseSting),
        _ => None,
    }
}

/// The persona's closing line: drawn from its bank, fixed for Spock and
/// Roast, empty for the serious persona. Star Wars quotes the Sith when it
/// is hot.
pub open spec fn persona_stinger(band: TempBand, persona: PersonaMode, pick: u32) -> Seq<char> {
    match stinger_bank(persona, band) {
        Some(b) => bank(b)[pick as int],
        None => match persona {
            PersonaMode::Spock => "Logic suggests this weather is suboptimal for carbon-based life forms."@,
            PersonaMode::Roast => "I've seen better conditions in a dumpster fire."@,
            _ => Seq::empty(),
        },
    }
}

/// The persona's closing line.
pub fn generate_persona_stinger(band: TempBand, persona: PersonaMode, pick: u32) -> (r: Vec<char>)
    requires
        stinger_bank(persona, band) matches Some(b) ==> pick < bank(b).len(),
    ensures
        r@ == persona_stinger(band, persona, pick),
{
    match stinger_bank_of(persona, band) {
        Some(b) => chars_of(phrase(b, pick)),
        None => match persona {
            PersonaMode::Spock => chars_of(
                "Logic suggests this weather is suboptimal for carbon-based life forms.",
            ),
            PersonaMode::Roast => chars_of("I've seen better conditions in a dumpster fire."),
            _ => {
                let v: Vec<char> = Vec::new();
                assert(v@ =~= Seq::<char>::empty());
                v
            },
        },
    }
}

/// The time-of-day mood line with phrase `pick` of its bank.
pub fn generate_time_mood(hour: u32, chaos: ChaosLevel, ordinary: bool, pick: u32) -> (r: Vec<
    char,
>)
    requires
        pick < bank(mood_bank(hour, chaos, ordinary)).len(),
    ensures
        r@ == bank(mood_bank(hour, chaos, ordinary))[pick as int],
{
    chars_of(phrase(mood_bank_of(hour, chaos, ordinary), pick))
}

/// The random draws a remark uses: a phrase of each bank it may draw from,
/// and the coin that decides, in chaos mode, between the ordinary and the
/// chaos mood bank.
#[derive(Debug, Clone, Copy)]
pub struct RemarkPicks {
    pub temp: u32,
    pub wind: u32,
    pub humidity: u32,
    pub ordinary_mood: bool,
    pub mood: u32,
    pub stinger: u32,
    pub sting: u32,
    pub apocalypse_humidity: u32,
}

/// Each draw names a phrase of the bank it is drawn from.
pub open spec fn picks_fit(
    s: WeatherStatus,
    chaos: ChaosLevel,
    persona: PersonaMode,
    hour: u32,
    p: RemarkPicks,
) -> bool {
    &&& p.temp < bank(temp_bank(s.temp_band, chaos)).len()
    &&& p.wind < bank(wind_bank(chaos)).len()
    &&& p.humidity < bank(humid_bank(chaos)).len()
    &&& p.mood < bank(mood_bank(hour, chaos, p.ordinary_mood)).len()
    &&& (stinger_bank(persona, s.temp_band) matches Some(b) ==> p.stinger < bank(b).len())
    &&& p.sting < bank(Bank::ApocalypseSting).len()
    &&& p.apocalypse_humidity < bank(Bank::HumidHighChaos).len()
}

/// The closing line about low pressure.
pub open spec fn arthritis_line() -> Seq<char> {
    "Your arthritis is likely playing a drum solo on your nervous system."@
}

/// The fragments of an ordinary remark, in order: location, alert (when
/// active), temperature, wind, humidity, time-of-day mood, the persona's
/// closing line (when not empty), and the pressure line when the pressure
/// is low.
pub open spec fn standard_fragments(
    s: WeatherStatus,
    chaos: ChaosLevel,
    persona: PersonaMode,
    hour: u32,
    p: RemarkPicks,
) -> Seq<Seq<char>> {
    let alert = match alert_snark(s) {
        Some(a) => seq![a],
        None => Seq::empty(),
    };
    let stinger = persona_stinger(s.temp_band, persona, p.stinger);
    seq![location_snark(s)] + alert + seq![
        temp_snark(s, chaos, p.temp),
        wind_snark(s, chaos, p.wind),
        humidity_snark(s.humidity, chaos, p.humidity),
        bank(mood_bank(hour, chaos, p.ordinary_mood))[p.mood as int],
    ] + (if stinger.len() > 0 {
        seq![stinger]
    } else {
        Seq::empty()
    }) + (if s.pressure_low {
        seq![arthritis_line()]
    } else {
        Seq::empty()
    })
}

/// The fragments of the apocalypse persona's remark: the meltdown banner,
/// a sting, the humidity above 80%, the low-pressure line, and the farewell.
pub open spec fn apocalypse_fragments(s: WeatherStatus, sting: u32, humid: u32) -> Seq<Seq<char>> {
    seq!["CORE MELTDOWN DETECTED:"@, bank(Bank::ApocalypseSting)[sting as int]] + (if s.humidity
        > 80 {
        seq![
            "Humidity is "@ + int_decimal(s.humidity as int) + "% — "@ + bank(
                Bank::HumidHighChaos,
            )[humid as int],
        ]
    } else {
        Seq::empty()
    }) + (if s.pressure_low {
        seq!["Barometric pressure is so low your joints are filing formal complaints."@]
    } else {
        Seq::empty()
    }) + seq!["WESA ALL GONNA DIE-SA!"@]
}

/// The remark of a persona about the weather, given the hour and the random
/// draws: the plain report for the serious persona, the meltdown block for
/// the apocalypse persona, otherwise the ordinary fragments; fragments are
/// separated by single spaces.
pub open spec fn remark(
    s: WeatherStatus,
    chaos: ChaosLevel,
    persona: PersonaMode,
    hour: u32,
    p: RemarkPicks,
) -> Seq<char> {
    if persona == PersonaMode::Serious {
        serious_report(s)
    } else if persona == PersonaMode::Apocalypse {
        join(apocalypse_fragments(s, p.sting, p.apocalypse_humidity), seq![' '])
    } else {
        join(standard_fragments(s, chaos, persona, hour, p), seq![' '])
    }
}

fn push_fragment(
    out: &mut Vec<char>,
    frag: &Vec<char>,
    first: bool,
    Ghost(frags): Ghost<Seq<Seq<char>>>,
)
    requires
        old(out)@ == join(frags, seq![' ']),
        first <==> frags.len() == 0,
    ensures
        final(out)@ == join(frags.push(frag@), seq![' ']),
{
    proof {
        crate::text::lemma_join_push(frags, frag@, seq![' ']);
    }
    if first {
        assert(out@.len() == 0);
        append_chars(out, frag);
        assert(out@ =~= frag@);
    } else {
        out.push(' ');
        append_chars(out, frag);
        assert(out@ =~= join(frags, seq![' ']) + seq![' '] + frag@);
    }
}

/// The apocalypse persona's remark with the given draws.
pub fn generate_apocalypse_block(s: &WeatherStatus, sting: u32, humid: u32) -> (r: Vec<char>)
    requires
        sting < bank(Bank::ApocalypseSting).len(),
        humid < bank(Bank::HumidHighChaos).len(),
    ensures
        r@ == join(apocalypse_fragments(*s, sting, humid), seq![' ']),
{
    let mut out: Vec<char> = Vec::new();
    let ghost mut frags: Seq<Seq<char>> = Seq::empty();
    let f = chars_of("CORE MELTDOWN DETECTED:");
    push_fragment(&mut out, &f, true, Ghost(frags));
    proof {
        frags = frags.push(f@);
    }
    let f = chars_of(phrase(Bank::ApocalypseSting, sting));
    push_fragment(&mut out, &f, false, Ghost(frags));
    proof {
        frags = frags.push(f@);
    }
    let ghost after_sting = frags;
    if s.humidity > 80 {
        let mut f = chars_of("Humidity is ");
        let d = decimal_i64(s.humidity as i64);
        append_chars(&mut f, &d);
        push_str(&mut f, "% — ");
        push_str(&mut f, phrase(Bank::HumidHighChaos, humid));
        push_fragment(&mut out, &f, false, Ghost(frags));
        proof {
            frags = frags.push(f@);
        }
    }
    let ghost after_humid = frags;
    if s.pressure_low {
        let f = chars_of("Barometric pressure is so low your joints are filing formal complaints.");
        push_fragment(&mut out, &f, false, Ghost(frags));
        proof {
            frags = frags.push(f@);
        }
    }
    let f = chars_of("WESA ALL GONNA DIE-SA!");
    push_fragment(&mut out, &f, false, Ghost(frags));
    proof {
        frags = frags.push(f@);
    }
    assert(frags =~= apocalypse_fragments(*s, sting, humid));
    out
}

/// An ordinary remark (neither serious nor apocalypse) with the given hour
/// and draws.
pub fn generate_standard_remark(
    s: &WeatherStatus,
    chaos: ChaosLevel,
    persona: PersonaMode,
    hour: u32,
    p: &RemarkPicks,
) -> (r: Vec<char>)
    requires
        picks_fit(*s, chaos, persona, hour, *p),
    ensures
        r@ == join(standard_fragments(*s, chaos, persona, hour, *p), seq![' ']),
{
    let mut out: Vec<char> = Vec::new();
    let ghost mut frags: Seq<Seq<char>> = Seq::empty();
    let f = generate_location_snark(s);
    push_fragment(&mut out, &f, true, Ghost(frags));
    proof {
        frags = frags.push(f@);
    }
    match generate_alert_snark(s) {
        Some(f) => {
            push_fragment(&mut out, &f, false, Ghost(frags));
            proof {
                frags = frags.push(f@);
            }
        },
        None => {},
    }
    let f = generate_temp_snark(s, chaos, p.temp);
    push_fragment(&mut out, &f, false, Ghost(frags));
    proof {
        frags = frags.push(f@);
    }
    let f = generate_wind_snark(s, chaos, p.wind);
    push_fragment(&mut out, &f, false, Ghost(frags));
    proof {
        frags = frags.push(f@);
    }
    let f = generate_humidity_snark(s.humidity, chaos, p.humidity);
    push_fragment(&mut out, &f, false, Ghost(frags));
    proof {
        frags = frags.push(f@);
    }
    let f = generate_time_mood(hour, chaos, p.ordinary_mood, p.mood);
    push_fragment(&mut out, &f, false, Ghost(frags));
    proof {
        frags = frags.push(f@);
    }
    let f = generate_persona_stinger(s.temp_band, persona, p.stinger);
    if f.len() > 0 {
        push_fragment(&mut out, &f, false, Ghost(frags));
        proof {
            frags = frags.push(f@);
        }
    }
    if s.pressure_low {
        let f = chars_of("Your arthritis is likely playing a drum solo on your nervous system.");
        push_fragment(&mut out, &f, false, Ghost(frags));
        proof {
            frags = frags.push(f@);
        }
    }
    assert(frags =~= standard_fragments(*s, chaos, persona, hour, *p));
    out
}

/// The remark of a persona with the given hour and draws.
pub fn compose_remark(
    s: &WeatherStatus,
    chaos: ChaosLevel,
    persona: PersonaMode,
    hour: u32,
    p: &RemarkPicks,
) -> (r: String)
    requires
        picks_fit(*s, chaos, persona, hour, *p),
    ensures
        r@ == remark(*s, chaos, persona, hour, *p),
{
    let v = if persona == PersonaMode::Serious {
        generate_serious_report(s)
    } else if persona == PersonaMode::Apocalypse {
        generate_apocalypse_block(s, p.sting, p.apocalypse_humidity)
    } else {
        generate_standard_remark(s, chaos, persona, hour, p)
    };
    string_of(&v)
}

/// A remark of a persona about the weather, with phrases drawn at random
/// from their banks and the mood of the current local hour: it is the
/// remark for some hour of the day and some draws that each name a phrase
/// of their bank.
pub fn generate_remark(s: &WeatherStatus, chaos: ChaosLevel, persona: PersonaMode) -> (r: String)
    ensures
        exists|hour: u32, p: RemarkPicks|
            hour < 24 && picks_fit(*s, chaos, persona, hour, p) && r@ == #[trigger] remark(
                *s,
                chaos,
                persona,
                hour,
                p,
            ),
{
    let mut rng = thread_rng();
    let mut p = RemarkPicks {
        temp: 0,
        wind: 0,
        humidity: 0,
        ordinary_mood: true,
        mood: 0,
        stinger: 0,
        sting: 0,
        apocalypse_humidity: 0,
    };
    let mut hour: u32 = 0;
    if persona == PersonaMode::Serious {
    } else if persona == PersonaMode::Apocalypse {
        p.sting = gen_range(&mut rng, bank_len(Bank::ApocalypseSting));
        if s.humidity > 80 {
            p.apocalypse_humidity = gen_range(&mut rng, bank_len(Bank::HumidHighChaos));
        }
    } else {
        p.temp = gen_range(&mut rng, bank_len(temp_bank_of(s.temp_band, chaos)));
        if !s.wind_calm {
            let b = match chaos {
                ChaosLevel::Normal => Bank::WindStrongNormal,
                ChaosLevel::Chaos => Bank::WindStrongChaos,
            };
            p.wind = gen_range(&mut rng, bank_len(b));
        }
        if s.humidity >= 50 {
            let b = match chaos {
                ChaosLevel::Normal => Bank::HumidHighNormal,
                ChaosLevel::Chaos => Bank::HumidHighChaos,
            };
            p.humidity = gen_range(&mut rng, bank_len(b));
        }
        hour = local_hour();
        if chaos == ChaosLevel::Chaos {
            p.ordinary_mood = gen_ratio(&mut rng, 1, 2);
        }
        p.mood = gen_range(&mut rng, bank_len(mood_bank_of(hour, chaos, p.ordinary_mood)));
        match stinger_bank_of(persona, s.temp_band) {
            Some(b) => {
                p.stinger = gen_range(&mut rng, bank_len(b));
            },
            None => {},
        }
    }
    proof {
        assert(bank(Bank::ApocalypseSting).len() > 0);
        assert(bank(Bank::HumidHighChaos).len() > 0);
        assert(bank(temp_bank(s.temp_band, chaos)).len() > 0);
        assert(bank(wind_bank(chaos)).len() > 0);
        assert(bank(humid_bank(chaos)).len() > 0);
        assert(bank(mood_bank(hour, chaos, p.ordinary_mood)).len() > 0);
    }
    let r = compose_remark(s, chaos, persona, hour, &p);
    assert(hour < 24 && picks_fit(*s, chaos, persona, hour, p));
    r
}

/// The serious persona always gives the same plain report for the same
/// weather, whatever the chaos level, the hour and the random draws.
pub proof fn law_serious_is_deterministic(
    s: WeatherStatus,
    c1: ChaosLevel,
    c2: ChaosLevel,
    h1: u32,
    h2: u32,
    p1: RemarkPicks,
    p2: RemarkPicks,
)
    ensures
        remark(s, c1, PersonaMode::Serious, h1, p1) == remark(s, c2, PersonaMode::Serious, h2, p2),
        remark(s, c1, PersonaMode::Serious, h1, p1) == serious_report(s),
{
}

/// An ordinary remark starts with the location line and, when the pressure
/// is low, ends with the pressure line; the apocalypse block starts with
/// its meltdown banner and ends with its farewell.
pub proof fn law_remark_endings(
    s: WeatherStatus,
    chaos: ChaosLevel,
    persona: PersonaMode,
    hour: u32,
    p: RemarkPicks,
)
    ensures
        persona != PersonaMode::Serious && persona != PersonaMode::Apocalypse ==> {
            let r = remark(s, chaos, persona, hour, p);
            &&& r.len() >= location_snark(s).len()
            &&& r.take(location_snark(s).len() as int) == location_snark(s)
            &&& s.pressure_low ==> r.len() >= arthritis_line().len() && r.skip(
                r.len() - arthritis_line().len(),
            ) == arthritis_line()
        },
        persona == PersonaMode::Apocalypse ==> {
            let r = remark(s, chaos, persona, hour, p);
            &&& r.take("CORE MELTDOWN DETECTED:"@.len() as int) == "CORE MELTDOWN DETECTED:"@
            &&& r.skip(r.len() - "WESA ALL GONNA DIE-SA!"@.len()) == "WESA ALL GONNA DIE-SA!"@
        },
{
    let sf = standard_fragments(s, chaos, persona, hour, p);
    let af = apocalypse_fragments(s, p.sting, p.apocalypse_humidity);
    crate::text::lemma_join_ends(sf, seq![' ']);
    crate::text::lemma_join_ends(af, seq![' ']);
}

} // verus!

verus! {

/// The alert remark: none exactly when there is no alert; for an alert
/// whose lower-case text mentions "tornado", the tornado line; for one that
/// mentions "hurricane" or "tropical" but not "tornado", the hurricane
/// line; for any other alert, the NWS line.
pub proof fn law_alert_remark(s: WeatherStatus)
    ensures
        (alert_snark(s) is None) <==> (s.alert is None),
        s.alert matches Some(a) ==> {
            let l = lowercase(a@);
            &&& contains(l, "tornado"@) ==> alert_snark(s) == Some(
                "Tornado watch. Grab a lawn chair. If you get sucked up, try to land on a developer who writes better code than me."@,
            )
            &&& !contains(l, "tornado"@) && (contains(l, "hurricane"@) || contains(
                l,
                "tropical"@,
            )) ==> alert_snark(s) == Some(
                "Hurricane incoming. The ocean is just trying to come inside for a drink. Don't be a bad host."@,
            )
            &&& !contains(l, "tornado"@) && !contains(l, "hurricane"@) && !contains(
                l,
                "tropical"@,
            ) ==> alert_snark(s) == Some("The NWS is yelling again. Just nod and stay inside."@)
        },
{
}

/// The location remark: when the looked-at place differs from home (both
/// compared in lower case, trimmed) it names the looked-at place as
/// written; at home it is the Panama City line when home mentions
/// "panama city", the Middle Georgia line when home mentions "warner
/// robins" and not "panama city", and the plain home line otherwise.
pub proof fn law_location_remark(s: WeatherStatus)
    ensures
        ({
            let home = trim(lowercase(s.home_location@));
            let target = trim(lowercase(s.target_location@));
            &&& target != home ==> location_snark(s) == "Looking at "@ + s.target_location@
                + "? Brave choice. It's a different flavor of atmospheric failure."@
            &&& target == home && contains(home, "panama city"@) ==> location_snark(s)
                == "You're in Panama City. The air is basically salt-flavored soup. Breathe it in."@
            &&& target == home && !contains(home, "panama city"@) && contains(
                home,
                "warner robins"@,
            ) ==> location_snark(s)
                == "Middle Georgia. Still here. Still humid. Still a sauna for your lungs."@
            &&& target == home && !contains(home, "panama city"@) && !contains(
                home,
                "warner robins"@,
            ) ==> location_snark(s)
                == "You're home. The weather is exactly as emotionally confusing as you remember."@
        }),
{
}

/// The mood follows the clock: morning banks from 5 to 11 o'clock,
/// afternoon banks from 12 to 17, night banks otherwise; a chaos bank is
/// used exactly in chaos mode when the coin did not choose the ordinary
/// bank.
pub proof fn law_mood_by_hour(hour: u32, chaos: ChaosLevel, ordinary: bool)
    ensures
        ({
            let b = mood_bank(hour, chaos, ordinary);
            &&& (b == Bank::MoodMorning || b == Bank::MoodMorningChaos) <==> (5 <= hour <= 11)
            &&& (b == Bank::MoodAfternoon || b == Bank::MoodAfternoonChaos) <==> (12 <= hour
                <= 17)
            &&& (b == Bank::MoodNight || b == Bank::MoodNightChaos) <==> (hour < 5 || hour > 17)
            &&& (b == Bank::MoodMorningChaos || b == Bank::MoodAfternoonChaos || b
                == Bank::MoodNightChaos) <==> (chaos == ChaosLevel::Chaos && !ordinary)
        }),
{
}

/// The temperature phrase comes from the bank of the temperature's band
/// (cold, mild or hot) at the chaos level: the normal banks in normal mode,
/// the chaos banks in chaos mode.
pub proof fn law_temperature_bank(band: TempBand, chaos: ChaosLevel)
    ensures
        ({
            let b = temp_bank(band, chaos);
            &&& (b == Bank::TempColdNormal || b == Bank::TempColdChaos) <==> band == TempBand::Cold
            &&& (b == Bank::TempHotNormal || b == Bank::TempHotChaos) <==> band == TempBand::Hot
            &&& (b == Bank::TempMildNormal || b == Bank::TempMildChaos) <==> band == TempBand::Mild
            &&& (b == Bank::TempColdChaos || b == Bank::TempHotChaos || b == Bank::TempMildChaos)
                <==> chaos == ChaosLevel::Chaos
        }),
{
}

/// Below 50% humidity and in calm wind the remark is a fixed line for the
/// chaos level; otherwise it prints the reading and draws from the bank of
/// the chaos level (the chaos bank in chaos mode).
pub proof fn law_humidity_and_wind(s: WeatherStatus, chaos: ChaosLevel, pick: u32)
    ensures
        s.humidity < 50 && chaos == ChaosLevel::Normal ==> humidity_snark(s.humidity, chaos, pick)
            == "Humidity is tolerable. A rare blessing."@,
        s.humidity < 50 && chaos == ChaosLevel::Chaos ==> humidity_snark(s.humidity, chaos, pick)
            == "Humidity is low, which feels like a clerical error in this region."@,
        s.humidity >= 50 ==> humidity_snark(s.humidity, chaos, pick) == "Humidity "@
            + int_decimal(s.humidity as int) + "% — "@ + bank(
            if chaos == ChaosLevel::Chaos {
                Bank::HumidHighChaos
            } else {
                Bank::HumidHighNormal
            },
        )[pick as int],
        s.wind_calm && chaos == ChaosLevel::Normal ==> wind_snark(s, chaos, pick)
            == "Wind is calm enough that even your hair won’t complain."@,
        s.wind_calm && chaos == ChaosLevel::Chaos ==> wind_snark(s, chaos, pick)
            == "The wind is suspiciously calm. Something is plotting."@,
        !s.wind_calm ==> wind_snark(s, chaos, pick) == "Wind "@ + s.wind_text@ + " mph — "@ + bank(
            if chaos == ChaosLevel::Chaos {
                Bank::WindStrongChaos
            } else {
                Bank::WindStrongNormal
            },
        )[pick as int] + "."@,
{
}

/// The persona's closing line: Star Wars quotes the Sith when it is hot and
/// its general lines otherwise, Sheldon and the apocalypse draw from their
/// own banks, Spock and Roast have fixed lines, and the serious persona has
/// none.
pub proof fn law_persona_stinger(band: TempBand, persona: PersonaMode, pick: u32)
    ensures
        persona == PersonaMode::StarWars && band == TempBand::Hot ==> persona_stinger(
            band,
            persona,
            pick,
        ) == bank(Bank::SithHeat)[pick as int],
        persona == PersonaMode::StarWars && band != TempBand::Hot ==> persona_stinger(
            band,
            persona,
            pick,
        ) == bank(Bank::StarWarsGeneral)[pick as int],
        persona == PersonaMode::Sheldon ==> persona_stinger(band, persona, pick) == bank(
            Bank::SheldonRemarks,
        )[pick as int],
        persona == PersonaMode::Apocalypse ==> persona_stinger(band, persona, pick) == bank(
            Bank::ApocalypseSting,
        )[pick as int],
        persona == PersonaMode::Spock ==> persona_stinger(band, persona, pick)
            == "Logic suggests this weather is suboptimal for carbon-based life forms."@,
        persona == PersonaMode::Roast ==> persona_stinger(band, persona, pick)
            == "I've seen better conditions in a dumpster fire."@,
        persona == PersonaMode::Serious ==> persona_stinger(band, persona, pick).len() == 0,
{
}

/// The apocalypse block holds the humidity line exactly above 80%
/// humidity and the pressure line exactly when the pressure is low,
/// between its banner and sting and its farewell.
pub proof fn law_apocalypse_block(s: WeatherStatus, sting: u32, humid: u32)
    ensures
        ({
            let f = apocalypse_fragments(s, sting, humid);
            &&& f.len() == 3 + (if s.humidity > 80 {
                1int
            } else {
                0int
            }) + (if s.pressure_low {
                1int
            } else {
                0int
            })
            &&& f[0] == "CORE MELTDOWN DETECTED:"@
            &&& f[1] == bank(Bank::ApocalypseSting)[sting as int]
            &&& s.humidity > 80 ==> f[2] == "Humidity is "@ + int_decimal(s.humidity as int)
                + "% — "@ + bank(Bank::HumidHighChaos)[humid as int]
            &&& s.pressure_low ==> f[f.len() - 2]
                == "Barometric pressure is so low your joints are filing formal complaints."@
        }),
{
}

/// The serious report prints temperature, humidity, wind and pressure in
/// that order, followed by the alert remark when an alert is active.
pub proof fn law_serious_report(s: WeatherStatus)
    ensures
        ({
            let base = "Temperature: "@ + s.temp_text@ + "°. Humidity: "@ + int_decimal(
                s.humidity as int,
            ) + "%. Wind: "@ + s.wind_text@ + " mph. Pressure: "@ + s.pressure_text@
                + " hPa."@;
            &&& s.alert is None ==> serious_report(s) == base
            &&& alert_snark(s) matches Some(a) ==> serious_report(s) == base + " ALERT: "@ + a
        }),
{
}

/// An ordinary remark runs location, alert (when one is active),
/// temperature, wind, humidity and mood, then the persona's closing line
/// when it has one, then the pressure line when the pressure is low; the
/// temperature line prints the reading and a phrase of its band's bank.
pub proof fn law_standard_order(
    s: WeatherStatus,
    chaos: ChaosLevel,
    persona: PersonaMode,
    hour: u32,
    p: RemarkPicks,
)
    ensures
        ({
            let f = standard_fragments(s, chaos, persona, hour, p);
            let k: int = if s.alert is Some {
                2
            } else {
                1
            };
            let stinger = persona_stinger(s.temp_band, persona, p.stinger);
            &&& f.len() == k + 4 + (if stinger.len() > 0 {
                1int
            } else {
                0int
            }) + (if s.pressure_low {
                1int
            } else {
                0int
            })
            &&& f[0] == location_snark(s)
            &&& s.alert is Some ==> Some(f[1]) == alert_snark(s)
            &&& f[k] == "Temperature "@ + s.temp_text@ + "° — "@ + bank(
                temp_bank(s.temp_band, chaos),
            )[p.temp as int] + "."@
            &&& f[k + 1] == wind_snark(s, chaos, p.wind)
            &&& f[k + 2] == humidity_snark(s.humidity, chaos, p.humidity)
            &&& f[k + 3] == bank(mood_bank(hour, chaos, p.ordinary_mood))[p.mood as int]
            &&& stinger.len() > 0 ==> f[k + 4] == stinger
        }),
{
}

} // verus!

use goldenstorm::personality::{
    compose_remark, generate_remark, ChaosLevel, PersonaMode, RemarkPicks, TempBand, WeatherStatus,
};

fn status(alert: Option<&str>) -> WeatherStatus {
    WeatherStatus {
        temp_band: TempBand::Hot,
        temp_text: "91".to_string(),
        humidity: 78,
        pressure_low: true,
        pressure_text: "1004.2".to_string(),
        code: 0,
        wind_calm: false,
        wind_text: "12".to_string(),
        home_location: "Panama City, FL".to_string(),
        target_location: "  PANAMA CITY, FL ".to_string(),
        alert: alert.map(|a| a.to_string()),
    }
}

fn picks() -> RemarkPicks {
    RemarkPicks {
        temp: 1,
        wind: 0,
        humidity: 2,
        ordinary_mood: true,
        mood: 1,
        stinger: 0,
        sting: 3,
        apocalypse_humidity: 0,
    }
}

#[test]
fn serious_report_is_plain() {
    let s = status(None);
    let r = compose_remark(&s, ChaosLevel::Chaos, PersonaMode::Serious, 3, &picks());
    assert_eq!(r, "Temperature: 91°. Humidity: 78%. Wind: 12 mph. Pressure: 1004.2 hPa.");
    let s = status(Some("Tornado Warning"));
    let r = generate_remark(&s, ChaosLevel::Normal, PersonaMode::Serious);
    assert_eq!(
        r,
        "Temperature: 91°. Humidity: 78%. Wind: 12 mph. Pressure: 1004.2 hPa. ALERT: Tornado watch. Grab a lawn chair. If you get sucked up, try to land on a developer who writes better code than me."
    );
}

#[test]
fn ordinary_remark_with_given_draws() {
    let s = status(None);
    let r = compose_remark(&s, ChaosLevel::Normal, PersonaMode::Spock, 8, &picks());
    assert_eq!(
        r,
        "You're in Panama City. The air is basically salt-flavored soup. Breathe it in. \
Temperature 91° — Florida-level scorch. \
Wind 12 mph — strong enough to yeet a lawn chair.. \
Humidity 78% — air with the consistency of warm, wet pudding. \
the sun is judging you. \
Logic suggests this weather is suboptimal for carbon-based life forms. \
Your arthritis is likely playing a drum solo on your nervous system."
    );
}

#[test]
fn other_place_calm_dry_chaos() {
    let mut s = status(Some("Tropical Storm Warning"));
    s.target_location = "Warner Robins, GA".to_string();
    s.wind_calm = true;
    s.humidity = 30;
    s.pressure_low = false;
    s.temp_band = TempBand::Cold;
    s.temp_text = "-3".to_string();
    let mut p = picks();
    p.ordinary_mood = false;
    p.mood = 0;
    p.temp = 0;
    p.stinger = 2;
    let r = compose_remark(&s, ChaosLevel::Chaos, PersonaMode::StarWars, 23, &p);
    assert_eq!(
        r,
        "Looking at Warner Robins, GA? Brave choice. It's a different flavor of atmospheric failure. \
Hurricane incoming. The ocean is just trying to come inside for a drink. Don't be a bad host. \
Temperature -3° — cold enough to make penguins file HR complaints. \
The wind is suspiciously calm. Something is plotting. \
Humidity is low, which feels like a clerical error in this region. \
the kind of night where side quests happen. \
In my experience, there is no such thing as 'perfect weather'."
    );
}

#[test]
fn apocalypse_block() {
    let mut s = status(None);
    s.humidity = 85;
    s.pressure_low = false;
    let r = compose_remark(&s, ChaosLevel::Normal, PersonaMode::Apocalypse, 12, &picks());
    assert_eq!(
        r,
        "CORE MELTDOWN DETECTED: It’s so hot even the devil is calling Panama City to ask for the thermostat settings. Humidity is 85% — moist enough to qualify as soup. WESA ALL GONNA DIE-SA!"
    );
    s.humidity = 80;
    s.pressure_low = true;
    let r = generate_remark(&s, ChaosLevel::Chaos, PersonaMode::Apocalypse);
    assert!(r.starts_with("CORE MELTDOWN DETECTED: "));
    assert!(r.ends_with(" Barometric pressure is so low your joints are filing formal complaints. WESA ALL GONNA DIE-SA!"));
    assert!(!r.contains("Humidity is 80%"));
}

#[test]
fn random_remarks_keep_their_shape() {
    let s = status(None);
    for _ in 0..50 {
        let r = generate_remark(&s, ChaosLevel::Chaos, PersonaMode::Sheldon);
        assert!(r.starts_with("You're in Panama City. The air is basically salt-flavored soup. Breathe it in. Temperature 91° — "));
        assert!(r.contains(" Wind 12 mph — "));
        assert!(r.contains(" Humidity 78% — "));
        assert!(r.ends_with(" Your arthritis is likely playing a drum solo on your nervous system."));
        let hot = ["so hot your DNA is reconsidering its life choices", "lava-adjacent suffering"];
        assert!(hot.iter().any(|h| r.contains(h)));
    }
}

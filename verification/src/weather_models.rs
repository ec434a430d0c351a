//! The weather data the UI side works with, and the parts of the National
//! Weather Service responses that it reads.

#![allow(non_snake_case)]

use vstd::prelude::*;

verus! {

/// How severe an NWS alert is, from least to most.
#[derive(Debug, Clone, Copy, PartialEq, Eq, Structural)]
pub enum AlertSeverity {
    Unknown,
    Minor,
    Moderate,
    Severe,
    Extreme,
}

/// The place of a severity in the order `Unknown < Minor < Moderate <
/// Severe < Extreme`.
pub open spec fn level(s: AlertSeverity) -> nat {
    match s {
        AlertSeverity::Unknown => 0,
        AlertSeverity::Minor => 1,
        AlertSeverity::Moderate => 2,
        AlertSeverity::Severe => 3,
        AlertSeverity::Extreme => 4,
    }
}

/// The place of a severity in the severity order.
pub fn severity_level(s: AlertSeverity) -> (r: u8)
    ensures
        r == level(s),
{
    match s {
        AlertSeverity::Unknown => 0,
        AlertSeverity::Minor => 1,
        AlertSeverity::Moderate => 2,
        AlertSeverity::Severe => 3,
        AlertSeverity::Extreme => 4,
    }
}

/// One active alert, as the UI shows it.
#[derive(Debug)]
pub struct WeatherAlert {
    pub id: String,
    pub event: String,
    pub severity: AlertSeverity,
    pub description: String,
    pub instruction: String,
}

/// The NWS points response.
#[derive(Debug)]
pub struct NwsPointResponse {
    pub properties: NwsPointProperties,
}

/// The forecast grid of a point.
#[derive(Debug)]
pub struct NwsPointProperties {
    pub gridId: String,
    pub gridX: u32,
    pub gridY: u32,
}

/// The NWS active-alerts response.
#[derive(Debug)]
pub struct NwsAlertResponse {
    pub features: Vec<NwsAlertFeature>,
}

/// One alert of the NWS active-alerts response.
#[derive(Debug)]
pub struct NwsAlertFeature {
    pub id: String,
    pub properties: NwsAlertProperties,
}

/// The properties of one NWS alert.
#[derive(Debug)]
pub struct NwsAlertProperties {
    pub event: Option<String>,
    pub severity: Option<String>,
    pub urgency: Option<String>,
    pub certainty: Option<String>,
    pub description: Option<String>,
    pub instruction: Option<String>,
}

} // verus!

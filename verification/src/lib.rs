//! Verified core of the GoldenStorm weather assistant: alert classification
//! and selection, alert transitions of the background agent, the text of
//! personality remarks, log naming and rotation, and the UI state machine.

pub mod text;
pub mod backend;
pub mod agent;
pub mod weather_models;
pub mod weather_api;
pub mod helpers;
pub mod logging;
pub mod ui;
pub mod personality;

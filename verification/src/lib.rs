//! Verified core of the analog board firmware: the command encoding of the
//! MCP47x6 digital-to-analog converter and the back-off blinker that drives
//! the indicator LEDs.

pub mod mcp47x6;
pub mod utils;

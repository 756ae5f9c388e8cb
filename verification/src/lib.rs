//! Control logic of a small USB-PD bench power unit: PDO selection and
//! voltage negotiation planning, key debouncing, telemetry batching for an
//! InfluxDB line-protocol endpoint, the HTTP control API's request parsing and
//! JSON rendering, and the pieces of the OLED status screen that are decided
//! by integers and text.

pub mod text;
pub mod httpserver;
pub mod usbpd;
pub mod transfer;
pub mod keyevent;
pub mod displayctl;
pub mod control;

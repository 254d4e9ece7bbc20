//! Print-settings negotiation: capability reporting, validation of a
//! printer-agnostic settings request against a device's live capability
//! snapshot, and the response envelope handed back to clients.
pub mod catalog;
pub mod model;
pub mod report;
pub mod negotiate;
pub mod api;
pub mod laws;

//! Monitor-mode 802.11 capture pipeline: strips the radio metadata header
//! from each captured unit, decodes the MAC frame behind it and classifies
//! the frame into a capture record.

pub mod capture;
pub mod dot11;
pub mod radio;

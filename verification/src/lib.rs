//! A verified core for a battery/solar powered LoRaWAN sensor node.
//!
//! The crate holds the node's protocol and policy logic: the power
//! advisor that classifies battery and solar readings, the transceiver
//! state machine, the LoRaWAN frame codec with its AES-128 based
//! cryptography, and the MAC session layer (join, uplink, downlink
//! validation).  Hardware access (SPI, ADC, timers) lives outside the
//! crate and feeds events and readings in as plain values.

pub mod power;
pub mod aes;
pub mod crypto;
pub mod frame;
pub mod radio;
pub mod lorawan;
pub mod sensors;

//! Transceiver driver state machine.
//!
//! The driver sequences the half-duplex radio through idle, transmit,
//! receive and sleep.  Hardware effects (register writes over the bus,
//! the reset line, the completion interrupt) happen outside this crate;
//! their outcomes are fed in as plain values: whether the chip answered
//! its status polls, whether the completion interrupt arrived before
//! the bounded deadline, what the receive window yielded.  The state
//! machine itself — which operations are legal in which state, and what
//! every outcome does to the state — is verified here.

use vstd::prelude::*;

verus! {

/// Radio configuration: one valid combination of physical parameters.
#[derive(Debug, Clone, Copy)]
pub struct LoRaConfig {
    /// Carrier frequency in Hz.
    pub frequency: u32,
    /// Spreading factor, 6 to 12.
    pub spreading_factor: u8,
    /// Bandwidth in Hz.
    pub bandwidth: u32,
    /// Coding rate denominator, 5 to 8, for 4/5 to 4/8.
    pub coding_rate: u8,
    /// Transmit power in dBm, 2 to 20.
    pub tx_power: i8,
}

impl LoRaConfig {
    /// The fields form a combination the transceiver supports.
    pub open spec fn valid(self) -> bool {
        &&& 137_000_000 <= self.frequency <= 1_020_000_000
        &&& 6 <= self.spreading_factor <= 12
        &&& 7_800 <= self.bandwidth <= 500_000
        &&& 5 <= self.coding_rate <= 8
        &&& 2 <= self.tx_power <= 20
    }

    /// Check the configuration, once, before it is handed to a driver.
    pub fn is_valid(&self) -> (r: bool)
        ensures
            r == self.valid(),
    {
        137_000_000 <= self.frequency && self.frequency <= 1_020_000_000
            && 6 <= self.spreading_factor && self.spreading_factor <= 12
            && 7_800 <= self.bandwidth && self.bandwidth <= 500_000
            && 5 <= self.coding_rate && self.coding_rate <= 8
            && 2 <= self.tx_power && self.tx_power <= 20
    }
}

impl Default for LoRaConfig {
    /// 915 MHz, spreading factor 7, 125 kHz bandwidth, coding rate 4/5,
    /// 14 dBm.
    fn default() -> (c: Self)
        ensures
            c == (LoRaConfig {
                frequency: 915_000_000u32,
                spreading_factor: 7u8,
                bandwidth: 125_000u32,
                coding_rate: 5u8,
                tx_power: 14i8,
            }),
            c.valid(),
    {
        LoRaConfig {
            frequency: 915_000_000,
            spreading_factor: 7,
            bandwidth: 125_000,
            coding_rate: 5,
            tx_power: 14,
        }
    }
}

/// The driver's operating state.
#[derive(Debug, Clone, Copy, PartialEq, Eq, Structural)]
pub enum RadioState {
    /// Powered and configured, no operation in flight.
    Idle,
    /// A transmission is in flight, awaiting its completion interrupt.
    Transmitting,
    /// A receive window is open, awaiting a frame or its deadline.
    Receiving,
    /// Powered down; only `init` may follow.
    Sleep,
}

/// Radio level errors.
#[derive(Debug, Clone, Copy, PartialEq, Eq, Structural)]
pub enum SX1276Error {
    /// The bus transfer failed.
    SpiError,
    /// The completion interrupt never arrived within the deadline.
    Timeout,
    /// Payload or register parameters out of range.
    InvalidConfig,
    /// The chip did not respond, or the operation is illegal in the
    /// current state.
    NotReady,
    /// A frame arrived but its checksum failed.
    InvalidData,
}

/// The transceiver driver's verified core: the state machine that
/// decides which operation is legal and what each hardware outcome
/// does to the state.
pub struct SX1276 {
    state: RadioState,
    config: LoRaConfig,
    initialized: bool,
}

impl SX1276 {
    /// The current operating state.
    pub closed spec fn spec_state(self) -> RadioState {
        self.state
    }

    /// The configuration the driver was built with.
    pub closed spec fn spec_config(self) -> LoRaConfig {
        self.config
    }

    /// Whether the chip has been reset and programmed since power-up or
    /// the last sleep.
    pub closed spec fn spec_initialized(self) -> bool {
        self.initialized
    }

    /// Whether transmit and receive may start: initialized and idle.
    pub open spec fn ready(self) -> bool {
        self.spec_initialized() && self.spec_state() == RadioState::Idle
    }

    /// A fresh driver over an unprogrammed chip; `init` must run before
    /// any operation.
    pub fn new(config: LoRaConfig) -> (r: Self)
        requires
            config.valid(),
        ensures
            r.spec_state() == RadioState::Idle,
            !r.spec_initialized(),
            r.spec_config() == config,
    {
        SX1276 { state: RadioState::Idle, config, initialized: false }
    }

    /// Complete a hardware reset.  The caller pulses the reset line and
    /// polls the chip's status for a bounded time; `chip_ready` reports
    /// whether the chip answered.  Idempotent: legal in any state.
    pub fn init(&mut self, chip_ready: bool) -> (r: Result<(), SX1276Error>)
        ensures
            final(self).spec_config() == old(self).spec_config(),
            chip_ready ==> {
                &&& r is Ok
                &&& final(self).spec_state() == RadioState::Idle
                &&& final(self).spec_initialized()
            },
            !chip_ready ==> r == Err::<(), SX1276Error>(SX1276Error::NotReady) && *final(self)
                == *old(self),
    {
        if chip_ready {
            self.state = RadioState::Idle;
            self.initialized = true;
            Ok(())
        } else {
            Err(SX1276Error::NotReady)
        }
    }

    /// Start a transmission.  Validates the payload length and the
    /// state, then switches to `Transmitting`; the caller writes the
    /// payload to the chip and waits, bounded, for the interrupt.
    pub fn transmit(&mut self, payload: &[u8]) -> (r: Result<(), SX1276Error>)
        ensures
            final(self).spec_config() == old(self).spec_config(),
            final(self).spec_initialized() == old(self).spec_initialized(),
            payload@.len() > 255 ==> r == Err::<(), SX1276Error>(SX1276Error::InvalidConfig)
                && *final(self) == *old(self),
            payload@.len() <= 255 && !old(self).ready() ==> r == Err::<(), SX1276Error>(
                SX1276Error::NotReady,
            ) && *final(self) == *old(self),
            payload@.len() <= 255 && old(self).ready() ==> r is Ok && final(self).spec_state()
                == RadioState::Transmitting,
    {
        if payload.len() > 255 {
            return Err(SX1276Error::InvalidConfig);
        }
        if !(self.initialized && self.state == RadioState::Idle) {
            return Err(SX1276Error::NotReady);
        }
        self.state = RadioState::Transmitting;
        Ok(())
    }

    /// Resolve a transmission: the interrupt either arrived within the
    /// deadline or it did not.  Either way the radio returns to idle.
    pub fn transmit_done(&mut self, irq: bool) -> (r: Result<(), SX1276Error>)
        requires
            old(self).spec_state() == RadioState::Transmitting,
        ensures
            final(self).spec_config() == old(self).spec_config(),
            final(self).spec_initialized() == old(self).spec_initialized(),
            final(self).spec_state() == RadioState::Idle,
            irq ==> r is Ok,
            !irq ==> r == Err::<(), SX1276Error>(SX1276Error::Timeout),
    {
        self.state = RadioState::Idle;
        if irq {
            Ok(())
        } else {
            Err(SX1276Error::Timeout)
        }
    }

    /// Open a receive window: arm the completion interrupt and the
    /// countdown, then switch to `Receiving`.
    pub fn receive(&mut self) -> (r: Result<(), SX1276Error>)
        ensures
            final(self).spec_config() == old(self).spec_config(),
            final(self).spec_initialized() == old(self).spec_initialized(),
            !old(self).ready() ==> r == Err::<(), SX1276Error>(SX1276Error::NotReady)
                && *final(self) == *old(self),
            old(self).ready() ==> r is Ok && final(self).spec_state() == RadioState::Receiving,
    {
        if !(self.initialized && self.state == RadioState::Idle) {
            return Err(SX1276Error::NotReady);
        }
        self.state = RadioState::Receiving;
        Ok(())
    }

    /// Resolve a receive window with what the hardware yielded: the
    /// received byte count (zero when no preamble arrived before the
    /// deadline) and whether the frame checksum held.  A checksum
    /// failure is reported as `InvalidData`, never as a fatal error.
    pub fn receive_done(&mut self, len: usize, crc_ok: bool) -> (r: Result<usize, SX1276Error>)
        requires
            old(self).spec_state() == RadioState::Receiving,
            len <= 255,
        ensures
            final(self).spec_config() == old(self).spec_config(),
            final(self).spec_initialized() == old(self).spec_initialized(),
            final(self).spec_state() == RadioState::Idle,
            crc_ok ==> r == Ok::<usize, SX1276Error>(len),
            !crc_ok ==> r == Err::<usize, SX1276Error>(SX1276Error::InvalidData),
    {
        self.state = RadioState::Idle;
        if crc_ok {
            Ok(len)
        } else {
            Err(SX1276Error::InvalidData)
        }
    }

    /// Power the chip down to its lowest-current state.  Any later
    /// operation must `init` first.
    pub fn sleep(&mut self) -> (r: Result<(), SX1276Error>)
        ensures
            final(self).spec_config() == old(self).spec_config(),
            final(self).spec_state() == RadioState::Sleep,
            !final(self).spec_initialized(),
            r is Ok,
    {
        self.state = RadioState::Sleep;
        self.initialized = false;
        Ok(())
    }

    /// Whether transmit and receive may start now.
    pub fn is_ready(&self) -> (r: bool)
        ensures
            r == self.ready(),
    {
        self.initialized && self.state == RadioState::Idle
    }

    /// The current radio state.
    pub fn state(&self) -> (s: RadioState)
        ensures
            s == self.spec_state(),
    {
        self.state
    }
}

} // verus!

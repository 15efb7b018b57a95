//! The LoRaWAN session layer.
//!
//! A `LoRaWAN` instance owns the radio driver core and the session
//! state: the keys derived at join, the device address, and the two
//! frame counters.  Radio hardware work happens outside this crate, so
//! each air operation is split in two: one call builds the frame and
//! arms the radio, a second call takes the hardware outcomes — whether
//! the transmit interrupt arrived, and what each receive window
//! yielded — and finishes the protocol step.  The caller runs that
//! loop; every protocol decision in between is verified here.

use vstd::prelude::*;
use crate::crypto::{copy_range, derive_key, spec_derive_key};
use crate::frame::{build_join_request, build_uplink_frame, parse_downlink, parse_join_accept,
    spec_downlink_ack, spec_downlink_fcnt, spec_downlink_has_port, spec_downlink_payload,
    spec_downlink_port, spec_downlink_valid, spec_join_accept_plain, spec_join_accept_valid,
    spec_join_request, spec_uplink_frame, Downlink, MAX_PAYLOAD};
use crate::radio::{RadioState, SX1276, SX1276Error};

verus! {

/// LoRaWAN device class.
#[derive(Debug, Clone, Copy, PartialEq, Eq, Structural)]
pub enum DeviceClass {
    /// Lowest power: two scheduled receive windows after each uplink.
    ClassA,
    /// Continuously listening between transmit slots.
    ClassC,
}

/// Provisioned device identity and class.
#[derive(Debug, Clone)]
pub struct LoRaWANConfig {
    /// Device identifier, 8 bytes, least significant first.
    pub dev_eui: [u8; 8],
    /// Application identifier, 8 bytes, least significant first.
    pub app_eui: [u8; 8],
    /// Application key, 16 bytes.
    pub app_key: [u8; 16],
    /// Device class.
    pub device_class: DeviceClass,
}

/// Session layer errors.
#[derive(Debug, Clone, Copy, PartialEq, Eq, Structural)]
pub enum LoRaWANError {
    /// The radio failed underneath a session operation.
    RadioError(SX1276Error),
    /// `send` before a successful join.
    NotJoined,
    /// The application payload exceeds the data-rate ceiling.
    PayloadTooLarge,
    /// No valid response arrived in either receive window.
    NoAck,
}

impl core::convert::From<SX1276Error> for LoRaWANError {
    fn from(e: SX1276Error) -> (r: Self) {
        LoRaWANError::RadioError(e)
    }
}

impl vstd::std_specs::convert::FromSpecImpl<SX1276Error> for LoRaWANError {
    open spec fn obeys_from_spec() -> bool {
        true
    }

    open spec fn from_spec(e: SX1276Error) -> Self {
        LoRaWANError::RadioError(e)
    }
}

/// Live session state: keys and address from the last join, and the
/// two counters.
pub struct Session {
    /// Network session key, 16 bytes.
    pub nwk_skey: Vec<u8>,
    /// Application session key, 16 bytes.
    pub app_skey: Vec<u8>,
    /// Assigned device address, 4 bytes, least significant first.
    pub dev_addr: Vec<u8>,
    /// Counter the next uplink will carry; one more than the number of
    /// uplinks sent this session.
    pub fcnt_up: u32,
    /// Lowest downlink counter the session will still accept: one more
    /// than the last accepted downlink counter, zero before any.
    pub fcnt_down: u32,
}

/// The session's byte strings have their wire widths.
pub open spec fn session_wf(s: Session) -> bool {
    &&& s.nwk_skey@.len() == 16
    &&& s.app_skey@.len() == 16
    &&& s.dev_addr@.len() == 4
}

/// The air operation a `LoRaWAN` instance has in flight.
#[derive(Debug, Clone, Copy, PartialEq, Eq, Structural)]
pub enum Pending {
    /// Nothing in flight.
    Idle,
    /// A join request is on the air.
    JoinRequest { dev_nonce: u16 },
    /// A data uplink is on the air.
    Uplink { confirmed: bool },
}

/// The LoRaWAN protocol handler: owns the radio core and the session.
pub struct LoRaWAN {
    radio: SX1276,
    config: LoRaWANConfig,
    session: Option<Session>,
    pending: Pending,
}

impl LoRaWAN {
    /// The owned radio core.
    pub closed spec fn spec_radio(self) -> SX1276 {
        self.radio
    }

    /// The provisioned identity.
    pub closed spec fn spec_config(self) -> LoRaWANConfig {
        self.config
    }

    /// The live session, if joined.
    pub closed spec fn spec_session(self) -> Option<Session> {
        self.session
    }

    /// The air operation in flight.
    pub closed spec fn spec_pending(self) -> Pending {
        self.pending
    }

    /// Whether a join has completed and not been discarded.
    pub open spec fn spec_joined(self) -> bool {
        self.spec_session() is Some
    }

    /// The uplink counter; zero when not joined.
    pub open spec fn spec_fcnt_up(self) -> u32 {
        match self.spec_session() {
            Some(s) => s.fcnt_up,
            None => 0,
        }
    }

    /// The downlink acceptance floor; zero when not joined.
    pub open spec fn spec_fcnt_down(self) -> u32 {
        match self.spec_session() {
            Some(s) => s.fcnt_down,
            None => 0,
        }
    }

    /// Internal consistency: a session's strings have their wire
    /// widths, and an operation in flight means the radio is
    /// transmitting and a data uplink has a session behind it.
    pub open spec fn wf(self) -> bool {
        &&& (self.spec_session() matches Some(s) ==> session_wf(s))
        &&& (self.spec_pending() != Pending::Idle ==> self.spec_radio().spec_state()
            == RadioState::Transmitting && self.spec_radio().spec_initialized())
        &&& ((self.spec_pending() matches Pending::Uplink { .. }) ==> self.spec_joined())
    }

    /// Take ownership of a radio and an identity; not joined yet.
    pub fn new(radio: SX1276, config: LoRaWANConfig) -> (r: Self)
        ensures
            r.wf(),
            !r.spec_joined(),
            r.spec_radio() == radio,
            r.spec_config() == config,
            r.spec_pending() == Pending::Idle,
    {
        LoRaWAN { radio, config, session: None, pending: Pending::Idle }
    }

    /// Whether the device holds a live session.
    pub fn is_joined(&self) -> (r: bool)
        ensures
            r == self.spec_joined(),
    {
        self.session.is_some()
    }

    /// The counter the next uplink will carry; zero when not joined.
    pub fn fcnt_up(&self) -> (c: u32)
        ensures
            c == self.spec_fcnt_up(),
    {
        match &self.session {
            Some(s) => s.fcnt_up,
            None => 0,
        }
    }

    /// The downlink acceptance floor; zero when not joined.
    pub fn fcnt_down(&self) -> (c: u32)
        ensures
            c == self.spec_fcnt_down(),
    {
        match &self.session {
            Some(s) => s.fcnt_down,
            None => 0,
        }
    }

    /// The assigned device address, when joined.
    pub fn dev_addr(&self) -> (a: Option<Vec<u8>>)
        requires
            self.wf(),
        ensures
            a is Some <==> self.spec_joined(),
            (a matches Some(v) ==> self.spec_session() matches Some(s) && v@ == s.dev_addr@),
    {
        match &self.session {
            Some(s) => Some(copy_range(s.dev_addr.as_slice(), 0, 4)),
            None => None,
        }
    }

    /// Build and arm an over-the-air activation request.  The returned
    /// frame is what the caller transmits; the device nonce must be
    /// fresh for this attempt (the caller draws it, typically from a
    /// hardware source).  Fails without touching the radio state when
    /// the radio is not initialized and idle.
    pub fn join_request(&mut self, dev_nonce: u16) -> (r: Result<Vec<u8>, LoRaWANError>)
        requires
            old(self).wf(),
            old(self).spec_pending() == Pending::Idle,
        ensures
            final(self).wf(),
            final(self).spec_config() == old(self).spec_config(),
            final(self).spec_session() == old(self).spec_session(),
            !old(self).spec_radio().ready() ==> r == Err::<Vec<u8>, LoRaWANError>(
                LoRaWANError::RadioError(SX1276Error::NotReady),
            ) && *final(self) == *old(self),
            old(self).spec_radio().ready() ==> {
                &&& r matches Ok(f) && f@ == spec_join_request(
                    old(self).spec_config().app_key@,
                    old(self).spec_config().app_eui@,
                    old(self).spec_config().dev_eui@,
                    dev_nonce,
                )
                &&& final(self).spec_pending() == (Pending::JoinRequest { dev_nonce })
                &&& final(self).spec_radio().spec_state() == RadioState::Transmitting
            },
    {
        let frame = build_join_request(
            self.config.app_key.as_slice(),
            self.config.app_eui.as_slice(),
            self.config.dev_eui.as_slice(),
            dev_nonce,
        );
        match self.radio.transmit(frame.as_slice()) {
            Ok(()) => {
                self.pending = Pending::JoinRequest { dev_nonce };
                Ok(frame)
            },
            Err(e) => Err(LoRaWANError::RadioError(e)),
        }
    }

    /// Whether a receive window yielded a frame that is a valid,
    /// correctly keyed join accept.
    pub open spec fn spec_rx_accept_valid(app_key: Seq<u8>, rx: Option<Vec<u8>>) -> bool {
        rx matches Some(f) && spec_join_accept_valid(app_key, f@)
    }

    /// The session a join accept establishes: keys derived from the
    /// application key and the nonce material, the assigned address,
    /// both counters zero.
    pub open spec fn spec_session_from_accept(
        app_key: Seq<u8>,
        dev_nonce: u16,
        frame: Seq<u8>,
        s: Session,
    ) -> bool {
        let plain = spec_join_accept_plain(app_key, frame);
        &&& s.nwk_skey@ == spec_derive_key(
            app_key,
            1,
            plain.subrange(0, 3),
            plain.subrange(3, 6),
            dev_nonce,
        )
        &&& s.app_skey@ == spec_derive_key(
            app_key,
            2,
            plain.subrange(0, 3),
            plain.subrange(3, 6),
            dev_nonce,
        )
        &&& s.dev_addr@ == plain.subrange(6, 10)
        &&& s.fcnt_up == 0
        &&& s.fcnt_down == 0
    }

    /// Finish an over-the-air activation.  `tx_done` reports whether
    /// the transmit interrupt arrived; `rx1` and `rx2` hold whatever
    /// each receive window yielded.  The first window with a valid,
    /// correctly keyed join accept establishes the session: keys
    /// derived, address assigned, both counters reset to zero.  With
    /// none, the attempt fails with `NoAck` and any previous session
    /// stands; the caller owns backoff and duty-cycle compliance.
    pub fn join(&mut self, tx_done: bool, rx1: Option<Vec<u8>>, rx2: Option<Vec<u8>>) -> (r: Result<
        (),
        LoRaWANError,
    >)
        requires
            old(self).wf(),
            old(self).spec_pending() matches Pending::JoinRequest { .. },
        ensures
            final(self).wf(),
            final(self).spec_config() == old(self).spec_config(),
            final(self).spec_pending() == Pending::Idle,
            final(self).spec_radio().spec_state() == RadioState::Idle,
            final(self).spec_radio().spec_initialized(),
            !tx_done ==> r == Err::<(), LoRaWANError>(
                LoRaWANError::RadioError(SX1276Error::Timeout),
            ) && final(self).spec_session() == old(self).spec_session(),
            tx_done ==> (old(self).spec_pending() matches Pending::JoinRequest { dev_nonce }
                ==> {
                let key = old(self).spec_config().app_key@;
                if Self::spec_rx_accept_valid(key, rx1) {
                    &&& r is Ok
                    &&& final(self).spec_joined()
                    &&& (final(self).spec_session() matches Some(s)
                        && Self::spec_session_from_accept(key, dev_nonce, rx1->Some_0@, s))
                } else if Self::spec_rx_accept_valid(key, rx2) {
                    &&& r is Ok
                    &&& final(self).spec_joined()
                    &&& (final(self).spec_session() matches Some(s)
                        && Self::spec_session_from_accept(key, dev_nonce, rx2->Some_0@, s))
                } else {
                    &&& r == Err::<(), LoRaWANError>(LoRaWANError::NoAck)
                    &&& final(self).spec_session() == old(self).spec_session()
                }
            }),
    {
        let dev_nonce: u16 = if let Pending::JoinRequest { dev_nonce } = self.pending {
            dev_nonce
        } else {
            0
        };
        self.pending = Pending::Idle;
        let tx_res = self.radio.transmit_done(tx_done);
        if tx_res.is_err() {
            return Err(LoRaWANError::RadioError(SX1276Error::Timeout));
        }

        let got1 = self.open_join_window(rx1);
        if let Some(accept) = got1 {
            self.install_session(accept, dev_nonce);
            return Ok(());
        }
        let got2 = self.open_join_window(rx2);
        if let Some(accept) = got2 {
            self.install_session(accept, dev_nonce);
            return Ok(());
        }
        Err(LoRaWANError::NoAck)
    }

    /// Run one receive window of a join exchange on the radio core and
    /// validate what it yielded.
    fn open_join_window(&mut self, rx: Option<Vec<u8>>) -> (r: Option<crate::frame::JoinAccept>)
        requires
            old(self).spec_radio().ready(),
        ensures
            final(self).spec_config() == old(self).spec_config(),
            final(self).spec_session() == old(self).spec_session(),
            final(self).spec_pending() == old(self).spec_pending(),
            final(self).spec_radio().spec_state() == RadioState::Idle,
            final(self).spec_radio().spec_initialized(),
            r is Some <==> Self::spec_rx_accept_valid(old(self).spec_config().app_key@, rx),
            r matches Some(ja) ==> {
                let plain = spec_join_accept_plain(old(self).spec_config().app_key@, rx->Some_0@);
                &&& ja.app_nonce@ == plain.subrange(0, 3) && ja.app_nonce@.len() == 3
                &&& ja.net_id@ == plain.subrange(3, 6) && ja.net_id@.len() == 3
                &&& ja.dev_addr@ == plain.subrange(6, 10) && ja.dev_addr@.len() == 4
            },
    {
        let _ = self.radio.receive();
        match rx {
            Some(f) => {
                if f.len() <= 255 {
                    let _ = self.radio.receive_done(f.len(), true);
                } else {
                    let _ = self.radio.receive_done(0, true);
                }
                parse_join_accept(self.config.app_key.as_slice(), f.as_slice())
            },
            None => {
                let _ = self.radio.receive_done(0, true);
                None
            },
        }
    }

    /// Derive both session keys from a validated join accept and make
    /// the session live, counters at zero.
    fn install_session(&mut self, accept: crate::frame::JoinAccept, dev_nonce: u16)
        requires
            accept.app_nonce@.len() == 3,
            accept.net_id@.len() == 3,
            accept.dev_addr@.len() == 4,
        ensures
            final(self).spec_config() == old(self).spec_config(),
            final(self).spec_pending() == old(self).spec_pending(),
            final(self).spec_radio() == old(self).spec_radio(),
            final(self).spec_session() matches Some(s) && {
                &&& session_wf(s)
                &&& s.nwk_skey@ == spec_derive_key(
                    old(self).spec_config().app_key@,
                    1,
                    accept.app_nonce@,
                    accept.net_id@,
                    dev_nonce,
                )
                &&& s.app_skey@ == spec_derive_key(
                    old(self).spec_config().app_key@,
                    2,
                    accept.app_nonce@,
                    accept.net_id@,
                    dev_nonce,
                )
                &&& s.dev_addr@ == accept.dev_addr@
                &&& s.fcnt_up == 0
                &&& s.fcnt_down == 0
            },
    {
        let nwk_skey = derive_key(
            self.config.app_key.as_slice(),
            1,
            accept.app_nonce.as_slice(),
            accept.net_id.as_slice(),
            dev_nonce,
        );
        let app_skey = derive_key(
            self.config.app_key.as_slice(),
            2,
            accept.app_nonce.as_slice(),
            accept.net_id.as_slice(),
            dev_nonce,
        );
        self.session = Some(
            Session { nwk_skey, app_skey, dev_addr: accept.dev_addr, fcnt_up: 0, fcnt_down: 0 },
        );
    }

    /// Build and arm a data uplink.  Fails with `NotJoined` before a
    /// successful join and with `PayloadTooLarge` above the data-rate
    /// ceiling, in both cases leaving the whole state — the uplink
    /// counter and the radio included — untouched.  Otherwise the
    /// payload is enciphered under the session key the port selects,
    /// the frame carries the current counter and its integrity code,
    /// the counter steps up by exactly one, and the radio transmits;
    /// the returned frame is what goes on the air.
    pub fn send(&mut self, port: u8, payload: &[u8], confirmed: bool) -> (r: Result<
        Vec<u8>,
        LoRaWANError,
    >)
        requires
            old(self).wf(),
            old(self).spec_pending() == Pending::Idle,
            old(self).spec_joined() ==> old(self).spec_fcnt_up() < 0xFFFF_FFFFu32,
        ensures
            final(self).wf(),
            final(self).spec_config() == old(self).spec_config(),
            !old(self).spec_joined() ==> r == Err::<Vec<u8>, LoRaWANError>(LoRaWANError::NotJoined)
                && *final(self) == *old(self),
            old(self).spec_joined() && payload@.len() > MAX_PAYLOAD ==> r == Err::<
                Vec<u8>,
                LoRaWANError,
            >(LoRaWANError::PayloadTooLarge) && *final(self) == *old(self),
            old(self).spec_joined() && payload@.len() <= MAX_PAYLOAD && !old(
                self,
            ).spec_radio().ready() ==> r == Err::<Vec<u8>, LoRaWANError>(
                LoRaWANError::RadioError(SX1276Error::NotReady),
            ) && *final(self) == *old(self),
            old(self).spec_joined() && payload@.len() <= MAX_PAYLOAD && old(
                self,
            ).spec_radio().ready() ==> {
                &&& (old(self).spec_session() matches Some(s) ==> {
                    &&& r matches Ok(f) && f@ == spec_uplink_frame(
                        s.nwk_skey@,
                        s.app_skey@,
                        s.dev_addr@,
                        s.fcnt_up,
                        port,
                        payload@,
                        confirmed,
                    )
                    &&& (final(self).spec_session() matches Some(s2) && s2.nwk_skey@ == s.nwk_skey@
                        && s2.app_skey@ == s.app_skey@ && s2.dev_addr@ == s.dev_addr@
                        && s2.fcnt_up == s.fcnt_up + 1 && s2.fcnt_down == s.fcnt_down)
                })
                &&& final(self).spec_fcnt_up() == old(self).spec_fcnt_up() + 1
                &&& final(self).spec_fcnt_down() == old(self).spec_fcnt_down()
                &&& final(self).spec_pending() == (Pending::Uplink { confirmed })
                &&& final(self).spec_radio().spec_state() == RadioState::Transmitting
            },
    {
        if self.session.is_none() {
            return Err(LoRaWANError::NotJoined);
        }
        if payload.len() > MAX_PAYLOAD {
            return Err(LoRaWANError::PayloadTooLarge);
        }
        if !self.radio.is_ready() {
            return Err(LoRaWANError::RadioError(SX1276Error::NotReady));
        }
        let frame = match &self.session {
            Some(s) => build_uplink_frame(
                s.nwk_skey.as_slice(),
                s.app_skey.as_slice(),
                s.dev_addr.as_slice(),
                s.fcnt_up,
                port,
                payload,
                confirmed,
            ),
            None => {
                return Err(LoRaWANError::NotJoined);
            },
        };
        match self.radio.transmit(frame.as_slice()) {
            Ok(()) => {},
            Err(e) => {
                return Err(LoRaWANError::RadioError(e));
            },
        }
        if let Some(s) = &mut self.session {
            s.fcnt_up = s.fcnt_up + 1;
        }
        self.pending = Pending::Uplink { confirmed };
        Ok(frame)
    }

    /// Whether a receive window yielded a frame this session accepts: a
    /// well formed downlink for the address, its integrity code
    /// verified, and a counter at or above the acceptance floor — a
    /// replayed counter is rejected even when its integrity code holds.
    pub open spec fn spec_rx_downlink_accepted(s: Session, rx: Option<Vec<u8>>) -> bool {
        rx matches Some(f) && spec_downlink_valid(s.nwk_skey@, s.dev_addr@, f@)
            && spec_downlink_fcnt(f@) >= s.fcnt_down
    }

    /// What an accepted downlink hands the application.
    pub open spec fn spec_downlink_result(s: Session, f: Seq<u8>, d: Downlink) -> bool {
        &&& d.fcnt == spec_downlink_fcnt(f)
        &&& d.ack == spec_downlink_ack(f)
        &&& d.confirmed == (f[0] == crate::frame::MHDR_CONFIRMED_DOWN)
        &&& (spec_downlink_has_port(f) ==> d.port == Some(spec_downlink_port(f)) && d.payload@
            == spec_downlink_payload(s.nwk_skey@, s.app_skey@, f))
        &&& (!spec_downlink_has_port(f) ==> d.port is None && d.payload@.len() == 0)
    }

    /// Finish a data uplink.  `tx_done` reports whether the transmit
    /// interrupt arrived; `rx1` and `rx2` hold whatever the two receive
    /// windows yielded.  The first window with an accepted downlink is
    /// processed: the acceptance floor moves past its counter, and its
    /// deciphered contents are returned — unless the uplink was
    /// confirmed and the downlink carries no acknowledgement, in which
    /// case the result is `NoAck`.  With no accepted downlink, a
    /// confirmed uplink resolves to `NoAck` and an unconfirmed one to
    /// nothing.  The uplink counter is never rolled back.
    pub fn complete_send(&mut self, tx_done: bool, rx1: Option<Vec<u8>>, rx2: Option<Vec<u8>>) -> (r:
        Result<Option<Downlink>, LoRaWANError>)
        requires
            old(self).wf(),
            old(self).spec_pending() matches Pending::Uplink { .. },
        ensures
            final(self).wf(),
            final(self).spec_config() == old(self).spec_config(),
            final(self).spec_pending() == Pending::Idle,
            final(self).spec_radio().spec_state() == RadioState::Idle,
            final(self).spec_radio().spec_initialized(),
            final(self).spec_fcnt_up() == old(self).spec_fcnt_up(),
            old(self).spec_session() matches Some(s) ==> (final(self).spec_session() matches Some(
                s2,
            ) && s2.nwk_skey@ == s.nwk_skey@ && s2.app_skey@ == s.app_skey@ && s2.dev_addr@
                == s.dev_addr@ && s2.fcnt_up == s.fcnt_up),
            !tx_done ==> r == Err::<Option<Downlink>, LoRaWANError>(
                LoRaWANError::RadioError(SX1276Error::Timeout),
            ) && final(self).spec_fcnt_down() == old(self).spec_fcnt_down(),
            tx_done ==> (old(self).spec_pending() matches Pending::Uplink { confirmed } ==> (old(
                self,
            ).spec_session() matches Some(s) ==> {
                if Self::spec_rx_downlink_accepted(s, rx1) {
                    &&& final(self).spec_fcnt_down() == spec_downlink_fcnt(rx1->Some_0@) + 1
                    &&& ((!confirmed || spec_downlink_ack(rx1->Some_0@)) ==> (r matches Ok(d)
                        && d matches Some(dl) && Self::spec_downlink_result(s, rx1->Some_0@, dl)))
                    &&& ((confirmed && !spec_downlink_ack(rx1->Some_0@)) ==> r == Err::<
                        Option<Downlink>,
                        LoRaWANError,
                    >(LoRaWANError::NoAck))
                } else if Self::spec_rx_downlink_accepted(s, rx2) {
                    &&& final(self).spec_fcnt_down() == spec_downlink_fcnt(rx2->Some_0@) + 1
                    &&& ((!confirmed || spec_downlink_ack(rx2->Some_0@)) ==> (r matches Ok(d)
                        && d matches Some(dl) && Self::spec_downlink_result(s, rx2->Some_0@, dl)))
                    &&& ((confirmed && !spec_downlink_ack(rx2->Some_0@)) ==> r == Err::<
                        Option<Downlink>,
                        LoRaWANError,
                    >(LoRaWANError::NoAck))
                } else {
                    &&& final(self).spec_fcnt_down() == old(self).spec_fcnt_down()
                    &&& (confirmed ==> r == Err::<Option<Downlink>, LoRaWANError>(
                        LoRaWANError::NoAck,
                    ))
                    &&& (!confirmed ==> r == Ok::<Option<Downlink>, LoRaWANError>(None))
                }
            })),
    {
        let confirmed: bool = if let Pending::Uplink { confirmed } = self.pending {
            confirmed
        } else {
            false
        };
        self.pending = Pending::Idle;
        let tx_res = self.radio.transmit_done(tx_done);
        if tx_res.is_err() {
            return Err(LoRaWANError::RadioError(SX1276Error::Timeout));
        }
        let first = self.open_data_window(rx1);
        if let Some(d) = first {
            return self.finish_downlink(d, confirmed);
        }
        let second = self.open_data_window(rx2);
        if let Some(d) = second {
            return self.finish_downlink(d, confirmed);
        }
        if confirmed {
            Err(LoRaWANError::NoAck)
        } else {
            Ok(None)
        }
    }

    /// One continuous-listening slot, as a Class C device runs between
    /// transmit slots: open a receive window and validate whatever it
    /// yielded against the session.  The framing, integrity and replay
    /// rules are exactly those of the two post-uplink windows; only the
    /// scheduling differs, and that belongs to the caller.
    pub fn listen_window(&mut self, rx: Option<Vec<u8>>) -> (r: Result<
        Option<Downlink>,
        LoRaWANError,
    >)
        requires
            old(self).wf(),
            old(self).spec_pending() == Pending::Idle,
        ensures
            final(self).wf(),
            final(self).spec_config() == old(self).spec_config(),
            final(self).spec_pending() == Pending::Idle,
            final(self).spec_fcnt_up() == old(self).spec_fcnt_up(),
            old(self).spec_session() matches Some(s) ==> (final(self).spec_session() matches Some(
                s2,
            ) && s2.nwk_skey@ == s.nwk_skey@ && s2.app_skey@ == s.app_skey@ && s2.dev_addr@
                == s.dev_addr@ && s2.fcnt_up == s.fcnt_up),
            !old(self).spec_joined() ==> r == Err::<Option<Downlink>, LoRaWANError>(
                LoRaWANError::NotJoined,
            ) && *final(self) == *old(self),
            old(self).spec_joined() && !old(self).spec_radio().ready() ==> r == Err::<
                Option<Downlink>,
                LoRaWANError,
            >(LoRaWANError::RadioError(SX1276Error::NotReady)) && *final(self) == *old(self),
            old(self).spec_joined() && old(self).spec_radio().ready() ==> (old(
                self,
            ).spec_session() matches Some(s) ==> {
                &&& final(self).spec_radio().spec_state() == RadioState::Idle
                &&& final(self).spec_radio().spec_initialized()
                &&& (Self::spec_rx_downlink_accepted(s, rx) ==> (r matches Ok(d) && d matches Some(
                    dl,
                ) && Self::spec_downlink_result(s, rx->Some_0@, dl) && final(self).spec_fcnt_down()
                    == spec_downlink_fcnt(rx->Some_0@) + 1))
                &&& (!Self::spec_rx_downlink_accepted(s, rx) ==> r == Ok::<
                    Option<Downlink>,
                    LoRaWANError,
                >(None) && final(self).spec_fcnt_down() == old(self).spec_fcnt_down())
            }),
    {
        if self.session.is_none() {
            return Err(LoRaWANError::NotJoined);
        }
        if !self.radio.is_ready() {
            return Err(LoRaWANError::RadioError(SX1276Error::NotReady));
        }
        let got = self.open_data_window(rx);
        match got {
            Some(d) => self.finish_downlink(d, false),
            None => Ok(None),
        }
    }

    /// Run one receive window of a data exchange on the radio core,
    /// validate what it yielded, and apply the replay rule.
    fn open_data_window(&mut self, rx: Option<Vec<u8>>) -> (r: Option<Downlink>)
        requires
            old(self).spec_radio().ready(),
            old(self).spec_session() matches Some(s) && session_wf(s),
        ensures
            final(self).spec_config() == old(self).spec_config(),
            final(self).spec_session() == old(self).spec_session(),
            final(self).spec_pending() == old(self).spec_pending(),
            final(self).spec_radio().spec_state() == RadioState::Idle,
            final(self).spec_radio().spec_initialized(),
            old(self).spec_session() matches Some(s) ==> {
                &&& (r is Some <==> Self::spec_rx_downlink_accepted(s, rx))
                &&& (r matches Some(d) ==> Self::spec_downlink_result(s, rx->Some_0@, d))
            },
    {
        let _ = self.radio.receive();
        match rx {
            Some(f) => {
                if f.len() <= 255 {
                    let _ = self.radio.receive_done(f.len(), true);
                } else {
                    let _ = self.radio.receive_done(0, true);
                }
                let (floor, parsed) = match &self.session {
                    Some(s) => (
                        s.fcnt_down,
                        parse_downlink(
                            s.nwk_skey.as_slice(),
                            s.app_skey.as_slice(),
                            s.dev_addr.as_slice(),
                            f.as_slice(),
                        ),
                    ),
                    None => (0, None),
                };
                match parsed {
                    Some(d) => if d.fcnt >= floor {
                        Some(d)
                    } else {
                        None
                    },
                    None => None,
                }
            },
            None => {
                let _ = self.radio.receive_done(0, true);
                None
            },
        }
    }

    /// Accept one downlink: move the acceptance floor past its counter,
    /// then resolve the pending uplink against its acknowledgement bit.
    fn finish_downlink(&mut self, d: Downlink, confirmed: bool) -> (r: Result<
        Option<Downlink>,
        LoRaWANError,
    >)
        requires
            old(self).spec_session() is Some,
            d.fcnt < 0x1_0000,
        ensures
            final(self).spec_config() == old(self).spec_config(),
            final(self).spec_pending() == old(self).spec_pending(),
            final(self).spec_radio() == old(self).spec_radio(),
            old(self).spec_session() matches Some(s) ==> (final(self).spec_session() matches Some(
                s2,
            ) && s2.nwk_skey@ == s.nwk_skey@ && s2.app_skey@ == s.app_skey@ && s2.dev_addr@
                == s.dev_addr@ && s2.fcnt_up == s.fcnt_up && s2.fcnt_down == d.fcnt + 1),
            (!confirmed || d.ack) ==> r == Ok::<Option<Downlink>, LoRaWANError>(Some(d)),
            (confirmed && !d.ack) ==> r == Err::<Option<Downlink>, LoRaWANError>(
                LoRaWANError::NoAck,
            ),
    {
        let ack = d.ack;
        if let Some(s) = &mut self.session {
            s.fcnt_down = d.fcnt + 1;
        }
        if confirmed && !ack {
            return Err(LoRaWANError::NoAck);
        }
        Ok(Some(d))
    }
}

/// A downlink frame replayed with a previously accepted counter is
/// rejected, even though its integrity code still verifies: accepting a
/// frame with counter `c` moves the acceptance floor to `c + 1`, and
/// acceptance asks for a counter at or above the floor.
pub proof fn lemma_replay_rejected(s_before: Session, s_after: Session, rx: Option<Vec<u8>>)
    requires
        LoRaWAN::spec_rx_downlink_accepted(s_before, rx),
        s_after.nwk_skey@ == s_before.nwk_skey@,
        s_after.dev_addr@ == s_before.dev_addr@,
        s_after.fcnt_down == spec_downlink_fcnt(rx->Some_0@) + 1,
    ensures
        !LoRaWAN::spec_rx_downlink_accepted(s_after, rx),
{
}

} // verus!

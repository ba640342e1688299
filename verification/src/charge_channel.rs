//! Per-channel charge-controller state: the online-status machine driven by
//! probe results, the cached snapshot, and the decision logic of one poll
//! cycle.
//!
//! The power-monitor and fast-charge-controller chips are reached over the
//! arbitrated bus by the caller; every decision taken on the results of
//! those transactions is made here.

use vstd::prelude::*;

use crate::bus::ChargeChannelSeriesItem;

verus! {

/// The output wattage cap written to every channel's controller at init.
pub const SW3526_OUTPUT_LIMIT_WATTS: u8 = 65;

/// Which of the channel's two sub-devices answered their probe.
///
/// The four variants encode a two-bit set: the power monitor's bit and the
/// controller's bit.  `Online` means both probes succeeded.
#[derive(Debug, Clone, Copy, PartialEq, Eq, Structural)]
pub enum ChargeChannelOnlineStatus {
    Online,
    INA226Online,
    SW3526Online,
    Offline,
}

impl ChargeChannelOnlineStatus {
    /// The power monitor's bit of the status.
    pub open spec fn has_ina226(self) -> bool {
        self is INA226Online || self is Online
    }

    /// The fast-charge controller's bit of the status.
    pub open spec fn has_sw3526(self) -> bool {
        self is SW3526Online || self is Online
    }

    /// The status whose bits are exactly the given two.
    pub open spec fn spec_from_bits(ina226_online: bool, sw3526_online: bool) -> Self {
        if ina226_online && sw3526_online {
            ChargeChannelOnlineStatus::Online
        } else if ina226_online {
            ChargeChannelOnlineStatus::INA226Online
        } else if sw3526_online {
            ChargeChannelOnlineStatus::SW3526Online
        } else {
            ChargeChannelOnlineStatus::Offline
        }
    }

    /// The numeric code of the status: the power monitor's bit has weight 1,
    /// the controller's bit weight 2.
    pub open spec fn spec_to_u8(self) -> u8 {
        match self {
            ChargeChannelOnlineStatus::Offline => 0,
            ChargeChannelOnlineStatus::INA226Online => 1,
            ChargeChannelOnlineStatus::SW3526Online => 2,
            ChargeChannelOnlineStatus::Online => 3,
        }
    }

    /// The status a numeric code denotes; codes above 3 carry no bits.
    pub open spec fn spec_from_u8(value: u8) -> Self {
        if value == 3 {
            ChargeChannelOnlineStatus::Online
        } else if value == 1 {
            ChargeChannelOnlineStatus::INA226Online
        } else if value == 2 {
            ChargeChannelOnlineStatus::SW3526Online
        } else {
            ChargeChannelOnlineStatus::Offline
        }
    }

    /// Decodes a status from its numeric code.
    pub fn from_u8(value: u8) -> (r: Self)
        ensures
            r == Self::spec_from_u8(value),
    {
        match value {
            3 => ChargeChannelOnlineStatus::Online,
            1 => ChargeChannelOnlineStatus::INA226Online,
            2 => ChargeChannelOnlineStatus::SW3526Online,
            _ => ChargeChannelOnlineStatus::Offline,
        }
    }

    /// Encodes the status as its numeric code.
    pub fn to_u8(self) -> (r: u8)
        ensures
            r == self.spec_to_u8(),
    {
        match self {
            ChargeChannelOnlineStatus::Offline => 0,
            ChargeChannelOnlineStatus::INA226Online => 1,
            ChargeChannelOnlineStatus::SW3526Online => 2,
            ChargeChannelOnlineStatus::Online => 3,
        }
    }

    /// Builds the status with exactly the given two bits.
    pub fn from_bits(ina226_online: bool, sw3526_online: bool) -> (r: Self)
        ensures
            r == Self::spec_from_bits(ina226_online, sw3526_online),
    {
        if ina226_online && sw3526_online {
            ChargeChannelOnlineStatus::Online
        } else if ina226_online {
            ChargeChannelOnlineStatus::INA226Online
        } else if sw3526_online {
            ChargeChannelOnlineStatus::SW3526Online
        } else {
            ChargeChannelOnlineStatus::Offline
        }
    }

    /// Bitwise intersection of two statuses.
    pub fn bitand(self, rhs: Self) -> (r: Self)
        ensures
            r.has_ina226() == (self.has_ina226() && rhs.has_ina226()),
            r.has_sw3526() == (self.has_sw3526() && rhs.has_sw3526()),
    {
        Self::from_bits(
            self.is_ina226_online() && rhs.is_ina226_online(),
            self.is_sw3526_online() && rhs.is_sw3526_online(),
        )
    }

    /// Bitwise union of two statuses.
    pub fn bitor(self, rhs: Self) -> (r: Self)
        ensures
            r.has_ina226() == (self.has_ina226() || rhs.has_ina226()),
            r.has_sw3526() == (self.has_sw3526() || rhs.has_sw3526()),
    {
        Self::from_bits(
            self.is_ina226_online() || rhs.is_ina226_online(),
            self.is_sw3526_online() || rhs.is_sw3526_online(),
        )
    }

    /// Bitwise symmetric difference of two statuses.
    pub fn bitxor(self, rhs: Self) -> (r: Self)
        ensures
            r.has_ina226() == (self.has_ina226() != rhs.has_ina226()),
            r.has_sw3526() == (self.has_sw3526() != rhs.has_sw3526()),
    {
        Self::from_bits(
            self.is_ina226_online() != rhs.is_ina226_online(),
            self.is_sw3526_online() != rhs.is_sw3526_online(),
        )
    }

    /// Bitwise complement within the two-bit domain.
    pub fn not(self) -> (r: Self)
        ensures
            r.has_ina226() == !self.has_ina226(),
            r.has_sw3526() == !self.has_sw3526(),
    {
        Self::from_bits(!self.is_ina226_online(), !self.is_sw3526_online())
    }

    /// Reads the power monitor's bit.
    pub fn is_ina226_online(self) -> (r: bool)
        ensures
            r == self.has_ina226(),
    {
        match self {
            ChargeChannelOnlineStatus::INA226Online | ChargeChannelOnlineStatus::Online => true,
            _ => false,
        }
    }

    /// Reads the controller's bit.
    pub fn is_sw3526_online(self) -> (r: bool)
        ensures
            r == self.has_sw3526(),
    {
        match self {
            ChargeChannelOnlineStatus::SW3526Online | ChargeChannelOnlineStatus::Online => true,
            _ => false,
        }
    }

    /// Encoding and decoding of the numeric code invert each other.
    pub proof fn lemma_u8_roundtrip(self)
        ensures
            Self::spec_from_u8(self.spec_to_u8()) == self,
    {
    }
}

/// How one poll cycle of a channel ended.
#[derive(Debug, Clone, Copy, PartialEq, Eq, Structural)]
pub enum PollCycleOutcome {
    /// The channel was not fully online: no bus transaction was issued and
    /// nothing was published.
    Skipped,
    /// A power-monitor read failed; the error is surfaced to the caller.
    INA226Failed,
    /// The cycle's ticker fired before the controller answered: the cycle
    /// was abandoned without publishing.
    Abandoned,
    /// A controller read failed; the error is surfaced to the caller.
    SW3526Failed,
    /// All reads completed: the accumulated snapshot is published.
    Published,
}

/// The decision of one poll cycle, as a function of the channel's status and
/// of what the bus returned: see [`ChargeChannel::poll_once_outcome`].
pub open spec fn spec_poll_once_outcome(
    status: ChargeChannelOnlineStatus,
    ina226_ok: bool,
    ticker_won: bool,
    sw3526_ok: bool,
) -> PollCycleOutcome {
    if !(status is Online) {
        PollCycleOutcome::Skipped
    } else if !ina226_ok {
        PollCycleOutcome::INA226Failed
    } else if ticker_won {
        PollCycleOutcome::Abandoned
    } else if !sw3526_ok {
        PollCycleOutcome::SW3526Failed
    } else {
        PollCycleOutcome::Published
    }
}

/// The verified core of one charging channel: its online status and the
/// snapshot accumulated over poll cycles.  The chip drivers themselves are
/// owned by the caller, which feeds their results into these methods.
#[derive(Debug, Clone, Copy, PartialEq, Eq, Structural)]
pub struct ChargeChannel {
    pub online_status: ChargeChannelOnlineStatus,
    pub current_channel_state: ChargeChannelSeriesItem,
}

impl ChargeChannel {
    /// A fresh channel: fully offline, snapshot zeroed.
    pub fn new() -> (r: Self)
        ensures
            r.online_status is Offline,
            r.current_channel_state == ChargeChannelSeriesItem::spec_default(),
    {
        ChargeChannel {
            online_status: ChargeChannelOnlineStatus::Offline,
            current_channel_state: ChargeChannelSeriesItem::new_zeroed(),
        }
    }

    /// Records the result of the power monitor's probe: only its own bit is
    /// set or cleared.
    pub fn apply_ina226_probe(&mut self, probe_ok: bool)
        ensures
            final(self).online_status == ChargeChannelOnlineStatus::spec_from_bits(
                probe_ok,
                old(self).online_status.has_sw3526(),
            ),
            final(self).current_channel_state == old(self).current_channel_state,
    {
        self.online_status = ChargeChannelOnlineStatus::from_bits(
            probe_ok,
            self.online_status.is_sw3526_online(),
        );
    }

    /// Records the result of the fast-charge controller's probe: only its
    /// own bit is set or cleared.
    pub fn apply_sw3526_probe(&mut self, probe_ok: bool)
        ensures
            final(self).online_status == ChargeChannelOnlineStatus::spec_from_bits(
                old(self).online_status.has_ina226(),
                probe_ok,
            ),
            final(self).current_channel_state == old(self).current_channel_state,
    {
        self.online_status = ChargeChannelOnlineStatus::from_bits(
            self.online_status.is_ina226_online(),
            probe_ok,
        );
    }

    /// Whether the channel is fully online, which gates every poll cycle.
    pub fn is_online(&self) -> (r: bool)
        ensures
            r == (self.online_status is Online),
    {
        matches!(self.online_status, ChargeChannelOnlineStatus::Online)
    }

    /// Folds one round of power-monitor readings into the snapshot.  A
    /// reading the monitor could not convert (`None`) leaves the previous
    /// value in place.
    pub fn apply_ina226_reading(
        &mut self,
        millivolts: u64,
        amps: Option<u64>,
        watts: Option<u64>,
    )
        ensures
            final(self).online_status == old(self).online_status,
            final(self).current_channel_state == (ChargeChannelSeriesItem {
                millivolts: millivolts,
                amps: if amps is Some {
                    amps->0
                } else {
                    old(self).current_channel_state.amps
                },
                watts: if watts is Some {
                    watts->0
                } else {
                    old(self).current_channel_state.watts
                },
                ..old(self).current_channel_state
            }),
    {
        self.current_channel_state.millivolts = millivolts;
        if let Some(a) = amps {
            self.current_channel_state.amps = a;
        }
        if let Some(w) = watts {
            self.current_channel_state.watts = w;
        }
    }

    /// Folds the controller's limit registers into the snapshot.
    pub fn apply_sw3526_limits(&mut self, limit_watts: u8, buck_output_millivolts: u16)
        ensures
            final(self).online_status == old(self).online_status,
            final(self).current_channel_state == (ChargeChannelSeriesItem {
                limit_watts: limit_watts,
                buck_output_millivolts: buck_output_millivolts,
                ..old(self).current_channel_state
            }),
    {
        self.current_channel_state.limit_watts = limit_watts;
        self.current_channel_state.buck_output_millivolts = buck_output_millivolts;
    }

    /// Folds the controller's status registers into the snapshot.
    pub fn apply_sw3526_status(
        &mut self,
        protocol: u8,
        system_status: u8,
        abnormal_case: u8,
        buck_output_limit_milliamps: u16,
    )
        ensures
            final(self).online_status == old(self).online_status,
            final(self).current_channel_state == (ChargeChannelSeriesItem {
                protocol: protocol,
                system_status: system_status,
                abnormal_case: abnormal_case,
                buck_output_limit_milliamps: buck_output_limit_milliamps,
                ..old(self).current_channel_state
            }),
    {
        self.current_channel_state.protocol = protocol;
        self.current_channel_state.system_status = system_status;
        self.current_channel_state.abnormal_case = abnormal_case;
        self.current_channel_state.buck_output_limit_milliamps = buck_output_limit_milliamps;
    }

    /// Decides how a poll cycle ends, given what the bus returned: the
    /// status gate first, then the power-monitor phase, then the race of the
    /// ticker against the controller read.  A snapshot is published exactly
    /// when the channel was fully online and every phase completed.
    pub fn poll_once_outcome(&self, ina226_ok: bool, ticker_won: bool, sw3526_ok: bool) -> (r:
        PollCycleOutcome)
        ensures
            r == spec_poll_once_outcome(self.online_status, ina226_ok, ticker_won, sw3526_ok),
    {
        if !self.is_online() {
            PollCycleOutcome::Skipped
        } else if !ina226_ok {
            PollCycleOutcome::INA226Failed
        } else if ticker_won {
            PollCycleOutcome::Abandoned
        } else if !sw3526_ok {
            PollCycleOutcome::SW3526Failed
        } else {
            PollCycleOutcome::Published
        }
    }
}

/// After an init pass records both probe results, the online status holds
/// exactly the bits whose probes succeeded, and it is `Online` if and only
/// if both succeeded — whatever status the channel started from.
pub proof fn lemma_online_status_is_or_of_probes(
    start: ChargeChannelOnlineStatus,
    ina226_ok: bool,
    sw3526_ok: bool,
)
    ensures
        ({
            let after_sw = ChargeChannelOnlineStatus::spec_from_bits(
                start.has_ina226(),
                sw3526_ok,
            );
            let after_both = ChargeChannelOnlineStatus::spec_from_bits(
                ina226_ok,
                after_sw.has_sw3526(),
            );
            &&& after_both.has_ina226() == ina226_ok
            &&& after_both.has_sw3526() == sw3526_ok
            &&& (after_both is Online <==> ina226_ok && sw3526_ok)
        }),
{
}

/// A poll cycle of a channel that is not fully online is skipped: it issues
/// no bus transaction and publishes nothing, whatever the bus would have
/// returned.
pub proof fn lemma_poll_skips_unless_online(
    status: ChargeChannelOnlineStatus,
    ina226_ok: bool,
    ticker_won: bool,
    sw3526_ok: bool,
)
    requires
        !(status is Online),
    ensures
        spec_poll_once_outcome(status, ina226_ok, ticker_won, sw3526_ok) is Skipped,
{
}

/// If the cycle's ticker fires before the controller read completes, the
/// cycle is abandoned: no snapshot is published.
pub proof fn lemma_ticker_timeout_publishes_nothing(
    status: ChargeChannelOnlineStatus,
    ina226_ok: bool,
    sw3526_ok: bool,
)
    ensures
        !(spec_poll_once_outcome(status, ina226_ok, true, sw3526_ok) is Published),
{
}

} // verus!

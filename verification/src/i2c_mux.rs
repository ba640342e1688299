//! The mux arbitrator: routing of the four logical charging channels over
//! two cascaded four-port multiplexer chips, gated by which chips answered
//! their start-up probe.
//!
//! The chips themselves sit on the bus and are written by the caller; which
//! ports each select must set — and which chips must not be written at all
//! — is decided here.

use vstd::prelude::*;

verus! {

/// One of the four logical charging channels.
#[derive(Debug, Clone, Copy, PartialEq, Eq, Structural)]
pub enum ChargeChannelIndex {
    Ch0,
    Ch1,
    Ch2,
    Ch3,
}

impl ChargeChannelIndex {
    /// The channel's number, 0 to 3.
    pub open spec fn spec_to_u8(self) -> u8 {
        match self {
            ChargeChannelIndex::Ch0 => 0,
            ChargeChannelIndex::Ch1 => 1,
            ChargeChannelIndex::Ch2 => 2,
            ChargeChannelIndex::Ch3 => 3,
        }
    }

    /// The channel's number, 0 to 3.
    pub fn to_u8(self) -> (r: u8)
        ensures
            r == self.spec_to_u8(),
    {
        match self {
            ChargeChannelIndex::Ch0 => 0,
            ChargeChannelIndex::Ch1 => 1,
            ChargeChannelIndex::Ch2 => 2,
            ChargeChannelIndex::Ch3 => 3,
        }
    }

    /// Whether the first mux chip owns this channel; otherwise the second
    /// does.
    pub open spec fn owned_by_mux_0(self) -> bool {
        self is Ch0 || self is Ch2
    }
}

/// A port setting of one four-port mux chip: one downstream port, or all
/// ports disconnected.
#[derive(Debug, Clone, Copy, PartialEq, Eq, Structural)]
pub enum MuxPort {
    Ch0,
    Ch1,
    Ch2,
    Ch3,
    Disconnected,
}

/// The pair of port settings — first chip's, second chip's — that routes
/// the bus to a logical channel.  Each channel activates exactly one port
/// of its owning chip and disconnects the other chip.
pub open spec fn spec_route(channel: ChargeChannelIndex) -> (MuxPort, MuxPort) {
    match channel {
        ChargeChannelIndex::Ch0 => (MuxPort::Ch0, MuxPort::Disconnected),
        ChargeChannelIndex::Ch1 => (MuxPort::Disconnected, MuxPort::Ch1),
        ChargeChannelIndex::Ch2 => (MuxPort::Ch1, MuxPort::Disconnected),
        ChargeChannelIndex::Ch3 => (MuxPort::Disconnected, MuxPort::Ch0),
    }
}

/// The writes one `select` issues: a setting for each chip that is online,
/// nothing for a chip that is not.
#[derive(Debug, Clone, Copy, PartialEq, Eq, Structural)]
pub struct SelectPlan {
    pub mux_0_write: Option<MuxPort>,
    pub mux_1_write: Option<MuxPort>,
}

/// The verified state of the mux arbitrator: which of the two chips
/// answered the start-up probe.
#[derive(Debug, Clone, Copy, PartialEq, Eq, Structural)]
pub struct I2cMux {
    pub mux_0_online: bool,
    pub mux_1_online: bool,
}

impl I2cMux {
    /// A fresh arbitrator: nothing probed yet, both chips assumed absent.
    pub fn new() -> (r: Self)
        ensures
            !r.mux_0_online,
            !r.mux_1_online,
    {
        I2cMux { mux_0_online: false, mux_1_online: false }
    }

    /// Records the start-up probe of each chip.  A chip's absence is
    /// recorded, not fatal: routing through the other chip stays possible.
    pub fn apply_probe_results(&mut self, mux_0_ok: bool, mux_1_ok: bool)
        ensures
            *final(self) == (I2cMux { mux_0_online: mux_0_ok, mux_1_online: mux_1_ok }),
    {
        self.mux_0_online = mux_0_ok;
        self.mux_1_online = mux_1_ok;
    }

    /// The writes that select the given channel: each online chip gets its
    /// setting from the route, an offline chip is silently skipped.  The
    /// plan always exists — a missing chip never aborts routing.
    pub fn select_plan(&self, channel: ChargeChannelIndex) -> (r: SelectPlan)
        ensures
            r.mux_0_write == (if self.mux_0_online {
                Some(spec_route(channel).0)
            } else {
                None::<MuxPort>
            }),
            r.mux_1_write == (if self.mux_1_online {
                Some(spec_route(channel).1)
            } else {
                None::<MuxPort>
            }),
    {
        let (setting_0, setting_1): (MuxPort, MuxPort) = match channel {
            ChargeChannelIndex::Ch0 => (MuxPort::Ch0, MuxPort::Disconnected),
            ChargeChannelIndex::Ch1 => (MuxPort::Disconnected, MuxPort::Ch1),
            ChargeChannelIndex::Ch2 => (MuxPort::Ch1, MuxPort::Disconnected),
            ChargeChannelIndex::Ch3 => (MuxPort::Disconnected, MuxPort::Ch0),
        };
        SelectPlan {
            mux_0_write: if self.mux_0_online {
                Some(setting_0)
            } else {
                None
            },
            mux_1_write: if self.mux_1_online {
                Some(setting_1)
            } else {
                None
            },
        }
    }

    /// Whether the chip owning the given channel answered its probe: the
    /// gate for attempting that channel's init.
    pub fn get_channel_available(&self, channel: ChargeChannelIndex) -> (r: bool)
        ensures
            r == (if channel.owned_by_mux_0() {
                self.mux_0_online
            } else {
                self.mux_1_online
            }),
    {
        match channel {
            ChargeChannelIndex::Ch0 => self.mux_0_online,
            ChargeChannelIndex::Ch1 => self.mux_1_online,
            ChargeChannelIndex::Ch2 => self.mux_0_online,
            ChargeChannelIndex::Ch3 => self.mux_1_online,
        }
    }
}

/// Selecting a channel whose owning chip was marked unavailable at probe
/// time issues no write to that chip, while the other chip — if online —
/// still receives its setting: the select succeeds for it.
pub proof fn lemma_select_skips_unavailable_chip(m: I2cMux, channel: ChargeChannelIndex)
    ensures
        ({
            let plan = SelectPlan {
                mux_0_write: if m.mux_0_online {
                    Some(spec_route(channel).0)
                } else {
                    None::<MuxPort>
                },
                mux_1_write: if m.mux_1_online {
                    Some(spec_route(channel).1)
                } else {
                    None::<MuxPort>
                },
            };
            &&& channel.owned_by_mux_0() && !m.mux_0_online ==> plan.mux_0_write is None
            &&& !channel.owned_by_mux_0() && !m.mux_1_online ==> plan.mux_1_write is None
            &&& m.mux_0_online ==> plan.mux_0_write == Some(spec_route(channel).0)
            &&& m.mux_1_online ==> plan.mux_1_write == Some(spec_route(channel).1)
        }),
{
}

} // verus!

//! The safety protector: the input-rail state, the per-cycle telemetry
//! computation, and the retry state machine of the protector loop.
//!
//! The two temperature sensors, the input power monitor and the rail GPIO
//! are driven by the caller; every decision taken on their readings — the
//! rail state, the published snapshot, and when to re-initialise — is made
//! here.

use vstd::prelude::*;

use crate::bus::ProtectorSeriesItem;

verus! {

/// The protector re-initialises its devices after this many consecutive
/// failed poll cycles.
pub const MAX_FAIL_TIMES: u8 = 3;

/// IEEE-754 bit pattern of the default temperature hysteresis threshold,
/// 60 degrees Celsius as a 32-bit float.
pub const DEFAULT_HYSTERESIS_BITS: u32 = 0x4270_0000;

/// IEEE-754 bit pattern of the default over-temperature shutdown threshold,
/// 70 degrees Celsius as a 32-bit float.
pub const DEFAULT_OVER_SHUTDOWN_BITS: u32 = 0x428c_0000;

/// State of the upstream input rail.
#[derive(Debug, Clone, Copy, PartialEq, Eq, Structural)]
pub enum VinState {
    /// Rail enabled and healthy.
    Normal,
    /// Rail disabled by a remote or configured override.
    Shutdown,
    /// Rail disabled because a local safety threshold tripped.
    Protection,
}

impl VinState {
    /// The wire code of the state.
    pub open spec fn spec_to_u8(self) -> u8 {
        match self {
            VinState::Normal => 0,
            VinState::Shutdown => 1,
            VinState::Protection => 2,
        }
    }

    /// The state a wire code denotes.
    pub open spec fn spec_from_u8(value: u8) -> Self
        recommends
            value <= 2,
    {
        if value == 0 {
            VinState::Normal
        } else if value == 1 {
            VinState::Shutdown
        } else {
            VinState::Protection
        }
    }

    /// Encodes the state as its wire code.
    pub fn to_u8(self) -> (r: u8)
        ensures
            r == self.spec_to_u8(),
            r <= 2,
    {
        match self {
            VinState::Normal => 0,
            VinState::Shutdown => 1,
            VinState::Protection => 2,
        }
    }

    /// Decodes a wire code.  Codes above 2 denote no state, so they are
    /// rejected rather than folded into one.
    pub fn from_u8(value: u8) -> (r: Self)
        requires
            value <= 2,
        ensures
            r == Self::spec_from_u8(value),
    {
        if value == 0 {
            VinState::Normal
        } else if value == 1 {
            VinState::Shutdown
        } else {
            VinState::Protection
        }
    }
}

/// Thresholds written to the two temperature sensors at init, held as
/// IEEE-754 bit patterns of 32-bit floats: the values pass through to the
/// sensor chips unchanged.
#[derive(Debug, Clone, Copy, PartialEq, Eq, Structural)]
pub struct TemperatureConfig {
    pub hysteresis: u32,
    pub over_shutdown: u32,
}

impl TemperatureConfig {
    /// The default thresholds: hysteresis at 60 C, shutdown at 70 C.
    pub open spec fn spec_default() -> Self {
        TemperatureConfig {
            hysteresis: DEFAULT_HYSTERESIS_BITS,
            over_shutdown: DEFAULT_OVER_SHUTDOWN_BITS,
        }
    }
}

impl Default for TemperatureConfig {
    fn default() -> (r: Self)
        ensures
            r == Self::spec_default(),
    {
        TemperatureConfig {
            hysteresis: DEFAULT_HYSTERESIS_BITS,
            over_shutdown: DEFAULT_OVER_SHUTDOWN_BITS,
        }
    }
}

/// What the caller must do to the rail GPIO after a rail decision.
#[derive(Debug, Clone, Copy, PartialEq, Eq, Structural)]
pub enum VinPinAction {
    /// Drive the pin open-drain low: the rail is cut.
    DriveOpenDrainLow,
    /// Release the pin to a floating input: the rail may come up.
    ReleaseToInput,
}

/// One cycle's readings, gathered by the caller from the sensors, the
/// power monitor and the rail GPIO.  Temperatures are IEEE-754 bit patterns
/// of 32-bit floats; the power readings are bit patterns of 64-bit floats.
/// A monitor reading that could not be converted is `None`.
#[derive(Debug, Clone, Copy, PartialEq, Eq, Structural)]
pub struct ProtectorReading {
    pub temperature_0: u32,
    pub temperature_1: u32,
    pub millivolts: u64,
    pub amps: Option<u64>,
    pub watts: Option<u64>,
    /// Whether the rail GPIO reads electrically high.
    pub vin_pin_high: bool,
}

/// Negation of a 64-bit IEEE-754 float, on its bit pattern: the sign bit
/// flips, nothing else moves.
pub open spec fn spec_f64_bits_neg(bits: u64) -> u64 {
    bits ^ 0x8000_0000_0000_0000
}

/// The rail state the protector publishes: a recorded shutdown override
/// wins; otherwise the state is read back from the pin's electrical level.
pub open spec fn spec_vin_state(shutdown: bool, vin_pin_high: bool) -> VinState {
    if shutdown {
        VinState::Shutdown
    } else if vin_pin_high {
        VinState::Normal
    } else {
        VinState::Protection
    }
}

/// The verified core of the protector: the sensor thresholds, the snapshot
/// being accumulated, and the recorded shutdown override.
#[derive(Debug, Clone, Copy, PartialEq, Eq, Structural)]
pub struct Protector {
    pub temperature_config: TemperatureConfig,
    pub current_state: ProtectorSeriesItem,
    pub shutdown: bool,
}

/// The core after an override message: `Normal` releases the rail, any
/// other override records a shutdown.
pub open spec fn spec_apply_vin_override(p: Protector, message: VinState) -> Protector {
    Protector { shutdown: !(message is Normal), ..p }
}

/// The snapshot one telemetry cycle produces from the given readings and
/// the current shutdown record.
pub open spec fn spec_run_task_once(p: Protector, reading: ProtectorReading) -> ProtectorSeriesItem {
    ProtectorSeriesItem {
        temperature_0: reading.temperature_0,
        temperature_1: reading.temperature_1,
        millivolts: reading.millivolts,
        amps: if reading.amps is Some {
            spec_f64_bits_neg(reading.amps->0)
        } else {
            p.current_state.amps
        },
        watts: if reading.watts is Some {
            reading.watts->0
        } else {
            p.current_state.watts
        },
        vin_status: spec_vin_state(p.shutdown, reading.vin_pin_high),
    }
}

impl Protector {
    /// A fresh protector with the default thresholds: rail not overridden,
    /// snapshot zeroed.
    pub fn new() -> (r: Self)
        ensures
            r.temperature_config == TemperatureConfig::spec_default(),
            r.current_state == ProtectorSeriesItem::spec_default(),
            !r.shutdown,
    {
        Self::new_with_config(Default::default())
    }

    /// A fresh protector with the given sensor thresholds.
    pub fn new_with_config(config: TemperatureConfig) -> (r: Self)
        ensures
            r.temperature_config == config,
            r.current_state == ProtectorSeriesItem::spec_default(),
            !r.shutdown,
    {
        Protector {
            temperature_config: config,
            current_state: ProtectorSeriesItem::new_zeroed(),
            shutdown: false,
        }
    }

    /// Records a shutdown override and cuts the rail: the caller must apply
    /// the returned pin action.
    pub fn turn_off_vin(&mut self) -> (r: VinPinAction)
        ensures
            *final(self) == (Protector { shutdown: true, ..*old(self) }),
            r is DriveOpenDrainLow,
    {
        self.shutdown = true;
        VinPinAction::DriveOpenDrainLow
    }

    /// Clears the shutdown override and releases the rail: the caller must
    /// apply the returned pin action.
    pub fn turn_on_vin(&mut self) -> (r: VinPinAction)
        ensures
            *final(self) == (Protector { shutdown: false, ..*old(self) }),
            r is ReleaseToInput,
    {
        self.shutdown = false;
        VinPinAction::ReleaseToInput
    }

    /// Applies a remote override message: `Normal` releases the rail, any
    /// other message cuts it.
    pub fn apply_vin_override(&mut self, message: VinState) -> (r: VinPinAction)
        ensures
            *final(self) == spec_apply_vin_override(*old(self), message),
            r is ReleaseToInput <==> message is Normal,
    {
        match message {
            VinState::Normal => self.turn_on_vin(),
            _ => self.turn_off_vin(),
        }
    }

    /// Folds one cycle's readings into the snapshot and returns the value
    /// to publish.  The input current is negated (sign bit flipped) to
    /// represent power drawn from the source; a reading the monitor could
    /// not convert keeps its previous value; the published rail state is
    /// recomputed from the shutdown record and the pin level.
    pub fn run_task_once(&mut self, reading: &ProtectorReading) -> (r: ProtectorSeriesItem)
        ensures
            final(self).current_state == spec_run_task_once(*old(self), *reading),
            final(self).shutdown == old(self).shutdown,
            final(self).temperature_config == old(self).temperature_config,
            r == final(self).current_state,
    {
        self.current_state.temperature_0 = reading.temperature_0;
        self.current_state.temperature_1 = reading.temperature_1;
        self.current_state.millivolts = reading.millivolts;
        if let Some(amps) = reading.amps {
            self.current_state.amps = amps ^ 0x8000_0000_0000_0000;
        }
        if let Some(watts) = reading.watts {
            self.current_state.watts = watts;
        }
        self.current_state.vin_status = self.compute_vin_state(reading.vin_pin_high);
        self.current_state
    }

    /// The rail state for the given pin level under the current shutdown
    /// record.
    pub fn compute_vin_state(&self, vin_pin_high: bool) -> (r: VinState)
        ensures
            r == spec_vin_state(self.shutdown, vin_pin_high),
    {
        if self.shutdown {
            VinState::Shutdown
        } else if vin_pin_high {
            VinState::Normal
        } else {
            VinState::Protection
        }
    }
}

/// Phase of the protector loop: devices needing (re-)initialisation, or
/// polling normally.
#[derive(Debug, Clone, Copy, PartialEq, Eq, Structural)]
pub enum ProtectorPhase {
    NeedInit,
    Running,
}

/// What the protector loop does next in a given state.
#[derive(Debug, Clone, Copy, PartialEq, Eq, Structural)]
pub enum ProtectorLoopAction {
    /// Configure the sensors and the power monitor.
    Init,
    /// Race a tick, a telemetry read and an override receive.
    Poll,
}

/// One outcome of the raced poll of the protector loop.
#[derive(Debug, Clone, Copy, PartialEq, Eq, Structural)]
pub enum ProtectorPollEvent {
    /// The tick fired before the telemetry read completed.
    TickTimeout,
    /// The telemetry read completed and a snapshot was published.
    ReadOk,
    /// The telemetry read failed with a bus error.
    ReadErr,
    /// A remote rail override arrived.
    VinOverride(VinState),
}

/// The retry state of the protector loop: its phase and the count of
/// consecutive failed poll cycles.
#[derive(Debug, Clone, Copy, PartialEq, Eq, Structural)]
pub struct ProtectorLoopState {
    pub phase: ProtectorPhase,
    pub fail_times: u8,
}

impl ProtectorLoopState {
    /// The state is well formed: the fail counter stays under its budget
    /// while running and rests at zero while re-initialising.
    pub open spec fn wf(self) -> bool {
        &&& self.phase is Running ==> self.fail_times < MAX_FAIL_TIMES
        &&& self.phase is NeedInit ==> self.fail_times == 0
    }

    /// A fresh loop, about to initialise.
    pub fn new() -> (r: Self)
        ensures
            r.phase is NeedInit,
            r.fail_times == 0,
            r.wf(),
    {
        ProtectorLoopState { phase: ProtectorPhase::NeedInit, fail_times: 0 }
    }

    /// What the loop does next: initialise until an init succeeds, then
    /// poll.
    pub fn next_action(&self) -> (r: ProtectorLoopAction)
        ensures
            r is Init <==> self.phase is NeedInit,
            r is Poll <==> self.phase is Running,
    {
        match self.phase {
            ProtectorPhase::NeedInit => ProtectorLoopAction::Init,
            ProtectorPhase::Running => ProtectorLoopAction::Poll,
        }
    }

    /// Records the outcome of an init attempt: success starts polling with
    /// a fresh fail budget, failure waits for the next tick and retries.
    pub fn apply_init_result(&mut self, init_ok: bool)
        requires
            old(self).phase is NeedInit,
            old(self).wf(),
        ensures
            *final(self) == spec_apply_init_result(*old(self), init_ok),
            final(self).wf(),
    {
        if init_ok {
            self.phase = ProtectorPhase::Running;
        }
        self.fail_times = 0;
    }

    /// Records one raced poll outcome.  A timeout or a read error spends
    /// one unit of the fail budget; exhausting the budget sends the loop
    /// back to initialisation.  A successful read or an override restores
    /// the full budget.
    pub fn apply_poll_event(&mut self, event: ProtectorPollEvent)
        requires
            old(self).phase is Running,
            old(self).wf(),
        ensures
            *final(self) == spec_apply_poll_event(*old(self), event),
            final(self).wf(),
    {
        match event {
            ProtectorPollEvent::TickTimeout | ProtectorPollEvent::ReadErr => {
                let failures = self.fail_times + 1;
                if failures >= MAX_FAIL_TIMES {
                    self.phase = ProtectorPhase::NeedInit;
                    self.fail_times = 0;
                } else {
                    self.fail_times = failures;
                }
            },
            ProtectorPollEvent::ReadOk | ProtectorPollEvent::VinOverride(_) => {
                self.fail_times = 0;
            },
        }
    }
}

/// The loop state after an init attempt: see
/// [`ProtectorLoopState::apply_init_result`].
pub open spec fn spec_apply_init_result(s: ProtectorLoopState, init_ok: bool) -> ProtectorLoopState {
    if init_ok {
        ProtectorLoopState { phase: ProtectorPhase::Running, fail_times: 0 }
    } else {
        ProtectorLoopState { phase: ProtectorPhase::NeedInit, fail_times: 0 }
    }
}

/// The loop state after one raced poll outcome: see
/// [`ProtectorLoopState::apply_poll_event`].
pub open spec fn spec_apply_poll_event(
    s: ProtectorLoopState,
    event: ProtectorPollEvent,
) -> ProtectorLoopState {
    match event {
        ProtectorPollEvent::TickTimeout | ProtectorPollEvent::ReadErr => {
            if s.fail_times + 1 >= MAX_FAIL_TIMES {
                ProtectorLoopState { phase: ProtectorPhase::NeedInit, fail_times: 0 }
            } else {
                ProtectorLoopState { phase: s.phase, fail_times: (s.fail_times + 1) as u8 }
            }
        },
        ProtectorPollEvent::ReadOk | ProtectorPollEvent::VinOverride(_) => {
            ProtectorLoopState { phase: s.phase, fail_times: 0 }
        },
    }
}

/// A poll outcome that spends fail budget: a timeout or a read error.
pub open spec fn is_failure_event(event: ProtectorPollEvent) -> bool {
    event is TickTimeout || event is ReadErr
}

/// After exactly `MAX_FAIL_TIMES` consecutive failures of the raced poll,
/// and not before, the loop returns to the init phase, so its next action
/// is to initialise the devices again.
pub proof fn lemma_reinit_after_max_failures(
    s: ProtectorLoopState,
    e1: ProtectorPollEvent,
    e2: ProtectorPollEvent,
    e3: ProtectorPollEvent,
)
    requires
        s.phase is Running,
        s.fail_times == 0,
        is_failure_event(e1),
        is_failure_event(e2),
        is_failure_event(e3),
    ensures
        ({
            let s1 = spec_apply_poll_event(s, e1);
            let s2 = spec_apply_poll_event(s1, e2);
            let s3 = spec_apply_poll_event(s2, e3);
            &&& s1.phase is Running
            &&& s2.phase is Running
            &&& s3.phase is NeedInit
        }),
{
}

/// Once an override other than `Normal` has been received, the published
/// rail state is `Shutdown` whatever the GPIO level reads, and it stays so
/// through any number of telemetry cycles until a `Normal` override
/// arrives.
pub proof fn lemma_override_forces_shutdown(
    p: Protector,
    message: VinState,
    reading: ProtectorReading,
)
    requires
        !(message is Normal),
    ensures
        spec_apply_vin_override(p, message).shutdown,
        spec_run_task_once(spec_apply_vin_override(p, message), reading).vin_status is Shutdown,
        // telemetry cycles do not touch the override record, so the state
        // persists across them
        forall|q: Protector, r: ProtectorReading|
            q.shutdown ==> #[trigger] spec_run_task_once(q, r).vin_status is Shutdown,
        // only a Normal override releases the rail
        forall|q: Protector, m: VinState|
            (#[trigger] spec_apply_vin_override(q, m)).shutdown <==> !(m is Normal),
{
}

} // verus!

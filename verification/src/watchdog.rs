//! The watchdog supervisor: per-task liveness records, the timeout check,
//! and the restart backoff policy.
//!
//! Time is carried as milliseconds on a monotonic clock supplied by the
//! caller; the caller also performs the fatal system restart that a
//! detected timeout demands.

use vstd::prelude::*;

verus! {

/// A restart is suppressed while at least this many restarts happened
/// inside the backoff window.
pub const MAX_CONSECUTIVE_RESTARTS: u32 = 5;

/// Length of the restart backoff window, in milliseconds.
pub const BACKOFF_WINDOW_MS: u64 = 30000;

/// The timeout stretches to at most this multiple of the base timeout.
pub const MAX_TIMEOUT_MULTIPLIER: u32 = 5;

/// How often the watchdog checks for timeouts, in milliseconds.
pub const CHECK_INTERVAL_MS: u64 = 500;

/// After this many consecutive checks without a timeout the restart
/// counter is cleared: one minute of stable running.
pub const STABLE_TICKS_TO_RESET: u32 = 120;

/// The long-running loops the watchdog supervises.
#[derive(Debug, Clone, Copy, PartialEq, Eq, Structural)]
pub enum WatchedTask {
    Protector,
    ChargeChannel,
}

/// Liveness record of one watched task.
#[derive(Debug, Clone, Copy, PartialEq, Eq, Structural)]
pub struct TaskStatus {
    /// When the task last proved liveness, in clock milliseconds.
    pub last_feed_time: u64,
    pub is_active: bool,
    /// How many timeouts have been declared against the task.
    pub timeout_count: u32,
}

/// The record after a feed: the clock restarts from the moment of the
/// feed and the task counts as active.
pub open spec fn spec_feed(st: TaskStatus, now: u64) -> TaskStatus {
    TaskStatus { last_feed_time: now, is_active: true, ..st }
}

/// Whether a task has stalled: it is active and has not fed for strictly
/// longer than the allowed timeout.
pub open spec fn spec_is_timeout(st: TaskStatus, now: u64, timeout_duration: u64) -> bool
    recommends
        now >= st.last_feed_time,
{
    st.is_active && now - st.last_feed_time > timeout_duration
}

impl TaskStatus {
    /// A fresh record: fed now, active, no timeouts yet.
    pub fn new(now: u64) -> (r: Self)
        ensures
            r == (TaskStatus { last_feed_time: now, is_active: true, timeout_count: 0 }),
    {
        TaskStatus { last_feed_time: now, is_active: true, timeout_count: 0 }
    }

    /// Proves liveness: resets the task's timeout clock to the present
    /// moment.
    pub fn feed(&mut self, now: u64)
        ensures
            *final(self) == spec_feed(*old(self), now),
    {
        self.last_feed_time = now;
        self.is_active = true;
    }

    /// Whether the task has stalled for longer than `timeout_duration`.
    pub fn is_timeout(&self, now: u64, timeout_duration: u64) -> (r: bool)
        requires
            now >= self.last_feed_time,
        ensures
            r == spec_is_timeout(*self, now, timeout_duration),
    {
        self.is_active && now - self.last_feed_time > timeout_duration
    }

    /// Counts a declared timeout against the task.
    pub fn record_timeout(&mut self)
        requires
            old(self).timeout_count < u32::MAX,
        ensures
            *final(self) == (TaskStatus {
                timeout_count: (old(self).timeout_count + 1) as u32,
                ..*old(self)
            }),
    {
        self.timeout_count = self.timeout_count + 1;
    }
}

/// The watchdog's aggregate state: one liveness record per watched task,
/// the current (possibly stretched) timeout, and the restart history that
/// drives the backoff policy.
#[derive(Debug, Clone, Copy, PartialEq, Eq, Structural)]
pub struct WatchdogState {
    pub protector_status: TaskStatus,
    pub charge_channel_status: TaskStatus,
    /// The timeout currently enforced, in milliseconds.
    pub timeout_duration: u64,
    /// The configured timeout the stretched one returns to.
    pub base_timeout_duration: u64,
    pub consecutive_restarts: u32,
    /// When the last restart was recorded, if any.
    pub last_restart_time: Option<u64>,
}

impl WatchdogState {
    /// The state is well formed: the base timeout leaves room for the
    /// largest stretch, and the current timeout is one of its multiples.
    pub open spec fn wf(self) -> bool {
        &&& self.base_timeout_duration <= u64::MAX as int / MAX_TIMEOUT_MULTIPLIER as int
        &&& self.timeout_duration
            <= self.base_timeout_duration * MAX_TIMEOUT_MULTIPLIER
        &&& self.timeout_duration >= self.base_timeout_duration
    }

    /// The supplied clock reading is not earlier than any instant already
    /// recorded in the state.
    pub open spec fn clock_consistent(self, now: u64) -> bool {
        &&& now >= self.protector_status.last_feed_time
        &&& now >= self.charge_channel_status.last_feed_time
        &&& (self.last_restart_time matches Some(t) ==> now >= t)
    }

    /// The state [`WatchdogState::new`] builds.
    pub open spec fn new_spec(timeout_ms: u64, now: u64) -> WatchdogState {
        WatchdogState {
            protector_status: TaskStatus { last_feed_time: now, is_active: true, timeout_count: 0 },
            charge_channel_status: TaskStatus {
                last_feed_time: now,
                is_active: true,
                timeout_count: 0,
            },
            timeout_duration: timeout_ms,
            base_timeout_duration: timeout_ms,
            consecutive_restarts: 0,
            last_restart_time: None::<u64>,
        }
    }

    /// A fresh watchdog: both tasks fed now, the base timeout enforced,
    /// no restart history.
    pub fn new(timeout_ms: u64, now: u64) -> (r: Self)
        requires
            timeout_ms <= u64::MAX / 5,
        ensures
            r == Self::new_spec(timeout_ms, now),
            r.wf(),
    {
        WatchdogState {
            protector_status: TaskStatus::new(now),
            charge_channel_status: TaskStatus::new(now),
            timeout_duration: timeout_ms,
            base_timeout_duration: timeout_ms,
            consecutive_restarts: 0,
            last_restart_time: None,
        }
    }

    /// Records a feed from the given task; the other task's record does
    /// not move.
    pub fn feed_task(&mut self, task: WatchedTask, now: u64)
        ensures
            *final(self) == (match task {
                WatchedTask::Protector => WatchdogState {
                    protector_status: spec_feed(old(self).protector_status, now),
                    ..*old(self)
                },
                WatchedTask::ChargeChannel => WatchdogState {
                    charge_channel_status: spec_feed(old(self).charge_channel_status, now),
                    ..*old(self)
                },
            }),
    {
        match task {
            WatchedTask::Protector => self.protector_status.feed(now),
            WatchedTask::ChargeChannel => self.charge_channel_status.feed(now),
        }
    }

    /// Whether new timeout declarations are currently suppressed: too many
    /// restarts happened and the last one is still inside the backoff
    /// window.
    pub open spec fn spec_should_apply_backoff(self, now: u64) -> bool
        recommends
            self.clock_consistent(now),
    {
        &&& self.consecutive_restarts >= MAX_CONSECUTIVE_RESTARTS
        &&& self.last_restart_time matches Some(t) && now - t < BACKOFF_WINDOW_MS
    }

    /// See [`WatchdogState::spec_should_apply_backoff`].
    pub fn should_apply_backoff(&self, now: u64) -> (r: bool)
        requires
            self.clock_consistent(now),
        ensures
            r == self.spec_should_apply_backoff(now),
    {
        if self.consecutive_restarts >= MAX_CONSECUTIVE_RESTARTS {
            if let Some(last_restart) = self.last_restart_time {
                return now - last_restart < BACKOFF_WINDOW_MS;
            }
        }
        false
    }

    /// Which task, if any, a check at `now` declares timed out: none while
    /// the backoff applies; otherwise the protector is examined first, so
    /// one check declares at most one timeout.
    pub open spec fn spec_timed_out_task(self, now: u64) -> Option<WatchedTask>
        recommends
            self.clock_consistent(now),
    {
        if self.spec_should_apply_backoff(now) {
            None
        } else if spec_is_timeout(self.protector_status, now, self.timeout_duration) {
            Some(WatchedTask::Protector)
        } else if spec_is_timeout(self.charge_channel_status, now, self.timeout_duration) {
            Some(WatchedTask::ChargeChannel)
        } else {
            None
        }
    }

    /// Declares at most one timeout: the returned task's record gains one
    /// counted timeout; everything else, and the state under backoff, is
    /// left untouched.
    pub fn check_timeouts(&mut self, now: u64) -> (r: Option<WatchedTask>)
        requires
            old(self).clock_consistent(now),
            old(self).protector_status.timeout_count < u32::MAX,
            old(self).charge_channel_status.timeout_count < u32::MAX,
        ensures
            r == old(self).spec_timed_out_task(now),
            *final(self) == (match old(self).spec_timed_out_task(now) {
                Some(WatchedTask::Protector) => WatchdogState {
                    protector_status: TaskStatus {
                        timeout_count: (old(self).protector_status.timeout_count + 1) as u32,
                        ..old(self).protector_status
                    },
                    ..*old(self)
                },
                Some(WatchedTask::ChargeChannel) => WatchdogState {
                    charge_channel_status: TaskStatus {
                        timeout_count: (old(self).charge_channel_status.timeout_count + 1) as u32,
                        ..old(self).charge_channel_status
                    },
                    ..*old(self)
                },
                None => *old(self),
            }),
    {
        if self.should_apply_backoff(now) {
            return None;
        }
        if self.protector_status.is_timeout(now, self.timeout_duration) {
            self.protector_status.record_timeout();
            return Some(WatchedTask::Protector);
        }
        if self.charge_channel_status.is_timeout(now, self.timeout_duration) {
            self.charge_channel_status.record_timeout();
            return Some(WatchedTask::ChargeChannel);
        }
        None
    }

    /// Records a restart: the consecutive-restart counter grows, the
    /// restart instant is remembered, and from the third consecutive
    /// restart on the enforced timeout stretches to
    /// `min(restarts - 1, 5)` times the base timeout.
    pub fn record_restart(&mut self, now: u64)
        requires
            old(self).wf(),
            old(self).consecutive_restarts < u32::MAX,
        ensures
            final(self).consecutive_restarts == old(self).consecutive_restarts + 1,
            final(self).last_restart_time == Some(now),
            final(self).protector_status == old(self).protector_status,
            final(self).charge_channel_status == old(self).charge_channel_status,
            final(self).base_timeout_duration == old(self).base_timeout_duration,
            old(self).consecutive_restarts + 1 > 2 ==> final(self).timeout_duration
                == old(self).base_timeout_duration * (if old(self).consecutive_restarts < 5 {
                old(self).consecutive_restarts as int
            } else {
                5
            }),
            old(self).consecutive_restarts + 1 <= 2 ==> final(self).timeout_duration == old(
                self,
            ).timeout_duration,
            final(self).wf(),
    {
        self.consecutive_restarts = self.consecutive_restarts + 1;
        self.last_restart_time = Some(now);
        if self.consecutive_restarts > 2 {
            let multiplier: u32 = if self.consecutive_restarts - 1 < MAX_TIMEOUT_MULTIPLIER {
                self.consecutive_restarts - 1
            } else {
                MAX_TIMEOUT_MULTIPLIER
            };
            proof {
                let b = self.base_timeout_duration as int;
                let m = multiplier as int;
                assert(b * 1 <= b * m <= b * 5) by (nonlinear_arith)
                    requires
                        0 <= b,
                        1 <= m <= 5,
                ;
                assert(b * 5 <= (u64::MAX as int / 5) * 5) by (nonlinear_arith)
                    requires
                        0 <= b <= u64::MAX as int / 5,
                ;
            }
            self.timeout_duration = self.base_timeout_duration * (multiplier as u64);
        }
    }

    /// Clears the restart history after a sustained healthy period and
    /// restores the base timeout.
    pub fn reset_restart_counter(&mut self)
        requires
            old(self).wf(),
        ensures
            final(self).consecutive_restarts == 0,
            old(self).consecutive_restarts > 0 ==> final(self).timeout_duration == old(
                self,
            ).base_timeout_duration,
            old(self).consecutive_restarts == 0 ==> *final(self) == *old(self),
            final(self).protector_status == old(self).protector_status,
            final(self).charge_channel_status == old(self).charge_channel_status,
            final(self).base_timeout_duration == old(self).base_timeout_duration,
            final(self).last_restart_time == old(self).last_restart_time,
            final(self).wf(),
    {
        if self.consecutive_restarts > 0 {
            self.consecutive_restarts = 0;
            self.timeout_duration = self.base_timeout_duration;
        }
    }

    /// How long ago each task last fed, in milliseconds: the protector's
    /// then the charge channel's.
    pub fn get_status_info(&self, now: u64) -> (r: (u64, u64))
        requires
            self.clock_consistent(now),
        ensures
            r.0 == now - self.protector_status.last_feed_time,
            r.1 == now - self.charge_channel_status.last_feed_time,
    {
        (
            now - self.protector_status.last_feed_time,
            now - self.charge_channel_status.last_feed_time,
        )
    }
}

/// What one watchdog check asks of the caller.
#[derive(Debug, Clone, Copy, PartialEq, Eq, Structural)]
pub enum WatchdogTickAction {
    /// No timeout: keep running.
    Continue,
    /// The named task stalled: the caller must perform the fatal system
    /// restart.
    Restart(WatchedTask),
}

/// The periodic watchdog check loop: the aggregate state plus the count of
/// consecutive checks without a timeout.
#[derive(Debug, Clone, Copy, PartialEq, Eq, Structural)]
pub struct WatchdogMonitor {
    pub state: WatchdogState,
    pub stable_ticks: u32,
}

impl WatchdogMonitor {
    /// A fresh monitor over a fresh watchdog state.
    pub fn new(timeout_ms: u64, now: u64) -> (r: Self)
        requires
            timeout_ms <= u64::MAX / 5,
        ensures
            r.state == WatchdogState::new_spec(timeout_ms, now),
            r.stable_ticks == 0,
            r.state.wf(),
    {
        WatchdogMonitor { state: WatchdogState::new(timeout_ms, now), stable_ticks: 0 }
    }

    /// One periodic check.  A declared timeout is recorded as a restart
    /// and handed to the caller, which performs the fatal reset — that
    /// outcome is terminal, so each stall is detected once.  Otherwise the
    /// stable-tick counter advances, and after a full stable minute the
    /// restart history is cleared.
    pub fn tick(&mut self, now: u64) -> (r: WatchdogTickAction)
        requires
            old(self).state.wf(),
            old(self).state.clock_consistent(now),
            old(self).state.protector_status.timeout_count < u32::MAX,
            old(self).state.charge_channel_status.timeout_count < u32::MAX,
            old(self).state.consecutive_restarts < u32::MAX,
            old(self).stable_ticks < u32::MAX,
        ensures
            final(self).state.wf(),
            r == (match old(self).state.spec_timed_out_task(now) {
                Some(t) => WatchdogTickAction::Restart(t),
                None => WatchdogTickAction::Continue,
            }),
            // a timeout is recorded as a restart before the caller resets
            r matches WatchdogTickAction::Restart(t) ==> final(self).state.consecutive_restarts
                == old(self).state.consecutive_restarts + 1 && final(self).state.last_restart_time
                == Some(now),
            // under backoff no restart is declared
            old(self).state.spec_should_apply_backoff(now) ==> r is Continue,
            // quiet checks only advance the stable counter, until it clears
            // the restart history
            r is Continue && old(self).stable_ticks + 1 < STABLE_TICKS_TO_RESET ==> *final(self)
                == (WatchdogMonitor {
                state: old(self).state,
                stable_ticks: (old(self).stable_ticks + 1) as u32,
            }),
            r is Continue && old(self).stable_ticks + 1 >= STABLE_TICKS_TO_RESET ==> final(self).stable_ticks == 0 && final(self).state.consecutive_restarts == 0,
    {
        let timed_out = self.state.check_timeouts(now);
        match timed_out {
            Some(task) => {
                self.state.record_restart(now);
                WatchdogTickAction::Restart(task)
            },
            None => {
                let next_ticks = self.stable_ticks + 1;
                if next_ticks >= STABLE_TICKS_TO_RESET {
                    self.stable_ticks = 0;
                    self.state.reset_restart_counter();
                } else {
                    self.stable_ticks = next_ticks;
                }
                WatchdogTickAction::Continue
            },
        }
    }
}

/// Feeding a task resets its timeout clock to the moment of the feed:
/// afterwards the task counts as stalled exactly when strictly more than
/// the enforced timeout has passed without another feed.
pub proof fn lemma_feed_resets_clock(st: TaskStatus, feed_time: u64, now: u64, timeout: u64)
    requires
        now >= feed_time,
    ensures
        spec_feed(st, feed_time).last_feed_time == feed_time,
        now - feed_time <= timeout ==> !spec_is_timeout(spec_feed(st, feed_time), now, timeout),
        now - feed_time > timeout ==> spec_is_timeout(spec_feed(st, feed_time), now, timeout),
{
}

/// One check declares at most one timeout, and a stalled task is declared
/// exactly when the backoff does not suppress it.
pub proof fn lemma_one_detection_per_check(s: WatchdogState, now: u64)
    requires
        s.clock_consistent(now),
    ensures
        spec_is_timeout(s.protector_status, now, s.timeout_duration) && !s.spec_should_apply_backoff(
            now,
        ) ==> s.spec_timed_out_task(now) == Some(WatchedTask::Protector),
        s.spec_timed_out_task(now) is Some ==> !s.spec_should_apply_backoff(now),
        !spec_is_timeout(s.protector_status, now, s.timeout_duration) && !spec_is_timeout(
            s.charge_channel_status,
            now,
            s.timeout_duration,
        ) ==> s.spec_timed_out_task(now) is None,
{
}

/// Once five restarts have happened and the latest lies within the last
/// thirty seconds, a further timeout condition is suppressed — no restart
/// is declared — until the window has elapsed, after which detection
/// resumes.
pub proof fn lemma_backoff_suppresses_restart(s: WatchdogState, now: u64, later: u64)
    requires
        s.clock_consistent(now),
        s.consecutive_restarts >= MAX_CONSECUTIVE_RESTARTS,
        s.last_restart_time matches Some(t) && now - t < BACKOFF_WINDOW_MS && now >= t,
    ensures
        s.spec_timed_out_task(now) is None,
        (s.last_restart_time matches Some(t) && later >= t && later - t >= BACKOFF_WINDOW_MS)
            ==> !s.spec_should_apply_backoff(later),
{
}

} // verus!

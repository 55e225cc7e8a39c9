use vstd::prelude::*;
use crate::catalog::{texts, ShowMappings};
use crate::mode::{ModeView, TVModeStatus};
use crate::resolver::{choose_with_seed, fresh_seed, seeded_choice, seeded_index};
use crate::rpc::RpcError;

verus! {

/// Seconds between two polls of the player.
pub const SCHEDULER_INTERVAL_SECS: u64 = 5;

/// Consecutive failures from which the scheduler backs off.
pub const MAX_CONSECUTIVE_ERRORS: u32 = 5;

/// Seconds of the first backoff.
pub const ERROR_BACKOFF_BASE: u64 = 30;

/// The longest backoff, in seconds.
pub const MAX_BACKOFF: u64 = 300;

/// Two to the power `n`.
pub open spec fn pow2(n: nat) -> nat
    decreases n,
{
    if n == 0 {
        1
    } else {
        2 * pow2((n - 1) as nat)
    }
}

/// The backoff after `failures` consecutive failures, in seconds:
/// `min(30 * 2^(failures - 5), 300)` from five failures on, none before.
pub open spec fn backoff_after(failures: u32) -> Option<u64> {
    if failures >= MAX_CONSECUTIVE_ERRORS {
        let grown = ERROR_BACKOFF_BASE * pow2((failures - MAX_CONSECUTIVE_ERRORS) as nat);
        Some(if grown <= MAX_BACKOFF { grown as u64 } else { MAX_BACKOFF })
    } else {
        None
    }
}

/// Whether the failure with this count is logged: the first three in a
/// row, then every tenth.
pub open spec fn is_logged_failure(failures: u32) -> bool {
    failures <= 3 || failures % 10 == 0
}

/// From four on, a power of two is at least sixteen.
pub proof fn lemma_pow2_at_least_16(n: nat)
    requires
        n >= 4,
    ensures
        pow2(n) >= 16,
    decreases n,
{
    if n > 4 {
        lemma_pow2_at_least_16((n - 1) as nat);
    } else {
        reveal_with_fuel(pow2, 5);
    }
}

/// Each failure past the fifth doubles the backoff, up to its cap.
pub proof fn lemma_backoff_doubles(failures: u32)
    requires
        MAX_CONSECUTIVE_ERRORS <= failures < u32::MAX,
    ensures
        backoff_after((failures + 1) as u32) == Some(
            (if 2 * backoff_after(failures).unwrap() <= MAX_BACKOFF {
                2 * backoff_after(failures).unwrap()
            } else {
                MAX_BACKOFF as int
            }) as u64,
        ),
{
    let n = (failures - MAX_CONSECUTIVE_ERRORS) as nat;
    assert(pow2(n + 1) == 2 * pow2(n));
}

/// The scheduler's record of how its polls went; times are in seconds since
/// the epoch.
#[derive(Debug)]
pub struct SchedulerState {
    pub consecutive_errors: u32,
    pub last_error_time: Option<u64>,
    pub last_success_time: Option<u64>,
    /// Whether the backoff that the current count of failures calls for
    /// has been slept; the next attempt is then due.
    pub backoff_served: bool,
}

impl SchedulerState {
    /// No failure, no poll yet.
    pub fn new() -> (r: SchedulerState)
        ensures
            r.consecutive_errors == 0,
            r.last_error_time is None,
            r.last_success_time is None,
            !r.backoff_served,
    {
        SchedulerState {
            consecutive_errors: 0,
            last_error_time: None,
            last_success_time: None,
            backoff_served: false,
        }
    }

    /// A poll cycle succeeded at `now`.
    pub fn record_success(&mut self, now: u64)
        ensures
            final(self).consecutive_errors == 0,
            final(self).last_success_time == Some(now),
            final(self).last_error_time is None,
            !final(self).backoff_served,
    {
        self.consecutive_errors = 0;
        self.last_success_time = Some(now);
        self.last_error_time = None;
        self.backoff_served = false;
    }

    /// A poll cycle failed at `now`.
    pub fn record_error(&mut self, now: u64)
        ensures
            final(self).consecutive_errors == (if old(self).consecutive_errors == u32::MAX {
                u32::MAX
            } else {
                (old(self).consecutive_errors + 1) as u32
            }),
            final(self).last_error_time == Some(now),
            final(self).last_success_time == old(self).last_success_time,
            !final(self).backoff_served,
    {
        self.consecutive_errors = self.consecutive_errors.saturating_add(1);
        self.last_error_time = Some(now);
        self.backoff_served = false;
    }

    /// How long to back off before the next poll, in seconds, if at all.
    pub fn should_backoff(&self) -> (r: Option<u64>)
        ensures
            r == backoff_after(self.consecutive_errors),
    {
        if self.consecutive_errors >= MAX_CONSECUTIVE_ERRORS {
            let excess = self.consecutive_errors - MAX_CONSECUTIVE_ERRORS;
            if excess >= 4 {
                proof {
                    lemma_pow2_at_least_16(excess as nat);
                }
                Some(MAX_BACKOFF)
            } else {
                proof {
                    reveal_with_fuel(pow2, 4);
                }
                let factor: u64 = if excess == 0 {
                    1
                } else if excess == 1 {
                    2
                } else if excess == 2 {
                    4
                } else {
                    8
                };
                let grown: u64 = ERROR_BACKOFF_BASE * factor;
                assert(factor == pow2(excess as nat));
                Some(if grown <= MAX_BACKOFF { grown } else { MAX_BACKOFF })
            }
        } else {
            None
        }
    }

    /// Whether the failure just recorded is one to log.
    pub fn should_log_failure(&self) -> (r: bool)
        ensures
            r == is_logged_failure(self.consecutive_errors),
    {
        self.consecutive_errors <= 3 || self.consecutive_errors % 10 == 0
    }
}

/// What an iteration of the scheduler starts with.
#[derive(PartialEq, Eq, Structural, Clone, Copy, Debug)]
pub enum Plan {
    /// Sleep this many seconds and start over, doing no work; the attempt
    /// comes in the next iteration.
    Backoff(u64),
    /// The sleep timer has run out: turn the mode off and start over.
    ExpireTimer,
    /// The mode is off: the cycle succeeds; sleep the poll interval.
    Idle,
    /// Ask the player whether something is playing.
    CheckPlayer,
}

/// Whether the sleep timer of `mode` has run out by `now`.
pub open spec fn timer_expired(mode: ModeView, now: u64) -> bool {
    mode.sleep_timer matches Some(d) && d <= now
}

/// The plan for an iteration that starts at `now`, after `failures`
/// consecutive failures; `served` tells whether their backoff was slept.
pub open spec fn plan_for(failures: u32, served: bool, mode: ModeView, now: u64) -> Plan {
    match backoff_after(failures) {
        Some(secs) if !served => Plan::Backoff(secs),
        _ => if timer_expired(mode, now) {
            Plan::ExpireTimer
        } else if !mode.active {
            Plan::Idle
        } else {
            Plan::CheckPlayer
        },
    }
}

/// The first decision of an iteration, from a snapshot of the mode. A
/// backoff is marked as served; an idle cycle counts as a success at `now`;
/// otherwise the record is left as it is.
pub fn plan_iteration(health: &mut SchedulerState, mode: &TVModeStatus, now: u64) -> (r: Plan)
    ensures
        r == plan_for(old(health).consecutive_errors, old(health).backoff_served, mode@, now),
        match r {
            Plan::Backoff(_) => *final(health) == (SchedulerState {
                backoff_served: true,
                ..*old(health)
            }),
            Plan::Idle => *final(health) == (SchedulerState {
                consecutive_errors: 0,
                last_error_time: None,
                last_success_time: Some(now),
                backoff_served: false,
            }),
            _ => *final(health) == *old(health),
        },
{
    match health.should_backoff() {
        Some(secs) if !health.backoff_served => {
            health.backoff_served = true;
            return Plan::Backoff(secs);
        },
        _ => {},
    }
    if mode.sleep_timer_expired(now) {
        Plan::ExpireTimer
    } else if !mode.active() {
        health.record_success(now);
        Plan::Idle
    } else {
        Plan::CheckPlayer
    }
}

/// An expired sleep timer ends the mode in the next iteration that is not a
/// backoff, whatever the player is doing: the plan does not depend on it.
pub proof fn lemma_expired_timer_ends_mode(failures: u32, served: bool, mode: ModeView, now: u64)
    requires
        timer_expired(mode, now),
        failures < MAX_CONSECUTIVE_ERRORS || served,
    ensures
        plan_for(failures, served, mode, now) == Plan::ExpireTimer,
{
}

/// No backoff is longer than the cap, and every count of five failures or
/// more calls for one.
pub proof fn lemma_backoff_capped(failures: u32)
    ensures
        backoff_after(failures) matches Some(secs) ==> ERROR_BACKOFF_BASE <= secs <= MAX_BACKOFF,
        failures >= MAX_CONSECUTIVE_ERRORS <==> backoff_after(failures) is Some,
{
    if failures >= MAX_CONSECUTIVE_ERRORS {
        lemma_pow2_positive((failures - MAX_CONSECUTIVE_ERRORS) as nat);
    }
}

/// A power of two is at least one.
pub proof fn lemma_pow2_positive(n: nat)
    ensures
        pow2(n) >= 1,
    decreases n,
{
    if n > 0 {
        lemma_pow2_positive((n - 1) as nat);
    }
}

/// After a backoff has been slept, the next iteration makes its attempt:
/// with the mode on and no expired timer, it asks the player.
pub proof fn lemma_attempt_follows_backoff(failures: u32, mode: ModeView, now: u64)
    requires
        mode.active,
        !timer_expired(mode, now),
    ensures
        plan_for(failures, true, mode, now) == Plan::CheckPlayer,
{
}

/// What follows the answer of the player to the activity check.
#[derive(Debug)]
pub enum Decision {
    /// The check failed; it was counted.
    CheckFailed,
    /// Something is playing already; the cycle succeeded.
    AlreadyPlaying,
    /// The mode is on without a user who has shows: turn it off.
    ForceDisable,
    /// Resolve an episode of this show and play it.
    PlayShow(String),
}

/// The shows the mode's user has in `catalog`, where the mode names a user
/// whom the catalog lists.
pub open spec fn user_shows(mode: ModeView, catalog: ShowMappings) -> Option<Seq<Seq<char>>> {
    match mode.user {
        Some(u) => catalog.shows_for(u),
        None => None,
    }
}

/// Whether `after` and `r` are what the answer `check` to the activity check
/// made at `now` leads to, from the record `before`; `seed` seeds the choice
/// of a show.
pub open spec fn check_outcome(
    before: SchedulerState,
    after: SchedulerState,
    check: Result<bool, RpcError>,
    mode: ModeView,
    catalog: ShowMappings,
    seed: Seq<u8>,
    now: u64,
    r: Decision,
) -> bool {
    match check {
        Err(_) => {
            &&& r == Decision::CheckFailed
            &&& after.consecutive_errors == (if before.consecutive_errors == u32::MAX {
                u32::MAX
            } else {
                (before.consecutive_errors + 1) as u32
            })
            &&& after.last_error_time == Some(now)
            &&& after.last_success_time == before.last_success_time
            &&& !after.backoff_served
        },
        Ok(true) => {
            &&& r == Decision::AlreadyPlaying
            &&& after.consecutive_errors == 0
            &&& after.last_success_time == Some(now)
            &&& after.last_error_time is None
            &&& !after.backoff_served
        },
        Ok(false) => {
            &&& after == before
            &&& match user_shows(mode, catalog) {
                Some(shows) => if shows.len() == 0 {
                    r == Decision::ForceDisable
                } else {
                    &&& seeded_index(seed, shows.len()) < shows.len()
                    &&& r matches Decision::PlayShow(title) && Some(title@) == seeded_choice(shows, seed)
                },
                None => r == Decision::ForceDisable,
            }
        },
    }
}

/// Takes the answer to the activity check made at `now`; `seed` seeds the
/// choice of a show.
pub fn after_player_check(
    health: &mut SchedulerState,
    check: Result<bool, RpcError>,
    mode: &TVModeStatus,
    catalog: &ShowMappings,
    seed: [u8; 32],
    now: u64,
) -> (r: Decision)
    ensures
        check_outcome(*old(health), *final(health), check, mode@, *catalog, seed@, now, r),
{
    match check {
        Err(_) => {
            health.record_error(now);
            Decision::CheckFailed
        },
        Ok(true) => {
            health.record_success(now);
            Decision::AlreadyPlaying
        },
        Ok(false) => match mode.user() {
            None => Decision::ForceDisable,
            Some(user) => match catalog.get(user) {
                None => Decision::ForceDisable,
                Some(shows) => match choose_with_seed(shows.as_slice(), seed) {
                    None => Decision::ForceDisable,
                    Some(title) => {
                        proof {
                            let i = seeded_index(seed@, shows@.len()) as int;
                            assert(texts(shows@)[i] == shows@[i]@);
                        }
                        Decision::PlayShow(title.clone())
                    },
                },
            },
        },
    }
}

/// How long to sleep after an iteration that took `elapsed_ms`
/// milliseconds, so that polls keep the interval; zero once the iteration
/// took the whole interval.
pub fn remaining_interval_ms(elapsed_ms: u64) -> (r: u64)
    ensures
        r == (if elapsed_ms < SCHEDULER_INTERVAL_SECS * 1000 {
            SCHEDULER_INTERVAL_SECS * 1000 - elapsed_ms
        } else {
            0
        }),
{
    let interval: u64 = SCHEDULER_INTERVAL_SECS * 1000;
    if elapsed_ms < interval {
        interval - elapsed_ms
    } else {
        0
    }
}

/// Takes the answer to the activity check made at `now`, choosing the show
/// with a seed drawn fresh from the operating system's entropy; the outcome
/// is the one `after_player_check` gives for some seed.
pub fn decide_after_check(
    health: &mut SchedulerState,
    check: Result<bool, RpcError>,
    mode: &TVModeStatus,
    catalog: &ShowMappings,
    now: u64,
) -> (r: Decision)
    ensures
        exists|seed: Seq<u8>|
            seed.len() == 32 && check_outcome(
                *old(health),
                *final(health),
                check,
                mode@,
                *catalog,
                seed,
                now,
                r,
            ),
{
    let seed = fresh_seed();
    let r = after_player_check(health, check, mode, catalog, seed, now);
    assert(seed@.len() == 32);
    r
}

/// Counts the resolution and playback started by `PlayShow`, finished at
/// `now`: a success resets the count of failures, a failure adds one.
pub fn after_playback<E>(health: &mut SchedulerState, outcome: &Result<(), E>, now: u64)
    ensures
        match outcome {
            Ok(()) => *final(health) == (SchedulerState {
                consecutive_errors: 0,
                last_error_time: None,
                last_success_time: Some(now),
                backoff_served: false,
            }),
            Err(_) => *final(health) == (SchedulerState {
                consecutive_errors: if old(health).consecutive_errors == u32::MAX {
                    u32::MAX
                } else {
                    (old(health).consecutive_errors + 1) as u32
                },
                last_error_time: Some(now),
                backoff_served: false,
                ..*old(health)
            }),
        },
{
    match outcome {
        Ok(()) => health.record_success(now),
        Err(_) => health.record_error(now),
    }
}

} // verus!

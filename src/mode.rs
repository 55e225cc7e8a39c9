use vstd::prelude::*;
use crate::catalog::ShowMappings;

verus! {

/// What a `TVModeStatus` holds, in mathematical terms.
pub ghost struct ModeView {
    pub active: bool,
    pub user: Option<Seq<char>>,
    pub sleep_timer: Option<u64>,
}

/// The state with the mode off.
pub open spec fn disabled() -> ModeView {
    ModeView { active: false, user: None, sleep_timer: None }
}

/// The state that disabling `v` leaves: the disabled one, whatever `v` was.
pub open spec fn after_disable(v: ModeView) -> ModeView {
    disabled()
}

/// Disabling is idempotent: disabling the state that a disable left gives
/// that same state again.
pub proof fn lemma_disable_idempotent(v: ModeView)
    ensures
        after_disable(after_disable(v)) == after_disable(v),
        after_disable(v).wf(),
{
}

/// The lengths of sleep timer, in hours, that can be set.
pub open spec fn is_allowed_sleep_hours(hours: u32) -> bool {
    hours == 1 || hours == 2 || hours == 4 || hours == 8 || hours == 12
}

/// The deadline `hours` hours after `now`, in seconds, held at the largest
/// time that can be written.
pub open spec fn deadline_after(now: u64, hours: u32) -> u64 {
    if now + 3600 * hours <= u64::MAX {
        (now + 3600 * hours) as u64
    } else {
        u64::MAX
    }
}

/// Why a control operation was refused; the state is then left as it was.
#[derive(PartialEq, Eq, Structural, Clone, Copy, Debug)]
pub enum ModeError {
    /// The catalog does not list the user.
    UnknownUser,
    /// The catalog lists no show for the user.
    NoShowsForUser,
    /// The sleep timer can only be set to 1, 2, 4, 8 or 12 hours.
    InvalidSleepDuration,
    /// The operation needs the mode on.
    ModeNotActive,
    /// There is no sleep timer to clear.
    NoSleepTimer,
}

impl ModeView {
    /// A disabled mode has neither a user nor a sleep timer.
    pub open spec fn wf(self) -> bool {
        !self.active ==> self.user is None && self.sleep_timer is None
    }
}

/// The TV-mode record: whether the mode is on, for which user, and the
/// deadline of the sleep timer in seconds since the epoch.
#[derive(Debug)]
pub struct TVModeStatus {
    active: bool,
    user: Option<String>,
    sleep_timer: Option<u64>,
}

impl View for TVModeStatus {
    type V = ModeView;

    closed spec fn view(&self) -> ModeView {
        ModeView {
            active: self.active,
            user: match self.user {
                Some(u) => Some(u@),
                None => None,
            },
            sleep_timer: self.sleep_timer,
        }
    }
}

impl TVModeStatus {
    #[verifier::type_invariant]
    pub(crate) open spec fn inv(&self) -> bool {
        self@.wf()
    }

    /// The disabled state the process starts in.
    pub fn new() -> (r: TVModeStatus)
        ensures
            r@ == disabled(),
    {
        TVModeStatus { active: false, user: None, sleep_timer: None }
    }

    /// A copy of the whole state.
    pub fn snapshot(&self) -> (r: TVModeStatus)
        ensures
            r@ == self@,
            r@.wf(),
    {
        proof {
            use_type_invariant(self);
        }
        let user = match &self.user {
            Some(u) => Some(u.clone()),
            None => None,
        };
        TVModeStatus { active: self.active, user, sleep_timer: self.sleep_timer }
    }

    /// Whether the mode is on.
    pub fn active(&self) -> (r: bool)
        ensures
            r == self@.active,
    {
        self.active
    }

    /// The user the mode is on for.
    pub fn user(&self) -> (r: Option<&String>)
        ensures
            match r {
                Some(u) => self@.user == Some(u@),
                None => self@.user is None,
            },
    {
        match &self.user {
            Some(u) => Some(u),
            None => None,
        }
    }

    /// The deadline of the sleep timer, if one is set.
    pub fn sleep_timer(&self) -> (r: Option<u64>)
        ensures
            r == self@.sleep_timer,
    {
        self.sleep_timer
    }

    /// Turns the mode on for `user`, who must have shows in `catalog`;
    /// clears any sleep timer.
    pub fn enable(&mut self, catalog: &ShowMappings, user: &String) -> (r: Result<
        TVModeStatus,
        ModeError,
    >)
        ensures
            final(self)@.wf(),
            match catalog.shows_for(user@) {
                None => r == Err::<TVModeStatus, ModeError>(ModeError::UnknownUser) && final(self)@
                    == old(self)@,
                Some(shows) => if shows.len() == 0 {
                    r == Err::<TVModeStatus, ModeError>(ModeError::NoShowsForUser) && final(self)@
                        == old(self)@
                } else {
                    &&& final(self)@ == (ModeView {
                        active: true,
                        user: Some(user@),
                        sleep_timer: None,
                    })
                    &&& r matches Ok(s) && s@ == final(self)@
                },
            },
    {
        proof {
            use_type_invariant(&*self);
        }
        match catalog.get(user) {
            None => Err(ModeError::UnknownUser),
            Some(shows) => {
                if shows.len() == 0 {
                    Err(ModeError::NoShowsForUser)
                } else {
                    *self = TVModeStatus { active: true, user: Some(user.clone()), sleep_timer: None };
                    Ok(self.snapshot())
                }
            },
        }
    }

    /// Turns the mode off: no user, no sleep timer. Disabling a disabled
    /// state changes nothing.
    pub fn disable(&mut self) -> (r: TVModeStatus)
        ensures
            final(self)@ == after_disable(old(self)@),
            final(self)@.wf(),
            r@ == disabled(),
    {
        *self = TVModeStatus::new();
        TVModeStatus::new()
    }

    /// Sets the sleep timer to end `hours` hours after `now`.
    pub fn set_sleep_timer(&mut self, hours: u32, now: u64) -> (r: Result<TVModeStatus, ModeError>)
        ensures
            final(self)@.wf(),
            if !is_allowed_sleep_hours(hours) {
                r == Err::<TVModeStatus, ModeError>(ModeError::InvalidSleepDuration) && final(self)@
                    == old(self)@
            } else if !old(self)@.active {
                r == Err::<TVModeStatus, ModeError>(ModeError::ModeNotActive) && final(self)@
                    == old(self)@
            } else {
                &&& final(self)@ == (ModeView {
                    sleep_timer: Some(deadline_after(now, hours)),
                    ..old(self)@
                })
                &&& r matches Ok(s) && s@ == final(self)@
            },
    {
        proof {
            use_type_invariant(&*self);
        }
        if !(hours == 1 || hours == 2 || hours == 4 || hours == 8 || hours == 12) {
            return Err(ModeError::InvalidSleepDuration);
        }
        if !self.active {
            return Err(ModeError::ModeNotActive);
        }
        let deadline = now.saturating_add(3600 * (hours as u64));
        self.sleep_timer = Some(deadline);
        Ok(self.snapshot())
    }

    /// Removes the sleep timer; the mode must be on and a timer set.
    pub fn clear_sleep_timer(&mut self) -> (r: Result<TVModeStatus, ModeError>)
        ensures
            final(self)@.wf(),
            if !old(self)@.active {
                r == Err::<TVModeStatus, ModeError>(ModeError::ModeNotActive) && final(self)@
                    == old(self)@
            } else if old(self)@.sleep_timer is None {
                r == Err::<TVModeStatus, ModeError>(ModeError::NoSleepTimer) && final(self)@
                    == old(self)@
            } else {
                &&& final(self)@ == (ModeView { sleep_timer: None, ..old(self)@ })
                &&& r matches Ok(s) && s@ == final(self)@
            },
    {
        proof {
            use_type_invariant(&*self);
        }
        if !self.active {
            return Err(ModeError::ModeNotActive);
        }
        if self.sleep_timer.is_none() {
            return Err(ModeError::NoSleepTimer);
        }
        self.sleep_timer = None;
        Ok(self.snapshot())
    }

    /// Whether a sleep timer is set and its deadline has come by `now`.
    pub fn sleep_timer_expired(&self, now: u64) -> (r: bool)
        ensures
            r == (self@.sleep_timer matches Some(d) && d <= now),
    {
        match self.sleep_timer {
            Some(d) => d <= now,
            None => false,
        }
    }
}

} // verus!


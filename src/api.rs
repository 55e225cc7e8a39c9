use vstd::prelude::*;
use vstd::string::StringExecFns;
use crate::catalog::ShowMappings;
use crate::routing::{route, table_of, Endpoint, Method, Route};
use crate::mode::{is_allowed_sleep_hours, ModeError, ModeView, TVModeStatus};

verus! {

/// The users of the catalog with their shows, for the users listing.
#[derive(Debug)]
pub struct UsersResponse {
    pub show_mappings: Vec<(String, Vec<String>)>,
}

/// The answer of a control or status operation.
#[derive(Debug)]
pub struct StatusResponse {
    pub status: String,
    pub message: String,
    pub tv_mode: Option<TVModeStatus>,
    pub error_details: Option<String>,
}

/// The body of a request that turns the mode on.
#[derive(Debug)]
pub struct PlayRequest {
    pub sleep_timer_hours: Option<u32>,
}

/// The body of a request that sets the sleep timer.
#[derive(Debug)]
pub struct SleepTimerRequest {
    pub hours: u32,
}

impl StatusResponse {
    pub fn success(message: String, tv_mode: Option<TVModeStatus>) -> (r: StatusResponse)
        ensures
            r.status@ == "success"@,
            r.message == message,
            r.tv_mode == tv_mode,
            r.error_details is None,
    {
        StatusResponse { status: String::from_str("success"), message, tv_mode, error_details: None }
    }

    pub fn error(
        message: String,
        tv_mode: Option<TVModeStatus>,
        error_details: Option<String>,
    ) -> (r: StatusResponse)
        ensures
            r.status@ == "error"@,
            r.message == message,
            r.tv_mode == tv_mode,
            r.error_details == error_details,
    {
        StatusResponse { status: String::from_str("error"), message, tv_mode, error_details }
    }

    pub fn media_active(tv_mode: TVModeStatus) -> (r: StatusResponse)
        ensures
            r.status@ == "active"@,
            r.message@ == "Media is currently playing"@,
            r.tv_mode == Some(tv_mode),
            r.error_details is None,
    {
        StatusResponse {
            status: String::from_str("active"),
            message: String::from_str("Media is currently playing"),
            tv_mode: Some(tv_mode),
            error_details: None,
        }
    }

    pub fn media_inactive(tv_mode: TVModeStatus) -> (r: StatusResponse)
        ensures
            r.status@ == "inactive"@,
            r.message@ == "No media is currently playing"@,
            r.tv_mode == Some(tv_mode),
            r.error_details is None,
    {
        StatusResponse {
            status: String::from_str("inactive"),
            message: String::from_str("No media is currently playing"),
            tv_mode: Some(tv_mode),
            error_details: None,
        }
    }
}

/// The users listing: every user of the catalog with their shows, all in
/// ascending order.
pub fn get_users(catalog: &ShowMappings) -> (r: UsersResponse)
    ensures
        catalog.is_sorted_view(r.show_mappings@),
{
    UsersResponse { show_mappings: catalog.sorted_shows() }
}

/// The status report: the mode, and whether something plays, or why the
/// player could not be asked (`poll` holds the player's answer, or the
/// failure described).
pub fn get_status(tv_mode: TVModeStatus, poll: Result<bool, String>) -> (r: StatusResponse)
    ensures
        match poll {
            Ok(true) => {
                &&& r.status@ == "active"@
                &&& r.message@ == "Media is currently playing"@
                &&& r.tv_mode == Some(tv_mode)
                &&& r.error_details is None
            },
            Ok(false) => {
                &&& r.status@ == "inactive"@
                &&& r.message@ == "No media is currently playing"@
                &&& r.tv_mode == Some(tv_mode)
                &&& r.error_details is None
            },
            Err(details) => {
                &&& r.status@ == "error"@
                &&& r.message@ == "Unable to connect to media server"@
                &&& r.tv_mode == Some(tv_mode)
                &&& r.error_details == Some(details)
            },
        },
{
    match poll {
        Ok(true) => StatusResponse::media_active(tv_mode),
        Ok(false) => StatusResponse::media_inactive(tv_mode),
        Err(details) => StatusResponse::error(
            String::from_str("Unable to connect to media server"),
            Some(tv_mode),
            Some(details),
        ),
    }
}

/// The answer of the health check.
pub fn health_check() -> (r: StatusResponse)
    ensures
        r.status@ == "success"@,
        r.message@ == "API is healthy"@,
        r.tv_mode is None,
        r.error_details is None,
{
    StatusResponse::success(String::from_str("API is healthy"), None)
}

/// Whether a request to turn the mode on names no sleep timer, or one of
/// a length that can be set.
pub open spec fn names_valid_hours(request: Option<PlayRequest>) -> bool {
    match request {
        Some(PlayRequest { sleep_timer_hours: Some(h) }) => is_allowed_sleep_hours(h),
        _ => true,
    }
}

/// Turns the mode on for `user`, as `enable` does: the mode is on for the
/// user and no sleep timer is left. The user is checked first; a request
/// that names a sleep timer of a length that cannot be set is refused. A
/// refused request changes nothing; a timer is set by `set_sleep_timer`.
pub fn play_random_show(
    mode: &mut TVModeStatus,
    catalog: &ShowMappings,
    user: &String,
    request: Option<PlayRequest>,
) -> (r: Result<TVModeStatus, ModeError>)
    ensures
        final(mode)@.wf(),
        match catalog.shows_for(user@) {
            None => r == Err::<TVModeStatus, ModeError>(ModeError::UnknownUser) && final(mode)@
                == old(mode)@,
            Some(shows) => if shows.len() == 0 {
                r == Err::<TVModeStatus, ModeError>(ModeError::NoShowsForUser) && final(mode)@
                    == old(mode)@
            } else if !names_valid_hours(request) {
                r == Err::<TVModeStatus, ModeError>(ModeError::InvalidSleepDuration)
                    && final(mode)@ == old(mode)@
            } else {
                &&& final(mode)@ == (ModeView { active: true, user: Some(user@), sleep_timer: None })
                &&& r matches Ok(s) && s@ == final(mode)@
            },
        },
{
    proof {
        use_type_invariant(&*mode);
    }
    match catalog.get(user) {
        None => return Err(ModeError::UnknownUser),
        Some(shows) => {
            if shows.len() == 0 {
                return Err(ModeError::NoShowsForUser);
            }
        },
    }
    match request {
        Some(PlayRequest { sleep_timer_hours: Some(h) }) => {
            if !(h == 1 || h == 2 || h == 4 || h == 8 || h == 12) {
                return Err(ModeError::InvalidSleepDuration);
            }
        },
        _ => {},
    }
    mode.enable(catalog, user)
}

/// The routes of the control API.
pub open spec fn api_table() -> Seq<(Method, Seq<char>, Endpoint)> {
    seq![
        (Method::Get, "/api/users"@, Endpoint::Users),
        (Method::Get, "/api/status"@, Endpoint::Status),
        (Method::Post, "/api/play/<user>"@, Endpoint::Play),
        (Method::Post, "/api/play/<user>"@, Endpoint::PlayWithoutBody),
        (Method::Post, "/api/sleep-timer"@, Endpoint::SetSleepTimer),
        (Method::Delete, "/api/sleep-timer"@, Endpoint::ClearSleepTimer),
        (Method::Post, "/api/stop"@, Endpoint::Stop),
        (Method::Get, "/api/health"@, Endpoint::Health),
    ]
}

/// The routes of the control API.
pub fn routes() -> (r: Vec<Route>)
    ensures
        table_of(r@) == api_table(),
{
    let r = vec![
        route(Method::Get, "/api/users", Endpoint::Users),
        route(Method::Get, "/api/status", Endpoint::Status),
        route(Method::Post, "/api/play/<user>", Endpoint::Play),
        route(Method::Post, "/api/play/<user>", Endpoint::PlayWithoutBody),
        route(Method::Post, "/api/sleep-timer", Endpoint::SetSleepTimer),
        route(Method::Delete, "/api/sleep-timer", Endpoint::ClearSleepTimer),
        route(Method::Post, "/api/stop", Endpoint::Stop),
        route(Method::Get, "/api/health", Endpoint::Health),
    ];
    assert(table_of(r@) =~= api_table());
    r
}

} // verus!

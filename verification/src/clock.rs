//! The time window of an order, judged against one reading of the ledger's
//! clock.

use vstd::prelude::*;
use crate::error::ErrorCode;

verus! {

/// Why an order with these dates cannot be created at time `now`, if it
/// cannot: the expire date must lie after `now`; a start date must not lie
/// before `now` and must lie before the expire date.
pub open spec fn create_window_error(now: i64, start_date: Option<i64>, expire_date: i64) -> Option<
    ErrorCode,
> {
    if now >= expire_date {
        Some(ErrorCode::ExpireDateInThePast)
    } else if start_date is Some && now > start_date->0 {
        Some(ErrorCode::StartDateInThePast)
    } else if start_date is Some && start_date->0 >= expire_date {
        Some(ErrorCode::ExpireDateInThePast)
    } else {
        None
    }
}

/// Checks the dates of an order that is being created at time `now`.
pub fn check_create_window(now: i64, start_date: Option<i64>, expire_date: i64) -> (r: Result<
    (),
    ErrorCode,
>)
    ensures
        match create_window_error(now, start_date, expire_date) {
            Some(e) => r == Err::<(), ErrorCode>(e),
            None => r is Ok,
        },
{
    if now >= expire_date {
        return Err(ErrorCode::ExpireDateInThePast);
    }
    if let Some(start_date) = start_date {
        if now > start_date {
            return Err(ErrorCode::StartDateInThePast);
        }
        if start_date >= expire_date {
            return Err(ErrorCode::ExpireDateInThePast);
        }
    }
    Ok(())
}

/// Why an order with these dates cannot be executed at time `now`, if it
/// cannot: `now` must not lie after the expire date, nor before a start date.
pub open spec fn execute_window_error(now: i64, start_date: Option<i64>, expire_date: i64) -> Option<
    ErrorCode,
> {
    if now > expire_date {
        Some(ErrorCode::OrderIsExpired)
    } else if start_date is Some && start_date->0 > now {
        Some(ErrorCode::OrderIsNotStarted)
    } else {
        None
    }
}

/// Checks the dates of an order that is being executed at time `now`.
pub fn check_execute_window(now: i64, start_date: Option<i64>, expire_date: i64) -> (r: Result<
    (),
    ErrorCode,
>)
    ensures
        match execute_window_error(now, start_date, expire_date) {
            Some(e) => r == Err::<(), ErrorCode>(e),
            None => r is Ok,
        },
{
    if now > expire_date {
        return Err(ErrorCode::OrderIsExpired);
    }
    if let Some(start_date) = start_date {
        if start_date > now {
            return Err(ErrorCode::OrderIsNotStarted);
        }
    }
    Ok(())
}

} // verus!

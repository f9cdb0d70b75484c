//! The alarm that wakes the device for the next automation.

use crate::contract::common::ErrorCode;
use crate::error::DomainError;
use vstd::prelude::*;

verus! {

/// The value an alarm is set to: the seconds and nanoseconds of its time, or zeros for none.
#[derive(Clone, Copy, Debug, PartialEq, Eq, Structural)]
pub struct AlarmValue {
    pub seconds: i64,
    pub nanoseconds: i64,
}

/// The value for a time. No time disarms; a time at or before the epoch is taken as the first
/// millisecond after it, so that it does not disarm.
pub fn alarm_value(due_unix_millis: Option<i64>) -> (value: AlarmValue)
    ensures
        match due_unix_millis {
            None => value == (AlarmValue { seconds: 0, nanoseconds: 0 }),
            Some(due) => {
                let millis = if due > 1 {
                    due as int
                } else {
                    1
                };
                &&& value.seconds * 1_000 + value.nanoseconds / 1_000_000 == millis
                &&& 0 <= value.nanoseconds < 1_000_000_000
                &&& value.nanoseconds as int % 1_000_000 == 0
                &&& value.seconds > 0 || value.nanoseconds > 0
            },
        },
{
    match due_unix_millis {
        None => AlarmValue { seconds: 0, nanoseconds: 0 },
        Some(due) => {
            let millis: i64 = if due > 1 {
                due
            } else {
                1
            };
            AlarmValue { seconds: millis / 1_000, nanoseconds: (millis % 1_000) * 1_000_000 }
        },
    }
}

/// What came of reading an alarm.
#[derive(Clone, Copy, Debug, PartialEq, Eq, Structural)]
pub enum AlarmRead {
    /// So many bytes.
    Bytes(usize),
    /// The clock was set while the alarm was armed.
    ClockSet,
    Failed,
    WouldBlock,
}

/// What an alarm that was read means: the schedule is looked at again, the wait goes on, or the
/// alarm failed.
pub fn alarm_outcome(read: AlarmRead) -> (outcome: Option<Result<(), DomainError>>)
    ensures
        outcome == (match read {
            AlarmRead::WouldBlock => None,
            AlarmRead::ClockSet => Some(Ok(())),
            AlarmRead::Bytes(count) => if count == 8 {
                Some(Ok(()))
            } else {
                Some(
                    Err(
                        DomainError {
                            code: ErrorCode::IoError,
                            reason: "wake alarm timer read failed",
                        },
                    ),
                )
            },
            AlarmRead::Failed => Some(
                Err(
                    DomainError {
                        code: ErrorCode::IoError,
                        reason: "wake alarm timer read failed",
                    },
                ),
            ),
        }),
{
    match read {
        AlarmRead::WouldBlock => None,
        AlarmRead::ClockSet => Some(Ok(())),
        AlarmRead::Bytes(count) => {
            if count == 8 {
                return Some(Ok(()));
            }
            Some(Err(DomainError::new(ErrorCode::IoError, "wake alarm timer read failed")))
        },
        AlarmRead::Failed => Some(
            Err(DomainError::new(ErrorCode::IoError, "wake alarm timer read failed")),
        ),
    }
}

} // verus!

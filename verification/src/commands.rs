//! Small per-command decisions: input validation, clamping, and the
//! pause/skip decision logic.

use vstd::prelude::*;

use crate::messages::skipped_spec;
use crate::messages::skipped_message;
use crate::messages::nothing_to_skip_message;
use crate::messages::not_connected_message;
use crate::numtext::parse_u64_spec;
use crate::numtext::parse_u64;

verus! {

/// What the pause/resume toggle does next.
#[derive(PartialEq, Eq, Structural, Clone, Copy, Debug)]
pub enum PauseAction {
    Pause,
    Resume,
}

/// The toggle inspects the current play state and inverts it: a playing
/// track is paused, anything else is resumed.
pub fn pause_toggle_action(playing: bool) -> (r: PauseAction)
    ensures
        playing ==> r == PauseAction::Pause,
        !playing ==> r == PauseAction::Resume,
{
    if playing {
        PauseAction::Pause
    } else {
        PauseAction::Resume
    }
}

/// The seek target: the offset is applied in milliseconds and the result
/// clamped into the playable range of the track.
pub open spec fn seek_target_spec(cur: int, delta_s: int, len: int) -> int {
    let t = cur + delta_s * 1000;
    if t < 0 {
        0
    } else if t > len {
        len
    } else {
        t
    }
}

/// Applies a seek offset in seconds to the current position, clamped into
/// `[0, len]` milliseconds.
pub fn seek_target(cur: u64, delta_s: i64, len: u64) -> (r: u64)
    ensures
        r as int == seek_target_spec(cur as int, delta_s as int, len as int),
{
    let t: i128 = cur as i128 + (delta_s as i128) * 1000;
    if t < 0 {
        0
    } else if t > len as i128 {
        len
    } else {
        t as u64
    }
}

/// What the remove command decides for its input.
#[derive(PartialEq, Eq, Structural, Clone, Copy, Debug)]
pub enum RemoveDecision {
    /// The input does not read as a track number of at least one.
    BadInput,
    /// The number is beyond the end of the queue.
    OutOfRange,
    /// The queue index of the track to remove.
    Removed(usize),
}

/// Decides the remove command: an unreadable or zero input is a bad
/// input, a number past the queue is out of range, and anything else
/// names a queue index one below the given number.
pub fn remove_decision(queue_len: usize, input: &str) -> (r: RemoveDecision)
    ensures
        r == match parse_u64_spec(input@) {
            None => RemoveDecision::BadInput,
            Some(i) => if i == 0 {
                RemoveDecision::BadInput
            } else if i > queue_len {
                RemoveDecision::OutOfRange
            } else {
                RemoveDecision::Removed((i - 1) as usize)
            },
        },
{
    match parse_u64(input) {
        None => RemoveDecision::BadInput,
        Some(i) => {
            if i == 0 {
                RemoveDecision::BadInput
            } else if i > queue_len as u64 {
                RemoveDecision::OutOfRange
            } else {
                RemoveDecision::Removed((i - 1) as usize)
            }
        },
    }
}

/// Reads a volume command input: a number up to one hundred.
pub fn parse_volume(s: &str) -> (r: Option<u64>)
    ensures
        r == match parse_u64_spec(s@) {
            Some(v) => if v <= 100 {
                Some(v)
            } else {
                None::<u64>
            },
            None => None::<u64>,
        },
{
    match parse_u64(s) {
        Some(v) => {
            if v <= 100 {
                Some(v)
            } else {
                None
            }
        },
        None => None,
    }
}

/// The reply to a skip request: who skipped when something was playing, a
/// notice otherwise, and a connection notice when no voice call exists.
pub fn skip_reply(connected: bool, has_current: bool, user: &str) -> (r: String)
    ensures
        !connected ==> r@ == "Not connected to voice."@,
        connected && has_current ==> r@ == skipped_spec(user@),
        connected && !has_current ==> r@ == "Nothing to skip."@,
{
    if !connected {
        not_connected_message()
    } else if has_current {
        skipped_message(user)
    } else {
        nothing_to_skip_message()
    }
}

} // verus!

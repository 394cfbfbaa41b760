//! The per-guild playback session: queue mirror, playback flags, and the
//! single-slot handles for background tasks.

use vstd::prelude::*;

use crate::trackqueue::TrackQueue;
use crate::trackqueue::track_queue_contents;
use crate::trackqueue::tq_new;
use crate::trackqueue::tq_push;
use crate::trackqueue::tq_clear;

verus! {

/// The mutable playback state a guild owns for the life of the process.
pub struct GuildSession {
    /// Mirror of the backend playback queue, in play order.
    pub queue: TrackQueue,
    /// Whether the current track replays on completion.
    pub loop_mode: bool,
    /// Playback volume as a percentage, always within `0..=100`.
    pub volume: u8,
    /// The channel status messages are posted to.
    pub text_channel: u64,
    /// The live now-playing message being edited in place, if any.
    pub current_message: Option<u64>,
    /// Handle of the periodic now-playing refresh task, at most one.
    pub update_task: Option<u64>,
    /// Handle of the deferred idle-disconnect task, at most one.
    pub idle_timer: Option<u64>,
    /// Who queued the currently playing track, if known.
    pub last_requester: Option<u64>,
}

/// The session invariant: the volume percentage stays in range.
pub open spec fn session_wf(s: GuildSession) -> bool {
    s.volume <= 100
}

impl Default for GuildSession {
    /// A fresh session: empty queue, loop off, full volume, no bound
    /// channel, no live handles.
    fn default() -> (s: Self)
        ensures
            session_wf(s),
            track_queue_contents(s.queue).len() == 0,
            !s.loop_mode,
            s.volume == 100,
            s.text_channel == 0,
            s.current_message is None,
            s.update_task is None,
            s.idle_timer is None,
            s.last_requester is None,
    {
        GuildSession {
            queue: tq_new(),
            loop_mode: false,
            volume: 100,
            text_channel: 0,
            current_message: None,
            update_task: None,
            idle_timer: None,
            last_requester: None,
        }
    }
}

/// The arming transition for the idle timer: the new handle is installed
/// and the previously armed one, if any, is handed back for cancellation.
pub open spec fn arm_idle_spec(
    before: GuildSession,
    handle: u64,
    after: GuildSession,
    prev: Option<u64>,
) -> bool {
    after == (GuildSession { idle_timer: Some(handle), ..before }) && prev == before.idle_timer
}

/// The arming transition for the now-playing update task.
pub open spec fn arm_update_spec(
    before: GuildSession,
    handle: u64,
    after: GuildSession,
    prev: Option<u64>,
) -> bool {
    after == (GuildSession { update_task: Some(handle), ..before }) && prev == before.update_task
}

impl GuildSession {
    /// Sets the volume when the input is in range; an out-of-range input
    /// changes nothing.
    pub fn set_volume(&mut self, v: u64) -> (ok: bool)
        ensures
            v <= 100 ==> ok && *final(self) == (GuildSession { volume: v as u8, ..*old(self) }),
            v > 100 ==> !ok && *final(self) == *old(self),
            session_wf(*old(self)) ==> session_wf(*final(self)),
    {
        if v <= 100 {
            self.volume = v as u8;
            true
        } else {
            false
        }
    }

    /// Flips the loop flag and reports the new state.
    pub fn toggle_loop(&mut self) -> (on: bool)
        ensures
            *final(self) == (GuildSession { loop_mode: !old(self).loop_mode, ..*old(self) }),
            on == !old(self).loop_mode,
    {
        self.loop_mode = !self.loop_mode;
        self.loop_mode
    }

    /// Arms the idle-disconnect timer, handing back the previously armed
    /// handle so the caller can cancel it: the session never holds two.
    pub fn arm_idle_timer(&mut self, handle: u64) -> (prev: Option<u64>)
        ensures
            arm_idle_spec(*old(self), handle, *final(self), prev),
    {
        let prev = self.idle_timer;
        self.idle_timer = Some(handle);
        prev
    }

    /// Disarms the idle-disconnect timer, handing back the cancelled
    /// handle, if one was armed.
    pub fn clear_idle_timer(&mut self) -> (prev: Option<u64>)
        ensures
            *final(self) == (GuildSession { idle_timer: None, ..*old(self) }),
            prev == old(self).idle_timer,
    {
        let prev = self.idle_timer;
        self.idle_timer = None;
        prev
    }

    /// Installs the now-playing update task, handing back the previously
    /// installed handle so the caller can cancel it.
    pub fn arm_update_task(&mut self, handle: u64) -> (prev: Option<u64>)
        ensures
            arm_update_spec(*old(self), handle, *final(self), prev),
    {
        let prev = self.update_task;
        self.update_task = Some(handle);
        prev
    }

    /// Removes the now-playing update task, handing back the cancelled
    /// handle, if one was installed.
    pub fn clear_update_task(&mut self) -> (prev: Option<u64>)
        ensures
            *final(self) == (GuildSession { update_task: None, ..*old(self) }),
            prev == old(self).update_task,
    {
        let prev = self.update_task;
        self.update_task = None;
        prev
    }

    /// Appends a track handle to the queue mirror.
    pub fn enqueue_track(&mut self, id: u64)
        requires
            track_queue_contents(old(self).queue).len() < usize::MAX,
        ensures
            track_queue_contents(final(self).queue) == track_queue_contents(
                old(self).queue,
            ).push(id),
            final(self).loop_mode == old(self).loop_mode,
            final(self).volume == old(self).volume,
            final(self).text_channel == old(self).text_channel,
            final(self).current_message == old(self).current_message,
            final(self).update_task == old(self).update_task,
            final(self).idle_timer == old(self).idle_timer,
            final(self).last_requester == old(self).last_requester,
    {
        tq_push(&mut self.queue, id);
    }

    /// Empties the queue mirror.
    pub fn clear_queue(&mut self)
        ensures
            track_queue_contents(final(self).queue).len() == 0,
            final(self).loop_mode == old(self).loop_mode,
            final(self).volume == old(self).volume,
            final(self).text_channel == old(self).text_channel,
            final(self).current_message == old(self).current_message,
            final(self).update_task == old(self).update_task,
            final(self).idle_timer == old(self).idle_timer,
            final(self).last_requester == old(self).last_requester,
    {
        tq_clear(&mut self.queue);
    }
}

/// Arming an idle timer always hands the previously armed handle back for
/// cancellation: across any two consecutive arms, the first handle comes
/// back to be cancelled and only the second stays held, so at most one
/// idle timer is ever live for the session.
pub proof fn lemma_idle_timer_single(
    s0: GuildSession,
    s1: GuildSession,
    s2: GuildSession,
    t1: u64,
    t2: u64,
    p1: Option<u64>,
    p2: Option<u64>,
)
    requires
        arm_idle_spec(s0, t1, s1, p1),
        arm_idle_spec(s1, t2, s2, p2),
    ensures
        p2 == Some(t1),
        s2.idle_timer == Some(t2),
        p1 == s0.idle_timer,
{
}

/// The same replacement discipline holds for the update task: a second
/// install hands the first handle back, and only one stays held.
pub proof fn lemma_update_task_single(
    s0: GuildSession,
    s1: GuildSession,
    s2: GuildSession,
    t1: u64,
    t2: u64,
    p1: Option<u64>,
    p2: Option<u64>,
)
    requires
        arm_update_spec(s0, t1, s1, p1),
        arm_update_spec(s1, t2, s2, p2),
    ensures
        p2 == Some(t1),
        s2.update_task == Some(t2),
        p1 == s0.update_task,
{
}

} // verus!

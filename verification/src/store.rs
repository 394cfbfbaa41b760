//! The process-wide map from guild to playback session, and the play
//! orchestration steps that mutate it.

use vstd::prelude::*;
use std::collections::HashMap;

use crate::session::GuildSession;
use crate::session::session_wf;
use crate::trackqueue::track_queue_contents;
use crate::messages::queued_one_spec;
use crate::messages::queued_one_message;
use crate::messages::queued_many_spec;
use crate::messages::queued_many_message;

verus! {

broadcast use vstd::std_specs::hash::group_hash_axioms;

/// Why a play request was rejected.
#[derive(PartialEq, Eq, Structural, Clone, Copy, Debug)]
pub enum PlayError {
    /// The query string was empty.
    EmptyQuery,
    /// The issuer is not in a voice channel.
    NotInVoice,
    /// The search matched nothing.
    NoResults,
    /// The search result held nothing playable.
    NoPlayable,
}

/// What the audio search backend handed back, reduced to track handles.
pub enum SearchLoad {
    /// The search matched nothing.
    Empty,
    /// One directly resolved track.
    Track(u64),
    /// A playlist of resolved tracks.
    Playlist(Vec<u64>),
    /// A page of search results.
    SearchHits(Vec<u64>),
    /// A response with nothing playable in it.
    Unplayable,
}

/// How many tracks a search load carries.
pub open spec fn search_load_len(load: SearchLoad) -> int {
    match load {
        SearchLoad::Track(_) => 1,
        SearchLoad::Playlist(ids) => ids@.len() as int,
        SearchLoad::SearchHits(ids) => ids@.len() as int,
        _ => 0,
    }
}

/// A session as `play` first creates it: fresh defaults with the text
/// channel bound.
pub open spec fn fresh_session_with(s: GuildSession, text_channel: u64) -> bool {
    &&& track_queue_contents(s.queue).len() == 0
    &&& !s.loop_mode
    &&& s.volume == 100
    &&& s.text_channel == text_channel
    &&& s.current_message is None
    &&& s.update_task is None
    &&& s.idle_timer is None
    &&& s.last_requester is None
}

/// The bulk-import outcome: nothing changes on an empty list, otherwise
/// every track is appended in order and the requester is not recorded.
pub open spec fn bulk_play_spec(
    ids: Seq<u64>,
    before: Map<u64, GuildSession>,
    after: Map<u64, GuildSession>,
    guild: u64,
    r: Result<String, PlayError>,
) -> bool {
    if ids.len() == 0 {
        r == Err::<String, PlayError>(PlayError::NoResults) && after == before
    } else {
        &&& after == before.insert(guild, after[guild])
        &&& track_queue_contents(after[guild].queue) == track_queue_contents(
            before[guild].queue,
        ) + ids
        &&& after[guild].last_requester == before[guild].last_requester
        &&& after[guild].loop_mode == before[guild].loop_mode
        &&& after[guild].volume == before[guild].volume
        &&& after[guild].text_channel == before[guild].text_channel
        &&& after[guild].current_message == before[guild].current_message
        &&& after[guild].update_task == before[guild].update_task
        &&& after[guild].idle_timer == before[guild].idle_timer
        &&& r is Ok
        &&& r->Ok_0@ == queued_many_spec(ids.len() as int)
    }
}

/// The user-facing reply for each way a play request can fail.
pub fn play_error_message(e: PlayError) -> (r: String)
    ensures
        e == PlayError::EmptyQuery ==> r@ == "Please provide a search query or URL."@,
        e == PlayError::NotInVoice ==> r@ == "You must be in a voice channel to use this command."@,
        e == PlayError::NoResults ==> r@ == "No results found."@,
        e == PlayError::NoPlayable ==> r@ == "No playable tracks found."@,
{
    match e {
        PlayError::EmptyQuery => crate::messages::empty_query_message(),
        PlayError::NotInVoice => crate::messages::not_in_voice_message(),
        PlayError::NoResults => crate::messages::no_results_message(),
        PlayError::NoPlayable => crate::messages::no_playable_message(),
    }
}

/// The process-wide guild-to-session map.
pub struct SessionStore {
    sessions: HashMap<u64, GuildSession>,
}

impl SessionStore {
    /// The map of sessions by guild.
    pub closed spec fn view(&self) -> Map<u64, GuildSession> {
        self.sessions@
    }

    /// Every stored session satisfies the session invariant.
    pub open spec fn wf(&self) -> bool {
        forall|g: u64| self@.contains_key(g) ==> session_wf(#[trigger] self@[g])
    }

    /// An empty store.
    pub fn new() -> (s: Self)
        ensures
            s@ == Map::<u64, GuildSession>::empty(),
            s.wf(),
    {
        SessionStore { sessions: HashMap::new() }
    }

    /// Whether a session exists for the guild.
    pub fn has_session(&self, guild: u64) -> (r: bool)
        ensures
            r == self@.contains_key(guild),
    {
        self.sessions.contains_key(&guild)
    }

    /// The stored session for the guild, if any.
    pub fn get_session(&self, guild: u64) -> (r: Option<&GuildSession>)
        ensures
            match r {
                Some(s) => self@.contains_key(guild) && *s == self@[guild],
                None => !self@.contains_key(guild),
            },
    {
        self.sessions.get(&guild)
    }

    /// Opens a play request: rejects an empty query or an issuer outside
    /// voice before touching any state, then binds the text channel on the
    /// guild's session, creating it on first use.
    pub fn play_open(
        &mut self,
        guild: u64,
        query: &str,
        voice_channel: Option<u64>,
        text_channel: u64,
    ) -> (r: Result<u64, PlayError>)
        ensures
            query@.len() == 0 ==> r == Err::<u64, PlayError>(PlayError::EmptyQuery) && final(self)@
                == old(self)@,
            query@.len() > 0 && voice_channel is None ==> r == Err::<u64, PlayError>(
                PlayError::NotInVoice,
            ) && final(self)@ == old(self)@,
            query@.len() > 0 && voice_channel is Some ==> {
                &&& r == Ok::<u64, PlayError>(voice_channel->0)
                &&& final(self)@.contains_key(guild)
                &&& final(self)@ == old(self)@.insert(guild, final(self)@[guild])
                &&& (old(self)@.contains_key(guild) ==> final(self)@[guild] == (GuildSession {
                    text_channel,
                    ..old(self)@[guild]
                }))
                &&& (!old(self)@.contains_key(guild) ==> fresh_session_with(
                    final(self)@[guild],
                    text_channel,
                ))
            },
            old(self).wf() ==> final(self).wf(),
    {
        if query.unicode_len() == 0 {
            return Err(PlayError::EmptyQuery);
        }
        let vc: u64 = match voice_channel {
            Some(c) => c,
            None => {
                return Err(PlayError::NotInVoice);
            },
        };
        let mut s: GuildSession = match self.sessions.remove(&guild) {
            Some(s) => s,
            None => GuildSession::default(),
        };
        s.text_channel = text_channel;
        self.sessions.insert(guild, s);
        proof {
            assert(self.sessions@ =~= old(self).sessions@.insert(guild, s));
        }
        Ok(vc)
    }

    /// Notes fresh playback activity: the pending idle-disconnect timer,
    /// if any, is disarmed and handed back for cancellation.
    pub fn note_activity(&mut self, guild: u64) -> (prev: Option<u64>)
        ensures
            !old(self)@.contains_key(guild) ==> prev is None && final(self)@ == old(self)@,
            old(self)@.contains_key(guild) ==> {
                &&& prev == old(self)@[guild].idle_timer
                &&& final(self)@ == old(self)@.insert(
                    guild,
                    (GuildSession { idle_timer: None, ..old(self)@[guild] }),
                )
            },
            old(self).wf() ==> final(self).wf(),
    {
        match self.sessions.remove(&guild) {
            Some(mut s) => {
                let prev = s.clear_idle_timer();
                self.sessions.insert(guild, s);
                proof {
                    assert(self.sessions@ =~= old(self).sessions@.insert(guild, s));
                }
                prev
            },
            None => {
                proof {
                    assert(self.sessions@ =~= old(self).sessions@);
                }
                None
            },
        }
    }

    /// Appends a bulk import to the session queue.
    fn bulk_add(&mut self, guild: u64, ids: &Vec<u64>) -> (r: Result<String, PlayError>)
        requires
            old(self)@.contains_key(guild),
            track_queue_contents(old(self)@[guild].queue).len() + ids@.len() < usize::MAX,
        ensures
            bulk_play_spec(ids@, old(self)@, final(self)@, guild, r),
            old(self).wf() ==> final(self).wf(),
    {
        if ids.len() == 0 {
            proof {
                assert(self.sessions@ =~= old(self).sessions@);
            }
            return Err(PlayError::NoResults);
        }
        let mut s: GuildSession = match self.sessions.remove(&guild) {
            Some(s) => s,
            None => {
                proof {
                    assert(false);
                }
                GuildSession::default()
            },
        };
        let ghost before = s;
        let n: usize = ids.len();
        let mut k: usize = 0;
        while k < n
            invariant
                k <= n,
                n == ids@.len(),
                track_queue_contents(before.queue).len() + n < usize::MAX,
                track_queue_contents(s.queue) == track_queue_contents(before.queue)
                    + ids@.subrange(0, k as int),
                s.loop_mode == before.loop_mode,
                s.volume == before.volume,
                s.text_channel == before.text_channel,
                s.current_message == before.current_message,
                s.update_task == before.update_task,
                s.idle_timer == before.idle_timer,
                s.last_requester == before.last_requester,
            decreases n - k,
        {
            s.enqueue_track(ids[k]);
            proof {
                assert(track_queue_contents(before.queue) + ids@.subrange(0, k as int + 1)
                    =~= (track_queue_contents(before.queue) + ids@.subrange(0, k as int)).push(
                    ids@[k as int],
                ));
            }
            k = k + 1;
        }
        proof {
            assert(ids@.subrange(0, n as int) =~= ids@);
        }
        self.sessions.insert(guild, s);
        proof {
            assert(self.sessions@ =~= old(self).sessions@.insert(guild, s));
        }
        Ok(queued_many_message(n as u64))
    }

    /// Applies a search outcome to the session: a single track is queued
    /// under its requester, a playlist or result page is imported in bulk,
    /// and empty or unplayable outcomes change nothing.
    pub fn complete_play(
        &mut self,
        guild: u64,
        requester: u64,
        query: &str,
        load: SearchLoad,
    ) -> (r: Result<String, PlayError>)
        requires
            old(self)@.contains_key(guild),
            track_queue_contents(old(self)@[guild].queue).len() + search_load_len(load)
                < usize::MAX,
        ensures
            ({
                let before = old(self)@[guild];
                let after = final(self)@;
                match load {
                    SearchLoad::Empty => r == Err::<String, PlayError>(PlayError::NoResults)
                        && after == old(self)@,
                    SearchLoad::Unplayable => r == Err::<String, PlayError>(PlayError::NoPlayable)
                        && after == old(self)@,
                    SearchLoad::Track(id) => {
                        &&& after == old(self)@.insert(guild, after[guild])
                        &&& track_queue_contents(after[guild].queue) == track_queue_contents(
                            before.queue,
                        ).push(id)
                        &&& after[guild].last_requester == Some(requester)
                        &&& after[guild].loop_mode == before.loop_mode
                        &&& after[guild].volume == before.volume
                        &&& after[guild].text_channel == before.text_channel
                        &&& after[guild].current_message == before.current_message
                        &&& after[guild].update_task == before.update_task
                        &&& after[guild].idle_timer == before.idle_timer
                        &&& r is Ok
                        &&& r->Ok_0@ == queued_one_spec(query@)
                    },
                    SearchLoad::Playlist(ids) => bulk_play_spec(
                        ids@,
                        old(self)@,
                        after,
                        guild,
                        r,
                    ),
                    SearchLoad::SearchHits(ids) => bulk_play_spec(
                        ids@,
                        old(self)@,
                        after,
                        guild,
                        r,
                    ),
                }
            }),
            old(self).wf() ==> final(self).wf(),
    {
        match load {
            SearchLoad::Empty => {
                proof {
                    assert(self.sessions@ =~= old(self).sessions@);
                }
                Err(PlayError::NoResults)
            },
            SearchLoad::Unplayable => {
                proof {
                    assert(self.sessions@ =~= old(self).sessions@);
                }
                Err(PlayError::NoPlayable)
            },
            SearchLoad::Track(id) => {
                let mut s: GuildSession = match self.sessions.remove(&guild) {
                    Some(s) => s,
                    None => {
                        proof {
                            assert(false);
                        }
                        GuildSession::default()
                    },
                };
                s.enqueue_track(id);
                s.last_requester = Some(requester);
                self.sessions.insert(guild, s);
                proof {
                    assert(self.sessions@ =~= old(self).sessions@.insert(guild, s));
                }
                Ok(queued_one_message(query))
            },
            SearchLoad::Playlist(ids) => self.bulk_add(guild, &ids),
            SearchLoad::SearchHits(ids) => self.bulk_add(guild, &ids),
        }
    }

    /// Sets the session volume for the guild: out-of-range inputs are
    /// rejected before any mutation, and a missing session is left alone.
    pub fn set_session_volume(&mut self, guild: u64, v: u64) -> (ok: bool)
        ensures
            v > 100 ==> !ok && final(self)@ == old(self)@,
            v <= 100 && !old(self)@.contains_key(guild) ==> ok && final(self)@ == old(self)@,
            v <= 100 && old(self)@.contains_key(guild) ==> ok && final(self)@ == old(
                self,
            )@.insert(guild, (GuildSession { volume: v as u8, ..old(self)@[guild] })),
            old(self).wf() ==> final(self).wf(),
    {
        if v > 100 {
            return false;
        }
        match self.sessions.remove(&guild) {
            Some(mut s) => {
                let _ = s.set_volume(v);
                self.sessions.insert(guild, s);
                proof {
                    assert(self.sessions@ =~= old(self).sessions@.insert(guild, s));
                }
            },
            None => {
                proof {
                    assert(self.sessions@ =~= old(self).sessions@);
                }
            },
        }
        true
    }

    /// Flips the loop flag for the guild's session, reporting the new
    /// state; a missing session is left alone.
    pub fn toggle_loop(&mut self, guild: u64) -> (on: Option<bool>)
        ensures
            !old(self)@.contains_key(guild) ==> on is None && final(self)@ == old(self)@,
            old(self)@.contains_key(guild) ==> {
                &&& on == Some(!old(self)@[guild].loop_mode)
                &&& final(self)@ == old(self)@.insert(
                    guild,
                    (GuildSession { loop_mode: !old(self)@[guild].loop_mode, ..old(self)@[guild] }),
                )
            },
            old(self).wf() ==> final(self).wf(),
    {
        match self.sessions.remove(&guild) {
            Some(mut s) => {
                let on = s.toggle_loop();
                self.sessions.insert(guild, s);
                proof {
                    assert(self.sessions@ =~= old(self).sessions@.insert(guild, s));
                }
                Some(on)
            },
            None => {
                proof {
                    assert(self.sessions@ =~= old(self).sessions@);
                }
                None
            },
        }
    }

    /// Empties the queue mirror of the guild's session after playback is
    /// stopped; a missing session is left alone.
    pub fn clear_session_queue(&mut self, guild: u64) -> (cleared: bool)
        ensures
            !old(self)@.contains_key(guild) ==> !cleared && final(self)@ == old(self)@,
            old(self)@.contains_key(guild) ==> {
                &&& cleared
                &&& final(self)@ == old(self)@.insert(guild, final(self)@[guild])
                &&& track_queue_contents(final(self)@[guild].queue).len() == 0
                &&& final(self)@[guild].loop_mode == old(self)@[guild].loop_mode
                &&& final(self)@[guild].volume == old(self)@[guild].volume
                &&& final(self)@[guild].text_channel == old(self)@[guild].text_channel
                &&& final(self)@[guild].current_message == old(self)@[guild].current_message
                &&& final(self)@[guild].update_task == old(self)@[guild].update_task
                &&& final(self)@[guild].idle_timer == old(self)@[guild].idle_timer
                &&& final(self)@[guild].last_requester == old(self)@[guild].last_requester
            },
            old(self).wf() ==> final(self).wf(),
    {
        match self.sessions.remove(&guild) {
            Some(mut s) => {
                s.clear_queue();
                self.sessions.insert(guild, s);
                proof {
                    assert(self.sessions@ =~= old(self).sessions@.insert(guild, s));
                }
                true
            },
            None => {
                proof {
                    assert(self.sessions@ =~= old(self).sessions@);
                }
                false
            },
        }
    }

    /// Arms the idle-disconnect timer on the guild's session, handing back
    /// the previously armed handle for cancellation; a missing session is
    /// left alone.
    pub fn arm_idle_timer(&mut self, guild: u64, handle: u64) -> (r: Option<Option<u64>>)
        ensures
            !old(self)@.contains_key(guild) ==> r is None && final(self)@ == old(self)@,
            old(self)@.contains_key(guild) ==> {
                &&& r == Some(old(self)@[guild].idle_timer)
                &&& final(self)@ == old(self)@.insert(
                    guild,
                    (GuildSession { idle_timer: Some(handle), ..old(self)@[guild] }),
                )
            },
            old(self).wf() ==> final(self).wf(),
    {
        match self.sessions.remove(&guild) {
            Some(mut s) => {
                let prev = s.arm_idle_timer(handle);
                self.sessions.insert(guild, s);
                proof {
                    assert(self.sessions@ =~= old(self).sessions@.insert(guild, s));
                }
                Some(prev)
            },
            None => {
                proof {
                    assert(self.sessions@ =~= old(self).sessions@);
                }
                None
            },
        }
    }
}

} // verus!

//! The running score and connection state, and how events change them.

use vstd::prelude::*;

use crate::score_table::ScoreTable;

verus! {

/// Number of segments of the activity meter: `recent_events` never exceeds it.
pub const RECENT_EVENTS_MAX: u32 = 24;

/// How many segments the meter loses on each poll tick.
pub const RECENT_EVENTS_DECAY: u32 = 2;

/// Minimum time between two writes of the score file, in milliseconds.
pub const SCORE_FLUSH_INTERVAL_MS: u64 = 3000;

/// The persisted score: the rank total and how often each topic fired.
pub struct ScoreData {
    pub total_score: u64,
    pub event_counts: ScoreTable,
}

impl ScoreData {
    pub open spec fn wf(&self) -> bool {
        self.event_counts.wf()
    }

    /// A copy with the same total and counts.
    pub fn copy(&self) -> (c: ScoreData)
        requires
            self.wf(),
        ensures
            c.wf(),
            c.total_score == self.total_score,
            c.event_counts@ == self.event_counts@,
            c.event_counts.pairs() == self.event_counts.pairs(),
    {
        ScoreData { total_score: self.total_score, event_counts: self.event_counts.copy() }
    }
}

impl Default for ScoreData {
    /// No score and no counts.
    fn default() -> (d: ScoreData)
        ensures
            d.wf(),
            d.total_score == 0,
            d.event_counts@ == Map::<Seq<char>, u64>::empty(),
    {
        ScoreData { total_score: 0, event_counts: ScoreTable::new() }
    }
}

/// Where the monitor stands with Wwise.
#[derive(PartialEq, Eq, Structural, Clone, Copy, Debug)]
pub enum ConnState {
    Idle,
    Scanning,
    Connected,
}

/// The name under which a connection state is reported.
pub open spec fn conn_state_name(s: ConnState) -> Seq<char> {
    match s {
        ConnState::Idle => "Idle"@,
        ConnState::Scanning => "Scanning"@,
        ConnState::Connected => "Connected"@,
    }
}

impl ConnState {
    /// The name of the state, as shown to the user.
    pub fn name(&self) -> (s: String)
        ensures
            s@ == conn_state_name(*self),
    {
        match self {
            ConnState::Idle => "Idle".to_owned(),
            ConnState::Scanning => "Scanning".to_owned(),
            ConnState::Connected => "Connected".to_owned(),
        }
    }
}

/// What the user interface is sent after each change.
pub struct ScorePayload {
    pub total_score: u64,
    pub session_score: u64,
    pub event_counts: ScoreTable,
    pub state: String,
    pub recent_events: u32,
}

/// The monitor's shared state.
pub struct AppState {
    pub score: ScoreData,
    pub score_dirty: bool,
    pub session_score: u64,
    pub conn_state: ConnState,
    pub recent_events: u32,
}

/// How far one event raises the meter: more when it is low.
pub open spec fn meter_boost(recent: u32) -> u32 {
    if recent < 8 {
        3
    } else if recent < 16 {
        2
    } else {
        1
    }
}

/// The meter after one event: raised by the boost, capped at its size.
pub open spec fn meter_after_event(recent: u32) -> u32 {
    if recent + meter_boost(recent) <= RECENT_EVENTS_MAX {
        (recent + meter_boost(recent)) as u32
    } else {
        RECENT_EVENTS_MAX
    }
}

/// The meter after one poll tick: lowered by the decay, not below zero.
pub open spec fn meter_after_tick(recent: u32) -> u32 {
    if recent >= RECENT_EVENTS_DECAY {
        (recent - RECENT_EVENTS_DECAY) as u32
    } else {
        0
    }
}

impl AppState {
    /// The state's invariant: the counts are a table and the meter is within
    /// its segments.
    pub open spec fn wf(&self) -> bool {
        &&& self.score.wf()
        &&& self.recent_events <= RECENT_EVENTS_MAX
    }

    /// Whether one event of `topic` worth `score` can be counted without a
    /// total, the session score or the topic's count passing `u64::MAX`.
    pub open spec fn event_fits(&self, topic: Seq<char>, score: u64) -> bool {
        &&& self.score.total_score + score <= u64::MAX
        &&& self.session_score + score <= u64::MAX
        &&& self.score.event_counts.count_of(topic) < u64::MAX
    }

    /// The state at start-up: the loaded score, nothing to save, no session
    /// score, idle, the meter empty.
    pub fn new(score: ScoreData) -> (s: AppState)
        requires
            score.wf(),
        ensures
            s.wf(),
            s.score == score,
            !s.score_dirty,
            s.session_score == 0,
            s.conn_state == ConnState::Idle,
            s.recent_events == 0,
    {
        AppState {
            score,
            score_dirty: false,
            session_score: 0,
            conn_state: ConnState::Idle,
            recent_events: 0,
        }
    }

    /// What the user interface is shown of the state.
    pub fn payload(&self) -> (p: ScorePayload)
        requires
            self.wf(),
        ensures
            p.total_score == self.score.total_score,
            p.session_score == self.session_score,
            p.event_counts.wf(),
            p.event_counts@ == self.score.event_counts@,
            p.state@ == conn_state_name(self.conn_state),
            p.recent_events == self.recent_events,
    {
        ScorePayload {
            total_score: self.score.total_score,
            session_score: self.session_score,
            event_counts: self.score.event_counts.copy(),
            state: self.conn_state.name(),
            recent_events: self.recent_events,
        }
    }

    /// Moves to `new_state`; says whether it differed, in which case the
    /// user interface is to be told.
    pub fn set_conn_state(&mut self, new_state: ConnState) -> (changed: bool)
        ensures
            changed == (old(self).conn_state != new_state),
            final(self).conn_state == new_state,
            final(self).score == old(self).score,
            final(self).score_dirty == old(self).score_dirty,
            final(self).session_score == old(self).session_score,
            final(self).recent_events == old(self).recent_events,
    {
        if self.conn_state != new_state {
            self.conn_state = new_state;
            true
        } else {
            false
        }
    }

    /// Whether `record_event` may count one event of `topic` worth `score`.
    pub fn event_fits_exec(&self, topic: &str, score: u64) -> (b: bool)
        requires
            self.wf(),
        ensures
            b == self.event_fits(topic@, score),
    {
        let count = match self.score.event_counts.get(topic) {
            Some(c) => c,
            None => 0,
        };
        score <= u64::MAX - self.score.total_score && score <= u64::MAX - self.session_score
            && count < u64::MAX
    }

    /// Counts one event of `topic` worth `score`: its count goes up by one,
    /// the rank total and the session score by `score`, the score is marked
    /// unsaved and the meter rises.
    pub fn record_event(&mut self, topic: &str, score: u64)
        requires
            old(self).wf(),
            old(self).event_fits(topic@, score),
        ensures
            final(self).wf(),
            final(self).score.event_counts@ == old(self).score.event_counts@.insert(
                topic@,
                (old(self).score.event_counts.count_of(topic@) + 1) as u64,
            ),
            final(self).score.total_score == old(self).score.total_score + score,
            final(self).session_score == old(self).session_score + score,
            final(self).score_dirty,
            final(self).recent_events == meter_after_event(old(self).recent_events),
            final(self).conn_state == old(self).conn_state,
    {
        self.score.event_counts.increment(topic);
        self.score.total_score = self.score.total_score + score;
        self.score_dirty = true;
        self.session_score = self.session_score + score;
        let boost: u32 = if self.recent_events < 8 {
            3
        } else if self.recent_events < 16 {
            2
        } else {
            1
        };
        let raised = self.recent_events + boost;
        self.recent_events = if raised < RECENT_EVENTS_MAX {
            raised
        } else {
            RECENT_EVENTS_MAX
        };
    }

    /// On a poll tick: where the meter shows anything it drops by the decay
    /// and the user interface is to be told (the result); an empty meter
    /// stays as it is.
    pub fn decay_meter(&mut self) -> (changed: bool)
        requires
            old(self).wf(),
        ensures
            final(self).wf(),
            changed == (old(self).recent_events > 0),
            final(self).recent_events == (if changed {
                meter_after_tick(old(self).recent_events)
            } else {
                old(self).recent_events
            }),
            final(self).score == old(self).score,
            final(self).score_dirty == old(self).score_dirty,
            final(self).session_score == old(self).session_score,
            final(self).conn_state == old(self).conn_state,
    {
        if self.recent_events > 0 {
            self.recent_events = self.recent_events.saturating_sub(RECENT_EVENTS_DECAY);
            true
        } else {
            false
        }
    }

    /// On a poll tick, `elapsed_ms` after the last write of the score file:
    /// where the score is unsaved and the interval has passed, marks it saved
    /// and hands out a copy to write; otherwise nothing changes.
    pub fn take_score_to_flush(&mut self, elapsed_ms: u64) -> (snapshot: Option<ScoreData>)
        requires
            old(self).wf(),
        ensures
            final(self).wf(),
            final(self).score == old(self).score,
            final(self).session_score == old(self).session_score,
            final(self).conn_state == old(self).conn_state,
            final(self).recent_events == old(self).recent_events,
            match snapshot {
                Some(d) => {
                    &&& old(self).score_dirty
                    &&& elapsed_ms >= SCORE_FLUSH_INTERVAL_MS
                    &&& !final(self).score_dirty
                    &&& d.wf()
                    &&& d.total_score == old(self).score.total_score
                    &&& d.event_counts@ == old(self).score.event_counts@
                },
                None => {
                    &&& !(old(self).score_dirty && elapsed_ms >= SCORE_FLUSH_INTERVAL_MS)
                    &&& final(self).score_dirty == old(self).score_dirty
                },
            },
    {
        if self.score_dirty && elapsed_ms >= SCORE_FLUSH_INTERVAL_MS {
            self.score_dirty = false;
            Some(self.score.copy())
        } else {
            None
        }
    }

    /// Resets the rank: the total goes to zero, every count is dropped and
    /// nothing is left unsaved (the caller writes the cleared score). The
    /// session score stays.
    pub fn reset_total_score(&mut self)
        requires
            old(self).wf(),
        ensures
            final(self).wf(),
            final(self).score.total_score == 0,
            final(self).score.event_counts@ == Map::<Seq<char>, u64>::empty(),
            !final(self).score_dirty,
            final(self).session_score == old(self).session_score,
            final(self).conn_state == old(self).conn_state,
            final(self).recent_events == old(self).recent_events,
    {
        self.score.total_score = 0;
        self.score.event_counts.clear();
        self.score_dirty = false;
    }
}

/// Law: the meter has twenty-four segments and loses two per tick, and the
/// score is written at most once every three seconds.
pub proof fn lemma_state_constants()
    ensures
        RECENT_EVENTS_MAX == 24,
        RECENT_EVENTS_DECAY == 2,
        SCORE_FLUSH_INTERVAL_MS == 3000,
{
}

/// Law: the reported names of the connection states.
pub proof fn lemma_conn_state_names()
    ensures
        conn_state_name(ConnState::Idle) == "Idle"@,
        conn_state_name(ConnState::Scanning) == "Scanning"@,
        conn_state_name(ConnState::Connected) == "Connected"@,
{
}

/// Law: a tick lowers a meter by exactly two segments, or empties it where
/// it shows fewer than two; a run of ticks lowers it two at a time.
pub proof fn lemma_meter_tick_drops_by_two(recent: u32)
    ensures
        recent >= 2 ==> meter_after_tick(recent) + 2 == recent,
        recent < 2 ==> meter_after_tick(recent) == 0,
        meter_after_tick(recent) <= recent,
        recent >= 4 ==> meter_after_tick(meter_after_tick(recent)) + 4 == recent,
{
}

/// Law: an event raises the meter by three segments while it shows fewer
/// than eight, by two below sixteen and by one above, never past the
/// twenty-four segments.
pub proof fn lemma_meter_event_raise(recent: u32)
    requires
        recent <= RECENT_EVENTS_MAX,
    ensures
        recent < 8 ==> meter_after_event(recent) == recent + 3,
        8 <= recent < 16 ==> meter_after_event(recent) == recent + 2,
        16 <= recent < 24 ==> meter_after_event(recent) == recent + 1,
        recent == 24 ==> meter_after_event(recent) == 24,
{
}

/// Law: an event can be counted exactly when adding it passes no `u64`
/// limit: neither the rank total, nor the session score, nor the topic's
/// count; there is no other bound on how often a topic is counted.
pub proof fn lemma_event_fits_iff_no_overflow(st: AppState, topic: Seq<char>, score: u64)
    ensures
        st.event_fits(topic, score) <==> (st.score.total_score as int + score as int
            <= 0xffff_ffff_ffff_ffff && st.session_score as int + score as int
            <= 0xffff_ffff_ffff_ffff && st.score.event_counts.count_of(topic) as int + 1
            <= 0xffff_ffff_ffff_ffff),
{
}

/// Law: the meter stays within its segments whatever it shows, across an
/// event and across a tick.
pub proof fn lemma_meter_bounded(recent: u32)
    requires
        recent <= RECENT_EVENTS_MAX,
    ensures
        meter_after_event(recent) <= RECENT_EVENTS_MAX,
        meter_after_tick(recent) <= recent,
        recent < RECENT_EVENTS_MAX ==> meter_after_event(recent) > recent,
{
}

} // verus!

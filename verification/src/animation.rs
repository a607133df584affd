//! Playback of animated images: frame timing, looping, pausing and stepping.
use std::sync::Arc;
use vstd::prelude::*;

use crate::settings::AnimationTimingSettings;
use crate::shared::share;

verus! {

#[derive(Debug, Clone, Copy, PartialEq, Eq, Structural)]
pub enum AnimationLoopPolicy {
    Infinite,
    Finite { repeat_count: u32 },
}

impl AnimationLoopPolicy {
    /// A repeat count of zero means the animation loops forever.
    pub fn finite(repeat_count: u32) -> (policy: Self)
        ensures
            policy == (if repeat_count == 0 {
                AnimationLoopPolicy::Infinite
            } else {
                AnimationLoopPolicy::Finite { repeat_count }
            }),
    {
        if repeat_count == 0 {
            AnimationLoopPolicy::Infinite
        } else {
            AnimationLoopPolicy::Finite { repeat_count }
        }
    }
}

#[derive(Debug, Clone, Copy, PartialEq, Eq, Structural)]
pub enum AnimationPlaybackState {
    Playing,
    Paused,
    Finished,
}

#[derive(Debug, Clone, Copy, PartialEq, Eq, Structural)]
pub enum AnimationFrameStepDirection {
    Previous,
    Next,
}

/// The mathematical state of a playback.
pub struct PlaybackView {
    /// The delays the image declares.
    pub source_delays: Seq<u32>,
    /// The delays the frames are shown for.
    pub delays: Seq<u32>,
    pub current: int,
    pub loop_policy: AnimationLoopPolicy,
    pub state: AnimationPlaybackState,
    pub completed_loops: u32,
}

impl PlaybackView {
    pub open spec fn frame_count(self) -> int {
        self.delays.len() as int
    }

    /// The playback at `frame` (limited to the last frame), with a state and loop count.
    pub open spec fn at_frame(self, frame: int, state: AnimationPlaybackState, completed_loops: u32) -> PlaybackView {
        PlaybackView {
            current: if frame < self.frame_count() - 1 {
                frame
            } else {
                self.frame_count() - 1
            },
            state,
            completed_loops,
            ..self
        }
    }
}

/// `a + 1`, saturating at `u32::MAX`.
pub open spec fn saturating_increment(a: u32) -> u32 {
    if a == u32::MAX {
        a
    } else {
        (a + 1) as u32
    }
}

/// What a timer tick does: advance a playing animation one frame; at the last
/// frame start the next loop, or finish on the last frame once the requested
/// loops are done. Returns the next playback and the frame to show, if any.
pub open spec fn after_timer_tick(p: PlaybackView) -> (PlaybackView, Option<int>) {
    if p.state != AnimationPlaybackState::Playing || p.frame_count() < 2 {
        (p, None)
    } else if p.current + 1 < p.frame_count() {
        (p.at_frame(p.current + 1, AnimationPlaybackState::Playing, p.completed_loops), Some(p.current + 1))
    } else {
        let loops = saturating_increment(p.completed_loops);
        match p.loop_policy {
            AnimationLoopPolicy::Infinite => (p.at_frame(0, AnimationPlaybackState::Playing, loops), Some(0)),
            AnimationLoopPolicy::Finite { repeat_count } => if loops >= repeat_count {
                (p.at_frame(p.current, AnimationPlaybackState::Finished, loops), None)
            } else {
                (p.at_frame(0, AnimationPlaybackState::Playing, loops), Some(0))
            },
        }
    }
}

/// What play/pause does: pause a playing animation, resume a paused one, and
/// restart a finished one from its first frame.
pub open spec fn after_toggle(p: PlaybackView) -> (PlaybackView, Option<int>) {
    match p.state {
        AnimationPlaybackState::Playing => (p.at_frame(p.current, AnimationPlaybackState::Paused, p.completed_loops), None),
        AnimationPlaybackState::Paused => (p.at_frame(p.current, AnimationPlaybackState::Playing, p.completed_loops), None),
        AnimationPlaybackState::Finished => (
            p.at_frame(0, AnimationPlaybackState::Playing, 0),
            if p.current != 0 {
                Some(0)
            } else {
                None
            },
        ),
    }
}

/// What a manual step does: pause and move one frame, stopping at either end.
pub open spec fn after_manual_step(p: PlaybackView, direction: AnimationFrameStepDirection) -> (PlaybackView, Option<int>) {
    let next = match direction {
        AnimationFrameStepDirection::Previous => if p.current > 0 {
            p.current - 1
        } else {
            0
        },
        AnimationFrameStepDirection::Next => if p.current + 1 < p.frame_count() - 1 {
            p.current + 1
        } else {
            p.frame_count() - 1
        },
    };
    (
        p.at_frame(next, AnimationPlaybackState::Paused, p.completed_loops),
        if next != p.current {
            Some(next)
        } else {
            None
        },
    )
}

/// What Home does: pause on the first frame.
pub open spec fn after_home(p: PlaybackView) -> (PlaybackView, Option<int>) {
    (
        p.at_frame(0, AnimationPlaybackState::Paused, p.completed_loops),
        if p.current != 0 {
            Some(0)
        } else {
            None
        },
    )
}

/// The delays of `source` as the timing settings show them.
pub open spec fn normalized_delays(source: Seq<u32>, timing: AnimationTimingSettings) -> Seq<u32> {
    source.map_values(|delay: u32| timing.normalize_frame_delay_ms(delay))
}

/// An animation's frame delays and where its playback stands. It has at least
/// two frames and the current frame is one of them.
#[derive(Debug, PartialEq, Eq)]
pub struct AnimationPlayback {
    source_frame_delays_ms: Arc<Vec<u32>>,
    frame_delays_ms: Arc<Vec<u32>>,
    current_frame_index: usize,
    loop_policy: AnimationLoopPolicy,
    playback_state: AnimationPlaybackState,
    completed_loops: u32,
}

impl View for AnimationPlayback {
    type V = PlaybackView;

    closed spec fn view(&self) -> PlaybackView {
        PlaybackView {
            source_delays: self.source_frame_delays_ms@,
            delays: self.frame_delays_ms@,
            current: self.current_frame_index as int,
            loop_policy: self.loop_policy,
            state: self.playback_state,
            completed_loops: self.completed_loops,
        }
    }
}

/// A playback view that an `AnimationPlayback` can hold.
pub open spec fn playback_wf(p: PlaybackView) -> bool {
    &&& p.delays.len() == p.source_delays.len()
    &&& p.delays.len() >= 2
    &&& 0 <= p.current < p.delays.len()
}

impl AnimationPlayback {
    #[verifier::type_invariant]
    closed spec fn wf(self) -> bool {
        playback_wf(self@)
    }

    /// A playback at the first frame with the default timing; `None` for fewer
    /// than two frames.
    pub fn new(frame_delays_ms: Vec<u32>, loop_policy: AnimationLoopPolicy) -> (playback: Option<Self>)
        ensures
            playback is Some <==> frame_delays_ms@.len() >= 2,
            playback matches Some(p) ==> p@ == (PlaybackView {
                source_delays: frame_delays_ms@,
                delays: normalized_delays(frame_delays_ms@, AnimationTimingSettings::spec_defaults()),
                current: 0,
                loop_policy,
                state: AnimationPlaybackState::Playing,
                completed_loops: 0,
            }),
    {
        Self::new_with_timing(frame_delays_ms, loop_policy, AnimationTimingSettings::defaults())
    }

    /// A playback at the first frame whose delays are normalized by `timing`;
    /// `None` for fewer than two frames.
    pub fn new_with_timing(
        frame_delays_ms: Vec<u32>,
        loop_policy: AnimationLoopPolicy,
        timing: AnimationTimingSettings,
    ) -> (playback: Option<Self>)
        ensures
            playback is Some <==> frame_delays_ms@.len() >= 2,
            playback matches Some(p) ==> p@ == (PlaybackView {
                source_delays: frame_delays_ms@,
                delays: normalized_delays(frame_delays_ms@, timing),
                current: 0,
                loop_policy,
                state: AnimationPlaybackState::Playing,
                completed_loops: 0,
            }),
    {
        if frame_delays_ms.len() < 2 {
            return None;
        }
        let normalized = normalize_delays(&frame_delays_ms, timing);
        Some(Self {
            source_frame_delays_ms: Arc::new(frame_delays_ms),
            frame_delays_ms: Arc::new(normalized),
            current_frame_index: 0,
            loop_policy,
            playback_state: AnimationPlaybackState::Playing,
            completed_loops: 0,
        })
    }

    pub fn frame_count(&self) -> (count: usize)
        ensures
            count == self@.frame_count(),
            count >= 2,
            playback_wf(self@),
    {
        proof {
            use_type_invariant(self);
        }
        self.frame_delays_ms.len()
    }

    pub fn current_frame_index(&self) -> (index: usize)
        ensures
            index == self@.current,
            index < self@.frame_count(),
    {
        proof {
            use_type_invariant(self);
        }
        self.current_frame_index
    }

    pub fn loop_policy(&self) -> (policy: AnimationLoopPolicy)
        ensures
            policy == self@.loop_policy,
    {
        self.loop_policy
    }

    pub fn playback_state(&self) -> (state: AnimationPlaybackState)
        ensures
            state == self@.state,
    {
        self.playback_state
    }

    pub fn completed_loops(&self) -> (loops: u32)
        ensures
            loops == self@.completed_loops,
    {
        self.completed_loops
    }

    pub fn frame_delay_ms(&self, frame_index: usize) -> (delay: Option<u32>)
        ensures
            delay == (if frame_index < self@.frame_count() {
                Some(self@.delays[frame_index as int])
            } else {
                None
            }),
    {
        if frame_index < self.frame_delays_ms.len() {
            Some(self.frame_delays_ms[frame_index])
        } else {
            None
        }
    }

    pub fn frame_delays_ms(&self) -> (delays: &[u32])
        ensures
            delays@ == self@.delays,
    {
        self.frame_delays_ms.as_slice()
    }

    /// The delays the image declares, before normalization.
    pub fn source_frame_delays_ms(&self) -> (delays: &[u32])
        ensures
            delays@ == self@.source_delays,
    {
        self.source_frame_delays_ms.as_slice()
    }

    /// The same playback position with the declared delays normalized anew; the
    /// declared delays stay shared.
    pub fn with_timing_settings(&self, timing: AnimationTimingSettings) -> (retimed: Self)
        ensures
            retimed@ == (PlaybackView { delays: normalized_delays(self@.source_delays, timing), ..self@ }),
    {
        proof {
            use_type_invariant(self);
        }
        let normalized = normalize_delays(&self.source_frame_delays_ms, timing);
        Self {
            source_frame_delays_ms: share(&self.source_frame_delays_ms),
            frame_delays_ms: Arc::new(normalized),
            current_frame_index: self.current_frame_index,
            loop_policy: self.loop_policy,
            playback_state: self.playback_state,
            completed_loops: self.completed_loops,
        }
    }

    fn with_current_frame(
        &self,
        current_frame_index: usize,
        playback_state: AnimationPlaybackState,
        completed_loops: u32,
    ) -> (next: Self)
        ensures
            next@ == self@.at_frame(current_frame_index as int, playback_state, completed_loops),
    {
        proof {
            use_type_invariant(self);
        }
        let last = self.frame_delays_ms.len() - 1;
        let index = if current_frame_index < last {
            current_frame_index
        } else {
            last
        };
        Self {
            source_frame_delays_ms: share(&self.source_frame_delays_ms),
            frame_delays_ms: share(&self.frame_delays_ms),
            current_frame_index: index,
            loop_policy: self.loop_policy,
            playback_state,
            completed_loops,
        }
    }

    fn with_playback_state(&self, playback_state: AnimationPlaybackState) -> (next: Self)
        ensures
            next@ == self@.at_frame(self@.current, playback_state, self@.completed_loops),
    {
        self.with_current_frame(self.current_frame_index, playback_state, self.completed_loops)
    }

    /// The same position, playing when `autoplay` and paused otherwise.
    pub fn with_autoplay(&self, autoplay: bool) -> (next: Self)
        ensures
            next@ == self@.at_frame(
                self@.current,
                if autoplay {
                    AnimationPlaybackState::Playing
                } else {
                    AnimationPlaybackState::Paused
                },
                self@.completed_loops,
            ),
    {
        let playback_state = if autoplay {
            AnimationPlaybackState::Playing
        } else {
            AnimationPlaybackState::Paused
        };
        self.with_current_frame(self.current_frame_index, playback_state, self.completed_loops)
    }
}

impl Clone for AnimationPlayback {
    /// A clone shares both delay buffers.
    fn clone(&self) -> (cloned: Self)
        ensures
            cloned@ == self@,
    {
        proof {
            use_type_invariant(self);
        }
        Self {
            source_frame_delays_ms: share(&self.source_frame_delays_ms),
            frame_delays_ms: share(&self.frame_delays_ms),
            current_frame_index: self.current_frame_index,
            loop_policy: self.loop_policy,
            playback_state: self.playback_state,
            completed_loops: self.completed_loops,
        }
    }
}

fn normalize_delays(source: &Vec<u32>, timing: AnimationTimingSettings) -> (delays: Vec<u32>)
    ensures
        delays@ == normalized_delays(source@, timing),
{
    let mut delays: Vec<u32> = Vec::new();
    let mut i: usize = 0;
    while i < source.len()
        invariant
            i <= source@.len(),
            delays@ == normalized_delays(source@.take(i as int), timing),
        decreases source@.len() - i,
    {
        delays.push(timing.normalize_frame_delay_ms(source[i]));
        assert(source@.take(i as int + 1) == source@.take(i as int).push(source@[i as int]));
        i = i + 1;
    }
    assert(source@.take(source@.len() as int) == source@);
    delays
}

/// A playback and the frame that the viewer must now show, if it changed.
#[derive(Debug, Clone, PartialEq, Eq)]
pub struct AnimationPlaybackTransition {
    state: AnimationPlayback,
    frame_index: Option<usize>,
}

impl AnimationPlaybackTransition {
    pub closed spec fn spec_state(&self) -> AnimationPlayback {
        self.state
    }

    pub closed spec fn spec_frame_index(&self) -> Option<usize> {
        self.frame_index
    }

    /// Whether this transition is `(p, frame)` of the spec functions above.
    pub open spec fn is(&self, p: PlaybackView, frame: Option<int>) -> bool {
        &&& self.spec_state()@ == p
        &&& match frame {
            Some(f) => self.spec_frame_index() == Some(f as usize) && f == p.current,
            None => self.spec_frame_index() is None,
        }
    }

    pub fn state(&self) -> (state: &AnimationPlayback)
        ensures
            *state == self.spec_state(),
    {
        &self.state
    }

    pub fn frame_index(&self) -> (index: Option<usize>)
        ensures
            index == self.spec_frame_index(),
    {
        self.frame_index
    }

    pub fn into_parts(self) -> (parts: (AnimationPlayback, Option<usize>))
        ensures
            parts.0 == self.spec_state(),
            parts.1 == self.spec_frame_index(),
    {
        (self.state, self.frame_index)
    }
}

fn animation_transition(state: AnimationPlayback, frame_index: Option<usize>) -> (transition: AnimationPlaybackTransition)
    ensures
        transition.spec_state() == state,
        transition.spec_frame_index() == frame_index,
{
    AnimationPlaybackTransition { state, frame_index }
}

/// How long to wait before the next frame: the current frame's delay while
/// playing, and nothing otherwise.
pub fn animation_timer_interval_ms(playback: &AnimationPlayback) -> (interval: Option<u32>)
    ensures
        interval == (if playback@.state == AnimationPlaybackState::Playing {
            Some(playback@.delays[playback@.current])
        } else {
            None
        }),
{
    if playback.playback_state() != AnimationPlaybackState::Playing || playback.frame_count() < 2 {
        return None;
    }
    playback.frame_delay_ms(playback.current_frame_index())
}

pub fn animation_state_after_timer_tick(playback: &AnimationPlayback) -> (transition: AnimationPlaybackTransition)
    ensures
        transition.is(after_timer_tick(playback@).0, after_timer_tick(playback@).1),
{
    let count = playback.frame_count();
    if playback.playback_state() != AnimationPlaybackState::Playing || count < 2 {
        return animation_transition(playback.clone(), None);
    }
    let current = playback.current_frame_index();
    if current + 1 < count {
        let next_frame = current + 1;
        return animation_transition(
            playback.with_current_frame(next_frame, AnimationPlaybackState::Playing, playback.completed_loops()),
            Some(next_frame),
        );
    }
    let completed_loops = playback.completed_loops().saturating_add(1);
    match playback.loop_policy() {
        AnimationLoopPolicy::Infinite => animation_transition(
            playback.with_current_frame(0, AnimationPlaybackState::Playing, completed_loops),
            Some(0),
        ),
        AnimationLoopPolicy::Finite { repeat_count } => {
            if completed_loops >= repeat_count {
                animation_transition(
                    playback.with_current_frame(current, AnimationPlaybackState::Finished, completed_loops),
                    None,
                )
            } else {
                animation_transition(
                    playback.with_current_frame(0, AnimationPlaybackState::Playing, completed_loops),
                    Some(0),
                )
            }
        },
    }
}

pub fn animation_state_after_toggle(playback: &AnimationPlayback) -> (transition: AnimationPlaybackTransition)
    ensures
        transition.is(after_toggle(playback@).0, after_toggle(playback@).1),
{
    match playback.playback_state() {
        AnimationPlaybackState::Playing => animation_transition(
            playback.with_playback_state(AnimationPlaybackState::Paused),
            None,
        ),
        AnimationPlaybackState::Paused => animation_transition(
            playback.with_playback_state(AnimationPlaybackState::Playing),
            None,
        ),
        AnimationPlaybackState::Finished => {
            let frame_index = if playback.current_frame_index() != 0 {
                Some(0)
            } else {
                None
            };
            animation_transition(playback.with_current_frame(0, AnimationPlaybackState::Playing, 0), frame_index)
        },
    }
}

pub fn animation_state_after_manual_step(
    playback: &AnimationPlayback,
    direction: AnimationFrameStepDirection,
) -> (transition: AnimationPlaybackTransition)
    ensures
        transition.is(after_manual_step(playback@, direction).0, after_manual_step(playback@, direction).1),
{
    let current = playback.current_frame_index();
    let count = playback.frame_count();
    let next_frame = match direction {
        AnimationFrameStepDirection::Previous => if current > 0 {
            current - 1
        } else {
            0
        },
        AnimationFrameStepDirection::Next => if current + 1 < count - 1 {
            current + 1
        } else {
            count - 1
        },
    };
    let frame_index = if next_frame != current {
        Some(next_frame)
    } else {
        None
    };
    animation_transition(
        playback.with_current_frame(next_frame, AnimationPlaybackState::Paused, playback.completed_loops()),
        frame_index,
    )
}

pub fn animation_state_after_home(playback: &AnimationPlayback) -> (transition: AnimationPlaybackTransition)
    ensures
        transition.is(after_home(playback@).0, after_home(playback@).1),
{
    let frame_index = if playback.current_frame_index() != 0 {
        Some(0)
    } else {
        None
    };
    animation_transition(
        playback.with_current_frame(0, AnimationPlaybackState::Paused, playback.completed_loops()),
        frame_index,
    )
}

/// Every transition keeps a valid playback valid, keeps the delays, and reports
/// a frame only when it is the new current frame.
pub proof fn law_transitions_keep_playback_valid(p: PlaybackView, direction: AnimationFrameStepDirection)
    requires
        playback_wf(p),
    ensures
        playback_wf(after_timer_tick(p).0) && after_timer_tick(p).0.delays == p.delays,
        playback_wf(after_toggle(p).0) && after_toggle(p).0.delays == p.delays,
        playback_wf(after_manual_step(p, direction).0) && after_manual_step(p, direction).0.delays == p.delays,
        playback_wf(after_home(p).0) && after_home(p).0.delays == p.delays,
        after_timer_tick(p).1 matches Some(f) ==> f == after_timer_tick(p).0.current,
        after_toggle(p).1 matches Some(f) ==> f == after_toggle(p).0.current,
        after_manual_step(p, direction).1 matches Some(f) ==> f == after_manual_step(p, direction).0.current,
        after_home(p).1 matches Some(f) ==> f == after_home(p).0.current,
{
}

/// Pausing and resuming (or resuming and pausing) gives the playback back, and
/// a timer tick leaves a paused or finished playback unchanged.
pub proof fn law_toggle_round_trip(p: PlaybackView)
    requires
        playback_wf(p),
        p.state != AnimationPlaybackState::Finished,
    ensures
        after_toggle(after_toggle(p).0).0 == p,
        after_toggle(p).0.state != p.state,
        after_timer_tick(after_toggle(p).0).0 == after_toggle(p).0 || p.state
            == AnimationPlaybackState::Paused,
{
}

/// Stepping forward then back (or back then forward) from an inner frame
/// returns to the same frame, paused.
pub proof fn law_step_round_trip(p: PlaybackView)
    requires
        playback_wf(p),
        0 < p.current < p.frame_count() - 1,
    ensures
        after_manual_step(after_manual_step(p, AnimationFrameStepDirection::Next).0, AnimationFrameStepDirection::Previous).0.current == p.current,
        after_manual_step(after_manual_step(p, AnimationFrameStepDirection::Previous).0, AnimationFrameStepDirection::Next).0.current == p.current,
{
}

/// Playing through a finite animation: after the last frame the playback
/// either starts over at frame 0 or, once the loops are done, finishes on the
/// last frame and shows nothing new.
pub proof fn law_timer_tick_at_last_frame(p: PlaybackView)
    requires
        playback_wf(p),
        p.state == AnimationPlaybackState::Playing,
        p.current == p.frame_count() - 1,
    ensures
        (after_timer_tick(p).0.current == 0 && after_timer_tick(p).1 == Some(0int)
            && after_timer_tick(p).0.state == AnimationPlaybackState::Playing) || (
        after_timer_tick(p).0.current == p.current && after_timer_tick(p).1 is None
            && after_timer_tick(p).0.state == AnimationPlaybackState::Finished),
{
}

/// At the end of a pass a playing animation counts one more completed loop.
/// With a finite repeat count `n` it finishes, staying on the last frame and
/// showing nothing new, exactly when that makes at least `n` loops; before
/// that it starts the next pass at frame 0. An animation that loops forever
/// always starts over.
pub proof fn law_finite_loop_ends_after_its_count(p: PlaybackView)
    requires
        playback_wf(p),
        p.state == AnimationPlaybackState::Playing,
        p.current == p.frame_count() - 1,
    ensures
        p.completed_loops < u32::MAX ==> after_timer_tick(p).0.completed_loops == p.completed_loops + 1,
        p.completed_loops == u32::MAX ==> after_timer_tick(p).0.completed_loops == u32::MAX,
        p.loop_policy matches AnimationLoopPolicy::Finite { repeat_count } && p.completed_loops + 1 >= repeat_count
            ==> {
            &&& after_timer_tick(p).0.state == AnimationPlaybackState::Finished
            &&& after_timer_tick(p).0.current == p.current
            &&& after_timer_tick(p).1 is None
        },
        p.loop_policy matches AnimationLoopPolicy::Finite { repeat_count } && p.completed_loops + 1 < repeat_count
            ==> {
            &&& after_timer_tick(p).0.state == AnimationPlaybackState::Playing
            &&& after_timer_tick(p).0.current == 0
            &&& after_timer_tick(p).1 == Some(0int)
        },
        p.loop_policy == AnimationLoopPolicy::Infinite ==> {
            &&& after_timer_tick(p).0.state == AnimationPlaybackState::Playing
            &&& after_timer_tick(p).0.current == 0
            &&& after_timer_tick(p).1 == Some(0int)
        },
{
}

/// The playback after `ticks` timer ticks.
pub open spec fn after_ticks(p: PlaybackView, ticks: nat) -> PlaybackView
    decreases ticks,
{
    if ticks == 0 {
        p
    } else {
        after_timer_tick(after_ticks(p, (ticks - 1) as nat)).0
    }
}

/// Started on its first frame, an animation that repeats `n` times plays
/// every frame of `n` full passes in order: after `j < n * frames` ticks it
/// is playing frame `j % frames` with `j / frames` loops completed, and the
/// tick after the last frame of the last pass finishes it on that frame with
/// `n` loops completed.
pub proof fn law_finite_animation_plays_its_passes(p: PlaybackView, n: u32, j: nat)
    requires
        playback_wf(p),
        p.state == AnimationPlaybackState::Playing,
        p.current == 0,
        p.completed_loops == 0,
        p.loop_policy == (AnimationLoopPolicy::Finite { repeat_count: n }),
        n >= 1,
    ensures
        j < n * p.frame_count() ==> {
            &&& after_ticks(p, j).state == AnimationPlaybackState::Playing
            &&& after_ticks(p, j).current == (j as int) % p.frame_count()
            &&& after_ticks(p, j).completed_loops == (j as int) / p.frame_count()
            &&& after_ticks(p, j).delays == p.delays
            &&& after_ticks(p, j).loop_policy == p.loop_policy
        },
        j == n * p.frame_count() ==> {
            &&& after_ticks(p, j).state == AnimationPlaybackState::Finished
            &&& after_ticks(p, j).current == p.frame_count() - 1
            &&& after_ticks(p, j).completed_loops == n
        },
    decreases j,
{
    let f = p.frame_count();
    assert(n * f >= f) by (nonlinear_arith)
        requires
            n >= 1,
            f >= 2,
    ;
    if j == 0 {
        vstd::arithmetic::div_mod::lemma_fundamental_div_mod_converse(0, f, 0, 0);
    } else if j <= n * f {
        let i = (j - 1) as nat;
        law_finite_animation_plays_its_passes(p, n, i);
        let q = (i as int) / f;
        let r = (i as int) % f;
        assert(i == q * f + r && 0 <= r < f) by {
            vstd::arithmetic::div_mod::lemma_fundamental_div_mod(i as int, f);
            vstd::arithmetic::div_mod::lemma_mod_bound(i as int, f);
        }
        assert(0 <= q < n) by (nonlinear_arith)
            requires
                i == q * f + r,
                0 <= r < f,
                i < n * f,
                i >= 0,
                f >= 2,
        ;
        if r + 1 < f {
            vstd::arithmetic::div_mod::lemma_fundamental_div_mod_converse(j as int, f, q, r + 1);
            assert(j != n * f) by (nonlinear_arith)
                requires
                    j == q * f + r + 1,
                    0 <= r,
                    r + 1 < f,
            ;
        } else {
            assert(j == (q + 1) * f) by (nonlinear_arith)
                requires
                    i == q * f + r,
                    r + 1 == f,
                    j == i + 1,
            ;
            vstd::arithmetic::div_mod::lemma_fundamental_div_mod_converse(j as int, f, q + 1, 0);
            if j < n * f {
                assert(q + 1 < n) by (nonlinear_arith)
                    requires
                        j == (q + 1) * f,
                        j < n * f,
                        f >= 2,
                ;
            } else {
                assert(q + 1 == n) by (nonlinear_arith)
                    requires
                        j == (q + 1) * f,
                        j == n * f,
                        f >= 2,
                ;
            }
        }
    }
}

} // verus!

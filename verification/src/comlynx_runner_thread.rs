//! Fixed-step pacing strategy: ticks the core in fixed-size groups at a rate
//! locked to the virtual crystal frequency, serving pull-based audio
//! requests while spinning between group deadlines.

use vstd::prelude::*;

use std::collections::VecDeque;

use crate::channel::{
    channel_is_disconnected, channel_send, channel_try_recv, publish_latest,
};
use crate::runner::{input_decision, InputPoll, Rotation};
use crate::runner_config::RunnerConfig;
use crate::timing::{duration_from_nanos, instant_before, instant_now, instant_plus};
use crate::SAMPLE_TICKS;

verus! {

/// Number of core ticks executed per outer-loop iteration.
pub const TICK_GROUP: u32 = 8;

/// Nanoseconds each tick group is scheduled to occupy: the duration of
/// `TICK_GROUP` ticks of the crystal.
pub const TICK_GROUP_NANOS: u64 = 500;

/// Fixed-step accounting: `n` tick groups execute `n * TICK_GROUP` ticks over
/// a schedule of `n * TICK_GROUP_NANOS` nanoseconds, which is exactly the
/// crystal frequency — the per-iteration deadline advance introduces no
/// drift, however many iterations accumulate.
pub proof fn lemma_fixed_step_no_drift(n: nat)
    ensures
        n * (TICK_GROUP as nat) * 1_000_000_000 == n * (TICK_GROUP_NANOS as nat) * (
        crate::CRYSTAL_FREQUENCY as nat),
{
    assert((TICK_GROUP as nat) * 1_000_000_000 == (TICK_GROUP_NANOS as nat) * (
    crate::CRYSTAL_FREQUENCY as nat));
    assert(n * (TICK_GROUP as nat) * 1_000_000_000 == n * ((TICK_GROUP as nat) * 1_000_000_000))
        by (nonlinear_arith);
    assert(n * (TICK_GROUP_NANOS as nat) * (crate::CRYSTAL_FREQUENCY as nat) == n * ((
    TICK_GROUP_NANOS as nat) * (crate::CRYSTAL_FREQUENCY as nat))) by (nonlinear_arith);
    assert(n * ((TICK_GROUP as nat) * 1_000_000_000) == n * ((TICK_GROUP_NANOS as nat) * (
    crate::CRYSTAL_FREQUENCY as nat))) by (nonlinear_arith)
        requires
            (TICK_GROUP as nat) * 1_000_000_000 == (TICK_GROUP_NANOS as nat) * (
            crate::CRYSTAL_FREQUENCY as nat),
    ;
}

/// Core-thread state of the fixed-step strategy.
///
/// Audio samples harvested from the core queue up here and are served one at
/// a time to the audio consumer's pull requests; the ghost `groups_done`
/// counter records how many tick-group deadlines have been scheduled.
pub struct ComlynxRunnerThread {
    config: RunnerConfig,
    input_rx: kanal::Receiver<(u8, u8)>,
    update_display_tx: kanal::Sender<Vec<u8>>,
    display_backlog_rx: kanal::Receiver<Vec<u8>>,
    rotation_tx: kanal::Sender<Rotation>,
    next_ticks_trigger: std::time::Instant,
    sound_tick: u32,
    sound_sample: VecDeque<(i16, i16)>,
    sample_ticks: u32,
    groups_done: Ghost<nat>,
}

impl ComlynxRunnerThread {
    /// The configuration this thread runs under.
    pub closed spec fn spec_config(self) -> RunnerConfig {
        self.config
    }

    /// The queued audio samples, oldest first.
    pub closed spec fn spec_samples(self) -> Seq<(i16, i16)> {
        self.sound_sample@
    }

    /// Ticks counted since the last harvested sample.
    pub closed spec fn spec_sound_tick(self) -> u32 {
        self.sound_tick
    }

    /// Tick-group deadlines scheduled so far.
    pub closed spec fn spec_groups_done(self) -> nat {
        self.groups_done@
    }

    /// The harvest cadence is pinned to the crystal-to-sample-rate ratio and
    /// the running tick count stays below it.
    pub closed spec fn wf(self) -> bool {
        self.sample_ticks == SAMPLE_TICKS && self.sound_tick < self.sample_ticks
    }

    pub fn new(
        config: RunnerConfig,
        input_rx: kanal::Receiver<(u8, u8)>,
        update_display_tx: kanal::Sender<Vec<u8>>,
        display_backlog_rx: kanal::Receiver<Vec<u8>>,
        rotation_tx: kanal::Sender<Rotation>,
    ) -> (t: ComlynxRunnerThread)
        ensures
            t.wf(),
            t.spec_config() == config,
            t.spec_samples().len() == 0,
            t.spec_sound_tick() == 0,
            t.spec_groups_done() == 0,
    {
        ComlynxRunnerThread {
            config,
            input_rx,
            update_display_tx,
            display_backlog_rx,
            rotation_tx,
            next_ticks_trigger: instant_now(),
            sound_tick: 0,
            sound_sample: VecDeque::new(),
            sample_ticks: SAMPLE_TICKS,
            groups_done: Ghost(0),
        }
    }

    /// Whether this tick's audio sample is to be harvested. Muted runs never
    /// harvest and never advance the cadence; otherwise one sample is due
    /// every `SAMPLE_TICKS`-th tick.
    pub fn sound_due(&mut self) -> (due: bool)
        requires
            old(self).wf(),
        ensures
            final(self).wf(),
            old(self).spec_config().spec_mute() ==> !due && *final(self) == *old(self),
            !old(self).spec_config().spec_mute() ==> (due <==> old(self).spec_sound_tick() + 1
                == SAMPLE_TICKS),
            !old(self).spec_config().spec_mute() ==> final(self).spec_sound_tick() == (if due {
                0u32
            } else {
                (old(self).spec_sound_tick() + 1) as u32
            }),
            final(self).spec_samples() == old(self).spec_samples(),
            final(self).spec_config() == old(self).spec_config(),
            final(self).spec_groups_done() == old(self).spec_groups_done(),
    {
        if self.config.mute() {
            return false;
        }
        self.sound_tick = self.sound_tick + 1;
        if self.sound_tick < self.sample_ticks {
            return false;
        }
        self.sound_tick = 0;
        true
    }

    /// Queue one harvested stereo sample. Only unmuted runs harvest.
    pub fn push_sample(&mut self, sample: (i16, i16))
        requires
            old(self).wf(),
            !old(self).spec_config().spec_mute(),
        ensures
            final(self).wf(),
            final(self).spec_samples() == old(self).spec_samples().push(sample),
            final(self).spec_sound_tick() == old(self).spec_sound_tick(),
            final(self).spec_config() == old(self).spec_config(),
            final(self).spec_groups_done() == old(self).spec_groups_done(),
    {
        self.sound_sample.push_back(sample);
    }

    /// The answer to one audio pull request: the oldest queued sample, or
    /// silence when the queue is empty — every request is answered, none
    /// blocks on an empty queue.
    pub fn next_pull_answer(&mut self) -> (s: (i16, i16))
        requires
            old(self).wf(),
        ensures
            final(self).wf(),
            old(self).spec_samples().len() == 0 ==> s == (0i16, 0i16)
                && final(self).spec_samples() == old(self).spec_samples(),
            old(self).spec_samples().len() > 0 ==> s == old(self).spec_samples()[0]
                && final(self).spec_samples() == old(self).spec_samples().drop_first(),
            final(self).spec_sound_tick() == old(self).spec_sound_tick(),
            final(self).spec_config() == old(self).spec_config(),
            final(self).spec_groups_done() == old(self).spec_groups_done(),
    {
        match self.sound_sample.pop_front() {
            Some(s) => s,
            None => (0, 0),
        }
    }

    /// One spin pass: service at most one outstanding audio pull request,
    /// answering it with the next queued sample or silence.
    pub fn service_audio_pull(
        &mut self,
        sample_req_rx: &kanal::Receiver<()>,
        sample_rec_tx: &kanal::Sender<(i16, i16)>,
    ) -> (served: bool)
        requires
            old(self).wf(),
        ensures
            final(self).wf(),
            served ==> final(self).spec_samples() == (if old(self).spec_samples().len() > 0 {
                old(self).spec_samples().drop_first()
            } else {
                old(self).spec_samples()
            }),
            !served ==> final(self).spec_samples() == old(self).spec_samples(),
            final(self).spec_sound_tick() == old(self).spec_sound_tick(),
            final(self).spec_config() == old(self).spec_config(),
            final(self).spec_groups_done() == old(self).spec_groups_done(),
    {
        match channel_try_recv(sample_req_rx) {
            Some(_) => {
                let s = self.next_pull_answer();
                let _ = channel_send(sample_rec_tx, s);
                true
            },
            None => false,
        }
    }

    /// Whether the current group deadline is still ahead: while it is, the
    /// strategy keeps spinning (servicing one audio pull per pass) instead
    /// of ticking.
    pub fn deadline_pending(&self) -> (pending: bool) {
        let now = instant_now();
        instant_before(&now, &self.next_ticks_trigger)
    }

    /// Schedule the next tick-group deadline one group length past now:
    /// exactly one more group goes on the schedule, nothing else changes.
    pub fn advance_deadline(&mut self)
        requires
            old(self).wf(),
        ensures
            final(self).wf(),
            final(self).spec_samples() == old(self).spec_samples(),
            final(self).spec_sound_tick() == old(self).spec_sound_tick(),
            final(self).spec_config() == old(self).spec_config(),
            final(self).spec_groups_done() == old(self).spec_groups_done() + 1,
    {
        let now = instant_now();
        match instant_plus(&now, duration_from_nanos(TICK_GROUP_NANOS)) {
            Some(t) => {
                self.next_ticks_trigger = t;
            },
            None => {},
        }
        proof {
            self.groups_done@ = self.groups_done@ + 1;
        }
    }

    /// The configuration this thread runs under.
    pub fn config(&self) -> (c: &RunnerConfig)
        ensures
            *c == self.spec_config(),
    {
        &self.config
    }

    /// Number of harvested samples waiting to be served.
    pub fn queued_samples(&self) -> (n: usize)
        ensures
            n == self.spec_samples().len(),
    {
        self.sound_sample.len()
    }

    /// One non-blocking look at the input channel: shutdown the moment the
    /// host has closed it, otherwise the pending input state, if any.
    pub fn poll_inputs(&self) -> (r: InputPoll) {
        let disconnected = channel_is_disconnected(&self.input_rx);
        let received = channel_try_recv(&self.input_rx);
        input_decision(disconnected, received)
    }

    /// Publish a finished frame to the display channel, latest-wins.
    pub fn publish_frame(&self, frame: Vec<u8>) -> (accepted: bool) {
        publish_latest(&self.update_display_tx, &self.display_backlog_rx, frame)
    }

    /// Deliver the one-shot rotation value to the host.
    pub fn announce_rotation(&self, rotation: Rotation) -> (sent: bool) {
        channel_send(&self.rotation_tx, rotation)
    }
}

} // verus!

//! Free-running pacing strategy: ticks the core until it reports a finished
//! frame, pushes that frame's audio as one batch, and paces presentation to
//! the core's own reported display refresh rate.

use vstd::prelude::*;

use crate::channel::{
    channel_is_disconnected, channel_send, channel_try_recv, publish_latest,
};
use crate::runner::{input_decision, InputPoll, Rotation};
use crate::runner_config::RunnerConfig;
use crate::timing::{duration_from_micros, instant_before, instant_now, instant_plus};

verus! {

/// Core ticks between two harvested audio samples, the crystal frequency
/// over the sample rate.
pub const TICKS_PER_AUDIO_SAMPLE: u64 = 1000;

/// Microseconds between two frame presentations at a refresh rate given in
/// millihertz: one second divided by the rate.
pub open spec fn spec_frame_time_micros(millihertz: u64) -> u64 {
    (1_000_000_000u64 / millihertz) as u64
}

/// Core-thread state of the free-running strategy.
///
/// Audio samples accumulate per video frame as interleaved stereo words and
/// leave as one batch; the inter-frame deadline follows the core's reported
/// refresh rate, in millihertz to keep fractional rates.
pub struct PerFrameRunnerThread {
    config: RunnerConfig,
    input_rx: kanal::Receiver<(u8, u8)>,
    update_display_tx: kanal::Sender<Vec<u8>>,
    display_backlog_rx: kanal::Receiver<Vec<u8>>,
    rotation_tx: kanal::Sender<Rotation>,
    sound_tick: u64,
    sound_sample: Vec<i16>,
    frame_time_micros: u64,
    next_lcd_refresh: std::time::Instant,
    last_refresh_millihertz: u64,
}

impl PerFrameRunnerThread {
    /// The configuration this thread runs under.
    pub closed spec fn spec_config(self) -> RunnerConfig {
        self.config
    }

    /// The interleaved stereo batch accumulated for the current frame.
    pub closed spec fn spec_batch(self) -> Seq<i16> {
        self.sound_sample@
    }

    /// Ticks counted since the last harvested sample.
    pub closed spec fn spec_sound_tick(self) -> u64 {
        self.sound_tick
    }

    /// The inter-frame deadline spacing, in microseconds.
    pub closed spec fn spec_frame_time(self) -> u64 {
        self.frame_time_micros
    }

    /// The refresh rate the deadline spacing was computed from, in
    /// millihertz; zero until the core first reports one.
    pub closed spec fn spec_last_refresh(self) -> u64 {
        self.last_refresh_millihertz
    }

    /// The running tick count stays below the harvest cadence.
    pub closed spec fn wf(self) -> bool {
        self.sound_tick < TICKS_PER_AUDIO_SAMPLE
    }

    pub fn new(
        config: RunnerConfig,
        input_rx: kanal::Receiver<(u8, u8)>,
        update_display_tx: kanal::Sender<Vec<u8>>,
        display_backlog_rx: kanal::Receiver<Vec<u8>>,
        rotation_tx: kanal::Sender<Rotation>,
    ) -> (t: PerFrameRunnerThread)
        ensures
            t.wf(),
            t.spec_config() == config,
            t.spec_batch().len() == 0,
            t.spec_sound_tick() == 0,
            t.spec_last_refresh() == 0,
            t.spec_frame_time() == 16_000,
    {
        PerFrameRunnerThread {
            config,
            input_rx,
            update_display_tx,
            display_backlog_rx,
            rotation_tx,
            sound_tick: 0,
            sound_sample: Vec::new(),
            frame_time_micros: 16_000,
            last_refresh_millihertz: 0,
            next_lcd_refresh: instant_now(),
        }
    }

    /// Whether this tick's audio sample is to be harvested. Muted runs never
    /// harvest and never advance the cadence; otherwise one sample is due
    /// every `TICKS_PER_AUDIO_SAMPLE`-th tick.
    pub fn sound_due(&mut self) -> (due: bool)
        requires
            old(self).wf(),
        ensures
            final(self).wf(),
            old(self).spec_config().spec_mute() ==> !due && *final(self) == *old(self),
            !old(self).spec_config().spec_mute() ==> (due <==> old(self).spec_sound_tick() + 1
                == TICKS_PER_AUDIO_SAMPLE),
            !old(self).spec_config().spec_mute() ==> final(self).spec_sound_tick() == (if due {
                0u64
            } else {
                (old(self).spec_sound_tick() + 1) as u64
            }),
            final(self).spec_batch() == old(self).spec_batch(),
            final(self).spec_config() == old(self).spec_config(),
            final(self).spec_frame_time() == old(self).spec_frame_time(),
            final(self).spec_last_refresh() == old(self).spec_last_refresh(),
    {
        if self.config.mute() {
            return false;
        }
        self.sound_tick = self.sound_tick + 1;
        if self.sound_tick != TICKS_PER_AUDIO_SAMPLE {
            return false;
        }
        self.sound_tick = 0;
        true
    }

    /// Append one harvested stereo sample to the frame's batch, left word
    /// first. Only unmuted runs harvest.
    pub fn push_sample(&mut self, left: i16, right: i16)
        requires
            old(self).wf(),
            !old(self).spec_config().spec_mute(),
        ensures
            final(self).wf(),
            final(self).spec_batch() == old(self).spec_batch().push(left).push(right),
            final(self).spec_sound_tick() == old(self).spec_sound_tick(),
            final(self).spec_config() == old(self).spec_config(),
            final(self).spec_frame_time() == old(self).spec_frame_time(),
            final(self).spec_last_refresh() == old(self).spec_last_refresh(),
    {
        self.sound_sample.push(left);
        self.sound_sample.push(right);
    }

    /// Hand the finished frame's audio batch to the caller (to append to the
    /// sink in one operation) and start the next batch empty.
    pub fn take_sound_batch(&mut self) -> (batch: Vec<i16>)
        requires
            old(self).wf(),
        ensures
            final(self).wf(),
            batch@ == old(self).spec_batch(),
            final(self).spec_batch().len() == 0,
            final(self).spec_sound_tick() == old(self).spec_sound_tick(),
            final(self).spec_config() == old(self).spec_config(),
            final(self).spec_frame_time() == old(self).spec_frame_time(),
            final(self).spec_last_refresh() == old(self).spec_last_refresh(),
    {
        let mut batch: Vec<i16> = Vec::new();
        std::mem::swap(&mut batch, &mut self.sound_sample);
        batch
    }

    /// Follow a change of the core's reported refresh rate: an unchanged
    /// rate changes nothing, a new one recomputes the inter-frame deadline
    /// spacing to one second over the rate, effective from the very next
    /// iteration.
    pub fn update_refresh_rate(&mut self, millihertz: u64)
        requires
            old(self).wf(),
            millihertz > 0,
        ensures
            final(self).wf(),
            millihertz == old(self).spec_last_refresh() ==> *final(self) == *old(self),
            millihertz != old(self).spec_last_refresh() ==> final(self).spec_last_refresh()
                == millihertz && final(self).spec_frame_time() == spec_frame_time_micros(
                millihertz,
            ),
            final(self).spec_batch() == old(self).spec_batch(),
            final(self).spec_sound_tick() == old(self).spec_sound_tick(),
            final(self).spec_config() == old(self).spec_config(),
    {
        if millihertz != self.last_refresh_millihertz {
            self.last_refresh_millihertz = millihertz;
            self.frame_time_micros = 1_000_000_000u64 / millihertz;
        }
    }

    /// The configuration this thread runs under.
    pub fn config(&self) -> (c: &RunnerConfig)
        ensures
            *c == self.spec_config(),
    {
        &self.config
    }

    /// The inter-frame deadline spacing currently in force, in microseconds.
    pub fn current_frame_time_micros(&self) -> (t: u64)
        ensures
            t == self.spec_frame_time(),
    {
        self.frame_time_micros
    }

    /// The refresh rate the spacing was computed from, in millihertz.
    pub fn current_refresh_millihertz(&self) -> (r: u64)
        ensures
            r == self.spec_last_refresh(),
    {
        self.last_refresh_millihertz
    }

    /// Number of words in the accumulating batch.
    pub fn batch_len(&self) -> (n: usize)
        ensures
            n == self.spec_batch().len(),
    {
        self.sound_sample.len()
    }

    /// Whether the inter-frame deadline is still ahead: while it is, the
    /// strategy keeps spinning before presenting the next frame.
    pub fn refresh_pending(&self) -> (pending: bool) {
        let now = instant_now();
        instant_before(&now, &self.next_lcd_refresh)
    }

    /// Schedule the next inter-frame deadline one frame time past now.
    pub fn advance_refresh_deadline(&mut self)
        requires
            old(self).wf(),
        ensures
            final(self).wf(),
            final(self).spec_batch() == old(self).spec_batch(),
            final(self).spec_sound_tick() == old(self).spec_sound_tick(),
            final(self).spec_config() == old(self).spec_config(),
            final(self).spec_frame_time() == old(self).spec_frame_time(),
            final(self).spec_last_refresh() == old(self).spec_last_refresh(),
    {
        let now = instant_now();
        match instant_plus(&now, duration_from_micros(self.frame_time_micros)) {
            Some(t) => {
                self.next_lcd_refresh = t;
            },
            None => {},
        }
    }

    /// One non-blocking look at the input channel: shutdown the moment the
    /// host has closed it, otherwise the pending input state, if any.
    pub fn poll_inputs(&self) -> (r: InputPoll) {
        let disconnected = channel_is_disconnected(&self.input_rx);
        let received = channel_try_recv(&self.input_rx);
        input_decision(disconnected, received)
    }

    /// Publish a finished frame to the display channel, latest-wins.
    pub fn publish_frame(&self, frame: Vec<u8>) -> (accepted: bool) {
        publish_latest(&self.update_display_tx, &self.display_backlog_rx, frame)
    }

    /// Deliver the one-shot rotation value to the host.
    pub fn announce_rotation(&self, rotation: Rotation) -> (sent: bool) {
        channel_send(&self.rotation_tx, rotation)
    }
}

} // verus!

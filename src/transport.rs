//! The playback transport and its playhead.
//!
//! The transport decides; the caller performs. Each command returns the
//! `Action` that the audio device must carry out, and each rendering tick
//! advances the playhead by the elapsed time. The playhead is the single
//! authority on the end of playback: when it reaches the right edge the
//! transport returns to `Idle` and asks for the device to be stopped.
//!
//! Progress is kept exactly, in units of one sample consumed at quarter
//! speed for one microsecond: a tick of `dt` microseconds at `speed`
//! quarters advances it by `sample_rate * channels * speed * dt`, and the
//! buffer ends at `len * PROGRESS_PER_SAMPLE`. The playhead stands at
//! `width * progress / (len * PROGRESS_PER_SAMPLE)` pixels, which crosses
//! `width` pixels at `width / total_duration` pixels per second times the
//! speed multiplier.
use vstd::prelude::*;
use crate::buffer::{AudioBuffer, Ratio};

verus! {

/// Speed is counted in quarters: a multiplier of `speed / SPEED_STEPS_PER_UNIT`.
pub const SPEED_STEPS_PER_UNIT: u32 = 4;

/// Slowest speed, 0.25.
pub const MIN_SPEED: u32 = 1;

/// Fastest speed, 4.0.
pub const MAX_SPEED: u32 = 16;

/// Native speed, 1.0.
pub const DEFAULT_SPEED: u32 = 4;

pub const MICROS_PER_SEC: u64 = 1_000_000;

/// Progress units per sample: `SPEED_STEPS_PER_UNIT * MICROS_PER_SEC`.
pub const PROGRESS_PER_SAMPLE: u128 = 4_000_000;

#[derive(Clone, Copy, Debug, PartialEq, Eq, Structural)]
pub enum PlayState {
    Idle,
    Playing,
}

/// What the audio device must do after a command.
#[derive(Clone, Copy, Debug, PartialEq, Eq, Structural)]
pub enum Action {
    Nothing,
    /// Queue the current buffer from its first sample.
    Queue,
    /// Stop what the device is playing, then queue the current buffer from
    /// its first sample.
    Restart,
    /// Stop output and drop what is queued.
    Stop,
    /// Consume samples at `speed / SPEED_STEPS_PER_UNIT` times the native rate.
    SetSpeed(u32),
}

/// The abstract state of a transport.
pub struct TransportView {
    pub playing: bool,
    /// Speed multiplier in quarters.
    pub speed: nat,
    pub progress: nat,
    /// Width of the display area in pixels.
    pub width: nat,
    /// Progress at which the loaded buffer ends; 0 with no buffer.
    pub span: nat,
    /// Samples the loaded buffer consumes per second; 0 with no buffer.
    pub rate: nat,
}

impl TransportView {
    pub open spec fn loaded(self) -> bool {
        self.span > 0
    }

    pub open spec fn wf(self) -> bool {
        &&& MIN_SPEED <= self.speed <= MAX_SPEED
        &&& (self.span > 0 <==> self.rate > 0)
        &&& self.playing ==> self.loaded() && self.progress < self.span
        &&& !self.playing ==> self.progress == 0
    }

    /// The playhead in pixels is `position_num / span`; at rest it is 0.
    pub open spec fn position_num(self) -> nat {
        self.width * self.progress
    }

    /// Progress gained in one tick of `dt` microseconds.
    pub open spec fn advance(self, dt: nat) -> nat {
        self.rate * self.speed * dt
    }

    pub open spec fn stopped(self) -> TransportView {
        TransportView { playing: false, progress: 0, ..self }
    }

    pub open spec fn ticked(self, dt: nat) -> TransportView {
        if !self.playing {
            self
        } else if self.progress + self.advance(dt) >= self.span {
            self.stopped()
        } else {
            TransportView { progress: self.progress + self.advance(dt), ..self }
        }
    }

    pub open spec fn toggled(self) -> TransportView {
        if !self.loaded() {
            self
        } else if self.playing {
            self.stopped()
        } else {
            TransportView { playing: true, progress: 0, ..self }
        }
    }

    pub open spec fn with_speed(self, speed: nat) -> TransportView {
        if MIN_SPEED <= speed <= MAX_SPEED {
            TransportView { speed, ..self }
        } else {
            self
        }
    }
}

pub open spec fn tick_action(v: TransportView, dt: nat) -> Action {
    if v.playing && v.progress + v.advance(dt) >= v.span {
        Action::Stop
    } else {
        Action::Nothing
    }
}

pub open spec fn toggle_action(v: TransportView, device_empty: bool) -> Action {
    if !v.loaded() {
        Action::Nothing
    } else if v.playing {
        Action::Stop
    } else if device_empty {
        Action::Queue
    } else {
        Action::Restart
    }
}

pub open spec fn speed_action(v: TransportView, speed: nat) -> Action {
    if MIN_SPEED <= speed <= MAX_SPEED {
        Action::SetSpeed(speed as u32)
    } else {
        Action::Nothing
    }
}

/// The end of a buffer of `len` samples, in progress units.
pub open spec fn span_of(len: nat) -> nat {
    (len * PROGRESS_PER_SAMPLE) as nat
}

/// Play state, speed and playhead, with the single buffer that is played.
pub struct Transport {
    playing: bool,
    speed: u32,
    progress: u128,
    width: u32,
    buffer: Option<AudioBuffer>,
}

impl View for Transport {
    type V = TransportView;

    closed spec fn view(&self) -> TransportView {
        TransportView {
            playing: self.playing,
            speed: self.speed as nat,
            progress: self.progress as nat,
            width: self.width as nat,
            span: match self.buffer {
                Some(b) => span_of(b.spec_samples().len()),
                None => 0,
            },
            rate: match self.buffer {
                Some(b) => b.spec_samples_per_sec(),
                None => 0,
            },
        }
    }
}

impl Transport {
    /// A well-formed transport has a well-formed view: speed within
    /// `[MIN_SPEED, MAX_SPEED]`, and the playhead at 0 when idle and before
    /// the buffer's end when playing.
    pub proof fn lemma_view_wf(&self)
        requires
            self.wf(),
        ensures
            self@.wf(),
    {
    }

    pub closed spec fn spec_buffer(&self) -> Option<AudioBuffer> {
        self.buffer
    }

    pub closed spec fn wf(&self) -> bool {
        &&& self@.wf()
        &&& self.buffer matches Some(b) ==> b.wf()
    }

    /// An idle transport at native speed, with no buffer, for a display area
    /// `width` pixels wide.
    pub fn new(width: u32) -> (r: Transport)
        ensures
            r.wf(),
            r@.wf(),
            !r@.playing,
            r@.progress == 0,
            r@.rate == 0,
            r@.speed == DEFAULT_SPEED,
            r@.width == width,
            !r@.loaded(),
            r@.span == 0,
            r.spec_buffer() is None,
    {
        Transport { playing: false, speed: DEFAULT_SPEED, progress: 0, width, buffer: None }
    }

    /// The end of the loaded buffer and the samples it consumes per second;
    /// both 0 with no buffer.
    fn span_and_rate(&self) -> (r: (u128, u128))
        requires
            self.wf(),
        ensures
            r.0 == self@.span,
            r.1 == self@.rate,
            r.0 <= usize::MAX as int * PROGRESS_PER_SAMPLE,
            r.1 <= 2 * u32::MAX as int,
    {
        match &self.buffer {
            Some(b) => {
                let len = b.samples().len();
                let rate = b.samples_per_sec();
                assert(len as u128 * PROGRESS_PER_SAMPLE <= usize::MAX as u128 * PROGRESS_PER_SAMPLE)
                    by (nonlinear_arith)
                    requires
                        len <= usize::MAX,
                ;
                assert(b.spec_sample_rate() as int * b.spec_channels() as int <= u32::MAX as int * 2)
                    by (nonlinear_arith)
                    requires
                        b.spec_channels() <= 2,
                ;
                (len as u128 * PROGRESS_PER_SAMPLE, rate as u128)
            },
            None => (0, 0),
        }
    }

    /// Stops playback and rewinds the playhead to 0.
    pub fn stop(&mut self) -> (a: Action)
        requires
            old(self).wf(),
        ensures
            final(self).wf(),
            final(self)@.wf(),
            final(self)@ == old(self)@.stopped(),
            final(self).spec_buffer() == old(self).spec_buffer(),
            a == Action::Stop,
    {
        self.playing = false;
        self.progress = 0;
        Action::Stop
    }

    /// Play/stop. From `Idle` with a buffer loaded, starts playback from the
    /// first sample with the playhead at 0: the buffer is queued, after
    /// stopping the device first where `device_empty` is false. From
    /// `Playing`, stops and rewinds. With no buffer, does nothing.
    pub fn toggle(&mut self, device_empty: bool) -> (a: Action)
        requires
            old(self).wf(),
        ensures
            final(self).wf(),
            final(self)@.wf(),
            final(self)@ == old(self)@.toggled(),
            final(self).spec_buffer() == old(self).spec_buffer(),
            a == toggle_action(old(self)@, device_empty),
    {
        if self.buffer.is_none() {
            Action::Nothing
        } else if self.playing {
            self.stop()
        } else {
            self.playing = true;
            self.progress = 0;
            if device_empty {
                Action::Queue
            } else {
                Action::Restart
            }
        }
    }

    /// Sets the speed to `speed` quarters; outside
    /// `[MIN_SPEED, MAX_SPEED]` nothing changes.
    pub fn set_speed(&mut self, speed: u32) -> (a: Action)
        requires
            old(self).wf(),
        ensures
            final(self).wf(),
            final(self)@.wf(),
            final(self)@ == old(self)@.with_speed(speed as nat),
            final(self).spec_buffer() == old(self).spec_buffer(),
            a == speed_action(old(self)@, speed as nat),
    {
        if MIN_SPEED <= speed && speed <= MAX_SPEED {
            self.speed = speed;
            Action::SetSpeed(speed)
        } else {
            Action::Nothing
        }
    }

    /// One quarter faster, up to `MAX_SPEED`.
    pub fn speed_up(&mut self) -> (a: Action)
        requires
            old(self).wf(),
        ensures
            final(self).wf(),
            final(self)@.wf(),
            final(self)@ == old(self)@.with_speed(old(self)@.speed + 1),
            final(self).spec_buffer() == old(self).spec_buffer(),
            a == speed_action(old(self)@, old(self)@.speed + 1),
    {
        self.set_speed(self.speed + 1)
    }

    /// One quarter slower, down to `MIN_SPEED`.
    pub fn speed_down(&mut self) -> (a: Action)
        requires
            old(self).wf(),
        ensures
            final(self).wf(),
            final(self)@.wf(),
            final(self)@ == old(self)@.with_speed((old(self)@.speed - 1) as nat),
            final(self).spec_buffer() == old(self).spec_buffer(),
            a == speed_action(old(self)@, (old(self)@.speed - 1) as nat),
    {
        self.set_speed(self.speed - 1)
    }

    /// Replaces the buffer: playback is stopped and the playhead rewound
    /// before the new buffer becomes current, so a playing buffer is never
    /// swapped live.
    pub fn load(&mut self, buffer: AudioBuffer) -> (a: Action)
        requires
            old(self).wf(),
            buffer.wf(),
        ensures
            final(self).wf(),
            final(self)@.wf(),
            final(self).spec_buffer() == Some(buffer),
            !final(self)@.playing,
            final(self)@.progress == 0,
            final(self)@.speed == old(self)@.speed,
            final(self)@.width == old(self)@.width,
            final(self)@.span == span_of(buffer.spec_samples().len()),
            final(self)@.rate == buffer.spec_samples_per_sec(),
            a == Action::Stop,
    {
        self.playing = false;
        self.progress = 0;
        self.buffer = Some(buffer);
        Action::Stop
    }

    pub fn state(&self) -> (r: PlayState)
        ensures
            r == (if self@.playing {
                PlayState::Playing
            } else {
                PlayState::Idle
            }),
    {
        if self.playing {
            PlayState::Playing
        } else {
            PlayState::Idle
        }
    }

    /// The speed multiplier in quarters.
    pub fn speed(&self) -> (r: u32)
        ensures
            r == self@.speed,
    {
        self.speed
    }

    pub fn width(&self) -> (r: u32)
        ensures
            r == self@.width,
    {
        self.width
    }

    pub fn buffer(&self) -> (r: Option<&AudioBuffer>)
        requires
            self.wf(),
        ensures
            r matches Some(b) ==> b.wf(),
            r is Some <==> self.spec_buffer() is Some,
            r matches Some(b) ==> *b == self.spec_buffer()->0,
    {
        self.buffer.as_ref()
    }

    /// The playhead in pixels, exactly: `width * progress / span`, and 0 with
    /// no buffer.
    pub fn position(&self) -> (r: Ratio)
        requires
            self.wf(),
        ensures
            r.den > 0,
            r.num == self@.position_num(),
            self@.loaded() ==> r.den == self@.span,
            r.num <= self@.width * r.den,
    {
        let (span, _) = self.span_and_rate();
        assert(self.width as u128 * self.progress <= u32::MAX as int * (usize::MAX as int
            * PROGRESS_PER_SAMPLE)) by (nonlinear_arith)
            requires
                self.progress <= usize::MAX as int * PROGRESS_PER_SAMPLE,
        ;
        let num: u128 = self.width as u128 * self.progress;
        assert(self.width as u128 * self.progress <= self.width as u128 * span) by (nonlinear_arith)
            requires
                self.progress <= span,
        ;
        if span == 0 {
            Ratio { num, den: 1 }
        } else {
            Ratio { num, den: span }
        }
    }

    /// Advances the playhead by a tick of `dt_us` microseconds. While playing,
    /// progress grows by `rate * speed * dt_us`; once it reaches the end of the
    /// buffer the transport stops, rewinds to 0 and asks for the device to be
    /// stopped. An idle transport does not move.
    pub fn tick(&mut self, dt_us: u64) -> (a: Action)
        requires
            old(self).wf(),
        ensures
            final(self).wf(),
            final(self)@.wf(),
            final(self)@ == old(self)@.ticked(dt_us as nat),
            final(self).spec_buffer() == old(self).spec_buffer(),
            a == tick_action(old(self)@, dt_us as nat),
    {
        if !self.playing {
            return Action::Nothing;
        }
        let (span, rate) = self.span_and_rate();
        assert(rate * self.speed as u128 <= 2 * u32::MAX as int * 16
            && rate * self.speed as u128 * dt_us as u128 <= 2 * u32::MAX as int * 16 * u64::MAX as int)
            by (nonlinear_arith)
            requires
                rate <= 2 * u32::MAX as int,
                self.speed <= 16,
        ;
        let step: u128 = rate * self.speed as u128 * dt_us as u128;
        let next: u128 = self.progress + step;
        if next >= span {
            self.playing = false;
            self.progress = 0;
            Action::Stop
        } else {
            self.progress = next;
            Action::Nothing
        }
    }
}

/// While playing, a tick of any length never moves the playhead back and
/// never takes it past the right edge: either playback goes on with the
/// playhead at or after where it was and within `width`, or playback ends
/// and the playhead is back at 0. The buffer's end does not move.
pub proof fn lemma_playhead_monotone(v: TransportView, dt: nat)
    requires
        v.wf(),
        v.playing,
    ensures
        v.ticked(dt).wf(),
        v.ticked(dt).span == v.span,
        v.ticked(dt).playing ==> v.ticked(dt).position_num() >= v.position_num()
            && v.ticked(dt).position_num() <= v.width * v.span,
        !v.ticked(dt).playing ==> v.ticked(dt).position_num() == 0,
{
    let n = v.ticked(dt);
    if n.playing {
        assert(n.progress >= v.progress && n.progress < v.span);
        assert(v.width * n.progress >= v.width * v.progress && v.width * n.progress <= v.width * v.span)
            by (nonlinear_arith)
            requires
                n.progress >= v.progress,
                n.progress < v.span,
        ;
    }
}

/// Stopping twice leaves the transport as stopping once does: idle, with the
/// playhead at 0. Toggling a playing transport is such a stop.
pub proof fn lemma_stop_idempotent(v: TransportView)
    requires
        v.wf(),
    ensures
        v.stopped().wf(),
        !v.stopped().playing,
        v.stopped().position_num() == 0,
        v.stopped().stopped() == v.stopped(),
        v.playing ==> v.toggled() == v.stopped(),
{
}

} // verus!

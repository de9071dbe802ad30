//! The decisions of the capture loop: when to capture, retry, publish, pace
//! and stop. The caller runs the loop on a worker thread, performs each action
//! (a capture, a sleep, a publish) and hands back what came of it.
use vstd::prelude::*;

verus! {

/// Frames per second that the loop aims for.
pub const FPS_LIMIT: u64 = 30;

/// Pause before asking the display again after it had no frame ready.
pub const RETRY_DELAY_MS: u64 = 100;

/// Height, in pixels, of every published frame.
pub const TARGET_HEIGHT: u32 = 720;

/// Nominal duration given to each sample written to the transport track.
pub const SAMPLE_DURATION_MS: u64 = 33;

/// Slots in the frame buffer between the capture loop and the sender.
pub const BUFFER_CAPACITY: usize = 3;

/// The RGBA pixels of an image of `width` x `height`, held in `src`, resampled
/// to `new_width` x `new_height` with a Lanczos filter of radius three.
pub uninterp spec fn lanczos_rgba(src: Seq<u8>, width: u32, height: u32, new_width: u32, new_height: u32) -> Seq<u8>;

/// Relies on `image::ImageBuffer::from_raw`, which accepts a buffer holding at
/// least four bytes for each of the `width` x `height` pixels, and on
/// `image::imageops::resize`, which returns an image of exactly the requested size
/// (its intermediate image of `width` x `new_height` pixels must fit in memory too).
#[verifier::external_body]
fn resize_rgba(src: Vec<u8>, width: u32, height: u32, new_width: u32, new_height: u32) -> (r: Vec<u8>)
    requires
        width > 0,
        height > 0,
        src@.len() >= 4 * width * height,
        4 * new_width * new_height <= usize::MAX,
        4 * width * new_height <= usize::MAX,
    ensures
        r@ == lanczos_rgba(src@, width, height, new_width, new_height),
        r@.len() == 4 * new_width * new_height,
{
    match image::RgbaImage::from_raw(width, height, src) {
        Some(img) => image::imageops::resize(
            &img,
            new_width,
            new_height,
            image::imageops::FilterType::Lanczos3,
        ).into_raw(),
        None => Vec::new(),
    }
}

/// Milliseconds between two frames at `fps` frames per second.
pub open spec fn interval_of(fps: u64) -> int {
    1000int / (fps as int)
}

/// The frame interval at `fps` frames per second, in whole milliseconds.
pub fn frame_interval_ms(fps: u64) -> (r: u64)
    requires
        fps > 0,
    ensures
        r == interval_of(fps),
{
    1000 / fps
}

/// What is left of the frame interval after `elapsed_ms`; nothing once it is
/// spent, so a late frame is not followed by a burst.
pub open spec fn pacing_delay(elapsed_ms: u64, interval_ms: u64) -> int {
    if elapsed_ms < interval_ms {
        interval_ms - elapsed_ms
    } else {
        0
    }
}

/// How long to sleep after an iteration that took `elapsed_ms`.
pub fn pacing_delay_ms(elapsed_ms: u64, interval_ms: u64) -> (r: u64)
    ensures
        r == pacing_delay(elapsed_ms, interval_ms),
{
    if elapsed_ms < interval_ms {
        interval_ms - elapsed_ms
    } else {
        0
    }
}

/// The width that keeps the aspect ratio of `width` x `height` at `target_height`,
/// rounded down.
pub open spec fn scaled_width(width: u32, height: u32, target_height: u32) -> int {
    (width as int) * (target_height as int) / (height as int)
}

/// The frame of `width` x `height` RGBA pixels downscaled to the target
/// height, or nothing where the bytes do not hold such an image or the
/// result would have no pixels.
pub open spec fn downscaled(pixels: Seq<u8>, width: u32, height: u32) -> Option<Seq<u8>> {
    let nw = scaled_width(width, height, TARGET_HEIGHT);
    if width > 0 && height > 0 && pixels.len() >= 4 * width * height && 0 < nw <= u32::MAX && 4
        * nw * TARGET_HEIGHT <= usize::MAX && 4 * width * TARGET_HEIGHT <= usize::MAX {
        Some(lanczos_rgba(pixels, width, height, nw as u32, TARGET_HEIGHT))
    } else {
        None
    }
}

/// Resizes a captured frame to the target height, keeping its aspect ratio.
pub fn downscale_frame(pixels: Vec<u8>, width: u32, height: u32) -> (r: Option<Vec<u8>>)
    ensures
        r matches Some(p) ==> downscaled(pixels@, width, height) == Some(p@),
        r is None ==> downscaled(pixels@, width, height) is None,
{
    if width == 0 || height == 0 {
        return None;
    }
    let w = width as u128;
    let h = height as u128;
    assert(4 * w * h <= 4 * 0x1_0000_0000u128 * 0x1_0000_0000u128) by (nonlinear_arith)
        requires
            w <= 0xffff_ffff,
            h <= 0xffff_ffff,
    ;
    if (pixels.len() as u128) < 4 * w * h {
        return None;
    }
    let wide = width as u64;
    assert(wide * 720 <= 0xffff_ffff * 720) by (nonlinear_arith)
        requires
            wide <= 0xffff_ffff,
    ;
    let nw: u64 = wide * (TARGET_HEIGHT as u64) / (height as u64);
    assert(nw <= wide * 720) by (nonlinear_arith)
        requires
            nw as int == (wide as int) * 720 / (height as int),
            height > 0,
    ;
    if nw == 0 || nw > u32::MAX as u64 {
        return None;
    }
    if 4 * nw * (TARGET_HEIGHT as u64) > usize::MAX as u64 {
        return None;
    }
    if 4 * wide * (TARGET_HEIGHT as u64) > usize::MAX as u64 {
        return None;
    }
    Some(resize_rgba(pixels, width, height, nw as u32, TARGET_HEIGHT))
}

/// Where the capture loop stands.
#[derive(PartialEq, Eq, Structural, Clone, Copy, Debug)]
pub enum ProducerPhase {
    /// At the start of an iteration: the control flag is to be read.
    Ready,
    /// A capture has been asked for.
    Capturing,
    /// The display had nothing ready; after the pause the flag is read again.
    Retrying,
    /// A frame was published; the time the iteration took is awaited.
    Pacing,
    Stopped,
    /// The display could not be captured at all.
    Failed,
}

/// What one capture call gave.
pub enum CaptureOutcome {
    /// RGBA pixels of a `width` x `height` image; empty when there was nothing to take.
    Frame { pixels: Vec<u8>, width: u32, height: u32 },
    /// The display had no new frame yet.
    NotReady,
    /// The display cannot be captured.
    Fatal,
}

/// What the caller reports back to the loop.
pub enum ProducerEvent {
    /// The value of the control flag.
    Flag(bool),
    Captured(CaptureOutcome),
    /// Milliseconds since the iteration started.
    Elapsed(u64),
}

/// What the caller is to do next.
pub enum ProducerAction {
    Capture,
    /// Publish this frame, then report the elapsed time.
    Publish(Vec<u8>),
    /// Sleep this many milliseconds, then read the control flag.
    Sleep(u64),
    /// Read the control flag at once, starting a new iteration.
    ReadFlag,
    Stop,
    /// Stop and report that the display cannot be captured.
    Abort,
    /// The event does not belong to this phase; nothing changes.
    Ignore,
}

/// The model of an action.
pub ghost enum Act {
    Capture,
    Publish(Seq<u8>),
    Sleep(int),
    ReadFlag,
    Stop,
    Abort,
    Ignore,
}

/// The model of the action `a`.
pub open spec fn act_of(a: ProducerAction) -> Act {
    match a {
        ProducerAction::Capture => Act::Capture,
        ProducerAction::Publish(p) => Act::Publish(p@),
        ProducerAction::Sleep(ms) => Act::Sleep(ms as int),
        ProducerAction::ReadFlag => Act::ReadFlag,
        ProducerAction::Stop => Act::Stop,
        ProducerAction::Abort => Act::Abort,
        ProducerAction::Ignore => Act::Ignore,
    }
}

/// One decision of the loop: the next phase, and what the caller is to do.
pub open spec fn producer_step(interval_ms: u64, phase: ProducerPhase, event: ProducerEvent) -> (ProducerPhase, Act) {
    match event {
        ProducerEvent::Flag(on) => if phase == ProducerPhase::Ready || phase == ProducerPhase::Retrying {
            if on {
                (ProducerPhase::Capturing, Act::Capture)
            } else {
                (ProducerPhase::Stopped, Act::Stop)
            }
        } else {
            (phase, Act::Ignore)
        },
        ProducerEvent::Captured(c) => if phase == ProducerPhase::Capturing {
            match c {
                CaptureOutcome::NotReady => (ProducerPhase::Retrying, Act::Sleep(RETRY_DELAY_MS as int)),
                CaptureOutcome::Fatal => (ProducerPhase::Failed, Act::Abort),
                CaptureOutcome::Frame { pixels, width, height } => if pixels@.len() == 0 {
                    (ProducerPhase::Ready, Act::ReadFlag)
                } else {
                    match downscaled(pixels@, width, height) {
                        Some(p) => (ProducerPhase::Pacing, Act::Publish(p)),
                        None => (ProducerPhase::Ready, Act::ReadFlag),
                    }
                },
            }
        } else {
            (phase, Act::Ignore)
        },
        ProducerEvent::Elapsed(e) => if phase == ProducerPhase::Pacing {
            (ProducerPhase::Ready, Act::Sleep(pacing_delay(e, interval_ms)))
        } else {
            (phase, Act::Ignore)
        },
    }
}

/// The capture loop's state: its phase and the frame interval it paces to.
pub struct FrameProducer {
    phase: ProducerPhase,
    interval_ms: u64,
}

impl FrameProducer {
    /// The phase the loop is in.
    pub closed spec fn phase_spec(&self) -> ProducerPhase {
        self.phase
    }

    /// The frame interval, in milliseconds.
    pub closed spec fn interval_spec(&self) -> u64 {
        self.interval_ms
    }

    /// A loop paced to `fps` frames per second, about to read the control flag.
    pub fn new(fps: u64) -> (r: FrameProducer)
        requires
            fps > 0,
        ensures
            r.phase_spec() == ProducerPhase::Ready,
            r.interval_spec() == interval_of(fps),
    {
        FrameProducer { phase: ProducerPhase::Ready, interval_ms: frame_interval_ms(fps) }
    }

    /// The phase the loop is in.
    pub fn phase(&self) -> (r: ProducerPhase)
        ensures
            r == self.phase_spec(),
    {
        self.phase
    }

    /// The frame interval, in milliseconds.
    pub fn interval_ms(&self) -> (r: u64)
        ensures
            r == self.interval_spec(),
    {
        self.interval_ms
    }

    /// Takes what the caller observed and decides what it does next.
    pub fn step(&mut self, event: ProducerEvent) -> (r: ProducerAction)
        ensures
            (final(self).phase_spec(), act_of(r)) == producer_step(
                old(self).interval_spec(),
                old(self).phase_spec(),
                event,
            ),
            final(self).interval_spec() == old(self).interval_spec(),
    {
        match event {
            ProducerEvent::Flag(on) => {
                if self.phase == ProducerPhase::Ready || self.phase == ProducerPhase::Retrying {
                    if on {
                        self.phase = ProducerPhase::Capturing;
                        ProducerAction::Capture
                    } else {
                        self.phase = ProducerPhase::Stopped;
                        ProducerAction::Stop
                    }
                } else {
                    ProducerAction::Ignore
                }
            },
            ProducerEvent::Captured(c) => {
                if self.phase != ProducerPhase::Capturing {
                    return ProducerAction::Ignore;
                }
                match c {
                    CaptureOutcome::NotReady => {
                        self.phase = ProducerPhase::Retrying;
                        ProducerAction::Sleep(RETRY_DELAY_MS)
                    },
                    CaptureOutcome::Fatal => {
                        self.phase = ProducerPhase::Failed;
                        ProducerAction::Abort
                    },
                    CaptureOutcome::Frame { pixels, width, height } => {
                        if pixels.len() == 0 {
                            self.phase = ProducerPhase::Ready;
                            return ProducerAction::ReadFlag;
                        }
                        match downscale_frame(pixels, width, height) {
                            Some(p) => {
                                self.phase = ProducerPhase::Pacing;
                                ProducerAction::Publish(p)
                            },
                            None => {
                                self.phase = ProducerPhase::Ready;
                                ProducerAction::ReadFlag
                            },
                        }
                    },
                }
            },
            ProducerEvent::Elapsed(e) => {
                if self.phase == ProducerPhase::Pacing {
                    self.phase = ProducerPhase::Ready;
                    ProducerAction::Sleep(pacing_delay_ms(e, self.interval_ms))
                } else {
                    ProducerAction::Ignore
                }
            },
        }
    }
}

/// Clearing the control flag stops the loop at its next read, and the loop reads the
/// control flag after every pause: whatever the phase and event, a pause is followed
/// by a read of the control flag, lasts no longer than the frame interval or the retry
/// delay, and so no longer than the frame interval once that is at least the
/// retry delay. A published frame is followed only by pacing, and a stopped
/// loop stays stopped.
pub proof fn lemma_clearing_flag_stops(interval_ms: u64, phase: ProducerPhase, event: ProducerEvent)
    ensures
        (phase == ProducerPhase::Ready || phase == ProducerPhase::Retrying) && (event matches ProducerEvent::Flag(false))
            ==> producer_step(interval_ms, phase, event) == (ProducerPhase::Stopped, Act::Stop),
        producer_step(interval_ms, phase, event).1 matches Act::Sleep(ms) ==> {
            &&& 0 <= ms
            &&& ms <= interval_ms || ms == RETRY_DELAY_MS
            &&& interval_ms >= RETRY_DELAY_MS ==> ms <= interval_ms
            &&& producer_step(interval_ms, phase, event).0 == ProducerPhase::Ready
                || producer_step(interval_ms, phase, event).0 == ProducerPhase::Retrying
        },
        producer_step(interval_ms, phase, event).1 is ReadFlag ==> producer_step(
            interval_ms,
            phase,
            event,
        ).0 == ProducerPhase::Ready,
        producer_step(interval_ms, phase, event).1 is Publish ==> producer_step(
            interval_ms,
            phase,
            event,
        ).0 == ProducerPhase::Pacing,
        phase == ProducerPhase::Pacing && event is Elapsed ==> producer_step(
            interval_ms,
            phase,
            event,
        ).0 == ProducerPhase::Ready,
        phase == ProducerPhase::Stopped ==> producer_step(interval_ms, phase, event).0
            == ProducerPhase::Stopped,
{
}

} // verus!

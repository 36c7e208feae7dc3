//! The streaming orchestrator: an outer reconnect loop around an inner frame
//! loop, as a state machine over the events the outside world hands back.
//!
//! The orchestrator owns the loop state and the frame counter. The caller
//! performs the blocking work — connecting, capturing, sending — and feeds
//! each result back in; the orchestrator decides what happens next:
//! reconnect, skip one frame, keep going, or stop for good.

use vstd::prelude::*;

use crate::config::StreamConfig;
use crate::frame::Frame;
use crate::transcode::decoded_color8;
use crate::transcode::decoded_dims;
use crate::transcode::is_jpeg_stream;
use crate::transcode::transcode_frame;
use crate::transcode::TranscodeError;
use crate::transport::SendFailure;

verus! {

/// The connection state of the streaming loop.
#[derive(Clone, Copy, Debug, PartialEq, Eq, Structural)]
pub enum LoopState {
    /// No usable connection; the loop is (re)connecting.
    Disconnected,
    /// A live connection; the loop is capturing and sending frames.
    Connected,
}

/// An error on which the whole process must stop: it is never retried.
#[derive(Clone, Copy, Debug, PartialEq, Eq, Structural)]
pub enum FatalError {
    /// A capture failed during steady-state operation; the device is
    /// assumed gone.
    CaptureFailed,
    /// The device reported a frame in a format other than the one the
    /// pipeline supports.
    FormatMismatch,
}

/// A capture failed; the pipeline reads nothing of the error but that it
/// happened, which is fatal.
#[derive(Clone, Copy, Debug, PartialEq, Eq, Structural)]
pub enum CaptureError {
    /// The underlying device read failed.
    ReadFailed,
}

/// What the orchestrator decides after one capture attempt.
#[derive(Debug, PartialEq, Eq)]
pub enum CaptureOutcome {
    /// Stop the process: capture failure or format mismatch.
    Fatal(FatalError),
    /// Send these bytes as the next message.
    Payload(Vec<u8>),
    /// Drop this one frame and capture the next; the loop goes on.
    Skip(TranscodeError),
}

/// What the orchestrator decides after one send attempt.
#[derive(Clone, Copy, Debug, PartialEq, Eq, Structural)]
pub enum SendOutcome {
    /// The frame went out; capture the next one.
    Sent,
    /// Drop this one frame and go on with the same connection.
    SkippedFrame,
    /// The connection is dead: drop it and reconnect.
    Reconnect,
}

/// The outcome is a payload of exactly these bytes.
pub open spec fn is_payload_of(out: CaptureOutcome, bytes: Seq<u8>) -> bool {
    match out {
        CaptureOutcome::Payload(p) => p@ == bytes,
        _ => false,
    }
}

/// The frame counter after one more frame: one higher, saturating at the
/// largest count (the counter serves diagnostics only).
pub open spec fn bumped(n: u64) -> u64 {
    if n < u64::MAX {
        (n + 1) as u64
    } else {
        n
    }
}

/// The whole decision owed after one capture attempt: a capture failure or
/// a frame in an unsupported format is fatal and counts no frame; a good
/// frame counts one and becomes the payload — its own bytes when
/// re-encoding is off, and with re-encoding on a JPEG stream that decodes
/// to exactly the configured output resolution, owed whenever the frame
/// decodes to an eight-bit image; a transcode failure skips exactly this
/// one frame, never more.
pub open spec fn capture_transition(
    cfg: StreamConfig,
    old_frames: u64,
    new_frames: u64,
    res: Result<Frame, CaptureError>,
    out: CaptureOutcome,
) -> bool {
    match res {
        Err(_) => out == CaptureOutcome::Fatal(FatalError::CaptureFailed) && new_frames
            == old_frames,
        Ok(f) => if !f.format_ok() {
            out == CaptureOutcome::Fatal(FatalError::FormatMismatch) && new_frames == old_frames
        } else {
            &&& new_frames == bumped(old_frames)
            &&& !cfg.reencode ==> is_payload_of(out, f.data@)
            &&& cfg.reencode ==> !(out is Fatal)
            &&& cfg.reencode ==> (out matches CaptureOutcome::Payload(p) ==> decoded_dims(p@)
                == Some((cfg.output_width, cfg.output_height)) && is_jpeg_stream(p@))
            &&& cfg.reencode ==> (out is Payload <==> decoded_color8(f.data@))
            &&& cfg.reencode ==> (out == CaptureOutcome::Skip(TranscodeError::DecodeFailed)
                <==> decoded_dims(f.data@) is None)
            &&& cfg.reencode ==> (out == CaptureOutcome::Skip(TranscodeError::EncodeFailed)
                <==> decoded_dims(f.data@) is Some && !decoded_color8(f.data@))
            &&& out is Skip ==> cfg.reencode
        },
    }
}

/// The state the loop is in after a send in the connected state came back
/// with the given result: disconnected exactly on a connection-lost failure.
pub open spec fn state_after_send(res: Result<(), SendFailure>) -> LoopState {
    if res == Err::<(), SendFailure>(SendFailure::ConnectionLost) {
        LoopState::Disconnected
    } else {
        LoopState::Connected
    }
}

/// How many of a sequence of send results are connection-lost failures.
pub open spec fn count_connection_lost(results: Seq<Result<(), SendFailure>>) -> nat
    decreases results.len(),
{
    if results.len() == 0 {
        0
    } else {
        count_connection_lost(results.drop_last()) + if results.last() == Err::<
            (),
            SendFailure,
        >(SendFailure::ConnectionLost) {
            1nat
        } else {
            0nat
        }
    }
}

/// How many times a loop that handles each send result in the connected
/// state — reconnecting whenever a result leaves it disconnected — ends up
/// reconnecting.
pub open spec fn count_reconnects(results: Seq<Result<(), SendFailure>>) -> nat
    decreases results.len(),
{
    if results.len() == 0 {
        0
    } else {
        count_reconnects(results.drop_last()) + if state_after_send(results.last())
            == LoopState::Disconnected {
            1nat
        } else {
            0nat
        }
    }
}

/// Law: over any sequence of send results, the loop reconnects exactly as
/// often as a connection-lost failure occurred; every other result leaves it
/// on the existing connection.
pub proof fn lemma_reconnect_iff_connection_lost(results: Seq<Result<(), SendFailure>>)
    ensures
        count_reconnects(results) == count_connection_lost(results),
    decreases results.len(),
{
    if results.len() > 0 {
        lemma_reconnect_iff_connection_lost(results.drop_last());
    }
}

/// The streaming orchestrator: the immutable configuration, the connection
/// state, and the count of frames captured since start (diagnostics only).
pub struct StreamingLoop {
    /// The configuration, resolved once and never mutated.
    pub config: StreamConfig,
    /// The current connection state.
    pub state: LoopState,
    /// Frames captured since process start; monotonically nondecreasing.
    pub frames: u64,
}

impl StreamingLoop {
    /// The orchestrator is well formed when its configuration is.
    pub open spec fn wf(self) -> bool {
        self.config.well_formed()
    }

    /// Starts the loop: disconnected, no frames captured yet.
    pub fn new(config: StreamConfig) -> (s: StreamingLoop)
        requires
            config.well_formed(),
        ensures
            s.wf(),
            s.config == config,
            s.state == LoopState::Disconnected,
            s.frames == 0,
    {
        StreamingLoop { config, state: LoopState::Disconnected, frames: 0 }
    }

    /// Records the result of one connect attempt: success makes the loop
    /// connected; failure leaves it disconnected, to retry immediately.
    pub fn on_connect_result(&mut self, succeeded: bool)
        requires
            old(self).wf(),
            old(self).state == LoopState::Disconnected,
        ensures
            final(self).wf(),
            final(self).config == old(self).config,
            final(self).frames == old(self).frames,
            succeeded ==> final(self).state == LoopState::Connected,
            !succeeded ==> final(self).state == LoopState::Disconnected,
    {
        if succeeded {
            self.state = LoopState::Connected;
        }
    }

    /// Handles the result of one capture attempt while connected.
    ///
    /// A capture failure is fatal, and so is a frame in a format other than
    /// the supported one. A good frame counts towards the frame counter and
    /// becomes the payload to send: the frame's own bytes when re-encoding
    /// is off, otherwise the transcoded bytes, which decode to exactly the
    /// configured output resolution; a transcode failure drops this one
    /// frame and the loop goes on.
    pub fn handle_capture(&mut self, res: Result<Frame, CaptureError>) -> (out: CaptureOutcome)
        requires
            old(self).wf(),
            old(self).state == LoopState::Connected,
        ensures
            final(self).wf(),
            final(self).config == old(self).config,
            final(self).state == LoopState::Connected,
            capture_transition(old(self).config, old(self).frames, final(self).frames, res, out),
    {
        let frame = match res {
            Ok(f) => f,
            Err(_) => {
                return CaptureOutcome::Fatal(FatalError::CaptureFailed);
            },
        };
        if !frame.check_format() {
            return CaptureOutcome::Fatal(FatalError::FormatMismatch);
        }
        if self.frames < u64::MAX {
            self.frames = self.frames + 1;
        }
        if self.config.reencode {
            match transcode_frame(
                &frame.data,
                self.config.output_width,
                self.config.output_height,
                self.config.output_quality,
            ) {
                Ok(encoded) => CaptureOutcome::Payload(encoded),
                Err(e) => CaptureOutcome::Skip(e),
            }
        } else {
            CaptureOutcome::Payload(frame.data)
        }
    }

    /// Handles the result of one send attempt while connected: on success or
    /// a transient failure the loop keeps the existing connection (a
    /// transient failure drops just that frame); a connection-lost failure
    /// drops the connection, and the loop reconnects.
    pub fn handle_send_result(&mut self, res: Result<(), SendFailure>) -> (out: SendOutcome)
        requires
            old(self).wf(),
            old(self).state == LoopState::Connected,
        ensures
            final(self).wf(),
            final(self).config == old(self).config,
            final(self).frames == old(self).frames,
            final(self).state == state_after_send(res),
            res is Ok ==> out == SendOutcome::Sent,
            res == Err::<(), SendFailure>(SendFailure::Transient) ==> out
                == SendOutcome::SkippedFrame,
            res == Err::<(), SendFailure>(SendFailure::ConnectionLost) ==> out
                == SendOutcome::Reconnect,
            out == SendOutcome::Reconnect <==> final(self).state == LoopState::Disconnected,
    {
        match res {
            Ok(_) => SendOutcome::Sent,
            Err(SendFailure::Transient) => SendOutcome::SkippedFrame,
            Err(SendFailure::ConnectionLost) => {
                self.state = LoopState::Disconnected;
                SendOutcome::Reconnect
            },
        }
    }
}

} // verus!

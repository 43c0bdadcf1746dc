//! The capture controller: the orchestrator that reconciles the backend's
//! frame callbacks, the audio producer's queued chunks, and the encoder into
//! one ordered data path, with a race-free start/stop lifecycle.
//!
//! The platform calls themselves (device lookup, encoder construction, the
//! backend's stop request, encoder finalization) happen outside this crate;
//! each controller operation here is the decision that such a call drives:
//! it takes the outcome of the call as a plain value and returns the next
//! state and what the caller must do. The session lifecycle is
//! `Configured -> Active -> Stopping -> Stopped`; `Stopped` is terminal and
//! is reached only through `on_closed`, which is the single place the
//! encoder may be finalized.
//!
//! Output is video-only: the audio accumulated between frames is drained and
//! handed back to the caller on each processed frame, but the controller
//! never routes it into the encoder.

use vstd::prelude::*;

use crate::accumulator::AudioAccumulator;
use crate::accumulator::chunks_view;
use crate::accumulator::concat_chunks;
use crate::accumulator::lemma_concat_chunks_add;
use crate::signal::ShutdownSignal;

verus! {

/// The lifecycle of one capture session. `Configured` exists only while a
/// session is being started; `Stopped` is terminal.
#[derive(Clone, Copy, PartialEq, Eq, Debug, Structural)]
pub enum SessionState {
    Configured,
    Active,
    Stopping,
    Stopped,
}

/// What `start` can fail with: no device found, or no encoder obtainable at
/// the configured path and resolution.
#[derive(Clone, Copy, PartialEq, Eq, Debug, Structural)]
pub enum StartError {
    DeviceUnavailable,
    EncoderInitFailure,
}

/// What a frame callback tells the backend: keep delivering frames, or end
/// the capture session.
#[derive(Clone, Copy, PartialEq, Eq, Debug, Structural)]
pub enum Directive {
    KeepCapturing,
    StopCapture,
}

/// The abstract state of one capture session: its lifecycle state, whether
/// the shutdown signal has fired, and the bytes of the current audio
/// accumulation window.
pub ghost struct SessionView {
    pub state: SessionState,
    pub signal_set: bool,
    pub audio: Seq<u8>,
}

/// The state a freshly started session is in: active, signal unset, empty
/// accumulation window.
pub open spec fn fresh_session() -> SessionView {
    SessionView { state: SessionState::Active, signal_set: false, audio: Seq::empty() }
}

/// Absorbing queued chunks appends their bytes, in production order, to the
/// accumulation window; nothing else changes.
pub open spec fn spec_absorb(v: SessionView, chunks: Seq<Seq<u8>>) -> SessionView {
    SessionView { audio: v.audio + concat_chunks(chunks), ..v }
}

/// One frame callback: the window plus the newly queued chunks is drained
/// and handed out, the window starts fresh, and a failed encode moves the
/// session to `Stopping` with a stop directive for the backend.
pub open spec fn spec_frame(v: SessionView, chunks: Seq<Seq<u8>>, encode_ok: bool) -> (
    SessionView,
    Directive,
    Seq<u8>,
) {
    let window = v.audio + concat_chunks(chunks);
    if encode_ok {
        (SessionView { audio: Seq::empty(), ..v }, Directive::KeepCapturing, window)
    } else {
        (
            SessionView { state: SessionState::Stopping, audio: Seq::empty(), ..v },
            Directive::StopCapture,
            window,
        )
    }
}

/// A stop request: an active session enters `Stopping` and the backend is
/// asked to close; on any other state nothing happens and nothing is asked.
pub open spec fn spec_stop(v: SessionView) -> (SessionView, bool) {
    if v.state == SessionState::Active {
        (SessionView { state: SessionState::Stopping, ..v }, true)
    } else {
        (v, false)
    }
}

/// The backend's close event: the shutdown signal fires, the session is
/// `Stopped`, and the encoder is to be finalized now if and only if the
/// session was not already stopped.
pub open spec fn spec_on_closed(v: SessionView) -> (SessionView, bool) {
    if v.state == SessionState::Stopped {
        (SessionView { signal_set: true, ..v }, false)
    } else {
        (SessionView { state: SessionState::Stopped, signal_set: true, ..v }, true)
    }
}

/// Requesting audio teardown alone: the signal fires, the lifecycle state
/// and the accumulation window stay as they are.
pub open spec fn spec_stop_audio(v: SessionView) -> SessionView {
    SessionView { signal_set: true, ..v }
}

/// One capture session: owns the shutdown signal and the audio accumulation
/// window, and tracks the lifecycle state. The encoder, the channel's
/// producing end and the backend registration live with the caller, which
/// reports their outcomes into each operation here.
pub struct Capture {
    state: SessionState,
    signal: ShutdownSignal,
    audio: AudioAccumulator,
}

impl View for Capture {
    type V = SessionView;

    closed spec fn view(&self) -> SessionView {
        SessionView { state: self.state, signal_set: self.signal@, audio: self.audio@ }
    }
}

impl Capture {
    /// Start a session. The caller reports whether an output device was
    /// found and whether the encoder could be constructed at the configured
    /// path and resolution; the session is created if and only if both held,
    /// and each failure is reported exactly: no device wins over a missing
    /// encoder. On success the session is active with a fresh, unset signal
    /// and an empty accumulation window; no audio has been absorbed yet.
    pub fn start(device_found: bool, encoder_ok: bool) -> (r: Result<Capture, StartError>)
        ensures
            r is Ok <==> device_found && encoder_ok,
            !device_found ==> r == Result::<Capture, StartError>::Err(
                StartError::DeviceUnavailable,
            ),
            device_found && !encoder_ok ==> r == Result::<Capture, StartError>::Err(
                StartError::EncoderInitFailure,
            ),
            r is Ok ==> (r->Ok_0)@ == fresh_session(),
    {
        let mut session = Capture {
            state: SessionState::Configured,
            signal: ShutdownSignal::new(),
            audio: AudioAccumulator::new(),
        };
        if !device_found {
            return Err(StartError::DeviceUnavailable);
        }
        if !encoder_ok {
            return Err(StartError::EncoderInitFailure);
        }
        session.state = SessionState::Active;
        Ok(session)
    }

    /// Drain the given queued chunks into the accumulation window, in
    /// production order: the step a frame callback performs before the frame
    /// is forwarded to the encoder.
    pub fn absorb_chunks(&mut self, chunks: &Vec<Vec<u8>>)
        requires
            old(self)@.state == SessionState::Active,
        ensures
            final(self)@ == spec_absorb(old(self)@, chunks_view(chunks@)),
    {
        let ghost pre = self@;
        let ghost cs = chunks_view(chunks@);
        let mut i: usize = 0;
        while i < chunks.len()
            invariant
                i <= chunks@.len(),
                cs == chunks_view(chunks@),
                self@.state == pre.state,
                self@.signal_set == pre.signal_set,
                self@.audio == pre.audio + concat_chunks(cs.take(i as int)),
            decreases chunks@.len() - i,
        {
            self.audio.append(&chunks[i]);
            i = i + 1;
            proof {
                assert(cs.take(i as int).drop_last() =~= cs.take(i - 1));
                assert(self@.audio =~= pre.audio + concat_chunks(cs.take(i as int)));
            }
        }
        proof {
            assert(cs.take(chunks@.len() as int) =~= cs);
        }
    }

    /// One frame callback, invoked serially by the backend's delivery
    /// thread. The chunks queued since the last frame are drained into the
    /// window, the whole window is handed back (output is video-only: the
    /// caller may mux or discard it), and the window starts fresh. The
    /// caller reports whether the encoder consumed the frame; a failed
    /// consume moves the session to `Stopping` and directs the backend to
    /// stop, so no further frame is processed.
    pub fn on_frame_arrived(&mut self, chunks: &Vec<Vec<u8>>, encode_ok: bool) -> (r: (
        Directive,
        Vec<u8>,
    ))
        requires
            old(self)@.state == SessionState::Active,
        ensures
            final(self)@ == spec_frame(old(self)@, chunks_view(chunks@), encode_ok).0,
            r.0 == spec_frame(old(self)@, chunks_view(chunks@), encode_ok).1,
            r.1@ == spec_frame(old(self)@, chunks_view(chunks@), encode_ok).2,
    {
        self.absorb_chunks(chunks);
        let window = self.audio.drain();
        if encode_ok {
            (Directive::KeepCapturing, window)
        } else {
            self.state = SessionState::Stopping;
            (Directive::StopCapture, window)
        }
    }

    /// Request the end of the session. If it is active, it enters `Stopping`
    /// and the caller must ask the backend to close (the backend then
    /// delivers `on_closed`; if the backend's own stop call errors, the
    /// caller reports it and invokes `on_closed` defensively). Otherwise
    /// nothing changes and no request is owed: a second stop is a no-op.
    pub fn stop(&mut self) -> (request_backend_close: bool)
        ensures
            final(self)@ == spec_stop(old(self)@).0,
            request_backend_close == spec_stop(old(self)@).1,
    {
        match self.state {
            SessionState::Active => {
                self.state = SessionState::Stopping;
                true
            },
            _ => false,
        }
    }

    /// The backend's close event. Fires the shutdown signal (so the audio
    /// producer tears down within one poll interval) and marks the session
    /// `Stopped`. Returns whether the caller must finalize the encoder now:
    /// true exactly on the transition into `Stopped`, so the encoder is
    /// never finalized twice however often this is invoked.
    pub fn on_closed(&mut self) -> (finalize_encoder: bool)
        ensures
            final(self)@ == spec_on_closed(old(self)@).0,
            finalize_encoder == spec_on_closed(old(self)@).1,
    {
        self.signal.set();
        match self.state {
            SessionState::Stopped => false,
            _ => {
                self.state = SessionState::Stopped;
                true
            },
        }
    }

    /// Fire the shutdown signal alone, asking the audio producer to tear
    /// down without touching the session's lifecycle state. Idempotent.
    pub fn stop_audio(&mut self)
        ensures
            final(self)@ == spec_stop_audio(old(self)@),
    {
        self.signal.set();
    }

    /// The session's lifecycle state.
    pub fn session_state(&self) -> (r: SessionState)
        ensures
            r == self@.state,
    {
        self.state
    }

    /// Whether the backend may still deliver frames to this session.
    pub fn is_active(&self) -> (r: bool)
        ensures
            r == (self@.state == SessionState::Active),
    {
        match self.state {
            SessionState::Active => true,
            _ => false,
        }
    }

    /// Whether the shutdown signal has fired.
    pub fn shutdown_requested(&self) -> (r: bool)
        ensures
            r == self@.signal_set,
    {
        self.signal.is_set()
    }

    /// The bytes of the current accumulation window: the audio that arrived
    /// since the last processed frame, in production order.
    pub fn pending_audio(&self) -> (r: &Vec<u8>)
        ensures
            r@ == self@.audio,
    {
        self.audio.bytes()
    }
}

/// Law: every chunk queued before a frame's drain lands in that frame's
/// window: the window is the previous window's bytes followed by each
/// chunk's bytes in production order, none duplicated or dropped; and
/// absorbing the chunks in any two passes yields the same session as
/// absorbing them all at once.
pub proof fn lemma_drain_window_complete(
    v: SessionView,
    early: Seq<Seq<u8>>,
    late: Seq<Seq<u8>>,
    encode_ok: bool,
)
    ensures
        spec_frame(v, early + late, encode_ok).2 == v.audio + concat_chunks(early)
            + concat_chunks(late),
        spec_absorb(spec_absorb(v, early), late) == spec_absorb(v, early + late),
{
    lemma_concat_chunks_add(early, late);
    assert(v.audio + (concat_chunks(early) + concat_chunks(late)) =~= v.audio + concat_chunks(
        early,
    ) + concat_chunks(late));
}

/// Law: once the shutdown signal has fired, no session transition unsets
/// it: the signal makes at most one unset-to-set transition per session.
pub proof fn lemma_signal_monotone(v: SessionView, chunks: Seq<Seq<u8>>, encode_ok: bool)
    requires
        v.signal_set,
    ensures
        spec_absorb(v, chunks).signal_set,
        spec_frame(v, chunks, encode_ok).0.signal_set,
        spec_stop(v).0.signal_set,
        spec_on_closed(v).0.signal_set,
        spec_stop_audio(v).signal_set,
{
}

/// Law: stopping an active session before any frame has arrived still
/// closes it exactly once: the stop asks the backend to close, the close
/// that follows fires the signal and finalizes the encoder, and a repeated
/// close changes nothing and finalizes nothing.
pub proof fn lemma_stop_then_close_finalizes_once(v: SessionView)
    requires
        v.state == SessionState::Active,
    ensures
        ({
            let (v1, requested) = spec_stop(v);
            let (v2, finalize_first) = spec_on_closed(v1);
            let (v3, finalize_second) = spec_on_closed(v2);
            requested && finalize_first && v2.state == SessionState::Stopped && v2.signal_set
                && !finalize_second && v3 == v2
        }),
{
}

/// Law: two sequential stops are idempotent: the second leaves the session
/// exactly as the first did and asks the backend for nothing.
pub proof fn lemma_stop_idempotent(v: SessionView)
    ensures
        ({
            let (v1, _first_request) = spec_stop(v);
            let (v2, second_request) = spec_stop(v1);
            v2 == v1 && !second_request
        }),
{
}

} // verus!

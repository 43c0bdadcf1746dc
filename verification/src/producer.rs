//! The audio producer's decisions. The producer itself is a dedicated
//! thread that owns an audio input stream: its sample callback encodes each
//! delivered block into canonical bytes and queues the chunk, and its
//! supervising loop polls the shutdown signal at a fixed cadence and tears
//! the stream down once the signal is observed set. The stream calls and
//! the thread live with the caller; the encoding and each decision live
//! here.

use vstd::prelude::*;

verus! {

/// What the supervising loop does after one poll of the shutdown signal.
#[derive(Clone, Copy, PartialEq, Eq, Debug, Structural)]
pub enum ProducerStep {
    KeepRunning,
    TearDown,
}

/// How the producer thread begins: streaming audio, or exiting at once so
/// the session proceeds video-only.
#[derive(Clone, Copy, PartialEq, Eq, Debug, Structural)]
pub enum ProducerLaunch {
    Streaming,
    VideoOnly,
}

/// One poll of the supervising loop: the producer keeps running until the
/// poll observes the shutdown signal set, and tears down as soon as it
/// does — so the thread exits within one poll interval of the signal
/// firing, plus whatever callback is in flight.
pub fn producer_poll(shutdown_seen: bool) -> (step: ProducerStep)
    ensures
        step == (if shutdown_seen {
            ProducerStep::TearDown
        } else {
            ProducerStep::KeepRunning
        }),
{
    if shutdown_seen {
        ProducerStep::TearDown
    } else {
        ProducerStep::KeepRunning
    }
}

/// The producer's launch decision: it streams if and only if its input
/// stream could be both built and started. Either failure is fatal to the
/// producer thread alone: the thread exits without producing any audio and
/// the session proceeds video-only; nothing is propagated to the
/// controller.
pub fn launch_outcome(stream_built: bool, playback_started: bool) -> (r: ProducerLaunch)
    ensures
        r == ProducerLaunch::Streaming <==> stream_built && playback_started,
{
    if stream_built && playback_started {
        ProducerLaunch::Streaming
    } else {
        ProducerLaunch::VideoOnly
    }
}

/// The canonical byte encoding of one delivered sample block: each sample's
/// four bytes kept in order, samples concatenated in arrival order, so the
/// chunk preserves both sample values and their ordering.
pub fn chunk_from_samples(samples: &Vec<[u8; 4]>) -> (chunk: Vec<u8>)
    ensures
        chunk@.len() == 4 * samples@.len(),
        forall|i: int|
            0 <= i < samples@.len() ==> chunk@.subrange(4 * i, 4 * i + 4) == samples@[i]@,
{
    let mut chunk: Vec<u8> = Vec::new();
    let mut i: usize = 0;
    while i < samples.len()
        invariant
            i <= samples@.len(),
            chunk@.len() == 4 * i,
            forall|j: int| 0 <= j < i ==> chunk@.subrange(4 * j, 4 * j + 4) == samples@[j]@,
        decreases samples@.len() - i,
    {
        let sample = samples[i];
        chunk.push(sample[0]);
        chunk.push(sample[1]);
        chunk.push(sample[2]);
        chunk.push(sample[3]);
        i = i + 1;
        proof {
            assert forall|j: int| 0 <= j < i implies chunk@.subrange(4 * j, 4 * j + 4)
                == samples@[j]@ by {
                if j < i - 1 {
                    assert(chunk@.subrange(4 * j, 4 * j + 4) =~= samples@[j]@);
                } else {
                    assert(chunk@.subrange(4 * j, 4 * j + 4) =~= samples@[j]@);
                }
            }
        }
    }
    chunk
}

} // verus!

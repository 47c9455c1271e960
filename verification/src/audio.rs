//! The audio stream: its format, and the bounded queue of packets that the host
//! plays.
//!
//! `S` is the type of a sample. Nothing here computes with samples.

use std::collections::VecDeque;
use vstd::prelude::*;

verus! {

/// The number of packets that the queue holds at most.
pub const MAX_QUEUE_SIZE: usize = 100;

/// The number of channels that packets are taken with.
pub const STEREO_CHANNELS: i32 = 2;

/// The sample rate to ask for where the configured one cannot be read.
pub const DEFAULT_SAMPLE_RATE: i32 = 48000;

/// The number of frames to ask for in each packet.
pub const FRAMES_PER_BUFFER: i32 = 256;

/// The format of a stream that has started.
#[derive(Clone, Copy, Debug, PartialEq, Eq, Structural)]
pub struct AudioParameters {
    pub channels: i32,
    pub sample_rate: i32,
    pub frames_per_buffer: i32,
}

/// A packet of interleaved samples with its presentation time.
#[derive(Debug, PartialEq)]
pub struct AudioPacket<S> {
    pub data: Vec<S>,
    pub frames: i32,
    pub pts: i64,
}

/// The format that the browser is asked for.
pub open spec fn requested_format(sample_rate: Option<i32>) -> AudioParameters {
    AudioParameters {
        channels: STEREO_CHANNELS,
        sample_rate: match sample_rate {
            Some(rate) => rate,
            None => DEFAULT_SAMPLE_RATE,
        },
        frames_per_buffer: FRAMES_PER_BUFFER,
    }
}

/// The browser asks which format it should deliver. Returns 1: the stream is
/// wanted.
pub fn audio_parameters(
    params: Option<&mut AudioParameters>,
    sample_rate: Option<i32>,
) -> (wanted: i32)
    ensures
        wanted == 1,
        params matches Some(params) ==> *final(params) == requested_format(sample_rate),
{
    if let Some(params) = params {
        let rate: i32 = match sample_rate {
            Some(rate) => rate,
            None => DEFAULT_SAMPLE_RATE,
        };
        params.channels = STEREO_CHANNELS;
        params.sample_rate = rate;
        params.frames_per_buffer = FRAMES_PER_BUFFER;
    }
    1
}

/// What the browser says about the format of a stream that starts.
#[derive(Clone, Copy, Debug, PartialEq, Eq, Structural)]
pub struct StreamFormat {
    pub sample_rate: i32,
    pub frames_per_buffer: i32,
}

/// A stream starts: its format is remembered, where it is given.
pub fn on_audio_stream_started(
    params: Option<StreamFormat>,
    channels: i32,
    audio_params: Option<&mut Option<AudioParameters>>,
)
    ensures
        audio_params matches Some(current) ==> *final(current) == (match params {
            Some(format) => Some(
                AudioParameters {
                    channels,
                    sample_rate: format.sample_rate,
                    frames_per_buffer: format.frames_per_buffer,
                },
            ),
            None => *current,
        }),
{
    if let Some(format) = params {
        if let Some(audio_params) = audio_params {
            *audio_params = Some(
                AudioParameters {
                    channels,
                    sample_rate: format.sample_rate,
                    frames_per_buffer: format.frames_per_buffer,
                },
            );
        }
    }
}

/// The channels of the current stream: stereo where its format is not known.
pub open spec fn current_channels(audio_params: Option<Option<AudioParameters>>) -> i32 {
    match audio_params {
        Some(Some(params)) => params.channels,
        _ => STEREO_CHANNELS,
    }
}

/// What becomes of a packet.
#[derive(Clone, Copy, Debug, PartialEq, Eq, Structural)]
pub enum PacketDecision {
    /// It holds nothing.
    Ignore,
    /// It is dropped, for it does not have the channels of stereo sound.
    UnexpectedChannels { channels: i32 },
    /// It is to be queued.
    Accept,
}

/// Decides on a packet before its samples are read. The format is `None` where
/// it cannot be read, and `Some(None)` where no stream has started.
pub fn judge_packet(
    has_data: bool,
    frames: i32,
    audio_params: Option<Option<AudioParameters>>,
) -> (decision: PacketDecision)
    ensures
        decision == (if !has_data || frames <= 0 {
            PacketDecision::Ignore
        } else if current_channels(audio_params) != STEREO_CHANNELS {
            PacketDecision::UnexpectedChannels { channels: current_channels(audio_params) }
        } else {
            PacketDecision::Accept
        }),
{
    if !has_data || frames <= 0 {
        return PacketDecision::Ignore;
    }
    let channels: i32 = match audio_params {
        Some(Some(params)) => params.channels,
        _ => STEREO_CHANNELS,
    };
    if channels != STEREO_CHANNELS {
        return PacketDecision::UnexpectedChannels { channels };
    }
    PacketDecision::Accept
}

/// A sample of a channel, silent where the channel is missing.
pub open spec fn sample_of<S>(channel: Option<&[S]>, frame: int, silence: S) -> S {
    match channel {
        Some(samples) => samples@[frame],
        None => silence,
    }
}

/// Two channels, left sample first, frame by frame.
pub open spec fn interleaved<S>(
    left: Option<&[S]>,
    right: Option<&[S]>,
    frames: int,
    silence: S,
) -> Seq<S> {
    Seq::new(
        (2 * frames) as nat,
        |i: int|
            if i % 2 == 0 {
                sample_of(left, i / 2, silence)
            } else {
                sample_of(right, i / 2, silence)
            },
    )
}

/// The channel is missing or holds enough samples.
pub open spec fn holds_frames<S>(channel: Option<&[S]>, frames: i32) -> bool {
    channel matches Some(samples) ==> frames <= samples@.len()
}

/// Reads a sample of a channel.
fn read_sample<S: Copy>(channel: Option<&[S]>, frame: usize, silence: S) -> (sample: S)
    requires
        channel matches Some(samples) ==> frame < samples@.len(),
    ensures
        sample == sample_of(channel, frame as int, silence),
{
    match channel {
        Some(samples) => samples[frame],
        None => silence,
    }
}

/// Interleaves two channels.
pub fn interleave<S: Copy>(
    left: Option<&[S]>,
    right: Option<&[S]>,
    frames: i32,
    silence: S,
) -> (data: Vec<S>)
    requires
        0 < frames,
        2 * frames <= i32::MAX,
        holds_frames(left, frames),
        holds_frames(right, frames),
    ensures
        data@ == interleaved(left, right, frames as int, silence),
{
    let count: usize = frames as usize;
    let mut data: Vec<S> = Vec::with_capacity(count * 2);
    let mut frame: usize = 0;
    while frame < count
        invariant
            frame <= count,
            count == frames,
            holds_frames(left, frames),
            holds_frames(right, frames),
            data@ == interleaved(left, right, frame as int, silence),
        decreases count - frame,
    {
        data.push(read_sample(left, frame, silence));
        data.push(read_sample(right, frame, silence));
        frame = frame + 1;
        assert(data@ =~= interleaved(left, right, frame as int, silence));
    }
    data
}

/// The packets that stay when one more comes: the newest, so many that the
/// queue then holds no more than it may.
pub open spec fn kept_packets<S>(queue: Seq<AudioPacket<S>>) -> Seq<AudioPacket<S>> {
    if queue.len() >= MAX_QUEUE_SIZE {
        queue.skip(queue.len() - MAX_QUEUE_SIZE + 1)
    } else {
        queue
    }
}

/// `after` is `before` with a packet at its end, and without the oldest packets
/// where the queue was full.
pub open spec fn takes_packet<S>(
    before: Seq<AudioPacket<S>>,
    after: Seq<AudioPacket<S>>,
    data: Seq<S>,
    frames: i32,
    pts: i64,
) -> bool {
    &&& after.len() > 0
    &&& after.drop_last() == kept_packets(before)
    &&& after.last().data@ == data
    &&& after.last().frames == frames
    &&& after.last().pts == pts
}

/// A packet arrives that was judged acceptable.
pub fn on_audio_stream_packet<S: Copy>(
    left: Option<&[S]>,
    right: Option<&[S]>,
    frames: i32,
    pts: i64,
    silence: S,
    audio_packet_queue: Option<&mut VecDeque<AudioPacket<S>>>,
)
    requires
        0 < frames,
        2 * frames <= i32::MAX,
        holds_frames(left, frames),
        holds_frames(right, frames),
    ensures
        audio_packet_queue matches Some(queue) ==> takes_packet(
            queue@,
            final(queue)@,
            interleaved(left, right, frames as int, silence),
            frames,
            pts,
        ),
{
    let data = interleave(left, right, frames, silence);
    if let Some(queue) = audio_packet_queue {
        let ghost before = queue@;
        assert(before.skip(0) =~= before);
        let ghost mut gone: int = 0;
        while queue.len() >= MAX_QUEUE_SIZE
            invariant
                0 <= gone <= before.len(),
                queue@ == before.skip(gone),
                gone == 0 || before.len() - gone >= MAX_QUEUE_SIZE - 1,
            decreases queue@.len(),
        {
            queue.pop_front();
            proof {
                gone = gone + 1;
                assert(queue@ =~= before.skip(gone));
            }
        }
        assert(queue@ =~= kept_packets(before));
        queue.push_back(AudioPacket { data, frames, pts });
        assert(queue@.drop_last() =~= kept_packets(before));
    }
}

/// The stream stops: its packets and its format are forgotten.
pub fn on_audio_stream_stopped<S>(
    audio_packet_queue: Option<&mut VecDeque<AudioPacket<S>>>,
    audio_params: Option<&mut Option<AudioParameters>>,
)
    ensures
        audio_packet_queue matches Some(queue) ==> final(queue)@.len() == 0,
        audio_params matches Some(params) ==> *final(params) is None,
{
    if let Some(queue) = audio_packet_queue {
        queue.clear();
    }
    if let Some(params) = audio_params {
        *params = None;
    }
}

/// The stream fails: the message to report, where there is one and the client
/// is not shutting down anyway.
pub fn on_audio_stream_error(
    audio_shutdown_flag: bool,
    message: Option<String>,
) -> (report: Option<String>)
    ensures
        report == (if audio_shutdown_flag {
            None
        } else {
            message
        }),
{
    if audio_shutdown_flag {
        return None;
    }
    message
}

/// The queue never holds more than it may once a packet has come, whatever it
/// held before, and a queue within its limit loses one packet at most.
pub proof fn the_packet_queue_is_bounded<S>(
    before: Seq<AudioPacket<S>>,
    after: Seq<AudioPacket<S>>,
    data: Seq<S>,
    frames: i32,
    pts: i64,
)
    requires
        takes_packet(before, after, data, frames, pts),
    ensures
        after.len() <= MAX_QUEUE_SIZE,
        before.len() < MAX_QUEUE_SIZE ==> after.len() == before.len() + 1,
        before.len() >= MAX_QUEUE_SIZE ==> after.len() == MAX_QUEUE_SIZE,
{
    assert(after.drop_last().len() == after.len() - 1);
}

/// The packets that stay keep their order, and none goes that is newer than one
/// that stays.
pub proof fn the_newest_packets_stay<S>(
    before: Seq<AudioPacket<S>>,
    after: Seq<AudioPacket<S>>,
    data: Seq<S>,
    frames: i32,
    pts: i64,
    age: int,
)
    requires
        takes_packet(before, after, data, frames, pts),
        1 <= age < after.len(),
    ensures
        age <= before.len(),
        after[after.len() - 1 - age] == before[before.len() - age],
{
    let kept = kept_packets(before);
    assert(kept.len() == after.len() - 1);
    assert(kept[kept.len() - age] == after[after.len() - 1 - age]);
}

/// Interleaving loses no sample: every frame holds the left sample and then the
/// right one.
pub proof fn interleaving_keeps_the_samples<S>(
    left: Option<&[S]>,
    right: Option<&[S]>,
    frames: int,
    silence: S,
    frame: int,
)
    requires
        0 <= frame < frames,
    ensures
        interleaved(left, right, frames, silence).len() == 2 * frames,
        interleaved(left, right, frames, silence)[2 * frame] == sample_of(left, frame, silence),
        interleaved(left, right, frames, silence)[2 * frame + 1] == sample_of(
            right,
            frame,
            silence,
        ),
{
}

/// A stream that runs in the requested format has its packets accepted.
pub proof fn the_requested_format_is_accepted(sample_rate: Option<i32>)
    ensures
        current_channels(Some(Some(requested_format(sample_rate)))) == STEREO_CHANNELS,
{
}

} // verus!

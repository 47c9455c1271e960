//! What the audio callbacks do to the stream, stated over what they are given.

use crate::audio::{
    audio_parameters, interleave, judge_packet, on_audio_stream_error, on_audio_stream_packet,
    on_audio_stream_started, on_audio_stream_stopped, AudioPacket, AudioParameters,
    PacketDecision, StreamFormat,
};
use std::collections::VecDeque;
use vstd::prelude::*;

verus! {

/// The browser is asked for stereo in packets of 256 frames, at the configured
/// rate or else at 48000.
pub proof fn the_browser_is_asked_for_stereo(
    params: Option<&mut AudioParameters>,
    sample_rate: Option<i32>,
    wanted: i32,
)
    requires
        call_ensures(audio_parameters, (params, sample_rate), wanted),
    ensures
        wanted == 1,
        params matches Some(p) ==> {
            &&& final(p).channels == 2
            &&& sample_rate is Some ==> final(p).sample_rate == sample_rate->0
            &&& sample_rate is None ==> final(p).sample_rate == 48000
            &&& final(p).frames_per_buffer == 256
        },
{
}

/// The format of a stream is remembered as it starts, number by number; where it
/// is not given, the format known before stays.
pub proof fn the_format_of_a_stream_is_remembered(
    format: Option<StreamFormat>,
    channels: i32,
    current: Option<&mut Option<AudioParameters>>,
)
    requires
        call_ensures(on_audio_stream_started, (format, channels, current), ()),
    ensures
        current matches Some(c) ==> match format {
            Some(format) => {
                &&& *final(c) is Some
                &&& (*final(c))->0.channels == channels
                &&& (*final(c))->0.sample_rate == format.sample_rate
                &&& (*final(c))->0.frames_per_buffer == format.frames_per_buffer
            },
            None => *final(c) == *c,
        },
{
}

/// A packet is accepted exactly where it has data and frames and the stream is
/// not known to have other channels than two; where it is known to, the decision
/// names how many.
pub proof fn packets_are_judged_by_their_channels(
    has_data: bool,
    frames: i32,
    params: Option<Option<AudioParameters>>,
    decision: PacketDecision,
)
    requires
        call_ensures(judge_packet, (has_data, frames, params), decision),
    ensures
        decision == PacketDecision::Ignore <==> !has_data || frames <= 0,
        decision == PacketDecision::Accept <==> has_data && frames > 0 && (params is None
            || params->0 is None || params->0->0.channels == 2),
        decision matches PacketDecision::UnexpectedChannels { channels } ==> params is Some
            && params->0 is Some && channels == params->0->0.channels,
{
}

/// Interleaving keeps every sample of both channels: frame by frame the left
/// one, then the right one, and silence for a channel that is missing.
pub proof fn interleaving_keeps_every_sample<S: Copy>(
    left: Option<&[S]>,
    right: Option<&[S]>,
    frames: i32,
    silence: S,
    data: Vec<S>,
    frame: int,
)
    requires
        call_ensures(interleave::<S>, (left, right, frames, silence), data),
        0 <= frame < frames,
    ensures
        data@.len() == 2 * frames,
        left is Some ==> data@[2 * frame] == left->0@[frame],
        left is None ==> data@[2 * frame] == silence,
        right is Some ==> data@[2 * frame + 1] == right->0@[frame],
        right is None ==> data@[2 * frame + 1] == silence,
{
}

/// The newest packet of the queue is the one that came, with its own time and
/// number of frames, and it holds every frame: the left sample, then the right
/// one, and silence for a channel that is missing.
pub proof fn the_newest_packet_holds_every_frame<S: Copy>(
    left: Option<&[S]>,
    right: Option<&[S]>,
    frames: i32,
    pts: i64,
    silence: S,
    queue: Option<&mut VecDeque<AudioPacket<S>>>,
    frame: int,
)
    requires
        call_ensures(on_audio_stream_packet::<S>, (left, right, frames, pts, silence, queue), ()),
        0 <= frame < frames,
    ensures
        queue matches Some(q) ==> {
            let newest = final(q)@.last();
            &&& final(q)@.len() > 0
            &&& newest.frames == frames
            &&& newest.pts == pts
            &&& newest.data@.len() == 2 * frames
            &&& left is Some ==> newest.data@[2 * frame] == left->0@[frame]
            &&& left is None ==> newest.data@[2 * frame] == silence
            &&& right is Some ==> newest.data@[2 * frame + 1] == right->0@[frame]
            &&& right is None ==> newest.data@[2 * frame + 1] == silence
        },
{
}

/// A packet that comes makes the queue one longer, up to a hundred packets, and
/// the packets before it are the newest of those that were there, in their order.
pub proof fn the_queue_keeps_the_newest_packets<S: Copy>(
    left: Option<&[S]>,
    right: Option<&[S]>,
    frames: i32,
    pts: i64,
    silence: S,
    queue: Option<&mut VecDeque<AudioPacket<S>>>,
    age: int,
)
    requires
        call_ensures(on_audio_stream_packet::<S>, (left, right, frames, pts, silence, queue), ()),
    ensures
        queue matches Some(q) ==> {
            &&& q@.len() < 100 ==> final(q)@.len() == q@.len() + 1
            &&& q@.len() >= 100 ==> final(q)@.len() == 100
            &&& 1 <= age < final(q)@.len() ==> final(q)@[final(q)@.len() - 1 - age]
                == q@[q@.len() - age]
        },
{
    if queue is Some {
        let before = (queue->0)@;
        let after = final(queue->0)@;
        let kept = after.drop_last();
        assert(kept.len() == after.len() - 1);
        if 1 <= age < after.len() {
            assert(kept[kept.len() - age] == after[after.len() - 1 - age]);
        }
    }
}

/// A stream that stops leaves neither packets nor a format behind.
pub proof fn a_stopped_stream_leaves_nothing<S>(
    queue: Option<&mut VecDeque<AudioPacket<S>>>,
    current: Option<&mut Option<AudioParameters>>,
)
    requires
        call_ensures(on_audio_stream_stopped::<S>, (queue, current), ()),
    ensures
        queue matches Some(q) ==> final(q)@.len() == 0,
        current matches Some(c) ==> *final(c) is None,
{
}

/// A message is reported as it is, unless the client shuts down.
pub proof fn errors_are_reported_as_they_are(
    shutting_down: bool,
    message: Option<String>,
    report: Option<String>,
)
    requires
        call_ensures(on_audio_stream_error, (shutting_down, message), report),
    ensures
        report is Some <==> !shutting_down && message is Some,
        report is Some ==> report->0@ == message->0@,
{
}

} // verus!

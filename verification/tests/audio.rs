use gdcef::audio::{
    audio_parameters, interleave, judge_packet, on_audio_stream_error, on_audio_stream_packet,
    on_audio_stream_started, on_audio_stream_stopped, AudioPacket, AudioParameters,
    PacketDecision, StreamFormat,
};
use std::collections::VecDeque;

#[test]
fn the_browser_is_asked_for_stereo() {
    let mut params = AudioParameters { channels: 0, sample_rate: 0, frames_per_buffer: 0 };
    assert_eq!(audio_parameters(Some(&mut params), Some(44100)), 1);
    assert_eq!(
        params,
        AudioParameters { channels: 2, sample_rate: 44100, frames_per_buffer: 256 }
    );
    assert_eq!(audio_parameters(Some(&mut params), None), 1);
    assert_eq!(params.sample_rate, 48000);
    assert_eq!(audio_parameters(None, None), 1);
}

#[test]
fn the_format_of_a_stream_is_remembered_until_it_stops() {
    let mut current = None;
    let format = StreamFormat { sample_rate: 48000, frames_per_buffer: 512 };
    on_audio_stream_started(Some(format), 2, Some(&mut current));
    let expected = AudioParameters { channels: 2, sample_rate: 48000, frames_per_buffer: 512 };
    assert_eq!(current, Some(expected));
    on_audio_stream_started(None, 6, Some(&mut current));
    assert_eq!(current, Some(expected));
    let mut queue = VecDeque::new();
    queue.push_back(AudioPacket { data: vec![0.5f32], frames: 1, pts: 0 });
    on_audio_stream_stopped(Some(&mut queue), Some(&mut current));
    assert_eq!(current, None);
    assert!(queue.is_empty());
}

#[test]
fn packets_are_judged_by_their_channels() {
    let surround = AudioParameters { channels: 6, sample_rate: 48000, frames_per_buffer: 256 };
    let stereo = AudioParameters { channels: 2, ..surround };
    assert_eq!(judge_packet(false, 4, None), PacketDecision::Ignore);
    assert_eq!(judge_packet(true, 0, None), PacketDecision::Ignore);
    assert_eq!(judge_packet(true, -1, None), PacketDecision::Ignore);
    assert_eq!(judge_packet(true, 4, None), PacketDecision::Accept);
    assert_eq!(judge_packet(true, 4, Some(None)), PacketDecision::Accept);
    assert_eq!(judge_packet(true, 4, Some(Some(stereo))), PacketDecision::Accept);
    assert_eq!(
        judge_packet(true, 4, Some(Some(surround))),
        PacketDecision::UnexpectedChannels { channels: 6 }
    );
}

#[test]
fn channels_are_interleaved_frame_by_frame() {
    let left = [0.1f32, 0.2, 0.3];
    let right = [1.1f32, 1.2, 1.3];
    assert_eq!(
        interleave(Some(&left), Some(&right), 3, 0.0),
        vec![0.1, 1.1, 0.2, 1.2, 0.3, 1.3]
    );
    assert_eq!(interleave(Some(&left), Some(&right), 1, 0.0), vec![0.1, 1.1]);
    assert_eq!(interleave(Some(&left), None, 2, 0.0), vec![0.1, 0.0, 0.2, 0.0]);
    assert_eq!(interleave::<f32>(None, None, 2, 0.0), vec![0.0; 4]);
}

#[test]
fn the_queue_keeps_the_newest_packets() {
    let mut queue: VecDeque<AudioPacket<f32>> = VecDeque::new();
    for pts in 0..130i64 {
        on_audio_stream_packet(Some(&[0.5]), None, 1, pts, 0.0, Some(&mut queue));
        assert!(queue.len() <= 100);
    }
    assert_eq!(queue.len(), 100);
    let times: Vec<i64> = queue.iter().map(|packet| packet.pts).collect();
    assert_eq!(times, (30..130).collect::<Vec<i64>>());
    assert_eq!(queue[99], AudioPacket { data: vec![0.5, 0.0], frames: 1, pts: 129 });
}

#[test]
fn an_overfull_queue_is_cut_down() {
    let mut queue: VecDeque<AudioPacket<f32>> = VecDeque::new();
    for pts in 0..150i64 {
        queue.push_back(AudioPacket { data: vec![], frames: 0, pts });
    }
    on_audio_stream_packet(None, None, 1, 150, 0.0, Some(&mut queue));
    assert_eq!(queue.len(), 100);
    assert_eq!(queue[0].pts, 51);
    assert_eq!(queue[99].pts, 150);
}

#[test]
fn errors_are_reported_until_the_client_shuts_down() {
    assert_eq!(on_audio_stream_error(false, Some("lost".to_string())), Some("lost".to_string()));
    assert_eq!(on_audio_stream_error(false, None), None);
    assert_eq!(on_audio_stream_error(true, Some("lost".to_string())), None);
}

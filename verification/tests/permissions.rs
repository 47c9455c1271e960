use gdcef::events::EventQueues;
use gdcef::permission_bits::{
    map_media_permission_types, map_permission_bits, map_prompt_permission_types,
};
use gdcef::permissions::{
    on_dismiss_permission_prompt, on_request_media_access_permission, on_show_permission_prompt,
    push_permission_request, MediaAccessReply, PendingPermissionAggregates,
    PendingPermissionDecision, PendingPermissionRequests, PromptAnswer, PromptReply, ALLOW_ALL,
    DENY_ALL,
};

type Pending = PendingPermissionRequests<&'static str, &'static str>;

/// Any policy but the two that decide by themselves.
const ASK: i32 = 2;

#[test]
fn prompt_permissions_empty_defaults_to_unknown() {
    let res = map_prompt_permission_types(0);
    assert_eq!(res, vec!["unknown_permission"]);
}

#[test]
fn prompt_permissions_unknown_bit_includes_unknown() {
    // Use a high bit that is very unlikely to collide with known permission bits.
    let res = map_prompt_permission_types(1u32 << 31);
    assert!(res.contains(&"unknown_permission"));
}

#[test]
fn media_permissions_empty_defaults_to_unknown() {
    let res = map_media_permission_types(0);
    assert_eq!(res, vec![(0, "unknown_media_permission")]);
}

#[test]
fn media_permissions_unknown_bit_includes_unknown() {
    // Use a high bit that is very unlikely to collide with known permission bits.
    let res = map_media_permission_types(1u32 << 31);
    assert!(
        res.iter()
            .any(|(_, label)| *label == "unknown_media_permission")
    );
}

#[test]
fn media_permissions_are_named_by_their_bits() {
    let bits = [
        (cef::MediaAccessPermissionTypes::DEVICE_AUDIO_CAPTURE, "microphone"),
        (cef::MediaAccessPermissionTypes::DEVICE_VIDEO_CAPTURE, "camera"),
        (cef::MediaAccessPermissionTypes::DESKTOP_AUDIO_CAPTURE, "desktop_audio_capture"),
        (cef::MediaAccessPermissionTypes::DESKTOP_VIDEO_CAPTURE, "desktop_video_capture"),
    ];
    for (permission, label) in bits {
        let bit = permission.get_raw() as u32;
        assert_eq!(map_media_permission_types(bit), vec![(bit, label)]);
    }
    assert_eq!(
        map_media_permission_types(0xf1),
        vec![(1, "microphone"), (0xf0, "unknown_media_permission")]
    );
}

#[test]
fn media_permissions_make_up_the_request() {
    for requested in [1u32, 3, 10, 15, 16, 0x8000_0005, u32::MAX] {
        let union = map_media_permission_types(requested)
            .iter()
            .fold(0, |bits, (bit, _)| bits | bit);
        assert_eq!(union, requested);
    }
}

#[test]
fn prompt_permissions_are_named_by_their_bits() {
    let bits = [
        (cef::PermissionRequestTypes::CAMERA_STREAM, "camera"),
        (cef::PermissionRequestTypes::MIC_STREAM, "microphone"),
        (cef::PermissionRequestTypes::GEOLOCATION, "geolocation"),
        (cef::PermissionRequestTypes::CLIPBOARD, "clipboard"),
        (cef::PermissionRequestTypes::NOTIFICATIONS, "notifications"),
        (cef::PermissionRequestTypes::MIDI_SYSEX, "midi_sysex"),
        (cef::PermissionRequestTypes::POINTER_LOCK, "pointer_lock"),
        (cef::PermissionRequestTypes::KEYBOARD_LOCK, "keyboard_lock"),
    ];
    let mut all = 0;
    for (permission, label) in bits {
        let bit = permission.get_raw() as u32;
        all |= bit;
        assert_eq!(map_prompt_permission_types(bit), vec![label]);
    }
    assert_eq!(
        map_prompt_permission_types(all | 1),
        vec![
            "camera",
            "microphone",
            "geolocation",
            "clipboard",
            "notifications",
            "midi_sysex",
            "pointer_lock",
            "keyboard_lock",
            "unknown_permission",
        ]
    );
}

#[test]
fn entries_of_several_bits_are_kept_whole() {
    assert_eq!(
        map_permission_bits(0b0101, &[(0b0011, "low"), (0b1000, "high")], "?"),
        vec![(0b0011, "low"), (0b0100, "?")]
    );
    assert_eq!(map_permission_bits(6, &[], "?"), vec![(6, "?")]);
}

#[test]
fn a_request_is_recorded_and_queued_under_one_number() {
    let mut queues = EventQueues::new();
    let mut pending = Pending::new();
    let mut counter = 6u64;
    push_permission_request(
        Some(&mut queues),
        Some(&mut pending),
        &mut counter,
        PendingPermissionDecision::Media { callback: "cb", permission_bit: 2, callback_token: 9 },
        "camera".to_string(),
        "https://a.example".to_string(),
    );
    assert_eq!(counter, 7);
    assert_eq!(queues.permission_requests.len(), 1);
    assert_eq!(queues.permission_requests[0].request_id, 7);
    assert_eq!(queues.permission_requests[0].permission_type, "camera");
    assert_eq!(queues.permission_requests[0].url, "https://a.example");
    assert_eq!(
        pending.get(&7),
        Some(&PendingPermissionDecision::Media {
            callback: "cb",
            permission_bit: 2,
            callback_token: 9
        })
    );
}

#[test]
fn a_request_that_cannot_be_queued_is_not_left_pending() {
    let mut pending = Pending::new();
    let mut counter = 0u64;
    push_permission_request(
        None,
        Some(&mut pending),
        &mut counter,
        PendingPermissionDecision::Prompt { callback: "cb", prompt_id: 1, callback_token: 9 },
        "camera".to_string(),
        String::new(),
    );
    assert!(pending.is_empty());
    assert_eq!(counter, 1);
}

#[test]
fn a_request_that_cannot_be_recorded_is_not_queued() {
    let mut queues = EventQueues::new();
    let mut counter = 0u64;
    push_permission_request::<&'static str, &'static str>(
        Some(&mut queues),
        None,
        &mut counter,
        PendingPermissionDecision::Prompt { callback: "cb", prompt_id: 1, callback_token: 9 },
        "camera".to_string(),
        String::new(),
    );
    assert!(queues.permission_requests.is_empty());
    assert_eq!(counter, 1);
}

#[test]
fn media_policies_decide_by_themselves() {
    let mut queues = EventQueues::new();
    let mut pending = Pending::new();
    let mut counter = 0u64;
    let mut reply = |policy, callback: Option<&&'static str>| {
        on_request_media_access_permission(
            policy,
            None,
            11,
            callback,
            5,
            &mut counter,
            Some(&mut pending),
            Some(&mut queues),
        )
    };
    assert_eq!(reply(ALLOW_ALL, Some(&"cb")), MediaAccessReply { grant: Some(11), handled: true });
    assert_eq!(reply(DENY_ALL, Some(&"cb")), MediaAccessReply { grant: Some(0), handled: true });
    assert_eq!(reply(ASK, None), MediaAccessReply { grant: None, handled: false });
    assert_eq!(reply(ALLOW_ALL, None), MediaAccessReply { grant: None, handled: false });
    assert!(pending.is_empty() && queues.permission_requests.is_empty());
    assert_eq!(counter, 0);
}

#[test]
fn media_requests_are_left_to_the_host_bit_by_bit() {
    let mut queues = EventQueues::new();
    let mut pending = Pending::new();
    let mut counter = 40u64;
    let reply = on_request_media_access_permission(
        ASK,
        Some("https://a.example".to_string()),
        0b10011,
        Some(&"cb"),
        5,
        &mut counter,
        Some(&mut pending),
        Some(&mut queues),
    );
    assert_eq!(reply, MediaAccessReply { grant: None, handled: true });
    assert_eq!(counter, 43);
    let queued: Vec<(u64, &str, &str)> = queues
        .permission_requests
        .iter()
        .map(|e| (e.request_id, e.permission_type.as_str(), e.url.as_str()))
        .collect();
    assert_eq!(
        queued,
        vec![
            (41, "microphone", "https://a.example"),
            (42, "camera", "https://a.example"),
            (43, "unknown_media_permission", "https://a.example"),
        ]
    );
    for (id, permission_bit) in [(41u64, 1u32), (42, 2), (43, 16)] {
        assert_eq!(
            pending.get(&id),
            Some(&PendingPermissionDecision::Media {
                callback: "cb",
                permission_bit,
                callback_token: 5
            })
        );
    }
    assert_eq!(pending.len(), 3);
}

#[test]
fn prompt_policies_decide_by_themselves() {
    let mut counter = 0u64;
    let mut reply = |policy, callback: Option<&&'static str>| {
        on_show_permission_prompt::<&'static str, &'static str>(
            policy, 3, None, 4, callback, 5, &mut counter, None, None,
        )
    };
    assert_eq!(
        reply(ALLOW_ALL, Some(&"cb")),
        PromptReply { answer: Some(PromptAnswer::Accept), handled: true }
    );
    assert_eq!(
        reply(DENY_ALL, Some(&"cb")),
        PromptReply { answer: Some(PromptAnswer::Deny), handled: true }
    );
    assert_eq!(reply(ASK, None), PromptReply { answer: None, handled: false });
    assert_eq!(counter, 0);
}

#[test]
fn dismissing_a_prompt_undoes_showing_it() {
    let mut queues = EventQueues::new();
    let mut pending = Pending::new();
    let mut aggregates: PendingPermissionAggregates<u32> = PendingPermissionAggregates::new();
    let mut counter = 0u64;
    pending.insert(
        0,
        PendingPermissionDecision::Media { callback: "m", permission_bit: 1, callback_token: 1 },
    );
    aggregates.insert(1, 10);
    aggregates.insert(2, 20);
    let reply = on_show_permission_prompt(
        ASK,
        77,
        None,
        0x104,
        Some(&"p"),
        2,
        &mut counter,
        Some(&mut pending),
        Some(&mut queues),
    );
    assert_eq!(reply, PromptReply { answer: None, handled: true });
    assert_eq!(pending.len(), 3);
    assert_eq!(queues.permission_requests[0].permission_type, "camera");
    assert_eq!(queues.permission_requests[1].permission_type, "geolocation");
    assert_eq!(queues.permission_requests[1].url, "");
    assert_eq!(
        pending.get(&2),
        Some(&PendingPermissionDecision::Prompt {
            callback: "p",
            prompt_id: 77,
            callback_token: 2
        })
    );

    on_dismiss_permission_prompt(76, Some(&mut pending), Some(&mut aggregates));
    assert_eq!(pending.len(), 3);
    assert_eq!(aggregates.len(), 2);

    on_dismiss_permission_prompt(77, Some(&mut pending), Some(&mut aggregates));
    assert_eq!(pending.len(), 1);
    assert!(pending.contains_key(&0));
    assert_eq!(aggregates.get(&1), Some(&10));
    assert_eq!(aggregates.get(&2), None);

    on_dismiss_permission_prompt(77, Some(&mut pending), Some(&mut aggregates));
    assert_eq!(pending.len(), 1);
    assert_eq!(aggregates.len(), 1);
}

#[test]
fn dismissal_without_the_pending_decisions_changes_no_aggregate() {
    let mut aggregates: PendingPermissionAggregates<u32> = PendingPermissionAggregates::new();
    aggregates.insert(2, 20);
    on_dismiss_permission_prompt::<u8, u8, u32>(77, None, Some(&mut aggregates));
    assert_eq!(aggregates.len(), 1);
}

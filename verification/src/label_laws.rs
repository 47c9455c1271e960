//! Which permission stands under which label, for every mask.

use crate::permission_bits::{
    entries_in_mask, labelled_bits, labels_of, map_media_permission_types, map_permission_bits,
    map_prompt_permission_types, media_entries, media_mappings, prompt_labels, prompt_mappings,
    union_of_bits,
};
use vstd::prelude::*;

verus! {

/// A mask shares a bit with the union of some entries exactly where it shares one
/// with an entry: one entry more adds its own bits and takes none away.
pub proof fn a_union_has_the_bits_of_its_entries(
    entries: Seq<(u32, &'static str)>,
    entry: (u32, &'static str),
    mask: u32,
)
    ensures
        mask & union_of_bits(Seq::<(u32, &'static str)>::empty()) == 0,
        mask & union_of_bits(entries.push(entry)) != 0 <==> mask & union_of_bits(entries) != 0
            || mask & entry.0 != 0,
{
    assert(entries.push(entry).drop_last() =~= entries);
    let union = union_of_bits(entries);
    let bit = entry.0;
    assert(mask & 0u32 == 0) by (bit_vector);
    assert(mask & (union | bit) != 0 <==> mask & union != 0 || mask & bit != 0) by (bit_vector);
}

/// An entry is found in a mask exactly where it shares a bit with it, behind the
/// entries that come before it, and with its own bits and label.
pub proof fn entries_are_found_in_their_order(
    requested: u32,
    entries: Seq<(u32, &'static str)>,
    entry: (u32, &'static str),
)
    ensures
        entries_in_mask(requested, Seq::<(u32, &'static str)>::empty()).len() == 0,
        requested & entry.0 != 0 ==> entries_in_mask(requested, entries.push(entry))
            == entries_in_mask(requested, entries).push(entry),
        requested & entry.0 == 0 ==> entries_in_mask(requested, entries.push(entry))
            == entries_in_mask(requested, entries),
{
    reveal_with_fuel(Seq::filter, 2);
    assert(entries.push(entry).drop_last() =~= entries);
}

/// Splitting a mask gives the entries found in it; behind them, under the unknown
/// label, the bits that belong to no entry; and where that would be nothing, the
/// mask as a whole under the unknown label.
pub proof fn a_mask_is_split_into_known_and_unknown(
    requested: u32,
    mappings: &[(u32, &'static str)],
    unknown_label: &'static str,
    out: Vec<(u32, &'static str)>,
)
    requires
        call_ensures(map_permission_bits, (requested, mappings, unknown_label), out),
    ensures
        ({
            let known = entries_in_mask(requested, mappings@);
            let rest = requested & !union_of_bits(mappings@);
            &&& known.is_prefix_of(out@) || known.len() == 0
            &&& rest != 0 ==> out@ == known + seq![(rest, unknown_label)]
            &&& rest == 0 && known.len() > 0 ==> out@ == known
            &&& rest == 0 && known.len() == 0 ==> out@ == seq![(requested, unknown_label)]
            &&& out@ == labelled_bits(requested, mappings@, unknown_label)
        }),
{
    let known = entries_in_mask(requested, mappings@);
    let rest = requested & !union_of_bits(mappings@);
    assert(known.push((rest, unknown_label)) =~= known + seq![(rest, unknown_label)]);
}

proof fn lemma_found_one_more(
    requested: u32,
    entries: Seq<(u32, &'static str)>,
    bit: u32,
    label: &'static str,
    part: Seq<(u32, &'static str)>,
)
    requires
        requested & bit != 0 ==> part == seq![(bit, label)],
        requested & bit == 0 ==> part == Seq::<(u32, &'static str)>::empty(),
    ensures
        entries_in_mask(requested, entries.push((bit, label))) == entries_in_mask(
            requested,
            entries,
        ) + part,
        union_of_bits(entries.push((bit, label))) == union_of_bits(entries) | bit,
        part.len() > 0 <==> requested & bit != 0,
{
    entries_are_found_in_their_order(requested, entries, (bit, label));
    assert(entries.push((bit, label)).drop_last() =~= entries);
    assert(entries_in_mask(requested, entries.push((bit, label))) =~= entries_in_mask(
        requested,
        entries,
    ) + part);
}

proof fn lemma_rest_is_last(
    requested: u32,
    mappings: Seq<(u32, &'static str)>,
    unknown_label: &'static str,
    known: Seq<(u32, &'static str)>,
    rest: u32,
    part: Seq<(u32, &'static str)>,
)
    requires
        known == entries_in_mask(requested, mappings),
        rest == requested & !union_of_bits(mappings),
        known.len() == 0 ==> rest == requested,
        rest != 0 || requested == 0 ==> part == seq![(rest, unknown_label)],
        rest == 0 && requested != 0 ==> part == Seq::<(u32, &'static str)>::empty(),
        requested == 0 ==> known.len() == 0,
    ensures
        labelled_bits(requested, mappings, unknown_label) == known + part,
{
    assert(labelled_bits(requested, mappings, unknown_label) =~= known + part);
}

proof fn lemma_media_found(
    requested: u32,
    microphone: Seq<(u32, &'static str)>,
    camera: Seq<(u32, &'static str)>,
    desktop_audio: Seq<(u32, &'static str)>,
    desktop_video: Seq<(u32, &'static str)>,
)
    requires
        requested & 1u32 != 0 ==> microphone == seq![(1u32, "microphone")],
        requested & 1u32 == 0 ==> microphone == Seq::<(u32, &'static str)>::empty(),
        requested & 2u32 != 0 ==> camera == seq![(2u32, "camera")],
        requested & 2u32 == 0 ==> camera == Seq::<(u32, &'static str)>::empty(),
        requested & 4u32 != 0 ==> desktop_audio == seq![(4u32, "desktop_audio_capture")],
        requested & 4u32 == 0 ==> desktop_audio == Seq::<(u32, &'static str)>::empty(),
        requested & 8u32 != 0 ==> desktop_video == seq![(8u32, "desktop_video_capture")],
        requested & 8u32 == 0 ==> desktop_video == Seq::<(u32, &'static str)>::empty(),
    ensures
        entries_in_mask(requested, media_mappings()) == microphone + camera + desktop_audio
            + desktop_video,
        union_of_bits(media_mappings()) == 15u32,
        (microphone + camera + desktop_audio + desktop_video).len() == 0 <==> requested & 1u32 == 0
            && requested & 2u32 == 0 && requested & 4u32 == 0 && requested & 8u32 == 0,
{
    let s0 = Seq::<(u32, &'static str)>::empty();
    let s1 = s0.push((1u32, "microphone"));
    let s2 = s1.push((2u32, "camera"));
    let s3 = s2.push((4u32, "desktop_audio_capture"));
    let s4 = s3.push((8u32, "desktop_video_capture"));
    assert(media_mappings() =~= s4);
    entries_are_found_in_their_order(requested, s0, (0u32, ""));
    lemma_found_one_more(requested, s0, 1u32, "microphone", microphone);
    lemma_found_one_more(requested, s1, 2u32, "camera", camera);
    lemma_found_one_more(requested, s2, 4u32, "desktop_audio_capture", desktop_audio);
    lemma_found_one_more(requested, s3, 8u32, "desktop_video_capture", desktop_video);
    assert(entries_in_mask(requested, s0) + microphone =~= microphone);
    assert(union_of_bits(s0) == 0u32);
    assert((((0u32 | 1u32) | 2u32) | 4u32) | 8u32 == 15u32) by (bit_vector);
}

/// A media access mask is split into microphone, camera, desktop sound and
/// desktop picture, in this order, each where its bit is in the mask and with
/// that bit, and then what is left of the mask under the unknown label, where
/// something is left or nothing was asked for.
pub proof fn a_media_mask_is_split_in_this_order(
    requested: u32,
    microphone: Seq<(u32, &'static str)>,
    camera: Seq<(u32, &'static str)>,
    desktop_audio: Seq<(u32, &'static str)>,
    desktop_video: Seq<(u32, &'static str)>,
    rest: Seq<(u32, &'static str)>,
)
    requires
        requested & 1u32 != 0 ==> microphone == seq![(1u32, "microphone")],
        requested & 1u32 == 0 ==> microphone == Seq::<(u32, &'static str)>::empty(),
        requested & 2u32 != 0 ==> camera == seq![(2u32, "camera")],
        requested & 2u32 == 0 ==> camera == Seq::<(u32, &'static str)>::empty(),
        requested & 4u32 != 0 ==> desktop_audio == seq![(4u32, "desktop_audio_capture")],
        requested & 4u32 == 0 ==> desktop_audio == Seq::<(u32, &'static str)>::empty(),
        requested & 8u32 != 0 ==> desktop_video == seq![(8u32, "desktop_video_capture")],
        requested & 8u32 == 0 ==> desktop_video == Seq::<(u32, &'static str)>::empty(),
        requested & !15u32 != 0 || requested == 0 ==> rest == seq![
            (requested & !15u32, "unknown_media_permission"),
        ],
        requested & !15u32 == 0 && requested != 0 ==> rest == Seq::<(u32, &'static str)>::empty(),
    ensures
        media_entries(requested) == microphone + camera + desktop_audio + desktop_video + rest,
{
    lemma_media_found(requested, microphone, camera, desktop_audio, desktop_video);
    assert(requested & 1u32 == 0 && requested & 2u32 == 0 && requested & 4u32 == 0 && requested
        & 8u32 == 0 ==> requested & !15u32 == requested) by (bit_vector);
    assert(requested == 0 ==> requested & 1u32 == 0 && requested & 2u32 == 0 && requested & 4u32
        == 0 && requested & 8u32 == 0) by (bit_vector);
    lemma_rest_is_last(
        requested,
        media_mappings(),
        "unknown_media_permission",
        microphone + camera + desktop_audio + desktop_video,
        requested & !15u32,
        rest,
    );
}

/// The entry of a bit, where the mask has it.
spec fn part_of(requested: u32, bit: u32, label: &'static str) -> Seq<(u32, &'static str)> {
    if requested & bit != 0 {
        seq![(bit, label)]
    } else {
        Seq::empty()
    }
}

proof fn lemma_label_of_part(
    requested: u32,
    bit: u32,
    label: &'static str,
    labels: Seq<&'static str>,
)
    requires
        requested & bit != 0 ==> labels == seq![label],
        requested & bit == 0 ==> labels == Seq::<&'static str>::empty(),
    ensures
        labels_of(part_of(requested, bit, label)) == labels,
{
    assert(labels_of(part_of(requested, bit, label)) =~= labels);
}

proof fn lemma_labels_of_sum(a: Seq<(u32, &'static str)>, b: Seq<(u32, &'static str)>)
    ensures
        labels_of(a + b) == labels_of(a) + labels_of(b),
{
    assert(labels_of(a + b) =~= labels_of(a) + labels_of(b));
}

/// Finding one more entry adds its label, and its part is there where its bit is.
proof fn lemma_label_one_more(
    requested: u32,
    entries: Seq<(u32, &'static str)>,
    bit: u32,
    label: &'static str,
    labels: Seq<&'static str>,
)
    requires
        requested & bit != 0 ==> labels == seq![label],
        requested & bit == 0 ==> labels == Seq::<&'static str>::empty(),
    ensures
        labels_of(entries_in_mask(requested, entries.push((bit, label)))) == labels_of(
            entries_in_mask(requested, entries),
        ) + labels,
        entries_in_mask(requested, entries.push((bit, label))).len() == entries_in_mask(
            requested,
            entries,
        ).len() + labels.len(),
        union_of_bits(entries.push((bit, label))) == union_of_bits(entries) | bit,
{
    let part = part_of(requested, bit, label);
    lemma_found_one_more(requested, entries, bit, label, part);
    lemma_labels_of_sum(entries_in_mask(requested, entries), part);
    lemma_label_of_part(requested, bit, label, labels);
}

/// A prompt mask is split into these labels, in this order, each where its bit is
/// in the mask, and then the unknown label, where something is left of the mask
/// or nothing was asked for.
pub proof fn a_prompt_mask_is_split_in_this_order(
    requested: u32,
    camera: Seq<&'static str>,
    microphone: Seq<&'static str>,
    geolocation: Seq<&'static str>,
    clipboard: Seq<&'static str>,
    notifications: Seq<&'static str>,
    midi: Seq<&'static str>,
    pointer: Seq<&'static str>,
    keyboard: Seq<&'static str>,
    rest: Seq<&'static str>,
)
    requires
        requested & 0x4u32 != 0 ==> camera == seq!["camera"],
        requested & 0x4u32 == 0 ==> camera == Seq::<&'static str>::empty(),
        requested & 0x1000u32 != 0 ==> microphone == seq!["microphone"],
        requested & 0x1000u32 == 0 ==> microphone == Seq::<&'static str>::empty(),
        requested & 0x100u32 != 0 ==> geolocation == seq!["geolocation"],
        requested & 0x100u32 == 0 ==> geolocation == Seq::<&'static str>::empty(),
        requested & 0x10u32 != 0 ==> clipboard == seq!["clipboard"],
        requested & 0x10u32 == 0 ==> clipboard == Seq::<&'static str>::empty(),
        requested & 0x8000u32 != 0 ==> notifications == seq!["notifications"],
        requested & 0x8000u32 == 0 ==> notifications == Seq::<&'static str>::empty(),
        requested & 0x2000u32 != 0 ==> midi == seq!["midi_sysex"],
        requested & 0x2000u32 == 0 ==> midi == Seq::<&'static str>::empty(),
        requested & 0x20000u32 != 0 ==> pointer == seq!["pointer_lock"],
        requested & 0x20000u32 == 0 ==> pointer == Seq::<&'static str>::empty(),
        requested & 0x10000u32 != 0 ==> keyboard == seq!["keyboard_lock"],
        requested & 0x10000u32 == 0 ==> keyboard == Seq::<&'static str>::empty(),
        requested & !0x3b114u32 != 0 || requested == 0 ==> rest == seq!["unknown_permission"],
        requested & !0x3b114u32 == 0 && requested != 0 ==> rest == Seq::<&'static str>::empty(),
    ensures
        prompt_labels(requested) == camera + microphone + geolocation + clipboard + notifications
            + midi + pointer + keyboard + rest,
{
    let s0 = Seq::<(u32, &'static str)>::empty();
    let s1 = s0.push((0x4u32, "camera"));
    let s2 = s1.push((0x1000u32, "microphone"));
    let s3 = s2.push((0x100u32, "geolocation"));
    let s4 = s3.push((0x10u32, "clipboard"));
    let s5 = s4.push((0x8000u32, "notifications"));
    let s6 = s5.push((0x2000u32, "midi_sysex"));
    let s7 = s6.push((0x20000u32, "pointer_lock"));
    let s8 = s7.push((0x10000u32, "keyboard_lock"));
    assert(prompt_mappings() =~= s8);
    entries_are_found_in_their_order(requested, s0, (0u32, ""));
    lemma_label_one_more(requested, s0, 0x4u32, "camera", camera);
    lemma_label_one_more(requested, s1, 0x1000u32, "microphone", microphone);
    lemma_label_one_more(requested, s2, 0x100u32, "geolocation", geolocation);
    lemma_label_one_more(requested, s3, 0x10u32, "clipboard", clipboard);
    lemma_label_one_more(requested, s4, 0x8000u32, "notifications", notifications);
    lemma_label_one_more(requested, s5, 0x2000u32, "midi_sysex", midi);
    lemma_label_one_more(requested, s6, 0x20000u32, "pointer_lock", pointer);
    lemma_label_one_more(requested, s7, 0x10000u32, "keyboard_lock", keyboard);
    assert(labels_of(entries_in_mask(requested, s0)) + camera =~= camera);
    assert(union_of_bits(s0) == 0u32);
    assert((((((((0u32 | 0x4u32) | 0x1000u32) | 0x100u32) | 0x10u32) | 0x8000u32) | 0x2000u32)
        | 0x20000u32) | 0x10000u32 == 0x3b114u32) by (bit_vector);
    assert(requested & 0x4u32 == 0 && requested & 0x1000u32 == 0 && requested & 0x100u32 == 0
        && requested & 0x10u32 == 0 && requested & 0x8000u32 == 0 && requested & 0x2000u32 == 0
        && requested & 0x20000u32 == 0 && requested & 0x10000u32 == 0 ==> requested & !0x3b114u32
        == requested) by (bit_vector);
    assert(requested == 0 ==> requested & 0x4u32 == 0 && requested & 0x1000u32 == 0 && requested
        & 0x100u32 == 0 && requested & 0x10u32 == 0 && requested & 0x8000u32 == 0 && requested
        & 0x2000u32 == 0 && requested & 0x20000u32 == 0 && requested & 0x10000u32 == 0)
        by (bit_vector);
    let known = entries_in_mask(requested, s8);
    let left = requested & !0x3b114u32;
    let part: Seq<(u32, &'static str)> = if left != 0 || requested == 0 {
        seq![(left, "unknown_permission")]
    } else {
        Seq::empty()
    };
    lemma_rest_is_last(requested, s8, "unknown_permission", known, left, part);
    lemma_labels_of_sum(known, part);
    assert(labels_of(part) =~= rest);
}

proof fn lemma_media_names_differ()
    ensures
        "microphone"@ != "camera"@,
        "microphone"@ != "desktop_audio_capture"@,
        "microphone"@ != "desktop_video_capture"@,
        "microphone"@ != "unknown_media_permission"@,
        "camera"@ != "desktop_audio_capture"@,
        "camera"@ != "desktop_video_capture"@,
        "camera"@ != "unknown_media_permission"@,
        "desktop_audio_capture"@ != "desktop_video_capture"@,
        "desktop_audio_capture"@ != "unknown_media_permission"@,
        "desktop_video_capture"@ != "unknown_media_permission"@,
{
    reveal_strlit("microphone");
    reveal_strlit("camera");
    reveal_strlit("desktop_audio_capture");
    reveal_strlit("desktop_video_capture");
    reveal_strlit("unknown_media_permission");
    assert("microphone"@.len() == 10);
    assert("camera"@.len() == 6);
    assert("desktop_audio_capture"@.len() == 21);
    assert("desktop_video_capture"@.len() == 21);
    assert("unknown_media_permission"@.len() == 24);
    assert("desktop_audio_capture"@[8] != "desktop_video_capture"@[8]);
}

/// The parts of a media access mask, and where each of them stands.
proof fn lemma_media_parts(requested: u32)
    ensures
        ({
            let a = part_of(requested, 1u32, "microphone");
            let b = part_of(requested, 2u32, "camera");
            let c = part_of(requested, 4u32, "desktop_audio_capture");
            let d = part_of(requested, 8u32, "desktop_video_capture");
            let rest = requested & !15u32;
            let u: Seq<(u32, &'static str)> = if rest != 0 || requested == 0 {
                seq![(rest, "unknown_media_permission")]
            } else {
                Seq::empty()
            };
            media_entries(requested) == a + b + c + d + u
        }),
{
    let rest = requested & !15u32;
    let u: Seq<(u32, &'static str)> = if rest != 0 || requested == 0 {
        seq![(rest, "unknown_media_permission")]
    } else {
        Seq::empty()
    };
    a_media_mask_is_split_in_this_order(
        requested,
        part_of(requested, 1u32, "microphone"),
        part_of(requested, 2u32, "camera"),
        part_of(requested, 4u32, "desktop_audio_capture"),
        part_of(requested, 8u32, "desktop_video_capture"),
        u,
    );
}

/// Whatever is granted or refused under a label is granted or refused for the
/// permission of that name: the microphone's entry carries the microphone's bit,
/// the camera's the camera's, and so on, and the unknown entry carries all bits
/// without a name and no other. No entry has any other label.
pub proof fn a_media_label_carries_its_own_bit(requested: u32, k: int)
    requires
        0 <= k < media_entries(requested).len(),
    ensures
        ({
            let (bit, label) = media_entries(requested)[k];
            &&& label@ == "microphone"@ ==> bit == 1
            &&& label@ == "camera"@ ==> bit == 2
            &&& label@ == "desktop_audio_capture"@ ==> bit == 4
            &&& label@ == "desktop_video_capture"@ ==> bit == 8
            &&& label@ == "unknown_media_permission"@ ==> bit == requested & !15u32
            &&& {
                ||| label@ == "microphone"@
                ||| label@ == "camera"@
                ||| label@ == "desktop_audio_capture"@
                ||| label@ == "desktop_video_capture"@
                ||| label@ == "unknown_media_permission"@
            }
        }),
{
    lemma_media_names_differ();
    lemma_media_parts(requested);
}

/// A media permission is named exactly where its bit is in the mask, and the
/// unknown label is given exactly where the mask is empty or has a bit without a
/// name.
pub proof fn a_media_permission_is_named_where_it_is_asked_for(requested: u32)
    ensures
        (exists|k: int|
            0 <= k < media_entries(requested).len() && (#[trigger] media_entries(requested)[k]).1@
                == "microphone"@) <==> requested & 1u32 != 0,
        (exists|k: int|
            0 <= k < media_entries(requested).len() && (#[trigger] media_entries(requested)[k]).1@
                == "camera"@) <==> requested & 2u32 != 0,
        (exists|k: int|
            0 <= k < media_entries(requested).len() && (#[trigger] media_entries(requested)[k]).1@
                == "desktop_audio_capture"@) <==> requested & 4u32 != 0,
        (exists|k: int|
            0 <= k < media_entries(requested).len() && (#[trigger] media_entries(requested)[k]).1@
                == "desktop_video_capture"@) <==> requested & 8u32 != 0,
        (exists|k: int|
            0 <= k < media_entries(requested).len() && (#[trigger] media_entries(requested)[k]).1@
                == "unknown_media_permission"@) <==> (requested == 0 || requested & !15u32 != 0),
{
    lemma_media_names_differ();
    lemma_media_parts(requested);
    let a = part_of(requested, 1u32, "microphone");
    let b = part_of(requested, 2u32, "camera");
    let c = part_of(requested, 4u32, "desktop_audio_capture");
    let d = part_of(requested, 8u32, "desktop_video_capture");
    let all = media_entries(requested);
    if requested & 1u32 != 0 {
        assert(all[0].1 == "microphone");
    }
    if requested & 2u32 != 0 {
        assert(all[a.len() as int].1 == "camera");
    }
    if requested & 4u32 != 0 {
        assert(all[(a.len() + b.len()) as int].1 == "desktop_audio_capture");
    }
    if requested & 8u32 != 0 {
        assert(all[(a.len() + b.len() + c.len()) as int].1 == "desktop_video_capture");
    }
    if requested == 0 || requested & !15u32 != 0 {
        assert(all[(a.len() + b.len() + c.len() + d.len()) as int].1 == "unknown_media_permission");
    }
}

/// No label of a media access mask is given twice, and the entries stand in the
/// order of their bits.
pub proof fn media_labels_are_given_once_and_in_order(requested: u32, j: int, k: int)
    requires
        0 <= j < k < media_entries(requested).len(),
    ensures
        media_entries(requested)[j].1@ != media_entries(requested)[k].1@,
        media_entries(requested)[j].0 < media_entries(requested)[k].0,
{
    lemma_media_names_differ();
    lemma_media_parts(requested);
    let rest = requested & !15u32;
    assert(requested & !15u32 == 0 || requested & !15u32 >= 16) by (bit_vector);
    assert(requested == 0 ==> requested & 1u32 == 0 && requested & 2u32 == 0 && requested & 4u32
        == 0 && requested & 8u32 == 0) by (bit_vector);
}

/// The executable mappings give exactly what the laws above speak of.
pub proof fn masks_are_mapped_as_they_are_split(
    requested: u32,
    entries: Vec<(u32, &'static str)>,
    labels: Vec<&'static str>,
)
    requires
        call_ensures(map_media_permission_types, (requested,), entries),
        call_ensures(map_prompt_permission_types, (requested,), labels),
    ensures
        entries@ == media_entries(requested),
        labels@ == prompt_labels(requested),
{
}

} // verus!

//! Names for the bits of a permission mask.

use crate::codes::{
    media_permission_to_u32, prompt_permission_to_u32, MediaPermission, PromptPermission,
};
use vstd::prelude::*;

verus! {

/// The union of the bits of some entries.
pub open spec fn union_of_bits(entries: Seq<(u32, &'static str)>) -> u32
    decreases entries.len(),
{
    if entries.len() == 0 {
        0u32
    } else {
        union_of_bits(entries.drop_last()) | entries.last().0
    }
}

/// The entries of which a mask holds a bit, in their order.
pub open spec fn entries_in_mask(
    requested: u32,
    mappings: Seq<(u32, &'static str)>,
) -> Seq<(u32, &'static str)> {
    mappings.filter(|mapping: (u32, &'static str)| requested & mapping.0 != 0)
}

/// What a mask asks for: the entries that it holds a bit of, then the bits that
/// no entry knows under the unknown label. A mask that would yield nothing
/// stands under the unknown label as a whole.
pub open spec fn labelled_bits(
    requested: u32,
    mappings: Seq<(u32, &'static str)>,
    unknown_label: &'static str,
) -> Seq<(u32, &'static str)> {
    let known = entries_in_mask(requested, mappings);
    let unknown = requested & !union_of_bits(mappings);
    if unknown != 0 {
        known.push((unknown, unknown_label))
    } else if known.len() == 0 {
        seq![(requested, unknown_label)]
    } else {
        known
    }
}

/// The media permissions in the order in which they are reported.
pub open spec fn media_mappings() -> Seq<(u32, &'static str)> {
    seq![
        (MediaPermission::DeviceAudioCapture.bit(), "microphone"),
        (MediaPermission::DeviceVideoCapture.bit(), "camera"),
        (MediaPermission::DesktopAudioCapture.bit(), "desktop_audio_capture"),
        (MediaPermission::DesktopVideoCapture.bit(), "desktop_video_capture"),
    ]
}

/// The prompt permissions in the order in which they are reported.
pub open spec fn prompt_mappings() -> Seq<(u32, &'static str)> {
    seq![
        (PromptPermission::CameraStream.bit(), "camera"),
        (PromptPermission::MicStream.bit(), "microphone"),
        (PromptPermission::Geolocation.bit(), "geolocation"),
        (PromptPermission::Clipboard.bit(), "clipboard"),
        (PromptPermission::Notifications.bit(), "notifications"),
        (PromptPermission::MidiSysex.bit(), "midi_sysex"),
        (PromptPermission::PointerLock.bit(), "pointer_lock"),
        (PromptPermission::KeyboardLock.bit(), "keyboard_lock"),
    ]
}

/// The labels of some entries.
pub open spec fn labels_of(entries: Seq<(u32, &'static str)>) -> Seq<&'static str> {
    entries.map_values(|entry: (u32, &'static str)| entry.1)
}

/// What a media access mask asks for.
pub open spec fn media_entries(requested: u32) -> Seq<(u32, &'static str)> {
    labelled_bits(requested, media_mappings(), "unknown_media_permission")
}

/// The labels of what a prompt mask asks for.
pub open spec fn prompt_labels(requested: u32) -> Seq<&'static str> {
    labels_of(labelled_bits(requested, prompt_mappings(), "unknown_permission"))
}

/// Splits a permission mask into labelled bits.
pub fn map_permission_bits(
    requested: u32,
    mappings: &[(u32, &'static str)],
    unknown_label: &'static str,
) -> (out: Vec<(u32, &'static str)>)
    ensures
        out@ == labelled_bits(requested, mappings@, unknown_label),
{
    let mut out: Vec<(u32, &'static str)> = Vec::new();
    let mut known_mask: u32 = 0;
    let mut i: usize = 0;
    while i < mappings.len()
        invariant
            i <= mappings@.len(),
            known_mask == union_of_bits(mappings@.take(i as int)),
            out@ == entries_in_mask(requested, mappings@.take(i as int)),
        decreases mappings@.len() - i,
    {
        let (bit, label) = mappings[i];
        proof {
            let next = mappings@.take(i + 1);
            assert(next.drop_last() =~= mappings@.take(i as int));
            reveal_with_fuel(Seq::filter, 2);
        }
        known_mask = known_mask | bit;
        if requested & bit != 0 {
            out.push((bit, label));
        }
        i = i + 1;
    }
    assert(mappings@.take(i as int) =~= mappings@);
    let unknown: u32 = requested & !known_mask;
    if unknown != 0 {
        out.push((unknown, unknown_label));
    }
    if out.len() == 0 {
        out.push((requested, unknown_label));
    }
    out
}

/// Names the media permissions that a mask asks for.
pub fn map_media_permission_types(requested_permissions: u32) -> (out: Vec<(u32, &'static str)>)
    ensures
        out@ == media_entries(requested_permissions),
{
    let mappings: [(u32, &'static str); 4] = [
        (media_permission_to_u32(MediaPermission::DeviceAudioCapture), "microphone"),
        (media_permission_to_u32(MediaPermission::DeviceVideoCapture), "camera"),
        (media_permission_to_u32(MediaPermission::DesktopAudioCapture), "desktop_audio_capture"),
        (media_permission_to_u32(MediaPermission::DesktopVideoCapture), "desktop_video_capture"),
    ];
    assert(mappings@ =~= media_mappings());
    map_permission_bits(requested_permissions, &mappings, "unknown_media_permission")
}

/// Names the permissions that a prompt mask asks for.
pub fn map_prompt_permission_types(requested_permissions: u32) -> (labels: Vec<&'static str>)
    ensures
        labels@ == prompt_labels(requested_permissions),
{
    let mappings: [(u32, &'static str); 8] = [
        (prompt_permission_to_u32(PromptPermission::CameraStream), "camera"),
        (prompt_permission_to_u32(PromptPermission::MicStream), "microphone"),
        (prompt_permission_to_u32(PromptPermission::Geolocation), "geolocation"),
        (prompt_permission_to_u32(PromptPermission::Clipboard), "clipboard"),
        (prompt_permission_to_u32(PromptPermission::Notifications), "notifications"),
        (prompt_permission_to_u32(PromptPermission::MidiSysex), "midi_sysex"),
        (prompt_permission_to_u32(PromptPermission::PointerLock), "pointer_lock"),
        (prompt_permission_to_u32(PromptPermission::KeyboardLock), "keyboard_lock"),
    ];
    assert(mappings@ =~= prompt_mappings());
    let entries = map_permission_bits(requested_permissions, &mappings, "unknown_permission");
    let mut labels: Vec<&'static str> = Vec::new();
    let mut i: usize = 0;
    while i < entries.len()
        invariant
            i <= entries@.len(),
            labels@ == labels_of(entries@).take(i as int),
        decreases entries@.len() - i,
    {
        labels.push(entries[i].1);
        i = i + 1;
        assert(labels_of(entries@).take(i as int) =~= labels_of(entries@).take(i - 1).push(
            labels_of(entries@)[i - 1],
        ));
    }
    assert(labels_of(entries@).take(i as int) =~= labels_of(entries@));
    labels
}

/// An entry wholly inside or wholly outside a mask: so is every single bit.
pub open spec fn not_split_by(mapping: (u32, &'static str), requested: u32) -> bool {
    requested & mapping.0 == 0 || requested & mapping.0 == mapping.0
}

/// The entries of a mask cover what it shares with all entries.
proof fn lemma_entries_cover(requested: u32, mappings: Seq<(u32, &'static str)>)
    requires
        forall|i: int| 0 <= i < mappings.len() ==> not_split_by(#[trigger] mappings[i], requested),
    ensures
        union_of_bits(entries_in_mask(requested, mappings)) == requested & union_of_bits(mappings),
    decreases mappings.len(),
{
    reveal_with_fuel(Seq::filter, 2);
    if mappings.len() == 0 {
        assert(requested & 0u32 == 0u32) by (bit_vector);
    } else {
        let rest = mappings.drop_last();
        let bit = mappings.last().0;
        let union = union_of_bits(rest);
        assert forall|i: int| 0 <= i < rest.len() implies not_split_by(
            #[trigger] rest[i],
            requested,
        ) by {
            assert(rest[i] == mappings[i]);
        }
        lemma_entries_cover(requested, rest);
        assert(not_split_by(mappings[mappings.len() - 1], requested));
        let known = entries_in_mask(requested, rest);
        if requested & bit != 0 {
            assert(known.push(mappings.last()).drop_last() =~= known);
            assert((requested & union) | bit == requested & (union | bit)) by (bit_vector)
                requires
                    requested & bit == bit,
            ;
        } else {
            assert(requested & union == requested & (union | bit)) by (bit_vector)
                requires
                    requested & bit == 0,
            ;
        }
    }
}

/// Splitting a mask into labelled bits loses no bit and adds none, wherever no
/// entry is split by the mask.
pub proof fn labelled_bits_make_up_the_mask(
    requested: u32,
    mappings: Seq<(u32, &'static str)>,
    unknown_label: &'static str,
)
    requires
        forall|i: int| 0 <= i < mappings.len() ==> not_split_by(#[trigger] mappings[i], requested),
    ensures
        union_of_bits(labelled_bits(requested, mappings, unknown_label)) == requested,
{
    lemma_entries_cover(requested, mappings);
    let known = entries_in_mask(requested, mappings);
    let union = union_of_bits(mappings);
    let unknown = requested & !union;
    assert((requested & union) | (requested & !union) == requested) by (bit_vector);
    if unknown != 0 {
        assert(known.push((unknown, unknown_label)).drop_last() =~= known);
    } else if known.len() == 0 {
        let all = seq![(requested, unknown_label)];
        assert(all.drop_last() =~= Seq::empty());
        assert(union_of_bits(all.drop_last()) == 0u32);
        assert(0u32 | requested == requested) by (bit_vector);
    } else {
        assert((requested & union) | 0u32 == requested & union) by (bit_vector);
    }
}

/// The permissions that a media access request is split into make up the
/// request: granting each of them grants exactly what was asked for.
pub proof fn media_entries_make_up_the_request(requested: u32)
    ensures
        union_of_bits(media_entries(requested)) == requested,
{
    assert(requested & 1u32 == 0 || requested & 1u32 == 1u32) by (bit_vector);
    assert(requested & 2u32 == 0 || requested & 2u32 == 2u32) by (bit_vector);
    assert(requested & 4u32 == 0 || requested & 4u32 == 4u32) by (bit_vector);
    assert(requested & 8u32 == 0 || requested & 8u32 == 8u32) by (bit_vector);
    labelled_bits_make_up_the_mask(requested, media_mappings(), "unknown_media_permission");
}

/// A permission request is never split into nothing.
pub proof fn a_request_always_has_a_label(requested: u32)
    ensures
        media_entries(requested).len() > 0,
        prompt_labels(requested).len() > 0,
{
}

/// A mask without any bit stands under the unknown label alone.
pub proof fn an_empty_mask_is_unknown(
    mappings: Seq<(u32, &'static str)>,
    unknown_label: &'static str,
)
    ensures
        labelled_bits(0, mappings, unknown_label) == seq![(0u32, unknown_label)],
    decreases mappings.len(),
{
    lemma_no_entry_in_empty_mask(mappings);
    let union = union_of_bits(mappings);
    assert(0u32 & !union == 0) by (bit_vector);
}

proof fn lemma_no_entry_in_empty_mask(mappings: Seq<(u32, &'static str)>)
    ensures
        entries_in_mask(0, mappings) == Seq::<(u32, &'static str)>::empty(),
    decreases mappings.len(),
{
    reveal_with_fuel(Seq::filter, 2);
    if mappings.len() > 0 {
        lemma_no_entry_in_empty_mask(mappings.drop_last());
        let bit = mappings.last().0;
        assert(0u32 & bit == 0) by (bit_vector);
    }
}

proof fn lemma_entries_from_mappings(requested: u32, mappings: Seq<(u32, &'static str)>, k: int)
    requires
        0 <= k < entries_in_mask(requested, mappings).len(),
    ensures
        mappings.contains(entries_in_mask(requested, mappings)[k]),
        requested & entries_in_mask(requested, mappings)[k].0 != 0,
{
    let pred = |mapping: (u32, &'static str)| requested & mapping.0 != 0;
    let known = entries_in_mask(requested, mappings);
    mappings.lemma_filter_pred(pred, k);
    assert(known.contains(known[k]));
    mappings.lemma_filter_contains_rev(pred, known[k]);
}

proof fn lemma_entry_kept(requested: u32, mappings: Seq<(u32, &'static str)>, i: int)
    requires
        0 <= i < mappings.len(),
        requested & mappings[i].0 != 0,
    ensures
        entries_in_mask(requested, mappings).contains(mappings[i]),
{
    let pred = |mapping: (u32, &'static str)| requested & mapping.0 != 0;
    mappings.lemma_filter_contains(pred, i);
}

/// The labels of some entries differ from each other and from a further label.
pub open spec fn labels_differ(
    mappings: Seq<(u32, &'static str)>,
    unknown_label: &'static str,
) -> bool {
    &&& forall|i: int, j: int|
        0 <= i < j < mappings.len() ==> (#[trigger] mappings[i]).1 != (#[trigger] mappings[j]).1
    &&& forall|i: int| 0 <= i < mappings.len() ==> (#[trigger] mappings[i]).1 != unknown_label
}

/// An entry is named exactly where the mask holds a bit of it.
pub proof fn a_known_label_stands_for_its_bit(
    requested: u32,
    mappings: Seq<(u32, &'static str)>,
    unknown_label: &'static str,
    i: int,
)
    requires
        labels_differ(mappings, unknown_label),
        0 <= i < mappings.len(),
    ensures
        labels_of(labelled_bits(requested, mappings, unknown_label)).contains(mappings[i].1)
            <==> requested & mappings[i].0 != 0,
{
    let known = entries_in_mask(requested, mappings);
    let entries = labelled_bits(requested, mappings, unknown_label);
    let labels = labels_of(entries);
    if requested & mappings[i].0 != 0 {
        lemma_entry_kept(requested, mappings, i);
        let k = choose|k: int| 0 <= k < known.len() && known[k] == mappings[i];
        assert(entries[k] == mappings[i]);
        assert(labels[k] == mappings[i].1);
    }
    if labels.contains(mappings[i].1) {
        let k = choose|k: int| 0 <= k < labels.len() && labels[k] == mappings[i].1;
        assert(entries[k].1 == mappings[i].1);
        assert(k < known.len());
        lemma_entries_from_mappings(requested, mappings, k);
        let j = choose|j: int| 0 <= j < mappings.len() && mappings[j] == known[k];
        assert(mappings[j].1 == mappings[i].1);
        assert(j == i);
    }
}

/// The unknown label is given exactly where the mask is empty or holds a bit
/// that no entry knows.
pub proof fn the_unknown_label_stands_for_unknown_bits(
    requested: u32,
    mappings: Seq<(u32, &'static str)>,
    unknown_label: &'static str,
)
    requires
        labels_differ(mappings, unknown_label),
    ensures
        labels_of(labelled_bits(requested, mappings, unknown_label)).contains(unknown_label)
            <==> (requested == 0 || requested & !union_of_bits(mappings) != 0),
{
    let union = union_of_bits(mappings);
    let known = entries_in_mask(requested, mappings);
    let entries = labelled_bits(requested, mappings, unknown_label);
    let labels = labels_of(entries);
    if requested == 0 || requested & !union != 0 {
        an_empty_mask_is_unknown(mappings, unknown_label);
        assert(labels[entries.len() - 1] == unknown_label);
    } else {
        if known.len() == 0 {
            assert forall|i: int| 0 <= i < mappings.len() implies requested & (
            #[trigger] mappings[i]).0 == 0 by {
                if requested & mappings[i].0 != 0 {
                    lemma_entry_kept(requested, mappings, i);
                }
            }
            lemma_disjoint_union(requested, mappings);
            assert(requested == 0) by (bit_vector)
                requires
                    requested & union == 0,
                    requested & !union == 0,
            ;
        }
        if labels.contains(unknown_label) {
            let k = choose|k: int| 0 <= k < labels.len() && labels[k] == unknown_label;
            assert(entries[k].1 == unknown_label);
            lemma_entries_from_mappings(requested, mappings, k);
            let j = choose|j: int| 0 <= j < mappings.len() && mappings[j] == known[k];
            assert(mappings[j].1 == unknown_label);
        }
    }
}

/// Every label of the two tables is used once, so that the laws on labels hold
/// of media access requests and of permission prompts.
pub proof fn permission_labels_differ()
    ensures
        labels_differ(media_mappings(), "unknown_media_permission"),
        labels_differ(prompt_mappings(), "unknown_permission"),
{
    reveal_strlit("camera");
    reveal_strlit("microphone");
    reveal_strlit("geolocation");
    reveal_strlit("clipboard");
    reveal_strlit("notifications");
    reveal_strlit("midi_sysex");
    reveal_strlit("pointer_lock");
    reveal_strlit("keyboard_lock");
    reveal_strlit("desktop_audio_capture");
    reveal_strlit("desktop_video_capture");
    reveal_strlit("unknown_permission");
    reveal_strlit("unknown_media_permission");
    assert("camera"@.len() == 6);
    assert("microphone"@.len() == 10);
    assert("geolocation"@.len() == 11);
    assert("clipboard"@.len() == 9);
    assert("notifications"@.len() == 13);
    assert("midi_sysex"@.len() == 10);
    assert("pointer_lock"@.len() == 12);
    assert("keyboard_lock"@.len() == 13);
    assert("desktop_audio_capture"@.len() == 21);
    assert("desktop_video_capture"@.len() == 21);
    assert("unknown_permission"@.len() == 18);
    assert("unknown_media_permission"@.len() == 24);
    assert("microphone"@[2] != "midi_sysex"@[2]);
    assert("notifications"@[0] != "keyboard_lock"@[0]);
    assert("desktop_audio_capture"@[8] != "desktop_video_capture"@[8]);
}

proof fn lemma_disjoint_union(requested: u32, mappings: Seq<(u32, &'static str)>)
    requires
        forall|i: int| 0 <= i < mappings.len() ==> requested & (#[trigger] mappings[i]).0 == 0,
    ensures
        requested & union_of_bits(mappings) == 0,
    decreases mappings.len(),
{
    if mappings.len() == 0 {
        assert(requested & 0u32 == 0) by (bit_vector);
    } else {
        let rest = mappings.drop_last();
        let union = union_of_bits(rest);
        let bit = mappings.last().0;
        assert forall|i: int| 0 <= i < rest.len() implies requested & (#[trigger] rest[i]).0
            == 0 by {
            assert(rest[i] == mappings[i]);
        }
        lemma_disjoint_union(requested, rest);
        assert(requested & mappings[mappings.len() - 1].0 == 0);
        assert(requested & (union | bit) == 0) by (bit_vector)
            requires
                requested & union == 0,
                requested & bit == 0,
        ;
    }
}

} // verus!

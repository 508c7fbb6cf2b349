//! Keyframes in Annex B video streams.
use vstd::prelude::*;
use vstd::string::*;

use crate::text;

verus! {

/// A NAL unit starts at `p`: the bytes before it are a start code.
pub open spec fn is_nal_start(data: Seq<u8>, p: int) -> bool {
    3 <= p < data.len() && data[p - 3] == 0 && data[p - 2] == 0 && data[p - 1] == 1
}

/// The NAL unit that a start code at `i` leads to: three bytes, or four where the first three are
/// zero.
pub open spec fn unit_after(data: Seq<u8>, i: int) -> Option<usize> {
    if i + 4 <= data.len() && data[i] == 0 && data[i + 1] == 0 && data[i + 2] == 1 {
        Some((i + 3) as usize)
    } else if i + 5 <= data.len() && data[i] == 0 && data[i + 1] == 0 && data[i + 2] == 0 && data[i
        + 3] == 1 {
        Some((i + 4) as usize)
    } else {
        None
    }
}

/// The NAL units that the start codes at the first `n` positions lead to, in order. A unit after
/// four bytes is met twice: from its first zero byte and from its second.
pub open spec fn units(data: Seq<u8>, n: int) -> Seq<usize>
    decreases n,
{
    if n <= 0 {
        seq![]
    } else {
        match unit_after(data, n - 1) {
            Some(p) => units(data, n - 1).push(p),
            None => units(data, n - 1),
        }
    }
}

/// The positions at which NAL units start.
pub fn find_annex_b_nal_units(data: &[u8]) -> (r: Vec<usize>)
    ensures
        r@ == units(data@, data@.len() as int),
{
    let mut out: Vec<usize> = Vec::new();
    let len: usize = data.len();
    let mut i: usize = 0;
    while i < len && len - i >= 4
        invariant
            i <= len,
            len == data@.len(),
            out@ == units(data@, i as int),
        decreases len - i,
    {
        if data[i] == 0x00 && data[i + 1] == 0x00 && data[i + 2] == 0x01 {
            out.push(i + 3);
        } else if len - i >= 5 && data[i] == 0x00 && data[i + 1] == 0x00 && data[i + 2] == 0x00
            && data[i + 3] == 0x01 {
            out.push(i + 4);
        }
        i = i + 1;
    }
    proof {
        lemma_units_tail(data@, i as int, len as int);
    }
    out
}

/// The last three positions have no room for a start code.
proof fn lemma_units_tail(data: Seq<u8>, from: int, to: int)
    requires
        0 <= from <= to <= data.len(),
        data.len() - from < 4,
    ensures
        units(data, to) == units(data, from),
    decreases to,
{
    if from < to {
        lemma_units_tail(data, from, to - 1);
    }
}

/// The units that are found are exactly the positions behind a start code.
pub proof fn law_units_are_the_nal_starts(data: Seq<u8>, p: usize)
    requires
        data.len() <= usize::MAX,
    ensures
        units(data, data.len() as int).contains(p) <==> is_nal_start(data, p as int),
{
    lemma_units_sound(data, data.len() as int);
    if is_nal_start(data, p as int) {
        lemma_units_complete(data, data.len() as int, p as int);
    }
}

proof fn lemma_units_sound(data: Seq<u8>, n: int)
    requires
        n <= data.len() <= usize::MAX,
    ensures
        forall|k: int|
            0 <= k < units(data, n).len() ==> is_nal_start(data, #[trigger] units(data, n)[k] as int),
    decreases n,
{
    if n > 0 {
        lemma_units_sound(data, n - 1);
        let before = units(data, n - 1);
        let after = units(data, n);
        assert forall|k: int| 0 <= k < after.len() implies is_nal_start(
            data,
            #[trigger] after[k] as int,
        ) by {
            if k < before.len() {
                assert(after[k] == before[k]);
            }
        }
    }
}

proof fn lemma_units_complete(data: Seq<u8>, n: int, p: int)
    requires
        n <= data.len() <= usize::MAX,
        is_nal_start(data, p),
        p - 3 < n,
    ensures
        units(data, n).contains(p as usize),
    decreases n,
{
    if n - 1 == p - 3 {
        assert(units(data, n).last() == p as usize);
    } else {
        lemma_units_complete(data, n - 1, p);
        let before = units(data, n - 1);
        let k = choose|k: int| 0 <= k < before.len() && before[k] == p as usize;
        assert(units(data, n)[k] == p as usize);
    }
}

/// The unit is an H.264 IDR slice.
pub open spec fn is_h264_idr(unit: u8) -> bool {
    unit & 0x1f == 5
}

/// The unit is an H.265 picture of the intra random access kind.
pub open spec fn is_hevc_irap(unit: u8) -> bool {
    16 <= (unit >> 1) & 0x3f <= 20
}

/// The payload holds a keyframe: a unit of the codec's keyframe kind. A codec other than `h264` and
/// `hevc` is not looked into, and every payload of it counts.
pub open spec fn keyframe(video_codec: Seq<char>, data: Seq<u8>) -> bool {
    if video_codec == "h264"@ {
        exists|p: int| #[trigger] is_nal_start(data, p) && is_h264_idr(data[p])
    } else if video_codec == "hevc"@ {
        exists|p: int| #[trigger] is_nal_start(data, p) && is_hevc_irap(data[p])
    } else {
        true
    }
}

/// Whether a payload holds a keyframe.
pub fn is_keyframe(video_codec: &str, data: &[u8]) -> (r: bool)
    ensures
        r == keyframe(video_codec@, data@),
{
    let h264 = text::same(video_codec, "h264");
    let hevc = text::same(video_codec, "hevc");
    if !h264 && !hevc {
        return true;
    }
    proof {
        reveal_strlit("h264");
        reveal_strlit("hevc");
        assert("h264"@[1] != "hevc"@[1]);
    }
    let starts = find_annex_b_nal_units(data);
    let len: usize = data.len();
    assert(len == data@.len());
    proof {
        lemma_units_sound(data@, data@.len() as int);
    }
    let mut k: usize = 0;
    while k < starts.len()
        invariant
            k <= starts@.len(),
            starts@ == units(data@, data@.len() as int),
            forall|j: int| 0 <= j < starts@.len() ==> is_nal_start(data@, #[trigger] starts@[j] as int),
            h264 == (video_codec@ == "h264"@),
            hevc == (video_codec@ == "hevc"@),
            h264 != hevc,
            len == data@.len(),
            forall|j: int|
                0 <= j < k ==> !(if h264 {
                    is_h264_idr(data@[#[trigger] starts@[j] as int])
                } else {
                    is_hevc_irap(data@[starts@[j] as int])
                }),
        decreases starts@.len() - k,
    {
        let p: usize = starts[k];
        assert(is_nal_start(data@, starts@[k as int] as int));
        let unit: u8 = data[p];
        let nal_unit_type: u8 = (unit >> 1) & 0x3f;
        if h264 {
            if (unit & 0x1f) == 5 {
                assert(is_nal_start(data@, p as int) && is_h264_idr(data@[p as int]));
                return true;
            }
        } else if 16 <= nal_unit_type && nal_unit_type <= 20 {
            assert(is_nal_start(data@, p as int) && is_hevc_irap(data@[p as int]));
            return true;
        }
        k = k + 1;
    }
    proof {
        assert forall|p: int| #[trigger] is_nal_start(data@, p) implies !(if h264 {
            is_h264_idr(data@[p])
        } else {
            is_hevc_irap(data@[p])
        }) by {
            lemma_units_complete(data@, data@.len() as int, p);
            let j = choose|j: int| 0 <= j < starts@.len() && starts@[j] == p as usize;
            assert(starts@[j] as int == p);
        }
    }
    false
}

/// Wherever the bytes 0, 0, 1 are followed by an IDR slice (the low five bits of the byte are five),
/// an H.264 payload is a keyframe; wherever they are followed by a unit of type 16 to 20 (the six
/// bits above the lowest), an H.265 payload is one. What else stands in the payload is no matter.
pub proof fn law_key_unit_anywhere_makes_a_keyframe(data: Seq<u8>, p: int)
    requires
        3 <= p < data.len(),
        data[p - 3] == 0 && data[p - 2] == 0 && data[p - 1] == 1,
    ensures
        data[p] % 32 == 5 ==> keyframe("h264"@, data),
        16 <= (data[p] / 2) % 64 <= 20 ==> keyframe("hevc"@, data),
{
    reveal_strlit("h264");
    reveal_strlit("hevc");
    assert("h264"@[1] != "hevc"@[1]);
    assert(is_nal_start(data, p));
    let unit = data[p];
    assert(unit & 0x1f == unit % 32) by (bit_vector);
    assert((unit >> 1) & 0x3f == (unit / 2) % 64) by (bit_vector);
}

/// A keyframe holds a unit of its codec's keyframe kind behind the bytes 0, 0, 1.
pub proof fn law_keyframe_holds_a_key_unit(data: Seq<u8>)
    ensures
        keyframe("h264"@, data) ==> exists|p: int|
            3 <= p < data.len() && data[p - 3] == 0 && data[p - 2] == 0 && data[p - 1] == 1
                && #[trigger] data[p] % 32 == 5,
        keyframe("hevc"@, data) ==> exists|p: int|
            3 <= p < data.len() && data[p - 3] == 0 && data[p - 2] == 0 && data[p - 1] == 1 && 16
                <= (#[trigger] data[p] / 2) % 64 <= 20,
{
    reveal_strlit("h264");
    reveal_strlit("hevc");
    assert("h264"@[1] != "hevc"@[1]);
    if keyframe("h264"@, data) {
        let p = choose|p: int| #[trigger] is_nal_start(data, p) && is_h264_idr(data[p]);
        let unit = data[p];
        assert(unit & 0x1f == unit % 32) by (bit_vector);
        assert(data[p] % 32 == 5);
    }
    if keyframe("hevc"@, data) {
        let p = choose|p: int| #[trigger] is_nal_start(data, p) && is_hevc_irap(data[p]);
        let unit = data[p];
        assert((unit >> 1) & 0x3f == (unit / 2) % 64) by (bit_vector);
        assert(16 <= (data[p] / 2) % 64 <= 20);
    }
}

/// Whatever is put before and behind a keyframe, it stays one.
pub proof fn law_surroundings_keep_a_keyframe(
    video_codec: Seq<char>,
    before: Seq<u8>,
    data: Seq<u8>,
    behind: Seq<u8>,
)
    requires
        keyframe(video_codec, data),
    ensures
        keyframe(video_codec, before + data + behind),
{
    let whole = before + data + behind;
    let n = before.len() as int;
    law_keyframe_holds_a_key_unit(data);
    if video_codec == "h264"@ {
        let p = choose|p: int|
            3 <= p < data.len() && data[p - 3] == 0 && data[p - 2] == 0 && data[p - 1] == 1
                && #[trigger] data[p] % 32 == 5;
        assert(whole[n + p] == data[p] && whole[n + p - 1] == data[p - 1]);
        assert(whole[n + p - 2] == data[p - 2] && whole[n + p - 3] == data[p - 3]);
        law_key_unit_anywhere_makes_a_keyframe(whole, n + p);
    } else if video_codec == "hevc"@ {
        let p = choose|p: int|
            3 <= p < data.len() && data[p - 3] == 0 && data[p - 2] == 0 && data[p - 1] == 1 && 16
                <= (#[trigger] data[p] / 2) % 64 <= 20;
        assert(whole[n + p] == data[p] && whole[n + p - 1] == data[p - 1]);
        assert(whole[n + p - 2] == data[p - 2] && whole[n + p - 3] == data[p - 3]);
        law_key_unit_anywhere_makes_a_keyframe(whole, n + p);
    } else {
        law_other_codecs_are_not_looked_into(video_codec, whole);
    }
}

/// A payload of any other codec counts as a keyframe.
pub proof fn law_other_codecs_are_not_looked_into(video_codec: Seq<char>, data: Seq<u8>)
    requires
        video_codec != "h264"@,
        video_codec != "hevc"@,
    ensures
        keyframe(video_codec, data),
{
}

/// The positions that are found are those behind the bytes 0, 0, 1, from the left to the right.
pub proof fn law_units_stand_behind_start_codes(data: Seq<u8>, p: usize)
    requires
        data.len() <= usize::MAX,
    ensures
        units(data, data.len() as int).contains(p) <==> 3 <= p < data.len() && data[p - 3] == 0
            && data[p - 2] == 0 && data[p - 1] == 1,
        forall|i: int, j: int|
            0 <= i <= j < units(data, data.len() as int).len() ==> units(
                data,
                data.len() as int,
            )[i] <= units(data, data.len() as int)[j],
{
    law_units_are_the_nal_starts(data, p);
    lemma_units_in_order(data, data.len() as int);
}

proof fn lemma_units_in_order(data: Seq<u8>, n: int)
    requires
        n <= data.len() <= usize::MAX,
    ensures
        forall|i: int, j: int|
            0 <= i <= j < units(data, n).len() ==> units(data, n)[i] <= units(data, n)[j],
        forall|i: int| 0 <= i < units(data, n).len() ==> #[trigger] units(data, n)[i] <= n + 3,
        forall|i: int|
            0 <= i < units(data, n).len() && #[trigger] units(data, n)[i] == n + 3 ==> n >= 1
                && data[n - 1] == 0 && n + 2 < data.len() && data[n] == 0 && data[n + 1] == 0
                && data[n + 2] == 1,
    decreases n,
{
    if n > 0 {
        lemma_units_in_order(data, n - 1);
        let before = units(data, n - 1);
        let after = units(data, n);
        assert forall|i: int| 0 <= i < after.len() implies #[trigger] after[i] <= n + 3 by {
            if i < before.len() {
                assert(after[i] == before[i]);
            }
        }
        assert forall|i: int, j: int| 0 <= i <= j < after.len() implies after[i] <= after[j] by {
            if j < before.len() {
                assert(after[i] == before[i] && after[j] == before[j]);
            } else if i < before.len() {
                assert(after[i] == before[i]);
                assert(before[i] <= n + 2);
            }
        }
    }
}

} // verus!

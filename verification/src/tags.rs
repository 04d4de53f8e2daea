//! Lookups in ffprobe key/value lists and stream selection by kind.
use vstd::prelude::*;

use crate::media_report::{MediaKeyValue, MediaStreamInfo, derefs};
use crate::text::{ascii_lower, str_eq};

verus! {

/// The result of `str::to_lowercase` on a text: its Unicode lower-case mapping.
pub uninterp spec fn unicode_lowercase(s: Seq<char>) -> Seq<char>;

/// `str::to_lowercase`. The contract names the result `unicode_lowercase` of the
/// argument, and states it on ASCII text, where Unicode lower-casing maps
/// `A`–`Z` to `a`–`z` and keeps every other character; std's Unicode case
/// tables for the rest are not restated here.
#[verifier::external_body]
pub(crate) fn to_lowercase(s: &str) -> (r: String)
    ensures
        r@ == unicode_lowercase(s@),
        (forall|i: int| 0 <= i < s@.len() ==> (#[trigger] s@[i] as u32) < 128) ==> r@
            == s@.map_values(|c: char| ascii_lower(c)),
{
    s.to_lowercase()
}

/// Index of the first element of `s` that satisfies `p`, or `s.len()`.
pub open spec fn first_where<A>(s: Seq<A>, p: spec_fn(A) -> bool) -> int
    decreases s.len(),
{
    if s.len() == 0 {
        0
    } else if p(s[0]) {
        0
    } else {
        1 + first_where(s.subrange(1, s.len() as int), p)
    }
}

/// Number of elements of `s` that satisfy `p`.
pub open spec fn count_where<A>(s: Seq<A>, p: spec_fn(A) -> bool) -> nat
    decreases s.len(),
{
    if s.len() == 0 {
        0
    } else {
        count_where(s.drop_last(), p) + if p(s.last()) {
            1nat
        } else {
            0nat
        }
    }
}

pub proof fn lemma_first_where<A>(s: Seq<A>, p: spec_fn(A) -> bool, k: int)
    requires
        0 <= k <= s.len(),
        forall|j: int| 0 <= j < k ==> !p(#[trigger] s[j]),
        k == s.len() || p(s[k]),
    ensures
        first_where(s, p) == k,
    decreases k,
{
    if k > 0 {
        let t = s.subrange(1, s.len() as int);
        assert forall|j: int| 0 <= j < k - 1 implies !p(#[trigger] t[j]) by {
            assert(t[j] == s[j + 1]);
        }
        if k < s.len() {
            assert(t[k - 1] == s[k]);
        }
        lemma_first_where(t, p, k - 1);
    }
}

pub proof fn lemma_first_where_bounds<A>(s: Seq<A>, p: spec_fn(A) -> bool)
    ensures
        0 <= first_where(s, p) <= s.len(),
        first_where(s, p) < s.len() ==> p(s[first_where(s, p)]),
        forall|j: int| 0 <= j < first_where(s, p) ==> !p(#[trigger] s[j]),
    decreases s.len(),
{
    if s.len() > 0 && !p(s[0]) {
        let t = s.subrange(1, s.len() as int);
        lemma_first_where_bounds(t, p);
        assert forall|j: int| 0 <= j < first_where(s, p) implies !p(#[trigger] s[j]) by {
            if j > 0 {
                assert(s[j] == t[j - 1]);
            }
        }
    }
}

pub proof fn lemma_count_where_step<A>(s: Seq<A>, p: spec_fn(A) -> bool, i: int)
    requires
        0 <= i < s.len(),
    ensures
        count_where(s.take(i + 1), p) == count_where(s.take(i), p) + if p(s[i]) {
            1nat
        } else {
            0nat
        },
{
    assert(s.take(i + 1).drop_last() =~= s.take(i));
}

pub proof fn lemma_count_where_bound<A>(s: Seq<A>, p: spec_fn(A) -> bool)
    ensures
        count_where(s, p) <= s.len(),
    decreases s.len(),
{
    if s.len() > 0 {
        lemma_count_where_bound(s.drop_last(), p);
    }
}

/// `kv` is the pair `key=1`.
pub open spec fn is_flag(kv: MediaKeyValue, key: Seq<char>) -> bool {
    kv.key@ == key && kv.value@ == "1"@
}

/// The stream's disposition sets `key` to `1`.
pub open spec fn has_disposition(s: MediaStreamInfo, key: Seq<char>) -> bool {
    exists|i: int| 0 <= i < s.disposition@.len() && is_flag(#[trigger] s.disposition@[i], key)
}

/// The key of `kv` equals `key` after lower-casing both.
pub open spec fn key_matches(kv: MediaKeyValue, key: Seq<char>) -> bool {
    unicode_lowercase(kv.key@) == unicode_lowercase(key)
}

/// The value of the first pair whose key matches `key` case-insensitively.
pub open spec fn tag_lookup(tags: Seq<MediaKeyValue>, key: Seq<char>) -> Option<Seq<char>> {
    let k = first_where(tags, |kv: MediaKeyValue| key_matches(kv, key));
    if k < tags.len() {
        Some(tags[k].value@)
    } else {
        None
    }
}

/// `tag_lookup` with a missing value read as the empty text.
pub open spec fn tag_or_empty(tags: Seq<MediaKeyValue>, key: Seq<char>) -> Seq<char> {
    match tag_lookup(tags, key) {
        Some(v) => v,
        None => Seq::empty(),
    }
}

/// Whether `s` is flagged `key=1` in its disposition.
pub fn stream_has_disposition(s: &MediaStreamInfo, key: &str) -> (b: bool)
    ensures
        b == has_disposition(*s, key@),
{
    let mut i: usize = 0;
    while i < s.disposition.len()
        invariant
            i <= s.disposition@.len(),
            forall|j: int| 0 <= j < i ==> !is_flag(#[trigger] s.disposition@[j], key@),
        decreases s.disposition@.len() - i,
    {
        let kv = &s.disposition[i];
        if str_eq(kv.key.as_str(), key) && str_eq(kv.value.as_str(), "1") {
            assert(is_flag(s.disposition@[i as int], key@));
            return true;
        }
        i = i + 1;
    }
    false
}

/// The value of the first tag whose key matches `key` ignoring case.
pub fn tag_value(tags: &Vec<MediaKeyValue>, key: &str) -> (r: Option<String>)
    ensures
        r.is_some() == tag_lookup(tags@, key@).is_some(),
        r matches Some(v) ==> tag_lookup(tags@, key@) == Some(v@),
{
    let ghost p = |kv: MediaKeyValue| key_matches(kv, key@);
    let wanted = to_lowercase(key);
    let mut i: usize = 0;
    while i < tags.len()
        invariant
            i <= tags@.len(),
            wanted@ == unicode_lowercase(key@),
            p == (|kv: MediaKeyValue| key_matches(kv, key@)),
            forall|j: int| 0 <= j < i ==> !p(#[trigger] tags@[j]),
        decreases tags@.len() - i,
    {
        let have = to_lowercase(tags[i].key.as_str());
        if str_eq(have.as_str(), wanted.as_str()) {
            proof {
                lemma_first_where(tags@, p, i as int);
            }
            return Some(tags[i].value.clone());
        }
        i = i + 1;
    }
    proof {
        lemma_first_where(tags@, p, tags@.len() as int);
    }
    None
}

/// `tag_value(..).unwrap_or_default()`.
pub fn tag_value_or_empty(tags: &Vec<MediaKeyValue>, key: &str) -> (r: String)
    ensures
        r@ == tag_or_empty(tags@, key@),
{
    match tag_value(tags, key) {
        Some(v) => v,
        None => String::new(),
    }
}

/// A video stream that is not a cover picture.
pub open spec fn is_video(s: MediaStreamInfo) -> bool {
    s.codec_type@ == "video"@ && !has_disposition(s, "attached_pic"@)
}

/// An audio stream.
pub open spec fn is_audio(s: MediaStreamInfo) -> bool {
    s.codec_type@ == "audio"@
}

/// A subtitle stream.
pub open spec fn is_subtitle(s: MediaStreamInfo) -> bool {
    s.codec_type@ == "subtitle"@
}

/// The kinds of stream the rules look at.
#[derive(Clone, Copy, Debug, PartialEq, Eq, Structural)]
pub enum StreamKind {
    Video,
    Audio,
    Subtitle,
}

/// Streams of kind `kind` (video keeps cover pictures out, see `is_video`).
pub open spec fn kind_pred(kind: StreamKind) -> spec_fn(MediaStreamInfo) -> bool {
    match kind {
        StreamKind::Video => |s: MediaStreamInfo| is_video(s),
        StreamKind::Audio => |s: MediaStreamInfo| is_audio(s),
        StreamKind::Subtitle => |s: MediaStreamInfo| is_subtitle(s),
    }
}

/// References to the streams of one kind, in order.
pub fn select_streams(streams: &Vec<MediaStreamInfo>, kind: StreamKind) -> (r: Vec<
    &MediaStreamInfo,
>)
    ensures
        derefs(r@) == streams@.filter(kind_pred(kind)),
{
    let ghost p = kind_pred(kind);
    let mut r: Vec<&MediaStreamInfo> = Vec::new();
    let mut i: usize = 0;
    while i < streams.len()
        invariant
            p == kind_pred(kind),
            i <= streams@.len(),
            derefs(r@) == streams@.take(i as int).filter(p),
        decreases streams@.len() - i,
    {
        proof {
            reveal_with_fuel(Seq::<MediaStreamInfo>::filter, 1);
            assert(streams@.take(i + 1).drop_last() =~= streams@.take(i as int));
        }
        let s = &streams[i];
        let keep = match kind {
            StreamKind::Video => str_eq(s.codec_type.as_str(), "video") && !stream_has_disposition(
                s,
                "attached_pic",
            ),
            StreamKind::Audio => str_eq(s.codec_type.as_str(), "audio"),
            StreamKind::Subtitle => str_eq(s.codec_type.as_str(), "subtitle"),
        };
        assert(keep == p(streams@[i as int]));
        if keep {
            r.push(s);
        }
        assert(derefs(r@) =~= streams@.take(i + 1).filter(p));
        i = i + 1;
    }
    assert(streams@.take(streams@.len() as int) =~= streams@);
    r
}

} // verus!

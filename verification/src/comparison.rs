//! Side-by-side comparison of two probe reports, field by field.
use vstd::prelude::*;

use crate::media_report::{MediaInfoReport, MediaKeyValue, MediaProbeReport, MediaStreamInfo};
use crate::tags::{first_where, lemma_first_where};
use crate::text::{
    decimal, decimal_string, eq_ignore_ascii_case, join, join_strings, str_eq,
    str_eq_ignore_ascii_case, trim, trim_str,
};

verus! {

/// One compared field: the display value on each side and whether they agree.
#[derive(Clone, Debug, PartialEq)]
pub struct CompareFieldRow {
    pub label: String,
    pub left_value: String,
    pub right_value: String,
    pub same: bool,
}

/// A compared field as plain text.
pub struct RowModel {
    pub label: Seq<char>,
    pub left: Seq<char>,
    pub right: Seq<char>,
    pub same: bool,
}

impl View for CompareFieldRow {
    type V = RowModel;

    open spec fn view(&self) -> RowModel {
        RowModel {
            label: self.label@,
            left: self.left_value@,
            right: self.right_value@,
            same: self.same,
        }
    }
}

/// How a value is shown: trimmed, or "missing" when blank.
pub open spec fn display_value(v: Seq<char>) -> Seq<char> {
    if trim(v).len() == 0 {
        "missing"@
    } else {
        trim(v)
    }
}

/// One row comparing `l` and `r` as displayed.
pub open spec fn row(label: Seq<char>, l: Seq<char>, r: Seq<char>) -> RowModel {
    RowModel {
        label,
        left: display_value(l),
        right: display_value(r),
        same: display_value(l) == display_value(r),
    }
}

fn display_compare_value(value: &str) -> (r: String)
    ensures
        r@ == display_value(value@),
{
    let trimmed = trim_str(value);
    if trimmed.as_str().is_empty() {
        String::from_str("missing")
    } else {
        trimmed
    }
}

fn compare_row(label: &str, left_value: &str, right_value: &str) -> (r: CompareFieldRow)
    ensures
        r@ == row(label@, left_value@, right_value@),
{
    let left_value = display_compare_value(left_value);
    let right_value = display_compare_value(right_value);
    let same = left_value == right_value;
    CompareFieldRow { label: String::from_str(label), left_value, right_value, same }
}

/// Index of the first stream of `codec_type`.
pub open spec fn first_of_type(streams: Seq<MediaStreamInfo>, codec_type: Seq<char>) -> int {
    first_where(streams, |s: MediaStreamInfo| s.codec_type@ == codec_type)
}

/// The first stream of `codec_type`, if any.
pub open spec fn stream_of_type(streams: Seq<MediaStreamInfo>, codec_type: Seq<char>) -> Option<
    MediaStreamInfo,
> {
    let k = first_of_type(streams, codec_type);
    if k < streams.len() {
        Some(streams[k])
    } else {
        None
    }
}

pub fn find_stream<'a>(streams: &'a Vec<MediaStreamInfo>, codec_type: &str) -> (r: Option<
    &'a MediaStreamInfo,
>)
    ensures
        r.is_some() == stream_of_type(streams@, codec_type@).is_some(),
        r matches Some(s) ==> stream_of_type(streams@, codec_type@) == Some(*s),
{
    let ghost p = |s: MediaStreamInfo| s.codec_type@ == codec_type@;
    let mut i: usize = 0;
    while i < streams.len()
        invariant
            p == (|s: MediaStreamInfo| s.codec_type@ == codec_type@),
            i <= streams@.len(),
            forall|j: int| 0 <= j < i ==> !p(#[trigger] streams@[j]),
        decreases streams@.len() - i,
    {
        if str_eq(streams[i].codec_type.as_str(), codec_type) {
            proof {
                lemma_first_where(streams@, p, i as int);
            }
            return Some(&streams[i]);
        }
        i = i + 1;
    }
    proof {
        lemma_first_where(streams@, p, streams@.len() as int);
    }
    None
}

/// A field of an optional stream, empty when there is no stream.
pub open spec fn field_of(s: Option<MediaStreamInfo>, f: spec_fn(MediaStreamInfo) -> Seq<char>) -> Seq<
    char,
> {
    match s {
        Some(x) => f(x),
        None => Seq::empty(),
    }
}

/// "WxH" when both sides are known, else empty.
pub open spec fn resolution_of(s: MediaStreamInfo) -> Seq<char> {
    if s.width@.len() > 0 && s.height@.len() > 0 {
        s.width@ + "x"@ + s.height@
    } else {
        Seq::empty()
    }
}

/// Bits per raw sample, "8" when blank.
pub open spec fn depth_of(s: MediaStreamInfo) -> Seq<char> {
    if trim(s.bits_per_raw_sample@).len() == 0 {
        "8"@
    } else {
        s.bits_per_raw_sample@
    }
}

/// The first tag matching `key` (ASCII case ignored) whose value is not blank.
pub open spec fn find_tag(tags: Seq<MediaKeyValue>, key: Seq<char>) -> Option<Seq<char>> {
    let k = first_where(
        tags,
        |kv: MediaKeyValue| eq_ignore_ascii_case(kv.key@, key) && trim(kv.value@).len() > 0,
    );
    if k < tags.len() {
        Some(tags[k].value@)
    } else {
        None
    }
}

fn find_tag_value(tags: &Vec<MediaKeyValue>, key: &str) -> (r: Option<String>)
    ensures
        r.is_some() == find_tag(tags@, key@).is_some(),
        r matches Some(v) ==> find_tag(tags@, key@) == Some(v@),
{
    let ghost p = |kv: MediaKeyValue| eq_ignore_ascii_case(kv.key@, key@) && trim(kv.value@).len()
        > 0;
    let mut i: usize = 0;
    while i < tags.len()
        invariant
            p == (|kv: MediaKeyValue| eq_ignore_ascii_case(kv.key@, key@) && trim(kv.value@).len()
                > 0),
            i <= tags@.len(),
            forall|j: int| 0 <= j < i ==> !p(#[trigger] tags@[j]),
        decreases tags@.len() - i,
    {
        let kv = &tags[i];
        if str_eq_ignore_ascii_case(kv.key.as_str(), key) && !trim_str(
            kv.value.as_str(),
        ).as_str().is_empty() {
            proof {
                lemma_first_where(tags@, p, i as int);
            }
            return Some(kv.value.clone());
        }
        i = i + 1;
    }
    proof {
        lemma_first_where(tags@, p, tags@.len() as int);
    }
    None
}

/// The first tag whose key is `timecode` (ASCII case ignored), blank or not.
pub open spec fn stream_timecode_tag(tags: Seq<MediaKeyValue>) -> Option<Seq<char>> {
    let k = first_where(tags, |kv: MediaKeyValue| eq_ignore_ascii_case(kv.key@, "timecode"@));
    if k < tags.len() {
        Some(tags[k].value@)
    } else {
        None
    }
}

/// Timecode: the format tag, else the first video stream's tag, else empty.
pub open spec fn timecode_of(report: MediaProbeReport, video: Option<MediaStreamInfo>) -> Seq<
    char,
> {
    match find_tag(report.format_tags@, "timecode"@) {
        Some(v) => v,
        None => match video {
            Some(s) => match stream_timecode_tag(s.tags@) {
                Some(v) => v,
                None => Seq::empty(),
            },
            None => Seq::empty(),
        },
    }
}

fn report_timecode(report: &MediaProbeReport, video: Option<&MediaStreamInfo>) -> (r: String)
    ensures
        r@ == timecode_of(
            *report,
            match video {
                Some(s) => Some(*s),
                None => None,
            },
        ),
{
    match find_tag_value(&report.format_tags, "timecode") {
        Some(v) => v,
        None => match video {
            Some(stream) => {
                let ghost p = |kv: MediaKeyValue| eq_ignore_ascii_case(kv.key@, "timecode"@);
                let tags = &stream.tags;
                let mut i: usize = 0;
                while i < tags.len()
                    invariant
                        p == (|kv: MediaKeyValue| eq_ignore_ascii_case(kv.key@, "timecode"@)),
                        find_tag(report.format_tags@, "timecode"@) is None,
                        video == Some(stream),
                        tags == &stream.tags,
                        i <= tags@.len(),
                        forall|j: int| 0 <= j < i ==> !p(#[trigger] tags@[j]),
                    decreases tags@.len() - i,
                {
                    if str_eq_ignore_ascii_case(tags[i].key.as_str(), "timecode") {
                        proof {
                            lemma_first_where(tags@, p, i as int);
                        }
                        return tags[i].value.clone();
                    }
                    i = i + 1;
                }
                proof {
                    lemma_first_where(tags@, p, tags@.len() as int);
                }
                String::new()
            },
            None => String::new(),
        },
    }
}

/// A format tag, with a fallback key, else empty.
pub open spec fn tag_with_fallback(
    report: MediaProbeReport,
    primary: Seq<char>,
    fallback: Seq<char>,
) -> Seq<char> {
    match find_tag(report.format_tags@, primary) {
        Some(v) => v,
        None => if fallback.len() == 0 {
            Seq::empty()
        } else {
            match find_tag(report.format_tags@, fallback) {
                Some(v) => v,
                None => Seq::empty(),
            }
        },
    }
}

fn report_tag(report: &MediaProbeReport, primary: &str, fallback: &str) -> (r: String)
    ensures
        r@ == tag_with_fallback(*report, primary@, fallback@),
{
    match find_tag_value(&report.format_tags, primary) {
        Some(v) => v,
        None => {
            if fallback.is_empty() {
                String::new()
            } else {
                match find_tag_value(&report.format_tags, fallback) {
                    Some(v) => v,
                    None => String::new(),
                }
            }
        },
    }
}

/// A mediainfo field, empty without mediainfo.
pub open spec fn mediainfo_field(
    report: MediaProbeReport,
    f: spec_fn(MediaInfoReport) -> Seq<char>,
) -> Seq<char> {
    match report.mediainfo {
        Some(mi) => f(mi),
        None => Seq::empty(),
    }
}

/// The language of one stream for the summary.
pub open spec fn language_or_missing(s: MediaStreamInfo) -> Seq<char> {
    match find_tag(s.tags@, "language"@) {
        Some(v) => v,
        None => "missing"@,
    }
}

/// Languages of the streams of `codec_type`, joined, or "none".
pub open spec fn language_summary(report: MediaProbeReport, codec_type: Seq<char>) -> Seq<char> {
    let values = report.streams@.filter(|s: MediaStreamInfo| s.codec_type@ == codec_type).map_values(
        |s: MediaStreamInfo| language_or_missing(s),
    );
    if values.len() == 0 {
        "none"@
    } else {
        join(values, ", "@)
    }
}

fn stream_language_summary(report: &MediaProbeReport, codec_type: &str) -> (r: String)
    ensures
        r@ == language_summary(*report, codec_type@),
{
    let ghost p = |s: MediaStreamInfo| s.codec_type@ == codec_type@;
    let ghost f = |s: MediaStreamInfo| language_or_missing(s);
    let mut values: Vec<String> = Vec::new();
    let mut i: usize = 0;
    while i < report.streams.len()
        invariant
            p == (|s: MediaStreamInfo| s.codec_type@ == codec_type@),
            f == (|s: MediaStreamInfo| language_or_missing(s)),
            i <= report.streams@.len(),
            values@.map_values(|x: String| x@) == report.streams@.take(i as int).filter(
                p,
            ).map_values(f),
        decreases report.streams@.len() - i,
    {
        proof {
            reveal_with_fuel(Seq::<MediaStreamInfo>::filter, 1);
            assert(report.streams@.take(i + 1).drop_last() =~= report.streams@.take(i as int));
        }
        let s = &report.streams[i];
        let ghost prev = values@.map_values(|x: String| x@);
        let ghost pre = report.streams@.take(i as int);
        let ghost cur = report.streams@.take(i + 1);
        assert(cur.last() == *s);
        if str_eq(s.codec_type.as_str(), codec_type) {
            let v = match find_tag_value(&s.tags, "language") {
                Some(v) => v,
                None => String::from_str("missing"),
            };
            assert(v@ == f(*s));
            values.push(v);
            assert(cur.filter(p) == pre.filter(p).push(*s));
            assert(values@.map_values(|x: String| x@) =~= prev.push(v@));
            assert(cur.filter(p).map_values(f) =~= pre.filter(p).map_values(f).push(f(*s)));
        } else {
            assert(cur.filter(p) == pre.filter(p));
        }
        i = i + 1;
    }
    assert(report.streams@.take(report.streams@.len() as int) =~= report.streams@);
    if values.len() == 0 {
        String::from_str("none")
    } else {
        join_strings(&values, ", ")
    }
}

/// The rows of the comparison of `left` with `right`, in display order.
pub open spec fn compare_rows(left: MediaProbeReport, right: MediaProbeReport) -> Seq<RowModel> {
    let lv = stream_of_type(left.streams@, "video"@);
    let rv = stream_of_type(right.streams@, "video"@);
    let la = stream_of_type(left.streams@, "audio"@);
    let ra = stream_of_type(right.streams@, "audio"@);
    seq![
        row("Container"@, left.format_name@, right.format_name@),
        row(
            "Video codec"@,
            field_of(lv, |s: MediaStreamInfo| s.codec_name@),
            field_of(rv, |s: MediaStreamInfo| s.codec_name@),
        ),
        row(
            "Audio codec"@,
            field_of(la, |s: MediaStreamInfo| s.codec_name@),
            field_of(ra, |s: MediaStreamInfo| s.codec_name@),
        ),
        row(
            "Resolution"@,
            field_of(lv, |s: MediaStreamInfo| resolution_of(s)),
            field_of(rv, |s: MediaStreamInfo| resolution_of(s)),
        ),
        row(
            "Frame rate"@,
            field_of(lv, |s: MediaStreamInfo| s.frame_rate@),
            field_of(rv, |s: MediaStreamInfo| s.frame_rate@),
        ),
        row(
            "Pixel format"@,
            field_of(lv, |s: MediaStreamInfo| s.pixel_format@),
            field_of(rv, |s: MediaStreamInfo| s.pixel_format@),
        ),
        row(
            "Color depth"@,
            field_of(lv, |s: MediaStreamInfo| depth_of(s)),
            field_of(rv, |s: MediaStreamInfo| depth_of(s)),
        ),
        row(
            "Audio channels"@,
            field_of(la, |s: MediaStreamInfo| s.channel_layout@),
            field_of(ra, |s: MediaStreamInfo| s.channel_layout@),
        ),
        row(
            "Sample rate"@,
            field_of(la, |s: MediaStreamInfo| s.sample_rate@),
            field_of(ra, |s: MediaStreamInfo| s.sample_rate@),
        ),
        row(
            "Subtitles"@,
            decimal(left.subtitle_count as nat),
            decimal(right.subtitle_count as nat),
        ),
        row("Timecode"@, timecode_of(left, lv), timecode_of(right, rv)),
        row(
            "Encoder"@,
            tag_with_fallback(left, "encoder"@, "encoding_tool"@),
            tag_with_fallback(right, "encoder"@, "encoding_tool"@),
        ),
        row(
            "Creation time"@,
            tag_with_fallback(left, "creation_time"@, ""@),
            tag_with_fallback(right, "creation_time"@, ""@),
        ),
        row(
            "Writing library"@,
            mediainfo_field(left, |mi: MediaInfoReport| mi.writing_library@),
            mediainfo_field(right, |mi: MediaInfoReport| mi.writing_library@),
        ),
        row(
            "Encoded application"@,
            mediainfo_field(left, |mi: MediaInfoReport| mi.encoded_application@),
            mediainfo_field(right, |mi: MediaInfoReport| mi.encoded_application@),
        ),
        row(
            "HDR format"@,
            mediainfo_field(left, |mi: MediaInfoReport| mi.hdr_format@),
            mediainfo_field(right, |mi: MediaInfoReport| mi.hdr_format@),
        ),
        row(
            "Audio language tags"@,
            language_summary(left, "audio"@),
            language_summary(right, "audio"@),
        ),
        row(
            "Subtitle language tags"@,
            language_summary(left, "subtitle"@),
            language_summary(right, "subtitle"@),
        ),
    ]
}

/// The views of a list of rows.
pub open spec fn row_views(v: Seq<CompareFieldRow>) -> Seq<RowModel> {
    v.map_values(|r: CompareFieldRow| r@)
}

/// Fields of the primary video and audio stream of one side.
struct Side {
    video_codec: String,
    audio_codec: String,
    resolution: String,
    frame_rate: String,
    pixel_format: String,
    color_depth: String,
    channels: String,
    sample_rate: String,
}

fn side_fields(report: &MediaProbeReport) -> (r: Side)
    ensures
        ({
            let v = stream_of_type(report.streams@, "video"@);
            let a = stream_of_type(report.streams@, "audio"@);
            &&& r.video_codec@ == field_of(v, |s: MediaStreamInfo| s.codec_name@)
            &&& r.audio_codec@ == field_of(a, |s: MediaStreamInfo| s.codec_name@)
            &&& r.resolution@ == field_of(v, |s: MediaStreamInfo| resolution_of(s))
            &&& r.frame_rate@ == field_of(v, |s: MediaStreamInfo| s.frame_rate@)
            &&& r.pixel_format@ == field_of(v, |s: MediaStreamInfo| s.pixel_format@)
            &&& r.color_depth@ == field_of(v, |s: MediaStreamInfo| depth_of(s))
            &&& r.channels@ == field_of(a, |s: MediaStreamInfo| s.channel_layout@)
            &&& r.sample_rate@ == field_of(a, |s: MediaStreamInfo| s.sample_rate@)
        }),
{
    let video = find_stream(&report.streams, "video");
    let audio = find_stream(&report.streams, "audio");
    let mut side = Side {
        video_codec: String::new(),
        audio_codec: String::new(),
        resolution: String::new(),
        frame_rate: String::new(),
        pixel_format: String::new(),
        color_depth: String::new(),
        channels: String::new(),
        sample_rate: String::new(),
    };
    match video {
        Some(v) => {
            side.video_codec = v.codec_name.clone();
            if !v.width.as_str().is_empty() && !v.height.as_str().is_empty() {
                let mut res = v.width.clone();
                res.append("x");
                res.append(v.height.as_str());
                side.resolution = res;
            }
            side.frame_rate = v.frame_rate.clone();
            side.pixel_format = v.pixel_format.clone();
            side.color_depth = if trim_str(v.bits_per_raw_sample.as_str()).as_str().is_empty() {
                String::from_str("8")
            } else {
                v.bits_per_raw_sample.clone()
            };
        },
        None => {},
    }
    match audio {
        Some(a) => {
            side.audio_codec = a.codec_name.clone();
            side.channels = a.channel_layout.clone();
            side.sample_rate = a.sample_rate.clone();
        },
        None => {},
    }
    side
}

fn mediainfo_fields(report: &MediaProbeReport) -> (r: (String, String, String))
    ensures
        r.0@ == mediainfo_field(*report, |mi: MediaInfoReport| mi.writing_library@),
        r.1@ == mediainfo_field(*report, |mi: MediaInfoReport| mi.encoded_application@),
        r.2@ == mediainfo_field(*report, |mi: MediaInfoReport| mi.hdr_format@),
{
    match &report.mediainfo {
        Some(mi) => (
            mi.writing_library.clone(),
            mi.encoded_application.clone(),
            mi.hdr_format.clone(),
        ),
        None => (String::new(), String::new(), String::new()),
    }
}

/// Compares two reports field by field.
pub fn build_compare_rows(left: &MediaProbeReport, right: &MediaProbeReport) -> (r: Vec<
    CompareFieldRow,
>)
    ensures
        row_views(r@) == compare_rows(*left, *right),
{
    let l = side_fields(left);
    let r = side_fields(right);
    let left_video = find_stream(&left.streams, "video");
    let right_video = find_stream(&right.streams, "video");
    let (lw, le, lh) = mediainfo_fields(left);
    let (rw, re, rh) = mediainfo_fields(right);
    let ls = decimal_string(left.subtitle_count as u64);
    let rs = decimal_string(right.subtitle_count as u64);
    let lt = report_timecode(left, left_video);
    let rt = report_timecode(right, right_video);
    let lenc = report_tag(left, "encoder", "encoding_tool");
    let renc = report_tag(right, "encoder", "encoding_tool");
    let lct = report_tag(left, "creation_time", "");
    let rct = report_tag(right, "creation_time", "");
    let lal = stream_language_summary(left, "audio");
    let ral = stream_language_summary(right, "audio");
    let lsl = stream_language_summary(left, "subtitle");
    let rsl = stream_language_summary(right, "subtitle");
    let mut rows: Vec<CompareFieldRow> = Vec::new();
    rows.push(compare_row("Container", left.format_name.as_str(), right.format_name.as_str()));
    rows.push(compare_row("Video codec", l.video_codec.as_str(), r.video_codec.as_str()));
    rows.push(compare_row("Audio codec", l.audio_codec.as_str(), r.audio_codec.as_str()));
    rows.push(compare_row("Resolution", l.resolution.as_str(), r.resolution.as_str()));
    rows.push(compare_row("Frame rate", l.frame_rate.as_str(), r.frame_rate.as_str()));
    rows.push(compare_row("Pixel format", l.pixel_format.as_str(), r.pixel_format.as_str()));
    rows.push(compare_row("Color depth", l.color_depth.as_str(), r.color_depth.as_str()));
    rows.push(compare_row("Audio channels", l.channels.as_str(), r.channels.as_str()));
    rows.push(compare_row("Sample rate", l.sample_rate.as_str(), r.sample_rate.as_str()));
    rows.push(compare_row("Subtitles", ls.as_str(), rs.as_str()));
    rows.push(compare_row("Timecode", lt.as_str(), rt.as_str()));
    rows.push(compare_row("Encoder", lenc.as_str(), renc.as_str()));
    rows.push(compare_row("Creation time", lct.as_str(), rct.as_str()));
    rows.push(compare_row("Writing library", lw.as_str(), rw.as_str()));
    rows.push(compare_row("Encoded application", le.as_str(), re.as_str()));
    rows.push(compare_row("HDR format", lh.as_str(), rh.as_str()));
    rows.push(compare_row("Audio language tags", lal.as_str(), ral.as_str()));
    rows.push(compare_row("Subtitle language tags", lsl.as_str(), rsl.as_str()));
    assert(row_views(rows@) =~= compare_rows(*left, *right));
    rows
}

/// A report compared with itself agrees on every row.
pub proof fn lemma_compare_self_same(report: MediaProbeReport)
    ensures
        forall|i: int|
            0 <= i < compare_rows(report, report).len() ==> #[trigger] compare_rows(
                report,
                report,
            )[i].same,
{
}

/// Swapping the sides swaps the values of every row and keeps its label and
/// whether it agrees.
pub proof fn lemma_compare_swap(left: MediaProbeReport, right: MediaProbeReport)
    ensures
        compare_rows(left, right).len() == compare_rows(right, left).len(),
        forall|i: int|
            0 <= i < compare_rows(left, right).len() ==> {
                &&& #[trigger] compare_rows(left, right)[i].label == compare_rows(right, left)[i].label
                &&& compare_rows(left, right)[i].left == compare_rows(right, left)[i].right
                &&& compare_rows(left, right)[i].right == compare_rows(right, left)[i].left
                &&& compare_rows(left, right)[i].same == compare_rows(right, left)[i].same
            },
{
}


/// The resolution row shows a side's first video stream width first: when
/// that stream has a width `W` and a height `H`, the fourth row is labelled
/// `Resolution` and shows `WxH` on that side. The rows around it show that
/// stream's codec, frame rate and pixel format under their own labels.
pub proof fn lemma_resolution_is_width_by_height(
    left: MediaProbeReport,
    right: MediaProbeReport,
    v: MediaStreamInfo,
)
    requires
        stream_of_type(left.streams@, "video"@) == Some(v),
        v.width@.len() > 0,
        v.height@.len() > 0,
    ensures
        compare_rows(left, right)[3].label == "Resolution"@,
        compare_rows(left, right)[3].left == display_value(v.width@ + "x"@ + v.height@),
        compare_rows(right, left)[3].right == display_value(v.width@ + "x"@ + v.height@),
        compare_rows(left, right)[1].label == "Video codec"@,
        compare_rows(left, right)[1].left == display_value(v.codec_name@),
        compare_rows(left, right)[4].label == "Frame rate"@,
        compare_rows(left, right)[4].left == display_value(v.frame_rate@),
        compare_rows(left, right)[5].label == "Pixel format"@,
        compare_rows(left, right)[5].left == display_value(v.pixel_format@),
{
}

/// The audio rows show a side's first audio stream: its codec under `Audio
/// codec`, its channel layout under `Audio channels` and its sample rate
/// under `Sample rate`.
pub proof fn lemma_audio_rows_show_the_first_audio_stream(
    left: MediaProbeReport,
    right: MediaProbeReport,
    a: MediaStreamInfo,
)
    requires
        stream_of_type(left.streams@, "audio"@) == Some(a),
    ensures
        compare_rows(left, right)[2].label == "Audio codec"@,
        compare_rows(left, right)[2].left == display_value(a.codec_name@),
        compare_rows(left, right)[7].label == "Audio channels"@,
        compare_rows(left, right)[7].left == display_value(a.channel_layout@),
        compare_rows(left, right)[8].label == "Sample rate"@,
        compare_rows(left, right)[8].left == display_value(a.sample_rate@),
{
}


/// Comparing the other way round swaps the sides of every row and keeps its
/// label and verdict; every row is marked the same exactly when both sides
/// show the same text; and a report compared with itself agrees on every row.
pub proof fn lemma_compare_sides(a: MediaProbeReport, b: MediaProbeReport)
    ensures
        compare_rows(a, b).len() == compare_rows(b, a).len(),
        forall|i: int|
            0 <= i < compare_rows(a, b).len() ==> {
                let x = #[trigger] compare_rows(a, b)[i];
                let y = compare_rows(b, a)[i];
                &&& x.label == y.label
                &&& x.left == y.right
                &&& x.right == y.left
                &&& x.same == y.same
                &&& x.same == (x.left == x.right)
            },
        forall|i: int| 0 <= i < compare_rows(a, a).len() ==> #[trigger] compare_rows(a, a)[i].same,
{
}

} // verus!

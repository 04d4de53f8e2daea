//! From what ffprobe prints as JSON to a probe report: defaults for absent
//! values, integers and numbers as text, and the counts by stream kind.
use vstd::prelude::*;

use crate::json_text::{
    JsonValue, flatten_tags, json_string_or_default, optional_pairs, optional_text, pair_views,
};
use crate::media_report::{MediaChapterInfo, MediaProbeReport, MediaStreamInfo};
use crate::text::{decimal, decimal_string, is_blank, trim};

verus! {

/// The `format` section of ffprobe's output. A `*_number` field holds how the
/// matching text field is shown when it parses as a number (`{:.3} s`,
/// `{:.0} bytes`, `{:.0} bps`), and is absent when it does not.
pub struct FfprobeFormat {
    pub nb_programs: Option<i64>,
    pub nb_stream_groups: Option<i64>,
    pub format_name: Option<String>,
    pub format_long_name: Option<String>,
    pub duration: Option<String>,
    pub duration_number: Option<String>,
    pub size: Option<String>,
    pub size_number: Option<String>,
    pub bit_rate: Option<String>,
    pub bit_rate_number: Option<String>,
    pub probe_score: Option<JsonValue>,
    pub start_time: Option<String>,
    pub tags: Option<JsonValue>,
}

/// One entry of ffprobe's `streams`. `frame_rate_number` holds how the frame
/// rate (`avg_frame_rate`, else `r_frame_rate`) is shown (`{:.3} fps`) when it
/// is a ratio of two numbers with a non-zero denominator.
pub struct FfprobeStream {
    pub index: Option<i64>,
    pub codec_name: Option<String>,
    pub codec_long_name: Option<String>,
    pub profile: Option<String>,
    pub codec_type: Option<String>,
    pub codec_tag_string: Option<String>,
    pub codec_tag: Option<String>,
    pub id: Option<String>,
    pub width: Option<i64>,
    pub height: Option<i64>,
    pub coded_width: Option<i64>,
    pub coded_height: Option<i64>,
    pub pix_fmt: Option<String>,
    pub sample_fmt: Option<String>,
    pub level: Option<i64>,
    pub field_order: Option<String>,
    pub chroma_location: Option<String>,
    pub sample_aspect_ratio: Option<String>,
    pub display_aspect_ratio: Option<String>,
    pub color_range: Option<String>,
    pub color_space: Option<String>,
    pub color_transfer: Option<String>,
    pub color_primaries: Option<String>,
    pub avg_frame_rate: Option<String>,
    pub r_frame_rate: Option<String>,
    pub frame_rate_number: Option<String>,
    pub sample_rate: Option<String>,
    pub channels: Option<i64>,
    pub channel_layout: Option<String>,
    pub bits_per_raw_sample: Option<String>,
    pub bits_per_sample: Option<i64>,
    pub time_base: Option<String>,
    pub start_time: Option<String>,
    pub duration: Option<String>,
    pub duration_number: Option<String>,
    pub bit_rate: Option<String>,
    pub bit_rate_number: Option<String>,
    pub nb_frames: Option<String>,
    pub refs: Option<i64>,
    pub has_b_frames: Option<i64>,
    pub is_avc: Option<String>,
    pub nal_length_size: Option<String>,
    pub disposition: Option<JsonValue>,
    pub tags: Option<JsonValue>,
}

/// One entry of ffprobe's `chapters`.
pub struct FfprobeChapter {
    pub id: Option<i64>,
    pub time_base: Option<String>,
    pub start_time: Option<String>,
    pub start_number: Option<String>,
    pub end_time: Option<String>,
    pub end_number: Option<String>,
    pub tags: Option<JsonValue>,
}

/// ffprobe's whole output; `programs` and `stream_groups` are counted only.
pub struct FfprobeOutput {
    pub streams: Vec<FfprobeStream>,
    pub chapters: Vec<FfprobeChapter>,
    pub program_entries: usize,
    pub stream_group_entries: usize,
    pub format: Option<FfprobeFormat>,
}

// ── Field rules ──────────────────────────────────────────────────────────────

/// An optional text, empty when absent.
pub open spec fn opt_text(o: Option<String>) -> Seq<char> {
    match o {
        Some(s) => s@,
        None => Seq::empty(),
    }
}

/// An optional text, `unknown` when absent.
pub open spec fn opt_text_or_unknown(o: Option<String>) -> Seq<char> {
    match o {
        Some(s) => s@,
        None => "unknown"@,
    }
}

/// An integer in decimal, with `-` before a negative one.
pub open spec fn signed_decimal(n: int) -> Seq<char> {
    if n < 0 {
        seq!['-'] + decimal((-n) as nat)
    } else {
        decimal(n as nat)
    }
}

/// An optional integer in decimal, empty when absent.
pub open spec fn opt_int_text(o: Option<i64>) -> Seq<char> {
    match o {
        Some(n) => signed_decimal(n as int),
        None => Seq::empty(),
    }
}

/// An optional integer, zero when absent.
pub open spec fn opt_int(o: Option<i64>) -> int {
    match o {
        Some(n) => n as int,
        None => 0,
    }
}

/// `display_numeric_option`: the number as shown when the text parses as
/// one, else the text itself, else empty.
pub open spec fn number_text(raw: Option<String>, shown: Option<String>) -> Seq<char> {
    match shown {
        Some(s) => s@,
        None => opt_text(raw),
    }
}

/// `display_frame_rate`: the rate as shown when it parses, else the text of
/// `avg_frame_rate`, else of `r_frame_rate`, else empty.
pub open spec fn frame_rate_text(
    avg: Option<String>,
    raw: Option<String>,
    shown: Option<String>,
) -> Seq<char> {
    match shown {
        Some(s) => s@,
        None => match avg {
            Some(a) => a@,
            None => opt_text(raw),
        },
    }
}

/// A text that has something besides whitespace.
pub open spec fn present(s: Seq<char>) -> bool {
    trim(s).len() > 0
}

/// `join_non_empty`: the texts that have something besides whitespace,
/// joined by `" | "`.
pub open spec fn join_present(a: Seq<char>, b: Seq<char>) -> Seq<char> {
    if present(a) && present(b) {
        a + " | "@ + b
    } else if present(a) {
        a
    } else if present(b) {
        b
    } else {
        Seq::empty()
    }
}

/// The report stream made of an ffprobe stream: each field
/// from its source, the rest empty.
pub open spec fn stream_mapped(r: MediaStreamInfo, s: FfprobeStream) -> bool {
    &&& r.index == opt_int(s.index)
    &&& r.stream_id@ == opt_text(s.id)
    &&& r.codec_type@ == opt_text_or_unknown(s.codec_type)
    &&& r.codec_name@ == opt_text(s.codec_name)
    &&& r.codec_long_name@ == opt_text(s.codec_long_name)
    &&& r.profile@ == opt_text(s.profile)
    &&& r.codec_tag@ == join_present(opt_text(s.codec_tag_string), opt_text(s.codec_tag))
    &&& r.duration@ == number_text(s.duration, s.duration_number)
    &&& r.bit_rate@ == number_text(s.bit_rate, s.bit_rate_number)
    &&& r.width@ == opt_int_text(s.width)
    &&& r.height@ == opt_int_text(s.height)
    &&& r.coded_width@ == opt_int_text(s.coded_width)
    &&& r.coded_height@ == opt_int_text(s.coded_height)
    &&& r.display_aspect_ratio@ == opt_text(s.display_aspect_ratio)
    &&& r.sample_aspect_ratio@ == opt_text(s.sample_aspect_ratio)
    &&& r.frame_rate@ == frame_rate_text(s.avg_frame_rate, s.r_frame_rate, s.frame_rate_number)
    &&& r.avg_frame_rate@.len() == 0
    &&& r.r_frame_rate@.len() == 0
    &&& r.pixel_format@ == opt_text(s.pix_fmt)
    &&& r.sample_format@ == opt_text(s.sample_fmt)
    &&& r.level@ == opt_int_text(s.level)
    &&& r.field_order@ == opt_text(s.field_order)
    &&& r.chroma_location@ == opt_text(s.chroma_location)
    &&& r.color_range@ == opt_text(s.color_range)
    &&& r.color_space@ == opt_text(s.color_space)
    &&& r.color_transfer@ == opt_text(s.color_transfer)
    &&& r.color_primaries@ == opt_text(s.color_primaries)
    &&& r.sample_rate@ == opt_text(s.sample_rate)
    &&& r.channels@ == opt_int_text(s.channels)
    &&& r.channel_layout@ == opt_text(s.channel_layout)
    &&& r.bits_per_sample@ == opt_int_text(s.bits_per_sample)
    &&& r.bits_per_raw_sample@ == opt_text(s.bits_per_raw_sample)
    &&& r.time_base@ == opt_text(s.time_base)
    &&& r.start_time@ == opt_text(s.start_time)
    &&& r.frame_count@ == opt_text(s.nb_frames)
    &&& r.refs@ == opt_int_text(s.refs)
    &&& r.has_b_frames@ == opt_int_text(s.has_b_frames)
    &&& r.nal_length_size@ == opt_text(s.nal_length_size)
    &&& r.is_avc@ == opt_text(s.is_avc)
    &&& r.codec_time_base@.len() == 0
    &&& r.max_bit_rate@.len() == 0
    &&& r.nb_read_frames@.len() == 0
    &&& r.extradata_size@.len() == 0
    &&& r.initial_padding@.len() == 0
    &&& r.closed_captions@.len() == 0
    &&& pair_views(r.disposition@) == optional_pairs(s.disposition)
    &&& pair_views(r.tags@) == optional_pairs(s.tags)
    &&& r.side_data@.len() == 0
}

/// The chapter that `map_chapter_info` makes of an ffprobe chapter.
pub open spec fn chapter_mapped(r: MediaChapterInfo, c: FfprobeChapter) -> bool {
    &&& r.id == opt_int(c.id)
    &&& r.start@ == number_text(c.start_time, c.start_number)
    &&& r.end@ == number_text(c.end_time, c.end_number)
    &&& r.time_base@ == opt_text(c.time_base)
    &&& pair_views(r.tags@) == optional_pairs(c.tags)
}

// ── Field conversions ────────────────────────────────────────────────────────

/// `unwrap_or_default` on an optional text.
pub fn text_or_empty(o: &Option<String>) -> (r: String)
    ensures
        r@ == opt_text(*o),
{
    match o {
        Some(s) => s.clone(),
        None => String::new(),
    }
}

/// An optional text, `unknown` when absent.
pub fn text_or_unknown(o: &Option<String>) -> (r: String)
    ensures
        r@ == opt_text_or_unknown(*o),
{
    match o {
        Some(s) => s.clone(),
        None => {
            let mut r = String::new();
            r.append("unknown");
            r
        },
    }
}

/// `n.to_string()` for a signed integer.
pub fn signed_decimal_string(n: i64) -> (r: String)
    ensures
        r@ == signed_decimal(n as int),
{
    if n < 0 {
        let magnitude: u64 = ((-(n + 1)) as u64) + 1;
        assert(magnitude == -n);
        let digits = decimal_string(magnitude);
        let mut r = String::new();
        r.append("-");
        r.append(digits.as_str());
        proof {
            reveal_strlit("-");
        }
        assert(r@ =~= seq!['-'] + decimal((-n) as nat));
        r
    } else {
        decimal_string(n as u64)
    }
}

/// An optional integer in decimal, empty when absent.
pub fn int_text(o: Option<i64>) -> (r: String)
    ensures
        r@ == opt_int_text(o),
{
    match o {
        Some(n) => signed_decimal_string(n),
        None => String::new(),
    }
}

/// `display_numeric_option`, given how the number shows when it parses.
pub fn display_numeric_option(raw: &Option<String>, shown: &Option<String>) -> (r: String)
    ensures
        r@ == number_text(*raw, *shown),
{
    match shown {
        Some(s) => s.clone(),
        None => text_or_empty(raw),
    }
}

/// `display_frame_rate`, given how the rate shows when it parses.
pub fn display_frame_rate(
    avg: &Option<String>,
    raw: &Option<String>,
    shown: &Option<String>,
) -> (r: String)
    ensures
        r@ == frame_rate_text(*avg, *raw, *shown),
{
    match shown {
        Some(s) => s.clone(),
        None => match avg {
            Some(a) => a.clone(),
            None => text_or_empty(raw),
        },
    }
}

/// `join_non_empty`: the two texts that have something besides whitespace,
/// joined by `" | "`.
pub fn join_non_empty(a: String, b: String) -> (r: String)
    ensures
        r@ == join_present(a@, b@),
{
    let a_present = !is_blank(a.as_str());
    let b_present = !is_blank(b.as_str());
    if a_present && b_present {
        let mut r = a;
        r.append(" | ");
        r.append(b.as_str());
        r
    } else if a_present {
        a
    } else if b_present {
        b
    } else {
        String::new()
    }
}

// ── Mapping ──────────────────────────────────────────────────────────────────

/// One ffprobe stream as a report stream.
pub fn map_stream_info(s: &FfprobeStream) -> (r: MediaStreamInfo)
    ensures
        stream_mapped(r, *s),
{
    let index: i64 = match s.index {
        Some(n) => n,
        None => 0,
    };
    let codec_tag = join_non_empty(text_or_empty(&s.codec_tag_string), text_or_empty(&s.codec_tag));
    let disposition = flatten_tags(&s.disposition);
    let tags = flatten_tags(&s.tags);
    let r = MediaStreamInfo {
        index,
        stream_id: text_or_empty(&s.id),
        codec_type: text_or_unknown(&s.codec_type),
        codec_name: text_or_empty(&s.codec_name),
        codec_long_name: text_or_empty(&s.codec_long_name),
        profile: text_or_empty(&s.profile),
        codec_tag,
        duration: display_numeric_option(&s.duration, &s.duration_number),
        bit_rate: display_numeric_option(&s.bit_rate, &s.bit_rate_number),
        width: int_text(s.width),
        height: int_text(s.height),
        coded_width: int_text(s.coded_width),
        coded_height: int_text(s.coded_height),
        display_aspect_ratio: text_or_empty(&s.display_aspect_ratio),
        sample_aspect_ratio: text_or_empty(&s.sample_aspect_ratio),
        frame_rate: display_frame_rate(&s.avg_frame_rate, &s.r_frame_rate, &s.frame_rate_number),
        avg_frame_rate: String::new(),
        r_frame_rate: String::new(),
        pixel_format: text_or_empty(&s.pix_fmt),
        sample_format: text_or_empty(&s.sample_fmt),
        level: int_text(s.level),
        field_order: text_or_empty(&s.field_order),
        chroma_location: text_or_empty(&s.chroma_location),
        color_range: text_or_empty(&s.color_range),
        color_space: text_or_empty(&s.color_space),
        color_transfer: text_or_empty(&s.color_transfer),
        color_primaries: text_or_empty(&s.color_primaries),
        sample_rate: text_or_empty(&s.sample_rate),
        channels: int_text(s.channels),
        channel_layout: text_or_empty(&s.channel_layout),
        bits_per_sample: int_text(s.bits_per_sample),
        bits_per_raw_sample: text_or_empty(&s.bits_per_raw_sample),
        time_base: text_or_empty(&s.time_base),
        start_time: text_or_empty(&s.start_time),
        frame_count: text_or_empty(&s.nb_frames),
        refs: int_text(s.refs),
        has_b_frames: int_text(s.has_b_frames),
        nal_length_size: text_or_empty(&s.nal_length_size),
        is_avc: text_or_empty(&s.is_avc),
        codec_time_base: String::new(),
        max_bit_rate: String::new(),
        nb_read_frames: String::new(),
        extradata_size: String::new(),
        initial_padding: String::new(),
        closed_captions: String::new(),
        disposition,
        tags,
        side_data: Vec::new(),
    };
    r
}

/// `map_chapter_info`: one ffprobe chapter as a report chapter.
pub fn map_chapter_info(c: &FfprobeChapter) -> (r: MediaChapterInfo)
    ensures
        chapter_mapped(r, *c),
{
    let id: i64 = match c.id {
        Some(n) => n,
        None => 0,
    };
    MediaChapterInfo {
        id,
        start: display_numeric_option(&c.start_time, &c.start_number),
        end: display_numeric_option(&c.end_time, &c.end_number),
        time_base: text_or_empty(&c.time_base),
        tags: flatten_tags(&c.tags),
    }
}

/// The streams of a report, each from the ffprobe stream at its place.
pub open spec fn streams_mapped(r: Seq<MediaStreamInfo>, s: Seq<FfprobeStream>) -> bool {
    &&& r.len() == s.len()
    &&& forall|i: int| 0 <= i < s.len() ==> stream_mapped(#[trigger] r[i], s[i])
}

/// The chapters of a report, each from the ffprobe chapter at its place.
pub open spec fn chapters_mapped(r: Seq<MediaChapterInfo>, c: Seq<FfprobeChapter>) -> bool {
    &&& r.len() == c.len()
    &&& forall|i: int| 0 <= i < c.len() ==> chapter_mapped(#[trigger] r[i], c[i])
}

/// Maps every ffprobe stream, in order.
pub fn map_streams(streams: &Vec<FfprobeStream>) -> (r: Vec<MediaStreamInfo>)
    ensures
        streams_mapped(r@, streams@),
{
    let mut out: Vec<MediaStreamInfo> = Vec::new();
    let mut i: usize = 0;
    while i < streams.len()
        invariant
            i <= streams@.len(),
            out@.len() == i,
            forall|k: int| 0 <= k < i ==> stream_mapped(#[trigger] out@[k], streams@[k]),
        decreases streams@.len() - i,
    {
        out.push(map_stream_info(&streams[i]));
        i = i + 1;
    }
    out
}

/// Maps every ffprobe chapter, in order.
pub fn map_chapters(chapters: &Vec<FfprobeChapter>) -> (r: Vec<MediaChapterInfo>)
    ensures
        chapters_mapped(r@, chapters@),
{
    let mut out: Vec<MediaChapterInfo> = Vec::new();
    let mut i: usize = 0;
    while i < chapters.len()
        invariant
            i <= chapters@.len(),
            out@.len() == i,
            forall|k: int| 0 <= k < i ==> chapter_mapped(#[trigger] out@[k], chapters@[k]),
        decreases chapters@.len() - i,
    {
        out.push(map_chapter_info(&chapters[i]));
        i = i + 1;
    }
    out
}

/// The format section, with every value absent when ffprobe printed none.
pub open spec fn format_or_default(o: Option<FfprobeFormat>) -> FfprobeFormat {
    match o {
        Some(f) => f,
        None => FfprobeFormat {
            nb_programs: None,
            nb_stream_groups: None,
            format_name: None,
            format_long_name: None,
            duration: None,
            duration_number: None,
            size: None,
            size_number: None,
            bit_rate: None,
            bit_rate_number: None,
            probe_score: None,
            start_time: None,
            tags: None,
        },
    }
}

/// Number of streams whose `codec_type` is `t`.
pub open spec fn count_of_type(streams: Seq<MediaStreamInfo>, t: Seq<char>) -> nat {
    streams.filter(|s: MediaStreamInfo| s.codec_type@ == t).len()
}

/// A count from the listed entries, or, when there are none, from the
/// format's own count (taken as `usize`).
pub open spec fn count_or_declared(entries: usize, declared: Option<i64>) -> usize {
    if entries > 0 {
        entries
    } else {
        match declared {
            Some(n) => n as usize,
            None => 0,
        }
    }
}

/// The report that `map_ffprobe_report` makes: the request's values, the
/// format's fields, the mapped streams and chapters and their counts, and no
/// enrichment yet.
pub open spec fn report_mapped(
    r: MediaProbeReport,
    trace_id: Seq<char>,
    path: Seq<char>,
    file_name: Seq<char>,
    upload_bytes: u64,
    processing_time_ms: u64,
    ffprobe_timeout_secs: u64,
    parsed: FfprobeOutput,
    raw_json_pretty: Seq<char>,
) -> bool {
    let f = format_or_default(parsed.format);
    &&& r.trace_id@ == trace_id
    &&& r.file_name@ == file_name
    &&& r.path_hint@ == path
    &&& r.upload_bytes == upload_bytes
    &&& r.processing_time_ms == processing_time_ms
    &&& r.ffprobe_timeout_secs == ffprobe_timeout_secs
    &&& r.format_name@ == opt_text_or_unknown(f.format_name)
    &&& r.format_long_name@ == opt_text(f.format_long_name)
    &&& r.duration@ == number_text(f.duration, f.duration_number)
    &&& r.size@ == number_text(f.size, f.size_number)
    &&& r.bit_rate@ == number_text(f.bit_rate, f.bit_rate_number)
    &&& r.probe_score@ == optional_text(f.probe_score)
    &&& r.start_time@ == opt_text(f.start_time)
    &&& r.program_count == count_or_declared(parsed.program_entries, f.nb_programs)
    &&& r.stream_group_count == count_or_declared(parsed.stream_group_entries, f.nb_stream_groups)
    &&& streams_mapped(r.streams@, parsed.streams@)
    &&& chapters_mapped(r.chapters@, parsed.chapters@)
    &&& r.stream_count == parsed.streams@.len()
    &&& r.video_count == count_of_type(r.streams@, "video"@)
    &&& r.audio_count == count_of_type(r.streams@, "audio"@)
    &&& r.subtitle_count == count_of_type(r.streams@, "subtitle"@)
    &&& r.chapter_count == parsed.chapters@.len()
    &&& pair_views(r.format_tags@) == optional_pairs(f.tags)
    &&& r.raw_json_pretty@ == raw_json_pretty
    &&& r.thumbnails@.len() == 0
    &&& r.subtitles@.len() == 0
    &&& r.mediainfo.is_none()
    &&& r.mediainfo_error.is_none()
    &&& r.loudness.is_none()
    &&& r.loudness_error.is_none()
}

/// Counts the streams whose `codec_type` is `t`.
pub fn count_codec_type(streams: &Vec<MediaStreamInfo>, t: &str) -> (n: usize)
    ensures
        n == count_of_type(streams@, t@),
{
    let ghost p = |s: MediaStreamInfo| s.codec_type@ == t@;
    let mut n: usize = 0;
    let mut i: usize = 0;
    while i < streams.len()
        invariant
            p == (|s: MediaStreamInfo| s.codec_type@ == t@),
            i <= streams@.len(),
            n == streams@.take(i as int).filter(p).len(),
        decreases streams@.len() - i,
    {
        proof {
            reveal_with_fuel(Seq::<MediaStreamInfo>::filter, 1);
            assert(streams@.take(i + 1).drop_last() =~= streams@.take(i as int));
        }
        if crate::text::str_eq(streams[i].codec_type.as_str(), t) {
            n = n + 1;
        }
        i = i + 1;
    }
    assert(streams@.take(streams@.len() as int) =~= streams@);
    n
}

/// A count from the listed entries, or from the format's declared count.
fn count_or_declared_exec(entries: usize, declared: Option<i64>) -> (r: usize)
    ensures
        r == count_or_declared(entries, declared),
{
    if entries > 0 {
        entries
    } else {
        match declared {
            Some(n) => n as usize,
            None => 0,
        }
    }
}

/// `map_ffprobe_report`: the report of one probed upload, from ffprobe's
/// parsed output and the request's own values.
pub fn map_ffprobe_report(
    trace_id: &str,
    path: &str,
    file_name: &str,
    upload_bytes: u64,
    processing_time_ms: u64,
    ffprobe_timeout_secs: u64,
    parsed: &FfprobeOutput,
    raw_json_pretty: String,
) -> (r: MediaProbeReport)
    ensures
        report_mapped(
            r,
            trace_id@,
            path@,
            file_name@,
            upload_bytes,
            processing_time_ms,
            ffprobe_timeout_secs,
            *parsed,
            raw_json_pretty@,
        ),
{
    let streams = map_streams(&parsed.streams);
    let video_count = count_codec_type(&streams, "video");
    let audio_count = count_codec_type(&streams, "audio");
    let subtitle_count = count_codec_type(&streams, "subtitle");
    let chapters = map_chapters(&parsed.chapters);
    let empty = FfprobeFormat {
        nb_programs: None,
        nb_stream_groups: None,
        format_name: None,
        format_long_name: None,
        duration: None,
        duration_number: None,
        size: None,
        size_number: None,
        bit_rate: None,
        bit_rate_number: None,
        probe_score: None,
        start_time: None,
        tags: None,
    };
    let f: &FfprobeFormat = match &parsed.format {
        Some(f) => f,
        None => &empty,
    };
    let stream_count = streams.len();
    let chapter_count = chapters.len();
    MediaProbeReport {
        trace_id: trace_id.to_string(),
        file_name: file_name.to_string(),
        path_hint: path.to_string(),
        upload_bytes,
        processing_time_ms,
        ffprobe_timeout_secs,
        format_name: text_or_unknown(&f.format_name),
        format_long_name: text_or_empty(&f.format_long_name),
        duration: display_numeric_option(&f.duration, &f.duration_number),
        size: display_numeric_option(&f.size, &f.size_number),
        bit_rate: display_numeric_option(&f.bit_rate, &f.bit_rate_number),
        probe_score: json_string_or_default(&f.probe_score),
        start_time: text_or_empty(&f.start_time),
        program_count: count_or_declared_exec(parsed.program_entries, f.nb_programs),
        stream_group_count: count_or_declared_exec(parsed.stream_group_entries, f.nb_stream_groups),
        stream_count,
        video_count,
        audio_count,
        subtitle_count,
        chapter_count,
        format_tags: flatten_tags(&f.tags),
        streams,
        chapters,
        raw_json_pretty,
        thumbnails: Vec::new(),
        subtitles: Vec::new(),
        mediainfo: None,
        mediainfo_error: None,
        loudness: None,
        loudness_error: None,
    }
}

/// Every stream is of at most one kind, so the video, audio and subtitle
/// counts of a report add up to at most its number of streams.
pub proof fn lemma_kind_counts_bounded(streams: Seq<MediaStreamInfo>)
    ensures
        count_of_type(streams, "video"@) + count_of_type(streams, "audio"@) + count_of_type(
            streams,
            "subtitle"@,
        ) <= streams.len(),
    decreases streams.len(),
{
    reveal_with_fuel(Seq::<MediaStreamInfo>::filter, 1);
    if streams.len() > 0 {
        let rest = streams.drop_last();
        lemma_kind_counts_bounded(rest);
        reveal_strlit("video");
        reveal_strlit("audio");
        reveal_strlit("subtitle");
        let t = streams.last().codec_type@;
        assert(!(t == "video"@ && t == "audio"@)) by {
            if t == "video"@ && t == "audio"@ {
                assert("video"@[0] != "audio"@[0]);
            }
        }
        assert(!(t == "video"@ && t == "subtitle"@)) by {
            if t == "video"@ && t == "subtitle"@ {
                assert("video"@.len() != "subtitle"@.len());
            }
        }
        assert(!(t == "audio"@ && t == "subtitle"@)) by {
            if t == "audio"@ && t == "subtitle"@ {
                assert("audio"@.len() != "subtitle"@.len());
            }
        }
    }
}


/// The counts by kind of a mapped report are the numbers of its streams
/// whose codec type is exactly `video`, `audio` and `subtitle`; so a report
/// with one subtitle stream counts one subtitle.
pub proof fn lemma_counts_by_codec_type(
    r: MediaProbeReport,
    trace_id: Seq<char>,
    path: Seq<char>,
    file_name: Seq<char>,
    upload_bytes: u64,
    processing_time_ms: u64,
    ffprobe_timeout_secs: u64,
    parsed: FfprobeOutput,
    raw_json_pretty: Seq<char>,
)
    requires
        report_mapped(
            r,
            trace_id,
            path,
            file_name,
            upload_bytes,
            processing_time_ms,
            ffprobe_timeout_secs,
            parsed,
            raw_json_pretty,
        ),
    ensures
        r.video_count == r.streams@.filter(|s: MediaStreamInfo| s.codec_type@ == "video"@).len(),
        r.audio_count == r.streams@.filter(|s: MediaStreamInfo| s.codec_type@ == "audio"@).len(),
        r.subtitle_count == r.streams@.filter(|s: MediaStreamInfo| s.codec_type@ == "subtitle"@).len(),
        (exists|i: int| 0 <= i < r.streams@.len() && r.streams@[i].codec_type@ == "subtitle"@) ==> r.subtitle_count >= 1,
{
    let p = |s: MediaStreamInfo| s.codec_type@ == "subtitle"@;
    if exists|i: int| 0 <= i < r.streams@.len() && r.streams@[i].codec_type@ == "subtitle"@ {
        let i = choose|i: int| 0 <= i < r.streams@.len() && r.streams@[i].codec_type@ == "subtitle"@;
        r.streams@.filter_lemma(p);
        assert(r.streams@.filter(p).contains(r.streams@[i]));
    }
}

} // verus!

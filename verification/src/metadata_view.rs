//! The metadata viewer: a probed file summed up as lines of a report, and the
//! state of the path input that decides which file is probed.
use vstd::prelude::*;

use crate::ffprobe_map::{
    FfprobeOutput, chapters_mapped, count_codec_type, count_of_type, display_numeric_option,
    format_or_default, int_text, join_non_empty, join_present, map_chapters, map_streams,
    number_text, opt_int_text, opt_text, opt_text_or_unknown, present, signed_decimal,
    signed_decimal_string, streams_mapped, text_or_empty, text_or_unknown,
};
use crate::json_text::{json_string_or_default, optional_pairs, optional_text, pair_views, flatten_tags};
use crate::media_report::{MediaChapterInfo, MediaKeyValue, MediaStreamInfo};
use crate::paths::{file_name_of, path_file_name};
use crate::text::{chars_of, decimal, decimal_string, is_blank, join, join_strings, str_eq};

verus! {

// ── Report lines ─────────────────────────────────────────────────────────────

/// One line of the metadata report, by the part it plays; the viewer styles
/// each kind its own way.
#[derive(Clone, Debug, PartialEq)]
pub enum ReportLine {
    /// `label: value`.
    LabelValue(String, String),
    /// A hint in a muted colour.
    Note(String),
    /// The title of a section.
    Section(String),
    /// The title of one stream or chapter.
    Subsection(String),
    /// An indented `label: value` under a subsection.
    Bullet(String, String),
}

/// A report line as plain text.
pub enum LineModel {
    LabelValue(Seq<char>, Seq<char>),
    Note(Seq<char>),
    Section(Seq<char>),
    Subsection(Seq<char>),
    Bullet(Seq<char>, Seq<char>),
}

impl View for ReportLine {
    type V = LineModel;

    open spec fn view(&self) -> LineModel {
        match self {
            ReportLine::LabelValue(l, v) => LineModel::LabelValue(l@, v@),
            ReportLine::Note(t) => LineModel::Note(t@),
            ReportLine::Section(t) => LineModel::Section(t@),
            ReportLine::Subsection(t) => LineModel::Subsection(t@),
            ReportLine::Bullet(l, v) => LineModel::Bullet(l@, v@),
        }
    }
}

/// Lines taken by their text.
pub open spec fn line_views(v: Seq<ReportLine>) -> Seq<LineModel> {
    v.map_values(|l: ReportLine| l@)
}

/// The value, or `n/a` when it is blank.
pub open spec fn or_na(v: Seq<char>) -> Seq<char> {
    if present(v) {
        v
    } else {
        "n/a"@
    }
}

/// The `key=value` texts of the pairs whose value is not blank, in order.
pub open spec fn summary_parts(s: Seq<MediaKeyValue>) -> Seq<Seq<char>>
    decreases s.len(),
{
    if s.len() == 0 {
        Seq::empty()
    } else {
        let rest = summary_parts(s.drop_last());
        if present(s.last().value@) {
            rest.push(s.last().key@ + "="@ + s.last().value@)
        } else {
            rest
        }
    }
}

/// The pairs with a value, as `key=value`, joined by `", "`.
pub open spec fn summary_text(s: Seq<MediaKeyValue>) -> Seq<char> {
    join(summary_parts(s), ", "@)
}

/// Every space of `s` written as ` x `.
pub open spec fn spaced_x(s: Seq<char>) -> Seq<char>
    decreases s.len(),
{
    if s.len() == 0 {
        Seq::empty()
    } else {
        spaced_x(s.drop_last()) + if s.last() == ' ' {
            " x "@
        } else {
            seq![s.last()]
        }
    }
}

/// A bullet for the value, or nothing when it is blank.
pub open spec fn bullet_if_present(label: Seq<char>, value: Seq<char>) -> Seq<LineModel> {
    if present(value) {
        seq![LineModel::Bullet(label, value)]
    } else {
        Seq::empty()
    }
}

/// A bullet with the summary of the pairs, or nothing when there are none.
pub open spec fn pairs_bullet(label: Seq<char>, pairs: Seq<MediaKeyValue>) -> Seq<LineModel> {
    if pairs.len() > 0 {
        seq![LineModel::Bullet(label, summary_text(pairs))]
    } else {
        Seq::empty()
    }
}

/// The bullets that only a video stream shows.
pub open spec fn video_bullets(s: MediaStreamInfo) -> Seq<LineModel> {
    bullet_if_present("resolution"@, spaced_x(join_present(s.width@, s.height@)))
        + bullet_if_present(
        "coded resolution"@,
        spaced_x(join_present(s.coded_width@, s.coded_height@)),
    ) + bullet_if_present("frame rate"@, s.frame_rate@) + bullet_if_present(
        "pixel format"@,
        s.pixel_format@,
    ) + bullet_if_present("display aspect"@, s.display_aspect_ratio@) + bullet_if_present(
        "sample aspect"@,
        s.sample_aspect_ratio@,
    ) + bullet_if_present("field order"@, s.field_order@) + bullet_if_present(
        "level"@,
        s.level@,
    ) + bullet_if_present("chroma location"@, s.chroma_location@) + bullet_if_present(
        "color range"@,
        s.color_range@,
    ) + bullet_if_present("color space"@, s.color_space@) + bullet_if_present(
        "color transfer"@,
        s.color_transfer@,
    ) + bullet_if_present("color primaries"@, s.color_primaries@) + bullet_if_present(
        "refs"@,
        s.refs@,
    ) + bullet_if_present("b-frames"@, s.has_b_frames@) + bullet_if_present(
        "is avc"@,
        s.is_avc@,
    ) + bullet_if_present("nal length size"@, s.nal_length_size@) + bullet_if_present(
        "bits/raw sample"@,
        s.bits_per_raw_sample@,
    )
}

/// The bullets that only an audio stream shows.
pub open spec fn audio_bullets(s: MediaStreamInfo) -> Seq<LineModel> {
    bullet_if_present("sample format"@, s.sample_format@) + bullet_if_present(
        "sample rate"@,
        s.sample_rate@,
    ) + bullet_if_present("channels"@, s.channels@) + bullet_if_present(
        "channel layout"@,
        s.channel_layout@,
    ) + bullet_if_present("bits/sample"@, s.bits_per_sample@)
}

/// The title of a stream: `Stream #<index> [<codec type>]`.
pub open spec fn stream_title(s: MediaStreamInfo) -> Seq<char> {
    "Stream #"@ + signed_decimal(s.index as int) + " ["@ + s.codec_type@ + "]"@
}

/// The lines of one stream: its title and codec, the values it has, the
/// video or audio values by its kind, its dispositions and its tags.
pub open spec fn stream_lines(s: MediaStreamInfo) -> Seq<LineModel> {
    seq![
        LineModel::Subsection(stream_title(s)),
        LineModel::Bullet("codec"@, join_present(s.codec_name@, s.codec_long_name@)),
    ] + bullet_if_present("id"@, s.stream_id@) + bullet_if_present("profile"@, s.profile@)
        + bullet_if_present("codec tag"@, s.codec_tag@) + bullet_if_present(
        "duration"@,
        s.duration@,
    ) + bullet_if_present("bit rate"@, s.bit_rate@) + bullet_if_present(
        "time base"@,
        s.time_base@,
    ) + bullet_if_present("start time"@, s.start_time@) + bullet_if_present(
        "frames"@,
        s.frame_count@,
    ) + (if s.codec_type@ == "video"@ {
        video_bullets(s)
    } else {
        Seq::empty()
    }) + (if s.codec_type@ == "audio"@ {
        audio_bullets(s)
    } else {
        Seq::empty()
    }) + pairs_bullet("disposition"@, s.disposition@) + pairs_bullet("tags"@, s.tags@)
}

/// The title of a chapter: `Chapter #<id> <start> -> <end>`.
pub open spec fn chapter_title(c: MediaChapterInfo) -> Seq<char> {
    "Chapter #"@ + signed_decimal(c.id as int) + " "@ + or_na(c.start@) + " -> "@ + or_na(
        c.end@,
    )
}

/// The lines of one chapter: its title, its time base and its tags.
pub open spec fn chapter_lines(c: MediaChapterInfo) -> Seq<LineModel> {
    seq![LineModel::Subsection(chapter_title(c))] + bullet_if_present("time base"@, c.time_base@)
        + pairs_bullet("tags"@, c.tags@)
}

// ── Helpers that append lines ────────────────────────────────────────────────

proof fn lemma_views_push(v: Seq<ReportLine>, l: ReportLine)
    ensures
        line_views(v.push(l)) == line_views(v) + seq![l@],
{
    assert(line_views(v.push(l)) =~= line_views(v) + seq![l@]);
}

/// Appends one line.
fn push_line(lines: &mut Vec<ReportLine>, l: ReportLine)
    ensures
        line_views(final(lines)@) == line_views(old(lines)@) + seq![l@],
{
    proof {
        lemma_views_push(lines@, l);
    }
    lines.push(l);
}

/// A `String` holding `s`.
fn owned(s: &str) -> (r: String)
    ensures
        r@ == s@,
{
    s.to_string()
}

/// The value, or `n/a` when it is blank.
pub fn fallback_empty(value: &str) -> (r: String)
    ensures
        r@ == or_na(value@),
{
    if is_blank(value) {
        owned("n/a")
    } else {
        owned(value)
    }
}

/// The pairs with a value, as `key=value`, joined by `", "`.
pub fn summarize_pairs(pairs: &Vec<MediaKeyValue>) -> (r: String)
    ensures
        r@ == summary_text(pairs@),
{
    let mut parts: Vec<String> = Vec::new();
    let mut i: usize = 0;
    while i < pairs.len()
        invariant
            i <= pairs@.len(),
            parts@.map_values(|x: String| x@) == summary_parts(pairs@.take(i as int)),
        decreases pairs@.len() - i,
    {
        proof {
            assert(pairs@.take(i + 1).drop_last() =~= pairs@.take(i as int));
        }
        let kv = &pairs[i];
        if !is_blank(kv.value.as_str()) {
            let mut part = kv.key.clone();
            part.append("=");
            part.append(kv.value.as_str());
            let ghost before = parts@;
            parts.push(part);
            proof {
                assert(parts@.map_values(|x: String| x@) =~= before.map_values(|x: String| x@).push(
                    part@,
                ));
            }
        }
        i = i + 1;
    }
    assert(pairs@.take(pairs@.len() as int) =~= pairs@);
    join_strings(&parts, ", ")
}

/// Writes every space of `s` as ` x `.
pub fn replace_spaces(s: &str) -> (r: String)
    ensures
        r@ == spaced_x(s@),
{
    let v = chars_of(s);
    let mut r = String::new();
    let mut i: usize = 0;
    while i < v.len()
        invariant
            v@ == s@,
            i <= v@.len(),
            r@ == spaced_x(v@.take(i as int)),
        decreases v@.len() - i,
    {
        proof {
            assert(v@.take(i + 1).drop_last() =~= v@.take(i as int));
        }
        if v[i] == ' ' {
            r.append(" x ");
        } else {
            crate::text::push_char(&mut r, v[i]);
            assert(r@ =~= spaced_x(v@.take(i as int)) + seq![v@[i as int]]);
        }
        i = i + 1;
    }
    assert(v@.take(v@.len() as int) =~= v@);
    r
}

/// Appends a bullet for the value unless it is blank.
fn push_if_present(lines: &mut Vec<ReportLine>, label: &str, value: &str)
    ensures
        line_views(final(lines)@) == line_views(old(lines)@) + bullet_if_present(label@, value@),
{
    if !is_blank(value) {
        push_line(lines, ReportLine::Bullet(owned(label), owned(value)));
    } else {
        assert(line_views(lines@) =~= line_views(lines@) + Seq::<LineModel>::empty());
    }
}

/// Appends a bullet with the summary of the pairs, unless there are none.
fn push_pairs(lines: &mut Vec<ReportLine>, label: &str, pairs: &Vec<MediaKeyValue>)
    ensures
        line_views(final(lines)@) == line_views(old(lines)@) + pairs_bullet(label@, pairs@),
{
    if pairs.len() > 0 {
        push_line(lines, ReportLine::Bullet(owned(label), summarize_pairs(pairs)));
    } else {
        assert(line_views(lines@) =~= line_views(lines@) + Seq::<LineModel>::empty());
    }
}

/// Appends every line of `more`.
fn append_lines(lines: &mut Vec<ReportLine>, more: Vec<ReportLine>)
    ensures
        line_views(final(lines)@) == line_views(old(lines)@) + line_views(more@),
{
    let ghost start = lines@;
    let mut more = more;
    let ghost added = more@;
    lines.append(&mut more);
    assert(line_views(lines@) =~= line_views(start) + line_views(added));
}

// ── Lines of streams and chapters ────────────────────────────────────────────

fn push_video_lines(lines: &mut Vec<ReportLine>, s: &MediaStreamInfo)
    ensures
        line_views(final(lines)@) == line_views(old(lines)@) + video_bullets(*s),
{
    let ghost start = line_views(lines@);
    let resolution = replace_spaces(join_non_empty(s.width.clone(), s.height.clone()).as_str());
    push_if_present(lines, "resolution", resolution.as_str());
    let coded = replace_spaces(
        join_non_empty(s.coded_width.clone(), s.coded_height.clone()).as_str(),
    );
    push_if_present(lines, "coded resolution", coded.as_str());
    push_if_present(lines, "frame rate", s.frame_rate.as_str());
    push_if_present(lines, "pixel format", s.pixel_format.as_str());
    push_if_present(lines, "display aspect", s.display_aspect_ratio.as_str());
    push_if_present(lines, "sample aspect", s.sample_aspect_ratio.as_str());
    push_if_present(lines, "field order", s.field_order.as_str());
    push_if_present(lines, "level", s.level.as_str());
    push_if_present(lines, "chroma location", s.chroma_location.as_str());
    push_if_present(lines, "color range", s.color_range.as_str());
    push_if_present(lines, "color space", s.color_space.as_str());
    push_if_present(lines, "color transfer", s.color_transfer.as_str());
    push_if_present(lines, "color primaries", s.color_primaries.as_str());
    push_if_present(lines, "refs", s.refs.as_str());
    push_if_present(lines, "b-frames", s.has_b_frames.as_str());
    push_if_present(lines, "is avc", s.is_avc.as_str());
    push_if_present(lines, "nal length size", s.nal_length_size.as_str());
    push_if_present(lines, "bits/raw sample", s.bits_per_raw_sample.as_str());
    assert(line_views(lines@) =~= start + video_bullets(*s));
}

fn push_audio_lines(lines: &mut Vec<ReportLine>, s: &MediaStreamInfo)
    ensures
        line_views(final(lines)@) == line_views(old(lines)@) + audio_bullets(*s),
{
    let ghost start = line_views(lines@);
    push_if_present(lines, "sample format", s.sample_format.as_str());
    push_if_present(lines, "sample rate", s.sample_rate.as_str());
    push_if_present(lines, "channels", s.channels.as_str());
    push_if_present(lines, "channel layout", s.channel_layout.as_str());
    push_if_present(lines, "bits/sample", s.bits_per_sample.as_str());
    assert(line_views(lines@) =~= start + audio_bullets(*s));
}

/// The lines of one stream: its title and codec, then a bullet for each value
/// it has.
pub fn stream_to_lines(s: &MediaStreamInfo) -> (r: Vec<ReportLine>)
    ensures
        line_views(r@) == stream_lines(*s),
{
    let mut title = owned("Stream #");
    title.append(signed_decimal_string(s.index).as_str());
    title.append(" [");
    title.append(s.codec_type.as_str());
    title.append("]");
    let codec = join_non_empty(s.codec_name.clone(), s.codec_long_name.clone());
    let mut lines: Vec<ReportLine> = Vec::new();
    lines.push(ReportLine::Subsection(title));
    lines.push(ReportLine::Bullet(owned("codec"), codec));
    let ghost head = line_views(lines@);
    assert(head =~= seq![
        LineModel::Subsection(stream_title(*s)),
        LineModel::Bullet("codec"@, join_present(s.codec_name@, s.codec_long_name@)),
    ]);
    push_if_present(&mut lines, "id", s.stream_id.as_str());
    push_if_present(&mut lines, "profile", s.profile.as_str());
    push_if_present(&mut lines, "codec tag", s.codec_tag.as_str());
    push_if_present(&mut lines, "duration", s.duration.as_str());
    push_if_present(&mut lines, "bit rate", s.bit_rate.as_str());
    push_if_present(&mut lines, "time base", s.time_base.as_str());
    push_if_present(&mut lines, "start time", s.start_time.as_str());
    push_if_present(&mut lines, "frames", s.frame_count.as_str());
    let ghost mid = line_views(lines@);
    if str_eq(s.codec_type.as_str(), "video") {
        push_video_lines(&mut lines, s);
    } else {
        assert(line_views(lines@) =~= mid + Seq::<LineModel>::empty());
    }
    let ghost after_video = line_views(lines@);
    if str_eq(s.codec_type.as_str(), "audio") {
        push_audio_lines(&mut lines, s);
    } else {
        assert(line_views(lines@) =~= after_video + Seq::<LineModel>::empty());
    }
    push_pairs(&mut lines, "disposition", &s.disposition);
    push_pairs(&mut lines, "tags", &s.tags);
    lines
}

/// The lines of one chapter: its title, then a bullet for each value it has.
pub fn chapter_to_lines(c: &MediaChapterInfo) -> (r: Vec<ReportLine>)
    ensures
        line_views(r@) == chapter_lines(*c),
{
    let mut title = owned("Chapter #");
    title.append(signed_decimal_string(c.id).as_str());
    title.append(" ");
    title.append(fallback_empty(c.start.as_str()).as_str());
    title.append(" -> ");
    title.append(fallback_empty(c.end.as_str()).as_str());
    let mut lines: Vec<ReportLine> = Vec::new();
    lines.push(ReportLine::Subsection(title));
    assert(line_views(lines@) =~= seq![LineModel::Subsection(chapter_title(*c))]);
    push_if_present(&mut lines, "time base", c.time_base.as_str());
    push_pairs(&mut lines, "tags", &c.tags);
    lines
}

// ── The report of one probed file ────────────────────────────────────────────

/// What the viewer shows of one probed file. Absent values are empty texts.
#[derive(Clone, Debug, PartialEq, Default)]
pub struct ProbeReport {
    pub path: String,
    pub file_name: String,
    pub format_name: String,
    pub format_long_name: String,
    pub program_count: String,
    pub stream_group_count: String,
    pub duration: String,
    pub size: String,
    pub bit_rate: String,
    pub probe_score: String,
    pub start_time: String,
    pub stream_count: usize,
    pub video_count: usize,
    pub audio_count: usize,
    pub subtitle_count: usize,
    pub chapter_count: usize,
    pub format_tags: Vec<MediaKeyValue>,
    pub streams: Vec<MediaStreamInfo>,
    pub chapters: Vec<MediaChapterInfo>,
}

/// The last component of the path, or the whole path when it has none.
pub open spec fn file_label(path: Seq<char>) -> Seq<char> {
    match file_name_of(path) {
        Some(name) => name,
        None => path,
    }
}

/// The report that `ProbeReport::from_ffprobe` makes of ffprobe's output.
pub open spec fn probe_report_from(r: ProbeReport, path: Seq<char>, parsed: FfprobeOutput) -> bool {
    let f = format_or_default(parsed.format);
    &&& r.path@ == path
    &&& r.file_name@ == file_label(path)
    &&& r.format_name@ == opt_text_or_unknown(f.format_name)
    &&& r.format_long_name@ == opt_text(f.format_long_name)
    &&& r.program_count@ == opt_int_text(f.nb_programs)
    &&& r.stream_group_count@ == opt_int_text(f.nb_stream_groups)
    &&& r.duration@ == number_text(f.duration, f.duration_number)
    &&& r.size@ == number_text(f.size, f.size_number)
    &&& r.bit_rate@ == number_text(f.bit_rate, f.bit_rate_number)
    &&& r.probe_score@ == optional_text(f.probe_score)
    &&& r.start_time@ == opt_text(f.start_time)
    &&& streams_mapped(r.streams@, parsed.streams@)
    &&& chapters_mapped(r.chapters@, parsed.chapters@)
    &&& r.stream_count == parsed.streams@.len()
    &&& r.video_count == count_of_type(r.streams@, "video"@)
    &&& r.audio_count == count_of_type(r.streams@, "audio"@)
    &&& r.subtitle_count == count_of_type(r.streams@, "subtitle"@)
    &&& r.chapter_count == parsed.chapters@.len()
    &&& pair_views(r.format_tags@) == optional_pairs(f.tags)
}

/// The tags as bullets, in order.
pub open spec fn tag_bullets(s: Seq<MediaKeyValue>) -> Seq<LineModel> {
    s.map_values(|kv: MediaKeyValue| LineModel::Bullet(kv.key@, kv.value@))
}

/// The lines of every stream, one stream after the other.
pub open spec fn all_stream_lines(s: Seq<MediaStreamInfo>) -> Seq<LineModel>
    decreases s.len(),
{
    if s.len() == 0 {
        Seq::empty()
    } else {
        all_stream_lines(s.drop_last()) + stream_lines(s.last())
    }
}

/// The lines of every chapter, one chapter after the other.
pub open spec fn all_chapter_lines(s: Seq<MediaChapterInfo>) -> Seq<LineModel>
    decreases s.len(),
{
    if s.len() == 0 {
        Seq::empty()
    } else {
        all_chapter_lines(s.drop_last()) + chapter_lines(s.last())
    }
}

/// The stream counts: `total=.. video=.. audio=.. subtitle=..`.
pub open spec fn counts_text(r: ProbeReport) -> Seq<char> {
    "total="@ + decimal(r.stream_count as nat) + " video="@ + decimal(r.video_count as nat)
        + " audio="@ + decimal(r.audio_count as nat) + " subtitle="@ + decimal(
        r.subtitle_count as nat,
    )
}

/// The lines of a report: its fields, then its format tags, streams and
/// chapters, each group under its title when it has any.
pub open spec fn report_lines_of(r: ProbeReport) -> Seq<LineModel> {
    seq![
        LineModel::LabelValue("Path"@, r.path@),
        LineModel::LabelValue("File"@, r.file_name@),
        LineModel::LabelValue("Format"@, r.format_name@ + " ("@ + or_na(r.format_long_name@) + ")"@),
        LineModel::LabelValue("Duration"@, or_na(r.duration@)),
        LineModel::LabelValue("Size"@, or_na(r.size@)),
        LineModel::LabelValue("Bit rate"@, or_na(r.bit_rate@)),
        LineModel::LabelValue("Start time"@, or_na(r.start_time@)),
        LineModel::LabelValue("Probe score"@, or_na(r.probe_score@)),
        LineModel::LabelValue("Programs"@, or_na(r.program_count@)),
        LineModel::LabelValue("Stream groups"@, or_na(r.stream_group_count@)),
        LineModel::LabelValue("Streams"@, counts_text(r)),
        LineModel::LabelValue("Chapters"@, decimal(r.chapter_count as nat)),
    ] + (if r.format_tags@.len() > 0 {
        seq![LineModel::Section("Format tags"@)] + tag_bullets(r.format_tags@)
    } else {
        Seq::empty()
    }) + (if r.streams@.len() > 0 {
        seq![LineModel::Section("Streams"@)] + all_stream_lines(r.streams@)
    } else {
        Seq::empty()
    }) + (if r.chapters@.len() > 0 {
        seq![LineModel::Section("Chapters"@)] + all_chapter_lines(r.chapters@)
    } else {
        Seq::empty()
    })
}

/// The last component of the path, or the whole path when it has none.
pub fn file_name_label(path: &str) -> (r: String)
    ensures
        r@ == file_label(path@),
{
    match path_file_name(path) {
        Some(name) => name,
        None => owned(path),
    }
}

impl ProbeReport {
    /// The report of a probed file, from ffprobe's parsed output.
    pub fn from_ffprobe(path: &str, parsed: &FfprobeOutput) -> (r: ProbeReport)
        ensures
            probe_report_from(r, path@, *parsed),
    {
        let streams = map_streams(&parsed.streams);
        let video_count = count_codec_type(&streams, "video");
        let audio_count = count_codec_type(&streams, "audio");
        let subtitle_count = count_codec_type(&streams, "subtitle");
        let chapters = map_chapters(&parsed.chapters);
        let empty = crate::ffprobe_map::FfprobeFormat {
            nb_programs: None,
            nb_stream_groups: None,
            format_name: None,
            format_long_name: None,
            duration: None,
            duration_number: None,
            size: None,
            size_number: None,
            bit_rate: None,
            bit_rate_number: None,
            probe_score: None,
            start_time: None,
            tags: None,
        };
        let f = match &parsed.format {
            Some(f) => f,
            None => &empty,
        };
        let stream_count = streams.len();
        let chapter_count = chapters.len();
        ProbeReport {
            path: owned(path),
            file_name: file_name_label(path),
            format_name: text_or_unknown(&f.format_name),
            format_long_name: text_or_empty(&f.format_long_name),
            program_count: int_text(f.nb_programs),
            stream_group_count: int_text(f.nb_stream_groups),
            duration: display_numeric_option(&f.duration, &f.duration_number),
            size: display_numeric_option(&f.size, &f.size_number),
            bit_rate: display_numeric_option(&f.bit_rate, &f.bit_rate_number),
            probe_score: json_string_or_default(&f.probe_score),
            start_time: text_or_empty(&f.start_time),
            stream_count,
            video_count,
            audio_count,
            subtitle_count,
            chapter_count,
            format_tags: flatten_tags(&f.tags),
            streams,
            chapters,
        }
    }

    /// The name the viewer shows for the file.
    pub fn display_name(&self) -> (r: String)
        ensures
            r@ == self.file_name@,
    {
        self.file_name.clone()
    }

    /// The lines of the report: the file and its format's values, the counts,
    /// then each stream and each chapter.
    pub fn to_lines(&self) -> (r: Vec<ReportLine>)
        ensures
            line_views(r@) == report_lines_of(*self),
    {
        let mut format = self.format_name.clone();
        format.append(" (");
        format.append(fallback_empty(self.format_long_name.as_str()).as_str());
        format.append(")");
        let mut counts = owned("total=");
        counts.append(decimal_string(self.stream_count as u64).as_str());
        counts.append(" video=");
        counts.append(decimal_string(self.video_count as u64).as_str());
        counts.append(" audio=");
        counts.append(decimal_string(self.audio_count as u64).as_str());
        counts.append(" subtitle=");
        counts.append(decimal_string(self.subtitle_count as u64).as_str());
        let mut lines: Vec<ReportLine> = Vec::new();
        lines.push(ReportLine::LabelValue(owned("Path"), self.path.clone()));
        lines.push(ReportLine::LabelValue(owned("File"), self.file_name.clone()));
        lines.push(ReportLine::LabelValue(owned("Format"), format));
        lines.push(ReportLine::LabelValue(owned("Duration"), fallback_empty(self.duration.as_str())));
        lines.push(ReportLine::LabelValue(owned("Size"), fallback_empty(self.size.as_str())));
        lines.push(ReportLine::LabelValue(owned("Bit rate"), fallback_empty(self.bit_rate.as_str())));
        lines.push(
            ReportLine::LabelValue(owned("Start time"), fallback_empty(self.start_time.as_str())),
        );
        lines.push(
            ReportLine::LabelValue(owned("Probe score"), fallback_empty(self.probe_score.as_str())),
        );
        lines.push(
            ReportLine::LabelValue(owned("Programs"), fallback_empty(self.program_count.as_str())),
        );
        lines.push(
            ReportLine::LabelValue(
                owned("Stream groups"),
                fallback_empty(self.stream_group_count.as_str()),
            ),
        );
        lines.push(ReportLine::LabelValue(owned("Streams"), counts));
        lines.push(
            ReportLine::LabelValue(owned("Chapters"), decimal_string(self.chapter_count as u64)),
        );
        let ghost head = line_views(lines@);
        proof {
            assert(head =~= seq![
                LineModel::LabelValue("Path"@, self.path@),
                LineModel::LabelValue("File"@, self.file_name@),
                LineModel::LabelValue(
                    "Format"@,
                    self.format_name@ + " ("@ + or_na(self.format_long_name@) + ")"@,
                ),
                LineModel::LabelValue("Duration"@, or_na(self.duration@)),
                LineModel::LabelValue("Size"@, or_na(self.size@)),
                LineModel::LabelValue("Bit rate"@, or_na(self.bit_rate@)),
                LineModel::LabelValue("Start time"@, or_na(self.start_time@)),
                LineModel::LabelValue("Probe score"@, or_na(self.probe_score@)),
                LineModel::LabelValue("Programs"@, or_na(self.program_count@)),
                LineModel::LabelValue("Stream groups"@, or_na(self.stream_group_count@)),
                LineModel::LabelValue("Streams"@, counts_text(*self)),
                LineModel::LabelValue("Chapters"@, decimal(self.chapter_count as nat)),
            ]);
        }
        if self.format_tags.len() > 0 {
            push_line(&mut lines, ReportLine::Section(owned("Format tags")));
            let ghost with_title = line_views(lines@);
            let mut i: usize = 0;
            while i < self.format_tags.len()
                invariant
                    i <= self.format_tags@.len(),
                    line_views(lines@) == with_title + tag_bullets(self.format_tags@.take(i as int)),
                decreases self.format_tags@.len() - i,
            {
                let kv = &self.format_tags[i];
                push_line(&mut lines, ReportLine::Bullet(kv.key.clone(), kv.value.clone()));
                i = i + 1;
                proof {
                    assert(tag_bullets(self.format_tags@.take(i as int)) =~= tag_bullets(
                        self.format_tags@.take(i - 1),
                    ).push(LineModel::Bullet(kv.key@, kv.value@)));
                }
            }
            assert(self.format_tags@.take(self.format_tags@.len() as int) =~= self.format_tags@);
            assert(line_views(lines@) =~= head + (seq![LineModel::Section("Format tags"@)]
                + tag_bullets(self.format_tags@)));
        } else {
            assert(line_views(lines@) =~= head + Seq::<LineModel>::empty());
        }
        let ghost after_tags = line_views(lines@);
        if self.streams.len() > 0 {
            push_line(&mut lines, ReportLine::Section(owned("Streams")));
            let ghost with_title = line_views(lines@);
            let mut i: usize = 0;
            while i < self.streams.len()
                invariant
                    i <= self.streams@.len(),
                    line_views(lines@) == with_title + all_stream_lines(self.streams@.take(i as int)),
                decreases self.streams@.len() - i,
            {
                proof {
                    assert(self.streams@.take(i + 1).drop_last() =~= self.streams@.take(i as int));
                }
                let more = stream_to_lines(&self.streams[i]);
                append_lines(&mut lines, more);
                i = i + 1;
            }
            assert(self.streams@.take(self.streams@.len() as int) =~= self.streams@);
            assert(line_views(lines@) =~= after_tags + (seq![LineModel::Section("Streams"@)]
                + all_stream_lines(self.streams@)));
        } else {
            assert(line_views(lines@) =~= after_tags + Seq::<LineModel>::empty());
        }
        let ghost after_streams = line_views(lines@);
        if self.chapters.len() > 0 {
            push_line(&mut lines, ReportLine::Section(owned("Chapters")));
            let ghost with_title = line_views(lines@);
            let mut i: usize = 0;
            while i < self.chapters.len()
                invariant
                    i <= self.chapters@.len(),
                    line_views(lines@) == with_title + all_chapter_lines(
                        self.chapters@.take(i as int),
                    ),
                decreases self.chapters@.len() - i,
            {
                proof {
                    assert(self.chapters@.take(i + 1).drop_last() =~= self.chapters@.take(
                        i as int,
                    ));
                }
                let more = chapter_to_lines(&self.chapters[i]);
                append_lines(&mut lines, more);
                i = i + 1;
            }
            assert(self.chapters@.take(self.chapters@.len() as int) =~= self.chapters@);
            assert(line_views(lines@) =~= after_streams + (seq![LineModel::Section("Chapters"@)]
                + all_chapter_lines(self.chapters@)));
        } else {
            assert(line_views(lines@) =~= after_streams + Seq::<LineModel>::empty());
        }
        lines
    }
}

// ── The path input and what it names ─────────────────────────────────────────

/// What the viewer knows of the file that the input names.
#[derive(Debug)]
pub enum ProbeState {
    /// No path yet.
    Waiting,
    /// The path names no file; holds the path.
    Missing(String),
    /// ffprobe failed; holds why.
    ProbeError(String),
    /// The file was probed.
    Loaded(ProbeReport),
}

/// What came of probing the file at a path.
pub enum ProbeOutcome {
    /// No file exists at the path.
    Missing,
    /// ffprobe could not be started.
    LaunchFailed,
    /// ffprobe ran and failed: what it wrote to stderr, and its exit status as text.
    Exited { stderr: String, status: String },
    /// ffprobe's output was not the JSON it prints.
    Unparsable,
    /// ffprobe's parsed output.
    Parsed(FfprobeOutput),
}

/// Why a run of ffprobe failed: its trimmed stderr, or its exit status when
/// stderr is blank.
pub open spec fn exit_message(stderr: Seq<char>, status: Seq<char>) -> Seq<char> {
    if present(stderr) {
        crate::text::trim(stderr)
    } else {
        "ffprobe exited with status "@ + status
    }
}

/// The state that a probe of `path` leaves, by its outcome.
pub open spec fn probe_state_from(st: ProbeState, path: Seq<char>, outcome: ProbeOutcome) -> bool {
    match outcome {
        ProbeOutcome::Missing => st matches ProbeState::Missing(p) && p@ == path,
        ProbeOutcome::LaunchFailed => st matches ProbeState::ProbeError(m) && m@
            == "failed to launch ffprobe"@,
        ProbeOutcome::Exited { stderr, status } => st matches ProbeState::ProbeError(m) && m@
            == exit_message(stderr@, status@),
        ProbeOutcome::Unparsable => st matches ProbeState::ProbeError(m) && m@
            == "failed to parse ffprobe json"@,
        ProbeOutcome::Parsed(parsed) => st matches ProbeState::Loaded(r) && probe_report_from(
            r,
            path,
            parsed,
        ),
    }
}

/// The lines the viewer shows for a state.
pub open spec fn state_lines(st: ProbeState) -> Seq<LineModel> {
    match st {
        ProbeState::Waiting => seq![
            LineModel::Note(
                "Drop or paste a local video path to inspect container, streams, tags, and chapters."@,
            ),
        ],
        ProbeState::Missing(path) => seq![
            LineModel::LabelValue("Path"@, path@),
            LineModel::Note("The file does not exist on disk."@),
        ],
        ProbeState::ProbeError(m) => seq![LineModel::LabelValue("Error"@, m@)],
        ProbeState::Loaded(r) => report_lines_of(r),
    }
}

impl ProbeState {
    /// The state that a finished probe of `path` leaves, given how the probe
    /// went.
    pub fn from_outcome(path: &str, outcome: ProbeOutcome) -> (st: ProbeState)
        ensures
            probe_state_from(st, path@, outcome),
    {
        match outcome {
            ProbeOutcome::Missing => ProbeState::Missing(owned(path)),
            ProbeOutcome::LaunchFailed => ProbeState::ProbeError(owned("failed to launch ffprobe")),
            ProbeOutcome::Exited { stderr, status } => {
                let trimmed = crate::text::trim_str(stderr.as_str());
                if trimmed.as_str().is_empty() {
                    let mut m = owned("ffprobe exited with status ");
                    m.append(status.as_str());
                    ProbeState::ProbeError(m)
                } else {
                    ProbeState::ProbeError(trimmed)
                }
            },
            ProbeOutcome::Unparsable => ProbeState::ProbeError(
                owned("failed to parse ffprobe json"),
            ),
            ProbeOutcome::Parsed(parsed) => ProbeState::Loaded(
                ProbeReport::from_ffprobe(path, &parsed),
            ),
        }
    }
}

/// The viewer's input as text and what it knows of the file it names.
pub struct ViewerModel {
    pub input: Seq<char>,
    pub probe: ProbeState,
}

/// The input of the metadata viewer and the state of the file it names. A
/// change of the input that names a path hands that path back to be probed;
/// `apply_probe` then records what the probe found.
pub struct DragAndDropState {
    input: String,
    probe_state: ProbeState,
}

impl View for DragAndDropState {
    type V = ViewerModel;

    closed spec fn view(&self) -> ViewerModel {
        ViewerModel { input: self.input@, probe: self.probe_state }
    }
}

/// After the input changed: the path it names, handed back to be probed, or,
/// when it names none, the state back to waiting.
pub open spec fn synced(before: ProbeState, after: ViewerModel, r: Option<String>) -> bool {
    match r {
        Some(p) => crate::drop_paths::first_path(after.input) == Some(p@) && after.probe == before,
        None => crate::drop_paths::first_path(after.input) is None && after.probe
            == ProbeState::Waiting,
    }
}

impl Default for DragAndDropState {
    /// An empty input, waiting for a path.
    fn default() -> (s: DragAndDropState)
        ensures
            s@.input.len() == 0,
            s@.probe == ProbeState::Waiting,
    {
        DragAndDropState::new()
    }
}

impl Default for ProbeState {
    /// No path yet.
    fn default() -> (s: ProbeState)
        ensures
            s == ProbeState::Waiting,
    {
        ProbeState::Waiting
    }
}

impl DragAndDropState {
    /// An empty input, waiting for a path.
    pub fn new() -> (s: DragAndDropState)
        ensures
            s@.input.len() == 0,
            s@.probe == ProbeState::Waiting,
    {
        DragAndDropState { input: String::new(), probe_state: ProbeState::Waiting }
    }

    /// The text typed or pasted so far.
    pub fn input(&self) -> (r: &str)
        ensures
            r@ == self@.input,
    {
        self.input.as_str()
    }

    /// What the viewer knows of the file the input names.
    pub fn probe_state(&self) -> (r: &ProbeState)
        ensures
            *r == self@.probe,
    {
        &self.probe_state
    }

    /// The lines of the metadata panel.
    pub fn report_lines(&self) -> (r: Vec<ReportLine>)
        ensures
            line_views(r@) == state_lines(self@.probe),
    {
        match &self.probe_state {
            ProbeState::Waiting => {
                let mut lines: Vec<ReportLine> = Vec::new();
                lines.push(
                    ReportLine::Note(
                        owned(
                            "Drop or paste a local video path to inspect container, streams, tags, and chapters.",
                        ),
                    ),
                );
                assert(line_views(lines@) =~= state_lines(self@.probe));
                lines
            },
            ProbeState::Missing(path) => {
                let mut lines: Vec<ReportLine> = Vec::new();
                lines.push(ReportLine::LabelValue(owned("Path"), path.clone()));
                lines.push(ReportLine::Note(owned("The file does not exist on disk.")));
                assert(line_views(lines@) =~= state_lines(self@.probe));
                lines
            },
            ProbeState::ProbeError(m) => {
                let mut lines: Vec<ReportLine> = Vec::new();
                lines.push(ReportLine::LabelValue(owned("Error"), m.clone()));
                assert(line_views(lines@) =~= state_lines(self@.probe));
                lines
            },
            ProbeState::Loaded(report) => report.to_lines(),
        }
    }

    /// Enter: the path the input names, handed back to be probed, and the
    /// input cleared; the state stays until the probe is applied.
    pub fn commit_input(&mut self) -> (r: Option<String>)
        ensures
            r.is_some() == crate::drop_paths::first_path(old(self)@.input).is_some(),
            r matches Some(p) ==> crate::drop_paths::first_path(old(self)@.input) == Some(p@),
            final(self)@.input.len() == 0,
            final(self)@.probe == old(self)@.probe,
    {
        let path = crate::drop_paths::parse_first_path(self.input.as_str());
        self.input = String::new();
        path
    }

    /// Backspace: the last character of the input removed, if any.
    pub fn pop_input(&mut self) -> (r: Option<String>)
        ensures
            final(self)@.input == (if old(self)@.input.len() > 0 {
                old(self)@.input.drop_last()
            } else {
                old(self)@.input
            }),
            synced(old(self)@.probe, final(self)@, r),
    {
        let v = chars_of(self.input.as_str());
        if v.len() > 0 {
            self.input = crate::text::string_from_range(&v, 0, v.len() - 1);
        }
        self.sync_input_preview()
    }

    /// A typed character appended to the input.
    pub fn push_input(&mut self, ch: char) -> (r: Option<String>)
        ensures
            final(self)@.input == old(self)@.input.push(ch),
            synced(old(self)@.probe, final(self)@, r),
    {
        crate::text::push_char(&mut self.input, ch);
        self.sync_input_preview()
    }

    /// A paste replaces the input.
    pub fn replace_input(&mut self, data: String) -> (r: Option<String>)
        ensures
            final(self)@.input == data@,
            synced(old(self)@.probe, final(self)@, r),
    {
        self.input = data;
        self.sync_input_preview()
    }

    /// What the probe of `path` found, recorded as the state.
    pub fn apply_probe(&mut self, path: &str, outcome: ProbeOutcome)
        ensures
            final(self)@.input == old(self)@.input,
            probe_state_from(final(self)@.probe, path@, outcome),
    {
        self.probe_state = ProbeState::from_outcome(path, outcome);
    }

    fn sync_input_preview(&mut self) -> (r: Option<String>)
        ensures
            final(self)@.input == old(self)@.input,
            synced(old(self)@.probe, final(self)@, r),
    {
        let path = crate::drop_paths::parse_first_path(self.input.as_str());
        if path.is_none() {
            self.probe_state = ProbeState::Waiting;
        }
        path
    }
}

/// Backspace takes back a typed character: the input is as before it was typed.
pub proof fn lemma_backspace_undoes_typing(input: Seq<char>, c: char)
    ensures
        ({
            let typed = input.push(c);
            (if typed.len() > 0 {
                typed.drop_last()
            } else {
                typed
            }) == input
        }),
{
    assert(input.push(c).drop_last() =~= input);
}


proof fn lemma_concat_contains(a: Seq<LineModel>, b: Seq<LineModel>, x: LineModel)
    ensures
        (a.contains(x) || b.contains(x)) ==> (a + b).contains(x),
{
    if a.contains(x) {
        let i = choose|i: int| 0 <= i < a.len() && a[i] == x;
        assert((a + b)[i] == x);
    } else if b.contains(x) {
        let i = choose|i: int| 0 <= i < b.len() && b[i] == x;
        assert((a + b)[a.len() + i] == x);
    }
}

proof fn lemma_bullet_present(label: Seq<char>, value: Seq<char>)
    ensures
        present(value) ==> bullet_if_present(label, value).contains(LineModel::Bullet(label, value)),
{
    if present(value) {
        assert(bullet_if_present(label, value)[0] == LineModel::Bullet(label, value));
    }
}

/// Every stream's lines carry each of its values that is present under that
/// value's own label: `id`, `profile`, `codec tag`, `duration`, `bit rate`,
/// `time base`, `start time` and `frames`.
pub proof fn lemma_stream_lines_carry_their_values(s: MediaStreamInfo)
    ensures
        present(s.stream_id@) ==> stream_lines(s).contains(LineModel::Bullet("id"@, s.stream_id@)),
        present(s.profile@) ==> stream_lines(s).contains(LineModel::Bullet("profile"@, s.profile@)),
        present(s.codec_tag@) ==> stream_lines(s).contains(LineModel::Bullet("codec tag"@, s.codec_tag@)),
        present(s.duration@) ==> stream_lines(s).contains(LineModel::Bullet("duration"@, s.duration@)),
        present(s.bit_rate@) ==> stream_lines(s).contains(LineModel::Bullet("bit rate"@, s.bit_rate@)),
        present(s.time_base@) ==> stream_lines(s).contains(LineModel::Bullet("time base"@, s.time_base@)),
        present(s.start_time@) ==> stream_lines(s).contains(LineModel::Bullet("start time"@, s.start_time@)),
        present(s.frame_count@) ==> stream_lines(s).contains(LineModel::Bullet("frames"@, s.frame_count@)),
{
    assert forall|a: Seq<LineModel>, b: Seq<LineModel>, x: LineModel|
        a.contains(x) || b.contains(x) implies #[trigger] (a + b).contains(x) by {
        lemma_concat_contains(a, b, x);
    }
    lemma_bullet_present("id"@, s.stream_id@);
    lemma_bullet_present("profile"@, s.profile@);
    lemma_bullet_present("codec tag"@, s.codec_tag@);
    lemma_bullet_present("duration"@, s.duration@);
    lemma_bullet_present("bit rate"@, s.bit_rate@);
    lemma_bullet_present("time base"@, s.time_base@);
    lemma_bullet_present("start time"@, s.start_time@);
    lemma_bullet_present("frames"@, s.frame_count@);
}

/// A video stream's lines carry each of its picture values that is present
/// under that value's own label.
pub proof fn lemma_video_lines_carry_their_values(s: MediaStreamInfo)
    requires
        s.codec_type@ == "video"@,
    ensures
        present(s.frame_rate@) ==> stream_lines(s).contains(LineModel::Bullet("frame rate"@, s.frame_rate@)),
        present(s.pixel_format@) ==> stream_lines(s).contains(LineModel::Bullet("pixel format"@, s.pixel_format@)),
        present(s.display_aspect_ratio@) ==> stream_lines(s).contains(LineModel::Bullet("display aspect"@, s.display_aspect_ratio@)),
        present(s.sample_aspect_ratio@) ==> stream_lines(s).contains(LineModel::Bullet("sample aspect"@, s.sample_aspect_ratio@)),
        present(s.field_order@) ==> stream_lines(s).contains(LineModel::Bullet("field order"@, s.field_order@)),
        present(s.level@) ==> stream_lines(s).contains(LineModel::Bullet("level"@, s.level@)),
        present(s.chroma_location@) ==> stream_lines(s).contains(LineModel::Bullet("chroma location"@, s.chroma_location@)),
        present(s.color_range@) ==> stream_lines(s).contains(LineModel::Bullet("color range"@, s.color_range@)),
        present(s.color_space@) ==> stream_lines(s).contains(LineModel::Bullet("color space"@, s.color_space@)),
        present(s.color_transfer@) ==> stream_lines(s).contains(LineModel::Bullet("color transfer"@, s.color_transfer@)),
        present(s.color_primaries@) ==> stream_lines(s).contains(LineModel::Bullet("color primaries"@, s.color_primaries@)),
{
    reveal_strlit("video");
    reveal_strlit("audio");
    assert forall|a: Seq<LineModel>, b: Seq<LineModel>, x: LineModel|
        a.contains(x) || b.contains(x) implies #[trigger] (a + b).contains(x) by {
        lemma_concat_contains(a, b, x);
    }
    lemma_bullet_present("frame rate"@, s.frame_rate@);
    lemma_bullet_present("pixel format"@, s.pixel_format@);
    lemma_bullet_present("display aspect"@, s.display_aspect_ratio@);
    lemma_bullet_present("sample aspect"@, s.sample_aspect_ratio@);
    lemma_bullet_present("field order"@, s.field_order@);
    lemma_bullet_present("level"@, s.level@);
    lemma_bullet_present("chroma location"@, s.chroma_location@);
    lemma_bullet_present("color range"@, s.color_range@);
    lemma_bullet_present("color space"@, s.color_space@);
    lemma_bullet_present("color transfer"@, s.color_transfer@);
    lemma_bullet_present("color primaries"@, s.color_primaries@);
}

/// An audio stream's lines carry each of its sound values that is present
/// under that value's own label: its sample rate under `sample rate`, its
/// channel count under `channels`, and so on.
pub proof fn lemma_audio_lines_carry_their_values(s: MediaStreamInfo)
    requires
        s.codec_type@ == "audio"@,
    ensures
        present(s.sample_format@) ==> stream_lines(s).contains(LineModel::Bullet("sample format"@, s.sample_format@)),
        present(s.sample_rate@) ==> stream_lines(s).contains(LineModel::Bullet("sample rate"@, s.sample_rate@)),
        present(s.channels@) ==> stream_lines(s).contains(LineModel::Bullet("channels"@, s.channels@)),
        present(s.channel_layout@) ==> stream_lines(s).contains(LineModel::Bullet("channel layout"@, s.channel_layout@)),
        present(s.bits_per_sample@) ==> stream_lines(s).contains(LineModel::Bullet("bits/sample"@, s.bits_per_sample@)),
{
    reveal_strlit("video");
    reveal_strlit("audio");
    assert forall|a: Seq<LineModel>, b: Seq<LineModel>, x: LineModel|
        a.contains(x) || b.contains(x) implies #[trigger] (a + b).contains(x) by {
        lemma_concat_contains(a, b, x);
    }
    lemma_bullet_present("sample format"@, s.sample_format@);
    lemma_bullet_present("sample rate"@, s.sample_rate@);
    lemma_bullet_present("channels"@, s.channels@);
    lemma_bullet_present("channel layout"@, s.channel_layout@);
    lemma_bullet_present("bits/sample"@, s.bits_per_sample@);
}

} // verus!

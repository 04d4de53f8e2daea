//! How the pages show a stream, a file name and a time in short text.
use vstd::prelude::*;

use crate::ffprobe_map::{signed_decimal, signed_decimal_string};
use crate::json_text::pair_views;
use crate::media_report::{MediaKeyValue, MediaStreamInfo};
use crate::tags::{first_where, lemma_first_where};
use crate::text::{
    after_last, ascii_lower, chars_of, decimal, decimal2, decimal2_string, decimal_string,
    find_char, first_index_of, join, join_strings, push_char, str_after_last, str_eq,
};

verus! {

// ── Streams ──────────────────────────────────────────────────────────────────

/// The kind of a stream as a title: `Video`, `Audio`, `Subtitle`, another
/// codec type as it is, or `Stream` when there is none.
pub open spec fn kind_title(codec_type: Seq<char>) -> Seq<char> {
    if codec_type == "video"@ {
        "Video"@
    } else if codec_type == "audio"@ {
        "Audio"@
    } else if codec_type == "subtitle"@ {
        "Subtitle"@
    } else if codec_type.len() > 0 {
        codec_type
    } else {
        "Stream"@
    }
}

/// `#<index> <kind>`, followed by ` — <codec>` when the codec is known.
pub open spec fn section_title(s: MediaStreamInfo) -> Seq<char> {
    let head = "#"@ + signed_decimal(s.index as int) + " "@ + kind_title(s.codec_type@);
    if s.codec_name@.len() == 0 {
        head
    } else {
        head + " — "@ + s.codec_name@
    }
}

/// `[part]` when `part` is not empty, else nothing.
pub open spec fn part_if(cond: bool, part: Seq<char>) -> Seq<Seq<char>> {
    if cond {
        seq![part]
    } else {
        Seq::empty()
    }
}

/// The value of the first `language` tag that has one.
pub open spec fn language_tag(tags: Seq<MediaKeyValue>) -> Option<Seq<char>> {
    let k = first_where(
        tags,
        |kv: MediaKeyValue| kv.key@ == "language"@ && kv.value@.len() > 0,
    );
    if k < tags.len() {
        Some(tags[k].value@)
    } else {
        None
    }
}

/// The parts of a stream's summary line, by its kind.
pub open spec fn summary_line_parts(s: MediaStreamInfo) -> Seq<Seq<char>> {
    if s.codec_type@ == "video"@ {
        part_if(s.width@.len() > 0 && s.height@.len() > 0, s.width@ + "x"@ + s.height@) + part_if(
            s.frame_rate@.len() > 0,
            s.frame_rate@,
        ) + part_if(s.pixel_format@.len() > 0, s.pixel_format@)
    } else if s.codec_type@ == "audio"@ {
        part_if(s.channel_layout@.len() > 0, s.channel_layout@) + part_if(
            s.sample_rate@.len() > 0,
            s.sample_rate@ + " Hz"@,
        ) + if s.codec_name@.len() > 0 && s.sample_format@.len() == 0 {
            seq![s.codec_name@]
        } else {
            part_if(s.sample_format@.len() > 0, s.sample_format@)
        }
    } else if s.codec_type@ == "subtitle"@ {
        part_if(s.codec_name@.len() > 0, s.codec_name@) + match language_tag(s.tags@) {
            Some(l) => seq![l],
            None => Seq::empty(),
        }
    } else {
        Seq::empty()
    }
}

/// The one-line summary of a stream: its parts joined by ` • `.
pub open spec fn summary_line(s: MediaStreamInfo) -> Seq<char> {
    join(summary_line_parts(s), " • "@)
}

/// `stream_section_title`: `#<index> <kind>`, and ` — <codec>` when known.
pub fn stream_section_title(stream: &MediaStreamInfo) -> (r: String)
    ensures
        r@ == section_title(*stream),
{
    let t = stream.codec_type.as_str();
    let kind: String = if str_eq(t, "video") {
        "Video".to_string()
    } else if str_eq(t, "audio") {
        "Audio".to_string()
    } else if str_eq(t, "subtitle") {
        "Subtitle".to_string()
    } else if !t.is_empty() {
        t.to_string()
    } else {
        "Stream".to_string()
    };
    let mut r = "#".to_string();
    r.append(signed_decimal_string(stream.index).as_str());
    r.append(" ");
    r.append(kind.as_str());
    if !stream.codec_name.as_str().is_empty() {
        r.append(" — ");
        r.append(stream.codec_name.as_str());
    }
    r
}

fn push_part(parts: &mut Vec<String>, cond: bool, part: String)
    ensures
        final(parts)@.map_values(|x: String| x@) == old(parts)@.map_values(|x: String| x@)
            + part_if(cond, part@),
{
    let ghost before = parts@.map_values(|x: String| x@);
    if cond {
        parts.push(part);
        assert(parts@.map_values(|x: String| x@) =~= before + part_if(cond, part@));
    } else {
        assert(parts@.map_values(|x: String| x@) =~= before + part_if(cond, part@));
    }
}

fn find_language(tags: &Vec<MediaKeyValue>) -> (r: Option<String>)
    ensures
        r.is_some() == language_tag(tags@).is_some(),
        r matches Some(v) ==> language_tag(tags@) == Some(v@),
{
    let ghost p = |kv: MediaKeyValue| kv.key@ == "language"@ && kv.value@.len() > 0;
    let mut i: usize = 0;
    while i < tags.len()
        invariant
            p == (|kv: MediaKeyValue| kv.key@ == "language"@ && kv.value@.len() > 0),
            i <= tags@.len(),
            forall|j: int| 0 <= j < i ==> !p(#[trigger] tags@[j]),
        decreases tags@.len() - i,
    {
        if str_eq(tags[i].key.as_str(), "language") && !tags[i].value.as_str().is_empty() {
            proof {
                lemma_first_where(tags@, p, i as int);
            }
            return Some(tags[i].value.clone());
        }
        i = i + 1;
    }
    proof {
        lemma_first_where(tags@, p, i as int);
    }
    None
}

/// The stream's main values by its kind, joined by ` • `.
pub fn stream_summary(stream: &MediaStreamInfo) -> (r: String)
    ensures
        r@ == summary_line(*stream),
{
    let t = stream.codec_type.as_str();
    let mut parts: Vec<String> = Vec::new();
    assert(parts@.map_values(|x: String| x@) =~= Seq::<Seq<char>>::empty());
    if str_eq(t, "video") {
        let mut size = stream.width.clone();
        size.append("x");
        size.append(stream.height.as_str());
        push_part(
            &mut parts,
            !stream.width.as_str().is_empty() && !stream.height.as_str().is_empty(),
            size,
        );
        push_part(&mut parts, !stream.frame_rate.as_str().is_empty(), stream.frame_rate.clone());
        push_part(
            &mut parts,
            !stream.pixel_format.as_str().is_empty(),
            stream.pixel_format.clone(),
        );
        assert(parts@.map_values(|x: String| x@) =~= summary_line_parts(*stream));
    } else if str_eq(t, "audio") {
        push_part(
            &mut parts,
            !stream.channel_layout.as_str().is_empty(),
            stream.channel_layout.clone(),
        );
        let mut rate = stream.sample_rate.clone();
        rate.append(" Hz");
        push_part(&mut parts, !stream.sample_rate.as_str().is_empty(), rate);
        if !stream.codec_name.as_str().is_empty() && stream.sample_format.as_str().is_empty() {
            push_part(&mut parts, true, stream.codec_name.clone());
        } else {
            push_part(
                &mut parts,
                !stream.sample_format.as_str().is_empty(),
                stream.sample_format.clone(),
            );
        }
        assert(parts@.map_values(|x: String| x@) =~= summary_line_parts(*stream));
    } else if str_eq(t, "subtitle") {
        push_part(&mut parts, !stream.codec_name.as_str().is_empty(), stream.codec_name.clone());
        match find_language(&stream.tags) {
            Some(l) => push_part(&mut parts, true, l),
            None => {},
        }
        assert(parts@.map_values(|x: String| x@) =~= summary_line_parts(*stream));
    }
    join_strings(&parts, " • ")
}

// ── File names ───────────────────────────────────────────────────────────────

/// `file_extension`: the text after the last `.`, in ASCII lower case, or
/// `unknown` when there is no `.` or nothing after it.
pub open spec fn extension_label(file_name: Seq<char>) -> Seq<char> {
    if first_index_of(file_name, '.') < file_name.len() && after_last(file_name, '.').len() > 0 {
        after_last(file_name, '.').map_values(|c: char| ascii_lower(c))
    } else {
        "unknown"@
    }
}

/// `file_extension`: see `extension_label`.
pub fn file_extension(file_name: &str) -> (r: String)
    ensures
        r@ == extension_label(file_name@),
{
    let v = chars_of(file_name);
    let dot = find_char(&v, '.');
    let ext = str_after_last(file_name, '.');
    if dot >= v.len() || ext.as_str().is_empty() {
        return "unknown".to_string();
    }
    let e = chars_of(ext.as_str());
    let mut r = String::new();
    let mut i: usize = 0;
    while i < e.len()
        invariant
            i <= e@.len(),
            r@ == e@.take(i as int).map_values(|c: char| ascii_lower(c)),
        decreases e@.len() - i,
    {
        let c = e[i];
        let lower = if 'A' <= c && c <= 'Z' {
            ((c as u32) + 32) as u8 as char
        } else {
            c
        };
        push_char(&mut r, lower);
        i = i + 1;
        assert(r@ =~= e@.take(i as int).map_values(|c: char| ascii_lower(c)));
    }
    assert(e@.take(e@.len() as int) =~= e@);
    r
}

// ── Times ────────────────────────────────────────────────────────────────────

/// Decimal notation of `n` padded with zeros to at least three digits (`{:03}`).
pub open spec fn decimal3(n: nat) -> Seq<char> {
    if n < 10 {
        "00"@ + decimal(n)
    } else if n < 100 {
        "0"@ + decimal(n)
    } else {
        decimal(n)
    }
}

/// A time in whole milliseconds as `<mm>:<ss>.<mmm>`.
pub open spec fn clock_ms_text(total_ms: nat) -> Seq<char> {
    decimal2(total_ms / 60_000) + ":"@ + decimal2((total_ms % 60_000) / 1000) + "."@ + decimal3(
        total_ms % 1000,
    )
}

/// A time in seconds as `<hh>:<mm>:<ss>`, or `<mm>:<ss>` under an hour
/// (`format_duration`, past the rounding to whole seconds).
pub open spec fn clock_secs_text(total: nat) -> Seq<char> {
    let h = total / 3600;
    let m = (total % 3600) / 60;
    let s = total % 60;
    if h > 0 {
        decimal2(h) + ":"@ + decimal2(m) + ":"@ + decimal2(s)
    } else {
        decimal2(m) + ":"@ + decimal2(s)
    }
}

fn decimal3_string(n: u64) -> (r: String)
    ensures
        r@ == decimal3(n as nat),
{
    let mut r = String::new();
    if n < 10 {
        r.append("00");
    } else if n < 100 {
        r.append("0");
    }
    r.append(decimal_string(n).as_str());
    r
}

/// A time in whole milliseconds as `<mm>:<ss>.<mmm>`.
pub fn clock_from_ms(total_ms: u64) -> (r: String)
    ensures
        r@ == clock_ms_text(total_ms as nat),
{
    let mut r = decimal2_string(total_ms / 60_000);
    r.append(":");
    r.append(decimal2_string((total_ms % 60_000) / 1000).as_str());
    r.append(".");
    r.append(decimal3_string(total_ms % 1000).as_str());
    r
}

/// A time in whole seconds as `<hh>:<mm>:<ss>`, or `<mm>:<ss>` under an hour.
pub fn clock_from_secs(total: u64) -> (r: String)
    ensures
        r@ == clock_secs_text(total as nat),
{
    let h = total / 3600;
    let m = (total % 3600) / 60;
    let s = total % 60;
    let mut r = String::new();
    if h > 0 {
        r.append(decimal2_string(h).as_str());
        r.append(":");
    }
    r.append(decimal2_string(m).as_str());
    r.append(":");
    r.append(decimal2_string(s).as_str());
    r
}

/// The extension shown for a file name has no upper-case ASCII letter.
pub proof fn lemma_extension_is_lower_case(file_name: Seq<char>)
    ensures
        forall|i: int|
            0 <= i < extension_label(file_name).len() ==> !('A' <= #[trigger] extension_label(
                file_name,
            )[i] && extension_label(file_name)[i] <= 'Z'),
{
    reveal_strlit("unknown");
}

// ── Badges ───────────────────────────────────────────────────────────────────

/// The look of a badge.
#[derive(Clone, Copy, Debug, PartialEq, Eq, Default)]
pub enum BadgeVariant {
    #[default]
    Default,
    Secondary,
    Muted,
    Destructive,
    Outline,
    Success,
}

/// The style classes of each badge look.
pub open spec fn badge_classes(v: BadgeVariant) -> Seq<char> {
    match v {
        BadgeVariant::Default => "border-transparent shadow bg-primary text-primary-foreground hover:bg-primary/80"@,
        BadgeVariant::Secondary => "border-transparent bg-secondary text-secondary-foreground hover:bg-secondary/80"@,
        BadgeVariant::Muted => "border-transparent bg-muted text-muted-foreground hover:bg-muted/80"@,
        BadgeVariant::Destructive => "border-transparent shadow bg-destructive text-destructive-foreground hover:bg-destructive/80"@,
        BadgeVariant::Outline => "text-foreground"@,
        BadgeVariant::Success => "border-transparent bg-green-100 text-green-800 hover:bg-green-100/80"@,
    }
}

impl BadgeVariant {
    /// The style classes of the look.
    pub fn as_str(&self) -> (r: &'static str)
        ensures
            r@ == badge_classes(*self),
    {
        match self {
            BadgeVariant::Default => "border-transparent shadow bg-primary text-primary-foreground hover:bg-primary/80",
            BadgeVariant::Secondary => "border-transparent bg-secondary text-secondary-foreground hover:bg-secondary/80",
            BadgeVariant::Muted => "border-transparent bg-muted text-muted-foreground hover:bg-muted/80",
            BadgeVariant::Destructive => "border-transparent shadow bg-destructive text-destructive-foreground hover:bg-destructive/80",
            BadgeVariant::Outline => "text-foreground",
            BadgeVariant::Success => "border-transparent bg-green-100 text-green-800 hover:bg-green-100/80",
        }
    }
}


// ── The rows of a stream's section ───────────────────────────────────────────

/// A row for the value, or nothing when the value is empty.
pub open spec fn row_if(label: Seq<char>, value: Seq<char>) -> Seq<(Seq<char>, Seq<char>)> {
    if value.len() > 0 {
        seq![(label, value)]
    } else {
        Seq::empty()
    }
}

/// A video stream's size: `<width>x<height> (coded <width>x<height>)`.
pub open spec fn size_text(s: MediaStreamInfo) -> Seq<char> {
    s.width@ + "x"@ + s.height@ + " (coded "@ + s.coded_width@ + "x"@ + s.coded_height@ + ")"@
}

/// The rows every stream has a place for, in order.
pub open spec fn common_rows(s: MediaStreamInfo) -> Seq<(Seq<char>, Seq<char>)> {
    row_if("Codec"@, s.codec_long_name@) + row_if("Profile"@, s.profile@) + row_if("Codec tag"@, s.codec_tag@) + row_if("Duration"@, s.duration@) + row_if("Bit rate"@, s.bit_rate@) + row_if("Max bit rate"@, s.max_bit_rate@) + row_if("Frame count"@, s.frame_count@) + row_if("Nb read frames"@, s.nb_read_frames@)
}

/// The rows of a video stream, in order: its size (always shown), then its
/// picture, color and coding rows.
pub open spec fn video_rows(s: MediaStreamInfo) -> Seq<(Seq<char>, Seq<char>)> {
    seq![("Size"@, size_text(s))] + video_picture_rows(s) + video_color_rows(s) + video_coding_rows(s)
}

/// The aspect, frame-rate and picture rows of a video stream, in order.
pub open spec fn video_picture_rows(s: MediaStreamInfo) -> Seq<(Seq<char>, Seq<char>)> {
    row_if("DAR"@, s.display_aspect_ratio@) + row_if("SAR"@, s.sample_aspect_ratio@) + row_if("Frame rate"@, s.frame_rate@) + row_if("Avg frame rate"@, s.avg_frame_rate@) + row_if("R frame rate"@, s.r_frame_rate@) + row_if("Pixel format"@, s.pixel_format@) + row_if("Bits/raw sample"@, s.bits_per_raw_sample@) + row_if("Level"@, s.level@) + row_if("Field order"@, s.field_order@)
}

/// The color rows of a video stream, in order.
pub open spec fn video_color_rows(s: MediaStreamInfo) -> Seq<(Seq<char>, Seq<char>)> {
    row_if("Chroma location"@, s.chroma_location@) + row_if("Color range"@, s.color_range@) + row_if("Color space"@, s.color_space@) + row_if("Color transfer"@, s.color_transfer@) + row_if("Color primaries"@, s.color_primaries@)
}

/// The coding rows of a video stream, in order.
pub open spec fn video_coding_rows(s: MediaStreamInfo) -> Seq<(Seq<char>, Seq<char>)> {
    row_if("Has B-frames"@, s.has_b_frames@) + row_if("Refs"@, s.refs@) + row_if("Is AVC"@, s.is_avc@) + row_if("NAL length size"@, s.nal_length_size@) + row_if("Codec time base"@, s.codec_time_base@) + row_if("Extradata size"@, s.extradata_size@) + row_if("Closed captions"@, s.closed_captions@)
}

/// The rows of an audio stream, in order.
pub open spec fn audio_rows(s: MediaStreamInfo) -> Seq<(Seq<char>, Seq<char>)> {
    row_if("Sample rate"@, s.sample_rate@) + row_if("Channels"@, s.channels@) + row_if("Channel layout"@, s.channel_layout@) + row_if("Sample format"@, s.sample_format@) + row_if("Bits/sample"@, s.bits_per_sample@) + row_if("Bits/raw sample"@, s.bits_per_raw_sample@) + row_if("Initial padding"@, s.initial_padding@)
}

/// The rows that close every stream's section, in order.
pub open spec fn closing_rows(s: MediaStreamInfo) -> Seq<(Seq<char>, Seq<char>)> {
    row_if("Time base"@, s.time_base@) + row_if("Start time"@, s.start_time@) + row_if("Stream ID"@, s.stream_id@)
}

/// The rows of a stream's section: the common ones, those of its kind (video
/// or audio), and the closing ones, each only when its value is not empty.
pub open spec fn section_rows(s: MediaStreamInfo) -> Seq<(Seq<char>, Seq<char>)> {
    common_rows(s) + (if s.codec_type@ == "video"@ {
        video_rows(s)
    } else if s.codec_type@ == "audio"@ {
        audio_rows(s)
    } else {
        Seq::empty()
    }) + closing_rows(s)
}

/// Appends a row for the value unless it is empty.
fn push_row(rows: &mut Vec<MediaKeyValue>, label: &str, value: &str)
    ensures
        pair_views(final(rows)@) == pair_views(old(rows)@) + row_if(label@, value@),
{
    let ghost before = rows@;
    if !value.is_empty() {
        rows.push(MediaKeyValue { key: label.to_string(), value: value.to_string() });
        assert(pair_views(rows@) =~= pair_views(before) + row_if(label@, value@));
    } else {
        assert(pair_views(rows@) =~= pair_views(before) + row_if(label@, value@));
    }
}

fn push_common_rows(rows: &mut Vec<MediaKeyValue>, s: &MediaStreamInfo)
    ensures
        pair_views(final(rows)@) == pair_views(old(rows)@) + common_rows(*s),
{
    let ghost start = pair_views(rows@);
    push_row(rows, "Codec", s.codec_long_name.as_str());
    push_row(rows, "Profile", s.profile.as_str());
    push_row(rows, "Codec tag", s.codec_tag.as_str());
    push_row(rows, "Duration", s.duration.as_str());
    push_row(rows, "Bit rate", s.bit_rate.as_str());
    push_row(rows, "Max bit rate", s.max_bit_rate.as_str());
    push_row(rows, "Frame count", s.frame_count.as_str());
    push_row(rows, "Nb read frames", s.nb_read_frames.as_str());
    assert(pair_views(rows@) =~= start + common_rows(*s));
}

fn push_video_rows(rows: &mut Vec<MediaKeyValue>, s: &MediaStreamInfo)
    ensures
        pair_views(final(rows)@) == pair_views(old(rows)@) + video_rows(*s),
{
    let ghost start = pair_views(rows@);
    let mut size = s.width.clone();
    size.append("x");
    size.append(s.height.as_str());
    size.append(" (coded ");
    size.append(s.coded_width.as_str());
    size.append("x");
    size.append(s.coded_height.as_str());
    size.append(")");
    rows.push(MediaKeyValue { key: "Size".to_string(), value: size });
    assert(pair_views(rows@) =~= start + seq![("Size"@, size_text(*s))]);
    push_video_picture_rows(rows, s);
    push_video_color_rows(rows, s);
    push_video_coding_rows(rows, s);
    assert(pair_views(rows@) =~= start + video_rows(*s));
}

fn push_video_picture_rows(rows: &mut Vec<MediaKeyValue>, s: &MediaStreamInfo)
    ensures
        pair_views(final(rows)@) == pair_views(old(rows)@) + video_picture_rows(*s),
{
    let ghost start = pair_views(rows@);
    push_row(rows, "DAR", s.display_aspect_ratio.as_str());
    push_row(rows, "SAR", s.sample_aspect_ratio.as_str());
    push_row(rows, "Frame rate", s.frame_rate.as_str());
    push_row(rows, "Avg frame rate", s.avg_frame_rate.as_str());
    push_row(rows, "R frame rate", s.r_frame_rate.as_str());
    push_row(rows, "Pixel format", s.pixel_format.as_str());
    push_row(rows, "Bits/raw sample", s.bits_per_raw_sample.as_str());
    push_row(rows, "Level", s.level.as_str());
    push_row(rows, "Field order", s.field_order.as_str());
    assert(pair_views(rows@) =~= start + video_picture_rows(*s));
}

fn push_video_color_rows(rows: &mut Vec<MediaKeyValue>, s: &MediaStreamInfo)
    ensures
        pair_views(final(rows)@) == pair_views(old(rows)@) + video_color_rows(*s),
{
    let ghost start = pair_views(rows@);
    push_row(rows, "Chroma location", s.chroma_location.as_str());
    push_row(rows, "Color range", s.color_range.as_str());
    push_row(rows, "Color space", s.color_space.as_str());
    push_row(rows, "Color transfer", s.color_transfer.as_str());
    push_row(rows, "Color primaries", s.color_primaries.as_str());
    assert(pair_views(rows@) =~= start + video_color_rows(*s));
}

fn push_video_coding_rows(rows: &mut Vec<MediaKeyValue>, s: &MediaStreamInfo)
    ensures
        pair_views(final(rows)@) == pair_views(old(rows)@) + video_coding_rows(*s),
{
    let ghost start = pair_views(rows@);
    push_row(rows, "Has B-frames", s.has_b_frames.as_str());
    push_row(rows, "Refs", s.refs.as_str());
    push_row(rows, "Is AVC", s.is_avc.as_str());
    push_row(rows, "NAL length size", s.nal_length_size.as_str());
    push_row(rows, "Codec time base", s.codec_time_base.as_str());
    push_row(rows, "Extradata size", s.extradata_size.as_str());
    push_row(rows, "Closed captions", s.closed_captions.as_str());
    assert(pair_views(rows@) =~= start + video_coding_rows(*s));
}

fn push_audio_rows(rows: &mut Vec<MediaKeyValue>, s: &MediaStreamInfo)
    ensures
        pair_views(final(rows)@) == pair_views(old(rows)@) + audio_rows(*s),
{
    let ghost start = pair_views(rows@);
    push_row(rows, "Sample rate", s.sample_rate.as_str());
    push_row(rows, "Channels", s.channels.as_str());
    push_row(rows, "Channel layout", s.channel_layout.as_str());
    push_row(rows, "Sample format", s.sample_format.as_str());
    push_row(rows, "Bits/sample", s.bits_per_sample.as_str());
    push_row(rows, "Bits/raw sample", s.bits_per_raw_sample.as_str());
    push_row(rows, "Initial padding", s.initial_padding.as_str());
    assert(pair_views(rows@) =~= start + audio_rows(*s));
}

fn push_closing_rows(rows: &mut Vec<MediaKeyValue>, s: &MediaStreamInfo)
    ensures
        pair_views(final(rows)@) == pair_views(old(rows)@) + closing_rows(*s),
{
    let ghost start = pair_views(rows@);
    push_row(rows, "Time base", s.time_base.as_str());
    push_row(rows, "Start time", s.start_time.as_str());
    push_row(rows, "Stream ID", s.stream_id.as_str());
    assert(pair_views(rows@) =~= start + closing_rows(*s));
}

/// The rows of a stream's section, as label and value, with empty values
/// left out.
pub fn stream_rows(stream: &MediaStreamInfo) -> (r: Vec<MediaKeyValue>)
    ensures
        pair_views(r@) == section_rows(*stream),
{
    let mut rows: Vec<MediaKeyValue> = Vec::new();
    assert(pair_views(rows@) =~= Seq::<(Seq<char>, Seq<char>)>::empty());
    push_common_rows(&mut rows, stream);
    let ghost mid = pair_views(rows@);
    if str_eq(stream.codec_type.as_str(), "video") {
        push_video_rows(&mut rows, stream);
    } else if str_eq(stream.codec_type.as_str(), "audio") {
        push_audio_rows(&mut rows, stream);
    } else {
        assert(pair_views(rows@) =~= mid + Seq::<(Seq<char>, Seq<char>)>::empty());
    }
    push_closing_rows(&mut rows, stream);
    assert(pair_views(rows@) =~= section_rows(*stream));
    rows
}

/// The dispositions a section shows: those whose value is not `0`, in order.
pub open spec fn shown_dispositions(d: Seq<MediaKeyValue>) -> Seq<(Seq<char>, Seq<char>)>
    decreases d.len(),
{
    if d.len() == 0 {
        Seq::empty()
    } else {
        shown_dispositions(d.drop_last()) + if d.last().value@ != "0"@ {
            seq![(d.last().key@, d.last().value@)]
        } else {
            Seq::empty()
        }
    }
}

/// The dispositions a stream's section shows, in order.
pub fn disposition_rows(stream: &MediaStreamInfo) -> (r: Vec<MediaKeyValue>)
    ensures
        pair_views(r@) == shown_dispositions(stream.disposition@),
{
    let d = &stream.disposition;
    let mut rows: Vec<MediaKeyValue> = Vec::new();
    let mut i: usize = 0;
    while i < d.len()
        invariant
            i <= d@.len(),
            pair_views(rows@) == shown_dispositions(d@.take(i as int)),
        decreases d@.len() - i,
    {
        assert(d@.take(i + 1).drop_last() =~= d@.take(i as int));
        let ghost before = rows@;
        if !str_eq(d[i].value.as_str(), "0") {
            rows.push(MediaKeyValue { key: d[i].key.clone(), value: d[i].value.clone() });
            assert(pair_views(rows@) =~= pair_views(before) + seq![(d@[i as int].key@, d@[i as int].value@)]);
        }
        i = i + 1;
    }
    assert(d@.take(d@.len() as int) =~= d@);
    rows
}

// ── The signed-in user ───────────────────────────────────────────────────────

/// The result of `char::to_uppercase` on `c`, collected into a text: its
/// Unicode upper-case mapping.
pub uninterp spec fn char_uppercase(c: char) -> Seq<char>;

/// `char::to_uppercase`, collected into a `String`. The contract names the
/// result `char_uppercase` and states it on ASCII, where `a`–`z` map to
/// `A`–`Z` and every other character maps to itself; std's Unicode case
/// tables for the rest are not restated.
#[verifier::external_body]
fn uppercase_of(c: char) -> (r: String)
    ensures
        r@ == char_uppercase(c),
        'a' <= c <= 'z' ==> r@ == seq![((c as u32) - 32) as char],
        (c as u32) < 128 && !('a' <= c <= 'z') ==> r@ == seq![c],
{
    c.to_uppercase().to_string()
}

/// The initial shown for a user: the first character of the e-mail address
/// in upper case, or `?` for an empty address.
pub open spec fn initial_text(email: Seq<char>) -> Seq<char> {
    if email.len() == 0 {
        "?"@
    } else {
        char_uppercase(email[0])
    }
}

/// The initial shown for a user in the side navigation.
pub fn user_initial(email: &str) -> (r: String)
    ensures
        r@ == initial_text(email@),
{
    let chars = chars_of(email);
    if chars.len() == 0 {
        "?".to_string()
    } else {
        uppercase_of(chars[0])
    }
}

} // verus!

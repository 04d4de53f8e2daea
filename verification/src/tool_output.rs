//! What the report takes from the text that ffmpeg prints (the EBU R128
//! loudness summary, the scene cuts of `showinfo`) and from mediainfo's JSON.
use vstd::prelude::*;

use crate::drop_paths::{lines, split_lines};
use crate::json_text::{
    JsonValue, json_as_string, json_error_of, json_get, json_tree_of, member, parse_json_text,
    string_of,
};
use crate::media_report::{LoudnessReport, MediaInfoReport};
use crate::tags::{first_where, lemma_first_where, lemma_first_where_bounds};
use crate::text::{
    before_first, chars_occur_at, find_char, find_chars, first_index_of, first_occurrence,
    has_prefix, is_whitespace, is_ws, lemma_first_occurrence_bounds, occurs_at, skip_whitespace, string_from_range, trim,
    trim_bounds, trim_start,
};

verus! {

// ── Words and fields of a line ───────────────────────────────────────────────

/// The first whitespace-separated word of `s` (`split_whitespace().next()`),
/// empty when `s` is blank.
pub open spec fn first_word(s: Seq<char>) -> Seq<char> {
    let t = trim_start(s);
    t.take(first_where(t, |c: char| is_ws(c)))
}

/// The second `c`-separated piece of `l` (`l.split(c).nth(1)`).
pub open spec fn second_piece(l: Seq<char>, c: char) -> Option<Seq<char>> {
    let i = first_index_of(l, c);
    if i < l.len() {
        Some(before_first(l.skip(i + 1), c))
    } else {
        None
    }
}

/// The end of the word that starts at `from`: the first whitespace at or
/// after it, or `to`.
fn word_end(v: &Vec<char>, from: usize, to: usize) -> (k: usize)
    requires
        from <= to <= v@.len(),
    ensures
        from <= k <= to,
        k - from == first_where(v@.subrange(from as int, to as int), |c: char| is_ws(c)),
{
    let ghost t = v@.subrange(from as int, to as int);
    let ghost p = |c: char| is_ws(c);
    let mut k: usize = from;
    while k < to && !is_whitespace(v[k])
        invariant
            from <= k <= to <= v@.len(),
            t == v@.subrange(from as int, to as int),
            p == (|c: char| is_ws(c)),
            forall|j: int| 0 <= j < k - from ==> !p(#[trigger] t[j]),
        decreases to - k,
    {
        assert(t[k - from] == v@[k as int]);
        k = k + 1;
    }
    proof {
        if k < to {
            assert(t[k - from] == v@[k as int]);
        }
        lemma_first_where(t, p, k - from);
    }
    k
}

/// The first word of `v[from..to]`, as a `String`.
fn first_word_in(v: &Vec<char>, from: usize, to: usize) -> (r: String)
    requires
        from <= to <= v@.len(),
    ensures
        r@ == first_word(v@.subrange(from as int, to as int)),
{
    let ghost s = v@.subrange(from as int, to as int);
    let sub: Vec<char> = slice_chars(v, from, to);
    let i = skip_whitespace(&sub, 0);
    assert(sub@.subrange(0, sub@.len() as int) =~= s);
    let e = word_end(&sub, i, sub.len());
    let r = string_from_range(&sub, i, e);
    proof {
        let t = trim_start(s);
        assert(t =~= sub@.subrange(i as int, sub@.len() as int));
        assert(r@ =~= t.take(e - i));
    }
    r
}

/// `v[from..to]` as a new vector.
fn slice_chars(v: &Vec<char>, from: usize, to: usize) -> (r: Vec<char>)
    requires
        from <= to <= v@.len(),
    ensures
        r@ == v@.subrange(from as int, to as int),
{
    let mut r: Vec<char> = Vec::new();
    let mut i: usize = from;
    while i < to
        invariant
            from <= i <= to <= v@.len(),
            r@ == v@.subrange(from as int, i as int),
        decreases to - i,
    {
        r.push(v[i]);
        i = i + 1;
        assert(r@ =~= v@.subrange(from as int, i as int));
    }
    r
}

// ── EBU R128 loudness summary ────────────────────────────────────────────────

/// The line of ffmpeg's output that starts, past its indentation, with
/// `label`; the value is the first word of the text between its first and
/// second `:`. Empty when there is no such line or value.
pub open spec fn summary_value(out: Seq<char>, label: Seq<char>) -> Seq<char> {
    let ls = lines(out);
    let k = first_where(ls, |l: Seq<char>| has_prefix(trim_start(l), label));
    if k < ls.len() {
        match second_piece(ls[k], ':') {
            Some(v) => first_word(trim(v)),
            None => Seq::empty(),
        }
    } else {
        Seq::empty()
    }
}

/// The loudness report when the summary has an integrated loudness.
pub open spec fn loudness_summary_ok(out: Seq<char>, r: LoudnessReport) -> bool {
    &&& r.integrated_lufs@ == summary_value(out, "I:"@)
    &&& r.integrated_threshold@ == summary_value(out, "Threshold:"@)
    &&& r.lra_lu@ == summary_value(out, "LRA:"@)
    &&& r.lra_low@ == summary_value(out, "LRA low:"@)
    &&& r.lra_high@ == summary_value(out, "LRA high:"@)
    &&& r.true_peak_dbtp@ == summary_value(out, "Peak:"@)
}

/// The value of one field of a line: the first word between its first and
/// second `:`, or empty.
fn line_value(l: &Vec<char>) -> (r: String)
    ensures
        r@ == (match second_piece(l@, ':') {
            Some(v) => first_word(trim(v)),
            None => Seq::empty(),
        }),
{
    let i = find_char(l, ':');
    if i >= l.len() {
        return String::new();
    }
    let rest = slice_chars(l, i + 1, l.len());
    let j = find_char(&rest, ':');
    let piece = slice_chars(&rest, 0, j);
    let (a, b) = trim_bounds(&piece);
    let r = first_word_in(&piece, a, b);
    proof {
        assert(rest@ =~= l@.skip(i + 1));
        assert(piece@ =~= before_first(l@.skip(i + 1), ':'));
    }
    r
}

/// `extract(label)` of the R128 summary, on the lines of `text`.
fn summary_field(out: &Vec<Vec<char>>, label: &str, Ghost(text): Ghost<Seq<char>>) -> (r: String)
    requires
        out@.map_values(|l: Vec<char>| l@) == lines(text),
    ensures
        r@ == summary_value(text, label@),
{
    let lv = crate::text::chars_of(label);
    let ghost ls = out@.map_values(|l: Vec<char>| l@);
    let ghost p = |l: Seq<char>| has_prefix(trim_start(l), label@);
    let mut k: usize = 0;
    while k < out.len()
        invariant
            lv@ == label@,
            ls == out@.map_values(|l: Vec<char>| l@),
            ls == lines(text),
            p == (|l: Seq<char>| has_prefix(trim_start(l), label@)),
            k <= out@.len(),
            forall|j: int| 0 <= j < k ==> !p(#[trigger] ls[j]),
        decreases out@.len() - k,
    {
        let line = &out[k];
        let s = skip_whitespace(line, 0);
        let hit = chars_occur_at(line, &lv, s);
        proof {
            assert(line@.subrange(0, line@.len() as int) =~= line@);
            let t = trim_start(line@);
            assert(t =~= line@.subrange(s as int, line@.len() as int));
            if lv@.len() <= t.len() {
                assert(t.subrange(0, lv@.len() as int) =~= line@.subrange(
                    s as int,
                    s + lv@.len(),
                ));
            }
            assert(ls[k as int] == line@);
            assert(hit == p(ls[k as int]));
        }
        if hit {
            proof {
                lemma_first_where(ls, p, k as int);
            }
            let r = line_value(line);
            assert(ls[k as int] == line@);
            return r;
        }
        k = k + 1;
    }
    proof {
        lemma_first_where(ls, p, k as int);
    }
    String::new()
}

/// `parse_ebur128_summary`: the R128 summary of ffmpeg's output, when it has
/// an integrated loudness.
pub fn parse_ebur128_summary(stderr: &str) -> (r: Option<LoudnessReport>)
    ensures
        r.is_some() == (summary_value(stderr@, "I:"@).len() > 0),
        r matches Some(report) ==> loudness_summary_ok(stderr@, report),
{
    let v = crate::text::chars_of(stderr);
    let out = split_lines(&v);
    let integrated = summary_field(&out, "I:", Ghost(stderr@));
    if integrated.as_str().is_empty() {
        return None;
    }
    Some(
        LoudnessReport {
            integrated_lufs: integrated,
            integrated_threshold: summary_field(&out, "Threshold:", Ghost(stderr@)),
            lra_lu: summary_field(&out, "LRA:", Ghost(stderr@)),
            lra_low: summary_field(&out, "LRA low:", Ghost(stderr@)),
            lra_high: summary_field(&out, "LRA high:", Ghost(stderr@)),
            true_peak_dbtp: summary_field(&out, "Peak:", Ghost(stderr@)),
        },
    )
}

/// How a run of an outside tool went, as far as the caller needs it.
pub enum ToolRun {
    /// The tool could not be started; `not_found` when no such program exists,
    /// `detail` the system's error text.
    LaunchFailed { not_found: bool, detail: String },
    /// The tool ran; `success` is its exit status, and its output as text.
    Finished { success: bool, stdout: String, stderr: String },
}

/// The message for a tool that could not be started.
pub open spec fn launch_message(
    not_found: bool,
    tool: Seq<char>,
    purpose: Seq<char>,
    bin: Seq<char>,
    detail: Seq<char>,
) -> Seq<char> {
    if not_found {
        tool + " not found (bin: "@ + bin + ")"@
    } else {
        "failed to launch "@ + tool + purpose + ": "@ + detail
    }
}

/// What a loudness measurement gives for a run of ffmpeg's `ebur128` filter:
/// the summary it printed, whatever the exit status, or why there is none.
pub open spec fn loudness_outcome(bin: Seq<char>, run: ToolRun, r: Result<LoudnessReport, String>) -> bool {
    match run {
        ToolRun::LaunchFailed { not_found, detail } => r matches Err(m) && m@ == launch_message(
            not_found,
            "ffmpeg"@,
            " for loudness"@,
            bin,
            detail@,
        ),
        ToolRun::Finished { stderr, .. } => if summary_value(stderr@, "I:"@).len() > 0 {
            r matches Ok(report) && loudness_summary_ok(stderr@, report)
        } else {
            r matches Err(m) && m@
                == "no R128 summary found — file may have no audio or unsupported format"@
        },
    }
}

/// The message for a tool that could not be started.
fn launch_error(not_found: bool, tool: &str, purpose: &str, bin: &str, detail: &str) -> (r: String)
    ensures
        r@ == launch_message(not_found, tool@, purpose@, bin@, detail@),
{
    let mut m = String::new();
    if not_found {
        m.append(tool);
        m.append(" not found (bin: ");
        m.append(bin);
        m.append(")");
    } else {
        m.append("failed to launch ");
        m.append(tool);
        m.append(purpose);
        m.append(": ");
        m.append(detail);
    }
    m
}

/// A loudness measurement past the run of ffmpeg: the R128 summary or why there is none.
pub fn loudness_result(bin: &str, run: &ToolRun) -> (r: Result<LoudnessReport, String>)
    ensures
        loudness_outcome(bin@, *run, r),
{
    match run {
        ToolRun::LaunchFailed { not_found, detail } => Err(
            launch_error(*not_found, "ffmpeg", " for loudness", bin, detail.as_str()),
        ),
        ToolRun::Finished { stderr, .. } => match parse_ebur128_summary(stderr.as_str()) {
            Some(report) => Ok(report),
            None => Err(
                "no R128 summary found — file may have no audio or unsupported format".to_string(),
            ),
        },
    }
}

// ── Scene cuts ───────────────────────────────────────────────────────────────

/// The word after the first `key` in `line`, when there is one
/// (`extract_token`).
pub open spec fn token_after(line: Seq<char>, key: Seq<char>) -> Option<Seq<char>> {
    let k = first_occurrence(line, key);
    if k < 0 {
        None
    } else {
        let w = first_word(line.skip(k + key.len()));
        if w.len() == 0 {
            None
        } else {
            Some(w)
        }
    }
}

/// A scene cut as `showinfo` prints it: the time and the score as text.
#[derive(Clone, Debug, PartialEq)]
pub struct SceneCutToken {
    pub pts_time: String,
    pub score: String,
}

/// The scene cuts of the lines: each `showinfo` line with a `pts_time:`
/// word, as that word and the `scene:` word (empty when absent), in order.
pub open spec fn scene_tokens(ls: Seq<Seq<char>>) -> Seq<(Seq<char>, Seq<char>)>
    decreases ls.len(),
{
    if ls.len() == 0 {
        Seq::empty()
    } else {
        let rest = scene_tokens(ls.drop_last());
        let l = ls.last();
        if crate::text::contains_seq(l, "showinfo"@) && token_after(l, "pts_time:"@) is Some {
            rest.push(
                (
                    token_after(l, "pts_time:"@)->0,
                    match token_after(l, "scene:"@) {
                        Some(w) => w,
                        None => Seq::empty(),
                    },
                ),
            )
        } else {
            rest
        }
    }
}

/// Scene cuts taken by their texts.
pub open spec fn token_views(v: Seq<SceneCutToken>) -> Seq<(Seq<char>, Seq<char>)> {
    v.map_values(|t: SceneCutToken| (t.pts_time@, t.score@))
}

/// `extract_token`: the word after the first `key` in `line`, if any.
pub fn extract_token(line: &str, key: &str) -> (r: Option<String>)
    ensures
        r.is_some() == token_after(line@, key@).is_some(),
        r matches Some(w) ==> token_after(line@, key@) == Some(w@),
{
    let v = crate::text::chars_of(line);
    let kv = crate::text::chars_of(key);
    token_in(&v, &kv)
}

fn token_in(v: &Vec<char>, kv: &Vec<char>) -> (r: Option<String>)
    ensures
        r.is_some() == token_after(v@, kv@).is_some(),
        r matches Some(w) ==> token_after(v@, kv@) == Some(w@),
{
    match find_chars(v, kv) {
        None => None,
        Some(k) => {
            proof {
                lemma_first_occurrence_bounds(v@, kv@);
                assert(occurs_at(v@, kv@, k as int));
            }
            let n = v.len();
            let from = k + kv.len();
            let w = first_word_in(v, from, n);
            assert(v@.subrange(from as int, v@.len() as int) =~= v@.skip(from as int));
            if w.as_str().is_empty() {
                None
            } else {
                Some(w)
            }
        },
    }
}

/// The scene cuts that ffmpeg's `showinfo` filter printed, before their
/// times are read as numbers.
pub fn scene_cut_tokens(stderr: &str) -> (r: Vec<SceneCutToken>)
    ensures
        token_views(r@) == scene_tokens(lines(stderr@)),
{
    let v = crate::text::chars_of(stderr);
    let out = split_lines(&v);
    let ghost ls = out@.map_values(|l: Vec<char>| l@);
    let show = crate::text::chars_of("showinfo");
    let pts_key = crate::text::chars_of("pts_time:");
    let scene_key = crate::text::chars_of("scene:");
    let mut r: Vec<SceneCutToken> = Vec::new();
    let mut i: usize = 0;
    while i < out.len()
        invariant
            ls == out@.map_values(|l: Vec<char>| l@),
            ls == lines(stderr@),
            show@ == "showinfo"@,
            pts_key@ == "pts_time:"@,
            scene_key@ == "scene:"@,
            i <= out@.len(),
            token_views(r@) == scene_tokens(ls.take(i as int)),
        decreases out@.len() - i,
    {
        proof {
            assert(ls.take(i + 1).drop_last() =~= ls.take(i as int));
            assert(ls.take(i + 1).last() == out@[i as int]@);
        }
        let line = &out[i];
        let is_info = match find_chars(line, &show) {
            Some(_) => true,
            None => false,
        };
        proof {
            lemma_first_occurrence_bounds(line@, show@);
        }
        if is_info {
            match token_in(line, &pts_key) {
                Some(pts_time) => {
                    let score = match token_in(line, &scene_key) {
                        Some(w) => w,
                        None => String::new(),
                    };
                    let ghost before = r@;
                    r.push(SceneCutToken { pts_time, score });
                    proof {
                        assert(token_views(r@) =~= token_views(before).push(
                            (r@.last().pts_time@, r@.last().score@),
                        ));
                    }
                },
                None => {},
            }
        }
        i = i + 1;
    }
    assert(ls.take(ls.len() as int) =~= ls);
    r
}

/// A scene detection past the run of ffmpeg: the scene cuts it printed, or why
/// it could not run.
pub fn scene_result(bin: &str, run: &ToolRun) -> (r: Result<Vec<SceneCutToken>, String>)
    ensures
        match *run {
            ToolRun::LaunchFailed { not_found, detail } => r matches Err(m) && m@ == launch_message(
                not_found,
                "ffmpeg"@,
                " for scene detection"@,
                bin@,
                detail@,
            ),
            ToolRun::Finished { stderr, .. } => r matches Ok(cuts) && token_views(cuts@)
                == scene_tokens(lines(stderr@)),
        },
{
    match run {
        ToolRun::LaunchFailed { not_found, detail } => Err(
            launch_error(*not_found, "ffmpeg", " for scene detection", bin, detail.as_str()),
        ),
        ToolRun::Finished { stderr, .. } => Ok(scene_cut_tokens(stderr.as_str())),
    }
}

// ── mediainfo ────────────────────────────────────────────────────────────────

/// The tracks of mediainfo's JSON (`/media/track`), when it is an array.
pub open spec fn media_tracks(root: JsonValue) -> Option<Seq<JsonValue>> {
    match member(root, "media"@) {
        Some(m) => match member(m, "track"@) {
            Some(JsonValue::Array(items)) => Some(items@),
            _ => None,
        },
        None => None,
    }
}

/// The first track whose `@type` is `kind`.
pub open spec fn track_of_type(tracks: Seq<JsonValue>, kind: Seq<char>) -> Option<JsonValue> {
    let k = first_where(tracks, |t: JsonValue| string_of(member(t, "@type"@)) == Some(kind));
    if k < tracks.len() {
        Some(tracks[k])
    } else {
        None
    }
}

/// A string field of a track; empty when the track or the field is absent
/// or not a string.
pub open spec fn track_field(track: Option<JsonValue>, key: Seq<char>) -> Seq<char> {
    match track {
        Some(t) => match string_of(member(t, key)) {
            Some(s) => s,
            None => Seq::empty(),
        },
        None => Seq::empty(),
    }
}

/// `<profile>@L<level>`, or the profile alone without a level, or nothing
/// without a profile.
pub open spec fn profile_text(profile: Seq<char>, level: Seq<char>) -> Seq<char> {
    if profile.len() > 0 && level.len() > 0 {
        profile + "@L"@ + level
    } else if profile.len() > 0 {
        profile
    } else {
        Seq::empty()
    }
}

/// The mediainfo report of the tracks: each field from the General, Video or
/// Audio track, and the whole JSON text.
pub open spec fn mediainfo_from(r: MediaInfoReport, tracks: Seq<JsonValue>, raw_json: Seq<char>) -> bool {
    let general = track_of_type(tracks, "General"@);
    let video = track_of_type(tracks, "Video"@);
    let audio = track_of_type(tracks, "Audio"@);
    &&& r.hdr_format@ == track_field(video, "HDR_Format"@)
    &&& r.hdr_format_compatibility@ == track_field(video, "HDR_Format_Compatibility"@)
    &&& r.writing_library@ == track_field(general, "Writing_Library"@)
    &&& r.encoded_application@ == track_field(general, "Encoded_Application"@)
    &&& r.audio_delay_ms@ == track_field(audio, "Delay"@)
    &&& r.standard@ == track_field(video, "Standard"@)
    &&& r.format_profile@ == profile_text(
        track_field(video, "Format_Profile"@),
        track_field(video, "Format_Level"@),
    )
    &&& r.frame_rate_num@ == track_field(video, "FrameRate_Num"@)
    &&& r.frame_rate_den@ == track_field(video, "FrameRate_Den"@)
    &&& r.scan_order@ == track_field(video, "ScanOrder"@)
    &&& r.bit_depth@ == track_field(video, "BitDepth"@)
    &&& r.raw_json@ == raw_json
}

/// The message for mediainfo that could not be started.
pub open spec fn mediainfo_launch_message(not_found: bool, bin: Seq<char>, detail: Seq<char>) -> Seq<char> {
    if not_found {
        "mediainfo not found — install with `brew install mediainfo` or `apt install mediainfo` (bin: "@
            + bin + ")"@
    } else {
        "failed to launch mediainfo: "@ + detail
    }
}

/// An optional text as plain values.
pub open spec fn text_view(o: Option<String>) -> Option<Seq<char>> {
    match o {
        Some(s) => Some(s@),
        None => None,
    }
}

/// What a run of mediainfo gives: `syntax_error` is the error of reading its
/// stdout as JSON (none when it is JSON) and `tree` that JSON in the
/// library's form, both looked at only when the run succeeded.
pub open spec fn mediainfo_outcome(
    bin: Seq<char>,
    run: ToolRun,
    syntax_error: Option<Seq<char>>,
    tree: JsonValue,
    r: Result<MediaInfoReport, String>,
) -> bool {
    match run {
        ToolRun::LaunchFailed { not_found, detail } => r matches Err(m) && m@
            == mediainfo_launch_message(not_found, bin, detail@),
        ToolRun::Finished { success, stdout, stderr } => if !success {
            r matches Err(m) && m@ == "mediainfo exited non-zero: "@ + trim(stderr@)
        } else {
            match syntax_error {
                Some(e) => r matches Err(m) && m@ == "failed to parse mediainfo JSON: "@ + e,
                None => match media_tracks(tree) {
                    None => r matches Err(m) && m@ == "mediainfo JSON missing /media/track"@,
                    Some(tracks) => r matches Ok(report) && mediainfo_from(report, tracks, stdout@),
                },
            }
        },
    }
}

/// The syntax error of a successful run's stdout, as `parse_json_text`
/// names it; none for any other run.
pub open spec fn run_syntax_error(run: ToolRun) -> Option<Seq<char>> {
    match run {
        ToolRun::Finished { success, stdout, .. } => if success {
            json_error_of(stdout@)
        } else {
            None
        },
        _ => None,
    }
}

/// The JSON tree of a successful run's stdout, as `parse_json_text` names it;
/// `null` when it is not JSON or the run did not succeed.
pub open spec fn run_tree(run: ToolRun) -> JsonValue {
    match run {
        ToolRun::Finished { success, stdout, .. } => if success {
            match json_tree_of(stdout@) {
                Some(t) => t,
                None => JsonValue::Null,
            }
        } else {
            JsonValue::Null
        },
        _ => JsonValue::Null,
    }
}

/// The first track whose `@type` is `kind`.
fn find_track<'a>(tracks: &'a Vec<JsonValue>, kind: &str) -> (r: Option<&'a JsonValue>)
    ensures
        r.is_some() == track_of_type(tracks@, kind@).is_some(),
        r matches Some(t) ==> track_of_type(tracks@, kind@) == Some(*t),
{
    let ghost p = |t: JsonValue| string_of(member(t, "@type"@)) == Some(kind@);
    let mut i: usize = 0;
    while i < tracks.len()
        invariant
            p == (|t: JsonValue| string_of(member(t, "@type"@)) == Some(kind@)),
            i <= tracks@.len(),
            forall|j: int| 0 <= j < i ==> !p(#[trigger] tracks@[j]),
        decreases tracks@.len() - i,
    {
        let t = json_as_string(json_get(&tracks[i], "@type"));
        let hit = match t {
            Some(name) => crate::text::str_eq(name.as_str(), kind),
            None => false,
        };
        assert(hit == p(tracks@[i as int]));
        if hit {
            proof {
                lemma_first_where(tracks@, p, i as int);
            }
            return Some(&tracks[i]);
        }
        i = i + 1;
    }
    proof {
        lemma_first_where(tracks@, p, i as int);
    }
    None
}

/// A string field of a track, empty when absent.
fn track_text(track: Option<&JsonValue>, key: &str) -> (r: String)
    ensures
        r@ == track_field(
            match track {
                Some(t) => Some(*t),
                None => None,
            },
            key@,
        ),
{
    match track {
        Some(t) => match json_as_string(json_get(t, key)) {
            Some(s) => s,
            None => String::new(),
        },
        None => String::new(),
    }
}

/// `format_profile`: `<profile>@L<level>`, the profile alone, or nothing.
pub fn format_profile(profile: String, level: String) -> (r: String)
    ensures
        r@ == profile_text(profile@, level@),
{
    let has_profile = !profile.as_str().is_empty();
    let has_level = !level.as_str().is_empty();
    if has_profile && has_level {
        let mut r = profile;
        r.append("@L");
        r.append(level.as_str());
        r
    } else if has_profile {
        profile
    } else {
        String::new()
    }
}

/// The mediainfo report of the tracks of its JSON.
pub fn mediainfo_report(tracks: &Vec<JsonValue>, raw_json: String) -> (r: MediaInfoReport)
    ensures
        mediainfo_from(r, tracks@, raw_json@),
{
    let general = find_track(tracks, "General");
    let video = find_track(tracks, "Video");
    let audio = find_track(tracks, "Audio");
    MediaInfoReport {
        hdr_format: track_text(video, "HDR_Format"),
        hdr_format_compatibility: track_text(video, "HDR_Format_Compatibility"),
        writing_library: track_text(general, "Writing_Library"),
        encoded_application: track_text(general, "Encoded_Application"),
        audio_delay_ms: track_text(audio, "Delay"),
        standard: track_text(video, "Standard"),
        format_profile: format_profile(
            track_text(video, "Format_Profile"),
            track_text(video, "Format_Level"),
        ),
        frame_rate_num: track_text(video, "FrameRate_Num"),
        frame_rate_den: track_text(video, "FrameRate_Den"),
        scan_order: track_text(video, "ScanOrder"),
        bit_depth: track_text(video, "BitDepth"),
        raw_json,
    }
}

/// The report of a run of mediainfo, given the error of reading its stdout
/// as JSON (`syntax_error`) and that JSON in the library's form (`tree`).
pub fn mediainfo_read(bin: &str, run: &ToolRun, syntax_error: Option<String>, tree: &JsonValue) -> (r:
    Result<MediaInfoReport, String>)
    ensures
        mediainfo_outcome(bin@, *run, text_view(syntax_error), *tree, r),
{
    match run {
        ToolRun::LaunchFailed { not_found, detail } => {
            let mut m = String::new();
            if *not_found {
                m.append(
                    "mediainfo not found — install with `brew install mediainfo` or `apt install mediainfo` (bin: ",
                );
                m.append(bin);
                m.append(")");
            } else {
                m.append("failed to launch mediainfo: ");
                m.append(detail.as_str());
            }
            Err(m)
        },
        ToolRun::Finished { success, stdout, stderr } => {
            if !*success {
                let mut m = String::new();
                m.append("mediainfo exited non-zero: ");
                m.append(crate::text::trim_str(stderr.as_str()).as_str());
                return Err(m);
            }
            match syntax_error {
                Some(e) => {
                    let mut m = String::new();
                    m.append("failed to parse mediainfo JSON: ");
                    m.append(e.as_str());
                    Err(m)
                },
                None => {
                    let tracks = match json_get(tree, "media") {
                        Some(media) => match json_get(media, "track") {
                            Some(JsonValue::Array(items)) => Some(items),
                            _ => None,
                        },
                        None => None,
                    };
                    match tracks {
                        None => Err("mediainfo JSON missing /media/track".to_string()),
                        Some(items) => Ok(mediainfo_report(items, stdout.clone())),
                    }
                },
            }
        },
    }
}

/// The report of a run of mediainfo: a successful run's stdout is read as
/// JSON here, and its tracks give the report.
pub fn mediainfo_result(bin: &str, run: &ToolRun) -> (r: Result<MediaInfoReport, String>)
    ensures
        mediainfo_outcome(bin@, *run, run_syntax_error(*run), run_tree(*run), r),
{
    match run {
        ToolRun::Finished { success, stdout, .. } => if *success {
            match parse_json_text(stdout.as_str()) {
                Ok(tree) => mediainfo_read(bin, run, None, &tree),
                Err(e) => mediainfo_read(bin, run, Some(e), &JsonValue::Null),
            }
        } else {
            mediainfo_read(bin, run, None, &JsonValue::Null)
        },
        ToolRun::LaunchFailed { .. } => mediainfo_read(bin, run, None, &JsonValue::Null),
    }
}

/// A token read after a key is a single word: not empty and without
/// whitespace.
pub proof fn lemma_token_is_one_word(line: Seq<char>, key: Seq<char>)
    ensures
        token_after(line, key) matches Some(w) ==> w.len() > 0 && forall|i: int|
            0 <= i < w.len() ==> !is_ws(#[trigger] w[i]),
{
    let k = first_occurrence(line, key);
    if k >= 0 {
        let t = trim_start(line.skip(k + key.len()));
        lemma_first_where_bounds(t, |c: char| is_ws(c));
    }
}

} // verus!

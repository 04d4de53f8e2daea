//! The delivery rules: each judges one property of a probed file against a
//! platform profile, and `run` applies them all in a fixed order.
use vstd::prelude::*;

use crate::diagnostic::{
    CheckModel, DiagnosticCheck, DiagnosticReport, DiagnosticStatus, PlatformProfile, count_status,
    failed, lemma_count_concat, passed, warned,
};
use crate::media_report::{MediaKeyValue, MediaProbeReport, MediaStreamInfo, derefs};
use crate::tags::{
    count_where, first_where, has_disposition, kind_pred, lemma_count_where_step,
    lemma_first_where, select_streams, stream_has_disposition, tag_lookup, tag_or_empty,
    tag_value, tag_value_or_empty, to_lowercase, unicode_lowercase, StreamKind,
};
use crate::text::{
    after_last, before_first, contains_seq, decimal, decimal_string, field_after_prefix,
    first_prefixed, join, join_strings, split_on, str_after_last, str_before_first,
    str_contains, str_eq, trim, trim_str,
};

verus! {

// ── Building checks ──────────────────────────────────────────────────────────

fn lit(s: &str) -> (r: String)
    ensures
        r@ == s@,
{
    String::from_str(s)
}

fn cat(a: &str, b: &str) -> (r: String)
    ensures
        r@ == a@ + b@,
{
    let mut r = String::from_str(a);
    r.append(b);
    r
}

fn cat3(a: &str, b: &str, c: &str) -> (r: String)
    ensures
        r@ == a@ + b@ + c@,
{
    let mut r = String::from_str(a);
    r.append(b);
    r.append(c);
    r
}

fn make(label: &str, status: DiagnosticStatus, detail: String) -> (c: DiagnosticCheck)
    ensures
        c@ == (CheckModel { label: label@, status, detail: detail@ }),
{
    DiagnosticCheck { label: String::from_str(label), status, detail }
}

fn pass(label: &str, detail: String) -> (c: DiagnosticCheck)
    ensures
        c@ == passed(label@, detail@),
{
    make(label, DiagnosticStatus::Pass, detail)
}

fn warn(label: &str, detail: String) -> (c: DiagnosticCheck)
    ensures
        c@ == warned(label@, detail@),
{
    make(label, DiagnosticStatus::Warn, detail)
}

fn fail(label: &str, detail: String) -> (c: DiagnosticCheck)
    ensures
        c@ == failed(label@, detail@),
{
    make(label, DiagnosticStatus::Fail, detail)
}

/// `s` is one of the literals `a`, `b`.
fn is_one_of2(s: &str, a: &str, b: &str) -> (r: bool)
    ensures
        r == (s@ == a@ || s@ == b@),
{
    str_eq(s, a) || str_eq(s, b)
}

// ── Container and video rules ────────────────────────────────────────────────

/// Container: judged on the first name ffprobe lists for the format.
pub open spec fn container_rule(format_name: Seq<char>, profile: PlatformProfile) -> CheckModel {
    let label = "Container"@;
    let first = trim(before_first(format_name, ','));
    if first == "mp4"@ {
        passed(label, "mp4 — wide compatibility"@)
    } else if first == "mov"@ {
        if profile == PlatformProfile::Broadcast {
            passed(label, "mov — broadcast standard"@)
        } else {
            passed(label, "mov — good compatibility"@)
        }
    } else if first == "mxf"@ {
        if profile == PlatformProfile::Broadcast {
            passed(label, "MXF — broadcast standard"@)
        } else {
            warned(label, "MXF — broadcast only, not web/mobile"@)
        }
    } else if first == "matroska"@ || first == "mkv"@ {
        if profile == PlatformProfile::Web {
            warned(label, "MKV — limited browser/device support"@)
        } else {
            warned(label, "MKV — not recommended for delivery"@)
        }
    } else {
        warned(label, format_name + " — check platform support"@)
    }
}

pub fn check_container(format_name: &str, profile: &PlatformProfile) -> (c: DiagnosticCheck)
    ensures
        c@ == container_rule(format_name@, *profile),
{
    let label = "Container";
    let head = str_before_first(format_name, ',');
    let first = trim_str(head.as_str());
    let first = first.as_str();
    if str_eq(first, "mp4") {
        pass(label, lit("mp4 — wide compatibility"))
    } else if str_eq(first, "mov") {
        if *profile == PlatformProfile::Broadcast {
            pass(label, lit("mov — broadcast standard"))
        } else {
            pass(label, lit("mov — good compatibility"))
        }
    } else if str_eq(first, "mxf") {
        if *profile == PlatformProfile::Broadcast {
            pass(label, lit("MXF — broadcast standard"))
        } else {
            warn(label, lit("MXF — broadcast only, not web/mobile"))
        }
    } else if is_one_of2(first, "matroska", "mkv") {
        if *profile == PlatformProfile::Web {
            warn(label, lit("MKV — limited browser/device support"))
        } else {
            warn(label, lit("MKV — not recommended for delivery"))
        }
    } else {
        warn(label, cat(format_name, " — check platform support"))
    }
}

/// An editing (mezzanine) codec.
pub open spec fn is_editing_codec(c: Seq<char>) -> bool {
    c == "prores"@ || c == "dnxhd"@ || c == "dnxhr"@ || c == "cineform"@
}

/// Video codec.
pub open spec fn video_codec_rule(codec: Seq<char>, profile: PlatformProfile) -> CheckModel {
    let label = "Video codec"@;
    if codec == "h264"@ {
        passed(label, "H.264 — universal compatibility"@)
    } else if codec == "hevc"@ || codec == "h265"@ {
        if profile == PlatformProfile::Broadcast {
            passed(label, "HEVC — acceptable for broadcast"@)
        } else {
            warned(label, "HEVC — limited on older Android and browsers"@)
        }
    } else if codec == "av1"@ {
        if profile == PlatformProfile::Web {
            warned(label, "AV1 — growing web support, not universal yet"@)
        } else {
            warned(label, "AV1 — limited hardware decode support"@)
        }
    } else if codec == "vp9"@ {
        if profile == PlatformProfile::Web {
            warned(label, "VP9 — web-only"@)
        } else {
            failed(label, "VP9 — not supported on mobile/broadcast"@)
        }
    } else if is_editing_codec(codec) {
        if profile == PlatformProfile::Broadcast {
            warned(label, codec + " — editing codec, acceptable for archival but not delivery"@)
        } else {
            failed(label, codec + " — editing codec, not for delivery"@)
        }
    } else if codec.len() == 0 {
        failed(label, "No video codec detected"@)
    } else {
        warned(label, codec + " — verify platform support"@)
    }
}

pub fn check_video_codec(codec_name: &str, profile: &PlatformProfile) -> (c: DiagnosticCheck)
    ensures
        c@ == video_codec_rule(codec_name@, *profile),
{
    let label = "Video codec";
    if str_eq(codec_name, "h264") {
        pass(label, lit("H.264 — universal compatibility"))
    } else if is_one_of2(codec_name, "hevc", "h265") {
        if *profile == PlatformProfile::Broadcast {
            pass(label, lit("HEVC — acceptable for broadcast"))
        } else {
            warn(label, lit("HEVC — limited on older Android and browsers"))
        }
    } else if str_eq(codec_name, "av1") {
        if *profile == PlatformProfile::Web {
            warn(label, lit("AV1 — growing web support, not universal yet"))
        } else {
            warn(label, lit("AV1 — limited hardware decode support"))
        }
    } else if str_eq(codec_name, "vp9") {
        if *profile == PlatformProfile::Web {
            warn(label, lit("VP9 — web-only"))
        } else {
            fail(label, lit("VP9 — not supported on mobile/broadcast"))
        }
    } else if is_one_of2(codec_name, "prores", "dnxhd") || is_one_of2(
        codec_name,
        "dnxhr",
        "cineform",
    ) {
        if *profile == PlatformProfile::Broadcast {
            warn(
                label,
                cat(codec_name, " — editing codec, acceptable for archival but not delivery"),
            )
        } else {
            fail(label, cat(codec_name, " — editing codec, not for delivery"))
        }
    } else if codec_name.is_empty() {
        fail(label, lit("No video codec detected"))
    } else {
        warn(label, cat(codec_name, " — verify platform support"))
    }
}

/// Pixel format.
pub open spec fn pixel_format_rule(pix: Seq<char>) -> CheckModel {
    let label = "Pixel format"@;
    if pix == "yuv420p"@ {
        passed(label, "yuv420p — maximum compatibility"@)
    } else if pix == "yuv422p"@ {
        warned(label, "yuv422p — editing format, may fail on mobile"@)
    } else if pix == "yuv444p"@ {
        warned(label, "yuv444p — high quality, limited support"@)
    } else if pix == "yuv420p10le"@ || pix == "yuv420p10be"@ {
        warned(label, "10-bit 4:2:0 — HDR, limited web support"@)
    } else if pix.len() == 0 {
        warned(label, "Pixel format unknown"@)
    } else {
        warned(label, pix + " — check device support"@)
    }
}

pub fn check_pixel_format(pix_fmt: &str) -> (c: DiagnosticCheck)
    ensures
        c@ == pixel_format_rule(pix_fmt@),
{
    let label = "Pixel format";
    if str_eq(pix_fmt, "yuv420p") {
        pass(label, lit("yuv420p — maximum compatibility"))
    } else if str_eq(pix_fmt, "yuv422p") {
        warn(label, lit("yuv422p — editing format, may fail on mobile"))
    } else if str_eq(pix_fmt, "yuv444p") {
        warn(label, lit("yuv444p — high quality, limited support"))
    } else if is_one_of2(pix_fmt, "yuv420p10le", "yuv420p10be") {
        warn(label, lit("10-bit 4:2:0 — HDR, limited web support"))
    } else if pix_fmt.is_empty() {
        warn(label, lit("Pixel format unknown"))
    } else {
        warn(label, cat(pix_fmt, " — check device support"))
    }
}

/// Video color depth, from `bits_per_raw_sample`.
pub open spec fn color_depth_rule(bits: Seq<char>) -> CheckModel {
    let label = "Video color depth"@;
    let b = trim(bits);
    if b == "8"@ {
        passed(label, "8-bit — maximum compatibility"@)
    } else if b == "0"@ || b.len() == 0 {
        passed(label, "8-bit (compressed — normal for H.264)"@)
    } else if b == "10"@ {
        warned(label, "10-bit HDR — may fail on older web players"@)
    } else if b == "12"@ {
        warned(label, "12-bit — cinema/HDR, not web delivery"@)
    } else {
        warned(label, b + "-bit — verify platform support"@)
    }
}

pub fn check_color_depth(bits_per_raw_sample: &str) -> (c: DiagnosticCheck)
    ensures
        c@ == color_depth_rule(bits_per_raw_sample@),
{
    let label = "Video color depth";
    let b = trim_str(bits_per_raw_sample);
    let b = b.as_str();
    if str_eq(b, "8") {
        pass(label, lit("8-bit — maximum compatibility"))
    } else if str_eq(b, "0") || b.is_empty() {
        pass(label, lit("8-bit (compressed — normal for H.264)"))
    } else if str_eq(b, "10") {
        warn(label, lit("10-bit HDR — may fail on older web players"))
    } else if str_eq(b, "12") {
        warn(label, lit("12-bit — cinema/HDR, not web delivery"))
    } else {
        warn(label, cat(b, "-bit — verify platform support"))
    }
}

/// Scan type, from the field order.
pub open spec fn field_order_rule(order: Seq<char>) -> CheckModel {
    let label = "Scan type"@;
    if order == "progressive"@ || order.len() == 0 {
        passed(label, "Progressive — no deinterlacing needed"@)
    } else {
        warned(label, "Interlaced ("@ + order + ") — deinterlace before web delivery"@)
    }
}

pub fn check_field_order(field_order: &str) -> (c: DiagnosticCheck)
    ensures
        c@ == field_order_rule(field_order@),
{
    let label = "Scan type";
    if str_eq(field_order, "progressive") || field_order.is_empty() {
        pass(label, lit("Progressive — no deinterlacing needed"))
    } else {
        warn(label, cat3("Interlaced (", field_order, ") — deinterlace before web delivery"))
    }
}

/// Rotation, from the `rotate` tag.
pub open spec fn rotation_rule(tags: Seq<MediaKeyValue>) -> CheckModel {
    let label = "Rotation"@;
    let r = trim(tag_or_empty(tags, "rotate"@));
    if r.len() == 0 || r == "0"@ {
        passed(label, "No rotation — correct orientation"@)
    } else {
        warned(label, "rotate="@ + r + " — player must compensate"@)
    }
}

pub fn check_rotation(tags: &Vec<MediaKeyValue>) -> (c: DiagnosticCheck)
    ensures
        c@ == rotation_rule(tags@),
{
    let label = "Rotation";
    let rotate = tag_value_or_empty(tags, "rotate");
    let r = trim_str(rotate.as_str());
    let r = r.as_str();
    if r.is_empty() || str_eq(r, "0") {
        pass(label, lit("No rotation — correct orientation"))
    } else {
        warn(label, cat3("rotate=", r, " — player must compensate"))
    }
}

/// H.264 profile (only judged for H.264 video).
pub open spec fn h264_profile_rule(profile: Seq<char>, platform: PlatformProfile) -> CheckModel {
    let label = "H.264 profile"@;
    if profile == "Baseline"@ || profile == "Constrained Baseline"@ {
        passed(label, "Baseline — maximum mobile compatibility"@)
    } else if profile == "Main"@ {
        passed(label, "Main — good compatibility"@)
    } else if profile == "High"@ {
        if platform == PlatformProfile::Mobile {
            warned(label, "High profile — may fail on older mobile devices"@)
        } else {
            passed(label, "High profile — fine for web/broadcast"@)
        }
    } else if profile.len() == 0 {
        warned(label, "Profile unknown"@)
    } else {
        warned(label, profile + " — verify device support"@)
    }
}

pub fn check_h264_profile(profile: &str, platform: &PlatformProfile) -> (c: DiagnosticCheck)
    ensures
        c@ == h264_profile_rule(profile@, *platform),
{
    let label = "H.264 profile";
    if is_one_of2(profile, "Baseline", "Constrained Baseline") {
        pass(label, lit("Baseline — maximum mobile compatibility"))
    } else if str_eq(profile, "Main") {
        pass(label, lit("Main — good compatibility"))
    } else if str_eq(profile, "High") {
        if *platform == PlatformProfile::Mobile {
            warn(label, lit("High profile — may fail on older mobile devices"))
        } else {
            pass(label, lit("High profile — fine for web/broadcast"))
        }
    } else if profile.is_empty() {
        warn(label, lit("Profile unknown"))
    } else {
        warn(label, cat(profile, " — verify device support"))
    }
}

/// Sample aspect ratio.
pub open spec fn sample_aspect_ratio_rule(sar: Seq<char>) -> CheckModel {
    let label = "Sample aspect ratio"@;
    let r = trim(sar);
    if r.len() == 0 || r == "0:1"@ || r == "1:1"@ {
        passed(label, "Square pixels (1:1)"@)
    } else {
        warned(label, "Anamorphic SAR "@ + r + " — verify display scaling"@)
    }
}

pub fn check_sample_aspect_ratio(sar: &str) -> (c: DiagnosticCheck)
    ensures
        c@ == sample_aspect_ratio_rule(sar@),
{
    let label = "Sample aspect ratio";
    let r = trim_str(sar);
    let r = r.as_str();
    if r.is_empty() || is_one_of2(r, "0:1", "1:1") {
        pass(label, lit("Square pixels (1:1)"))
    } else {
        warn(label, cat3("Anamorphic SAR ", r, " — verify display scaling"))
    }
}

/// Color space: HDR transfer, wide gamut and full range are flagged.
pub open spec fn color_space_rule(
    primaries: Seq<char>,
    transfer: Seq<char>,
    space: Seq<char>,
    range: Seq<char>,
) -> CheckModel {
    let label = "Color space"@;
    if transfer == "smpte2084"@ {
        warned(label, "PQ / HDR10 — verify player supports HDR"@)
    } else if transfer == "arib-std-b67"@ {
        warned(label, "HLG HDR — broadcast HDR format"@)
    } else if primaries == "bt2020"@ || space == "bt2020nc"@ || space == "bt2020c"@ {
        warned(label, "BT.2020 wide gamut — HDR content, limited display support"@)
    } else if range == "pc"@ {
        warned(label, "Full range (pc) — may crush blacks on TV displays"@)
    } else if primaries.len() == 0 && transfer.len() == 0 {
        warned(label, "Color space untagged — player assumes BT.709"@)
    } else {
        passed(label, "BT.709 — primaries="@ + primaries + " transfer="@ + transfer)
    }
}

pub fn check_color_space(primaries: &str, transfer: &str, space: &str, range: &str) -> (c:
    DiagnosticCheck)
    ensures
        c@ == color_space_rule(primaries@, transfer@, space@, range@),
{
    let label = "Color space";
    if str_eq(transfer, "smpte2084") {
        return warn(label, lit("PQ / HDR10 — verify player supports HDR"));
    }
    if str_eq(transfer, "arib-std-b67") {
        return warn(label, lit("HLG HDR — broadcast HDR format"));
    }
    if str_eq(primaries, "bt2020") || is_one_of2(space, "bt2020nc", "bt2020c") {
        return warn(label, lit("BT.2020 wide gamut — HDR content, limited display support"));
    }
    if str_eq(range, "pc") {
        return warn(label, lit("Full range (pc) — may crush blacks on TV displays"));
    }
    if primaries.is_empty() && transfer.is_empty() {
        return warn(label, lit("Color space untagged — player assumes BT.709"));
    }
    let mut d = cat("BT.709 — primaries=", primaries);
    d.append(" transfer=");
    d.append(transfer);
    pass(label, d)
}

/// B-frames.
pub open spec fn b_frames_rule(has_b_frames: Seq<char>) -> CheckModel {
    let label = "B-frames"@;
    let n = trim(has_b_frames);
    if n.len() == 0 || n == "0"@ {
        passed(label, "No B-frames — maximum decoder compatibility"@)
    } else if n == "1"@ {
        passed(label, "B-frames: 1 — standard, widely supported"@)
    } else if n == "2"@ {
        warned(label, "B-frames: 2 — verify low-power device support"@)
    } else {
        warned(label, "B-frames: "@ + n + " — may cause issues on low-power decoders"@)
    }
}

pub fn check_b_frames(has_b_frames: &str) -> (c: DiagnosticCheck)
    ensures
        c@ == b_frames_rule(has_b_frames@),
{
    let label = "B-frames";
    let n = trim_str(has_b_frames);
    let n = n.as_str();
    if n.is_empty() || str_eq(n, "0") {
        pass(label, lit("No B-frames — maximum decoder compatibility"))
    } else if str_eq(n, "1") {
        pass(label, lit("B-frames: 1 — standard, widely supported"))
    } else if str_eq(n, "2") {
        warn(label, lit("B-frames: 2 — verify low-power device support"))
    } else {
        warn(label, cat3("B-frames: ", n, " — may cause issues on low-power decoders"))
    }
}

/// Chroma sample location.
pub open spec fn chroma_location_rule(loc: Seq<char>) -> CheckModel {
    let label = "Chroma location"@;
    let l = trim(loc);
    if l.len() == 0 || l == "left"@ {
        passed(label, "Chroma left — H.264/H.265 standard"@)
    } else if l == "center"@ {
        warned(label, "Chroma center — unusual for H.264, verify encoder settings"@)
    } else if l == "topleft"@ {
        passed(label, "Chroma topleft — interlaced convention, acceptable"@)
    } else {
        warned(label, l + " — non-standard chroma location"@)
    }
}

pub fn check_chroma_location(chroma_location: &str) -> (c: DiagnosticCheck)
    ensures
        c@ == chroma_location_rule(chroma_location@),
{
    let label = "Chroma location";
    let l = trim_str(chroma_location);
    let l = l.as_str();
    if l.is_empty() || str_eq(l, "left") {
        pass(label, lit("Chroma left — H.264/H.265 standard"))
    } else if str_eq(l, "center") {
        warn(label, lit("Chroma center — unusual for H.264, verify encoder settings"))
    } else if str_eq(l, "topleft") {
        pass(label, lit("Chroma topleft — interlaced convention, acceptable"))
    } else {
        warn(label, cat(l, " — non-standard chroma location"))
    }
}

/// Embedded CEA-608/708 closed captions.
pub open spec fn closed_captions_rule(cc: Seq<char>) -> CheckModel {
    let label = "Closed captions"@;
    let v = trim(cc);
    if v.len() == 0 || v == "0"@ {
        passed(label, "No embedded CEA-608/708 captions flagged"@)
    } else if v == "1"@ {
        warned(label, "Embedded closed captions detected — separate from subtitle streams"@)
    } else {
        warned(label, v + " caption flag(s) detected — verify CEA-608/708 handling"@)
    }
}

pub fn check_closed_captions(closed_captions: &str) -> (c: DiagnosticCheck)
    ensures
        c@ == closed_captions_rule(closed_captions@),
{
    let label = "Closed captions";
    let v = trim_str(closed_captions);
    let v = v.as_str();
    if v.is_empty() || str_eq(v, "0") {
        pass(label, lit("No embedded CEA-608/708 captions flagged"))
    } else if str_eq(v, "1") {
        warn(label, lit("Embedded closed captions detected — separate from subtitle streams"))
    } else {
        warn(label, cat(v, " caption flag(s) detected — verify CEA-608/708 handling"))
    }
}

// ── HDR side data ────────────────────────────────────────────────────────────

/// The value of `name=` in a side-data entry (its fields are separated by
/// ", "), or "?" when it has none.
pub open spec fn side_field(value: Seq<char>, name: Seq<char>) -> Seq<char> {
    match first_prefixed(split_on(value, ", "@), name) {
        Some(v) => v,
        None => "?"@,
    }
}

fn side_field_of(value: &str, name: &str) -> (r: String)
    ensures
        r@ == side_field(value@, name@),
{
    proof {
        reveal_strlit(", ");
    }
    match field_after_prefix(value, ", ", name) {
        Some(v) => v,
        None => lit("?"),
    }
}

/// The check that one side-data entry gives rise to, if any.
pub open spec fn side_data_entry_rule(entry: MediaKeyValue) -> Option<CheckModel> {
    let k = entry.key@;
    let v = entry.value@;
    if k == "Mastering display metadata"@ {
        Some(
            warned(
                "HDR mastering display"@,
                "HDR10 master display present — max luminance: "@ + side_field(
                    v,
                    "max_luminance="@,
                ),
            ),
        )
    } else if k == "Content light level metadata"@ {
        Some(
            warned(
                "HDR content light level"@,
                "MaxCLL="@ + side_field(v, "max_content="@) + "nit MaxFALL="@ + side_field(
                    v,
                    "max_average="@,
                ) + "nit"@,
            ),
        )
    } else if k == "DOVI configuration record"@ {
        Some(
            warned(
                "Dolby Vision"@,
                "Dolby Vision profile "@ + side_field(v, "dv_profile="@)
                    + " — verify player support"@,
            ),
        )
    } else if k == "Spherical Mapping"@ {
        Some(warned("360° video"@, "Spherical mapping detected — verify 360° player support"@))
    } else if k == "Stereo 3D"@ {
        Some(warned("Stereo 3D"@, "3D video detected — verify player support"@))
    } else {
        None
    }
}

/// The checks for all side-data entries, in order.
pub open spec fn hdr_side_data_rule(side: Seq<MediaKeyValue>) -> Seq<CheckModel>
    decreases side.len(),
{
    if side.len() == 0 {
        Seq::empty()
    } else {
        hdr_side_data_rule(side.drop_last()) + match side_data_entry_rule(side.last()) {
            Some(c) => seq![c],
            None => Seq::empty(),
        }
    }
}

fn side_data_entry_check(entry: &MediaKeyValue) -> (r: Option<DiagnosticCheck>)
    ensures
        r.is_some() == side_data_entry_rule(*entry).is_some(),
        r matches Some(c) ==> side_data_entry_rule(*entry) == Some(c@),
{
    let k = entry.key.as_str();
    let v = entry.value.as_str();
    if str_eq(k, "Mastering display metadata") {
        let max_lum = side_field_of(v, "max_luminance=");
        Some(
            warn(
                "HDR mastering display",
                cat("HDR10 master display present — max luminance: ", max_lum.as_str()),
            ),
        )
    } else if str_eq(k, "Content light level metadata") {
        let max_cll = side_field_of(v, "max_content=");
        let max_fall = side_field_of(v, "max_average=");
        let mut d = cat3("MaxCLL=", max_cll.as_str(), "nit MaxFALL=");
        d.append(max_fall.as_str());
        d.append("nit");
        Some(warn("HDR content light level", d))
    } else if str_eq(k, "DOVI configuration record") {
        let profile = side_field_of(v, "dv_profile=");
        Some(
            warn(
                "Dolby Vision",
                cat3("Dolby Vision profile ", profile.as_str(), " — verify player support"),
            ),
        )
    } else if str_eq(k, "Spherical Mapping") {
        Some(warn("360° video", lit("Spherical mapping detected — verify 360° player support")))
    } else if str_eq(k, "Stereo 3D") {
        Some(warn("Stereo 3D", lit("3D video detected — verify player support")))
    } else {
        None
    }
}

/// The views of a list of checks.
pub open spec fn views(v: Seq<DiagnosticCheck>) -> Seq<CheckModel> {
    v.map_values(|c: DiagnosticCheck| c@)
}

pub fn check_hdr_side_data(side_data: &Vec<MediaKeyValue>) -> (r: Vec<DiagnosticCheck>)
    ensures
        views(r@) == hdr_side_data_rule(side_data@),
{
    let mut checks: Vec<DiagnosticCheck> = Vec::new();
    let mut i: usize = 0;
    while i < side_data.len()
        invariant
            i <= side_data@.len(),
            views(checks@) == hdr_side_data_rule(side_data@.take(i as int)),
        decreases side_data@.len() - i,
    {
        proof {
            assert(side_data@.take(i + 1).drop_last() =~= side_data@.take(i as int));
        }
        match side_data_entry_check(&side_data[i]) {
            Some(c) => {
                checks.push(c);
                assert(views(checks@) =~= hdr_side_data_rule(side_data@.take(i + 1)));
            },
            None => {
                assert(views(checks@) =~= hdr_side_data_rule(side_data@.take(i + 1)));
            },
        }
        i = i + 1;
    }
    assert(side_data@.take(side_data@.len() as int) =~= side_data@);
    checks
}

// ── Audio rules ──────────────────────────────────────────────────────────────

/// Audio track presence.
pub open spec fn audio_present_rule(audio_count: nat) -> CheckModel {
    let label = "Audio track"@;
    if audio_count > 0 {
        passed(label, decimal(audio_count) + " track(s) found"@)
    } else {
        failed(label, "No audio track — video is silent"@)
    }
}

pub fn check_audio_present(audio_count: usize) -> (c: DiagnosticCheck)
    ensures
        c@ == audio_present_rule(audio_count as nat),
{
    let label = "Audio track";
    if audio_count > 0 {
        let n = decimal_string(audio_count as u64);
        pass(label, cat(n.as_str(), " track(s) found"))
    } else {
        fail(label, lit("No audio track — video is silent"))
    }
}

/// A PCM codec used in broadcast.
pub open spec fn is_pcm(c: Seq<char>) -> bool {
    c == "pcm_s16le"@ || c == "pcm_s24le"@ || c == "pcm_s32le"@
}

/// Audio codec.
pub open spec fn audio_codec_rule(codec: Seq<char>, profile: PlatformProfile) -> CheckModel {
    let label = "Audio codec"@;
    if codec == "aac"@ {
        passed(label, "AAC — universal support"@)
    } else if codec == "mp3"@ {
        if profile == PlatformProfile::Broadcast {
            failed(label, "MP3 — not acceptable for broadcast, use PCM"@)
        } else {
            passed(label, "MP3 — widely supported"@)
        }
    } else if is_pcm(codec) {
        passed(label, codec + " — broadcast PCM"@)
    } else if codec == "opus"@ {
        if profile == PlatformProfile::Web {
            passed(label, "Opus — web supported"@)
        } else {
            warned(label, "Opus — web-only, not for mobile/broadcast"@)
        }
    } else if codec == "vorbis"@ {
        warned(label, "Vorbis — web-only, not for broadcast"@)
    } else if codec == "ac3"@ || codec == "eac3"@ {
        if profile == PlatformProfile::Broadcast {
            passed(label, codec + " — broadcast standard"@)
        } else {
            warned(label, codec + " — broadcast format, limited browser support"@)
        }
    } else if codec.len() == 0 {
        warned(label, "Audio codec unknown"@)
    } else {
        warned(label, codec + " — verify platform support"@)
    }
}

pub fn check_audio_codec(codec_name: &str, profile: &PlatformProfile) -> (c: DiagnosticCheck)
    ensures
        c@ == audio_codec_rule(codec_name@, *profile),
{
    let label = "Audio codec";
    if str_eq(codec_name, "aac") {
        pass(label, lit("AAC — universal support"))
    } else if str_eq(codec_name, "mp3") {
        if *profile == PlatformProfile::Broadcast {
            fail(label, lit("MP3 — not acceptable for broadcast, use PCM"))
        } else {
            pass(label, lit("MP3 — widely supported"))
        }
    } else if is_one_of2(codec_name, "pcm_s16le", "pcm_s24le") || str_eq(codec_name, "pcm_s32le") {
        pass(label, cat(codec_name, " — broadcast PCM"))
    } else if str_eq(codec_name, "opus") {
        if *profile == PlatformProfile::Web {
            pass(label, lit("Opus — web supported"))
        } else {
            warn(label, lit("Opus — web-only, not for mobile/broadcast"))
        }
    } else if str_eq(codec_name, "vorbis") {
        warn(label, lit("Vorbis — web-only, not for broadcast"))
    } else if is_one_of2(codec_name, "ac3", "eac3") {
        if *profile == PlatformProfile::Broadcast {
            pass(label, cat(codec_name, " — broadcast standard"))
        } else {
            warn(label, cat(codec_name, " — broadcast format, limited browser support"))
        }
    } else if codec_name.is_empty() {
        warn(label, lit("Audio codec unknown"))
    } else {
        warn(label, cat(codec_name, " — verify platform support"))
    }
}

/// Audio channel layout.
pub open spec fn audio_channels_rule(layout: Seq<char>, profile: PlatformProfile) -> CheckModel {
    let label = "Audio channels"@;
    if layout == "mono"@ {
        passed(label, "Mono — broadcast standard"@)
    } else if layout == "stereo"@ {
        if profile == PlatformProfile::Broadcast {
            failed(label, "Stereo — broadcast requires dual mono tracks, not stereo"@)
        } else {
            passed(label, "Stereo — fine for web/mobile"@)
        }
    } else if layout.len() == 0 {
        warned(label, "Channel layout unknown"@)
    } else if profile == PlatformProfile::Broadcast {
        failed(label, layout + " — broadcast requires mono tracks"@)
    } else {
        warned(label, layout + " — verify with delivery spec"@)
    }
}

pub fn check_audio_channels(channel_layout: &str, profile: &PlatformProfile) -> (c:
    DiagnosticCheck)
    ensures
        c@ == audio_channels_rule(channel_layout@, *profile),
{
    let label = "Audio channels";
    if str_eq(channel_layout, "mono") {
        pass(label, lit("Mono — broadcast standard"))
    } else if str_eq(channel_layout, "stereo") {
        if *profile == PlatformProfile::Broadcast {
            fail(label, lit("Stereo — broadcast requires dual mono tracks, not stereo"))
        } else {
            pass(label, lit("Stereo — fine for web/mobile"))
        }
    } else if channel_layout.is_empty() {
        warn(label, lit("Channel layout unknown"))
    } else if *profile == PlatformProfile::Broadcast {
        fail(label, cat(channel_layout, " — broadcast requires mono tracks"))
    } else {
        warn(label, cat(channel_layout, " — verify with delivery spec"))
    }
}

/// Audio sample rate.
pub open spec fn sample_rate_rule(rate: Seq<char>, profile: PlatformProfile) -> CheckModel {
    let label = "Sample rate"@;
    let r = trim(rate);
    if r == "48000"@ {
        passed(label, "48 kHz — broadcast standard"@)
    } else if r == "44100"@ {
        if profile == PlatformProfile::Broadcast {
            failed(label, "44.1 kHz — broadcast requires 48 kHz"@)
        } else {
            warned(label, "44.1 kHz — resample to 48 kHz for broadcast"@)
        }
    } else if r.len() == 0 {
        warned(label, "Sample rate unknown"@)
    } else {
        warned(label, r + " Hz — non-standard"@)
    }
}

pub fn check_sample_rate(sample_rate: &str, profile: &PlatformProfile) -> (c: DiagnosticCheck)
    ensures
        c@ == sample_rate_rule(sample_rate@, *profile),
{
    let label = "Sample rate";
    let r = trim_str(sample_rate);
    let r = r.as_str();
    if str_eq(r, "48000") {
        pass(label, lit("48 kHz — broadcast standard"))
    } else if str_eq(r, "44100") {
        if *profile == PlatformProfile::Broadcast {
            fail(label, lit("44.1 kHz — broadcast requires 48 kHz"))
        } else {
            warn(label, lit("44.1 kHz — resample to 48 kHz for broadcast"))
        }
    } else if r.is_empty() {
        warn(label, lit("Sample rate unknown"))
    } else {
        warn(label, cat(r, " Hz — non-standard"))
    }
}

/// Audio bit depth.
pub open spec fn audio_bit_depth_rule(bits: Seq<char>, profile: PlatformProfile) -> CheckModel {
    let label = "Audio bit depth"@;
    let b = trim(bits);
    if b == "16"@ {
        passed(label, "16-bit PCM — broadcast standard"@)
    } else if b == "24"@ {
        passed(label, "24-bit PCM — acceptable"@)
    } else if b == "0"@ || b.len() == 0 {
        passed(label, "Compressed audio (AAC/MP3) — bit depth not applicable"@)
    } else if profile == PlatformProfile::Broadcast {
        warned(label, b + "-bit — broadcast typically requires 16-bit PCM"@)
    } else {
        warned(label, b + "-bit — verify with delivery spec"@)
    }
}

pub fn check_audio_bit_depth(bits_per_sample: &str, profile: &PlatformProfile) -> (c:
    DiagnosticCheck)
    ensures
        c@ == audio_bit_depth_rule(bits_per_sample@, *profile),
{
    let label = "Audio bit depth";
    let b = trim_str(bits_per_sample);
    let b = b.as_str();
    if str_eq(b, "16") {
        pass(label, lit("16-bit PCM — broadcast standard"))
    } else if str_eq(b, "24") {
        pass(label, lit("24-bit PCM — acceptable"))
    } else if str_eq(b, "0") || b.is_empty() {
        pass(label, lit("Compressed audio (AAC/MP3) — bit depth not applicable"))
    } else if *profile == PlatformProfile::Broadcast {
        warn(label, cat(b, "-bit — broadcast typically requires 16-bit PCM"))
    } else {
        warn(label, cat(b, "-bit — verify with delivery spec"))
    }
}

/// The default-track flag of the first audio stream.
pub open spec fn default_audio_rule(s: MediaStreamInfo) -> CheckModel {
    let label = "Default audio stream"@;
    if has_disposition(s, "default"@) {
        passed(label, "Default flag set — players will select this track"@)
    } else {
        warned(label, "No default flag — players may not auto-select this track"@)
    }
}

pub fn check_default_audio_stream(stream: &MediaStreamInfo) -> (c: DiagnosticCheck)
    ensures
        c@ == default_audio_rule(*stream),
{
    let label = "Default audio stream";
    if stream_has_disposition(stream, "default") {
        pass(label, lit("Default flag set — players will select this track"))
    } else {
        warn(label, lit("No default flag — players may not auto-select this track"))
    }
}

/// The stream has no (or a blank) `language` tag.
pub open spec fn lacks_language(s: MediaStreamInfo) -> bool {
    trim(tag_or_empty(s.tags@, "language"@)).len() == 0
}

/// Number of streams in `list` without a language tag.
pub open spec fn missing_language_count(list: Seq<MediaStreamInfo>) -> nat {
    count_where(list, |s: MediaStreamInfo| lacks_language(s))
}

fn count_missing_language(list: &Vec<&MediaStreamInfo>) -> (n: usize)
    ensures
        n == missing_language_count(derefs(list@)),
{
    let ghost p = |s: MediaStreamInfo| lacks_language(s);
    let ghost all = derefs(list@);
    let mut n: usize = 0;
    let mut i: usize = 0;
    while i < list.len()
        invariant
            all == derefs(list@),
            p == (|s: MediaStreamInfo| lacks_language(s)),
            i <= list@.len(),
            n <= i,
            n == count_where(all.take(i as int), p),
        decreases list@.len() - i,
    {
        proof {
            lemma_count_where_step(all, p, i as int);
        }
        let language = tag_value_or_empty(&list[i].tags, "language");
        let t = trim_str(language.as_str());
        if t.as_str().is_empty() {
            n = n + 1;
        }
        i = i + 1;
    }
    assert(all.take(list@.len() as int) =~= all);
    n
}

/// Language tags of the audio streams.
pub open spec fn audio_language_rule(audio: Seq<MediaStreamInfo>) -> CheckModel {
    let label = "Audio language tags"@;
    let missing = missing_language_count(audio);
    if audio.len() == 0 {
        passed(label, "No audio stream to validate"@)
    } else if missing == 0 {
        passed(label, "All audio streams have language tags"@)
    } else {
        warned(label, decimal(missing) + " audio stream(s) missing language metadata"@)
    }
}

pub fn check_audio_language_tags(audio: &Vec<&MediaStreamInfo>) -> (c: DiagnosticCheck)
    ensures
        c@ == audio_language_rule(derefs(audio@)),
{
    let label = "Audio language tags";
    if audio.len() == 0 {
        return pass(label, lit("No audio stream to validate"));
    }
    let missing = count_missing_language(audio);
    if missing == 0 {
        pass(label, lit("All audio streams have language tags"))
    } else {
        let n = decimal_string(missing as u64);
        warn(label, cat(n.as_str(), " audio stream(s) missing language metadata"))
    }
}

// ── Subtitle rules ───────────────────────────────────────────────────────────

/// Embedded subtitle streams.
pub open spec fn subtitles_rule(count: nat) -> CheckModel {
    let label = "Subtitles"@;
    if count > 0 {
        passed(label, decimal(count) + " stream(s) embedded"@)
    } else {
        warned(label, "No embedded subtitles — check if sidecar .srt needed"@)
    }
}

pub fn check_subtitles(subtitle_count: usize) -> (c: DiagnosticCheck)
    ensures
        c@ == subtitles_rule(subtitle_count as nat),
{
    let label = "Subtitles";
    if subtitle_count > 0 {
        let n = decimal_string(subtitle_count as u64);
        pass(label, cat(n.as_str(), " stream(s) embedded"))
    } else {
        warn(label, lit("No embedded subtitles — check if sidecar .srt needed"))
    }
}

/// Language tags of the subtitle streams.
pub open spec fn subtitle_language_rule(subs: Seq<MediaStreamInfo>) -> CheckModel {
    let label = "Subtitle language tags"@;
    let missing = missing_language_count(subs);
    if subs.len() == 0 {
        passed(label, "No subtitle stream to validate"@)
    } else if missing == 0 {
        passed(label, "All subtitle streams have language tags"@)
    } else {
        warned(label, decimal(missing) + " subtitle stream(s) missing language metadata"@)
    }
}

pub fn check_subtitle_language_tags(subtitles: &Vec<&MediaStreamInfo>) -> (c: DiagnosticCheck)
    ensures
        c@ == subtitle_language_rule(derefs(subtitles@)),
{
    let label = "Subtitle language tags";
    if subtitles.len() == 0 {
        return pass(label, lit("No subtitle stream to validate"));
    }
    let missing = count_missing_language(subtitles);
    if missing == 0 {
        pass(label, lit("All subtitle streams have language tags"))
    } else {
        let n = decimal_string(missing as u64);
        warn(label, cat(n.as_str(), " subtitle stream(s) missing language metadata"))
    }
}

/// A subtitle codec that common players render.
pub open spec fn is_supported_subtitle_codec(c: Seq<char>) -> bool {
    c == "mov_text"@ || c == "srt"@ || c == "subrip"@ || c == "webvtt"@ || c == "ass"@ || c
        == "ssa"@
}

/// The trimmed codec names of `subs`.
pub open spec fn subtitle_codecs(subs: Seq<MediaStreamInfo>) -> Seq<Seq<char>> {
    subs.map_values(|s: MediaStreamInfo| trim(s.codec_name@))
}

/// Subtitle codecs: all supported, or the list of those that are not.
pub open spec fn subtitle_codec_rule(subs: Seq<MediaStreamInfo>) -> CheckModel {
    let label = "Subtitle codec"@;
    let codecs = subtitle_codecs(subs);
    let unsupported = codecs.filter(|c: Seq<char>| !is_supported_subtitle_codec(c));
    if subs.len() == 0 {
        passed(label, "No subtitle stream to validate"@)
    } else if unsupported.len() == 0 {
        passed(label, "Supported subtitle codec(s): "@ + join(codecs, ", "@))
    } else {
        warned(
            label,
            "Unsupported or platform-sensitive subtitle codec(s): "@ + join(unsupported, ", "@),
        )
    }
}

fn is_supported_subtitle(c: &str) -> (r: bool)
    ensures
        r == is_supported_subtitle_codec(c@),
{
    is_one_of2(c, "mov_text", "srt") || is_one_of2(c, "subrip", "webvtt") || is_one_of2(
        c,
        "ass",
        "ssa",
    )
}

pub fn check_subtitle_codecs(subtitles: &Vec<&MediaStreamInfo>) -> (c: DiagnosticCheck)
    ensures
        c@ == subtitle_codec_rule(derefs(subtitles@)),
{
    let label = "Subtitle codec";
    if subtitles.len() == 0 {
        return pass(label, lit("No subtitle stream to validate"));
    }
    let ghost subs = derefs(subtitles@);
    let ghost keep = |c: Seq<char>| !is_supported_subtitle_codec(c);
    let mut codecs: Vec<String> = Vec::new();
    let mut unsupported: Vec<String> = Vec::new();
    let mut i: usize = 0;
    while i < subtitles.len()
        invariant
            subs == derefs(subtitles@),
            keep == (|c: Seq<char>| !is_supported_subtitle_codec(c)),
            i <= subtitles@.len(),
            codecs@.map_values(|x: String| x@) == subtitle_codecs(subs.take(i as int)),
            unsupported@.map_values(|x: String| x@) == subtitle_codecs(subs.take(i as int)).filter(
                keep,
            ),
        decreases subtitles@.len() - i,
    {
        let codec = trim_str(subtitles[i].codec_name.as_str());
        let supported = is_supported_subtitle(codec.as_str());
        proof {
            reveal_with_fuel(Seq::<Seq<char>>::filter, 1);
            assert(subtitle_codecs(subs.take(i + 1)) =~= subtitle_codecs(subs.take(i as int)).push(
                codec@,
            ));
            assert(subtitle_codecs(subs.take(i + 1)).drop_last() =~= subtitle_codecs(
                subs.take(i as int),
            ));
        }
        if !supported {
            let copy = codec.clone();
            unsupported.push(copy);
        }
        codecs.push(codec);
        proof {
            assert(codecs@.map_values(|x: String| x@) =~= subtitle_codecs(subs.take(i + 1)));
            assert(unsupported@.map_values(|x: String| x@) =~= subtitle_codecs(
                subs.take(i + 1),
            ).filter(keep));
        }
        i = i + 1;
    }
    assert(subs.take(subtitles@.len() as int) =~= subs);
    if unsupported.len() == 0 {
        let joined = join_strings(&codecs, ", ");
        pass(label, cat("Supported subtitle codec(s): ", joined.as_str()))
    } else {
        let joined = join_strings(&unsupported, ", ");
        warn(label, cat("Unsupported or platform-sensitive subtitle codec(s): ", joined.as_str()))
    }
}

/// Number of streams in `list` flagged `forced`.
pub open spec fn forced_count(list: Seq<MediaStreamInfo>) -> nat {
    count_where(list, |s: MediaStreamInfo| has_disposition(s, "forced"@))
}

/// Forced subtitle streams.
pub open spec fn forced_subtitles_rule(subs: Seq<MediaStreamInfo>) -> CheckModel {
    let label = "Forced subtitles"@;
    let n = forced_count(subs);
    if n == 0 {
        passed(label, "No forced subtitle stream flagged"@)
    } else if n == 1 {
        warned(label, "1 forced subtitle stream present — verify target player behavior"@)
    } else {
        warned(label, decimal(n) + " forced subtitle streams present — verify delivery intent"@)
    }
}

pub fn check_forced_subtitles(subtitles: &Vec<&MediaStreamInfo>) -> (c: DiagnosticCheck)
    ensures
        c@ == forced_subtitles_rule(derefs(subtitles@)),
{
    let label = "Forced subtitles";
    let ghost p = |s: MediaStreamInfo| has_disposition(s, "forced"@);
    let ghost all = derefs(subtitles@);
    let mut n: usize = 0;
    let mut i: usize = 0;
    while i < subtitles.len()
        invariant
            all == derefs(subtitles@),
            p == (|s: MediaStreamInfo| has_disposition(s, "forced"@)),
            i <= subtitles@.len(),
            n <= i,
            n == count_where(all.take(i as int), p),
        decreases subtitles@.len() - i,
    {
        proof {
            lemma_count_where_step(all, p, i as int);
        }
        if stream_has_disposition(subtitles[i], "forced") {
            n = n + 1;
        }
        i = i + 1;
    }
    assert(all.take(subtitles@.len() as int) =~= all);
    if n == 0 {
        pass(label, lit("No forced subtitle stream flagged"))
    } else if n == 1 {
        warn(label, lit("1 forced subtitle stream present — verify target player behavior"))
    } else {
        let count = decimal_string(n as u64);
        warn(label, cat(count.as_str(), " forced subtitle streams present — verify delivery intent"))
    }
}

// ── File-level rules ─────────────────────────────────────────────────────────

/// The extension agrees with the container ffprobe found.
pub open spec fn extension_matches(ext: Seq<char>, format_name: Seq<char>) -> bool {
    if ext == "mp4"@ || ext == "m4v"@ {
        contains_seq(format_name, "mp4"@) || contains_seq(format_name, "mov"@)
    } else if ext == "mov"@ {
        contains_seq(format_name, "mov"@)
    } else if ext == "mkv"@ {
        contains_seq(format_name, "matroska"@)
    } else if ext == "mxf"@ {
        contains_seq(format_name, "mxf"@)
    } else if ext == "webm"@ {
        contains_seq(format_name, "webm"@) || contains_seq(format_name, "matroska"@)
    } else {
        true
    }
}

/// File extension against container.
pub open spec fn extension_rule(file_name: Seq<char>, format_name: Seq<char>) -> CheckModel {
    let label = "File extension"@;
    let ext = unicode_lowercase(after_last(file_name, '.'));
    if extension_matches(ext, format_name) {
        passed(label, "."@ + ext + " matches container"@)
    } else {
        warned(label, "."@ + ext + " does not match container — actual format is "@ + format_name)
    }
}

pub fn check_extension(file_name: &str, format_name: &str) -> (c: DiagnosticCheck)
    ensures
        c@ == extension_rule(file_name@, format_name@),
{
    let label = "File extension";
    let last = str_after_last(file_name, '.');
    let ext = to_lowercase(last.as_str());
    let e = ext.as_str();
    let matches = if is_one_of2(e, "mp4", "m4v") {
        str_contains(format_name, "mp4") || str_contains(format_name, "mov")
    } else if str_eq(e, "mov") {
        str_contains(format_name, "mov")
    } else if str_eq(e, "mkv") {
        str_contains(format_name, "matroska")
    } else if str_eq(e, "mxf") {
        str_contains(format_name, "mxf")
    } else if str_eq(e, "webm") {
        str_contains(format_name, "webm") || str_contains(format_name, "matroska")
    } else {
        true
    };
    if matches {
        pass(label, cat3(".", e, " matches container"))
    } else {
        let mut d = cat3(".", e, " does not match container — actual format is ");
        d.append(format_name);
        warn(label, d)
    }
}

/// A tag value that is present and not empty.
pub open spec fn nonempty_tag(tags: Seq<MediaKeyValue>, key: Seq<char>) -> Option<Seq<char>> {
    match tag_lookup(tags, key) {
        Some(v) => if v.len() > 0 {
            Some(v)
        } else {
            None
        },
        None => None,
    }
}

/// Encoder tag: the `encoder` tag, else the `encoding_tool` tag.
pub open spec fn encoder_rule(tags: Seq<MediaKeyValue>) -> CheckModel {
    let label = "Encoder"@;
    match nonempty_tag(tags, "encoder"@) {
        Some(enc) => passed(label, "Encoded with: "@ + enc),
        None => match nonempty_tag(tags, "encoding_tool"@) {
            Some(tool) => passed(label, "Encoded with: "@ + tool),
            None => warned(label, "No encoder tag — origin NLE unknown"@),
        },
    }
}

pub fn check_encoder_tag(format_tags: &Vec<MediaKeyValue>) -> (c: DiagnosticCheck)
    ensures
        c@ == encoder_rule(format_tags@),
{
    let label = "Encoder";
    match tag_value(format_tags, "encoder") {
        Some(enc) if !enc.as_str().is_empty() => {
            return pass(label, cat("Encoded with: ", enc.as_str()));
        },
        _ => {},
    }
    match tag_value(format_tags, "encoding_tool") {
        Some(tool) if !tool.as_str().is_empty() => pass(label, cat("Encoded with: ", tool.as_str())),
        _ => warn(label, lit("No encoder tag — origin NLE unknown")),
    }
}

/// Creation time tag.
pub open spec fn creation_time_rule(tags: Seq<MediaKeyValue>) -> CheckModel {
    let label = "Creation time"@;
    match nonempty_tag(tags, "creation_time"@) {
        Some(v) => passed(label, "Tagged: "@ + v),
        None => warned(label, "No creation_time tag found"@),
    }
}

pub fn check_creation_time_tag(format_tags: &Vec<MediaKeyValue>) -> (c: DiagnosticCheck)
    ensures
        c@ == creation_time_rule(format_tags@),
{
    let label = "Creation time";
    match tag_value(format_tags, "creation_time") {
        Some(value) if !value.as_str().is_empty() => pass(label, cat("Tagged: ", value.as_str())),
        _ => warn(label, lit("No creation_time tag found")),
    }
}

/// The `timecode` tag of the first video stream that has one.
pub open spec fn stream_timecode(video: Seq<MediaStreamInfo>) -> Option<Seq<char>> {
    let k = first_where(video, |s: MediaStreamInfo| tag_lookup(s.tags@, "timecode"@).is_some());
    if k < video.len() {
        tag_lookup(video[k].tags@, "timecode"@)
    } else {
        None
    }
}

/// Timecode, from the format tags or else the video streams.
pub open spec fn timecode_rule(
    format_tags: Seq<MediaKeyValue>,
    video: Seq<MediaStreamInfo>,
    profile: PlatformProfile,
) -> CheckModel {
    let label = "Timecode"@;
    let value = match tag_lookup(format_tags, "timecode"@) {
        Some(v) => v,
        None => match stream_timecode(video) {
            Some(v) => v,
            None => Seq::empty(),
        },
    };
    if value.len() > 0 {
        passed(label, "Timecode present: "@ + value)
    } else if profile == PlatformProfile::Broadcast {
        warned(label, "No timecode tag found for broadcast profile"@)
    } else {
        passed(label, "No explicit timecode tag — acceptable for web/mobile"@)
    }
}

fn find_stream_timecode(video: &Vec<&MediaStreamInfo>) -> (r: Option<String>)
    ensures
        r.is_some() == stream_timecode(derefs(video@)).is_some(),
        r matches Some(v) ==> stream_timecode(derefs(video@)) == Some(v@),
{
    let ghost all = derefs(video@);
    let ghost p = |s: MediaStreamInfo| tag_lookup(s.tags@, "timecode"@).is_some();
    let mut i: usize = 0;
    while i < video.len()
        invariant
            all == derefs(video@),
            p == (|s: MediaStreamInfo| tag_lookup(s.tags@, "timecode"@).is_some()),
            i <= video@.len(),
            forall|j: int| 0 <= j < i ==> !p(#[trigger] all[j]),
        decreases video@.len() - i,
    {
        match tag_value(&video[i].tags, "timecode") {
            Some(v) => {
                proof {
                    lemma_first_where(all, p, i as int);
                }
                return Some(v);
            },
            None => {},
        }
        i = i + 1;
    }
    proof {
        lemma_first_where(all, p, video@.len() as int);
    }
    None
}

pub fn check_timecode_tag(
    report: &MediaProbeReport,
    video: &Vec<&MediaStreamInfo>,
    profile: &PlatformProfile,
) -> (c: DiagnosticCheck)
    ensures
        c@ == timecode_rule(report.format_tags@, derefs(video@), *profile),
{
    let label = "Timecode";
    let value = match tag_value(&report.format_tags, "timecode") {
        Some(v) => v,
        None => match find_stream_timecode(video) {
            Some(v) => v,
            None => String::new(),
        },
    };
    if !value.as_str().is_empty() {
        return pass(label, cat("Timecode present: ", value.as_str()));
    }
    match profile {
        PlatformProfile::Broadcast => warn(label, lit("No timecode tag found for broadcast profile")),
        _ => pass(label, lit("No explicit timecode tag — acceptable for web/mobile")),
    }
}

// ── Running all rules ────────────────────────────────────────────────────────

/// The checks whose rules compare frame rates and timestamps numerically.
/// They are computed outside this library and placed by `run`.
#[derive(Clone, Debug, PartialEq)]
pub struct TimingChecks {
    /// "Frame rate" of the primary video stream.
    pub frame_rate: DiagnosticCheck,
    /// "Variable frame rate": average against container frame rate, for a
    /// stream that has both (the rules answer a stream that lacks either).
    pub frame_rate_consistency: DiagnosticCheck,
    /// "A/V start sync" between the primary video and audio streams.
    pub av_start_sync: DiagnosticCheck,
    /// "A/V duration" between the primary video and audio streams.
    pub av_duration: DiagnosticCheck,
}

/// Variable frame rate: a warning when the average or the container frame
/// rate is missing, else the numeric comparison of the timing checks.
pub open spec fn frame_rate_consistency_rule(
    avg_frame_rate: Seq<char>,
    r_frame_rate: Seq<char>,
    timing: TimingChecks,
) -> CheckModel {
    if avg_frame_rate.len() == 0 || r_frame_rate.len() == 0 {
        warned("Variable frame rate"@, "Cannot determine — frame rate data missing"@)
    } else {
        timing.frame_rate_consistency@
    }
}

fn check_frame_rate_consistency(vs: &MediaStreamInfo, timing: &TimingChecks) -> (c: DiagnosticCheck)
    ensures
        c@ == frame_rate_consistency_rule(vs.avg_frame_rate@, vs.r_frame_rate@, *timing),
{
    if vs.avg_frame_rate.as_str().is_empty() || vs.r_frame_rate.as_str().is_empty() {
        warn("Variable frame rate", lit("Cannot determine — frame rate data missing"))
    } else {
        copy_check(&timing.frame_rate_consistency)
    }
}

fn copy_check(c: &DiagnosticCheck) -> (r: DiagnosticCheck)
    ensures
        r@ == c@,
{
    DiagnosticCheck { label: c.label.clone(), status: c.status, detail: c.detail.clone() }
}

/// The checks of the primary video stream, in order.
pub open spec fn video_rules(
    vs: MediaStreamInfo,
    profile: PlatformProfile,
    timing: TimingChecks,
) -> Seq<CheckModel> {
    seq![
        video_codec_rule(vs.codec_name@, profile),
        pixel_format_rule(vs.pixel_format@),
        color_depth_rule(vs.bits_per_raw_sample@),
        field_order_rule(vs.field_order@),
        timing.frame_rate@,
        frame_rate_consistency_rule(vs.avg_frame_rate@, vs.r_frame_rate@, timing),
        rotation_rule(vs.tags@),
        sample_aspect_ratio_rule(vs.sample_aspect_ratio@),
        color_space_rule(
            vs.color_primaries@,
            vs.color_transfer@,
            vs.color_space@,
            vs.color_range@,
        ),
        b_frames_rule(vs.has_b_frames@),
        chroma_location_rule(vs.chroma_location@),
        closed_captions_rule(vs.closed_captions@),
    ] + (if vs.side_data@.len() > 0 {
        hdr_side_data_rule(vs.side_data@)
    } else {
        Seq::empty()
    }) + (if vs.codec_name@ == "h264"@ {
        seq![h264_profile_rule(vs.profile@, profile)]
    } else {
        Seq::empty()
    })
}

/// The checks of the primary audio stream, in order.
pub open spec fn audio_rules(a: MediaStreamInfo, profile: PlatformProfile) -> Seq<CheckModel> {
    seq![
        audio_codec_rule(a.codec_name@, profile),
        audio_channels_rule(a.channel_layout@, profile),
        sample_rate_rule(a.sample_rate@, profile),
        audio_bit_depth_rule(a.bits_per_sample@, profile),
        default_audio_rule(a),
    ]
}

/// The video streams of a report (cover pictures left out).
pub open spec fn video_streams(report: MediaProbeReport) -> Seq<MediaStreamInfo> {
    report.streams@.filter(kind_pred(StreamKind::Video))
}

/// The audio streams of a report.
pub open spec fn audio_streams(report: MediaProbeReport) -> Seq<MediaStreamInfo> {
    report.streams@.filter(kind_pred(StreamKind::Audio))
}

/// The subtitle streams of a report.
pub open spec fn subtitle_streams(report: MediaProbeReport) -> Seq<MediaStreamInfo> {
    report.streams@.filter(kind_pred(StreamKind::Subtitle))
}

/// The checks that do not depend on the primary streams, in order.
pub open spec fn file_rules(report: MediaProbeReport, profile: PlatformProfile) -> Seq<
    CheckModel,
> {
    let audio = audio_streams(report);
    let subs = subtitle_streams(report);
    seq![
        audio_language_rule(audio),
        subtitles_rule(report.subtitle_count as nat),
        subtitle_codec_rule(subs),
        subtitle_language_rule(subs),
        forced_subtitles_rule(subs),
        extension_rule(report.file_name@, report.format_name@),
        encoder_rule(report.format_tags@),
        creation_time_rule(report.format_tags@),
        timecode_rule(report.format_tags@, video_streams(report), profile),
    ]
}

/// All checks of a report, in the order `run` produces them.
pub open spec fn run_rules(
    report: MediaProbeReport,
    profile: PlatformProfile,
    timing: TimingChecks,
) -> Seq<CheckModel> {
    let video = video_streams(report);
    let audio = audio_streams(report);
    seq![container_rule(report.format_name@, profile)] + (if video.len() > 0 {
        video_rules(video[0], profile, timing)
    } else {
        Seq::empty()
    }) + seq![audio_present_rule(report.audio_count as nat)] + (if audio.len() > 0 {
        audio_rules(audio[0], profile)
    } else {
        Seq::empty()
    }) + file_rules(report, profile) + (if video.len() > 0 && audio.len() > 0 {
        seq![timing.av_start_sync@, timing.av_duration@]
    } else {
        Seq::empty()
    })
}

fn video_checks(vs: &MediaStreamInfo, profile: &PlatformProfile, timing: &TimingChecks) -> (r:
    Vec<DiagnosticCheck>)
    ensures
        views(r@) == video_rules(*vs, *profile, *timing),
{
    let mut checks: Vec<DiagnosticCheck> = Vec::new();
    checks.push(check_video_codec(vs.codec_name.as_str(), profile));
    checks.push(check_pixel_format(vs.pixel_format.as_str()));
    checks.push(check_color_depth(vs.bits_per_raw_sample.as_str()));
    checks.push(check_field_order(vs.field_order.as_str()));
    checks.push(copy_check(&timing.frame_rate));
    checks.push(check_frame_rate_consistency(vs, timing));
    checks.push(check_rotation(&vs.tags));
    checks.push(check_sample_aspect_ratio(vs.sample_aspect_ratio.as_str()));
    checks.push(
        check_color_space(
            vs.color_primaries.as_str(),
            vs.color_transfer.as_str(),
            vs.color_space.as_str(),
            vs.color_range.as_str(),
        ),
    );
    checks.push(check_b_frames(vs.has_b_frames.as_str()));
    checks.push(check_chroma_location(vs.chroma_location.as_str()));
    checks.push(check_closed_captions(vs.closed_captions.as_str()));
    let ghost base = views(checks@);
    if vs.side_data.len() > 0 {
        let mut hdr = check_hdr_side_data(&vs.side_data);
        let ghost h = hdr@;
        checks.append(&mut hdr);
        assert(views(checks@) =~= base + views(h));
    }
    let ghost mid = views(checks@);
    if str_eq(vs.codec_name.as_str(), "h264") {
        checks.push(check_h264_profile(vs.profile.as_str(), profile));
        assert(views(checks@) =~= mid + seq![h264_profile_rule(vs.profile@, *profile)]);
    } else {
        assert(views(checks@) =~= mid + Seq::<CheckModel>::empty());
    }
    assert(views(checks@) =~= video_rules(*vs, *profile, *timing));
    checks
}

fn audio_checks(a: &MediaStreamInfo, profile: &PlatformProfile) -> (r: Vec<DiagnosticCheck>)
    ensures
        views(r@) == audio_rules(*a, *profile),
{
    let mut checks: Vec<DiagnosticCheck> = Vec::new();
    checks.push(check_audio_codec(a.codec_name.as_str(), profile));
    checks.push(check_audio_channels(a.channel_layout.as_str(), profile));
    checks.push(check_sample_rate(a.sample_rate.as_str(), profile));
    checks.push(check_audio_bit_depth(a.bits_per_sample.as_str(), profile));
    checks.push(check_default_audio_stream(a));
    assert(views(checks@) =~= audio_rules(*a, *profile));
    checks
}

fn file_checks(
    report: &MediaProbeReport,
    video: &Vec<&MediaStreamInfo>,
    audio: &Vec<&MediaStreamInfo>,
    subtitles: &Vec<&MediaStreamInfo>,
    profile: &PlatformProfile,
) -> (r: Vec<DiagnosticCheck>)
    requires
        derefs(video@) == video_streams(*report),
        derefs(audio@) == audio_streams(*report),
        derefs(subtitles@) == subtitle_streams(*report),
    ensures
        views(r@) == file_rules(*report, *profile),
{
    let mut checks: Vec<DiagnosticCheck> = Vec::new();
    checks.push(check_audio_language_tags(audio));
    checks.push(check_subtitles(report.subtitle_count));
    checks.push(check_subtitle_codecs(subtitles));
    checks.push(check_subtitle_language_tags(subtitles));
    checks.push(check_forced_subtitles(subtitles));
    checks.push(check_extension(report.file_name.as_str(), report.format_name.as_str()));
    checks.push(check_encoder_tag(&report.format_tags));
    checks.push(check_creation_time_tag(&report.format_tags));
    checks.push(check_timecode_tag(report, video, profile));
    assert(views(checks@) =~= file_rules(*report, *profile));
    checks
}

/// The primary video stream (the first video stream that is not a cover
/// picture) and the primary audio stream (the first audio stream).
pub fn primary_streams(report: &MediaProbeReport) -> (r: (
    Option<&MediaStreamInfo>,
    Option<&MediaStreamInfo>,
))
    ensures
        r.0.is_some() == (video_streams(*report).len() > 0),
        r.0 matches Some(v) ==> *v == video_streams(*report)[0],
        r.1.is_some() == (audio_streams(*report).len() > 0),
        r.1 matches Some(a) ==> *a == audio_streams(*report)[0],
{
    let video = select_streams(&report.streams, StreamKind::Video);
    let audio = select_streams(&report.streams, StreamKind::Audio);
    let v = if video.len() > 0 {
        assert(derefs(video@)[0] == *video@[0]);
        Some(video[0])
    } else {
        None
    };
    let a = if audio.len() > 0 {
        assert(derefs(audio@)[0] == *audio@[0]);
        Some(audio[0])
    } else {
        None
    };
    (v, a)
}

/// Applies every rule to `report` for `profile`. The checks come in a fixed
/// order: container; the primary video stream's rules (with the frame-rate
/// checks of `timing`); audio presence; the primary audio stream's rules;
/// language, subtitle, extension, encoder, creation-time and timecode rules;
/// and, when there are both video and audio, the A/V checks of `timing`.
pub fn run(report: &MediaProbeReport, profile: &PlatformProfile, timing: &TimingChecks) -> (r:
    DiagnosticReport)
    ensures
        r@ == run_rules(*report, *profile, *timing),
{
    let video = select_streams(&report.streams, StreamKind::Video);
    let audio = select_streams(&report.streams, StreamKind::Audio);
    let subtitles = select_streams(&report.streams, StreamKind::Subtitle);
    let ghost vseq = video_streams(*report);
    let ghost aseq = audio_streams(*report);

    let mut checks: Vec<DiagnosticCheck> = Vec::new();
    checks.push(check_container(report.format_name.as_str(), profile));
    let ghost s1 = views(checks@);

    if video.len() > 0 {
        let vs = video[0];
        assert(derefs(video@)[0] == *vs);
        let mut vc = video_checks(vs, profile, timing);
        let ghost h = vc@;
        checks.append(&mut vc);
        assert(views(checks@) =~= s1 + views(h));
    } else {
        assert(views(checks@) =~= s1 + Seq::<CheckModel>::empty());
    }
    let ghost s2 = views(checks@);

    checks.push(check_audio_present(report.audio_count));
    assert(views(checks@) =~= s2 + seq![audio_present_rule(report.audio_count as nat)]);
    let ghost s3 = views(checks@);

    if audio.len() > 0 {
        let a = audio[0];
        assert(derefs(audio@)[0] == *a);
        let mut ac = audio_checks(a, profile);
        let ghost h = ac@;
        checks.append(&mut ac);
        assert(views(checks@) =~= s3 + views(h));
    } else {
        assert(views(checks@) =~= s3 + Seq::<CheckModel>::empty());
    }
    let ghost s4 = views(checks@);

    let mut fc = file_checks(report, &video, &audio, &subtitles, profile);
    let ghost h = fc@;
    checks.append(&mut fc);
    assert(views(checks@) =~= s4 + views(h));
    let ghost s5 = views(checks@);

    if video.len() > 0 && audio.len() > 0 {
        checks.push(copy_check(&timing.av_start_sync));
        checks.push(copy_check(&timing.av_duration));
        assert(views(checks@) =~= s5 + seq![timing.av_start_sync@, timing.av_duration@]);
    } else {
        assert(views(checks@) =~= s5 + Seq::<CheckModel>::empty());
    }
    let r = DiagnosticReport { checks };
    assert(r@ =~= run_rules(*report, *profile, *timing));
    r
}

/// A report without audio tracks fails, whatever the profile: its checks
/// include the failing "Audio track" check, so at least one check fails.
pub proof fn lemma_no_audio_fails(
    report: MediaProbeReport,
    profile: PlatformProfile,
    timing: TimingChecks,
)
    requires
        report.audio_count == 0,
    ensures
        run_rules(report, profile, timing).contains(
            failed("Audio track"@, "No audio track — video is silent"@),
        ),
        count_status(run_rules(report, profile, timing), DiagnosticStatus::Fail) >= 1,
{
    let video = video_streams(report);
    let audio = audio_streams(report);
    let a = seq![container_rule(report.format_name@, profile)] + (if video.len() > 0 {
        video_rules(video[0], profile, timing)
    } else {
        Seq::empty()
    });
    let b = seq![audio_present_rule(report.audio_count as nat)];
    let c = (if audio.len() > 0 {
        audio_rules(audio[0], profile)
    } else {
        Seq::empty()
    }) + file_rules(report, profile) + (if video.len() > 0 && audio.len() > 0 {
        seq![timing.av_start_sync@, timing.av_duration@]
    } else {
        Seq::empty()
    });
    let all = run_rules(report, profile, timing);
    assert(all =~= a + b + c);
    assert(all[a.len() as int] == b[0]);
    lemma_count_concat(a, b, DiagnosticStatus::Fail);
    lemma_count_concat(a + b, c, DiagnosticStatus::Fail);
    assert(b.drop_last() =~= Seq::<CheckModel>::empty());
}


/// HEVC is judged by the profile: when the primary video stream is HEVC
/// (`hevc` or `h265`), the second check of the diagnostic is the video codec
/// check, and it passes for broadcast only; on the web and on mobile it warns.
pub proof fn lemma_hevc_passes_only_broadcast(
    report: MediaProbeReport,
    profile: PlatformProfile,
    timing: TimingChecks,
)
    requires
        video_streams(report).len() > 0,
        video_streams(report)[0].codec_name@ == "hevc"@ || video_streams(report)[0].codec_name@
            == "h265"@,
    ensures
        run_rules(report, profile, timing).len() > 1,
        run_rules(report, profile, timing)[1].label == "Video codec"@,
        run_rules(report, profile, timing)[1].status == if profile == PlatformProfile::Broadcast {
            DiagnosticStatus::Pass
        } else {
            DiagnosticStatus::Warn
        },
{
    reveal_strlit("hevc");
    reveal_strlit("h265");
    reveal_strlit("h264");
    assert("hevc"@[1] != "h264"@[1]);
    assert("h265"@[3] != "h264"@[3]);
    let vs = video_streams(report)[0];
    let v = video_rules(vs, profile, timing);
    let all = run_rules(report, profile, timing);
    assert(v[0] == video_codec_rule(vs.codec_name@, profile));
    assert(all[1] == v[0]);
}


/// The video codec verdicts: the check is always labelled `Video codec`;
/// H.264 passes everywhere, HEVC passes for broadcast only and warns
/// elsewhere, AV1 always warns, VP9 warns on the web and fails elsewhere,
/// and a stream without a codec fails.
pub proof fn lemma_video_codec_verdicts(codec: Seq<char>, profile: PlatformProfile)
    ensures
        video_codec_rule(codec, profile).label == "Video codec"@,
        codec == "h264"@ ==> video_codec_rule(codec, profile).status == DiagnosticStatus::Pass,
        codec == "hevc"@ || codec == "h265"@ ==> video_codec_rule(codec, profile).status == if profile
            == PlatformProfile::Broadcast {
            DiagnosticStatus::Pass
        } else {
            DiagnosticStatus::Warn
        },
        codec == "av1"@ ==> video_codec_rule(codec, profile).status == DiagnosticStatus::Warn,
        codec == "vp9"@ ==> video_codec_rule(codec, profile).status == if profile
            == PlatformProfile::Web {
            DiagnosticStatus::Warn
        } else {
            DiagnosticStatus::Fail
        },
        codec.len() == 0 ==> video_codec_rule(codec, profile).status == DiagnosticStatus::Fail,
{
    reveal_strlit("h264");
    reveal_strlit("hevc");
    reveal_strlit("h265");
    reveal_strlit("av1");
    reveal_strlit("vp9");
    assert("hevc"@[1] != "h264"@[1]);
    assert("h265"@[3] != "h264"@[3]);
    assert("av1"@.len() != "h264"@.len() && "av1"@.len() != "hevc"@.len());
    assert("vp9"@.len() != "h264"@.len() && "vp9"@.len() != "hevc"@.len() && "vp9"@[0] != "av1"@[0]);
    reveal_strlit("prores");
    reveal_strlit("dnxhd");
    reveal_strlit("dnxhr");
    reveal_strlit("cineform");
}

} // verus!

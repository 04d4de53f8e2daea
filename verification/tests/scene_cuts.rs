use video_platform::tool_output::{extract_token, scene_cut_tokens};

/// Reads the cut times as numbers and drops those that are not, as the
/// server does with the tokens.
fn parse_scene_cuts(stderr: &str) -> Vec<(f64, String)> {
    scene_cut_tokens(stderr)
        .into_iter()
        .filter_map(|t| t.pts_time.parse::<f64>().ok().map(|secs| (secs, t.score)))
        .collect()
}

#[test]
fn parses_showinfo_scene_lines() {
    let stderr = "[Parsed_showinfo_1 @ 0x0] n:   0 pts: 3003 pts_time:3.003 duration:1 duration_time:0.0417083 fmt:yuv420p sar:1/1 s:1920x1080 i:P iskey:1 type:I checksum:000 plane_checksum:[000] mean:[0] stdev:[0] scene:0.412\n";
    let cuts = parse_scene_cuts(stderr);
    assert_eq!(cuts.len(), 1);
    assert!((cuts[0].0 - 3.003).abs() < 0.001);
    assert_eq!(cuts[0].1, "0.412");
}

#[test]
fn lines_without_showinfo_or_time_are_skipped() {
    let stderr = "frame=  10 fps=0.0 pts_time:1.0\n[Parsed_showinfo_1 @ 0x0] n: 1 scene:0.5\n[Parsed_showinfo_1 @ 0x0] n: 2 pts_time:7.5\r\n";
    let cuts = scene_cut_tokens(stderr);
    assert_eq!(cuts.len(), 1);
    assert_eq!(cuts[0].pts_time, "7.5");
    assert_eq!(cuts[0].score, "");
}

#[test]
fn token_is_the_word_after_the_key() {
    assert_eq!(extract_token("a key:  value rest", "key:"), Some("value".to_string()));
    assert_eq!(extract_token("a key:", "key:"), None);
    assert_eq!(extract_token("nothing here", "key:"), None);
    assert_eq!(extract_token("x:1 x:2", "x:"), Some("1".to_string()));
}

# video_platform

Media diagnostics for a video platform, verified with Verus.

A dropped or uploaded video is probed with ffprobe, enriched with mediainfo,
ffmpeg loudness, thumbnails and subtitles, checked against the delivery rules
of a platform profile (web, broadcast, mobile), and compared with another
file. A terminal queue moves transcoding jobs along and lets them be
reordered; a terminal viewer shows the metadata of a dropped path.

## Layout

- `src/` — the verified library. Every function has a contract over plain
  mathematical values (`Seq`, `int`, views of the data types).
  - `text`, `json_text`, `encoding`, `paths`, `tags`: text, JSON values,
    base64, paths and tag lookups.
  - `media_report`, `ffprobe_map`, `tool_output`: the probe report and how it
    is built from ffprobe's JSON, ffmpeg's loudness and scene output and
    mediainfo's JSON.
  - `diagnostic`, `rules`, `comparison`: delivery rules and comparison rows.
  - `upload_flow`, `upload_session`, `progress_store`, `inspection_session`:
    the upload endpoints' decisions, the progress of inspections, and the
    diagnostic page (its two upload slots and the profile they are checked
    under).
  - `job_queue`, `job_reorder`, `drop_paths`, `terminal_input`,
    `metadata_view`, `display`, `app_error`, `bug_reports`: the terminal
    tools' state machines and the pages' texts.
- `tests/` — tests run against the compiled library.
- `app/` — a command-line front end: it runs ffprobe, ffmpeg and mediainfo,
  reads files, computes the floating-point timing rules and the queue's
  rounded percentages, and prints.

//! Media diagnostics: delivery rules over ffprobe reports, report comparison,
//! the state of the transcoding queue and of the drop-path inputs, and the
//! parsers for the text that ffmpeg and friends print.

pub mod text;
pub mod media_report;
pub mod diagnostic;
pub mod tags;
pub mod rules;
pub mod comparison;
pub mod paths;
pub mod job_queue;
pub mod drop_paths;
pub mod terminal_input;
pub mod job_reorder;
pub mod app_error;
pub mod json_text;
pub mod ffprobe_map;
pub mod metadata_view;
pub mod tool_output;
pub mod upload_flow;
pub mod encoding;
pub mod display;
pub mod inspection_session;
pub mod bug_reports;
pub mod progress_store;
pub mod upload_session;

use video_platform::job_queue::{format_duration, App, Job, JobStatus, JOB_DURATION_MS};
use video_platform::job_reorder::{
    apply_drag_action, clamp_index, job_index_at, starts_drop_capture, DragAndDropAction,
    DragAndDropState, PendingDropInput,
};
use video_platform::terminal_input::{Area, KeyInput, MouseInput, MouseKind};

fn job(name: &str) -> Job {
    Job {
        input: format!("{name}.mov"),
        output: format!("{name}.mp4"),
        input_size_mb: 1000,
        target_output_mb: 400,
        ..Default::default()
    }
}

fn queue() -> App {
    App::new(vec![job("a"), job("b"), job("c")], 0)
}

#[test]
fn a_new_queue_is_paused_at_its_first_job() {
    let app = queue();
    assert!(app.is_paused());
    assert_eq!(app.current_job_index(), 0);
    assert_eq!(app.current_job_status(), JobStatus::Running);
    assert_eq!((app.pending_jobs(), app.completed_jobs(), app.total_jobs()), (2, 0, 3));
}

#[test]
fn jobs_finish_in_order_and_earlier_jobs_are_done() {
    let mut app = queue();
    app.toggle_pause(0);
    app.update(JOB_DURATION_MS);
    assert_eq!(app.current_job_index(), 1);
    assert_eq!(app.job_status(0), JobStatus::Done);
    assert_eq!(app.job_status(2), JobStatus::Queued);
    app.update(2 * JOB_DURATION_MS);
    app.update(3 * JOB_DURATION_MS);
    assert!(app.is_complete());
    assert_eq!(app.completed_jobs(), 3);
    let last = app.current_job_index();
    app.update(10 * JOB_DURATION_MS);
    assert_eq!(app.current_job_index(), last, "a complete queue stays where it is");
    assert!(app.pending_jobs() + app.completed_jobs() <= app.total_jobs());
}

#[test]
fn a_paused_job_does_not_advance() {
    let mut app = queue();
    app.update(5 * JOB_DURATION_MS);
    assert_eq!(app.current_job_index(), 0);
    assert_eq!(app.job_elapsed(5 * JOB_DURATION_MS), 0);
    app.toggle_pause(100);
    assert_eq!(app.job_elapsed(100 + JOB_DURATION_MS / 4), JOB_DURATION_MS / 4);
    assert_eq!(app.speed_label(100 + JOB_DURATION_MS / 4), "1.6x");
}

#[test]
fn moving_a_job_keeps_the_current_job() {
    let mut app = queue();
    app.toggle_pause(0);
    app.update(JOB_DURATION_MS);
    let current = app.current_job().input.clone();
    app.move_job(0, 2);
    assert_eq!(app.current_job().input, current);
    assert_eq!(app.jobs()[2].input, "a.mov");
    app.move_job(1, 1);
    app.move_job(5, 0);
    assert_eq!(app.jobs()[2].input, "a.mov");
}

#[test]
fn dropped_documents_stay_distinct() {
    let mut app = queue();
    app.add_dropped_document("/v/a.mov".into());
    app.add_dropped_document("/v/./a.mov".into());
    app.add_dropped_document("/v/b.mov".into());
    assert_eq!(app.dropped_document_count(), 2);
    assert_eq!(App::document_label("/v/b.mov"), "b.mov");
}

#[test]
fn durations_as_clock_text() {
    assert_eq!(format_duration(0), "00:00:00");
    assert_eq!(format_duration(61_000), "00:01:01");
    assert_eq!(format_duration(6_000_000), "00:100:00");
}

#[test]
fn keys_keep_the_selection_in_range() {
    let mut s = DragAndDropState::new();
    for _ in 0..5 {
        s.handle_key(KeyInput::Down, 3);
    }
    assert_eq!(s.selected_index(), 2);
    for _ in 0..5 {
        s.handle_key(KeyInput::Char('k'), 3);
    }
    assert_eq!(s.selected_index(), 0);
    assert_eq!(clamp_index(9, 3), 2);
    assert_eq!(clamp_index(9, 0), 0);
}

#[test]
fn space_twice_moves_nothing() {
    let mut s = DragAndDropState::new();
    s.handle_key(KeyInput::Down, 3);
    assert_eq!(s.handle_key(KeyInput::Char(' '), 3), None);
    assert_eq!(s.dragging_index(), Some(1));
    let action = s.handle_key(KeyInput::Char(' '), 3);
    let mut app = queue();
    let before: Vec<String> = app.jobs().iter().map(|j| j.input.clone()).collect();
    apply_drag_action(&mut app, action);
    let after: Vec<String> = app.jobs().iter().map(|j| j.input.clone()).collect();
    assert_eq!(before, after);
}

#[test]
fn a_drag_reorders_the_queue() {
    let area = Area { x: 0, y: 0, width: 10, height: 5 };
    let mut s = DragAndDropState::new();
    let at = |kind, row| MouseInput { kind, column: 1, row };
    assert_eq!(s.handle_mouse(at(MouseKind::Down, 0), area, 3), None);
    assert_eq!(s.handle_mouse(at(MouseKind::Drag, 2), area, 3), None);
    assert_eq!(s.drop_target_index(), Some(2));
    let action = s.handle_mouse(at(MouseKind::Up, 2), area, 3);
    assert_eq!(action, Some(DragAndDropAction::Reorder { from_index: 0, to_index: 2 }));
    let mut app = queue();
    apply_drag_action(&mut app, action);
    assert_eq!(app.jobs()[2].input, "a.mov");
    assert_eq!(s.dragging_index(), None);
}

#[test]
fn keys_move_the_selection_not_the_drop_target() {
    let mut s = DragAndDropState::new();
    s.handle_key(KeyInput::Char(' '), 3);
    s.handle_key(KeyInput::Down, 3);
    s.handle_key(KeyInput::Down, 3);
    assert_eq!(s.selected_index(), 2);
    let action = s.handle_key(KeyInput::Char(' '), 3);
    assert_eq!(action, Some(DragAndDropAction::Reorder { from_index: 0, to_index: 0 }));
    s.handle_key(KeyInput::Char(' '), 3);
    s.handle_key(KeyInput::Esc, 3);
    assert_eq!(s.dragging_index(), None);
}

#[test]
fn mouse_rows_map_to_jobs() {
    let area = Area { x: 2, y: 5, width: 20, height: 6 };
    assert_eq!(job_index_at(area, 3, 5, 4), Some(0));
    assert_eq!(job_index_at(area, 3, 8, 4), Some(3));
    assert_eq!(job_index_at(area, 3, 9, 4), None);
    assert_eq!(job_index_at(area, 30, 5, 4), None);
    let mut s = DragAndDropState::new();
    s.handle_mouse(MouseInput { kind: MouseKind::Down, column: 3, row: 6 }, area, 4);
    assert_eq!(s.selected_index(), 1);
}

#[test]
fn dropped_text_becomes_documents() {
    assert!(starts_drop_capture('/'));
    assert!(!starts_drop_capture('q'));
    let mut app = queue();
    let mut pending = PendingDropInput::new();
    for c in "'/v/my\\ clip.mov'".chars() {
        pending.handle_key(KeyInput::Char(c), &mut app, 10);
    }
    assert!(pending.label().is_some());
    pending.flush_if_idle(&mut app, 100);
    assert_eq!(app.dropped_document_count(), 0, "still typing");
    pending.flush_if_idle(&mut app, 10_000);
    assert_eq!(app.dropped_documents(), &["/v/my clip.mov".to_string()]);
    assert!(pending.label().is_none());
}

#[test]
fn moving_a_job_there_and_back_restores_the_queue() {
    let mut app = queue();
    app.toggle_pause(0);
    app.update(JOB_DURATION_MS);
    let before: Vec<String> = app.jobs().iter().map(|j| j.input.clone()).collect();
    for (a, b) in [(0, 2), (2, 0), (1, 2), (0, 1)] {
        app.move_job(a, b);
        app.move_job(b, a);
        let after: Vec<String> = app.jobs().iter().map(|j| j.input.clone()).collect();
        assert_eq!(after, before);
        assert_eq!(app.current_job_index(), 1);
    }
}

#[test]
fn a_celebration_lasts_its_frames() {
    let mut app = queue();
    app.trigger_celebration();
    for _ in 0..47 {
        app.update(0);
        assert!(app.should_celebrate());
    }
    app.update(0);
    assert!(!app.should_celebrate());
    app.update(0);
    assert!(!app.should_celebrate());
}

#[test]
fn job_statuses_partition_the_queue() {
    let mut failing = job("d");
    failing.failure_reason = Some("codec".into());
    let mut app = App::new(vec![job("a"), job("b"), failing, job("e")], 0);
    app.toggle_pause(0);
    for step in 0..5u64 {
        let statuses: Vec<JobStatus> = (0..app.total_jobs()).map(|i| app.job_status(i)).collect();
        let count = |st: JobStatus| statuses.iter().filter(|s| **s == st).count();
        assert_eq!(count(JobStatus::Queued), app.pending_jobs());
        assert_eq!(count(JobStatus::Done), app.completed_jobs());
        assert_eq!(count(JobStatus::Running), if app.is_complete() { 0 } else { 1 });
        assert_eq!(
            app.pending_jobs() + app.completed_jobs() + count(JobStatus::Failed) + count(JobStatus::Running),
            app.total_jobs()
        );
        app.update((step + 1) * JOB_DURATION_MS);
    }
}

#[test]
fn the_drag_state_stays_valid() {
    let mut s = DragAndDropState::new();
    let area = Area { x: 0, y: 0, width: 10, height: 5 };
    let at = |kind, row| MouseInput { kind, column: 1, row };
    let valid = |s: &DragAndDropState| {
        s.selected_index() < 3
            && s.dragging_index().is_some() == s.drop_target_index().is_some()
            && s.dragging_index().map_or(true, |d| d < 3)
            && s.drop_target_index().map_or(true, |t| t < 3)
    };
    assert!(valid(&s));
    s.handle_mouse(at(MouseKind::Down, 4), area, 3);
    assert!(valid(&s));
    s.handle_mouse(at(MouseKind::Down, 2), area, 3);
    assert!(valid(&s) && s.dragging_index() == Some(2));
    s.handle_mouse(at(MouseKind::Drag, 0), area, 3);
    assert!(valid(&s));
    s.handle_key(KeyInput::Down, 3);
    assert!(valid(&s));
    s.set_selected(9, 3);
    assert!(valid(&s));
    s.handle_key(KeyInput::Char(' '), 3);
    assert!(valid(&s) && s.dragging_index().is_none());
    s.handle_key(KeyInput::Char(' '), 3);
    assert!(valid(&s) && s.dragging_index().is_some());
    s.cancel_drag();
    assert!(valid(&s) && s.drop_target_index().is_none());
}

#[test]
fn dropping_the_same_path_twice_adds_it_once() {
    let mut app = queue();
    app.add_dropped_document("/v/a.mov".into());
    let once: Vec<String> = app.dropped_documents().to_vec();
    app.add_dropped_document("/v/a.mov".into());
    assert_eq!(app.dropped_documents(), once.as_slice());
    assert_eq!(app.total_jobs(), 3);
}

#[test]
fn the_status_word_follows_the_queue() {
    let mut app = queue();
    assert_eq!(app.status_word(), "Paused");
    app.toggle_pause(0);
    assert_eq!(app.status_word(), "Processing...");
    app.update(JOB_DURATION_MS);
    app.update(2 * JOB_DURATION_MS);
    app.update(3 * JOB_DURATION_MS);
    assert!(app.is_complete());
    assert_eq!(app.status_word(), "Done");
}

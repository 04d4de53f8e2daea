//! Reordering the job list of the terminal client with keys or the mouse, and
//! capturing a path typed or dropped into the terminal.
use vstd::prelude::*;

use crate::drop_paths::{dropped_paths, parse_dropped_paths};
use crate::job_queue::{App, AppModel, job_moved, well_formed};
use crate::paths::same_path;
use crate::terminal_input::{Area, KeyInput, MouseInput, MouseKind};
use crate::text::{chars_of, push_char, string_from_range};

verus! {

/// A reorder requested by a finished drag.
#[derive(Clone, Copy, Debug, PartialEq, Eq, Structural)]
pub enum DragAndDropAction {
    Reorder { from_index: usize, to_index: usize },
}

/// Selection and drag state of the job list.
pub struct DragAndDropState {
    selected_index: usize,
    dragging_index: Option<usize>,
    drop_target_index: Option<usize>,
}

/// The drag state as plain values.
pub struct DragModel {
    pub selected: usize,
    pub dragging: Option<usize>,
    pub drop_target: Option<usize>,
}

impl View for DragAndDropState {
    type V = DragModel;

    closed spec fn view(&self) -> DragModel {
        DragModel {
            selected: self.selected_index,
            dragging: self.dragging_index,
            drop_target: self.drop_target_index,
        }
    }
}

/// `index` limited to the rows `0..item_count` (0 when there are none).
pub open spec fn clamped(index: usize, item_count: usize) -> usize {
    if item_count == 0 {
        0
    } else if index < item_count - 1 {
        index
    } else {
        (item_count - 1) as usize
    }
}

pub fn clamp_index(index: usize, item_count: usize) -> (r: usize)
    ensures
        r == clamped(index, item_count),
{
    if item_count == 0 {
        0
    } else if index < item_count - 1 {
        index
    } else {
        item_count - 1
    }
}

/// The drag state with no drag going on.
pub open spec fn cancelled(m: DragModel) -> DragModel {
    DragModel { dragging: None, drop_target: None, ..m }
}

/// Starting a drag at row `index`.
pub open spec fn drag_begun(m: DragModel, index: usize, n: usize) -> DragModel {
    if n == 0 {
        cancelled(m)
    } else {
        let c = clamped(index, n);
        DragModel { selected: c, dragging: Some(c), drop_target: Some(c) }
    }
}

/// Moving the drop target of a drag to row `index`.
pub open spec fn target_moved(m: DragModel, index: usize, n: usize) -> DragModel {
    if m.dragging is None || n == 0 {
        m
    } else {
        let c = clamped(index, n);
        DragModel { selected: c, drop_target: Some(c), ..m }
    }
}

/// Ending a drag: the selection follows the drop target.
pub open spec fn drop_finished(m: DragModel, n: usize) -> DragModel {
    let fallback = match m.dragging {
        Some(d) => d,
        None => m.selected,
    };
    let target = match m.drop_target {
        Some(t) => t,
        None => fallback,
    };
    DragModel { selected: clamped(target, n), dragging: None, drop_target: None }
}

/// The state and action after a key.
pub open spec fn after_key(m: DragModel, key: KeyInput, n: usize) -> (DragModel, Option<
    DragAndDropAction,
>) {
    match key {
        KeyInput::Up => (
            if n == 0 {
                DragModel { selected: 0, ..m }
            } else {
                DragModel {
                    selected: if m.selected == 0 {
                        0
                    } else {
                        (m.selected - 1) as usize
                    },
                    ..m
                }
            },
            None,
        ),
        KeyInput::Down => (down(m, n), None),
        KeyInput::Char(c) => if c == 'k' {
            (
                if n == 0 {
                    DragModel { selected: 0, ..m }
                } else {
                    DragModel {
                        selected: if m.selected == 0 {
                            0
                        } else {
                            (m.selected - 1) as usize
                        },
                        ..m
                    }
                },
                None,
            )
        } else if c == 'j' {
            (down(m, n), None)
        } else if c == ' ' {
            match m.dragging {
                Some(from) => (
                    drop_finished(m, n),
                    Some(
                        DragAndDropAction::Reorder {
                            from_index: from,
                            to_index: match m.drop_target {
                                Some(t) => t,
                                None => from,
                            },
                        },
                    ),
                ),
                None => (drag_begun(m, m.selected, n), None),
            }
        } else {
            (m, None)
        },
        KeyInput::Esc => (cancelled(m), None),
        _ => (m, None),
    }
}

/// Selection one row down.
pub open spec fn down(m: DragModel, n: usize) -> DragModel {
    if n == 0 {
        DragModel { selected: 0, ..m }
    } else {
        DragModel {
            selected: if m.selected + 1 < n - 1 {
                (m.selected + 1) as usize
            } else {
                (n - 1) as usize
            },
            ..m
        }
    }
}

/// The row of the job list under cell (`column`, `row`), if any.
pub open spec fn row_at(area: Area, column: u16, row: u16, n: usize) -> Option<usize> {
    if n == 0 {
        None
    } else if column < area.x || column >= area.x + area.width || row < area.y || row >= area.y
        + area.height {
        None
    } else if row - area.y < n {
        Some((row - area.y) as usize)
    } else {
        None
    }
}

/// The state after a drag motion (press, drag or release) over `row`.
pub open spec fn after_motion(m: DragModel, kind: MouseKind, row: Option<usize>, n: usize) -> DragModel {
    match (kind, row) {
        (MouseKind::Down, Some(i)) => drag_begun(m, i, n),
        (MouseKind::Drag, Some(i)) => target_moved(m, i, n),
        (MouseKind::Up, Some(i)) => target_moved(m, i, n),
        _ => m,
    }
}

/// The state and action after a mouse event.
pub open spec fn after_mouse(m: DragModel, mouse: MouseInput, area: Area, n: usize) -> (
    DragModel,
    Option<DragAndDropAction>,
) {
    let row = row_at(area, mouse.column, mouse.row, n);
    match mouse.kind {
        MouseKind::Down => (
            match row {
                Some(i) => drag_begun(DragModel { selected: clamped(i, n), ..m }, i, n),
                None => m,
            },
            None,
        ),
        MouseKind::Drag => (after_motion(m, MouseKind::Drag, row, n), None),
        MouseKind::Up => {
            let moved = after_motion(m, MouseKind::Up, row, n);
            (
                drop_finished(moved, n),
                match (moved.dragging, moved.drop_target) {
                    (Some(from), Some(to)) => Some(
                        DragAndDropAction::Reorder { from_index: from, to_index: to },
                    ),
                    _ => None,
                },
            )
        },
        MouseKind::Other => (m, None),
    }
}

/// Which job-list row, if any, is under a terminal cell.
pub fn job_index_at(area: Area, column: u16, row: u16, item_count: usize) -> (r: Option<usize>)
    requires
        area.x + area.width <= u16::MAX,
        area.y + area.height <= u16::MAX,
    ensures
        r == row_at(area, column, row, item_count),
{
    if item_count == 0 {
        return None;
    }
    let list_right = area.x + area.width;
    let list_bottom = area.y + area.height;
    if column < area.x || column >= list_right || row < area.y || row >= list_bottom {
        return None;
    }
    let index = (row - area.y) as usize;
    if index < item_count {
        Some(index)
    } else {
        None
    }
}

impl DragAndDropState {
    /// Nothing selected but the first row, no drag.
    pub fn new() -> (s: DragAndDropState)
        ensures
            s@ == (DragModel { selected: 0, dragging: None, drop_target: None }),
    {
        DragAndDropState { selected_index: 0, dragging_index: None, drop_target_index: None }
    }

    /// The selected row.
    pub fn selected_index(&self) -> (i: usize)
        ensures
            i == self@.selected,
    {
        self.selected_index
    }

    /// The row being dragged.
    pub fn dragging_index(&self) -> (i: Option<usize>)
        ensures
            i == self@.dragging,
    {
        self.dragging_index
    }

    /// The row a drag would drop onto.
    pub fn drop_target_index(&self) -> (i: Option<usize>)
        ensures
            i == self@.drop_target,
    {
        self.drop_target_index
    }

    /// Selects row `index`, limited to the rows there are.
    pub fn set_selected(&mut self, index: usize, item_count: usize)
        ensures
            final(self)@ == (DragModel { selected: clamped(index, item_count), ..old(self)@ }),
    {
        self.selected_index = clamp_index(index, item_count);
    }

    fn move_selection_up(&mut self, item_count: usize)
        ensures
            final(self)@ == after_key(old(self)@, KeyInput::Up, item_count).0,
    {
        if item_count == 0 {
            self.selected_index = 0;
            return;
        }
        self.selected_index = self.selected_index.saturating_sub(1);
    }

    fn move_selection_down(&mut self, item_count: usize)
        ensures
            final(self)@ == down(old(self)@, item_count),
    {
        if item_count == 0 {
            self.selected_index = 0;
            return;
        }
        let last = item_count - 1;
        self.selected_index = if self.selected_index < last && self.selected_index + 1 < last {
            self.selected_index + 1
        } else {
            last
        };
    }

    fn begin_drag(&mut self, index: usize, item_count: usize)
        ensures
            final(self)@ == drag_begun(old(self)@, index, item_count),
    {
        if item_count == 0 {
            self.cancel_drag();
            return;
        }
        let clamped = clamp_index(index, item_count);
        self.selected_index = clamped;
        self.dragging_index = Some(clamped);
        self.drop_target_index = Some(clamped);
    }

    fn toggle_drag(&mut self, item_count: usize) -> (action: Option<DragAndDropAction>)
        ensures
            (final(self)@, action) == after_key(old(self)@, KeyInput::Char(' '), item_count),
    {
        match self.dragging_index {
            Some(from_index) => {
                let to_index = match self.drop_target_index {
                    Some(t) => t,
                    None => from_index,
                };
                self.finish_drop(item_count);
                Some(DragAndDropAction::Reorder { from_index, to_index })
            },
            None => {
                let selected = self.selected_index;
                self.begin_drag(selected, item_count);
                None
            },
        }
    }

    fn update_drop_target(&mut self, index: usize, item_count: usize)
        ensures
            final(self)@ == target_moved(old(self)@, index, item_count),
    {
        if self.dragging_index.is_none() || item_count == 0 {
            return;
        }
        let clamped = clamp_index(index, item_count);
        self.selected_index = clamped;
        self.drop_target_index = Some(clamped);
    }

    fn handle_drag_motion(&mut self, kind: MouseKind, row_index: Option<usize>, item_count: usize)
        ensures
            final(self)@ == after_motion(old(self)@, kind, row_index, item_count),
    {
        match kind {
            MouseKind::Down => {
                if let Some(index) = row_index {
                    self.begin_drag(index, item_count);
                }
            },
            MouseKind::Drag => {
                if let Some(index) = row_index {
                    self.update_drop_target(index, item_count);
                }
            },
            MouseKind::Up => {
                if let Some(index) = row_index {
                    self.update_drop_target(index, item_count);
                }
            },
            MouseKind::Other => {},
        }
    }

    fn finish_drop(&mut self, item_count: usize)
        ensures
            final(self)@ == drop_finished(old(self)@, item_count),
    {
        let fallback = match self.dragging_index {
            Some(d) => d,
            None => self.selected_index,
        };
        let target = match self.drop_target_index {
            Some(t) => t,
            None => fallback,
        };
        self.selected_index = clamp_index(target, item_count);
        self.dragging_index = None;
        self.drop_target_index = None;
    }

    /// Abandons a drag, keeping the selection.
    pub fn cancel_drag(&mut self)
        ensures
            final(self)@ == cancelled(old(self)@),
    {
        self.dragging_index = None;
        self.drop_target_index = None;
    }

    /// Up/`k` and Down/`j` move the selection, Space starts a drag or drops
    /// it (answering the reorder), Esc abandons a drag.
    pub fn handle_key(&mut self, key: KeyInput, item_count: usize) -> (action: Option<
        DragAndDropAction,
    >)
        ensures
            (final(self)@, action) == after_key(old(self)@, key, item_count),
    {
        match key {
            KeyInput::Up => {
                self.move_selection_up(item_count);
                None
            },
            KeyInput::Down => {
                self.move_selection_down(item_count);
                None
            },
            KeyInput::Char(c) => {
                if c == 'k' {
                    self.move_selection_up(item_count);
                    None
                } else if c == 'j' {
                    self.move_selection_down(item_count);
                    None
                } else if c == ' ' {
                    self.toggle_drag(item_count)
                } else {
                    None
                }
            },
            KeyInput::Esc => {
                self.cancel_drag();
                None
            },
            _ => None,
        }
    }

    /// A press over a row selects it and starts a drag, dragging moves the
    /// drop target, and a release ends the drag, answering the reorder when a
    /// drag was on.
    pub fn handle_mouse(&mut self, mouse: MouseInput, sidebar_area: Area, item_count: usize) -> (action:
        Option<DragAndDropAction>)
        requires
            sidebar_area.x + sidebar_area.width <= u16::MAX,
            sidebar_area.y + sidebar_area.height <= u16::MAX,
        ensures
            (final(self)@, action) == after_mouse(old(self)@, mouse, sidebar_area, item_count),
    {
        let row_index = job_index_at(sidebar_area, mouse.column, mouse.row, item_count);
        match mouse.kind {
            MouseKind::Down => {
                if let Some(index) = row_index {
                    self.set_selected(index, item_count);
                    self.begin_drag(index, item_count);
                }
                None
            },
            MouseKind::Drag => {
                self.handle_drag_motion(mouse.kind, row_index, item_count);
                None
            },
            MouseKind::Up => {
                self.handle_drag_motion(mouse.kind, row_index, item_count);
                let action = match (self.dragging_index, self.drop_target_index) {
                    (Some(from_index), Some(to_index)) => Some(
                        DragAndDropAction::Reorder { from_index, to_index },
                    ),
                    _ => None,
                };
                self.finish_drop(item_count);
                action
            },
            MouseKind::Other => None,
        }
    }
}

/// Applies a reorder answered by the drag state to the queue.
pub fn apply_drag_action(app: &mut App, action: Option<DragAndDropAction>)
    requires
        well_formed(old(app)@),
    ensures
        well_formed(final(app)@),
        final(app)@ == match action {
            Some(DragAndDropAction::Reorder { from_index, to_index }) => job_moved(
                old(app)@,
                from_index,
                to_index,
            ),
            None => old(app)@,
        },
{
    if let Some(DragAndDropAction::Reorder { from_index, to_index }) = action {
        app.move_job(from_index, to_index);
    }
}

// ── Laws ─────────────────────────────────────────────────────────────────────

/// The drag state is valid for `n` rows: the selection is a row, a drag has
/// both a dragged row and a drop target or neither, and both are rows.
pub open spec fn drag_ok(m: DragModel, n: usize) -> bool {
    &&& m.selected < n
    &&& (m.dragging is Some) == (m.drop_target is Some)
    &&& m.dragging matches Some(d) ==> d < n
    &&& m.drop_target matches Some(t) ==> t < n
}

/// A reorder names rows that exist.
pub open spec fn action_ok(action: Option<DragAndDropAction>, n: usize) -> bool {
    action matches Some(DragAndDropAction::Reorder { from_index, to_index }) ==> from_index < n
        && to_index < n
}

/// An input to the drag state: a key, a mouse event over the job list's
/// area, a selection, or an abandoned drag.
pub enum DragEvent {
    Key(KeyInput),
    Mouse(MouseInput, Area),
    Select(usize),
    Cancel,
}

/// The drag state after one event, with `n` rows.
pub open spec fn drag_step(m: DragModel, e: DragEvent, n: usize) -> DragModel {
    match e {
        DragEvent::Key(key) => after_key(m, key, n).0,
        DragEvent::Mouse(mouse, area) => after_mouse(m, mouse, area, n).0,
        DragEvent::Select(index) => DragModel { selected: clamped(index, n), ..m },
        DragEvent::Cancel => cancelled(m),
    }
}

/// The drag state after `events`, starting from a new one.
pub open spec fn drag_run(events: Seq<DragEvent>, n: usize) -> DragModel
    decreases events.len(),
{
    if events.len() == 0 {
        DragModel { selected: 0, dragging: None, drop_target: None }
    } else {
        drag_step(drag_run(events.drop_last(), n), events.last(), n)
    }
}

/// With rows to select from, every key, mouse event, selection and cancel
/// keeps the drag state valid, and any reorder answered names rows that exist.
pub proof fn lemma_drag_step_keeps_valid(m: DragModel, e: DragEvent, n: usize)
    requires
        n > 0,
        drag_ok(m, n),
    ensures
        drag_ok(drag_step(m, e, n), n),
        e matches DragEvent::Key(key) ==> action_ok(after_key(m, key, n).1, n),
        e matches DragEvent::Mouse(mouse, area) ==> action_ok(after_mouse(m, mouse, area, n).1, n),
{
}

/// Whatever events reach it from a new drag state, with the same `n > 0`
/// rows throughout, the state stays valid.
pub proof fn lemma_drag_state_valid(events: Seq<DragEvent>, n: usize)
    requires
        n > 0,
    ensures
        drag_ok(drag_run(events, n), n),
    decreases events.len(),
{
    if events.len() > 0 {
        lemma_drag_state_valid(events.drop_last(), n);
        lemma_drag_step_keeps_valid(drag_run(events.drop_last(), n), events.last(), n);
    }
}

/// Pressing Space twice without moving drops the row where it was picked up:
/// the reorder answered moves a row onto itself and the drag is over.
pub proof fn lemma_space_twice_is_no_move(m: DragModel, n: usize)
    requires
        n > 0,
        m.dragging is None,
        m.selected < n,
    ensures
        ({
            let (mid, first) = after_key(m, KeyInput::Char(' '), n);
            let (last, second) = after_key(mid, KeyInput::Char(' '), n);
            &&& first is None
            &&& second == Some(
                DragAndDropAction::Reorder { from_index: m.selected, to_index: m.selected },
            )
            &&& last == (DragModel { selected: m.selected, dragging: None, drop_target: None })
        }),
{
}

// ── Capturing a dropped path typed into the terminal ────────────────────────

/// How long typing must pause before a captured path is taken, in milliseconds.
pub const DROP_IDLE_MS: u64 = 350;

/// A character that starts capturing a dropped path.
pub open spec fn starts_capture(ch: char) -> bool {
    ch == '/' || ch == '~' || ch == '.' || ch == '"' || ch == '\''
}

pub fn starts_drop_capture(ch: char) -> (b: bool)
    ensures
        b == starts_capture(ch),
{
    ch == '/' || ch == '~' || ch == '.' || ch == '"' || ch == '\''
}

/// Text typed or dropped into the terminal that looks like a path, and when
/// its last character came.
pub struct PendingDropInput {
    buffer: String,
    last_input_at_ms: Option<u64>,
}

/// The capture as plain values.
pub struct PendingModel {
    pub buffer: Seq<char>,
    pub last_input_at_ms: Option<u64>,
}

impl View for PendingDropInput {
    type V = PendingModel;

    closed spec fn view(&self) -> PendingModel {
        PendingModel { buffer: self.buffer@, last_input_at_ms: self.last_input_at_ms }
    }
}

/// `docs` after adding `path` unless the same path is there.
pub open spec fn add_document(docs: Seq<Seq<char>>, path: Seq<char>) -> Seq<Seq<char>> {
    if exists|i: int| 0 <= i < docs.len() && same_path(#[trigger] docs[i], path) {
        docs
    } else {
        docs.push(path)
    }
}

/// `docs` after adding each of `paths` in turn.
pub open spec fn add_documents(docs: Seq<Seq<char>>, paths: Seq<Seq<char>>) -> Seq<Seq<char>>
    decreases paths.len(),
{
    if paths.len() == 0 {
        docs
    } else {
        add_document(add_documents(docs, paths.drop_last()), paths.last())
    }
}

/// The queue after the paths in `buffer` have been dropped onto it.
pub open spec fn flushed_into(app: AppModel, buffer: Seq<char>) -> AppModel {
    AppModel {
        dropped_documents: add_documents(app.dropped_documents, dropped_paths(buffer)),
        ..app
    }
}

impl PendingDropInput {
    /// Nothing captured.
    pub fn new() -> (p: PendingDropInput)
        ensures
            p@.buffer == Seq::<char>::empty(),
            p@.last_input_at_ms is None,
    {
        PendingDropInput { buffer: String::new(), last_input_at_ms: None }
    }

    /// Drops the paths in the capture onto the queue and empties the capture.
    pub fn flush(&mut self, app: &mut App)
        ensures
            final(app)@ == flushed_into(old(app)@, old(self)@.buffer),
            final(self)@.buffer == Seq::<char>::empty(),
            final(self)@.last_input_at_ms is None,
    {
        let paths = parse_dropped_paths(self.buffer.as_str());
        let ghost ps = paths@.map_values(|p: String| p@);
        let ghost start = app@;
        let mut i: usize = 0;
        while i < paths.len()
            invariant
                ps == paths@.map_values(|p: String| p@),
                i <= paths@.len(),
                app@ == (AppModel {
                    dropped_documents: add_documents(start.dropped_documents, ps.take(i as int)),
                    ..start
                }),
            decreases paths@.len() - i,
        {
            proof {
                assert(ps.take(i + 1).drop_last() =~= ps.take(i as int));
            }
            app.add_dropped_document(paths[i].clone());
            i = i + 1;
        }
        assert(ps.take(i as int) =~= ps);
        self.clear();
    }

    /// Empties the capture.
    pub fn clear(&mut self)
        ensures
            final(self)@.buffer == Seq::<char>::empty(),
            final(self)@.last_input_at_ms is None,
    {
        self.buffer = String::new();
        self.last_input_at_ms = None;
    }

    /// Takes a capture that has had no input for `DROP_IDLE_MS`.
    pub fn flush_if_idle(&mut self, app: &mut App, now_ms: u64)
        ensures
            ({
                let idle = old(self)@.buffer.len() > 0 && match old(self)@.last_input_at_ms {
                    Some(at) => now_ms >= at && now_ms - at >= DROP_IDLE_MS,
                    None => false,
                };
                if idle {
                    &&& final(app)@ == flushed_into(old(app)@, old(self)@.buffer)
                    &&& final(self)@.buffer == Seq::<char>::empty()
                    &&& final(self)@.last_input_at_ms is None
                } else {
                    &&& final(app)@ == old(app)@
                    &&& final(self)@ == old(self)@
                }
            }),
    {
        if self.buffer.as_str().is_empty() {
            return;
        }
        match self.last_input_at_ms {
            Some(at) => {
                if now_ms >= at && now_ms - at >= DROP_IDLE_MS {
                    self.flush(app);
                }
            },
            None => {},
        }
    }

    /// The prompt shown while capturing.
    pub fn label(&self) -> (s: Option<String>)
        ensures
            self@.buffer.len() == 0 ==> s is None,
            self@.buffer.len() > 0 ==> (s matches Some(t) && t@ == "drop path: "@ + self@.buffer),
    {
        if self.buffer.as_str().is_empty() {
            None
        } else {
            let mut s = String::from_str("drop path: ");
            s.append(self.buffer.as_str());
            Some(s)
        }
    }

    /// Feeds a key to the capture; answers whether the capture took it.
    /// Enter takes the capture, Backspace removes its last character, Esc
    /// abandons it; a character is captured once a capture has begun, or when
    /// it starts one (see `starts_capture`).
    pub fn handle_key(&mut self, key: KeyInput, app: &mut App, now_ms: u64) -> (taken: bool)
        ensures
            ({
                let b = old(self)@.buffer;
                match key {
                    KeyInput::Enter => if b.len() == 0 {
                        !taken && final(self)@ == old(self)@ && final(app)@ == old(app)@
                    } else {
                        &&& taken
                        &&& final(app)@ == flushed_into(old(app)@, b)
                        &&& final(self)@.buffer == Seq::<char>::empty()
                        &&& final(self)@.last_input_at_ms is None
                    },
                    KeyInput::Backspace => if b.len() == 0 {
                        !taken && final(self)@ == old(self)@ && final(app)@ == old(app)@
                    } else {
                        &&& taken
                        &&& final(self)@.buffer == b.drop_last()
                        &&& final(self)@.last_input_at_ms == Some(now_ms)
                        &&& final(app)@ == old(app)@
                    },
                    KeyInput::Esc => if b.len() == 0 {
                        !taken && final(self)@ == old(self)@ && final(app)@ == old(app)@
                    } else {
                        &&& taken
                        &&& final(self)@.buffer == Seq::<char>::empty()
                        &&& final(self)@.last_input_at_ms is None
                        &&& final(app)@ == old(app)@
                    },
                    KeyInput::Char(ch) => if b.len() == 0 && !starts_capture(ch) {
                        !taken && final(self)@ == old(self)@ && final(app)@ == old(app)@
                    } else {
                        &&& taken
                        &&& final(self)@.buffer == b.push(ch)
                        &&& final(self)@.last_input_at_ms == Some(now_ms)
                        &&& final(app)@ == old(app)@
                    },
                    _ => taken == (b.len() > 0) && final(self)@ == old(self)@ && final(app)@
                        == old(app)@,
                }
            }),
    {
        match key {
            KeyInput::Enter => {
                if self.buffer.as_str().is_empty() {
                    return false;
                }
                self.flush(app);
                true
            },
            KeyInput::Backspace => {
                if self.buffer.as_str().is_empty() {
                    return false;
                }
                let v = chars_of(self.buffer.as_str());
                let shorter = string_from_range(&v, 0, v.len() - 1);
                assert(v@.subrange(0, v@.len() - 1) =~= v@.drop_last());
                self.buffer = shorter;
                self.last_input_at_ms = Some(now_ms);
                true
            },
            KeyInput::Esc => {
                if self.buffer.as_str().is_empty() {
                    return false;
                }
                self.clear();
                true
            },
            KeyInput::Char(ch) => {
                if self.buffer.as_str().is_empty() && !starts_drop_capture(ch) {
                    return false;
                }
                push_char(&mut self.buffer, ch);
                self.last_input_at_ms = Some(now_ms);
                true
            },
            _ => !self.buffer.as_str().is_empty(),
        }
    }
}

} // verus!

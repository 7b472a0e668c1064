//! The capture loop as a state machine.
//!
//! The loop reads lines, appends each to the session file and echoes it, and
//! at the end of the input removes a session file to which it appended
//! nothing. Reading, writing and printing are done by the caller: [`step`]
//! takes what happened and says what to do next.

use vstd::prelude::*;
use vstd::string::StringExecFns;
use crate::session::{is_generated_id, line_record, resolve_session_id, session_path};
use crate::session::{lemma_read_back, lines_of, record_of, records_of, session_path_of};
use crate::text::has_char;

verus! {

/// What is printed before the id when a capture starts.
pub const ANNOUNCEMENT_OPEN: &'static str = "\nAccess the session using this id: ";

/// What is printed after the id when a capture starts.
pub const ANNOUNCEMENT_CLOSE: &'static str = "\n";

/// What is printed when a line could not be appended.
pub const WRITE_WARNING: &'static str = "Couldn't write to session file.";

/// What is printed when an empty session file could not be removed.
pub const REMOVE_WARNING: &'static str = "Couldn't remove the session file.";

/// Where a capture stands.
#[derive(Clone, Copy, Debug, PartialEq, Eq, Structural)]
pub enum Phase {
    /// The session file is being opened for appending.
    Opening,
    /// The next line of input is awaited.
    Reading,
    /// A line is being appended to the session file.
    Writing,
    /// The empty session file is being removed.
    Removing,
    /// The capture is over.
    Finished,
}

/// The state of one capture.
#[derive(Clone, Debug, PartialEq, Eq)]
pub struct Capture {
    /// The id of the session.
    pub id: String,
    /// The session file.
    pub path: String,
    pub phase: Phase,
    /// While writing, the line that is echoed once the write is over.
    pub pending: String,
    /// Whether any line was appended by this capture.
    pub appended: bool,
}

/// What happened outside.
#[derive(Clone, Debug, PartialEq, Eq)]
pub enum Event {
    /// The session file is open.
    Opened,
    /// The input produced a line (given without its line end).
    Line(String),
    /// The record was appended.
    WriteDone,
    /// The record could not be appended.
    WriteFailed,
    /// The input is at its end.
    EndOfInput,
    /// The session file was removed.
    RemoveDone,
    /// The session file could not be removed.
    RemoveFailed,
}

/// What the caller is to do.
#[derive(Clone, Debug, PartialEq, Eq)]
pub enum Action {
    /// Open the session file for appending; create it where it is missing,
    /// and never truncate it.
    Open,
    /// Append this text to the session file.
    Append(String),
    /// Print this text and a line end for the operator.
    Print(String),
    /// Remove the session file.
    Remove,
}

/// The state of a capture as contracts see it.
pub struct CaptureView {
    pub id: Seq<char>,
    pub path: Seq<char>,
    pub phase: Phase,
    pub pending: Seq<char>,
    pub appended: bool,
}

/// An event as contracts see it.
pub enum EventView {
    Opened,
    Line(Seq<char>),
    WriteDone,
    WriteFailed,
    EndOfInput,
    RemoveDone,
    RemoveFailed,
}

/// An action as contracts see it.
pub enum ActionView {
    Open,
    Append(Seq<char>),
    Print(Seq<char>),
    Remove,
}

impl View for Capture {
    type V = CaptureView;

    open spec fn view(&self) -> CaptureView {
        CaptureView {
            id: self.id@,
            path: self.path@,
            phase: self.phase,
            pending: self.pending@,
            appended: self.appended,
        }
    }
}

impl View for Event {
    type V = EventView;

    open spec fn view(&self) -> EventView {
        match *self {
            Event::Opened => EventView::Opened,
            Event::Line(line) => EventView::Line(line@),
            Event::WriteDone => EventView::WriteDone,
            Event::WriteFailed => EventView::WriteFailed,
            Event::EndOfInput => EventView::EndOfInput,
            Event::RemoveDone => EventView::RemoveDone,
            Event::RemoveFailed => EventView::RemoveFailed,
        }
    }
}

impl DeepView for Action {
    type V = ActionView;

    open spec fn deep_view(&self) -> ActionView {
        match *self {
            Action::Open => ActionView::Open,
            Action::Append(record) => ActionView::Append(record@),
            Action::Print(text) => ActionView::Print(text@),
            Action::Remove => ActionView::Remove,
        }
    }
}

/// What is printed when a capture of the session `id` starts.
pub open spec fn announcement_of(id: Seq<char>) -> Seq<char> {
    ANNOUNCEMENT_OPEN@ + id + ANNOUNCEMENT_CLOSE@
}

/// The state in which a capture of the session `id` starts.
pub open spec fn initial_state(data_dir: Seq<char>, id: Seq<char>) -> CaptureView {
    CaptureView {
        id,
        path: session_path_of(data_dir, id),
        phase: Phase::Opening,
        pending: Seq::<char>::empty(),
        appended: false,
    }
}

/// What a capture of the session `id` asks for first: the id is announced,
/// then the session file is opened.
pub open spec fn initial_actions(id: Seq<char>) -> Seq<ActionView> {
    seq![ActionView::Print(announcement_of(id)), ActionView::Open]
}

/// The state with another phase.
pub open spec fn in_phase(state: CaptureView, phase: Phase) -> CaptureView {
    CaptureView { phase, ..state }
}

/// The state after a write: the next line is awaited, and none is pending.
pub open spec fn after_write(state: CaptureView, done: bool) -> CaptureView {
    CaptureView {
        phase: Phase::Reading,
        pending: Seq::<char>::empty(),
        appended: state.appended || done,
        ..state
    }
}

/// The transition of the capture loop: the next state and what to do.
///
/// - A line is appended first and echoed once the write is over; where the
///   write failed, a warning is printed before the echo, and the capture goes
///   on.
/// - At the end of the input the session file is removed if no line was
///   appended; where that fails, a warning is printed.
/// - An event that does not fit the phase changes nothing.
pub open spec fn step_of(state: CaptureView, event: EventView) -> (CaptureView, Seq<ActionView>) {
    match (state.phase, event) {
        (Phase::Opening, EventView::Opened) => (in_phase(state, Phase::Reading), seq![]),
        (Phase::Reading, EventView::Line(line)) => (
            CaptureView { phase: Phase::Writing, pending: line, ..state },
            seq![ActionView::Append(record_of(line))],
        ),
        (Phase::Writing, EventView::WriteDone) => (
            after_write(state, true),
            seq![ActionView::Print(state.pending)],
        ),
        (Phase::Writing, EventView::WriteFailed) => (
            after_write(state, false),
            seq![ActionView::Print(WRITE_WARNING@), ActionView::Print(state.pending)],
        ),
        (Phase::Reading, EventView::EndOfInput) => if state.appended {
            (in_phase(state, Phase::Finished), seq![])
        } else {
            (in_phase(state, Phase::Removing), seq![ActionView::Remove])
        },
        (Phase::Removing, EventView::RemoveDone) => (in_phase(state, Phase::Finished), seq![]),
        (Phase::Removing, EventView::RemoveFailed) => (
            in_phase(state, Phase::Finished),
            seq![ActionView::Print(REMOVE_WARNING@)],
        ),
        _ => (state, seq![]),
    }
}

/// The state after a sequence of events, and everything that was asked for
/// on the way, in order.
pub open spec fn run_of(state: CaptureView, events: Seq<EventView>) -> (
    CaptureView,
    Seq<ActionView>,
)
    decreases events.len(),
{
    if events.len() == 0 {
        (state, seq![])
    } else {
        let before = run_of(state, events.drop_last());
        let last = step_of(before.0, events.last());
        (last.0, before.1 + last.1)
    }
}

/// What one action makes of the session file once it is performed with
/// success (`None`: there is no file).
pub open spec fn file_after(file: Option<Seq<char>>, action: ActionView) -> Option<Seq<char>> {
    match action {
        ActionView::Open => match file {
            Some(content) => Some(content),
            None => Some(Seq::<char>::empty()),
        },
        ActionView::Append(record) => match file {
            Some(content) => Some(content + record),
            None => Some(record),
        },
        ActionView::Print(_) => file,
        ActionView::Remove => None,
    }
}

/// What a sequence of actions makes of the session file once each is
/// performed with success.
pub open spec fn file_after_all(file: Option<Seq<char>>, actions: Seq<ActionView>) -> Option<
    Seq<char>,
>
    decreases actions.len(),
{
    if actions.len() == 0 {
        file
    } else {
        file_after(file_after_all(file, actions.drop_last()), actions.last())
    }
}

/// The texts that a sequence of actions prints, in order.
pub open spec fn printed_by(actions: Seq<ActionView>) -> Seq<Seq<char>>
    decreases actions.len(),
{
    if actions.len() == 0 {
        seq![]
    } else {
        let before = printed_by(actions.drop_last());
        match actions.last() {
            ActionView::Print(text) => before.push(text),
            _ => before,
        }
    }
}

/// How often a sequence of actions asks for the removal of the session
/// file.
pub open spec fn remove_count(actions: Seq<ActionView>) -> nat
    decreases actions.len(),
{
    if actions.len() == 0 {
        0
    } else if actions.last() is Remove {
        remove_count(actions.drop_last()) + 1
    } else {
        remove_count(actions.drop_last())
    }
}

/// The events of reading `lines` one after another, where every write
/// succeeds.
pub open spec fn line_events(lines: Seq<Seq<char>>) -> Seq<EventView>
    decreases lines.len(),
{
    if lines.len() == 0 {
        seq![]
    } else {
        line_events(lines.drop_last()).push(EventView::Line(lines.last())).push(
            EventView::WriteDone,
        )
    }
}

/// The events of a whole capture of `lines` in which everything that is
/// asked for succeeds: the file is opened, each line is read and written,
/// the input ends, and a removal, where there is one, is done.
pub open spec fn capture_events(lines: Seq<Seq<char>>) -> Seq<EventView> {
    let read = seq![EventView::Opened] + line_events(lines).push(EventView::EndOfInput);
    if lines.len() == 0 {
        read.push(EventView::RemoveDone)
    } else {
        read
    }
}

/// Everything that such a capture of `lines` asks for, from its start.
pub open spec fn capture_actions(data_dir: Seq<char>, id: Seq<char>, lines: Seq<Seq<char>>) -> Seq<
    ActionView,
> {
    initial_actions(id) + run_of(initial_state(data_dir, id), capture_events(lines)).1
}

/// The session file of `id` in a data directory that holds, by id, the
/// content of each session file.
pub open spec fn file_of(store: Map<Seq<char>, Seq<char>>, id: Seq<char>) -> Option<Seq<char>> {
    if store.dom().contains(id) {
        Some(store[id])
    } else {
        None
    }
}

/// The data directory after the actions of a capture of the session `id`
/// were performed.
pub open spec fn store_after(
    store: Map<Seq<char>, Seq<char>>,
    id: Seq<char>,
    actions: Seq<ActionView>,
) -> Map<Seq<char>, Seq<char>> {
    match file_after_all(file_of(store, id), actions) {
        Some(content) => store.insert(id, content),
        None => store.remove(id),
    }
}

/// The content of a file that may be absent.
pub open spec fn content_or_empty(file: Option<Seq<char>>) -> Seq<char> {
    match file {
        Some(content) => content,
        None => Seq::<char>::empty(),
    }
}

/// Running one more event: the run before it, then one step.
pub proof fn lemma_run_push(state: CaptureView, events: Seq<EventView>, event: EventView)
    ensures
        run_of(state, events.push(event)).0 == step_of(run_of(state, events).0, event).0,
        run_of(state, events.push(event)).1 == run_of(state, events).1 + step_of(
            run_of(state, events).0,
            event,
        ).1,
{
    assert(events.push(event).drop_last() =~= events);
}

/// Performing two sequences of actions one after the other.
pub proof fn lemma_file_after_concat(
    file: Option<Seq<char>>,
    first: Seq<ActionView>,
    second: Seq<ActionView>,
)
    ensures
        file_after_all(file, first + second) == file_after_all(
            file_after_all(file, first),
            second,
        ),
    decreases second.len(),
{
    if second.len() == 0 {
        assert(first + second =~= first);
    } else {
        lemma_file_after_concat(file, first, second.drop_last());
        assert((first + second).drop_last() =~= first + second.drop_last());
    }
}

/// What two sequences of actions print, one after the other.
pub proof fn lemma_printed_concat(first: Seq<ActionView>, second: Seq<ActionView>)
    ensures
        printed_by(first + second) == printed_by(first) + printed_by(second),
    decreases second.len(),
{
    if second.len() == 0 {
        assert(first + second =~= first);
        assert(printed_by(first) + printed_by(second) =~= printed_by(first));
    } else {
        lemma_printed_concat(first, second.drop_last());
        assert((first + second).drop_last() =~= first + second.drop_last());
        assert(printed_by(first + second) =~= printed_by(first) + printed_by(second));
    }
}

/// The records of some lines and one more.
proof fn lemma_records_push(lines: Seq<Seq<char>>, line: Seq<char>)
    ensures
        records_of(lines.push(line)) == records_of(lines) + record_of(line),
{
    let records = lines.push(line).map_values(|l: Seq<char>| record_of(l));
    assert(records.drop_last() =~= lines.map_values(|l: Seq<char>| record_of(l)));
    assert(records.last() == record_of(line));
}

/// Where a capture stands once the file is open and `lines` were read and
/// written: it awaits the next line, the file holds what it held before and
/// then one record per line, and the id and the lines were printed.
proof fn lemma_lines_captured(
    data_dir: Seq<char>,
    id: Seq<char>,
    lines: Seq<Seq<char>>,
    file: Option<Seq<char>>,
)
    ensures
        ({
            let start = initial_state(data_dir, id);
            let run = run_of(start, seq![EventView::Opened] + line_events(lines));
            let actions = initial_actions(id) + run.1;
            &&& run.0 == CaptureView { phase: Phase::Reading, appended: lines.len() > 0, ..start }
            &&& file_after_all(file, actions) == Some(content_or_empty(file) + records_of(lines))
            &&& printed_by(actions) == seq![announcement_of(id)] + lines
        }),
    decreases lines.len(),
{
    reveal_with_fuel(printed_by, 3);
    reveal_with_fuel(file_after_all, 3);
    let start = initial_state(data_dir, id);
    let first = initial_actions(id);
    assert(first.drop_last() =~= seq![ActionView::Print(announcement_of(id))]);
    assert(first.drop_last().drop_last() =~= Seq::<ActionView>::empty());
    assert(file_after_all(file, first) == Some(content_or_empty(file)));
    assert(printed_by(first) =~= seq![announcement_of(id)]);
    if lines.len() == 0 {
        let events = seq![EventView::Opened] + line_events(lines);
        assert(events =~= Seq::<EventView>::empty().push(EventView::Opened));
        lemma_run_push(start, Seq::<EventView>::empty(), EventView::Opened);
        let run = run_of(start, events);
        assert(run.1 =~= Seq::<ActionView>::empty());
        assert(first + run.1 =~= first);
        assert(records_of(lines) =~= Seq::<char>::empty());
        assert(content_or_empty(file) + records_of(lines) =~= content_or_empty(file));
        assert(seq![announcement_of(id)] + lines =~= seq![announcement_of(id)]);
    } else {
        let shorter = lines.drop_last();
        let line = lines.last();
        lemma_lines_captured(data_dir, id, shorter, file);
        let earlier = seq![EventView::Opened] + line_events(shorter);
        let read = earlier.push(EventView::Line(line));
        assert(seq![EventView::Opened] + line_events(lines) =~= read.push(EventView::WriteDone));
        lemma_run_push(start, earlier, EventView::Line(line));
        lemma_run_push(start, read, EventView::WriteDone);
        let before = run_of(start, earlier);
        let run = run_of(start, read.push(EventView::WriteDone));
        let added = seq![ActionView::Append(record_of(line)), ActionView::Print(line)];
        assert(run.1 =~= before.1 + added);
        assert(first + run.1 =~= (first + before.1) + added);
        lemma_file_after_concat(file, first + before.1, added);
        lemma_printed_concat(first + before.1, added);
        assert(added.drop_last() =~= seq![ActionView::Append(record_of(line))]);
        assert(added.drop_last().drop_last() =~= Seq::<ActionView>::empty());
        assert(printed_by(added) =~= seq![line]);
        assert(shorter.push(line) =~= lines);
        lemma_records_push(shorter, line);
        assert((content_or_empty(file) + records_of(shorter)) + record_of(line)
            =~= content_or_empty(file) + records_of(lines));
        assert((seq![announcement_of(id)] + shorter) + seq![line] =~= seq![announcement_of(id)]
            + lines);
    }
}

/// A capture of one line or more keeps every line: when it is over, the
/// session file holds what it held before, followed by one record per line
/// in the order of the input, and the operator saw the id and then each line.
pub proof fn lemma_capture_keeps_lines(
    data_dir: Seq<char>,
    id: Seq<char>,
    lines: Seq<Seq<char>>,
    file: Option<Seq<char>>,
)
    requires
        lines.len() >= 1,
    ensures
        run_of(initial_state(data_dir, id), capture_events(lines)).0.phase == Phase::Finished,
        file_after_all(file, capture_actions(data_dir, id, lines)) == Some(
            content_or_empty(file) + records_of(lines),
        ),
        printed_by(capture_actions(data_dir, id, lines)) == seq![announcement_of(id)] + lines,
{
    let start = initial_state(data_dir, id);
    let read = seq![EventView::Opened] + line_events(lines);
    lemma_lines_captured(data_dir, id, lines, file);
    assert(capture_events(lines) =~= read.push(EventView::EndOfInput));
    lemma_run_push(start, read, EventView::EndOfInput);
    assert(run_of(start, capture_events(lines)).1 =~= run_of(start, read).1);
}

/// A capture of a new session reads back as it was written: where the file
/// did not exist and no line holds a line feed, the lines of the session
/// file are the lines of the input, in order, followed by one empty line.
pub proof fn lemma_new_capture_reads_back(
    data_dir: Seq<char>,
    id: Seq<char>,
    lines: Seq<Seq<char>>,
)
    requires
        lines.len() >= 1,
        forall|k: int| 0 <= k < lines.len() ==> !has_char(#[trigger] lines[k], '\n'),
    ensures
        file_after_all(None, capture_actions(data_dir, id, lines)) matches Some(content)
            && content == records_of(lines) && lines_of(content) == lines.push(
            Seq::<char>::empty(),
        ),
{
    lemma_capture_keeps_lines(data_dir, id, lines, None);
    lemma_read_back(lines);
    assert(Seq::<char>::empty() + records_of(lines) =~= records_of(lines));
}

/// A capture without any line leaves no session file: the file is opened,
/// and removed again when the input ends.
pub proof fn lemma_empty_capture_leaves_no_file(
    data_dir: Seq<char>,
    id: Seq<char>,
    file: Option<Seq<char>>,
)
    ensures
        run_of(
            initial_state(data_dir, id),
            capture_events(Seq::<Seq<char>>::empty()),
        ).0.phase == Phase::Finished,
        file_after_all(file, capture_actions(data_dir, id, Seq::<Seq<char>>::empty())) is None,
        printed_by(capture_actions(data_dir, id, Seq::<Seq<char>>::empty())) == seq![
            announcement_of(id),
        ],
{
    reveal_with_fuel(printed_by, 3);
    reveal_with_fuel(file_after_all, 3);
    let lines = Seq::<Seq<char>>::empty();
    let start = initial_state(data_dir, id);
    let read = seq![EventView::Opened] + line_events(lines);
    lemma_lines_captured(data_dir, id, lines, file);
    let ended = read.push(EventView::EndOfInput);
    assert(capture_events(lines) =~= ended.push(EventView::RemoveDone));
    lemma_run_push(start, read, EventView::EndOfInput);
    lemma_run_push(start, ended, EventView::RemoveDone);
    let before = initial_actions(id) + run_of(start, read).1;
    let added = seq![ActionView::Remove];
    assert(capture_actions(data_dir, id, lines) =~= before + added);
    lemma_file_after_concat(file, before, added);
    lemma_printed_concat(before, added);
    assert(added.drop_last() =~= Seq::<ActionView>::empty());
    assert(printed_by(added) =~= Seq::<Seq<char>>::empty());
    assert(seq![announcement_of(id)] + lines =~= seq![announcement_of(id)]);
    assert(printed_by(before) + printed_by(added) =~= printed_by(before));
}

/// What a capture makes of the data directory: the sessions that it holds
/// afterwards are those that it held before and, if any line was captured,
/// the captured one; a capture without lines leaves its session out. No
/// other session is touched.
pub proof fn lemma_capture_in_store(
    store: Map<Seq<char>, Seq<char>>,
    data_dir: Seq<char>,
    id: Seq<char>,
    lines: Seq<Seq<char>>,
)
    ensures
        ({
            let after = store_after(store, id, capture_actions(data_dir, id, lines));
            &&& forall|other: Seq<char>| other != id ==> file_of(after, other) == file_of(store, other)
            &&& lines.len() >= 1 ==> after.dom() == store.dom().insert(id) && after[id]
                == content_or_empty(file_of(store, id)) + records_of(lines)
            &&& lines.len() == 0 ==> after.dom() == store.dom().remove(id)
        }),
{
    if lines.len() >= 1 {
        lemma_capture_keeps_lines(data_dir, id, lines, file_of(store, id));
    } else {
        assert(lines =~= Seq::<Seq<char>>::empty());
        lemma_empty_capture_leaves_no_file(data_dir, id, file_of(store, id));
    }
}

/// How often two sequences of actions ask for a removal, one after the
/// other.
proof fn lemma_remove_count_concat(first: Seq<ActionView>, second: Seq<ActionView>)
    ensures
        remove_count(first + second) == remove_count(first) + remove_count(second),
    decreases second.len(),
{
    if second.len() == 0 {
        assert(first + second =~= first);
    } else {
        lemma_remove_count_concat(first, second.drop_last());
        assert((first + second).drop_last() =~= first + second.drop_last());
    }
}

/// A session to which a line was appended is never removed. Whatever
/// happens, in whatever order, a capture asks for the removal of its
/// session file at most once, and never once a line was appended.
pub proof fn lemma_kept_once_appended(data_dir: Seq<char>, id: Seq<char>, events: Seq<EventView>)
    ensures
        ({
            let run = run_of(initial_state(data_dir, id), events);
            &&& remove_count(run.1) <= 1
            &&& run.0.appended ==> remove_count(run.1) == 0
            &&& run.0.phase == Phase::Opening || run.0.phase == Phase::Reading || run.0.phase
                == Phase::Writing ==> remove_count(run.1) == 0
        }),
    decreases events.len(),
{
    reveal_with_fuel(remove_count, 3);
    if events.len() > 0 {
        let start = initial_state(data_dir, id);
        lemma_kept_once_appended(data_dir, id, events.drop_last());
        let before = run_of(start, events.drop_last());
        let last = step_of(before.0, events.last());
        lemma_remove_count_concat(before.1, last.1);
    }
}

/// A failed write does not end a capture: the line is still echoed, after
/// the warning, and the next line is awaited.
pub proof fn lemma_failed_write_goes_on(state: CaptureView)
    requires
        state.phase == Phase::Writing,
    ensures
        step_of(state, EventView::WriteFailed).0.phase == Phase::Reading,
        step_of(state, EventView::WriteFailed).0.appended == state.appended,
        printed_by(step_of(state, EventView::WriteFailed).1) == seq![
            WRITE_WARNING@,
            state.pending,
        ],
{
    reveal_with_fuel(printed_by, 3);
    reveal_with_fuel(file_after_all, 3);
    let actions = step_of(state, EventView::WriteFailed).1;
    assert(actions.drop_last() =~= seq![ActionView::Print(WRITE_WARNING@)]);
    assert(actions.drop_last().drop_last() =~= Seq::<ActionView>::empty());
    assert(printed_by(actions) =~= seq![WRITE_WARNING@, state.pending]);
}

/// No step ever asks to change another session: whatever happens, the id
/// and the file of a capture stay what they were.
pub proof fn lemma_step_keeps_session(state: CaptureView, event: EventView)
    ensures
        step_of(state, event).0.id == state.id,
        step_of(state, event).0.path == state.path,
{
}

/// No action.
fn no_actions() -> (actions: Vec<Action>)
    ensures
        actions.deep_view() == Seq::<ActionView>::empty(),
{
    let actions: Vec<Action> = Vec::new();
    assert(actions.deep_view() =~= Seq::<ActionView>::empty());
    actions
}

/// One action.
fn one_action(first: Action) -> (actions: Vec<Action>)
    ensures
        actions.deep_view() == seq![first.deep_view()],
{
    let mut actions: Vec<Action> = Vec::new();
    actions.push(first);
    assert(actions.deep_view() =~= seq![first.deep_view()]);
    actions
}

/// Two actions.
fn two_actions(first: Action, second: Action) -> (actions: Vec<Action>)
    ensures
        actions.deep_view() == seq![first.deep_view(), second.deep_view()],
{
    let mut actions: Vec<Action> = Vec::new();
    actions.push(first);
    actions.push(second);
    assert(actions.deep_view() =~= seq![first.deep_view(), second.deep_view()]);
    actions
}

/// What is printed when a capture of the session `id` starts.
pub fn announcement(id: &str) -> (text: String)
    ensures
        text@ == announcement_of(id@),
{
    let mut text = String::from_str(ANNOUNCEMENT_OPEN);
    text.append(id);
    text.append(ANNOUNCEMENT_CLOSE);
    text
}

/// Starts a capture of the session `id` in `data_dir`.
pub fn begin(data_dir: &str, id: String) -> (out: (Capture, Vec<Action>))
    ensures
        out.0@ == initial_state(data_dir@, id@),
        out.1.deep_view() == initial_actions(id@),
{
    let path = session_path(data_dir, id.as_str());
    let actions = two_actions(Action::Print(announcement(id.as_str())), Action::Open);
    let state = Capture {
        id,
        path,
        phase: Phase::Opening,
        pending: String::new(),
        appended: false,
    };
    (state, actions)
}

/// Starts a capture in `data_dir`: of the session `sid` where one is named,
/// else of a new session with a generated id.
pub fn setup_session(data_dir: &str, sid: Option<String>) -> (out: (Capture, Vec<Action>))
    ensures
        out.0@ == initial_state(data_dir@, out.0.id@),
        out.1.deep_view() == initial_actions(out.0.id@),
        match sid {
            Some(id) => out.0.id@ == id@,
            None => is_generated_id(out.0.id@),
        },
{
    begin(data_dir, resolve_session_id(sid))
}

/// The transition of the capture loop: takes what happened, and gives the
/// next state and what to do, in order.
pub fn step(state: Capture, event: Event) -> (out: (Capture, Vec<Action>))
    ensures
        out.0@ == step_of(state@, event@).0,
        out.1.deep_view() == step_of(state@, event@).1,
{
    let Capture { id, path, phase, pending, appended } = state;
    match (phase, event) {
        (Phase::Opening, Event::Opened) => (
            Capture { id, path, phase: Phase::Reading, pending, appended },
            no_actions(),
        ),
        (Phase::Reading, Event::Line(line)) => {
            let actions = one_action(Action::Append(line_record(line.as_str())));
            (Capture { id, path, phase: Phase::Writing, pending: line, appended }, actions)
        },
        (Phase::Writing, Event::WriteDone) => (
            Capture { id, path, phase: Phase::Reading, pending: String::new(), appended: true },
            one_action(Action::Print(pending)),
        ),
        (Phase::Writing, Event::WriteFailed) => (
            Capture { id, path, phase: Phase::Reading, pending: String::new(), appended },
            two_actions(Action::Print(String::from_str(WRITE_WARNING)), Action::Print(pending)),
        ),
        (Phase::Reading, Event::EndOfInput) => {
            if appended {
                (Capture { id, path, phase: Phase::Finished, pending, appended }, no_actions())
            } else {
                (
                    Capture { id, path, phase: Phase::Removing, pending, appended },
                    one_action(Action::Remove),
                )
            }
        },
        (Phase::Removing, Event::RemoveDone) => (
            Capture { id, path, phase: Phase::Finished, pending, appended },
            no_actions(),
        ),
        (Phase::Removing, Event::RemoveFailed) => (
            Capture { id, path, phase: Phase::Finished, pending, appended },
            one_action(Action::Print(String::from_str(REMOVE_WARNING))),
        ),
        (phase, _) => (Capture { id, path, phase, pending, appended }, no_actions()),
    }
}

/// Whether the capture is over.
pub fn is_finished(state: &Capture) -> (over: bool)
    ensures
        over == (state.phase == Phase::Finished),
{
    match state.phase {
        Phase::Finished => true,
        _ => false,
    }
}

} // verus!

//! The state of the application and the operations on it.

use crate::clock::Clock;
use crate::input::EditRequest;
use crate::input::Input;
use crate::input::InputView;
use crate::task::clone_tasks;
use crate::task::task_views;
use crate::task::Task;
use crate::task::TaskView;
use crate::timer::Timer;
use crate::timer::TimerView;
use vstd::prelude::*;

verus! {

/// Length of a work interval: 25 minutes, in microseconds.
pub const DEFAULT_TIMER_LENGTH: i128 = 1_500_000_000;

/// Length of a break: 5 minutes, in microseconds.
pub const DEFAULT_BREAK_TIMER_LENGTH: i128 = 300_000_000;

/// What the keys mean at the moment.
#[derive(Debug, PartialEq, Eq, Clone, Copy, Structural)]
pub enum Mode {
    /// Keys are commands for the timers and for changing mode.
    Normal,
    /// Keys go to the text field.
    Insert,
    /// Keys move over the task list and change it.
    Edit,
    /// A break is on; the only key that counts ends it.
    Break,
}

/// The row after `selected` in a list of `rows` rows, going round from the
/// last row to the first. With nothing selected it is the first row; in a
/// list without rows there is nothing to select.
pub open spec fn next_row(selected: Option<nat>, rows: nat) -> Option<nat> {
    if rows == 0 {
        None
    } else {
        match selected {
            Some(i) => if i + 1 >= rows {
                Some(0)
            } else {
                Some(i + 1)
            },
            None => Some(0),
        }
    }
}

/// The row before `selected` in a list of `rows` rows, going round from the
/// first row to the last. With nothing selected it is the first row; in a
/// list without rows there is nothing to select.
pub open spec fn previous_row(selected: Option<nat>, rows: nat) -> Option<nat> {
    if rows == 0 {
        None
    } else {
        match selected {
            Some(i) => if i == 0 {
                Some((rows - 1) as nat)
            } else {
                Some((i - 1) as nat)
            },
            None => Some(0),
        }
    }
}

/// The row that is selected once row `removed` has left a list that is now
/// `rows` rows long: the same position, which now holds the row that
/// followed; the last row if there is no such position; nothing in a list
/// without rows.
pub open spec fn row_after_removal(removed: nat, rows: nat) -> Option<nat> {
    if rows == 0 {
        None
    } else if removed >= rows {
        Some((rows - 1) as nat)
    } else {
        Some(removed)
    }
}

/// What the application holds, with the timers, the text field and the tasks
/// by their views.
pub struct StateView {
    pub timer: TimerView,
    pub break_timer: TimerView,
    pub pomodoro_no: nat,
    pub mode: Mode,
    pub input: InputView,
    pub tasks: Seq<TaskView>,
    pub selected: Option<nat>,
    pub show_help_popup: bool,
}

impl StateView {
    /// The state in which the application starts.
    pub open spec fn initial() -> StateView {
        StateView {
            timer: TimerView::fresh(DEFAULT_TIMER_LENGTH as int),
            break_timer: TimerView::fresh(DEFAULT_BREAK_TIMER_LENGTH as int),
            pomodoro_no: 1,
            mode: Mode::Normal,
            input: InputView::empty(),
            tasks: Seq::empty(),
            selected: None,
            show_help_popup: false,
        }
    }

    /// A selected row is a row of the task list.
    pub open spec fn wf(self) -> bool {
        self.selected matches Some(i) ==> i < self.tasks.len()
    }

    /// A break begins at `now`: the work timer pauses and the break timer
    /// starts.
    pub open spec fn start_break_timer_at(self, now: int) -> StateView {
        StateView {
            mode: Mode::Break,
            timer: self.timer.paused(),
            break_timer: self.break_timer.started_at(now),
            ..self
        }
    }

    /// The break is dismissed: back to normal mode with the break timer at
    /// its full length.
    pub open spec fn reset_break_timer(self) -> StateView {
        StateView { mode: Mode::Normal, break_timer: self.break_timer.reset(), ..self }
    }

    /// A task with the given description joins the end of the list.
    pub open spec fn add_new_task(self, description: Seq<char>) -> StateView {
        StateView { tasks: self.tasks.push(TaskView::entered(description)), ..self }
    }

    /// The row that is selected, if it is a row of the task list.
    pub open spec fn selected_row(self) -> Option<nat> {
        match self.selected {
            Some(i) if i < self.tasks.len() => Some(i),
            _ => None,
        }
    }

    /// The selected task leaves the list, and the selection stays on a row
    /// of what is left. Where no row of the list is selected nothing changes.
    pub open spec fn delete_current_task(self) -> StateView {
        match self.selected_row() {
            Some(i) => StateView {
                tasks: self.tasks.remove(i as int),
                selected: row_after_removal(i, (self.tasks.len() - 1) as nat),
                ..self
            },
            None => self,
        }
    }

    /// The selected task is marked as done. Where no row of the list is
    /// selected nothing changes.
    pub open spec fn mark_current_task_as_completed(self) -> StateView {
        match self.selected_row() {
            Some(i) => StateView {
                tasks: self.tasks.update(i as int, self.tasks[i as int].done()),
                ..self
            },
            None => self,
        }
    }

    /// The work timer starts or resumes at `now`.
    pub open spec fn start_timer_at(self, now: int) -> StateView {
        StateView { timer: self.timer.started_at(now), ..self }
    }

    /// The work timer pauses.
    pub open spec fn pause_timer(self) -> StateView {
        StateView { timer: self.timer.paused(), ..self }
    }

    /// The next pomodoro: the work timer is reset and the count goes up by
    /// one, unless it stands at the largest number it can hold.
    pub open spec fn reset_timer(self) -> StateView {
        StateView {
            timer: self.timer.reset(),
            pomodoro_no: if self.pomodoro_no < u16::MAX {
                self.pomodoro_no + 1
            } else {
                self.pomodoro_no
            },
            ..self
        }
    }

    /// The selection moves down one row.
    pub open spec fn next_table_row(self) -> StateView {
        StateView { selected: next_row(self.selected, self.tasks.len()), ..self }
    }

    /// The selection moves up one row.
    pub open spec fn previous_table_row(self) -> StateView {
        StateView { selected: previous_row(self.selected, self.tasks.len()), ..self }
    }

    /// No row is selected.
    pub open spec fn unselect_table_item(self) -> StateView {
        StateView { selected: None, ..self }
    }

    /// The text field takes one edit.
    pub open spec fn edit_input(self, request: EditRequest) -> StateView {
        StateView { input: self.input.after(request), ..self }
    }

    /// The text field is emptied.
    pub open spec fn reset_input(self) -> StateView {
        StateView { input: InputView::empty(), ..self }
    }

    /// The mode changes and nothing else.
    pub open spec fn set_mode(self, mode: Mode) -> StateView {
        StateView { mode, ..self }
    }

    /// The help overlay is shown or hidden and nothing else changes.
    pub open spec fn set_show_help_popup(self, show: bool) -> StateView {
        StateView { show_help_popup: show, ..self }
    }

    /// The work timer is read at `now`.
    pub open spec fn timer_read_at(self, now: int) -> StateView {
        StateView { timer: self.timer.read_at(now), ..self }
    }

    /// The break timer is read at `now`.
    pub open spec fn break_timer_read_at(self, now: int) -> StateView {
        StateView { break_timer: self.break_timer.read_at(now), ..self }
    }
}

/// All that the application holds: the work timer and the break timer, the
/// clock that both go by, the count of pomodoros, the mode, the text field,
/// the task list with its selection, and whether the help overlay is up.
///
/// A state starts well formed and every operation keeps it so: what is
/// selected is a row of the task list. No operation relies on that.
#[derive(Debug)]
pub struct State {
    clock: Clock,
    timer: Timer,
    break_timer: Timer,
    pomodoro_no: u16,
    mode: Mode,
    input: Input,
    tasks: Vec<Task>,
    selected: Option<usize>,
    show_help_popup: bool,
}

impl View for State {
    type V = StateView;

    closed spec fn view(&self) -> StateView {
        StateView {
            timer: self.timer@,
            break_timer: self.break_timer@,
            pomodoro_no: self.pomodoro_no as nat,
            mode: self.mode,
            input: self.input@,
            tasks: task_views(self.tasks@),
            selected: match self.selected {
                Some(i) => Some(i as nat),
                None => None,
            },
            show_help_popup: self.show_help_popup,
        }
    }
}

impl State {
    /// The state in which the application starts: both timers at their full
    /// length and stopped, the first pomodoro, normal mode, no text, no
    /// tasks, nothing selected and no help overlay.
    pub fn new() -> (state: State)
        ensures
            state@ == StateView::initial(),
            state@.wf(),
    {
        let state = State {
            clock: Clock::new(),
            timer: Timer::new(DEFAULT_TIMER_LENGTH),
            break_timer: Timer::new(DEFAULT_BREAK_TIMER_LENGTH),
            pomodoro_no: 1,
            mode: Mode::Normal,
            input: Input::default(),
            tasks: Vec::new(),
            selected: None,
            show_help_popup: false,
        };
        assert(state@.tasks =~= Seq::empty());
        state
    }

    /// The number of the current pomodoro, counted from one.
    pub fn get_pomodoro_no(&self) -> (number: u16)
        ensures
            number == self@.pomodoro_no,
    {
        self.pomodoro_no
    }

    /// The microseconds that the state's clock shows now, counted from the
    /// moment the state was made.
    pub fn clock_micros(&self) -> u128 {
        self.clock.micros()
    }

    /// Begins a break now, by the state's clock: break mode, the work timer
    /// paused, the break timer started.
    pub fn start_break_timer(&mut self)
        ensures
            exists|now: nat| final(self)@ == old(self)@.start_break_timer_at(now as int),
            old(self)@.wf() ==> final(self)@.wf(),
    {
        let now = self.clock.micros();
        self.start_break_timer_at(now);
    }

    /// Begins a break at `now_micros`: break mode, the work timer paused,
    /// the break timer started.
    pub fn start_break_timer_at(&mut self, now_micros: u128)
        ensures
            final(self)@ == old(self)@.start_break_timer_at(now_micros as int),
            old(self)@.wf() ==> final(self)@.wf(),
    {
        self.mode = Mode::Break;
        self.timer.pause();
        self.break_timer.start_at(now_micros);
    }

    /// Dismisses the break: normal mode, the break timer back at its full
    /// length.
    pub fn reset_break_timer(&mut self)
        ensures
            final(self)@ == old(self)@.reset_break_timer(),
            old(self)@.wf() ==> final(self)@.wf(),
    {
        self.mode = Mode::Normal;
        self.break_timer.reset();
    }

    /// A copy of the task list, in its order.
    pub fn get_tasks(&self) -> (tasks: Vec<Task>)
        ensures
            task_views(tasks@) == self@.tasks,
    {
        clone_tasks(&self.tasks)
    }

    /// Appends a task with the given description, not done and with no
    /// estimation.
    pub fn add_new_task(&mut self, task_description: String)
        ensures
            final(self)@ == old(self)@.add_new_task(task_description@),
            old(self)@.wf() ==> final(self)@.wf(),
    {
        let new_task = Task::new(task_description);
        self.tasks.push(new_task);
        assert(self@.tasks =~= old(self)@.tasks.push(TaskView::entered(task_description@)));
    }

    /// Removes the selected task. The tasks after it move up by one row, and
    /// the selection stays where it was if that is still a row, goes to the
    /// last row if not, and goes away with the last task. Where no row of
    /// the list is selected nothing changes.
    pub fn delete_current_task(&mut self)
        ensures
            final(self)@ == old(self)@.delete_current_task(),
            old(self)@.wf() ==> final(self)@.wf(),
    {
        if let Some(task_index) = self.selected_row() {
            self.tasks.remove(task_index);
            let rows_left = self.tasks.len();
            self.selected = if rows_left == 0 {
                None
            } else if task_index >= rows_left {
                Some(rows_left - 1)
            } else {
                Some(task_index)
            };
            assert(self@.tasks =~= old(self)@.tasks.remove(task_index as int));
        }
    }

    /// Starts or resumes the work timer now, by the state's clock.
    pub fn start_timer(&mut self)
        ensures
            exists|now: nat| final(self)@ == old(self)@.start_timer_at(now as int),
            old(self)@.wf() ==> final(self)@.wf(),
    {
        let now = self.clock.micros();
        self.start_timer_at(now);
    }

    /// Starts or resumes the work timer at `now_micros`.
    pub fn start_timer_at(&mut self, now_micros: u128)
        ensures
            final(self)@ == old(self)@.start_timer_at(now_micros as int),
            old(self)@.wf() ==> final(self)@.wf(),
    {
        self.timer.start_at(now_micros);
    }

    /// Moves on to the next pomodoro: resets the work timer and raises the
    /// count by one. The count stops at the largest number it can hold.
    pub fn reset_timer(&mut self)
        ensures
            final(self)@ == old(self)@.reset_timer(),
            old(self)@.wf() ==> final(self)@.wf(),
    {
        self.timer.reset();
        if self.pomodoro_no < u16::MAX {
            self.pomodoro_no += 1;
        }
    }

    /// Pauses the work timer.
    pub fn pause_timer(&mut self)
        ensures
            final(self)@ == old(self)@.pause_timer(),
            old(self)@.wf() ==> final(self)@.wf(),
    {
        self.timer.pause();
    }

    /// Reads the work timer as of now, by the state's clock, and returns the
    /// whole seconds left and the whole seconds gone.
    pub fn get_timer_state(&mut self) -> (state: (i128, i128))
        ensures
            exists|now: nat| final(self)@ == old(self)@.timer_read_at(now as int),
            state.0 == final(self)@.timer.seconds_remaining(),
            state.1 == final(self)@.timer.seconds_elapsed(),
            old(self)@.wf() ==> final(self)@.wf(),
    {
        let now = self.clock.micros();
        let state = self.get_timer_state_at(now);
        state
    }

    /// Reads the work timer as of `now_micros` and returns the whole seconds
    /// left and the whole seconds gone.
    pub fn get_timer_state_at(&mut self, now_micros: u128) -> (state: (i128, i128))
        ensures
            final(self)@ == old(self)@.timer_read_at(now_micros as int),
            state.0 == final(self)@.timer.seconds_remaining(),
            state.1 == final(self)@.timer.seconds_elapsed(),
            old(self)@.wf() ==> final(self)@.wf(),
    {
        self.timer.get_state_at(now_micros)
    }

    /// Reads the break timer as of now, by the state's clock, and returns
    /// the whole seconds left and the whole seconds gone.
    pub fn get_break_timer_state(&mut self) -> (state: (i128, i128))
        ensures
            exists|now: nat| final(self)@ == old(self)@.break_timer_read_at(now as int),
            state.0 == final(self)@.break_timer.seconds_remaining(),
            state.1 == final(self)@.break_timer.seconds_elapsed(),
            old(self)@.wf() ==> final(self)@.wf(),
    {
        let now = self.clock.micros();
        let state = self.get_break_timer_state_at(now);
        state
    }

    /// Reads the break timer as of `now_micros` and returns the whole
    /// seconds left and the whole seconds gone.
    pub fn get_break_timer_state_at(&mut self, now_micros: u128) -> (state: (i128, i128))
        ensures
            final(self)@ == old(self)@.break_timer_read_at(now_micros as int),
            state.0 == final(self)@.break_timer.seconds_remaining(),
            state.1 == final(self)@.break_timer.seconds_elapsed(),
            old(self)@.wf() ==> final(self)@.wf(),
    {
        self.break_timer.get_state_at(now_micros)
    }

    /// Whether the work timer has reached zero since its last reset.
    pub fn timer_is_finished(&self) -> (finished: bool)
        ensures
            finished == self@.timer.finished,
    {
        self.timer.is_finished()
    }

    /// Whether the work timer is counting.
    pub fn timer_is_running(&self) -> (running: bool)
        ensures
            running == self@.timer.running,
    {
        self.timer.is_running()
    }

    /// Whether the break timer has reached zero since its last reset.
    pub fn break_timer_is_finished(&self) -> (finished: bool)
        ensures
            finished == self@.break_timer.finished,
    {
        self.break_timer.is_finished()
    }

    /// Whether the break timer is counting.
    pub fn break_timer_is_running(&self) -> (running: bool)
        ensures
            running == self@.break_timer.running,
    {
        self.break_timer.is_running()
    }

    /// The length of a work interval in whole seconds.
    pub fn timer_length(&self) -> (seconds: i128)
        ensures
            seconds == self@.timer.seconds_length(),
    {
        self.timer.get_length()
    }

    /// The length of a break in whole seconds.
    pub fn get_break_timer_length(&self) -> (seconds: i128)
        ensures
            seconds == self@.break_timer.seconds_length(),
    {
        self.break_timer.get_length()
    }

    /// Moves the selection down one row, from the last row to the first.
    /// With nothing selected the first row is selected. In an empty list
    /// nothing is selected.
    pub fn next_table_row(&mut self)
        ensures
            final(self)@ == old(self)@.next_table_row(),
            old(self)@.wf() ==> final(self)@.wf(),
    {
        let rows = self.tasks.len();
        self.selected = if rows == 0 {
            None
        } else if let Some(i) = self.selected {
            if i >= rows - 1 {
                Some(0)
            } else {
                Some(i + 1)
            }
        } else {
            Some(0)
        };
    }

    /// Marks the selected task as done. Where no row of the list is selected
    /// nothing changes.
    pub fn mark_current_task_as_completed(&mut self)
        ensures
            final(self)@ == old(self)@.mark_current_task_as_completed(),
            old(self)@.wf() ==> final(self)@.wf(),
    {
        if let Some(i) = self.selected_row() {
            self.tasks[i].completed = true;
            assert(self@.tasks =~= old(self)@.tasks.update(
                i as int,
                old(self)@.tasks[i as int].done(),
            ));
        }
    }

    /// Moves the selection up one row, from the first row to the last. With
    /// nothing selected the first row is selected. In an empty list nothing
    /// is selected.
    pub fn previous_table_row(&mut self)
        ensures
            final(self)@ == old(self)@.previous_table_row(),
            old(self)@.wf() ==> final(self)@.wf(),
    {
        let rows = self.tasks.len();
        self.selected = if rows == 0 {
            None
        } else if let Some(i) = self.selected {
            if i == 0 {
                Some(rows - 1)
            } else {
                Some(i - 1)
            }
        } else {
            Some(0)
        };
    }

    /// Clears the selection.
    pub fn unselect_table_item(&mut self)
        ensures
            final(self)@ == old(self)@.unselect_table_item(),
            old(self)@.wf() ==> final(self)@.wf(),
    {
        self.selected = None;
    }

    /// The mode the application is in.
    pub fn mode(&self) -> (mode: Mode)
        ensures
            mode == self@.mode,
    {
        self.mode
    }

    /// Changes the mode and nothing else.
    pub fn set_mode(&mut self, mode: Mode)
        ensures
            final(self)@ == old(self)@.set_mode(mode),
            old(self)@.wf() ==> final(self)@.wf(),
    {
        self.mode = mode;
    }

    /// Whether the help overlay is up.
    pub fn show_help_popup(&self) -> (show: bool)
        ensures
            show == self@.show_help_popup,
    {
        self.show_help_popup
    }

    /// Shows or hides the help overlay and changes nothing else.
    pub fn set_show_help_popup(&mut self, show: bool)
        ensures
            final(self)@ == old(self)@.set_show_help_popup(show),
            old(self)@.wf() ==> final(self)@.wf(),
    {
        self.show_help_popup = show;
    }

    /// The text field.
    pub fn input(&self) -> (input: &Input)
        ensures
            input@ == self@.input,
            input@.wf(),
    {
        proof {
            use_type_invariant(&self.input);
        }
        &self.input
    }

    /// Hands one edit to the text field.
    pub fn edit_input(&mut self, request: EditRequest)
        ensures
            final(self)@ == old(self)@.edit_input(request),
            old(self)@.wf() ==> final(self)@.wf(),
    {
        self.input.handle(request);
    }

    /// Empties the text field.
    pub fn reset_input(&mut self)
        ensures
            final(self)@ == old(self)@.reset_input(),
            old(self)@.wf() ==> final(self)@.wf(),
    {
        self.input.reset();
    }

    /// The selected row of the task list, if there is one.
    pub fn selected(&self) -> (selected: Option<usize>)
        ensures
            match selected {
                Some(i) => self@.selected == Some(i as nat),
                None => self@.selected.is_none(),
            },
    {
        self.selected
    }

    /// The selected row, if it is a row of the task list.
    fn selected_row(&self) -> (row: Option<usize>)
        ensures
            match row {
                Some(i) => self@.selected_row() == Some(i as nat) && i < self.tasks.len(),
                None => self@.selected_row().is_none(),
            },
    {
        match self.selected {
            Some(i) if i < self.tasks.len() => Some(i),
            _ => None,
        }
    }
}

/// The row that is selected after the selection has moved down `times`
/// times in a list of `rows` rows.
pub open spec fn next_row_times(selected: Option<nat>, rows: nat, times: nat) -> Option<nat>
    decreases times,
{
    if times == 0 {
        selected
    } else {
        next_row(next_row_times(selected, rows, (times - 1) as nat), rows)
    }
}

/// The row that is selected after the selection has moved up `times` times
/// in a list of `rows` rows.
pub open spec fn previous_row_times(selected: Option<nat>, rows: nat, times: nat) -> Option<nat>
    decreases times,
{
    if times == 0 {
        selected
    } else {
        previous_row(previous_row_times(selected, rows, (times - 1) as nat), rows)
    }
}

/// Where the selection is after moving down up to `rows` times from a row of
/// the list.
proof fn lemma_next_row_steps(row: nat, rows: nat, times: nat)
    requires
        row < rows,
        times <= rows,
    ensures
        next_row_times(Some(row), rows, times) == Some(
            if row + times < rows {
                row + times
            } else {
                (row + times - rows) as nat
            },
        ),
    decreases times,
{
    if times > 0 {
        lemma_next_row_steps(row, rows, (times - 1) as nat);
    }
}

/// Where the selection is after moving up up to `rows` times from a row of
/// the list.
proof fn lemma_previous_row_steps(row: nat, rows: nat, times: nat)
    requires
        row < rows,
        times <= rows,
    ensures
        previous_row_times(Some(row), rows, times) == Some(
            if times <= row {
                (row - times) as nat
            } else {
                (row + rows - times) as nat
            },
        ),
    decreases times,
{
    if times > 0 {
        lemma_previous_row_steps(row, rows, (times - 1) as nat);
    }
}

/// Moving the selection down never leaves the list: whatever was selected,
/// what is selected afterwards is a row of the list, and in an empty list it
/// is nothing. Moving up from a row of the list, or from nothing, does not
/// leave the list either.
pub proof fn lemma_moved_selection_in_range(selected: Option<nat>, rows: nat)
    ensures
        next_row(selected, rows) matches Some(i) ==> i < rows,
        rows == 0 ==> next_row(selected, rows).is_none() && previous_row(selected, rows).is_none(),
        rows > 0 ==> next_row(selected, rows).is_some() && previous_row(selected, rows).is_some(),
        (selected matches Some(i) ==> i < rows) ==> (previous_row(selected, rows) matches Some(i)
            ==> i < rows),
{
}

/// The selection goes round: in a list of `rows` rows, moving down `rows`
/// times from a row of the list comes back to that row, and so does moving
/// up `rows` times.
pub proof fn lemma_selection_is_cyclic(row: nat, rows: nat)
    requires
        row < rows,
    ensures
        next_row_times(Some(row), rows, rows) == Some(row),
        previous_row_times(Some(row), rows, rows) == Some(row),
{
    lemma_next_row_steps(row, rows, rows);
    lemma_previous_row_steps(row, rows, rows);
}

/// Moving down and then up, or up and then down, comes back to the same row.
pub proof fn lemma_next_and_previous_undo(row: nat, rows: nat)
    requires
        row < rows,
    ensures
        previous_row(next_row(Some(row), rows), rows) == Some(row),
        next_row(previous_row(Some(row), rows), rows) == Some(row),
{
}

/// Deleting the selected task takes exactly that task out: the list is one
/// shorter, the tasks before it stay where they were, and each task after it
/// moves up by one row. The selection stays on the same row, which now holds
/// the task that followed; it moves to the new last row if the last task was
/// deleted, and goes away with the only task. So the selection afterwards is
/// a row of the shorter list.
pub proof fn lemma_delete_shifts_rows(s: StateView, row: nat)
    requires
        s.wf(),
        s.selected == Some(row),
    ensures
        s.delete_current_task().tasks == s.tasks.remove(row as int),
        s.delete_current_task().tasks.len() == s.tasks.len() - 1,
        forall|j: int| 0 <= j < row ==> s.delete_current_task().tasks[j] == s.tasks[j],
        forall|j: int|
            row <= j < s.tasks.len() - 1 ==> s.delete_current_task().tasks[j] == s.tasks[j + 1],
        s.delete_current_task().selected == (if s.tasks.len() == 1 {
            None
        } else if row == s.tasks.len() - 1 {
            Some((row - 1) as nat)
        } else {
            Some(row)
        }),
        s.delete_current_task().wf(),
{
}

/// Deleting with nothing selected changes nothing.
pub proof fn lemma_delete_needs_a_selection(s: StateView)
    requires
        s.selected.is_none(),
    ensures
        s.delete_current_task() == s,
        s.mark_current_task_as_completed() == s,
{
}

/// The state in which the application starts is well formed, and every
/// operation leaves a well-formed state well formed.
pub proof fn lemma_operations_keep_wf(
    s: StateView,
    description: Seq<char>,
    request: EditRequest,
    mode: Mode,
    show: bool,
    now: int,
)
    requires
        s.wf(),
    ensures
        StateView::initial().wf(),
        s.add_new_task(description).wf(),
        s.delete_current_task().wf(),
        s.mark_current_task_as_completed().wf(),
        s.next_table_row().wf(),
        s.previous_table_row().wf(),
        s.unselect_table_item().wf(),
        s.start_timer_at(now).wf(),
        s.pause_timer().wf(),
        s.reset_timer().wf(),
        s.start_break_timer_at(now).wf(),
        s.reset_break_timer().wf(),
        s.timer_read_at(now).wf(),
        s.break_timer_read_at(now).wf(),
        s.edit_input(request).wf(),
        s.reset_input().wf(),
        s.set_mode(mode).wf(),
        s.set_show_help_popup(show).wf(),
{
}

} // verus!

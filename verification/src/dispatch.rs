//! Key events and what they do in each mode.

use crate::duration::MICROS_PER_SECOND;
use crate::input::EditRequest;
use crate::input::InputView;
use crate::state::Mode;
use crate::state::State;
use crate::state::StateView;
use crate::task::TaskView;
use crate::timer::TimerView;
use vstd::prelude::*;

verus! {

/// The key of a key event, as far as the application tells keys apart.
#[derive(Clone, Copy, Debug, PartialEq, Eq)]
pub enum KeyCode {
    Char(char),
    Enter,
    Esc,
    Up,
    Down,
    /// Any other key.
    Other,
}

/// Whether a key went down, is held down, or came up.
#[derive(Clone, Copy, Debug, PartialEq, Eq)]
pub enum KeyEventKind {
    Press,
    Repeat,
    Release,
}

/// One event of the keyboard. Only a key that went down is a command; a key
/// that is held down or came up changes nothing in any mode.
#[derive(Clone, Copy, Debug, PartialEq, Eq)]
pub struct KeyEvent {
    pub code: KeyCode,
    pub kind: KeyEventKind,
    /// The edit that the event stands for in a text field, if it stands for
    /// one. Only insert mode looks at it.
    pub edit: Option<EditRequest>,
}

/// Whether the event loop goes on after a key.
#[derive(Clone, Copy, Debug, PartialEq, Eq)]
pub enum Control {
    Continue,
    Quit,
}

/// The state after a key that comes at `now` in normal mode. `p` pauses the
/// work timer, `s` starts or resumes it, `r` moves on to the next pomodoro,
/// `i` and `e` enter insert and edit mode, `?` brings the help overlay up and
/// Esc takes it down, `b` begins a break. Any other key changes nothing.
pub open spec fn normal_mode_key(s: StateView, key: KeyEvent, now: int) -> StateView {
    if key.kind != KeyEventKind::Press {
        s
    } else {
        pressed_in_normal_mode(s, key.code, now)
    }
}

/// The state after `code` is pressed at `now` in normal mode.
pub open spec fn pressed_in_normal_mode(s: StateView, code: KeyCode, now: int) -> StateView {
    match code {
        KeyCode::Char(c) => if c == 'p' {
            s.pause_timer()
        } else if c == 's' {
            s.start_timer_at(now)
        } else if c == 'r' {
            s.reset_timer()
        } else if c == 'i' {
            s.set_mode(Mode::Insert)
        } else if c == 'e' {
            s.set_mode(Mode::Edit)
        } else if c == '?' {
            s.set_show_help_popup(true)
        } else if c == 'b' {
            s.start_break_timer_at(now)
        } else {
            s
        },
        KeyCode::Esc => s.set_show_help_popup(false),
        _ => s,
    }
}

/// The state after a key in edit mode. Esc clears the selection and returns
/// to normal mode, Down and `j` move the selection down, Up and `k` move it
/// up, `m` marks the selected task as done, `d` deletes it. Any other key
/// changes nothing.
pub open spec fn edit_mode_key(s: StateView, key: KeyEvent) -> StateView {
    if key.kind != KeyEventKind::Press {
        s
    } else {
        pressed_in_edit_mode(s, key.code)
    }
}

/// The state after `code` is pressed in edit mode.
pub open spec fn pressed_in_edit_mode(s: StateView, code: KeyCode) -> StateView {
    match code {
        KeyCode::Esc => s.unselect_table_item().set_mode(Mode::Normal),
        KeyCode::Down => s.next_table_row(),
        KeyCode::Up => s.previous_table_row(),
        KeyCode::Char(c) => if c == 'j' {
            s.next_table_row()
        } else if c == 'k' {
            s.previous_table_row()
        } else if c == 'm' {
            s.mark_current_task_as_completed()
        } else if c == 'd' {
            s.delete_current_task()
        } else {
            s
        },
        _ => s,
    }
}

/// The state after a key in insert mode. Enter turns the text of the field
/// into a new task and empties the field, Esc returns to normal mode, and
/// any other key goes to the text field as the edit it stands for, if it
/// stands for one.
pub open spec fn insert_mode_key(s: StateView, key: KeyEvent) -> StateView {
    if key.kind != KeyEventKind::Press {
        s
    } else {
        match key.code {
            KeyCode::Enter => s.add_new_task(s.input.text).reset_input(),
            KeyCode::Esc => s.set_mode(Mode::Normal),
            _ => match key.edit {
                Some(request) => s.edit_input(request),
                None => s,
            },
        }
    }
}

/// The state after a key during a break. Esc dismisses the break; any other
/// key changes nothing.
pub open spec fn break_mode_key(s: StateView, key: KeyEvent) -> StateView {
    if key.kind != KeyEventKind::Press {
        s
    } else {
        match key.code {
            KeyCode::Esc => s.reset_break_timer(),
            _ => s,
        }
    }
}

/// Whether a key ends the application: `q`, pressed in normal mode.
pub open spec fn quits(s: StateView, key: KeyEvent) -> bool {
    s.mode == Mode::Normal && key.kind == KeyEventKind::Press && key.code == KeyCode::Char('q')
}

/// The state after a key that comes at `now`, whatever the mode.
pub open spec fn after_key(s: StateView, key: KeyEvent, now: int) -> StateView {
    if quits(s, key) {
        s
    } else {
        match s.mode {
            Mode::Normal => normal_mode_key(s, key, now),
            Mode::Insert => insert_mode_key(s, key),
            Mode::Edit => edit_mode_key(s, key),
            Mode::Break => break_mode_key(s, key),
        }
    }
}

/// Handles a key in normal mode, at the time the state's clock shows.
pub fn handle_key_events_for_normal_mode(key: KeyEvent, state: &mut State)
    ensures
        exists|now: nat| final(state)@ == normal_mode_key(old(state)@, key, now as int),
        old(state)@.wf() ==> final(state)@.wf(),
{
    let now = state.clock_micros();
    handle_key_events_for_normal_mode_at(key, now, state);
}

/// Handles a key that comes at `now_micros` in normal mode.
pub fn handle_key_events_for_normal_mode_at(key: KeyEvent, now_micros: u128, state: &mut State)
    ensures
        final(state)@ == normal_mode_key(old(state)@, key, now_micros as int),
        old(state)@.wf() ==> final(state)@.wf(),
{
    if !matches!(key.kind, KeyEventKind::Press) {
        return ;
    }
    match key.code {
        KeyCode::Char('p') => state.pause_timer(),
        KeyCode::Char('s') => state.start_timer_at(now_micros),
        KeyCode::Char('r') => state.reset_timer(),
        KeyCode::Char('i') => state.set_mode(Mode::Insert),
        KeyCode::Char('e') => state.set_mode(Mode::Edit),
        KeyCode::Char('?') => state.set_show_help_popup(true),
        KeyCode::Esc => state.set_show_help_popup(false),
        KeyCode::Char('b') => state.start_break_timer_at(now_micros),
        _ => {},
    }
}

/// Handles a key in edit mode.
pub fn handle_key_events_for_edit_mode(key: KeyEvent, state: &mut State)
    ensures
        final(state)@ == edit_mode_key(old(state)@, key),
        old(state)@.wf() ==> final(state)@.wf(),
{
    if !matches!(key.kind, KeyEventKind::Press) {
        return ;
    }
    match key.code {
        KeyCode::Esc => {
            state.unselect_table_item();
            state.set_mode(Mode::Normal);
        },
        KeyCode::Down | KeyCode::Char('j') => state.next_table_row(),
        KeyCode::Up | KeyCode::Char('k') => state.previous_table_row(),
        KeyCode::Char('m') => state.mark_current_task_as_completed(),
        KeyCode::Char('d') => state.delete_current_task(),
        _ => {},
    }
}

/// Handles a key in insert mode.
pub fn insert_mode(key: KeyEvent, state: &mut State)
    ensures
        final(state)@ == insert_mode_key(old(state)@, key),
        old(state)@.wf() ==> final(state)@.wf(),
{
    if !matches!(key.kind, KeyEventKind::Press) {
        return ;
    }
    match key.code {
        KeyCode::Enter => {
            let task_description = state.input().value().to_owned();
            state.add_new_task(task_description);
            state.reset_input();
        },
        KeyCode::Esc => {
            state.set_mode(Mode::Normal);
        },
        _ => {
            if let Some(request) = key.edit {
                state.edit_input(request);
            }
        },
    }
}

/// Handles a key during a break.
pub fn handle_key_events_for_break_mode(key: KeyEvent, state: &mut State)
    ensures
        final(state)@ == break_mode_key(old(state)@, key),
        old(state)@.wf() ==> final(state)@.wf(),
{
    if !matches!(key.kind, KeyEventKind::Press) {
        return ;
    }
    match key.code {
        KeyCode::Esc => state.reset_break_timer(),
        _ => {},
    }
}

/// Handles a key in the mode the application is in, at the time the state's
/// clock shows, and says whether the event loop goes on. Only `q`, pressed in
/// normal mode, ends it, and it changes nothing else.
pub fn handle_key_event(key: KeyEvent, state: &mut State) -> (control: Control)
    ensures
        exists|now: nat| final(state)@ == after_key(old(state)@, key, now as int),
        control == (if quits(old(state)@, key) {
            Control::Quit
        } else {
            Control::Continue
        }),
        old(state)@.wf() ==> final(state)@.wf(),
{
    let now = state.clock_micros();
    let control = handle_key_event_at(key, now, state);
    control
}

/// Handles a key that comes at `now_micros`, in the mode the application is
/// in, and says whether the event loop goes on. Only `q`, pressed in normal
/// mode, ends it, and it changes nothing else.
pub fn handle_key_event_at(key: KeyEvent, now_micros: u128, state: &mut State) -> (control: Control)
    ensures
        final(state)@ == after_key(old(state)@, key, now_micros as int),
        control == (if quits(old(state)@, key) {
            Control::Quit
        } else {
            Control::Continue
        }),
        old(state)@.wf() ==> final(state)@.wf(),
{
    match state.mode() {
        Mode::Normal => {
            if matches!(key.kind, KeyEventKind::Press) && matches!(key.code, KeyCode::Char('q')) {
                return Control::Quit;
            }
            handle_key_events_for_normal_mode_at(key, now_micros, state);
        },
        Mode::Insert => insert_mode(key, state),
        Mode::Edit => handle_key_events_for_edit_mode(key, state),
        Mode::Break => handle_key_events_for_break_mode(key, state),
    }
    Control::Continue
}

/// The mode after a key is pressed. From normal mode `i`, `e` and `b` lead to
/// insert mode, edit mode and a break; from each of those Esc leads back to
/// normal mode; every other key stays in the mode.
pub open spec fn next_mode(mode: Mode, code: KeyCode) -> Mode {
    match mode {
        Mode::Normal => match code {
            KeyCode::Char(c) => if c == 'i' {
                Mode::Insert
            } else if c == 'e' {
                Mode::Edit
            } else if c == 'b' {
                Mode::Break
            } else {
                Mode::Normal
            },
            _ => Mode::Normal,
        },
        _ => match code {
            KeyCode::Esc => Mode::Normal,
            _ => mode,
        },
    }
}

/// What holds of the state as long as it is changed by keys and by reading
/// the timers only: a selected row is a row of the task list, and there is
/// a selection in edit mode only; during a break the work timer does not
/// run; and the mode is a break exactly while the break timer has been
/// started and not put back, that is, while it runs or has run out.
pub open spec fn consistent(s: StateView) -> bool {
    &&& s.wf()
    &&& s.mode != Mode::Edit ==> s.selected.is_none()
    &&& s.mode == Mode::Break ==> !s.timer.running
    &&& s.mode == Mode::Break <==> s.break_timer.running || s.break_timer.finished
}

/// Every key in every mode has one outcome, with an empty task list or text
/// field as with a full one: the mode that follows a pressed key is the one
/// that the table of transitions gives, which depends on the mode and the
/// key alone; a key that was not pressed changes nothing; and a selection
/// that was a row of the list is one afterwards.
pub proof fn lemma_mode_transitions(s: StateView, key: KeyEvent, now: int)
    ensures
        key.kind == KeyEventKind::Press ==> after_key(s, key, now).mode == next_mode(
            s.mode,
            key.code,
        ),
        key.kind != KeyEventKind::Press ==> after_key(s, key, now) == s,
        s.wf() ==> after_key(s, key, now).wf(),
{
}

/// A key changes only what belongs to the mode: the task list changes in
/// insert and edit mode only, the selection in edit mode only, the text
/// field in insert mode only, the work timer and the count of pomodoros in
/// normal mode only, the break timer on entering and leaving a break only,
/// and the help overlay in normal mode only. A key that moves the cursor of
/// the text field leaves its text as it is.
pub proof fn lemma_key_stays_in_its_mode(s: StateView, key: KeyEvent, now: int)
    ensures
        key.code != KeyCode::Enter && (key.edit matches Some(request) && request is GoTo)
            ==> after_key(s, key, now).input.text == s.input.text,
        s.mode != Mode::Insert && s.mode != Mode::Edit ==> after_key(s, key, now).tasks == s.tasks,
        s.mode != Mode::Edit ==> after_key(s, key, now).selected == s.selected,
        s.mode != Mode::Insert ==> after_key(s, key, now).input == s.input,
        s.mode != Mode::Normal ==> after_key(s, key, now).timer == s.timer && after_key(
            s,
            key,
            now,
        ).pomodoro_no == s.pomodoro_no && after_key(s, key, now).show_help_popup
            == s.show_help_popup,
        s.mode != Mode::Normal && s.mode != Mode::Break ==> after_key(s, key, now).break_timer
            == s.break_timer,
{
}

/// The application starts in a consistent state, every key leaves a
/// consistent state consistent, and so does every reading of a timer, at
/// whatever time it comes.
pub proof fn lemma_consistency_is_kept(s: StateView, key: KeyEvent, now: int)
    requires
        consistent(s),
    ensures
        consistent(StateView::initial()),
        consistent(after_key(s, key, now)),
        consistent(s.timer_read_at(now)),
        consistent(s.break_timer_read_at(now)),
{
}

/// Beginning a break from normal mode and dismissing it with Esc: during the
/// break the work timer is paused and the break timer runs; afterwards the
/// mode is normal again and the break timer is back at its full length,
/// whatever it had lost in between.
pub proof fn lemma_break_and_back(
    s: StateView,
    begin: KeyEvent,
    dismiss: KeyEvent,
    begun: int,
    read: int,
    dismissed: int,
)
    requires
        s.mode == Mode::Normal,
        begin.kind == KeyEventKind::Press,
        begin.code == KeyCode::Char('b'),
        dismiss.kind == KeyEventKind::Press,
        dismiss.code == KeyCode::Esc,
    ensures
        after_key(s, begin, begun).mode == Mode::Break,
        !after_key(s, begin, begun).timer.running,
        after_key(s, begin, begun).break_timer.running,
        after_key(after_key(s, begin, begun).break_timer_read_at(read), dismiss, dismissed).mode
            == Mode::Normal,
        after_key(
            after_key(s, begin, begun).break_timer_read_at(read),
            dismiss,
            dismissed,
        ).break_timer == TimerView::fresh(s.break_timer.length),
{
}

/// From the start, `s` starts the work timer: read a whole number of seconds
/// later, before its 1500 seconds are up, it shows that many seconds gone and
/// the rest left.
pub proof fn lemma_started_work_timer_counts_down(start: KeyEvent, now: int, seconds: int)
    requires
        start.kind == KeyEventKind::Press,
        start.code == KeyCode::Char('s'),
        0 <= seconds < 1500,
    ensures
        after_key(StateView::initial(), start, now).timer.running,
        after_key(StateView::initial(), start, now).timer_read_at(
            now + MICROS_PER_SECOND * seconds,
        ).timer.seconds_elapsed() == seconds,
        after_key(StateView::initial(), start, now).timer_read_at(
            now + MICROS_PER_SECOND * seconds,
        ).timer.seconds_remaining() == 1500 - seconds,
{
}

/// The key event of a character that is typed.
pub open spec fn typed_key(c: char) -> KeyEvent {
    KeyEvent {
        code: KeyCode::Char(c),
        kind: KeyEventKind::Press,
        edit: Some(EditRequest::InsertChar(c)),
    }
}

/// The state after the characters of `text` are typed one after the other.
pub open spec fn after_typing(s: StateView, text: Seq<char>, now: int) -> StateView
    decreases text.len(),
{
    if text.len() == 0 {
        s
    } else {
        after_key(after_typing(s, text.drop_last(), now), typed_key(text.last()), now)
    }
}

/// In insert mode, with the cursor at the end of the text field, a text that
/// is typed is added to the end of the field, and nothing else changes.
/// Enter then makes the whole text of the field the last task of the list,
/// not done and with no estimation, empties the field, and stays in insert
/// mode.
pub proof fn lemma_typed_text_becomes_a_task(
    s: StateView,
    text: Seq<char>,
    enter: KeyEvent,
    now: int,
)
    requires
        s.mode == Mode::Insert,
        s.input.cursor == s.input.text.len(),
        enter.kind == KeyEventKind::Press,
        enter.code == KeyCode::Enter,
    ensures
        after_typing(s, text, now) == (StateView {
            input: InputView { text: s.input.text + text, cursor: (s.input.text + text).len() },
            ..s
        }),
        after_key(after_typing(s, text, now), enter, now) == (StateView {
            tasks: s.tasks.push(TaskView::entered(s.input.text + text)),
            input: InputView::empty(),
            ..s
        }),
    decreases text.len(),
{
    if text.len() == 0 {
    } else {
        let before = text.drop_last();
        lemma_typed_text_becomes_a_task(s, before, enter, now);
        let field = after_typing(s, before, now).input;
        assert(field.typed(text.last()).text =~= s.input.text + text);
    }
}

} // verus!

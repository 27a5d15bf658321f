//! A pomodoro timer for the terminal, without the terminal: the countdowns,
//! the task list, the modes and what each key does in them.
//!
//! Time is never counted in the background. A countdown keeps what was left
//! when it was last read and the time of that reading, and works out what is
//! left now when it is asked. Every operation that depends on the time comes
//! in two forms: one that is told the time, whose contract says exactly what
//! it does, and one that reads the clock and then does the same.
//!
//! Contracts are stated over views: [`timer::TimerView`],
//! [`input::InputView`], [`task::TaskView`] and [`state::StateView`].
//!
//! Two things are taken on trust and not proved. One is the clock of the
//! standard library, of whose readings nothing is claimed ([`clock`]). The
//! other is the editing of a line of text, which `tui_input` does: what a
//! typed character does to the text is stated, what the other edits do is
//! only given a name ([`input`]).

pub mod clock;
pub mod dispatch;
pub mod duration;
pub mod input;
pub mod label;
pub mod state;
pub mod task;
pub mod timer;

//! The entries of the task list.

use vstd::prelude::*;

verus! {

/// What a task is, with its description as a sequence of characters.
pub struct TaskView {
    pub completed: bool,
    pub description: Seq<char>,
    pub estimation: int,
}

/// One entry of the task list.
#[derive(Debug)]
pub struct Task {
    /// Whether the task has been marked as done.
    pub completed: bool,
    /// What the user typed for it.
    pub description: String,
    /// Pomodoros the task is expected to take; zero for a task that was
    /// typed in.
    pub estimation: i16,
}

impl View for Task {
    type V = TaskView;

    open spec fn view(&self) -> TaskView {
        TaskView {
            completed: self.completed,
            description: self.description@,
            estimation: self.estimation as int,
        }
    }
}

impl TaskView {
    /// The task that a description becomes when it is typed in: not done,
    /// with no estimation.
    pub open spec fn entered(description: Seq<char>) -> TaskView {
        TaskView { completed: false, description, estimation: 0 }
    }

    /// The task once it is marked as done.
    pub open spec fn done(self) -> TaskView {
        TaskView { completed: true, ..self }
    }
}

impl Task {
    /// The task that `description` becomes when it is typed in.
    pub fn new(description: String) -> (task: Task)
        ensures
            task@ == TaskView::entered(description@),
    {
        Task { completed: false, description, estimation: 0 }
    }
}

impl Clone for Task {
    fn clone(&self) -> (copy: Task)
        ensures
            copy@ == self@,
    {
        Task {
            completed: self.completed,
            description: self.description.clone(),
            estimation: self.estimation,
        }
    }
}

/// The tasks of a list, each by its view, in the order of the list.
pub open spec fn task_views(tasks: Seq<Task>) -> Seq<TaskView> {
    Seq::new(tasks.len(), |i: int| tasks[i]@)
}

/// A copy of a task list, task by task.
pub fn clone_tasks(tasks: &Vec<Task>) -> (copy: Vec<Task>)
    ensures
        task_views(copy@) == task_views(tasks@),
{
    let mut copy: Vec<Task> = Vec::new();
    let mut i: usize = 0;
    while i < tasks.len()
        invariant
            i <= tasks.len(),
            copy.len() == i,
            forall|j: int| 0 <= j < i ==> copy[j]@ == tasks[j]@,
        decreases tasks.len() - i,
    {
        copy.push(tasks[i].clone());
        i = i + 1;
    }
    copy
}

} // verus!

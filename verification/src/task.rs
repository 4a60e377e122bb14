use vstd::prelude::*;

use crate::path::FilePath;

verus! {

/// What is done to a file.
#[derive(Debug, Clone)]
pub enum FileOp {
    /// Write these bytes to it.
    Write { content: Vec<u8> },
}

/// A unit of work that the tool performs.
#[derive(Debug)]
pub enum Task {
    /// Run a shell command as it is.
    SimpleCommand { command: String },
    /// Run a command that relies on files the tasks before it prepared.
    Command { command: String },
    /// Act on a file.
    File { kind: FileOp, path: FilePath },
    /// Carry out the tasks in turn, stopping at the first that fails.
    Sequence(Vec<Task>),
    /// Report an error to the user and stop.
    NotifyError { message: String },
}

/// The content of a task.
pub enum TaskView {
    SimpleCommand { command: Seq<char> },
    Command { command: Seq<char> },
    WriteFile { content: Seq<u8>, path: Seq<char> },
    Sequence(Seq<TaskView>),
    NotifyError { message: Seq<char> },
}

/// The content of a task.
pub open spec fn task_view(t: Task) -> TaskView
    decreases t,
{
    match t {
        Task::SimpleCommand { command } => TaskView::SimpleCommand { command: command@ },
        Task::Command { command } => TaskView::Command { command: command@ },
        Task::File { kind: FileOp::Write { content }, path } => TaskView::WriteFile {
            content: content@,
            path: path.text@,
        },
        Task::Sequence(ts) => TaskView::Sequence(
            Seq::new(
                ts@.len(),
                |i: int|
                    if 0 <= i < ts@.len() {
                        proof {
                            assert(decreases_to!(t => ts));
                            assert(decreases_to!(ts => ts@));
                            assert(decreases_to!(ts@ => ts@[i]));
                        }
                        task_view(ts@[i])
                    } else {
                        TaskView::Sequence(Seq::empty())
                    },
            ),
        ),
        Task::NotifyError { message } => TaskView::NotifyError { message: message@ },
    }
}

impl View for Task {
    type V = TaskView;

    open spec fn view(&self) -> TaskView {
        task_view(*self)
    }
}

/// The contents of a list of tasks.
pub open spec fn tasks_view(v: Seq<Task>) -> Seq<TaskView> {
    v.map_values(|t: Task| t@)
}

/// The contents of an optional list of tasks.
pub open spec fn opt_tasks_view(v: Option<Vec<Task>>) -> Option<Seq<TaskView>> {
    match v {
        Some(ts) => Some(tasks_view(ts@)),
        None => None,
    }
}

impl Task {
    /// A task that runs `command`.
    pub fn command(command: String) -> (t: Task)
        ensures
            t@ == (TaskView::SimpleCommand { command: command@ }),
    {
        Task::SimpleCommand { command }
    }
}

} // verus!

use vstd::prelude::*;
use vstd::string::*;
use vstd::utf8::encode_utf8;

use crate::cmd::{Cmd, CmdView};
use crate::context::Context;
use crate::m2::push::{container, container_name, exec, spec_push};
use crate::path::spec_join;
use crate::task::{FileOp, Task, TaskView, task_view, tasks_view, opt_tasks_view};
use crate::path::FilePath;
use crate::text::{append_decimal, decimal_text};

verus! {

/// The docker-compose file of a Magento 2 project.
pub open spec fn compose_file(cwd: Seq<char>, name: Seq<char>) -> Seq<char> {
    spec_join(spec_join(cwd, ".wf2_m2_"@ + name), "docker-compose.yml"@)
}

/// The docker-compose file that `npm` runs with.
pub open spec fn npm_compose_file(cwd: Seq<char>) -> Seq<char> {
    spec_join(spec_join(cwd, ".wf2_default"@), "docker-compose.yml"@)
}

/// The content of the docker-compose file that `npm` runs with: a `node`
/// service with the project directory mounted at the web root.
pub open spec fn npm_compose_text(cwd: Seq<char>) -> Seq<char> {
    "version: \"3\"\nservices:\n  node:\n    image: node\n    volumes:\n      - "@ + cwd + ":/var/www\n"@
}

/// The command that runs `npm` in the `node` service.
pub open spec fn npm_command(cwd: Seq<char>, npm_path: Seq<char>, trailing: Seq<char>) -> Seq<char> {
    "docker-compose -f "@ + npm_compose_file(cwd) + " run --workdir "@ + spec_join("/var/www"@, npm_path) + " node "@
        + trailing
}

/// The name a command is given on the command line, for the commands
/// whose tasks this library does not build.
pub open spec fn unbuilt_cmd_name(cmd: CmdView) -> Seq<char> {
    match cmd {
        CmdView::Doctor => "doctor"@,
        CmdView::Up => "up"@,
        CmdView::Stop => "stop"@,
        CmdView::Eject => "eject"@,
        CmdView::DBImport { .. } => "db-import"@,
        CmdView::DBDump => "db-dump"@,
        CmdView::Pull { .. } => "pull"@,
        _ => "m"@,
    }
}

/// The message given for a command whose tasks are not built here.
pub open spec fn unbuilt_message(cmd: CmdView) -> Seq<char> {
    "wf2 "@ + unbuilt_cmd_name(cmd) + ": this command has no tasks in this build"@
}

/// The tasks a Magento 2 project carries out for a command.
///
/// This library builds the tasks of `down`, `exec`, `composer`, `npm` and
/// `push`; each other command is answered with a single error task that
/// says it has no tasks here.
pub open spec fn spec_resolve_cmd(
    cwd: Seq<char>,
    name: Seq<char>,
    width: u16,
    height: u16,
    npm_path: Seq<char>,
    cmd: CmdView,
) -> Option<Seq<TaskView>> {
    match cmd {
        CmdView::Down => Some(
            seq![TaskView::SimpleCommand { command: "docker-compose -f "@ + compose_file(cwd, name) + " down"@ }],
        ),
        CmdView::Exec { trailing, user } => Some(
            seq![TaskView::SimpleCommand {
                command: "docker exec -it -u "@ + user + " -e COLUMNS=\""@ + decimal_text(width as nat)
                    + "\" -e LINES=\""@ + decimal_text(height as nat) + "\" "@ + container_name(name) + " "@
                    + trailing,
            }],
        ),
        CmdView::Composer { trailing } => Some(
            seq![TaskView::SimpleCommand {
                command: "docker exec -it -u www-data "@ + container_name(name) + " "@ + trailing,
            }],
        ),
        CmdView::Npm { user, trailing } => Some(
            seq![TaskView::Sequence(seq![
                TaskView::WriteFile {
                    content: encode_utf8(npm_compose_text(cwd)),
                    path: npm_compose_file(cwd),
                },
                TaskView::Command { command: npm_command(cwd, npm_path, trailing) },
            ])],
        ),
        CmdView::Push { trailing, force } => Some(spec_push(cwd, name, trailing, force)),
        _ => Some(seq![TaskView::NotifyError { message: unbuilt_message(cmd) }]),
    }
}

fn one_command(command: String) -> (r: Vec<Task>)
    ensures
        tasks_view(r@) == seq![TaskView::SimpleCommand { command: command@ }],
{
    let mut r: Vec<Task> = Vec::new();
    r.push(Task::command(command));
    assert(tasks_view(r@) =~= seq![TaskView::SimpleCommand { command: command@ }]);
    r
}

/// Turns a command into the tasks that carry it out in a Magento 2 project.
pub fn resolve_cmd(ctx: &Context, cmd: Cmd) -> (r: Option<Vec<Task>>)
    ensures
        opt_tasks_view(r) == spec_resolve_cmd(
            ctx.cwd.text@,
            ctx.name@,
            ctx.term.width,
            ctx.term.height,
            ctx.npm_path.text@,
            cmd@,
        ),
{
    match cmd {
        Cmd::Down => {
            let mut dir_name = String::from_str(".wf2_m2_");
            dir_name.append(ctx.name.as_str());
            let file = ctx.cwd.join(dir_name.as_str()).join("docker-compose.yml");
            let mut c = String::from_str("docker-compose -f ");
            c.append(file.as_str());
            c.append(" down");
            Some(one_command(c))
        },
        Cmd::Exec { trailing, user } => {
            let mut c = String::from_str("docker exec -it -u ");
            c.append(user.as_str());
            c.append(" -e COLUMNS=\"");
            append_decimal(&mut c, ctx.term.width);
            c.append("\" -e LINES=\"");
            append_decimal(&mut c, ctx.term.height);
            c.append("\" ");
            c.append(container(ctx.name.as_str()).as_str());
            c.append(" ");
            c.append(trailing.as_str());
            Some(one_command(c))
        },
        Cmd::Composer { trailing } => {
            let mut c = String::from_str("docker exec -it -u www-data ");
            c.append(container(ctx.name.as_str()).as_str());
            c.append(" ");
            c.append(trailing.as_str());
            Some(one_command(c))
        },
        Cmd::Npm { user: _, trailing } => {
            let file = ctx.cwd.join(".wf2_default").join("docker-compose.yml");
            let mut text = String::from_str("version: \"3\"\nservices:\n  node:\n    image: node\n    volumes:\n      - ");
            text.append(ctx.cwd.as_str());
            text.append(":/var/www\n");
            let content = text.as_str().as_bytes_vec();
            let workdir = FilePath::new("/var/www").join(ctx.npm_path.as_str());
            let mut c = String::from_str("docker-compose -f ");
            c.append(file.as_str());
            c.append(" run --workdir ");
            c.append(workdir.as_str());
            c.append(" node ");
            c.append(trailing.as_str());
            let write = Task::File { kind: FileOp::Write { content }, path: file };
            let run = Task::Command { command: c };
            let mut steps: Vec<Task> = Vec::new();
            steps.push(write);
            steps.push(run);
            let mut r: Vec<Task> = Vec::new();
            r.push(Task::Sequence(steps));
            proof {
                let v0 = task_view(r@[0]);
                assert(v0 is Sequence);
                let inner = v0->Sequence_0;
                assert(inner.len() == 2);
                assert(inner[0] == task_view(steps@[0]));
                assert(inner[1] == task_view(steps@[1]));
                assert(inner =~= seq![
                    TaskView::WriteFile { content: encode_utf8(npm_compose_text(ctx.cwd.text@)), path: npm_compose_file(ctx.cwd.text@) },
                    TaskView::Command { command: npm_command(ctx.cwd.text@, ctx.npm_path.text@, trailing@) },
                ]);
            }
            assert(tasks_view(r@) =~= seq![TaskView::Sequence(seq![
                TaskView::WriteFile { content: encode_utf8(npm_compose_text(ctx.cwd.text@)), path: npm_compose_file(ctx.cwd.text@) },
                TaskView::Command { command: npm_command(ctx.cwd.text@, ctx.npm_path.text@, trailing@) },
            ])]);
            Some(r)
        },
        Cmd::Push { trailing, force } => Some(exec(ctx, trailing, force)),
        other => {
            let name = match other {
                Cmd::Doctor => "doctor",
                Cmd::Up => "up",
                Cmd::Stop => "stop",
                Cmd::Eject => "eject",
                Cmd::DBImport { .. } => "db-import",
                Cmd::DBDump => "db-dump",
                Cmd::Pull { .. } => "pull",
                _ => "m",
            };
            let mut message = String::from_str("wf2 ");
            message.append(name);
            message.append(": this command has no tasks in this build");
            let mut r: Vec<Task> = Vec::new();
            r.push(Task::NotifyError { message });
            assert(tasks_view(r@) =~= seq![TaskView::NotifyError { message: unbuilt_message(other@) }]);
            Some(r)
        },
    }
}

} // verus!

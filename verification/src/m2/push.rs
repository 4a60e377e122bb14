use vstd::prelude::*;

use crate::context::Context;
use crate::path::{FilePath, spec_join, spec_parent};
use crate::task::{Task, TaskView, tasks_view};
use crate::text::{has_prefix, join_strings, join_words, starts_with, text_eq, texts};

verus! {

/// The name of a project's PHP container.
pub open spec fn container_name(name: Seq<char>) -> Seq<char> {
    "wf2__"@ + name + "__php"@
}

/// The directory inside the container that a project is served from.
pub open spec fn web_root() -> Seq<char> {
    "/var/www"@
}

/// Paths that are only pushed with force: `app` and `vendor/magento`,
/// and anything under them.
pub open spec fn is_protected(f: Seq<char>) -> bool {
    ||| f == "app"@
    ||| has_prefix(f, "app/"@)
    ||| f == "vendor/magento"@
    ||| has_prefix(f, "vendor/magento/"@)
}

/// The protected paths among `files`, in their order.
pub open spec fn protected_list(files: Seq<Seq<char>>) -> Seq<Seq<char>>
    decreases files.len(),
{
    if files.len() == 0 {
        Seq::<Seq<char>>::empty()
    } else if is_protected(files.last()) {
        protected_list(files.drop_last()).push(files.last())
    } else {
        protected_list(files.drop_last())
    }
}

/// The start of the message that refuses protected paths.
pub open spec fn protected_message_head() -> Seq<char> {
    "Refusing to push protected paths without -f: "@
}

/// Where a pushed file goes inside the container, and the directory it is copied into.
pub open spec fn push_target(f: Seq<char>) -> Seq<char> {
    spec_join(web_root(), f)
}

pub open spec fn push_dest_dir(f: Seq<char>) -> Seq<char> {
    match spec_parent(push_target(f)) {
        Some(p) => p,
        None => web_root(),
    }
}

/// The command that copies `f` from the project directory into the container.
pub open spec fn copy_command(cwd: Seq<char>, name: Seq<char>, f: Seq<char>) -> Seq<char> {
    "docker cp "@ + spec_join(cwd, f) + " "@ + container_name(name) + ":"@ + push_dest_dir(f)
}

/// The command that removes the old copy of `f` from the container.
pub open spec fn remove_command(name: Seq<char>, f: Seq<char>) -> Seq<char> {
    "docker exec "@ + container_name(name) + " rm -rf "@ + push_target(f)
}

/// The command that creates the directory `f` is copied into.
pub open spec fn mkdir_command(name: Seq<char>, f: Seq<char>) -> Seq<char> {
    "docker exec -u www-data "@ + container_name(name) + " mkdir -p "@ + push_dest_dir(f)
}

/// The tasks that push one path: with force only the copy; otherwise the
/// removal of the old copy, the creation of its directory where that is
/// not the web root, and the copy.
pub open spec fn push_file_tasks(cwd: Seq<char>, name: Seq<char>, f: Seq<char>, force: bool) -> Seq<TaskView> {
    let cp = TaskView::SimpleCommand { command: copy_command(cwd, name, f) };
    let rm = TaskView::SimpleCommand { command: remove_command(name, f) };
    let mk = TaskView::SimpleCommand { command: mkdir_command(name, f) };
    if force {
        seq![cp]
    } else if push_dest_dir(f) == web_root() {
        seq![rm, cp]
    } else {
        seq![rm, mk, cp]
    }
}

/// The tasks that push every path, in order.
pub open spec fn push_files_tasks(cwd: Seq<char>, name: Seq<char>, files: Seq<Seq<char>>, force: bool) -> Seq<TaskView>
    decreases files.len(),
{
    if files.len() == 0 {
        Seq::<TaskView>::empty()
    } else {
        push_files_tasks(cwd, name, files.drop_last(), force) + push_file_tasks(cwd, name, files.last(), force)
    }
}

/// What a push does: without force, any protected path turns the whole
/// push into one error that names the protected paths; otherwise each path
/// is pushed in turn.
pub open spec fn spec_push(cwd: Seq<char>, name: Seq<char>, files: Seq<Seq<char>>, force: bool) -> Seq<TaskView> {
    if !force && protected_list(files).len() > 0 {
        seq![TaskView::NotifyError { message: protected_message_head() + join_words(protected_list(files), ", "@) }]
    } else {
        push_files_tasks(cwd, name, files, force)
    }
}

fn is_protected_path(f: &str) -> (r: bool)
    ensures
        r == is_protected(f@),
{
    text_eq(f, "app") || starts_with(f, "app/") || text_eq(f, "vendor/magento") || starts_with(f, "vendor/magento/")
}

pub(crate) fn container(name: &str) -> (c: String)
    ensures
        c@ == container_name(name@),
{
    let mut c = String::from_str("wf2__");
    c.append(name);
    c.append("__php");
    c
}

/// The tasks that push one path.
fn push_one(cwd: &FilePath, name: &str, f: &str, force: bool) -> (r: Vec<Task>)
    ensures
        tasks_view(r@) == push_file_tasks(cwd.text@, name@, f@, force),
{
    let c = container(name);
    let root = FilePath::new("/var/www");
    let target = root.join(f);
    let to = match target.parent() {
        Some(p) => p,
        None => FilePath::new("/var/www"),
    };
    let from = cwd.join(f);
    let mut cp = String::from_str("docker cp ");
    cp.append(from.as_str());
    cp.append(" ");
    cp.append(c.as_str());
    cp.append(":");
    cp.append(to.as_str());
    let mut r: Vec<Task> = Vec::new();
    if force {
        r.push(Task::command(cp));
    } else {
        let mut rm = String::from_str("docker exec ");
        rm.append(c.as_str());
        rm.append(" rm -rf ");
        rm.append(target.as_str());
        r.push(Task::command(rm));
        if !text_eq(to.as_str(), "/var/www") {
            let mut mk = String::from_str("docker exec -u www-data ");
            mk.append(c.as_str());
            mk.append(" mkdir -p ");
            mk.append(to.as_str());
            r.push(Task::command(mk));
        }
        r.push(Task::command(cp));
    }
    assert(tasks_view(r@) =~= push_file_tasks(cwd.text@, name@, f@, force));
    r
}

/// The protected paths among `files`.
fn protected_paths(files: &Vec<String>) -> (r: Vec<String>)
    ensures
        texts(r@) == protected_list(texts(files@)),
{
    let ghost fs = texts(files@);
    let mut r: Vec<String> = Vec::new();
    let mut i: usize = 0;
    while i < files.len()
        invariant
            i <= files.len(),
            fs == texts(files@),
            texts(r@) == protected_list(fs.take(i as int)),
        decreases files.len() - i,
    {
        assert(fs.take(i + 1).drop_last() =~= fs.take(i as int));
        assert(fs.take(i + 1).last() == files@[i as int]@);
        if is_protected_path(files[i].as_str()) {
            r.push(files[i].clone());
            assert(texts(r@) =~= protected_list(fs.take(i as int)).push(files@[i as int]@));
        }
        i = i + 1;
    }
    assert(fs.take(files.len() as int) =~= fs);
    r
}

/// Copies files from the project directory into the project's PHP
/// container.
///
/// Without `force`, paths under `app` or `vendor/magento` are refused:
/// the push then gives a single error task that names them. Otherwise
/// each path is pushed in turn: without `force`, its old copy in the
/// container is removed and the directory it goes into is created, and
/// then the file or directory is copied with `docker cp`; with `force`,
/// only the copy is made.
pub fn exec(ctx: &Context, trailing: Vec<String>, force: bool) -> (r: Vec<Task>)
    ensures
        tasks_view(r@) == spec_push(ctx.cwd.text@, ctx.name@, texts(trailing@), force),
{
    let ghost fs = texts(trailing@);
    if !force {
        let protected = protected_paths(&trailing);
        if protected.len() > 0 {
            let mut msg = String::from_str("Refusing to push protected paths without -f: ");
            let list = join_strings(&protected, ", ");
            msg.append(list.as_str());
            let mut r: Vec<Task> = Vec::new();
            r.push(Task::NotifyError { message: msg });
            assert(tasks_view(r@) =~= spec_push(ctx.cwd.text@, ctx.name@, fs, force));
            return r;
        }
    }
    let mut r: Vec<Task> = Vec::new();
    let mut i: usize = 0;
    while i < trailing.len()
        invariant
            i <= trailing.len(),
            fs == texts(trailing@),
            tasks_view(r@) == push_files_tasks(ctx.cwd.text@, ctx.name@, fs.take(i as int), force),
        decreases trailing.len() - i,
    {
        assert(fs.take(i + 1).drop_last() =~= fs.take(i as int));
        assert(fs.take(i + 1).last() == trailing@[i as int]@);
        let mut more = push_one(&ctx.cwd, ctx.name.as_str(), trailing[i].as_str(), force);
        let ghost before = r@;
        let ghost added = more@;
        r.append(&mut more);
        assert(tasks_view(r@) =~= tasks_view(before) + tasks_view(added));
        i = i + 1;
    }
    assert(fs.take(trailing.len() as int) =~= fs);
    r
}

/// A protected path among the given ones makes the list of protected paths non-empty.
proof fn lemma_protected_list_nonempty(files: Seq<Seq<char>>, i: int)
    requires
        0 <= i < files.len(),
        is_protected(files[i]),
    ensures
        protected_list(files).len() > 0,
    decreases files.len(),
{
    if i < files.len() - 1 {
        lemma_protected_list_nonempty(files.drop_last(), i);
    }
}

proof fn lemma_protected_list_empty(files: Seq<Seq<char>>)
    requires
        forall|i: int| 0 <= i < files.len() ==> !is_protected(#[trigger] files[i]),
    ensures
        protected_list(files).len() == 0,
    decreases files.len(),
{
    if files.len() > 0 {
        assert(!is_protected(files[files.len() - 1]));
        lemma_protected_list_empty(files.drop_last());
    }
}

/// Without force, a push that names any protected path does nothing but
/// report one error.
pub proof fn lemma_push_refuses_protected(cwd: Seq<char>, name: Seq<char>, files: Seq<Seq<char>>, i: int)
    requires
        0 <= i < files.len(),
        is_protected(files[i]),
    ensures
        spec_push(cwd, name, files, false).len() == 1,
        spec_push(cwd, name, files, false)[0] is NotifyError,
{
    lemma_protected_list_nonempty(files, i);
}

/// Without force, a push that names no protected path pushes each path in turn.
pub proof fn lemma_push_unprotected(cwd: Seq<char>, name: Seq<char>, files: Seq<Seq<char>>)
    requires
        forall|i: int| 0 <= i < files.len() ==> !is_protected(#[trigger] files[i]),
    ensures
        spec_push(cwd, name, files, false) == push_files_tasks(cwd, name, files, false),
{
    lemma_protected_list_empty(files);
}

/// With force, a push is exactly one copy command per path, in order.
pub proof fn lemma_push_force_copies(cwd: Seq<char>, name: Seq<char>, files: Seq<Seq<char>>)
    ensures
        spec_push(cwd, name, files, true).len() == files.len(),
        forall|i: int|
            0 <= i < files.len() ==> spec_push(cwd, name, files, true)[i] == (TaskView::SimpleCommand {
                command: copy_command(cwd, name, #[trigger] files[i]),
            }),
    decreases files.len(),
{
    if files.len() > 0 {
        lemma_push_force_copies(cwd, name, files.drop_last());
        let prev = push_files_tasks(cwd, name, files.drop_last(), true);
        assert forall|i: int|
            0 <= i < files.len() implies spec_push(cwd, name, files, true)[i] == (TaskView::SimpleCommand {
                command: copy_command(cwd, name, #[trigger] files[i]),
            }) by {
            if i < files.len() - 1 {
                assert(files.drop_last()[i] == files[i]);
                assert(prev[i] == spec_push(cwd, name, files.drop_last(), true)[i]);
            }
        }
    }
}

/// Every pushed path ends with its copy into the container; without force
/// it is preceded by the removal of the old copy.
pub proof fn lemma_push_file_shape(cwd: Seq<char>, name: Seq<char>, f: Seq<char>, force: bool)
    ensures
        push_file_tasks(cwd, name, f, force).last() == (TaskView::SimpleCommand { command: copy_command(cwd, name, f) }),
        !force ==> push_file_tasks(cwd, name, f, force)[0] == (TaskView::SimpleCommand { command: remove_command(name, f) }),
        1 <= push_file_tasks(cwd, name, f, force).len() <= 3,
{
}

/// Without force, a push that names the `app` directory, anything under
/// it, or `vendor/magento` or anything under that, is refused with one
/// error, whatever else it names.
pub proof fn lemma_push_refuses_app_and_magento(
    cwd: Seq<char>,
    name: Seq<char>,
    files: Seq<Seq<char>>,
    i: int,
    rest: Seq<char>,
)
    requires
        0 <= i < files.len(),
        files[i] == "app"@ || files[i] == "app/"@ + rest || files[i] == "vendor/magento"@
            || files[i] == "vendor/magento/"@ + rest,
    ensures
        spec_push(cwd, name, files, false).len() == 1,
        spec_push(cwd, name, files, false)[0] is NotifyError,
{
    let f = files[i];
    if f == "app/"@ + rest {
        assert(f.subrange(0, "app/"@.len() as int) =~= "app/"@);
    }
    if f == "vendor/magento/"@ + rest {
        assert(f.subrange(0, "vendor/magento/"@.len() as int) =~= "vendor/magento/"@);
    }
    assert(is_protected(f));
    lemma_push_refuses_protected(cwd, name, files, i);
}

/// Without force, pushing just `app` gives exactly the error that names it.
pub proof fn lemma_push_app_alone(cwd: Seq<char>, name: Seq<char>)
    ensures
        spec_push(cwd, name, seq!["app"@], false) == seq![
            TaskView::NotifyError { message: "Refusing to push protected paths without -f: app"@ },
        ],
{
    let files = seq!["app"@];
    assert(is_protected(files[0]));
    assert(files.drop_last() =~= Seq::<Seq<char>>::empty());
    assert(files.last() == "app"@);
    assert(protected_list(files.drop_last()) == Seq::<Seq<char>>::empty());
    assert(is_protected(files.last()));
    assert(protected_list(files) =~= seq!["app"@]);
    assert(join_words(seq!["app"@], ", "@) == "app"@);
    reveal_strlit("Refusing to push protected paths without -f: app");
    reveal_strlit("Refusing to push protected paths without -f: ");
    reveal_strlit("app");
    assert(protected_message_head() + "app"@ =~= "Refusing to push protected paths without -f: app"@);
}

} // verus!

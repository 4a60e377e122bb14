use vstd::prelude::*;

use crate::cmd::{Cmd, CmdView, opt_cmd_view};
use crate::context::{Context, ContextOverrides, RunMode, Term, clone_opt, opt_text, spec_context_name};
use crate::m2::recipe::{resolve_cmd, spec_resolve_cmd};
use crate::path::FilePath;
use crate::php::PHP;
use crate::task::{Task, TaskView, opt_tasks_view};
use crate::text::{join_strings, join_words, text_eq, texts};

verus! {

/// The config file read when no other is named.
pub open spec fn default_config_file() -> Seq<char> {
    "wf2.yml"@
}

/// The name of the config file read when no other is named.
pub fn default_config_file_name() -> (s: String)
    ensures
        s@ == default_config_file(),
{
    String::from_str("wf2.yml")
}

/// What the command line gave for a sub-command.
#[derive(Debug)]
pub struct SubcommandMatches {
    /// The sub-command's name.
    pub name: String,
    /// The values of its `cmd` argument.
    pub cmd: Option<Vec<String>>,
    /// The value of its `file` argument.
    pub file: Option<String>,
    /// Whether `--root` was given.
    pub root: bool,
    /// The arguments that follow a sub-command the tool passes through.
    pub external: Option<Vec<String>>,
    /// The paths given to `push`.
    pub paths: Option<Vec<String>>,
    /// Whether `-f` was given.
    pub force: bool,
}

/// What the command line gave: the global flags and the sub-command.
#[derive(Debug)]
pub struct Matches {
    /// `--cwd`
    pub cwd: Option<String>,
    /// `--php`
    pub php: Option<String>,
    /// `--dryrun`
    pub dryrun: bool,
    pub subcommand: Option<SubcommandMatches>,
}

/// What the tool knows of its surroundings when it starts.
#[derive(Debug)]
pub struct CLIInput {
    pub args: Vec<String>,
    /// The directory the tool was started in.
    pub cwd: FilePath,
    pub term: Term,
    /// The path of the `pv` program, where one was found.
    pub pv: Option<String>,
}

impl Default for CLIInput {
    /// No arguments, no known directory, an 80 by 30 terminal and no `pv`.
    fn default() -> (i: CLIInput)
        ensures
            i.args@.len() == 0,
            i.cwd.text@ == Seq::<char>::empty(),
            i.term == (Term { width: 80, height: 30 }),
            i.pv.is_none(),
    {
        CLIInput {
            args: Vec::new(),
            cwd: FilePath { text: String::new() },
            term: Term { width: 80, height: 30 },
            pv: None,
        }
    }
}

/// Why a config file could not be read.
#[derive(Debug)]
pub enum ConfigFileError {
    InvalidExtension,
    InvalidInput,
    FileOpen(FilePath),
    FileRead,
    SerdeError(String),
}

/// Errors of the command line.
#[derive(Debug)]
pub enum CLIError {
    /// The config file exists but could not be read as a config.
    InvalidConfig(String),
    /// The config file named on the command line could not be opened.
    MissingConfig(FilePath),
    /// The config file named on the command line has no supported extension.
    InvalidExtension,
}

/// The context and the tasks that a command line comes to.
#[derive(Debug)]
pub struct CLIOutput {
    pub ctx: Context,
    pub tasks: Option<Vec<Task>>,
}

/// The values of an optional list, or none.
pub open spec fn values_or_empty(v: Option<Vec<String>>) -> Seq<Seq<char>> {
    match v {
        Some(v) => texts(v@),
        None => Seq::<Seq<char>>::empty(),
    }
}

/// The values of a sub-command's `cmd` argument, joined by spaces.
pub open spec fn spec_trailing(sub: SubcommandMatches) -> Seq<char> {
    join_words(values_or_empty(sub.cmd), " "@)
}

/// Whether the command line has the shape the argument parser guarantees:
/// `db-import` always comes with its `file`.
pub open spec fn matches_wf(m: Matches) -> bool {
    match m.subcommand {
        Some(sub) => sub.name@ == "db-import"@ ==> sub.file.is_some(),
        None => true,
    }
}

/// The command that a command line selects.
///
/// The built-in sub-commands select their own command; `exec` runs as
/// `root` with `--root` and as `www-data` otherwise; `npm` and
/// `composer` are passed through with their arguments; any other name
/// selects nothing.
pub open spec fn spec_cmd_from_cli(m: Matches) -> Option<CmdView> {
    match m.subcommand {
        None => None,
        Some(sub) => {
            let n = sub.name@;
            if n == "doctor"@ {
                Some(CmdView::Doctor)
            } else if n == "up"@ {
                Some(CmdView::Up)
            } else if n == "down"@ {
                Some(CmdView::Down)
            } else if n == "stop"@ {
                Some(CmdView::Stop)
            } else if n == "eject"@ {
                Some(CmdView::Eject)
            } else if n == "db-import"@ {
                Some(CmdView::DBImport { path: sub.file.unwrap()@ })
            } else if n == "db-dump"@ {
                Some(CmdView::DBDump)
            } else if n == "pull"@ {
                Some(CmdView::Pull { trailing: values_or_empty(sub.cmd) })
            } else if n == "exec"@ {
                Some(
                    CmdView::Exec {
                        trailing: spec_trailing(sub),
                        user: if sub.root { "root"@ } else { "www-data"@ },
                    },
                )
            } else if n == "m"@ {
                Some(CmdView::Mage { trailing: spec_trailing(sub) })
            } else if n == "push"@ {
                Some(CmdView::Push { trailing: values_or_empty(sub.paths), force: sub.force })
            } else {
                let args = seq![n] + values_or_empty(sub.external);
                if n == "npm"@ {
                    Some(CmdView::Npm { user: "www-data"@, trailing: join_words(args, " "@) })
                } else if n == "composer"@ {
                    Some(CmdView::Composer { trailing: join_words(args, " "@) })
                } else {
                    None
                }
            }
        },
    }
}

/// The PHP version that the `--php` flag selects: `7.1` selects 7.1 and
/// any other value 7.2; without the flag the context's own version stays.
pub open spec fn spec_php_override(flag: Option<String>, current: PHP) -> PHP {
    match flag {
        Some(v) => if v@ == "7.1"@ { PHP::SevenOne } else { PHP::SevenTwo },
        None => current,
    }
}

/// The project directory a command line selects: `--cwd`, or else the
/// directory the tool was started in.
pub open spec fn spec_cwd(m: Matches, input: CLIInput) -> Seq<char> {
    match m.cwd {
        Some(c) => c@,
        None => input.cwd.text@,
    }
}

/// Whether the overrides are the ones a command line gives for a context.
pub open spec fn overrides_of(o: ContextOverrides, m: Matches, ctx: Context, input: CLIInput) -> bool {
    &&& o.cwd.text@ == spec_cwd(m, input)
    &&& o.php_version == spec_php_override(m.php, ctx.php_version)
    &&& o.run_mode == (if m.dryrun { RunMode::DryRun } else { RunMode::Exec })
    &&& o.name@ == spec_context_name(spec_cwd(m, input))
    &&& o.term == input.term
    &&& opt_text(o.pv) == opt_text(input.pv)
}

/// Whether `c` is a context with PHP version `base_php` and `npm`
/// directory `base_npm` once the command line's overrides are applied.
pub open spec fn merged_context(c: Context, base_php: PHP, base_npm: Seq<char>, m: Matches, input: CLIInput) -> bool {
    &&& c.npm_path.text@ == base_npm
    &&& c.cwd.text@ == spec_cwd(m, input)
    &&& c.php_version == spec_php_override(m.php, base_php)
    &&& c.run_mode == (if m.dryrun { RunMode::DryRun } else { RunMode::Exec })
    &&& c.name@ == spec_context_name(spec_cwd(m, input))
    &&& c.term == input.term
    &&& opt_text(c.pv) == opt_text(input.pv)
}

/// The tasks a command line comes to in a context.
pub open spec fn spec_tasks_from_cli(m: Matches, ctx: Context) -> Option<Seq<TaskView>> {
    match spec_cmd_from_cli(m) {
        Some(c) => spec_resolve_cmd(ctx.cwd.text@, ctx.name@, ctx.term.width, ctx.term.height, ctx.npm_path.text@, c),
        None => None,
    }
}

fn clone_strings(v: &Vec<String>) -> (r: Vec<String>)
    ensures
        texts(r@) == texts(v@),
{
    let mut r: Vec<String> = Vec::new();
    let mut i: usize = 0;
    while i < v.len()
        invariant
            i <= v.len(),
            r@.len() == i,
            forall|k: int| 0 <= k < i ==> r@[k]@ == v@[k]@,
        decreases v.len() - i,
    {
        let s = v[i].clone();
        r.push(s);
        i = i + 1;
    }
    assert(texts(r@) =~= texts(v@));
    r
}

fn values_or_empty_vec(v: &Option<Vec<String>>) -> (r: Vec<String>)
    ensures
        texts(r@) == values_or_empty(*v),
{
    match v {
        Some(v) => clone_strings(v),
        None => {
            let r: Vec<String> = Vec::new();
            assert(texts(r@) =~= Seq::<Seq<char>>::empty());
            r
        },
    }
}

fn get_trailing(sub: &SubcommandMatches) -> (r: String)
    ensures
        r@ == spec_trailing(*sub),
{
    let v = values_or_empty_vec(&sub.cmd);
    join_strings(&v, " ")
}

impl CLIOutput {
    /// The context from a config file named on the command line.
    ///
    /// `loaded` is what reading and parsing that file gave. A file that
    /// could not be parsed is an invalid config; one that could not be
    /// opened is missing; any other failure is reported as an invalid
    /// extension.
    pub fn create_context_from_arg(loaded: Result<Context, ConfigFileError>) -> (r: Result<Context, CLIError>)
        ensures
            match loaded {
                Ok(c) => r == Ok::<Context, CLIError>(c),
                Err(ConfigFileError::SerdeError(e)) => r matches Err(CLIError::InvalidConfig(e2)) && e2@ == e@,
                Err(ConfigFileError::FileOpen(p)) => r matches Err(CLIError::MissingConfig(p2)) && p2.text@ == p.text@,
                Err(_) => r matches Err(CLIError::InvalidExtension),
            },
    {
        match loaded {
            Ok(ctx) => Ok(ctx),
            Err(ConfigFileError::SerdeError(e)) => Err(CLIError::InvalidConfig(e)),
            Err(ConfigFileError::FileOpen(path)) => Err(CLIError::MissingConfig(path)),
            Err(ConfigFileError::InvalidExtension) => Err(CLIError::InvalidExtension),
            Err(..) => Err(CLIError::InvalidExtension),
        }
    }

    /// The context from the default config file.
    ///
    /// `loaded` is what reading and parsing that file gave. A file that
    /// exists but could not be parsed is an invalid config; when the file
    /// could not be read for any other reason, the default context is the
    /// base onto which command-line flags are applied.
    pub fn create_context(loaded: Result<Context, ConfigFileError>) -> (r: Result<Context, CLIError>)
        ensures
            match loaded {
                Ok(c) => r == Ok::<Context, CLIError>(c),
                Err(ConfigFileError::SerdeError(e)) => r matches Err(CLIError::InvalidConfig(e2)) && e2@ == e@,
                Err(_) => r matches Ok(c) && c.cwd.text@ == Seq::<char>::empty() && c.name@ == Seq::<char>::empty()
                    && c.php_version == PHP::SevenThree && c.run_mode == RunMode::Exec
                    && c.term == (Term { width: 80, height: 30 }) && c.pv.is_none()
                    && c.npm_path.text@ == "."@,
            },
    {
        match loaded {
            Ok(ctx) => Ok(ctx),
            Err(ConfigFileError::SerdeError(e)) => Err(CLIError::InvalidConfig(e)),
            Err(..) => Ok(Context::default()),
        }
    }

    /// The output for a command line, starting from the context `ctx`
    /// (one read from a config file, or the default one): the command
    /// line's overrides are merged into a copy of it, and the tasks of the
    /// selected command are built in the merged context.
    pub fn new_from_ctx(matches: &Matches, ctx: &Context, input: CLIInput) -> (r: Result<CLIOutput, CLIError>)
        requires
            matches_wf(*matches),
        ensures
            r matches Ok(out) && merged_context(out.ctx, ctx.php_version, ctx.npm_path.text@, *matches, input),
            r matches Ok(out) && (matches.php matches Some(v) && v@ != "7.1"@ ==> out.ctx.php_version == PHP::SevenTwo),
            r matches Ok(out) && (matches.php matches Some(v) && v@ == "7.1"@ ==> out.ctx.php_version == PHP::SevenOne),
            r matches Ok(out) && (matches.php is None ==> out.ctx.php_version == ctx.php_version)
                && opt_tasks_view(out.tasks) == spec_tasks_from_cli(*matches, out.ctx),
    {
        let mut ctx = ctx.duplicate();
        let overrides = CLIOutput::matches_to_context_overrides(matches, &ctx, input);
        ctx.merge(overrides);
        let tasks = CLIOutput::get_tasks_from_cli(matches, &ctx);
        Ok(CLIOutput { ctx, tasks })
    }

    /// The output for a command line, starting from the default context.
    pub fn new_from_matches(matches: &Matches, input: CLIInput) -> (r: Result<CLIOutput, CLIError>)
        requires
            matches_wf(*matches),
        ensures
            r matches Ok(out) && merged_context(out.ctx, PHP::SevenThree, "."@, *matches, input),
            r matches Ok(out) && (matches.php matches Some(v) && v@ != "7.1"@ ==> out.ctx.php_version == PHP::SevenTwo),
            r matches Ok(out) && (matches.php matches Some(v) && v@ == "7.1"@ ==> out.ctx.php_version == PHP::SevenOne),
            r matches Ok(out) && (matches.php is None ==> out.ctx.php_version == PHP::SevenThree)
                && opt_tasks_view(out.tasks) == spec_tasks_from_cli(*matches, out.ctx),
    {
        let mut base_ctx = Context::default();
        let overrides = CLIOutput::matches_to_context_overrides(matches, &base_ctx, input);
        base_ctx.merge(overrides);
        let tasks = CLIOutput::get_tasks_from_cli(matches, &base_ctx);
        Ok(CLIOutput { ctx: base_ctx, tasks })
    }

    /// The values that the command line sets on a context: the project
    /// directory (`--cwd`, or else the directory the tool was started in)
    /// and the name taken from it, the PHP version (`--php`), the run mode
    /// (`--dryrun`), and the terminal and `pv` found at start.
    pub fn matches_to_context_overrides(matches: &Matches, ctx: &Context, input: CLIInput) -> (o: ContextOverrides)
        ensures
            overrides_of(o, *matches, *ctx, input),
            matches.php is None ==> o.php_version == ctx.php_version,
            matches.php matches Some(v) && v@ == "7.1"@ ==> o.php_version == PHP::SevenOne,
            matches.php matches Some(v) && v@ != "7.1"@ ==> o.php_version == PHP::SevenTwo,
    {
        let cwd = match &matches.cwd {
            Some(p) => FilePath::new(p.as_str()),
            None => input.cwd.duplicate(),
        };
        let php_version = match &matches.php {
            Some(v) => if text_eq(v.as_str(), "7.1") { PHP::SevenOne } else { PHP::SevenTwo },
            None => ctx.php_version,
        };
        let run_mode = if !matches.dryrun { RunMode::Exec } else { RunMode::DryRun };
        let name = Context::get_context_name(&cwd);
        ContextOverrides { cwd, php_version, run_mode, name, term: input.term, pv: input.pv }
    }

    /// The command that the command line selects.
    pub fn get_cmd_from_cli(matches: &Matches) -> (r: Option<Cmd>)
        requires
            matches_wf(*matches),
        ensures
            opt_cmd_view(r) == spec_cmd_from_cli(*matches),
    {
        let sub = match &matches.subcommand {
            Some(sub) => sub,
            None => { return None; },
        };
        let n = sub.name.as_str();
        if text_eq(n, "doctor") {
            Some(Cmd::Doctor)
        } else if text_eq(n, "up") {
            Some(Cmd::Up)
        } else if text_eq(n, "down") {
            Some(Cmd::Down)
        } else if text_eq(n, "stop") {
            Some(Cmd::Stop)
        } else if text_eq(n, "eject") {
            Some(Cmd::Eject)
        } else if text_eq(n, "db-import") {
            let file = match &sub.file {
                Some(f) => f.as_str(),
                None => "",
            };
            Some(Cmd::DBImport { path: FilePath::new(file) })
        } else if text_eq(n, "db-dump") {
            Some(Cmd::DBDump)
        } else if text_eq(n, "pull") {
            Some(Cmd::Pull { trailing: values_or_empty_vec(&sub.cmd) })
        } else if text_eq(n, "exec") {
            let trailing = get_trailing(sub);
            let user = if sub.root { String::from_str("root") } else { String::from_str("www-data") };
            Some(Cmd::Exec { trailing, user })
        } else if text_eq(n, "m") {
            Some(Cmd::Mage { trailing: get_trailing(sub) })
        } else if text_eq(n, "push") {
            Some(Cmd::Push { trailing: values_or_empty_vec(&sub.paths), force: sub.force })
        } else {
            let ghost ext = values_or_empty(sub.external);
            let mut args: Vec<String> = Vec::new();
            args.push(sub.name.clone());
            let mut rest = values_or_empty_vec(&sub.external);
            let ghost first = args@;
            let ghost added = rest@;
            args.append(&mut rest);
            assert(texts(args@) =~= seq![sub.name@] + ext) by {
                assert(args@ =~= first + added);
            }
            if text_eq(n, "npm") {
                Some(Cmd::Npm { user: String::from_str("www-data"), trailing: join_strings(&args, " ") })
            } else if text_eq(n, "composer") {
                Some(Cmd::Composer { trailing: join_strings(&args, " ") })
            } else {
                None
            }
        }
    }

    /// The tasks that the command line comes to in `ctx`: the selected
    /// command carried out by the Magento 2 recipe, or none when no
    /// command is selected.
    pub fn get_tasks_from_cli(matches: &Matches, ctx: &Context) -> (r: Option<Vec<Task>>)
        requires
            matches_wf(*matches),
        ensures
            opt_tasks_view(r) == spec_tasks_from_cli(*matches, *ctx),
    {
        match CLIOutput::get_cmd_from_cli(matches) {
            Some(cmd) => resolve_cmd(ctx, cmd),
            None => None,
        }
    }
}

/// The table of sub-commands: each built-in name selects its own command,
/// `exec` runs as `root` exactly with `--root`, `npm` and `composer` pass
/// their arguments through behind their own name, and no sub-command, or
/// a name outside the table, selects nothing.
pub proof fn lemma_subcommand_table(m: Matches)
    requires
        matches_wf(m),
    ensures
        m.subcommand is None ==> spec_cmd_from_cli(m).is_none(),
        m.subcommand matches Some(s) ==> ({ let n = s.name@; n == "doctor"@ ==> spec_cmd_from_cli(m) == Some(CmdView::Doctor) }),
        m.subcommand matches Some(s) ==> ({ let n = s.name@; n == "up"@ ==> spec_cmd_from_cli(m) == Some(CmdView::Up) }),
        m.subcommand matches Some(s) ==> ({ let n = s.name@; n == "down"@ ==> spec_cmd_from_cli(m) == Some(CmdView::Down) }),
        m.subcommand matches Some(s) ==> ({ let n = s.name@; n == "stop"@ ==> spec_cmd_from_cli(m) == Some(CmdView::Stop) }),
        m.subcommand matches Some(s) ==> ({ let n = s.name@; n == "eject"@ ==> spec_cmd_from_cli(m) == Some(CmdView::Eject) }),
        m.subcommand matches Some(s) ==> ({ let n = s.name@; n == "db-dump"@ ==> spec_cmd_from_cli(m) == Some(CmdView::DBDump) }),
        m.subcommand matches Some(s) ==> ({ let n = s.name@; n == "db-import"@ ==> spec_cmd_from_cli(m) == Some(CmdView::DBImport { path: s.file.unwrap()@ }) }),
        m.subcommand matches Some(s) ==> ({ let n = s.name@; n == "pull"@ ==> spec_cmd_from_cli(m) == Some(CmdView::Pull { trailing: values_or_empty(s.cmd) }) }),
        m.subcommand matches Some(s) ==> ({ let n = s.name@; n == "exec"@ ==> spec_cmd_from_cli(m) == Some(                 CmdView::Exec {                     trailing: join_words(values_or_empty(s.cmd), " "@),                     user: if s.root { "root"@ } else { "www-data"@ },                 },             ) }),
        m.subcommand matches Some(s) ==> ({ let n = s.name@; n == "m"@ ==> spec_cmd_from_cli(m) == Some(                 CmdView::Mage { trailing: join_words(values_or_empty(s.cmd), " "@) },             ) }),
        m.subcommand matches Some(s) ==> ({ let n = s.name@; n == "push"@ ==> spec_cmd_from_cli(m) == Some(                 CmdView::Push { trailing: values_or_empty(s.paths), force: s.force },             ) }),
        m.subcommand matches Some(s) ==> ({ let n = s.name@; n == "npm"@ ==> spec_cmd_from_cli(m) == Some(                 CmdView::Npm {                     user: "www-data"@,                     trailing: join_words(seq!["npm"@] + values_or_empty(s.external), " "@),                 },             ) }),
        m.subcommand matches Some(s) ==> ({ let n = s.name@; n == "composer"@ ==> spec_cmd_from_cli(m) == Some(                 CmdView::Composer { trailing: join_words(seq!["composer"@] + values_or_empty(s.external), " "@) },             ) }),
        m.subcommand matches Some(s) ==> ({ let n = s.name@; (n != "doctor"@ && n != "up"@ && n != "down"@ && n != "stop"@ && n != "eject"@                 && n != "db-dump"@ && n != "db-import"@ && n != "pull"@ && n != "exec"@ && n != "m"@                 && n != "push"@ && n != "npm"@ && n != "composer"@) ==> spec_cmd_from_cli(m).is_none() }),
{
    reveal_strlit("doctor");
    reveal_strlit("up");
    reveal_strlit("down");
    reveal_strlit("stop");
    reveal_strlit("eject");
    reveal_strlit("db-import");
    reveal_strlit("db-dump");
    reveal_strlit("pull");
    reveal_strlit("exec");
    reveal_strlit("m");
    reveal_strlit("push");
    reveal_strlit("npm");
    reveal_strlit("composer");
    assert("doctor"@.len() != "up"@.len());
    assert("doctor"@.len() != "down"@.len());
    assert("doctor"@.len() != "stop"@.len());
    assert("doctor"@.len() != "eject"@.len());
    assert("doctor"@.len() != "db-dump"@.len());
    assert("doctor"@.len() != "db-import"@.len());
    assert("doctor"@.len() != "pull"@.len());
    assert("doctor"@.len() != "exec"@.len());
    assert("doctor"@.len() != "m"@.len());
    assert("doctor"@.len() != "push"@.len());
    assert("doctor"@.len() != "npm"@.len());
    assert("doctor"@.len() != "composer"@.len());
    assert("up"@.len() != "down"@.len());
    assert("up"@.len() != "stop"@.len());
    assert("up"@.len() != "eject"@.len());
    assert("up"@.len() != "db-dump"@.len());
    assert("up"@.len() != "db-import"@.len());
    assert("up"@.len() != "pull"@.len());
    assert("up"@.len() != "exec"@.len());
    assert("up"@.len() != "m"@.len());
    assert("up"@.len() != "push"@.len());
    assert("up"@.len() != "npm"@.len());
    assert("up"@.len() != "composer"@.len());
    assert("down"@[0] != "stop"@[0]);
    assert("down"@.len() != "eject"@.len());
    assert("down"@.len() != "db-dump"@.len());
    assert("down"@.len() != "db-import"@.len());
    assert("down"@[0] != "pull"@[0]);
    assert("down"@[0] != "exec"@[0]);
    assert("down"@.len() != "m"@.len());
    assert("down"@[0] != "push"@[0]);
    assert("down"@.len() != "npm"@.len());
    assert("down"@.len() != "composer"@.len());
    assert("stop"@.len() != "eject"@.len());
    assert("stop"@.len() != "db-dump"@.len());
    assert("stop"@.len() != "db-import"@.len());
    assert("stop"@[0] != "pull"@[0]);
    assert("stop"@[0] != "exec"@[0]);
    assert("stop"@.len() != "m"@.len());
    assert("stop"@[0] != "push"@[0]);
    assert("stop"@.len() != "npm"@.len());
    assert("stop"@.len() != "composer"@.len());
    assert("eject"@.len() != "db-dump"@.len());
    assert("eject"@.len() != "db-import"@.len());
    assert("eject"@.len() != "pull"@.len());
    assert("eject"@.len() != "exec"@.len());
    assert("eject"@.len() != "m"@.len());
    assert("eject"@.len() != "push"@.len());
    assert("eject"@.len() != "npm"@.len());
    assert("eject"@.len() != "composer"@.len());
    assert("db-dump"@.len() != "db-import"@.len());
    assert("db-dump"@.len() != "pull"@.len());
    assert("db-dump"@.len() != "exec"@.len());
    assert("db-dump"@.len() != "m"@.len());
    assert("db-dump"@.len() != "push"@.len());
    assert("db-dump"@.len() != "npm"@.len());
    assert("db-dump"@.len() != "composer"@.len());
    assert("db-import"@.len() != "pull"@.len());
    assert("db-import"@.len() != "exec"@.len());
    assert("db-import"@.len() != "m"@.len());
    assert("db-import"@.len() != "push"@.len());
    assert("db-import"@.len() != "npm"@.len());
    assert("db-import"@.len() != "composer"@.len());
    assert("pull"@[0] != "exec"@[0]);
    assert("pull"@.len() != "m"@.len());
    assert("pull"@[2] != "push"@[2]);
    assert("pull"@.len() != "npm"@.len());
    assert("pull"@.len() != "composer"@.len());
    assert("exec"@.len() != "m"@.len());
    assert("exec"@[0] != "push"@[0]);
    assert("exec"@.len() != "npm"@.len());
    assert("exec"@.len() != "composer"@.len());
    assert("m"@.len() != "push"@.len());
    assert("m"@.len() != "npm"@.len());
    assert("m"@.len() != "composer"@.len());
    assert("push"@.len() != "npm"@.len());
    assert("push"@.len() != "composer"@.len());
    assert("npm"@.len() != "composer"@.len());
}

/// The `--php` flag: `7.1` selects 7.1, every other value selects 7.2,
/// and without the flag the current version stays.
pub proof fn lemma_php_flag(flag: Option<String>, current: PHP)
    ensures
        flag is None ==> spec_php_override(flag, current) == current,
        flag matches Some(v) && v@ == "7.1"@ ==> spec_php_override(flag, current) == PHP::SevenOne,
        flag matches Some(v) && v@ != "7.1"@ ==> spec_php_override(flag, current) == PHP::SevenTwo,
{
}

} // verus!

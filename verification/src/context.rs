use vstd::prelude::*;

use crate::path::{FilePath, spec_file_name};
use crate::php::PHP;

verus! {

/// Whether commands are run or only printed.
#[derive(Debug, Clone, Copy, PartialEq, Eq, Structural)]
pub enum RunMode {
    Exec,
    DryRun,
}

/// The size of the user's terminal.
#[derive(Debug, Clone, Copy, PartialEq, Eq, Structural)]
pub struct Term {
    pub width: u16,
    pub height: u16,
}

/// Everything the tasks of a project are built from.
#[derive(Debug)]
pub struct Context {
    /// The project's directory.
    pub cwd: FilePath,
    /// The project's name, the last component of `cwd`.
    pub name: String,
    pub php_version: PHP,
    pub run_mode: RunMode,
    pub term: Term,
    /// The path of the `pv` program, where one was found.
    pub pv: Option<String>,
    /// The directory, relative to the web root, that `npm` runs in.
    pub npm_path: FilePath,
}

/// The values that command-line flags set on a context.
#[derive(Debug)]
pub struct ContextOverrides {
    pub cwd: FilePath,
    pub php_version: PHP,
    pub run_mode: RunMode,
    pub name: String,
    pub term: Term,
    pub pv: Option<String>,
}

/// The name of a project in directory `cwd`.
pub open spec fn spec_context_name(cwd: Seq<char>) -> Seq<char> {
    match spec_file_name(cwd) {
        Some(n) => n,
        None => "wf2_default"@,
    }
}

/// The text of an optional string.
pub open spec fn opt_text(o: Option<String>) -> Option<Seq<char>> {
    match o {
        Some(s) => Some(s@),
        None => None,
    }
}

pub(crate) fn clone_opt(o: &Option<String>) -> (r: Option<String>)
    ensures
        opt_text(r) == opt_text(*o),
{
    match o {
        Some(s) => Some(s.clone()),
        None => None,
    }
}

impl Default for Context {
    /// The base context used where no config file gives one: no
    /// directory or name yet, the default PHP version, commands run,
    /// an 80 by 30 terminal, no `pv`, and `npm` run in the web root.
    fn default() -> (c: Context)
        ensures
            c.cwd.text@ == Seq::<char>::empty(),
            c.name@ == Seq::<char>::empty(),
            c.php_version == PHP::SevenThree,
            c.run_mode == RunMode::Exec,
            c.term == (Term { width: 80, height: 30 }),
            c.pv.is_none(),
            c.npm_path.text@ == "."@,
    {
        Context {
            cwd: FilePath { text: String::new() },
            name: String::new(),
            php_version: PHP::SevenThree,
            run_mode: RunMode::Exec,
            term: Term { width: 80, height: 30 },
            pv: None,
            npm_path: FilePath::new("."),
        }
    }
}

impl Context {
    /// A copy of this context.
    pub fn duplicate(&self) -> (c: Context)
        ensures
            c.cwd.text@ == self.cwd.text@,
            c.name@ == self.name@,
            c.php_version == self.php_version,
            c.run_mode == self.run_mode,
            c.term == self.term,
            opt_text(c.pv) == opt_text(self.pv),
            c.npm_path.text@ == self.npm_path.text@,
    {
        Context {
            cwd: self.cwd.duplicate(),
            name: self.name.clone(),
            php_version: self.php_version,
            run_mode: self.run_mode,
            term: self.term,
            pv: clone_opt(&self.pv),
            npm_path: self.npm_path.duplicate(),
        }
    }

    /// Applies the overrides: each value they hold replaces the context's own.
    pub fn merge(&mut self, overrides: ContextOverrides)
        ensures
            final(self).cwd.text@ == overrides.cwd.text@,
            final(self).name@ == overrides.name@,
            final(self).php_version == overrides.php_version,
            final(self).run_mode == overrides.run_mode,
            final(self).term == overrides.term,
            opt_text(final(self).pv) == opt_text(overrides.pv),
            final(self).npm_path.text@ == old(self).npm_path.text@,
    {
        self.cwd = overrides.cwd;
        self.name = overrides.name;
        self.php_version = overrides.php_version;
        self.run_mode = overrides.run_mode;
        self.term = overrides.term;
        self.pv = overrides.pv;
    }

    /// The name of a project: the last component of its directory, or
    /// `wf2_default` for a directory without one (such as an empty path).
    pub fn get_context_name(cwd: &FilePath) -> (name: String)
        ensures
            name@ == spec_context_name(cwd.text@),
    {
        match cwd.file_name() {
            Some(n) => n,
            None => String::from_str("wf2_default"),
        }
    }
}

/// A project in a directory that ends in an ordinary component is named
/// by that component.
pub proof fn lemma_context_name_is_last_component(q: Seq<char>, c: Seq<char>, alone: bool)
    requires
        c.len() > 0,
        forall|i: int| 0 <= i < c.len() ==> c[i] != '/',
        c != "."@,
        c != ".."@,
    ensures
        spec_context_name(if alone { c } else { q + "/"@ + c }) == c,
{
    crate::path::lemma_file_name_of_last_component(q, c, alone);
}

} // verus!

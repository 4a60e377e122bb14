use vstd::prelude::*;

use crate::path::FilePath;
use crate::text::texts;

verus! {

/// A command that the user asked the tool to carry out.
#[derive(Debug)]
pub enum Cmd {
    Doctor,
    Up,
    Down,
    Stop,
    Eject,
    DBImport { path: FilePath },
    DBDump,
    Pull { trailing: Vec<String> },
    Exec { trailing: String, user: String },
    Mage { trailing: String },
    Npm { user: String, trailing: String },
    Composer { trailing: String },
    Push { trailing: Vec<String>, force: bool },
}

/// The content of a command.
pub enum CmdView {
    Doctor,
    Up,
    Down,
    Stop,
    Eject,
    DBImport { path: Seq<char> },
    DBDump,
    Pull { trailing: Seq<Seq<char>> },
    Exec { trailing: Seq<char>, user: Seq<char> },
    Mage { trailing: Seq<char> },
    Npm { user: Seq<char>, trailing: Seq<char> },
    Composer { trailing: Seq<char> },
    Push { trailing: Seq<Seq<char>>, force: bool },
}

impl View for Cmd {
    type V = CmdView;

    open spec fn view(&self) -> CmdView {
        match self {
            Cmd::Doctor => CmdView::Doctor,
            Cmd::Up => CmdView::Up,
            Cmd::Down => CmdView::Down,
            Cmd::Stop => CmdView::Stop,
            Cmd::Eject => CmdView::Eject,
            Cmd::DBImport { path } => CmdView::DBImport { path: path.text@ },
            Cmd::DBDump => CmdView::DBDump,
            Cmd::Pull { trailing } => CmdView::Pull { trailing: texts(trailing@) },
            Cmd::Exec { trailing, user } => CmdView::Exec { trailing: trailing@, user: user@ },
            Cmd::Mage { trailing } => CmdView::Mage { trailing: trailing@ },
            Cmd::Npm { user, trailing } => CmdView::Npm { user: user@, trailing: trailing@ },
            Cmd::Composer { trailing } => CmdView::Composer { trailing: trailing@ },
            Cmd::Push { trailing, force } => CmdView::Push { trailing: texts(trailing@), force: *force },
        }
    }
}

/// The content of an optional command.
pub open spec fn opt_cmd_view(c: Option<Cmd>) -> Option<CmdView> {
    match c {
        Some(c) => Some(c@),
        None => None,
    }
}

} // verus!

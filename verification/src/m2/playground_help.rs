use vstd::prelude::*;

use crate::path::{FilePath, spec_file_name};

verus! {

/// A Magento 2 playground: a fresh project directory set up for trying things out.
pub struct M2Playground {
    pub dir: FilePath,
    pub version: String,
    pub username: String,
    pub password: String,
}

/// The text shown after `wf2 up` for a new site.
pub open spec fn up_help_text() -> Seq<char> {
    "If this is your first time running this site - you
    should now run the following:

       wf2 doctor
       wf2 composer install
       wf2 exec magento-install

    That's it - you should find the site running at

       https://local.m2

    Admin credentials:

       admin
       password123

    Have fun :)

    "@
}

/// The text before the playground's directory name in the help.
pub open spec fn help_head() -> Seq<char> {
    "Next steps:

    Stop existing docker containers:

       docker stop $(docker ps -qa) && docker rm $(docker ps -qa)

    Now start wf2 in the new directory:

       cd "@
}

/// The text between the directory name and the `up` help.
pub open spec fn help_middle() -> Seq<char> {
    "
       wf2 up

    "@
}

/// The help shown once a playground has been created: the next steps,
/// with the playground directory's own name, followed by the `up` help.
pub fn help(pg: &M2Playground) -> (s: String)
    requires
        spec_file_name(pg.dir.text@).is_some(),
    ensures
        s@ == help_head() + spec_file_name(pg.dir.text@).unwrap() + help_middle() + up_help_text(),
{
    let name = match pg.dir.file_name() {
        Some(n) => n,
        None => String::new(),
    };
    let mut s = String::from_str("Next steps:

    Stop existing docker containers:

       docker stop $(docker ps -qa) && docker rm $(docker ps -qa)

    Now start wf2 in the new directory:

       cd ");
    s.append(name.as_str());
    s.append("
       wf2 up

    ");
    let up = up_help();
    s.append(up.as_str());
    s
}

/// The help shown after `wf2 up` for a new site.
pub fn up_help() -> (s: String)
    ensures
        s@ == up_help_text(),
{
    String::from_str("If this is your first time running this site - you
    should now run the following:

       wf2 doctor
       wf2 composer install
       wf2 exec magento-install

    That's it - you should find the site running at

       https://local.m2

    Admin credentials:

       admin
       password123

    Have fun :)

    ")
}

} // verus!

use vstd::prelude::*;

verus! {

/// The PHP version used throughout a project.
///
/// It can be set in the project's config file (`php_version: 7.1`)
/// or with the `--php` command-line flag.
#[derive(Debug, Clone, Copy, PartialEq, Eq, Structural)]
pub enum PHP {
    SevenOne,
    SevenTwo,
    SevenThree,
}

impl Default for PHP {
    /// The default version is 7.3.
    fn default() -> (p: PHP)
        ensures
            p == PHP::SevenThree,
    {
        PHP::SevenThree
    }
}

/// What a config value in text form selects: `7.1`, `7.2` or `7.3`,
/// and nothing else.
pub open spec fn php_from_text(v: Seq<char>) -> Option<PHP> {
    if v == "7.1"@ {
        Some(PHP::SevenOne)
    } else if v == "7.2"@ {
        Some(PHP::SevenTwo)
    } else if v == "7.3"@ {
        Some(PHP::SevenThree)
    } else {
        None
    }
}

/// The text of a version, as it is written in a config file.
pub open spec fn php_text(p: PHP) -> Seq<char> {
    match p {
        PHP::SevenOne => "7.1"@,
        PHP::SevenTwo => "7.2"@,
        PHP::SevenThree => "7.3"@,
    }
}

/// The message given when a config value names no supported version.
pub open spec fn php_expected_message() -> Seq<char> {
    "expected either 7.1, 7.2 or 7.3"@
}

/// What the config reader expects to find for a PHP version.
pub fn php_expecting() -> (s: String)
    ensures
        s@ == "either `7.1`, `7.2` or `7.3`"@,
{
    String::from_str("either `7.1`, `7.2` or `7.3`")
}

/// Reads a PHP version given as text in a config file.
pub fn php_from_str(v: &str) -> (r: Result<PHP, String>)
    ensures
        match r {
            Ok(p) => php_from_text(v@) == Some(p),
            Err(msg) => php_from_text(v@).is_none() && msg@ == php_expected_message(),
        },
{
    let given = String::from_str(v);
    let s71 = String::from_str("7.1");
    let s72 = String::from_str("7.2");
    let s73 = String::from_str("7.3");
    if given == s71 {
        Ok(PHP::SevenOne)
    } else if given == s72 {
        Ok(PHP::SevenTwo)
    } else if given == s73 {
        Ok(PHP::SevenThree)
    } else {
        Err(String::from_str("expected either 7.1, 7.2 or 7.3"))
    }
}

/// Reading back the text of any version gives that version.
pub proof fn lemma_php_text_roundtrip(p: PHP)
    ensures
        php_from_text(php_text(p)) == Some(p),
{
    reveal_strlit("7.1");
    reveal_strlit("7.2");
    reveal_strlit("7.3");
    assert("7.1"@[2] != "7.2"@[2]);
    assert("7.1"@[2] != "7.3"@[2]);
    assert("7.2"@[2] != "7.3"@[2]);
}

} // verus!

use vstd::prelude::*;
use vstd::string::*;

use crate::text::text_eq;

verus! {

/// A file-system path, held as its text.
///
/// Paths reach the library as text: the conversion of an operating-system
/// path to text happens where the path is read.
#[derive(Debug, Clone)]
pub struct FilePath {
    pub text: String,
}

/// Where the components of a path's body begin: after a leading root
/// separator, or after a leading `.` that is followed by a separator or
/// ends the path; otherwise at the start.
pub open spec fn body_start(p: Seq<char>) -> int {
    if p.len() > 0 && p[0] == '/' {
        1
    } else if p.len() > 0 && p[0] == '.' && (p.len() == 1 || p[1] == '/') {
        1
    } else {
        0
    }
}

/// The index of the last separator in `p[b..m]`, or `b - 1` when there is none.
pub open spec fn sep_before(p: Seq<char>, b: int, m: int) -> int
    decreases m - b,
{
    if m <= b {
        b - 1
    } else if p[m - 1] == '/' {
        m - 1
    } else {
        sep_before(p, b, m - 1)
    }
}

/// Where the last component of `p[b..m]` begins.
pub open spec fn comp_start(p: Seq<char>, b: int, m: int) -> int {
    sep_before(p, b, m) + 1
}

/// Whether the last component of `p[b..m]` is empty or `.`: such
/// components are not components of the path.
pub open spec fn skippable(p: Seq<char>, b: int, m: int) -> bool {
    let c = comp_start(p, b, m);
    m == c || (m == c + 1 && p[c] == '.')
}

/// `p[..m]` without its last component and the separator before it.
pub open spec fn cut_before(p: Seq<char>, b: int, m: int) -> int {
    let s = sep_before(p, b, m);
    if s >= b {
        s
    } else {
        b
    }
}

/// The end of `p[..m]` once trailing empty and `.` components are removed.
pub open spec fn trim_end(p: Seq<char>, b: int, m: int) -> int
    decreases m - b,
{
    if m <= b {
        m
    } else if skippable(p, b, m) {
        proof {
            lemma_sep_before_bounds(p, b, m);
        }
        trim_end(p, b, cut_before(p, b, m))
    } else {
        m
    }
}

/// The last component of a path, as `Path::file_name` gives it: empty and
/// `.` components are ignored (but for a leading `.`), and there is none
/// when the path ends in the root, a leading `.`, or `..`.
pub open spec fn spec_file_name(p: Seq<char>) -> Option<Seq<char>> {
    let b = body_start(p);
    let t = trim_end(p, b, p.len() as int);
    if t > b {
        let n = p.subrange(comp_start(p, b, t), t);
        if n == ".."@ {
            None
        } else {
            Some(n)
        }
    } else {
        None
    }
}

/// The path without its last component, as `Path::parent` gives it: none
/// for an empty path or the root; the empty path for a single relative
/// component or a lone `.`.
pub open spec fn spec_parent(p: Seq<char>) -> Option<Seq<char>> {
    let b = body_start(p);
    let t = trim_end(p, b, p.len() as int);
    if t > b {
        Some(p.subrange(0, trim_end(p, b, cut_before(p, b, t))))
    } else if b == 1 && p[0] == '.' {
        Some(Seq::<char>::empty())
    } else {
        None
    }
}

pub proof fn lemma_sep_before_bounds(p: Seq<char>, b: int, m: int)
    ensures
        b - 1 <= sep_before(p, b, m),
        sep_before(p, b, m) < m || m <= b,
        m > b ==> sep_before(p, b, m) <= m - 1,
        sep_before(p, b, m) >= b ==> p[sep_before(p, b, m)] == '/',
    decreases m - b,
{
    if m > b && p[m - 1] != '/' {
        lemma_sep_before_bounds(p, b, m - 1);
    }
}

/// `base` joined with `f`: an absolute `f` replaces `base`; otherwise a
/// separator is put between them unless `base` is empty or already ends in one.
pub open spec fn spec_join(base: Seq<char>, f: Seq<char>) -> Seq<char> {
    if f.len() > 0 && f[0] == '/' {
        f
    } else if base.len() == 0 || base.last() == '/' {
        base + f
    } else {
        base + "/"@ + f
    }
}

fn body_start_of(s: &str) -> (b: usize)
    ensures
        b as int == body_start(s@),
{
    let n = s.unicode_len();
    if n > 0 && s.get_char(0) == '/' {
        1
    } else if n > 0 && s.get_char(0) == '.' && (n == 1 || s.get_char(1) == '/') {
        1
    } else {
        0
    }
}

/// The last separator in `s[b..m]`.
fn sep_before_exec(s: &str, b: usize, m: usize) -> (r: Option<usize>)
    requires
        m <= s@.len(),
    ensures
        match r {
            Some(i) => sep_before(s@, b as int, m as int) == i as int && b <= i,
            None => sep_before(s@, b as int, m as int) == b - 1,
        },
{
    let mut k = m;
    while k > b
        invariant
            k <= m <= s@.len(),
            sep_before(s@, b as int, m as int) == sep_before(s@, b as int, k as int),
        decreases k,
    {
        if s.get_char(k - 1) == '/' {
            return Some(k - 1);
        }
        k = k - 1;
    }
    None
}

/// The end of `s[..m]` once trailing empty and `.` components are removed.
fn trim_end_exec(s: &str, b: usize, m: usize) -> (t: usize)
    requires
        b <= m <= s@.len(),
    ensures
        t as int == trim_end(s@, b as int, m as int),
        b <= t <= m,
{
    let mut k = m;
    loop
        invariant
            b <= k <= m <= s@.len(),
            trim_end(s@, b as int, m as int) == trim_end(s@, b as int, k as int),
        decreases k,
    {
        if k <= b {
            return k;
        }
        let sep = sep_before_exec(s, b, k);
        proof {
            lemma_sep_before_bounds(s@, b as int, k as int);
        }
        let c = match sep {
            Some(i) => i + 1,
            None => b,
        };
        let skip = k == c || (k == c + 1 && s.get_char(c) == '.');
        if !skip {
            return k;
        }
        k = match sep {
            Some(i) => i,
            None => b,
        };
    }
}

impl FilePath {
    /// A path with the given text.
    pub fn new(text: &str) -> (p: FilePath)
        ensures
            p.text@ == text@,
    {
        FilePath { text: String::from_str(text) }
    }

    /// The same path, as a new value.
    pub fn duplicate(&self) -> (p: FilePath)
        ensures
            p.text@ == self.text@,
    {
        FilePath { text: self.text.clone() }
    }

    /// The text of the path.
    pub fn as_str(&self) -> (s: &str)
        ensures
            s@ == self.text@,
    {
        self.text.as_str()
    }

    /// This path joined with `f`.
    pub fn join(&self, f: &str) -> (p: FilePath)
        ensures
            p.text@ == spec_join(self.text@, f@),
    {
        let base = self.text.as_str();
        let blen = base.unicode_len();
        let flen = f.unicode_len();
        if flen > 0 && f.get_char(0) == '/' {
            FilePath::new(f)
        } else if blen == 0 || base.get_char(blen - 1) == '/' {
            let mut t = String::from_str(base);
            t.append(f);
            FilePath { text: t }
        } else {
            let mut t = String::from_str(base);
            t.append("/");
            t.append(f);
            FilePath { text: t }
        }
    }

    /// The last component of the path.
    pub fn file_name(&self) -> (r: Option<String>)
        ensures
            match r {
                Some(n) => spec_file_name(self.text@) == Some(n@),
                None => spec_file_name(self.text@).is_none(),
            },
    {
        let s = self.text.as_str();
        let len = s.unicode_len();
        let b = body_start_of(s);
        let t = trim_end_exec(s, b, len);
        if t <= b {
            return None;
        }
        proof {
            lemma_sep_before_bounds(s@, b as int, t as int);
        }
        let c = match sep_before_exec(s, b, t) {
            Some(i) => i + 1,
            None => b,
        };
        let n = s.substring_char(c, t);
        if text_eq(n, "..") {
            None
        } else {
            Some(String::from_str(n))
        }
    }

    /// The path without its last component.
    pub fn parent(&self) -> (r: Option<FilePath>)
        ensures
            match r {
                Some(q) => spec_parent(self.text@) == Some(q.text@),
                None => spec_parent(self.text@).is_none(),
            },
    {
        let s = self.text.as_str();
        let len = s.unicode_len();
        let b = body_start_of(s);
        let t = trim_end_exec(s, b, len);
        if t > b {
            let cut = match sep_before_exec(s, b, t) {
                Some(i) => i,
                None => b,
            };
            proof {
                lemma_sep_before_bounds(s@, b as int, t as int);
            }
            let h = trim_end_exec(s, b, cut);
            Some(FilePath::new(s.substring_char(0, h)))
        } else if b == 1 && s.get_char(0) == '.' {
            proof {
                reveal_strlit("");
            }
            Some(FilePath::new(""))
        } else {
            None
        }
    }
}

/// The text of a path.
pub fn path_buf_to_string(pb: &FilePath) -> (s: String)
    ensures
        s@ == pb.text@,
{
    pb.text.clone()
}

/// The last separator before `m` is the one at `k` when nothing between is one.
proof fn lemma_sep_before_is(p: Seq<char>, b: int, m: int, k: int)
    requires
        b <= k < m <= p.len(),
        p[k] == '/',
        forall|i: int| k < i < m ==> p[i] != '/',
    ensures
        sep_before(p, b, m) == k,
    decreases m - k,
{
    if m - 1 > k {
        lemma_sep_before_is(p, b, m - 1, k);
    }
}

proof fn lemma_no_sep_before(p: Seq<char>, b: int, m: int)
    requires
        0 <= b <= m <= p.len(),
        forall|i: int| b <= i < m ==> p[i] != '/',
    ensures
        sep_before(p, b, m) == b - 1,
    decreases m - b,
{
    if m > b {
        lemma_no_sep_before(p, b, m - 1);
    }
}

/// A path that ends in an ordinary component (non-empty, without a
/// separator, neither `.` nor `..`) has that component as its file name,
/// whether it stands alone or follows a separator, relative or absolute.
pub proof fn lemma_file_name_of_last_component(q: Seq<char>, c: Seq<char>, alone: bool)
    requires
        c.len() > 0,
        forall|i: int| 0 <= i < c.len() ==> c[i] != '/',
        c != "."@,
        c != ".."@,
    ensures
        spec_file_name(if alone { c } else { q + "/"@ + c }) == Some(c),
{
    reveal_strlit(".");
    reveal_strlit("/");
    let p = if alone { c } else { q + "/"@ + c };
    let b = body_start(p);
    let len = p.len() as int;
    let start: int = if alone { 0 } else { q.len() + 1int };
    assert(p.subrange(start, len) =~= c);
    assert forall|i: int| start <= i < len implies p[i] != '/' by {
        assert(p[i] == c[i - start]);
    }
    if alone {
        if c[0] == '.' && c.len() == 1 {
            assert(c =~= "."@);
        }
        assert(b == 0);
        lemma_no_sep_before(p, b, len);
    } else {
        assert(p[q.len() as int] == '/');
        if q.len() == 0 {
            assert(b == 1);
            lemma_no_sep_before(p, b, len);
        } else {
            assert(b <= 1);
            lemma_sep_before_is(p, b, len, q.len() as int);
        }
    }
    assert(comp_start(p, b, len) == start);
    if len == start + 1 && p[start] == '.' {
        assert(c =~= "."@);
    }
    assert(!skippable(p, b, len));
    assert(trim_end(p, b, len) == len);
}

} // verus!

use vstd::prelude::*;
use vstd::utf8::*;
use vstd::string::*;

verus! {

broadcast use vstd::utf8::encode_utf8_decode_utf8;

/// The environment used to expand `${NAME}` placeholders: names and their values.
///
/// A later entry for a name replaces an earlier one.
#[derive(Debug)]
pub struct EnvVars {
    entries: Vec<(String, String)>,
}

/// The value a name has among the entries: that of the last entry whose
/// name's UTF-8 encoding is `key`.
pub open spec fn env_lookup(entries: Seq<(Seq<char>, Seq<char>)>, key: Seq<u8>) -> Option<Seq<char>>
    decreases entries.len(),
{
    if entries.len() == 0 {
        None
    } else if encode_utf8(entries.last().0) == key {
        Some(entries.last().1)
    } else {
        env_lookup(entries.drop_last(), key)
    }
}

impl View for EnvVars {
    type V = Seq<(Seq<char>, Seq<char>)>;

    closed spec fn view(&self) -> Seq<(Seq<char>, Seq<char>)> {
        self.entries@.map_values(|e: (String, String)| (e.0@, e.1@))
    }
}

/// The bytes a placeholder is replaced by: the UTF-8 encoding of the
/// name's value, or `...` for a name that has none.
pub open spec fn replacement(env: Seq<(Seq<char>, Seq<char>)>, key: Seq<u8>) -> Seq<u8> {
    match env_lookup(env, key) {
        Some(v) => encode_utf8(v),
        None => seq![46u8, 46u8, 46u8],
    }
}

/// A match of a placeholder: the byte span of the whole match and, where
/// it took part, that of the name inside it.
pub type CaptureSpan = (usize, usize, Option<(usize, usize)>);

/// Whether the spans lie, in order and without overlap, in a text of
/// `len` bytes, each with a name inside it.
pub open spec fn spans_wf(spans: Seq<CaptureSpan>, len: int) -> bool {
    &&& forall|k: int|
        0 <= k < spans.len() ==> {
            let s = #[trigger] spans[k];
            &&& s.0 <= s.1 <= len
            &&& s.2 matches Some(g) && s.0 <= g.0 <= g.1 <= s.1
        }
    &&& forall|k: int| 0 <= k < spans.len() - 1 ==> #[trigger] spans[k].1 <= spans[k + 1].0
}

/// Where the text after the given spans starts.
pub open spec fn spans_end(spans: Seq<CaptureSpan>) -> int {
    if spans.len() == 0 {
        0
    } else {
        spans.last().1 as int
    }
}

/// The name captured by a span.
pub open spec fn span_key(input: Seq<u8>, s: CaptureSpan) -> Seq<u8> {
    match s.2 {
        Some(g) => input.subrange(g.0 as int, g.1 as int),
        None => Seq::<u8>::empty(),
    }
}

/// The text up to the end of the last span, each span replaced.
pub open spec fn substituted_prefix(input: Seq<u8>, spans: Seq<CaptureSpan>, env: Seq<(Seq<char>, Seq<char>)>) -> Seq<u8>
    decreases spans.len(),
{
    if spans.len() == 0 {
        Seq::<u8>::empty()
    } else {
        let s = spans.last();
        substituted_prefix(input, spans.drop_last(), env)
            + input.subrange(spans_end(spans.drop_last()), s.0 as int)
            + replacement(env, span_key(input, s))
    }
}

/// The text with each span replaced by the value of the name it captured.
pub open spec fn substituted(input: Seq<u8>, spans: Seq<CaptureSpan>, env: Seq<(Seq<char>, Seq<char>)>) -> Seq<u8> {
    substituted_prefix(input, spans, env) + input.subrange(spans_end(spans), input.len() as int)
}

/// The pattern of a placeholder: `${`, a name of at least one character, `}`.
pub open spec fn env_pattern() -> Seq<char> {
    "\\$\\{(.+?)}"@
}

/// The matches that `regex::Regex` finds for a pattern in a text, when the
/// pattern compiles: for each successive non-overlapping match, the byte
/// offsets of the whole match and of its first capture group.
pub uninterp spec fn regex_capture_spans(pattern: Seq<char>, haystack: Seq<char>) -> Option<Seq<CaptureSpan>>;

/// Calls `regex::Regex::new` on `pattern` and, when it compiles,
/// `Regex::captures_iter` on `haystack`, keeping for each match the byte
/// offsets of the whole match (`Captures::get_match`) and of group 1
/// (`Captures::get(1)`). The contract names the result as a function of
/// the two texts, and states what regex documents of the whole matches:
/// they come in order without overlapping, each starts no later than it
/// ends, and both offsets lie on UTF-8 boundaries of the text. Of group 1
/// it states nothing.
#[verifier::external_body]
fn capture_spans(pattern: &str, haystack: &str) -> (r: Option<Vec<CaptureSpan>>)
    ensures
        match r {
            Some(v) => regex_capture_spans(pattern@, haystack@) == Some(v@),
            None => regex_capture_spans(pattern@, haystack@).is_none(),
        },
        r matches Some(v) ==> forall|k: int|
            0 <= k < v@.len() ==> {
                let s = #[trigger] v@[k];
                &&& s.0 <= s.1 <= haystack.spec_bytes().len()
                &&& is_char_boundary(haystack.spec_bytes(), s.0 as int)
                &&& is_char_boundary(haystack.spec_bytes(), s.1 as int)
            },
        r matches Some(v) ==> forall|k: int| 0 <= k < v@.len() - 1 ==> #[trigger] v@[k].1 <= v@[k + 1].0,
{
    match regex::Regex::new(pattern) {
        Ok(re) => Some(re.captures_iter(haystack).map(|c| {
            let m = c.get_match();
            (m.start(), m.end(), c.get(1).map(|g| (g.start(), g.end())))
        }).collect()),
        Err(_) => None,
    }
}

/// Calls `std::str::from_utf8`: the bytes read as text, exactly when they
/// are valid UTF-8, the text's encoding then being those bytes.
#[verifier::external_body]
fn utf8_text(bytes: &[u8]) -> (r: Option<&str>)
    ensures
        r.is_some() <==> valid_utf8(bytes@),
        r matches Some(s) ==> s.spec_bytes() == bytes@,
{
    match std::str::from_utf8(bytes) {
        Ok(s) => Some(s),
        Err(_) => None,
    }
}

fn bytes_match(key: &[u8], input: &[u8], a: usize, b: usize) -> (r: bool)
    requires
        a <= b <= input@.len(),
    ensures
        r == (key@ == input@.subrange(a as int, b as int)),
{
    if key.len() != b - a {
        return false;
    }
    let mut i: usize = 0;
    while i < key.len()
        invariant
            key@.len() == b - a,
            a <= b <= input@.len(),
            i <= key@.len(),
            forall|j: int| 0 <= j < i ==> key@[j] == input@[a + j],
        decreases key.len() - i,
    {
        if key[i] != input[a + i] {
            assert(input@.subrange(a as int, b as int)[i as int] == input@[a + i]);
            return false;
        }
        i = i + 1;
    }
    assert(key@ =~= input@.subrange(a as int, b as int));
    true
}

fn push_range(out: &mut Vec<u8>, input: &[u8], a: usize, b: usize)
    requires
        a <= b <= input@.len(),
    ensures
        final(out)@ == old(out)@ + input@.subrange(a as int, b as int),
{
    let mut i = a;
    while i < b
        invariant
            a <= i <= b <= input@.len(),
            out@ == old(out)@ + input@.subrange(a as int, i as int),
        decreases b - i,
    {
        out.push(input[i]);
        assert(input@.subrange(a as int, i + 1) =~= input@.subrange(a as int, i as int).push(input@[i as int]));
        i = i + 1;
    }
}

fn push_all(out: &mut Vec<u8>, bytes: &[u8])
    ensures
        final(out)@ == old(out)@ + bytes@,
{
    push_range(out, bytes, 0, bytes.len());
    assert(bytes@.subrange(0, bytes@.len() as int) =~= bytes@);
}

fn copy_bytes(bytes: &[u8]) -> (r: Vec<u8>)
    ensures
        r@ == bytes@,
{
    let mut r: Vec<u8> = Vec::new();
    push_all(&mut r, bytes);
    r
}

impl EnvVars {
    /// An environment with no names.
    pub fn new() -> (e: EnvVars)
        ensures
            e@ == Seq::<(Seq<char>, Seq<char>)>::empty(),
    {
        let e = EnvVars { entries: Vec::new() };
        assert(e@ =~= Seq::<(Seq<char>, Seq<char>)>::empty());
        e
    }

    /// Gives `key` the value `value`.
    pub fn insert(&mut self, key: String, value: String)
        ensures
            final(self)@ == old(self)@.push((key@, value@)),
    {
        let ghost before = self@;
        let k = key;
        let v = value;
        let ghost kv = (k@, v@);
        self.entries.push((k, v));
        assert(self@ =~= before.push(kv));
    }

    /// The value of the name whose UTF-8 encoding is `input[a..b]`.
    fn lookup(&self, input: &[u8], a: usize, b: usize) -> (r: Option<&String>)
        requires
            a <= b <= input@.len(),
        ensures
            match r {
                Some(v) => env_lookup(self@, input@.subrange(a as int, b as int)) == Some(v@),
                None => env_lookup(self@, input@.subrange(a as int, b as int)).is_none(),
            },
    {
        let ghost key = input@.subrange(a as int, b as int);
        let mut i = self.entries.len();
        assert(self@.take(i as int) =~= self@);
        while i > 0
            invariant
                i <= self.entries@.len(),
                self@.len() == self.entries@.len(),
                a <= b <= input@.len(),
                key == input@.subrange(a as int, b as int),
                forall|j: int| 0 <= j < self@.len() ==> #[trigger] self@[j] == (self.entries@[j].0@, self.entries@[j].1@),
                env_lookup(self@, key) == env_lookup(self@.take(i as int), key),
            decreases i,
        {
            let e = &self.entries[i - 1];
            let kb = e.0.as_str().as_bytes();
            assert(self@[i - 1] == (e.0@, e.1@));
            assert(self@.take(i as int).last() == (e.0@, e.1@));
            if bytes_match(kb, input, a, b) {
                return Some(&e.1);
            }
            assert(self@.take(i as int).drop_last() =~= self@.take(i - 1));
            i = i - 1;
        }
        None
    }
}

/// Copies the text with each span replaced by the value of the name it
/// captured (`...` for a name without a value).
pub fn substitute_env_refs(env: &EnvVars, input: &[u8], spans: &Vec<CaptureSpan>) -> (out: Vec<u8>)
    requires
        spans_wf(spans@, input@.len() as int),
    ensures
        out@ == substituted(input@, spans@, env@),
{
    let mut out: Vec<u8> = Vec::new();
    let mut pos: usize = 0;
    let mut k: usize = 0;
    while k < spans.len()
        invariant
            k <= spans@.len(),
            spans_wf(spans@, input@.len() as int),
            pos as int == spans_end(spans@.take(k as int)),
            pos <= input@.len(),
            k < spans@.len() ==> pos <= spans@[k as int].0,
            out@ == substituted_prefix(input@, spans@.take(k as int), env@),
        decreases spans.len() - k,
    {
        let s = spans[k];
        let (g0, g1) = match s.2 {
            Some(g) => g,
            None => (0, 0),
        };
        assert(spans@[k as int] == s);
        push_range(&mut out, input, pos, s.0);
        match env.lookup(input, g0, g1) {
            Some(v) => push_all(&mut out, v.as_str().as_bytes()),
            None => {
                let ghost before = out@;
                out.push(46u8);
                out.push(46u8);
                out.push(46u8);
                assert(out@ =~= before + seq![46u8, 46u8, 46u8]);
            },
        }
        proof {
            let t = spans@.take(k + 1);
            assert(t.drop_last() =~= spans@.take(k as int));
            assert(t.last() == s);
            assert(span_key(input@, s) == input@.subrange(g0 as int, g1 as int));
            if k + 1 < spans@.len() {
                assert(spans@[k as int].1 <= spans@[k + 1].0);
            }
        }
        pos = s.1;
        k = k + 1;
    }
    assert(spans@.take(spans@.len() as int) =~= spans@);
    push_range(&mut out, input, pos, input.len());
    out
}

fn spans_ok(spans: &Vec<CaptureSpan>, len: usize) -> (r: bool)
    ensures
        r == spans_wf(spans@, len as int),
{
    let mut k: usize = 0;
    while k < spans.len()
        invariant
            k <= spans@.len(),
            forall|j: int|
                0 <= j < k ==> {
                    let s = #[trigger] spans@[j];
                    &&& s.0 <= s.1 <= len
                    &&& s.2 matches Some(g) && s.0 <= g.0 <= g.1 <= s.1
                },
            forall|j: int| 0 <= j < k - 1 ==> #[trigger] spans@[j].1 <= spans@[j + 1].0,
        decreases spans.len() - k,
    {
        let s = spans[k];
        let ok = match s.2 {
            Some(g) => s.0 <= g.0 && g.0 <= g.1 && g.1 <= s.1 && s.1 <= len,
            None => false,
        };
        if !ok {
            assert(spans@[k as int] == s);
            return false;
        }
        if k > 0 && spans[k - 1].1 > s.0 {
            return false;
        }
        k = k + 1;
    }
    true
}

/// Expands each `${NAME}` placeholder in UTF-8 text to the value `NAME`
/// has in `env`, or to `...` where it has none.
///
/// The placeholders are the matches of `\$\{(.+?)}` that `regex` finds. In
/// the case that no well-formed list of matches comes back (the pattern
/// does not compile, or a match lies outside the text), the text is given
/// back unchanged.
pub fn replace_env(env: EnvVars, input: &[u8]) -> (out: Vec<u8>)
    requires
        valid_utf8(input@),
    ensures
        match regex_capture_spans(env_pattern(), decode_utf8(input@)) {
            Some(spans) => if spans_wf(spans, input@.len() as int) {
                out@ == substituted(input@, spans, env@)
            } else {
                out@ == input@
            },
            None => out@ == input@,
        },
        valid_utf8(out@),
{
    let text = match utf8_text(input) {
        Some(t) => t,
        None => { return copy_bytes(input); },
    };
    proof {
        assert(decode_utf8(encode_utf8(text@)) == text@);
    }
    match capture_spans("\\$\\{(.+?)}", text) {
        Some(spans) => {
            if spans_ok(&spans, input.len()) {
                proof {
                    lemma_substituted_valid_utf8(input@, spans@, env@);
                }
                substitute_env_refs(&env, input, &spans)
            } else {
                copy_bytes(input)
            }
        },
        None => copy_bytes(input),
    }
}

/// After a name is given a value, looking the name up gives that value;
/// every other name keeps the value it had.
pub proof fn lemma_lookup_after_insert(env: Seq<(Seq<char>, Seq<char>)>, key: Seq<char>, value: Seq<char>, other: Seq<char>)
    ensures
        env_lookup(env.push((key, value)), encode_utf8(key)) == Some(value),
        other != key ==> env_lookup(env.push((key, value)), encode_utf8(other)) == env_lookup(env, encode_utf8(other)),
{
    let e = env.push((key, value));
    assert(e.drop_last() =~= env);
    if other != key {
        assert(decode_utf8(encode_utf8(other)) == other);
        assert(decode_utf8(encode_utf8(key)) == key);
    }
}

/// A text in which no placeholder was found is given back unchanged.
pub proof fn lemma_no_placeholders_unchanged(input: Seq<u8>, env: Seq<(Seq<char>, Seq<char>)>)
    ensures
        substituted(input, Seq::<CaptureSpan>::empty(), env) == input,
{
    assert(Seq::<u8>::empty() + input.subrange(0, input.len() as int) =~= input);
}

/// The text before the first placeholder is kept as it is.
pub proof fn lemma_text_before_first_placeholder_kept(input: Seq<u8>, spans: Seq<CaptureSpan>, env: Seq<(Seq<char>, Seq<char>)>)
    requires
        spans.len() > 0,
        spans_wf(spans, input.len() as int),
    ensures
        has_byte_prefix(substituted(input, spans, env), input.subrange(0, spans[0].0 as int)),
{
    let s0 = spans[0];
    assert(s0.0 <= s0.1 <= input.len());
    lemma_prefix_kept(input, spans, env);
    let p = substituted_prefix(input, spans, env);
    let full = substituted(input, spans, env);
    assert(full.subrange(0, p.len() as int) =~= p);
    assert(full.subrange(0, s0.0 as int) =~= p.subrange(0, s0.0 as int));
}

/// Whether `s` begins with `prefix`.
pub open spec fn has_byte_prefix(s: Seq<u8>, prefix: Seq<u8>) -> bool {
    prefix.len() <= s.len() && s.subrange(0, prefix.len() as int) == prefix
}

proof fn lemma_prefix_kept(input: Seq<u8>, spans: Seq<CaptureSpan>, env: Seq<(Seq<char>, Seq<char>)>)
    requires
        spans.len() > 0,
        spans_wf(spans, input.len() as int),
    ensures
        substituted_prefix(input, spans, env).len() >= spans[0].0,
        substituted_prefix(input, spans, env).subrange(0, spans[0].0 as int) == input.subrange(0, spans[0].0 as int),
    decreases spans.len(),
{
    let s0 = spans[0];
    assert(s0.0 <= s0.1 <= input.len());
    if spans.len() == 1 {
        assert(spans.drop_last() =~= Seq::<CaptureSpan>::empty());
        assert(spans.last() == s0);
        assert(substituted_prefix(input, spans.drop_last(), env) == Seq::<u8>::empty());
        assert(spans_end(spans.drop_last()) == 0);
        let p = substituted_prefix(input, spans, env);
        assert(p =~= input.subrange(0, s0.0 as int) + replacement(env, span_key(input, s0)));
        assert(p.subrange(0, s0.0 as int) =~= input.subrange(0, s0.0 as int));
    } else {
        let d = spans.drop_last();
        assert(d[0] == s0);
        assert forall|k: int| 0 <= k < d.len() implies {
            let s = #[trigger] d[k];
            &&& s.0 <= s.1 <= input.len()
            &&& s.2 matches Some(g) && s.0 <= g.0 <= g.1 <= s.1
        } by {
            assert(d[k] == spans[k]);
        }
        assert forall|k: int| 0 <= k < d.len() - 1 implies #[trigger] d[k].1 <= d[k + 1].0 by {
            assert(d[k] == spans[k]);
            assert(d[k + 1] == spans[k + 1]);
            assert(spans[k].1 <= spans[k + 1].0);
        }
        lemma_prefix_kept(input, d, env);
        let q = substituted_prefix(input, d, env);
        let p = substituted_prefix(input, spans, env);
        assert(p.subrange(0, q.len() as int) =~= q);
        assert(p.subrange(0, s0.0 as int) =~= q.subrange(0, s0.0 as int));
    }
}

/// Whether every span starts and ends on a character boundary of `input`.
pub open spec fn spans_on_boundaries(spans: Seq<CaptureSpan>, input: Seq<u8>) -> bool {
    forall|k: int|
        0 <= k < spans.len() ==> is_char_boundary(input, (#[trigger] spans[k]).0 as int)
            && is_char_boundary(input, spans[k].1 as int)
}

/// The text between two character boundaries of valid UTF-8 is valid UTF-8.
proof fn lemma_valid_utf8_between(b: Seq<u8>, i: int, j: int)
    requires
        valid_utf8(b),
        0 <= i <= j <= b.len(),
        is_char_boundary(b, i),
        is_char_boundary(b, j),
    ensures
        valid_utf8(b.subrange(i, j)),
{
    valid_utf8_split(b, j);
    let h = b.subrange(0, j);
    if i == j {
        assert(b.subrange(i, j) =~= Seq::<u8>::empty());
    } else {
        is_char_boundary_iff_not_is_continuation_byte(b, i);
        is_char_boundary_iff_not_is_continuation_byte(h, i);
        assert(h[i] == b[i]);
        valid_utf8_split(h, i);
        assert(h.subrange(i, h.len() as int) =~= b.subrange(i, j));
    }
}

proof fn lemma_dots_valid_utf8()
    ensures
        valid_utf8(seq![46u8, 46u8, 46u8]),
{
    let d = seq![46u8];
    reveal_with_fuel(valid_utf8, 2);
    assert(pop_first_scalar(d) =~= Seq::<u8>::empty());
    assert(valid_utf8(d));
    valid_utf8_concat(d, d);
    valid_utf8_concat(d + d, d);
    assert(d + d + d =~= seq![46u8, 46u8, 46u8]);
}

proof fn lemma_spans_drop_last(spans: Seq<CaptureSpan>, input: Seq<u8>)
    requires
        spans.len() > 0,
        spans_wf(spans, input.len() as int),
        spans_on_boundaries(spans, input),
    ensures
        spans_wf(spans.drop_last(), input.len() as int),
        spans_on_boundaries(spans.drop_last(), input),
{
    let d = spans.drop_last();
    assert forall|k: int| 0 <= k < d.len() implies {
        let s = #[trigger] d[k];
        &&& s.0 <= s.1 <= input.len()
        &&& s.2 matches Some(g) && s.0 <= g.0 <= g.1 <= s.1
    } by {
        assert(d[k] == spans[k]);
    }
    assert forall|k: int| 0 <= k < d.len() - 1 implies #[trigger] d[k].1 <= d[k + 1].0 by {
        assert(d[k] == spans[k]);
        assert(d[k + 1] == spans[k + 1]);
        assert(spans[k].1 <= spans[k + 1].0);
    }
    assert forall|k: int| 0 <= k < d.len() implies is_char_boundary(input, (#[trigger] d[k]).0 as int)
        && is_char_boundary(input, d[k].1 as int) by {
        assert(d[k] == spans[k]);
    }
}

proof fn lemma_prefix_valid_utf8(input: Seq<u8>, spans: Seq<CaptureSpan>, env: Seq<(Seq<char>, Seq<char>)>)
    requires
        valid_utf8(input),
        spans_wf(spans, input.len() as int),
        spans_on_boundaries(spans, input),
    ensures
        valid_utf8(substituted_prefix(input, spans, env)),
        spans.len() > 0 ==> spans_end(spans) <= input.len() && is_char_boundary(input, spans_end(spans)),
    decreases spans.len(),
{
    broadcast use valid_utf8_concat, encode_utf8_valid_utf8, is_char_boundary_start_end_of_seq;

    if spans.len() == 0 {
        assert(valid_utf8(Seq::<u8>::empty()));
    } else {
        let d = spans.drop_last();
        let s = spans.last();
        lemma_spans_drop_last(spans, input);
        lemma_prefix_valid_utf8(input, d, env);
        assert(spans[spans.len() - 1] == s);
        let e = spans_end(d);
        if d.len() > 0 {
            assert(d.last() == spans[spans.len() - 2]);
            assert(spans[spans.len() - 2].1 <= spans[spans.len() - 1].0);
        } else {
            assert(is_char_boundary(input, 0));
        }
        lemma_valid_utf8_between(input, e, s.0 as int);
        match env_lookup(env, span_key(input, s)) {
            Some(v) => {},
            None => {
                lemma_dots_valid_utf8();
            },
        }
        let a = substituted_prefix(input, d, env);
        let b = input.subrange(e, s.0 as int);
        let c = replacement(env, span_key(input, s));
        assert(valid_utf8(a + b));
        assert(valid_utf8(a + b + c));
    }
}

/// Expanding placeholders whose matches lie on character boundaries of
/// valid UTF-8 text gives valid UTF-8 text.
pub proof fn lemma_substituted_valid_utf8(input: Seq<u8>, spans: Seq<CaptureSpan>, env: Seq<(Seq<char>, Seq<char>)>)
    requires
        valid_utf8(input),
        spans_wf(spans, input.len() as int),
        spans_on_boundaries(spans, input),
    ensures
        valid_utf8(substituted(input, spans, env)),
{
    broadcast use valid_utf8_concat, is_char_boundary_start_end_of_seq;

    lemma_prefix_valid_utf8(input, spans, env);
    let e = spans_end(spans);
    if spans.len() == 0 {
        assert(is_char_boundary(input, 0));
    }
    assert(is_char_boundary(input, input.len() as int));
    lemma_valid_utf8_between(input, e, input.len() as int);
}

/// Every list of matches that lie in the text, come in order without
/// overlapping and carry a name inside each match is accepted for
/// substitution, however many matches it holds.
pub proof fn lemma_ordered_spans_accepted(spans: Seq<CaptureSpan>, len: int)
    requires
        forall|k: int|
            0 <= k < spans.len() ==> (#[trigger] spans[k]).0 <= spans[k].1 <= len && spans[k].2 is Some
                && spans[k].0 <= spans[k].2.unwrap().0 <= spans[k].2.unwrap().1 <= spans[k].1,
        forall|k: int| 0 <= k < spans.len() - 1 ==> (#[trigger] spans[k]).1 <= spans[k + 1].0,
    ensures
        spans_wf(spans, len),
{
    assert forall|k: int| 0 <= k < spans.len() - 1 implies #[trigger] spans[k].1 <= spans[k + 1].0 by {
        assert(spans[k].1 <= spans[k + 1].0);
    }
}

} // verus!

//! The path-template compiler.
//!
//! `parse` turns a template such as `/user/{id}` or `/static/{file: .+}` into
//! an anchored matcher source: literal characters are copied verbatim,
//! `{name}` becomes a named group capturing one or more non-slash characters,
//! and `{name: <sub>}` embeds the custom sub-expression verbatim (leading
//! spaces trimmed). `normalize_pattern` is the lenient normalizer for plain
//! matcher sources: it anchors them and tolerates a trailing slash.

use vstd::prelude::*;
use vstd::string::StringExecFns;

use crate::engine;
use crate::errors::PatternError;
use crate::parameters::Parameters;
use crate::strutil::chars_of;
use crate::strutil::push_char;

verus! {

/// The name table a compiled matcher yields: each named group, paired with
/// its group index, in order of the opening parentheses.
pub open spec fn spec_names_of(groups: Seq<Option<Seq<char>>>) -> Seq<(Seq<char>, usize)>
    decreases groups.len(),
{
    if groups.len() == 0 {
        Seq::empty()
    } else {
        let prefix = spec_names_of(groups.drop_last());
        match groups.last() {
            Some(n) => prefix.push((n, (groups.len() - 1) as usize)),
            None => prefix,
        }
    }
}

/// A compiled path pattern: the anchored matcher, the source it was built
/// from, and its name table.
pub struct Pattern {
    re: regex::Regex,
    source: String,
    names: Vec<(String, usize)>,
}

/// The mathematical picture of a compiled pattern.
pub struct PatternView {
    pub source: Seq<char>,
    pub names: Seq<(Seq<char>, usize)>,
}

impl View for Pattern {
    type V = PatternView;

    closed spec fn view(&self) -> PatternView {
        PatternView { source: self.source@, names: self.names.deep_view() }
    }
}

impl Pattern {
    /// The pattern is internally consistent: the stored source is the one
    /// the matcher was compiled from, and the name table is the matcher's.
    #[verifier::type_invariant]
    closed spec fn wf(&self) -> bool {
        engine::regex_source(self.re) == self.source@ && self.names.deep_view() == spec_names_of(
            engine::regex_group_names(self.source@),
        )
    }

    /// Wraps an already compiled matcher, reading its name table off the
    /// matcher itself. The matcher is expected to have been built with the
    /// engine's default configuration, the only kind this library builds:
    /// the contracts describe a pattern by its source alone, which a matcher
    /// built with non-default options (say, case-insensitivity) would not
    /// honour.
    pub fn new(re: regex::Regex) -> (r: Pattern)
        ensures
            r@.source == engine::regex_source(re),
            r@.names == spec_names_of(engine::regex_group_names(engine::regex_source(re))),
    {
        let source: String = engine::regex_as_str(&re).to_owned();
        let groups = engine::regex_capture_names(&re);
        let mut names: Vec<(String, usize)> = Vec::new();
        let mut i: usize = 0;
        proof {
            assert(groups.deep_view().take(0) =~= Seq::<Option<Seq<char>>>::empty());
        }
        while i < groups.len()
            invariant
                i <= groups@.len(),
                groups.deep_view().len() == groups@.len(),
                names.deep_view() == spec_names_of(groups.deep_view().take(i as int)),
            decreases groups@.len() - i,
        {
            let ghost pre = groups.deep_view().take(i as int);
            proof {
                assert(groups.deep_view().take(i + 1).drop_last() =~= pre);
                assert(groups.deep_view().take(i + 1).last() == groups@[i as int].deep_view());
            }
            match &groups[i] {
                Some(n) => {
                    let ghost old_names = names.deep_view();
                    names.push((n.clone(), i));
                    proof {
                        assert(names.deep_view() =~= old_names.push((n@, i as usize)));
                    }
                },
                None => {},
            }
            i = i + 1;
        }
        proof {
            assert(groups.deep_view().take(groups@.len() as int) =~= groups.deep_view());
        }
        Pattern { re, source, names }
    }

    /// Compiles a path template; it succeeds exactly when the engine accepts
    /// the compiled source, and a template whose custom sub-pattern the
    /// engine rejects is a fatal configuration error.
    pub fn from_str(pattern: &str) -> (r: Result<Pattern, PatternError>)
        ensures
            r matches Ok(p) ==> p@.source == spec_parse(pattern@) && p@.names == spec_names_of(
                engine::regex_group_names(spec_parse(pattern@)),
            ),
            r is Ok <==> engine::regex_compiles(spec_parse(pattern@)),
    {
        let source = parse(pattern);
        match engine::regex_new(source.as_str()) {
            Ok(re) => Ok(Pattern::new(re)),
            Err(e) => Err(e),
        }
    }

    /// The matcher source this pattern was compiled from.
    pub fn as_str(&self) -> (r: &str)
        ensures
            r@ == self@.source,
    {
        self.source.as_str()
    }

    /// Whether the pattern matches the given path.
    pub fn is_match(&self, text: &str) -> (r: bool)
        ensures
            r == engine::regex_accepts(self@.source, text@),
    {
        proof {
            use_type_invariant(self);
        }
        engine::regex_is_match(&self.re, text)
    }

    /// Re-applies the pattern to a matched path and hands out the captured
    /// parameters; yields nothing exactly when the pattern does not match.
    pub fn parameters(&self, text: &str) -> (r: Option<Parameters>)
        ensures
            match r {
                Some(p) => engine::regex_accepts(self@.source, text@) && p@.text == text@
                    && p@.captures == engine::regex_captures_of(self@.source, text@) && p@.names
                    == self@.names,
                None => !engine::regex_accepts(self@.source, text@),
            },
    {
        proof {
            use_type_invariant(self);
        }
        match engine::regex_captures(&self.re, text) {
            Some(groups) => Some(
                Parameters::new(clone_names(&self.names), text.to_owned(), groups),
            ),
            None => None,
        }
    }
}

/// A deep copy of a name table.
fn clone_names(names: &Vec<(String, usize)>) -> (r: Vec<(String, usize)>)
    ensures
        r.deep_view() == names.deep_view(),
{
    let mut r: Vec<(String, usize)> = Vec::new();
    let mut i: usize = 0;
    while i < names.len()
        invariant
            i <= names@.len(),
            r@.len() == i,
            forall|k: int|
                0 <= k < i ==> (#[trigger] r@[k]).0@ == names@[k].0@ && r@[k].1 == names@[k].1,
        decreases names@.len() - i,
    {
        let entry = &names[i];
        let cloned = (entry.0.clone(), entry.1);
        r.push(cloned);
        i = i + 1;
    }
    proof {
        assert forall|k: int| 0 <= k < r@.len() implies r.deep_view()[k] == names.deep_view()[k] by {
            assert(r.deep_view()[k] == (r@[k].0@, r@[k].1));
            assert(names.deep_view()[k] == (names@[k].0@, names@[k].1));
        }
        assert(r.deep_view() =~= names.deep_view());
    }
    r
}

/// The compiler's scanning state: the matcher source built so far, whether
/// the scanner stands inside a `{...}` parameter segment, whether it has
/// passed the `:` of a custom sub-pattern, and the parameter name and
/// sub-pattern collected so far.
pub struct ParseState {
    pub out: Seq<char>,
    pub in_param: bool,
    pub in_pattern: bool,
    pub name: Seq<char>,
    pub pat: Seq<char>,
}

/// The capture for a `{name}` parameter: one or more non-slash characters.
pub open spec fn default_capture() -> Seq<char> {
    "[^/]+"@
}

/// The scanner starts with the matcher anchored at a leading slash.
pub open spec fn init_parse_state() -> ParseState {
    ParseState {
        out: "^/"@,
        in_param: false,
        in_pattern: false,
        name: Seq::empty(),
        pat: default_capture(),
    }
}

/// The matcher source of one named capture group.
pub open spec fn group_source(name: Seq<char>, pat: Seq<char>) -> Seq<char> {
    "(?P<"@ + name + ">"@ + pat + ")"@
}

/// One step of the template scanner.
pub open spec fn parse_step(st: ParseState, c: char) -> ParseState {
    if st.in_param {
        if c == '}' {
            ParseState {
                out: st.out + group_source(st.name, st.pat),
                in_param: false,
                in_pattern: false,
                name: Seq::empty(),
                pat: default_capture(),
            }
        } else if c == ':' {
            ParseState { in_pattern: true, pat: Seq::empty(), ..st }
        } else if st.in_pattern {
            if c == ' ' && st.pat.len() == 0 {
                st
            } else {
                ParseState { pat: st.pat.push(c), ..st }
            }
        } else {
            ParseState { name: st.name.push(c), ..st }
        }
    } else if c == '{' {
        ParseState { in_param: true, ..st }
    } else {
        ParseState { out: st.out.push(c), ..st }
    }
}

/// The scanner folded over a character sequence.
pub open spec fn parse_chars(st: ParseState, s: Seq<char>) -> ParseState
    decreases s.len(),
{
    if s.len() == 0 {
        st
    } else {
        parse_step(parse_chars(st, s.drop_last()), s.last())
    }
}

/// The matcher source compiled from a template: an optional leading slash is
/// absorbed into the anchor, the rest is scanned, and the result is anchored
/// at the end of the path.
pub open spec fn spec_parse(s: Seq<char>) -> Seq<char> {
    let body = if s.len() > 0 && s[0] == '/' {
        s.drop_first()
    } else {
        s
    };
    parse_chars(init_parse_state(), body).out.push('$')
}

/// Compiles a path template into an anchored matcher source.
///
/// Every colon inside a parameter segment starts the custom sub-pattern
/// afresh: in `{x: a:b}` only `b` survives as the capture's sub-pattern, so
/// a custom sub-pattern cannot itself contain a colon (`{f: (?:a|b)}` does
/// not embed the non-capturing group). The tests pin this behaviour.
pub fn parse(pattern: &str) -> (r: String)
    ensures
        r@ == spec_parse(pattern@),
{
    let chars = chars_of(pattern);
    let n = chars.len();
    let start: usize = if n > 0 && chars[0] == '/' {
        1
    } else {
        0
    };
    let ghost body = pattern@.skip(start as int);
    proof {
        if pattern@.len() > 0 && pattern@[0] == '/' {
            assert(body =~= pattern@.drop_first());
        } else {
            assert(body =~= pattern@);
        }
    }
    let mut out: String = "^/".to_owned();
    let mut in_param = false;
    let mut in_pattern = false;
    let mut name = String::new();
    let mut pat: String = "[^/]+".to_owned();
    let mut i: usize = start;
    while i < n
        invariant
            start <= i <= n,
            n == chars@.len(),
            chars@ == pattern@,
            body == pattern@.skip(start as int),
            body == (if pattern@.len() > 0 && pattern@[0] == '/' {
                pattern@.drop_first()
            } else {
                pattern@
            }),
            ({
                let st = parse_chars(init_parse_state(), body.take(i - start));
                out@ == st.out && in_param == st.in_param && in_pattern == st.in_pattern && name@
                    == st.name && pat@ == st.pat
            }),
        decreases n - i,
    {
        let ghost st = parse_chars(init_parse_state(), body.take(i - start));
        let c = chars[i];
        proof {
            assert(body.take(i + 1 - start).drop_last() =~= body.take(i - start));
            assert(body.take(i + 1 - start).last() == c);
            assert(parse_chars(init_parse_state(), body.take(i + 1 - start)) == parse_step(st, c));
        }
        if in_param {
            if c == '}' {
                let ghost out0 = out@;
                out.append("(?P<");
                out.append(name.as_str());
                out.append(">");
                out.append(pat.as_str());
                out.append(")");
                name = String::new();
                pat = "[^/]+".to_owned();
                in_pattern = false;
                in_param = false;
                proof {
                    assert(out@ =~= out0 + group_source(st.name, st.pat));
                }
            } else if c == ':' {
                in_pattern = true;
                pat = String::new();
            } else if in_pattern {
                if !(c == ' ' && pat.as_str().is_empty()) {
                    push_char(&mut pat, c);
                }
            } else {
                push_char(&mut name, c);
            }
        } else if c == '{' {
            in_param = true;
        } else {
            push_char(&mut out, c);
        }
        i = i + 1;
    }
    proof {
        assert(body.take(n - start) =~= body);
    }
    push_char(&mut out, '$');
    out
}

/// The characters `str::trim` removes at either end.
pub open spec fn spec_is_space(c: char) -> bool {
    c == ' ' || c == '\t' || c == '\n' || c == '\r' || c == '\u{b}' || c == '\u{c}' || c == '\u{85}'
        || c == '\u{a0}' || c == '\u{1680}' || ('\u{2000}' <= c && c <= '\u{200a}') || c
        == '\u{2028}' || c == '\u{2029}' || c == '\u{202f}' || c == '\u{205f}' || c == '\u{3000}'
}

pub open spec fn spec_trim_start(s: Seq<char>) -> Seq<char>
    decreases s.len(),
{
    if s.len() > 0 && spec_is_space(s[0]) {
        spec_trim_start(s.drop_first())
    } else {
        s
    }
}

pub open spec fn spec_trim_end(s: Seq<char>) -> Seq<char>
    decreases s.len(),
{
    if s.len() > 0 && spec_is_space(s.last()) {
        spec_trim_end(s.drop_last())
    } else {
        s
    }
}

pub open spec fn spec_strip_start(s: Seq<char>, c: char) -> Seq<char>
    decreases s.len(),
{
    if s.len() > 0 && s[0] == c {
        spec_strip_start(s.drop_first(), c)
    } else {
        s
    }
}

pub open spec fn spec_strip_end(s: Seq<char>, c: char) -> Seq<char>
    decreases s.len(),
{
    if s.len() > 0 && s.last() == c {
        spec_strip_end(s.drop_last(), c)
    } else {
        s
    }
}

/// What `normalize_pattern` yields: the empty template is the match-anything
/// fallback and stays empty; otherwise surrounding whitespace, old anchors
/// and trailing slashes are shed, and what remains is re-anchored with an
/// optional trailing slash (the bare root becoming `^/$`).
pub open spec fn spec_normalize(s: Seq<char>) -> Seq<char> {
    if s.len() == 0 {
        Seq::empty()
    } else {
        let t = spec_strip_end(
            spec_strip_end(spec_strip_start(spec_trim_end(spec_trim_start(s)), '^'), '$'),
            '/',
        );
        if t.len() == 0 {
            "^/$"@
        } else {
            "^"@ + t + "/?$"@
        }
    }
}

fn is_space_char(c: char) -> (r: bool)
    ensures
        r == spec_is_space(c),
{
    c == ' ' || c == '\t' || c == '\n' || c == '\r' || c == '\u{b}' || c == '\u{c}' || c == '\u{85}'
        || c == '\u{a0}' || c == '\u{1680}' || (c >= '\u{2000}' && c <= '\u{200a}') || c
        == '\u{2028}' || c == '\u{2029}' || c == '\u{202f}' || c == '\u{205f}' || c == '\u{3000}'
}

/// Normalizes a plain matcher source the lenient way: both `/path/to` and
/// `/path/to/` become `^/path/to/?$`.
pub fn normalize_pattern(pattern: &str) -> (r: String)
    ensures
        r@ == spec_normalize(pattern@),
{
    let chars = chars_of(pattern);
    if chars.len() == 0 {
        return String::new();
    }
    let ghost s = pattern@;
    let mut lo: usize = 0;
    let mut hi: usize = chars.len();
    proof {
        assert(s.subrange(0, s.len() as int) =~= s);
    }
    while lo < hi && is_space_char(chars[lo])
        invariant
            0 <= lo <= hi,
            hi == chars@.len(),
            chars@ == s,
            spec_trim_start(s) == spec_trim_start(s.subrange(lo as int, hi as int)),
        decreases hi - lo,
    {
        proof {
            assert(s.subrange(lo as int, hi as int).drop_first() =~= s.subrange(
                lo + 1,
                hi as int,
            ));
        }
        lo = lo + 1;
    }
    let ghost t1 = s.subrange(lo as int, hi as int);
    proof {
        assert(spec_trim_start(s) == t1);
    }
    while hi > lo && is_space_char(chars[hi - 1])
        invariant
            0 <= lo <= hi <= chars@.len(),
            chars@ == s,
            spec_trim_end(t1) == spec_trim_end(s.subrange(lo as int, hi as int)),
        decreases hi,
    {
        proof {
            assert(s.subrange(lo as int, hi as int).drop_last() =~= s.subrange(
                lo as int,
                hi - 1,
            ));
        }
        hi = hi - 1;
    }
    let ghost t2 = s.subrange(lo as int, hi as int);
    proof {
        assert(spec_trim_end(t1) == t2);
    }
    while lo < hi && chars[lo] == '^'
        invariant
            0 <= lo <= hi <= chars@.len(),
            chars@ == s,
            spec_strip_start(t2, '^') == spec_strip_start(s.subrange(lo as int, hi as int), '^'),
        decreases hi - lo,
    {
        proof {
            assert(s.subrange(lo as int, hi as int).drop_first() =~= s.subrange(
                lo + 1,
                hi as int,
            ));
        }
        lo = lo + 1;
    }
    let ghost t3 = s.subrange(lo as int, hi as int);
    proof {
        assert(spec_strip_start(t2, '^') == t3);
    }
    while hi > lo && chars[hi - 1] == '$'
        invariant
            0 <= lo <= hi <= chars@.len(),
            chars@ == s,
            spec_strip_end(t3, '$') == spec_strip_end(s.subrange(lo as int, hi as int), '$'),
        decreases hi,
    {
        proof {
            assert(s.subrange(lo as int, hi as int).drop_last() =~= s.subrange(
                lo as int,
                hi - 1,
            ));
        }
        hi = hi - 1;
    }
    let ghost t4 = s.subrange(lo as int, hi as int);
    proof {
        assert(spec_strip_end(t3, '$') == t4);
    }
    while hi > lo && chars[hi - 1] == '/'
        invariant
            0 <= lo <= hi <= chars@.len(),
            chars@ == s,
            spec_strip_end(t4, '/') == spec_strip_end(s.subrange(lo as int, hi as int), '/'),
        decreases hi,
    {
        proof {
            assert(s.subrange(lo as int, hi as int).drop_last() =~= s.subrange(
                lo as int,
                hi - 1,
            ));
        }
        hi = hi - 1;
    }
    let ghost t5 = s.subrange(lo as int, hi as int);
    proof {
        assert(spec_strip_end(t4, '/') == t5);
    }
    if lo == hi {
        proof {
            assert(t5.len() == 0);
        }
        return "^/$".to_owned();
    }
    let mut out: String = "^".to_owned();
    let mut i: usize = lo;
    while i < hi
        invariant
            lo <= i <= hi <= chars@.len(),
            chars@ == s,
            out@ == "^"@ + s.subrange(lo as int, i as int),
        decreases hi - i,
    {
        push_char(&mut out, chars[i]);
        i = i + 1;
        proof {
            assert(out@ =~= "^"@ + s.subrange(lo as int, i as int));
        }
    }
    out.append("/?$");
    proof {
        assert(out@ =~= "^"@ + t5 + "/?$"@);
    }
    out
}

} // verus!

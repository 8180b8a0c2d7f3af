//! Test-fixture directive scanner.
//!
//! Fixture files for the compiler's test suite carry configuration in
//! comment lines of the form `// <directive> <value>`, optionally scoped to
//! one revision with a leading `//[revision]` marker. This module scans a
//! fixture's text and collects those directives into [`TestProps`]. A line
//! `revisions: a b c` (outside any revision scope, first occurrence only)
//! declares the file's valid revision names.
//!
//! Malformed fixtures are surfaced, not recovered from: an unterminated
//! revision marker and a `no-` negation on a value-bearing directive are
//! reported as [`HeaderError`]s, and the invoking tool aborts on them.

use vstd::prelude::*;
use crate::strutil::{
    find_char, find_char_spec, is_ws, is_ws_char, lemma_find_char_spec, str_eq, str_starts_with,
    trim_start, trim_start_spec,
};

verus! {

/// A fatal error in a fixture's directive lines.
#[derive(Clone, Copy, Debug, PartialEq, Eq, Structural)]
pub enum HeaderError {
    /// A revision-scope marker `//[foo` with no closing `]`.
    UnterminatedRevision,
    /// A `no-` negation prefix on a directive that takes a value.
    NegativeValueDirective,
}

/// One expected-diagnostic record of a fixture.
///
/// Produced by the diagnostics loader, a collaborator outside this module;
/// the scanner only carries the list.
#[derive(Clone, Debug)]
pub struct ExpectedError {
    pub line: usize,
    pub message: String,
}

/// The view of an optional string slice.
pub open spec fn opt_str_view(o: Option<&str>) -> Option<Seq<char>> {
    match o {
        Some(s) => Some(s@),
        None => None,
    }
}

/// The view of an optional owned string.
pub open spec fn opt_string_view(o: Option<String>) -> Option<Seq<char>> {
    match o {
        Some(s) => Some(s@),
        None => None,
    }
}

/// A character that may stand inside a directive word:
/// letters, digits, `-` and `_`.
pub open spec fn is_word(c: char) -> bool {
    ('a' <= c && c <= 'z') || ('A' <= c && c <= 'Z') || ('0' <= c && c <= '9') || c == '-' || c
        == '_'
}

/// Executable check for [`is_word`].
pub fn is_word_char(c: char) -> (r: bool)
    ensures
        r == is_word(c),
{
    ('a' <= c && c <= 'z') || ('A' <= c && c <= 'Z') || ('0' <= c && c <= '9') || c == '-' || c
        == '_'
}

/// Where the next word starts: the index of the first non-whitespace
/// character, provided it is a word character. A leading non-word,
/// non-whitespace character means no word can be read here.
pub open spec fn word_start_spec(s: Seq<char>) -> Option<int>
    decreases s.len(),
{
    if s.len() == 0 {
        None
    } else if is_ws(s[0]) {
        match word_start_spec(s.skip(1)) {
            Some(k) => Some(k + 1),
            None => None,
        }
    } else if is_word(s[0]) {
        Some(0)
    } else {
        None
    }
}

/// The length of the leading run of word characters.
pub open spec fn word_run_spec(s: Seq<char>) -> nat
    decreases s.len(),
{
    if s.len() > 0 && is_word(s[0]) {
        1 + word_run_spec(s.skip(1))
    } else {
        0
    }
}

/// The bounds of the next word: its start index and the index one past its
/// last character.
pub open spec fn next_word_spec(s: Seq<char>) -> Option<(int, int)> {
    match word_start_spec(s) {
        Some(st) => Some((st, st + word_run_spec(s.skip(st)))),
        None => None,
    }
}

/// A witness scan pins [`word_start_spec`] down: if everything before `i` is
/// whitespace and `i` is the first non-whitespace position (or the end),
/// the word start is `i` exactly when a word character stands there.
pub proof fn lemma_word_start_at(s: Seq<char>, i: int)
    requires
        0 <= i <= s.len(),
        forall|j: int| 0 <= j < i ==> is_ws(s[j]),
        i == s.len() || !is_ws(s[i]),
    ensures
        word_start_spec(s) == (if i < s.len() && is_word(s[i]) {
            Some(i)
        } else {
            None::<int>
        }),
    decreases i,
{
    if i > 0 {
        lemma_word_start_at(s.skip(1), i - 1);
        assert(s.skip(1).len() == s.len() - 1);
        if i < s.len() {
            assert(s.skip(1)[i - 1] == s[i]);
        }
    }
}

/// A witness scan pins [`word_run_spec`] down: if the first `i` characters
/// are word characters and the character at `i` (if any) is not, the run has
/// length `i`.
pub proof fn lemma_word_run_at(s: Seq<char>, i: int)
    requires
        0 <= i <= s.len(),
        forall|j: int| 0 <= j < i ==> is_word(s[j]),
        i == s.len() || !is_word(s[i]),
    ensures
        word_run_spec(s) == i,
    decreases i,
{
    if i > 0 {
        lemma_word_run_at(s.skip(1), i - 1);
        assert(forall|j: int| 0 <= j < s.skip(1).len() ==> s.skip(1)[j] == s[j + 1]);
    }
}

/// One scanned directive: whether it carried a `no-` negation prefix, and
/// which directive keyword it named.
#[derive(Clone, Copy, Debug, PartialEq, Eq, Structural)]
pub struct TestDirective {
    pub negative: bool,
    pub kind: DirectiveKind,
}

impl TestDirective {
    /// The directive that no recognized keyword produced: a no-op.
    pub fn dummy() -> (r: Self)
        ensures
            r == (TestDirective { negative: false, kind: DirectiveKind::Dummy }),
    {
        TestDirective { negative: false, kind: DirectiveKind::Dummy }
    }
}

/// The recognized directive keywords.
#[derive(Clone, Copy, Debug, PartialEq, Eq, Structural)]
pub enum DirectiveKind {
    /// An unrecognized leading word: the line is a no-op directive.
    Dummy,
    /// `evm-version <value>`: a platform-version override.
    EvmVersion,
}

impl DirectiveKind {
    /// Maps a directive keyword to its kind; any other word maps to `None`.
    pub fn from_str_(s: &str) -> (r: Option<DirectiveKind>)
        ensures
            r == (if s@ == "evm-version"@ {
                Some(DirectiveKind::EvmVersion)
            } else {
                None::<DirectiveKind>
            }),
    {
        if str_eq(s, "evm-version") {
            Some(DirectiveKind::EvmVersion)
        } else {
            None
        }
    }
}

/// What [`DirectiveParser::parse_directive`] leaves behind: the rest of the
/// line after a recognized keyword (the line unchanged otherwise), and the
/// directive that was read.
pub open spec fn parse_directive_spec(line: Seq<char>, dir: TestDirective) -> (
    Seq<char>,
    TestDirective,
) {
    match next_word_spec(line) {
        None => (line, dir),
        Some((st, en)) => {
            let w = line.subrange(st, en);
            let neg = "no-"@.is_prefix_of(w);
            let w2 = if neg {
                w.skip(3)
            } else {
                w
            };
            if w2 == "evm-version"@ {
                (line.skip(en), TestDirective { negative: neg, kind: DirectiveKind::EvmVersion })
            } else {
                (line, dir)
            }
        },
    }
}

/// What [`DirectiveParser::word_value`] yields: the negation prefix is
/// fatal on a value-bearing directive; otherwise the next word on the line
/// becomes the value, and a line with no word to read leaves the previous
/// value standing.
pub open spec fn word_value_spec(
    line: Seq<char>,
    dir: TestDirective,
    prev: Option<Seq<char>>,
) -> Result<Option<Seq<char>>, HeaderError> {
    if dir.negative {
        Err(HeaderError::NegativeValueDirective)
    } else {
        match next_word_spec(line) {
            None => Ok(prev),
            Some((st, en)) => Ok(Some(line.subrange(st, en))),
        }
    }
}

/// A cursor over one directive line.
pub struct DirectiveParser<'a> {
    pub line: &'a str,
    pub directive: TestDirective,
}

impl<'a> DirectiveParser<'a> {
    /// Starts a cursor at the beginning of a line, with no directive read.
    pub fn new(line: &'a str) -> (r: Self)
        ensures
            r.line@ == line@,
            r.directive == (TestDirective { negative: false, kind: DirectiveKind::Dummy }),
    {
        DirectiveParser { line, directive: TestDirective::dummy() }
    }

    /// The bounds of the next word on the line: start index and one past the
    /// end, or `(None, None)` if no word can be read.
    pub fn next_word_idx(&self) -> (r: (Option<usize>, Option<usize>))
        ensures
            match next_word_spec(self.line@) {
                Some(p) => {
                    &&& r.0 matches Some(a) && a as int == p.0
                    &&& r.1 matches Some(b) && b as int == p.1
                },
                None => r.0 is None && r.1 is None,
            },
    {
        let s = self.line;
        let len = s.unicode_len();
        let mut i: usize = 0;
        while i < len && is_ws_char(s.get_char(i))
            invariant
                i <= len,
                len == s@.len(),
                forall|j: int| 0 <= j < i ==> is_ws(s@[j]),
            decreases len - i,
        {
            i = i + 1;
        }
        proof {
            lemma_word_start_at(s@, i as int);
        }
        if i == len || !is_word_char(s.get_char(i)) {
            return (None, None);
        }
        let start = i;
        let mut e: usize = start;
        while e < len && is_word_char(s.get_char(e))
            invariant
                start <= e <= len,
                len == s@.len(),
                forall|j: int| start <= j < e ==> is_word(s@[j]),
            decreases len - e,
        {
            e = e + 1;
        }
        proof {
            let suffix = s@.skip(start as int);
            assert(forall|j: int| 0 <= j < suffix.len() ==> suffix[j] == s@[j + start]);
            lemma_word_run_at(suffix, e - start);
        }
        (Some(start), Some(e))
    }

    /// Reads the leading word; if (after an optional `no-` prefix) it names
    /// a recognized directive, records it and advances past the word.
    /// Anything else leaves the cursor unchanged on a no-op directive.
    pub fn parse_directive(&mut self)
        ensures
            final(self).line@ == parse_directive_spec(old(self).line@, old(self).directive).0,
            final(self).directive == parse_directive_spec(old(self).line@, old(self).directive).1,
    {
        let (start_opt, end_opt) = self.next_word_idx();
        let (start, end) = match (start_opt, end_opt) {
            (Some(start), Some(end)) => (start, end),
            _ => {
                return ;
            },
        };
        let len = self.line.unicode_len();
        proof {
            lemma_next_word_bounds(self.line@);
        }
        let mut word = self.line.substring_char(start, end);
        let negative = str_starts_with(word, "no-");
        if negative {
            proof {
                reveal_strlit("no-");
            }
            let wlen = word.unicode_len();
            word = word.substring_char(3, wlen);
        }
        match DirectiveKind::from_str_(word) {
            Some(kind) => {
                self.line = self.line.substring_char(end, len);
                self.directive = TestDirective { negative, kind };
            },
            None => {},
        }
    }

    /// Reads the word value of the current directive into `value`. A `no-`
    /// negation on a value-bearing directive is fatal; a line with no word
    /// to read leaves `value` standing.
    pub fn word_value(&mut self, value: &mut Option<String>) -> (r: Result<(), HeaderError>)
        ensures
            *final(self) == *old(self),
            match word_value_spec(old(self).line@, old(self).directive, opt_string_view(*old(value))) {
                Ok(v) => r is Ok && opt_string_view(*final(value)) == v,
                Err(e) => r == Err::<(), HeaderError>(e) && *final(value) == *old(value),
            },
    {
        let negative_check = self.expect_no_negative();
        if let Err(e) = negative_check {
            return Err(e);
        }
        let (start_opt, end_opt) = self.next_word_idx();
        match (start_opt, end_opt) {
            (Some(start), Some(end)) => {
                proof {
                    lemma_next_word_bounds(self.line@);
                }
                let word = self.line.substring_char(start, end);
                *value = Some(word.to_owned());
                Ok(())
            },
            _ => Ok(()),
        }
    }

    /// Fails exactly when the current directive carries a negation prefix.
    pub fn expect_no_negative(&self) -> (r: Result<(), HeaderError>)
        ensures
            r is Ok <==> !self.directive.negative,
            r is Err ==> r == Err::<(), HeaderError>(HeaderError::NegativeValueDirective),
    {
        if self.directive.negative {
            Err(HeaderError::NegativeValueDirective)
        } else {
            Ok(())
        }
    }
}

/// The bounds [`next_word_spec`] yields lie inside the sequence, and the
/// word is non-empty.
pub proof fn lemma_next_word_bounds(s: Seq<char>)
    ensures
        next_word_spec(s) matches Some(p) ==> 0 <= p.0 < p.1 <= s.len(),
{
    lemma_word_start_spec(s);
    match word_start_spec(s) {
        Some(st) => {
            lemma_word_run_le(s.skip(st));
            assert(s.skip(st)[0] == s[st]);
            assert(word_run_spec(s.skip(st)) >= 1);
        },
        None => {},
    }
}

/// What [`word_start_spec`] returns: an in-bounds index of a word character
/// with only whitespace before it.
pub proof fn lemma_word_start_spec(s: Seq<char>)
    ensures
        word_start_spec(s) matches Some(st) ==> 0 <= st < s.len() && is_word(s[st]) && (forall|
            j: int,
        | 0 <= j < st ==> is_ws(s[j])),
    decreases s.len(),
{
    if s.len() > 0 && is_ws(s[0]) {
        lemma_word_start_spec(s.skip(1));
        match word_start_spec(s.skip(1)) {
            Some(k) => {
                assert(s.skip(1)[k] == s[k + 1]);
                assert forall|j: int| 0 <= j < k + 1 implies is_ws(s[j]) by {
                    if j > 0 {
                        assert(s.skip(1)[j - 1] == s[j]);
                    }
                }
            },
            None => {},
        }
    }
}

/// The leading word run is no longer than the sequence.
pub proof fn lemma_word_run_le(s: Seq<char>)
    ensures
        word_run_spec(s) <= s.len(),
    decreases s.len(),
{
    if s.len() > 0 && is_word(s[0]) {
        lemma_word_run_le(s.skip(1));
    }
}

/// What one line contributes: `Ok(None)` for a non-comment line; otherwise
/// the optional revision name of a `//[revision]` marker and the directive
/// text after the comment prefix, both trimmed. A marker with no closing
/// `]` is fatal.
pub open spec fn line_directive_spec(comment: Seq<char>, ln: Seq<char>) -> Result<
    Option<(Option<Seq<char>>, Seq<char>)>,
    HeaderError,
> {
    let t = trim_start_spec(ln);
    if comment.is_prefix_of(t) {
        let after = trim_start_spec(t.skip(comment.len() as int));
        if after.len() > 0 && after[0] == '[' {
            match find_char_spec(after, ']') {
                None => Err(HeaderError::UnterminatedRevision),
                Some(close) => Ok(
                    Some(
                        (
                            Some(after.subrange(1, close)),
                            trim_start_spec(after.skip(close + 1)),
                        ),
                    ),
                ),
            }
        } else {
            Ok(Some((None, after)))
        }
    } else {
        Ok(None)
    }
}

/// A line with its trailing carriage return removed, as the line splitter
/// yields it.
pub open spec fn strip_cr_spec(l: Seq<char>) -> Seq<char> {
    if l.len() > 0 && l[l.len() - 1] == '\r' {
        l.drop_last()
    } else {
        l
    }
}

/// The lines of a text: maximal `'\n'`-free runs, each with a trailing
/// carriage return removed; a trailing newline does not open a final empty
/// line.
pub open spec fn lines_spec(s: Seq<char>) -> Seq<Seq<char>>
    decreases s.len() via lines_spec_dec
{
    if s.len() == 0 {
        Seq::empty()
    } else {
        match find_char_spec(s, '\n') {
            None => seq![strip_cr_spec(s)],
            Some(i) => seq![strip_cr_spec(s.take(i))] + lines_spec(s.skip(i + 1)),
        }
    }
}

#[via_fn]
proof fn lines_spec_dec(s: Seq<char>) {
    lemma_find_char_spec(s, '\n');
}

/// What one line contributes to the scan for a platform-version override:
/// a non-comment line and a line scoped to another revision change nothing;
/// a recognized `evm-version` directive replaces the accumulated value.
pub open spec fn line_step_spec(
    line: Seq<char>,
    cfg: Option<Seq<char>>,
    acc: Option<Seq<char>>,
) -> Result<Option<Seq<char>>, HeaderError> {
    match line_directive_spec("//"@, line) {
        Err(e) => Err(e),
        Ok(None) => Ok(acc),
        Ok(Some(p)) => {
            if p.0 is Some && p.0 != cfg {
                Ok(acc)
            } else {
                let pd = parse_directive_spec(
                    p.1,
                    TestDirective { negative: false, kind: DirectiveKind::Dummy },
                );
                match pd.1.kind {
                    DirectiveKind::Dummy => Ok(acc),
                    DirectiveKind::EvmVersion => word_value_spec(pd.0, pd.1, acc),
                }
            }
        },
    }
}

/// The scan folded over a run of lines, from an accumulated value.
pub open spec fn scan_lines_spec(
    ls: Seq<Seq<char>>,
    cfg: Option<Seq<char>>,
    acc: Option<Seq<char>>,
) -> Result<Option<Seq<char>>, HeaderError>
    decreases ls.len(),
{
    if ls.len() == 0 {
        Ok(acc)
    } else {
        match line_step_spec(ls[0], cfg, acc) {
            Err(e) => Err(e),
            Ok(a2) => scan_lines_spec(ls.skip(1), cfg, a2),
        }
    }
}

/// The platform-version override a fixture's text yields under an optional
/// revision name: the value of the last applicable `evm-version` directive,
/// or the fatal error the scan runs into.
pub open spec fn evm_version_of(file: Seq<char>, cfg: Option<Seq<char>>) -> Result<
    Option<Seq<char>>,
    HeaderError,
> {
    scan_lines_spec(lines_spec(file), cfg, None)
}

/// Extracts a `(optional revision, directive)` pair from a line, if the
/// comment prefix is present.
pub fn line_directive<'l>(comment: &str, ln: &'l str) -> (r: Result<
    Option<(Option<&'l str>, &'l str)>,
    HeaderError,
>)
    ensures
        match r {
            Err(e) => line_directive_spec(comment@, ln@) == Err::<
                Option<(Option<Seq<char>>, Seq<char>)>,
                HeaderError,
            >(e),
            Ok(None) => line_directive_spec(comment@, ln@) == Ok::<
                Option<(Option<Seq<char>>, Seq<char>)>,
                HeaderError,
            >(None),
            Ok(Some(p)) => line_directive_spec(comment@, ln@) matches Ok(Some(q)) && q.1 == p.1@
                && (match p.0 {
                Some(rv) => q.0 matches Some(qv) && qv == rv@,
                None => q.0 is None,
            }),
        },
{
    let t = trim_start(ln);
    if !str_starts_with(t, comment) {
        return Ok(None);
    }
    let tlen = t.unicode_len();
    let clen = comment.unicode_len();
    let after = trim_start(t.substring_char(clen, tlen));
    proof {
        assert(t@.subrange(clen as int, tlen as int) =~= t@.skip(clen as int));
    }
    let alen = after.unicode_len();
    if alen > 0 && after.get_char(0) == '[' {
        match find_char(after, ']') {
            None => Err(HeaderError::UnterminatedRevision),
            Some(close) => {
                proof {
                    lemma_find_char_spec(after@, ']');
                }
                let rev = after.substring_char(1, close);
                let rest = trim_start(after.substring_char(close + 1, alen));
                proof {
                    assert(after@.subrange(close + 1, alen as int) =~= after@.skip(close + 1));
                }
                Ok(Some((Some(rev), rest)))
            },
        }
    } else {
        Ok(Some((None, after)))
    }
}

/// The length of the leading run of non-whitespace characters.
pub open spec fn token_run_spec(s: Seq<char>) -> nat
    decreases s.len(),
{
    if s.len() > 0 && !is_ws(s[0]) {
        1 + token_run_spec(s.skip(1))
    } else {
        0
    }
}

/// The leading token run is no longer than the sequence.
pub proof fn lemma_token_run_le(s: Seq<char>)
    ensures
        token_run_spec(s) <= s.len(),
    decreases s.len(),
{
    if s.len() > 0 && !is_ws(s[0]) {
        lemma_token_run_le(s.skip(1));
    }
}

/// A witness scan pins [`token_run_spec`] down: if the first `i` characters
/// are not whitespace and the character at `i` (if any) is, the run has
/// length `i`.
pub proof fn lemma_token_run_at(s: Seq<char>, i: int)
    requires
        0 <= i <= s.len(),
        forall|j: int| 0 <= j < i ==> !is_ws(s[j]),
        i == s.len() || is_ws(s[i]),
    ensures
        token_run_spec(s) == i,
    decreases i,
{
    if i > 0 {
        lemma_token_run_at(s.skip(1), i - 1);
        assert(forall|j: int| 0 <= j < s.skip(1).len() ==> s.skip(1)[j] == s[j + 1]);
    }
}

/// The whitespace-separated words of a sequence, in order.
pub open spec fn split_ws_spec(s: Seq<char>) -> Seq<Seq<char>>
    decreases s.len() via split_ws_spec_dec
{
    if s.len() == 0 {
        Seq::empty()
    } else if is_ws(s[0]) {
        split_ws_spec(s.skip(1))
    } else {
        let k = token_run_spec(s) as int;
        seq![s.take(k)] + split_ws_spec(s.skip(k))
    }
}

#[via_fn]
proof fn split_ws_spec_dec(s: Seq<char>) {
    if s.len() > 0 && !is_ws(s[0]) {
        lemma_token_run_le(s);
    }
}

/// Splits a string on ASCII whitespace and appends the words to `out`.
fn split_ws_push(s: &str, out: &mut Vec<String>)
    ensures
        final(out).deep_view() == old(out).deep_view() + split_ws_spec(s@),
{
    let len = s.unicode_len();
    let mut i: usize = 0;
    proof {
        assert(s@.skip(0) =~= s@);
    }
    while i < len
        invariant
            i <= len,
            len == s@.len(),
            out.deep_view() + split_ws_spec(s@.skip(i as int)) == old(out).deep_view()
                + split_ws_spec(s@),
        decreases len - i,
    {
        if is_ws_char(s.get_char(i)) {
            proof {
                assert(s@.skip(i as int).skip(1) =~= s@.skip(i + 1));
            }
            i = i + 1;
        } else {
            let start = i;
            let mut j: usize = i;
            while j < len && !is_ws_char(s.get_char(j))
                invariant
                    start <= j <= len,
                    len == s@.len(),
                    forall|k: int| start <= k < j ==> !is_ws(s@[k]),
                decreases len - j,
            {
                j = j + 1;
            }
            let word = s.substring_char(start, j);
            proof {
                let suffix = s@.skip(start as int);
                assert(forall|k: int| 0 <= k < suffix.len() ==> suffix[k] == s@[k + start]);
                lemma_token_run_at(suffix, j - start);
                assert(suffix.take(j - start) =~= s@.subrange(start as int, j as int));
                assert(suffix.skip(j - start) =~= s@.skip(j as int));
            }
            let ghost out_before = out.deep_view();
            out.push(word.to_owned());
            proof {
                assert(out.deep_view() =~= out_before + seq![word@]);
                assert(out_before + (seq![word@] + split_ws_spec(s@.skip(j as int)))
                    =~= (out_before + seq![word@]) + split_ws_spec(s@.skip(j as int)));
            }
            i = j;
        }
    }
    proof {
        assert(split_ws_spec(s@.skip(len as int)) =~= Seq::<Seq<char>>::empty());
        assert(out.deep_view() =~= out.deep_view() + Seq::<Seq<char>>::empty());
    }
}

/// What one line contributes to the revision list: only the first
/// `revisions:` line outside any revision scope adds its words; every other
/// line leaves the list standing.
pub open spec fn rev_line_step_spec(line: Seq<char>, acc: Seq<Seq<char>>) -> Result<
    Seq<Seq<char>>,
    HeaderError,
> {
    match line_directive_spec("//"@, line) {
        Err(e) => Err(e),
        Ok(None) => Ok(acc),
        Ok(Some(p)) => {
            if p.0 is Some || acc.len() > 0 || !"revisions:"@.is_prefix_of(p.1) {
                Ok(acc)
            } else {
                Ok(acc + split_ws_spec(p.1.skip("revisions:"@.len() as int)))
            }
        },
    }
}

/// The revision scan folded over a run of lines.
pub open spec fn rev_scan_spec(ls: Seq<Seq<char>>, acc: Seq<Seq<char>>) -> Result<
    Seq<Seq<char>>,
    HeaderError,
>
    decreases ls.len(),
{
    if ls.len() == 0 {
        Ok(acc)
    } else {
        match rev_line_step_spec(ls[0], acc) {
            Err(e) => Err(e),
            Ok(a2) => rev_scan_spec(ls.skip(1), a2),
        }
    }
}

/// The revision names a fixture's text declares: the words of its first
/// `revisions:` directive line outside any revision scope.
pub open spec fn revisions_of(file: Seq<char>) -> Result<Seq<Seq<char>>, HeaderError> {
    rev_scan_spec(lines_spec(file), Seq::empty())
}

/// Applies one line to the accumulated revision list.
fn process_rev_line(line: &str, revisions: &mut Vec<String>) -> (r: Result<(), HeaderError>)
    ensures
        match r {
            Ok(_) => rev_line_step_spec(line@, old(revisions).deep_view()) == Ok::<
                Seq<Seq<char>>,
                HeaderError,
            >(final(revisions).deep_view()),
            Err(e) => rev_line_step_spec(line@, old(revisions).deep_view()) == Err::<
                Seq<Seq<char>>,
                HeaderError,
            >(e) && final(revisions).deep_view() == old(revisions).deep_view(),
        },
{
    let ld = line_directive("//", line);
    match ld {
        Err(e) => Err(e),
        Ok(None) => Ok(()),
        Ok(Some((rev, ln))) => {
            if rev.is_some() {
                return Ok(());
            }
            if revisions.len() > 0 {
                proof {
                    assert(old(revisions).deep_view().len() == old(revisions)@.len());
                }
                return Ok(());
            }
            if !str_starts_with(ln, "revisions:") {
                return Ok(());
            }
            proof {
                reveal_strlit("revisions:");
                assert(old(revisions).deep_view().len() == old(revisions)@.len());
            }
            let lnlen = ln.unicode_len();
            let tail = ln.substring_char(10, lnlen);
            split_ws_push(tail, revisions);
            Ok(())
        },
    }
}

/// Applies one line to the accumulated platform-version override.
fn process_line(line: &str, cfg: Option<&str>, ev: &mut Option<String>) -> (r: Result<
    (),
    HeaderError,
>)
    ensures
        match r {
            Ok(_) => line_step_spec(line@, opt_str_view(cfg), opt_string_view(*old(ev))) == Ok::<
                Option<Seq<char>>,
                HeaderError,
            >(opt_string_view(*final(ev))),
            Err(e) => line_step_spec(line@, opt_str_view(cfg), opt_string_view(*old(ev))) == Err::<
                Option<Seq<char>>,
                HeaderError,
            >(e) && *final(ev) == *old(ev),
        },
{
    let ld = line_directive("//", line);
    match ld {
        Err(e) => Err(e),
        Ok(None) => Ok(()),
        Ok(Some((rev, ln))) => {
            let skip_line = match (rev, cfg) {
                (Some(r), Some(c)) => !str_eq(r, c),
                (Some(_), None) => true,
                (None, _) => false,
            };
            if skip_line {
                return Ok(());
            }
            let mut parser = DirectiveParser::new(ln);
            parser.parse_directive();
            match parser.directive.kind {
                DirectiveKind::Dummy => Ok(()),
                DirectiveKind::EvmVersion => parser.word_value(ev),
            }
        },
    }
}

/// Test-fixture directives, collected from one fixture's text.
#[derive(Debug)]
pub struct TestProps {
    /// Expected-diagnostic records, produced by the diagnostics loader (a
    /// collaborator outside this module); the scan leaves the list empty.
    pub expected_errors: Vec<ExpectedError>,
    /// Replacement pairs normalizing captured standard output.
    pub normalize_stdout: Vec<(String, String)>,
    /// Replacement pairs normalizing captured standard error.
    pub normalize_stderr: Vec<(String, String)>,
    /// Suppresses the comparison of captured standard output.
    pub dont_check_compiler_stdout: bool,
    /// Suppresses the comparison of captured standard error.
    pub dont_check_compiler_stderr: bool,
    /// Compares output line sets by subset rather than equality.
    pub compare_output_lines_by_subset: bool,
    /// The platform-version override, from the last applicable
    /// `evm-version` directive.
    pub evm_version: Option<String>,
}

impl TestProps {
    /// Every field other than the platform-version override holds its
    /// default: empty lists and unset flags.
    pub open spec fn base_fields_default(self) -> bool {
        &&& self.expected_errors@ == Seq::<ExpectedError>::empty()
        &&& self.normalize_stdout@ == Seq::<(String, String)>::empty()
        &&& self.normalize_stderr@ == Seq::<(String, String)>::empty()
        &&& self.dont_check_compiler_stdout == false
        &&& self.dont_check_compiler_stderr == false
        &&& self.compare_output_lines_by_subset == false
    }

    /// Creates the default `TestProps` instance.
    pub fn new() -> (r: Self)
        ensures
            r.base_fields_default(),
            r.evm_version is None,
    {
        let r = TestProps {
            expected_errors: Vec::new(),
            normalize_stdout: Vec::new(),
            normalize_stderr: Vec::new(),
            dont_check_compiler_stdout: false,
            dont_check_compiler_stderr: false,
            compare_output_lines_by_subset: false,
            evm_version: None,
        };
        proof {
            assert(r.expected_errors@ =~= Seq::<ExpectedError>::empty());
            assert(r.normalize_stdout@ =~= Seq::<(String, String)>::empty());
            assert(r.normalize_stderr@ =~= Seq::<(String, String)>::empty());
        }
        r
    }

    /// Loads the test properties from a fixture's text, under an optional
    /// revision name. Fatal directive errors are returned for the invoking
    /// tool to abort on.
    pub fn load(file: &str, cfg: Option<&str>) -> (r: Result<Self, HeaderError>)
        ensures
            match r {
                Ok(props) => props.base_fields_default() && evm_version_of(
                    file@,
                    opt_str_view(cfg),
                ) == Ok::<Option<Seq<char>>, HeaderError>(opt_string_view(props.evm_version)),
                Err(e) => evm_version_of(file@, opt_str_view(cfg)) == Err::<
                    Option<Seq<char>>,
                    HeaderError,
                >(e),
            },
    {
        let ghost cfgv = opt_str_view(cfg);
        let mut evm_version: Option<String> = None;
        let mut rest: &str = file;
        while rest.unicode_len() > 0
            invariant
                scan_lines_spec(lines_spec(file@), cfgv, None) == scan_lines_spec(
                    lines_spec(rest@),
                    cfgv,
                    opt_string_view(evm_version),
                ),
                cfgv == opt_str_view(cfg),
            decreases rest@.len(),
        {
            let ghost rv = rest@;
            let rlen = rest.unicode_len();
            let nl_opt = find_char(rest, '\n');
            proof {
                lemma_find_char_spec(rest@, '\n');
            }
            let (line_end, next_start) = match nl_opt {
                Some(i) => (i, i + 1),
                None => (rlen, rlen),
            };
            let mut line = rest.substring_char(0, line_end);
            let llen = line.unicode_len();
            if llen > 0 && line.get_char(llen - 1) == '\r' {
                line = line.substring_char(0, llen - 1);
            }
            let ghost ls_next = lines_spec(rest@.skip(next_start as int));
            proof {
                if nl_opt is None {
                    assert(rest@.take(line_end as int) =~= rest@);
                    assert(rest@.skip(next_start as int) =~= Seq::<char>::empty());
                }
                assert(line@ == strip_cr_spec(rest@.take(line_end as int)));
                assert(lines_spec(rest@) == seq![line@] + ls_next);
                assert((seq![line@] + ls_next)[0] == line@);
                assert((seq![line@] + ls_next).skip(1) =~= ls_next);
            }
            let step = process_line(line, cfg, &mut evm_version);
            if let Err(e) = step {
                return Err(e);
            }
            rest = rest.substring_char(next_start, rlen);
            proof {
                assert(rest@ =~= rv.skip(next_start as int));
            }
        }
        proof {
            assert(lines_spec(rest@) =~= Seq::<Seq<char>>::empty());
        }
        let mut props = TestProps::new();
        props.evm_version = evm_version;
        Ok(props)
    }

    /// Loads the test properties of a fixture in the reference compiler's
    /// own suite format. Only its expected-diagnostic records differ from
    /// the defaults, and those come from the diagnostics loader, a
    /// collaborator outside this module.
    pub fn load_solc(_file: &str, _cfg: Option<&str>) -> (r: Self)
        ensures
            r.base_fields_default(),
            r.evm_version is None,
    {
        Self::new()
    }

    /// Loads the revision names a fixture's text declares. The invoking
    /// tool reads the file and aborts on a fatal directive error.
    pub fn load_revisions(file: &str) -> (r: Result<Vec<String>, HeaderError>)
        ensures
            match r {
                Ok(revisions) => revisions_of(file@) == Ok::<Seq<Seq<char>>, HeaderError>(
                    revisions.deep_view(),
                ),
                Err(e) => revisions_of(file@) == Err::<Seq<Seq<char>>, HeaderError>(e),
            },
    {
        let mut revisions: Vec<String> = Vec::new();
        let mut rest: &str = file;
        proof {
            assert(revisions.deep_view() =~= Seq::<Seq<char>>::empty());
        }
        while rest.unicode_len() > 0
            invariant
                rev_scan_spec(lines_spec(file@), Seq::empty()) == rev_scan_spec(
                    lines_spec(rest@),
                    revisions.deep_view(),
                ),
            decreases rest@.len(),
        {
            let ghost rv = rest@;
            let rlen = rest.unicode_len();
            let nl_opt = find_char(rest, '\n');
            proof {
                lemma_find_char_spec(rest@, '\n');
            }
            let (line_end, next_start) = match nl_opt {
                Some(i) => (i, i + 1),
                None => (rlen, rlen),
            };
            let mut line = rest.substring_char(0, line_end);
            let llen = line.unicode_len();
            if llen > 0 && line.get_char(llen - 1) == '\r' {
                line = line.substring_char(0, llen - 1);
            }
            let ghost ls_next = lines_spec(rest@.skip(next_start as int));
            proof {
                if nl_opt is None {
                    assert(rest@.take(line_end as int) =~= rest@);
                    assert(rest@.skip(next_start as int) =~= Seq::<char>::empty());
                }
                assert(line@ == strip_cr_spec(rest@.take(line_end as int)));
                assert(lines_spec(rest@) == seq![line@] + ls_next);
                assert((seq![line@] + ls_next)[0] == line@);
                assert((seq![line@] + ls_next).skip(1) =~= ls_next);
            }
            let step = process_rev_line(line, &mut revisions);
            if let Err(e) = step {
                return Err(e);
            }
            rest = rest.substring_char(next_start, rlen);
            proof {
                assert(rest@ =~= rv.skip(next_start as int));
            }
        }
        proof {
            assert(lines_spec(rest@) =~= Seq::<Seq<char>>::empty());
        }
        Ok(revisions)
    }
}

impl Default for TestProps {
    /// The same instance as [`TestProps::new`].
    fn default() -> (r: Self)
        ensures
            r.base_fields_default(),
            r.evm_version is None,
    {
        Self::new()
    }
}

} // verus!

//! The command-line parser: a quote/escape tokenizer, escape decoding, and
//! the classification of tokens into the command, its named arguments and
//! its positional names, together with the byte serialization handed to a
//! started program.

use vstd::prelude::*;
use vstd::bytes::{spec_u64_to_le_bytes, u64_to_le_bytes};
use vstd::string::StrSliceExecFns;
use vstd::utf8::encode_utf8;

verus! {

/// A parsed command line: the executable path, the named arguments in first
/// appearance order with unique names, and the positional names.
#[derive(Debug)]
pub struct Command {
    pub command: String,
    pub args: Vec<(String, CommandArgument)>,
    pub names: Vec<String>,
}

/// A named argument: a bare flag or a name with a value.
#[derive(Debug, PartialEq, Eq)]
pub enum CommandArgument {
    Anonymous,
    Value(String),
}

/// Why a command line was rejected.
#[derive(Debug, Clone, Copy, PartialEq, Eq, Structural)]
pub enum CommandError {
    /// No token at all could be taken from the line. The tokenizer yields
    /// at least one token for every line, so this is never produced; see
    /// [`lemma_build_rejects_only_open_quotes`].
    ExecutablePathNotFound,
    /// A double or single quote was left open at the end of the line.
    MismatchedQuotes,
}

/// The mathematical value of a named argument.
pub enum ArgView {
    Anonymous,
    Value(Seq<char>),
}

impl View for CommandArgument {
    type V = ArgView;

    open spec fn view(&self) -> ArgView {
        match self {
            CommandArgument::Anonymous => ArgView::Anonymous,
            CommandArgument::Value(s) => ArgView::Value(s@),
        }
    }
}

/// The mathematical value of a parsed command line.
pub struct CommandView {
    pub command: Seq<char>,
    pub args: Seq<(Seq<char>, ArgView)>,
    pub names: Seq<Seq<char>>,
}

/// The mathematical value of an argument vector.
pub open spec fn args_view(args: Seq<(String, CommandArgument)>) -> Seq<(Seq<char>, ArgView)> {
    args.map(|i: int, p: (String, CommandArgument)| (p.0@, p.1@))
}

impl View for Command {
    type V = CommandView;

    open spec fn view(&self) -> CommandView {
        CommandView {
            command: self.command@,
            args: args_view(self.args@),
            names: names_view(self.names@),
        }
    }
}

/// No two named arguments share a name.
pub open spec fn unique_keys(args: Seq<(Seq<char>, ArgView)>) -> bool {
    forall|i: int, j: int| 0 <= i < j < args.len() ==> args[i].0 != args[j].0
}

// ---------------------------------------------------------------------------
// Trimming
// ---------------------------------------------------------------------------

/// The whitespace characters the parser strips from the ends of a line.
pub open spec fn spec_is_space(c: char) -> bool {
    c == ' ' || c == '\t' || c == '\n' || c == '\r'
}

/// Whether `c` is one of the whitespace characters stripped from the ends
/// of a line.
pub fn is_space(c: char) -> (r: bool)
    ensures
        r == spec_is_space(c),
{
    c == ' ' || c == '\t' || c == '\n' || c == '\r'
}

/// `s` with leading whitespace removed.
pub open spec fn spec_trim_front(s: Seq<char>) -> Seq<char>
    decreases s.len(),
{
    if s.len() > 0 && spec_is_space(s[0]) {
        spec_trim_front(s.drop_first())
    } else {
        s
    }
}

/// `s` with trailing whitespace removed.
pub open spec fn spec_trim_back(s: Seq<char>) -> Seq<char>
    decreases s.len(),
{
    if s.len() > 0 && spec_is_space(s.last()) {
        spec_trim_back(s.drop_last())
    } else {
        s
    }
}

/// `s` with whitespace removed from both ends.
pub open spec fn spec_trim(s: Seq<char>) -> Seq<char> {
    spec_trim_back(spec_trim_front(s))
}

proof fn lemma_trim_front_skip(s: Seq<char>, k: int)
    requires
        0 <= k <= s.len(),
        forall|j: int| 0 <= j < k ==> spec_is_space(s[j]),
        k < s.len() ==> !spec_is_space(s[k]),
    ensures
        spec_trim_front(s) == s.skip(k),
    decreases k,
{
    if k == 0 {
        assert(s.skip(0) =~= s);
    } else {
        let t = s.drop_first();
        assert(forall|j: int| 0 <= j < k - 1 ==> spec_is_space(t[j]));
        lemma_trim_front_skip(t, k - 1);
        assert(t.skip(k - 1) =~= s.skip(k));
    }
}

proof fn lemma_trim_back_take(s: Seq<char>, m: int)
    requires
        0 <= m <= s.len(),
        forall|j: int| m <= j < s.len() ==> spec_is_space(s[j]),
        m > 0 ==> !spec_is_space(s[m - 1]),
    ensures
        spec_trim_back(s) == s.take(m),
    decreases s.len() - m,
{
    if m == s.len() {
        assert(s.take(m) =~= s);
    } else {
        let t = s.drop_last();
        assert(forall|j: int| m <= j < t.len() ==> spec_is_space(t[j]));
        lemma_trim_back_take(t, m);
        assert(t.take(m) =~= s.take(m));
    }
}

/// The characters of `s`, in order.
pub fn str_chars(s: &str) -> (v: Vec<char>)
    ensures
        v@ == s@,
{
    let n = s.unicode_len();
    let mut v: Vec<char> = Vec::new();
    let mut i: usize = 0;
    while i < n
        invariant
            n == s@.len(),
            0 <= i <= n,
            v@ =~= s@.take(i as int),
        decreases n - i,
    {
        v.push(s.get_char(i));
        i = i + 1;
    }
    proof {
        assert(v@ =~= s@);
    }
    v
}

/// `line` with whitespace removed from both ends.
pub fn trim_chars(line: &Vec<char>) -> (r: Vec<char>)
    ensures
        r@ == spec_trim(line@),
{
    let n = line.len();
    let mut start: usize = 0;
    while start < n && is_space(line[start])
        invariant
            n == line@.len(),
            0 <= start <= n,
            forall|j: int| 0 <= j < start ==> spec_is_space(line@[j]),
        decreases n - start,
    {
        start = start + 1;
    }
    let mut end: usize = n;
    while end > start && is_space(line[end - 1])
        invariant
            n == line@.len(),
            start <= end <= n,
            forall|j: int| end <= j < n ==> spec_is_space(line@[j]),
        decreases end,
    {
        end = end - 1;
    }
    proof {
        lemma_trim_front_skip(line@, start as int);
        let mid = line@.skip(start as int);
        if end == start {
            lemma_trim_back_take(mid, 0);
        } else {
            assert(forall|j: int| end - start <= j < mid.len() ==> spec_is_space(#[trigger] mid[j]));
            assert(!spec_is_space(mid[end - start - 1]));
            lemma_trim_back_take(mid, end - start);
        }
        assert(spec_trim(line@) =~= line@.subrange(start as int, end as int));
    }
    let mut r: Vec<char> = Vec::new();
    let mut i: usize = start;
    while i < end
        invariant
            start <= i <= end <= line@.len(),
            r@ =~= line@.subrange(start as int, i as int),
        decreases end - i,
    {
        r.push(line[i]);
        i = i + 1;
    }
    proof {
        assert(r@ =~= line@.subrange(start as int, end as int));
    }
    r
}

// ---------------------------------------------------------------------------
// Tokenization
// ---------------------------------------------------------------------------

/// The tokenizer's quote and escape state.
#[derive(Clone, Copy, Debug, PartialEq, Eq, Structural)]
pub struct ScanState {
    /// Inside double quotes.
    pub dq: bool,
    /// Inside single quotes.
    pub sq: bool,
    /// The previous character opened an escape.
    pub esc: bool,
}

/// The state the scan starts in: outside both kinds of quotes, not escaping.
pub open spec fn spec_scan_init() -> ScanState {
    ScanState { dq: false, sq: false, esc: false }
}

/// One character of the separator scan. A double quote outside single
/// quotes and outside an escape toggles the double-quote state; a single
/// quote likewise; a backslash opens an escape; a space separates tokens
/// exactly when the scan is outside both kinds of quotes (and leaves the
/// escape state as it is); every other character closes an open escape.
pub open spec fn spec_scan_char(st: ScanState, c: char) -> (ScanState, bool) {
    if c == '"' && !st.sq && !st.esc {
        (ScanState { dq: !st.dq, sq: st.sq, esc: st.esc }, false)
    } else if c == '\'' && !st.dq && !st.esc {
        (ScanState { dq: st.dq, sq: !st.sq, esc: st.esc }, false)
    } else if c == '\\' && !st.esc {
        (ScanState { dq: st.dq, sq: st.sq, esc: true }, false)
    } else if c == ' ' {
        (st, !st.dq && !st.sq)
    } else {
        (ScanState { dq: st.dq, sq: st.sq, esc: false }, false)
    }
}

/// One character of the separator scan, as [`spec_scan_char`] states.
pub fn scan_char(st: ScanState, c: char) -> (r: (ScanState, bool))
    ensures
        r == spec_scan_char(st, c),
{
    if c == '"' && !st.sq && !st.esc {
        (ScanState { dq: !st.dq, sq: st.sq, esc: st.esc }, false)
    } else if c == '\'' && !st.dq && !st.esc {
        (ScanState { dq: st.dq, sq: !st.sq, esc: st.esc }, false)
    } else if c == '\\' && !st.esc {
        (ScanState { dq: st.dq, sq: st.sq, esc: true }, false)
    } else if c == ' ' {
        (st, !st.dq && !st.sq)
    } else {
        (ScanState { dq: st.dq, sq: st.sq, esc: false }, false)
    }
}

/// The scan state after the first `i` characters of `s`.
pub open spec fn spec_state_at(s: Seq<char>, i: int) -> ScanState
    decreases i,
{
    if i <= 0 {
        spec_scan_init()
    } else {
        spec_scan_char(spec_state_at(s, i - 1), s[i - 1]).0
    }
}

/// Whether the character at position `i` separates tokens.
pub open spec fn spec_is_sep(s: Seq<char>, i: int) -> bool {
    spec_scan_char(spec_state_at(s, i), s[i]).1
}

/// The tokens of `s` from position `i` on, `cur` being the token under
/// construction. A separator finishes the current token; the end of the
/// line always finishes one, so a line has at least one (possibly empty)
/// token.
pub open spec fn spec_tokens_from(s: Seq<char>, i: int, cur: Seq<char>) -> Seq<Seq<char>>
    decreases s.len() - i,
{
    if i >= s.len() {
        seq![cur]
    } else if spec_is_sep(s, i) {
        seq![cur] + spec_tokens_from(s, i + 1, Seq::empty())
    } else {
        spec_tokens_from(s, i + 1, cur.push(s[i]))
    }
}

/// The tokens of `s` under the quote/escape separator scan.
pub open spec fn spec_tokens(s: Seq<char>) -> Seq<Seq<char>> {
    spec_tokens_from(s, 0, Seq::empty())
}

/// The mathematical value of a token vector.
pub open spec fn tokens_view(toks: Seq<Vec<char>>) -> Seq<Seq<char>> {
    toks.map(|i: int, t: Vec<char>| t@)
}

/// Splits `line` into its tokens and also returns the scan state at the end
/// of the line, which tells whether a quote was left open.
pub fn tokenize(line: &Vec<char>) -> (r: (Vec<Vec<char>>, ScanState))
    ensures
        tokens_view(r.0@) == spec_tokens(line@),
        r.1 == spec_state_at(line@, line@.len() as int),
        r.0@.len() >= 1,
{
    let n = line.len();
    let mut st = ScanState { dq: false, sq: false, esc: false };
    let mut cur: Vec<char> = Vec::new();
    let mut acc: Vec<Vec<char>> = Vec::new();
    let mut i: usize = 0;
    while i < n
        invariant
            n == line@.len(),
            0 <= i <= n,
            st == spec_state_at(line@, i as int),
            spec_tokens(line@) =~= tokens_view(acc@) + spec_tokens_from(
                line@,
                i as int,
                cur@,
            ),
        decreases n - i,
    {
        let c = line[i];
        let ghost acc_pre = acc@;
        let ghost cur_pre = cur@;
        let (st2, sep) = scan_char(st, c);
        if sep {
            acc.push(cur);
            cur = Vec::new();
            proof {
                assert(tokens_view(acc@) =~= tokens_view(acc_pre).push(cur_pre));
            }
        } else {
            cur.push(c);
        }
        st = st2;
        i = i + 1;
    }
    let ghost acc_pre = acc@;
    let ghost cur_pre = cur@;
    acc.push(cur);
    proof {
        assert(tokens_view(acc@) =~= tokens_view(acc_pre).push(cur_pre));
        assert(tokens_view(acc@) =~= spec_tokens(line@));
    }
    (acc, st)
}

// ---------------------------------------------------------------------------
// Escape decoding and token values
// ---------------------------------------------------------------------------

/// Whether `c` forms a named escape together with a preceding backslash.
pub open spec fn spec_is_escape_name(c: char) -> bool {
    c == 'n' || c == 't' || c == 'r'
}

/// The control character a named escape stands for.
pub open spec fn spec_escape_value(c: char) -> char {
    if c == 'n' {
        '\n'
    } else if c == 't' {
        '\t'
    } else {
        '\r'
    }
}

/// Decodes escapes in one pass: a backslash before `n`, `t` or `r` becomes
/// the named control character, any other backslash is dropped, every other
/// character stands for itself.
pub open spec fn spec_unescape(t: Seq<char>) -> Seq<char>
    decreases t.len(),
{
    if t.len() == 0 {
        Seq::empty()
    } else if t[0] == '\\' {
        if t.len() >= 2 && spec_is_escape_name(t[1]) {
            seq![spec_escape_value(t[1])] + spec_unescape(t.skip(2))
        } else {
            spec_unescape(t.skip(1))
        }
    } else {
        seq![t[0]] + spec_unescape(t.skip(1))
    }
}

/// Decodes escapes in `t`, as [`spec_unescape`] states.
pub fn unescape(t: &Vec<char>) -> (r: Vec<char>)
    ensures
        r@ == spec_unescape(t@),
{
    let n = t.len();
    let mut r: Vec<char> = Vec::new();
    let mut i: usize = 0;
    proof {
        assert(t@.skip(0) =~= t@);
    }
    while i < n
        invariant
            n == t@.len(),
            0 <= i <= n,
            spec_unescape(t@) =~= r@ + spec_unescape(t@.skip(i as int)),
        decreases n - i,
    {
        let ghost rest = t@.skip(i as int);
        proof {
            assert(rest[0] == t@[i as int]);
            assert(rest.skip(1) =~= t@.skip(i as int + 1));
            if i + 2 <= n {
                assert(rest.skip(2) =~= t@.skip(i as int + 2));
                assert(rest[1] == t@[i as int + 1]);
            }
        }
        let c = t[i];
        if c == '\\' {
            if i + 1 < n && (t[i + 1] == 'n' || t[i + 1] == 't' || t[i + 1] == 'r') {
                let e = t[i + 1];
                r.push(if e == 'n' {
                    '\n'
                } else if e == 't' {
                    '\t'
                } else {
                    '\r'
                });
                i = i + 2;
            } else {
                i = i + 1;
            }
        } else {
            r.push(c);
            i = i + 1;
        }
    }
    proof {
        assert(t@.skip(n as int) =~= Seq::<char>::empty());
        assert(r@ =~= spec_unescape(t@));
    }
    r
}

/// The value a raw token stands for: a token that opens with a quote
/// character loses its first and last character first (its closing quote),
/// then escapes are decoded.
pub open spec fn spec_token_value(t: Seq<char>) -> Seq<char> {
    if t.len() > 0 && (t[0] == '"' || t[0] == '\'') {
        if t.len() >= 2 {
            spec_unescape(t.subrange(1, t.len() - 1))
        } else {
            Seq::empty()
        }
    } else {
        spec_unescape(t)
    }
}

/// The value of one raw token, as [`spec_token_value`] states.
pub fn token_value(t: &Vec<char>) -> (r: Vec<char>)
    ensures
        r@ == spec_token_value(t@),
{
    if t.len() > 0 && (t[0] == '"' || t[0] == '\'') {
        if t.len() >= 2 {
            let mut inner: Vec<char> = Vec::new();
            let mut i: usize = 1;
            let end = t.len() - 1;
            while i < end
                invariant
                    1 <= i <= end,
                    end == t@.len() - 1,
                    inner@ =~= t@.subrange(1, i as int),
                decreases end - i,
            {
                inner.push(t[i]);
                i = i + 1;
            }
            proof {
                assert(inner@ =~= t@.subrange(1, t@.len() - 1));
            }
            unescape(&inner)
        } else {
            Vec::new()
        }
    } else {
        unescape(t)
    }
}

// ---------------------------------------------------------------------------
// Argument classification
// ---------------------------------------------------------------------------

/// The first position at or after `i` where `c` occurs in `s`, or the
/// length of `s` if it does not occur there.
pub open spec fn spec_find_from(s: Seq<char>, c: char, i: int) -> int
    decreases s.len() - i,
{
    if i >= s.len() {
        s.len() as int
    } else if s[i] == c {
        i
    } else {
        spec_find_from(s, c, i + 1)
    }
}

proof fn lemma_find_from(s: Seq<char>, c: char, from: int, k: int)
    requires
        0 <= from <= k <= s.len(),
        forall|j: int| from <= j < k ==> s[j] != c,
        k < s.len() ==> s[k] == c,
    ensures
        spec_find_from(s, c, from) == k,
    decreases k - from,
{
    if from < k {
        lemma_find_from(s, c, from + 1, k);
    }
}

/// The first position at or after `from` where `c` occurs, or the length
/// of `a` if it does not occur there.
pub fn find_char(a: &Vec<char>, c: char, from: usize) -> (r: usize)
    requires
        from <= a@.len(),
    ensures
        r == spec_find_from(a@, c, from as int),
        from <= r <= a@.len(),
        r < a@.len() ==> a@[r as int] == c,
        forall|j: int| from <= j < r ==> a@[j] != c,
{
    let n = a.len();
    let mut i = from;
    while i < n && a[i] != c
        invariant
            n == a@.len(),
            from <= i <= n,
            forall|j: int| from <= j < i ==> a@[j] != c,
        decreases n - i,
    {
        i = i + 1;
    }
    proof {
        lemma_find_from(a@, c, from as int, i as int);
    }
    i
}

/// A copy of `v[from..to]`.
pub fn copy_range(v: &Vec<char>, from: usize, to: usize) -> (r: Vec<char>)
    requires
        from <= to <= v@.len(),
    ensures
        r@ == v@.subrange(from as int, to as int),
{
    let mut r: Vec<char> = Vec::new();
    let mut i = from;
    while i < to
        invariant
            from <= i <= to <= v@.len(),
            r@ =~= v@.subrange(from as int, i as int),
        decreases to - i,
    {
        r.push(v[i]);
        i = i + 1;
    }
    proof {
        assert(r@ =~= v@.subrange(from as int, to as int));
    }
    r
}

/// Relies on `String`'s `FromIterator` over `char`: collecting an iterator
/// of characters yields a string of exactly those characters.
#[verifier::external_body]
fn chars_to_string(v: &Vec<char>) -> (s: String)
    ensures
        s@ == v@,
{
    v.iter().collect()
}

/// Sets the named argument `key` to `val`: the first entry with that name
/// is replaced in place, or a new entry is appended.
pub open spec fn spec_insert(
    args: Seq<(Seq<char>, ArgView)>,
    key: Seq<char>,
    val: ArgView,
) -> Seq<(Seq<char>, ArgView)>
    decreases args.len(),
{
    if args.len() == 0 {
        seq![(key, val)]
    } else if args[0].0 == key {
        seq![(key, val)] + args.drop_first()
    } else {
        seq![args[0]] + spec_insert(args.drop_first(), key, val)
    }
}

proof fn lemma_insert_absent(args: Seq<(Seq<char>, ArgView)>, key: Seq<char>, val: ArgView)
    requires
        forall|j: int| 0 <= j < args.len() ==> args[j].0 != key,
    ensures
        spec_insert(args, key, val) == args.push((key, val)),
    decreases args.len(),
{
    if args.len() == 0 {
        assert(spec_insert(args, key, val) =~= args.push((key, val)));
    } else {
        let rest = args.drop_first();
        assert(forall|j: int| 0 <= j < rest.len() ==> rest[j] == args[j + 1]);
        lemma_insert_absent(rest, key, val);
        assert(seq![args[0]] + rest.push((key, val)) =~= args.push((key, val)));
    }
}

proof fn lemma_insert_found(
    args: Seq<(Seq<char>, ArgView)>,
    key: Seq<char>,
    val: ArgView,
    i: int,
)
    requires
        0 <= i < args.len(),
        args[i].0 == key,
        forall|j: int| 0 <= j < i ==> args[j].0 != key,
    ensures
        spec_insert(args, key, val) == args.update(i, (key, val)),
    decreases i,
{
    if i == 0 {
        assert(seq![(key, val)] + args.drop_first() =~= args.update(0, (key, val)));
    } else {
        let rest = args.drop_first();
        assert(forall|j: int| 0 <= j < rest.len() ==> rest[j] == args[j + 1]);
        lemma_insert_found(rest, key, val, i - 1);
        assert(seq![args[0]] + rest.update(i - 1, (key, val)) =~= args.update(i, (key, val)));
    }
}

/// Sets the named argument `key` to `val` in the argument vector, as
/// [`spec_insert`] states; distinct names stay distinct.
pub fn insert_arg(
    args: &mut Vec<(String, CommandArgument)>,
    key: String,
    val: CommandArgument,
)
    ensures
        args_view(final(args)@) == spec_insert(args_view(old(args)@), key@, val@),
        unique_keys(args_view(old(args)@)) ==> unique_keys(args_view(final(args)@)),
{
    let ghost v0 = args_view(args@);
    let n = args.len();
    let mut i: usize = 0;
    while i < n && !(args[i].0 == key)
        invariant
            n == args@.len(),
            v0 == args_view(args@),
            0 <= i <= n,
            forall|j: int| 0 <= j < i ==> v0[j].0 != key@,
        decreases n - i,
    {
        i = i + 1;
    }
    if i < n {
        proof {
            lemma_insert_found(v0, key@, val@, i as int);
        }
        args.remove(i);
        args.insert(i, (key, val));
        proof {
            assert(args_view(args@) =~= v0.update(i as int, (key@, val@)));
            if unique_keys(v0) {
                assert forall|p: int, q: int|
                    0 <= p < q < args_view(args@).len() implies args_view(args@)[p].0
                    != args_view(args@)[q].0 by {
                    assert(args_view(args@)[p].0 == v0[p].0);
                    assert(args_view(args@)[q].0 == v0[q].0);
                }
            }
        }
    } else {
        proof {
            lemma_insert_absent(v0, key@, val@);
        }
        args.push((key, val));
        proof {
            assert(args_view(args@) =~= v0.push((key@, val@)));
            if unique_keys(v0) {
                assert forall|p: int, q: int|
                    0 <= p < q < args_view(args@).len() implies args_view(args@)[p].0
                    != args_view(args@)[q].0 by {
                    if q < v0.len() {
                        assert(args_view(args@)[p].0 == v0[p].0);
                        assert(args_view(args@)[q].0 == v0[q].0);
                    } else {
                        assert(args_view(args@)[p].0 == v0[p].0);
                        assert(args_view(args@)[q].0 == key@);
                    }
                }
            }
        }
    }
}

/// A value with its surrounding quotes removed: if it opens with a quote
/// character, its first and last characters are dropped.
pub open spec fn spec_strip_value_quotes(v: Seq<char>) -> Seq<char> {
    if v.len() > 0 && (v[0] == '"' || v[0] == '\'') {
        if v.len() >= 2 {
            v.subrange(1, v.len() - 1)
        } else {
            Seq::empty()
        }
    } else {
        v
    }
}

/// Inserts one bare flag per character of `a` from position `i` on, in
/// order.
pub open spec fn spec_insert_flags(
    args: Seq<(Seq<char>, ArgView)>,
    a: Seq<char>,
    i: int,
) -> Seq<(Seq<char>, ArgView)>
    decreases a.len() - i,
{
    if i >= a.len() {
        args
    } else {
        spec_insert_flags(spec_insert(args, seq![a[i]], ArgView::Anonymous), a, i + 1)
    }
}

/// Classifies one processed argument. A token opening with `--` is a named
/// argument: with an `=`, the name runs to the first `=` and the value is
/// the piece up to the next `=` (or the end), its surrounding quotes
/// removed; without one, it is a bare flag. A token opening with a single
/// `-` contributes one single-character bare flag per remaining character.
/// Everything else is a positional name.
pub open spec fn spec_classify_arg(
    args: Seq<(Seq<char>, ArgView)>,
    names: Seq<Seq<char>>,
    a: Seq<char>,
) -> (Seq<(Seq<char>, ArgView)>, Seq<Seq<char>>) {
    if a.len() >= 2 && a[0] == '-' && a[1] == '-' {
        let e1 = spec_find_from(a, '=', 0);
        if e1 < a.len() {
            let e2 = spec_find_from(a, '=', e1 + 1);
            let key = a.subrange(2, e1);
            let value = spec_strip_value_quotes(a.subrange(e1 + 1, e2));
            (spec_insert(args, key, ArgView::Value(value)), names)
        } else {
            (spec_insert(args, a.skip(2), ArgView::Anonymous), names)
        }
    } else if a.len() >= 1 && a[0] == '-' {
        (spec_insert_flags(args, a, 1), names)
    } else {
        (args, names.push(a))
    }
}

/// The mathematical value of a name vector.
pub open spec fn names_view(names: Seq<String>) -> Seq<Seq<char>> {
    names.map(|i: int, s: String| s@)
}

/// Classifies one processed argument into the argument vector or the name
/// vector, as [`spec_classify_arg`] states.
pub fn classify_arg(
    args: &mut Vec<(String, CommandArgument)>,
    names: &mut Vec<String>,
    a: &Vec<char>,
)
    ensures
        ({
            let r = spec_classify_arg(
                args_view(old(args)@),
                names_view(old(names)@),
                a@,
            );
            &&& args_view(final(args)@) == r.0
            &&& names_view(final(names)@) == r.1
        }),
        unique_keys(args_view(old(args)@)) ==> unique_keys(args_view(final(args)@)),
{
    let n = a.len();
    if n >= 2 && a[0] == '-' && a[1] == '-' {
        let e1 = find_char(a, '=', 0);
        if e1 < n {
            let e2 = find_char(a, '=', e1 + 1);
            let key = copy_range(a, 2, e1);
            let raw = copy_range(a, e1 + 1, e2);
            let value = if raw.len() > 0 && (raw[0] == '"' || raw[0] == '\'') {
                if raw.len() >= 2 {
                    copy_range(&raw, 1, raw.len() - 1)
                } else {
                    Vec::new()
                }
            } else {
                copy_range(&raw, 0, raw.len())
            };
            proof {
                assert(raw@.subrange(0, raw@.len() as int) =~= raw@);
                assert(value@ == spec_strip_value_quotes(a@.subrange(e1 as int + 1, e2 as int)));
            }
            insert_arg(args, chars_to_string(&key), CommandArgument::Value(chars_to_string(&value)));
        } else {
            let key = copy_range(a, 2, n);
            proof {
                assert(key@ =~= a@.skip(2));
            }
            insert_arg(args, chars_to_string(&key), CommandArgument::Anonymous);
        }
    } else if n >= 1 && a[0] == '-' {
        let ghost target = spec_insert_flags(args_view(args@), a@, 1);
        let mut i: usize = 1;
        while i < n
            invariant
                n == a@.len(),
                1 <= i <= n,
                spec_insert_flags(args_view(args@), a@, i as int) == target,
                unique_keys(args_view(old(args)@)) ==> unique_keys(args_view(args@)),
            decreases n - i,
        {
            let mut flag: Vec<char> = Vec::new();
            flag.push(a[i]);
            proof {
                assert(flag@ =~= seq![a@[i as int]]);
            }
            insert_arg(args, chars_to_string(&flag), CommandArgument::Anonymous);
            i = i + 1;
        }
    } else {
        let ghost names0 = names_view(names@);
        names.push(chars_to_string(a));
        proof {
            assert(names_view(names@) =~= names0.push(a@));
        }
    }
}

/// Classifies the processed arguments from position `i` on, folding each
/// into the argument and name vectors in order.
pub open spec fn spec_classify_from(
    processed: Seq<Seq<char>>,
    i: int,
    args: Seq<(Seq<char>, ArgView)>,
    names: Seq<Seq<char>>,
) -> (Seq<(Seq<char>, ArgView)>, Seq<Seq<char>>)
    decreases processed.len() - i,
{
    if i >= processed.len() {
        (args, names)
    } else {
        let r = spec_classify_arg(args, names, processed[i]);
        spec_classify_from(processed, i + 1, r.0, r.1)
    }
}

// ---------------------------------------------------------------------------
// Building a command
// ---------------------------------------------------------------------------

/// The parse of a whole line: the line is trimmed and tokenized; a quote
/// left open rejects it; otherwise the first token's value is the command
/// and the remaining tokens' values are classified in order.
pub open spec fn spec_build(input: Seq<char>) -> Result<CommandView, CommandError> {
    let line = spec_trim(input);
    let st = spec_state_at(line, line.len() as int);
    let toks = spec_tokens(line);
    if st.dq || st.sq {
        Err(CommandError::MismatchedQuotes)
    } else if toks.len() == 0 {
        Err(CommandError::ExecutablePathNotFound)
    } else {
        let values = toks.map(|i: int, t: Seq<char>| spec_token_value(t));
        let r = spec_classify_from(values, 1, Seq::empty(), Seq::empty());
        Ok(CommandView { command: values[0], args: r.0, names: r.1 })
    }
}

proof fn lemma_tokens_from_nonempty(s: Seq<char>, i: int, cur: Seq<char>)
    ensures
        spec_tokens_from(s, i, cur).len() >= 1,
    decreases s.len() - i,
{
    if i < s.len() {
        if spec_is_sep(s, i) {
            lemma_tokens_from_nonempty(s, i + 1, Seq::empty());
        } else {
            lemma_tokens_from_nonempty(s, i + 1, cur.push(s[i]));
        }
    }
}

/// A command line is rejected exactly when a quote is left open at its end,
/// and then always as `MismatchedQuotes`: the tokenizer yields at least one
/// token for every line, so `ExecutablePathNotFound` is never produced.
pub proof fn lemma_build_rejects_only_open_quotes(input: Seq<char>)
    ensures
        ({
            let line = spec_trim(input);
            let st = spec_state_at(line, line.len() as int);
            spec_build(input) is Err <==> st.dq || st.sq
        }),
        spec_build(input) is Err ==> spec_build(input)->Err_0 == CommandError::MismatchedQuotes,
{
    let line = spec_trim(input);
    lemma_tokens_from_nonempty(line, 0, Seq::empty());
}

impl Command {
    /// Parses one command line, as [`spec_build`] states; the named
    /// arguments of a parsed command have pairwise distinct names.
    pub fn build(input: &str) -> (r: Result<Command, CommandError>)
        ensures
            ({
                match r {
                    Ok(cmd) => {
                        &&& spec_build(input@) matches Ok(cv)
                        &&& cmd@.command == cv.command
                        &&& cmd@.args == cv.args
                        &&& cmd@.names == cv.names
                        &&& unique_keys(cmd@.args)
                    },
                    Err(e) => spec_build(input@) matches Err(e2) && e == e2,
                }
            }),
    {
        let chars = str_chars(input);
        let line = trim_chars(&chars);
        let (toks, st) = tokenize(&line);
        if st.dq || st.sq {
            return Err(CommandError::MismatchedQuotes);
        }
        if toks.len() == 0 {
            return Err(CommandError::ExecutablePathNotFound);
        }

        let ghost values_spec = spec_tokens(line@).map(|i: int, t: Seq<char>| spec_token_value(t));
        let mut values: Vec<Vec<char>> = Vec::new();
        let mut i: usize = 0;
        while i < toks.len()
            invariant
                0 <= i <= toks@.len(),
                values_spec == spec_tokens(line@).map(
                    |k: int, t: Seq<char>| spec_token_value(t),
                ),
                tokens_view(toks@) == spec_tokens(line@),
                tokens_view(values@) =~= values_spec.take(i as int),
            decreases toks@.len() - i,
        {
            let ghost views_pre = tokens_view(values@);
            values.push(token_value(&toks[i]));
            proof {
                assert(tokens_view(values@) =~= views_pre.push(spec_token_value(toks@[i as int]@)));
                assert(tokens_view(values@) =~= values_spec.take(i as int + 1));
            }
            i = i + 1;
        }
        proof {
            assert(tokens_view(values@) =~= values_spec);
        }

        let command = chars_to_string(&values[0]);
        let mut args: Vec<(String, CommandArgument)> = Vec::new();
        let mut names: Vec<String> = Vec::new();
        let ghost target = spec_classify_from(values_spec, 1, Seq::empty(), Seq::empty());
        proof {
            assert(args_view(args@) =~= Seq::<(Seq<char>, ArgView)>::empty());
            assert(names_view(names@) =~= Seq::<Seq<char>>::empty());
        }
        let mut j: usize = 1;
        while j < values.len()
            invariant
                1 <= j <= values@.len(),
                tokens_view(values@) == values_spec,
                spec_classify_from(
                    values_spec,
                    j as int,
                    args_view(args@),
                    names_view(names@),
                ) == target,
                unique_keys(args_view(args@)),
            decreases values@.len() - j,
        {
            classify_arg(&mut args, &mut names, &values[j]);
            j = j + 1;
        }

        Ok(Command { command, args, names })
    }
}

// ---------------------------------------------------------------------------
// Name order
// ---------------------------------------------------------------------------

/// Strict lexicographic order on names, character code by character code.
/// Code-point order coincides with the byte order of the names' UTF-8
/// encodings, so this is the order an ordered map of strings iterates in.
pub open spec fn spec_chars_lt(a: Seq<char>, b: Seq<char>) -> bool
    decreases a.len(),
{
    if b.len() == 0 {
        false
    } else if a.len() == 0 {
        true
    } else if a[0] != b[0] {
        (a[0] as u32) < (b[0] as u32)
    } else {
        spec_chars_lt(a.drop_first(), b.drop_first())
    }
}

/// Whether `a` orders strictly before `b`, as [`spec_chars_lt`] states.
fn chars_lt(a: &str, b: &str) -> (r: bool)
    ensures
        r == spec_chars_lt(a@, b@),
{
    let na = a.unicode_len();
    let nb = b.unicode_len();
    let mut i: usize = 0;
    proof {
        assert(a@.skip(0) =~= a@);
        assert(b@.skip(0) =~= b@);
    }
    while i < na && i < nb
        invariant
            na == a@.len(),
            nb == b@.len(),
            0 <= i <= na,
            i <= nb,
            spec_chars_lt(a@, b@) == spec_chars_lt(a@.skip(i as int), b@.skip(i as int)),
        decreases na - i,
    {
        let ghost ra = a@.skip(i as int);
        let ghost rb = b@.skip(i as int);
        proof {
            assert(ra[0] == a@[i as int]);
            assert(rb[0] == b@[i as int]);
            assert(ra.drop_first() =~= a@.skip(i as int + 1));
            assert(rb.drop_first() =~= b@.skip(i as int + 1));
        }
        let ca = a.get_char(i);
        let cb = b.get_char(i);
        if ca != cb {
            return (ca as u32) < (cb as u32);
        }
        i = i + 1;
    }
    proof {
        assert(a@.skip(i as int).len() == na - i);
        assert(b@.skip(i as int).len() == nb - i);
    }
    i >= na && i < nb
}

/// `entry` inserted into `sorted` before the first entry whose name it
/// orders strictly before: one step of an insertion sort, stable for equal
/// names.
pub open spec fn spec_sorted_insert(
    sorted: Seq<(Seq<char>, ArgView)>,
    entry: (Seq<char>, ArgView),
) -> Seq<(Seq<char>, ArgView)>
    decreases sorted.len(),
{
    if sorted.len() == 0 {
        seq![entry]
    } else if spec_chars_lt(entry.0, sorted[0].0) {
        seq![entry] + sorted
    } else {
        seq![sorted[0]] + spec_sorted_insert(sorted.drop_first(), entry)
    }
}

/// The arguments from position `i` on, folded one by one into the sorted
/// accumulator `acc`.
pub open spec fn spec_sort_by_name_from(
    args: Seq<(Seq<char>, ArgView)>,
    i: int,
    acc: Seq<(Seq<char>, ArgView)>,
) -> Seq<(Seq<char>, ArgView)>
    decreases args.len() - i,
{
    if i >= args.len() {
        acc
    } else {
        spec_sort_by_name_from(args, i + 1, spec_sorted_insert(acc, args[i]))
    }
}

/// The arguments in ascending name order, whatever order they were added
/// in: the iteration order of the ordered map the arguments stand for.
pub open spec fn spec_sort_by_name(args: Seq<(Seq<char>, ArgView)>) -> Seq<(Seq<char>, ArgView)> {
    spec_sort_by_name_from(args, 0, Seq::empty())
}

proof fn lemma_sorted_insert_at(
    sorted: Seq<(Seq<char>, ArgView)>,
    entry: (Seq<char>, ArgView),
    j: int,
)
    requires
        0 <= j <= sorted.len(),
        forall|k: int| 0 <= k < j ==> !spec_chars_lt(entry.0, sorted[k].0),
        j < sorted.len() ==> spec_chars_lt(entry.0, sorted[j].0),
    ensures
        spec_sorted_insert(sorted, entry) == sorted.insert(j, entry),
    decreases j,
{
    if sorted.len() == 0 {
        assert(seq![entry] =~= sorted.insert(0, entry));
    } else if j == 0 {
        assert(seq![entry] + sorted =~= sorted.insert(0, entry));
    } else {
        let rest = sorted.drop_first();
        assert(forall|k: int| 0 <= k < rest.len() ==> rest[k] == sorted[k + 1]);
        lemma_sorted_insert_at(rest, entry, j - 1);
        assert(seq![sorted[0]] + rest.insert(j - 1, entry) =~= sorted.insert(j, entry));
    }
}

/// A copy of one named argument.
fn clone_pair(p: &(String, CommandArgument)) -> (r: (String, CommandArgument))
    ensures
        r.0@ == p.0@,
        r.1@ == p.1@,
{
    let value = match &p.1 {
        CommandArgument::Anonymous => CommandArgument::Anonymous,
        CommandArgument::Value(v) => CommandArgument::Value(v.clone()),
    };
    (p.0.clone(), value)
}

/// The arguments in ascending name order, as [`spec_sort_by_name`] states.
fn sorted_args(args: &Vec<(String, CommandArgument)>) -> (r: Vec<(String, CommandArgument)>)
    ensures
        args_view(r@) == spec_sort_by_name(args_view(args@)),
{
    let ghost av = args_view(args@);
    let mut r: Vec<(String, CommandArgument)> = Vec::new();
    proof {
        assert(args_view(r@) =~= Seq::<(Seq<char>, ArgView)>::empty());
    }
    let mut i: usize = 0;
    while i < args.len()
        invariant
            0 <= i <= args@.len(),
            av == args_view(args@),
            spec_sort_by_name_from(av, i as int, args_view(r@)) == spec_sort_by_name(av),
        decreases args@.len() - i,
    {
        let entry = clone_pair(&args[i]);
        let ghost sorted_pre = args_view(r@);
        let ghost e = (entry.0@, entry.1@);
        proof {
            assert(av[i as int] == e);
        }
        let mut j: usize = 0;
        while j < r.len() && !chars_lt(entry.0.as_str(), r[j].0.as_str())
            invariant
                0 <= j <= r@.len(),
                args_view(r@) == sorted_pre,
                entry.0@ == e.0,
                entry.1@ == e.1,
                forall|k: int| 0 <= k < j ==> !spec_chars_lt(e.0, sorted_pre[k].0),
            decreases r@.len() - j,
        {
            j = j + 1;
        }
        proof {
            lemma_sorted_insert_at(sorted_pre, e, j as int);
        }
        r.insert(j, entry);
        proof {
            assert(args_view(r@) =~= sorted_pre.insert(j as int, e));
        }
        i = i + 1;
    }
    r
}

// ---------------------------------------------------------------------------
// Serialization
// ---------------------------------------------------------------------------

/// A length-prefixed string: the UTF-8 byte length as a little-endian
/// 64-bit word, then the UTF-8 bytes.
pub open spec fn spec_ser_str(s: Seq<char>) -> Seq<u8> {
    spec_u64_to_le_bytes(encode_utf8(s).len() as u64) + encode_utf8(s)
}

/// One named argument: a tag byte (`0` bare, `1` valued), the
/// length-prefixed name, and for a valued argument the length-prefixed
/// value.
pub open spec fn spec_ser_arg(entry: (Seq<char>, ArgView)) -> Seq<u8> {
    match entry.1 {
        ArgView::Anonymous => seq![0u8] + spec_ser_str(entry.0),
        ArgView::Value(v) => seq![1u8] + spec_ser_str(entry.0) + spec_ser_str(v),
    }
}

/// The serialized arguments from position `i` on, in order.
pub open spec fn spec_ser_args_from(args: Seq<(Seq<char>, ArgView)>, i: int) -> Seq<u8>
    decreases args.len() - i,
{
    if i >= args.len() {
        Seq::empty()
    } else {
        spec_ser_arg(args[i]) + spec_ser_args_from(args, i + 1)
    }
}

/// The serialized positional names from position `i` on, in order.
pub open spec fn spec_ser_names_from(names: Seq<Seq<char>>, i: int) -> Seq<u8>
    decreases names.len() - i,
{
    if i >= names.len() {
        Seq::empty()
    } else {
        spec_ser_str(names[i]) + spec_ser_names_from(names, i + 1)
    }
}

/// The byte serialization of a parsed command: the length-prefixed command,
/// the argument count as a little-endian 64-bit word followed by the
/// arguments in ascending name order, and the name count followed by the
/// names in their own order.
pub open spec fn spec_serialize(c: CommandView) -> Seq<u8> {
    spec_ser_str(c.command) + spec_u64_to_le_bytes(c.args.len() as u64) + spec_ser_args_from(
        spec_sort_by_name(c.args),
        0,
    ) + spec_u64_to_le_bytes(c.names.len() as u64) + spec_ser_names_from(c.names, 0)
}

/// Appends the length-prefixed UTF-8 bytes of `s` to `out`.
fn ser_str(out: &mut Vec<u8>, s: &str)
    ensures
        final(out)@ == old(out)@ + spec_ser_str(s@),
{
    let mut data = s.as_bytes_vec();
    let mut len_bytes = u64_to_le_bytes(data.len() as u64);
    out.append(&mut len_bytes);
    out.append(&mut data);
    proof {
        assert(final(out)@ =~= old(out)@ + spec_ser_str(s@));
    }
}

impl Command {
    /// Serializes the command, as [`spec_serialize`] states: the named
    /// arguments are emitted in ascending name order, whatever order they
    /// stand in.
    pub fn to_bytes(&self) -> (bytes: Vec<u8>)
        ensures
            bytes@ == spec_serialize(self@),
    {
        let mut out: Vec<u8> = Vec::new();
        ser_str(&mut out, self.command.as_str());

        let sorted = sorted_args(&self.args);
        let ghost av = args_view(sorted@);
        let mut count_bytes = u64_to_le_bytes(self.args.len() as u64);
        out.append(&mut count_bytes);
        let ghost head = out@;

        let mut i: usize = 0;
        while i < sorted.len()
            invariant
                0 <= i <= sorted@.len(),
                av == args_view(sorted@),
                av == spec_sort_by_name(args_view(self.args@)),
                head == spec_ser_str(self.command@) + spec_u64_to_le_bytes(
                    self.args@.len() as u64,
                ),
                out@ + spec_ser_args_from(av, i as int) =~= head + spec_ser_args_from(av, 0),
            decreases sorted@.len() - i,
        {
            let ghost out_pre = out@;
            let entry = &sorted[i];
            match &entry.1 {
                CommandArgument::Anonymous => {
                    out.push(0u8);
                    ser_str(&mut out, entry.0.as_str());
                    proof {
                        assert(out@ =~= out_pre + spec_ser_arg(av[i as int]));
                    }
                },
                CommandArgument::Value(v) => {
                    out.push(1u8);
                    ser_str(&mut out, entry.0.as_str());
                    ser_str(&mut out, v.as_str());
                    proof {
                        assert(out@ =~= out_pre + spec_ser_arg(av[i as int]));
                    }
                },
            }
            proof {
                assert(out@ + spec_ser_args_from(av, i as int + 1) =~= out_pre
                    + spec_ser_args_from(av, i as int));
            }
            i = i + 1;
        }
        proof {
            assert(spec_ser_args_from(av, av.len() as int) =~= Seq::<u8>::empty());
            assert(out@ =~= head + spec_ser_args_from(av, 0));
        }

        let ghost nv = names_view(self.names@);
        let mut name_count_bytes = u64_to_le_bytes(self.names.len() as u64);
        out.append(&mut name_count_bytes);
        let ghost head2 = out@;

        let mut j: usize = 0;
        while j < self.names.len()
            invariant
                0 <= j <= self.names@.len(),
                nv == names_view(self.names@),
                out@ + spec_ser_names_from(nv, j as int) =~= head2 + spec_ser_names_from(nv, 0),
            decreases self.names@.len() - j,
        {
            let ghost out_pre = out@;
            ser_str(&mut out, self.names[j].as_str());
            proof {
                assert(out@ + spec_ser_names_from(nv, j as int + 1) =~= out_pre
                    + spec_ser_names_from(nv, j as int));
            }
            j = j + 1;
        }
        proof {
            assert(spec_ser_names_from(nv, nv.len() as int) =~= Seq::<u8>::empty());
            assert(out@ =~= head2 + spec_ser_names_from(nv, 0));
            assert(nv.len() == self.names@.len());
            let c = self@;
            assert(c.args.len() == self.args@.len());
            assert(spec_sort_by_name(c.args) == av);
            assert(c.names == nv);
            assert(c.command == self.command@);
            assert(spec_serialize(c) == spec_ser_str(c.command) + spec_u64_to_le_bytes(
                c.args.len() as u64,
            ) + spec_ser_args_from(spec_sort_by_name(c.args), 0) + spec_u64_to_le_bytes(
                c.names.len() as u64,
            ) + spec_ser_names_from(c.names, 0));
            assert(out@ =~= spec_serialize(self@));
        }
        out
    }
}

} // verus!

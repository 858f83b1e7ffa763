//! The grammar of the `metrics!` macro's arguments, over a flat token list:
//!
//! `[from_crate(krate)] [backend, ..] , metric , action(arg, ..) [,]
//!  [level , target [:] expr [,] arg, ..]`
//!
//! Groups are flattened into an opening token, their contents and a closing
//! token. An expression is a nonempty run of tokens up to a comma outside
//! every group (or up to the group that encloses it); it is kept as the
//! range of its token positions.
use vstd::prelude::*;
use vstd::string::*;

verus! {

/// The delimiter of a token group.
#[derive(Debug, Clone, Copy, PartialEq, Eq, Structural)]
pub enum Delim {
    Paren,
    Brace,
    Bracket,
    /// An invisible group.
    Invisible,
}

/// A token of a macro's input, with its groups flattened.
#[derive(Debug, Clone)]
pub enum Tok {
    Ident(String),
    Punct(char),
    Literal,
    Open(Delim),
    Close(Delim),
}

/// A token, as the grammar sees it.
pub enum TokV {
    Ident(Seq<char>),
    Punct(char),
    Literal,
    Open(Delim),
    Close(Delim),
}

impl View for Tok {
    type V = TokV;

    open spec fn view(&self) -> TokV {
        match self {
            Tok::Ident(s) => TokV::Ident(s@),
            Tok::Punct(c) => TokV::Punct(*c),
            Tok::Literal => TokV::Literal,
            Tok::Open(d) => TokV::Open(*d),
            Tok::Close(d) => TokV::Close(*d),
        }
    }
}

/// A token list, as the grammar sees it.
pub open spec fn toks_view(t: Seq<Tok>) -> Seq<TokV> {
    t.map_values(|x: Tok| x@)
}

/// Strings, as sequences of characters.
pub open spec fn strs_view(s: Seq<String>) -> Seq<Seq<char>> {
    s.map_values(|x: String| x@)
}

/// An optional string, as optional characters.
pub open spec fn opt_str_view(o: Option<String>) -> Option<Seq<char>> {
    match o {
        Some(s) => Some(s@),
        None => None,
    }
}

/// Token ranges, as pairs of integers.
pub open spec fn ranges_view(s: Seq<(usize, usize)>) -> Seq<(int, int)> {
    s.map_values(|x: (usize, usize)| (x.0 as int, x.1 as int))
}

/// Whether the token at `p` is `k`.
pub open spec fn tok_is(t: Seq<TokV>, p: int, k: TokV) -> bool {
    0 <= p < t.len() && t[p] == k
}

/// Whether the token at `p` is an identifier.
pub open spec fn ident_at(t: Seq<TokV>, p: int) -> bool {
    0 <= p < t.len() && t[p] is Ident
}

/// Whether the token at `p` is the identifier `word`.
pub open spec fn word_at(t: Seq<TokV>, p: int, word: Seq<char>) -> bool {
    ident_at(t, p) && t[p]->Ident_0 == word
}

/// Where the expression that goes on at `p`, inside `depth` groups opened
/// since its start, ends: at a comma outside its groups, at the close of
/// the group around it, or at the end of the tokens.
pub open spec fn expr_end(t: Seq<TokV>, p: int, depth: nat) -> int
    decreases t.len() - p,
{
    if p < 0 || p >= t.len() {
        p
    } else {
        match t[p] {
            TokV::Punct(c) => if c == ',' && depth == 0 {
                p
            } else {
                expr_end(t, p + 1, depth)
            },
            TokV::Close(_) => if depth == 0 {
                p
            } else {
                expr_end(t, p + 1, (depth - 1) as nat)
            },
            TokV::Open(_) => expr_end(t, p + 1, depth + 1),
            _ => expr_end(t, p + 1, depth),
        }
    }
}

/// The identifiers of a bracketed list from `p` (just inside the bracket),
/// after those in `acc`, with the position after the closing bracket; or
/// the position of the first token that does not fit.
pub open spec fn ident_list(t: Seq<TokV>, p: int, acc: Seq<Seq<char>>) -> Result<(Seq<Seq<char>>, int), int>
    decreases t.len() - p,
{
    if p < 0 || p >= t.len() {
        Err(p)
    } else if t[p] == TokV::Close(Delim::Bracket) {
        Ok((acc, p + 1))
    } else if t[p] is Ident {
        let acc2 = acc.push(t[p]->Ident_0);
        if tok_is(t, p + 1, TokV::Punct(',')) {
            ident_list(t, p + 2, acc2)
        } else if tok_is(t, p + 1, TokV::Close(Delim::Bracket)) {
            Ok((acc2, p + 2))
        } else {
            Err(p + 1)
        }
    } else {
        Err(p)
    }
}

/// Whether a list of expressions ends at `p`: at the close of its
/// parenthesis, or, at the top level, at the end of the tokens.
pub open spec fn list_ends(t: Seq<TokV>, p: int, in_parens: bool) -> bool {
    if in_parens {
        tok_is(t, p, TokV::Close(Delim::Paren))
    } else {
        p >= t.len()
    }
}

/// The ranges of the comma-separated expressions from `p`, after those in
/// `acc`, with the position where the list ends (a trailing comma is
/// allowed); or the position of the first token that does not fit.
pub open spec fn expr_list(t: Seq<TokV>, p: int, in_parens: bool, acc: Seq<(int, int)>) -> Result<(Seq<(int, int)>, int), int>
    decreases t.len() - p,
{
    if list_ends(t, p, in_parens) {
        Ok((acc, p))
    } else if p < 0 || p >= t.len() {
        Err(p)
    } else {
        let e = expr_end(t, p, 0);
        if e <= p {
            Err(p)
        } else if list_ends(t, e, in_parens) {
            Ok((acc.push((p, e)), e))
        } else if tok_is(t, e, TokV::Punct(',')) {
            expr_list(t, e + 1, in_parens, acc.push((p, e)))
        } else {
            Err(e)
        }
    }
}

/// A `metrics!` call: the crate named by `from_crate`, the backends, the
/// metric, the action and, where there is one, the log level. `exprs`
/// holds the ranges of the action's `n_action_args` arguments, then, with
/// a log line, its target and its arguments.
pub struct MetricsCall {
    pub hidden_crate: Option<String>,
    pub backends: Vec<String>,
    pub name: String,
    pub action: String,
    pub n_action_args: usize,
    pub level: Option<String>,
    pub exprs: Vec<(usize, usize)>,
}

/// A `metrics!` call, as the grammar describes it.
pub struct MetricsCallV {
    pub hidden_crate: Option<Seq<char>>,
    pub backends: Seq<Seq<char>>,
    pub name: Seq<char>,
    pub action: Seq<char>,
    pub n_action_args: nat,
    pub level: Option<Seq<char>>,
    pub exprs: Seq<(int, int)>,
}

impl View for MetricsCall {
    type V = MetricsCallV;

    open spec fn view(&self) -> MetricsCallV {
        MetricsCallV {
            hidden_crate: opt_str_view(self.hidden_crate),
            backends: strs_view(self.backends@),
            name: self.name@,
            action: self.action@,
            n_action_args: self.n_action_args as nat,
            level: opt_str_view(self.level),
            exprs: ranges_view(self.exprs@),
        }
    }
}

/// A `metrics!` call that does not follow the grammar, with the position of
/// the first token that does not fit.
#[derive(Debug, Clone, Copy, PartialEq, Eq, Structural)]
pub struct MetricsSyntaxError {
    pub pos: usize,
}

/// The optional `from_crate(krate)` that opens a call, with the position
/// after it.
pub open spec fn hidden_crate_part(t: Seq<TokV>) -> Result<(Option<Seq<char>>, int), int> {
    if word_at(t, 0, "from_crate"@) {
        if !tok_is(t, 1, TokV::Open(Delim::Paren)) {
            Err(1)
        } else if !ident_at(t, 2) {
            Err(2)
        } else if !tok_is(t, 3, TokV::Close(Delim::Paren)) {
            Err(3)
        } else {
            Ok((Some(t[2]->Ident_0), 4))
        }
    } else {
        Ok((None, 0))
    }
}

/// The log line of a call from `p`, if any, added to the rest of the call.
pub open spec fn log_part(t: Seq<TokV>, p: int, head: MetricsCallV) -> Result<MetricsCallV, int> {
    if p >= t.len() {
        Ok(head)
    } else if !ident_at(t, p) {
        Err(p)
    } else if !tok_is(t, p + 1, TokV::Punct(',')) {
        Err(p + 1)
    } else if !word_at(t, p + 2, "target"@) {
        Err(p + 2)
    } else {
        let s = if tok_is(t, p + 3, TokV::Punct(':')) {
            p + 4
        } else {
            p + 3
        };
        let e = expr_end(t, s, 0);
        if e <= s {
            Err(s)
        } else {
            let q = if tok_is(t, e, TokV::Punct(',')) {
                e + 1
            } else {
                e
            };
            match expr_list(t, q, false, seq![]) {
                Err(x) => Err(x),
                Ok((params, _)) => Ok(
                    MetricsCallV {
                        level: Some(t[p]->Ident_0),
                        exprs: head.exprs.push((s, e)) + params,
                        ..head
                    },
                ),
            }
        }
    }
}

/// The call that the tokens of a `metrics!` invocation write, or the
/// position of the first token that does not fit.
pub open spec fn metrics_grammar(t: Seq<TokV>) -> Result<MetricsCallV, int> {
    match hidden_crate_part(t) {
        Err(e) => Err(e),
        Ok((hidden, p1)) => if !tok_is(t, p1, TokV::Open(Delim::Bracket)) {
            Err(p1)
        } else {
            match ident_list(t, p1 + 1, seq![]) {
                Err(e) => Err(e),
                Ok((backends, p2)) => if !tok_is(t, p2, TokV::Punct(',')) {
                    Err(p2)
                } else if !ident_at(t, p2 + 1) {
                    Err(p2 + 1)
                } else if !tok_is(t, p2 + 2, TokV::Punct(',')) {
                    Err(p2 + 2)
                } else if !ident_at(t, p2 + 3) {
                    Err(p2 + 3)
                } else if !tok_is(t, p2 + 4, TokV::Open(Delim::Paren)) {
                    Err(p2 + 4)
                } else {
                    match expr_list(t, p2 + 5, true, seq![]) {
                        Err(e) => Err(e),
                        Ok((args, p3)) => {
                            let p4 = if tok_is(t, p3 + 1, TokV::Punct(',')) {
                                p3 + 2
                            } else {
                                p3 + 1
                            };
                            log_part(
                                t,
                                p4,
                                MetricsCallV {
                                    hidden_crate: hidden,
                                    backends: backends,
                                    name: t[p2 + 1]->Ident_0,
                                    action: t[p2 + 3]->Ident_0,
                                    n_action_args: args.len(),
                                    level: None,
                                    exprs: args,
                                },
                            )
                        },
                    }
                },
            }
        },
    }
}

/// A parse result, as the grammar describes it.
pub open spec fn parse_view(r: Result<MetricsCall, MetricsSyntaxError>) -> Result<MetricsCallV, int> {
    match r {
        Ok(c) => Ok(c@),
        Err(e) => Err(e.pos as int),
    }
}

/// Whether two strings hold the same characters.
fn str_eq(a: &str, b: &str) -> (eq: bool)
    ensures
        eq == (a@ == b@),
{
    let n = a.unicode_len();
    if n != b.unicode_len() {
        return false;
    }
    let mut i: usize = 0;
    while i < n
        invariant
            n == a@.len(),
            n == b@.len(),
            i <= n,
            forall|j: int| 0 <= j < i ==> a@[j] == b@[j],
        decreases n - i,
    {
        if a.get_char(i) != b.get_char(i) {
            return false;
        }
        i = i + 1;
    }
    proof {
        assert(a@ =~= b@);
    }
    true
}

/// Whether the token at `p` is the punctuation `c`.
fn punct_at(t: &Vec<Tok>, p: usize, c: char) -> (b: bool)
    ensures
        b == tok_is(toks_view(t@), p as int, TokV::Punct(c)),
{
    if p >= t.len() {
        return false;
    }
    match &t[p] {
        Tok::Punct(x) => *x == c,
        _ => false,
    }
}

/// Whether the token at `p` opens a group with delimiter `d`.
fn open_at(t: &Vec<Tok>, p: usize, d: Delim) -> (b: bool)
    ensures
        b == tok_is(toks_view(t@), p as int, TokV::Open(d)),
{
    if p >= t.len() {
        return false;
    }
    match &t[p] {
        Tok::Open(x) => *x == d,
        _ => false,
    }
}

/// Whether the token at `p` closes a group with delimiter `d`.
fn close_at(t: &Vec<Tok>, p: usize, d: Delim) -> (b: bool)
    ensures
        b == tok_is(toks_view(t@), p as int, TokV::Close(d)),
{
    if p >= t.len() {
        return false;
    }
    match &t[p] {
        Tok::Close(x) => *x == d,
        _ => false,
    }
}

/// The identifier at `p`, if the token there is one.
fn ident_str(t: &Vec<Tok>, p: usize) -> (r: Option<String>)
    ensures
        r is Some <==> ident_at(toks_view(t@), p as int),
        r matches Some(s) ==> s@ == toks_view(t@)[p as int]->Ident_0,
{
    if p >= t.len() {
        return None;
    }
    match &t[p] {
        Tok::Ident(s) => Some(s.clone()),
        _ => None,
    }
}

/// Whether the token at `p` is the identifier `word`.
fn word_is(t: &Vec<Tok>, p: usize, word: &str) -> (b: bool)
    ensures
        b == word_at(toks_view(t@), p as int, word@),
{
    if p >= t.len() {
        return false;
    }
    match &t[p] {
        Tok::Ident(s) => str_eq(s.as_str(), word),
        _ => false,
    }
}

/// Where the expression that starts at `start` ends.
fn find_expr_end(t: &Vec<Tok>, start: usize) -> (e: usize)
    requires
        start <= t@.len(),
    ensures
        e as int == expr_end(toks_view(t@), start as int, 0),
        start <= e <= t@.len(),
{
    let ghost tv = toks_view(t@);
    let mut p = start;
    let mut depth: usize = 0;
    while p < t.len()
        invariant
            tv == toks_view(t@),
            start <= p <= t@.len(),
            depth <= p - start,
            expr_end(tv, p as int, depth as nat) == expr_end(tv, start as int, 0),
        decreases t@.len() - p,
    {
        match &t[p] {
            Tok::Punct(c) => {
                if *c == ',' && depth == 0 {
                    return p;
                }
            },
            Tok::Close(_) => {
                if depth == 0 {
                    return p;
                }
                depth = depth - 1;
            },
            Tok::Open(_) => {
                depth = depth + 1;
            },
            _ => {},
        }
        p = p + 1;
    }
    p
}

/// The identifiers of a bracketed list that starts just inside the bracket
/// at `start`, with the position after the closing bracket.
fn parse_ident_list(t: &Vec<Tok>, start: usize) -> (r: Result<(Vec<String>, usize), usize>)
    requires
        start <= t@.len(),
        t@.len() < usize::MAX - 8,
    ensures
        match r {
            Ok((names, q)) => ident_list(toks_view(t@), start as int, seq![]) == Ok::<
                (Seq<Seq<char>>, int),
                int,
            >((strs_view(names@), q as int)),
            Err(q) => ident_list(toks_view(t@), start as int, seq![]) == Err::<(Seq<Seq<char>>, int), int>(
                q as int,
            ),
        },
        r matches Ok((_, q)) ==> q <= t@.len(),
{
    let ghost tv = toks_view(t@);
    let mut names: Vec<String> = Vec::new();
    let mut p = start;
    proof {
        assert(strs_view(names@) =~= seq![]);
    }
    loop
        invariant
            tv == toks_view(t@),
            start <= p <= t@.len(),
            t@.len() < usize::MAX - 8,
            ident_list(tv, p as int, strs_view(names@)) == ident_list(tv, start as int, seq![]),
        decreases t@.len() - p,
    {
        if p >= t.len() {
            return Err(p);
        }
        if close_at(t, p, Delim::Bracket) {
            return Ok((names, p + 1));
        }
        match ident_str(t, p) {
            None => return Err(p),
            Some(name) => {
                let ghost before = strs_view(names@);
                names.push(name);
                proof {
                    assert(strs_view(names@) =~= before.push(tv[p as int]->Ident_0));
                }
                if punct_at(t, p + 1, ',') {
                    p = p + 2;
                    if p > t.len() {
                        return Err(p);
                    }
                } else if close_at(t, p + 1, Delim::Bracket) {
                    return Ok((names, p + 2));
                } else {
                    return Err(p + 1);
                }
            },
        }
    }
}

/// The ranges of the comma-separated expressions from `start`, with the
/// position where the list ends.
fn parse_expr_list(t: &Vec<Tok>, start: usize, in_parens: bool) -> (r: Result<(Vec<(usize, usize)>, usize), usize>)
    requires
        start <= t@.len(),
        t@.len() < usize::MAX - 8,
    ensures
        match r {
            Ok((ranges, q)) => expr_list(toks_view(t@), start as int, in_parens, seq![]) == Ok::<
                (Seq<(int, int)>, int),
                int,
            >((ranges_view(ranges@), q as int)),
            Err(q) => expr_list(toks_view(t@), start as int, in_parens, seq![]) == Err::<
                (Seq<(int, int)>, int),
                int,
            >(q as int),
        },
        r matches Ok((_, q)) ==> q <= t@.len(),
{
    let ghost tv = toks_view(t@);
    let mut ranges: Vec<(usize, usize)> = Vec::new();
    let mut p = start;
    proof {
        assert(ranges_view(ranges@) =~= seq![]);
    }
    loop
        invariant
            tv == toks_view(t@),
            start <= p <= t@.len(),
            t@.len() < usize::MAX - 8,
            expr_list(tv, p as int, in_parens, ranges_view(ranges@)) == expr_list(tv, start as int, in_parens, seq![]),
        decreases t@.len() - p,
    {
        let ends = if in_parens {
            close_at(t, p, Delim::Paren)
        } else {
            p >= t.len()
        };
        if ends {
            return Ok((ranges, p));
        }
        if p >= t.len() {
            return Err(p);
        }
        let e = find_expr_end(t, p);
        if e <= p {
            return Err(p);
        }
        let ghost before = ranges_view(ranges@);
        ranges.push((p, e));
        proof {
            assert(ranges_view(ranges@) =~= before.push((p as int, e as int)));
        }
        let ends_after = if in_parens {
            close_at(t, e, Delim::Paren)
        } else {
            e >= t.len()
        };
        if ends_after {
            return Ok((ranges, e));
        }
        if punct_at(t, e, ',') {
            p = e + 1;
        } else {
            return Err(e);
        }
    }
}

/// Parse the tokens of a `metrics!` invocation: the call that they write,
/// or the position of the first token that does not fit the grammar.
pub fn parse_metrics_call(toks: &Vec<Tok>) -> (r: Result<MetricsCall, MetricsSyntaxError>)
    requires
        toks@.len() < usize::MAX - 8,
    ensures
        parse_view(r) == metrics_grammar(toks_view(toks@)),
{
    let ghost tv = toks_view(toks@);
    let err = |pos: usize| -> (e: Result<MetricsCall, MetricsSyntaxError>)
        ensures
            e == Err::<MetricsCall, MetricsSyntaxError>(MetricsSyntaxError { pos }),
        { Err(MetricsSyntaxError { pos }) };
    // from_crate(krate)
    let mut hidden_crate: Option<String> = None;
    let mut p1: usize = 0;
    if word_is(toks, 0, "from_crate") {
        if !open_at(toks, 1, Delim::Paren) {
            return err(1);
        }
        match ident_str(toks, 2) {
            None => return err(2),
            Some(c) => {
                hidden_crate = Some(c);
            },
        }
        if !close_at(toks, 3, Delim::Paren) {
            return err(3);
        }
        p1 = 4;
    }
    proof {
        reveal_strlit("from_crate");
        assert(hidden_crate_part(tv) == Ok::<(Option<Seq<char>>, int), int>(
            (opt_str_view(hidden_crate), p1 as int),
        ));
    }
    // [backend, ..]
    if !open_at(toks, p1, Delim::Bracket) {
        return err(p1);
    }
    let (backends, p2) = match parse_ident_list(toks, p1 + 1) {
        Ok(x) => x,
        Err(e) => return err(e),
    };
    // , metric , action (
    if !punct_at(toks, p2, ',') {
        return err(p2);
    }
    let name = match ident_str(toks, p2 + 1) {
        Some(n) => n,
        None => return err(p2 + 1),
    };
    if !punct_at(toks, p2 + 2, ',') {
        return err(p2 + 2);
    }
    let action = match ident_str(toks, p2 + 3) {
        Some(a) => a,
        None => return err(p2 + 3),
    };
    if !open_at(toks, p2 + 4, Delim::Paren) {
        return err(p2 + 4);
    }
    let (mut exprs, p3) = match parse_expr_list(toks, p2 + 5, true) {
        Ok(x) => x,
        Err(e) => return err(e),
    };
    let n_action_args = exprs.len();
    let p4 = if punct_at(toks, p3 + 1, ',') {
        p3 + 2
    } else {
        p3 + 1
    };
    let ghost head = MetricsCallV {
        hidden_crate: opt_str_view(hidden_crate),
        backends: strs_view(backends@),
        name: name@,
        action: action@,
        n_action_args: n_action_args as nat,
        level: None,
        exprs: ranges_view(exprs@),
    };
    assert(metrics_grammar(tv) == log_part(tv, p4 as int, head));
    // level , target expr [,] arg, ..
    if p4 >= toks.len() {
        return Ok(MetricsCall { hidden_crate, backends, name, action, n_action_args, level: None, exprs });
    }
    let level = match ident_str(toks, p4) {
        Some(l) => l,
        None => return err(p4),
    };
    if !punct_at(toks, p4 + 1, ',') {
        return err(p4 + 1);
    }
    if !word_is(toks, p4 + 2, "target") {
        proof {
            reveal_strlit("target");
        }
        return err(p4 + 2);
    }
    proof {
        reveal_strlit("target");
    }
    let st = if punct_at(toks, p4 + 3, ':') {
        p4 + 4
    } else {
        p4 + 3
    };
    if st > toks.len() {
        return err(st);
    }
    let e = find_expr_end(toks, st);
    if e <= st {
        return err(st);
    }
    let q = if punct_at(toks, e, ',') {
        e + 1
    } else {
        e
    };
    let (mut params, _) = match parse_expr_list(toks, q, false) {
        Ok(x) => x,
        Err(x) => return err(x),
    };
    let ghost action_ranges = ranges_view(exprs@);
    let ghost param_ranges = ranges_view(params@);
    exprs.push((st, e));
    exprs.append(&mut params);
    proof {
        assert(ranges_view(exprs@) =~= action_ranges.push((st as int, e as int)) + param_ranges);
    }
    Ok(MetricsCall { hidden_crate, backends, name, action, n_action_args, level: Some(level), exprs })
}

} // verus!

//! The grammar of templates: a recursive-descent parser from source text to
//! a syntax tree.
//!
//! ```text
//! literal      = '"' (raw | '\' any)* '"'
//! identifier   = (ASCII letter | digit | '_')+
//! function     = identifier '(' ws* (template ws* (',' ws* template ws*)*)? ')'
//! term         = ('(' template ')' | function | identifier | literal) ('.' function)*
//! template     = term (ws+ term)*
//! program      = ws* template? ws* end
//! ```
use vstd::prelude::*;

use crate::error::TemplateError;
use crate::syntax::{
    expr_syntax, functions_view, parts_view, FunctionNode, FunctionSyntax, LiteralPart, PartSyntax, TemplateNode, TemplateSyntax,
    TermExpr, TermExprSyntax, TermNode, TermSyntax,
};
use crate::text::chars_of;

verus! {

/// The parser of the template grammar.
pub struct TemplateParser;

/// The characters that separate terms.
pub open spec fn is_blank(c: char) -> bool {
    c == ' ' || c == '\n' || c == '\t' || c == '\r'
}

/// The characters of identifiers.
pub open spec fn is_word_char(c: char) -> bool {
    ('a' <= c && c <= 'z') || ('A' <= c && c <= 'Z') || ('0' <= c && c <= '9') || c == '_'
}

/// Whether every character of `s` separates terms.
pub open spec fn all_blank(s: Seq<char>) -> bool {
    forall|i: int| 0 <= i < s.len() ==> is_blank(#[trigger] s[i])
}

fn blank(c: char) -> (r: bool)
    ensures
        r == is_blank(c),
{
    c == ' ' || c == '\n' || c == '\t' || c == '\r'
}

fn word_char(c: char) -> (r: bool)
    ensures
        r == is_word_char(c),
{
    ('a' <= c && c <= 'z') || ('A' <= c && c <= 'Z') || ('0' <= c && c <= '9') || c == '_'
}

/// Whether a term can start with `c`.
pub open spec fn is_term_start(c: char) -> bool {
    c == '"' || c == '(' || is_word_char(c)
}

fn starts_term(c: char) -> (r: bool)
    ensures
        r == is_term_start(c),
{
    c == '"' || c == '(' || word_char(c)
}


/// The position after the blanks that start at `p`.
pub open spec fn blanks_end(s: Seq<char>, p: int) -> int
    decreases s.len() - p,
{
    if 0 <= p < s.len() && is_blank(s[p]) {
        blanks_end(s, p + 1)
    } else {
        p
    }
}

/// The position after the identifier characters that start at `p`.
pub open spec fn word_end(s: Seq<char>, p: int) -> int
    decreases s.len() - p,
{
    if 0 <= p < s.len() && is_word_char(s[p]) {
        word_end(s, p + 1)
    } else {
        p
    }
}

/// The position after the raw literal text that starts at `p`.
pub open spec fn raw_end(s: Seq<char>, p: int) -> int
    decreases s.len() - p,
{
    if 0 <= p < s.len() && s[p] != '"' && s[p] != '\\' {
        raw_end(s, p + 1)
    } else {
        p
    }
}

/// The parts of a literal from `p` to its closing quote, and the position
/// after that quote; or where reading stops.
pub open spec fn literal_spec(s: Seq<char>, p: int) -> Result<(Seq<PartSyntax>, int), int>
    decreases s.len() - p,
{
    if p < 0 || p >= s.len() {
        Err(s.len() as int)
    } else if s[p] == '"' {
        Ok((Seq::empty(), p + 1))
    } else if s[p] == '\\' {
        if p + 1 >= s.len() {
            Err(s.len() as int)
        } else {
            match literal_spec(s, p + 2) {
                Ok(rest) => Ok((seq![PartSyntax::Escape(s[p + 1])] + rest.0, rest.1)),
                Err(x) => Err(x),
            }
        }
    } else {
        let q = raw_end(s, p + 1);
        if q <= p || q > s.len() {
            Err(p)
        } else {
            match literal_spec(s, q) {
                Ok(rest) => Ok((seq![PartSyntax::Raw(s.subrange(p, q))] + rest.0, rest.1)),
                Err(x) => Err(x),
            }
        }
    }
}

/// A call at `pos`: a name, then its arguments in parentheses.
pub open spec fn function_spec(s: Seq<char>, pos: int) -> Result<(FunctionSyntax, int), int>
    decreases s.len() - pos, 1nat,
{
    let a = word_end(s, pos);
    if pos < 0 || pos > s.len() || a <= pos || a > s.len() {
        Err(pos)
    } else if a >= s.len() || s[a] != '(' {
        Err(a)
    } else {
        let p = blanks_end(s, a + 1);
        let name = s.subrange(pos, a);
        if p <= pos || p > s.len() {
            Err(p)
        } else if p < s.len() && s[p] == ')' {
            Ok((FunctionSyntax { name, args: Seq::empty() }, p + 1))
        } else {
            match args_spec(s, p) {
                Ok(r) => if 0 <= r.1 < s.len() && s[r.1] == ')' {
                    Ok((FunctionSyntax { name, args: r.0 }, r.1 + 1))
                } else {
                    Err(r.1)
                },
                Err(x) => Err(x),
            }
        }
    }
}

/// Arguments from `p`: templates separated by commas, with blanks around
/// them; and the position after the blanks that follow the last one.
pub open spec fn args_spec(s: Seq<char>, p: int) -> Result<(Seq<TemplateSyntax>, int), int>
    decreases s.len() - p, 4nat,
{
    if p < 0 || p > s.len() {
        Err(p)
    } else {
        match template_spec(s, p) {
            Ok(t) => {
                let q = blanks_end(s, t.1);
                if 0 <= q < s.len() && s[q] == ',' {
                    let r = blanks_end(s, q + 1);
                    if r <= p || r > s.len() {
                        Err(r)
                    } else {
                        match args_spec(s, r) {
                            Ok(rest) => Ok((seq![t.0] + rest.0, rest.1)),
                            Err(x) => Err(x),
                        }
                    }
                } else {
                    Ok((seq![t.0], q))
                }
            },
            Err(x) => Err(x),
        }
    }
}

/// Methods from `p`: calls each after a dot.
pub open spec fn methods_spec(s: Seq<char>, p: int) -> Result<(Seq<FunctionSyntax>, int), int>
    decreases s.len() - p, 0nat,
{
    if 0 <= p < s.len() && s[p] == '.' {
        match function_spec(s, p + 1) {
            Ok(f) => if f.1 <= p || f.1 > s.len() {
                Err(p)
            } else {
                match methods_spec(s, f.1) {
                    Ok(rest) => Ok((seq![f.0] + rest.0, rest.1)),
                    Err(x) => Err(x),
                }
            },
            Err(x) => Err(x),
        }
    } else {
        Ok((Seq::empty(), p))
    }
}

/// A term from its expression and the result of reading its methods.
pub open spec fn with_methods(
    expr: TermExprSyntax,
    m: Result<(Seq<FunctionSyntax>, int), int>,
) -> Result<(TermSyntax, int), int> {
    match m {
        Ok(r) => Ok((TermSyntax { expr, methods: r.0 }, r.1)),
        Err(x) => Err(x),
    }
}

/// A term at `pos`: a group, call, keyword or literal, then its methods.
pub open spec fn term_spec(s: Seq<char>, pos: int) -> Result<(TermSyntax, int), int>
    decreases s.len() - pos, 2nat,
{
    if pos < 0 || pos >= s.len() {
        Err(pos)
    } else if s[pos] == '(' {
        match template_spec(s, pos + 1) {
            Ok(t) => if t.1 < 0 || t.1 >= s.len() || s[t.1] != ')' {
                Err(t.1)
            } else if t.1 + 1 <= pos {
                Err(pos)
            } else {
                with_methods(TermExprSyntax::Group(Box::new(t.0)), methods_spec(s, t.1 + 1))
            },
            Err(x) => Err(x),
        }
    } else if s[pos] == '"' {
        match literal_spec(s, pos + 1) {
            Ok(l) => if l.1 <= pos || l.1 > s.len() {
                Err(pos)
            } else {
                with_methods(TermExprSyntax::Literal(l.0), methods_spec(s, l.1))
            },
            Err(x) => Err(x),
        }
    } else {
        let a = word_end(s, pos);
        if a <= pos || a > s.len() {
            Err(pos)
        } else if a < s.len() && s[a] == '(' {
            match function_spec(s, pos) {
                Ok(f) => if f.1 <= pos || f.1 > s.len() {
                    Err(pos)
                } else {
                    with_methods(TermExprSyntax::Function(f.0), methods_spec(s, f.1))
                },
                Err(x) => Err(x),
            }
        } else {
            with_methods(TermExprSyntax::Identifier(s.subrange(pos, a)), methods_spec(s, a))
        }
    }
}

/// The terms after `p` that follow blanks.
pub open spec fn more_terms_spec(s: Seq<char>, p: int) -> Result<(Seq<TermSyntax>, int), int>
    decreases s.len() - p, 0nat,
{
    let q = blanks_end(s, p);
    if 0 <= p && q > p && q < s.len() && is_term_start(s[q]) {
        match term_spec(s, q) {
            Ok(t) => if t.1 <= q || t.1 > s.len() {
                Err(q)
            } else {
                match more_terms_spec(s, t.1) {
                    Ok(rest) => Ok((seq![t.0] + rest.0, rest.1)),
                    Err(x) => Err(x),
                }
            },
            Err(x) => Err(x),
        }
    } else {
        Ok((Seq::empty(), p))
    }
}

/// A template at `pos`: terms separated by blanks.
pub open spec fn template_spec(s: Seq<char>, pos: int) -> Result<(TemplateSyntax, int), int>
    decreases s.len() - pos, 3nat,
{
    if pos < 0 || pos > s.len() {
        Err(pos)
    } else {
        match term_spec(s, pos) {
            Ok(t) => if t.1 <= pos || t.1 > s.len() {
                Err(pos)
            } else {
                match more_terms_spec(s, t.1) {
                    Ok(rest) => Ok((TemplateSyntax { terms: seq![t.0] + rest.0 }, rest.1)),
                    Err(x) => Err(x),
                }
            },
            Err(x) => Err(x),
        }
    }
}

/// What a program reads as: nothing, where it is blanks only; a template
/// with blanks around it; or the position where it stops following the
/// grammar.
pub open spec fn program_spec(s: Seq<char>) -> Result<Option<TemplateSyntax>, int> {
    let start = blanks_end(s, 0);
    if start >= s.len() {
        Ok(None)
    } else {
        match template_spec(s, start) {
            Ok(t) => if blanks_end(s, t.1) == s.len() {
                Ok(Some(t.0))
            } else {
                Err(blanks_end(s, t.1))
            },
            Err(x) => Err(x),
        }
    }
}

/// Results with the sequence `v` put in front of what they read.
pub open spec fn prepend<A>(v: Seq<A>, r: Result<(Seq<A>, int), int>) -> Result<(Seq<A>, int), int> {
    match r {
        Ok(x) => Ok((v + x.0, x.1)),
        Err(e) => Err(e),
    }
}

proof fn lemma_prepend_assoc<A>(v: Seq<A>, w: Seq<A>, r: Result<(Seq<A>, int), int>)
    ensures
        prepend(v, prepend(w, r)) == prepend(v + w, r),
{
    if r is Ok {
        assert(v + (w + r->Ok_0.0) =~= (v + w) + r->Ok_0.0);
    }
}

proof fn lemma_prepend_empty<A>(v: Seq<A>, p: int)
    ensures
        prepend(v, Ok((Seq::<A>::empty(), p))) == Ok::<(Seq<A>, int), int>((v, p)),
{
    assert(v + Seq::<A>::empty() =~= v);
}

proof fn lemma_view_push<A, B>(v: Seq<A>, x: A, f: spec_fn(A) -> B)
    ensures
        v.push(x).map_values(f) == v.map_values(f).push(f(x)),
{
    assert(v.push(x).map_values(f) =~= v.map_values(f).push(f(x)));
}

/// The character at `i`.
fn char_at(s: &Vec<char>, i: usize) -> (c: char)
    requires
        i < s@.len(),
    ensures
        c == s@[i as int],
{
    s[i]
}

/// Adds a part to a literal.
fn push_part(parts: &mut Vec<LiteralPart>, part: LiteralPart)
    ensures
        parts_view(final(parts)@) == parts_view(old(parts)@) + seq![part@],
{
    let ghost v = parts@;
    let ghost x = part@;
    parts.push(part);
    assert(parts_view(parts@) =~= parts_view(v) + seq![x]);
}

/// The forms of terms.
pub open spec fn terms_view(v: Seq<TermNode>) -> Seq<TermSyntax> {
    v.map_values(|t: TermNode| t@)
}

/// The forms of templates.
pub open spec fn templates_view(v: Seq<TemplateNode>) -> Seq<TemplateSyntax> {
    v.map_values(|t: TemplateNode| t@)
}

/// The position after the blanks that start at `pos`.
fn skip_blanks(s: &Vec<char>, pos: usize) -> (r: usize)
    requires
        pos <= s@.len(),
    ensures
        pos <= r <= s@.len(),
        r == blanks_end(s@, pos as int),
        forall|i: int| pos <= i < r ==> is_blank(s@[i]),
        r == s@.len() || !is_blank(s@[r as int]),
{
    let mut p = pos;
    while p < s.len() && blank(s[p])
        invariant
            pos <= p <= s@.len(),
            blanks_end(s@, pos as int) == blanks_end(s@, p as int),
            forall|i: int| pos <= i < p ==> is_blank(s@[i]),
        decreases s.len() - p,
    {
        p = p + 1;
    }
    p
}

/// An identifier at `pos`, and the position after it.
fn parse_identifier(s: &Vec<char>, pos: usize) -> (r: Result<(Vec<char>, usize), usize>)
    requires
        pos <= s@.len(),
    ensures
        match r {
            Ok((name, end)) => pos < end <= s@.len() && end == word_end(s@, pos as int) && name@
                == s@.subrange(pos as int, end as int),
            Err(p) => p == pos && word_end(s@, pos as int) == pos,
        },
{
    let mut name: Vec<char> = Vec::new();
    let mut p = pos;
    while p < s.len() && word_char(s[p])
        invariant
            pos <= p <= s@.len(),
            word_end(s@, pos as int) == word_end(s@, p as int),
            name@ == s@.subrange(pos as int, p as int),
        decreases s.len() - p,
    {
        name.push(s[p]);
        assert(s@.subrange(pos as int, p + 1) == s@.subrange(pos as int, p as int).push(
            s@[p as int],
        ));
        p = p + 1;
    }
    if p == pos {
        Err(pos)
    } else {
        Ok((name, p))
    }
}

/// A string literal at `pos` (which holds `"`), and the position after it.
fn parse_literal(s: &Vec<char>, pos: usize) -> (r: Result<(Vec<LiteralPart>, usize), usize>)
    requires
        pos < s@.len(),
    ensures
        match r {
            Ok((parts, end)) => pos + 2 <= end <= s@.len() && literal_spec(s@, pos + 1) == Ok::<
                (Seq<PartSyntax>, int),
                int,
            >((parts_view(parts@), end as int)),
            Err(p) => p <= s@.len() && literal_spec(s@, pos + 1) == Err::<(Seq<PartSyntax>, int), int>(p as int),
        },
{
    let n = s.len();
    let mut parts: Vec<LiteralPart> = Vec::new();
    let mut p = pos + 1;
    assert(parts_view(parts@) =~= Seq::<PartSyntax>::empty());
    assert(prepend(Seq::<PartSyntax>::empty(), literal_spec(s@, p as int)) == literal_spec(s@, p as int)) by {
        if literal_spec(s@, p as int) is Ok {
            assert(Seq::<PartSyntax>::empty() + literal_spec(s@, p as int)->Ok_0.0 =~= literal_spec(s@, p as int)->Ok_0.0);
        }
    }
    while p < n && s[p] != '"'
        invariant
            n == s@.len(),
            pos < p <= s@.len(),
            literal_spec(s@, pos + 1) == prepend(parts_view(parts@), literal_spec(s@, p as int)),
        decreases s.len() - p,
    {
        let ghost before = parts_view(parts@);
        if s[p] == '\\' && p + 1 >= s.len() {
            return Err(s.len());
        }
        if s[p] == '\\' {
            let c = char_at(s, p + 1);
            let ghost g = PartSyntax::Escape(c);
            push_part(&mut parts, LiteralPart::Escape(c));
            assert(literal_spec(s@, p as int) == prepend(seq![g], literal_spec(s@, p + 2)));
            proof {
                lemma_prepend_assoc(before, seq![g], literal_spec(s@, p + 2));
            }
            p = p + 2;
        } else {
            let ghost top = p as int;
            let mut raw: Vec<char> = Vec::new();
            raw.push(s[p]);
            p = p + 1;
            assert(raw@ =~= s@.subrange(top, p as int));
            while p < s.len() && s[p] != '"' && s[p] != '\\'
                invariant
                    pos < top < p <= s@.len(),
                    raw@ == s@.subrange(top, p as int),
                    raw_end(s@, top + 1) == raw_end(s@, p as int),
                decreases s.len() - p,
            {
                raw.push(s[p]);
                p = p + 1;
                assert(raw@ =~= s@.subrange(top, p as int));
            }
            let ghost g = PartSyntax::Raw(raw@);
            push_part(&mut parts, LiteralPart::Raw(raw));
            assert(raw_end(s@, p as int) == p);
            assert(literal_spec(s@, top) == prepend(seq![g], literal_spec(s@, p as int)));
            proof {
                lemma_prepend_assoc(before, seq![g], literal_spec(s@, p as int));
            }
        }
    }
    if p >= s.len() {
        return Err(s.len());
    }
    proof {
        lemma_prepend_empty(parts_view(parts@), p + 1);
    }
    Ok((parts, p + 1))
}

/// The models of a call result.
pub open spec fn call_result(r: Result<(FunctionNode, usize), usize>) -> Result<(FunctionSyntax, int), int> {
    match r {
        Ok((f, e)) => Ok((f@, e as int)),
        Err(p) => Err(p as int),
    }
}

/// The models of a term result.
pub open spec fn term_result(r: Result<(TermNode, usize), usize>) -> Result<(TermSyntax, int), int> {
    match r {
        Ok((t, e)) => Ok((t@, e as int)),
        Err(p) => Err(p as int),
    }
}

/// The models of a template result.
pub open spec fn template_result(r: Result<(TemplateNode, usize), usize>) -> Result<(TemplateSyntax, int), int> {
    match r {
        Ok((t, e)) => Ok((t@, e as int)),
        Err(p) => Err(p as int),
    }
}

/// What a call reads as, given what its arguments read as.
pub open spec fn finish_call(s: Seq<char>, name: Seq<char>, r: Result<(Seq<TemplateSyntax>, int), int>) -> Result<(FunctionSyntax, int), int> {
    match r {
        Ok(x) => if 0 <= x.1 < s.len() && s[x.1] == ')' {
            Ok((FunctionSyntax { name, args: x.0 }, x.1 + 1))
        } else {
            Err(x.1)
        },
        Err(e) => Err(e),
    }
}

/// A call at `pos`: a name, then its arguments in parentheses.
fn parse_function(s: &Vec<char>, pos: usize) -> (r: Result<(FunctionNode, usize), usize>)
    requires
        pos <= s@.len(),
    ensures
        call_result(r) == function_spec(s@, pos as int),
        r matches Ok((_, end)) ==> pos < end <= s@.len(),
        r matches Err(p) ==> p <= s@.len(),
    decreases s@.len() - pos, 1nat,
{
    let (name, after) = parse_identifier(s, pos)?;
    if after >= s.len() || s[after] != '(' {
        return Err(after);
    }
    let mut args: Vec<TemplateNode> = Vec::new();
    let mut p = skip_blanks(s, after + 1);
    if p < s.len() && s[p] == ')' {
        let f = FunctionNode { name, args };
        assert(f@.args =~= Seq::<TemplateSyntax>::empty());
        return Ok((f, p + 1));
    }
    let ghost p0 = p as int;
    assert(function_spec(s@, pos as int) == finish_call(s@, name@, args_spec(s@, p0)));
    assert(templates_view(args@) =~= Seq::<TemplateSyntax>::empty());
    assert(prepend(templates_view(args@), args_spec(s@, p0)) == args_spec(s@, p0)) by {
        if args_spec(s@, p0) is Ok {
            assert(Seq::<TemplateSyntax>::empty() + args_spec(s@, p0)->Ok_0.0 =~= args_spec(s@, p0)->Ok_0.0);
        }
    }
    loop
        invariant_except_break
            args_spec(s@, p0) == prepend(templates_view(args@), args_spec(s@, p as int)),
        invariant
            pos < p <= s@.len(),
            pos < p0,
            function_spec(s@, pos as int) == finish_call(s@, name@, args_spec(s@, p0)),
        ensures
            args_spec(s@, p0) == Ok::<(Seq<TemplateSyntax>, int), int>((templates_view(args@), p as int)),
        decreases s@.len() - p,
    {
        let ghost before = templates_view(args@);
        let ghost at = p as int;
        let (arg, end) = parse_template(s, p)?;
        let ghost old_args = args@;
        let ghost garg = arg;
        args.push(arg);
        proof {
            lemma_view_push(old_args, garg, |q: TemplateNode| q@);
        }
        assert(templates_view(args@) =~= before + seq![garg@]);
        let q = skip_blanks(s, end);
        if q < s.len() && s[q] == ',' {
            p = skip_blanks(s, q + 1);
            proof {
                lemma_prepend_assoc(before, seq![garg@], args_spec(s@, p as int));
            }
        } else {
            p = q;
            proof {
                lemma_prepend_empty(before + seq![garg@], q as int);
                assert(args_spec(s@, at) == Ok::<(Seq<TemplateSyntax>, int), int>((seq![garg@], q as int)));
            }
            break;
        }
    }
    let f = FunctionNode { name, args };
    assert(f@.args =~= templates_view(args@));
    if p < s.len() && s[p] == ')' {
        Ok((f, p + 1))
    } else {
        Err(p)
    }
}

/// Methods at `pos`: calls each after a dot.
fn parse_methods(s: &Vec<char>, pos: usize) -> (r: Result<(Vec<FunctionNode>, usize), usize>)
    requires
        pos <= s@.len(),
    ensures
        match r {
            Ok((ms, end)) => pos <= end <= s@.len() && methods_spec(s@, pos as int) == Ok::<
                (Seq<FunctionSyntax>, int),
                int,
            >((functions_view(ms@), end as int)),
            Err(p) => p <= s@.len() && methods_spec(s@, pos as int) == Err::<(Seq<FunctionSyntax>, int), int>(p as int),
        },
    decreases s@.len() - pos, 0nat,
{
    let mut methods: Vec<FunctionNode> = Vec::new();
    let mut p = pos;
    assert(functions_view(methods@) =~= Seq::<FunctionSyntax>::empty());
    assert(prepend(functions_view(methods@), methods_spec(s@, p as int)) == methods_spec(s@, p as int)) by {
        if methods_spec(s@, p as int) is Ok {
            assert(Seq::<FunctionSyntax>::empty() + methods_spec(s@, p as int)->Ok_0.0 =~= methods_spec(s@, p as int)->Ok_0.0);
        }
    }
    while p < s.len() && s[p] == '.'
        invariant
            pos <= p <= s@.len(),
            methods_spec(s@, pos as int) == prepend(functions_view(methods@), methods_spec(s@, p as int)),
        decreases s@.len() - p,
    {
        let ghost before = functions_view(methods@);
        let (f, end) = parse_function(s, p + 1)?;
        let ghost old_methods = methods@;
        let ghost gf = f;
        methods.push(f);
        proof {
            lemma_view_push(old_methods, gf, |q: FunctionNode| q@);
        }
        assert(functions_view(methods@) =~= before + seq![gf@]);
        proof {
            lemma_prepend_assoc(before, seq![gf@], methods_spec(s@, end as int));
        }
        p = end;
    }
    proof {
        lemma_prepend_empty(functions_view(methods@), p as int);
    }
    Ok((methods, p))
}

/// A term at `pos`: a group, call, keyword or literal, then its methods.
fn parse_term(s: &Vec<char>, pos: usize) -> (r: Result<(TermNode, usize), usize>)
    requires
        pos <= s@.len(),
    ensures
        term_result(r) == term_spec(s@, pos as int),
        r matches Ok((_, end)) ==> pos < end <= s@.len(),
        r matches Err(p) ==> p <= s@.len(),
    decreases s@.len() - pos, 2nat,
{
    if pos >= s.len() {
        return Err(pos);
    }
    let c = s[pos];
    let (expr, p) = if c == '(' {
        let (inner, end) = parse_template(s, pos + 1)?;
        if end >= s.len() || s[end] != ')' {
            return Err(end);
        }
        (TermExpr::Group(Box::new(inner)), end + 1)
    } else if c == '"' {
        let (parts, end) = parse_literal(s, pos)?;
        (TermExpr::Literal(parts), end)
    } else {
        let (name, end) = parse_identifier(s, pos)?;
        if end < s.len() && s[end] == '(' {
            let (f, end) = parse_function(s, pos)?;
            (TermExpr::Function(f), end)
        } else {
            (TermExpr::Identifier(name), end)
        }
    };
    let ghost e = expr_syntax(expr);
    assert(term_spec(s@, pos as int) == with_methods(e, methods_spec(s@, p as int)));
    let (methods, end) = parse_methods(s, p)?;
    let t = TermNode { expr, methods };
    assert(t@.methods =~= functions_view(methods@));
    Ok((t, end))
}

/// A template at `pos`: terms separated by blanks.
fn parse_template(s: &Vec<char>, pos: usize) -> (r: Result<(TemplateNode, usize), usize>)
    requires
        pos <= s@.len(),
    ensures
        template_result(r) == template_spec(s@, pos as int),
        r matches Ok((_, end)) ==> pos < end <= s@.len(),
        r matches Err(p) ==> p <= s@.len(),
    decreases s@.len() - pos, 3nat,
{
    let (first, mut p) = parse_term(s, pos)?;
    let ghost t0 = first@;
    let ghost e0 = p as int;
    let mut terms: Vec<TermNode> = Vec::new();
    terms.push(first);
    assert(terms_view(terms@).skip(1) =~= Seq::<TermSyntax>::empty());
    assert(prepend(terms_view(terms@).skip(1), more_terms_spec(s@, e0)) == more_terms_spec(s@, e0)) by {
        if more_terms_spec(s@, e0) is Ok {
            assert(Seq::<TermSyntax>::empty() + more_terms_spec(s@, e0)->Ok_0.0 =~= more_terms_spec(s@, e0)->Ok_0.0);
        }
    }
    loop
        invariant_except_break
            more_terms_spec(s@, e0) == prepend(terms_view(terms@).skip(1), more_terms_spec(s@, p as int)),
        invariant
            pos < p <= s@.len(),
            pos < e0 <= s@.len(),
            terms@.len() >= 1,
            terms_view(terms@)[0] == t0,
            term_spec(s@, pos as int) == Ok::<(TermSyntax, int), int>((t0, e0)),
        ensures
            more_terms_spec(s@, e0) == Ok::<(Seq<TermSyntax>, int), int>((terms_view(terms@).skip(1), p as int)),
        decreases s@.len() - p,
    {
        let q = skip_blanks(s, p);
        if q > p && q < s.len() && starts_term(s[q]) {
            let ghost before = terms_view(terms@);
            let (t, end) = parse_term(s, q)?;
            let ghost old_terms = terms@;
            let ghost gt = t;
            terms.push(t);
            proof {
                lemma_view_push(old_terms, gt, |q: TermNode| q@);
            }
            assert(terms_view(terms@) =~= before.push(gt@));
            assert(terms_view(terms@).skip(1) =~= before.skip(1) + seq![gt@]);
            proof {
                lemma_prepend_assoc(before.skip(1), seq![gt@], more_terms_spec(s@, end as int));
            }
            p = end;
        } else {
            proof {
                lemma_prepend_empty(terms_view(terms@).skip(1), p as int);
            }
            break;
        }
    }
    let t = TemplateNode { terms };
    assert(t@.terms =~= seq![t0] + terms_view(terms@).skip(1));
    Ok((t, p))
}

impl TemplateParser {
    /// Parses a program: a template, or nothing, with blanks around it.
    /// Nothing but blanks is the empty program.
    pub fn parse_program(text: &str) -> (r: Result<Option<TemplateNode>, TemplateError>)
        ensures
            r matches Ok(None) <==> all_blank(text@),
            match program_spec(text@) {
                Ok(None) => r matches Ok(None),
                Ok(Some(t)) => r matches Ok(Some(n)) && n@ == t,
                Err(p) => r matches Err(TemplateError::Syntax(q)) && q == p,
            },
    {
        let s = chars_of(text);
        let start = skip_blanks(&s, 0);
        if start == s.len() {
            return Ok(None);
        }
        match parse_template(&s, start) {
            Ok((t, end)) => {
                let stop = skip_blanks(&s, end);
                if stop == s.len() {
                    Ok(Some(t))
                } else {
                    Err(TemplateError::Syntax(stop))
                }
            },
            Err(p) => Err(TemplateError::Syntax(p)),
        }
    }
}

} // verus!

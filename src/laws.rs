//! Properties of the template language that hold of every template and
//! every record, stated over the models of building and rendering.
use vstd::prelude::*;

use crate::builder::{
    chain_model, condition_model, function_model, into_template_model, program_model,
    template_rule_model, term_model, terms_model, ExprModel,
};
use crate::error::{ErrorModel, RenderError};
use crate::property::{
    boolean_value, keyword_model, kind_of, method_model, text_value, PropertyModel, TextModel,
};
use crate::record::Record;
use crate::syntax::{
    escape_char, escape_text, escaped, literal_model, part_plain, raw_parts_plain, source_of,
    FunctionSyntax, PartSyntax, TemplateSyntax, TermExprSyntax, TermSyntax,
};
use crate::template::{plain, render_list, render_model, Styled, TemplateModel};
use crate::text::words;

verus! {

/// `if(c, a, b)` writes exactly what `a` writes where `c` holds, and exactly
/// what `b` writes where it does not; without `b` it writes nothing there.
pub proof fn law_if_selects_branch(f: FunctionSyntax, r: Record, ls: Seq<Seq<char>>)
    requires
        f.name == "if"@,
        function_model(f) is Ok,
    ensures
        ({
            let built = into_template_model(function_model(f)->Ok_0);
            let cond = condition_model(template_rule_model(f.args[0])->Ok_0)->Ok_0;
            let then_part = into_template_model(template_rule_model(f.args[1])->Ok_0);
            &&& boolean_value(cond, r) == Ok::<bool, RenderError>(true) ==> render_model(
                built,
                r,
                ls,
            ) == render_model(then_part, r, ls)
            &&& boolean_value(cond, r) == Ok::<bool, RenderError>(false) ==> if f.args.len()
                == 3 {
                render_model(built, r, ls) == render_model(
                    into_template_model(template_rule_model(f.args[2])->Ok_0),
                    r,
                    ls,
                )
            } else {
                render_model(built, r, ls) == Ok::<Seq<Styled>, RenderError>(Seq::empty())
            }
        }),
{
    reveal_strlit("if");
    reveal_strlit("label");
    assert("if"@.len() != "label"@.len());
}

/// `label(x, y)` writes what `y` writes, with the whitespace-separated words
/// of the text that `x` writes added to its labels.
pub proof fn law_label_applies_words(f: FunctionSyntax, r: Record, ls: Seq<Seq<char>>)
    requires
        f.name == "label"@,
        function_model(f) is Ok,
    ensures
        ({
            let built = into_template_model(function_model(f)->Ok_0);
            let source = into_template_model(template_rule_model(f.args[0])->Ok_0);
            let content = into_template_model(template_rule_model(f.args[1])->Ok_0);
            render_model(built, r, ls) == match render_model(source, r, Seq::empty()) {
                Ok(out) => render_model(content, r, ls + words(plain(out))),
                Err(e) => Err(e),
            }
        }),
{
}

proof fn lemma_terms_each(ts: Seq<TermSyntax>)
    requires
        terms_model(ts) is Ok,
    ensures
        terms_model(ts)->Ok_0.len() == ts.len(),
        forall|i: int|
            0 <= i < ts.len() ==> term_model(ts[i]) is Ok && terms_model(ts)->Ok_0[i]
                == into_template_model(#[trigger] term_model(ts[i])->Ok_0),
    decreases ts.len(),
{
    if ts.len() > 0 {
        let front = ts.subrange(0, ts.len() - 1);
        lemma_terms_each(front);
        assert forall|i: int| 0 <= i < ts.len() implies term_model(ts[i]) is Ok && terms_model(
            ts,
        )->Ok_0[i] == into_template_model(#[trigger] term_model(ts[i])->Ok_0) by {
            if i < ts.len() - 1 {
                assert(front[i] == ts[i]);
            }
        }
    }
}

/// A template of several terms writes what its terms write, one after the
/// other, in the order of the source.
pub proof fn law_terms_concatenate(t: TemplateSyntax, r: Record, ls: Seq<Seq<char>>)
    requires
        t.terms.len() != 1,
        template_rule_model(t) is Ok,
    ensures
        ({
            let parts = terms_model(t.terms)->Ok_0;
            &&& parts.len() == t.terms.len()
            &&& forall|i: int|
                0 <= i < t.terms.len() ==> term_model(t.terms[i]) is Ok && parts[i]
                    == into_template_model(#[trigger] term_model(t.terms[i])->Ok_0)
            &&& render_model(into_template_model(template_rule_model(t)->Ok_0), r, ls)
                == render_list(parts, r, ls)
        }),
{
    lemma_terms_each(t.terms);
}

/// Applying one more method looks it up in the table of the kind that the
/// chain has produced so far, and adds its name to the labels; a chain
/// that fails stays failed.
pub proof fn law_chain_left_to_right(
    p: PropertyModel,
    ls: Seq<Seq<char>>,
    ms: Seq<FunctionSyntax>,
    m: FunctionSyntax,
)
    ensures
        chain_model(p, ls, ms.push(m)) == match chain_model(p, ls, ms) {
            Ok(pair) => match method_model(pair.0, m.name) {
                Ok(q) => Ok((q, pair.1.push(m.name))),
                Err(e) => Err(e),
            },
            Err(e) => Err(e),
        },
{
    assert(ms.push(m).subrange(0, ms.len() as int) =~= ms);
}

/// A text stands as a condition for "not empty": `if` on a text holds
/// exactly where the text is not empty.
pub proof fn law_text_condition(t: TextModel, ls: Seq<Seq<char>>, r: Record)
    ensures
        condition_model(ExprModel::Property(PropertyModel::Text(t), ls)) matches Ok(b) && match text_value(t, r) {
            Ok(s) => boolean_value(b, r) == Ok::<bool, RenderError>(s.len() > 0),
            Err(e) => boolean_value(b, r) == Err::<bool, RenderError>(e),
        },
{
}

/// An unknown keyword fails, naming it.
pub proof fn law_unknown_identifier(t: TermSyntax)
    requires
        t.expr matches TermExprSyntax::Identifier(n) && keyword_model(n) is None,
    ensures
        term_model(t) == Err::<ExprModel, ErrorModel>(
            ErrorModel::UnknownIdentifier(t.expr->Identifier_0),
        ),
{
}

/// A call of a name that is no function fails, naming it.
pub proof fn law_unknown_function(f: FunctionSyntax)
    requires
        f.name != "label"@,
        f.name != "if"@,
    ensures
        function_model(f) == Err::<ExprModel, ErrorModel>(ErrorModel::UnknownFunction(f.name)),
{
}

/// A method that the kind of its receiver does not have fails, naming the
/// kind and the method.
pub proof fn law_unknown_method(p: PropertyModel, name: Seq<char>)
    requires
        method_model(p, name) is Err,
    ensures
        method_model(p, name) == Err::<PropertyModel, ErrorModel>(
            ErrorModel::NoSuchMethod(kind_of(p), name),
        ),
{
}

/// The empty program writes nothing, for every record.
pub proof fn law_empty_program(r: Record, ls: Seq<Seq<char>>)
    ensures
        program_model(None) matches Ok(t) && render_model(t, r, ls) matches Ok(out) && plain(out)
            == Seq::<char>::empty(),
{
    let out = render_model(TemplateModel::Literal(Seq::empty()), r, ls)->Ok_0;
    assert(out.len() == 1);
    assert(out.subrange(0, 0) =~= Seq::<Styled>::empty());
    assert(plain(out.subrange(0, 0)) == Seq::<char>::empty());
    assert(out[0].text == Seq::<char>::empty());
    assert(plain(out) =~= Seq::<char>::empty());
}

/// Literal source read from the front: the text it stands for; or the
/// character of the first invalid escape, none where a backslash ends it.
spec fn decode(src: Seq<char>) -> Result<Seq<char>, Option<char>>
    decreases src.len(),
{
    if src.len() == 0 {
        Ok(Seq::empty())
    } else if src[0] == '\\' {
        if src.len() < 2 {
            Err(None)
        } else {
            match escaped(src[1]) {
                Some(d) => match decode(src.skip(2)) {
                    Ok(rest) => Ok(seq![d] + rest),
                    Err(e) => Err(e),
                },
                None => Err(Some(src[1])),
            }
        }
    } else {
        match decode(src.skip(1)) {
            Ok(rest) => Ok(seq![src[0]] + rest),
            Err(e) => Err(e),
        }
    }
}

proof fn lemma_decode_concat(a: Seq<char>, b: Seq<char>)
    requires
        decode(a) is Ok,
    ensures
        decode(a + b) == match decode(b) {
            Ok(rest) => Ok(decode(a)->Ok_0 + rest),
            Err(e) => Err(e),
        },
    decreases a.len(),
{
    if a.len() == 0 {
        assert(a + b =~= b);
        assert(decode(a)->Ok_0 == Seq::<char>::empty());
        if decode(b) is Ok {
            assert(Seq::<char>::empty() + decode(b)->Ok_0 =~= decode(b)->Ok_0);
        }
    } else if a[0] == '\\' {
        assert((a + b).skip(2) =~= a.skip(2) + b);
        lemma_decode_concat(a.skip(2), b);
        if decode(b) is Ok {
            let d = escaped(a[1])->Some_0;
            assert(seq![d] + (decode(a.skip(2))->Ok_0 + decode(b)->Ok_0) =~= (seq![d] + decode(
                a.skip(2),
            )->Ok_0) + decode(b)->Ok_0);
        }
    } else {
        assert((a + b).skip(1) =~= a.skip(1) + b);
        lemma_decode_concat(a.skip(1), b);
        if decode(b) is Ok {
            assert(seq![a[0]] + (decode(a.skip(1))->Ok_0 + decode(b)->Ok_0) =~= (seq![a[0]]
                + decode(a.skip(1))->Ok_0) + decode(b)->Ok_0);
        }
    }
}

proof fn lemma_decode_concat_err(a: Seq<char>, b: Seq<char>)
    requires
        decode(a) matches Err(Some(_)),
    ensures
        decode(a + b) == decode(a),
    decreases a.len(),
{
    if a[0] == '\\' {
        assert((a + b)[1] == a[1]);
        if escaped(a[1]) is Some {
            assert((a + b).skip(2) =~= a.skip(2) + b);
            lemma_decode_concat_err(a.skip(2), b);
        }
    } else {
        assert((a + b).skip(1) =~= a.skip(1) + b);
        lemma_decode_concat_err(a.skip(1), b);
    }
}

proof fn lemma_decode_plain(t: Seq<char>)
    requires
        forall|j: int| 0 <= j < t.len() ==> t[j] != '\\',
    ensures
        decode(t) == Ok::<Seq<char>, Option<char>>(t),
    decreases t.len(),
{
    if t.len() > 0 {
        assert forall|j: int| 0 <= j < t.skip(1).len() implies t.skip(1)[j] != '\\' by {
            assert(t.skip(1)[j] == t[j + 1]);
        }
        lemma_decode_plain(t.skip(1));
        assert(seq![t[0]] + t.skip(1) =~= t);
    } else {
        assert(t =~= Seq::<char>::empty());
    }
}

proof fn lemma_decode_pair(c: char)
    ensures
        decode(seq!['\\', c]) == match escaped(c) {
            Some(d) => Ok(seq![d]),
            None => Err(Some(c)),
        },
{
    let e = seq!['\\', c];
    assert(e.skip(2) =~= Seq::<char>::empty());
    assert(decode(e.skip(2)) == Ok::<Seq<char>, Option<char>>(Seq::empty()));
    if escaped(c) is Some {
        assert(seq![escaped(c)->Some_0] + Seq::<char>::empty() =~= seq![escaped(c)->Some_0]);
    }
}

proof fn lemma_decode_single(c: char)
    requires
        c != '\\',
    ensures
        decode(seq![c]) == Ok::<Seq<char>, Option<char>>(seq![c]),
{
    let e = seq![c];
    assert(e.skip(1) =~= Seq::<char>::empty());
    assert(decode(e.skip(1)) == Ok::<Seq<char>, Option<char>>(Seq::empty()));
    assert(seq![c] + Seq::<char>::empty() =~= seq![c]);
}

proof fn lemma_decode_parts(parts: Seq<PartSyntax>)
    requires
        raw_parts_plain(parts),
    ensures
        decode(source_of(parts)) == match literal_model(parts) {
            Ok(s) => Ok(s),
            Err(ErrorModel::InvalidEscape(c)) => Err(Some(c)),
            Err(_) => Err(None),
        },
        literal_model(parts) is Err ==> literal_model(parts)->Err_0 is InvalidEscape,
    decreases parts.len(),
{
    if parts.len() == 0 {
        return;
    }
    let front = parts.subrange(0, parts.len() - 1);
    assert forall|i: int| 0 <= i < front.len() implies part_plain(#[trigger] front[i]) by {
        assert(front[i] == parts[i]);
    }
    lemma_decode_parts(front);
    let a = source_of(front);
    let last = parts[parts.len() - 1];
    let b = match last {
        PartSyntax::Raw(t) => t,
        PartSyntax::Escape(c) => seq!['\\', c],
    };
    assert(source_of(parts) == a + b);
    match literal_model(front) {
        Ok(ra) => {
            lemma_decode_concat(a, b);
            match last {
                PartSyntax::Raw(t) => {
                    assert(part_plain(parts[parts.len() - 1]));
                    lemma_decode_plain(t);
                },
                PartSyntax::Escape(c) => {
                    lemma_decode_pair(c);
                    if escaped(c) is Some {
                        assert(ra.push(escaped(c)->Some_0) =~= ra + seq![escaped(c)->Some_0]);
                    }
                },
            }
        },
        Err(e) => {
            lemma_decode_concat_err(a, b);
        },
    }
}

proof fn lemma_decode_escaped(s: Seq<char>)
    ensures
        decode(escape_text(s)) == Ok::<Seq<char>, Option<char>>(s),
    decreases s.len(),
{
    if s.len() > 0 {
        let front = s.subrange(0, s.len() - 1);
        let c = s[s.len() - 1];
        lemma_decode_escaped(front);
        lemma_decode_concat(escape_text(front), escape_char(c));
        if c == '"' {
            lemma_decode_pair('"');
        } else if c == '\\' {
            lemma_decode_pair('\\');
        } else if c == '\n' {
            lemma_decode_pair('n');
        } else {
            lemma_decode_single(c);
        }
        assert(decode(escape_char(c)) == Ok::<Seq<char>, Option<char>>(seq![c]));
        assert(front + seq![c] =~= s);
    } else {
        assert(s =~= Seq::<char>::empty());
        assert(decode(escape_text(s)) == Ok::<Seq<char>, Option<char>>(Seq::empty()));
    }
}

/// Decoding a literal gives back the text whose escaped form it is written
/// in: `"`, `\` and line breaks, written as `\"`, `\\` and `\n`, come back
/// as themselves.
pub proof fn law_literal_round_trip(parts: Seq<PartSyntax>, s: Seq<char>)
    requires
        raw_parts_plain(parts),
        source_of(parts) == escape_text(s),
    ensures
        literal_model(parts) == Ok::<Seq<char>, ErrorModel>(s),
{
    lemma_decode_parts(parts);
    lemma_decode_escaped(s);
}

/// A literal with an escape that the language does not have fails to decode.
pub proof fn law_unknown_escape_fails(parts: Seq<PartSyntax>, i: int)
    requires
        0 <= i < parts.len(),
        parts[i] matches PartSyntax::Escape(c) && escaped(c) is None,
    ensures
        literal_model(parts) is Err,
    decreases parts.len(),
{
    let front = parts.subrange(0, parts.len() - 1);
    if i < parts.len() - 1 {
        assert(front[i] == parts[i]);
        law_unknown_escape_fails(front, i);
    }
}

/// A method chain fails exactly where a method is missing from the table of
/// the kind that the methods before it produced, and the error names the
/// first such method and that kind.
pub proof fn law_chain_fails_at_first_missing(
    p: PropertyModel,
    ls: Seq<Seq<char>>,
    ms: Seq<FunctionSyntax>,
)
    ensures
        chain_model(p, ls, ms) is Err <==> exists|i: int|
            0 <= i < ms.len() && #[trigger] chain_model(p, ls, ms.take(i)) is Ok && method_model(
                chain_model(p, ls, ms.take(i))->Ok_0.0,
                ms[i].name,
            ) is Err,
        chain_model(p, ls, ms) is Err ==> exists|i: int|
            0 <= i < ms.len() && #[trigger] chain_model(p, ls, ms.take(i)) is Ok && chain_model(
                p,
                ls,
                ms,
            ) == Err::<(PropertyModel, Seq<Seq<char>>), ErrorModel>(
                ErrorModel::NoSuchMethod(kind_of(chain_model(p, ls, ms.take(i))->Ok_0.0), ms[i].name),
            ),
    decreases ms.len(),
{
    if ms.len() == 0 {
        return;
    }
    let n = ms.len() - 1;
    let front = ms.subrange(0, n);
    law_chain_fails_at_first_missing(p, ls, front);
    assert forall|i: int| 0 <= i <= n implies #[trigger] ms.take(i) == front.take(i) by {
        assert(ms.take(i) =~= front.take(i));
    }
    assert(ms.take(n) =~= front);
    if chain_model(p, ls, front) is Err {
        let i = choose|i: int|
            0 <= i < front.len() && #[trigger] chain_model(p, ls, front.take(i)) is Ok
                && chain_model(p, ls, front) == Err::<(PropertyModel, Seq<Seq<char>>), ErrorModel>(
                ErrorModel::NoSuchMethod(
                    kind_of(chain_model(p, ls, front.take(i))->Ok_0.0),
                    front[i].name,
                ),
            );
        assert(ms.take(i) == front.take(i));
        assert(ms[i] == front[i]);
        assert(chain_model(p, ls, ms.take(i)) is Ok);
        let j = choose|j: int|
            0 <= j < front.len() && #[trigger] chain_model(p, ls, front.take(j)) is Ok
                && method_model(chain_model(p, ls, front.take(j))->Ok_0.0, front[j].name) is Err;
        assert(ms.take(j) == front.take(j));
        assert(ms[j] == front[j]);
        assert(chain_model(p, ls, ms.take(j)) is Ok);
    } else {
        let q = chain_model(p, ls, front)->Ok_0.0;
        if method_model(q, ms[n].name) is Err {
            assert(chain_model(p, ls, ms.take(n)) is Ok);
        } else {
            assert forall|i: int| 0 <= i < ms.len() && #[trigger] chain_model(p, ls, ms.take(i)) is Ok
                implies method_model(chain_model(p, ls, ms.take(i))->Ok_0.0, ms[i].name) is Ok by {
                if i < n {
                    assert(ms.take(i) == front.take(i));
                    assert(ms[i] == front[i]);
                    if method_model(chain_model(p, ls, front.take(i))->Ok_0.0, front[i].name) is Err {
                        assert(chain_model(p, ls, front) is Err);
                    }
                } else {
                    assert(ms.take(i) == front);
                }
            }
        }
    }
}

} // verus!

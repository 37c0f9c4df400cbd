//! Renderers: what a built template is, and what it writes for a record, as
//! a sequence of pieces of text, each with the style labels that apply to it.
use vstd::prelude::*;

use crate::error::RenderError;
use crate::property::{
    boolean_value, eval_boolean, eval_highlighted_id, eval_id, eval_signature, eval_text,
    eval_timestamp, id_value, signature_value, text_value, timestamp_value, BooleanModel,
    BooleanProperty, HighlightedIdProperty, Property, PropertyModel,
};
use crate::record::{prefix_of, rest_of, Record};
use crate::text::{
    chars_of, copy_text, lemma_texts_push, lemma_texts_take, push_text, split_words, string_of,
    texts, words,
};

verus! {

/// A renderer: formats itself against a record.
#[derive(Debug)]
pub enum Template {
    /// Fixed text.
    Literal(Vec<char>),
    /// The value of a property, in the form of its kind.
    Property(Property),
    /// The inner renderer's output, with these labels added.
    Label(Box<Template>, Vec<Vec<char>>),
    /// The first renderer where the condition holds, else the second if any.
    Conditional(BooleanProperty, Box<Template>, Option<Box<Template>>),
    /// The content (second) with the words of the first's plain text as labels.
    DynamicLabel(Box<Template>, Box<Template>),
    /// The renderers one after the other.
    List(Vec<Template>),
}

/// The mathematical form of a [`Template`].
pub enum TemplateModel {
    Literal(Seq<char>),
    Property(PropertyModel),
    Label(Box<TemplateModel>, Seq<Seq<char>>),
    Conditional(BooleanModel, Box<TemplateModel>, Option<Box<TemplateModel>>),
    DynamicLabel(Box<TemplateModel>, Box<TemplateModel>),
    List(Seq<TemplateModel>),
}

impl View for Template {
    type V = TemplateModel;

    open spec fn view(&self) -> TemplateModel {
        template_model(*self)
    }
}

/// The mathematical form of a renderer.
pub open spec fn template_model(t: Template) -> TemplateModel
    decreases t,
{
    match t {
        Template::Literal(s) => TemplateModel::Literal(s@),
        Template::Property(p) => TemplateModel::Property(p@),
        Template::Label(inner, ls) => TemplateModel::Label(
            Box::new(template_model(*inner)),
            texts(ls@),
        ),
        Template::Conditional(c, a, b) => TemplateModel::Conditional(
            c@,
            Box::new(template_model(*a)),
            match b {
                Some(b) => Some(Box::new(template_model(*b))),
                None => None,
            },
        ),
        Template::DynamicLabel(src, content) => TemplateModel::DynamicLabel(
            Box::new(template_model(*src)),
            Box::new(template_model(*content)),
        ),
        Template::List(v) => TemplateModel::List(
            Seq::new(
                v@.len(),
                |i: int|
                    if 0 <= i < v@.len() {
                        template_model(v@[i])
                    } else {
                        TemplateModel::Literal(Seq::empty())
                    },
            ),
        ),
    }
}

/// The mathematical forms of renderers.
pub open spec fn models(v: Seq<Template>) -> Seq<TemplateModel> {
    v.map_values(|t: Template| t@)
}

/// A piece of output: text and the labels that apply to it, outermost first.
pub struct Styled {
    pub text: Seq<char>,
    pub labels: Seq<Seq<char>>,
}

/// A piece of output as rendering builds it.
pub struct Piece {
    pub text: Vec<char>,
    pub labels: Vec<Vec<char>>,
}

/// A piece of output: text and the labels that apply to it, outermost first.
#[derive(Debug)]
pub struct Chunk {
    pub text: String,
    pub labels: Vec<String>,
}

impl View for Piece {
    type V = Styled;

    open spec fn view(&self) -> Styled {
        Styled { text: self.text@, labels: texts(self.labels@) }
    }
}

impl View for Chunk {
    type V = Styled;

    open spec fn view(&self) -> Styled {
        Styled { text: self.text@, labels: strings_view(self.labels@) }
    }
}

/// The characters of each string.
pub open spec fn strings_view(v: Seq<String>) -> Seq<Seq<char>> {
    v.map_values(|l: String| l@)
}

/// The chunks, as styled text.
pub open spec fn chunks_view(v: Seq<Chunk>) -> Seq<Styled> {
    v.map_values(|c: Chunk| c@)
}

/// The pieces, as styled text.
pub open spec fn styled_of(v: Seq<Piece>) -> Seq<Styled> {
    v.map_values(|p: Piece| p@)
}

/// The text of the output with its labels left out.
pub open spec fn plain(out: Seq<Styled>) -> Seq<char>
    decreases out.len(),
{
    if out.len() == 0 {
        Seq::empty()
    } else {
        plain(out.subrange(0, out.len() - 1)) + out[out.len() - 1].text
    }
}

/// One piece of output.
pub open spec fn piece(text: Seq<char>, labels: Seq<Seq<char>>) -> Seq<Styled> {
    seq![Styled { text, labels }]
}

/// What the value of a property writes, under the labels `ls`: a text as it
/// is; a boolean as `true` or `false`; an identifier as its hex digits; an
/// identifier with its prefix marked as the prefix, labelled `prefix`, and the
/// rest, labelled `rest`; a signature as `name <email>`, with the name and the
/// email labelled so; a timestamp in its absolute form.
pub open spec fn format_model(p: PropertyModel, r: Record, ls: Seq<Seq<char>>) -> Result<
    Seq<Styled>,
    RenderError,
> {
    match p {
        PropertyModel::Text(t) => match text_value(t, r) {
            Ok(s) => Ok(piece(s, ls)),
            Err(e) => Err(e),
        },
        PropertyModel::Boolean(b) => match boolean_value(b, r) {
            Ok(v) => Ok(
                piece(
                    if v {
                        "true"@
                    } else {
                        "false"@
                    },
                    ls,
                ),
            ),
            Err(e) => Err(e),
        },
        PropertyModel::CommitOrChangeId(i) => Ok(piece(id_value(i, r).hex@, ls)),
        PropertyModel::IdWithHighlightedPrefix(HighlightedIdProperty::ShortestStyledPrefix(i)) => Ok(
            piece(prefix_of(id_value(i, r)), ls.push("prefix"@)) + piece(
                rest_of(id_value(i, r)),
                ls.push("rest"@),
            ),
        ),
        PropertyModel::Signature(s) => Ok(
            piece(signature_value(s, r).name@, ls.push("name"@)) + piece(" <"@, ls) + piece(
                signature_value(s, r).email@,
                ls.push("email"@),
            ) + piece(">"@, ls),
        ),
        PropertyModel::Timestamp(t) => Ok(piece(timestamp_value(t, r).absolute@, ls)),
    }
}

/// What a renderer writes for record `r`, under the labels `ls`.
pub open spec fn render_model(t: TemplateModel, r: Record, ls: Seq<Seq<char>>) -> Result<
    Seq<Styled>,
    RenderError,
>
    decreases t,
{
    match t {
        TemplateModel::Literal(s) => Ok(piece(s, ls)),
        TemplateModel::Property(p) => format_model(p, r, ls),
        TemplateModel::Label(inner, more) => render_model(*inner, r, ls + more),
        TemplateModel::Conditional(c, a, b) => match boolean_value(c, r) {
            Ok(true) => render_model(*a, r, ls),
            Ok(false) => match b {
                Some(b) => render_model(*b, r, ls),
                None => Ok(Seq::empty()),
            },
            Err(e) => Err(e),
        },
        TemplateModel::DynamicLabel(src, content) => match render_model(*src, r, Seq::empty()) {
            Ok(out) => render_model(*content, r, ls + words(plain(out))),
            Err(e) => Err(e),
        },
        TemplateModel::List(ts) => render_list(ts, r, ls),
    }
}

/// What renderers write one after the other; the first failure, if any.
pub open spec fn render_list(ts: Seq<TemplateModel>, r: Record, ls: Seq<Seq<char>>) -> Result<
    Seq<Styled>,
    RenderError,
>
    decreases ts,
{
    if ts.len() == 0 {
        Ok(Seq::empty())
    } else {
        match render_list(ts.subrange(0, ts.len() - 1), r, ls) {
            Ok(front) => match render_model(ts[ts.len() - 1], r, ls) {
                Ok(back) => Ok(front + back),
                Err(e) => Err(e),
            },
            Err(e) => Err(e),
        }
    }
}

proof fn lemma_list_error(ts: Seq<TemplateModel>, i: int, r: Record, ls: Seq<Seq<char>>)
    requires
        0 <= i < ts.len(),
        render_list(ts.take(i), r, ls) is Ok,
        render_model(ts[i], r, ls) is Err,
    ensures
        render_list(ts, r, ls) == render_model(ts[i], r, ls),
    decreases ts.len(),
{
    let front = ts.subrange(0, ts.len() - 1);
    if i == ts.len() - 1 {
        assert(front == ts.take(i));
    } else {
        assert(front.take(i) == ts.take(i));
        assert(front[i] == ts[i]);
        lemma_list_error(front, i, r, ls);
    }
}

/// Adds one piece of output.
fn emit(out: &mut Vec<Piece>, text: Vec<char>, labels: &Vec<Vec<char>>)
    ensures
        styled_of(final(out)@) == styled_of(old(out)@) + piece(text@, texts(labels@)),
{
    let labels = copy_labels(labels);
    let ghost before = styled_of(out@);
    out.push(Piece { text, labels });
    assert(styled_of(out@) =~= before + piece(text@, texts(labels@)));
}

/// A copy of a sequence of labels.
fn copy_labels(ls: &Vec<Vec<char>>) -> (r: Vec<Vec<char>>)
    ensures
        texts(r@) == texts(ls@),
{
    let mut r: Vec<Vec<char>> = Vec::new();
    let mut i: usize = 0;
    while i < ls.len()
        invariant
            i <= ls@.len(),
            texts(r@) == texts(ls@.take(i as int)),
        decreases ls.len() - i,
    {
        let ghost before = r@;
        let w = copy_text(&ls[i]);
        r.push(w);
        proof {
            lemma_texts_push(before, w);
            lemma_texts_take(ls@, i as int);
        }
        i = i + 1;
    }
    assert(ls@.take(i as int) =~= ls@);
    r
}

/// The labels `ls` followed by `more`.
fn with_labels(ls: &Vec<Vec<char>>, more: &Vec<Vec<char>>) -> (r: Vec<Vec<char>>)
    ensures
        texts(r@) == texts(ls@) + texts(more@),
{
    let mut r = copy_labels(ls);
    let mut i: usize = 0;
    while i < more.len()
        invariant
            i <= more@.len(),
            texts(r@) == texts(ls@) + texts(more@.take(i as int)),
        decreases more.len() - i,
    {
        let ghost before = r@;
        let w = copy_text(&more[i]);
        r.push(w);
        proof {
            lemma_texts_push(before, w);
            lemma_texts_take(more@, i as int);
        }
        assert(texts(r@) =~= texts(ls@) + texts(more@.take(i + 1)));
        i = i + 1;
    }
    assert(more@.take(i as int) =~= more@);
    r
}

/// The labels `ls` followed by `word`.
fn with_label(ls: &Vec<Vec<char>>, word: &str) -> (r: Vec<Vec<char>>)
    ensures
        texts(r@) == texts(ls@).push(word@),
{
    let mut r = copy_labels(ls);
    r.push(chars_of(word));
    assert(texts(r@) =~= texts(ls@).push(word@));
    r
}

/// The text of the pieces with their labels left out.
fn plain_text(out: &Vec<Piece>) -> (r: Vec<char>)
    ensures
        r@ == plain(styled_of(out@)),
{
    let mut r: Vec<char> = Vec::new();
    let mut i: usize = 0;
    while i < out.len()
        invariant
            i <= out@.len(),
            r@ == plain(styled_of(out@.take(i as int))),
        decreases out.len() - i,
    {
        push_text(&mut r, &out[i].text);
        assert(styled_of(out@.take(i + 1)).subrange(0, i as int) =~= styled_of(
            out@.take(i as int),
        ));
        i = i + 1;
    }
    assert(out@.take(i as int) =~= out@);
    r
}

/// Writes the value of a property.
fn format_property(p: &Property, r: &Record, ls: &Vec<Vec<char>>, out: &mut Vec<Piece>) -> (res:
    Result<(), RenderError>)
    ensures
        match format_model(p@, *r, texts(ls@)) {
            Ok(s) => res is Ok && styled_of(final(out)@) == styled_of(old(out)@) + s,
            Err(e) => res == Err::<(), RenderError>(e),
        },
{
    match p {
        Property::Text(t) => {
            let s = eval_text(t, r)?;
            emit(out, s, ls);
        },
        Property::Boolean(b) => {
            let v = eval_boolean(b, r)?;
            let s = if v {
                chars_of("true")
            } else {
                chars_of("false")
            };
            emit(out, s, ls);
        },
        Property::CommitOrChangeId(i) => {
            emit(out, eval_id(*i, r).hex_chars(), ls);
        },
        Property::IdWithHighlightedPrefix(h) => {
            let parts = eval_highlighted_id(*h, r);
            let ghost before = styled_of(out@);
            emit(out, parts.prefix, &with_label(ls, "prefix"));
            emit(out, parts.rest, &with_label(ls, "rest"));
            assert(styled_of(out@) =~= before + format_model(p@, *r, texts(ls@))->Ok_0);
        },
        Property::Signature(s) => {
            let sig = eval_signature(*s, r);
            let ghost before = styled_of(out@);
            emit(out, chars_of(sig.name.as_str()), &with_label(ls, "name"));
            emit(out, chars_of(" <"), ls);
            emit(out, chars_of(sig.email.as_str()), &with_label(ls, "email"));
            emit(out, chars_of(">"), ls);
            assert(styled_of(out@) =~= before + format_model(p@, *r, texts(ls@))->Ok_0);
        },
        Property::Timestamp(t) => {
            emit(out, chars_of(eval_timestamp(*t, r).absolute.as_str()), ls);
        },
    }
    Ok(())
}

/// Writes what a renderer writes for `r` under the labels `ls`.
pub fn render_into(t: &Template, r: &Record, ls: &Vec<Vec<char>>, out: &mut Vec<Piece>) -> (res:
    Result<(), RenderError>)
    ensures
        match render_model(t@, *r, texts(ls@)) {
            Ok(s) => res is Ok && styled_of(final(out)@) == styled_of(old(out)@) + s,
            Err(e) => res == Err::<(), RenderError>(e),
        },
    decreases t,
{
    match t {
        Template::Literal(s) => {
            emit(out, copy_text(s), ls);
            Ok(())
        },
        Template::Property(p) => format_property(p, r, ls, out),
        Template::Label(inner, more) => {
            let all = with_labels(ls, more);
            render_into(inner, r, &all, out)
        },
        Template::Conditional(c, a, b) => {
            if eval_boolean(c, r)? {
                render_into(a, r, ls, out)
            } else {
                match b {
                    Some(b) => render_into(b, r, ls, out),
                    None => {
                        assert(styled_of(out@) =~= styled_of(out@) + Seq::<Styled>::empty());
                        Ok(())
                    },
                }
            }
        },
        Template::DynamicLabel(src, content) => {
            let mut scratch: Vec<Piece> = Vec::new();
            let none: Vec<Vec<char>> = Vec::new();
            assert(texts(none@) =~= Seq::<Seq<char>>::empty());
            assert(styled_of(scratch@) =~= Seq::<Styled>::empty());
            render_into(src, r, &none, &mut scratch)?;
            assert(styled_of(scratch@) =~= render_model((**src)@, *r, Seq::empty())->Ok_0);
            let text = plain_text(&scratch);
            let found = split_words(&text);
            let all = with_labels(ls, &found);
            render_into(content, r, &all, out)
        },
        Template::List(v) => render_seq(v, Ghost(t@->List_0), r, ls, out),
    }
}

/// Writes what renderers write one after the other.
fn render_seq(
    v: &Vec<Template>,
    seq_models: Ghost<Seq<TemplateModel>>,
    r: &Record,
    ls: &Vec<Vec<char>>,
    out: &mut Vec<Piece>,
) -> (res: Result<(), RenderError>)
    requires
        seq_models@.len() == v@.len(),
        forall|i: int| 0 <= i < v@.len() ==> seq_models@[i] == v@[i]@,
    ensures
        match render_list(seq_models@, *r, texts(ls@)) {
            Ok(s) => res is Ok && styled_of(final(out)@) == styled_of(old(out)@) + s,
            Err(e) => res == Err::<(), RenderError>(e),
        },
    decreases v,
{
    let ghost ms = seq_models@;
    let ghost base = styled_of(out@);
    let mut i: usize = 0;
    assert(ms.take(0) =~= Seq::<TemplateModel>::empty());
    assert(styled_of(out@) =~= base + Seq::<Styled>::empty());
    while i < v.len()
        invariant
            i <= v@.len(),
            ms == seq_models@,
            ms.len() == v@.len(),
            forall|j: int| 0 <= j < v@.len() ==> ms[j] == v@[j]@,
            render_list(ms.take(i as int), *r, texts(ls@)) is Ok,
            styled_of(out@) == base + render_list(ms.take(i as int), *r, texts(ls@))->Ok_0,
        decreases v.len() - i,
    {
        proof {
            vstd::std_specs::vec::axiom_vec_index_decreases(*v, i as int);
        }
        assert(decreases_to!(v => v[i as int]));
        let step = render_into(&v[i], r, ls, out);
        assert(ms.take(i + 1).subrange(0, i as int) == ms.take(i as int));
        assert(ms[i as int] == v@[i as int]@);
        match step {
            Ok(()) => {
                assert(styled_of(out@) =~= base + render_list(
                    ms.take(i + 1),
                    *r,
                    texts(ls@),
                )->Ok_0);
            },
            Err(e) => {
                assert(render_model(ms[i as int], *r, texts(ls@)) == Err::<Seq<Styled>, RenderError>(e));
                proof {
                    lemma_list_error(ms, i as int, *r, texts(ls@));
                }
                assert(render_list(ms, *r, texts(ls@)) == Err::<Seq<Styled>, RenderError>(e));
                return Err(e);
            },
        }
        i = i + 1;
    }
    assert(ms.take(i as int) =~= ms);
    Ok(())
}

impl Template {
    /// The output of this renderer for a record.
    pub fn render(&self, r: &Record) -> (res: Result<Vec<Chunk>, RenderError>)
        ensures
            match render_model(self@, *r, Seq::empty()) {
                Ok(s) => res matches Ok(v) && chunks_view(v@) == s,
                Err(e) => res == Err::<Vec<Chunk>, RenderError>(e),
            },
    {
        let mut out: Vec<Piece> = Vec::new();
        let none: Vec<Vec<char>> = Vec::new();
        assert(texts(none@) =~= Seq::<Seq<char>>::empty());
        assert(styled_of(out@) =~= Seq::<Styled>::empty());
        render_into(self, r, &none, &mut out)?;
        let mut chunks: Vec<Chunk> = Vec::new();
        let mut i: usize = 0;
        while i < out.len()
            invariant
                i <= out@.len(),
                chunks_view(chunks@) == styled_of(out@.take(i as int)),
            decreases out.len() - i,
        {
            let p = &out[i];
            let mut labels: Vec<String> = Vec::new();
            let mut j: usize = 0;
            while j < p.labels.len()
                invariant
                    j <= p.labels@.len(),
                    strings_view(labels@) == texts(p.labels@.take(j as int)),
                decreases p.labels.len() - j,
            {
                let ghost before = labels@;
                let l = string_of(&p.labels[j]);
                labels.push(l);
                proof {
                    lemma_texts_take(p.labels@, j as int);
                }
                assert(strings_view(labels@) =~= strings_view(before).push(l@));
                j = j + 1;
            }
            assert(p.labels@.take(j as int) =~= p.labels@);
            let ghost before = chunks@;
            let c = Chunk { text: string_of(&p.text), labels };
            chunks.push(c);
            assert(chunks_view(chunks@) =~= chunks_view(before).push(c@));
            assert(out@.take(i + 1) =~= out@.take(i as int).push(out@[i as int]));
            assert(styled_of(out@.take(i + 1)) =~= styled_of(out@.take(i as int)).push(out@[i as int]@));
            i = i + 1;
        }
        assert(out@.take(i as int) =~= out@);
        Ok(chunks)
    }

    /// The text of this renderer's output for a record, without its labels.
    pub fn render_plain(&self, r: &Record) -> (res: Result<String, RenderError>)
        ensures
            match render_model(self@, *r, Seq::empty()) {
                Ok(s) => res matches Ok(v) && v@ == plain(s),
                Err(e) => res == Err::<String, RenderError>(e),
            },
    {
        let mut out: Vec<Piece> = Vec::new();
        let none: Vec<Vec<char>> = Vec::new();
        assert(texts(none@) =~= Seq::<Seq<char>>::empty());
        assert(styled_of(out@) =~= Seq::<Styled>::empty());
        render_into(self, r, &none, &mut out)?;
        let text = plain_text(&out);
        Ok(string_of(&text))
    }
}

} // verus!

//! The syntax tree of a template, and the decoding of string literals.
use vstd::prelude::*;

use crate::error::{ErrorModel, TemplateError};
use crate::text::push_text;

verus! {

/// A piece of a string literal: text as written, or a backslash escape
/// (the character after the backslash).
#[derive(Debug)]
pub enum LiteralPart {
    Raw(Vec<char>),
    Escape(char),
}

/// A call: `name(args, ...)`, as a function or as a method.
#[derive(Debug)]
pub struct FunctionNode {
    pub name: Vec<char>,
    pub args: Vec<TemplateNode>,
}

/// What a term starts with.
#[derive(Debug)]
pub enum TermExpr {
    Literal(Vec<LiteralPart>),
    Identifier(Vec<char>),
    Function(FunctionNode),
    Group(Box<TemplateNode>),
}

/// A term: an expression followed by a chain of method calls.
#[derive(Debug)]
pub struct TermNode {
    pub expr: TermExpr,
    pub methods: Vec<FunctionNode>,
}

/// A template: terms written one after the other.
#[derive(Debug)]
pub struct TemplateNode {
    pub terms: Vec<TermNode>,
}

/// The mathematical form of a [`LiteralPart`].
pub enum PartSyntax {
    Raw(Seq<char>),
    Escape(char),
}

/// The mathematical form of a [`FunctionNode`].
pub struct FunctionSyntax {
    pub name: Seq<char>,
    pub args: Seq<TemplateSyntax>,
}

/// The mathematical form of a [`TermExpr`].
pub enum TermExprSyntax {
    Literal(Seq<PartSyntax>),
    Identifier(Seq<char>),
    Function(FunctionSyntax),
    Group(Box<TemplateSyntax>),
}

/// The mathematical form of a [`TermNode`].
pub struct TermSyntax {
    pub expr: TermExprSyntax,
    pub methods: Seq<FunctionSyntax>,
}

/// The mathematical form of a [`TemplateNode`].
pub struct TemplateSyntax {
    pub terms: Seq<TermSyntax>,
}

impl View for LiteralPart {
    type V = PartSyntax;

    open spec fn view(&self) -> PartSyntax {
        match self {
            LiteralPart::Raw(t) => PartSyntax::Raw(t@),
            LiteralPart::Escape(c) => PartSyntax::Escape(*c),
        }
    }
}

/// The forms of the parts of a literal.
pub open spec fn parts_view(v: Seq<LiteralPart>) -> Seq<PartSyntax> {
    v.map_values(|p: LiteralPart| p@)
}

/// The forms of calls.
pub open spec fn functions_view(v: Seq<FunctionNode>) -> Seq<FunctionSyntax> {
    v.map_values(|f: FunctionNode| f@)
}

/// The form of a template node.
pub open spec fn template_syntax(t: TemplateNode) -> TemplateSyntax
    decreases t,
{
    TemplateSyntax {
        terms: Seq::new(
            t.terms@.len(),
            |i: int|
                if 0 <= i < t.terms@.len() {
                    term_syntax(t.terms@[i])
                } else {
                    TermSyntax { expr: TermExprSyntax::Identifier(Seq::empty()), methods: Seq::empty() }
                },
        ),
    }
}

/// The form of a term node.
pub open spec fn term_syntax(t: TermNode) -> TermSyntax
    decreases t,
{
    TermSyntax {
        expr: expr_syntax(t.expr),
        methods: Seq::new(
            t.methods@.len(),
            |i: int|
                if 0 <= i < t.methods@.len() {
                    function_syntax(t.methods@[i])
                } else {
                    FunctionSyntax { name: Seq::empty(), args: Seq::empty() }
                },
        ),
    }
}

/// The form of what a term starts with.
pub open spec fn expr_syntax(e: TermExpr) -> TermExprSyntax
    decreases e,
{
    match e {
        TermExpr::Literal(parts) => TermExprSyntax::Literal(parts_view(parts@)),
        TermExpr::Identifier(n) => TermExprSyntax::Identifier(n@),
        TermExpr::Function(f) => TermExprSyntax::Function(function_syntax(f)),
        TermExpr::Group(inner) => TermExprSyntax::Group(Box::new(template_syntax(*inner))),
    }
}

/// The form of a call node.
pub open spec fn function_syntax(f: FunctionNode) -> FunctionSyntax
    decreases f,
{
    FunctionSyntax {
        name: f.name@,
        args: Seq::new(
            f.args@.len(),
            |i: int|
                if 0 <= i < f.args@.len() {
                    template_syntax(f.args@[i])
                } else {
                    TemplateSyntax { terms: Seq::empty() }
                },
        ),
    }
}

impl View for TemplateNode {
    type V = TemplateSyntax;

    open spec fn view(&self) -> TemplateSyntax {
        template_syntax(*self)
    }
}

impl View for TermNode {
    type V = TermSyntax;

    open spec fn view(&self) -> TermSyntax {
        term_syntax(*self)
    }
}

impl View for FunctionNode {
    type V = FunctionSyntax;

    open spec fn view(&self) -> FunctionSyntax {
        function_syntax(*self)
    }
}

/// The character that an escape stands for: `\"`, `\\` and `\n` are the
/// escapes of the language.
pub open spec fn escaped(c: char) -> Option<char> {
    if c == '"' {
        Some('"')
    } else if c == '\\' {
        Some('\\')
    } else if c == 'n' {
        Some('\n')
    } else {
        None
    }
}

/// The text that the parts of a literal stand for, or the first invalid escape.
pub open spec fn literal_model(parts: Seq<PartSyntax>) -> Result<Seq<char>, ErrorModel>
    decreases parts.len(),
{
    if parts.len() == 0 {
        Ok(Seq::empty())
    } else {
        match literal_model(parts.subrange(0, parts.len() - 1)) {
            Ok(front) => match parts[parts.len() - 1] {
                PartSyntax::Raw(t) => Ok(front + t),
                PartSyntax::Escape(c) => match escaped(c) {
                    Some(d) => Ok(front.push(d)),
                    None => Err(ErrorModel::InvalidEscape(c)),
                },
            },
            Err(e) => Err(e),
        }
    }
}

/// How a character is written inside a string literal: `"`, `\` and line
/// breaks as escapes, any other character as itself.
pub open spec fn escape_char(c: char) -> Seq<char> {
    if c == '"' {
        seq!['\\', '"']
    } else if c == '\\' {
        seq!['\\', '\\']
    } else if c == '\n' {
        seq!['\\', 'n']
    } else {
        seq![c]
    }
}

/// How a text is written inside a string literal.
pub open spec fn escape_text(s: Seq<char>) -> Seq<char>
    decreases s.len(),
{
    if s.len() == 0 {
        Seq::empty()
    } else {
        escape_text(s.subrange(0, s.len() - 1)) + escape_char(s[s.len() - 1])
    }
}

/// The source text of the parts of a literal.
pub open spec fn source_of(parts: Seq<PartSyntax>) -> Seq<char>
    decreases parts.len(),
{
    if parts.len() == 0 {
        Seq::empty()
    } else {
        source_of(parts.subrange(0, parts.len() - 1)) + part_source(parts[parts.len() - 1])
    }
}

/// The source text of one part of a literal.
pub open spec fn part_source(part: PartSyntax) -> Seq<char> {
    match part {
        PartSyntax::Raw(t) => t,
        PartSyntax::Escape(c) => seq!['\\', c],
    }
}

/// Whether no raw part of a literal holds a backslash, as in every literal
/// that the parser reads.
pub open spec fn raw_parts_plain(parts: Seq<PartSyntax>) -> bool {
    forall|i: int| 0 <= i < parts.len() ==> part_plain(#[trigger] parts[i])
}

/// Whether a part is an escape, or raw text without a backslash.
pub open spec fn part_plain(part: PartSyntax) -> bool {
    match part {
        PartSyntax::Raw(t) => forall|j: int| 0 <= j < t.len() ==> t[j] != '\\',
        PartSyntax::Escape(_) => true,
    }
}

proof fn lemma_literal_error(parts: Seq<PartSyntax>, i: int, c: char)
    requires
        0 <= i < parts.len(),
        literal_model(parts.take(i)) is Ok,
        parts[i] == PartSyntax::Escape(c),
        escaped(c) is None,
    ensures
        literal_model(parts) == Err::<Seq<char>, ErrorModel>(ErrorModel::InvalidEscape(c)),
    decreases parts.len(),
{
    let front = parts.subrange(0, parts.len() - 1);
    if i == parts.len() - 1 {
        assert(front == parts.take(i));
    } else {
        assert(front.take(i) == parts.take(i));
        assert(front[i] == parts[i]);
        lemma_literal_error(front, i, c);
    }
}

/// Decodes a string literal: raw text stays as it is, each escape becomes the
/// character it stands for; an unknown escape is an error.
pub fn parse_string_literal(parts: &Vec<LiteralPart>) -> (r: Result<Vec<char>, TemplateError>)
    ensures
        match r {
            Ok(s) => literal_model(parts_view(parts@)) == Ok::<Seq<char>, ErrorModel>(s@),
            Err(e) => literal_model(parts_view(parts@)) == Err::<Seq<char>, ErrorModel>(e@),
        },
{
    let mut result: Vec<char> = Vec::new();
    let mut i: usize = 0;
    while i < parts.len()
        invariant
            i <= parts@.len(),
            literal_model(parts_view(parts@).take(i as int)) == Ok::<Seq<char>, ErrorModel>(
                result@,
            ),
        decreases parts.len() - i,
    {
        assert(parts_view(parts@).take(i + 1).subrange(0, i as int) == parts_view(parts@).take(
            i as int,
        ));
        match &parts[i] {
            LiteralPart::Raw(t) => {
                push_text(&mut result, t);
            },
            LiteralPart::Escape(c) => {
                let c = *c;
                if c == '"' {
                    result.push('"');
                } else if c == '\\' {
                    result.push('\\');
                } else if c == 'n' {
                    result.push('\n');
                } else {
                    proof {
                        lemma_literal_error(parts_view(parts@), i as int, c);
                    }
                    return Err(TemplateError::InvalidEscape(c));
                }
            },
        }
        i = i + 1;
    }
    assert(parts_view(parts@).take(i as int) == parts_view(parts@));
    Ok(result)
}

} // verus!

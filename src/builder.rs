//! Turns a syntax tree into a renderer, checking the kind of every
//! expression on the way: keywords, method chains, `label` and `if`.
use vstd::prelude::*;

use crate::error::{ErrorModel, TemplateError};
use crate::parser::{all_blank, program_spec, TemplateParser};
use crate::property::{
    apply_method, boolean_model, is_name, keyword_model, method_model, parse_commit_keyword,
    try_into_boolean, BooleanModel, BooleanProperty, Property, PropertyModel, TextModel,
    TextProperty,
};
use crate::syntax::{
    functions_view, literal_model, parse_string_literal, FunctionNode, FunctionSyntax, TemplateNode,
    TemplateSyntax, TermExpr, TermExprSyntax, TermNode, TermSyntax,
};
use crate::template::{models, Template, TemplateModel};
use crate::text::{copy_text, lemma_texts_push, texts};

verus! {

/// What a piece of template builds to: a value that methods can still be
/// applied to, with the labels gathered from the names that built it; or a
/// finished renderer.
#[derive(Debug)]
pub enum Expression {
    Property(Property, Vec<Vec<char>>),
    Template(Template),
}

/// The mathematical form of an [`Expression`].
pub enum ExprModel {
    Property(PropertyModel, Seq<Seq<char>>),
    Template(TemplateModel),
}

impl View for Expression {
    type V = ExprModel;

    open spec fn view(&self) -> ExprModel {
        match self {
            Expression::Property(p, ls) => ExprModel::Property(p@, texts(ls@)),
            Expression::Template(t) => ExprModel::Template(t@),
        }
    }
}

/// The models of an expression result.
pub open spec fn expr_result(r: Result<Expression, TemplateError>) -> Result<ExprModel, ErrorModel> {
    match r {
        Ok(e) => Ok(e@),
        Err(e) => Err(e@),
    }
}

/// The renderer of an expression: a value is written in the form of its
/// kind, under its labels where it has any.
pub open spec fn into_template_model(e: ExprModel) -> TemplateModel {
    match e {
        ExprModel::Property(p, ls) => if ls.len() == 0 {
            TemplateModel::Property(p)
        } else {
            TemplateModel::Label(Box::new(TemplateModel::Property(p)), ls)
        },
        ExprModel::Template(t) => t,
    }
}

/// The boolean that an expression stands for as a condition.
pub open spec fn condition_model(e: ExprModel) -> Result<BooleanModel, ErrorModel> {
    match e {
        ExprModel::Property(p, _) => boolean_model(p),
        ExprModel::Template(_) => Err(ErrorModel::TemplateAsBoolean),
    }
}

/// The value and labels after applying the methods `ms` from left to right,
/// each looked up in the table of the kind that the value has so far; each
/// method's name is added to the labels.
pub open spec fn chain_model(p: PropertyModel, ls: Seq<Seq<char>>, ms: Seq<FunctionSyntax>) -> Result<
    (PropertyModel, Seq<Seq<char>>),
    ErrorModel,
>
    decreases ms.len(),
{
    if ms.len() == 0 {
        Ok((p, ls))
    } else {
        match chain_model(p, ls, ms.subrange(0, ms.len() - 1)) {
            Ok(pair) => match method_model(pair.0, ms[ms.len() - 1].name) {
                Ok(q) => Ok((q, pair.1.push(ms[ms.len() - 1].name))),
                Err(e) => Err(e),
            },
            Err(e) => Err(e),
        }
    }
}

/// An expression after a chain of methods; a finished renderer takes none.
pub open spec fn methods_model(e: ExprModel, ms: Seq<FunctionSyntax>) -> Result<ExprModel, ErrorModel> {
    if ms.len() == 0 {
        Ok(e)
    } else {
        match e {
            ExprModel::Property(p, ls) => match chain_model(p, ls, ms) {
                Ok(pair) => Ok(ExprModel::Property(pair.0, pair.1)),
                Err(err) => Err(err),
            },
            ExprModel::Template(_) => Err(ErrorModel::MethodOnTemplate(ms[0].name)),
        }
    }
}

/// What a template node builds to: its one term's expression, or the
/// concatenation of the renderers of its terms.
pub open spec fn template_rule_model(t: TemplateSyntax) -> Result<ExprModel, ErrorModel>
    decreases t,
{
    if t.terms.len() == 1 {
        term_model(t.terms[0])
    } else {
        match terms_model(t.terms) {
            Ok(ts) => Ok(ExprModel::Template(TemplateModel::List(ts))),
            Err(e) => Err(e),
        }
    }
}

/// The renderers of terms, in order; the first failure, if any.
pub open spec fn terms_model(ts: Seq<TermSyntax>) -> Result<Seq<TemplateModel>, ErrorModel>
    decreases ts,
{
    if ts.len() == 0 {
        Ok(Seq::empty())
    } else {
        match terms_model(ts.subrange(0, ts.len() - 1)) {
            Ok(front) => match term_model(ts[ts.len() - 1]) {
                Ok(e) => Ok(front.push(into_template_model(e))),
                Err(e) => Err(e),
            },
            Err(e) => Err(e),
        }
    }
}

/// What a term builds to: a literal is a text with no labels; a keyword is
/// its property, labelled with its name; a call is `label` or `if`; a group
/// is its template; then the term's methods are applied.
pub open spec fn term_model(t: TermSyntax) -> Result<ExprModel, ErrorModel>
    decreases t,
{
    let base = match t.expr {
        TermExprSyntax::Literal(parts) => match literal_model(parts) {
            Ok(s) => Ok(ExprModel::Property(PropertyModel::Text(TextModel::Literal(s)), Seq::empty())),
            Err(e) => Err(e),
        },
        TermExprSyntax::Identifier(n) => match keyword_model(n) {
            Some(p) => Ok(ExprModel::Property(p, seq![n])),
            None => Err(ErrorModel::UnknownIdentifier(n)),
        },
        TermExprSyntax::Function(f) => function_model(f),
        TermExprSyntax::Group(inner) => template_rule_model(*inner),
    };
    match base {
        Ok(e) => methods_model(e, t.methods),
        Err(e) => Err(e),
    }
}

/// What a function call builds to. `label(x, y)` renders `y` with the words
/// of `x`'s text as labels; `if(c, a)` and `if(c, a, b)` render `a` where `c`
/// holds, else `b` or nothing. Other names are no functions.
pub open spec fn function_model(f: FunctionSyntax) -> Result<ExprModel, ErrorModel>
    decreases f,
{
    let n = f.args.len();
    if f.name == "label"@ {
        if n != 2 {
            Err(ErrorModel::ArgumentCount(f.name, n))
        } else {
            match template_rule_model(f.args[0]) {
                Ok(l) => match template_rule_model(f.args[1]) {
                    Ok(c) => Ok(
                        ExprModel::Template(
                            TemplateModel::DynamicLabel(
                                Box::new(into_template_model(l)),
                                Box::new(into_template_model(c)),
                            ),
                        ),
                    ),
                    Err(e) => Err(e),
                },
                Err(e) => Err(e),
            }
        }
    } else if f.name == "if"@ {
        if n < 2 || n > 3 {
            Err(ErrorModel::ArgumentCount(f.name, n))
        } else {
            match template_rule_model(f.args[0]) {
                Ok(c) => match condition_model(c) {
                    Ok(b) => match template_rule_model(f.args[1]) {
                        Ok(a) => if n == 3 {
                            match template_rule_model(f.args[2]) {
                                Ok(e) => Ok(
                                    ExprModel::Template(
                                        TemplateModel::Conditional(
                                            b,
                                            Box::new(into_template_model(a)),
                                            Some(Box::new(into_template_model(e))),
                                        ),
                                    ),
                                ),
                                Err(e) => Err(e),
                            }
                        } else {
                            Ok(
                                ExprModel::Template(
                                    TemplateModel::Conditional(
                                        b,
                                        Box::new(into_template_model(a)),
                                        None,
                                    ),
                                ),
                            )
                        },
                        Err(e) => Err(e),
                    },
                    Err(e) => Err(e),
                },
                Err(e) => Err(e),
            }
        }
    } else {
        Err(ErrorModel::UnknownFunction(f.name))
    }
}

/// The renderer of an expression.
pub fn into_template(e: Expression) -> (r: Template)
    ensures
        r@ == into_template_model(e@),
{
    match e {
        Expression::Property(p, ls) => if ls.len() == 0 {
            assert(texts(ls@).len() == 0);
            Template::Property(p)
        } else {
            let inner = Template::Property(p);
            assert(inner@ == TemplateModel::Property(p@));
            assert(texts(ls@).len() == ls@.len());
            Template::Label(Box::new(inner), ls)
        },
        Expression::Template(t) => t,
    }
}

/// Takes an expression as the condition of `if`.
pub fn expression_into_boolean(e: Expression) -> (r: Result<BooleanProperty, TemplateError>)
    ensures
        match r {
            Ok(b) => condition_model(e@) == Ok::<BooleanModel, ErrorModel>(b@),
            Err(err) => condition_model(e@) == Err::<BooleanModel, ErrorModel>(err@),
        },
{
    match e {
        Expression::Property(p, _) => try_into_boolean(p),
        Expression::Template(_) => Err(TemplateError::TemplateAsBoolean),
    }
}

proof fn lemma_chain_error(p: PropertyModel, ls: Seq<Seq<char>>, ms: Seq<FunctionSyntax>, i: int)
    requires
        0 <= i < ms.len(),
        chain_model(p, ls, ms.take(i)) is Ok,
        method_model(chain_model(p, ls, ms.take(i))->Ok_0.0, ms[i].name) is Err,
    ensures
        chain_model(p, ls, ms) == Err::<(PropertyModel, Seq<Seq<char>>), ErrorModel>(
            method_model(chain_model(p, ls, ms.take(i))->Ok_0.0, ms[i].name)->Err_0,
        ),
    decreases ms.len(),
{
    let front = ms.subrange(0, ms.len() - 1);
    if i == ms.len() - 1 {
        assert(front == ms.take(i));
    } else {
        assert(front.take(i) == ms.take(i));
        assert(front[i] == ms[i]);
        lemma_chain_error(p, ls, front, i);
    }
}

/// Applies the methods `methods` to a value, from left to right, adding
/// each method's name to the labels.
pub fn parse_method_chain(methods: &Vec<FunctionNode>, p: Property, labels: Vec<Vec<char>>) -> (r:
    Result<Expression, TemplateError>)
    ensures
        expr_result(r) == match chain_model(p@, texts(labels@), functions_view(methods@)) {
            Ok(pair) => Ok(ExprModel::Property(pair.0, pair.1)),
            Err(e) => Err(e),
        },
{
    let ghost p0 = p@;
    let ghost ls0 = texts(labels@);
    let mut cur = p;
    let mut acc = labels;
    let mut i: usize = 0;
    let ghost ms = functions_view(methods@);
    assert(ms.take(0) =~= Seq::<FunctionSyntax>::empty());
    while i < methods.len()
        invariant
            i <= methods@.len(),
            p0 == p@,
            ls0 == texts(labels@),
            ms == functions_view(methods@),
            chain_model(p0, ls0, ms.take(i as int)) == Ok::<
                (PropertyModel, Seq<Seq<char>>),
                ErrorModel,
            >((cur@, texts(acc@))),
        decreases methods.len() - i,
    {
        let name = &methods[i].name;
        assert(ms.take(i + 1).subrange(0, i as int) == ms.take(i as int));
        let ghost before = cur@;
        match apply_method(cur, name) {
            Ok(next) => {
                let ghost old_labels = acc@;
                let w = copy_text(name);
                acc.push(w);
                proof {
                    lemma_texts_push(old_labels, w);
                }
                cur = next;
            },
            Err(e) => {
                proof {
                    lemma_chain_error(p0, ls0, ms, i as int);
                }
                return Err(e);
            },
        }
        i = i + 1;
    }
    assert(ms.take(i as int) == ms);
    Ok(Expression::Property(cur, acc))
}

/// Applies the methods of a term to its expression.
fn apply_methods(e: Expression, methods: &Vec<FunctionNode>) -> (r: Result<Expression, TemplateError>)
    ensures
        expr_result(r) == methods_model(e@, functions_view(methods@)),
{
    if methods.len() == 0 {
        return Ok(e);
    }
    match e {
        Expression::Property(p, ls) => parse_method_chain(methods, p, ls),
        Expression::Template(_) => Err(TemplateError::MethodOnTemplate(copy_text(&methods[0].name))),
    }
}

/// Builds a call of `label` or `if`.
pub fn parse_function(f: &FunctionNode) -> (r: Result<Expression, TemplateError>)
    ensures
        expr_result(r) == function_model(f@),
    decreases f,
{
    let n = f.args.len();
    if is_name(&f.name, "label") {
        if n != 2 {
            return Err(TemplateError::ArgumentCount(copy_text(&f.name), n));
        }
        proof {
            vstd::std_specs::vec::axiom_vec_index_decreases(f.args, 0);
            vstd::std_specs::vec::axiom_vec_index_decreases(f.args, 1);
        }
        let label = parse_commit_template_rule(&f.args[0])?;
        let content = parse_commit_template_rule(&f.args[1])?;
        Ok(
            Expression::Template(
                Template::DynamicLabel(
                    Box::new(into_template(label)),
                    Box::new(into_template(content)),
                ),
            ),
        )
    } else if is_name(&f.name, "if") {
        if n < 2 || n > 3 {
            return Err(TemplateError::ArgumentCount(copy_text(&f.name), n));
        }
        proof {
            vstd::std_specs::vec::axiom_vec_index_decreases(f.args, 0);
            vstd::std_specs::vec::axiom_vec_index_decreases(f.args, 1);
            if n == 3 {
                vstd::std_specs::vec::axiom_vec_index_decreases(f.args, 2);
            }
        }
        let condition = parse_commit_template_rule(&f.args[0])?;
        let condition = expression_into_boolean(condition)?;
        let then_part = into_template(parse_commit_template_rule(&f.args[1])?);
        let else_part = if n == 3 {
            Some(Box::new(into_template(parse_commit_template_rule(&f.args[2])?)))
        } else {
            None
        };
        Ok(Expression::Template(Template::Conditional(condition, Box::new(then_part), else_part)))
    } else {
        Err(TemplateError::UnknownFunction(copy_text(&f.name)))
    }
}

/// Builds a term.
pub fn parse_commit_term(t: &TermNode) -> (r: Result<Expression, TemplateError>)
    ensures
        expr_result(r) == term_model(t@),
    decreases t,
{
    let base = match &t.expr {
        TermExpr::Literal(parts) => {
            let text = parse_string_literal(parts)?;
            let none: Vec<Vec<char>> = Vec::new();
            assert(texts(none@) =~= Seq::<Seq<char>>::empty());
            Expression::Property(Property::Text(TextProperty::Literal(text)), none)
        },
        TermExpr::Identifier(name) => {
            let p = parse_commit_keyword(name)?;
            let labels = vec![copy_text(name)];
            assert(texts(labels@) =~= seq![name@]);
            Expression::Property(p, labels)
        },
        TermExpr::Function(f) => parse_function(f)?,
        TermExpr::Group(inner) => parse_commit_template_rule(inner)?,
    };
    assert(t@.methods =~= functions_view(t.methods@));
    apply_methods(base, &t.methods)
}

proof fn lemma_terms_error(ts: Seq<TermSyntax>, i: int)
    requires
        0 <= i < ts.len(),
        terms_model(ts.take(i)) is Ok,
        term_model(ts[i]) is Err,
    ensures
        terms_model(ts) == Err::<Seq<TemplateModel>, ErrorModel>(term_model(ts[i])->Err_0),
    decreases ts.len(),
{
    let front = ts.subrange(0, ts.len() - 1);
    if i == ts.len() - 1 {
        assert(front == ts.take(i));
    } else {
        assert(front.take(i) == ts.take(i));
        assert(front[i] == ts[i]);
        lemma_terms_error(front, i);
    }
}

/// Builds a template node: one term stays its expression; several become
/// the concatenation of their renderers.
pub fn parse_commit_template_rule(t: &TemplateNode) -> (r: Result<Expression, TemplateError>)
    ensures
        expr_result(r) == template_rule_model(t@),
    decreases t,
{
    if t.terms.len() == 1 {
        proof {
            vstd::std_specs::vec::axiom_vec_index_decreases(t.terms, 0);
        }
        return parse_commit_term(&t.terms[0]);
    }
    let mut built: Vec<Template> = Vec::new();
    let mut i: usize = 0;
    assert(t@.terms.take(0) =~= Seq::<TermSyntax>::empty());
    assert(models(built@) =~= Seq::<TemplateModel>::empty());
    while i < t.terms.len()
        invariant
            i <= t.terms@.len(),
            terms_model(t@.terms.take(i as int)) == Ok::<Seq<TemplateModel>, ErrorModel>(
                models(built@),
            ),
        decreases t.terms.len() - i,
    {
        proof {
            vstd::std_specs::vec::axiom_vec_index_decreases(t.terms, i as int);
        }
        assert(t@.terms.take(i + 1).subrange(0, i as int) == t@.terms.take(i as int));
        assert(t@.terms[i as int] == t.terms@[i as int]@);
        match parse_commit_term(&t.terms[i]) {
            Ok(e) => {
                let ghost before = built@;
                let tm = into_template(e);
                built.push(tm);
                assert(models(built@) =~= models(before).push(tm@));
            },
            Err(e) => {
                proof {
                    lemma_terms_error(t@.terms, i as int);
                }
                return Err(e);
            },
        }
        i = i + 1;
    }
    assert(t@.terms.take(i as int) == t@.terms);
    let list = Template::List(built);
    assert(list@ == TemplateModel::List(models(built@))) by {
        assert(list@->List_0 =~= models(built@));
    }
    Ok(Expression::Template(list))
}

/// What a parsed program builds to: the empty program writes nothing; a
/// template writes what its expression writes.
pub open spec fn program_model(tree: Option<TemplateSyntax>) -> Result<TemplateModel, ErrorModel> {
    match tree {
        None => Ok(TemplateModel::Literal(Seq::empty())),
        Some(t) => match template_rule_model(t) {
            Ok(e) => Ok(into_template_model(e)),
            Err(e) => Err(e),
        },
    }
}

/// The models of a renderer result.
pub open spec fn template_result(r: Result<Template, TemplateError>) -> Result<
    TemplateModel,
    ErrorModel,
> {
    match r {
        Ok(t) => Ok(t@),
        Err(e) => Err(e@),
    }
}

/// Builds the renderer of a parsed program.
pub fn build_program(tree: Option<TemplateNode>) -> (r: Result<Template, TemplateError>)
    ensures
        template_result(r) == program_model(
            match tree {
                Some(t) => Some(t@),
                None => None,
            },
        ),
{
    match tree {
        None => Ok(Template::Literal(Vec::new())),
        Some(t) => {
            let e = parse_commit_template_rule(&t)?;
            Ok(into_template(e))
        },
    }
}

/// Parses a template source and builds its renderer: a source that the
/// grammar does not read fails with the position where it stops; a source
/// of blanks only writes nothing; any other source builds to what its
/// syntax tree builds to.
pub fn parse_commit_template(template_text: &str) -> (r: Result<Template, TemplateError>)
    ensures
        template_result(r) == match program_spec(template_text@) {
            Ok(tree) => program_model(tree),
            Err(p) => Err(ErrorModel::Syntax(p as nat)),
        },
        all_blank(template_text@) ==> (r matches Ok(t) && t@ == TemplateModel::Literal(
            Seq::empty(),
        )),
{
    let tree = TemplateParser::parse_program(template_text)?;
    build_program(tree)
}

} // verus!

//! The value model: one property type per kind of value, each a description
//! of how to compute a value of that kind from a record, and the method table
//! of each kind.
use vstd::prelude::*;

use crate::error::{ErrorModel, RenderError, TemplateError, ValueKind};
use crate::record::{
    bracketed_of, prefix_of, rest_of, short_of, CommitOrChangeId, IdWithHighlightedPrefix, Record,
    Signature, Timestamp,
};
use crate::text::{chars_of, copy_text, first_line, first_line_of, same_text};

verus! {

/// Computes an identifier from a record.
#[derive(PartialEq, Eq, Structural, Clone, Copy, Debug)]
pub enum IdProperty {
    ChangeId,
    CommitId,
}

/// Computes a signature from a record.
#[derive(PartialEq, Eq, Structural, Clone, Copy, Debug)]
pub enum SignatureProperty {
    Author,
    Committer,
}

/// Computes a timestamp from a record: the time of a signature.
#[derive(PartialEq, Eq, Structural, Clone, Copy, Debug)]
pub enum TimestampProperty {
    SignatureTime(SignatureProperty),
}

/// Computes an identifier with its unique prefix marked.
#[derive(PartialEq, Eq, Structural, Clone, Copy, Debug)]
pub enum HighlightedIdProperty {
    ShortestStyledPrefix(IdProperty),
}

/// Computes a text from a record.
#[derive(Debug)]
pub enum TextProperty {
    Literal(Vec<char>),
    Description,
    WorkingCopies,
    Branches,
    Tags,
    GitRefs,
    GitHead,
    FirstLine(Box<TextProperty>),
    Short(IdProperty),
    ShortestPrefixAndBrackets(IdProperty),
    Name(SignatureProperty),
    Email(SignatureProperty),
    Ago(TimestampProperty),
}

/// Computes a boolean from a record.
#[derive(Debug)]
pub enum BooleanProperty {
    CurrentWorkingCopy,
    Divergent,
    Conflict,
    Empty,
    /// A text taken as a boolean: true where it is not empty.
    NonEmpty(TextProperty),
}

/// A value of one of the kinds, computed from a record.
#[derive(Debug)]
pub enum Property {
    Text(TextProperty),
    Boolean(BooleanProperty),
    CommitOrChangeId(IdProperty),
    IdWithHighlightedPrefix(HighlightedIdProperty),
    Signature(SignatureProperty),
    Timestamp(TimestampProperty),
}

/// The mathematical form of a [`TextProperty`].
pub enum TextModel {
    Literal(Seq<char>),
    Description,
    WorkingCopies,
    Branches,
    Tags,
    GitRefs,
    GitHead,
    FirstLine(Box<TextModel>),
    Short(IdProperty),
    ShortestPrefixAndBrackets(IdProperty),
    Name(SignatureProperty),
    Email(SignatureProperty),
    Ago(TimestampProperty),
}

/// The mathematical form of a [`BooleanProperty`].
pub enum BooleanModel {
    CurrentWorkingCopy,
    Divergent,
    Conflict,
    Empty,
    NonEmpty(TextModel),
}

/// The mathematical form of a [`Property`].
pub enum PropertyModel {
    Text(TextModel),
    Boolean(BooleanModel),
    CommitOrChangeId(IdProperty),
    IdWithHighlightedPrefix(HighlightedIdProperty),
    Signature(SignatureProperty),
    Timestamp(TimestampProperty),
}

impl View for TextProperty {
    type V = TextModel;

    open spec fn view(&self) -> TextModel
        decreases self,
    {
        match self {
            TextProperty::Literal(t) => TextModel::Literal(t@),
            TextProperty::Description => TextModel::Description,
            TextProperty::WorkingCopies => TextModel::WorkingCopies,
            TextProperty::Branches => TextModel::Branches,
            TextProperty::Tags => TextModel::Tags,
            TextProperty::GitRefs => TextModel::GitRefs,
            TextProperty::GitHead => TextModel::GitHead,
            TextProperty::FirstLine(p) => TextModel::FirstLine(Box::new((**p).view())),
            TextProperty::Short(i) => TextModel::Short(*i),
            TextProperty::ShortestPrefixAndBrackets(i) => TextModel::ShortestPrefixAndBrackets(*i),
            TextProperty::Name(s) => TextModel::Name(*s),
            TextProperty::Email(s) => TextModel::Email(*s),
            TextProperty::Ago(t) => TextModel::Ago(*t),
        }
    }
}

impl View for BooleanProperty {
    type V = BooleanModel;

    open spec fn view(&self) -> BooleanModel {
        match self {
            BooleanProperty::CurrentWorkingCopy => BooleanModel::CurrentWorkingCopy,
            BooleanProperty::Divergent => BooleanModel::Divergent,
            BooleanProperty::Conflict => BooleanModel::Conflict,
            BooleanProperty::Empty => BooleanModel::Empty,
            BooleanProperty::NonEmpty(t) => BooleanModel::NonEmpty(t@),
        }
    }
}

impl View for Property {
    type V = PropertyModel;

    open spec fn view(&self) -> PropertyModel {
        match self {
            Property::Text(p) => PropertyModel::Text(p@),
            Property::Boolean(p) => PropertyModel::Boolean(p@),
            Property::CommitOrChangeId(p) => PropertyModel::CommitOrChangeId(*p),
            Property::IdWithHighlightedPrefix(p) => PropertyModel::IdWithHighlightedPrefix(*p),
            Property::Signature(p) => PropertyModel::Signature(*p),
            Property::Timestamp(p) => PropertyModel::Timestamp(*p),
        }
    }
}

/// The kind of value that a property computes.
pub open spec fn kind_of(p: PropertyModel) -> ValueKind {
    match p {
        PropertyModel::Text(_) => ValueKind::Text,
        PropertyModel::Boolean(_) => ValueKind::Boolean,
        PropertyModel::CommitOrChangeId(_) => ValueKind::CommitOrChangeId,
        PropertyModel::IdWithHighlightedPrefix(_) => ValueKind::IdWithHighlightedPrefix,
        PropertyModel::Signature(_) => ValueKind::Signature,
        PropertyModel::Timestamp(_) => ValueKind::Timestamp,
    }
}

/// The identifier that a property reads from a record.
pub open spec fn id_value(p: IdProperty, r: Record) -> CommitOrChangeId {
    match p {
        IdProperty::ChangeId => r.change_id,
        IdProperty::CommitId => r.commit_id,
    }
}

/// The signature that a property reads from a record.
pub open spec fn signature_value(p: SignatureProperty, r: Record) -> Signature {
    match p {
        SignatureProperty::Author => r.author,
        SignatureProperty::Committer => r.committer,
    }
}

/// The timestamp that a property reads from a record.
pub open spec fn timestamp_value(p: TimestampProperty, r: Record) -> Timestamp {
    match p {
        TimestampProperty::SignatureTime(s) => signature_value(s, r).timestamp,
    }
}

/// The text that a property computes from a record.
pub open spec fn text_value(p: TextModel, r: Record) -> Result<Seq<char>, RenderError>
    decreases p,
{
    match p {
        TextModel::Literal(t) => Ok(t),
        TextModel::Description => Ok(r.description@),
        TextModel::WorkingCopies => Ok(r.working_copies@),
        TextModel::Branches => Ok(r.branches@),
        TextModel::Tags => Ok(r.tags@),
        TextModel::GitRefs => Ok(r.git_refs@),
        TextModel::GitHead => Ok(r.git_head@),
        TextModel::FirstLine(inner) => match text_value(*inner, r) {
            Ok(s) => match first_line_of(s) {
                Some(line) => Ok(line),
                None => Err(RenderError::NoFirstLine),
            },
            Err(e) => Err(e),
        },
        TextModel::Short(i) => Ok(short_of(id_value(i, r).hex@)),
        TextModel::ShortestPrefixAndBrackets(i) => Ok(bracketed_of(id_value(i, r))),
        TextModel::Name(s) => Ok(signature_value(s, r).name@),
        TextModel::Email(s) => Ok(signature_value(s, r).email@),
        TextModel::Ago(t) => Ok(timestamp_value(t, r).relative@),
    }
}

/// The boolean that a property computes from a record.
pub open spec fn boolean_value(p: BooleanModel, r: Record) -> Result<bool, RenderError> {
    match p {
        BooleanModel::CurrentWorkingCopy => Ok(r.is_working_copy),
        BooleanModel::Divergent => Ok(r.divergent),
        BooleanModel::Conflict => Ok(r.conflict),
        BooleanModel::Empty => Ok(r.empty),
        BooleanModel::NonEmpty(t) => match text_value(t, r) {
            Ok(s) => Ok(s.len() > 0),
            Err(e) => Err(e),
        },
    }
}

/// The texts of a text result.
pub open spec fn text_result(r: Result<Vec<char>, RenderError>) -> Result<Seq<char>, RenderError> {
    match r {
        Ok(v) => Ok(v@),
        Err(e) => Err(e),
    }
}

/// The identifier that a property reads from a record.
pub fn eval_id(p: IdProperty, r: &Record) -> (res: &CommitOrChangeId)
    ensures
        *res == id_value(p, *r),
{
    match p {
        IdProperty::ChangeId => &r.change_id,
        IdProperty::CommitId => &r.commit_id,
    }
}

/// The signature that a property reads from a record.
pub fn eval_signature(p: SignatureProperty, r: &Record) -> (res: &Signature)
    ensures
        *res == signature_value(p, *r),
{
    match p {
        SignatureProperty::Author => &r.author,
        SignatureProperty::Committer => &r.committer,
    }
}

/// The timestamp that a property reads from a record.
pub fn eval_timestamp(p: TimestampProperty, r: &Record) -> (res: &Timestamp)
    ensures
        *res == timestamp_value(p, *r),
{
    match p {
        TimestampProperty::SignatureTime(s) => &eval_signature(s, r).timestamp,
    }
}

/// The identifier with its unique prefix marked that a property computes.
pub fn eval_highlighted_id(p: HighlightedIdProperty, r: &Record) -> (res: IdWithHighlightedPrefix)
    ensures
        ({
            let HighlightedIdProperty::ShortestStyledPrefix(i) = p;
            &&& res.prefix@ == prefix_of(id_value(i, *r))
            &&& res.rest@ == rest_of(id_value(i, *r))
        }),
{
    match p {
        HighlightedIdProperty::ShortestStyledPrefix(i) => eval_id(i, r).shortest_styled_prefix(),
    }
}

/// The text that a property computes from a record.
pub fn eval_text(p: &TextProperty, r: &Record) -> (res: Result<Vec<char>, RenderError>)
    ensures
        text_result(res) == text_value(p@, *r),
    decreases p,
{
    match p {
        TextProperty::Literal(t) => Ok(copy_text(t)),
        TextProperty::Description => Ok(chars_of(r.description.as_str())),
        TextProperty::WorkingCopies => Ok(chars_of(r.working_copies.as_str())),
        TextProperty::Branches => Ok(chars_of(r.branches.as_str())),
        TextProperty::Tags => Ok(chars_of(r.tags.as_str())),
        TextProperty::GitRefs => Ok(chars_of(r.git_refs.as_str())),
        TextProperty::GitHead => Ok(chars_of(r.git_head.as_str())),
        TextProperty::FirstLine(inner) => {
            let s = eval_text(inner, r)?;
            match first_line(&s) {
                Some(line) => Ok(line),
                None => Err(RenderError::NoFirstLine),
            }
        },
        TextProperty::Short(i) => Ok(eval_id(*i, r).short()),
        TextProperty::ShortestPrefixAndBrackets(i) => Ok(
            eval_id(*i, r).shortest_prefix_and_brackets(),
        ),
        TextProperty::Name(s) => Ok(chars_of(eval_signature(*s, r).name.as_str())),
        TextProperty::Email(s) => Ok(chars_of(eval_signature(*s, r).email.as_str())),
        TextProperty::Ago(t) => Ok(chars_of(eval_timestamp(*t, r).relative.as_str())),
    }
}

/// The boolean that a property computes from a record.
pub fn eval_boolean(p: &BooleanProperty, r: &Record) -> (res: Result<bool, RenderError>)
    ensures
        res == boolean_value(p@, *r),
{
    match p {
        BooleanProperty::CurrentWorkingCopy => Ok(r.is_working_copy),
        BooleanProperty::Divergent => Ok(r.divergent),
        BooleanProperty::Conflict => Ok(r.conflict),
        BooleanProperty::Empty => Ok(r.empty),
        BooleanProperty::NonEmpty(t) => {
            let s = eval_text(t, r)?;
            Ok(s.len() > 0)
        },
    }
}

/// The models of a property result.
pub open spec fn property_result(r: Result<Property, TemplateError>) -> Result<
    PropertyModel,
    ErrorModel,
> {
    match r {
        Ok(p) => Ok(p@),
        Err(e) => Err(e@),
    }
}

/// The property that a keyword names, labelled by the keyword itself.
pub open spec fn keyword_model(name: Seq<char>) -> Option<PropertyModel> {
    if name == "description"@ {
        Some(PropertyModel::Text(TextModel::Description))
    } else if name == "change_id"@ {
        Some(PropertyModel::CommitOrChangeId(IdProperty::ChangeId))
    } else if name == "commit_id"@ {
        Some(PropertyModel::CommitOrChangeId(IdProperty::CommitId))
    } else if name == "author"@ {
        Some(PropertyModel::Signature(SignatureProperty::Author))
    } else if name == "committer"@ {
        Some(PropertyModel::Signature(SignatureProperty::Committer))
    } else if name == "working_copies"@ {
        Some(PropertyModel::Text(TextModel::WorkingCopies))
    } else if name == "current_working_copy"@ {
        Some(PropertyModel::Boolean(BooleanModel::CurrentWorkingCopy))
    } else if name == "branches"@ {
        Some(PropertyModel::Text(TextModel::Branches))
    } else if name == "tags"@ {
        Some(PropertyModel::Text(TextModel::Tags))
    } else if name == "git_refs"@ {
        Some(PropertyModel::Text(TextModel::GitRefs))
    } else if name == "git_head"@ {
        Some(PropertyModel::Text(TextModel::GitHead))
    } else if name == "divergent"@ {
        Some(PropertyModel::Boolean(BooleanModel::Divergent))
    } else if name == "conflict"@ {
        Some(PropertyModel::Boolean(BooleanModel::Conflict))
    } else if name == "empty"@ {
        Some(PropertyModel::Boolean(BooleanModel::Empty))
    } else {
        None
    }
}

/// The property that applying the method `name` to `recv` gives, or why
/// there is none: the method table of each kind.
pub open spec fn method_model(recv: PropertyModel, name: Seq<char>) -> Result<
    PropertyModel,
    ErrorModel,
> {
    let missing = Err(ErrorModel::NoSuchMethod(kind_of(recv), name));
    match recv {
        PropertyModel::Text(t) => if name == "first_line"@ {
            Ok(PropertyModel::Text(TextModel::FirstLine(Box::new(t))))
        } else {
            missing
        },
        PropertyModel::Boolean(_) => missing,
        PropertyModel::CommitOrChangeId(i) => if name == "short"@ {
            Ok(PropertyModel::Text(TextModel::Short(i)))
        } else if name == "shortest_prefix_and_brackets"@ {
            Ok(PropertyModel::Text(TextModel::ShortestPrefixAndBrackets(i)))
        } else if name == "shortest_styled_prefix"@ {
            Ok(
                PropertyModel::IdWithHighlightedPrefix(
                    HighlightedIdProperty::ShortestStyledPrefix(i),
                ),
            )
        } else {
            missing
        },
        PropertyModel::IdWithHighlightedPrefix(_) => missing,
        PropertyModel::Signature(s) => if name == "name"@ {
            Ok(PropertyModel::Text(TextModel::Name(s)))
        } else if name == "email"@ {
            Ok(PropertyModel::Text(TextModel::Email(s)))
        } else if name == "timestamp"@ {
            Ok(PropertyModel::Timestamp(TimestampProperty::SignatureTime(s)))
        } else {
            missing
        },
        PropertyModel::Timestamp(t) => if name == "ago"@ {
            Ok(PropertyModel::Text(TextModel::Ago(t)))
        } else {
            missing
        },
    }
}

/// Whether `name` spells `word`.
pub fn is_name(name: &Vec<char>, word: &str) -> (r: bool)
    ensures
        r == (name@ == word@),
{
    let w = chars_of(word);
    same_text(name, &w)
}

/// The property that a keyword names.
pub fn parse_commit_keyword(name: &Vec<char>) -> (r: Result<Property, TemplateError>)
    ensures
        property_result(r) == match keyword_model(name@) {
            Some(p) => Ok(p),
            None => Err(ErrorModel::UnknownIdentifier(name@)),
        },
{
    if is_name(name, "description") {
        Ok(Property::Text(TextProperty::Description))
    } else if is_name(name, "change_id") {
        Ok(Property::CommitOrChangeId(IdProperty::ChangeId))
    } else if is_name(name, "commit_id") {
        Ok(Property::CommitOrChangeId(IdProperty::CommitId))
    } else if is_name(name, "author") {
        Ok(Property::Signature(SignatureProperty::Author))
    } else if is_name(name, "committer") {
        Ok(Property::Signature(SignatureProperty::Committer))
    } else if is_name(name, "working_copies") {
        Ok(Property::Text(TextProperty::WorkingCopies))
    } else if is_name(name, "current_working_copy") {
        Ok(Property::Boolean(BooleanProperty::CurrentWorkingCopy))
    } else if is_name(name, "branches") {
        Ok(Property::Text(TextProperty::Branches))
    } else if is_name(name, "tags") {
        Ok(Property::Text(TextProperty::Tags))
    } else if is_name(name, "git_refs") {
        Ok(Property::Text(TextProperty::GitRefs))
    } else if is_name(name, "git_head") {
        Ok(Property::Text(TextProperty::GitHead))
    } else if is_name(name, "divergent") {
        Ok(Property::Boolean(BooleanProperty::Divergent))
    } else if is_name(name, "conflict") {
        Ok(Property::Boolean(BooleanProperty::Conflict))
    } else if is_name(name, "empty") {
        Ok(Property::Boolean(BooleanProperty::Empty))
    } else {
        Err(TemplateError::UnknownIdentifier(copy_text(name)))
    }
}

/// The methods of texts.
pub fn parse_string_method(name: &Vec<char>, recv: TextProperty) -> (r: Result<
    Property,
    TemplateError,
>)
    ensures
        property_result(r) == method_model(PropertyModel::Text(recv@), name@),
{
    if is_name(name, "first_line") {
        let r = Property::Text(TextProperty::FirstLine(Box::new(recv)));
        Ok(r)
    } else {
        Err(TemplateError::NoSuchMethod(ValueKind::Text, copy_text(name)))
    }
}

/// The methods of booleans: there are none.
pub fn parse_boolean_method(name: &Vec<char>, recv: BooleanProperty) -> (r: Result<
    Property,
    TemplateError,
>)
    ensures
        property_result(r) == method_model(PropertyModel::Boolean(recv@), name@),
{
    Err(TemplateError::NoSuchMethod(ValueKind::Boolean, copy_text(name)))
}

/// The methods of commit and change identifiers.
pub fn parse_commit_or_change_id_method(name: &Vec<char>, recv: IdProperty) -> (r: Result<
    Property,
    TemplateError,
>)
    ensures
        property_result(r) == method_model(PropertyModel::CommitOrChangeId(recv), name@),
{
    if is_name(name, "short") {
        Ok(Property::Text(TextProperty::Short(recv)))
    } else if is_name(name, "shortest_prefix_and_brackets") {
        Ok(Property::Text(TextProperty::ShortestPrefixAndBrackets(recv)))
    } else if is_name(name, "shortest_styled_prefix") {
        Ok(Property::IdWithHighlightedPrefix(HighlightedIdProperty::ShortestStyledPrefix(recv)))
    } else {
        Err(TemplateError::NoSuchMethod(ValueKind::CommitOrChangeId, copy_text(name)))
    }
}

/// The methods of signatures.
pub fn parse_signature_method(name: &Vec<char>, recv: SignatureProperty) -> (r: Result<
    Property,
    TemplateError,
>)
    ensures
        property_result(r) == method_model(PropertyModel::Signature(recv), name@),
{
    if is_name(name, "name") {
        Ok(Property::Text(TextProperty::Name(recv)))
    } else if is_name(name, "email") {
        Ok(Property::Text(TextProperty::Email(recv)))
    } else if is_name(name, "timestamp") {
        Ok(Property::Timestamp(TimestampProperty::SignatureTime(recv)))
    } else {
        Err(TemplateError::NoSuchMethod(ValueKind::Signature, copy_text(name)))
    }
}

/// The methods of timestamps.
pub fn parse_timestamp_method(name: &Vec<char>, recv: TimestampProperty) -> (r: Result<
    Property,
    TemplateError,
>)
    ensures
        property_result(r) == method_model(PropertyModel::Timestamp(recv), name@),
{
    if is_name(name, "ago") {
        Ok(Property::Text(TextProperty::Ago(recv)))
    } else {
        Err(TemplateError::NoSuchMethod(ValueKind::Timestamp, copy_text(name)))
    }
}

/// Applies the method `name` to a property, by the table of its kind.
pub fn apply_method(recv: Property, name: &Vec<char>) -> (r: Result<Property, TemplateError>)
    ensures
        property_result(r) == method_model(recv@, name@),
{
    match recv {
        Property::Text(p) => parse_string_method(name, p),
        Property::Boolean(p) => parse_boolean_method(name, p),
        Property::CommitOrChangeId(p) => parse_commit_or_change_id_method(name, p),
        Property::IdWithHighlightedPrefix(_) => Err(
            TemplateError::NoSuchMethod(ValueKind::IdWithHighlightedPrefix, copy_text(name)),
        ),
        Property::Signature(p) => parse_signature_method(name, p),
        Property::Timestamp(p) => parse_timestamp_method(name, p),
    }
}

/// The boolean that a property stands for as a condition: a boolean itself,
/// or a text taken as true where it is not empty.
pub open spec fn boolean_model(p: PropertyModel) -> Result<BooleanModel, ErrorModel> {
    match p {
        PropertyModel::Text(t) => Ok(BooleanModel::NonEmpty(t)),
        PropertyModel::Boolean(b) => Ok(b),
        _ => Err(ErrorModel::NotBoolean(kind_of(p))),
    }
}

/// Takes a property as a condition.
pub fn try_into_boolean(p: Property) -> (r: Result<BooleanProperty, TemplateError>)
    ensures
        match r {
            Ok(b) => boolean_model(p@) == Ok::<BooleanModel, ErrorModel>(b@),
            Err(e) => boolean_model(p@) == Err::<BooleanModel, ErrorModel>(e@),
        },
{
    match p {
        Property::Text(t) => Ok(BooleanProperty::NonEmpty(t)),
        Property::Boolean(b) => Ok(b),
        Property::CommitOrChangeId(_) => Err(TemplateError::NotBoolean(ValueKind::CommitOrChangeId)),
        Property::IdWithHighlightedPrefix(_) => Err(
            TemplateError::NotBoolean(ValueKind::IdWithHighlightedPrefix),
        ),
        Property::Signature(_) => Err(TemplateError::NotBoolean(ValueKind::Signature)),
        Property::Timestamp(_) => Err(TemplateError::NotBoolean(ValueKind::Timestamp)),
    }
}

} // verus!

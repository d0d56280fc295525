//! From the declaration of a function to the skill that a host can run.
//!
//! A skill is declared as a function of two arguments, the handle on the
//! host's services and the input, that returns the output or a `Result` of
//! it. What is needed to package it is read off the declaration: its name,
//! its documentation, the type of its input and the type of its output. The
//! types here hold as much of a declaration as that takes.
use crate::bindings::skill_handler::{SkillMetadata, SkillMetadataView};
use crate::text::{trim, trimmed};
use vstd::prelude::*;

verus! {

/// Where an attribute stands: before the item, or inside it.
#[derive(Clone, Copy, Debug, PartialEq, Eq)]
pub enum AttrStyle {
    Outer,
    Inner,
}

/// A literal.
#[derive(Debug)]
pub enum Lit {
    /// A string literal, with its value.
    Str(String),
    /// A literal of another kind.
    Other,
}

/// An expression.
#[derive(Debug)]
pub enum Expr {
    /// A literal.
    Lit(Lit),
    /// An expression of another kind.
    Other,
}

/// What stands in an attribute behind its path.
#[derive(Debug)]
pub enum Meta {
    /// Nothing: `#[test]`.
    Path,
    /// A list in brackets: `#[derive(Clone)]`.
    List,
    /// A value behind `=`: `#[doc = "text"]`, which is also what a doc
    /// comment is.
    NameValue(Expr),
}

/// What stands behind the name of a path segment.
#[derive(Debug)]
pub enum PathArguments {
    /// Nothing: `String`.
    Absent,
    /// Arguments in angle brackets: `Vec<u8>`.
    AngleBracketed(Vec<GenericArgument>),
    /// Arguments in round brackets: `Fn(u8) -> u8`.
    Parenthesized,
}

/// One argument in angle brackets.
#[derive(Debug)]
pub enum GenericArgument {
    /// A type.
    Type(Type),
    /// A lifetime, a constant, or a constraint.
    Other,
}

/// One segment of a path: a name and its arguments.
#[derive(Debug)]
pub struct PathSegment {
    pub ident: String,
    pub arguments: PathArguments,
}

/// A path: segments between `::`.
#[derive(Debug)]
pub struct Path {
    /// Whether the path starts with `::`.
    pub leading_colon: bool,
    pub segments: Vec<PathSegment>,
}

/// The shape of a type.
#[derive(Debug)]
pub enum TypeKind {
    /// A path: `std::fmt::Result`, `Vec<String>`.
    Path(Path),
    /// A reference, a tuple, or anything else that is no path.
    Other,
}

/// A type, as written and by its shape.
#[derive(Debug)]
pub struct Type {
    /// The type as it is written.
    pub source: String,
    pub kind: TypeKind,
}

/// An attribute of an item.
#[derive(Debug)]
pub struct Attribute {
    pub style: AttrStyle,
    pub path: Path,
    pub meta: Meta,
}

/// One argument of a function.
#[derive(Debug)]
pub enum FnArg {
    /// `self`, in one of its forms.
    Receiver,
    /// A pattern with its type.
    Typed(Type),
}

/// What a function returns.
#[derive(Debug)]
pub enum ReturnType {
    /// Nothing is written: the function returns `()`.
    Default,
    /// The type behind `->`.
    Type(Type),
}

/// The declaration of a function.
#[derive(Debug)]
pub struct ItemFn {
    pub attrs: Vec<Attribute>,
    pub ident: String,
    pub inputs: Vec<FnArg>,
    pub output: ReturnType,
}

impl Path {
    /// Whether the path is the one name `ident`: no leading `::`, one
    /// segment, no arguments.
    pub open spec fn names(self, ident: Seq<char>) -> bool {
        &&& !self.leading_colon
        &&& self.segments.len() == 1
        &&& self.segments[0].arguments is Absent
        &&& self.segments[0].ident@ == ident
    }

    /// Whether the path is the one name `ident`.
    pub fn is_ident(&self, ident: &str) -> (names: bool)
        ensures
            names == self.names(ident@),
    {
        if self.leading_colon || self.segments.len() != 1 {
            return false;
        }
        let segment = &self.segments[0];
        match segment.arguments {
            PathArguments::Absent => segment.ident.as_str().eq(ident),
            _ => false,
        }
    }
}

/// The first of `arguments` that is a type, if one is.
pub open spec fn first_type(arguments: Seq<GenericArgument>) -> Option<Type>
    decreases arguments.len(),
{
    if arguments.len() == 0 {
        None
    } else {
        match arguments[0] {
            GenericArgument::Type(ty) => Some(ty),
            GenericArgument::Other => first_type(arguments.drop_first()),
        }
    }
}

/// The type that a function gives when it does not fail.
///
/// Where the declared type is a path whose last segment is named `Result`
/// and has arguments in angle brackets of which one is a type, it is the
/// first such argument. Every other type is given as it is.
pub open spec fn success_type(output_type: Type) -> Type {
    match output_type.kind {
        TypeKind::Path(path) => {
            if path.segments.len() > 0 && path.segments@.last().ident@ == "Result"@ {
                match path.segments@.last().arguments {
                    PathArguments::AngleBracketed(arguments) => match first_type(arguments@) {
                        Some(ty) => ty,
                        None => output_type,
                    },
                    _ => output_type,
                }
            } else {
                output_type
            }
        },
        TypeKind::Other => output_type,
    }
}

fn find_type(arguments: &Vec<GenericArgument>) -> (found: Option<&Type>)
    ensures
        match found {
            Some(ty) => first_type(arguments@) == Some(*ty),
            None => first_type(arguments@) is None,
        },
{
    let mut i: usize = 0;
    assert(arguments@.skip(0) =~= arguments@);
    while i < arguments.len()
        invariant
            i <= arguments.len(),
            first_type(arguments@) == first_type(arguments@.skip(i as int)),
        decreases arguments.len() - i,
    {
        proof {
            assert(arguments@.skip(i as int).drop_first() =~= arguments@.skip(i + 1));
            assert(arguments@.skip(i as int)[0] == arguments[i as int]);
        }
        match &arguments[i] {
            GenericArgument::Type(ty) => {
                return Some(ty);
            },
            GenericArgument::Other => {},
        }
        i += 1;
    }
    None
}

/// Pulls the type of the output out of a `Result`, if the function is
/// declared to return one.
pub fn extract_output_result(output_type: &Type) -> (extracted: &Type)
    ensures
        *extracted == success_type(*output_type),
{
    match &output_type.kind {
        TypeKind::Path(path) => {
            if path.segments.len() == 0 {
                return output_type;
            }
            let segment = &path.segments[path.segments.len() - 1];
            if !segment.ident.as_str().eq("Result") {
                return output_type;
            }
            match &segment.arguments {
                PathArguments::AngleBracketed(arguments) => match find_type(arguments) {
                    Some(ty) => ty,
                    None => output_type,
                },
                _ => output_type,
            }
        },
        TypeKind::Other => output_type,
    }
}

/// The line of documentation that `attribute` holds, trimmed: it has to be
/// an outer attribute named `doc` with a string literal as its value.
pub open spec fn doc_line(attribute: Attribute) -> Option<Seq<char>> {
    if attribute.style == AttrStyle::Outer && attribute.path.names("doc"@) {
        match attribute.meta {
            Meta::NameValue(Expr::Lit(Lit::Str(text))) => Some(trimmed(text@)),
            _ => None,
        }
    } else {
        None
    }
}

/// The lines of documentation among `attributes`, in order.
pub open spec fn doc_lines(attributes: Seq<Attribute>) -> Seq<Seq<char>>
    decreases attributes.len(),
{
    if attributes.len() == 0 {
        Seq::empty()
    } else {
        match doc_line(attributes.last()) {
            Some(line) => doc_lines(attributes.drop_last()).push(line),
            None => doc_lines(attributes.drop_last()),
        }
    }
}

/// The lines with a line feed between each two of them.
pub open spec fn joined(lines: Seq<Seq<char>>) -> Seq<char>
    decreases lines.len(),
{
    if lines.len() == 0 {
        Seq::empty()
    } else if lines.len() == 1 {
        lines[0]
    } else {
        joined(lines.drop_last()) + "\n"@ + lines.last()
    }
}

/// The documentation of a function as one text: the lines of its doc
/// comments, each trimmed, with a line feed between each two. Empty if the
/// function has none.
pub open spec fn doc_comment(func: ItemFn) -> Seq<char> {
    joined(doc_lines(func.attrs@))
}

fn doc_text(attribute: &Attribute) -> (line: Option<&str>)
    ensures
        match line {
            Some(text) => doc_line(*attribute) == Some(text@),
            None => doc_line(*attribute) is None,
        },
{
    let outer = match attribute.style {
        AttrStyle::Outer => true,
        AttrStyle::Inner => false,
    };
    if !outer || !attribute.path.is_ident("doc") {
        return None;
    }
    match &attribute.meta {
        Meta::NameValue(Expr::Lit(Lit::Str(text))) => Some(trim(text.as_str())),
        _ => None,
    }
}

/// Reads the documentation of a function off its attributes.
pub fn extract_doc_comment(func: &ItemFn) -> (description: String)
    ensures
        description@ == doc_comment(*func),
{
    let mut description = String::new();
    let mut found = false;
    let mut i: usize = 0;
    while i < func.attrs.len()
        invariant
            i <= func.attrs.len(),
            description@ == joined(doc_lines(func.attrs@.take(i as int))),
            found == (doc_lines(func.attrs@.take(i as int)).len() > 0),
        decreases func.attrs.len() - i,
    {
        proof {
            let before = func.attrs@.take(i as int);
            let after = func.attrs@.take(i + 1);
            assert(after.drop_last() =~= before);
            assert(after.last() == func.attrs[i as int]);
            let lines = doc_lines(before);
            if let Some(line) = doc_line(func.attrs[i as int]) {
                assert(doc_lines(after) == lines.push(line));
                assert(lines.push(line).drop_last() =~= lines);
                if lines.len() == 0 {
                    assert(joined(lines.push(line)) =~= joined(lines) + line);
                }
            }
        }
        match doc_text(&func.attrs[i]) {
            Some(line) => {
                if found {
                    description.append("\n");
                }
                description.append(line);
                found = true;
            },
            None => {},
        }
        i += 1;
    }
    assert(func.attrs@.take(i as int) =~= func.attrs@);
    description
}

/// Why a function cannot be packaged as a skill.
#[derive(Clone, Copy, Debug, PartialEq, Eq)]
pub enum SignatureError {
    /// The function has no argument to take its input with, or the last of
    /// its arguments is `self`.
    Arguments,
    /// The function is not declared to return anything.
    Return,
}

impl SignatureError {
    /// What the author of the function is told.
    pub open spec fn text(self) -> Seq<char> {
        match self {
            SignatureError::Arguments => "The skill function should take two arguments: first is `csi: &impl Csi`, second is `input` with a type that implements `serde::Deserialize` and `schemars::JsonSchema`."@,
            SignatureError::Return => "The skill function should return a value that implements `serde::Serialize` and `schemars::JsonSchema`."@,
        }
    }

    /// What the author of the function is told.
    pub fn message(&self) -> (message: &'static str)
        ensures
            message@ == self.text(),
    {
        match self {
            SignatureError::Arguments => "The skill function should take two arguments: first is `csi: &impl Csi`, second is `input` with a type that implements `serde::Deserialize` and `schemars::JsonSchema`.",
            SignatureError::Return => "The skill function should return a value that implements `serde::Serialize` and `schemars::JsonSchema`.",
        }
    }
}

/// What a [`Skill`] holds.
pub struct SkillView {
    pub name: Seq<char>,
    pub description: Seq<char>,
    pub input_type: Type,
    pub output_type: Type,
}

/// What it takes to package a function as a skill.
#[derive(Debug)]
pub struct Skill<'a> {
    /// The name of the function.
    pub name: &'a str,
    /// Its documentation. Empty if it has none.
    pub description: String,
    /// The type to describe in the schema of the input and to decode the
    /// input as.
    pub input_type: &'a Type,
    /// The type to describe in the schema of the output.
    pub output_type: &'a Type,
}

impl<'a> View for Skill<'a> {
    type V = SkillView;

    open spec fn view(&self) -> SkillView {
        SkillView {
            name: self.name@,
            description: self.description@,
            input_type: *self.input_type,
            output_type: *self.output_type,
        }
    }
}

impl<'a> Skill<'a> {
    /// What the skill tells about itself, given the schemas of its input
    /// type and of its output type: its documentation, if it has any, and
    /// the two schemas.
    pub fn metadata(&self, input_schema: Vec<u8>, output_schema: Vec<u8>) -> (metadata:
        SkillMetadata)
        ensures
            metadata@ == (SkillMetadataView {
                description: if self@.description.len() == 0 {
                    None
                } else {
                    Some(self@.description)
                },
                input_schema: input_schema@,
                output_schema: output_schema@,
            }),
    {
        SkillMetadata::new(self.description.as_str(), input_schema, output_schema)
    }
}

/// What [`skill`] gives for a declaration.
///
/// The input is what the last argument takes, so there has to be one, and it
/// cannot be `self`. The output is what the function gives when it does not
/// fail, so a return type has to be written. A declaration that lacks both
/// is told of its arguments.
pub open spec fn packaged(func: ItemFn) -> Result<SkillView, SignatureError> {
    if func.inputs.len() == 0 {
        Err(SignatureError::Arguments)
    } else {
        match func.inputs@.last() {
            FnArg::Receiver => Err(SignatureError::Arguments),
            FnArg::Typed(input_type) => match func.output {
                ReturnType::Default => Err(SignatureError::Return),
                ReturnType::Type(output_type) => Ok(
                    SkillView {
                        name: func.ident@,
                        description: doc_comment(func),
                        input_type,
                        output_type: success_type(output_type),
                    },
                ),
            },
        }
    }
}

/// Reads off the declaration of a function what it takes to package it as a
/// skill, or says why it cannot be one.
pub fn skill<'a>(func: &'a ItemFn) -> (read: Result<Skill<'a>, SignatureError>)
    ensures
        match read {
            Ok(found) => packaged(*func) == Ok::<SkillView, SignatureError>(found@),
            Err(error) => packaged(*func) == Err::<SkillView, SignatureError>(error),
        },
{
    let description = extract_doc_comment(func);
    if func.inputs.len() == 0 {
        return Err(SignatureError::Arguments);
    }
    let input_type = match &func.inputs[func.inputs.len() - 1] {
        FnArg::Typed(ty) => ty,
        FnArg::Receiver => {
            return Err(SignatureError::Arguments);
        },
    };
    let output_type = match &func.output {
        ReturnType::Type(ty) => extract_output_result(ty),
        ReturnType::Default => {
            return Err(SignatureError::Return);
        },
    };
    Ok(Skill { name: func.ident.as_str(), description, input_type, output_type })
}

} // verus!

//! Type expressions and their innermost named type.

use crate::diagnostic::{Diagnostic, ErrorKind};
use crate::syntax::{ask_type_path, is_asked};
use crate::text::same_text;
use vstd::prelude::*;
use vstd::string::*;

verus! {

/// A type path as far as this library reads it: the identifier of its last
/// segment and the arguments of that segment.
#[derive(Debug, PartialEq, Eq)]
pub enum TypeExpression {
    /// A name without arguments, such as `i32`.
    Named { name: String },
    /// A name with arguments in angle brackets, such as `Vec<i32>`. The list
    /// is empty for `Vec<>`.
    Generic { name: String, arguments: Vec<Argument> },
    /// A name with arguments in parentheses, such as `Fn(i32) -> bool`.
    CallStyle { name: String },
}

/// One argument between angle brackets.
#[derive(Debug, PartialEq, Eq)]
pub enum Argument {
    /// A type, such as the `i32` in `Vec<i32>`.
    Type(ArgumentType),
    /// A lifetime, a constant, a binding or a constraint.
    Other,
}

/// A type that stands as an argument.
#[derive(Debug, PartialEq, Eq)]
pub enum ArgumentType {
    /// A type path, such as `i32` or `Vec<i32>`.
    Path(TypeExpression),
    /// A reference to a type, such as `&i32`.
    Reference(Box<ArgumentType>),
    /// Any other type: a tuple, a slice, an array, a pointer, a function.
    Other,
}

/// The mathematical value of a [`TypeExpression`].
pub enum TypeTree {
    Named { name: Seq<char> },
    Generic { name: Seq<char>, arguments: Seq<ArgumentTree> },
    CallStyle { name: Seq<char> },
}

/// The mathematical value of an [`Argument`].
pub enum ArgumentTree {
    Type(ArgumentTypeTree),
    Other,
}

/// The mathematical value of an [`ArgumentType`].
pub enum ArgumentTypeTree {
    Path(TypeTree),
    Reference(Box<ArgumentTypeTree>),
    Other,
}

impl View for TypeExpression {
    type V = TypeTree;

    open spec fn view(&self) -> TypeTree
        decreases self,
    {
        match self {
            TypeExpression::Named { name } => TypeTree::Named { name: name@ },
            TypeExpression::Generic { name, arguments } => TypeTree::Generic {
                name: name@,
                arguments: Seq::new(
                    arguments.len() as nat,
                    |i: int|
                        if 0 <= i < arguments.len() {
                            arguments[i].view()
                        } else {
                            ArgumentTree::Other
                        },
                ),
            },
            TypeExpression::CallStyle { name } => TypeTree::CallStyle { name: name@ },
        }
    }
}

impl View for Argument {
    type V = ArgumentTree;

    open spec fn view(&self) -> ArgumentTree
        decreases self,
    {
        match self {
            Argument::Type(ty) => ArgumentTree::Type(ty.view()),
            Argument::Other => ArgumentTree::Other,
        }
    }
}

impl View for ArgumentType {
    type V = ArgumentTypeTree;

    open spec fn view(&self) -> ArgumentTypeTree
        decreases self,
    {
        match self {
            ArgumentType::Path(path) => ArgumentTypeTree::Path(path.view()),
            ArgumentType::Reference(target) => ArgumentTypeTree::Reference(
                Box::new((**target).view()),
            ),
            ArgumentType::Other => ArgumentTypeTree::Other,
        }
    }
}

impl TypeTree {
    /// The innermost named type: the name itself where there are no
    /// arguments, else that of the last argument between the angle brackets,
    /// which is a type path or a reference to one.
    pub open spec fn leaf(self) -> Result<Seq<char>, ErrorKind>
        decreases self,
    {
        match self {
            TypeTree::Named { name } => Ok(name),
            TypeTree::Generic { name, arguments } => if arguments.len() == 0 {
                Err(ErrorKind::EmptyGenericArguments)
            } else {
                match arguments.last() {
                    ArgumentTree::Type(ArgumentTypeTree::Path(inner)) => inner.leaf(),
                    ArgumentTree::Type(ArgumentTypeTree::Reference(target)) => match *target {
                        ArgumentTypeTree::Path(inner) => inner.leaf(),
                        _ => Err(ErrorKind::UnsupportedArgumentShape),
                    },
                    _ => Err(ErrorKind::UnsupportedArgumentShape),
                }
            },
            TypeTree::CallStyle { name } => Err(ErrorKind::UnsupportedTypeShape),
        }
    }
}

/// What the innermost named type says of a field: a plain value of the
/// framework, or a generated object of the named type.
#[derive(Debug, PartialEq, Eq)]
pub enum Classification {
    Scalar,
    Object(String),
}

/// The mathematical value of a [`Classification`].
pub enum ClassificationView {
    Scalar,
    Object(Seq<char>),
}

impl View for Classification {
    type V = ClassificationView;

    open spec fn view(&self) -> ClassificationView {
        match self {
            Classification::Scalar => ClassificationView::Scalar,
            Classification::Object(leaf) => ClassificationView::Object(leaf@),
        }
    }
}

/// The names that the framework takes as plain values.
pub open spec fn is_builtin_scalar(name: Seq<char>) -> bool {
    name == "String"@ || name == "i32"@ || name == "f64"@ || name == "bool"@ || name == "ID"@
}

impl TypeTree {
    /// Scalar where the innermost named type is a built-in scalar, else an
    /// object of that type.
    pub open spec fn classification(self) -> Result<ClassificationView, ErrorKind> {
        match self.leaf() {
            Ok(leaf) => if is_builtin_scalar(leaf) {
                Ok(ClassificationView::Scalar)
            } else {
                Ok(ClassificationView::Object(leaf))
            },
            Err(kind) => Err(kind),
        }
    }
}

/// One wrapper around a type expression: a generic application whose last
/// argument is that expression, or a reference to it.
pub struct Wrapper {
    pub name: Seq<char>,
    pub leading: Seq<ArgumentTree>,
    pub by_reference: bool,
}

impl Wrapper {
    /// This wrapper around `inner`.
    pub open spec fn around(self, inner: TypeTree) -> TypeTree {
        TypeTree::Generic {
            name: self.name,
            arguments: self.leading.push(
                ArgumentTree::Type(
                    if self.by_reference {
                        ArgumentTypeTree::Reference(Box::new(ArgumentTypeTree::Path(inner)))
                    } else {
                        ArgumentTypeTree::Path(inner)
                    },
                ),
            ),
        }
    }
}

/// `inner` inside all of `wrappers`, the first of them outermost.
pub open spec fn nested(wrappers: Seq<Wrapper>, inner: TypeTree) -> TypeTree
    decreases wrappers.len(),
{
    if wrappers.len() == 0 {
        inner
    } else {
        wrappers[0].around(nested(wrappers.drop_first(), inner))
    }
}

/// The leaf and the classification depend on the value of an expression
/// alone: two expressions of equal value have the same.
pub proof fn lemma_leaf_is_a_function_of_the_value(first: TypeExpression, second: TypeExpression)
    requires
        first@ == second@,
    ensures
        first@.leaf() == second@.leaf(),
        first@.classification() == second@.classification(),
{
}

/// An expression whose leaf is `String`, `i32`, `f64`, `bool` or `ID` is a
/// scalar; one with any other leaf is an object of that leaf.
pub proof fn lemma_classification_by_leaf(tree: TypeTree, leaf: Seq<char>)
    requires
        tree.leaf() == Ok::<Seq<char>, ErrorKind>(leaf),
    ensures
        leaf == "String"@ || leaf == "i32"@ || leaf == "f64"@ || leaf == "bool"@ || leaf == "ID"@
            ==> tree.classification() == Ok::<ClassificationView, ErrorKind>(
            ClassificationView::Scalar,
        ),
        leaf != "String"@ && leaf != "i32"@ && leaf != "f64"@ && leaf != "bool"@ && leaf != "ID"@
            ==> tree.classification() == Ok::<ClassificationView, ErrorKind>(
            ClassificationView::Object(leaf),
        ),
{
}

/// Only the last argument counts: two generic applications with the same
/// last argument have the same leaf, whatever their names and their other
/// arguments are.
pub proof fn lemma_leaf_ignores_leading_arguments(
    first: TypeTree,
    second: TypeTree,
)
    requires
        first matches TypeTree::Generic { arguments, .. } && arguments.len() > 0,
        second matches TypeTree::Generic { arguments, .. } && arguments.len() > 0,
        first->Generic_arguments.last() == second->Generic_arguments.last(),
    ensures
        first.leaf() == second.leaf(),
{
}

/// Wrappers do not change the leaf: an expression inside any number of
/// generic applications and references, each as the last argument of the
/// next, has the leaf and the classification that it has alone.
pub proof fn lemma_wrappers_keep_the_leaf(wrappers: Seq<Wrapper>, inner: TypeTree)
    ensures
        nested(wrappers, inner).leaf() == inner.leaf(),
        nested(wrappers, inner).classification() == inner.classification(),
    decreases wrappers.len(),
{
    if wrappers.len() > 0 {
        lemma_wrappers_keep_the_leaf(wrappers.drop_first(), inner);
    }
}

/// A leaf that was found, taken by its view.
pub open spec fn leaf_result(found: Result<&String, ErrorKind>) -> Result<Seq<char>, ErrorKind> {
    match found {
        Ok(name) => Ok(name@),
        Err(kind) => Err(kind),
    }
}

/// A classification that was made, taken by its view.
pub open spec fn classification_result(made: Result<Classification, ErrorKind>) -> Result<
    ClassificationView,
    ErrorKind,
> {
    match made {
        Ok(class) => Ok(class@),
        Err(kind) => Err(kind),
    }
}

/// Finds the innermost named type of `ty`.
pub fn inner_most_type_name(ty: &TypeExpression) -> (leaf: Result<&String, ErrorKind>)
    ensures
        leaf_result(leaf) == ty@.leaf(),
    decreases ty,
{
    match ty {
        TypeExpression::Named { name } => Ok(name),
        TypeExpression::Generic { name: _, arguments } => {
            let count: usize = arguments.len();
            if count == 0 {
                Err(ErrorKind::EmptyGenericArguments)
            } else {
                assert(ty@->Generic_arguments.last() == arguments@[count - 1]@);
                match &arguments[count - 1] {
                    Argument::Type(ArgumentType::Path(inner)) => inner_most_type_name(inner),
                    Argument::Type(ArgumentType::Reference(target)) => match &**target {
                        ArgumentType::Path(inner) => inner_most_type_name(inner),
                        _ => Err(ErrorKind::UnsupportedArgumentShape),
                    },
                    _ => Err(ErrorKind::UnsupportedArgumentShape),
                }
            }
        },
        TypeExpression::CallStyle { name: _ } => Err(ErrorKind::UnsupportedTypeShape),
    }
}

/// Whether the framework takes `name` as a plain value.
pub fn is_builtin(name: &str) -> (builtin: bool)
    ensures
        builtin == is_builtin_scalar(name@),
{
    same_text(name, "String") || same_text(name, "i32") || same_text(name, "f64") || same_text(
        name,
        "bool",
    ) || same_text(name, "ID")
}

/// Classifies `ty` by its innermost named type.
pub fn classify(ty: &TypeExpression) -> (class: Result<Classification, ErrorKind>)
    ensures
        classification_result(class) == ty@.classification(),
{
    match inner_most_type_name(ty) {
        Ok(leaf) => if is_builtin(leaf.as_str()) {
            Ok(Classification::Scalar)
        } else {
            Ok(Classification::Object(leaf.clone()))
        },
        Err(kind) => Err(kind),
    }
}

impl TypeExpression {
    /// Reads a type path from `text`: the parser is asked about the whole
    /// text. A text that holds none, or that is empty or not plain, is
    /// refused as a whole.
    pub fn parse(text: &str) -> (parsed: Result<TypeExpression, Diagnostic>)
        ensures
            parsed matches Err(diagnostic) ==> diagnostic == (Diagnostic {
                kind: ErrorKind::MalformedTypeExpression,
                start: 0,
                end: text@.len() as usize,
            }),
            !is_asked(text@, 0, text@.len() as int, true) ==> parsed is Err,
    {
        let len: usize = text.unicode_len();
        match ask_type_path(text, 0, len) {
            Some(ty) => Ok(ty),
            None => Err(Diagnostic { kind: ErrorKind::MalformedTypeExpression, start: 0, end: len }),
        }
    }
}

} // verus!

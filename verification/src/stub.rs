//! The text of the accessor methods, written for a host framework.

use vstd::prelude::*;
use vstd::string::*;

verus! {

/// A type that takes one argument, as the text before and after it.
pub struct TypeConstructor {
    pub prefix: String,
    pub suffix: String,
}

/// The mathematical value of a [`TypeConstructor`].
pub struct TypeConstructorView {
    pub prefix: Seq<char>,
    pub suffix: Seq<char>,
}

/// What the framework that calls the accessors gives them: the type of the
/// execution context, the traversal guard over a leaf type, and the result
/// over the accessor's own type.
pub struct Host {
    pub context: String,
    pub guard: TypeConstructor,
    pub result: TypeConstructor,
}

/// The mathematical value of a [`Host`].
pub struct HostView {
    pub context: Seq<char>,
    pub guard: TypeConstructorView,
    pub result: TypeConstructorView,
}

impl View for TypeConstructor {
    type V = TypeConstructorView;

    open spec fn view(&self) -> TypeConstructorView {
        TypeConstructorView { prefix: self.prefix@, suffix: self.suffix@ }
    }
}

impl View for Host {
    type V = HostView;

    open spec fn view(&self) -> HostView {
        HostView { context: self.context@, guard: self.guard@, result: self.result@ }
    }
}

impl TypeConstructorView {
    /// The constructor applied to `argument`.
    pub open spec fn apply(self, argument: Seq<char>) -> Seq<char> {
        self.prefix + argument + self.suffix
    }
}

impl HostView {
    /// The Juniper framework with `juniper_from_schema`.
    pub open spec fn juniper() -> HostView {
        HostView {
            context: "juniper::Executor<'_, Context>"@,
            guard: TypeConstructorView {
                prefix: "juniper_from_schema::QueryTrail<'_, "@,
                suffix: ", juniper_from_schema::Walked>"@,
            },
            result: TypeConstructorView { prefix: "juniper::FieldResult<"@, suffix: ">"@ },
        }
    }
}

/// An accessor of a plain value: no traversal guard.
pub open spec fn scalar_form(
    host: HostView,
    name: Seq<char>,
    ty: Seq<char>,
    path: Seq<char>,
) -> Seq<char> {
    "fn "@ + name + "(&self, _: &"@ + host.context + ") -> "@ + host.result.apply("&"@ + ty)
        + " { Ok(&self."@ + path + ") }"@
}

/// An accessor of a generated object: a traversal guard over `leaf`.
pub open spec fn object_form(
    host: HostView,
    name: Seq<char>,
    leaf: Seq<char>,
    ty: Seq<char>,
    path: Seq<char>,
) -> Seq<char> {
    "fn "@ + name + "(&self, _: &"@ + host.context + ", _: &"@ + host.guard.apply(leaf) + ") -> "@
        + host.result.apply("&"@ + ty) + " { Ok(&self."@ + path + ") }"@
}

/// An accessor of a loaded association: a traversal guard over `leaf`, and
/// a body that fails while the association is not loaded.
pub open spec fn association_form(
    host: HostView,
    name: Seq<char>,
    leaf: Seq<char>,
    ty: Seq<char>,
    field: Seq<char>,
) -> Seq<char> {
    "fn "@ + name + "(&self, executor: &"@ + host.context + ", trail: &"@ + host.guard.apply(leaf)
        + ") -> "@ + host.result.apply("&"@ + ty) + " { Ok(self."@ + field + ".try_unwrap()?) }"@
}

impl TypeConstructor {
    pub fn apply(&self, argument: &str) -> (text: String)
        ensures
            text@ == self@.apply(argument@),
    {
        let mut text = self.prefix.clone();
        text.append(argument);
        text.append(self.suffix.as_str());
        text
    }
}

impl Host {
    pub fn juniper() -> (host: Host)
        ensures
            host@ == HostView::juniper(),
    {
        Host {
            context: String::from_str("juniper::Executor<'_, Context>"),
            guard: TypeConstructor {
                prefix: String::from_str("juniper_from_schema::QueryTrail<'_, "),
                suffix: String::from_str(", juniper_from_schema::Walked>"),
            },
            result: TypeConstructor {
                prefix: String::from_str("juniper::FieldResult<"),
                suffix: String::from_str(">"),
            },
        }
    }

    /// The result type over a reference to `ty`.
    fn result_of(&self, ty: &str) -> (text: String)
        ensures
            text@ == self@.result.apply("&"@ + ty@),
    {
        let mut reference = String::from_str("&");
        reference.append(ty);
        self.result.apply(reference.as_str())
    }
}

pub fn scalar_stub(host: &Host, name: &str, ty: &str, path: &str) -> (text: String)
    ensures
        text@ == scalar_form(host@, name@, ty@, path@),
{
    let result = host.result_of(ty);
    let mut text = String::from_str("fn ");
    text.append(name);
    text.append("(&self, _: &");
    text.append(host.context.as_str());
    text.append(") -> ");
    text.append(result.as_str());
    text.append(" { Ok(&self.");
    text.append(path);
    text.append(") }");
    text
}

pub fn object_stub(host: &Host, name: &str, leaf: &str, ty: &str, path: &str) -> (text: String)
    ensures
        text@ == object_form(host@, name@, leaf@, ty@, path@),
{
    let guard = host.guard.apply(leaf);
    let result = host.result_of(ty);
    let mut text = String::from_str("fn ");
    text.append(name);
    text.append("(&self, _: &");
    text.append(host.context.as_str());
    text.append(", _: &");
    text.append(guard.as_str());
    text.append(") -> ");
    text.append(result.as_str());
    text.append(" { Ok(&self.");
    text.append(path);
    text.append(") }");
    text
}

pub fn association_stub(host: &Host, name: &str, leaf: &str, ty: &str, field: &str) -> (text:
    String)
    ensures
        text@ == association_form(host@, name@, leaf@, ty@, field@),
{
    let guard = host.guard.apply(leaf);
    let result = host.result_of(ty);
    let mut text = String::from_str("fn ");
    text.append(name);
    text.append("(&self, executor: &");
    text.append(host.context.as_str());
    text.append(", trail: &");
    text.append(guard.as_str());
    text.append(") -> ");
    text.append(result.as_str());
    text.append(" { Ok(self.");
    text.append(field);
    text.append(".try_unwrap()?) }");
    text
}

} // verus!

//! The written form of a field's type, as far as the library reads it, and
//! the test for an optional wrapper.
//!
//! The test goes by the text of the type alone: `Option<T>`,
//! `std::option::Option<T>` and `core::option::Option<T>` are recognised; an
//! alias of `Option`, or another path to it, is not.

use vstd::prelude::*;
use crate::text::str_eq;

verus! {

/// A type as written in a field declaration.
#[derive(Debug, PartialEq, Eq)]
pub enum TypeDesc {
    /// A path such as `String` or `std::path::PathBuf`.
    Path(TypePath),
    /// Any other form of type: a reference, a tuple, an array.
    Other,
}

/// A type path with its segments.
#[derive(Debug, PartialEq, Eq)]
pub struct TypePath {
    /// The path is qualified by a self type, as in `<T as Trait>::Item`.
    pub has_qself: bool,
    /// The path starts with `::`.
    pub leading_colon: bool,
    pub segments: Vec<PathSegment>,
}

/// One segment of a type path.
#[derive(Debug, PartialEq, Eq)]
pub struct PathSegment {
    pub ident: String,
    pub arguments: PathArguments,
}

/// The generic arguments of a path segment.
#[derive(Debug, PartialEq, Eq)]
pub enum PathArguments {
    /// No arguments.
    Plain,
    /// Arguments in angle brackets, as in `Option<T>`.
    AngleBracketed(Vec<GenericArgument>),
    /// Arguments in round brackets, as in `Fn(A) -> B`.
    Parenthesized,
}

/// One generic argument.
#[derive(Debug, PartialEq, Eq)]
pub enum GenericArgument {
    /// A type.
    Type(TypeDesc),
    /// A lifetime, a constant, a binding or a constraint.
    Other,
}

/// The mathematical content of a [`TypeDesc`].
pub enum TypeDescView {
    Path(TypePathView),
    Other,
}

/// The mathematical content of a [`TypePath`].
pub struct TypePathView {
    pub has_qself: bool,
    pub leading_colon: bool,
    pub segments: Seq<PathSegmentView>,
}

/// The mathematical content of a [`PathSegment`].
pub struct PathSegmentView {
    pub ident: Seq<char>,
    pub arguments: PathArgumentsView,
}

/// The mathematical content of a [`PathArguments`].
pub enum PathArgumentsView {
    Plain,
    AngleBracketed(Seq<GenericArgumentView>),
    Parenthesized,
}

/// The mathematical content of a [`GenericArgument`].
pub enum GenericArgumentView {
    Type(TypeDescView),
    Other,
}

impl View for TypeDesc {
    type V = TypeDescView;

    open spec fn view(&self) -> TypeDescView
        decreases self,
    {
        match self {
            TypeDesc::Path(p) => TypeDescView::Path(p.view()),
            TypeDesc::Other => TypeDescView::Other,
        }
    }
}

impl View for TypePath {
    type V = TypePathView;

    open spec fn view(&self) -> TypePathView
        decreases self,
    {
        TypePathView {
            has_qself: self.has_qself,
            leading_colon: self.leading_colon,
            segments: Seq::new(
                self.segments@.len(),
                |i: int|
                    if 0 <= i < self.segments@.len() {
                        self.segments@[i].view()
                    } else {
                        arbitrary()
                    },
            ),
        }
    }
}

impl View for PathSegment {
    type V = PathSegmentView;

    open spec fn view(&self) -> PathSegmentView
        decreases self,
    {
        PathSegmentView { ident: self.ident@, arguments: self.arguments.view() }
    }
}

impl View for PathArguments {
    type V = PathArgumentsView;

    open spec fn view(&self) -> PathArgumentsView
        decreases self,
    {
        match self {
            PathArguments::Plain => PathArgumentsView::Plain,
            PathArguments::AngleBracketed(args) => PathArgumentsView::AngleBracketed(
                Seq::new(
                    args@.len(),
                    |i: int|
                        if 0 <= i < args@.len() {
                            args@[i].view()
                        } else {
                            arbitrary()
                        },
                ),
            ),
            PathArguments::Parenthesized => PathArgumentsView::Parenthesized,
        }
    }
}

impl View for GenericArgument {
    type V = GenericArgumentView;

    open spec fn view(&self) -> GenericArgumentView
        decreases self,
    {
        match self {
            GenericArgument::Type(t) => GenericArgumentView::Type(t.view()),
            GenericArgument::Other => GenericArgumentView::Other,
        }
    }
}

impl TypePathView {
    /// The name of segment `i`.
    pub open spec fn ident(self, i: int) -> Seq<char> {
        self.segments[i].ident
    }

    /// The segments spell one of the three accepted paths to `Option`:
    /// `Option`, `std::option::Option` or `core::option::Option`.
    pub open spec fn names_option(self) -> bool {
        ||| self.segments.len() == 1 && self.ident(0) == "Option"@
        ||| {
            &&& self.segments.len() == 3
            &&& self.ident(0) == "std"@ || self.ident(0) == "core"@
            &&& self.ident(1) == "option"@
            &&& self.ident(2) == "Option"@
        }
    }
}

impl TypeDescView {
    /// The type inside an optional wrapper: `Some(T)` where this type is a
    /// path without self type and leading colons that spells `Option` and
    /// whose last segment has exactly one argument in angle brackets, the
    /// type `T`.
    pub open spec fn option_inner(self) -> Option<TypeDescView> {
        match self {
            TypeDescView::Other => None,
            TypeDescView::Path(path) => if path.has_qself || path.leading_colon
                || !path.names_option() {
                None
            } else {
                match path.segments.last().arguments {
                    PathArgumentsView::AngleBracketed(args) => if args.len() == 1 {
                        match args[0] {
                            GenericArgumentView::Type(inner) => Some(inner),
                            GenericArgumentView::Other => None,
                        }
                    } else {
                        None
                    },
                    _ => None,
                }
            },
        }
    }

    /// Whether the type is written as an optional wrapper.
    pub open spec fn is_optional(self) -> bool {
        self.option_inner() is Some
    }

    /// The type with an optional wrapper taken off.
    pub open spec fn unwrapped(self) -> TypeDescView {
        match self.option_inner() {
            Some(inner) => inner,
            None => self,
        }
    }

    /// The last name on the path of the type, where it is a path.
    pub open spec fn last_name(self) -> Option<Seq<char>> {
        match self {
            TypeDescView::Path(path) => if path.segments.len() > 0 {
                Some(path.segments.last().ident)
            } else {
                None
            },
            TypeDescView::Other => None,
        }
    }
}

fn names_option(path: &TypePath) -> (r: bool)
    ensures
        r == path@.names_option(),
{
    let n: usize = path.segments.len();
    if n == 1 {
        str_eq(path.segments[0].ident.as_str(), "Option")
    } else if n == 3 {
        let first = path.segments[0].ident.as_str();
        (str_eq(first, "std") || str_eq(first, "core")) && str_eq(
            path.segments[1].ident.as_str(),
            "option",
        ) && str_eq(path.segments[2].ident.as_str(), "Option")
    } else {
        false
    }
}

/// Checks whether `ty` is written as an `Option` and, if so, returns the type
/// inside.
pub fn unwrap_option(ty: &TypeDesc) -> (r: Option<&TypeDesc>)
    ensures
        match r {
            Some(inner) => ty@.option_inner() == Some(inner@),
            None => ty@.option_inner() is None,
        },
{
    let path = match ty {
        TypeDesc::Path(path) => path,
        TypeDesc::Other => {
            return None;
        },
    };
    if path.has_qself || path.leading_colon {
        return None;
    }
    if !names_option(path) {
        return None;
    }
    let last = &path.segments[path.segments.len() - 1];
    let args = match &last.arguments {
        PathArguments::AngleBracketed(args) => args,
        _ => {
            return None;
        },
    };
    if args.len() != 1 {
        return None;
    }
    match &args[0] {
        GenericArgument::Type(inner) => Some(inner),
        GenericArgument::Other => None,
    }
}

impl TypeDesc {
    /// The type with an optional wrapper taken off: what a partial value
    /// holds for a leaf of this type.
    pub fn unwrapped(&self) -> (r: &TypeDesc)
        ensures
            r@ == self@.unwrapped(),
    {
        match unwrap_option(self) {
            Some(inner) => inner,
            None => self,
        }
    }

    /// The last name on the path of the type, where it is a path.
    pub fn last_name(&self) -> (r: Option<&str>)
        ensures
            match r {
                Some(name) => self@.last_name() == Some(name@),
                None => self@.last_name() is None,
            },
    {
        match self {
            TypeDesc::Path(path) => {
                if path.segments.len() > 0 {
                    let last = &path.segments[path.segments.len() - 1];
                    Some(last.ident.as_str())
                } else {
                    None
                }
            },
            TypeDesc::Other => None,
        }
    }

    /// A path of one segment without arguments: the type named `name`.
    pub fn named(name: &str) -> (r: TypeDesc)
        ensures
            r@ == TypeDescView::Path(
                TypePathView {
                    has_qself: false,
                    leading_colon: false,
                    segments: seq![
                        PathSegmentView { ident: name@, arguments: PathArgumentsView::Plain },
                    ],
                },
            ),
    {
        let mut segments: Vec<PathSegment> = Vec::new();
        segments.push(PathSegment { ident: name.to_owned(), arguments: PathArguments::Plain });
        let path = TypePath { has_qself: false, leading_colon: false, segments };
        assert(path@.segments =~= seq![
            PathSegmentView { ident: name@, arguments: PathArgumentsView::Plain },
        ]);
        TypeDesc::Path(path)
    }

    /// The type `Option<inner>`.
    pub fn option_of(inner: TypeDesc) -> (r: TypeDesc)
        ensures
            r@ == TypeDescView::Path(
                TypePathView {
                    has_qself: false,
                    leading_colon: false,
                    segments: seq![
                        PathSegmentView {
                            ident: "Option"@,
                            arguments: PathArgumentsView::AngleBracketed(
                                seq![GenericArgumentView::Type(inner@)],
                            ),
                        },
                    ],
                },
            ),
            r@.option_inner() == Some(inner@),
    {
        let mut args: Vec<GenericArgument> = Vec::new();
        args.push(GenericArgument::Type(inner));
        let mut segments: Vec<PathSegment> = Vec::new();
        segments.push(
            PathSegment {
                ident: "Option".to_owned(),
                arguments: PathArguments::AngleBracketed(args),
            },
        );
        let path = TypePath { has_qself: false, leading_colon: false, segments };
        assert(path.segments@[0]@.arguments->AngleBracketed_0 =~= seq![
            GenericArgumentView::Type(inner@),
        ]);
        assert(path@.segments =~= seq![path.segments@[0]@]);
        TypeDesc::Path(path)
    }
}

} // verus!

//! The shape of a type-checked item tree, as far as signature extraction
//! reads it.
//!
//! A frontend hands out items; a function item carries the type expressions
//! of its parameters and, where one was written, of its return type. A type
//! expression is one of several shapes, of which only a resolved path carries
//! data here. Each type has a view that replaces strings and vectors by
//! sequences.

use vstd::prelude::*;

verus! {

/// The mathematical value of a [`PathSegment`].
pub struct PathSegmentView {
    pub ident: Seq<char>,
    pub has_generic_args: bool,
}

/// One segment of a path: an identifier, and whether generic arguments were
/// written behind it.
#[derive(Clone, Debug, PartialEq, Eq)]
pub struct PathSegment {
    pub ident: String,
    pub has_generic_args: bool,
}

impl View for PathSegment {
    type V = PathSegmentView;

    open spec fn view(&self) -> PathSegmentView {
        PathSegmentView { ident: self.ident@, has_generic_args: self.has_generic_args }
    }
}

/// A resolved path: its segments from the outermost on.
#[derive(Clone, Debug, PartialEq, Eq)]
pub struct Path {
    pub segments: Vec<PathSegment>,
}

impl View for Path {
    type V = Seq<PathSegmentView>;

    open spec fn view(&self) -> Seq<PathSegmentView> {
        self.segments@.map_values(|s: PathSegment| s@)
    }
}

/// The mathematical value of a [`QPath`].
pub enum QPathView {
    Resolved { has_self_type: bool, path: Seq<PathSegmentView> },
    TypeRelative,
    LangItem,
}

/// A path as it stands in a type position: fully resolved, relative to a
/// type, or a reference to a language item.
#[derive(Clone, Debug, PartialEq, Eq)]
pub enum QPath {
    /// A resolved path. `has_self_type` tells whether a self type qualifies
    /// it, as in `<T as Trait>::Item`.
    Resolved { has_self_type: bool, path: Path },
    /// A path relative to a type, as in `T::Item`.
    TypeRelative,
    /// A reference to a language item.
    LangItem,
}

impl View for QPath {
    type V = QPathView;

    open spec fn view(&self) -> QPathView {
        match self {
            QPath::Resolved { has_self_type, path } => QPathView::Resolved {
                has_self_type: *has_self_type,
                path: path@,
            },
            QPath::TypeRelative => QPathView::TypeRelative,
            QPath::LangItem => QPathView::LangItem,
        }
    }
}

/// The mathematical value of a [`TyKind`].
pub enum TyKindView {
    Path(QPathView),
    Slice,
    Array,
    Ptr,
    Ref,
    BareFn,
    Never,
    Tup,
    OpaqueDef,
    TraitObject,
    Typeof,
    Infer,
    Malformed,
}

/// The shape of a type expression.
#[derive(Clone, Debug, PartialEq, Eq)]
pub enum TyKind {
    /// A path to a type, such as `i32` or `std::string::String`.
    Path(QPath),
    /// A slice, `[T]`.
    Slice,
    /// An array, `[T; N]`.
    Array,
    /// A raw pointer, `*const T` or `*mut T`.
    Ptr,
    /// A reference, `&T` or `&mut T`.
    Ref,
    /// A function pointer, `fn(A) -> B`.
    BareFn,
    /// The never type.
    Never,
    /// A tuple, `(A, B)`.
    Tup,
    /// An opaque type, `impl Trait`.
    OpaqueDef,
    /// A trait object, `dyn Trait`.
    TraitObject,
    /// A `typeof` expression.
    Typeof,
    /// A type left for inference, `_`.
    Infer,
    /// A type that the frontend could not make sense of.
    Malformed,
}

impl View for TyKind {
    type V = TyKindView;

    open spec fn view(&self) -> TyKindView {
        match self {
            TyKind::Path(qpath) => TyKindView::Path(qpath@),
            TyKind::Slice => TyKindView::Slice,
            TyKind::Array => TyKindView::Array,
            TyKind::Ptr => TyKindView::Ptr,
            TyKind::Ref => TyKindView::Ref,
            TyKind::BareFn => TyKindView::BareFn,
            TyKind::Never => TyKindView::Never,
            TyKind::Tup => TyKindView::Tup,
            TyKind::OpaqueDef => TyKindView::OpaqueDef,
            TyKind::TraitObject => TyKindView::TraitObject,
            TyKind::Typeof => TyKindView::Typeof,
            TyKind::Infer => TyKindView::Infer,
            TyKind::Malformed => TyKindView::Malformed,
        }
    }
}

/// The mathematical value of a [`FnRetTy`].
pub enum FnRetTyView {
    DefaultReturn,
    Return(TyKindView),
}

/// The return type of a function declaration: none written, or the type
/// expression that was written.
#[derive(Clone, Debug, PartialEq, Eq)]
pub enum FnRetTy {
    DefaultReturn,
    Return(TyKind),
}

impl View for FnRetTy {
    type V = FnRetTyView;

    open spec fn view(&self) -> FnRetTyView {
        match self {
            FnRetTy::DefaultReturn => FnRetTyView::DefaultReturn,
            FnRetTy::Return(ty) => FnRetTyView::Return(ty@),
        }
    }
}

/// The mathematical value of a [`FnDecl`].
pub struct FnDeclView {
    pub inputs: Seq<TyKindView>,
    pub output: FnRetTyView,
}

/// The declared types of a function: those of its parameters, in
/// declaration order, and its return type.
#[derive(Clone, Debug, PartialEq, Eq)]
pub struct FnDecl {
    pub inputs: Vec<TyKind>,
    pub output: FnRetTy,
}

impl View for FnDecl {
    type V = FnDeclView;

    open spec fn view(&self) -> FnDeclView {
        FnDeclView { inputs: self.inputs@.map_values(|ty: TyKind| ty@), output: self.output@ }
    }
}

/// The mathematical value of an [`ItemKind`].
pub enum ItemKindView {
    Fn(FnDeclView),
    Use,
    Static,
    Const,
    Mod,
    TyAlias,
    Enum,
    Struct,
    Union,
    Trait,
    Impl,
    Other,
}

/// What kind of declaration an item is.
#[derive(Clone, Debug, PartialEq, Eq)]
pub enum ItemKind {
    /// A free function.
    Fn(FnDecl),
    Use,
    Static,
    Const,
    Mod,
    TyAlias,
    Enum,
    Struct,
    Union,
    Trait,
    Impl,
    /// Any kind not listed above.
    Other,
}

impl View for ItemKind {
    type V = ItemKindView;

    open spec fn view(&self) -> ItemKindView {
        match self {
            ItemKind::Fn(decl) => ItemKindView::Fn(decl@),
            ItemKind::Use => ItemKindView::Use,
            ItemKind::Static => ItemKindView::Static,
            ItemKind::Const => ItemKindView::Const,
            ItemKind::Mod => ItemKindView::Mod,
            ItemKind::TyAlias => ItemKindView::TyAlias,
            ItemKind::Enum => ItemKindView::Enum,
            ItemKind::Struct => ItemKindView::Struct,
            ItemKind::Union => ItemKindView::Union,
            ItemKind::Trait => ItemKindView::Trait,
            ItemKind::Impl => ItemKindView::Impl,
            ItemKind::Other => ItemKindView::Other,
        }
    }
}

/// The mathematical value of an [`Item`].
pub struct ItemView {
    pub ident: Seq<char>,
    pub kind: ItemKindView,
}

/// A declaration of the program: its name and what it declares.
#[derive(Clone, Debug, PartialEq, Eq)]
pub struct Item {
    pub ident: String,
    pub kind: ItemKind,
}

impl View for Item {
    type V = ItemView;

    open spec fn view(&self) -> ItemView {
        ItemView { ident: self.ident@, kind: self.kind@ }
    }
}

/// The views of a vector of items, in order.
pub open spec fn items_view(items: Seq<Item>) -> Seq<ItemView> {
    items.map_values(|item: Item| item@)
}

} // verus!

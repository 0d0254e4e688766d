//! What the generators read: an interface declaration and an implementation
//! block, each held as the plain text of its parts.

use vstd::prelude::*;

verus! {

/// One parameter of a method.
#[derive(Clone, Debug, PartialEq, Eq)]
pub enum FnArg {
    /// A `self` receiver, as written. It stays in the signature and is never
    /// passed across the boundary.
    Receiver(String),
    /// A parameter with its name and its type.
    Typed { pat: String, ty: String },
}

/// The signature of one method.
#[derive(Clone, Debug, PartialEq, Eq)]
pub struct MethodSig {
    /// The attributes above the method, each as written, in order.
    pub attrs: Vec<String>,
    /// Whether the method is declared `unsafe`.
    pub unsafety: bool,
    pub name: String,
    /// The generic parameters with their angle brackets, or nothing.
    pub generics: String,
    pub inputs: Vec<FnArg>,
    /// The return type, where one is written.
    pub output: Option<String>,
}

/// One item of a declaration or of an implementation block.
#[derive(Clone, Debug, PartialEq, Eq)]
pub enum Item {
    /// A method.
    Fn(MethodSig),
    /// Anything else: an associated constant, an associated type, a macro.
    Other,
}

/// An interface declaration.
#[derive(Clone, Debug, PartialEq, Eq)]
pub struct TraitDecl {
    /// The visibility of the declaration, as written; nothing where it is
    /// private.
    pub vis: String,
    pub name: String,
    pub items: Vec<Item>,
    /// The whole declaration, as written.
    pub source: String,
}

/// An implementation of an interface for a concrete type.
#[derive(Clone, Debug, PartialEq, Eq)]
pub struct ImplBlock {
    /// The implementing type, as written.
    pub self_ty: String,
    /// The path of the implemented interface, as written.
    pub trait_path: String,
    pub items: Vec<Item>,
    /// The whole block, as written.
    pub source: String,
}

/// What a `FnArg` stands for.
pub enum FnArgModel {
    Receiver(Seq<char>),
    Typed { pat: Seq<char>, ty: Seq<char> },
}

/// What a `MethodSig` stands for.
pub struct MethodSigModel {
    pub attrs: Seq<Seq<char>>,
    pub unsafety: bool,
    pub name: Seq<char>,
    pub generics: Seq<char>,
    pub inputs: Seq<FnArgModel>,
    pub output: Option<Seq<char>>,
}

/// What an `Item` stands for.
pub enum ItemModel {
    Fn(MethodSigModel),
    Other,
}

/// What a `TraitDecl` stands for.
pub struct TraitDeclModel {
    pub vis: Seq<char>,
    pub name: Seq<char>,
    pub items: Seq<ItemModel>,
    pub source: Seq<char>,
}

/// What an `ImplBlock` stands for.
pub struct ImplBlockModel {
    pub self_ty: Seq<char>,
    pub trait_path: Seq<char>,
    pub items: Seq<ItemModel>,
    pub source: Seq<char>,
}

impl DeepView for FnArg {
    type V = FnArgModel;

    open spec fn deep_view(&self) -> FnArgModel {
        match self {
            FnArg::Receiver(text) => FnArgModel::Receiver(text@),
            FnArg::Typed { pat, ty } => FnArgModel::Typed { pat: pat@, ty: ty@ },
        }
    }
}

impl DeepView for MethodSig {
    type V = MethodSigModel;

    open spec fn deep_view(&self) -> MethodSigModel {
        MethodSigModel {
            attrs: self.attrs.deep_view(),
            unsafety: self.unsafety,
            name: self.name@,
            generics: self.generics@,
            inputs: self.inputs.deep_view(),
            output: self.output.deep_view(),
        }
    }
}

impl DeepView for Item {
    type V = ItemModel;

    open spec fn deep_view(&self) -> ItemModel {
        match self {
            Item::Fn(sig) => ItemModel::Fn(sig.deep_view()),
            Item::Other => ItemModel::Other,
        }
    }
}

impl DeepView for TraitDecl {
    type V = TraitDeclModel;

    open spec fn deep_view(&self) -> TraitDeclModel {
        TraitDeclModel {
            vis: self.vis@,
            name: self.name@,
            items: self.items.deep_view(),
            source: self.source@,
        }
    }
}

impl DeepView for ImplBlock {
    type V = ImplBlockModel;

    open spec fn deep_view(&self) -> ImplBlockModel {
        ImplBlockModel {
            self_ty: self.self_ty@,
            trait_path: self.trait_path@,
            items: self.items.deep_view(),
            source: self.source@,
        }
    }
}

/// The position of the first item that is no method, or the number of items
/// where all are methods.
pub open spec fn first_other(items: Seq<ItemModel>) -> int
    decreases items.len(),
{
    if items.len() == 0 {
        0
    } else if items[0] is Other {
        0
    } else {
        1 + first_other(items.drop_first())
    }
}

/// The names of the methods among `items`, in order.
pub open spec fn method_names(items: Seq<ItemModel>) -> Seq<Seq<char>>
    decreases items.len(),
{
    if items.len() == 0 {
        Seq::empty()
    } else {
        match items.last() {
            ItemModel::Fn(sig) => method_names(items.drop_last()).push(sig.name),
            ItemModel::Other => method_names(items.drop_last()),
        }
    }
}

/// The first item that is no method stands at `k`: before it stand methods
/// only, and the items end there or the item there is no method.
pub proof fn lemma_first_other(items: Seq<ItemModel>, k: int)
    requires
        0 <= k <= items.len(),
        forall|j: int| 0 <= j < k ==> items[j] is Fn,
        k < items.len() ==> items[k] is Other,
    ensures
        first_other(items) == k,
    decreases items.len(),
{
    if items.len() > 0 && items[0] is Fn {
        let rest = items.drop_first();
        assert forall|j: int| 0 <= j < k - 1 implies rest[j] is Fn by {
            assert(rest[j] == items[j + 1]);
        }
        lemma_first_other(rest, k - 1);
    }
}

/// Where all items are methods, none is anything else, and the other way
/// round.
pub proof fn lemma_all_methods(items: Seq<ItemModel>)
    ensures
        0 <= first_other(items) <= items.len(),
        first_other(items) == items.len() <==> (forall|j: int|
            0 <= j < items.len() ==> items[j] is Fn),
        forall|j: int| 0 <= j < first_other(items) ==> items[j] is Fn,
        first_other(items) < items.len() ==> items[first_other(items)] is Other,
    decreases items.len(),
{
    if items.len() > 0 && items[0] is Fn {
        let rest = items.drop_first();
        lemma_all_methods(rest);
        assert forall|j: int| 0 <= j < first_other(items) implies items[j] is Fn by {
            if j > 0 {
                assert(rest[j - 1] == items[j]);
            }
        }
        if first_other(items) == items.len() {
            assert forall|j: int| 0 <= j < items.len() implies items[j] is Fn by {
                if j > 0 {
                    assert(rest[j - 1] == items[j]);
                }
            }
        }
        if forall|j: int| 0 <= j < items.len() ==> items[j] is Fn {
            assert forall|j: int| 0 <= j < rest.len() implies rest[j] is Fn by {
                assert(rest[j] == items[j + 1]);
            }
        }
    }
}

} // verus!

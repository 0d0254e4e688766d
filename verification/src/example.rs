//! A worked example: the interface `DemeIf` with the type `MyImpl` that
//! implements it, and the interface `TestTraitWithoutImplMacro` with the type
//! `TestImpl`. The declarations are given as the generators read them.

use crate::decl::{
    FnArg, FnArgModel, ImplBlock, ImplBlockModel, Item, ItemModel, MethodSig, MethodSigModel,
    TraitDecl, TraitDeclModel,
};
use vstd::prelude::*;
use vstd::string::*;

verus! {

/// The type that implements `DemeIf`.
#[derive(Clone, Copy, Debug, PartialEq, Eq)]
pub struct MyImpl;

/// The type that implements `TestTraitWithoutImplMacro`.
#[derive(Clone, Copy, Debug, PartialEq, Eq)]
pub struct TestImpl;

/// `unsafe fn say_hello<'a>(a: usize) -> &'a str`, with its note on safety.
pub open spec fn say_hello_model() -> MethodSigModel {
    MethodSigModel {
        attrs: seq!["/// # Safety"@, "///"@],
        unsafety: true,
        name: "say_hello"@,
        generics: "<'a>"@,
        inputs: seq![FnArgModel::Typed { pat: "a"@, ty: "usize"@ }],
        output: Some("&'a str"@),
    }
}

/// `fn ft_all() -> &'static str`, behind the feature `all`.
pub open spec fn ft_all_model() -> MethodSigModel {
    MethodSigModel {
        attrs: seq!["#[cfg(feature = \"all\")]"@],
        unsafety: false,
        name: "ft_all"@,
        generics: Seq::empty(),
        inputs: Seq::empty(),
        output: Some("&'static str"@),
    }
}

/// `fn test_function(x: i32) -> i32`.
pub open spec fn test_function_model() -> MethodSigModel {
    MethodSigModel {
        attrs: Seq::empty(),
        unsafety: false,
        name: "test_function"@,
        generics: Seq::empty(),
        inputs: seq![FnArgModel::Typed { pat: "x"@, ty: "i32"@ }],
        output: Some("i32"@),
    }
}

/// The two methods of `DemeIf`.
pub open spec fn deme_if_items() -> Seq<ItemModel> {
    seq![ItemModel::Fn(say_hello_model()), ItemModel::Fn(ft_all_model())]
}

/// The one method of `TestTraitWithoutImplMacro`.
pub open spec fn test_trait_items() -> Seq<ItemModel> {
    seq![ItemModel::Fn(test_function_model())]
}

/// The declaration of `DemeIf`.
pub open spec fn deme_if_model() -> TraitDeclModel {
    TraitDeclModel {
        vis: "pub"@,
        name: "DemeIf"@,
        items: deme_if_items(),
        source: "pub trait DemeIf {\n    /// # Safety\n    ///\n    unsafe fn say_hello<'a>(a: usize) -> &'a str;\n\n    #[cfg(feature = \"all\")]\n    fn ft_all() -> &'static str;\n}"@,
    }
}

/// The declaration of `TestTraitWithoutImplMacro`.
pub open spec fn test_trait_model() -> TraitDeclModel {
    TraitDeclModel {
        vis: "pub"@,
        name: "TestTraitWithoutImplMacro"@,
        items: test_trait_items(),
        source: "pub trait TestTraitWithoutImplMacro {\n    fn test_function(x: i32) -> i32;\n}"@,
    }
}

/// The implementation of `DemeIf` for `MyImpl`.
pub open spec fn my_impl_model() -> ImplBlockModel {
    ImplBlockModel {
        self_ty: "MyImpl"@,
        trait_path: "DemeIf"@,
        items: deme_if_items(),
        source: "impl DemeIf for MyImpl {\n    unsafe fn say_hello<'a>(a: usize) -> &'a str {\n        \"Hello from MyImpl\"\n    }\n\n    #[cfg(feature = \"all\")]\n    fn ft_all() -> &'static str {\n        \"Hello from MyImpl's implementation of ft_all\"\n    }\n}"@,
    }
}

/// The implementation of `TestTraitWithoutImplMacro` for `TestImpl`.
pub open spec fn test_impl_model() -> ImplBlockModel {
    ImplBlockModel {
        self_ty: "TestImpl"@,
        trait_path: "TestTraitWithoutImplMacro"@,
        items: test_trait_items(),
        source: "impl TestTraitWithoutImplMacro for TestImpl {\n    fn test_function(x: i32) -> i32 {\n        x * 2\n    }\n}"@,
    }
}

/// The signature of `say_hello`.
fn say_hello() -> (r: MethodSig)
    ensures
        r.deep_view() == say_hello_model(),
{
    let mut attrs: Vec<String> = Vec::new();
    attrs.push(String::from_str("/// # Safety"));
    attrs.push(String::from_str("///"));
    let mut inputs: Vec<FnArg> = Vec::new();
    inputs.push(FnArg::Typed { pat: String::from_str("a"), ty: String::from_str("usize") });
    let r = MethodSig {
        attrs,
        unsafety: true,
        name: String::from_str("say_hello"),
        generics: String::from_str("<'a>"),
        inputs,
        output: Some(String::from_str("&'a str")),
    };
    assert(r.attrs.deep_view() =~= say_hello_model().attrs);
    assert(r.inputs.deep_view() =~= say_hello_model().inputs);
    r
}

/// The signature of `ft_all`.
fn ft_all() -> (r: MethodSig)
    ensures
        r.deep_view() == ft_all_model(),
{
    let mut attrs: Vec<String> = Vec::new();
    attrs.push(String::from_str("#[cfg(feature = \"all\")]"));
    let r = MethodSig {
        attrs,
        unsafety: false,
        name: String::from_str("ft_all"),
        generics: String::new(),
        inputs: Vec::new(),
        output: Some(String::from_str("&'static str")),
    };
    assert(r.attrs.deep_view() =~= ft_all_model().attrs);
    assert(r.inputs.deep_view() =~= ft_all_model().inputs);
    r
}

/// The signature of `test_function`.
fn test_function() -> (r: MethodSig)
    ensures
        r.deep_view() == test_function_model(),
{
    let mut inputs: Vec<FnArg> = Vec::new();
    inputs.push(FnArg::Typed { pat: String::from_str("x"), ty: String::from_str("i32") });
    let r = MethodSig {
        attrs: Vec::new(),
        unsafety: false,
        name: String::from_str("test_function"),
        generics: String::new(),
        inputs,
        output: Some(String::from_str("i32")),
    };
    assert(r.attrs.deep_view() =~= test_function_model().attrs);
    assert(r.inputs.deep_view() =~= test_function_model().inputs);
    r
}

/// The methods of `DemeIf`.
fn deme_if_methods() -> (r: Vec<Item>)
    ensures
        r.deep_view() == deme_if_items(),
{
    let mut items: Vec<Item> = Vec::new();
    items.push(Item::Fn(say_hello()));
    items.push(Item::Fn(ft_all()));
    assert(items.deep_view() =~= deme_if_items());
    items
}

/// The methods of `TestTraitWithoutImplMacro`.
fn test_trait_methods() -> (r: Vec<Item>)
    ensures
        r.deep_view() == test_trait_items(),
{
    let mut items: Vec<Item> = Vec::new();
    items.push(Item::Fn(test_function()));
    assert(items.deep_view() =~= test_trait_items());
    items
}

/// The declaration of the interface `DemeIf`.
pub fn deme_if() -> (r: TraitDecl)
    ensures
        r.deep_view() == deme_if_model(),
{
    TraitDecl {
        vis: String::from_str("pub"),
        name: String::from_str("DemeIf"),
        items: deme_if_methods(),
        source: String::from_str(
            "pub trait DemeIf {\n    /// # Safety\n    ///\n    unsafe fn say_hello<'a>(a: usize) -> &'a str;\n\n    #[cfg(feature = \"all\")]\n    fn ft_all() -> &'static str;\n}",
        ),
    }
}

/// The declaration of the interface `TestTraitWithoutImplMacro`.
pub fn test_trait_without_impl_macro() -> (r: TraitDecl)
    ensures
        r.deep_view() == test_trait_model(),
{
    TraitDecl {
        vis: String::from_str("pub"),
        name: String::from_str("TestTraitWithoutImplMacro"),
        items: test_trait_methods(),
        source: String::from_str(
            "pub trait TestTraitWithoutImplMacro {\n    fn test_function(x: i32) -> i32;\n}",
        ),
    }
}

impl MyImpl {
    /// The block that implements `DemeIf` for this type.
    pub fn block() -> (r: ImplBlock)
        ensures
            r.deep_view() == my_impl_model(),
    {
        ImplBlock {
            self_ty: String::from_str("MyImpl"),
            trait_path: String::from_str("DemeIf"),
            items: deme_if_methods(),
            source: String::from_str(
                "impl DemeIf for MyImpl {\n    unsafe fn say_hello<'a>(a: usize) -> &'a str {\n        \"Hello from MyImpl\"\n    }\n\n    #[cfg(feature = \"all\")]\n    fn ft_all() -> &'static str {\n        \"Hello from MyImpl's implementation of ft_all\"\n    }\n}",
            ),
        }
    }
}

impl TestImpl {
    /// The block that implements `TestTraitWithoutImplMacro` for this type.
    pub fn block() -> (r: ImplBlock)
        ensures
            r.deep_view() == test_impl_model(),
    {
        ImplBlock {
            self_ty: String::from_str("TestImpl"),
            trait_path: String::from_str("TestTraitWithoutImplMacro"),
            items: test_trait_methods(),
            source: String::from_str(
                "impl TestTraitWithoutImplMacro for TestImpl {\n    fn test_function(x: i32) -> i32 {\n        x * 2\n    }\n}",
            ),
        }
    }
}

} // verus!

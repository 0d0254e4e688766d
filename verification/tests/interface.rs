use trait_ffi_core::bind::{ExternFn, GenError};
use trait_ffi_core::config::{Abi, ConfigError, DefConfig};
use trait_ffi_core::decl::{FnArg, Item, MethodSig, TraitDecl};
use trait_ffi_core::example::{deme_if, test_trait_without_impl_macro};
use trait_ffi_core::interface::{def_extern_trait, generate_interface, BinderTemplate};

fn add() -> MethodSig {
    MethodSig {
        attrs: vec![],
        unsafety: false,
        name: "add".to_string(),
        generics: String::new(),
        inputs: vec![
            FnArg::Typed { pat: "a".to_string(), ty: "i32".to_string() },
            FnArg::Typed { pat: "b".to_string(), ty: "i32".to_string() },
        ],
        output: Some("i32".to_string()),
    }
}

fn reset() -> MethodSig {
    MethodSig {
        attrs: vec![],
        unsafety: false,
        name: "reset".to_string(),
        generics: String::new(),
        inputs: vec![],
        output: None,
    }
}

fn calculator(items: Vec<Item>) -> TraitDecl {
    TraitDecl {
        vis: String::new(),
        name: "Calculator".to_string(),
        items,
        source: "trait Calculator { fn add(a: i32, b: i32) -> i32; fn reset(); }".to_string(),
    }
}

#[test]
fn default_configuration_succeeds() {
    let out = def_extern_trait("", deme_if(), "interface-demo", "0.3.1").unwrap();
    assert_eq!(out.fns.len(), 2);
    assert_eq!(out.fns[0].abi, Abi::Rust);
    assert_eq!(out.fns[1].abi, Abi::Rust);
    assert_eq!(
        out.helper,
        Some(BinderTemplate {
            crate_path: "interface_demo".to_string(),
            name: "interface-demo_0_3".to_string(),
            abi: Abi::Rust,
        })
    );
}

#[test]
fn names_of_the_interface_side() {
    let out = def_extern_trait("", deme_if(), "interface-demo", "0.3.1").unwrap();
    assert_eq!(out.vis, "pub");
    assert_eq!(out.mod_name, "deme_if");
    assert_eq!(out.fns[0].symbol, "__interface_demo_0_3_say_hello");
    assert_eq!(out.fns[1].symbol, "__interface_demo_0_3_ft_all");
    assert_eq!(out.marker, "Trait_DemeIf_in_crate_interface_demo_0_3_need_impl");
    assert_eq!(out.source, deme_if().source);
}

#[test]
fn unit_name_is_lower_cased_in_the_symbol_only() {
    let out = def_extern_trait("", calculator(vec![Item::Fn(add())]), "My-Unit", "2.5.0").unwrap();
    assert_eq!(out.fns[0].symbol, "__my_unit_2_add");
    let helper = out.helper.unwrap();
    assert_eq!(helper.crate_path, "My_Unit");
    assert_eq!(helper.name, "My-Unit_2");
}

#[test]
fn signatures_are_kept_by_the_forwarding_functions() {
    let decl = deme_if();
    let methods = decl.items.clone();
    let out = def_extern_trait("abi = \"c\"", decl, "interface-demo", "0.3.1").unwrap();
    assert_eq!(out.fns.len(), methods.len());
    for (f, item) in out.fns.iter().zip(methods.iter()) {
        match item {
            Item::Fn(sig) => {
                assert_eq!(&f.sig, sig);
                assert_eq!(f.sig.unsafety, sig.unsafety);
                assert_eq!(f.sig.generics, sig.generics);
                assert_eq!(f.abi, Abi::C);
            }
            Item::Other => panic!("the example holds methods only"),
        }
    }
    assert!(out.fns[0].sig.unsafety);
    assert_eq!(out.fns[0].sig.generics, "<'a>");
    assert!(!out.fns[1].sig.unsafety);
}

#[test]
fn module_path_extends_the_path_of_the_helper() {
    let out = def_extern_trait("mod_path = \"aaa\"", deme_if(), "interface-demo", "0.3.1").unwrap();
    assert_eq!(out.helper.unwrap().crate_path, "interface_demo::aaa");
    let out = def_extern_trait("mod_path = \"a::b::c\"", deme_if(), "demo", "1.0.0").unwrap();
    assert_eq!(out.helper.unwrap().crate_path, "demo::a::b::c");
}

#[test]
fn suppressed_helper_leaves_the_namespace_unchanged() {
    let with = def_extern_trait("", test_trait_without_impl_macro(), "interface-demo", "0.3.1")
        .unwrap();
    let without =
        def_extern_trait("not_def_impl", test_trait_without_impl_macro(), "interface-demo", "0.3.1")
            .unwrap();
    assert!(with.helper.is_some());
    assert_eq!(without.helper, None);
    assert_eq!(with.fns, without.fns);
    assert_eq!(with.namespace(), without.namespace());
    assert!(with.render().contains("macro_rules! impl_trait"));
    assert!(!without.render().contains("macro_rules"));
    assert!(!without.render().contains("impl_extern_trait"));
}

#[test]
fn non_method_item_is_rejected() {
    let decl = calculator(vec![Item::Fn(add()), Item::Other, Item::Fn(reset()), Item::Other]);
    let r = def_extern_trait("", decl, "demo", "1.0.0");
    assert_eq!(r, Err(GenError::NotAFunction { index: 1 }));
    assert_eq!(r.unwrap_err().message(), "Only function items are allowed in extern traits");
}

#[test]
fn non_method_item_in_first_place_is_rejected() {
    let decl = calculator(vec![Item::Other]);
    assert_eq!(def_extern_trait("not_def_impl", decl, "demo", "1.0.0"), Err(GenError::NotAFunction { index: 0 }));
}

#[test]
fn invalid_abi_fails_the_interface_generator() {
    let r = def_extern_trait("abi=\"python\"", deme_if(), "interface-demo", "0.3.1");
    assert_eq!(r, Err(GenError::Config(ConfigError::InvalidAbi)));
    assert_eq!(
        r.unwrap_err().message(),
        "Invalid abi parameter. Supported values: \"c\", \"rust\""
    );
}

#[test]
fn options_are_checked_before_the_version_and_the_items() {
    let decl = calculator(vec![Item::Other]);
    assert_eq!(
        def_extern_trait("abi=\"python\"", decl, "demo", "no version"),
        Err(GenError::Config(ConfigError::InvalidAbi))
    );
    let decl = calculator(vec![Item::Other]);
    assert_eq!(def_extern_trait("", decl, "demo", "no version"), Err(GenError::Version));
    assert_eq!(
        GenError::Version.message(),
        "Invalid version. The version of the unit is not a version number"
    );
}

#[test]
fn empty_declaration_has_an_empty_namespace() {
    let out = def_extern_trait("not_def_impl", calculator(vec![]), "demo", "1.0.0").unwrap();
    assert!(out.fns.is_empty());
    assert_eq!(
        out.namespace(),
        " mod calculator {\n    use super::*;\n    /// `trait-ffi` generated.\n}\n"
    );
}

#[test]
fn generate_from_resolved_names() {
    let cfg = DefConfig { abi: Abi::C, emit_binder_helper: true, mod_path: Some("m".to_string()) };
    let out = generate_interface(
        cfg,
        calculator(vec![Item::Fn(reset())]),
        "crate-x",
        "9",
        "calc".to_string(),
        "unit",
    )
    .unwrap();
    assert_eq!(out.mod_name, "calc");
    assert_eq!(out.fns[0].symbol, "__unit_reset");
    assert_eq!(out.fns[0].abi, Abi::C);
    assert_eq!(out.marker, "Trait_Calculator_in_crate_crate_x_9_need_impl");
    assert_eq!(
        out.helper,
        Some(BinderTemplate {
            crate_path: "crate_x::m".to_string(),
            name: "crate-x_9".to_string(),
            abi: Abi::C,
        })
    );
}

#[test]
fn forwarding_function_of_a_plain_method() {
    let f = ExternFn { sig: add(), abi: Abi::C, symbol: "__demo_1_add".to_string() };
    assert_eq!(
        f.forwarding(),
        "    pub fn add(a: i32, b: i32) -> i32 {\n        unsafe extern \"C\" {\n            fn __demo_1_add(a: i32, b: i32) -> i32;\n        }\n        unsafe { __demo_1_add(a, b) }\n    }\n"
    );
}

#[test]
fn forwarding_function_without_parameters_and_result() {
    let f = ExternFn { sig: reset(), abi: Abi::Rust, symbol: "__demo_1_reset".to_string() };
    assert_eq!(
        f.forwarding(),
        "    pub fn reset() {\n        unsafe extern \"Rust\" {\n            fn __demo_1_reset();\n        }\n        unsafe { __demo_1_reset() }\n    }\n"
    );
}

#[test]
fn receiver_stays_in_the_signature_and_out_of_the_call() {
    let sig = MethodSig {
        attrs: vec![],
        unsafety: false,
        name: "scale".to_string(),
        generics: "<T: Copy>".to_string(),
        inputs: vec![
            FnArg::Receiver("&self".to_string()),
            FnArg::Typed { pat: "by".to_string(), ty: "T".to_string() },
        ],
        output: Some("T".to_string()),
    };
    assert_eq!(sig.signature("scale"), "scale<T: Copy>(&self, by: T) -> T");
    assert_eq!(sig.call_args(), "by");
}

#[test]
fn rendered_interface_of_the_example() {
    let out = def_extern_trait("mod_path = \"aaa\"", deme_if(), "interface-demo", "0.3.1").unwrap();
    let expected = "pub trait DemeIf {
    /// # Safety
    ///
    unsafe fn say_hello<'a>(a: usize) -> &'a str;

    #[cfg(feature = \"all\")]
    fn ft_all() -> &'static str;
}

pub mod deme_if {
    use super::*;
    /// `trait-ffi` generated.
    /// # Safety
    ///
    pub unsafe fn say_hello<'a>(a: usize) -> &'a str {
        unsafe extern \"Rust\" {
            fn __interface_demo_0_3_say_hello<'a>(a: usize) -> &'a str;
        }
        unsafe { __interface_demo_0_3_say_hello(a) }
    }
    #[cfg(feature = \"all\")]
    pub fn ft_all() -> &'static str {
        unsafe extern \"Rust\" {
            fn __interface_demo_0_3_ft_all() -> &'static str;
        }
        unsafe { __interface_demo_0_3_ft_all() }
    }
}

pub use trait_ffi::impl_extern_trait;

#[macro_export]
macro_rules! impl_trait {
    (impl $trait:ident for $type:ty { $($body:tt)* }) => {
        #[interface_demo::aaa::impl_extern_trait(name = \"interface-demo_0_3\", abi = \"rust\")]
        impl $trait for $type {
            $($body)*
        }
    };
}
";
    assert_eq!(out.render(), expected);
}

#[test]
fn rendered_interface_without_helper() {
    let out =
        def_extern_trait("not_def_impl", test_trait_without_impl_macro(), "interface-demo", "0.3.1")
            .unwrap();
    let expected = "pub trait TestTraitWithoutImplMacro {
    fn test_function(x: i32) -> i32;
}

pub mod test_trait_without_impl_macro {
    use super::*;
    /// `trait-ffi` generated.
    pub fn test_function(x: i32) -> i32 {
        unsafe extern \"Rust\" {
            fn __interface_demo_0_3_test_function(x: i32) -> i32;
        }
        unsafe { __interface_demo_0_3_test_function(x) }
    }
}
";
    assert_eq!(out.render(), expected);
}

#[test]
fn helper_hands_its_options_to_the_binder() {
    let t = BinderTemplate {
        crate_path: "demo".to_string(),
        name: "demo_1".to_string(),
        abi: Abi::C,
    };
    assert_eq!(t.args(), "name = \"demo_1\", abi = \"c\"");
    assert!(t.render().contains("#[demo::impl_extern_trait(name = \"demo_1\", abi = \"c\")]"));
}

use std::collections::BTreeSet;
use trait_ffi_core::binder::impl_extern_trait;
use trait_ffi_core::config::{parse_extern_trait_args, Abi, ImplConfig};
use trait_ffi_core::decl::{Item, TraitDecl};
use trait_ffi_core::example::{deme_if, test_trait_without_impl_macro, MyImpl, TestImpl};
use trait_ffi_core::interface::def_extern_trait;

#[test]
fn helper_options_resolve_to_the_identity_of_the_interface() {
    let out = def_extern_trait("abi = \"c\"", deme_if(), "interface-demo", "0.3.1").unwrap();
    let helper = out.helper.unwrap();
    assert_eq!(
        parse_extern_trait_args(&helper.args()),
        Ok(ImplConfig { name: "interface-demo_0_3".to_string(), abi: Abi::C })
    );
}

#[test]
fn exported_symbols_are_the_declared_symbols() {
    let interface = def_extern_trait("mod_path = \"aaa\"", deme_if(), "interface-demo", "0.3.1")
        .unwrap();
    let args = interface.helper.as_ref().unwrap().args();
    let binder = impl_extern_trait(&args, MyImpl::block()).unwrap();
    let declared: BTreeSet<String> = interface.fns.iter().map(|f| f.symbol.clone()).collect();
    let exported: BTreeSet<String> = binder.fns.iter().map(|f| f.symbol.clone()).collect();
    assert_eq!(declared, exported);
    assert_eq!(declared.len(), 2);
    for (d, e) in interface.fns.iter().zip(binder.fns.iter()) {
        assert_eq!(d, e);
    }
}

#[test]
fn methods_in_another_order_export_the_same_symbols() {
    let interface = def_extern_trait("", deme_if(), "interface-demo", "1.4.0").unwrap();
    let mut block = MyImpl::block();
    block.items.reverse();
    let binder = impl_extern_trait("name = \"interface-demo_1\", abi = \"rust\"", block).unwrap();
    let declared: BTreeSet<String> = interface.fns.iter().map(|f| f.symbol.clone()).collect();
    let exported: BTreeSet<String> = binder.fns.iter().map(|f| f.symbol.clone()).collect();
    assert_eq!(declared, exported);
}

#[test]
fn binder_invoked_directly_with_matching_configuration() {
    let interface =
        def_extern_trait("not_def_impl", test_trait_without_impl_macro(), "interface-demo", "0.3.1")
            .unwrap();
    assert_eq!(interface.helper, None);
    let binder =
        impl_extern_trait("name = \"interface-demo_0_3\", abi = \"rust\"", TestImpl::block())
            .unwrap();
    assert_eq!(interface.fns, binder.fns);
}

#[test]
fn another_identity_gives_other_symbols() {
    let interface = def_extern_trait("", deme_if(), "interface-demo", "0.3.1").unwrap();
    let binder = impl_extern_trait("name = \"interface-demo\"", MyImpl::block()).unwrap();
    assert_eq!(binder.fns[0].symbol, "__interface_demo_say_hello");
    assert!(interface.fns[0].symbol != binder.fns[0].symbol);
}

#[test]
fn example_declarations() {
    let decl: TraitDecl = deme_if();
    assert_eq!(decl.name, "DemeIf");
    assert_eq!(decl.items.len(), 2);
    assert_eq!(decl.items, MyImpl::block().items);
    assert_eq!(test_trait_without_impl_macro().items, TestImpl::block().items);
    assert!(decl.items.iter().all(|i| matches!(i, Item::Fn(_))));
    assert_eq!(MyImpl, MyImpl);
    assert_eq!(TestImpl, TestImpl);
}

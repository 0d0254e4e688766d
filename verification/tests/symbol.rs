use trait_ffi_core::symbol::{
    extern_fn_name, marker_fn_name, namespace_name, normalize, prefix_version, symbol_for,
    unit_name_or_default, unit_version_or_default, version_channel, versioned_identity,
};

#[test]
fn symbol_of_a_plain_unit() {
    assert_eq!(extern_fn_name("calculator_crate", "add"), "__calculator_crate_add");
}

#[test]
fn symbol_is_lower_cased_and_underscored() {
    assert_eq!(extern_fn_name("My-Crate", "say_hello"), "__my_crate_say_hello");
    assert_eq!(extern_fn_name("interface-demo_0_3", "ft_all"), "__interface_demo_0_3_ft_all");
}

#[test]
fn method_name_is_taken_as_it_is() {
    assert_eq!(extern_fn_name("demo", "Say-Hello"), "__demo_Say-Hello");
}

#[test]
fn symbol_is_the_same_on_every_call() {
    let first = extern_fn_name("Interface-Demo_1", "say_hello");
    let second = extern_fn_name("Interface-Demo_1", "say_hello");
    assert_eq!(first, second);
    assert_eq!(first, "__interface_demo_1_say_hello");
}

#[test]
fn symbol_for_a_normalized_unit() {
    assert_eq!(symbol_for("unit", "f"), "__unit_f");
    assert_eq!(symbol_for("", ""), "___");
}

#[test]
fn normalize_lowers_and_underscores() {
    assert_eq!(normalize("A-b-C"), "a_b_c");
    assert_eq!(normalize("already_fine"), "already_fine");
    assert_eq!(normalize(""), "");
}

#[test]
fn channel_of_a_zero_major_version() {
    assert_eq!(version_channel(0, 0), "0_0");
    assert_eq!(version_channel(0, 3), "0_3");
    assert_eq!(version_channel(0, 12), "0_12");
    assert_eq!(version_channel(0, u64::MAX), "0_18446744073709551615");
}

#[test]
fn channel_of_a_released_version() {
    assert_eq!(version_channel(1, 0), "1");
    assert_eq!(version_channel(1, 7), "1");
    assert_eq!(version_channel(10, 2), "10");
    assert_eq!(version_channel(907, 0), "907");
    assert_eq!(version_channel(u64::MAX, 1), "18446744073709551615");
}

#[test]
fn channel_of_a_written_version() {
    assert_eq!(prefix_version("0.1.0"), Some("0_1".to_string()));
    assert_eq!(prefix_version("0.3.1"), Some("0_3".to_string()));
    assert_eq!(prefix_version("1.2.3"), Some("1".to_string()));
    assert_eq!(prefix_version("12.0.5-beta.1"), Some("12".to_string()));
}

#[test]
fn channel_of_a_leniently_written_version() {
    assert_eq!(prefix_version("2"), Some("2".to_string()));
    assert_eq!(prefix_version("0.7"), Some("0_7".to_string()));
    assert_eq!(prefix_version("v1.2.3"), Some("1".to_string()));
}

#[test]
fn no_channel_without_a_version() {
    assert_eq!(prefix_version(""), None);
    assert_eq!(prefix_version("not a version"), None);
}

#[test]
fn identity_of_the_versioned_scheme() {
    assert_eq!(versioned_identity("interface-demo", "0_3"), "interface-demo_0_3");
    assert_eq!(versioned_identity("unit", "2"), "unit_2");
}

#[test]
fn namespace_is_named_in_snake_case() {
    assert_eq!(namespace_name("DemeIf"), "deme_if");
    assert_eq!(namespace_name("Calculator"), "calculator");
    assert_eq!(namespace_name("TestTraitWithoutImplMacro"), "test_trait_without_impl_macro");
}

#[test]
fn marker_symbol_of_an_interface() {
    assert_eq!(
        marker_fn_name("DemeIf", "interface-demo", "0_3"),
        "Trait_DemeIf_in_crate_interface_demo_0_3_need_impl"
    );
}

#[test]
fn every_separator_becomes_an_underscore() {
    assert_eq!(extern_fn_name("my.crate", "add"), "__my_crate_add");
    assert_eq!(extern_fn_name("My Crate::v2/x", "add"), "__my_crate__v2_x_add");
    assert_eq!(normalize("a.b-c d@e"), "a_b_c_d_e");
    assert_eq!(normalize("caf\u{e9}"), "caf_");
    assert_eq!(normalize("_09AZaz"), "_09azaz");
}

#[test]
fn unit_name_and_version_fall_back() {
    assert_eq!(unit_name_or_default(Some("interface-demo".to_string())), "interface-demo");
    assert_eq!(unit_name_or_default(None), "unknown");
    assert_eq!(unit_version_or_default(Some("1.2.3".to_string())), "1.2.3");
    assert_eq!(unit_version_or_default(None), "0.1.0");
    assert_eq!(unit_name_or_default(Some(String::new())), "");
}

#[test]
fn fallback_version_has_a_channel() {
    assert_eq!(prefix_version(&unit_version_or_default(None)), Some("0_1".to_string()));
}

//! What holds of the two generators together.

use crate::bind::{bound, error_text, symbols, GenError};
use crate::binder::{impl_extern_trait_spec, BinderOutputModel};
use crate::config::{
    def_config, entry_key, entry_text, impl_config, no_args, read_part, read_parts, Abi,
    ConfigError, DefConfigModel, ImplConfigModel, RawArgs,
};
use crate::decl::{
    first_other, lemma_all_methods, method_names, ImplBlockModel, ItemModel, TraitDeclModel,
};
use crate::interface::{
    def_extern_trait_spec, namespace_text, template_args_text, BinderTemplateModel,
    InterfaceOutputModel,
};
use crate::symbol::{
    channel_text, identity_text, lenient_version, normalized, prefix_version_text, symbol_text,
};
use crate::text::{
    decimal, digit, first_index, is_name_char, is_space, lemma_first_index, split, trim, trim_end,
    trim_start,
};
use vstd::prelude::*;

verus! {

/// The names of methods only are the names of the items, one for one.
pub proof fn lemma_method_names(items: Seq<ItemModel>)
    requires
        forall|j: int| 0 <= j < items.len() ==> items[j] is Fn,
    ensures
        method_names(items) == Seq::new(items.len(), |i: int| items[i]->Fn_0.name),
    decreases items.len(),
{
    if items.len() > 0 {
        let front = items.drop_last();
        assert forall|j: int| 0 <= j < front.len() implies front[j] is Fn by {
            assert(front[j] == items[j]);
        }
        lemma_method_names(front);
        assert(items.last() == items[items.len() - 1]);
        assert(method_names(items) =~= Seq::new(items.len(), |i: int| items[i]->Fn_0.name));
    } else {
        assert(method_names(items) =~= Seq::new(items.len(), |i: int| items[i]->Fn_0.name));
    }
}

/// Methods that are bound for the same unit carry the same symbols exactly
/// where they have the same names.
pub proof fn lemma_same_names_same_symbols(
    a: Seq<ItemModel>,
    b: Seq<ItemModel>,
    unit: Seq<char>,
    abi_a: Abi,
    abi_b: Abi,
)
    requires
        first_other(a) == a.len(),
        first_other(b) == b.len(),
        method_names(a).to_set() == method_names(b).to_set(),
    ensures
        symbols(bound(a, unit, abi_a)).to_set() == symbols(bound(b, unit, abi_b)).to_set(),
{
    lemma_all_methods(a);
    lemma_all_methods(b);
    lemma_method_names(a);
    lemma_method_names(b);
    let sa = symbols(bound(a, unit, abi_a));
    let sb = symbols(bound(b, unit, abi_b));
    assert forall|s: Seq<char>| sa.to_set().contains(s) implies sb.to_set().contains(s) by {
        let i = choose|i: int| 0 <= i < sa.len() && sa[i] == s;
        let name = method_names(a)[i];
        assert(method_names(a).contains(name));
        assert(method_names(a).to_set().contains(name));
        assert(method_names(b).to_set().contains(name));
        assert(method_names(b).contains(name));
        let j = choose|j: int| 0 <= j < method_names(b).len() && method_names(b)[j] == name;
        assert(sb[j] == s);
    }
    assert forall|s: Seq<char>| sb.to_set().contains(s) implies sa.to_set().contains(s) by {
        let i = choose|i: int| 0 <= i < sb.len() && sb[i] == s;
        let name = method_names(b)[i];
        assert(method_names(b).contains(name));
        assert(method_names(b).to_set().contains(name));
        assert(method_names(a).to_set().contains(name));
        assert(method_names(a).contains(name));
        let j = choose|j: int| 0 <= j < method_names(a).len() && method_names(a)[j] == name;
        assert(sa[j] == s);
    }
    assert(sa.to_set() =~= sb.to_set());
}

/// Round-trip agreement. An interface is declared in the unit `crate_name`
/// of version `crate_version`, and a block implements it: it has the methods
/// of the declaration, by name. Where the binder is told the identity under
/// which the interface generator named the symbols, and the same calling
/// convention, and both generators succeed, the symbols that the binder
/// exports are those that the forwarding functions declare, and both sides
/// use that convention.
pub proof fn lemma_round_trip(
    def_args: Seq<char>,
    decl: TraitDeclModel,
    crate_name: Seq<char>,
    crate_version: Seq<char>,
    impl_args: Seq<char>,
    block: ImplBlockModel,
)
    requires
        def_extern_trait_spec(def_args, decl, crate_name, crate_version) is Ok,
        impl_extern_trait_spec(impl_args, block) is Ok,
        prefix_version_text(crate_version) matches Some(channel) && impl_config(impl_args)
            matches Ok(cfg) && cfg.name == identity_text(crate_name, channel),
        impl_config(impl_args)->Ok_0.abi == def_config(def_args)->Ok_0.abi,
        method_names(block.items).to_set() == method_names(decl.items).to_set(),
    ensures
        ({
            let o = def_extern_trait_spec(def_args, decl, crate_name, crate_version)->Ok_0;
            let b = impl_extern_trait_spec(impl_args, block)->Ok_0;
            let abi = def_config(def_args)->Ok_0.abi;
            &&& symbols(b.fns).to_set() == symbols(o.fns).to_set()
            &&& forall|i: int| 0 <= i < b.fns.len() ==> (#[trigger] b.fns[i]).abi == abi
            &&& forall|i: int| 0 <= i < o.fns.len() ==> (#[trigger] o.fns[i]).abi == abi
        }),
{
    let channel = prefix_version_text(crate_version)->Some_0;
    let unit = normalized(identity_text(crate_name, channel));
    lemma_all_methods(decl.items);
    lemma_all_methods(block.items);
    lemma_same_names_same_symbols(
        block.items,
        decl.items,
        unit,
        impl_config(impl_args)->Ok_0.abi,
        def_config(def_args)->Ok_0.abi,
    );
}

/// Within one unit a symbol stands for one method name only.
pub proof fn lemma_symbol_names_method(unit: Seq<char>, a: Seq<char>, b: Seq<char>)
    requires
        symbol_text(unit, a) == symbol_text(unit, b),
    ensures
        a == b,
{
    let sa = symbol_text(unit, a);
    let sb = symbol_text(unit, b);
    let k = "__"@.len() + unit.len() + "_"@.len();
    assert(sa.len() == k + a.len());
    assert(sb.len() == k + b.len());
    assert forall|i: int| 0 <= i < a.len() implies a[i] == b[i] by {
        assert(sa[k + i] == a[i]);
        assert(sb[k + i] == b[i]);
    }
    assert(a =~= b);
}

/// Calls resolve to the expected implementation. Under the conditions of
/// the round trip every forwarding function finds an exported function with
/// its symbol and its calling convention, and whatever is exported under the
/// symbol of a forwarding function implements the method of that name.
pub proof fn lemma_calls_resolve(
    def_args: Seq<char>,
    decl: TraitDeclModel,
    crate_name: Seq<char>,
    crate_version: Seq<char>,
    impl_args: Seq<char>,
    block: ImplBlockModel,
)
    requires
        def_extern_trait_spec(def_args, decl, crate_name, crate_version) is Ok,
        impl_extern_trait_spec(impl_args, block) is Ok,
        prefix_version_text(crate_version) matches Some(channel) && impl_config(impl_args)
            matches Ok(cfg) && cfg.name == identity_text(crate_name, channel),
        impl_config(impl_args)->Ok_0.abi == def_config(def_args)->Ok_0.abi,
        method_names(block.items).to_set() == method_names(decl.items).to_set(),
    ensures
        ({
            let o = def_extern_trait_spec(def_args, decl, crate_name, crate_version)->Ok_0;
            let b = impl_extern_trait_spec(impl_args, block)->Ok_0;
            &&& forall|i: int|
                0 <= i < o.fns.len() ==> exists|j: int|
                    0 <= j < b.fns.len() && b.fns[j].symbol == (#[trigger] o.fns[i]).symbol
                        && b.fns[j].abi == o.fns[i].abi && b.fns[j].sig.name == o.fns[i].sig.name
            &&& forall|i: int, j: int|
                0 <= i < o.fns.len() && 0 <= j < b.fns.len() && (#[trigger] b.fns[j]).symbol == (
                #[trigger] o.fns[i]).symbol ==> b.fns[j].sig.name == o.fns[i].sig.name
        }),
{
    let channel = prefix_version_text(crate_version)->Some_0;
    let unit = normalized(identity_text(crate_name, channel));
    let o = def_extern_trait_spec(def_args, decl, crate_name, crate_version)->Ok_0;
    let b = impl_extern_trait_spec(impl_args, block)->Ok_0;
    lemma_all_methods(decl.items);
    lemma_all_methods(block.items);
    lemma_method_names(decl.items);
    lemma_method_names(block.items);
    assert forall|i: int| 0 <= i < o.fns.len() implies exists|j: int|
        0 <= j < b.fns.len() && b.fns[j].symbol == (#[trigger] o.fns[i]).symbol && b.fns[j].abi
            == o.fns[i].abi && b.fns[j].sig.name == o.fns[i].sig.name by {
        let name = method_names(decl.items)[i];
        assert(method_names(decl.items).contains(name));
        assert(method_names(decl.items).to_set().contains(name));
        assert(method_names(block.items).to_set().contains(name));
        assert(method_names(block.items).contains(name));
        let j = choose|j: int|
            0 <= j < method_names(block.items).len() && method_names(block.items)[j] == name;
        assert(b.fns[j].sig.name == name);
    }
    assert forall|i: int, j: int|
        0 <= i < o.fns.len() && 0 <= j < b.fns.len() && (#[trigger] b.fns[j]).symbol == (
        #[trigger] o.fns[i]).symbol implies b.fns[j].sig.name == o.fns[i].sig.name by {
        lemma_symbol_names_method(unit, b.fns[j].sig.name, o.fns[i].sig.name);
    }
}

/// A declaration that holds anything but methods is turned down: where the
/// options and the version are in order, the interface generator fails with
/// the message of the shape error, at the first item that is no method, and
/// emits nothing.
pub proof fn lemma_non_method_rejected(
    args: Seq<char>,
    decl: TraitDeclModel,
    crate_name: Seq<char>,
    crate_version: Seq<char>,
    i: int,
)
    requires
        def_config(args) is Ok,
        prefix_version_text(crate_version) is Some,
        0 <= i < decl.items.len() <= usize::MAX,
        decl.items[i] is Other,
    ensures
        def_extern_trait_spec(args, decl, crate_name, crate_version) matches Err(e) && (
        e matches GenError::NotAFunction { index } && index <= i
            && decl.items[index as int] is Other && forall|j: int|
            0 <= j < index ==> decl.items[j] is Fn) && error_text(e)
            == "Only function items are allowed in extern traits"@,
{
    lemma_all_methods(decl.items);
}

/// The same holds of the binder and an implementation block.
pub proof fn lemma_non_method_rejected_by_binder(args: Seq<char>, block: ImplBlockModel, i: int)
    requires
        impl_config(args) is Ok,
        0 <= i < block.items.len() <= usize::MAX,
        block.items[i] is Other,
    ensures
        impl_extern_trait_spec(args, block) matches Err(e) && (e matches GenError::NotAFunction {
            index,
        } && index <= i && block.items[index as int] is Other && forall|j: int|
            0 <= j < index ==> block.items[j] is Fn) && error_text(e)
            == "Only function items are allowed in extern traits"@,
{
    lemma_all_methods(block.items);
}

/// An `abi` that names neither `"c"` nor `"rust"` is turned down by both
/// generators with the message of the invalid calling convention. This is
/// stated of the options that are read to their end: an entry that is
/// itself turned down is reported first.
pub proof fn lemma_invalid_abi_rejected(
    args: Seq<char>,
    binder: bool,
    decl: TraitDeclModel,
    crate_name: Seq<char>,
    crate_version: Seq<char>,
    block: ImplBlockModel,
)
    requires
        read_parts(no_args(), split(args, ','), binder) matches Ok(raw) && raw.abi matches Some(v)
            && v != "c"@ && v != "rust"@,
    ensures
        !binder ==> def_config(args) == Err::<DefConfigModel, _>(ConfigError::InvalidAbi),
        !binder ==> def_extern_trait_spec(args, decl, crate_name, crate_version) == Err::<
            InterfaceOutputModel,
            _,
        >(GenError::Config(ConfigError::InvalidAbi)),
        binder ==> impl_config(args) == Err::<ImplConfigModel, _>(ConfigError::InvalidAbi),
        binder ==> impl_extern_trait_spec(args, block) == Err::<BinderOutputModel, _>(
            GenError::Config(ConfigError::InvalidAbi),
        ),
        error_text(GenError::Config(ConfigError::InvalidAbi))
            == "Invalid abi parameter. Supported values: \"c\", \"rust\""@,
{
}

/// The same, stated of the text of the options: the one option `abi` with
/// a value other than `"c"` and `"rust"` fails both generators with the
/// message of the invalid calling convention. This holds of every value
/// without a comma.
pub proof fn lemma_invalid_abi_alone(
    v: Seq<char>,
    decl: TraitDeclModel,
    crate_name: Seq<char>,
    crate_version: Seq<char>,
    block: ImplBlockModel,
)
    requires
        v != "c"@,
        v != "rust"@,
        forall|i: int| 0 <= i < v.len() ==> v[i] != ',',
    ensures
        ({
            let args = "abi"@ + seq![' ', '=', ' ', '"'] + v + seq!['"'];
            &&& def_config(args) == Err::<DefConfigModel, _>(ConfigError::InvalidAbi)
            &&& impl_config(args) == Err::<ImplConfigModel, _>(ConfigError::InvalidAbi)
            &&& def_extern_trait_spec(args, decl, crate_name, crate_version) == Err::<
                InterfaceOutputModel,
                _,
            >(GenError::Config(ConfigError::InvalidAbi))
            &&& impl_extern_trait_spec(args, block) == Err::<BinderOutputModel, _>(
                GenError::Config(ConfigError::InvalidAbi),
            )
        }),
{
    reveal_strlit("abi");
    let args = "abi"@ + seq![' ', '=', ' ', '"'] + v + seq!['"'];
    lemma_entry("abi"@, v);
    assert(first_index(args, ',') == args.len()) by {
        lemma_first_index(args, ',', args.len() as int);
    }
    assert(split(args, ',') == seq![args]);
    let raw = RawArgs { abi: Some(v), ..no_args() };
    assert(seq![args].drop_first() =~= Seq::<Seq<char>>::empty());
    assert(read_part(no_args(), args, false) == Ok::<_, ConfigError>(raw));
    assert(read_part(no_args(), args, true) == Ok::<_, ConfigError>(raw));
    assert(read_parts(raw, Seq::<Seq<char>>::empty(), false) == Ok::<_, ConfigError>(raw));
    assert(read_parts(raw, Seq::<Seq<char>>::empty(), true) == Ok::<_, ConfigError>(raw));
    assert(read_parts(no_args(), seq![args], false) == Ok::<_, ConfigError>(raw));
    assert(read_parts(no_args(), seq![args], true) == Ok::<_, ConfigError>(raw));
}

/// Without options the binder misses the unit identity, and says so.
pub proof fn lemma_no_name()
    ensures
        impl_config(Seq::empty()) == Err::<ImplConfigModel, _>(ConfigError::MissingName),
        ConfigError::MissingName.text()
            == "Missing name parameter. Usage: #[impl_extern_trait(name=\"crate_name\", abi=\"c\")]"@,
{
    let none = Seq::<char>::empty();
    assert(split(none, ',') =~= seq![none]);
    assert(trim(none) =~= none);
    assert(seq![none].drop_first() =~= Seq::<Seq<char>>::empty());
    assert(read_part(no_args(), none, true) == Ok::<_, ConfigError>(no_args()));
    assert(read_parts(no_args(), seq![none], true) == Ok::<_, ConfigError>(no_args())) by {
        reveal_with_fuel(read_parts, 2);
    }
}

/// A symbol is a plain identifier. Whatever the unit identity holds, its
/// normalized form holds nothing but ASCII letters, digits and underscores,
/// and so does the symbol of every method whose name holds nothing else.
pub proof fn lemma_symbol_is_plain(identity: Seq<char>, fn_name: Seq<char>)
    requires
        forall|i: int| 0 <= i < fn_name.len() ==> is_name_char(fn_name[i]),
    ensures
        forall|i: int|
            0 <= i < normalized(identity).len() ==> is_name_char(normalized(identity)[i]),
        forall|i: int|
            0 <= i < symbol_text(normalized(identity), fn_name).len() ==> is_name_char(
                symbol_text(normalized(identity), fn_name)[i],
            ),
{
    reveal_strlit("__");
    reveal_strlit("_");
    let unit = normalized(identity);
    assert forall|i: int| 0 <= i < unit.len() implies is_name_char(unit[i]) by {}
    let symbol = symbol_text(unit, fn_name);
    assert forall|i: int| 0 <= i < symbol.len() implies is_name_char(symbol[i]) by {
        if i < 2 {
            assert(symbol[i] == '_');
        } else if i < 2 + unit.len() {
            assert(symbol[i] == unit[i - 2]);
        } else if i == 2 + unit.len() {
            assert(symbol[i] == '_');
        } else {
            assert(symbol[i] == fn_name[i - 3 - unit.len()]);
        }
    }
}

/// Without options the interface generator takes its defaults: the native
/// calling convention, the helper emitted, no module path.
pub proof fn lemma_no_options()
    ensures
        def_config(Seq::empty()) == Ok::<_, ConfigError>(
            DefConfigModel { abi: Abi::Rust, emit_binder_helper: true, mod_path: None },
        ),
{
    let none = Seq::<char>::empty();
    assert(split(none, ',') =~= seq![none]);
    assert(trim(none) =~= none);
    assert(seq![none].drop_first() =~= Seq::<Seq<char>>::empty());
    assert(read_part(no_args(), none, false) == Ok::<_, ConfigError>(no_args()));
    assert(read_parts(no_args(), seq![none], false) == Ok::<_, ConfigError>(no_args())) by {
        reveal_with_fuel(read_parts, 2);
    }
}

/// The helper is emitted exactly where the options ask for it, and the
/// namespace of forwarding functions does not depend on whether it is. Of
/// two runs on the same declaration whose options agree on the calling
/// convention, the one that suppresses the helper succeeds where the other
/// does, emits no helper, and emits the same forwarding functions in the
/// same namespace.
pub proof fn lemma_helper_suppressed(
    with: Seq<char>,
    without: Seq<char>,
    decl: TraitDeclModel,
    crate_name: Seq<char>,
    crate_version: Seq<char>,
)
    requires
        def_config(with) matches Ok(a) && def_config(without) matches Ok(b) && a.abi == b.abi
            && !b.emit_binder_helper,
        def_extern_trait_spec(with, decl, crate_name, crate_version) is Ok,
    ensures
        ({
            let full = def_extern_trait_spec(with, decl, crate_name, crate_version)->Ok_0;
            &&& def_extern_trait_spec(without, decl, crate_name, crate_version) matches Ok(o)
            &&& o.helper is None
            &&& o.fns == full.fns
            &&& namespace_text(o) == namespace_text(full)
            &&& full.helper is Some <==> def_config(with)->Ok_0.emit_binder_helper
        }),
{
}

/// The flag `not_def_impl` is never taken back: once an entry has set it, it
/// stays set to the end of the options.
pub proof fn lemma_flag_stays(raw: RawArgs, parts: Seq<Seq<char>>)
    requires
        raw.not_def_impl,
        read_parts(raw, parts, false) is Ok,
    ensures
        read_parts(raw, parts, false)->Ok_0.not_def_impl,
    decreases parts.len(),
{
    if parts.len() > 0 {
        lemma_flag_stays(read_part(raw, parts[0], false)->Ok_0, parts.drop_first());
    }
}

/// An entry `not_def_impl` sets the flag, wherever it stands.
pub proof fn lemma_flag_read(raw: RawArgs, parts: Seq<Seq<char>>, i: int)
    requires
        0 <= i < parts.len(),
        trim(parts[i]) == "not_def_impl"@,
        read_parts(raw, parts, false) is Ok,
    ensures
        read_parts(raw, parts, false)->Ok_0.not_def_impl,
    decreases parts.len(),
{
    let next = read_part(raw, parts[0], false)->Ok_0;
    if i == 0 {
        reveal_strlit("abi");
        reveal_strlit("mod_path");
        reveal_strlit("not_def_impl");
        let entry = trim(parts[0]);
        assert(first_index(entry, '=') == entry.len()) by {
            lemma_first_index(entry, '=', entry.len() as int);
        }
        assert(entry.take(entry.len() as int) =~= entry);
        assert(!is_space(entry[0]) && !is_space(entry.last()));
        assert(entry_key(entry) == entry);
        assert(next.not_def_impl);
        lemma_flag_stays(next, parts.drop_first());
    } else {
        assert(parts.drop_first()[i - 1] == parts[i]);
        lemma_flag_read(next, parts.drop_first(), i - 1);
    }
}

/// Options that hold the flag `not_def_impl` suppress the helper: where the
/// interface generator succeeds on them, it emits none.
pub proof fn lemma_not_def_impl(
    args: Seq<char>,
    decl: TraitDeclModel,
    crate_name: Seq<char>,
    crate_version: Seq<char>,
    i: int,
)
    requires
        0 <= i < split(args, ',').len(),
        trim(split(args, ',')[i]) == "not_def_impl"@,
        def_extern_trait_spec(args, decl, crate_name, crate_version) is Ok,
    ensures
        def_extern_trait_spec(args, decl, crate_name, crate_version)->Ok_0.helper is None,
{
    lemma_flag_read(no_args(), split(args, ','), i);
}

/// Unsafety and generic parameters cross the boundary unchanged. Where the
/// interface generator succeeds, it emits one forwarding function for each
/// method, in order, and each carries the signature of its method as it was
/// declared: its attributes, whether it is unsafe, its generic parameters,
/// its parameters and its return type.
pub proof fn lemma_forwarding_keeps_signature(
    args: Seq<char>,
    decl: TraitDeclModel,
    crate_name: Seq<char>,
    crate_version: Seq<char>,
    i: int,
)
    requires
        def_extern_trait_spec(args, decl, crate_name, crate_version) is Ok,
        0 <= i < decl.items.len(),
    ensures
        ({
            let o = def_extern_trait_spec(args, decl, crate_name, crate_version)->Ok_0;
            &&& o.fns.len() == decl.items.len()
            &&& decl.items[i] matches ItemModel::Fn(sig)
            &&& o.fns[i].sig == sig
            &&& o.fns[i].sig.unsafety == sig.unsafety
            &&& o.fns[i].sig.generics == sig.generics
        }),
{
    lemma_all_methods(decl.items);
}

/// The same holds of the binder: where it succeeds, it emits one exported
/// function for each method of the block, in order, with the signature of
/// the method as it was written.
pub proof fn lemma_export_keeps_signature(args: Seq<char>, block: ImplBlockModel, i: int)
    requires
        impl_extern_trait_spec(args, block) is Ok,
        0 <= i < block.items.len(),
    ensures
        ({
            let o = impl_extern_trait_spec(args, block)->Ok_0;
            &&& o.fns.len() == block.items.len()
            &&& block.items[i] matches ItemModel::Fn(sig)
            &&& o.fns[i].sig == sig
            &&& o.fns[i].sig.unsafety == sig.unsafety
            &&& o.fns[i].sig.generics == sig.generics
        }),
{
    lemma_all_methods(block.items);
}

/// A text between double quotes, after a key, an equals sign and single
/// spaces, is an entry with that key and that text as its value. This holds
/// of the keys that hold neither white space nor an equals sign.
pub proof fn lemma_entry(key: Seq<char>, value: Seq<char>)
    requires
        key.len() > 0,
        forall|j: int| 0 <= j < key.len() ==> !is_space(key[j]) && key[j] != '=',
    ensures
        ({
            let entry = key + seq![' ', '=', ' ', '"'] + value + seq!['"'];
            &&& trim(entry) == entry
            &&& entry_key(entry) == key
            &&& entry_text(entry) == Some(value)
        }),
{
    let k = key.len() as int;
    let n = value.len() as int;
    let entry = key + seq![' ', '=', ' ', '"'] + value + seq!['"'];
    assert(!is_space(entry[0]) && !is_space(entry.last()));
    assert(first_index(entry, '=') == k + 1) by {
        lemma_first_index(entry, '=', k + 1);
    }
    let before = entry.take(k + 1);
    assert(before =~= key.push(' '));
    assert(before.drop_last() =~= key);
    assert(!is_space(before[0]) && !is_space(key.last()));
    assert(trim_end(key) == key);
    assert(trim_end(before) == key);
    let after = entry.skip(k + 2);
    let text = seq!['"'] + value + seq!['"'];
    assert(after.drop_first() =~= text);
    assert(is_space(after[0]));
    assert(!is_space(text[0]) && !is_space(text.last()));
    assert(trim_start(text) == text);
    assert(trim_start(after) == text);
    assert(trim_end(text) == text);
    assert(text.subrange(1, text.len() - 1) =~= value);
}

/// The options that the helper hands to the binder are read back as they
/// were put in: the binder resolves them to the identity and the calling
/// convention of the helper. This holds of every identity without a comma.
pub proof fn lemma_helper_options(t: BinderTemplateModel)
    requires
        forall|i: int| 0 <= i < t.name.len() ==> t.name[i] != ',',
    ensures
        impl_config(template_args_text(t)) == Ok::<_, ConfigError>(
            ImplConfigModel { name: t.name, abi: t.abi },
        ),
{
    reveal_strlit("name = \"");
    reveal_strlit("\", abi = \"");
    reveal_strlit("\"");
    reveal_strlit("abi");
    reveal_strlit("name");
    reveal_strlit("rust");
    reveal_strlit("c");
    let n = t.name.len() as int;
    let o = t.abi.option_text();
    let args = template_args_text(t);
    let first = "name"@ + seq![' ', '=', ' ', '"'] + t.name + seq!['"'];
    let second = "abi"@ + seq![' ', '=', ' ', '"'] + o + seq!['"'];
    let rest = seq![' '] + second;
    assert(args =~= first + seq![','] + rest);
    // The one comma parts the two entries.
    assert(first_index(args, ',') == 9 + n) by {
        lemma_first_index(args, ',', 9 + n);
    }
    assert(args.take(9 + n) =~= first);
    assert(args.skip(10 + n) =~= rest);
    assert(first_index(rest, ',') == rest.len()) by {
        lemma_first_index(rest, ',', rest.len() as int);
    }
    assert(split(rest, ',') == seq![rest]);
    assert(split(args, ',') =~= seq![first, rest]);
    // The first entry names the identity, the second the calling convention.
    lemma_entry("name"@, t.name);
    lemma_entry("abi"@, o);
    assert(rest.drop_first() =~= second);
    assert(is_space(rest[0]));
    assert(!is_space(second[0]));
    assert(trim_start(second) == second);
    assert(trim_start(rest) == second);
    assert(trim(rest) == second);
    let raw1 = RawArgs { name: Some(t.name), ..no_args() };
    let raw2 = RawArgs { abi: Some(o), ..raw1 };
    assert("name"@ != "abi"@) by {
        assert("name"@.len() != "abi"@.len());
    }
    assert(read_part(no_args(), first, true) == Ok::<_, ConfigError>(raw1));
    assert(read_part(raw1, rest, true) == Ok::<_, ConfigError>(raw2));
    let parts = seq![first, rest];
    assert(parts.drop_first() =~= seq![rest]);
    assert(seq![rest].drop_first() =~= Seq::<Seq<char>>::empty());
    assert(read_parts(raw2, Seq::<Seq<char>>::empty(), true) == Ok::<_, ConfigError>(raw2));
    assert(read_parts(raw1, seq![rest], true) == Ok::<_, ConfigError>(raw2));
    assert(read_parts(no_args(), parts, true) == Ok::<_, ConfigError>(raw2));
    assert("rust"@ != "c"@) by {
        assert("rust"@.len() != "c"@.len());
    }
}

/// A number in decimal holds digits only, and so no comma.
pub proof fn lemma_decimal_plain(n: nat)
    ensures
        forall|i: int| 0 <= i < decimal(n).len() ==> decimal(n)[i] != ',',
    decreases n,
{
    if n >= 10 {
        lemma_decimal_plain(n / 10);
    }
    assert forall|i: int| 0 <= i < decimal(n).len() implies decimal(n)[i] != ',' by {
        if n >= 10 && i < decimal(n / 10).len() {
            assert(decimal(n)[i] == decimal(n / 10)[i]);
        } else {
            assert(decimal(n)[i] == digit(n % 10));
        }
    }
}

/// The helper closes the round trip. Where the interface generator emits
/// the helper, the options that the helper hands to the binder resolve to
/// the identity under which the symbols were derived and to the calling
/// convention of the forwarding functions. The binder then exports, for a
/// block with the methods of the declaration, under that convention and
/// under the symbols that the forwarding functions declare. This holds of
/// every unit whose name has no comma.
pub proof fn lemma_helper_round_trip(
    def_args: Seq<char>,
    decl: TraitDeclModel,
    crate_name: Seq<char>,
    crate_version: Seq<char>,
    block: ImplBlockModel,
)
    requires
        forall|i: int| 0 <= i < crate_name.len() ==> crate_name[i] != ',',
        def_extern_trait_spec(def_args, decl, crate_name, crate_version) matches Ok(o)
            && o.helper is Some,
        first_other(block.items) == block.items.len(),
        method_names(block.items).to_set() == method_names(decl.items).to_set(),
    ensures
        ({
            let o = def_extern_trait_spec(def_args, decl, crate_name, crate_version)->Ok_0;
            let t = o.helper->Some_0;
            &&& impl_extern_trait_spec(template_args_text(t), block) matches Ok(b)
            &&& symbols(b.fns).to_set() == symbols(o.fns).to_set()
            &&& forall|i: int| 0 <= i < b.fns.len() ==> (#[trigger] b.fns[i]).abi == t.abi
            &&& forall|i: int| 0 <= i < o.fns.len() ==> (#[trigger] o.fns[i]).abi == t.abi
        }),
{
    let (major, minor) = lenient_version(crate_version)->Some_0;
    let channel = channel_text(major, minor);
    let o = def_extern_trait_spec(def_args, decl, crate_name, crate_version)->Ok_0;
    let t = o.helper->Some_0;
    assert(t.name == identity_text(crate_name, channel));
    assert forall|i: int| 0 <= i < t.name.len() implies t.name[i] != ',' by {
        reveal_strlit("_");
        reveal_strlit("0_");
        lemma_decimal_plain(minor as nat);
        lemma_decimal_plain(major as nat);
    }
    lemma_helper_options(t);
    let unit = normalized(t.name);
    let abi = def_config(def_args)->Ok_0.abi;
    lemma_all_methods(decl.items);
    lemma_all_methods(block.items);
    lemma_same_names_same_symbols(block.items, decl.items, unit, abi, abi);
}

} // verus!

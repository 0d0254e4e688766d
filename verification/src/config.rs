//! The options of the two generators, as written between the brackets of the
//! attribute: `key = "value"` entries and bare flags, separated by commas.

use crate::text::{
    chars_of, find_first, first_index, pieces, quoted, quoted_in, ranges_in, split, split_ranges,
    str_is, text_is, trim, trim_range,
};
use vstd::prelude::*;
use vstd::string::*;

verus! {

/// The calling convention of the functions that cross the boundary.
#[derive(Clone, Copy, Debug, PartialEq, Eq, Structural)]
pub enum Abi {
    /// The native convention, `abi = "rust"`.
    Rust,
    /// The platform's C convention, `abi = "c"`.
    C,
}

/// Why a list of options was turned down.
#[derive(Clone, Copy, Debug, PartialEq, Eq, Structural)]
pub enum ConfigError {
    /// `abi` names something other than `"c"` or `"rust"`.
    InvalidAbi,
    /// The binder was not told the unit identity.
    MissingName,
    /// A key is not followed by an equals sign and one text between double
    /// quotes, or the flag is followed by an equals sign.
    MalformedValue,
    /// An entry begins with no key that the generator knows.
    UnknownKey,
}

/// The resolved options of the interface generator.
#[derive(Clone, Debug, PartialEq, Eq)]
pub struct DefConfig {
    pub abi: Abi,
    pub emit_binder_helper: bool,
    pub mod_path: Option<String>,
}

/// The resolved options of the binder.
#[derive(Clone, Debug, PartialEq, Eq)]
pub struct ImplConfig {
    pub name: String,
    pub abi: Abi,
}

/// What a `DefConfig` stands for.
pub struct DefConfigModel {
    pub abi: Abi,
    pub emit_binder_helper: bool,
    pub mod_path: Option<Seq<char>>,
}

/// What an `ImplConfig` stands for.
pub struct ImplConfigModel {
    pub name: Seq<char>,
    pub abi: Abi,
}

impl DeepView for DefConfig {
    type V = DefConfigModel;

    open spec fn deep_view(&self) -> DefConfigModel {
        DefConfigModel {
            abi: self.abi,
            emit_binder_helper: self.emit_binder_helper,
            mod_path: self.mod_path.deep_view(),
        }
    }
}

impl DeepView for ImplConfig {
    type V = ImplConfigModel;

    open spec fn deep_view(&self) -> ImplConfigModel {
        ImplConfigModel { name: self.name@, abi: self.abi }
    }
}

/// The values read so far from a list of options.
pub struct RawArgs {
    pub abi: Option<Seq<char>>,
    pub mod_path: Option<Seq<char>>,
    pub name: Option<Seq<char>>,
    pub not_def_impl: bool,
}

/// A result agrees with a specified one: the same error, or a value that
/// stands for the specified one.
pub open spec fn yields<T: DeepView, E>(r: Result<T, E>, m: Result<T::V, E>) -> bool {
    match m {
        Ok(v) => r matches Ok(x) && x.deep_view() == v,
        Err(e) => r matches Err(x) && x == e,
    }
}

/// Nothing read yet.
pub open spec fn no_args() -> RawArgs {
    RawArgs { abi: None, mod_path: None, name: None, not_def_impl: false }
}

/// The key of an entry: what stands before its first equals sign, or the
/// whole entry where it has none, without the white space around it.
pub open spec fn entry_key(entry: Seq<char>) -> Seq<char> {
    trim(entry.take(first_index(entry, '=')))
}

/// What follows the first equals sign of an entry, without the white space
/// around it. An entry without an equals sign has no such part.
pub open spec fn entry_value(entry: Seq<char>) -> Option<Seq<char>> {
    let i = first_index(entry, '=');
    if i < entry.len() {
        Some(trim(entry.skip(i + 1)))
    } else {
        None
    }
}

/// The value of an entry: the text between the double quotes that follow
/// its equals sign. An entry has none where it has no equals sign, or where
/// something other than one text between double quotes follows the sign.
pub open spec fn entry_text(entry: Seq<char>) -> Option<Seq<char>> {
    match entry_value(entry) {
        Some(v) => quoted(v),
        None => None,
    }
}

/// One entry of the list is read into `raw`. An entry is taken without the
/// white space around it, and a blank entry is passed over. Each generator
/// knows its own keys: both know `abi`, the binder knows `name`, the
/// interface generator knows `mod_path` and the flag `not_def_impl`. A key
/// takes a value between double quotes, the flag takes none.
pub open spec fn read_part(raw: RawArgs, part: Seq<char>, binder: bool) -> Result<
    RawArgs,
    ConfigError,
> {
    let entry = trim(part);
    let key = entry_key(entry);
    if entry.len() == 0 {
        Ok(raw)
    } else if key == "abi"@ {
        match entry_text(entry) {
            Some(v) => Ok(RawArgs { abi: Some(v), ..raw }),
            None => Err(ConfigError::MalformedValue),
        }
    } else if binder && key == "name"@ {
        match entry_text(entry) {
            Some(v) => Ok(RawArgs { name: Some(v), ..raw }),
            None => Err(ConfigError::MalformedValue),
        }
    } else if !binder && key == "mod_path"@ {
        match entry_text(entry) {
            Some(v) => Ok(RawArgs { mod_path: Some(v), ..raw }),
            None => Err(ConfigError::MalformedValue),
        }
    } else if !binder && key == "not_def_impl"@ {
        match entry_value(entry) {
            None => Ok(RawArgs { not_def_impl: true, ..raw }),
            Some(_) => Err(ConfigError::MalformedValue),
        }
    } else {
        Err(ConfigError::UnknownKey)
    }
}

/// The entries are read from left to right, up to the first that is turned
/// down. A key that comes twice keeps its later value.
pub open spec fn read_parts(raw: RawArgs, parts: Seq<Seq<char>>, binder: bool) -> Result<
    RawArgs,
    ConfigError,
>
    decreases parts.len(),
{
    if parts.len() == 0 {
        Ok(raw)
    } else {
        match read_part(raw, parts[0], binder) {
            Ok(next) => read_parts(next, parts.drop_first(), binder),
            Err(e) => Err(e),
        }
    }
}

/// The calling convention that the value of `abi` names, or `default` where
/// the key was not given.
pub open spec fn abi_of(value: Option<Seq<char>>, default: Abi) -> Result<Abi, ConfigError> {
    match value {
        None => Ok(default),
        Some(t) => if t == "c"@ {
            Ok(Abi::C)
        } else if t == "rust"@ {
            Ok(Abi::Rust)
        } else {
            Err(ConfigError::InvalidAbi)
        },
    }
}

/// What the options `args` of the interface generator resolve to. Without
/// options: the native convention, the helper emitted, no module path.
pub open spec fn def_config(args: Seq<char>) -> Result<DefConfigModel, ConfigError> {
    match read_parts(no_args(), split(args, ','), false) {
        Err(e) => Err(e),
        Ok(raw) => match abi_of(raw.abi, Abi::Rust) {
            Err(e) => Err(e),
            Ok(abi) => Ok(
                DefConfigModel {
                    abi,
                    emit_binder_helper: !raw.not_def_impl,
                    mod_path: raw.mod_path,
                },
            ),
        },
    }
}

/// What the options `args` of the binder resolve to. The unit identity is
/// required, also where no option is given at all; the convention is C
/// unless `abi` says otherwise. An invalid `abi` is reported before a
/// missing `name`.
pub open spec fn impl_config(args: Seq<char>) -> Result<ImplConfigModel, ConfigError> {
    match read_parts(no_args(), split(args, ','), true) {
        Err(e) => Err(e),
        Ok(raw) => match abi_of(raw.abi, Abi::C) {
            Err(e) => Err(e),
            Ok(abi) => match raw.name {
                None => Err(ConfigError::MissingName),
                Some(name) => Ok(ImplConfigModel { name, abi }),
            },
        },
    }
}

impl Abi {
    /// The value of the option `abi` that selects this convention.
    pub open spec fn option_text(self) -> Seq<char> {
        match self {
            Abi::Rust => "rust"@,
            Abi::C => "c"@,
        }
    }

    /// The name of this convention in a declaration.
    pub open spec fn keyword_text(self) -> Seq<char> {
        match self {
            Abi::Rust => "Rust"@,
            Abi::C => "C"@,
        }
    }

    /// The value of the option `abi` that selects this convention.
    pub fn option(&self) -> (r: &'static str)
        ensures
            r@ == self.option_text(),
    {
        match self {
            Abi::Rust => "rust",
            Abi::C => "c",
        }
    }

    /// The name of this convention in a declaration.
    pub fn keyword(&self) -> (r: &'static str)
        ensures
            r@ == self.keyword_text(),
    {
        match self {
            Abi::Rust => "Rust",
            Abi::C => "C",
        }
    }
}

impl ConfigError {
    /// The message that reports this error.
    pub open spec fn text(self) -> Seq<char> {
        match self {
            ConfigError::InvalidAbi => "Invalid abi parameter. Supported values: \"c\", \"rust\""@,
            ConfigError::MissingName =>
                "Missing name parameter. Usage: #[impl_extern_trait(name=\"crate_name\", abi=\"c\")]"@,
            ConfigError::MalformedValue =>
                "Malformed parameter. A key takes one value between double quotes, a flag takes none"@,
            ConfigError::UnknownKey => "Unknown parameter"@,
        }
    }

    /// The message that reports this error.
    pub fn message(&self) -> (r: String)
        ensures
            r@ == self.text(),
    {
        match self {
            ConfigError::InvalidAbi => String::from_str(
                "Invalid abi parameter. Supported values: \"c\", \"rust\"",
            ),
            ConfigError::MissingName => String::from_str(
                "Missing name parameter. Usage: #[impl_extern_trait(name=\"crate_name\", abi=\"c\")]",
            ),
            ConfigError::MalformedValue => String::from_str(
                "Malformed parameter. A key takes one value between double quotes, a flag takes none",
            ),
            ConfigError::UnknownKey => String::from_str("Unknown parameter"),
        }
    }
}

/// The values read so far, as the parser holds them.
struct Scanned {
    abi: Option<String>,
    mod_path: Option<String>,
    name: Option<String>,
    not_def_impl: bool,
}

impl DeepView for Scanned {
    type V = RawArgs;

    closed spec fn deep_view(&self) -> RawArgs {
        RawArgs {
            abi: self.abi.deep_view(),
            mod_path: self.mod_path.deep_view(),
            name: self.name.deep_view(),
            not_def_impl: self.not_def_impl,
        }
    }
}

/// Reads the entry that stands at `lo..hi` of `v` into `acc`.
fn scan_part(acc: Scanned, v: &Vec<char>, lo: usize, hi: usize, binder: bool) -> (r: Result<
    Scanned,
    ConfigError,
>)
    requires
        lo <= hi <= v.len(),
    ensures
        yields(r, read_part(acc.deep_view(), v@.subrange(lo as int, hi as int), binder)),
{
    let mut acc = acc;
    let (a, b) = trim_range(v, lo, hi);
    if a == b {
        return Ok(acc);
    }
    let eq = find_first(v, a, b, '=');
    let (ka, kb) = trim_range(v, a, eq);
    let ghost entry = v@.subrange(a as int, b as int);
    assert(entry.take(eq - a) =~= v@.subrange(a as int, eq as int));
    let value = if eq < b {
        let (va, vb) = trim_range(v, eq + 1, b);
        assert(entry.skip(eq - a + 1) =~= v@.subrange(eq + 1, b as int));
        quoted_in(v, va, vb)
    } else {
        None
    };
    if text_is(v, ka, kb, "abi") {
        match value {
            Some(s) => {
                acc.abi = Some(s);
                Ok(acc)
            },
            None => Err(ConfigError::MalformedValue),
        }
    } else if binder && text_is(v, ka, kb, "name") {
        match value {
            Some(s) => {
                acc.name = Some(s);
                Ok(acc)
            },
            None => Err(ConfigError::MalformedValue),
        }
    } else if !binder && text_is(v, ka, kb, "mod_path") {
        match value {
            Some(s) => {
                acc.mod_path = Some(s);
                Ok(acc)
            },
            None => Err(ConfigError::MalformedValue),
        }
    } else if !binder && text_is(v, ka, kb, "not_def_impl") {
        if eq < b {
            Err(ConfigError::MalformedValue)
        } else {
            acc.not_def_impl = true;
            Ok(acc)
        }
    } else {
        Err(ConfigError::UnknownKey)
    }
}

/// Reads all entries of `args`.
fn scan_args(args: &str, binder: bool) -> (r: Result<Scanned, ConfigError>)
    ensures
        yields(r, read_parts(no_args(), split(args@, ','), binder)),
{
    let v = chars_of(args);
    let ranges = split_ranges(&v, ',');
    let ghost parts = split(args@, ',');
    let mut acc = Scanned { abi: None, mod_path: None, name: None, not_def_impl: false };
    let mut i: usize = 0;
    assert(parts.skip(0) =~= parts);
    while i < ranges.len()
        invariant
            i <= ranges.len(),
            v@ == args@,
            parts == split(args@, ','),
            ranges_in(ranges@, v@.len()),
            pieces(v@, ranges@) == parts,
            read_parts(no_args(), parts, binder) == read_parts(
                acc.deep_view(),
                parts.skip(i as int),
                binder,
            ),
        decreases ranges.len() - i,
    {
        let (lo, hi) = ranges[i];
        proof {
            assert(pieces(v@, ranges@)[i as int] == v@.subrange(lo as int, hi as int));
            assert(parts.skip(i as int)[0] == parts[i as int]);
            assert(parts.skip(i as int).drop_first() =~= parts.skip(i + 1));
        }
        match scan_part(acc, &v, lo, hi, binder) {
            Ok(next) => {
                acc = next;
            },
            Err(e) => {
                return Err(e);
            },
        }
        i += 1;
    }
    Ok(acc)
}

/// Resolves the value of `abi`.
fn resolve_abi(value: &Option<String>, default: Abi) -> (r: Result<Abi, ConfigError>)
    ensures
        r == abi_of(value.deep_view(), default),
{
    match value {
        None => Ok(default),
        Some(t) => {
            if str_is(t.as_str(), "c") {
                Ok(Abi::C)
            } else if str_is(t.as_str(), "rust") {
                Ok(Abi::Rust)
            } else {
                Err(ConfigError::InvalidAbi)
            }
        },
    }
}

/// Resolves the options of the interface generator.
pub fn parse_def_extern_trait_args(args: &str) -> (r: Result<DefConfig, ConfigError>)
    ensures
        yields(r, def_config(args@)),
{
    match scan_args(args, false) {
        Err(e) => Err(e),
        Ok(raw) => match resolve_abi(&raw.abi, Abi::Rust) {
            Err(e) => Err(e),
            Ok(abi) => Ok(
                DefConfig { abi, emit_binder_helper: !raw.not_def_impl, mod_path: raw.mod_path },
            ),
        },
    }
}

/// Resolves the options of the binder.
pub fn parse_extern_trait_args(args: &str) -> (r: Result<ImplConfig, ConfigError>)
    ensures
        yields(r, impl_config(args@)),
{
    match scan_args(args, true) {
        Err(e) => Err(e),
        Ok(raw) => match resolve_abi(&raw.abi, Abi::C) {
            Err(e) => Err(e),
            Ok(abi) => match raw.name {
                None => Err(ConfigError::MissingName),
                Some(name) => Ok(ImplConfig { name, abi }),
            },
        },
    }
}

} // verus!

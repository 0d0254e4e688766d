//! The names that both generators derive: the symbol of a method, the unit
//! identity it is prefixed with, and the coarse channel of a version.

use crate::text::{decimal, push_decimal, replace_hyphens, sanitize, sanitized, underscored};
use vstd::prelude::*;
use vstd::string::*;

verus! {

/// The lowercase equivalent of a text, as `str::to_lowercase` gives it.
pub uninterp spec fn lowercase_text(s: Seq<char>) -> Seq<char>;

/// The major and minor number that `lenient_semver::parse` reads from a
/// text, where it reads a version from it at all.
pub uninterp spec fn lenient_version(text: Seq<char>) -> Option<(u64, u64)>;

/// The snake case form of a text, as `convert_case` gives it.
pub uninterp spec fn snake_case_text(s: Seq<char>) -> Seq<char>;

/// Calls `str::to_lowercase`. The result is a function of the text alone; it
/// is known here only by its name, `lowercase_text`.
#[verifier::external_body]
fn to_lowercase(s: &str) -> (r: String)
    ensures
        r@ == lowercase_text(s@),
{
    s.to_lowercase()
}

/// Calls `lenient_semver::parse` and keeps the major and the minor number of
/// the version it returns, or nothing where it returns an error. Which texts
/// it accepts, and with which numbers, is known here only by the name
/// `lenient_version`.
#[verifier::external_body]
fn parse_version(text: &str) -> (r: Option<(u64, u64)>)
    ensures
        r == lenient_version(text@),
{
    match lenient_semver::parse(text) {
        Ok(version) => Some((version.major, version.minor)),
        Err(_) => None,
    }
}

/// Calls `convert_case::Casing::to_case` with `Case::Snake`. The result is a
/// function of the text alone; it is known here only by its name,
/// `snake_case_text`.
#[verifier::external_body]
fn to_snake_case(s: &str) -> (r: String)
    ensures
        r@ == snake_case_text(s@),
{
    convert_case::Casing::to_case(&s, convert_case::Case::Snake)
}

/// The channel of a version: its major number, or `0_` and its minor number
/// while the major number is still zero.
pub open spec fn channel_text(major: u64, minor: u64) -> Seq<char> {
    if major == 0 {
        "0_"@ + decimal(minor as nat)
    } else {
        decimal(major as nat)
    }
}

/// The channel of the version written in `version`, where one is written
/// there.
pub open spec fn prefix_version_text(version: Seq<char>) -> Option<Seq<char>> {
    match lenient_version(version) {
        Some((major, minor)) => Some(channel_text(major, minor)),
        None => None,
    }
}

/// A unit identity in the form that goes into a symbol: in lower case, with
/// an underscore for every separator, that is for every character that
/// cannot stand in a plain identifier.
pub open spec fn normalized(identity: Seq<char>) -> Seq<char> {
    sanitized(lowercase_text(identity))
}

/// The name of a unit: the one that was read, or `unknown` where none was.
pub open spec fn unit_name_text(read: Option<Seq<char>>) -> Seq<char> {
    match read {
        Some(name) => name,
        None => "unknown"@,
    }
}

/// The version of a unit: the one that was read, or `0.1.0` where none was.
pub open spec fn unit_version_text(read: Option<Seq<char>>) -> Seq<char> {
    match read {
        Some(version) => version,
        None => "0.1.0"@,
    }
}

/// The symbol of the method `fn_name` of a unit whose normalized identity is
/// `unit`.
pub open spec fn symbol_text(unit: Seq<char>, fn_name: Seq<char>) -> Seq<char> {
    "__"@ + unit + "_"@ + fn_name
}

/// The identity of a unit in the versioned scheme: its name, an underscore
/// and the channel of its version.
pub open spec fn identity_text(crate_name: Seq<char>, channel: Seq<char>) -> Seq<char> {
    crate_name + "_"@ + channel
}

/// The name of the marker symbol that tells whether the interface
/// `trait_name` of a unit was ever bound to an implementation.
pub open spec fn marker_text(
    trait_name: Seq<char>,
    crate_name: Seq<char>,
    channel: Seq<char>,
) -> Seq<char> {
    "Trait_"@ + trait_name + "_in_crate_"@ + underscored(crate_name) + "_"@ + channel
        + "_need_impl"@
}

/// The name of the unit that is being compiled, from what was read of it.
pub fn unit_name_or_default(read: Option<String>) -> (r: String)
    ensures
        r@ == unit_name_text(read.deep_view()),
{
    match read {
        Some(name) => name,
        None => String::from_str("unknown"),
    }
}

/// The version of the unit that is being compiled, from what was read of it.
pub fn unit_version_or_default(read: Option<String>) -> (r: String)
    ensures
        r@ == unit_version_text(read.deep_view()),
{
    match read {
        Some(version) => version,
        None => String::from_str("0.1.0"),
    }
}

/// The channel of the version `major.minor`.
pub fn version_channel(major: u64, minor: u64) -> (r: String)
    ensures
        r@ == channel_text(major, minor),
{
    let mut r = String::new();
    if major == 0 {
        r.append("0_");
        push_decimal(&mut r, minor);
    } else {
        push_decimal(&mut r, major);
    }
    r
}

/// The channel of the version written in `version`, or nothing where no
/// version can be read from it.
pub fn prefix_version(version: &str) -> (r: Option<String>)
    ensures
        r.deep_view() == prefix_version_text(version@),
{
    match parse_version(version) {
        Some((major, minor)) => Some(version_channel(major, minor)),
        None => None,
    }
}

/// The identity of the unit `crate_name` on the channel `channel`.
pub fn versioned_identity(crate_name: &str, channel: &str) -> (r: String)
    ensures
        r@ == identity_text(crate_name@, channel@),
{
    let mut r = String::from_str(crate_name);
    r.append("_");
    r.append(channel);
    r
}

/// Brings a unit identity into the form that goes into a symbol.
pub fn normalize(identity: &str) -> (r: String)
    ensures
        r@ == normalized(identity@),
{
    let lower = to_lowercase(identity);
    sanitize(lower.as_str())
}

/// The symbol of the method `fn_name` of a unit whose normalized identity is
/// `unit`.
pub fn symbol_for(unit: &str, fn_name: &str) -> (r: String)
    ensures
        r@ == symbol_text(unit@, fn_name@),
{
    let mut r = String::from_str("__");
    r.append(unit);
    r.append("_");
    r.append(fn_name);
    r
}

/// The symbol of the method `fn_name` of the unit `crate_name`. The symbol is
/// a function of the two texts: every call on the same texts gives the same
/// symbol. The identity is normalized, the method name is taken as it is.
pub fn extern_fn_name(crate_name: &str, fn_name: &str) -> (r: String)
    ensures
        r@ == symbol_text(normalized(crate_name@), fn_name@),
{
    let unit = normalize(crate_name);
    symbol_for(unit.as_str(), fn_name)
}

/// The name under which a namespace of forwarding functions is emitted for
/// the interface `trait_name`.
pub fn namespace_name(trait_name: &str) -> (r: String)
    ensures
        r@ == snake_case_text(trait_name@),
{
    to_snake_case(trait_name)
}

/// The name of the marker symbol of the interface `trait_name` of the unit
/// `crate_name` on the channel `channel`.
pub fn marker_fn_name(trait_name: &str, crate_name: &str, channel: &str) -> (r: String)
    ensures
        r@ == marker_text(trait_name@, crate_name@, channel@),
{
    let mut r = String::from_str("Trait_");
    r.append(trait_name);
    r.append("_in_crate_");
    let unit = replace_hyphens(crate_name);
    r.append(unit.as_str());
    r.append("_");
    r.append(channel);
    r.append("_need_impl");
    r
}

} // verus!

//! The interface generator: from an interface declaration to the namespace
//! of forwarding functions, and to the helper that binds an implementation
//! without naming the unit again.

use crate::bind::{
    bind_methods, bound, call_text, signature_text, unsafety_text, ExternFn, ExternFnModel,
    GenError,
};
use crate::config::{
    def_config, parse_def_extern_trait_args, yields, Abi, DefConfig, DefConfigModel,
};
use crate::decl::{first_other, TraitDecl, TraitDeclModel};
use crate::symbol::{
    identity_text, marker_fn_name, marker_text, namespace_name, normalize, normalized,
    prefix_version, prefix_version_text, snake_case_text, versioned_identity,
};
use crate::text::{concat_each, concat_texts, replace_hyphens, underscored};
use vstd::prelude::*;
use vstd::string::*;

verus! {

/// The helper that is handed to the authors of implementations. It holds
/// what the binder has to be told, so that they need not tell it again.
#[derive(Clone, Debug, PartialEq, Eq)]
pub struct BinderTemplate {
    /// The path under which the binder is reached from the helper.
    pub crate_path: String,
    /// The unit identity that the binder is called with.
    pub name: String,
    /// The calling convention that the binder is called with.
    pub abi: Abi,
}

/// What the interface generator emits.
#[derive(Clone, Debug, PartialEq, Eq)]
pub struct InterfaceOutput {
    /// The declaration, as it was written.
    pub source: String,
    /// The visibility of the namespace: that of the declaration.
    pub vis: String,
    /// The name of the namespace.
    pub mod_name: String,
    /// One forwarding function for each method, in declared order.
    pub fns: Vec<ExternFn>,
    /// The helper, unless it was suppressed.
    pub helper: Option<BinderTemplate>,
    /// The name of the marker symbol of this interface. It is derived with
    /// the other names and stands in no emitted text.
    pub marker: String,
}

/// What a `BinderTemplate` stands for.
pub struct BinderTemplateModel {
    pub crate_path: Seq<char>,
    pub name: Seq<char>,
    pub abi: Abi,
}

/// What an `InterfaceOutput` stands for.
pub struct InterfaceOutputModel {
    pub source: Seq<char>,
    pub vis: Seq<char>,
    pub mod_name: Seq<char>,
    pub fns: Seq<ExternFnModel>,
    pub helper: Option<BinderTemplateModel>,
    pub marker: Seq<char>,
}

impl DeepView for BinderTemplate {
    type V = BinderTemplateModel;

    open spec fn deep_view(&self) -> BinderTemplateModel {
        BinderTemplateModel { crate_path: self.crate_path@, name: self.name@, abi: self.abi }
    }
}

impl DeepView for InterfaceOutput {
    type V = InterfaceOutputModel;

    open spec fn deep_view(&self) -> InterfaceOutputModel {
        InterfaceOutputModel {
            source: self.source@,
            vis: self.vis@,
            mod_name: self.mod_name@,
            fns: self.fns.deep_view(),
            helper: self.helper.deep_view(),
            marker: self.marker@,
        }
    }
}

/// The path under which the helper reaches the binder: the unit, and below
/// it the module path where one was given.
pub open spec fn crate_path_text(crate_name: Seq<char>, mod_path: Option<Seq<char>>) -> Seq<char> {
    match mod_path {
        Some(path) => underscored(crate_name) + "::"@ + path,
        None => underscored(crate_name),
    }
}

/// The helper for the unit `crate_name` on the channel `channel`.
pub open spec fn template(
    cfg: DefConfigModel,
    crate_name: Seq<char>,
    channel: Seq<char>,
) -> BinderTemplateModel {
    BinderTemplateModel {
        crate_path: crate_path_text(crate_name, cfg.mod_path),
        name: identity_text(crate_name, channel),
        abi: cfg.abi,
    }
}

/// What is emitted for the declaration `decl` of the unit `crate_name` on
/// the channel `channel`, with the namespace named `mod_name` and the
/// symbols prefixed with `unit`. A declaration that holds anything but
/// methods is turned down at the first such item, and nothing is emitted.
pub open spec fn interface_output(
    cfg: DefConfigModel,
    decl: TraitDeclModel,
    crate_name: Seq<char>,
    channel: Seq<char>,
    mod_name: Seq<char>,
    unit: Seq<char>,
) -> Result<InterfaceOutputModel, GenError> {
    let k = first_other(decl.items);
    if k < decl.items.len() {
        Err(GenError::NotAFunction { index: k as usize })
    } else {
        Ok(
            InterfaceOutputModel {
                source: decl.source,
                vis: decl.vis,
                mod_name,
                fns: bound(decl.items, unit, cfg.abi),
                helper: if cfg.emit_binder_helper {
                    Some(template(cfg, crate_name, channel))
                } else {
                    None
                },
                marker: marker_text(decl.name, crate_name, channel),
            },
        )
    }
}

/// What the interface generator makes of the options `args` and the
/// declaration `decl` in the unit `crate_name` of version `crate_version`.
/// The options are resolved first, then the version, then the declaration.
/// The symbols carry the identity of the versioned scheme.
pub open spec fn def_extern_trait_spec(
    args: Seq<char>,
    decl: TraitDeclModel,
    crate_name: Seq<char>,
    crate_version: Seq<char>,
) -> Result<InterfaceOutputModel, GenError> {
    match def_config(args) {
        Err(e) => Err(GenError::Config(e)),
        Ok(cfg) => match prefix_version_text(crate_version) {
            None => Err(GenError::Version),
            Some(channel) => interface_output(
                cfg,
                decl,
                crate_name,
                channel,
                snake_case_text(decl.name),
                normalized(identity_text(crate_name, channel)),
            ),
        },
    }
}

/// Generates the bindings of the interface side from resolved options and
/// derived names.
pub fn generate_interface(
    cfg: DefConfig,
    input: TraitDecl,
    crate_name: &str,
    channel: &str,
    mod_name: String,
    unit: &str,
) -> (r: Result<InterfaceOutput, GenError>)
    ensures
        yields(
            r,
            interface_output(
                cfg.deep_view(),
                input.deep_view(),
                crate_name@,
                channel@,
                mod_name@,
                unit@,
            ),
        ),
{
    let TraitDecl { vis, name, items, source } = input;
    let abi = cfg.abi;
    match bind_methods(items, unit, abi) {
        Err(index) => Err(GenError::NotAFunction { index }),
        Ok(fns) => {
            let marker = marker_fn_name(name.as_str(), crate_name, channel);
            let helper = if cfg.emit_binder_helper {
                let mut crate_path = replace_hyphens(crate_name);
                match &cfg.mod_path {
                    Some(path) => {
                        crate_path.append("::");
                        crate_path.append(path.as_str());
                    },
                    None => {},
                }
                let name = versioned_identity(crate_name, channel);
                Some(BinderTemplate { crate_path, name, abi })
            } else {
                None
            };
            Ok(InterfaceOutput { source, vis, mod_name, fns, helper, marker })
        },
    }
}

/// The interface generator. `args` is what stands between the brackets of
/// the attribute, `input` the declaration below it, `crate_name` and
/// `crate_version` the name and the version of the unit that declares it.
pub fn def_extern_trait(args: &str, input: TraitDecl, crate_name: &str, crate_version: &str) -> (r:
    Result<InterfaceOutput, GenError>)
    ensures
        yields(r, def_extern_trait_spec(args@, input.deep_view(), crate_name@, crate_version@)),
{
    let cfg = match parse_def_extern_trait_args(args) {
        Ok(cfg) => cfg,
        Err(e) => {
            return Err(GenError::Config(e));
        },
    };
    let channel = match prefix_version(crate_version) {
        Some(channel) => channel,
        None => {
            return Err(GenError::Version);
        },
    };
    let mod_name = namespace_name(input.name.as_str());
    let identity = versioned_identity(crate_name, channel.as_str());
    let unit = normalize(identity.as_str());
    generate_interface(cfg, input, crate_name, channel.as_str(), mod_name, unit.as_str())
}

/// The forwarding function of one method: a public function with the
/// method's attributes and signature, whose body declares the symbol with
/// the same signature and calls it with the parameters in declared order.
pub open spec fn forwarding_text(f: ExternFnModel) -> Seq<char> {
    "    "@ + concat_each(f.sig.attrs, "\n    "@) + "pub "@ + unsafety_text(f.sig.unsafety)
        + "fn "@ + signature_text(f.sig.name, f.sig) + " {\n        unsafe extern \""@
        + f.abi.keyword_text() + "\" {\n            fn "@ + signature_text(f.symbol, f.sig)
        + ";\n        }\n        unsafe { "@ + f.symbol + "("@ + call_text(f.sig.inputs)
        + ") }\n    }\n"@
}

/// The forwarding functions of `fns`, one after the other.
pub open spec fn forwarding_texts(fns: Seq<ExternFnModel>) -> Seq<char>
    decreases fns.len(),
{
    if fns.len() == 0 {
        Seq::empty()
    } else {
        forwarding_texts(fns.drop_last()) + forwarding_text(fns.last())
    }
}

/// The options that the helper hands to the binder.
pub open spec fn template_args_text(t: BinderTemplateModel) -> Seq<char> {
    "name = \""@ + t.name + "\", abi = \""@ + t.abi.option_text() + "\""@
}

/// The helper: a macro that takes an implementation block and puts the
/// binder above it, with the unit identity and the calling convention of
/// this interface.
pub open spec fn template_text(t: BinderTemplateModel) -> Seq<char> {
    "\npub use trait_ffi::impl_extern_trait;\n\n#[macro_export]\nmacro_rules! impl_trait {\n    (impl $trait:ident for $type:ty { $($body:tt)* }) => {\n        #["@
        + t.crate_path + "::impl_extern_trait("@ + template_args_text(t)
        + ")]\n        impl $trait for $type {\n            $($body)*\n        }\n    };\n}\n"@
}

/// The helper where there is one.
pub open spec fn helper_text(helper: Option<BinderTemplateModel>) -> Seq<char> {
    match helper {
        Some(t) => template_text(t),
        None => Seq::empty(),
    }
}

/// The namespace: a module of the declaration's visibility that holds the
/// forwarding functions.
pub open spec fn namespace_text(o: InterfaceOutputModel) -> Seq<char> {
    o.vis + " mod "@ + o.mod_name + " {\n    use super::*;\n    /// `trait-ffi` generated.\n"@
        + forwarding_texts(o.fns) + "}\n"@
}

/// The source text that is emitted: the declaration as it was written, the
/// namespace, and the helper where there is one.
pub open spec fn interface_text(o: InterfaceOutputModel) -> Seq<char> {
    o.source + "\n\n"@ + namespace_text(o) + helper_text(o.helper)
}

impl ExternFn {
    /// The source text of the function that forwards to the symbol.
    pub fn forwarding(&self) -> (r: String)
        ensures
            r@ == forwarding_text(self.deep_view()),
    {
        let mut r = String::from_str("    ");
        let attrs = concat_texts(&self.sig.attrs, "\n    ");
        r.append(attrs.as_str());
        r.append("pub ");
        if self.sig.unsafety {
            r.append("unsafe ");
        } else {
            assert(r@ + Seq::<char>::empty() =~= r@);
        }
        r.append("fn ");
        let own = self.sig.signature(self.sig.name.as_str());
        r.append(own.as_str());
        r.append(" {\n        unsafe extern \"");
        r.append(self.abi.keyword());
        r.append("\" {\n            fn ");
        let outer = self.sig.signature(self.symbol.as_str());
        r.append(outer.as_str());
        r.append(";\n        }\n        unsafe { ");
        r.append(self.symbol.as_str());
        r.append("(");
        let args = self.sig.call_args();
        r.append(args.as_str());
        r.append(") }\n    }\n");
        r
    }
}

impl BinderTemplate {
    /// The options that the helper hands to the binder.
    pub fn args(&self) -> (r: String)
        ensures
            r@ == template_args_text(self.deep_view()),
    {
        let mut r = String::from_str("name = \"");
        r.append(self.name.as_str());
        r.append("\", abi = \"");
        r.append(self.abi.option());
        r.append("\"");
        r
    }

    /// The source text of the helper.
    pub fn render(&self) -> (r: String)
        ensures
            r@ == template_text(self.deep_view()),
    {
        let mut r = String::from_str(
            "\npub use trait_ffi::impl_extern_trait;\n\n#[macro_export]\nmacro_rules! impl_trait {\n    (impl $trait:ident for $type:ty { $($body:tt)* }) => {\n        #[",
        );
        r.append(self.crate_path.as_str());
        r.append("::impl_extern_trait(");
        let args = self.args();
        r.append(args.as_str());
        r.append(
            ")]\n        impl $trait for $type {\n            $($body)*\n        }\n    };\n}\n",
        );
        r
    }
}

impl InterfaceOutput {
    /// The source text of the namespace.
    pub fn namespace(&self) -> (r: String)
        ensures
            r@ == namespace_text(self.deep_view()),
    {
        let ghost fns = self.fns.deep_view();
        let mut body = String::new();
        let mut i: usize = 0;
        assert(fns.take(0) =~= Seq::empty());
        while i < self.fns.len()
            invariant
                i <= self.fns.len(),
                fns == self.fns.deep_view(),
                body@ == forwarding_texts(fns.take(i as int)),
            decreases self.fns.len() - i,
        {
            let one = self.fns[i].forwarding();
            body.append(one.as_str());
            proof {
                let next = fns.take(i + 1);
                assert(next.drop_last() =~= fns.take(i as int));
                assert(next.last() == self.fns[i as int].deep_view());
            }
            i += 1;
        }
        assert(fns.take(self.fns.len() as int) =~= fns);
        let mut r = self.vis.clone();
        r.append(" mod ");
        r.append(self.mod_name.as_str());
        r.append(" {\n    use super::*;\n    /// `trait-ffi` generated.\n");
        r.append(body.as_str());
        r.append("}\n");
        r
    }

    /// The source text that is emitted.
    pub fn render(&self) -> (r: String)
        ensures
            r@ == interface_text(self.deep_view()),
    {
        let mut r = self.source.clone();
        r.append("\n\n");
        let namespace = self.namespace();
        r.append(namespace.as_str());
        match &self.helper {
            Some(t) => {
                let helper = t.render();
                r.append(helper.as_str());
            },
            None => {
                assert(r@ + Seq::<char>::empty() =~= r@);
            },
        }
        r
    }
}

} // verus!

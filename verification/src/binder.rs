//! The binder: from an implementation of an interface to the functions that
//! are exported under the symbols which the forwarding functions call.

use crate::bind::{
    bind_methods, bound, call_text, signature_text, unsafety_text, ExternFn, ExternFnModel,
    GenError,
};
use crate::config::{impl_config, parse_extern_trait_args, yields, ImplConfig, ImplConfigModel};
use crate::decl::{first_other, ImplBlock, ImplBlockModel};
use crate::symbol::{normalize, normalized};
use vstd::prelude::*;
use vstd::string::*;

verus! {

/// What the binder emits.
#[derive(Clone, Debug, PartialEq, Eq)]
pub struct BinderOutput {
    /// The implementation block, as it was written.
    pub source: String,
    /// The implementing type.
    pub self_ty: String,
    /// The implemented interface.
    pub trait_path: String,
    /// One exported function for each method, in the order of the block.
    pub fns: Vec<ExternFn>,
}

/// What a `BinderOutput` stands for.
pub struct BinderOutputModel {
    pub source: Seq<char>,
    pub self_ty: Seq<char>,
    pub trait_path: Seq<char>,
    pub fns: Seq<ExternFnModel>,
}

impl DeepView for BinderOutput {
    type V = BinderOutputModel;

    open spec fn deep_view(&self) -> BinderOutputModel {
        BinderOutputModel {
            source: self.source@,
            self_ty: self.self_ty@,
            trait_path: self.trait_path@,
            fns: self.fns.deep_view(),
        }
    }
}

/// What is emitted for the implementation block `block`, with the symbols
/// prefixed with `unit`. A block that holds anything but methods is turned
/// down at the first such item, and nothing is emitted.
pub open spec fn binder_output(
    cfg: ImplConfigModel,
    block: ImplBlockModel,
    unit: Seq<char>,
) -> Result<BinderOutputModel, GenError> {
    let k = first_other(block.items);
    if k < block.items.len() {
        Err(GenError::NotAFunction { index: k as usize })
    } else {
        Ok(
            BinderOutputModel {
                source: block.source,
                self_ty: block.self_ty,
                trait_path: block.trait_path,
                fns: bound(block.items, unit, cfg.abi),
            },
        )
    }
}

/// What the binder makes of the options `args` and the implementation block
/// `block`. The options are resolved first, then the block. The symbols
/// carry the unit identity that the options name, as it is.
pub open spec fn impl_extern_trait_spec(args: Seq<char>, block: ImplBlockModel) -> Result<
    BinderOutputModel,
    GenError,
> {
    match impl_config(args) {
        Err(e) => Err(GenError::Config(e)),
        Ok(cfg) => binder_output(cfg, block, normalized(cfg.name)),
    }
}

/// The call that hands the parameters of `f` to the implementation of the
/// method for the type `self_ty`.
pub open spec fn delegation_text(
    f: ExternFnModel,
    self_ty: Seq<char>,
    trait_path: Seq<char>,
) -> Seq<char> {
    "<"@ + self_ty + " as "@ + trait_path + ">::"@ + f.sig.name + "("@ + call_text(f.sig.inputs)
        + ")"@
}

/// The body of an exported function: the delegating call, inside an unsafe
/// block where the method is unsafe.
pub open spec fn body_text(f: ExternFnModel, self_ty: Seq<char>, trait_path: Seq<char>) -> Seq<
    char,
> {
    if f.sig.unsafety {
        "unsafe { "@ + delegation_text(f, self_ty, trait_path) + " }"@
    } else {
        delegation_text(f, self_ty, trait_path)
    }
}

/// The exported function of one method: a public function that is named by
/// the symbol, kept from name mangling, with the method's signature, whose
/// body delegates to the implementation.
pub open spec fn exported_text(
    f: ExternFnModel,
    self_ty: Seq<char>,
    trait_path: Seq<char>,
) -> Seq<char> {
    "/// `trait-ffi` generated extern function.\n#[unsafe(no_mangle)]\npub "@ + unsafety_text(
        f.sig.unsafety,
    ) + "extern \""@ + f.abi.keyword_text() + "\" fn "@ + signature_text(f.symbol, f.sig)
        + " {\n    "@ + body_text(f, self_ty, trait_path) + "\n}\n"@
}

/// The exported functions of `fns`, one after the other.
pub open spec fn exported_texts(
    fns: Seq<ExternFnModel>,
    self_ty: Seq<char>,
    trait_path: Seq<char>,
) -> Seq<char>
    decreases fns.len(),
{
    if fns.len() == 0 {
        Seq::empty()
    } else {
        exported_texts(fns.drop_last(), self_ty, trait_path) + exported_text(
            fns.last(),
            self_ty,
            trait_path,
        )
    }
}

/// The exported functions of `o`, one after the other.
pub open spec fn exports_text(o: BinderOutputModel) -> Seq<char> {
    exported_texts(o.fns, o.self_ty, o.trait_path)
}

/// The source text that is emitted: the implementation block as it was
/// written, and the exported functions.
pub open spec fn binder_text(o: BinderOutputModel) -> Seq<char> {
    o.source + "\n\n"@ + exports_text(o)
}

/// Generates the bindings of the implementation side from resolved options
/// and a normalized unit identity.
pub fn generate_exports(cfg: ImplConfig, input: ImplBlock, unit: &str) -> (r: Result<
    BinderOutput,
    GenError,
>)
    ensures
        yields(r, binder_output(cfg.deep_view(), input.deep_view(), unit@)),
{
    let ImplBlock { self_ty, trait_path, items, source } = input;
    match bind_methods(items, unit, cfg.abi) {
        Err(index) => Err(GenError::NotAFunction { index }),
        Ok(fns) => Ok(BinderOutput { source, self_ty, trait_path, fns }),
    }
}

/// The binder. `args` is what stands between the brackets of the attribute,
/// `input` the implementation block below it.
pub fn impl_extern_trait(args: &str, input: ImplBlock) -> (r: Result<BinderOutput, GenError>)
    ensures
        yields(r, impl_extern_trait_spec(args@, input.deep_view())),
{
    let cfg = match parse_extern_trait_args(args) {
        Ok(cfg) => cfg,
        Err(e) => {
            return Err(GenError::Config(e));
        },
    };
    let unit = normalize(cfg.name.as_str());
    generate_exports(cfg, input, unit.as_str())
}

impl ExternFn {
    /// The source text of the function that is exported under the symbol and
    /// delegates to the implementation of the method for `self_ty`.
    pub fn exported(&self, self_ty: &str, trait_path: &str) -> (r: String)
        ensures
            r@ == exported_text(self.deep_view(), self_ty@, trait_path@),
    {
        let mut call = String::from_str("<");
        call.append(self_ty);
        call.append(" as ");
        call.append(trait_path);
        call.append(">::");
        call.append(self.sig.name.as_str());
        call.append("(");
        let args = self.sig.call_args();
        call.append(args.as_str());
        call.append(")");
        let body = if self.sig.unsafety {
            let mut body = String::from_str("unsafe { ");
            body.append(call.as_str());
            body.append(" }");
            body
        } else {
            call
        };
        let mut r = String::from_str(
            "/// `trait-ffi` generated extern function.\n#[unsafe(no_mangle)]\npub ",
        );
        if self.sig.unsafety {
            r.append("unsafe ");
        } else {
            assert(r@ + Seq::<char>::empty() =~= r@);
        }
        r.append("extern \"");
        r.append(self.abi.keyword());
        r.append("\" fn ");
        let signature = self.sig.signature(self.symbol.as_str());
        r.append(signature.as_str());
        r.append(" {\n    ");
        r.append(body.as_str());
        r.append("\n}\n");
        r
    }
}

impl BinderOutput {
    /// The source text of the exported functions.
    pub fn exports(&self) -> (r: String)
        ensures
            r@ == exports_text(self.deep_view()),
    {
        let ghost fns = self.fns.deep_view();
        let mut r = String::new();
        let mut i: usize = 0;
        assert(fns.take(0) =~= Seq::empty());
        while i < self.fns.len()
            invariant
                i <= self.fns.len(),
                fns == self.fns.deep_view(),
                r@ == exported_texts(fns.take(i as int), self.self_ty@, self.trait_path@),
            decreases self.fns.len() - i,
        {
            let one = self.fns[i].exported(self.self_ty.as_str(), self.trait_path.as_str());
            r.append(one.as_str());
            proof {
                let next = fns.take(i + 1);
                assert(next.drop_last() =~= fns.take(i as int));
                assert(next.last() == self.fns[i as int].deep_view());
            }
            i += 1;
        }
        assert(fns.take(self.fns.len() as int) =~= fns);
        r
    }

    /// The source text that is emitted.
    pub fn render(&self) -> (r: String)
        ensures
            r@ == binder_text(self.deep_view()),
    {
        let mut r = self.source.clone();
        r.append("\n\n");
        let exports = self.exports();
        r.append(exports.as_str());
        r
    }
}

} // verus!

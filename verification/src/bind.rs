//! What the two generators have in common: a method bound to the symbol that
//! carries it across the boundary, and the text of a signature.

use crate::config::{Abi, ConfigError};
use crate::decl::{
    first_other, lemma_first_other, FnArg, FnArgModel, Item, ItemModel, MethodSig, MethodSigModel,
};
use crate::symbol::{symbol_for, symbol_text};
use crate::text::{join, join_texts};
use vstd::prelude::*;
use vstd::string::*;

verus! {

/// Why nothing was generated.
#[derive(Clone, Copy, Debug, PartialEq, Eq, Structural)]
pub enum GenError {
    /// The options were turned down.
    Config(ConfigError),
    /// No version can be read from the version of the unit.
    Version,
    /// The item at `index` is no method.
    NotAFunction { index: usize },
}

/// A method together with the symbol and the calling convention under which
/// it crosses the boundary. On the side of the interface it is a function
/// that forwards to the symbol; on the side of the implementation it is the
/// function that is exported under the symbol.
#[derive(Clone, Debug, PartialEq, Eq)]
pub struct ExternFn {
    pub sig: MethodSig,
    pub abi: Abi,
    pub symbol: String,
}

/// What an `ExternFn` stands for.
pub struct ExternFnModel {
    pub sig: MethodSigModel,
    pub abi: Abi,
    pub symbol: Seq<char>,
}

impl DeepView for ExternFn {
    type V = ExternFnModel;

    open spec fn deep_view(&self) -> ExternFnModel {
        ExternFnModel { sig: self.sig.deep_view(), abi: self.abi, symbol: self.symbol@ }
    }
}

/// The method `sig` of the unit `unit`, bound under the convention `abi`:
/// its signature as it stands, and the symbol derived from its name.
pub open spec fn bound_one(sig: MethodSigModel, unit: Seq<char>, abi: Abi) -> ExternFnModel {
    ExternFnModel { sig, abi, symbol: symbol_text(unit, sig.name) }
}

/// The methods `items`, each bound, in their order.
pub open spec fn bound(items: Seq<ItemModel>, unit: Seq<char>, abi: Abi) -> Seq<ExternFnModel> {
    Seq::new(items.len(), |i: int| bound_one(items[i]->Fn_0, unit, abi))
}

/// The symbols of `fns`, in order.
pub open spec fn symbols(fns: Seq<ExternFnModel>) -> Seq<Seq<char>> {
    Seq::new(fns.len(), |i: int| fns[i].symbol)
}

/// The message that reports `e`.
pub open spec fn error_text(e: GenError) -> Seq<char> {
    match e {
        GenError::Config(c) => c.text(),
        GenError::Version => "Invalid version. The version of the unit is not a version number"@,
        GenError::NotAFunction { .. } => "Only function items are allowed in extern traits"@,
    }
}

impl GenError {
    /// The message that reports this error.
    pub fn message(&self) -> (r: String)
        ensures
            r@ == error_text(*self),
    {
        match self {
            GenError::Config(c) => c.message(),
            GenError::Version => String::from_str(
                "Invalid version. The version of the unit is not a version number",
            ),
            GenError::NotAFunction { .. } => String::from_str(
                "Only function items are allowed in extern traits",
            ),
        }
    }
}

/// Binds every method of `items` to its symbol. Where an item is no method,
/// nothing is bound and the position of the first such item is returned.
pub fn bind_methods(items: Vec<Item>, unit: &str, abi: Abi) -> (r: Result<Vec<ExternFn>, usize>)
    ensures
        match r {
            Ok(fns) => first_other(items.deep_view()) == items.len() && fns.deep_view() == bound(
                items.deep_view(),
                unit@,
                abi,
            ),
            Err(k) => k == first_other(items.deep_view()) && k < items.len(),
        },
{
    let ghost all = items.deep_view();
    let ghost elts = items@;
    let mut fns: Vec<ExternFn> = Vec::new();
    for item in it: items
        invariant
            it.seq() == elts,
            all == Seq::new(elts.len(), |i: int| elts[i].deep_view()),
            fns.len() == it.index(),
            forall|j: int| 0 <= j < fns.len() ==> all[j] is Fn,
            forall|j: int|
                0 <= j < fns.len() ==> (#[trigger] fns[j]).deep_view() == bound_one(
                    all[j]->Fn_0,
                    unit@,
                    abi,
                ),
    {
        let k = fns.len();
        assert(all[k as int] == item.deep_view());
        match item {
            Item::Fn(sig) => {
                let symbol = symbol_for(unit, sig.name.as_str());
                fns.push(ExternFn { sig, abi, symbol });
            },
            Item::Other => {
                proof {
                    lemma_first_other(all, k as int);
                }
                return Err(k);
            },
        }
    }
    proof {
        lemma_first_other(all, fns.len() as int);
        assert(fns.deep_view() =~= bound(all, unit@, abi));
    }
    Ok(fns)
}

/// One parameter as it stands in a signature.
pub open spec fn arg_text(arg: FnArgModel) -> Seq<char> {
    match arg {
        FnArgModel::Receiver(text) => text,
        FnArgModel::Typed { pat, ty } => pat + ": "@ + ty,
    }
}

/// The parameters as they stand in a signature, one text each.
pub open spec fn arg_texts(inputs: Seq<FnArgModel>) -> Seq<Seq<char>> {
    Seq::new(inputs.len(), |i: int| arg_text(inputs[i]))
}

/// The names of the parameters that are passed on in a call, in declared
/// order: those of the typed parameters. A receiver is left out.
pub open spec fn arg_names(inputs: Seq<FnArgModel>) -> Seq<Seq<char>>
    decreases inputs.len(),
{
    if inputs.len() == 0 {
        Seq::empty()
    } else {
        match inputs.last() {
            FnArgModel::Typed { pat, .. } => arg_names(inputs.drop_last()).push(pat),
            FnArgModel::Receiver(_) => arg_names(inputs.drop_last()),
        }
    }
}

/// The arguments of the call that passes the parameters on.
pub open spec fn call_text(inputs: Seq<FnArgModel>) -> Seq<char> {
    join(arg_names(inputs), ", "@)
}

/// The return type as it follows the parameters.
pub open spec fn output_text(output: Option<Seq<char>>) -> Seq<char> {
    match output {
        Some(ty) => " -> "@ + ty,
        None => Seq::empty(),
    }
}

/// The keyword `unsafe` where a method has it.
pub open spec fn unsafety_text(unsafety: bool) -> Seq<char> {
    if unsafety {
        "unsafe "@
    } else {
        Seq::empty()
    }
}

/// The signature of `sig` under the name `name`: the name, the generic
/// parameters, the parameters and the return type, all as declared.
pub open spec fn signature_text(name: Seq<char>, sig: MethodSigModel) -> Seq<char> {
    name + sig.generics + "("@ + join(arg_texts(sig.inputs), ", "@) + ")"@ + output_text(
        sig.output,
    )
}

/// The parameters of `inputs` as they stand in a signature.
fn arg_texts_of(inputs: &Vec<FnArg>) -> (r: Vec<String>)
    ensures
        r.deep_view() == arg_texts(inputs.deep_view()),
{
    let mut r: Vec<String> = Vec::new();
    let mut i: usize = 0;
    while i < inputs.len()
        invariant
            i <= inputs.len(),
            r.len() == i,
            forall|j: int| 0 <= j < i ==> (#[trigger] r[j])@ == arg_text(inputs[j].deep_view()),
        decreases inputs.len() - i,
    {
        let text = match &inputs[i] {
            FnArg::Receiver(text) => text.clone(),
            FnArg::Typed { pat, ty } => {
                let mut t = pat.clone();
                t.append(": ");
                t.append(ty.as_str());
                t
            },
        };
        r.push(text);
        i += 1;
    }
    assert(r.deep_view() =~= arg_texts(inputs.deep_view()));
    r
}

/// The names of the parameters of `inputs` that are passed on in a call.
fn arg_names_of(inputs: &Vec<FnArg>) -> (r: Vec<String>)
    ensures
        r.deep_view() == arg_names(inputs.deep_view()),
{
    let ghost all = inputs.deep_view();
    let mut r: Vec<String> = Vec::new();
    let mut i: usize = 0;
    assert(all.take(0) =~= Seq::empty());
    while i < inputs.len()
        invariant
            i <= inputs.len(),
            all == inputs.deep_view(),
            r.deep_view() == arg_names(all.take(i as int)),
        decreases inputs.len() - i,
    {
        let ghost before = r.deep_view();
        proof {
            let next = all.take(i + 1);
            assert(next.drop_last() =~= all.take(i as int));
            assert(next.last() == inputs[i as int].deep_view());
        }
        match &inputs[i] {
            FnArg::Receiver(_) => {},
            FnArg::Typed { pat, .. } => {
                r.push(pat.clone());
                assert(r.deep_view() =~= before.push(pat@));
            },
        }
        i += 1;
    }
    assert(all.take(inputs.len() as int) =~= all);
    r
}

impl MethodSig {
    /// The signature under the name `name`.
    pub fn signature(&self, name: &str) -> (r: String)
        ensures
            r@ == signature_text(name@, self.deep_view()),
    {
        let mut r = String::from_str(name);
        r.append(self.generics.as_str());
        r.append("(");
        let args = arg_texts_of(&self.inputs);
        let joined = join_texts(&args, ", ");
        r.append(joined.as_str());
        r.append(")");
        match &self.output {
            Some(ty) => {
                let ghost before = r@;
                r.append(" -> ");
                r.append(ty.as_str());
                assert(r@ =~= before + (" -> "@ + ty@));
            },
            None => {
                assert(r@ + Seq::<char>::empty() =~= r@);
            },
        }
        r
    }

    /// The arguments of the call that passes the parameters on.
    pub fn call_args(&self) -> (r: String)
        ensures
            r@ == call_text(self.deep_view().inputs),
    {
        let names = arg_names_of(&self.inputs);
        join_texts(&names, ", ")
    }
}

} // verus!

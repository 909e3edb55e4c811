//! The signature visitor: from the items of a program to the signatures of
//! its free functions.

use vstd::prelude::*;
use vstd::string::StringExecFns;
use crate::canon::{is_supported, ty_to_string};
use crate::context::TestGenContext;
use crate::error::ExtractError;
use crate::model::{
    lemma_unit_name_is_type_name, params_view, unit_name, Function, Param, Ty,
};
use crate::signature::{
    all_supported, inputs_supported, is_fn, item_supported, lemma_signature_well_formed,
    lemma_signatures_of_none, lemma_signatures_push, lemma_supported_prefix_of_all,
    lemma_supported_prefix_take, outcome, output_name, output_supported, param_of, params_of,
    placeholder, signature, signatures, supported_prefix,
};
use crate::syntax::{items_view, FnDecl, FnRetTy, Item, ItemKind};

verus! {

/// A visitor that writes the signatures it extracts into a borrowed context.
pub struct FnCollect<'ctx> {
    pub ctx: &'ctx mut TestGenContext,
}

impl<'ctx> FnCollect<'ctx> {
    /// A visitor that writes into `ctx`.
    pub fn new(ctx: &'ctx mut TestGenContext) -> (visitor: Self)
        ensures
            *visitor.ctx == *old(ctx),
            *final(visitor.ctx) == *final(ctx),
    {
        Self { ctx }
    }

    /// Appends `func` to the borrowed context.
    pub fn push_function(&mut self, func: Function)
        ensures
            final(self).ctx@ == old(self).ctx@.push(func@),
            old(self).ctx.wf() && func.wf() ==> final(self).ctx.wf(),
            *final(final(self).ctx) == *final(old(self).ctx),
    {
        self.ctx.push_function(func);
    }

    /// Visits one item. A free function whose declared types are all
    /// supported has its signature appended to the context; any other kind
    /// of item leaves the context as it is. A function with an unsupported
    /// type is an error and leaves the context as it is, too.
    pub fn visit_item(&mut self, item: &Item) -> (r: Result<(), ExtractError>)
        ensures
            *final(final(self).ctx) == *final(old(self).ctx),
            old(self).ctx.wf() ==> final(self).ctx.wf(),
            match r {
                Ok(_) => {
                    &&& item_supported(item@)
                    &&& final(self).ctx@ == if is_fn(item@) {
                        old(self).ctx@.push(signature(item@))
                    } else {
                        old(self).ctx@
                    }
                },
                Err(e) => {
                    &&& !item_supported(item@)
                    &&& e == ExtractError::UnsupportedTypeShape
                    &&& final(self).ctx@ == old(self).ctx@
                },
            },
    {
        match &item.kind {
            ItemKind::Fn(decl) => {
                let name = item.ident.clone();
                let params = match extract_params(decl) {
                    Ok(params) => params,
                    Err(e) => {
                        return Err(e);
                    },
                };
                let ret = match extract_output(&decl.output) {
                    Ok(ret) => ret,
                    Err(e) => {
                        return Err(e);
                    },
                };
                let func = Function { name, inputs: params, output: ret };
                assert(func@ == signature(item@));
                proof {
                    lemma_signature_well_formed(item@);
                }
                self.push_function(func);
                Ok(())
            },
            _ => Ok(()),
        }
    }

    /// Visits `items` one by one, in order, and stops at the first error.
    /// The context gets the signatures of the function items that stand
    /// before the first item with an unsupported type: of all function
    /// items where there is no such item.
    pub fn visit_all(&mut self, items: &Vec<Item>) -> (r: Result<(), ExtractError>)
        ensures
            *final(final(self).ctx) == *final(old(self).ctx),
            final(self).ctx@ == old(self).ctx@ + signatures(
                items_view(items@).take(supported_prefix(items_view(items@)) as int),
            ),
            old(self).ctx.wf() ==> final(self).ctx.wf(),
            match r {
                Ok(_) => all_supported(items_view(items@)),
                Err(e) => {
                    &&& !all_supported(items_view(items@))
                    &&& e == ExtractError::UnsupportedTypeShape
                },
            },
    {
        let ghost views = items_view(items@);
        let n = items.len();
        let mut i: usize = 0;
        proof {
            lemma_signatures_of_none(views.take(0));
            assert(self.ctx@ =~= old(self).ctx@ + signatures(views.take(0)));
        }
        while i < n
            invariant
                n == items.len(),
                views == items_view(items@),
                i <= n,
                *final(self.ctx) == *final(old(self).ctx),
                all_supported(views.take(i as int)),
                self.ctx@ == old(self).ctx@ + signatures(views.take(i as int)),
                old(self).ctx.wf() ==> self.ctx.wf(),
            decreases n - i,
        {
            let visited = self.visit_item(&items[i]);
            proof {
                assert(views[i as int] == items[i as int]@);
                assert(views.take(i + 1) =~= views.take(i as int).push(views[i as int]));
                lemma_signatures_push(views.take(i as int), views[i as int]);
                lemma_supported_prefix_take(views, i as int);
            }
            match visited {
                Ok(_) => {
                    assert(self.ctx@ =~= old(self).ctx@ + signatures(views.take(i + 1)));
                    assert forall|j: int| 0 <= j < i + 1 implies item_supported(
                        #[trigger] views.take(i + 1)[j],
                    ) by {
                        if j < i {
                            assert(views.take(i as int)[j] == views.take(i + 1)[j]);
                        }
                    }
                },
                Err(e) => {
                    return Err(e);
                },
            }
            i += 1;
        }
        proof {
            assert(views.take(n as int) =~= views);
            lemma_supported_prefix_of_all(views);
        }
        Ok(())
    }
}

/// The parameters recorded for `decl`, one per declared parameter type in
/// declaration order, or the error where one of the types is unsupported.
pub fn extract_params(decl: &FnDecl) -> (r: Result<Vec<Param>, ExtractError>)
    ensures
        match r {
            Ok(params) => {
                &&& inputs_supported(decl@.inputs)
                &&& params_view(params@) == params_of(decl@.inputs)
                &&& forall|i: int| 0 <= i < params.len() ==> (#[trigger] params[i]).ty.wf()
            },
            Err(e) => {
                &&& !inputs_supported(decl@.inputs)
                &&& e == ExtractError::UnsupportedTypeShape
            },
        },
{
    let mut params: Vec<Param> = Vec::new();
    let n = decl.inputs.len();
    let mut i: usize = 0;
    while i < n
        invariant
            n == decl.inputs.len(),
            i <= n,
            params.len() == i,
            inputs_supported(decl@.inputs.take(i as int)),
            forall|j: int| 0 <= j < i ==> (#[trigger] params[j])@ == param_of(decl@.inputs[j]),
            forall|j: int| 0 <= j < i ==> (#[trigger] params[j]).ty.wf(),
        decreases n - i,
    {
        assert(decl@.inputs[i as int] == decl.inputs[i as int]@);
        match ty_to_string(&decl.inputs[i]) {
            Ok(name) => {
                proof {
                    reveal_strlit("_");
                    assert("_"@ =~= placeholder());
                    assert forall|j: int| 0 <= j < i + 1 implies is_supported(
                        #[trigger] decl@.inputs.take(i + 1)[j],
                    ) by {
                        if j < i {
                            assert(decl@.inputs.take(i as int)[j] == decl@.inputs.take(i + 1)[j]);
                        }
                    }
                }
                params.push(Param { name: String::from_str("_"), ty: Ty { name } });
            },
            Err(e) => {
                return Err(e);
            },
        }
        i += 1;
    }
    assert(decl@.inputs.take(n as int) =~= decl@.inputs);
    assert(params_view(params@) =~= params_of(decl@.inputs));
    Ok(params)
}

/// The return type recorded for a declared return type: the unit type where
/// none was written, else the canonical name of the one written, or the
/// error where that one is unsupported.
pub fn extract_output(output: &FnRetTy) -> (r: Result<Ty, ExtractError>)
    ensures
        match r {
            Ok(ty) => {
                &&& output_supported(output@)
                &&& ty@ == output_name(output@)
                &&& ty.wf()
            },
            Err(e) => !output_supported(output@) && e == ExtractError::UnsupportedTypeShape,
        },
{
    match output {
        FnRetTy::DefaultReturn => {
            proof {
                reveal_strlit("()");
                assert("()"@ =~= unit_name());
                lemma_unit_name_is_type_name();
            }
            Ok(Ty { name: String::from_str("()") })
        },
        FnRetTy::Return(ty) => {
            match ty_to_string(ty) {
                Ok(name) => Ok(Ty { name }),
                Err(e) => Err(e),
            }
        },
    }
}

/// Collects the signatures of the free functions among `items`, in the
/// order of the items. One unsupported type anywhere fails the whole
/// extraction: no context is handed out then.
pub fn extract(items: &Vec<Item>) -> (r: Result<TestGenContext, ExtractError>)
    ensures
        match r {
            Ok(ctx) => {
                &&& all_supported(items_view(items@))
                &&& ctx@ == signatures(items_view(items@))
                &&& ctx.wf()
            },
            Err(e) => {
                &&& !all_supported(items_view(items@))
                &&& e == ExtractError::UnsupportedTypeShape
            },
        },
{
    let mut ctx = TestGenContext::new();
    let mut visitor = FnCollect::new(&mut ctx);
    match visitor.visit_all(items) {
        Ok(_) => {
            proof {
                let views = items_view(items@);
                lemma_supported_prefix_of_all(views);
                assert(views.take(views.len() as int) =~= views);
                assert(ctx@ =~= signatures(views));
            }
            Ok(ctx)
        },
        Err(e) => Err(e),
    }
}

/// Extracts the signatures from `items` and renders them: the dump of the
/// signatures of all function items, or the error, and then no dump at all,
/// where some declared type is unsupported.
pub fn run(items: &Vec<Item>) -> (r: Result<String, ExtractError>)
    ensures
        match r {
            Ok(text) => outcome(items_view(items@)) == Ok::<Seq<char>, ExtractError>(text@),
            Err(e) => outcome(items_view(items@)) == Err::<Seq<char>, ExtractError>(e),
        },
{
    match extract(items) {
        Ok(ctx) => Ok(ctx.dump()),
        Err(e) => Err(e),
    }
}

} // verus!

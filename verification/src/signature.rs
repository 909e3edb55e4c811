//! What extraction yields, as mathematics: which items are supported, the
//! signature of a function item, the signatures of a program, and the
//! outcome of a run, with the laws that hold of them.

use vstd::prelude::*;
use crate::canon::{is_supported, lemma_canonical_name_is_type_name, name_of_type};
use crate::error::ExtractError;
use crate::model::{
    is_type_name, lemma_unit_name_is_type_name, unit_name, FunctionView, ParamView,
};
use crate::report::dump_text;
use crate::syntax::{
    items_view, FnDeclView, FnRetTyView, Item, ItemKindView, ItemView, TyKindView,
};

verus! {

/// The binding name that every extracted parameter gets.
pub open spec fn placeholder() -> Seq<char> {
    seq!['_']
}

/// The parameter recorded for a declared parameter type.
pub open spec fn param_of(ty: TyKindView) -> ParamView {
    ParamView { name: placeholder(), ty: name_of_type(ty) }
}

/// The parameters recorded for declared parameter types, in the same order.
pub open spec fn params_of(inputs: Seq<TyKindView>) -> Seq<ParamView> {
    inputs.map_values(|ty: TyKindView| param_of(ty))
}

/// Whether a declared return type can be extracted: none was written, or the
/// one written is supported.
pub open spec fn output_supported(output: FnRetTyView) -> bool {
    match output {
        FnRetTyView::DefaultReturn => true,
        FnRetTyView::Return(ty) => is_supported(ty),
    }
}

/// The name recorded for a declared return type: the unit type where none
/// was written.
pub open spec fn output_name(output: FnRetTyView) -> Seq<char> {
    match output {
        FnRetTyView::DefaultReturn => unit_name(),
        FnRetTyView::Return(ty) => name_of_type(ty),
    }
}

/// Whether every one of the declared parameter types is supported.
pub open spec fn inputs_supported(inputs: Seq<TyKindView>) -> bool {
    forall|i: int| 0 <= i < inputs.len() ==> is_supported(#[trigger] inputs[i])
}

/// Whether every parameter type and the return type of `decl` is supported.
pub open spec fn decl_supported(decl: FnDeclView) -> bool {
    &&& inputs_supported(decl.inputs)
    &&& output_supported(decl.output)
}

/// Whether `item` is a free function.
pub open spec fn is_fn(item: ItemView) -> bool {
    item.kind is Fn
}

/// Whether `item` can be visited without error: it is no function, or a
/// function whose declared types are all supported.
pub open spec fn item_supported(item: ItemView) -> bool {
    match item.kind {
        ItemKindView::Fn(decl) => decl_supported(decl),
        _ => true,
    }
}

/// The signature recorded for a function item: its name, one parameter per
/// declared parameter type in declaration order, and its return type.
pub open spec fn signature(item: ItemView) -> FunctionView
    recommends
        is_fn(item),
{
    let decl = item.kind->Fn_0;
    FunctionView {
        name: item.ident,
        inputs: params_of(decl.inputs),
        output: output_name(decl.output),
    }
}

/// The function items among `items`, in order.
pub open spec fn function_items(items: Seq<ItemView>) -> Seq<ItemView> {
    items.filter(|item: ItemView| is_fn(item))
}

/// The signatures of the function items among `items`, in order.
pub open spec fn signatures(items: Seq<ItemView>) -> Seq<FunctionView> {
    function_items(items).map_values(|item: ItemView| signature(item))
}

/// Whether every item of `items` can be visited without error.
pub open spec fn all_supported(items: Seq<ItemView>) -> bool {
    forall|i: int| 0 <= i < items.len() ==> item_supported(#[trigger] items[i])
}

/// How many items at the front of `items` can be visited before the first
/// one that cannot: the length of `items` where all of them can.
pub open spec fn supported_prefix(items: Seq<ItemView>) -> nat
    decreases items.len(),
{
    if items.len() == 0 {
        0
    } else {
        let before = supported_prefix(items.drop_last());
        if before == items.len() - 1 && item_supported(items.last()) {
            items.len()
        } else {
            before
        }
    }
}

/// What a run over `items` yields: the dump of the signatures, or the error
/// where some declared type is unsupported.
pub open spec fn outcome(items: Seq<ItemView>) -> Result<Seq<char>, ExtractError> {
    if all_supported(items) {
        Ok(dump_text(signatures(items)))
    } else {
        Err(ExtractError::UnsupportedTypeShape)
    }
}

/// No item, no signature.
pub proof fn lemma_signatures_of_none(items: Seq<ItemView>)
    requires
        items.len() == 0,
    ensures
        signatures(items) == Seq::<FunctionView>::empty(),
{
    reveal(Seq::filter);
    assert(signatures(items) =~= Seq::<FunctionView>::empty());
}

/// One more item at the end adds its signature at the end where it is a
/// function, and nothing where it is not.
pub proof fn lemma_signatures_push(items: Seq<ItemView>, item: ItemView)
    ensures
        signatures(items.push(item)) == if is_fn(item) {
            signatures(items).push(signature(item))
        } else {
            signatures(items)
        },
{
    reveal(Seq::filter);
    assert(items.push(item).drop_last() =~= items);
    if is_fn(item) {
        assert(function_items(items.push(item)) == function_items(items).push(item));
        assert(signatures(items.push(item)) =~= signatures(items).push(signature(item)));
    } else {
        assert(function_items(items.push(item)) == function_items(items));
    }
}

/// Where every item is supported, the supported prefix is the whole.
pub proof fn lemma_supported_prefix_of_all(items: Seq<ItemView>)
    requires
        all_supported(items),
    ensures
        supported_prefix(items) == items.len(),
    decreases items.len(),
{
    if items.len() > 0 {
        let front = items.drop_last();
        assert forall|i: int| 0 <= i < front.len() implies item_supported(#[trigger] front[i]) by {
            assert(front[i] == items[i]);
        }
        lemma_supported_prefix_of_all(front);
        assert(item_supported(items[items.len() - 1]));
    }
}

/// The supported prefix never reaches past an unsupported item.
proof fn lemma_supported_prefix_stops(items: Seq<ItemView>, at: int)
    requires
        0 <= at < items.len(),
        !item_supported(items[at]),
    ensures
        supported_prefix(items) == supported_prefix(items.take(at)),
    decreases items.len(),
{
    if at == items.len() - 1 {
        assert(items.take(at) =~= items.drop_last());
        assert(supported_prefix(items.drop_last()) <= items.len() - 1) by {
            lemma_supported_prefix_bound(items.drop_last());
        }
    } else {
        let front = items.drop_last();
        assert(front[at] == items[at]);
        lemma_supported_prefix_stops(front, at);
        assert(front.take(at) =~= items.take(at));
        lemma_supported_prefix_bound(items.take(at));
    }
}

/// The supported prefix is no longer than the whole.
proof fn lemma_supported_prefix_bound(items: Seq<ItemView>)
    ensures
        supported_prefix(items) <= items.len(),
    decreases items.len(),
{
    if items.len() > 0 {
        lemma_supported_prefix_bound(items.drop_last());
    }
}

/// Where the first `at` items are supported, the supported prefix is `at`
/// if the next item is unsupported.
pub proof fn lemma_supported_prefix_take(items: Seq<ItemView>, at: int)
    requires
        0 <= at < items.len(),
        all_supported(items.take(at)),
    ensures
        !item_supported(items[at]) ==> supported_prefix(items) == at,
{
    if !item_supported(items[at]) {
        lemma_supported_prefix_stops(items, at);
        lemma_supported_prefix_of_all(items.take(at));
    }
}

/// The signature of a supported function item is well formed: the type of
/// every parameter and the return type are canonical type names.
pub proof fn lemma_signature_well_formed(item: ItemView)
    requires
        is_fn(item),
        item_supported(item),
    ensures
        signature(item).wf(),
{
    let decl = item.kind->Fn_0;
    let func = signature(item);
    assert forall|i: int| 0 <= i < func.inputs.len() implies is_type_name(
        #[trigger] func.inputs[i].ty,
    ) by {
        assert(is_supported(decl.inputs[i]));
        lemma_canonical_name_is_type_name(decl.inputs[i]->Path_0->path);
    }
    match decl.output {
        FnRetTyView::DefaultReturn => {
            lemma_unit_name_is_type_name();
        },
        FnRetTyView::Return(ty) => {
            lemma_canonical_name_is_type_name(ty->Path_0->path);
        },
    }
}

/// Every signature extracted from a supported program is well formed.
pub proof fn lemma_signatures_well_formed(items: Seq<ItemView>)
    requires
        all_supported(items),
    ensures
        forall|k: int| 0 <= k < signatures(items).len() ==> (#[trigger] signatures(items)[k]).wf(),
    decreases items.len(),
{
    if items.len() == 0 {
        lemma_signatures_of_none(items);
    } else {
        let front = items.drop_last();
        let last = items.last();
        assert(front.push(last) =~= items);
        assert forall|i: int| 0 <= i < front.len() implies item_supported(#[trigger] front[i]) by {
            assert(front[i] == items[i]);
        }
        lemma_signatures_well_formed(front);
        lemma_signatures_push(front, last);
        assert(item_supported(items[items.len() - 1]));
        if is_fn(last) {
            lemma_signature_well_formed(last);
        }
    }
}

/// Extraction records exactly one signature per function item, in the order
/// of the items; each signature has the name of its item and one parameter
/// per declared parameter, in declaration order, typed by the canonical name
/// of the declared type.
pub proof fn lemma_one_signature_per_function(items: Seq<ItemView>)
    requires
        all_supported(items),
    ensures
        signatures(items).len() == function_items(items).len(),
        forall|k: int|
            #![trigger signatures(items)[k]]
            0 <= k < signatures(items).len() ==> {
                let item = function_items(items)[k];
                let func = signatures(items)[k];
                &&& is_fn(item)
                &&& items.contains(item)
                &&& func.name == item.ident
                &&& func.inputs.len() == item.kind->Fn_0.inputs.len()
                &&& forall|j: int|
                    0 <= j < func.inputs.len() ==> {
                        &&& is_supported(item.kind->Fn_0.inputs[j])
                        &&& (#[trigger] func.inputs[j]).ty == name_of_type(item.kind->Fn_0.inputs[j])
                    }
            },
{
    let pred = |item: ItemView| is_fn(item);
    assert forall|k: int| 0 <= k < function_items(items).len() implies {
        let item = #[trigger] function_items(items)[k];
        &&& is_fn(item)
        &&& items.contains(item)
        &&& item_supported(item)
    } by {
        items.lemma_filter_pred(pred, k);
        let item = items.filter(pred)[k];
        assert(items.filter(pred).contains(item));
        items.lemma_filter_contains_rev(pred, item);
        let at = choose|at: int| 0 <= at < items.len() && items[at] == item;
        assert(item_supported(items[at]));
    }
}

/// A function declared without a return type is recorded with the unit type
/// as its return type.
pub proof fn lemma_default_return_is_unit(item: ItemView)
    requires
        is_fn(item),
        item.kind->Fn_0.output is DefaultReturn,
    ensures
        signature(item).output == unit_name(),
{
}

/// One function item with an unsupported parameter or return type, wherever
/// it stands, makes the run fail: there is no dump then.
pub proof fn lemma_unsupported_type_fails_run(items: Seq<ItemView>, at: int)
    requires
        0 <= at < items.len(),
        is_fn(items[at]),
        !decl_supported(items[at].kind->Fn_0),
    ensures
        outcome(items) == Err::<Seq<char>, ExtractError>(ExtractError::UnsupportedTypeShape),
{
    assert(!item_supported(items[at]));
}

/// Running again on an unchanged program gives the same outcome: the run
/// depends on the views of its items alone.
pub proof fn lemma_rerun_same_outcome(first: Seq<Item>, second: Seq<Item>)
    requires
        items_view(first) == items_view(second),
    ensures
        outcome(items_view(first)) == outcome(items_view(second)),
{
}

} // verus!

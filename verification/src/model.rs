//! The signature model: canonical type references, parameters and functions.

use vstd::prelude::*;

verus! {

/// The two-character separator between the segments of a canonical name.
pub open spec fn separator() -> Seq<char> {
    seq![':', ':']
}

/// The canonical name of the unit type, used where a function declares no
/// return type.
pub open spec fn unit_name() -> Seq<char> {
    seq!['(', ')']
}

/// Whether `name` can stand as a canonical type name: it is not empty and
/// neither starts nor ends with the separator.
pub open spec fn is_type_name(name: Seq<char>) -> bool {
    &&& name.len() > 0
    &&& !separator().is_prefix_of(name)
    &&& !separator().is_suffix_of(name)
}

/// A canonical type reference.
#[derive(Clone, Debug, PartialEq, Eq)]
pub struct Ty {
    pub name: String,
}

impl View for Ty {
    type V = Seq<char>;

    open spec fn view(&self) -> Seq<char> {
        self.name@
    }
}

impl Ty {
    /// The invariant of a type reference: its name is a canonical type name.
    pub open spec fn wf(&self) -> bool {
        is_type_name(self@)
    }
}

/// The mathematical value of a [`Param`].
pub struct ParamView {
    pub name: Seq<char>,
    pub ty: Seq<char>,
}

/// A parameter of a function: a binding name and the parameter's type.
#[derive(Clone, Debug, PartialEq, Eq)]
pub struct Param {
    pub name: String,
    pub ty: Ty,
}

impl View for Param {
    type V = ParamView;

    open spec fn view(&self) -> ParamView {
        ParamView { name: self.name@, ty: self.ty@ }
    }
}

/// The mathematical value of a [`Function`].
pub struct FunctionView {
    pub name: Seq<char>,
    pub inputs: Seq<ParamView>,
    pub output: Seq<char>,
}

impl FunctionView {
    /// The invariant of a signature: the type of every parameter and the
    /// return type are canonical type names.
    pub open spec fn wf(self) -> bool {
        &&& forall|i: int| 0 <= i < self.inputs.len() ==> is_type_name(#[trigger] self.inputs[i].ty)
        &&& is_type_name(self.output)
    }
}

/// The signature of one function item: its name, its parameters in
/// declaration order, and its return type.
#[derive(Clone, Debug, PartialEq, Eq)]
pub struct Function {
    pub name: String,
    pub inputs: Vec<Param>,
    pub output: Ty,
}

impl View for Function {
    type V = FunctionView;

    open spec fn view(&self) -> FunctionView {
        FunctionView {
            name: self.name@,
            inputs: params_view(self.inputs@),
            output: self.output@,
        }
    }
}

impl Function {
    /// The invariant of a signature, stated of its view.
    pub open spec fn wf(&self) -> bool {
        self@.wf()
    }
}

/// The views of a sequence of parameters, in order.
pub open spec fn params_view(params: Seq<Param>) -> Seq<ParamView> {
    params.map_values(|param: Param| param@)
}

/// The views of a sequence of functions, in order.
pub open spec fn functions_view(functions: Seq<Function>) -> Seq<FunctionView> {
    functions.map_values(|func: Function| func@)
}

/// The unit type's name is a canonical type name.
pub proof fn lemma_unit_name_is_type_name()
    ensures
        is_type_name(unit_name()),
{
    if separator().is_prefix_of(unit_name()) {
        assert(unit_name()[0] == separator()[0]);
    }
    if separator().is_suffix_of(unit_name()) {
        assert(unit_name()[1] == separator()[1]);
    }
}

} // verus!

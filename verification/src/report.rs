//! The reporter: the textual dump of collected signatures.
//!
//! The dump is a header line followed by one line per function,
//! `fn name(p1: T1,p2: T2,) -> Out {}`, each parameter followed by a comma.

use vstd::prelude::*;
use vstd::string::StringExecFns;
use crate::model::{Function, FunctionView, Param, ParamView};

verus! {

/// The first line of every dump.
pub open spec fn header() -> Seq<char> {
    "=== DUMP ===\n"@
}

/// One parameter as it stands in a dump line: `name: Type,`.
pub open spec fn param_text(param: ParamView) -> Seq<char> {
    param.name + ": "@ + param.ty + ","@
}

/// The parameters of a function as they stand between the brackets of its
/// dump line, in declaration order.
pub open spec fn params_text(params: Seq<ParamView>) -> Seq<char>
    decreases params.len(),
{
    if params.len() == 0 {
        Seq::empty()
    } else {
        params_text(params.drop_last()) + param_text(params.last())
    }
}

/// The dump line of one function, with the line feed that ends it.
pub open spec fn function_line(func: FunctionView) -> Seq<char> {
    "fn "@ + func.name + "("@ + params_text(func.inputs) + ") -> "@ + func.output + " {}\n"@
}

/// The dump lines of `funcs`, in order.
pub open spec fn function_lines(funcs: Seq<FunctionView>) -> Seq<char>
    decreases funcs.len(),
{
    if funcs.len() == 0 {
        Seq::empty()
    } else {
        function_lines(funcs.drop_last()) + function_line(funcs.last())
    }
}

/// The whole dump of `funcs`: the header, then the line of each function.
pub open spec fn dump_text(funcs: Seq<FunctionView>) -> Seq<char> {
    header() + function_lines(funcs)
}

/// Appends the text of `param` to `text`.
pub fn render_param(text: &mut String, param: &Param)
    ensures
        final(text)@ == old(text)@ + param_text(param@),
{
    text.append(param.name.as_str());
    text.append(": ");
    text.append(param.ty.name.as_str());
    text.append(",");
    assert(text@ =~= old(text)@ + param_text(param@));
}

/// Appends the dump line of `func` to `text`.
pub fn render_function(text: &mut String, func: &Function)
    ensures
        final(text)@ == old(text)@ + function_line(func@),
{
    text.append("fn ");
    text.append(func.name.as_str());
    text.append("(");
    let ghost before = text@;
    let n = func.inputs.len();
    let mut i: usize = 0;
    while i < n
        invariant
            n == func.inputs.len(),
            i <= n,
            text@ == before + params_text(func@.inputs.take(i as int)),
        decreases n - i,
    {
        render_param(text, &func.inputs[i]);
        proof {
            let next = func@.inputs.take(i + 1);
            assert(next.drop_last() =~= func@.inputs.take(i as int));
            assert(next.last() == func.inputs[i as int]@);
            assert(text@ =~= before + params_text(next));
        }
        i += 1;
    }
    assert(func@.inputs.take(n as int) =~= func@.inputs);
    text.append(") -> ");
    text.append(func.output.name.as_str());
    text.append(" {}\n");
    assert(text@ =~= old(text)@ + function_line(func@));
}

} // verus!

//! The collection context: the ordered store of extracted signatures.

use vstd::prelude::*;
use vstd::string::StringExecFns;
use crate::model::{functions_view, Function, FunctionView};
use crate::report::{dump_text, function_lines, header, render_function};

verus! {

/// The signatures collected during one run, in the order they were pushed.
pub struct TestGenContext {
    functions: Vec<Function>,
}

impl View for TestGenContext {
    type V = Seq<FunctionView>;

    closed spec fn view(&self) -> Seq<FunctionView> {
        functions_view(self.functions@)
    }
}

impl TestGenContext {
    /// The invariant that extraction keeps: every collected signature is
    /// well formed.
    pub open spec fn wf(&self) -> bool {
        forall|i: int| 0 <= i < self@.len() ==> (#[trigger] self@[i]).wf()
    }

    /// An empty context.
    pub fn new() -> (ctx: Self)
        ensures
            ctx@ == Seq::<FunctionView>::empty(),
            ctx.wf(),
    {
        let ctx = Self { functions: Vec::new() };
        assert(ctx@ =~= Seq::<FunctionView>::empty());
        ctx
    }

    /// Appends `func` behind everything pushed before.
    pub fn push_function(&mut self, func: Function)
        ensures
            final(self)@ == old(self)@.push(func@),
            old(self).wf() && func.wf() ==> final(self).wf(),
    {
        self.functions.push(func);
        assert(self@ =~= old(self)@.push(func@));
    }

    /// Everything pushed so far, oldest first.
    pub fn get_functions(&self) -> (functions: &Vec<Function>)
        ensures
            functions_view(functions@) == self@,
    {
        &self.functions
    }

    /// The textual dump of the context: the header line, then one line per
    /// function in the order they were pushed.
    pub fn dump(&self) -> (text: String)
        ensures
            text@ == dump_text(self@),
    {
        let mut text = String::from_str("=== DUMP ===\n");
        let functions = self.get_functions();
        let n = functions.len();
        let mut i: usize = 0;
        while i < n
            invariant
                n == functions.len(),
                functions_view(functions@) == self@,
                i <= n,
                text@ == header() + function_lines(self@.take(i as int)),
            decreases n - i,
        {
            render_function(&mut text, &functions[i]);
            proof {
                let next = self@.take(i + 1);
                assert(next.drop_last() =~= self@.take(i as int));
                assert(next.last() == functions[i as int]@);
                assert(text@ =~= header() + function_lines(next));
            }
            i += 1;
        }
        assert(self@.take(n as int) =~= self@);
        text
    }
}

} // verus!

//! Invocations of scalar extension functions.

use vstd::prelude::*;
use crate::plans::expressions::{
    Function,
    FunctionArgument,
    FunctionArgumentView,
    FunctionView,
};
use crate::types::{Type, TypeView};
use crate::views::seq_views;

verus! {

/// A call of a resolved function on an ordered list of arguments, with the
/// type that the plan declares for its result.
#[derive(Debug, PartialEq, Eq)]
pub struct ScalarFunctionInvocation {
    pub function: Function,
    pub args: Vec<FunctionArgument>,
    pub output_type: Type,
}

/// The mathematical value of a `ScalarFunctionInvocation`.
pub struct ScalarFunctionInvocationView {
    pub function: FunctionView,
    pub args: Seq<FunctionArgumentView>,
    pub output_type: TypeView,
}

impl View for ScalarFunctionInvocation {
    type V = ScalarFunctionInvocationView;

    open spec fn view(&self) -> ScalarFunctionInvocationView
        decreases self,
    {
        ScalarFunctionInvocationView {
            function: self.function@,
            args: Seq::new(
                self.args@.len(),
                |i: int|
                    if 0 <= i < self.args@.len() {
                        self.args@[i]@
                    } else {
                        FunctionArgumentView::Enum(Seq::empty())
                    },
            ),
            output_type: self.output_type@,
        }
    }
}

/// The arguments of an invocation's value are the values of its arguments.
pub proof fn lemma_invocation_args(invocation: ScalarFunctionInvocation)
    ensures
        invocation@.args == seq_views(invocation.args@),
        invocation@.function == invocation.function@,
        invocation@.output_type == invocation.output_type@,
{
    assert(invocation@.args =~= seq_views(invocation.args@));
}

} // verus!

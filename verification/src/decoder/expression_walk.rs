//! Decoding of expression trees without native recursion: the invocations
//! whose arguments are still being decoded wait on an explicit stack, so the
//! depth of a message costs heap and not call stack.

use vstd::prelude::*;
use crate::decoder::ProstPlanDecoder;
use crate::decoder::model::{
    CatalogView,
    argument_spec,
    expression_spec,
    expressions_from,
    invocation_from,
};
use crate::error::{DecodeError, MissingField, decodes_to};
use crate::message::{
    ExpressionMessage,
    FunctionArgumentMessage,
    ScalarFunctionMessage,
    lemma_scalar_function_message_view,
};
use crate::plans::expressions::{
    Expression,
    ExpressionView,
    FunctionArgument,
    FunctionArgumentView,
};
use crate::plans::expressions::scalar_function::{
    ScalarFunctionInvocation,
    lemma_invocation_args,
};
use crate::types::NullabilityReading;
use crate::views::seq_views;

verus! {

/// An invocation under way: its message, and its arguments decoded so far.
struct Frame<'a> {
    call: &'a ScalarFunctionMessage,
    done: Vec<FunctionArgument>,
}

/// What the walk does next: decode an expression from scratch, or go on
/// with the arguments of an invocation.
enum Step<'a> {
    Enter(&'a ExpressionMessage),
    Advance(Frame<'a>),
}

/// What one step leaves behind: the step to take next, or the value of the
/// expression that the step completed.
enum Progress<'a> {
    Next(Step<'a>),
    Produced(Expression),
}

/// What the step under way decodes to.
spec fn step_spec<'a>(catalog: CatalogView, reading: NullabilityReading, step: Step<'a>) -> Result<
    ExpressionView,
    DecodeError,
> {
    match step {
        Step::Enter(message) => expression_spec(catalog, reading, message@),
        Step::Advance(frame) => invocation_from(
            catalog,
            reading,
            frame.call@,
            seq_views(frame.done@),
        ),
    }
}

/// What the whole walk decodes to, given the outcome of the step under way:
/// each waiting invocation, innermost last, takes the value as its next
/// argument and goes on from there; a failure ends the walk.
spec fn resume<'a>(
    catalog: CatalogView,
    reading: NullabilityReading,
    waiting: Seq<Frame<'a>>,
    outcome: Result<ExpressionView, DecodeError>,
) -> Result<ExpressionView, DecodeError>
    decreases waiting.len(),
{
    if waiting.len() == 0 {
        outcome
    } else {
        match outcome {
            Err(e) => Err(e),
            Ok(value) => resume(
                catalog,
                reading,
                waiting.drop_last(),
                invocation_from(
                    catalog,
                    reading,
                    waiting.last().call@,
                    seq_views(waiting.last().done@).push(FunctionArgumentView::Value(value)),
                ),
            ),
        }
    }
}

/// The number of steps that decoding an expression takes at most.
spec fn expression_cost(message: ExpressionMessage) -> nat
    decreases message, 0int,
{
    match message {
        ExpressionMessage::ScalarFunction(call) => 1 + arguments_cost_from(call.arguments@, 0),
        _ => 1,
    }
}

/// The number of steps that the arguments from position `next` on take at
/// most, the step that completes the invocation included.
spec fn arguments_cost_from(arguments: Seq<FunctionArgumentMessage>, next: int) -> nat
    decreases arguments, arguments.len() - next,
{
    if next < 0 || next >= arguments.len() {
        1
    } else {
        1 + argument_cost(arguments[next]) + arguments_cost_from(arguments, next + 1)
    }
}

/// The number of steps that one argument takes beyond the step that reads it.
spec fn argument_cost(message: FunctionArgumentMessage) -> nat
    decreases message, 0int,
{
    match message {
        FunctionArgumentMessage::Value(expression) => expression_cost(expression),
        _ => 0,
    }
}

/// The number of steps that the waiting invocations take at most once the
/// argument that each waits for has arrived.
spec fn waiting_cost<'a>(waiting: Seq<Frame<'a>>) -> nat
    decreases waiting.len(),
{
    if waiting.len() == 0 {
        0
    } else {
        waiting_cost(waiting.drop_last()) + arguments_cost_from(
            waiting.last().call.arguments@,
            waiting.last().done@.len() as int + 1,
        )
    }
}

/// The number of steps that the step under way takes at most.
spec fn step_cost<'a>(step: Step<'a>) -> nat {
    match step {
        Step::Enter(message) => expression_cost(*message),
        Step::Advance(frame) => arguments_cost_from(
            frame.call.arguments@,
            frame.done@.len() as int,
        ),
    }
}

impl ProstPlanDecoder {
    /// Decodes an expression: a literal, a field reference, or a scalar
    /// function invocation with its arguments, the function that its anchor
    /// resolves to in the gathered tables, and its output type.
    pub fn decode_expression(&self, message: &ExpressionMessage) -> (r: Result<
        Expression,
        DecodeError,
    >)
        ensures
            decodes_to(r, expression_spec(self.catalog(), self.reading(), message@)),
    {
        let ghost catalog = self.catalog();
        let ghost reading = self.reading();
        let ghost expected = expression_spec(catalog, reading, message@);
        let mut waiting: Vec<Frame> = Vec::new();
        let mut step = Step::Enter(message);
        loop
            invariant
                catalog == self.catalog(),
                reading == self.reading(),
                expected == expression_spec(catalog, reading, message@),
                resume(catalog, reading, waiting@, step_spec(catalog, reading, step)) == expected,
            decreases waiting_cost(waiting@) + step_cost(step),
        {
            let ghost before = waiting_cost(waiting@) + step_cost(step);
            let progress = match step {
                Step::Enter(entered) => match entered {
                    ExpressionMessage::Unset => {
                        return Err(DecodeError::MalformedPlan(MissingField::RexType));
                    },
                    ExpressionMessage::Literal(literal) => match self.decode_literal(literal) {
                        Err(e) => {
                            return Err(e);
                        },
                        Ok(value) => Progress::Produced(Expression::Literal(value)),
                    },
                    ExpressionMessage::Selection(reference) => match self.decode_field_reference(
                        reference,
                    ) {
                        Err(e) => {
                            return Err(e);
                        },
                        Ok(value) => Progress::Produced(Expression::FieldReference(value)),
                    },
                    ExpressionMessage::Unsupported(kind) => {
                        return Err(DecodeError::UnsupportedExpressionType(*kind));
                    },
                    ExpressionMessage::ScalarFunction(call) => {
                        let frame = Frame { call, done: Vec::new() };
                        proof {
                            assert(seq_views(frame.done@) =~= Seq::empty());
                        }
                        Progress::Next(Step::Advance(frame))
                    },
                },
                Step::Advance(frame) => {
                    let mut frame = frame;
                    let next = frame.done.len();
                    proof {
                        lemma_scalar_function_message_view(*frame.call);
                    }
                    if next < frame.call.arguments.len() {
                        let ghost done = seq_views(frame.done@);
                        assert(arguments_cost_from(frame.call.arguments@, next as int) == 1
                            + argument_cost(frame.call.arguments@[next as int])
                            + arguments_cost_from(frame.call.arguments@, next as int + 1));
                        match &frame.call.arguments[next] {
                            FunctionArgumentMessage::Unset => {
                                return Err(DecodeError::MalformedPlan(MissingField::ArgType));
                            },
                            FunctionArgumentMessage::Enum(name) => {
                                frame.done.push(FunctionArgument::Enum(name.clone()));
                                proof {
                                    assert(seq_views(frame.done@) =~= done.push(
                                        FunctionArgumentView::Enum(name@),
                                    ));
                                }
                                Progress::Next(Step::Advance(frame))
                            },
                            FunctionArgumentMessage::Type(ty) => match self.decode_type(ty) {
                                Err(e) => {
                                    return Err(e);
                                },
                                Ok(decoded) => {
                                    let ghost view = decoded@;
                                    frame.done.push(FunctionArgument::Type(decoded));
                                    proof {
                                        assert(seq_views(frame.done@) =~= done.push(
                                            FunctionArgumentView::Type(view),
                                        ));
                                    }
                                    Progress::Next(Step::Advance(frame))
                                },
                            },
                            FunctionArgumentMessage::Value(inner) => {
                                proof {
                                    assert(waiting@.push(frame).drop_last() =~= waiting@);
                                    assert(waiting_cost(waiting@.push(frame)) == waiting_cost(
                                        waiting@,
                                    ) + arguments_cost_from(
                                        frame.call.arguments@,
                                        next as int + 1,
                                    ));
                                    assert(argument_cost(frame.call.arguments@[next as int])
                                        == expression_cost(*inner));
                                }
                                waiting.push(frame);
                                Progress::Next(Step::Enter(inner))
                            },
                        }
                    } else {
                        let function = match self.lookup_function(frame.call.function_reference) {
                            Err(e) => {
                                return Err(e);
                            },
                            Ok(function) => function,
                        };
                        let output_type = match &frame.call.output_type {
                            None => {
                                return Err(DecodeError::MalformedPlan(MissingField::OutputType));
                            },
                            Some(ty) => match self.decode_type(ty) {
                                Err(e) => {
                                    return Err(e);
                                },
                                Ok(decoded) => decoded,
                            },
                        };
                        let invocation = ScalarFunctionInvocation {
                            function,
                            args: frame.done,
                            output_type,
                        };
                        proof {
                            lemma_invocation_args(invocation);
                        }
                        Progress::Produced(Expression::ScalarFunction(invocation))
                    }
                },
            };
            assert(match progress {
                Progress::Next(next) => waiting_cost(waiting@) + step_cost(next) < before,
                Progress::Produced(_) => waiting_cost(waiting@) + 1 <= before,
            });
            step = match progress {
                Progress::Next(next) => next,
                Progress::Produced(value) => {
                    assert(resume(catalog, reading, waiting@, Ok(value@)) == expected);
                    let ghost queue = waiting@;
                    match waiting.pop() {
                        None => {
                            return Ok(value);
                        },
                        Some(frame) => {
                            let mut frame = frame;
                            let ghost done = seq_views(frame.done@);
                            let ghost view = value@;
                            frame.done.push(FunctionArgument::Value(value));
                            proof {
                                assert(seq_views(frame.done@) =~= done.push(
                                    FunctionArgumentView::Value(view),
                                ));
                                assert(waiting_cost(queue) == waiting_cost(waiting@) + step_cost(
                                    Step::Advance(frame),
                                ));
                            }
                            Step::Advance(frame)
                        },
                    }
                },
            };
        }
    }

    /// Decodes one argument of a function invocation.
    pub fn decode_function_argument(&self, message: &FunctionArgumentMessage) -> (r: Result<
        FunctionArgument,
        DecodeError,
    >)
        ensures
            decodes_to(r, argument_spec(self.catalog(), self.reading(), message@)),
    {
        match message {
            FunctionArgumentMessage::Unset => Err(
                DecodeError::MalformedPlan(MissingField::ArgType),
            ),
            FunctionArgumentMessage::Enum(name) => Ok(FunctionArgument::Enum(name.clone())),
            FunctionArgumentMessage::Type(ty) => match self.decode_type(ty) {
                Err(e) => Err(e),
                Ok(decoded) => Ok(FunctionArgument::Type(decoded)),
            },
            FunctionArgumentMessage::Value(expression) => match self.decode_expression(
                expression,
            ) {
                Err(e) => Err(e),
                Ok(decoded) => Ok(FunctionArgument::Value(decoded)),
            },
        }
    }

    /// Decodes a list of expressions in order, up to the first that fails.
    pub fn decode_expressions(&self, messages: &Vec<ExpressionMessage>) -> (r: Result<
        Vec<Expression>,
        DecodeError,
    >)
        ensures
            match r {
                Ok(decoded) => expressions_from(
                    self.catalog(),
                    self.reading(),
                    seq_views(messages@),
                    0,
                    Seq::empty(),
                ) == Ok::<Seq<ExpressionView>, DecodeError>(seq_views(decoded@)),
                Err(e) => expressions_from(
                    self.catalog(),
                    self.reading(),
                    seq_views(messages@),
                    0,
                    Seq::empty(),
                ) == Err::<Seq<ExpressionView>, DecodeError>(e),
            },
    {
        let mut decoded: Vec<Expression> = Vec::new();
        let mut i: usize = 0;
        assert(seq_views(decoded@) =~= Seq::empty());
        while i < messages.len()
            invariant
                i <= messages.len(),
                expressions_from(
                    self.catalog(),
                    self.reading(),
                    seq_views(messages@),
                    0,
                    Seq::empty(),
                ) == expressions_from(
                    self.catalog(),
                    self.reading(),
                    seq_views(messages@),
                    i as int,
                    seq_views(decoded@),
                ),
            decreases messages.len() - i,
        {
            let ghost done = seq_views(decoded@);
            match self.decode_expression(&messages[i]) {
                Err(e) => {
                    return Err(e);
                },
                Ok(expression) => {
                    let ghost view = expression@;
                    decoded.push(expression);
                    assert(seq_views(decoded@) =~= done.push(view));
                },
            }
            i += 1;
        }
        Ok(decoded)
    }
}

} // verus!

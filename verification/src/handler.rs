//! The request handler: one validated index in, one traced computation,
//! one response out.

use crate::engine::fib;
use crate::engine::fib_outcome;
use crate::engine::fib_spec;
use crate::engine::in_domain;
use crate::engine::lemma_fib_in_domain;
use crate::engine::validation_message;
use crate::engine::ValidationError;
use crate::span::SpanRecord;
use crate::span::SpanRecordView;
use crate::span::TracedSpan;
use vstd::prelude::*;

verus! {

/// The name under which the handler asks the process-wide provider for its
/// tracer.
pub const TRACER_NAME: &'static str = "fibonacci_server";

/// The name of the span that covers one computation.
pub const SPAN_NAME: &'static str = "fibonacci";

/// The span attribute that holds the requested index.
pub const INDEX_ATTRIBUTE: &'static str = "fibonacci.n";

/// The span attribute that holds the computed value.
pub const RESULT_ATTRIBUTE: &'static str = "fibonacci.result";

/// One request: the index whose Fibonacci number is asked for.
#[derive(Debug, Clone, Copy, PartialEq, Eq, Structural)]
pub struct FibonacciRequest {
    pub n: i64,
}

/// One response. A success carries `n` and `result` and an empty message;
/// a failure carries the message and zero for both numbers. A field that
/// is zero or empty is left out of the serialised body.
#[derive(Debug, Clone, PartialEq, Eq)]
pub struct FibonacciResult {
    pub n: i64,
    pub result: i64,
    pub message: String,
}

/// A response as a mathematical value.
pub struct FibonacciResultView {
    pub n: int,
    pub result: int,
    pub message: Seq<char>,
}

impl FibonacciResultView {
    /// The response to a computation that succeeded.
    pub open spec fn success(n: int, result: int) -> FibonacciResultView {
        FibonacciResultView { n, result, message: Seq::empty() }
    }

    /// The response to a computation that was rejected.
    pub open spec fn failure(message: Seq<char>) -> FibonacciResultView {
        FibonacciResultView { n: 0, result: 0, message }
    }

    /// Whether the body holds the field `n`.
    pub open spec fn emits_n(self) -> bool {
        self.n != 0
    }

    /// Whether the body holds the field `result`.
    pub open spec fn emits_result(self) -> bool {
        self.result != 0
    }

    /// Whether the body holds the field `message`.
    pub open spec fn emits_message(self) -> bool {
        self.message.len() != 0
    }

    /// The body is of the success shape: `n` and `result`, no `message`.
    pub open spec fn is_success(self) -> bool {
        self.emits_n() && self.emits_result() && !self.emits_message()
    }

    /// The body is of the failure shape: `message` alone.
    pub open spec fn is_failure(self) -> bool {
        !self.emits_n() && !self.emits_result() && self.emits_message()
    }
}

impl View for FibonacciResult {
    type V = FibonacciResultView;

    open spec fn view(&self) -> FibonacciResultView {
        FibonacciResultView { n: self.n as int, result: self.result as int, message: self.message@ }
    }
}

/// Whether a number is left out of the serialised body.
pub fn is_zero(num: &i64) -> (skip: bool)
    ensures
        skip == (*num == 0),
{
    *num == 0
}

/// Whether a text is left out of the serialised body.
pub fn is_empty(str: &String) -> (skip: bool)
    ensures
        skip == (str@.len() == 0),
{
    str.as_str().is_empty()
}

impl FibonacciResult {
    /// Whether the serialised body holds the field `n`.
    pub fn emits_n(&self) -> (emitted: bool)
        ensures
            emitted == self@.emits_n(),
    {
        !is_zero(&self.n)
    }

    /// Whether the serialised body holds the field `result`.
    pub fn emits_result(&self) -> (emitted: bool)
        ensures
            emitted == self@.emits_result(),
    {
        !is_zero(&self.result)
    }

    /// Whether the serialised body holds the field `message`.
    pub fn emits_message(&self) -> (emitted: bool)
        ensures
            emitted == self@.emits_message(),
    {
        !is_empty(&self.message)
    }
}

/// The span record that the outcome of a computation for index `n` leaves:
/// the index always; on success the value and no status; on failure the
/// error status with the validation message and no value.
pub open spec fn span_of_outcome(n: int, outcome: Result<i64, ValidationError>) -> SpanRecordView {
    let base = SpanRecordView::started(SPAN_NAME@).with_attribute(INDEX_ATTRIBUTE@, n);
    match outcome {
        Ok(result) => base.with_attribute(RESULT_ATTRIBUTE@, result as int).finished(),
        Err(_) => base.with_error(validation_message()).finished(),
    }
}

/// The response that the outcome of a computation for index `n` is
/// answered with.
pub open spec fn response_of_outcome(
    n: int,
    outcome: Result<i64, ValidationError>,
) -> FibonacciResultView {
    match outcome {
        Ok(result) => FibonacciResultView::success(n, result as int),
        Err(_) => FibonacciResultView::failure(validation_message()),
    }
}

/// The span record that a request for index `n` leaves.
pub open spec fn span_of(n: int) -> SpanRecordView {
    span_of_outcome(n, fib_outcome(n))
}

/// The response to a request for index `n`.
pub open spec fn response_of(n: int) -> FibonacciResultView {
    response_of_outcome(n, fib_outcome(n))
}

/// Writes the outcome of a computation for index `n` onto a span: the
/// index, then the value or the error status.
pub fn record_outcome(span: &mut TracedSpan, n: i64, outcome: &Result<i64, ValidationError>)
    ensures
        final(span)@ == match *outcome {
            Ok(result) => old(span)@.with_attribute(INDEX_ATTRIBUTE@, n as int).with_attribute(
                RESULT_ATTRIBUTE@,
                result as int,
            ),
            Err(_) => old(span)@.with_attribute(INDEX_ATTRIBUTE@, n as int).with_error(
                validation_message(),
            ),
        },
{
    span.set_attribute(INDEX_ATTRIBUTE, n);
    match outcome {
        Ok(result) => {
            span.set_attribute(RESULT_ATTRIBUTE, *result);
        },
        Err(error) => {
            span.set_error(error.message());
        },
    }
}

/// Runs the computation for index `n` inside a span of its own and hands
/// back the outcome together with the record of the span, which has been
/// ended by then on either path.
pub fn trace_fibonacci(n: i64) -> (traced: (Result<i64, ValidationError>, SpanRecord))
    ensures
        traced.0 == fib_outcome(n as int),
        traced.1@ == span_of(n as int),
        traced.1@.ended,
{
    let mut span = TracedSpan::start(TRACER_NAME, SPAN_NAME);
    let outcome = fib(n);
    record_outcome(&mut span, n, &outcome);
    let record = span.end();
    (outcome, record)
}

/// Computes the n-th Fibonacci number under tracing. The span that covers
/// the computation has been ended when this returns; its record is what
/// `trace_fibonacci` hands back.
pub fn compute_fibonacci(n: i64) -> (outcome: Result<i64, ValidationError>)
    ensures
        outcome == fib_outcome(n as int),
        in_domain(n as int) <==> outcome.is_ok(),
        outcome matches Ok(value) ==> value == fib_spec(n as nat),
{
    let (outcome, _record) = trace_fibonacci(n);
    proof {
        if in_domain(n as int) {
            lemma_fib_in_domain(n as int);
        }
    }
    outcome
}

/// Builds the response to a request for index `n` from the outcome of its
/// computation.
pub fn respond(n: i64, outcome: Result<i64, ValidationError>) -> (response: FibonacciResult)
    ensures
        response@ == response_of_outcome(n as int, outcome),
{
    match outcome {
        Ok(result) => FibonacciResult { n, result, message: String::new() },
        Err(error) => FibonacciResult { n: 0, result: 0, message: error.message() },
    }
}

/// Handles one request: computes under tracing and answers with the value
/// or with the validation message. A rejected index is an answer like any
/// other; the transport reports success either way.
pub fn fibonacci(req: &FibonacciRequest) -> (response: FibonacciResult)
    ensures
        response@ == response_of(req.n as int),
        in_domain(req.n as int) ==> response@ == FibonacciResultView::success(
            req.n as int,
            fib_spec(req.n as nat) as int,
        ),
        !in_domain(req.n as int) ==> response@ == FibonacciResultView::failure(
            validation_message(),
        ),
{
    let outcome = compute_fibonacci(req.n);
    proof {
        if in_domain(req.n as int) {
            lemma_fib_in_domain(req.n as int);
        }
    }
    respond(req.n, outcome)
}

/// Inside the domain the response has the success shape and holds the
/// index and its Fibonacci number; outside it has the failure shape and
/// holds the validation message. The two shapes never mix.
pub proof fn lemma_response_shape(n: int)
    requires
        i64::MIN <= n <= i64::MAX,
    ensures
        in_domain(n) ==> response_of(n).is_success() && response_of(n).n == n && response_of(
            n,
        ).result == fib_spec(n as nat),
        !in_domain(n) ==> response_of(n).is_failure() && response_of(n).message
            == validation_message(),
        !(response_of(n).is_success() && response_of(n).is_failure()),
{
    reveal_strlit("n must be between 1 and 90");
    if in_domain(n) {
        lemma_fib_in_domain(n);
    }
}

/// Handling the same request twice gives the same response and the same
/// span record: both are functions of the index alone.
pub proof fn lemma_same_request_same_response(
    n: i64,
    first: (FibonacciResult, SpanRecord),
    second: (FibonacciResult, SpanRecord),
)
    requires
        first.0@ == response_of(n as int),
        first.1@ == span_of(n as int),
        second.0@ == response_of(n as int),
        second.1@ == span_of(n as int),
    ensures
        first.0@ == second.0@,
        first.1@ == second.1@,
{
}

/// Every request's span is started once, carries the index as its first
/// attribute, and is ended; it carries the value exactly when the index is
/// in the domain and the error status exactly when it is not.
pub proof fn lemma_span_shape(n: int)
    requires
        i64::MIN <= n <= i64::MAX,
    ensures
        span_of(n).ended,
        span_of(n).name == SPAN_NAME@,
        span_of(n).attributes[0] == (INDEX_ATTRIBUTE@, n),
        in_domain(n) ==> span_of(n).attributes == seq![
            (INDEX_ATTRIBUTE@, n),
            (RESULT_ATTRIBUTE@, fib_spec(n as nat) as int),
        ] && span_of(n).status == crate::span::SpanStatusView::Unset,
        !in_domain(n) ==> span_of(n).attributes == seq![(INDEX_ATTRIBUTE@, n)] && span_of(n).status
            == (crate::span::SpanStatusView::Error { message: validation_message() }),
{
    if in_domain(n) {
        lemma_fib_in_domain(n);
        assert(span_of(n).attributes =~= seq![
            (INDEX_ATTRIBUTE@, n),
            (RESULT_ATTRIBUTE@, fib_spec(n as nat) as int),
        ]);
    } else {
        assert(span_of(n).attributes =~= seq![(INDEX_ATTRIBUTE@, n)]);
    }
}

} // verus!

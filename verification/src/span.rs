//! Spans: one traced operation each, from start to end.
//!
//! A `TracedSpan` drives a span of the telemetry API and keeps, beside it,
//! a plain record of everything it handed to that span. The record is what
//! the contracts speak of: the telemetry API itself promises nothing that
//! could be observed through it (with no provider installed its spans
//! discard what they are given).

use opentelemetry::global::BoxedSpan;
use opentelemetry::global::BoxedTracer;
use opentelemetry::trace::Span;
use opentelemetry::trace::Status;
use opentelemetry::trace::Tracer;
use opentelemetry::KeyValue;
use vstd::prelude::*;

verus! {

/// The span type that tracers of the process-wide provider hand out.
#[verifier::external_type_specification]
#[verifier::external_body]
pub struct ExBoxedSpan(opentelemetry::global::BoxedSpan);

/// The tracer type that the process-wide provider hands out.
#[verifier::external_type_specification]
#[verifier::external_body]
pub struct ExBoxedTracer(opentelemetry::global::BoxedTracer);

/// Calls `opentelemetry::global::tracer`: a tracer of the provider that is
/// registered process-wide at the moment of the call. Nothing is claimed of
/// the tracer.
#[verifier::external_body]
fn global_tracer(name: &'static str) -> BoxedTracer {
    opentelemetry::global::tracer(name)
}

/// Calls `Tracer::span_builder` and `SpanBuilder::start` on the tracer: a
/// new span of the given name, started now. Nothing is claimed of the span.
#[verifier::external_body]
fn tracer_start_span(tracer: &BoxedTracer, name: &'static str) -> BoxedSpan {
    tracer.span_builder(name).start(tracer)
}

/// Calls `Span::set_attribute` with an integer value. Nothing is claimed of
/// the span afterwards.
#[verifier::external_body]
fn span_set_attribute(span: &mut BoxedSpan, key: &'static str, value: i64) {
    span.set_attribute(KeyValue::new(key, value));
}

/// Calls `Span::set_status` with `Status::error` of the message. Nothing is
/// claimed of the span afterwards.
#[verifier::external_body]
fn span_set_error(span: &mut BoxedSpan, message: String) {
    span.set_status(Status::error(message));
}

/// Calls `Span::end` and gives the span up. Nothing is claimed.
#[verifier::external_body]
fn span_end(span: BoxedSpan) {
    let mut span = span;
    span.end();
}

/// The terminal status of a span.
#[derive(Debug, Clone, PartialEq, Eq)]
pub enum SpanStatus {
    /// No status was set; backends read this as success.
    Unset,
    /// The operation was explicitly marked successful.
    Succeeded,
    /// The operation failed, with a description.
    Error { message: String },
}

/// A span status as a mathematical value.
pub enum SpanStatusView {
    Unset,
    Succeeded,
    Error { message: Seq<char> },
}

impl View for SpanStatus {
    type V = SpanStatusView;

    open spec fn view(&self) -> SpanStatusView {
        match self {
            SpanStatus::Unset => SpanStatusView::Unset,
            SpanStatus::Succeeded => SpanStatusView::Succeeded,
            SpanStatus::Error { message } => SpanStatusView::Error { message: message@ },
        }
    }
}

/// One integer attribute of a span.
#[derive(Debug, Clone, PartialEq, Eq)]
pub struct SpanAttribute {
    pub key: String,
    pub value: i64,
}

impl View for SpanAttribute {
    type V = (Seq<char>, int);

    open spec fn view(&self) -> (Seq<char>, int) {
        (self.key@, self.value as int)
    }
}

/// What a span was given between its start and its end.
#[derive(Debug, Clone, PartialEq, Eq)]
pub struct SpanRecord {
    /// The operation's name.
    pub name: String,
    /// The attributes, in the order in which they were set.
    pub attributes: Vec<SpanAttribute>,
    /// The status that was set last.
    pub status: SpanStatus,
    /// Whether the span has been ended.
    pub ended: bool,
}

/// A span record as a mathematical value.
pub struct SpanRecordView {
    pub name: Seq<char>,
    pub attributes: Seq<(Seq<char>, int)>,
    pub status: SpanStatusView,
    pub ended: bool,
}

impl SpanRecordView {
    /// The record of a span that has just been started.
    pub open spec fn started(name: Seq<char>) -> SpanRecordView {
        SpanRecordView {
            name,
            attributes: Seq::empty(),
            status: SpanStatusView::Unset,
            ended: false,
        }
    }

    /// The record after one more attribute was set.
    pub open spec fn with_attribute(self, key: Seq<char>, value: int) -> SpanRecordView {
        SpanRecordView { attributes: self.attributes.push((key, value)), ..self }
    }

    /// The record after the status was set to an error.
    pub open spec fn with_error(self, message: Seq<char>) -> SpanRecordView {
        SpanRecordView { status: SpanStatusView::Error { message }, ..self }
    }

    /// The record after the span was ended.
    pub open spec fn finished(self) -> SpanRecordView {
        SpanRecordView { ended: true, ..self }
    }
}

impl View for SpanRecord {
    type V = SpanRecordView;

    open spec fn view(&self) -> SpanRecordView {
        SpanRecordView {
            name: self.name@,
            attributes: Seq::new(self.attributes@.len(), |i: int| self.attributes@[i]@),
            status: self.status@,
            ended: self.ended,
        }
    }
}

/// A span that has been started and not yet ended.
///
/// Ending consumes the value, so a span is ended at most once; a value that
/// is dropped without `end` is ended by the telemetry API when it is
/// released.
pub struct TracedSpan {
    span: BoxedSpan,
    name: String,
    attributes: Vec<SpanAttribute>,
    status: SpanStatus,
}

impl View for TracedSpan {
    type V = SpanRecordView;

    /// What the span has been given so far; it has not been ended.
    closed spec fn view(&self) -> SpanRecordView {
        SpanRecordView {
            name: self.name@,
            attributes: Seq::new(self.attributes@.len(), |i: int| self.attributes@[i]@),
            status: self.status@,
            ended: false,
        }
    }
}

impl TracedSpan {
    /// Starts a span named `span_name` on the process-wide tracer called
    /// `tracer_name`.
    pub fn start(tracer_name: &'static str, span_name: &'static str) -> (traced: TracedSpan)
        ensures
            traced@ == SpanRecordView::started(span_name@),
    {
        let tracer = global_tracer(tracer_name);
        let span = tracer_start_span(&tracer, span_name);
        let traced = TracedSpan {
            span,
            name: span_name.to_owned(),
            attributes: Vec::new(),
            status: SpanStatus::Unset,
        };
        assert(traced@.attributes =~= Seq::empty());
        traced
    }

    /// Sets an integer attribute on the span.
    pub fn set_attribute(&mut self, key: &'static str, value: i64)
        ensures
            final(self)@ == old(self)@.with_attribute(key@, value as int),
    {
        span_set_attribute(&mut self.span, key, value);
        self.attributes.push(SpanAttribute { key: key.to_owned(), value });
        assert(self@.attributes =~= old(self)@.attributes.push((key@, value as int)));
    }

    /// Marks the span as failed, with a description.
    pub fn set_error(&mut self, message: String)
        ensures
            final(self)@ == old(self)@.with_error(message@),
    {
        self.status = SpanStatus::Error { message: message.clone() };
        span_set_error(&mut self.span, message);
    }

    /// Ends the span and hands back the record of what it was given.
    pub fn end(self) -> (record: SpanRecord)
        ensures
            record@ == self@.finished(),
    {
        let TracedSpan { span, name, attributes, status } = self;
        span_end(span);
        let record = SpanRecord { name, attributes, status, ended: true };
        assert(record@.attributes =~= self@.attributes);
        record
    }
}

} // verus!

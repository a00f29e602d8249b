//! Thread-safe span handles: a reference-counted wrapper around one
//! underlying tracing span, supporting events, status, cross-context child
//! linking and termination. Every operation that touches the span's lock
//! converts an acquisition failure into a typed error instead of panicking.

use vstd::prelude::*;

use opentelemetry::global::ObjectSafeSpan;
use opentelemetry::trace::TraceContextExt;
use opentelemetry::trace::Tracer;

use crate::errors::GlideOTELError;
use crate::TRACE_SCOPE;

verus! {

#[verifier::external_type_specification]
#[verifier::external_body]
pub struct ExBoxedSpan(opentelemetry::global::BoxedSpan);

#[verifier::external_type_specification]
#[verifier::external_body]
pub struct ExSpanContext(opentelemetry::trace::SpanContext);

#[verifier::external_type_specification]
#[verifier::external_body]
pub struct ExKeyValue(opentelemetry::KeyValue);

#[verifier::external_type_specification]
#[verifier::external_body]
#[verifier::reject_recursive_types(T)]
pub struct ExRwLock<T: ?Sized>(std::sync::RwLock<T>);

/// Shared ownership of one underlying span: any number of clones, mutation
/// behind the write lock, inspection behind the read lock.
type SharedSpan = std::sync::Arc<std::sync::RwLock<opentelemetry::global::BoxedSpan>>;

/// Relies on `global::tracer` and `SpanBuilder::start`: creates a span with
/// no parent, of client kind, wrapped in a fresh lock.
#[verifier::external_body]
fn start_root_span(name: &str) -> SharedSpan {
    let tracer = opentelemetry::global::tracer(TRACE_SCOPE);
    std::sync::Arc::new(
        std::sync::RwLock::new(
            tracer.span_builder(name.to_string()).with_kind(
                opentelemetry::trace::SpanKind::Client,
            ).start(&tracer),
        ),
    )
}

/// Relies on `RwLock::read` and `Span::span_context`: returns a snapshot of
/// the span's context, or an error when the read lock cannot be acquired.
#[verifier::external_body]
fn read_span_context(span: &SharedSpan) -> Result<opentelemetry::trace::SpanContext, ()> {
    match span.read() {
        Ok(guard) => Ok(guard.span_context().clone()),
        Err(_) => Err(()),
    }
}

/// Relies on `Context::with_remote_span_context` and
/// `SpanBuilder::start_with_context`: creates a client-kind span whose parent
/// is the given remote context snapshot.
#[verifier::external_body]
fn start_span_with_remote_parent(
    name: &str,
    parent_cx: opentelemetry::trace::SpanContext,
) -> SharedSpan {
    let context = opentelemetry::Context::new().with_remote_span_context(parent_cx);
    let tracer = opentelemetry::global::tracer(TRACE_SCOPE);
    std::sync::Arc::new(
        std::sync::RwLock::new(
            tracer.span_builder(name.to_string()).with_kind(
                opentelemetry::trace::SpanKind::Client,
            ).start_with_context(&tracer, &context),
        ),
    )
}

/// Relies on `KeyValue::new`: pairs the key with the value.
#[verifier::external_body]
fn key_value(key: &str, value: &str) -> opentelemetry::KeyValue {
    opentelemetry::KeyValue::new(key.to_string(), value.to_string())
}

/// Relies on `RwLock::write` and `Span::add_event_with_timestamp`: appends
/// the event, stamped with the current time, or reports a lock failure.
#[verifier::external_body]
fn span_add_event_raw(
    span: &SharedSpan,
    name: &str,
    attributes: Vec<opentelemetry::KeyValue>,
) -> Result<(), ()> {
    match span.write() {
        Ok(mut guard) => {
            guard.add_event_with_timestamp(
                name.to_string().into(),
                std::time::SystemTime::now(),
                attributes,
            );
            Ok(())
        },
        Err(_) => Err(()),
    }
}

/// Relies on `RwLock::write` and `Span::set_status` with `Status::Ok`.
#[verifier::external_body]
fn span_set_status_ok_raw(span: &SharedSpan) -> Result<(), ()> {
    match span.write() {
        Ok(mut guard) => {
            guard.set_status(opentelemetry::trace::Status::Ok);
            Ok(())
        },
        Err(_) => Err(()),
    }
}

/// Relies on `RwLock::write` and `Span::set_status` with `Status::Error`,
/// carrying the given description.
#[verifier::external_body]
fn span_set_status_error_raw(span: &SharedSpan, description: String) -> Result<(), ()> {
    match span.write() {
        Ok(mut guard) => {
            guard.set_status(opentelemetry::trace::Status::Error { description: description.into() });
            Ok(())
        },
        Err(_) => Err(()),
    }
}

/// Relies on `RwLock::write` and `Span::add_link`: records a link to the
/// given span context, with no attributes.
#[verifier::external_body]
fn span_add_link_raw(span: &SharedSpan, link_cx: opentelemetry::trace::SpanContext) -> Result<
    (),
    (),
> {
    match span.write() {
        Ok(mut guard) => {
            guard.add_link(link_cx, Vec::new());
            Ok(())
        },
        Err(_) => Err(()),
    }
}

/// Relies on `RwLock::read`, `Span::span_context` and `SpanId::to_string`:
/// renders the span's identity.
#[verifier::external_body]
fn span_id_string(span: &SharedSpan) -> Result<String, ()> {
    match span.read() {
        Ok(guard) => Ok(guard.span_context().span_id().to_string()),
        Err(_) => Err(()),
    }
}

/// Relies on `RwLock::write` and `Span::end`: marks the span ended and hands
/// it to the export pipeline.
#[verifier::external_body]
fn span_end_raw(span: &SharedSpan) -> Result<(), ()> {
    match span.write() {
        Ok(mut guard) => {
            guard.end();
            Ok(())
        },
        Err(_) => Err(()),
    }
}

/// Status that a caller can put on a span. The last write wins; no history
/// is retained.
pub enum GlideSpanStatus {
    Okay,
    Error(String),
}

#[derive(Clone, Debug)]
struct GlideSpanInner {
    span: SharedSpan,
}

impl GlideSpanInner {
    /// Creates a new root span (no parent) of client kind.
    pub fn new(name: &str) -> Self {
        GlideSpanInner { span: start_root_span(name) }
    }

    /// Creates a new span as a child of `parent`: the child is linked to a
    /// snapshot of the parent's context taken now, not to the live parent.
    /// Reading that snapshot needs only shared access to the parent.
    pub fn new_with_parent(name: &str, parent: &GlideSpanInner) -> (r: Result<Self, GlideOTELError>)
        ensures
            r matches Err(e) ==> e is SpanReadLockError,
    {
        match read_span_context(&parent.span) {
            Ok(parent_cx) => Ok(
                GlideSpanInner { span: start_span_with_remote_parent(name, parent_cx) },
            ),
            Err(_) => Err(GlideOTELError::SpanReadLockError),
        }
    }

    /// Attaches an event with the given name, and attribute pairs if any,
    /// stamped with the call time.
    pub fn add_event(&self, name: &str, attributes: Option<&Vec<(&str, &str)>>) -> (r: Result<
        (),
        GlideOTELError,
    >)
        ensures
            r matches Err(e) ==> e is SpanWriteLockError,
    {
        let mut kvs: Vec<opentelemetry::KeyValue> = Vec::new();
        match attributes {
            Some(pairs) => {
                let n = pairs.len();
                let mut i: usize = 0;
                while i < n
                    invariant
                        i <= n,
                        n == pairs.len(),
                    decreases n - i,
                {
                    kvs.push(key_value(pairs[i].0, pairs[i].1));
                    i = i + 1;
                }
            },
            None => {},
        }
        match span_add_event_raw(&self.span, name, kvs) {
            Ok(_) => Ok(()),
            Err(_) => Err(GlideOTELError::SpanWriteLockError),
        }
    }

    /// Sets the span status; the last write wins.
    pub fn set_status(&self, status: GlideSpanStatus) -> (r: Result<(), GlideOTELError>)
        ensures
            r matches Err(e) ==> e is SpanWriteLockError,
    {
        match status {
            GlideSpanStatus::Okay => match span_set_status_ok_raw(&self.span) {
                Ok(_) => Ok(()),
                Err(_) => Err(GlideOTELError::SpanWriteLockError),
            },
            GlideSpanStatus::Error(what) => match span_set_status_error_raw(&self.span, what) {
                Ok(_) => Ok(()),
                Err(_) => Err(GlideOTELError::SpanWriteLockError),
            },
        }
    }

    /// Creates a new span as a child of this one, records one link to the
    /// child on this span, and returns the child.
    pub fn add_span(&self, name: &str) -> (r: Result<GlideSpanInner, GlideOTELError>)
        ensures
            r matches Err(e) ==> (e is SpanReadLockError || e is SpanWriteLockError),
    {
        let child = match GlideSpanInner::new_with_parent(name, self) {
            Ok(c) => c,
            Err(e) => {
                return Err(e);
            },
        };
        let child_cx = match read_span_context(&child.span) {
            Ok(cx) => cx,
            Err(_) => {
                return Err(GlideOTELError::SpanReadLockError);
            },
        };
        match span_add_link_raw(&self.span, child_cx) {
            Ok(_) => Ok(child),
            Err(_) => Err(GlideOTELError::SpanWriteLockError),
        }
    }

    /// Returns the span's identity as a display string. Needs only shared
    /// access: concurrent reads do not block one another.
    pub fn id(&self) -> (r: Result<String, GlideOTELError>)
        ensures
            r matches Err(e) ==> e is SpanReadLockError,
    {
        match span_id_string(&self.span) {
            Ok(id) => Ok(id),
            Err(_) => Err(GlideOTELError::SpanReadLockError),
        }
    }

    /// Finishes the span and hands it to the export pipeline's batching
    /// queue. Ending a span twice is a caller error, not guarded here.
    pub fn end(&self) -> (r: Result<(), GlideOTELError>)
        ensures
            r matches Err(e) ==> e is SpanWriteLockError,
    {
        match span_end_raw(&self.span) {
            Ok(_) => Ok(()),
            Err(_) => Err(GlideOTELError::SpanWriteLockError),
        }
    }
}

/// Thread-safe, clonable handle over one span. All clones share the same
/// underlying span; the span lives as long as its longest-lived holder.
#[derive(Clone, Debug)]
pub struct GlideSpan {
    inner: GlideSpanInner,
}

impl GlideSpan {
    /// Creates a new root span.
    pub fn new(name: &str) -> Self {
        GlideSpan { inner: GlideSpanInner::new(name) }
    }

    /// Attaches an event with the given name to this span.
    pub fn add_event(&self, name: &str) -> (r: Result<(), GlideOTELError>)
        ensures
            r matches Err(e) ==> e is SpanWriteLockError,
    {
        self.inner.add_event(name, None)
    }

    /// Attaches an event with the given name and attributes to this span.
    pub fn add_event_with_attributes(&self, name: &str, attributes: &Vec<(&str, &str)>) -> (r:
        Result<(), GlideOTELError>)
        ensures
            r matches Err(e) ==> e is SpanWriteLockError,
    {
        self.inner.add_event(name, Some(attributes))
    }

    /// Sets the span status; the last write wins.
    pub fn set_status(&self, status: GlideSpanStatus) -> (r: Result<(), GlideOTELError>)
        ensures
            r matches Err(e) ==> e is SpanWriteLockError,
    {
        self.inner.set_status(status)
    }

    /// Adds a child span to this span and returns it. Exactly one link to
    /// the child is recorded on this span.
    pub fn add_span(&self, name: &str) -> (r: Result<GlideSpan, GlideOTELError>)
        ensures
            r matches Err(e) ==> (e is SpanReadLockError || e is SpanWriteLockError),
    {
        match self.inner.add_span(name) {
            Ok(child) => Ok(GlideSpan { inner: child }),
            Err(e) => Err(e),
        }
    }

    /// Returns the span's identity as a display string.
    pub fn id(&self) -> (r: Result<String, GlideOTELError>)
        ensures
            r matches Err(e) ==> e is SpanReadLockError,
    {
        self.inner.id()
    }

    /// Finishes the span.
    pub fn end(&self) -> (r: Result<(), GlideOTELError>)
        ensures
            r matches Err(e) ==> e is SpanWriteLockError,
    {
        self.inner.end()
    }
}

} // verus!

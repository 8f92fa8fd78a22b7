//! Scoped spans over a recording capability, the tracing enable flag, and the
//! identifiers reserved for forwarding span metadata out of a sandboxed
//! runtime.
//!
//! A span only ever adds observations: running code inside one hands back
//! exactly what the code returns, whichever recorder is in use.
use vstd::prelude::*;

verus! {

/// Field key that carries the real target of a forwarded span.
pub const WASM_TARGET_KEY: &'static str = "target";

/// Field key that carries the real name of a forwarded span.
pub const WASM_NAME_KEY: &'static str = "name";

/// Span name that marks a forwarded span: a collector reads the real name and
/// target from the `WASM_NAME_KEY` and `WASM_TARGET_KEY` fields instead.
pub const WASM_TRACE_IDENTIFIER: &'static str = "wasm_tracing";

/// The two reserved field keys and the reserved span name are pairwise
/// distinct, so a collector can never mistake one for another.
pub proof fn lemma_reserved_identifiers_distinct()
    ensures
        WASM_TARGET_KEY@ != WASM_NAME_KEY@,
        WASM_TARGET_KEY@ != WASM_TRACE_IDENTIFIER@,
        WASM_NAME_KEY@ != WASM_TRACE_IDENTIFIER@,
{
    reveal_strlit("target");
    reveal_strlit("name");
    reveal_strlit("wasm_tracing");
    assert(WASM_TARGET_KEY@.len() != WASM_NAME_KEY@.len());
    assert(WASM_TARGET_KEY@.len() != WASM_TRACE_IDENTIFIER@.len());
    assert(WASM_NAME_KEY@.len() != WASM_TRACE_IDENTIFIER@.len());
}

/// Whether spans from the sandboxed runtime are forwarded. It starts off, can
/// be switched on, and can never be switched off again.
#[derive(Debug)]
pub struct TracingFlag {
    enabled: bool,
}

impl TracingFlag {
    /// Whether the flag is on.
    pub closed spec fn spec_enabled(&self) -> bool {
        self.enabled
    }

    /// A flag that is off.
    pub fn new() -> (r: TracingFlag)
        ensures
            !r.spec_enabled(),
    {
        TracingFlag { enabled: false }
    }

    /// Switches the flag on; it stays on for good.
    pub fn enable(&mut self)
        ensures
            final(self).spec_enabled(),
    {
        self.enabled = true;
    }

    /// Reads the flag.
    pub fn is_enabled(&self) -> (r: bool)
        ensures
            r == self.spec_enabled(),
    {
        self.enabled
    }
}

/// Where spans go. One implementation keeps the span events, another drops
/// them; an embedding may forward them to a host tracing runtime.
pub trait SpanRecorder: Sized {
    /// `after` is `before` once a span named `name` has become active. A
    /// recorder that keeps no state of its own leaves this unconstrained.
    open spec fn entered(before: Self, after: Self, name: Seq<char>) -> bool {
        true
    }

    /// `after` is `before` once the span entered last has stopped being
    /// active. A recorder that keeps no state of its own leaves this
    /// unconstrained.
    open spec fn exited(before: Self, after: Self) -> bool {
        true
    }

    /// A span named `name` becomes active.
    fn enter(&mut self, name: &str)
        ensures
            Self::entered(*old(self), *final(self), name@),
    ;

    /// The span entered last stops being active.
    fn exit(&mut self)
        ensures
            Self::exited(*old(self), *final(self)),
    ;
}

/// A recorder for builds without a tracing runtime: it records nothing.
#[derive(Debug)]
pub struct NoopRecorder;

impl SpanRecorder for NoopRecorder {
    open spec fn entered(before: Self, after: Self, name: Seq<char>) -> bool {
        true
    }

    open spec fn exited(before: Self, after: Self) -> bool {
        true
    }

    fn enter(&mut self, _name: &str) {
    }

    fn exit(&mut self) {
    }
}

/// One event of a span's life.
#[derive(Debug)]
pub enum SpanEvent {
    Enter(String),
    Exit,
}

/// A recorder that keeps every span event, in order.
#[derive(Debug)]
pub struct SpanLog {
    pub events: Vec<SpanEvent>,
}

impl SpanLog {
    /// An empty log.
    pub fn new() -> (r: SpanLog)
        ensures
            r.events@.len() == 0,
    {
        SpanLog { events: Vec::new() }
    }

    /// Appends the entry of span `name`.
    pub fn record_enter(&mut self, name: &str)
        ensures
            final(self).events@.len() == old(self).events@.len() + 1,
            final(self).events@.take(old(self).events@.len() as int) == old(self).events@,
            final(self).events@.last() matches SpanEvent::Enter(n) && n@ == name@,
    {
        self.events.push(SpanEvent::Enter(name.to_string()));
        assert(self.events@.take(old(self).events@.len() as int) =~= old(self).events@);
    }

    /// Appends the exit of the innermost active span.
    pub fn record_exit(&mut self)
        ensures
            final(self).events@ == old(self).events@.push(SpanEvent::Exit),
    {
        self.events.push(SpanEvent::Exit);
    }
}

impl SpanLog {
    /// Runs `code` inside a span named `name`: hands back exactly what `code`
    /// returns, and logs the span's entry and then its exit.
    pub fn run_in_span<T, F: FnOnce() -> T>(&mut self, name: &str, code: F) -> (r: T)
        requires
            code.requires(()),
        ensures
            code.ensures((), r),
            final(self).events@.len() == old(self).events@.len() + 2,
            final(self).events@.take(old(self).events@.len() as int) == old(self).events@,
            final(self).events@[old(self).events@.len() as int] matches SpanEvent::Enter(n)
                && n@ == name@,
            final(self).events@.last() is Exit,
    {
        self.record_enter(name);
        let ghost entered = self.events@;
        let r = code();
        self.record_exit();
        assert(self.events@.take(old(self).events@.len() as int) =~= entered.take(
            old(self).events@.len() as int,
        ));
        r
    }
}

impl SpanRecorder for SpanLog {
    open spec fn entered(before: Self, after: Self, name: Seq<char>) -> bool {
        &&& after.events@.len() == before.events@.len() + 1
        &&& after.events@.take(before.events@.len() as int) == before.events@
        &&& after.events@.last() matches SpanEvent::Enter(n) && n@ == name
    }

    open spec fn exited(before: Self, after: Self) -> bool {
        after.events@ == before.events@.push(SpanEvent::Exit)
    }

    fn enter(&mut self, name: &str) {
        self.record_enter(name);
    }

    fn exit(&mut self) {
        self.record_exit();
    }
}

/// A span that is active until [`EnteredSpan::exit`] is called.
#[must_use]
#[derive(Debug)]
pub struct EnteredSpan {
    _active: (),
}

/// Enters a span named `name`, active until the returned value is exited.
#[must_use]
pub fn enter_span<R: SpanRecorder>(recorder: &mut R, name: &str) -> (r: EnteredSpan)
    ensures
        R::entered(*old(recorder), *final(recorder), name@),
{
    recorder.enter(name);
    EnteredSpan { _active: () }
}

impl EnteredSpan {
    /// Ends the span.
    pub fn exit<R: SpanRecorder>(self, recorder: &mut R)
        ensures
            R::exited(*old(recorder), *final(recorder)),
    {
        recorder.exit();
    }
}

/// Runs `code` inside a span named `name` and hands back exactly what `code`
/// returns: the span is entered, then exited, in `recorder`, and nothing else
/// changes.
pub fn tracing_span<R: SpanRecorder, T, F: FnOnce() -> T>(
    recorder: &mut R,
    name: &str,
    code: F,
) -> (r: T)
    requires
        code.requires(()),
    ensures
        code.ensures((), r),
        exists|inside: R|
            R::entered(*old(recorder), inside, name@) && R::exited(inside, *final(recorder)),
{
    let span = enter_span(recorder, name);
    let ghost inside = *recorder;
    let r = code();
    span.exit(recorder);
    assert(R::entered(*old(recorder), inside, name@) && R::exited(inside, *recorder));
    r
}

} // verus!

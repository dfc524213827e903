//! The streaming compilation pipeline: events, the middleware chain, and
//! the code-generator interfaces.
//!
//! The decoder emits one event per decoded item.  Events pass through an
//! ordered chain of middleware stages; each stage consumes every inbound
//! event exactly once, in order, and pushes zero or more events into a
//! sink, whose contents feed the next stage.  Whatever leaves the last
//! stage is delivered, in that exact order, to the active function code
//! generator.

use vstd::prelude::*;

use crate::backend::Backend;
use crate::backend::CompilerConfig;
use crate::module::ModuleInfo;
use crate::ops::WasmOp;
use crate::trap::CallProtError;
use crate::types::{FuncSig, SigIndex, Type};

verus! {

/// An event generated by the engine itself rather than decoded from the
/// module.
#[derive(Debug, Clone, Copy, PartialEq, Eq, Structural, Hash)]
pub enum InternalEvent {
    /// A function body begins, with its combined function index.
    FunctionBegin(u32),
    /// The current function body ends.
    FunctionEnd,
    /// A breakpoint, carrying the key of a host-registered handler.
    Breakpoint(u32),
    /// Write a scratch slot of the per-instance context.
    SetInternal(u32),
    /// Read a scratch slot of the per-instance context.
    GetInternal(u32),
}

/// What a breakpoint handler learns when it runs.
#[derive(Debug, Clone, Copy, PartialEq, Eq, Structural)]
pub struct BreakpointInfo {
    /// The fault being classified when the breakpoint fired, if any.
    pub fault: Option<CallProtError>,
}

/// One event of the compilation stream: either a decoded operator or an
/// engine-internal marker.
#[derive(Debug, Clone, Copy, PartialEq, Eq, Structural, Hash)]
pub enum Event {
    /// An engine-internal event.
    Internal(InternalEvent),
    /// A decoded operator.
    Wasm(WasmOp),
}

/// The buffer a middleware stage pushes its output events into.
pub struct EventSink {
    /// The buffered events, in push order.
    pub buffer: Vec<Event>,
}

impl EventSink {
    /// The buffered events, in push order.
    pub open spec fn events(&self) -> Seq<Event> {
        self.buffer@
    }

    /// An empty sink.
    pub fn new() -> (r: Self)
        ensures
            r.events() == Seq::<Event>::empty(),
    {
        EventSink { buffer: Vec::new() }
    }

    /// Pushes one event; events come back out in push order.
    pub fn push(&mut self, ev: Event)
        ensures
            final(self).events() == old(self).events().push(ev),
    {
        self.buffer.push(ev);
    }

    /// Takes the buffered events, in push order.
    pub fn into_events(self) -> (r: Vec<Event>)
        ensures
            r@ == self.events(),
    {
        self.buffer
    }
}

/// A middleware stage: a stateful transform of the event stream.
///
/// `spec_transform` is the stage's whole behaviour — from its state and one
/// inbound event to its next state and the events it emits, in order — and
/// `feed_event` must implement exactly that on the path where it succeeds.
pub trait FunctionMiddleware: Sized {
    /// The transform this stage applies to one inbound event.
    spec fn spec_transform(self, event: Event, info: ModuleInfo) -> (Self, Seq<Event>);

    /// Feeds one event, pushing this stage's output into `sink`.
    fn feed_event(&mut self, event: Event, module_info: &ModuleInfo, sink: &mut EventSink) -> (r:
        Result<(), String>)
        ensures
            r is Ok ==> ({
                let t = old(self).spec_transform(event, *module_info);
                *final(self) == t.0 && final(sink).events() == old(sink).events() + t.1
            }),
    ;
}

/// One stage applied to a whole event sequence: events go in one at a time,
/// in order; the outputs concatenate in order; the state threads through.
pub open spec fn spec_feed_seq<M: FunctionMiddleware>(m: M, evs: Seq<Event>, info: ModuleInfo) -> (
    M,
    Seq<Event>,
)
    decreases evs.len(),
{
    if evs.len() == 0 {
        (m, Seq::<Event>::empty())
    } else {
        let t = m.spec_transform(evs[0], info);
        let u = spec_feed_seq(t.0, evs.drop_first(), info);
        (u.0, t.1 + u.1)
    }
}

/// Feeding `evs.push(e)` is feeding `evs`, then feeding `e` from the
/// resulting state, with the outputs concatenated.
pub proof fn lemma_feed_seq_push<M: FunctionMiddleware>(m: M, evs: Seq<Event>, e: Event,
    info: ModuleInfo)
    ensures
        spec_feed_seq(m, evs.push(e), info) == ({
            let t = spec_feed_seq(m, evs, info);
            let u = t.0.spec_transform(e, info);
            (u.0, t.1 + u.1)
        }),
    decreases evs.len(),
{
    let t = spec_feed_seq(m, evs, info);
    let u = t.0.spec_transform(e, info);
    if evs.len() == 0 {
        assert(evs.push(e)[0] == e);
        assert(evs.push(e).drop_first() =~= Seq::<Event>::empty());
        let w = m.spec_transform(e, info);
        assert(spec_feed_seq(w.0, Seq::<Event>::empty(), info) == (
            w.0,
            Seq::<Event>::empty(),
        ));
        assert(spec_feed_seq(m, evs.push(e), info).0 == w.0);
        assert(t == (m, Seq::<Event>::empty()));
        assert(spec_feed_seq(m, evs.push(e), info).1 =~= w.1 + Seq::<Event>::empty());
        assert(w.1 + Seq::<Event>::empty() =~= w.1);
        assert(t.1 + u.1 =~= u.1);
    } else {
        let h = m.spec_transform(evs[0], info);
        assert(evs.push(e)[0] == evs[0]);
        assert(evs.push(e).drop_first() =~= evs.drop_first().push(e));
        lemma_feed_seq_push(h.0, evs.drop_first(), e, info);
        let t1 = spec_feed_seq(h.0, evs.drop_first(), info);
        let u1 = t1.0.spec_transform(e, info);
        assert(spec_feed_seq(m, evs.push(e), info).1 =~= h.1 + (t1.1 + u1.1));
        assert(h.1 + (t1.1 + u1.1) =~= (h.1 + t1.1) + u1.1);
        assert(t.1 =~= h.1 + t1.1);
        assert(t.0 == t1.0);
        assert(spec_feed_seq(m, evs.push(e), info).1 =~= t.1 + u.1);
    }
}

/// The whole chain applied to a whole event sequence: the first stage
/// transforms the sequence, its output feeds the rest of the chain.
pub open spec fn spec_chain_run<M: FunctionMiddleware>(stages: Seq<M>, evs: Seq<Event>,
    info: ModuleInfo) -> (Seq<M>, Seq<Event>)
    decreases stages.len(),
{
    if stages.len() == 0 {
        (stages, evs)
    } else {
        let t = spec_feed_seq(stages[0], evs, info);
        let r = spec_chain_run(stages.drop_first(), t.1, info);
        (seq![t.0] + r.0, r.1)
    }
}

/// The ordered chain of middleware stages between the decoder and the code
/// generator.
pub struct MiddlewareChain<M: FunctionMiddleware> {
    /// The stages, in application order.
    pub chain: Vec<M>,
}

impl<M: FunctionMiddleware> MiddlewareChain<M> {
    /// An empty chain, which delivers every event unchanged.
    pub fn new() -> (r: Self)
        ensures
            r.chain@.len() == 0,
    {
        MiddlewareChain { chain: Vec::new() }
    }

    /// Appends a stage; it will run after every stage already present.
    pub fn push(&mut self, m: M)
        ensures
            final(self).chain@ == old(self).chain@.push(m),
    {
        self.chain.push(m);
    }

    /// Feeds one inbound event through every stage, in order.
    ///
    /// On success the returned events are exactly what leaves the last
    /// stage, in emission order, ready to be delivered to the active
    /// function code generator; every stage has seen each of its inbound
    /// events exactly once.  A stage error aborts the run and is returned;
    /// the chain keeps all its stages, the failing one in whatever state
    /// the partial feed left it.  An empty chain cannot fail.
    pub fn run(&mut self, event: Event, module_info: &ModuleInfo) -> (r: Result<Vec<Event>, String>)
        ensures
            r matches Ok(out) ==> ({
                let t = spec_chain_run(old(self).chain@, seq![event], *module_info);
                final(self).chain@ == t.0 && out@ == t.1
            }),
            old(self).chain@.len() == 0 ==> r is Ok,
            r is Err ==> final(self).chain@.len() == old(self).chain@.len(),
    {
        let ghost info = *module_info;
        let ghost orig = self.chain@;
        let mut current: Vec<Event> = Vec::new();
        current.push(event);
        proof {
            assert(current@ =~= seq![event]);
            assert(orig.skip(0) =~= orig);
            assert(self.chain@.take(0) =~= Seq::<M>::empty());
            assert(Seq::<M>::empty() + spec_chain_run(orig, current@, info).0 =~= spec_chain_run(
                orig,
                current@,
                info,
            ).0);
        }
        let n = self.chain.len();
        for s in 0..n
            invariant
                n == self.chain@.len(),
                orig.len() == n,
                orig == old(self).chain@,
                *module_info == info,
                forall|k: int| s <= k < n ==> self.chain@[k] == orig[k],
                spec_chain_run(orig, seq![event], info).0 == self.chain@.take(s as int)
                    + spec_chain_run(orig.skip(s as int), current@, info).0,
                spec_chain_run(orig, seq![event], info).1 == spec_chain_run(
                    orig.skip(s as int),
                    current@,
                    info,
                ).1,
        {
            let ghost chain_top = self.chain@;
            let ghost cur_top = current@;
            let mut stage = self.chain.remove(s);
            let ghost m0 = stage;
            proof {
                assert(m0 == orig[s as int]);
            }
            let mut sink = EventSink::new();
            proof {
                assert(current@.take(0) =~= Seq::<Event>::empty());
                assert(spec_feed_seq(m0, Seq::<Event>::empty(), info) == (
                    m0,
                    Seq::<Event>::empty(),
                ));
            }
            let cl = current.len();
            for i in 0..cl
                invariant
                    cl == current@.len(),
                    current@ == cur_top,
                    *module_info == info,
                    self.chain@ == chain_top.remove(s as int),
                    self.chain@.len() + 1 == orig.len(),
                    orig == old(self).chain@,
                    s < orig.len(),
                    chain_top.len() == orig.len(),
                    spec_feed_seq(m0, current@.take(i as int), info).0 == stage,
                    spec_feed_seq(m0, current@.take(i as int), info).1 == sink.events(),
            {
                let ev = current[i];
                match stage.feed_event(ev, module_info, &mut sink) {
                    Ok(_) => {},
                    Err(e) => {
                        self.chain.insert(s, stage);
                        return Err(e);
                    },
                }
                proof {
                    lemma_feed_seq_push(m0, cur_top.take(i as int), cur_top[i as int], info);
                    assert(cur_top.take(i as int).push(cur_top[i as int]) =~= cur_top.take(
                        i as int + 1,
                    ));
                }
            }
            proof {
                assert(cur_top.take(cl as int) =~= cur_top);
            }
            let ghost m_new = stage;
            self.chain.insert(s, stage);
            current = sink.into_events();
            proof {
                assert(self.chain@ =~= chain_top.update(s as int, m_new));
                let t = spec_feed_seq(m0, cur_top, info);
                assert(t.0 == m_new && t.1 == current@);
                let tail = orig.skip(s as int);
                assert(tail.len() > 0);
                assert(tail[0] == orig[s as int]);
                assert(tail.drop_first() =~= orig.skip(s as int + 1));
                let rem_next = spec_chain_run(orig.skip(s as int + 1), current@, info);
                assert(spec_chain_run(tail, cur_top, info).0 =~= seq![m_new] + rem_next.0);
                assert(spec_chain_run(tail, cur_top, info).1 == rem_next.1);
                assert(self.chain@.take(s as int + 1) =~= chain_top.take(s as int).push(m_new));
                assert(chain_top.take(s as int) + (seq![m_new] + rem_next.0) =~= self.chain@.take(
                    s as int + 1,
                ) + rem_next.0);
            }
        }
        proof {
            assert(orig.skip(n as int).len() == 0);
            assert(spec_chain_run(orig.skip(n as int), current@, info) == (
                orig.skip(n as int),
                current@,
            ));
            assert(self.chain@.take(n as int) =~= self.chain@);
            assert(self.chain@.take(n as int) + orig.skip(n as int) =~= self.chain@);
        }
        Ok(current)
    }
}

/// Feeding a concatenation through one stage equals feeding the parts one
/// after the other: the outputs concatenate and the state threads through.
pub proof fn lemma_feed_seq_concat<M: FunctionMiddleware>(m: M, evs1: Seq<Event>, evs2: Seq<Event>,
    info: ModuleInfo)
    ensures
        spec_feed_seq(m, evs1 + evs2, info) == ({
            let t = spec_feed_seq(m, evs1, info);
            let u = spec_feed_seq(t.0, evs2, info);
            (u.0, t.1 + u.1)
        }),
    decreases evs1.len(),
{
    let t = spec_feed_seq(m, evs1, info);
    let u = spec_feed_seq(t.0, evs2, info);
    if evs1.len() == 0 {
        assert(evs1 + evs2 =~= evs2);
        assert(t == (m, Seq::<Event>::empty()));
        assert(t.1 + u.1 =~= u.1);
    } else {
        let h = m.spec_transform(evs1[0], info);
        assert((evs1 + evs2)[0] == evs1[0]);
        assert((evs1 + evs2).drop_first() =~= evs1.drop_first() + evs2);
        lemma_feed_seq_concat(h.0, evs1.drop_first(), evs2, info);
        let t1 = spec_feed_seq(h.0, evs1.drop_first(), info);
        let u1 = spec_feed_seq(t1.0, evs2, info);
        assert(t.0 == t1.0 && t.1 == h.1 + t1.1);
        assert(h.1 + (t1.1 + u1.1) =~= (h.1 + t1.1) + u1.1);
        assert(spec_feed_seq(m, evs1 + evs2, info).1 == h.1 + (t1.1 + u1.1));
        assert(spec_feed_seq(m, evs1 + evs2, info).0 == u.0);
    }
}

/// Ordering preservation across deliveries: running the chain over a
/// concatenation of event sequences yields the concatenation of the
/// outputs, in delivery order.  Events delivered earlier can never be
/// reordered behind events delivered later, whatever the stages do.
pub proof fn lemma_chain_run_concat<M: FunctionMiddleware>(stages: Seq<M>, evs1: Seq<Event>,
    evs2: Seq<Event>, info: ModuleInfo)
    ensures
        spec_chain_run(stages, evs1 + evs2, info) == ({
            let t = spec_chain_run(stages, evs1, info);
            let u = spec_chain_run(t.0, evs2, info);
            (u.0, t.1 + u.1)
        }),
    decreases stages.len(),
{
    let t = spec_chain_run(stages, evs1, info);
    let u = spec_chain_run(t.0, evs2, info);
    if stages.len() == 0 {
        assert(t == (stages, evs1));
        assert(u == (stages, evs2));
    } else {
        lemma_feed_seq_concat(stages[0], evs1, evs2, info);
        let f1 = spec_feed_seq(stages[0], evs1, info);
        let f2 = spec_feed_seq(f1.0, evs2, info);
        lemma_chain_run_concat(stages.drop_first(), f1.1, f2.1, info);
        let c1 = spec_chain_run(stages.drop_first(), f1.1, info);
        let c2 = spec_chain_run(c1.0, f2.1, info);
        assert(t.0 == seq![f1.0] + c1.0 && t.1 == c1.1);
        assert(t.0.len() > 0);
        assert(t.0[0] == f1.0);
        assert(t.0.drop_first() =~= c1.0);
        assert(u.0 =~= seq![f2.0] + c2.0);
        assert(u.1 == c2.1);
        assert(spec_chain_run(stages, evs1 + evs2, info).0 =~= seq![f2.0] + c2.0);
        assert(spec_chain_run(stages, evs1 + evs2, info).1 == c1.1 + c2.1);
    }
}

/// A stage that passes every event through unchanged, never touching its
/// own state.
pub open spec fn is_pass_through<M: FunctionMiddleware>(m: M, info: ModuleInfo) -> bool {
    forall|ev: Event| #[trigger] m.spec_transform(ev, info) == (m, seq![ev])
}

/// A pass-through stage leaves any event sequence unchanged.
pub proof fn lemma_feed_seq_pass_through<M: FunctionMiddleware>(m: M, evs: Seq<Event>,
    info: ModuleInfo)
    requires
        is_pass_through(m, info),
    ensures
        spec_feed_seq(m, evs, info) == (m, evs),
    decreases evs.len(),
{
    if evs.len() == 0 {
        assert(evs =~= Seq::<Event>::empty());
    } else {
        assert(m.spec_transform(evs[0], info) == (m, seq![evs[0]]));
        lemma_feed_seq_pass_through(m, evs.drop_first(), info);
        assert(seq![evs[0]] + evs.drop_first() =~= evs);
    }
}

/// A chain of pass-through stages delivers every event sequence exactly as
/// it came in: same events, same order, nothing dropped, nothing added.
pub proof fn lemma_pass_through_chain_identity<M: FunctionMiddleware>(stages: Seq<M>,
    evs: Seq<Event>, info: ModuleInfo)
    requires
        forall|k: int| 0 <= k < stages.len() ==> is_pass_through(#[trigger] stages[k], info),
    ensures
        spec_chain_run(stages, evs, info) == (stages, evs),
    decreases stages.len(),
{
    if stages.len() == 0 {
    } else {
        lemma_feed_seq_pass_through(stages[0], evs, info);
        lemma_pass_through_chain_identity(stages.drop_first(), evs, info);
        assert(seq![stages[0]] + stages.drop_first() =~= stages);
    }
}

/// A middleware stage that lets an embedder instrument long-running code:
/// after every `period`-th decoded operator it inserts a breakpoint event,
/// whose handler may, for example, raise an early trap to implement a
/// timeout.  All events pass through unchanged and in order.
#[derive(Debug, Clone, Copy, PartialEq, Eq, Structural)]
pub struct BreakpointMiddleware {
    /// Insert a breakpoint after every this many decoded operators.
    pub period: u32,
    /// Decoded operators seen since the last inserted breakpoint.
    pub seen: u32,
    /// The handler key carried by the inserted breakpoint events.
    pub handler: u32,
}

impl BreakpointMiddleware {
    /// A stage that emits a breakpoint with `handler` after every
    /// `period`-th decoded operator.
    pub fn new(period: u32, handler: u32) -> (r: Self)
        ensures
            r == (BreakpointMiddleware { period, seen: 0, handler }),
    {
        BreakpointMiddleware { period, seen: 0, handler }
    }
}

impl FunctionMiddleware for BreakpointMiddleware {
    open spec fn spec_transform(self, event: Event, info: ModuleInfo) -> (Self, Seq<Event>) {
        match event {
            Event::Wasm(_) => {
                if self.seen + 1 >= self.period {
                    (
                        BreakpointMiddleware {
                            period: self.period,
                            seen: 0,
                            handler: self.handler,
                        },
                        seq![event, Event::Internal(InternalEvent::Breakpoint(self.handler))],
                    )
                } else {
                    (
                        BreakpointMiddleware {
                            period: self.period,
                            seen: (self.seen + 1) as u32,
                            handler: self.handler,
                        },
                        seq![event],
                    )
                }
            },
            Event::Internal(_) => (self, seq![event]),
        }
    }

    fn feed_event(&mut self, event: Event, module_info: &ModuleInfo, sink: &mut EventSink) -> (r:
        Result<(), String>) {
        match event {
            Event::Wasm(_) => {
                sink.push(event);
                if (self.seen as u64) + 1 >= (self.period as u64) {
                    self.seen = 0;
                    sink.push(Event::Internal(InternalEvent::Breakpoint(self.handler)));
                    proof {
                        assert(final(sink).events() =~= old(sink).events() + seq![
                            event,
                            Event::Internal(InternalEvent::Breakpoint(self.handler)),
                        ]);
                    }
                } else {
                    self.seen = self.seen + 1;
                    proof {
                        assert(final(sink).events() =~= old(sink).events() + seq![event]);
                    }
                }
            },
            Event::Internal(_) => {
                sink.push(event);
                proof {
                    assert(final(sink).events() =~= old(sink).events() + seq![event]);
                }
            },
        }
        Ok(())
    }
}

/// The function-scope code generator: receives one function's declarations
/// and event stream and lowers them into a backend function body.
pub trait FunctionCodeGenerator: Sized {
    /// Declares one return type of the function.
    fn feed_return(&mut self, ty: Type) -> Result<(), String>;

    /// Declares one parameter; parameters precede locals.
    fn feed_param(&mut self, ty: Type) -> Result<(), String>;

    /// Declares `n` locals of one type.
    fn feed_local(&mut self, ty: Type, n: usize) -> Result<(), String>;

    /// Called after declarations, before the first operator.
    fn begin_body(&mut self, module_info: &ModuleInfo) -> Result<(), String>;

    /// Feeds one event leaving the middleware chain.
    fn feed_event(&mut self, event: Event, module_info: &ModuleInfo) -> Result<(), String>;

    /// Closes the function body.
    fn finalize(&mut self) -> Result<(), String>;
}

/// The module-scope code generator: owns per-backend compilation state,
/// hands out one function code generator per defined function, and seals
/// the compiled module.
pub trait ModuleCodeGenerator: Sized {
    /// The function-scope generator this backend uses.
    type FCG: FunctionCodeGenerator;

    /// The runnable module `finalize` produces.
    type RM;

    /// The canonical signature table this generator holds, as fed.
    spec fn sig_table(&self) -> Seq<FuncSig>;

    /// The function-to-signature association this generator holds, as
    /// fed.
    spec fn assoc_table(&self) -> Seq<SigIndex>;

    /// A fresh module code generator.
    fn new() -> Self;

    /// Identifies the emitter behind this generator.
    fn backend_id() -> Backend;

    /// Feeds the compiler configuration, which leaves the fed tables
    /// alone.
    fn feed_compiler_config(&mut self, config: &CompilerConfig) -> (r: Result<(), String>)
        ensures
            r is Ok ==> final(self).sig_table() == old(self).sig_table() && final(self).assoc_table() == old(self).assoc_table(),
    ;

    /// Installs the canonical signature table, unchanged.
    fn feed_signatures(&mut self, signatures: Vec<FuncSig>) -> (r: Result<(), String>)
        ensures
            r is Ok ==> final(self).sig_table() == signatures@ && final(self).assoc_table() == old(
                self,
            ).assoc_table(),
    ;

    /// Installs the function-to-signature association, unchanged.
    fn feed_function_signatures(&mut self, assoc: Vec<SigIndex>) -> (r: Result<(), String>)
        ensures
            r is Ok ==> final(self).assoc_table() == assoc@ && final(self).sig_table() == old(
                self,
            ).sig_table(),
    ;

    /// Records one imported function slot; the fed tables stay.
    fn feed_import_function(&mut self) -> (r: Result<(), String>)
        ensures
            r is Ok ==> final(self).sig_table() == old(self).sig_table() && final(self).assoc_table() == old(self).assoc_table(),
    ;

    /// Lets the backend refuse a module before compilation starts; the
    /// fed tables stay.
    fn check_precondition(&mut self, module_info: &ModuleInfo) -> (r: Result<(), String>)
        ensures
            r is Ok ==> final(self).sig_table() == old(self).sig_table() && final(self).assoc_table() == old(self).assoc_table(),
    ;

    /// Allocates the function code generator for the next defined function,
    /// in declaration order; the fed tables stay.
    fn next_function(&mut self, module_info: &ModuleInfo) -> (r: Result<Self::FCG, String>)
        ensures
            r is Ok ==> final(self).sig_table() == old(self).sig_table() && final(self).assoc_table() == old(self).assoc_table(),
    ;

    /// Takes a finished function body back; the fed tables stay.
    fn submit_function(&mut self, fcg: Self::FCG) -> (r: Result<(), String>)
        ensures
            r is Ok ==> final(self).sig_table() == old(self).sig_table() && final(self).assoc_table() == old(self).assoc_table(),
    ;

    /// Seals the module: links every function body into the runnable
    /// artifact and returns it with its persistable cache record, whose
    /// tables are exactly the fed ones.
    fn finalize(self, module_info: &ModuleInfo) -> (r: Result<
        (Self::RM, crate::backend::Artifact),
        String,
    >)
        ensures
            r matches Ok(out) ==> out.1.signatures@ == self.sig_table() && out.1.func_assoc@
                == self.assoc_table(),
    ;

    /// Rehydrates a runnable module from a cache record, without
    /// recompiling.
    fn from_cache(cache: crate::backend::Artifact) -> Result<Self::RM, String>;
}

/// What the decoder is configured to accept.
#[derive(Debug, Clone, Copy, PartialEq, Eq, Structural)]
pub struct ValidationConfig {
    /// Accept the threads proposal.
    pub threads: bool,
    /// Accept reference types.
    pub reference_types: bool,
    /// Accept SIMD operators.
    pub simd: bool,
    /// Accept bulk-memory operators.
    pub bulk_memory: bool,
    /// Accept multiple results.
    pub multi_value: bool,
    /// Accept imported mutable globals.
    pub mutable_global_imports: bool,
}

/// The decoder configuration the pipeline compiles under: SIMD on, every
/// other proposal off.
pub fn default_validating_parser_config() -> (r: ValidationConfig)
    ensures
        r == (ValidationConfig {
            threads: false,
            reference_types: false,
            simd: true,
            bulk_memory: false,
            multi_value: false,
            mutable_global_imports: false,
        }),
{
    ValidationConfig {
        threads: false,
        reference_types: false,
        simd: true,
        bulk_memory: false,
        multi_value: false,
        mutable_global_imports: false,
    }
}

/// Whether a backend needs the complete validation pre-pass before the
/// streaming compilation starts.
pub fn requires_pre_validation(backend: Backend) -> (r: bool)
    ensures
        r == (backend is Cranelift),
{
    match backend {
        Backend::Cranelift => true,
        Backend::LLVM => false,
        Backend::Singlepass => false,
    }
}

/// Validates a binary under the pipeline's decoder configuration.
pub(crate) fn validate(bytes: &[u8]) -> (r: crate::error::CompileResult<()>)
    ensures
        r is Ok <==> crate::wasm_validates(bytes@, true, false, false, false, false, false),
        r matches Err(e) ==> e is ValidationError,
{
    let config = default_validating_parser_config();
    match crate::run_validator(bytes, &config) {
        Ok(()) => Ok(()),
        Err(msg) => Err(crate::error::CompileError::ValidationError { msg }),
    }
}

/// A compiler: turns a validated, decoded module into a runnable module
/// and its cache record.
pub trait Compiler: Sized {
    /// The runnable module this compiler produces.
    type RM;

    /// Whether this compiler's validation pre-pass accepts a binary.  A
    /// compiler without a pre-pass accepts every binary here.
    spec fn accepts(wasm: Seq<u8>) -> bool;

    /// Whether this compiler can rehydrate a cache record.
    spec fn reload_ok(cache: crate::backend::Artifact) -> bool;

    /// Compiles a decoded module.  `wasm` is the binary itself, for the
    /// validation pre-pass of backends that need one: a refused binary is
    /// reported as a validation error and nothing is compiled.
    fn compile(&mut self, wasm: &[u8], module: &crate::module::DecodedModule,
        config: &CompilerConfig) -> (r: crate::error::CompileResult<
        (Self::RM, crate::backend::Artifact),
    >)
        ensures
            r is Ok ==> Self::accepts(wasm@),
            !Self::accepts(wasm@) ==> (r matches Err(e) && e is ValidationError),
    ;

    /// Rehydrates a runnable module from a cache record; succeeds exactly
    /// when the record can be reloaded.
    fn from_cache(&self, cache: crate::backend::Artifact) -> (r: Result<Self::RM, String>)
        ensures
            r is Ok <==> Self::reload_ok(cache),
    ;
}

/// The streaming compiler: drives the decoded module through the
/// middleware chain into a module code generator, in the pipeline's fixed
/// order — signatures, the association, one import marker per imported
/// function, then each defined function's declarations and events.
///
/// The order itself is enforced by the generator's lifecycle contract:
/// a generator whose phase machine refuses out-of-order feeding turns a
/// successful compile into evidence that the order was respected.
pub struct StreamingCompiler<MCG: ModuleCodeGenerator, M: FunctionMiddleware> {
    /// The middleware chain events pass through.
    pub chain: MiddlewareChain<M>,
    /// The backend this compiler drives.
    pub backend: core::marker::PhantomData<MCG>,
}

/// Builds streaming compilers with an empty middleware chain.
pub struct SimpleStreamingCompilerGen {
}

impl SimpleStreamingCompilerGen {
    /// A streaming compiler whose chain delivers every event unchanged.
    pub fn new<MCG: ModuleCodeGenerator, M: FunctionMiddleware>() -> (r: StreamingCompiler<
        MCG,
        M,
    >)
        ensures
            r.chain.chain@.len() == 0,
    {
        StreamingCompiler::new(MiddlewareChain::new())
    }
}

impl<MCG: ModuleCodeGenerator, M: FunctionMiddleware> StreamingCompiler<MCG, M> {
    /// A streaming compiler that runs every event through `chain`.
    pub fn new(chain: MiddlewareChain<M>) -> (r: Self)
        ensures
            r.chain == chain,
    {
        StreamingCompiler { chain, backend: core::marker::PhantomData }
    }
}

} // verus!

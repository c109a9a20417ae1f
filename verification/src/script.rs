//! Compiling a source text against a context, and running the result: the
//! steps that the host takes while the engine executes a script.

use vstd::prelude::*;
use vstd::string::*;
use crate::binding::{
    slot_value, Action, ActionView, Invocation, InvocationView, NativeOutcome, NativeOutcomeView,
    Request, RequestView, Scope,
};
use crate::context::{answer_of, globals_after_request, ExecutionContext, Globals, Property};
use crate::error::{CompileError, CompileErrorView, RuntimeError, RuntimeErrorView};
use crate::handle::ContextHandle;
use crate::isolate::Isolate;
use crate::table::NameTable;
use crate::value::{Value, ValueView};

verus! {

/// What the engine's parser made of a source text.
#[derive(Debug, PartialEq, Eq)]
pub enum ParseVerdict {
    /// The text is a script.
    Accepted,
    /// The text is malformed at the given place.
    Rejected { line: u32, column: u32, message: String },
}

/// What a `ParseVerdict` holds, as mathematical values.
pub enum ParseVerdictView {
    Accepted,
    Rejected { line: u32, column: u32, message: Seq<char> },
}

impl View for ParseVerdict {
    type V = ParseVerdictView;

    open spec fn view(&self) -> ParseVerdictView {
        match self {
            ParseVerdict::Accepted => ParseVerdictView::Accepted,
            ParseVerdict::Rejected { line, column, message } => ParseVerdictView::Rejected {
                line: *line,
                column: *column,
                message: message@,
            },
        }
    }
}

/// What a `CompiledScript` holds, as mathematical values.
pub struct ScriptView {
    pub context: ContextHandle,
    pub source: Seq<char>,
}

/// What compiling `source` against `context` comes to, given the engine's
/// verdict on the text: the script, bound to the context, or the error with
/// the place and the message of the verdict.
pub open spec fn compile_of(
    context: ContextHandle,
    source: Seq<char>,
    verdict: ParseVerdictView,
) -> Result<ScriptView, CompileErrorView> {
    match verdict {
        ParseVerdictView::Accepted => Ok(ScriptView { context, source }),
        ParseVerdictView::Rejected { line, column, message } => Err(
            CompileErrorView { line, column, message },
        ),
    }
}

/// A script that the engine accepted, bound to the context it was compiled
/// against. It can be run any number of times.
#[derive(Debug, PartialEq, Eq)]
pub struct CompiledScript {
    context: ContextHandle,
    source: String,
}

impl View for CompiledScript {
    type V = ScriptView;

    closed spec fn view(&self) -> ScriptView {
        ScriptView { context: self.context, source: self.source@ }
    }
}

impl CompiledScript {
    /// The context that the script is bound to.
    pub open spec fn spec_context(&self) -> ContextHandle {
        self@.context
    }

    /// The context that the script is bound to.
    #[verifier::when_used_as_spec(spec_context)]
    pub fn context(&self) -> (r: ContextHandle)
        ensures
            r == self.spec_context(),
    {
        self.context
    }

    /// The source text of the script.
    pub fn source_text(&self) -> (r: &str)
        ensures
            r@ == self@.source,
    {
        self.source.as_str()
    }
}

/// How the engine's execution of a script ended.
#[derive(Debug, PartialEq, Eq)]
pub enum Completion {
    /// The script ran to its end; this is the value of what it evaluated last.
    Value(Value),
    /// The script raised this value and nothing in it caught it.
    Threw(Value),
}

/// What a `Completion` holds, as mathematical values.
pub enum CompletionView {
    Value(ValueView),
    Threw(ValueView),
}

impl View for Completion {
    type V = CompletionView;

    open spec fn view(&self) -> CompletionView {
        match self {
            Completion::Value(v) => CompletionView::Value(v@),
            Completion::Threw(v) => CompletionView::Threw(v@),
        }
    }
}

/// Where a run stands: the script is executing, or it is suspended in a call
/// of a native binding.
#[derive(Debug, Clone, Copy, PartialEq, Eq, Structural)]
pub enum Phase {
    Running,
    AwaitingFunction,
    AwaitingGetter,
    AwaitingSetter,
}

/// The phase that a run is in once the host has answered a request of the
/// script with `action`: suspended if a native call has to be made, else
/// running on.
pub open spec fn phase_after(action: ActionView) -> Phase {
    match action {
        ActionView::Invoke(InvocationView::Function { .. }) => Phase::AwaitingFunction,
        ActionView::Invoke(InvocationView::Getter { .. }) => Phase::AwaitingGetter,
        ActionView::Invoke(InvocationView::Setter { .. }) => Phase::AwaitingSetter,
        _ => Phase::Running,
    }
}

/// How the script goes on after a native call that was made in `phase` and
/// ended with `outcome`. A failure is raised in the script. A function or a
/// getter that returned hands back what is in its output slot, undefined if
/// nothing is. A setter that returned hands back nothing.
pub open spec fn resumption_of(phase: Phase, outcome: NativeOutcomeView) -> ActionView {
    match outcome {
        NativeOutcomeView::Threw(v) => ActionView::Throw(v),
        NativeOutcomeView::Returned(slot) => if phase == Phase::AwaitingSetter {
            ActionView::Continue
        } else {
            ActionView::Resume(slot_value(slot))
        },
    }
}

/// What a run returns for the way in which the engine's execution ended.
pub open spec fn result_of(completion: CompletionView) -> Result<ValueView, RuntimeErrorView> {
    match completion {
        CompletionView::Value(v) => Ok(v),
        CompletionView::Threw(v) => Err(RuntimeErrorView { thrown: v }),
    }
}

/// The global object that a context is left with when a run ends: the one the
/// run arrived at if it succeeded, the one it started from if it failed.
pub open spec fn globals_at_end(
    completion: CompletionView,
    reached: Globals,
    checkpoint: Globals,
) -> Globals {
    match completion {
        CompletionView::Value(_) => reached,
        CompletionView::Threw(_) => checkpoint,
    }
}

/// The global object once the requests of a script have been answered, one
/// after the other.
pub open spec fn globals_after_requests(globals: Globals, requests: Seq<RequestView>) -> Globals
    decreases requests.len(),
{
    if requests.len() == 0 {
        globals
    } else {
        globals_after_requests(
            globals_after_request(globals, requests.first()),
            requests.drop_first(),
        )
    }
}

/// The native calls that the requests of a script give rise to, in the order
/// in which they are made. Each call has returned before the next request is
/// answered.
pub open spec fn invocations_of(
    scope: Scope,
    globals: Globals,
    requests: Seq<RequestView>,
) -> Seq<InvocationView>
    decreases requests.len(),
{
    if requests.len() == 0 {
        Seq::empty()
    } else {
        let rest = invocations_of(
            scope,
            globals_after_request(globals, requests.first()),
            requests.drop_first(),
        );
        match answer_of(scope, globals, requests.first()) {
            ActionView::Invoke(invocation) => seq![invocation] + rest,
            _ => rest,
        }
    }
}

fn phase_of(action: &Action) -> (r: Phase)
    ensures
        r == phase_after(action@),
{
    match action {
        Action::Invoke(Invocation::Function { .. }) => Phase::AwaitingFunction,
        Action::Invoke(Invocation::Getter { .. }) => Phase::AwaitingGetter,
        Action::Invoke(Invocation::Setter { .. }) => Phase::AwaitingSetter,
        _ => Phase::Running,
    }
}

/// One run of a compiled script. The engine executes; whenever the script
/// touches a global the embedder asks the runner what to do, and does it.
pub struct ScriptRunner {
    context: ContextHandle,
    phase: Phase,
    checkpoint: NameTable<Property>,
}

impl ScriptRunner {
    /// The context in which the script runs.
    pub closed spec fn spec_context(&self) -> ContextHandle {
        self.context
    }

    /// Where the run stands.
    pub closed spec fn spec_phase(&self) -> Phase {
        self.phase
    }

    /// The global object of the context as it was when the run began.
    pub closed spec fn checkpoint(&self) -> Globals {
        self.checkpoint@
    }

    /// The invariant of a runner.
    pub closed spec fn wf(&self) -> bool {
        self.checkpoint.wf()
    }

    /// The scope in which this run's native calls are made.
    pub open spec fn scope(&self) -> Scope {
        Scope { context: self.context() }
    }

    /// The context in which the script runs.
    #[verifier::when_used_as_spec(spec_context)]
    pub fn context(&self) -> (r: ContextHandle)
        ensures
            r == self.spec_context(),
    {
        self.context
    }

    /// Where the run stands.
    #[verifier::when_used_as_spec(spec_phase)]
    pub fn phase(&self) -> (r: Phase)
        ensures
            r == self.spec_phase(),
    {
        self.phase
    }

    /// Turns the engine's verdict on a source text into a script bound to
    /// `context`, or into the error that carries the engine's diagnostic.
    /// Nothing is executed and the context is not touched either way.
    pub fn compile(
        context: &ExecutionContext,
        source_text: &str,
        verdict: ParseVerdict,
    ) -> (r: Result<CompiledScript, CompileError>)
        ensures
            match r {
                Ok(script) => compile_of(context.handle(), source_text@, verdict@) == Ok::<
                    ScriptView,
                    CompileErrorView,
                >(script@),
                Err(e) => compile_of(context.handle(), source_text@, verdict@) == Err::<
                    ScriptView,
                    CompileErrorView,
                >(e@),
            },
    {
        match verdict {
            ParseVerdict::Accepted => Ok(
                CompiledScript { context: context.handle(), source: String::from_str(source_text) },
            ),
            ParseVerdict::Rejected { line, column, message } => Err(
                CompileError { line, column, message },
            ),
        }
    }

    /// Begins a run of `script` in its context. The isolate runs one script
    /// at a time, and is marked as running from here to `finish`.
    pub fn run(script: &CompiledScript, isolate: &mut Isolate) -> (r: ScriptRunner)
        requires
            old(isolate).wf(),
            old(isolate).owns(script.context()),
            !old(isolate).is_executing(),
        ensures
            final(isolate).wf(),
            final(isolate).id() == old(isolate).id(),
            final(isolate).contexts() == old(isolate).contexts(),
            final(isolate).is_executing(),
            r.wf(),
            r.context() == script.context(),
            r.phase() == Phase::Running,
            r.checkpoint() == old(isolate).globals_of(script.context()),
    {
        let checkpoint = isolate.context(script.context).snapshot();
        isolate.set_executing(true);
        ScriptRunner { context: script.context, phase: Phase::Running, checkpoint }
    }

    /// The script, running, asks something of the host. The answer tells the
    /// embedder what to do; where it is a native call, the run is suspended
    /// until `native_returned`, and takes no other request before.
    pub fn request(&mut self, isolate: &mut Isolate, request: Request) -> (r: Action)
        requires
            old(self).phase() == Phase::Running,
            old(isolate).wf(),
            old(isolate).owns(old(self).context()),
        ensures
            r@ == answer_of(
                old(self).scope(),
                old(isolate).globals_of(old(self).context()),
                request@,
            ),
            final(isolate).globals_of(old(self).context()) == globals_after_request(
                old(isolate).globals_of(old(self).context()),
                request@,
            ),
            final(isolate).wf(),
            final(isolate).differs_only_at(*old(isolate), old(self).context()),
            final(isolate).is_executing() == old(isolate).is_executing(),
            final(self).phase() == phase_after(r@),
            final(self).context() == old(self).context(),
            final(self).checkpoint() == old(self).checkpoint(),
            final(self).wf() == old(self).wf(),
    {
        let context = isolate.context_mut(self.context);
        let action = context.answer(request);
        self.phase = phase_of(&action);
        action
    }

    /// The native call that the script is suspended in has ended.
    pub fn native_returned(&mut self, outcome: NativeOutcome) -> (r: Action)
        requires
            old(self).phase() != Phase::Running,
        ensures
            r@ == resumption_of(old(self).phase(), outcome@),
            final(self).phase() == Phase::Running,
            final(self).context() == old(self).context(),
            final(self).checkpoint() == old(self).checkpoint(),
            final(self).wf() == old(self).wf(),
    {
        let suspended_in = self.phase;
        self.phase = Phase::Running;
        match outcome {
            NativeOutcome::Threw(v) => Action::Throw(v),
            NativeOutcome::Returned(slot) => match suspended_in {
                Phase::AwaitingSetter => Action::Continue,
                _ => Action::Resume(slot.get()),
            },
        }
    }

    /// The engine's execution has ended. A script that ran to its end yields
    /// its value and the context keeps what the script did to it. A script
    /// that failed yields the error, and the context's global object is put
    /// back as it was when the run began.
    pub fn finish(self, isolate: &mut Isolate, completion: Completion) -> (r: Result<
        Value,
        RuntimeError,
    >)
        requires
            self.wf(),
            self.phase() == Phase::Running,
            old(isolate).wf(),
            old(isolate).owns(self.context()),
        ensures
            match r {
                Ok(v) => result_of(completion@) == Ok::<ValueView, RuntimeErrorView>(v@),
                Err(e) => result_of(completion@) == Err::<ValueView, RuntimeErrorView>(e@),
            },
            final(isolate).globals_of(self.context()) == globals_at_end(
                completion@,
                old(isolate).globals_of(self.context()),
                self.checkpoint(),
            ),
            final(isolate).wf(),
            final(isolate).differs_only_at(*old(isolate), self.context()),
            !final(isolate).is_executing(),
    {
        isolate.set_executing(false);
        match completion {
            Completion::Value(v) => Ok(v),
            Completion::Threw(thrown) => {
                let context = isolate.context_mut(self.context);
                context.restore(self.checkpoint);
                Err(RuntimeError { thrown })
            },
        }
    }
}

} // verus!

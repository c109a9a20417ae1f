//! What holds of the host as a whole, across its operations.

use vstd::prelude::*;
use crate::binding::{
    slot_value, ActionView, InvocationView, NativeOutcomeView, RequestView, Scope,
};
use crate::context::{
    answer_of, call_of, globals_after_request, globals_after_write, instantiate_of, read_of,
    with_accessor, write_action, Globals, PropertyView,
};
use crate::error::{CompileErrorView, RuntimeErrorView};
use crate::handle::{AccessorPair, ContextHandle, FunctionHandle, SetterHandle};
use crate::isolate::Isolate;
use crate::natives::{age_read, age_written, settled};
use crate::runtime::{
    attach_platform_of, begin_shutdown_of, initialize_of, shutdown_of, RuntimeState,
};
use crate::script::{
    compile_of, globals_after_requests, globals_at_end, invocations_of, phase_after, result_of,
    resumption_of, CompletionView, ParseVerdictView, Phase, ScriptView,
};
use crate::template::{BindingView, TemplateView};
use crate::value::{uint32_conversion, uint32_of, ValueView};

verus! {

/// How far the engine has come in its lifecycle.
pub open spec fn lifecycle_rank(state: RuntimeState) -> nat {
    match state {
        RuntimeState::Uninitialized => 0,
        RuntimeState::PlatformAttached => 1,
        RuntimeState::Initialized => 2,
        RuntimeState::ShuttingDown => 3,
        RuntimeState::Disposed => 4,
    }
}

/// The lifecycle never turns back: every step that is not refused takes the
/// engine further down it. So an engine that was shut down cannot be
/// initialized again, and initializing twice is refused.
pub proof fn lemma_lifecycle_only_advances(state: RuntimeState)
    ensures
        attach_platform_of(state) matches Ok(next) ==> lifecycle_rank(state) < lifecycle_rank(next),
        initialize_of(state) matches Ok(next) ==> lifecycle_rank(state) < lifecycle_rank(next),
        begin_shutdown_of(state) matches Ok(next) ==> lifecycle_rank(state) < lifecycle_rank(next),
        shutdown_of(state) matches Ok(next) ==> lifecycle_rank(state) < lifecycle_rank(next),
        initialize_of(state) matches Ok(next) ==> initialize_of(next) is Err,
        shutdown_of(state) matches Ok(next) ==> initialize_of(next) is Err,
{
}

/// No request of a script gives rise to more than one native call.
pub proof fn lemma_at_most_one_invocation_per_request(
    scope: Scope,
    globals: Globals,
    requests: Seq<RequestView>,
)
    ensures
        invocations_of(scope, globals, requests).len() <= requests.len(),
    decreases requests.len(),
{
    if requests.len() > 0 {
        lemma_at_most_one_invocation_per_request(
            scope,
            globals_after_request(globals, requests.first()),
            requests.drop_first(),
        );
    }
}

/// Where the requests of a script give rise to no native call, none of them
/// suspends the run: each is answered at once, against the global object that
/// the requests before it left.
pub proof fn lemma_no_invocation_no_suspension(
    scope: Scope,
    globals: Globals,
    requests: Seq<RequestView>,
    i: int,
)
    requires
        invocations_of(scope, globals, requests).len() == 0,
        0 <= i < requests.len(),
    ensures
        !(answer_of(scope, globals_after_requests(globals, requests.take(i)), requests[i])
            is Invoke),
        phase_after(
            answer_of(scope, globals_after_requests(globals, requests.take(i)), requests[i]),
        ) == Phase::Running,
    decreases i,
{
    let next = globals_after_request(globals, requests.first());
    let rest = requests.drop_first();
    if i == 0 {
        assert(requests.take(0) =~= Seq::<RequestView>::empty());
    } else {
        assert(invocations_of(scope, next, rest).len() == 0);
        lemma_no_invocation_no_suspension(scope, next, rest, i - 1);
        assert(requests.take(i).drop_first() =~= rest.take(i - 1));
        assert(requests.take(i).first() == requests.first());
        assert(rest[i - 1] == requests[i]);
    }
}

/// A script that is compiled and run, and that makes no native call on its
/// way, yields the value that the engine evaluated last, as it is. The run
/// never leaves its running phase, so the engine's completion is taken
/// without the embedder having anything to do before it; and the context
/// keeps the global object that the script's own writes left.
pub proof fn lemma_run_without_native_calls(
    context: ContextHandle,
    source: Seq<char>,
    scope: Scope,
    globals: Globals,
    requests: Seq<RequestView>,
    value: ValueView,
)
    requires
        invocations_of(scope, globals, requests).len() == 0,
    ensures
        compile_of(context, source, ParseVerdictView::Accepted) == Ok::<
            ScriptView,
            CompileErrorView,
        >(ScriptView { context, source }),
        forall|i: int|
            0 <= i < requests.len() ==> phase_after(
                #[trigger] answer_of(
                    scope,
                    globals_after_requests(globals, requests.take(i)),
                    requests[i],
                ),
            ) == Phase::Running,
        result_of(CompletionView::Value(value)) == Ok::<ValueView, RuntimeErrorView>(value),
        globals_at_end(
            CompletionView::Value(value),
            globals_after_requests(globals, requests),
            globals,
        ) == globals_after_requests(globals, requests),
{
    assert forall|i: int| 0 <= i < requests.len() implies phase_after(
        #[trigger] answer_of(
            scope,
            globals_after_requests(globals, requests.take(i)),
            requests[i],
        ),
    ) == Phase::Running by {
        lemma_no_invocation_no_suspension(scope, globals, requests, i);
    }
}

/// A call of a name under which a template binds a native function, in a
/// context made from that template, is answered by one invocation of that
/// function with the arguments of the script: the same values, as many and in
/// the same order. The run is then suspended in the call; when the function
/// has returned, the script resumes with what stands in the output slot.
/// The template notes no accessor under the name: an accessor would stand in
/// the function's place.
pub proof fn lemma_bound_function_invoked_with_arguments(
    template: TemplateView,
    scope: Scope,
    name: Seq<char>,
    function: FunctionHandle,
    args: Seq<ValueView>,
    slot: Option<ValueView>,
)
    requires
        template.bindings.contains_key(name),
        template.bindings[name] == BindingView::NativeFunction(function),
        !template.accessors.contains_key(name),
    ensures
        call_of(scope, instantiate_of(template), name, args) == ActionView::Invoke(
            InvocationView::Function { scope, handle: function, args },
        ),
        invocations_of(scope, instantiate_of(template), seq![RequestView::Call { name, args }])
            == seq![InvocationView::Function { scope, handle: function, args }],
        phase_after(call_of(scope, instantiate_of(template), name, args))
            == Phase::AwaitingFunction,
        resumption_of(Phase::AwaitingFunction, NativeOutcomeView::Returned(slot))
            == ActionView::Resume(slot_value(slot)),
{
    let requests = seq![RequestView::Call { name, args }];
    let globals = instantiate_of(template);
    assert(requests.first() == RequestView::Call { name, args });
    assert(requests.drop_first() =~= Seq::<RequestView>::empty());
    assert(invocations_of(scope, globals, requests.drop_first()) =~= Seq::<
        InvocationView,
    >::empty());
    assert(invocations_of(scope, globals, requests) =~= seq![
        InvocationView::Function { scope, handle: function, args },
    ]);
}

/// Once an accessor pair is installed under a name, a read of that name calls
/// the getter, whatever the global object held there before: no value that
/// came from the template is handed out any more.
pub proof fn lemma_accessor_shadows_value(
    scope: Scope,
    globals: Globals,
    name: Seq<char>,
    pair: AccessorPair,
)
    ensures
        read_of(scope, with_accessor(globals, name, pair), name) == ActionView::Invoke(
            InvocationView::Getter { scope, handle: pair.getter, property: name },
        ),
        !(read_of(scope, with_accessor(globals, name, pair), name) is Resume),
{
}

/// The same holds of an accessor pair that a template notes: in a context made
/// from the template a read of the name calls the getter, also where the
/// template binds a value under that name.
pub proof fn lemma_template_accessor_shadows_value(
    template: TemplateView,
    scope: Scope,
    name: Seq<char>,
)
    requires
        template.accessors.contains_key(name),
    ensures
        read_of(scope, instantiate_of(template), name) == ActionView::Invoke(
            InvocationView::Getter {
                scope,
                handle: template.accessors[name].getter,
                property: name,
            },
        ),
{
}

/// A write to an accessor property calls its setter with the value written,
/// and suspends the run until the setter has returned: no further request of
/// the script is taken before. The host keeps no copy of the value, so the
/// next read of the name calls the getter again and sees what the setter did.
pub proof fn lemma_accessor_write_then_read(
    scope: Scope,
    globals: Globals,
    name: Seq<char>,
    pair: AccessorPair,
    setter: SetterHandle,
    value: ValueView,
    slot: Option<ValueView>,
)
    requires
        globals.contains_key(name),
        globals[name] == PropertyView::Accessor(pair),
        pair.setter == Some(setter),
    ensures
        write_action(scope, globals, name, value) == ActionView::Invoke(
            InvocationView::Setter { scope, handle: setter, property: name, value },
        ),
        phase_after(write_action(scope, globals, name, value)) == Phase::AwaitingSetter,
        resumption_of(Phase::AwaitingSetter, NativeOutcomeView::Returned(slot))
            == ActionView::Continue,
        globals_after_write(globals, name, value) == globals,
        read_of(scope, globals_after_write(globals, name, value), name) == ActionView::Invoke(
            InvocationView::Getter { scope, handle: pair.getter, property: name },
        ),
        invocations_of(
            scope,
            globals,
            seq![RequestView::Write { name, value }, RequestView::Read { name }],
        ) == seq![
            InvocationView::Setter { scope, handle: setter, property: name, value },
            InvocationView::Getter { scope, handle: pair.getter, property: name },
        ],
{
    let write = RequestView::Write { name, value };
    let read = RequestView::Read { name };
    let requests = seq![write, read];
    assert(requests.first() == write);
    assert(requests.drop_first() =~= seq![read]);
    assert(seq![read].first() == read);
    assert(seq![read].drop_first() =~= Seq::<RequestView>::empty());
    assert(invocations_of(scope, globals, Seq::<RequestView>::empty()) =~= Seq::<
        InvocationView,
    >::empty());
    assert(invocations_of(scope, globals, seq![read]) =~= seq![
        InvocationView::Getter { scope, handle: pair.getter, property: name },
    ]);
    assert(invocations_of(scope, globals, requests) =~= seq![
        InvocationView::Setter { scope, handle: setter, property: name, value },
        InvocationView::Getter { scope, handle: pair.getter, property: name },
    ]);
}

/// With the host's `age` pair installed under a name, a script that assigns a
/// `u32` to the name and then reads it gets back the value it assigned: the
/// setter has stored it in the embedder's number before the script goes on,
/// and the getter reads that number.
pub proof fn lemma_assignment_is_observed(
    scope: Scope,
    globals: Globals,
    name: Seq<char>,
    pair: AccessorPair,
    setter: SetterHandle,
    age: u32,
    value: ValueView,
)
    requires
        globals.contains_key(name),
        globals[name] == PropertyView::Accessor(pair),
        pair.setter == Some(setter),
        uint32_of(value) is Some,
    ensures
        resumption_of(
            phase_after(write_action(scope, globals, name, value)),
            settled(uint32_conversion(value), None),
        ) == ActionView::Continue,
        resumption_of(
            phase_after(read_of(scope, globals_after_write(globals, name, value), name)),
            NativeOutcomeView::Returned(Some(age_read(age_written(age, value)))),
        ) == ActionView::Resume(value),
{
}

/// Two contexts of an isolate are independent: whatever is done to one, the
/// global object of the other is as it was, and every read there comes to what
/// it came to before. This holds of two contexts made from one template as of
/// any other two.
pub proof fn lemma_contexts_independent(
    before: Isolate,
    after: Isolate,
    changed: ContextHandle,
    other: ContextHandle,
    scope: Scope,
    name: Seq<char>,
)
    requires
        before.owns(changed),
        before.owns(other),
        changed != other,
        after.differs_only_at(before, changed),
    ensures
        after.owns(other),
        after.globals_of(other) == before.globals_of(other),
        read_of(scope, after.globals_of(other), name) == read_of(
            scope,
            before.globals_of(other),
            name,
        ),
{
}

/// In particular, of two contexts made from one template: after a write in
/// one, every read in the other still comes to what the template gave it.
pub proof fn lemma_sibling_write_is_not_observed(
    before: Isolate,
    after: Isolate,
    written: ContextHandle,
    sibling: ContextHandle,
    template: TemplateView,
    scope: Scope,
    name: Seq<char>,
    value: ValueView,
    probe: Seq<char>,
)
    requires
        before.owns(written),
        before.owns(sibling),
        written != sibling,
        before.globals_of(written) == instantiate_of(template),
        before.globals_of(sibling) == instantiate_of(template),
        after.differs_only_at(before, written),
        after.globals_of(written) == globals_after_write(before.globals_of(written), name, value),
    ensures
        after.globals_of(sibling) == instantiate_of(template),
        read_of(scope, after.globals_of(sibling), probe) == read_of(
            scope,
            instantiate_of(template),
            probe,
        ),
{
    lemma_contexts_independent(before, after, written, sibling, scope, probe);
}

/// A failed run commits nothing to the context: whatever the script wrote
/// before it failed, the global object is the one from which the run began.
pub proof fn lemma_failed_run_commits_nothing(
    reached: Globals,
    checkpoint: Globals,
    thrown: ValueView,
)
    ensures
        globals_at_end(CompletionView::Threw(thrown), reached, checkpoint) == checkpoint,
        result_of(CompletionView::Threw(thrown)) == Err::<ValueView, RuntimeErrorView>(
            RuntimeErrorView { thrown },
        ),
{
}

} // verus!

use script_host::binding::{Action, Arguments, Invocation, Request, Scope};
use script_host::context::{ExecutionContext, Property};
use script_host::handle::{AccessorPair, ContextHandle, FunctionHandle, GetterHandle, SetterHandle};
use script_host::isolate::Isolate;
use script_host::runtime::EngineRuntime;
use script_host::template::{Binding, GlobalTemplate};
use script_host::value::Value;

fn ready_isolate() -> (EngineRuntime, Isolate) {
    let mut runtime = EngineRuntime::new();
    runtime.initialize().unwrap();
    let isolate = Isolate::create(&mut runtime).unwrap();
    (runtime, isolate)
}

#[test]
fn new_template_is_empty_and_scoped_to_the_isolate() {
    let (_runtime, isolate) = ready_isolate();
    let template = GlobalTemplate::new(&isolate);
    assert_eq!(template.isolate(), isolate.id());
    assert_eq!(template.bindings().len(), 0);
    assert_eq!(template.accessors().len(), 0);
}

#[test]
fn bind_function_registers_under_the_name() {
    let (_runtime, isolate) = ready_isolate();
    let mut template = GlobalTemplate::new(&isolate);
    template.bind_function("doit", FunctionHandle(7));
    assert_eq!(template.bindings().get("doit"), Some(&Binding::NativeFunction(FunctionHandle(7))));
    assert_eq!(template.bindings().get("other"), None);
    assert_eq!(template.bindings().len(), 1);
}

#[test]
fn rebinding_a_name_overwrites() {
    let (_runtime, isolate) = ready_isolate();
    let mut template = GlobalTemplate::new(&isolate);
    template.bind_function("f", FunctionHandle(1));
    template.bind_function("g", FunctionHandle(2));
    template.bind_function("f", FunctionHandle(3));
    assert_eq!(template.bindings().len(), 2);
    assert_eq!(template.bindings().get("f"), Some(&Binding::NativeFunction(FunctionHandle(3))));
    assert_eq!(template.bindings().get("g"), Some(&Binding::NativeFunction(FunctionHandle(2))));
    template.bind_value("f", &Value::Integer(9));
    assert_eq!(template.bindings().len(), 2);
    assert_eq!(template.bindings().get("f"), Some(&Binding::StaticValue(Value::Integer(9))));
}

#[test]
fn bind_value_keeps_a_snapshot() {
    let (_runtime, mut isolate) = ready_isolate();
    let mut template = GlobalTemplate::new(&isolate);
    let mut source = Value::Integer(45);
    template.bind_value("age", &source);
    let context = ExecutionContext::instantiate(&mut isolate, &template);
    source = Value::Integer(46);
    assert_eq!(source, Value::Integer(46));
    assert_eq!(template.bindings().get("age"), Some(&Binding::StaticValue(Value::Integer(45))));
    assert_eq!(isolate.context(context).read("age"), Action::Resume(Value::Integer(45)));
}

#[test]
fn bind_accessor_is_kept_apart_from_plain_properties() {
    let (_runtime, isolate) = ready_isolate();
    let mut template = GlobalTemplate::new(&isolate);
    template.bind_value("age", &Value::Integer(45));
    template.bind_accessor("age", GetterHandle(1), Some(SetterHandle(2)));
    assert_eq!(template.bindings().get("age"), Some(&Binding::StaticValue(Value::Integer(45))));
    assert_eq!(
        template.accessors().get("age"),
        Some(&AccessorPair { getter: GetterHandle(1), setter: Some(SetterHandle(2)) })
    );
    template.bind_accessor("age", GetterHandle(5), None);
    assert_eq!(template.accessors().len(), 1);
    assert_eq!(
        template.accessors().get("age"),
        Some(&AccessorPair { getter: GetterHandle(5), setter: None })
    );
}

#[test]
fn instantiate_copies_the_plain_properties() {
    let (_runtime, mut isolate) = ready_isolate();
    let mut template = GlobalTemplate::new(&isolate);
    template.bind_function("doit", FunctionHandle(1));
    template.bind_value("age", &Value::Integer(45));
    template.bind_value("name", &Value::new_string("host"));
    let handle = ExecutionContext::instantiate(&mut isolate, &template);
    assert_eq!(handle, ContextHandle { isolate: isolate.id(), index: 0 });
    assert!(isolate.has_context(handle));
    assert_eq!(isolate.context_count(), 1);
    let context = isolate.context(handle);
    assert_eq!(context.handle(), handle);
    assert_eq!(context.read("doit"), Action::Resume(Value::Function(FunctionHandle(1))));
    assert_eq!(context.read("age"), Action::Resume(Value::Integer(45)));
    assert_eq!(context.read("name"), Action::Resume(Value::new_string("host")));
    assert_eq!(context.read("missing"), Action::Defer);
    assert!(context.has_property("age"));
    assert!(!context.has_property("missing"));
}

#[test]
fn instantiate_installs_noted_accessors_over_values() {
    let (_runtime, mut isolate) = ready_isolate();
    let mut template = GlobalTemplate::new(&isolate);
    template.bind_accessor("age", GetterHandle(1), Some(SetterHandle(2)));
    template.bind_value("age", &Value::Integer(45));
    template.bind_accessor("only", GetterHandle(3), None);
    let handle = ExecutionContext::instantiate(&mut isolate, &template);
    let scope = Scope { context: handle };
    assert_eq!(
        isolate.context(handle).read("age"),
        Action::Invoke(Invocation::Getter {
            scope,
            handle: GetterHandle(1),
            property: "age".to_string()
        })
    );
    assert_eq!(
        isolate.context(handle).read("only"),
        Action::Invoke(Invocation::Getter {
            scope,
            handle: GetterHandle(3),
            property: "only".to_string()
        })
    );
}

#[test]
fn installed_accessor_shadows_template_value() {
    let (_runtime, mut isolate) = ready_isolate();
    let mut template = GlobalTemplate::new(&isolate);
    template.bind_value("age", &Value::Integer(45));
    let handle = ExecutionContext::instantiate(&mut isolate, &template);
    assert_eq!(isolate.context(handle).read("age"), Action::Resume(Value::Integer(45)));
    isolate.context_mut(handle).install_accessor("age", GetterHandle(1), Some(SetterHandle(2)));
    let read = isolate.context(handle).read("age");
    assert_ne!(read, Action::Resume(Value::Integer(45)));
    assert_eq!(
        read,
        Action::Invoke(Invocation::Getter {
            scope: Scope { context: handle },
            handle: GetterHandle(1),
            property: "age".to_string()
        })
    );
}

#[test]
fn accessor_can_be_installed_under_a_new_name() {
    let (_runtime, mut isolate) = ready_isolate();
    let template = GlobalTemplate::new(&isolate);
    let handle = ExecutionContext::instantiate(&mut isolate, &template);
    assert_eq!(isolate.context(handle).read("age"), Action::Defer);
    isolate.context_mut(handle).install_accessor("age", GetterHandle(4), None);
    assert_eq!(
        isolate.context(handle).read("age"),
        Action::Invoke(Invocation::Getter {
            scope: Scope { context: handle },
            handle: GetterHandle(4),
            property: "age".to_string()
        })
    );
}

#[test]
fn write_to_accessor_routes_to_the_setter() {
    let (_runtime, mut isolate) = ready_isolate();
    let mut template = GlobalTemplate::new(&isolate);
    template.bind_value("age", &Value::Integer(45));
    let handle = ExecutionContext::instantiate(&mut isolate, &template);
    isolate.context_mut(handle).install_accessor("age", GetterHandle(1), Some(SetterHandle(2)));
    let action = isolate.context_mut(handle).write("age", Value::Integer(25));
    assert_eq!(
        action,
        Action::Invoke(Invocation::Setter {
            scope: Scope { context: handle },
            handle: SetterHandle(2),
            property: "age".to_string(),
            value: Value::Integer(25)
        })
    );
    assert_eq!(
        isolate.context(handle).read("age"),
        Action::Invoke(Invocation::Getter {
            scope: Scope { context: handle },
            handle: GetterHandle(1),
            property: "age".to_string()
        })
    );
}

#[test]
fn write_to_accessor_without_setter_is_dropped() {
    let (_runtime, mut isolate) = ready_isolate();
    let template = GlobalTemplate::new(&isolate);
    let handle = ExecutionContext::instantiate(&mut isolate, &template);
    isolate.context_mut(handle).install_accessor("age", GetterHandle(1), None);
    assert_eq!(isolate.context_mut(handle).write("age", Value::Integer(25)), Action::Continue);
    assert_eq!(
        isolate.context(handle).read("age"),
        Action::Invoke(Invocation::Getter {
            scope: Scope { context: handle },
            handle: GetterHandle(1),
            property: "age".to_string()
        })
    );
}

#[test]
fn write_to_plain_name_stores_the_value() {
    let (_runtime, mut isolate) = ready_isolate();
    let mut template = GlobalTemplate::new(&isolate);
    template.bind_value("x", &Value::Integer(1));
    let handle = ExecutionContext::instantiate(&mut isolate, &template);
    assert_eq!(isolate.context_mut(handle).write("x", Value::Integer(2)), Action::Continue);
    assert_eq!(isolate.context(handle).read("x"), Action::Resume(Value::Integer(2)));
    assert_eq!(isolate.context_mut(handle).write("y", Value::new_string("new")), Action::Continue);
    assert_eq!(isolate.context(handle).read("y"), Action::Resume(Value::new_string("new")));
}

#[test]
fn call_of_bound_function_passes_arguments_through() {
    let (_runtime, mut isolate) = ready_isolate();
    let mut template = GlobalTemplate::new(&isolate);
    template.bind_function("doit", FunctionHandle(1));
    let handle = ExecutionContext::instantiate(&mut isolate, &template);
    let args = vec![Value::Integer(1), Value::new_string("b"), Value::Undefined, Value::Integer(1)];
    let action = isolate.context(handle).call("doit", args);
    assert_eq!(
        action,
        Action::Invoke(Invocation::Function {
            scope: Scope { context: handle },
            handle: FunctionHandle(1),
            args: Arguments::new(vec![
                Value::Integer(1),
                Value::new_string("b"),
                Value::Undefined,
                Value::Integer(1)
            ])
        })
    );
    let none = isolate.context(handle).call("doit", vec![]);
    assert_eq!(
        none,
        Action::Invoke(Invocation::Function {
            scope: Scope { context: handle },
            handle: FunctionHandle(1),
            args: Arguments::new(vec![])
        })
    );
}

#[test]
fn call_of_anything_else_is_left_to_the_engine() {
    let (_runtime, mut isolate) = ready_isolate();
    let mut template = GlobalTemplate::new(&isolate);
    template.bind_value("age", &Value::Integer(45));
    template.bind_accessor("acc", GetterHandle(1), None);
    let handle = ExecutionContext::instantiate(&mut isolate, &template);
    assert_eq!(isolate.context(handle).call("age", vec![]), Action::Defer);
    assert_eq!(isolate.context(handle).call("acc", vec![]), Action::Defer);
    assert_eq!(isolate.context(handle).call("missing", vec![Value::Integer(1)]), Action::Defer);
}

#[test]
fn function_value_can_be_rebound_by_the_script() {
    let (_runtime, mut isolate) = ready_isolate();
    let mut template = GlobalTemplate::new(&isolate);
    template.bind_function("doit", FunctionHandle(1));
    let handle = ExecutionContext::instantiate(&mut isolate, &template);
    isolate.context_mut(handle).write("alias", Value::Function(FunctionHandle(1)));
    assert_eq!(
        isolate.context(handle).call("alias", vec![Value::Integer(2)]),
        Action::Invoke(Invocation::Function {
            scope: Scope { context: handle },
            handle: FunctionHandle(1),
            args: Arguments::new(vec![Value::Integer(2)])
        })
    );
}

#[test]
fn answer_resolves_each_kind_of_request() {
    let (_runtime, mut isolate) = ready_isolate();
    let mut template = GlobalTemplate::new(&isolate);
    template.bind_function("doit", FunctionHandle(1));
    template.bind_value("age", &Value::Integer(45));
    let handle = ExecutionContext::instantiate(&mut isolate, &template);
    let context = isolate.context_mut(handle);
    assert_eq!(
        context.answer(Request::Read { name: "age".to_string() }),
        Action::Resume(Value::Integer(45))
    );
    assert_eq!(
        context.answer(Request::Write { name: "age".to_string(), value: Value::Integer(1) }),
        Action::Continue
    );
    assert_eq!(
        context.answer(Request::Read { name: "age".to_string() }),
        Action::Resume(Value::Integer(1))
    );
    assert_eq!(
        context.answer(Request::Call { name: "doit".to_string(), args: vec![Value::Integer(1)] }),
        Action::Invoke(Invocation::Function {
            scope: Scope { context: handle },
            handle: FunctionHandle(1),
            args: Arguments::new(vec![Value::Integer(1)])
        })
    );
}

#[test]
fn sibling_contexts_are_independent() {
    let (_runtime, mut isolate) = ready_isolate();
    let mut template = GlobalTemplate::new(&isolate);
    template.bind_value("age", &Value::Integer(45));
    let first = ExecutionContext::instantiate(&mut isolate, &template);
    let second = ExecutionContext::instantiate(&mut isolate, &template);
    assert_ne!(first, second);
    assert_eq!(second, ContextHandle { isolate: isolate.id(), index: 1 });
    isolate.context_mut(first).write("age", Value::Integer(25));
    isolate.context_mut(first).write("extra", Value::new_string("mine"));
    isolate.context_mut(first).install_accessor("acc", GetterHandle(1), None);
    assert_eq!(isolate.context(first).read("age"), Action::Resume(Value::Integer(25)));
    assert_eq!(isolate.context(second).read("age"), Action::Resume(Value::Integer(45)));
    assert_eq!(isolate.context(second).read("extra"), Action::Defer);
    assert_eq!(isolate.context(second).read("acc"), Action::Defer);
    assert_eq!(isolate.context(second).handle(), second);
}

#[test]
fn template_changes_do_not_reach_existing_contexts() {
    let (_runtime, mut isolate) = ready_isolate();
    let mut template = GlobalTemplate::new(&isolate);
    template.bind_value("age", &Value::Integer(45));
    let early = ExecutionContext::instantiate(&mut isolate, &template);
    template.bind_value("age", &Value::Integer(50));
    template.bind_function("late", FunctionHandle(9));
    template.bind_accessor("age", GetterHandle(1), None);
    assert_eq!(isolate.context(early).read("age"), Action::Resume(Value::Integer(45)));
    assert_eq!(isolate.context(early).read("late"), Action::Defer);
    let late = ExecutionContext::instantiate(&mut isolate, &template);
    assert_eq!(
        isolate.context(late).read("late"),
        Action::Resume(Value::Function(FunctionHandle(9)))
    );
    assert_eq!(
        isolate.context(late).read("age"),
        Action::Invoke(Invocation::Getter {
            scope: Scope { context: late },
            handle: GetterHandle(1),
            property: "age".to_string()
        })
    );
}

#[test]
fn context_changes_do_not_reach_the_template() {
    let (_runtime, mut isolate) = ready_isolate();
    let mut template = GlobalTemplate::new(&isolate);
    template.bind_value("age", &Value::Integer(45));
    let first = ExecutionContext::instantiate(&mut isolate, &template);
    isolate.context_mut(first).write("age", Value::Integer(1));
    let second = ExecutionContext::instantiate(&mut isolate, &template);
    assert_eq!(isolate.context(second).read("age"), Action::Resume(Value::Integer(45)));
    assert_eq!(template.bindings().get("age"), Some(&Binding::StaticValue(Value::Integer(45))));
}

#[test]
fn handles_of_other_isolates_are_not_owned() {
    let mut runtime = EngineRuntime::new();
    runtime.initialize().unwrap();
    let mut first = Isolate::create(&mut runtime).unwrap();
    let second = Isolate::create(&mut runtime).unwrap();
    let template = GlobalTemplate::new(&first);
    let handle = ExecutionContext::instantiate(&mut first, &template);
    assert!(first.has_context(handle));
    assert!(!second.has_context(handle));
    assert!(!first.has_context(ContextHandle { isolate: first.id(), index: 1 }));
}

#[test]
fn property_kinds_compare_by_content() {
    assert_eq!(Property::Data(Value::Integer(1)), Property::Data(Value::Integer(1)));
    assert_ne!(
        Property::Data(Value::Integer(1)),
        Property::Accessor(AccessorPair { getter: GetterHandle(1), setter: None })
    );
    let text = Property::Data(Value::new_string("a"));
    assert_eq!(text.clone(), text);
}

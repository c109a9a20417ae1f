//! Execution contexts: the global object of each, and how a script's reads,
//! writes and calls on it are resolved.

use vstd::prelude::*;
use vstd::string::*;
use crate::binding::{
    values_view, Action, ActionView, Arguments, Invocation, InvocationView, Request, RequestView,
    Scope,
};
use crate::handle::{AccessorPair, ContextHandle, GetterHandle, SetterHandle};
use crate::isolate::Isolate;
use crate::table::{table_of, NameTable};
use crate::template::{Binding, BindingView, GlobalTemplate, TemplateView};
use crate::value::{Value, ValueView};

verus! {

/// What a global object holds under one name.
#[derive(Debug, PartialEq, Eq)]
pub enum Property {
    /// A plain value, read and written in place.
    Data(Value),
    /// A property whose reads and writes run native code.
    Accessor(AccessorPair),
}

/// What a `Property` holds, as mathematical values.
pub enum PropertyView {
    Data(ValueView),
    Accessor(AccessorPair),
}

impl View for Property {
    type V = PropertyView;

    open spec fn view(&self) -> PropertyView {
        match self {
            Property::Data(v) => PropertyView::Data(v@),
            Property::Accessor(pair) => PropertyView::Accessor(*pair),
        }
    }
}

impl Clone for Property {
    fn clone(&self) -> (r: Self)
        ensures
            r@ == self@,
    {
        match self {
            Property::Data(v) => Property::Data(v.clone()),
            Property::Accessor(pair) => Property::Accessor(*pair),
        }
    }
}

/// A global object: its properties by name.
pub type Globals = Map<Seq<char>, PropertyView>;

/// The property that a plain binding of a template becomes.
pub open spec fn property_of(binding: BindingView) -> PropertyView {
    match binding {
        BindingView::NativeFunction(handle) => PropertyView::Data(ValueView::Function(handle)),
        BindingView::StaticValue(v) => PropertyView::Data(v),
    }
}

/// The global object made of a template's plain properties alone.
pub open spec fn plain_globals(bindings: Map<Seq<char>, BindingView>) -> Globals {
    Map::new(
        |name: Seq<char>| bindings.contains_key(name),
        |name: Seq<char>| property_of(bindings[name]),
    )
}

/// A global object with accessor pairs installed over it: under the name of a
/// pair the object holds the pair, whatever it held before.
pub open spec fn overlay(globals: Globals, accessors: Map<Seq<char>, AccessorPair>) -> Globals {
    Map::new(
        |name: Seq<char>| globals.contains_key(name) || accessors.contains_key(name),
        |name: Seq<char>|
            if accessors.contains_key(name) {
                PropertyView::Accessor(accessors[name])
            } else {
                globals[name]
            },
    )
}

/// The global object of a context fresh from a template: the plain properties
/// first, then the accessor pairs over them.
pub open spec fn instantiate_of(template: TemplateView) -> Globals {
    overlay(plain_globals(template.bindings), template.accessors)
}

/// A global object with an accessor pair installed under `name`, in place of
/// whatever was there.
pub open spec fn with_accessor(globals: Globals, name: Seq<char>, pair: AccessorPair) -> Globals {
    globals.insert(name, PropertyView::Accessor(pair))
}

/// What a read of `name` comes to: the value of a plain property, a call of
/// the getter of an accessor, or nothing the host knows of.
pub open spec fn read_of(scope: Scope, globals: Globals, name: Seq<char>) -> ActionView {
    if globals.contains_key(name) {
        match globals[name] {
            PropertyView::Data(v) => ActionView::Resume(v),
            PropertyView::Accessor(pair) => ActionView::Invoke(
                InvocationView::Getter { scope, handle: pair.getter, property: name },
            ),
        }
    } else {
        ActionView::Defer
    }
}

/// What a write of `value` to `name` comes to: a call of the setter of an
/// accessor that has one, and otherwise nothing more to do.
pub open spec fn write_action(
    scope: Scope,
    globals: Globals,
    name: Seq<char>,
    value: ValueView,
) -> ActionView {
    if globals.contains_key(name) {
        match globals[name] {
            PropertyView::Accessor(AccessorPair { getter: _, setter: Some(setter) }) => {
                ActionView::Invoke(
                    InvocationView::Setter { scope, handle: setter, property: name, value },
                )
            },
            _ => ActionView::Continue,
        }
    } else {
        ActionView::Continue
    }
}

/// The global object after a write of `value` to `name`. An accessor stays as
/// it is, with or without a setter; any other name holds the value from then
/// on.
pub open spec fn globals_after_write(
    globals: Globals,
    name: Seq<char>,
    value: ValueView,
) -> Globals {
    if globals.contains_key(name) && globals[name] is Accessor {
        globals
    } else {
        globals.insert(name, PropertyView::Data(value))
    }
}

/// What a call of `name` comes to: a call of the native function bound there,
/// with the arguments as they are, or nothing the host knows of.
pub open spec fn call_of(
    scope: Scope,
    globals: Globals,
    name: Seq<char>,
    args: Seq<ValueView>,
) -> ActionView {
    if globals.contains_key(name) {
        match globals[name] {
            PropertyView::Data(ValueView::Function(handle)) => ActionView::Invoke(
                InvocationView::Function { scope, handle, args },
            ),
            _ => ActionView::Defer,
        }
    } else {
        ActionView::Defer
    }
}

/// What the host answers to a request of the script.
pub open spec fn answer_of(scope: Scope, globals: Globals, request: RequestView) -> ActionView {
    match request {
        RequestView::Read { name } => read_of(scope, globals, name),
        RequestView::Write { name, value } => write_action(scope, globals, name, value),
        RequestView::Call { name, args } => call_of(scope, globals, name, args),
    }
}

/// The global object once a request of the script has been answered. Only a
/// write changes it.
pub open spec fn globals_after_request(globals: Globals, request: RequestView) -> Globals {
    match request {
        RequestView::Write { name, value } => globals_after_write(globals, name, value),
        _ => globals,
    }
}

/// One script environment: a global object of its own, inside an isolate.
pub struct ExecutionContext {
    handle: ContextHandle,
    globals: NameTable<Property>,
}

impl ExecutionContext {
    /// Which context this is.
    pub closed spec fn spec_handle(&self) -> ContextHandle {
        self.handle
    }

    /// The global object.
    pub closed spec fn globals(&self) -> Globals {
        self.globals@
    }

    /// The invariant of a context.
    pub closed spec fn wf(&self) -> bool {
        self.globals.wf()
    }

    /// The scope in which this context's native calls run.
    pub open spec fn scope(&self) -> Scope {
        Scope { context: self.spec_handle() }
    }

    /// Makes a context in `isolate` from `template`. The context gets a global
    /// object of its own, made of what the template holds now: nothing done to
    /// the template, or to another context, afterwards reaches it.
    pub fn instantiate(isolate: &mut Isolate, template: &GlobalTemplate) -> (r: ContextHandle)
        requires
            old(isolate).wf(),
            template.wf(),
            template@.isolate == old(isolate).id(),
        ensures
            final(isolate).wf(),
            final(isolate).id() == old(isolate).id(),
            final(isolate).is_executing() == old(isolate).is_executing(),
            r == (ContextHandle {
                isolate: old(isolate).id(),
                index: old(isolate).contexts().len() as usize,
            }),
            final(isolate).contexts().len() == old(isolate).contexts().len() + 1,
            final(isolate).contexts().take(old(isolate).contexts().len() as int) == old(
                isolate,
            ).contexts(),
            final(isolate).globals_of(r) == instantiate_of(template@),
    {
        let plain = template.bindings();
        let pairs = template.accessors();
        let mut globals: NameTable<Property> = NameTable::new();
        let mut i: usize = 0;
        while i < plain.len()
            invariant
                plain.wf(),
                globals.wf(),
                i <= plain.entries().len(),
                globals.entries().len() == i,
                forall|j: int| 0 <= j < i ==> globals.entries()[j].0 == plain.entries()[j].0,
                globals@ == plain_globals(table_of(plain.entries().take(i as int))),
            decreases plain.entries().len() - i,
        {
            let name = plain.name_at(i);
            let property = match plain.item_at(i) {
                Binding::NativeFunction(handle) => Property::Data(Value::Function(*handle)),
                Binding::StaticValue(v) => Property::Data(v.clone()),
            };
            proof {
                assert forall|j: int| 0 <= j < globals.entries().len() implies name@
                    != globals.entries()[j].0 by {
                    assert(plain.entries()[j].0 != plain.entries()[i as int].0);
                }
                let next = plain.entries().take(i + 1);
                assert(next.drop_last() =~= plain.entries().take(i as int));
                assert(next.last() == plain.entries()[i as int]);
                assert(plain_globals(table_of(next)) =~= plain_globals(
                    table_of(plain.entries().take(i as int)),
                ).insert(name@, property@));
            }
            globals.push_new(name.as_str(), property);
            i += 1;
        }
        assert(plain.entries().take(i as int) =~= plain.entries());
        let mut k: usize = 0;
        while k < pairs.len()
            invariant
                pairs.wf(),
                globals.wf(),
                k <= pairs.entries().len(),
                globals@ == overlay(
                    plain_globals(plain@),
                    table_of(pairs.entries().take(k as int)),
                ),
            decreases pairs.entries().len() - k,
        {
            let name = pairs.name_at(k);
            let pair = *pairs.item_at(k);
            proof {
                let next = pairs.entries().take(k + 1);
                assert(next.drop_last() =~= pairs.entries().take(k as int));
                assert(next.last() == pairs.entries()[k as int]);
                assert(overlay(plain_globals(plain@), table_of(next)) =~= overlay(
                    plain_globals(plain@),
                    table_of(pairs.entries().take(k as int)),
                ).insert(name@, PropertyView::Accessor(pair)));
            }
            globals.insert(name.as_str(), Property::Accessor(pair));
            k += 1;
        }
        assert(pairs.entries().take(k as int) =~= pairs.entries());
        isolate.adopt(globals)
    }

    /// A context with the given global object.
    pub(crate) fn new(handle: ContextHandle, globals: NameTable<Property>) -> (r: ExecutionContext)
        requires
            globals.wf(),
        ensures
            r.wf(),
            r.spec_handle() == handle,
            r.globals() == globals@,
    {
        ExecutionContext { handle, globals }
    }

    /// Which context this is.
    #[verifier::when_used_as_spec(spec_handle)]
    pub fn handle(&self) -> (r: ContextHandle)
        ensures
            r == self.spec_handle(),
    {
        self.handle
    }

    /// Whether the global object holds a property under `name`.
    pub fn has_property(&self, name: &str) -> (r: bool)
        ensures
            r == self.globals().contains_key(name@),
    {
        self.globals.contains(name)
    }

    /// Attaches an accessor pair to this context's global object. It takes
    /// the place of whatever the object held under `name`, a value that came
    /// from the template included.
    pub fn install_accessor(
        &mut self,
        name: &str,
        getter: GetterHandle,
        setter: Option<SetterHandle>,
    )
        requires
            old(self).wf(),
        ensures
            final(self).wf(),
            final(self).handle() == old(self).handle(),
            final(self).globals() == with_accessor(
                old(self).globals(),
                name@,
                AccessorPair { getter, setter },
            ),
    {
        self.globals.insert(name, Property::Accessor(AccessorPair { getter, setter }));
    }

    /// Resolves a read of the global `name`.
    pub fn read(&self, name: &str) -> (r: Action)
        requires
            self.wf(),
        ensures
            r@ == read_of(self.scope(), self.globals(), name@),
    {
        match self.globals.get(name) {
            Some(Property::Data(v)) => Action::Resume(v.clone()),
            Some(Property::Accessor(pair)) => Action::Invoke(
                Invocation::Getter {
                    scope: Scope { context: self.handle },
                    handle: pair.getter,
                    property: String::from_str(name),
                },
            ),
            None => Action::Defer,
        }
    }

    /// Resolves a write of `value` to the global `name`, and stores the value
    /// where the name is no accessor.
    pub fn write(&mut self, name: &str, value: Value) -> (r: Action)
        requires
            old(self).wf(),
        ensures
            final(self).wf(),
            final(self).handle() == old(self).handle(),
            r@ == write_action(old(self).scope(), old(self).globals(), name@, value@),
            final(self).globals() == globals_after_write(old(self).globals(), name@, value@),
    {
        let installed: Option<AccessorPair> = match self.globals.get(name) {
            Some(Property::Accessor(pair)) => Some(*pair),
            _ => None,
        };
        match installed {
            Some(pair) => match pair.setter {
                Some(setter) => Action::Invoke(
                    Invocation::Setter {
                        scope: Scope { context: self.handle },
                        handle: setter,
                        property: String::from_str(name),
                        value,
                    },
                ),
                None => Action::Continue,
            },
            None => {
                self.globals.insert(name, Property::Data(value));
                Action::Continue
            },
        }
    }

    /// Resolves a call of the global `name` with the given arguments.
    pub fn call(&self, name: &str, args: Vec<Value>) -> (r: Action)
        requires
            self.wf(),
        ensures
            r@ == call_of(self.scope(), self.globals(), name@, values_view(args@)),
    {
        match self.globals.get(name) {
            Some(Property::Data(Value::Function(handle))) => Action::Invoke(
                Invocation::Function {
                    scope: Scope { context: self.handle },
                    handle: *handle,
                    args: Arguments::new(args),
                },
            ),
            _ => Action::Defer,
        }
    }

    /// Answers a request of the script against this context's global object.
    pub fn answer(&mut self, request: Request) -> (r: Action)
        requires
            old(self).wf(),
        ensures
            final(self).wf(),
            final(self).handle() == old(self).handle(),
            r@ == answer_of(old(self).scope(), old(self).globals(), request@),
            final(self).globals() == globals_after_request(old(self).globals(), request@),
    {
        match request {
            Request::Read { name } => self.read(name.as_str()),
            Request::Write { name, value } => self.write(name.as_str(), value),
            Request::Call { name, args } => self.call(name.as_str(), args),
        }
    }

    /// A copy of the global object as it stands.
    pub(crate) fn snapshot(&self) -> (r: NameTable<Property>)
        requires
            self.wf(),
        ensures
            r.wf(),
            r@ == self.globals(),
    {
        let mut copy: NameTable<Property> = NameTable::new();
        let mut i: usize = 0;
        while i < self.globals.len()
            invariant
                self.globals.wf(),
                copy.wf(),
                i <= self.globals.entries().len(),
                copy.entries() == self.globals.entries().take(i as int),
            decreases self.globals.entries().len() - i,
        {
            let name = self.globals.name_at(i);
            let item = self.globals.item_at(i).clone();
            proof {
                assert forall|j: int| 0 <= j < copy.entries().len() implies copy.entries()[j].0
                    != name@ by {
                    assert(self.globals.entries()[j].0 != self.globals.entries()[i as int].0);
                }
            }
            copy.push_new(name.as_str(), item);
            i += 1;
            assert(copy.entries() =~= self.globals.entries().take(i as int));
        }
        assert(self.globals.entries().take(i as int) =~= self.globals.entries());
        copy
    }

    /// Puts a global object in the place of the present one.
    pub(crate) fn restore(&mut self, globals: NameTable<Property>)
        requires
            globals.wf(),
        ensures
            final(self).wf(),
            final(self).handle() == old(self).handle(),
            final(self).globals() == globals@,
    {
        self.globals = globals;
    }
}

} // verus!

//! Global templates: the blueprint from which the global object of a new
//! context is made.

use vstd::prelude::*;
use crate::handle::{AccessorPair, FunctionHandle, GetterHandle, SetterHandle};
use crate::isolate::Isolate;
use crate::table::NameTable;
use crate::value::{Value, ValueView};

verus! {

/// A plain property of a template.
#[derive(Debug, PartialEq, Eq)]
pub enum Binding {
    /// A native function, callable from the script under the binding's name.
    NativeFunction(FunctionHandle),
    /// A value, as it was when it was bound.
    StaticValue(Value),
}

/// What a `Binding` holds, as mathematical values.
pub enum BindingView {
    NativeFunction(FunctionHandle),
    StaticValue(ValueView),
}

impl View for Binding {
    type V = BindingView;

    open spec fn view(&self) -> BindingView {
        match self {
            Binding::NativeFunction(h) => BindingView::NativeFunction(*h),
            Binding::StaticValue(v) => BindingView::StaticValue(v@),
        }
    }
}

/// What a template holds: the isolate it belongs to, its plain properties, and
/// the accessor pairs that are installed on each context once it exists.
pub struct TemplateView {
    pub isolate: u64,
    pub bindings: Map<Seq<char>, BindingView>,
    pub accessors: Map<Seq<char>, AccessorPair>,
}

/// A blueprint for global objects. A context takes from it what it holds at
/// the moment of instantiation; what is bound later reaches only contexts
/// made later.
pub struct GlobalTemplate {
    isolate: u64,
    bindings: NameTable<Binding>,
    accessors: NameTable<AccessorPair>,
}

impl View for GlobalTemplate {
    type V = TemplateView;

    closed spec fn view(&self) -> TemplateView {
        TemplateView {
            isolate: self.isolate,
            bindings: self.bindings@,
            accessors: self.accessors@,
        }
    }
}

impl GlobalTemplate {
    /// The invariant of a template.
    pub closed spec fn wf(&self) -> bool {
        self.bindings.wf() && self.accessors.wf()
    }

    /// An empty template for the contexts of `isolate`.
    pub fn new(isolate: &Isolate) -> (r: GlobalTemplate)
        ensures
            r.wf(),
            r@ == (TemplateView {
                isolate: isolate.id(),
                bindings: Map::empty(),
                accessors: Map::empty(),
            }),
    {
        GlobalTemplate {
            isolate: isolate.id(),
            bindings: NameTable::new(),
            accessors: NameTable::new(),
        }
    }

    /// The isolate whose contexts this template is for.
    pub fn isolate(&self) -> (r: u64)
        ensures
            r == self@.isolate,
    {
        self.isolate
    }

    /// Binds a native function under `name`, in place of any plain property
    /// bound there before.
    pub fn bind_function(&mut self, name: &str, function: FunctionHandle)
        requires
            old(self).wf(),
        ensures
            final(self).wf(),
            final(self)@ == (TemplateView {
                bindings: old(self)@.bindings.insert(name@, BindingView::NativeFunction(function)),
                ..old(self)@
            }),
    {
        self.bindings.insert(name, Binding::NativeFunction(function));
    }

    /// Binds a copy of `value` under `name`, in place of any plain property
    /// bound there before. The template keeps the value as it is now.
    pub fn bind_value(&mut self, name: &str, value: &Value)
        requires
            old(self).wf(),
        ensures
            final(self).wf(),
            final(self)@ == (TemplateView {
                bindings: old(self)@.bindings.insert(name@, BindingView::StaticValue(value@)),
                ..old(self)@
            }),
    {
        self.bindings.insert(name, Binding::StaticValue(value.clone()));
    }

    /// Notes an accessor pair for `name`, in place of any pair noted there
    /// before. The pair is no plain property: it is installed on the global
    /// object of each context after that object has been made, over a plain
    /// property of the same name.
    pub fn bind_accessor(&mut self, name: &str, getter: GetterHandle, setter: Option<SetterHandle>)
        requires
            old(self).wf(),
        ensures
            final(self).wf(),
            final(self)@ == (TemplateView {
                accessors: old(self)@.accessors.insert(name@, AccessorPair { getter, setter }),
                ..old(self)@
            }),
    {
        self.accessors.insert(name, AccessorPair { getter, setter });
    }

    /// The plain properties, by name.
    pub fn bindings(&self) -> (r: &NameTable<Binding>)
        requires
            self.wf(),
        ensures
            r.wf(),
            r@ == self@.bindings,
    {
        &self.bindings
    }

    /// The accessor pairs, by name.
    pub fn accessors(&self) -> (r: &NameTable<AccessorPair>)
        requires
            self.wf(),
        ensures
            r.wf(),
            r@ == self@.accessors,
    {
        &self.accessors
    }
}

} // verus!

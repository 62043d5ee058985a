//! The calls that the binding makes into the C wrapper, as plain values.
//!
//! Engines, meta objects and objects are named by their handles: the address
//! of the wrapper's object, carried as an integer.

use vstd::prelude::*;
use crate::text::QtStr;
use crate::variant::Variant;

verus! {

/// One call into the wrapper, with every argument it receives.
#[derive(Debug, PartialEq, Eq)]
pub enum Request {
    /// Load the QML document at a URL into an engine.
    LoadUrl { engine: usize, url: QtStr },
    /// Load a QML document given as text into an engine.
    LoadData { engine: usize, data: QtStr },
    /// Make an object visible to QML under a name of the engine's root context.
    SetContextProperty { engine: usize, name: QtStr, object: usize },
    /// Run the application's event loop.
    Exec,
    /// Declare a signal on a meta object.
    AddSignal { meta: usize, signature: QtStr },
    /// Declare a slot on a meta object.
    AddSlot { meta: usize, signature: QtStr },
    /// Declare an invokable method on a meta object.
    AddMethod { meta: usize, signature: QtStr },
    /// Declare a property on a meta object; an empty `notify` names no signal.
    AddProperty { meta: usize, name: QtStr, ty: QtStr, notify: QtStr },
    /// Create an object of a meta object's class.
    Instantiate { meta: usize },
    /// Set a property of an object.
    SetProperty { object: usize, name: QtStr, value: Variant },
    /// Read a property of an object.
    GetProperty { object: usize, name: QtStr },
    /// Invoke a method of an object, by method index, with arguments.
    Call { object: usize, method: i32, args: Vec<Variant> },
    /// Emit a signal of an object, by method index, with arguments.
    Emit { object: usize, method: i32, args: Vec<Variant> },
    /// Schedule an object for deletion by its event loop.
    DeleteLater { object: usize },
}

} // verus!

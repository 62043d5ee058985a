//! Engines, meta objects and objects, and the wrapper calls that each of
//! their operations makes.

use vstd::prelude::*;
use crate::request::Request;
use crate::text::QtStr;
use crate::variant::{Variant, copy_variants};

verus! {

// ---------------------------------------------------------------- Engine

/// The text of a `file://` URL for a local path: `file:///` before the path
/// on Windows, `file://` elsewhere.
pub open spec fn file_url_spec(path: Seq<char>, windows: bool) -> Seq<char> {
    let scheme = if windows {
        seq!['f', 'i', 'l', 'e', ':', '/', '/', '/']
    } else {
        seq!['f', 'i', 'l', 'e', ':', '/', '/']
    };
    scheme + path
}

/// The URL of a local path is the fixed scheme followed by the path
/// unchanged, whatever characters the path holds: `file://` before it, and
/// `file:///` on Windows.
pub proof fn lemma_file_url_is_scheme_then_path(path: Seq<char>)
    ensures
        file_url_spec(path, false) == "file://"@ + path,
        file_url_spec(path, true) == "file:///"@ + path,
        file_url_spec(path, false).len() == path.len() + 7,
        file_url_spec(path, false).subrange(7, path.len() as int + 7) == path,
        file_url_spec(path, true).subrange(8, path.len() as int + 8) == path,
{
    reveal_strlit("file://");
    reveal_strlit("file:///");
    assert(file_url_spec(path, false) =~= "file://"@ + path);
    assert(file_url_spec(path, true) =~= "file:///"@ + path);
    assert(file_url_spec(path, false).subrange(7, path.len() as int + 7) =~= path);
    assert(file_url_spec(path, true).subrange(8, path.len() as int + 8) =~= path);
}

/// Builds the `file://` URL under which a local path is loaded.
pub fn file_url(path: &str, windows: bool) -> (url: String)
    ensures
        url@ == file_url_spec(path@, windows),
        !windows ==> url@ == "file://"@ + path@,
        windows ==> url@ == "file:///"@ + path@,
{
    let scheme: &str = if windows { "file:///" } else { "file://" };
    proof {
        reveal_strlit("file:///");
        reveal_strlit("file://");
    }
    let mut url = scheme.to_owned();
    url.append(path);
    proof {
        lemma_file_url_is_scheme_then_path(path@);
    }
    url
}

/// The display text of the path that `std::path::Path::join` makes of the
/// directory `base` and the path `name`, in the build at hand (the platform
/// fixes which joining rule applies).
pub uninterp spec fn joined_path(base: Seq<char>, name: Seq<char>) -> Seq<char>;

/// Joins `name` onto the directory `base` with `std::path::Path::join` and
/// gives the joined path's display text. The result depends on the two
/// arguments alone: the call reads no environment, clock or disk.
#[verifier::external_body]
fn join_path(base: &str, name: &str) -> (r: String)
    ensures
        r@ == joined_path(base@, name@),
{
    std::path::Path::new(base).join(name).display().to_string()
}

/// A QML engine, named by the handle of the wrapper's engine.
pub struct Engine {
    handle: usize,
    headless: bool,
}

impl Engine {
    /// The handle of the wrapper's engine.
    pub closed spec fn handle(&self) -> usize {
        self.handle
    }

    /// True when the engine was made without a window system.
    pub closed spec fn headless(&self) -> bool {
        self.headless
    }

    /// The engine of a freshly created wrapper engine (which must exist).
    pub fn new(handle: usize) -> (e: Engine)
        requires
            handle != 0,
        ensures
            e.handle() == handle,
            !e.headless(),
    {
        Engine { handle, headless: false }
    }

    /// The engine of a freshly created headless wrapper engine (which must
    /// exist).
    pub fn new_headless(handle: usize) -> (e: Engine)
        requires
            handle != 0,
        ensures
            e.handle() == handle,
            e.headless(),
    {
        Engine { handle, headless: true }
    }

    /// Loads the QML document at the URL `path`.
    pub fn load_url(&mut self, path: &str) -> (r: Request)
        ensures
            *final(self) == *old(self),
            r matches Request::LoadUrl { engine, url } && engine == old(self).handle()
                && url.carries(path@),
    {
        Request::LoadUrl { engine: self.handle, url: QtStr::new(path) }
    }

    /// Loads a QML document given as text.
    pub fn load_data(&mut self, data: &str) -> (r: Request)
        ensures
            *final(self) == *old(self),
            r matches Request::LoadData { engine, data: d } && engine == old(self).handle()
                && d.carries(data@),
    {
        Request::LoadData { engine: self.handle, data: QtStr::new(data) }
    }

    /// Loads the QML file `name`, taken relative to the directory `cwd`,
    /// under its `file://` URL (`windows` selects the Windows form of it).
    pub fn load_local_file(&mut self, cwd: &str, name: &str, windows: bool) -> (r: Request)
        ensures
            *final(self) == *old(self),
            r matches Request::LoadUrl { engine, url } && engine == old(self).handle()
                && url.carries(file_url_spec(joined_path(cwd@, name@), windows)),
    {
        let path = join_path(cwd, name);
        let url = file_url(path.as_str(), windows);
        Request::LoadUrl { engine: self.handle, url: QtStr::from_string(url) }
    }

    /// Runs the application's event loop; the engine is given up.
    pub fn exec(self) -> (r: Request)
        ensures
            r == Request::Exec,
    {
        Request::Exec
    }

    /// Makes `obj` visible to QML code under `name`.
    pub fn set_property(&mut self, name: &str, obj: &Object) -> (r: Request)
        ensures
            *final(self) == *old(self),
            r matches Request::SetContextProperty { engine, name: n, object } && engine
                == old(self).handle() && n.carries(name@) && object == obj.handle(),
    {
        Request::SetContextProperty { engine: self.handle, name: QtStr::new(name), object: obj.handle }
    }
}

// ---------------------------------------------------------------- MetaObject

/// What a declared method of a meta object is.
#[derive(Clone, Copy, Debug, PartialEq, Eq, Structural)]
pub enum MethodKind {
    Signal,
    Slot,
    Method,
}

/// A declared method: its kind and its normalized signature.
#[derive(Debug, PartialEq, Eq)]
pub struct MethodDecl {
    pub kind: MethodKind,
    pub signature: String,
}

impl View for MethodDecl {
    type V = (MethodKind, Seq<char>);

    open spec fn view(&self) -> (MethodKind, Seq<char>) {
        (self.kind, self.signature@)
    }
}

/// A declared property: its name, its type name and the signature of the
/// signal that notifies its changes (empty for none).
#[derive(Debug, PartialEq, Eq)]
pub struct PropertyDecl {
    pub name: String,
    pub ty: String,
    pub notify: String,
}

impl View for PropertyDecl {
    type V = (Seq<char>, Seq<char>, Seq<char>);

    open spec fn view(&self) -> (Seq<char>, Seq<char>, Seq<char>) {
        (self.name@, self.ty@, self.notify@)
    }
}

/// The notify signal recorded for a property: the given signature, or the
/// empty one when there is none.
pub open spec fn notify_signature(signal: Option<&str>) -> Seq<char> {
    match signal {
        Some(s) => s@,
        None => Seq::empty(),
    }
}

/// A given notify signal is recorded unchanged, whatever its signature; with
/// none, the recorded notify signal is empty.
pub proof fn lemma_notify_signature_is_the_given_one(signal: &str)
    ensures
        notify_signature(Some(signal)) == signal@,
        notify_signature(None) == Seq::<char>::empty(),
        notify_signature(None).len() == 0,
{
}

/// True when `r` is the wrapper call that declares a method of kind `kind`
/// with signature `sig` on the meta object `meta`.
pub open spec fn declares_method(r: Request, meta: usize, kind: MethodKind, sig: Seq<char>) -> bool {
    match kind {
        MethodKind::Signal => r matches Request::AddSignal { meta: m, signature }
            && m == meta && signature.carries(sig),
        MethodKind::Slot => r matches Request::AddSlot { meta: m, signature }
            && m == meta && signature.carries(sig),
        MethodKind::Method => r matches Request::AddMethod { meta: m, signature }
            && m == meta && signature.carries(sig),
    }
}

/// The kind of a declared method alone fixes which wrapper call declares it,
/// for every signature: a signal is declared by `AddSignal`, a slot by
/// `AddSlot` and an invokable method by `AddMethod`, each on the meta object
/// at hand and with the signature handed over unchanged.
pub proof fn lemma_kind_fixes_declaring_call(r: Request, meta: usize, kind: MethodKind, sig: Seq<char>)
    requires
        declares_method(r, meta, kind, sig),
    ensures
        kind == MethodKind::Signal ==> r is AddSignal,
        kind == MethodKind::Slot ==> r is AddSlot,
        kind == MethodKind::Method ==> r is AddMethod,
        match r {
            Request::AddSignal { meta: m, signature } => m == meta && signature.text() == sig
                && signature.length() == crate::text::qt_len(sig),
            Request::AddSlot { meta: m, signature } => m == meta && signature.text() == sig
                && signature.length() == crate::text::qt_len(sig),
            Request::AddMethod { meta: m, signature } => m == meta && signature.text() == sig
                && signature.length() == crate::text::qt_len(sig),
            _ => false,
        },
{
}

/// A method keeps the index it was given: when a further method is declared,
/// every earlier method stays at its index and the new one takes the first
/// free index.
pub proof fn lemma_method_indices_are_stable(
    before: MetaObject,
    after: MetaObject,
    decl: (MethodKind, Seq<char>),
)
    requires
        after.methods() == before.methods().push(decl),
    ensures
        after.methods().len() == before.methods().len() + 1,
        after.methods()[before.methods().len() as int] == decl,
        forall|i: int|
            0 <= i < before.methods().len() ==> #[trigger] after.methods()[i] == before.methods()[i],
{
}

/// The number of method declarations in a history of declarations on a meta
/// object: `Some(kind)` stands for a call of `add_signal`, `add_slot` or
/// `add_method`, `None` for a call of `add_property`.
pub open spec fn method_declarations(history: Seq<Option<MethodKind>>) -> nat
    decreases history.len(),
{
    if history.len() == 0 {
        0
    } else {
        method_declarations(history.drop_last()) + if history.last() is Some {
            1nat
        } else {
            0nat
        }
    }
}

/// True when `after` is what one declaration leaves of `before`, as the
/// contracts of the declaring functions state it: a method of kind `kind`
/// appended for `Some(kind)`, the methods untouched for `None`.
pub open spec fn declared_after(before: MetaObject, after: MetaObject, decl: Option<MethodKind>) -> bool {
    match decl {
        Some(kind) => exists|sig: Seq<char>|
            #[trigger] before.methods().push((kind, sig)) == after.methods(),
        None => after.methods() == before.methods(),
    }
}

/// Signals, slots and methods share one sequence of indices 0, 1, 2, ... in
/// the order they are declared, and properties take none: after any history
/// of declarations on a meta object that had no methods, the number of its
/// methods, which is the index the next declaration receives, is the number
/// of method declarations in the history.
pub proof fn lemma_method_index_counts_declarations(
    states: Seq<MetaObject>,
    history: Seq<Option<MethodKind>>,
)
    requires
        states.len() == history.len() + 1,
        states[0].methods().len() == 0,
        forall|i: int|
            0 <= i < history.len() ==> declared_after(states[i], states[i + 1], #[trigger] history[i]),
    ensures
        forall|i: int|
            0 <= i < states.len() ==> #[trigger] states[i].methods().len() == method_declarations(
                history.take(i),
            ),
    decreases history.len(),
{
    if history.len() > 0 {
        let n = history.len() as int;
        let fewer = states.drop_last();
        let shorter = history.drop_last();
        assert forall|i: int| 0 <= i < shorter.len() implies declared_after(
            fewer[i],
            fewer[i + 1],
            #[trigger] shorter[i],
        ) by {
            assert(declared_after(states[i], states[i + 1], history[i]));
        }
        lemma_method_index_counts_declarations(fewer, shorter);
        assert forall|i: int| 0 <= i < states.len() implies #[trigger] states[i].methods().len()
            == method_declarations(history.take(i)) by {
            if i < n {
                assert(fewer[i] == states[i]);
                assert(shorter.take(i) =~= history.take(i));
            } else {
                assert(history.take(i) =~= history);
                assert(history.drop_last() =~= shorter);
                assert(shorter.take(n - 1) =~= shorter);
                assert(fewer[n - 1] == states[n - 1]);
                assert(declared_after(states[n - 1], states[n], history[n - 1]));
                if history[n - 1] is Some {
                    let kind = history[n - 1]->0;
                    let sig = choose|sig: Seq<char>|
                        #[trigger] states[n - 1].methods().push((kind, sig)) == states[n].methods();
                    assert(states[n].methods() == states[n - 1].methods().push((kind, sig)));
                }
            }
        }
    } else {
        assert forall|i: int| 0 <= i < states.len() implies #[trigger] states[i].methods().len()
            == method_declarations(history.take(i)) by {
            assert(history.take(i) =~= Seq::<Option<MethodKind>>::empty());
        }
    }
}

/// The class of Qt objects that the user declares: a class name, methods
/// (signals, slots and invokable methods, which share one index space in
/// the order of declaration) and properties.
pub struct MetaObject {
    handle: usize,
    class_name: String,
    methods: Vec<MethodDecl>,
    properties: Vec<PropertyDecl>,
}

impl MetaObject {
    /// The handle of the wrapper's meta object.
    pub closed spec fn handle(&self) -> usize {
        self.handle
    }

    /// The class name.
    pub closed spec fn class_name(&self) -> Seq<char> {
        self.class_name@
    }

    /// The declared methods; a method's index is its position here.
    pub closed spec fn methods(&self) -> Seq<(MethodKind, Seq<char>)> {
        self.methods@.map_values(|d: MethodDecl| d@)
    }

    /// The declared properties, in the order of declaration.
    pub closed spec fn properties(&self) -> Seq<(Seq<char>, Seq<char>, Seq<char>)> {
        self.properties@.map_values(|d: PropertyDecl| d@)
    }

    /// The meta object of class `name` that the wrapper created with the
    /// handle `handle` (which must exist); nothing is declared on it yet.
    pub fn new(name: &str, handle: usize) -> (m: MetaObject)
        requires
            handle != 0,
        ensures
            m.handle() == handle,
            m.class_name() == name@,
            m.methods() == Seq::<(MethodKind, Seq<char>)>::empty(),
            m.properties() == Seq::<(Seq<char>, Seq<char>, Seq<char>)>::empty(),
    {
        let m = MetaObject {
            handle,
            class_name: name.to_owned(),
            methods: Vec::new(),
            properties: Vec::new(),
        };
        assert(m.methods() =~= Seq::<(MethodKind, Seq<char>)>::empty());
        assert(m.properties() =~= Seq::<(Seq<char>, Seq<char>, Seq<char>)>::empty());
        m
    }

    /// The number of methods declared so far.
    pub fn method_count(&self) -> (n: usize)
        ensures
            n == self.methods().len(),
    {
        self.methods.len()
    }

    /// The number of properties declared so far.
    pub fn property_count(&self) -> (n: usize)
        ensures
            n == self.properties().len(),
    {
        self.properties.len()
    }

    fn declare(&mut self, kind: MethodKind, sig: &str) -> (id: isize)
        requires
            old(self).methods().len() < isize::MAX,
        ensures
            id == old(self).methods().len(),
            final(self).methods() == old(self).methods().push((kind, sig@)),
            final(self).properties() == old(self).properties(),
            final(self).class_name() == old(self).class_name(),
            final(self).handle() == old(self).handle(),
    {
        let ghost before = self.methods();
        let n: usize = self.methods.len();
        self.methods.push(MethodDecl { kind, signature: sig.to_owned() });
        assert(self.methods() =~= before.push((kind, sig@)));
        n as isize
    }

    /// Declares a signal; gives its method index, which is the number of
    /// methods declared before it.
    pub fn add_signal(&mut self, sig: &str) -> (id: isize)
        requires
            old(self).methods().len() < isize::MAX,
        ensures
            id == old(self).methods().len(),
            final(self).methods() == old(self).methods().push((MethodKind::Signal, sig@)),
            final(self).properties() == old(self).properties(),
            final(self).class_name() == old(self).class_name(),
            final(self).handle() == old(self).handle(),
    {
        self.declare(MethodKind::Signal, sig)
    }

    /// Declares a slot; gives its method index, which is the number of
    /// methods declared before it.
    pub fn add_slot(&mut self, sig: &str) -> (id: isize)
        requires
            old(self).methods().len() < isize::MAX,
        ensures
            id == old(self).methods().len(),
            final(self).methods() == old(self).methods().push((MethodKind::Slot, sig@)),
            final(self).properties() == old(self).properties(),
            final(self).class_name() == old(self).class_name(),
            final(self).handle() == old(self).handle(),
    {
        self.declare(MethodKind::Slot, sig)
    }

    /// Declares an invokable method; gives its method index, which is the
    /// number of methods declared before it.
    pub fn add_method(&mut self, sig: &str) -> (id: isize)
        requires
            old(self).methods().len() < isize::MAX,
        ensures
            id == old(self).methods().len(),
            final(self).methods() == old(self).methods().push((MethodKind::Method, sig@)),
            final(self).properties() == old(self).properties(),
            final(self).class_name() == old(self).class_name(),
            final(self).handle() == old(self).handle(),
    {
        self.declare(MethodKind::Method, sig)
    }

    /// Declares a property `name` of type `ty`, notified by `signal` if one
    /// is given; properties take no method index.
    pub fn add_property(&mut self, name: &str, ty: &str, signal: Option<&str>)
        ensures
            final(self).properties() == old(self).properties().push(
                (name@, ty@, notify_signature(signal)),
            ),
            signal matches Some(sig) ==> final(self).properties() == old(self).properties().push(
                (name@, ty@, sig@),
            ),
            signal is None ==> final(self).properties() == old(self).properties().push(
                (name@, ty@, Seq::<char>::empty()),
            ),
            final(self).methods() == old(self).methods(),
            final(self).class_name() == old(self).class_name(),
            final(self).handle() == old(self).handle(),
    {
        let ghost before = self.properties();
        let notify: String = match signal {
            Some(sig) => sig.to_owned(),
            None => String::new(),
        };
        self.properties.push(PropertyDecl { name: name.to_owned(), ty: ty.to_owned(), notify });
        assert(self.properties() =~= before.push((name@, ty@, notify_signature(signal))));
    }

    /// The wrapper call that declares the method of index `id`.
    pub fn method_request(&self, id: isize) -> (r: Request)
        requires
            0 <= id < self.methods().len(),
        ensures
            declares_method(r, self.handle(), self.methods()[id as int].0, self.methods()[id as int].1),
            self.methods()[id as int].0 == MethodKind::Signal ==> r is AddSignal,
            self.methods()[id as int].0 == MethodKind::Slot ==> r is AddSlot,
            self.methods()[id as int].0 == MethodKind::Method ==> r is AddMethod,
    {
        let i: usize = id as usize;
        let d = &self.methods[i];
        let signature = QtStr::new(d.signature.as_str());
        match d.kind {
            MethodKind::Signal => Request::AddSignal { meta: self.handle, signature },
            MethodKind::Slot => Request::AddSlot { meta: self.handle, signature },
            MethodKind::Method => Request::AddMethod { meta: self.handle, signature },
        }
    }

    /// The wrapper call that declares the property at position `index`.
    pub fn property_request(&self, index: usize) -> (r: Request)
        requires
            index < self.properties().len(),
        ensures
            r matches Request::AddProperty { meta, name, ty, notify } && meta == self.handle()
                && name.carries(self.properties()[index as int].0)
                && ty.carries(self.properties()[index as int].1)
                && notify.carries(self.properties()[index as int].2),
    {
        let d = &self.properties[index];
        Request::AddProperty {
            meta: self.handle,
            name: QtStr::new(d.name.as_str()),
            ty: QtStr::new(d.ty.as_str()),
            notify: QtStr::new(d.notify.as_str()),
        }
    }

    /// Creates an object of this class.
    pub fn instantiate(&mut self) -> (r: Request)
        ensures
            *final(self) == *old(self),
            r == (Request::Instantiate { meta: old(self).handle() }),
    {
        Request::Instantiate { meta: self.handle }
    }
}

// ---------------------------------------------------------------- Object

/// An object living on the Qt side, named by its handle.
pub struct Object {
    handle: usize,
}

impl Object {
    /// The handle of the wrapper's object.
    pub closed spec fn handle(&self) -> usize {
        self.handle
    }

    /// The object whose handle is `handle`.
    pub fn from_ptr(handle: usize) -> (o: Object)
        ensures
            o.handle() == handle,
    {
        Object { handle }
    }

    /// Sets the property `name` to `value`.
    pub fn set_property(&mut self, name: &str, value: Variant) -> (r: Request)
        ensures
            *final(self) == *old(self),
            r matches Request::SetProperty { object, name: n, value: v } && object
                == old(self).handle() && n.carries(name@) && v == value,
    {
        Request::SetProperty { object: self.handle, name: QtStr::new(name), value }
    }

    /// Reads the property `name`.
    pub fn get_property(&self, name: &str) -> (r: Request)
        ensures
            r matches Request::GetProperty { object, name: n } && object == self.handle()
                && n.carries(name@),
    {
        Request::GetProperty { object: self.handle, name: QtStr::new(name) }
    }

    /// Invokes the method of index `id` with `args`; the index is handed
    /// over as a C `int`, as an `as` cast narrows it.
    pub fn call(&self, id: isize, args: &[Variant]) -> (r: Request)
        ensures
            r matches Request::Call { object, method, args: a } && object == self.handle()
                && method == id as i32 && a@ == args@,
    {
        Request::Call { object: self.handle, method: id as i32, args: copy_variants(args) }
    }

    /// Emits the signal of method index `id` with `args`; the index is
    /// handed over as a C `int`, as an `as` cast narrows it.
    pub fn emit(&self, id: isize, args: &[Variant]) -> (r: Request)
        ensures
            r matches Request::Emit { object, method, args: a } && object == self.handle()
                && method == id as i32 && a@ == args@,
    {
        Request::Emit { object: self.handle, method: id as i32, args: copy_variants(args) }
    }

    /// Schedules the object for deletion.
    pub fn delete_later(&mut self) -> (r: Request)
        ensures
            *final(self) == *old(self),
            r == (Request::DeleteLater { object: old(self).handle() }),
    {
        Request::DeleteLater { object: self.handle }
    }

    /// The handle of the wrapper's object.
    pub fn as_ptr(&mut self) -> (p: usize)
        ensures
            *final(self) == *old(self),
            p == old(self).handle(),
    {
        self.handle
    }
}

/// An object keeps its handle: through any run of operations that leave the
/// object as it was, which every operation of `Object` does, `as_ptr` keeps
/// giving the handle the object was made with.
pub proof fn lemma_object_handle_is_stable(states: Seq<Object>)
    requires
        states.len() > 0,
        forall|i: int| 0 <= i < states.len() - 1 ==> #[trigger] states[i + 1] == states[i],
    ensures
        forall|i: int| 0 <= i < states.len() ==> #[trigger] states[i].handle() == states[0].handle(),
    decreases states.len(),
{
    if states.len() > 1 {
        let fewer = states.drop_last();
        assert forall|i: int| 0 <= i < fewer.len() - 1 implies #[trigger] fewer[i + 1] == fewer[i] by {
            assert(states[i + 1] == states[i]);
        }
        lemma_object_handle_is_stable(fewer);
        assert forall|i: int| 0 <= i < states.len() implies #[trigger] states[i].handle()
            == states[0].handle() by {
            if i < states.len() - 1 {
                assert(fewer[i] == states[i]);
            } else {
                let j = i - 1;
                assert(states[j + 1] == states[j]);
                assert(fewer[j] == states[j]);
            }
        }
    }
}

} // verus!

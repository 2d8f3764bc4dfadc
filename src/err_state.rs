//! Error states that defer every interaction with the runtime until the
//! moment a (type, value, traceback) handle triple is required.

use vstd::prelude::*;
use crate::runtime::{is_exception_class_in, Object, ObjectView, PyObject, Python, TYPE_ERROR};

verus! {

/// The diagnostic carried by the type error that replaces an error whose
/// lazily supplied type is not an exception class.
pub open spec fn invalid_exception_type_message() -> Seq<char> {
    "exceptions must derive from the base exception type"@
}

/// Identities of the three slots of a handle triple; `None` is the null sentinel.
pub type IdTriple = (Option<usize>, Option<usize>, Option<usize>);

/// The (type, value, traceback) triple that the runtime's error-reporting
/// entry point takes over; `None` is the null sentinel.
pub type HandleTriple = (Option<PyObject>, Option<PyObject>, Option<PyObject>);

/// Identity of an optional handle.
pub open spec fn opt_id(h: Option<PyObject>) -> Option<usize> {
    match h {
        Some(h) => Some(h@),
        None => None,
    }
}

/// Identities of the slots of a handle triple.
pub open spec fn triple_ids(t: HandleTriple) -> IdTriple {
    (opt_id(t.0), opt_id(t.1), opt_id(t.2))
}

/// Whether an optional handle is absent or refers to an object of `objs`.
pub open spec fn opt_live(h: Option<PyObject>, objs: Seq<ObjectView>) -> bool {
    match h {
        Some(h) => h@ < objs.len(),
        None => true,
    }
}

/// Helper conversion trait that allows to use custom arguments for lazy exception construction.
pub trait PyErrArguments: Sized + Send + Sync {
    /// The object these arguments become in the runtime.
    spec fn object_view(&self) -> ObjectView;

    /// Arguments for exception
    fn arguments(self) -> (r: Object)
        ensures
            r@ == self.object_view(),
    ;
}

impl PyErrArguments for String {
    open spec fn object_view(&self) -> ObjectView {
        ObjectView::Str(self@)
    }

    fn arguments(self) -> (r: Object) {
        Object::Str(self)
    }
}

impl<'a> PyErrArguments for &'a str {
    open spec fn object_view(&self) -> ObjectView {
        ObjectView::Str(self@)
    }

    fn arguments(self) -> (r: Object) {
        Object::Str(self.to_owned())
    }
}

impl PyErrArguments for i64 {
    open spec fn object_view(&self) -> ObjectView {
        ObjectView::Int(*self)
    }

    fn arguments(self) -> (r: Object) {
        Object::Int(self)
    }
}

/// A one-shot deferred value: it places its object in the runtime only when
/// called, and calling consumes it.
pub struct LazyArgs {
    value: Object,
}

impl View for LazyArgs {
    type V = ObjectView;

    closed spec fn view(&self) -> ObjectView {
        self.value@
    }
}

impl LazyArgs {
    /// Creates the deferred value's object and hands back the only handle to it.
    pub fn call_once(self, py: &mut Python) -> (r: PyObject)
        requires
            old(py).wf(),
            old(py).objects().len() < usize::MAX,
        ensures
            final(py).wf(),
            final(py).objects() == old(py).objects().push(self@),
            r@ == old(py).objects().len(),
    {
        py.new_object(self.value)
    }
}

/// Defers the conversion of `args` until the runtime is at hand.
pub fn boxed_args<A: PyErrArguments>(args: A) -> (r: LazyArgs)
    ensures
        r@ == args.object_view(),
{
    LazyArgs { value: args.arguments() }
}

/// A lookup of a cached type object; each call yields a new owned handle
/// to the same class.
pub struct TypeProvider {
    ty: PyObject,
}

impl View for TypeProvider {
    type V = usize;

    closed spec fn view(&self) -> usize {
        self.ty@
    }
}

impl TypeProvider {
    /// A provider that always yields the object `ty` refers to.
    pub fn new(ty: PyObject) -> (r: TypeProvider)
        ensures
            r@ == ty@,
    {
        TypeProvider { ty }
    }

    /// An owned handle to the provided type.
    pub fn type_object(&self) -> (r: PyObject)
        ensures
            r@ == self@,
    {
        self.ty.clone_ref()
    }
}

/// An error whose three parts are already realized and consistent.
pub struct PyErrStateNormalized {
    pub ptype: PyObject,
    pub pvalue: PyObject,
    pub ptraceback: Option<PyObject>,
}

impl PyErrStateNormalized {
    /// The state's triple satisfies the runtime's normalization invariant.
    pub open spec fn is_normalized_in(&self, objs: Seq<ObjectView>) -> bool {
        is_normalized_triple((Some(self.ptype@), Some(self.pvalue@), opt_id(self.ptraceback)), objs)
    }
}

/// The type is an exception class, the value an instance of it, and the
/// traceback null or a traceback object.
pub open spec fn is_normalized_triple(t: IdTriple, objs: Seq<ObjectView>) -> bool {
    &&& t.0 is Some && is_exception_class_in(objs, t.0->0)
    &&& t.1 is Some && t.1->0 < objs.len()
    &&& (objs[t.1->0 as int] matches ObjectView::Instance { class, .. } && class == t.0->0)
    &&& match t.2 {
        Some(tb) => tb < objs.len() && objs[tb as int] is Traceback,
        None => true,
    }
}

/// An error, in one of the forms it can take before it reaches the runtime.
#[allow(inconsistent_fields)]
pub enum PyErrState {
    /// Both the type and the value are produced on demand.
    LazyTypeAndValue { ptype: TypeProvider, pvalue: LazyArgs },
    /// The type is known; the value is produced on demand.
    LazyValue { ptype: PyObject, pvalue: LazyArgs },
    /// A triple as fetched from the runtime, not yet normalized.
    FfiTuple { ptype: Option<PyObject>, pvalue: Option<PyObject>, ptraceback: Option<PyObject> },
    /// A triple that satisfies the runtime's normalization invariant.
    Normalized(PyErrStateNormalized),
}

impl PyErrState {
    /// Every handle the state holds refers to an object of `objs`.
    pub open spec fn live_in(&self, objs: Seq<ObjectView>) -> bool {
        match self {
            PyErrState::LazyTypeAndValue { ptype, .. } => ptype@ < objs.len(),
            PyErrState::LazyValue { ptype, .. } => ptype@ < objs.len(),
            PyErrState::FfiTuple { ptype, pvalue, ptraceback } => {
                opt_live(*ptype, objs) && opt_live(*pvalue, objs) && opt_live(*ptraceback, objs)
            },
            PyErrState::Normalized(n) => {
                n.ptype@ < objs.len() && n.pvalue@ < objs.len() && opt_live(n.ptraceback, objs)
            },
        }
    }

    /// The triple a state turns into, and the object table afterwards, when
    /// materialized against the object table `objs`.
    pub open spec fn materialized(&self, objs: Seq<ObjectView>) -> (IdTriple, Seq<ObjectView>) {
        let fresh = objs.len() as usize;
        match self {
            PyErrState::LazyTypeAndValue { ptype, pvalue } => {
                if is_exception_class_in(objs, ptype@) {
                    ((Some(ptype@), Some(fresh), None), objs.push(pvalue@))
                } else {
                    (
                        (Some(TYPE_ERROR), Some(fresh), None),
                        objs.push(ObjectView::Str(invalid_exception_type_message())),
                    )
                }
            },
            PyErrState::LazyValue { ptype, pvalue } => {
                ((Some(ptype@), Some(fresh), None), objs.push(pvalue@))
            },
            PyErrState::FfiTuple { ptype, pvalue, ptraceback } => {
                ((opt_id(*ptype), opt_id(*pvalue), opt_id(*ptraceback)), objs)
            },
            PyErrState::Normalized(n) => {
                ((Some(n.ptype@), Some(n.pvalue@), opt_id(n.ptraceback)), objs)
            },
        }
    }

    /// How many materializations a state goes through before it yields a triple.
    pub open spec fn depth(&self) -> nat {
        match self {
            PyErrState::LazyTypeAndValue { .. } => 1,
            _ => 0,
        }
    }

    /// Consumes the state and hands over one owned handle, or the null
    /// sentinel, for each slot of the runtime's error triple. The state is
    /// taken by value and cannot be cloned, so it is materialized at most once.
    pub fn into_ffi_tuple(self, py: &mut Python) -> (r: HandleTriple)
        requires
            old(py).wf(),
            self.live_in(old(py).objects()),
            old(py).objects().len() < usize::MAX,
        ensures
            final(py).wf(),
            (triple_ids(r), final(py).objects()) == self.materialized(old(py).objects()),
        decreases self.depth(),
    {
        match self {
            PyErrState::LazyTypeAndValue { ptype, pvalue } => {
                let ty = ptype.type_object();
                if !py.is_exception_class(&ty) {
                    let fallback = Self::exceptions_must_derive_from_base_exception(py);
                    fallback.into_ffi_tuple(py)
                } else {
                    let ptype = ptype.type_object();
                    let pvalue = pvalue.call_once(py);
                    (Some(ptype), Some(pvalue), None)
                }
            },
            PyErrState::LazyValue { ptype, pvalue } => {
                let pvalue = pvalue.call_once(py);
                (Some(ptype), Some(pvalue), None)
            },
            PyErrState::FfiTuple { ptype, pvalue, ptraceback } => (ptype, pvalue, ptraceback),
            PyErrState::Normalized(PyErrStateNormalized { ptype, pvalue, ptraceback }) => {
                (Some(ptype), Some(pvalue), ptraceback)
            },
        }
    }

    /// The state that replaces an error whose lazily supplied type is not an
    /// exception class: a type error with a fixed diagnostic.
    pub fn exceptions_must_derive_from_base_exception(py: &Python) -> (r: Self)
        ensures
            r matches PyErrState::LazyValue { ptype, pvalue }
                && ptype@ == TYPE_ERROR
                && pvalue@ == ObjectView::Str(invalid_exception_type_message()),
    {
        PyErrState::LazyValue {
            ptype: py.type_error(),
            pvalue: boxed_args("exceptions must derive from the base exception type"),
        }
    }
}

/// Materialization keeps every object already in the runtime, adds at most
/// one, and that one only in the value slot: no handle is duplicated, none is
/// left without an owner, and every slot is either null or a live object.
pub proof fn lemma_materialize_hands_out_each_handle_once(s: PyErrState, py: Python)
    requires
        py.wf(),
        s.live_in(py.objects()),
        py.objects().len() < usize::MAX,
    ensures
        ({
            let objs = py.objects();
            let (t, after) = s.materialized(objs);
            &&& objs.len() <= after.len() <= objs.len() + 1
            &&& after.subrange(0, objs.len() as int) == objs
            &&& after.len() == objs.len() + 1 ==> {
                &&& t.1 == Some(objs.len() as usize)
                &&& t.0 != Some(objs.len() as usize)
                &&& t.2 != Some(objs.len() as usize)
            }
            &&& (t.0 matches Some(h) ==> h < after.len())
            &&& (t.1 matches Some(h) ==> h < after.len())
            &&& (t.2 matches Some(h) ==> h < after.len())
        }),
{
    let objs = py.objects();
    let after = s.materialized(objs).1;
    assert(after.subrange(0, objs.len() as int) =~= objs);
}

/// A lazily supplied type that is not an exception class always yields a
/// type error carrying the fixed diagnostic, whatever the deferred value
/// would have been; the deferred value is never created.
pub proof fn lemma_invalid_type_yields_type_error(s: PyErrState, objs: Seq<ObjectView>)
    requires
        s matches PyErrState::LazyTypeAndValue { ptype, .. } && !is_exception_class_in(objs, ptype@),
    ensures
        s.materialized(objs) == (
            (Some(TYPE_ERROR), Some(objs.len() as usize), None::<usize>),
            objs.push(ObjectView::Str(invalid_exception_type_message())),
        ),
{
}

/// A lazily supplied exception class is the type of the triple, and the
/// deferred value is created exactly once, as its value.
pub proof fn lemma_valid_type_invokes_value_once(s: PyErrState, objs: Seq<ObjectView>)
    requires
        s matches PyErrState::LazyTypeAndValue { ptype, .. } && is_exception_class_in(objs, ptype@),
    ensures
        s matches PyErrState::LazyTypeAndValue { ptype, pvalue } && s.materialized(objs) == (
            (Some(ptype@), Some(objs.len() as usize), None::<usize>),
            objs.push(pvalue@),
        ),
{
}

/// A fetched triple and a normalized one pass through unchanged: the three
/// slots are the very handles the state held, null where a slot was empty,
/// and nothing is created; a normalized state stays normalized.
pub proof fn lemma_raw_and_normalized_pass_through(s: PyErrState, objs: Seq<ObjectView>)
    requires
        s is FfiTuple || s is Normalized,
    ensures
        s.materialized(objs).1 == objs,
        s matches PyErrState::FfiTuple { ptype, pvalue, ptraceback }
            ==> s.materialized(objs).0 == (opt_id(ptype), opt_id(pvalue), opt_id(ptraceback)),
        s matches PyErrState::Normalized(n)
            ==> s.materialized(objs).0 == (Some(n.ptype@), Some(n.pvalue@), opt_id(n.ptraceback)),
        s matches PyErrState::Normalized(n) && n.is_normalized_in(objs)
            ==> is_normalized_triple(s.materialized(objs).0, objs),
{
}

} // verus!

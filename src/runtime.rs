//! A model of the embedded runtime's object space: every object lives in an
//! append-only table owned by the runtime context, and a handle names one
//! entry of that table by its identity.

use vstd::prelude::*;

verus! {

/// Identity of the built-in base exception class.
pub const BASE_EXCEPTION: usize = 0;

/// Identity of the built-in type-error exception class.
pub const TYPE_ERROR: usize = 1;

/// Identity of the built-in root class, which is not an exception class.
pub const OBJECT_TYPE: usize = 2;

/// An object living in the runtime.
#[derive(Debug, PartialEq, Eq)]
pub enum Object {
    /// A class; `exception` tells whether it derives from the base exception.
    Class { name: String, exception: bool },
    /// A string value.
    Str(String),
    /// An integer value.
    Int(i64),
    /// An instance of the class `class`, built from the object `args`.
    Instance { class: usize, args: usize },
    /// A traceback.
    Traceback,
}

/// The mathematical value of an [`Object`].
pub enum ObjectView {
    Class { name: Seq<char>, exception: bool },
    Str(Seq<char>),
    Int(i64),
    Instance { class: usize, args: usize },
    Traceback,
}

impl View for Object {
    type V = ObjectView;

    open spec fn view(&self) -> ObjectView {
        match self {
            Object::Class { name, exception } => ObjectView::Class { name: name@, exception: *exception },
            Object::Str(s) => ObjectView::Str(s@),
            Object::Int(i) => ObjectView::Int(*i),
            Object::Instance { class, args } => ObjectView::Instance { class: *class, args: *args },
            Object::Traceback => ObjectView::Traceback,
        }
    }
}

impl ObjectView {
    pub open spec fn is_exception_class(self) -> bool {
        self matches ObjectView::Class { exception: true, .. }
    }
}

/// Whether `id` names a live exception class in the object table `objs`.
pub open spec fn is_exception_class_in(objs: Seq<ObjectView>, id: usize) -> bool {
    id < objs.len() && objs[id as int].is_exception_class()
}

/// An owned handle to an object of the runtime. Handles are never copied
/// implicitly: each one is moved to its next owner.
pub struct PyObject {
    id: usize,
}

impl View for PyObject {
    type V = usize;

    closed spec fn view(&self) -> usize {
        self.id
    }
}

impl PyObject {
    /// The identity of the object this handle refers to.
    pub fn id(&self) -> (r: usize)
        ensures
            r == self@,
    {
        self.id
    }

    /// A second owned handle to the same object.
    pub fn clone_ref(&self) -> (r: PyObject)
        ensures
            r@ == self@,
    {
        PyObject { id: self.id }
    }
}

/// The runtime context: holding one proves access to the runtime's state.
pub struct Python {
    objects: Vec<Object>,
}

impl Python {
    /// The runtime's object table.
    pub closed spec fn objects(&self) -> Seq<ObjectView> {
        self.objects@.map_values(|o: Object| o@)
    }

    /// The built-in classes stand at their fixed identities.
    pub open spec fn wf(&self) -> bool {
        &&& self.objects().len() >= 3
        &&& self.objects()[BASE_EXCEPTION as int].is_exception_class()
        &&& self.objects()[TYPE_ERROR as int].is_exception_class()
        &&& self.objects()[OBJECT_TYPE as int] matches ObjectView::Class { exception: false, .. }
    }

    /// Whether `h` refers to an object of this runtime.
    pub open spec fn live(&self, h: usize) -> bool {
        h < self.objects().len()
    }

    /// A runtime holding the built-in classes only.
    pub fn new() -> (r: Python)
        ensures
            r.wf(),
            r.objects().len() == 3,
    {
        let mut objects: Vec<Object> = Vec::new();
        objects.push(Object::Class { name: "BaseException".to_owned(), exception: true });
        objects.push(Object::Class { name: "TypeError".to_owned(), exception: true });
        objects.push(Object::Class { name: "object".to_owned(), exception: false });
        Python { objects }
    }

    /// Number of objects the runtime holds.
    pub fn len(&self) -> (r: usize)
        ensures
            r == self.objects().len(),
    {
        self.objects.len()
    }

    /// The object a handle refers to.
    pub fn get(&self, h: &PyObject) -> (r: &Object)
        requires
            self.live(h@),
        ensures
            r@ == self.objects()[h@ as int],
    {
        &self.objects[h.id]
    }

    /// Places `obj` in the runtime and hands back the only handle to it.
    pub fn new_object(&mut self, obj: Object) -> (r: PyObject)
        requires
            old(self).wf(),
            old(self).objects().len() < usize::MAX,
        ensures
            final(self).wf(),
            final(self).objects() == old(self).objects().push(obj@),
            r@ == old(self).objects().len(),
    {
        let id = self.objects.len();
        self.objects.push(obj);
        proof {
            assert(self.objects() =~= old(self).objects().push(obj@));
        }
        PyObject { id }
    }

    /// Whether `h` refers to a class that derives from the base exception.
    pub fn is_exception_class(&self, h: &PyObject) -> (r: bool)
        requires
            self.live(h@),
        ensures
            r == is_exception_class_in(self.objects(), h@),
    {
        match &self.objects[h.id] {
            Object::Class { exception, .. } => *exception,
            _ => false,
        }
    }

    /// A new owned handle to the built-in type-error class.
    pub fn type_error(&self) -> (r: PyObject)
        ensures
            r@ == TYPE_ERROR,
    {
        PyObject { id: TYPE_ERROR }
    }
}

} // verus!

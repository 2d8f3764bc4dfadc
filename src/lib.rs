//! Deferred exception state for a binding to an embedded dynamic-language
//! runtime: error values that are built lazily on the host side and turned
//! into the runtime's (type, value, traceback) handle triple on demand.

mod err_state;
mod runtime;

pub use err_state::{
    boxed_args, HandleTriple, LazyArgs, PyErrArguments, PyErrState, PyErrStateNormalized,
    TypeProvider,
};
pub use runtime::{Object, ObjectView, PyObject, Python, BASE_EXCEPTION, OBJECT_TYPE, TYPE_ERROR};

use pyerr_state::{
    boxed_args, Object, PyErrArguments, PyErrState, PyErrStateNormalized, Python, TypeProvider,
    BASE_EXCEPTION, TYPE_ERROR,
};

const DIAGNOSTIC: &str = "exceptions must derive from the base exception type";

fn string(s: &str) -> Object {
    Object::Str(s.to_string())
}

#[test]
fn lazy_value_yields_type_and_boom_value() {
    let mut py = Python::new();
    let before = py.len();
    let state = PyErrState::LazyValue { ptype: py.type_error(), pvalue: boxed_args("boom") };
    let (ty, value, tb) = state.into_ffi_tuple(&mut py);
    assert_eq!(ty.unwrap().id(), TYPE_ERROR);
    let value = value.unwrap();
    assert_eq!(value.id(), before);
    assert_eq!(py.get(&value), &string("boom"));
    assert!(tb.is_none());
    assert_eq!(py.len(), before + 1);
}

#[test]
fn plain_class_provider_falls_back_to_type_error() {
    let mut py = Python::new();
    let cls = py.new_object(Object::Class { name: "Plain".to_string(), exception: false });
    let before = py.len();
    let state = PyErrState::LazyTypeAndValue {
        ptype: TypeProvider::new(cls),
        pvalue: boxed_args("never created"),
    };
    let (ty, value, tb) = state.into_ffi_tuple(&mut py);
    assert_eq!(ty.unwrap().id(), TYPE_ERROR);
    let value = value.unwrap();
    assert_eq!(py.get(&value), &string(DIAGNOSTIC));
    assert!(tb.is_none());
    // only the diagnostic was created: the deferred value never ran
    assert_eq!(py.len(), before + 1);
}

#[test]
fn exception_class_provider_runs_value_once() {
    let mut py = Python::new();
    let cls = py.new_object(Object::Class { name: "ValueError".to_string(), exception: true });
    let cls_id = cls.id();
    let before = py.len();
    let state = PyErrState::LazyTypeAndValue { ptype: TypeProvider::new(cls), pvalue: boxed_args(42i64) };
    let (ty, value, tb) = state.into_ffi_tuple(&mut py);
    assert_eq!(ty.unwrap().id(), cls_id);
    let value = value.unwrap();
    assert_eq!(value.id(), before);
    assert_eq!(py.get(&value), &Object::Int(42));
    assert!(tb.is_none());
    assert_eq!(py.len(), before + 1);
}

#[test]
fn raw_triple_with_value_only_passes_through() {
    let mut py = Python::new();
    let v = py.new_object(string("v"));
    let v_id = v.id();
    let before = py.len();
    let state = PyErrState::FfiTuple { ptype: None, pvalue: Some(v), ptraceback: None };
    let (ty, value, tb) = state.into_ffi_tuple(&mut py);
    assert!(ty.is_none());
    assert_eq!(value.unwrap().id(), v_id);
    assert!(tb.is_none());
    assert_eq!(py.len(), before);
}

#[test]
fn raw_triple_with_all_slots_passes_through() {
    let mut py = Python::new();
    let t = py.new_object(string("not a class"));
    let v = py.new_object(Object::Int(3));
    let tb = py.new_object(Object::Traceback);
    let ids = (t.id(), v.id(), tb.id());
    let state = PyErrState::FfiTuple { ptype: Some(t), pvalue: Some(v), ptraceback: Some(tb) };
    let (a, b, c) = state.into_ffi_tuple(&mut py);
    assert_eq!((a.unwrap().id(), b.unwrap().id(), c.unwrap().id()), ids);
    assert_eq!(py.len(), 6);
}

#[test]
fn empty_raw_triple_gives_three_nulls() {
    let mut py = Python::new();
    let state = PyErrState::FfiTuple { ptype: None, pvalue: None, ptraceback: None };
    let (a, b, c) = state.into_ffi_tuple(&mut py);
    assert!(a.is_none() && b.is_none() && c.is_none());
    assert_eq!(py.len(), 3);
}

#[test]
fn normalized_state_passes_through() {
    let mut py = Python::new();
    let cls = py.new_object(Object::Class { name: "KeyError".to_string(), exception: true });
    let args = py.new_object(string("missing"));
    let inst = py.new_object(Object::Instance { class: cls.id(), args: args.id() });
    let tb = py.new_object(Object::Traceback);
    let ids = (cls.id(), inst.id(), tb.id());
    let args_id = args.id();
    let state = PyErrState::Normalized(PyErrStateNormalized {
        ptype: cls,
        pvalue: inst,
        ptraceback: Some(tb),
    });
    let before = py.len();
    let (a, b, c) = state.into_ffi_tuple(&mut py);
    let b = b.unwrap();
    assert_eq!((a.unwrap().id(), b.id(), c.unwrap().id()), ids);
    assert_eq!(py.get(&b), &Object::Instance { class: ids.0, args: args_id });
    assert_eq!(py.len(), before);
}

#[test]
fn normalized_state_without_traceback_gives_null_traceback() {
    let mut py = Python::new();
    let cls = py.type_error();
    let inst = py.new_object(Object::Instance { class: TYPE_ERROR, args: 0 });
    let inst_id = inst.id();
    let state = PyErrState::Normalized(PyErrStateNormalized { ptype: cls, pvalue: inst, ptraceback: None });
    let (a, b, c) = state.into_ffi_tuple(&mut py);
    assert_eq!(a.unwrap().id(), TYPE_ERROR);
    assert_eq!(b.unwrap().id(), inst_id);
    assert!(c.is_none());
}

#[test]
fn fallback_state_is_a_lazy_type_error() {
    let mut py = Python::new();
    let state = PyErrState::exceptions_must_derive_from_base_exception(&py);
    match state {
        PyErrState::LazyValue { ptype, pvalue } => {
            assert_eq!(ptype.id(), TYPE_ERROR);
            let v = pvalue.call_once(&mut py);
            assert_eq!(py.get(&v), &string(DIAGNOSTIC));
        }
        _ => panic!("expected a lazy value state"),
    }
    // building the fallback touched nothing until the value was called
    assert_eq!(py.len(), 4);
}

#[test]
fn boxed_args_defers_until_called() {
    let mut py = Python::new();
    let lazy = boxed_args(String::from("later"));
    assert_eq!(py.len(), 3);
    let h = lazy.call_once(&mut py);
    assert_eq!(h.id(), 3);
    assert_eq!(py.get(&h), &string("later"));
}

#[test]
fn arguments_convert_host_values() {
    assert_eq!("x".arguments(), string("x"));
    assert_eq!(String::from("y").arguments(), string("y"));
    assert_eq!((-5i64).arguments(), Object::Int(-5));
}

#[test]
fn runtime_starts_with_builtin_classes() {
    let mut py = Python::new();
    assert_eq!(py.len(), 3);
    let te = py.type_error();
    assert!(py.is_exception_class(&te));
    assert_eq!(py.get(&te), &Object::Class { name: "TypeError".to_string(), exception: true });
    let s = py.new_object(string("s"));
    assert!(!py.is_exception_class(&s));
    assert_ne!(BASE_EXCEPTION, TYPE_ERROR);
}

#[test]
fn type_provider_yields_the_same_class_each_time() {
    let mut py = Python::new();
    let cls = py.new_object(Object::Class { name: "E".to_string(), exception: true });
    let id = cls.id();
    let p = TypeProvider::new(cls);
    assert_eq!(p.type_object().id(), id);
    assert_eq!(p.type_object().id(), id);
    let again = p.type_object().clone_ref();
    assert_eq!(again.id(), id);
}

#[test]
fn each_materialization_creates_at_most_one_object() {
    let mut py = Python::new();
    let states = vec![
        PyErrState::LazyValue { ptype: py.type_error(), pvalue: boxed_args(1i64) },
        PyErrState::LazyTypeAndValue {
            ptype: TypeProvider::new(py.type_error()),
            pvalue: boxed_args(2i64),
        },
        PyErrState::FfiTuple { ptype: Some(py.type_error()), pvalue: None, ptraceback: None },
    ];
    for state in states {
        let before = py.len();
        let (_, value, _) = state.into_ffi_tuple(&mut py);
        assert!(py.len() <= before + 1);
        if py.len() == before + 1 {
            assert_eq!(value.unwrap().id(), before);
        }
    }
    assert_eq!(py.len(), 5);
}

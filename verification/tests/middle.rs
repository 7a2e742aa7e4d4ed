use libffi::middle::{Cif, Closure};
use libffi::types::{Type, TypeArray, TypeKind};

#[test]
fn cif_for_two_sint64_args() {
    let cif = Cif::new(vec![Type::sint64(), Type::sint64()], Type::sint64());
    assert_eq!(cif.nargs(), 2);
    assert_eq!(cif.args().len(), 2);
    assert_eq!(cif.args().get(0).primitive_kind(), Some(TypeKind::SInt64));
    assert_eq!(cif.args().get(1).primitive_kind(), Some(TypeKind::SInt64));
    assert_eq!(cif.result().primitive_kind(), Some(TypeKind::SInt64));
}

#[test]
fn cif_from_type_array() {
    let args = TypeArray::new(vec![Type::float(), Type::double()]);
    let cif = Cif::from_type_array(args, Type::double());
    assert_eq!(cif.nargs(), 2);
    assert_eq!(cif.args().get(1).primitive_kind(), Some(TypeKind::Double));
    assert_eq!(cif.result().primitive_kind(), Some(TypeKind::Double));
}

#[test]
fn cif_with_no_arguments() {
    let cif = Cif::new(vec![], Type::void());
    assert_eq!(cif.nargs(), 0);
    assert_eq!(cif.args().len(), 0);
}

#[test]
fn cif_clone_is_deep_and_equal() {
    let cif = Cif::new(vec![Type::uint64(), Type::structure(vec![Type::uint32()])], Type::void());
    let copy = cif.clone();
    assert_eq!(copy.nargs(), cif.nargs());
    assert!(copy.args().get(1).is_structure());
    assert_eq!(copy.args().get(1).fields().len(), 1);
    drop(cif);
    assert_eq!(copy.args().get(1).fields().get(0).primitive_kind(), Some(TypeKind::UInt32));
    assert_eq!(copy.result().primitive_kind(), Some(TypeKind::Void));
}

#[test]
fn closure_records_cif_and_code() {
    let cif = Cif::new(vec![Type::uint64()], Type::uint64());
    let entry: usize = 0x4242;
    let closure = Closure::new(cif, entry);
    assert_eq!(closure.code_ptr(), entry);
    assert_eq!(closure.cif().nargs(), 1);
    assert_eq!(closure.cif().args().get(0).primitive_kind(), Some(TypeKind::UInt64));
    assert_eq!(closure.cif().result().primitive_kind(), Some(TypeKind::UInt64));
}

#[test]
fn cif_is_consumed_by_drop() {
    let cif = Cif::new(
        vec![Type::sint32(), Type::structure(vec![Type::sint8(), Type::uint16()])],
        Type::pointer(),
    );
    assert_eq!(cif.nargs(), 2);
    drop(cif);
    let again = Cif::new(vec![Type::sint32()], Type::void());
    assert_eq!(again.nargs(), 1);
}

#[test]
fn closure_owns_its_cif() {
    let cif = Cif::new(vec![Type::uint64()], Type::uint64());
    let closure = Closure::new(cif.clone(), 7);
    drop(cif);
    assert_eq!(closure.cif().nargs(), 1);
    drop(closure);
}

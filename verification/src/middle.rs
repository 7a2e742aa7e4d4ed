//! Call interfaces and closures over owned type descriptors.
//!
//! A [`Cif`] ("call interface") binds an argument array and a result
//! descriptor into a description a native caller can be prepared against;
//! a [`Closure`] keeps a call interface alive together with the entry
//! address of a dynamically created callable. The native preparation,
//! invocation and closure-allocation primitives themselves are external
//! collaborators: they receive these descriptors through an unverified
//! shim, which also performs the calls.

use crate::types::{models_of, Type, TypeArray, TypeModel};
use vstd::prelude::*;

verus! {

/// The mathematical model of a call interface: the argument types, in
/// order, and the result type.
pub struct CifModel {
    pub args: Seq<TypeModel>,
    pub result: TypeModel,
}

/// A call interface: the calling description for one function signature.
///
/// It owns the argument array and the result descriptor for its entire
/// lifetime, because the native preparation step stores raw references into
/// them rather than copying; the prepared record's argument count is fixed
/// at build time and always agrees with the owned argument array.
#[derive(Debug)]
pub struct Cif {
    /// The argument count the interface was prepared with.
    nargs: usize,
    /// The owned argument descriptors the prepared record refers to.
    args: TypeArray,
    /// The owned result descriptor the prepared record refers to.
    result: Type,
}

impl View for Cif {
    type V = CifModel;

    closed spec fn view(&self) -> CifModel {
        CifModel { args: self.args@, result: self.result@ }
    }
}

impl Cif {
    #[verifier::type_invariant]
    spec fn wf(self) -> bool {
        self.nargs == self.args@.len()
    }

    /// Creates a call interface for the given argument and result types,
    /// using the default calling convention. Ownership of every descriptor
    /// is transferred in.
    pub fn new(args: Vec<Type>, result: Type) -> (r: Self)
        ensures
            r@.args == models_of(args@),
            r@.result == result@,
    {
        Self::from_type_array(TypeArray::new(args), result)
    }

    /// Creates a call interface from an argument array the caller has
    /// already built, using the default calling convention. The argument
    /// count is recovered from the array by scanning, and the array and the
    /// result descriptor are retained as owned fields so that they outlive
    /// every native reference taken into them.
    pub fn from_type_array(args: TypeArray, result: Type) -> (r: Self)
        ensures
            r@.args == args@,
            r@.result == result@,
    {
        let nargs: usize = args.len();
        Cif { nargs, args, result }
    }

    /// The number of arguments the interface was built with. An invocation
    /// must pass exactly this many argument pointers; passing any other
    /// number is a contract violation that the caller has to reject before
    /// reaching the native layer.
    pub fn nargs(&self) -> (r: usize)
        ensures
            r == self@.args.len(),
    {
        proof {
            use_type_invariant(self);
        }
        self.nargs
    }

    /// Borrows the owned argument array.
    pub fn args(&self) -> (r: &TypeArray)
        ensures
            r@ == self@.args,
    {
        &self.args
    }

    /// Borrows the owned result descriptor.
    pub fn result(&self) -> (r: &Type)
        ensures
            r@ == self@.result,
    {
        &self.result
    }
}

impl Clone for Cif {
    /// Deep-copies the call interface. The owned descriptors are cloned
    /// and the copy is rebuilt against the clones, since the prepared
    /// record cannot be shared across independently owned descriptor
    /// copies.
    fn clone(&self) -> (r: Self)
        ensures
            r@ == self@,
    {
        Self::from_type_array(self.args.clone(), self.result.clone())
    }
}

/// The mathematical model of a closure: the call interface it keeps alive
/// and the entry address of the callable the native layer produced for it.
pub struct ClosureModel {
    pub cif: CifModel,
    pub code: usize,
}

/// A closure: an exclusively owned call interface bound to a dynamically
/// created native entry point.
///
/// The call interface is heap-boxed so that its address stays stable even
/// if the closure value is moved, since the native layer retains a pointer
/// to it for as long as the entry point exists. The entry address is the
/// one the native closure-preparation step produced; interpreting it as a
/// function of the right native signature is the caller's obligation.
#[derive(Debug)]
pub struct Closure {
    /// The owned call interface, kept alive for the closure's lifetime.
    cif: Box<Cif>,
    /// The callable entry address the native layer reported at build time.
    code: usize,
}

impl View for Closure {
    type V = ClosureModel;

    closed spec fn view(&self) -> ClosureModel {
        ClosureModel { cif: (*self.cif)@, code: self.code }
    }
}

impl Closure {
    /// Creates a closure that takes ownership of `cif`, boxing it for
    /// address stability, and records `code`, the callable entry address
    /// that the native allocation and binding steps produced against the
    /// boxed interface. The interface stays owned until the closure is
    /// dropped, so the native entry point never outlives the descriptors
    /// it was prepared against.
    pub fn new(cif: Cif, code: usize) -> (r: Self)
        ensures
            r@.cif == cif@,
            r@.code == code,
    {
        Closure { cif: Box::new(cif), code }
    }

    /// The callable entry address produced at build time. The caller must
    /// reinterpret it as a function pointer of the correct native signature
    /// before invoking it; nothing here can check that the reinterpretation
    /// matches the interface's declared signature.
    pub fn code_ptr(&self) -> (r: usize)
        ensures
            r == self@.code,
    {
        self.code
    }

    /// Borrows the owned call interface.
    pub fn cif(&self) -> (r: &Cif)
        ensures
            r@ == self@.cif,
    {
        &self.cif
    }
}

} // verus!

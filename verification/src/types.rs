//! Representations of native types and sentinel-terminated arrays thereof.

use vstd::prelude::*;

verus! {

/// The tag of a primitive native type. Every primitive descriptor is backed
/// by a process-wide, immutable, statically allocated record in the native
/// layer, so a primitive is fully described by its tag: nothing is owned and
/// nothing is ever freed for it.
#[derive(Clone, Copy, Debug, PartialEq, Eq, Structural)]
pub enum TypeKind {
    Void,
    UInt8,
    SInt8,
    UInt16,
    SInt16,
    UInt32,
    SInt32,
    UInt64,
    SInt64,
    Float,
    Double,
    Pointer,
    LongDouble,
    ComplexFloat,
    ComplexDouble,
    ComplexLongDouble,
}

/// The mathematical model of a type descriptor: a tree whose leaves are
/// primitive tags and whose inner nodes are structs owning an ordered
/// sequence of field descriptors.
pub enum TypeModel {
    Primitive(TypeKind),
    Structure(Seq<TypeModel>),
}

/// The models of a sequence of descriptors, in order.
pub open spec fn models_of(s: Seq<Type>) -> Seq<TypeModel> {
    Seq::new(s.len(), |i: int| s[i]@)
}

/// Law: the model of a built array is exactly its element sequence's
/// models — as many entries as descriptors were handed in (zero included),
/// in the same order. Together with the contracts of [`TypeArray::new`] and
/// [`TypeArray::len`], an array built from `n` descriptors always scans
/// back to length `n`.
pub proof fn lemma_models_of_counts_and_orders(elements: Seq<Type>)
    ensures
        models_of(elements).len() == elements.len(),
        forall|i: int| 0 <= i < elements.len() ==> models_of(elements)[i] == elements[i]@,
{
}

/// Law: deep-copying a descriptor preserves its model at every nesting
/// depth: any result that [`Type::clone`] can return for `a` models the
/// same tree as `a`, while owning its storage independently, so original
/// and copy are each torn down exactly once.
pub proof fn lemma_clone_preserves_model(a: Type, b: Type)
    requires
        vstd::pervasive::cloned::<Type>(a, b),
    ensures
        b@ == a@,
{
}

/// One slot of a `TypeArray`'s backing storage: either an owned element
/// descriptor or the null terminator the native layer scans for.
#[derive(Debug)]
enum Slot {
    Entry(Type),
    Sentinel,
}

/// Whether two slots carry the same content: both terminators, or two
/// entries whose descriptors have equal models.
spec fn slot_like(a: Slot, b: Slot) -> bool {
    match (a, b) {
        (Slot::Entry(x), Slot::Entry(y)) => x@ == y@,
        (Slot::Sentinel, Slot::Sentinel) => true,
        _ => false,
    }
}

/// An ordered, sentinel-terminated, owned sequence of type descriptors.
///
/// Insertion order is significant: it defines a struct's field order or a
/// call's argument order. The storage ends with a sentinel slot rather than
/// carrying a separate element count, matching the native layer's "scan
/// until null" array convention, so [`TypeArray::len`] recovers the length
/// by scanning. The array exclusively owns every element; dropping it drops
/// every element (recursively, for struct elements) and then the backing
/// storage.
#[derive(Debug)]
pub struct TypeArray {
    slots: Vec<Slot>,
}

/// The representation of a type descriptor.
#[derive(Debug)]
enum Repr {
    /// A shared reference to a static primitive descriptor, identified by tag.
    Primitive(TypeKind),
    /// A dynamically allocated struct descriptor exclusively owning its
    /// field array. Its size and alignment are left unset here: they are
    /// derived by native layout logic the first time the type takes part in
    /// a preparation step.
    Structure(TypeArray),
}

/// A native type descriptor, either primitive or struct.
///
/// A primitive references shared static data and owns nothing; a struct
/// exclusively owns its field array. Destruction branches on this tag: it is
/// a no-op for a primitive and a recursive teardown for a struct, and the
/// tag is what keeps a static primitive record from ever being freed.
#[derive(Debug)]
pub struct Type {
    repr: Repr,
}

impl TypeArray {
    #[verifier::type_invariant]
    spec fn wf(self) -> bool {
        &&& self.slots@.len() >= 1
        &&& self.slots@.last() is Sentinel
        &&& forall|i: int| 0 <= i < self.slots@.len() - 1 ==> self.slots@[i] is Entry
    }
}

impl View for TypeArray {
    type V = Seq<TypeModel>;

    /// The elements before the sentinel, as their models, in order.
    closed spec fn view(&self) -> Seq<TypeModel>
        decreases self,
    {
        Seq::new(
            (self.slots@.len() - 1) as nat,
            |i: int|
                if 0 <= i < self.slots@.len() && self.slots@[i] is Entry {
                    self.slots@[i]->Entry_0@
                } else {
                    TypeModel::Primitive(TypeKind::Void)
                },
        )
    }
}

impl View for Type {
    type V = TypeModel;

    closed spec fn view(&self) -> TypeModel
        decreases self,
    {
        match self.repr {
            Repr::Primitive(kind) => TypeModel::Primitive(kind),
            Repr::Structure(fields) => TypeModel::Structure(fields@),
        }
    }
}

impl TypeArray {
    /// Creates a sentinel-terminated array from the given elements, taking
    /// ownership of every one of them. Each element is moved into its slot
    /// in order and the terminator is written after the last; because the
    /// elements are consumed by value, no element can later be torn down a
    /// second time by its previous owner.
    pub fn new(elements: Vec<Type>) -> (r: Self)
        ensures
            r@ == models_of(elements@),
            r@.len() == elements@.len(),
    {
        let ghost orig = elements@;
        let mut elements = elements;
        let mut slots: Vec<Slot> = Vec::new();
        while elements.len() > 0
            invariant
                slots@.len() + elements@.len() == orig.len(),
                elements@ == orig.subrange(slots@.len() as int, orig.len() as int),
                forall|j: int|
                    0 <= j < slots@.len() ==> #[trigger] slots@[j] is Entry && slots@[j]->Entry_0@
                        == orig[j]@,
            decreases elements@.len(),
        {
            let t = elements.remove(0);
            proof {
                assert(t == orig[slots@.len() as int]);
                assert(elements@ == orig.subrange(slots@.len() + 1int, orig.len() as int));
            }
            slots.push(Slot::Entry(t));
        }
        slots.push(Slot::Sentinel);
        let r = TypeArray { slots };
        proof {
            assert(r@ =~= models_of(orig));
        }
        r
    }

    /// The number of elements, recovered by scanning from the start until
    /// the sentinel is reached. No separate count is stored, so this is
    /// linear in the length by design, matching the native layer's own
    /// null-terminated array convention.
    pub fn len(&self) -> (r: usize)
        ensures
            r == self@.len(),
    {
        proof {
            use_type_invariant(self);
        }
        let bound: usize = self.slots.len();
        let mut count: usize = 0;
        while self.slot_is_entry(count)
            invariant
                self.wf(),
                bound == self.slots@.len(),
                count <= self@.len(),
            decreases self@.len() - count,
        {
            count = count + 1;
        }
        count
    }

    /// Whether the slot at `i` holds an element rather than the terminator.
    fn slot_is_entry(&self, i: usize) -> (r: bool)
        requires
            i < self.slots@.len(),
        ensures
            r == (self.slots@[i as int] is Entry),
    {
        match &self.slots[i] {
            Slot::Entry(_) => true,
            Slot::Sentinel => false,
        }
    }

    /// Borrows the element at index `i`.
    pub fn get(&self, i: usize) -> (r: &Type)
        requires
            i < self@.len(),
        ensures
            r@ == self@[i as int],
    {
        proof {
            use_type_invariant(self);
        }
        match &self.slots[i] {
            Slot::Entry(t) => t,
            Slot::Sentinel => vstd::pervasive::unreached(),
        }
    }
}

impl Clone for TypeArray {
    /// Deep-copies the array: fresh sentinel-terminated storage of the same
    /// length, with every slot deep-cloned, so the copy owns its elements
    /// independently of the original.
    fn clone(&self) -> (r: Self)
        ensures
            r@ == self@,
        decreases self,
    {
        proof {
            use_type_invariant(self);
        }
        let n: usize = self.slots.len();
        let mut slots: Vec<Slot> = Vec::new();
        let mut i: usize = 0;
        while i < n
            invariant
                self.wf(),
                n == self.slots@.len(),
                i <= n,
                slots@.len() == i as int,
                forall|j: int| 0 <= j < i ==> slot_like(#[trigger] slots@[j], self.slots@[j]),
            decreases n - i,
        {
            let s = match &self.slots[i] {
                Slot::Entry(t) => Slot::Entry(t.clone()),
                Slot::Sentinel => Slot::Sentinel,
            };
            slots.push(s);
            i = i + 1;
        }
        let r = TypeArray { slots };
        proof {
            assert(r@ =~= self@);
        }
        r
    }
}

impl Clone for Type {
    /// Deep-copies the descriptor. A primitive is copied by tag alone,
    /// since it stands for shared static data; a struct recursively
    /// deep-copies its field array into a fresh aggregate record.
    fn clone(&self) -> (r: Self)
        ensures
            r@ == self@,
        decreases self,
    {
        match &self.repr {
            Repr::Primitive(kind) => Type { repr: Repr::Primitive(*kind) },
            Repr::Structure(fields) => Type { repr: Repr::Structure(fields.clone()) },
        }
    }
}

impl Type {
    /// The `void` type, usable only as a call's result type.
    pub fn void() -> (r: Self)
        ensures
            r@ == TypeModel::Primitive(TypeKind::Void),
    {
        Type { repr: Repr::Primitive(TypeKind::Void) }
    }

    /// The unsigned 8-bit integer type.
    pub fn uint8() -> (r: Self)
        ensures
            r@ == TypeModel::Primitive(TypeKind::UInt8),
    {
        Type { repr: Repr::Primitive(TypeKind::UInt8) }
    }

    /// The signed 8-bit integer type.
    pub fn sint8() -> (r: Self)
        ensures
            r@ == TypeModel::Primitive(TypeKind::SInt8),
    {
        Type { repr: Repr::Primitive(TypeKind::SInt8) }
    }

    /// The unsigned 16-bit integer type.
    pub fn uint16() -> (r: Self)
        ensures
            r@ == TypeModel::Primitive(TypeKind::UInt16),
    {
        Type { repr: Repr::Primitive(TypeKind::UInt16) }
    }

    /// The signed 16-bit integer type.
    pub fn sint16() -> (r: Self)
        ensures
            r@ == TypeModel::Primitive(TypeKind::SInt16),
    {
        Type { repr: Repr::Primitive(TypeKind::SInt16) }
    }

    /// The unsigned 32-bit integer type.
    pub fn uint32() -> (r: Self)
        ensures
            r@ == TypeModel::Primitive(TypeKind::UInt32),
    {
        Type { repr: Repr::Primitive(TypeKind::UInt32) }
    }

    /// The signed 32-bit integer type.
    pub fn sint32() -> (r: Self)
        ensures
            r@ == TypeModel::Primitive(TypeKind::SInt32),
    {
        Type { repr: Repr::Primitive(TypeKind::SInt32) }
    }

    /// The unsigned 64-bit integer type.
    pub fn uint64() -> (r: Self)
        ensures
            r@ == TypeModel::Primitive(TypeKind::UInt64),
    {
        Type { repr: Repr::Primitive(TypeKind::UInt64) }
    }

    /// The signed 64-bit integer type.
    pub fn sint64() -> (r: Self)
        ensures
            r@ == TypeModel::Primitive(TypeKind::SInt64),
    {
        Type { repr: Repr::Primitive(TypeKind::SInt64) }
    }

    /// The single-precision floating-point type.
    pub fn float() -> (r: Self)
        ensures
            r@ == TypeModel::Primitive(TypeKind::Float),
    {
        Type { repr: Repr::Primitive(TypeKind::Float) }
    }

    /// The double-precision floating-point type.
    pub fn double() -> (r: Self)
        ensures
            r@ == TypeModel::Primitive(TypeKind::Double),
    {
        Type { repr: Repr::Primitive(TypeKind::Double) }
    }

    /// The untyped data pointer type.
    pub fn pointer() -> (r: Self)
        ensures
            r@ == TypeModel::Primitive(TypeKind::Pointer),
    {
        Type { repr: Repr::Primitive(TypeKind::Pointer) }
    }

    /// The extended-precision floating-point type.
    pub fn longdouble() -> (r: Self)
        ensures
            r@ == TypeModel::Primitive(TypeKind::LongDouble),
    {
        Type { repr: Repr::Primitive(TypeKind::LongDouble) }
    }

    /// The single-precision complex type.
    pub fn complex_float() -> (r: Self)
        ensures
            r@ == TypeModel::Primitive(TypeKind::ComplexFloat),
    {
        Type { repr: Repr::Primitive(TypeKind::ComplexFloat) }
    }

    /// The double-precision complex type.
    pub fn complex_double() -> (r: Self)
        ensures
            r@ == TypeModel::Primitive(TypeKind::ComplexDouble),
    {
        Type { repr: Repr::Primitive(TypeKind::ComplexDouble) }
    }

    /// The extended-precision complex type.
    pub fn complex_longdouble() -> (r: Self)
        ensures
            r@ == TypeModel::Primitive(TypeKind::ComplexLongDouble),
    {
        Type { repr: Repr::Primitive(TypeKind::ComplexLongDouble) }
    }

    /// Creates a struct type whose fields are the given descriptors, taking
    /// ownership of all of them. The field array is built first and the new
    /// aggregate record then owns it exclusively; size and alignment of the
    /// aggregate stay unset until a preparation step first processes it.
    pub fn structure(fields: Vec<Type>) -> (r: Self)
        ensures
            r@ == TypeModel::Structure(models_of(fields@)),
    {
        Self::structure_from_array(TypeArray::new(fields))
    }

    /// Creates a struct type from a field array the caller has already
    /// built, taking ownership of the array.
    pub fn structure_from_array(fields: TypeArray) -> (r: Self)
        ensures
            r@ == TypeModel::Structure(fields@),
    {
        Type { repr: Repr::Structure(fields) }
    }

    /// Whether this descriptor is a struct rather than a primitive.
    pub fn is_structure(&self) -> (r: bool)
        ensures
            r == (self@ is Structure),
    {
        match &self.repr {
            Repr::Primitive(_) => false,
            Repr::Structure(_) => true,
        }
    }

    /// The tag of a primitive descriptor, or `None` for a struct.
    pub fn primitive_kind(&self) -> (r: Option<TypeKind>)
        ensures
            match r {
                Some(kind) => self@ == TypeModel::Primitive(kind),
                None => self@ is Structure,
            },
    {
        match &self.repr {
            Repr::Primitive(kind) => Some(*kind),
            Repr::Structure(_) => None,
        }
    }

    /// Borrows the field array of a struct descriptor.
    pub fn fields(&self) -> (r: &TypeArray)
        requires
            self@ is Structure,
        ensures
            r@ == self@->Structure_0,
    {
        match &self.repr {
            Repr::Primitive(_) => vstd::pervasive::unreached(),
            Repr::Structure(fields) => fields,
        }
    }
}

} // verus!

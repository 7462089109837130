//! Sized, aligned layout of the runtime's heap structures.
//!
//! A [`TypeDef`] describes a fixed-layout struct (such as the process
//! context): each field is placed at the lowest offset that respects its
//! alignment, and the struct's size is rounded up to the largest field
//! alignment.

use vstd::prelude::*;

verus! {

use vstd::arithmetic::div_mod::lemma_fundamental_div_mod;
use vstd::arithmetic::div_mod::lemma_mod_division_less_than_divisor;
use vstd::arithmetic::div_mod::lemma_mod_multiples_basic;

/// `offset` rounded up to the next multiple of `align` (or `offset` itself
/// when it is already aligned).
pub open spec fn align_up_spec(offset: int, align: int) -> int {
    ((offset + align - 1) / align) * align
}

/// Round `offset` up to the nearest multiple of `align`.
pub fn align_up(offset: usize, align: usize) -> (r: usize)
    requires
        1 <= align,
        offset + align - 1 <= usize::MAX,
    ensures
        r == align_up_spec(offset as int, align as int),
        offset <= r < offset + align,
        r as int % align as int == 0,
{
    let x = offset + (align - 1);
    let q = x / align;
    proof {
        lemma_fundamental_div_mod(x as int, align as int);
        lemma_mod_division_less_than_divisor(x as int, align as int);
        lemma_mod_multiples_basic(q as int, align as int);
        assert(q as int * align as int == align as int * q as int) by (nonlinear_arith);
        assert(q as int * align as int == x as int - (x as int % align as int));
    }
    q * align
}

/// A machine value type, described by the number of bytes it occupies.
/// Every width is a power of two, so a field's width doubles as its
/// alignment requirement.
#[derive(Clone, Copy, PartialEq, Eq, Structural, Debug)]
pub enum ValueType {
    I8,
    I16,
    I32,
    I64,
    I128,
}

impl ValueType {
    /// The width of this value type in bytes.
    pub open spec fn spec_bytes(self) -> usize {
        match self {
            ValueType::I8 => 1,
            ValueType::I16 => 2,
            ValueType::I32 => 4,
            ValueType::I64 => 8,
            ValueType::I128 => 16,
        }
    }

    /// The width of this value type in bytes.
    pub fn bytes(&self) -> (r: usize)
        ensures
            r == self.spec_bytes(),
            1 <= r <= 16,
    {
        match self {
            ValueType::I8 => 1,
            ValueType::I16 => 2,
            ValueType::I32 => 4,
            ValueType::I64 => 8,
            ValueType::I128 => 16,
        }
    }
}

/// One named field of a [`TypeDef`], placed at a byte offset computed by
/// [`compute_layout`].
pub struct Field {
    pub name: String,
    pub ty: ValueType,
    pub offset: usize,
}

impl Field {
    /// A field of the given name and type, not yet placed (offset 0).
    pub fn new(name: &str, ty: ValueType) -> (r: Field)
        ensures
            r.name@ == name@,
            r.ty == ty,
            r.offset == 0,
    {
        Field { name: name.to_owned(), ty, offset: 0 }
    }
}

/// A fixed-layout struct: named fields at computed byte offsets, with a
/// total size and alignment.
pub struct TypeDef {
    pub name: String,
    pub fields: Vec<Field>,
    pub size: usize,
    pub align: usize,
}

/// The byte offset one past the last field before index `i` (0 for the first
/// field).
pub open spec fn field_end(fields: Seq<Field>, i: int) -> int {
    if i <= 0 {
        0
    } else {
        fields[i - 1].offset + fields[i - 1].ty.spec_bytes()
    }
}

/// Each field sits at the lowest offset at or after the end of the previous
/// field that is a multiple of its own width.
pub open spec fn fields_laid_out(fields: Seq<Field>) -> bool {
    forall|i: int|
        0 <= i < fields.len() ==> #[trigger] fields[i].offset == align_up_spec(
            field_end(fields, i),
            fields[i].ty.spec_bytes() as int,
        )
}

/// The largest width among the first `i` fields, and at least 1: the
/// alignment of the whole struct.
pub open spec fn struct_align_of(fields: Seq<Field>, i: int) -> int
    decreases i,
{
    if i <= 0 {
        1
    } else {
        vstd::math::max(struct_align_of(fields, i - 1), fields[i - 1].ty.spec_bytes() as int)
    }
}

impl TypeDef {
    /// A well-laid-out type definition.
    pub open spec fn wf(self) -> bool {
        &&& fields_laid_out(self.fields@)
        &&& self.align == struct_align_of(self.fields@, self.fields@.len() as int)
        &&& self.size == align_up_spec(
            field_end(self.fields@, self.fields@.len() as int),
            self.align as int,
        )
        &&& self.size as int % self.align as int == 0
    }

    /// Lay out the given fields in order and record the resulting size and
    /// alignment.
    pub fn new(name: &str, fields: Vec<Field>) -> (r: TypeDef)
        requires
            fields@.len() * 32 + 32 <= usize::MAX,
        ensures
            r.wf(),
            r.name@ == name@,
            r.fields@.len() == fields@.len(),
            forall|i: int| 0 <= i < fields@.len() ==> #[trigger] r.fields@[i].name == fields@[i].name,
            forall|i: int| 0 <= i < fields@.len() ==> #[trigger] r.fields@[i].ty == fields@[i].ty,
    {
        let mut ty = TypeDef { name: name.to_owned(), fields, size: 0, align: 0 };
        compute_layout(&mut ty);
        ty
    }
}

/// Place every field of `ty` at its aligned offset, then set the struct's
/// size (the end of the last field, rounded up to the struct alignment) and
/// alignment (the largest field width).
#[verifier::rlimit(50)]
pub fn compute_layout(ty: &mut TypeDef)
    requires
        old(ty).fields@.len() * 32 + 32 <= usize::MAX,
    ensures
        final(ty).wf(),
        final(ty).name == old(ty).name,
        final(ty).fields@.len() == old(ty).fields@.len(),
        forall|i: int|
            0 <= i < old(ty).fields@.len() ==> #[trigger] final(ty).fields@[i].name == old(
                ty,
            ).fields@[i].name,
        forall|i: int|
            0 <= i < old(ty).fields@.len() ==> #[trigger] final(ty).fields@[i].ty == old(
                ty,
            ).fields@[i].ty,
{
    let mut offset: usize = 0;
    let mut struct_align: usize = 1;
    let n = ty.fields.len();
    let mut i: usize = 0;
    while i < n
        invariant
            n == ty.fields@.len(),
            i <= n,
            n * 32 + 32 <= usize::MAX,
            ty.fields@.len() == old(ty).fields@.len(),
            ty.name == old(ty).name,
            forall|j: int| 0 <= j < n ==> #[trigger] ty.fields@[j].name == old(ty).fields@[j].name,
            forall|j: int| 0 <= j < n ==> #[trigger] ty.fields@[j].ty == old(ty).fields@[j].ty,
            forall|j: int|
                0 <= j < i ==> #[trigger] ty.fields@[j].offset == align_up_spec(
                    field_end(ty.fields@, j),
                    ty.fields@[j].ty.spec_bytes() as int,
                ),
            offset == field_end(ty.fields@, i as int),
            struct_align == struct_align_of(ty.fields@, i as int),
            1 <= struct_align <= 16,
            offset <= i * 32,
        decreases n - i,
    {
        let bytes = ty.fields[i].ty.bytes();
        let placed = align_up(offset, bytes);
        let name_i = ty.fields[i].name.clone();
        let ty_i = ty.fields[i].ty;
        let ghost before = ty.fields@;
        let f = Field { name: name_i, ty: ty_i, offset: placed };
        let ghost gf = f;
        ty.fields.set(i, f);
        proof {
            assert(ty.fields@ == before.update(i as int, gf));
            assert forall|j: int| 0 <= j < n && j != i implies #[trigger] ty.fields@[j]
                == before[j] by {}
            assert(forall|j: int| 0 <= j < i ==> field_end(ty.fields@, j) == field_end(before, j));
            assert(struct_align_of(ty.fields@, i as int) == struct_align_of(before, i as int)) by {
                lemma_struct_align_unchanged(before, ty.fields@, i as int);
            }
        }
        offset = placed + bytes;
        if bytes > struct_align {
            struct_align = bytes;
        }
        i = i + 1;
    }
    let size = align_up(offset, struct_align);
    ty.size = size;
    ty.align = struct_align;
}

/// `struct_align_of` only reads the first `i` fields, so it is unchanged by
/// edits at or after index `i`.
proof fn lemma_struct_align_unchanged(a: Seq<Field>, b: Seq<Field>, i: int)
    requires
        0 <= i <= a.len(),
        a.len() == b.len(),
        forall|j: int| 0 <= j < i ==> a[j] == b[j],
    ensures
        struct_align_of(a, i) == struct_align_of(b, i),
    decreases i,
{
    if i > 0 {
        lemma_struct_align_unchanged(a, b, i - 1);
    }
}

} // verus!

//! Arrays of numbers on their way to the context and back.
use vstd::prelude::*;
use crate::number::{Float32, Float64};

verus! {

/// The element types of the typed arrays that the context takes.
#[derive(Clone, Copy, Debug, PartialEq, Eq, Structural)]
pub enum ElementType {
    Uint8,
    Int8,
    Uint16,
    Int16,
    Uint32,
    Int32,
    Float32,
    Float64,
}

impl ElementType {
    /// The number of bytes that one element takes.
    pub open spec fn width(self) -> nat {
        match self {
            ElementType::Uint8 | ElementType::Int8 => 1,
            ElementType::Uint16 | ElementType::Int16 => 2,
            ElementType::Uint32 | ElementType::Int32 | ElementType::Float32 => 4,
            ElementType::Float64 => 8,
        }
    }

    /// Gives the number of bytes that one element takes.
    pub fn size_in_bytes(self) -> (n: usize)
        ensures
            n == self.width(),
    {
        match self {
            ElementType::Uint8 | ElementType::Int8 => 1,
            ElementType::Uint16 | ElementType::Int16 => 2,
            ElementType::Uint32 | ElementType::Int32 | ElementType::Float32 => 4,
            ElementType::Float64 => 8,
        }
    }
}

/// The elements of `v` as integers.
pub open spec fn values_u8(v: Seq<u8>) -> Seq<int> {
    Seq::new(v.len(), |i: int| v[i] as int)
}

/// The elements of `v` as integers.
pub open spec fn values_i8(v: Seq<i8>) -> Seq<int> {
    Seq::new(v.len(), |i: int| v[i] as int)
}

/// The elements of `v` as integers.
pub open spec fn values_u16(v: Seq<u16>) -> Seq<int> {
    Seq::new(v.len(), |i: int| v[i] as int)
}

/// The elements of `v` as integers.
pub open spec fn values_i16(v: Seq<i16>) -> Seq<int> {
    Seq::new(v.len(), |i: int| v[i] as int)
}

/// The elements of `v` as integers.
pub open spec fn values_u32(v: Seq<u32>) -> Seq<int> {
    Seq::new(v.len(), |i: int| v[i] as int)
}

/// The elements of `v` as integers.
pub open spec fn values_i32(v: Seq<i32>) -> Seq<int> {
    Seq::new(v.len(), |i: int| v[i] as int)
}

/// The encodings of the elements of `v` as integers.
pub open spec fn values_float32(v: Seq<Float32>) -> Seq<int> {
    Seq::new(v.len(), |i: int| v[i].bits as int)
}

/// The encodings of the elements of `v` as integers.
pub open spec fn values_float64(v: Seq<Float64>) -> Seq<int> {
    Seq::new(v.len(), |i: int| v[i].bits as int)
}

/// A caller's array of numbers, lent to one call.
#[derive(Clone, Copy, Debug, PartialEq, Eq)]
pub enum Payload<'a> {
    Uint8(&'a Vec<u8>),
    Int8(&'a Vec<i8>),
    Uint16(&'a Vec<u16>),
    Int16(&'a Vec<i16>),
    Uint32(&'a Vec<u32>),
    Int32(&'a Vec<i32>),
    Float32(&'a Vec<Float32>),
    Float64(&'a Vec<Float64>),
}

impl<'a> Payload<'a> {
    /// The element type of the array.
    pub open spec fn element(self) -> ElementType {
        match self {
            Payload::Uint8(_) => ElementType::Uint8,
            Payload::Int8(_) => ElementType::Int8,
            Payload::Uint16(_) => ElementType::Uint16,
            Payload::Int16(_) => ElementType::Int16,
            Payload::Uint32(_) => ElementType::Uint32,
            Payload::Int32(_) => ElementType::Int32,
            Payload::Float32(_) => ElementType::Float32,
            Payload::Float64(_) => ElementType::Float64,
        }
    }

    /// The elements in order, each as an integer; a floating-point number by
    /// its encoding.
    pub open spec fn values(self) -> Seq<int> {
        match self {
            Payload::Uint8(v) => values_u8(v@),
            Payload::Int8(v) => values_i8(v@),
            Payload::Uint16(v) => values_u16(v@),
            Payload::Int16(v) => values_i16(v@),
            Payload::Uint32(v) => values_u32(v@),
            Payload::Int32(v) => values_i32(v@),
            Payload::Float32(v) => values_float32(v@),
            Payload::Float64(v) => values_float64(v@),
        }
    }

    /// The number of bytes that the elements take together.
    pub open spec fn size(self) -> nat {
        self.values().len() * self.element().width()
    }

    /// Gives the element type of the array.
    pub fn element_type(&self) -> (t: ElementType)
        ensures
            t == self.element(),
    {
        match self {
            Payload::Uint8(_) => ElementType::Uint8,
            Payload::Int8(_) => ElementType::Int8,
            Payload::Uint16(_) => ElementType::Uint16,
            Payload::Int16(_) => ElementType::Int16,
            Payload::Uint32(_) => ElementType::Uint32,
            Payload::Int32(_) => ElementType::Int32,
            Payload::Float32(_) => ElementType::Float32,
            Payload::Float64(_) => ElementType::Float64,
        }
    }

    /// Gives the number of elements.
    pub fn len(&self) -> (n: usize)
        ensures
            n == self.values().len(),
    {
        match self {
            Payload::Uint8(v) => v.len(),
            Payload::Int8(v) => v.len(),
            Payload::Uint16(v) => v.len(),
            Payload::Int16(v) => v.len(),
            Payload::Uint32(v) => v.len(),
            Payload::Int32(v) => v.len(),
            Payload::Float32(v) => v.len(),
            Payload::Float64(v) => v.len(),
        }
    }

    /// Copies the array, as the context does when it takes the data of a call.
    pub fn to_elements(&self) -> (e: Elements)
        ensures
            e.element() == self.element(),
            e.values() == self.values(),
    {
        match self {
            Payload::Uint8(v) => Elements::Uint8(copy_of(v)),
            Payload::Int8(v) => Elements::Int8(copy_of(v)),
            Payload::Uint16(v) => Elements::Uint16(copy_of(v)),
            Payload::Int16(v) => Elements::Int16(copy_of(v)),
            Payload::Uint32(v) => Elements::Uint32(copy_of(v)),
            Payload::Int32(v) => Elements::Int32(copy_of(v)),
            Payload::Float32(v) => Elements::Float32(copy_of(v)),
            Payload::Float64(v) => Elements::Float64(copy_of(v)),
        }
    }

    /// Gives the number of bytes that the elements take together, and none
    /// where that number does not fit the machine's word.
    pub fn byte_len(&self) -> (n: Option<usize>)
        ensures
            match n {
                Some(k) => k == self.size(),
                None => self.size() > usize::MAX,
            },
    {
        let count: usize = self.len();
        let width: usize = self.element_type().size_in_bytes();
        if count <= usize::MAX / width {
            assert(count * width <= usize::MAX) by (nonlinear_arith)
                requires
                    count <= usize::MAX / width,
                    1 <= width <= 8,
            ;
            Some(count * width)
        } else {
            assert(count * width > usize::MAX) by (nonlinear_arith)
                requires
                    count > usize::MAX / width,
                    1 <= width <= 8,
            ;
            None
        }
    }
}

/// Copies `src` element by element.
pub fn copy_of<T: Copy>(src: &Vec<T>) -> (dst: Vec<T>)
    ensures
        dst@ == src@,
{
    let n: usize = src.len();
    let mut dst: Vec<T> = Vec::new();
    let mut i: usize = 0;
    while i < n
        invariant
            n == src@.len(),
            i <= n,
            dst@.len() == i,
            forall|j: int| 0 <= j < i ==> dst@[j] == src@[j],
        decreases n - i,
    {
        dst.push(src[i]);
        i = i + 1;
    }
    assert(dst@ =~= src@);
    dst
}

/// An array of numbers that the context handed back.
#[derive(Clone, Debug, PartialEq, Eq)]
pub enum Elements {
    Uint8(Vec<u8>),
    Int8(Vec<i8>),
    Uint16(Vec<u16>),
    Int16(Vec<i16>),
    Uint32(Vec<u32>),
    Int32(Vec<i32>),
    Float32(Vec<Float32>),
    Float64(Vec<Float64>),
}

impl Elements {
    /// The element type of the array.
    pub open spec fn element(self) -> ElementType {
        match self {
            Elements::Uint8(_) => ElementType::Uint8,
            Elements::Int8(_) => ElementType::Int8,
            Elements::Uint16(_) => ElementType::Uint16,
            Elements::Int16(_) => ElementType::Int16,
            Elements::Uint32(_) => ElementType::Uint32,
            Elements::Int32(_) => ElementType::Int32,
            Elements::Float32(_) => ElementType::Float32,
            Elements::Float64(_) => ElementType::Float64,
        }
    }

    /// The elements in order, each as an integer; a floating-point number by
    /// its encoding.
    pub open spec fn values(self) -> Seq<int> {
        match self {
            Elements::Uint8(v) => values_u8(v@),
            Elements::Int8(v) => values_i8(v@),
            Elements::Uint16(v) => values_u16(v@),
            Elements::Int16(v) => values_i16(v@),
            Elements::Uint32(v) => values_u32(v@),
            Elements::Int32(v) => values_i32(v@),
            Elements::Float32(v) => values_float32(v@),
            Elements::Float64(v) => values_float64(v@),
        }
    }

    /// Lends the array out as the payload of a call.
    pub fn as_payload(&self) -> (p: Payload<'_>)
        ensures
            p.element() == self.element(),
            p.values() == self.values(),
    {
        match self {
            Elements::Uint8(v) => Payload::Uint8(v),
            Elements::Int8(v) => Payload::Int8(v),
            Elements::Uint16(v) => Payload::Uint16(v),
            Elements::Int16(v) => Payload::Int16(v),
            Elements::Uint32(v) => Payload::Uint32(v),
            Elements::Int32(v) => Payload::Int32(v),
            Elements::Float32(v) => Payload::Float32(v),
            Elements::Float64(v) => Payload::Float64(v),
        }
    }
}

/// Overwrites `dst` with the elements of `src` in place.
pub fn overwrite<T: Copy>(dst: &mut Vec<T>, src: &Vec<T>)
    requires
        old(dst)@.len() == src@.len(),
    ensures
        final(dst)@ == src@,
{
    let n: usize = src.len();
    let mut i: usize = 0;
    while i < n
        invariant
            n == src@.len(),
            dst@.len() == n,
            i <= n,
            forall|j: int| 0 <= j < i ==> dst@[j] == src@[j],
        decreases n - i,
    {
        dst.set(i, src[i]);
        i = i + 1;
    }
    assert(dst@ =~= src@);
}

} // verus!

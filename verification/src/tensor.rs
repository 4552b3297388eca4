//! Tensors: strided views over device buffers.

use crate::element::{Element, ElementType};
use crate::error::KernelError;
use crate::packing::{div_ceil, div_ceil_usize, lemma_div_ceil_is_least};
use crate::tensor::strider::{
    checked_contiguous_strides,
    shape_product,
    strides_fit,
    Strider,
};
use std::marker::PhantomData;
use vstd::prelude::*;

pub mod strider;

verus! {

/// A buffer on the device: which allocation it is, and how many encoded
/// units it holds. Two buffers with the same `id` are the same allocation.
#[derive(Clone, Copy, Debug, PartialEq, Eq, Hash)]
pub struct Buffer {
    /// Identity of the allocation.
    pub id: u64,
    /// Number of encoded units in the allocation.
    pub units: usize,
}

/// A range of encoded units of a buffer, both ends included.
#[derive(Clone, Copy, Debug, PartialEq, Eq, Hash)]
pub struct Region {
    /// The first unit of the range.
    pub first: usize,
    /// The last unit of the range.
    pub last: usize,
}

impl Region {
    /// Whether some unit lies in both ranges.
    pub open spec fn spec_overlaps(self, other: Region) -> bool {
        self.first <= other.last && other.first <= self.last
    }

    /// Whether some unit lies in both ranges.
    pub fn overlaps(&self, other: &Region) -> (b: bool)
        ensures
            b == self.spec_overlaps(*other),
    {
        self.first <= other.last && other.first <= self.last
    }
}

/// Number of scalars of encoding `element` that `buffer` holds.
pub open spec fn spec_capacity(buffer: Buffer, element: ElementType) -> int {
    buffer.units * element.spec_num_packed()
}

/// Whether every element of a view of `buffer` stands inside it.
pub open spec fn spec_in_bounds<const D: usize>(
    buffer: Buffer,
    strider: Strider<D>,
    element: ElementType,
) -> bool {
    strider.within(spec_capacity(buffer, element))
}

/// The encoded units from the one that holds the lowest element of a view
/// to the one that holds the highest; `None` for a view without elements.
pub open spec fn spec_region<const D: usize>(strider: Strider<D>, element: ElementType) -> Option<
    Region,
> {
    if strider.spec_is_empty() {
        None
    } else {
        Some(
            Region {
                first: (strider.spec_lowest() / element.spec_num_packed() as int) as usize,
                last: (strider.spec_highest() / element.spec_num_packed() as int) as usize,
            },
        )
    }
}

/// The region of a view of `buffer`, or `AccessViolation` where one of its
/// elements stands outside the buffer.
pub fn locate<const D: usize>(buffer: &Buffer, strider: &Strider<D>, element: ElementType) -> (r:
    Result<Option<Region>, KernelError>)
    ensures
        r is Ok <==> spec_in_bounds(*buffer, *strider, element),
        r matches Ok(region) ==> region == spec_region(*strider, element),
        r matches Err(e) ==> e == KernelError::AccessViolation,
{
    let packed = element.num_packed();
    assert(buffer.units * packed <= 0xffff_ffff_ffff_ffff * 32) by (nonlinear_arith)
        requires
            buffer.units <= 0xffff_ffff_ffff_ffff,
            packed <= 32,
    ;
    let capacity: u128 = buffer.units as u128 * packed as u128;
    match strider.span(capacity) {
        Some((low, high)) => {
            let first = low / packed as u128;
            let last = high / packed as u128;
            assert(last < buffer.units) by (nonlinear_arith)
                requires
                    last == high / packed as u128,
                    high < buffer.units * packed,
                    packed > 0,
            ;
            assert(first <= last) by (nonlinear_arith)
                requires
                    first == low / packed as u128,
                    last == high / packed as u128,
                    low <= high,
                    packed > 0,
            ;
            Ok(Some(Region { first: first as usize, last: last as usize }))
        },
        None => {
            if strider.is_empty() {
                proof {
                    strider.lemma_within_by_span(capacity as int);
                }
                Ok(None)
            } else {
                Err(KernelError::AccessViolation)
            }
        },
    }
}

/// A view of a buffer whose scalars are encoded as `T`.
#[derive(Debug, PartialEq, Eq)]
pub struct Tensor<const D: usize, T: Element> {
    /// The buffer that holds the elements.
    pub buffer: Buffer,
    /// Where in the buffer each element stands.
    pub strider: Strider<D>,
    /// The encoding of the elements.
    pub element: PhantomData<T>,
}

impl<const D: usize, T: Element> Clone for Tensor<D, T> {
    /// A second handle to the same view.
    fn clone(&self) -> (t: Self)
        ensures
            t == *self,
    {
        Tensor { buffer: self.buffer, strider: self.strider, element: PhantomData }
    }
}

impl<const D: usize, T: Element> Tensor<D, T> {
    /// Whether every element stands inside the buffer.
    pub open spec fn spec_in_bounds(&self) -> bool {
        spec_in_bounds(self.buffer, self.strider, T::spec_element_type())
    }

    /// The encoded units between the lowest and the highest element.
    pub open spec fn spec_region(&self) -> Option<Region> {
        spec_region(self.strider, T::spec_element_type())
    }

    /// Number of encoded units that hold a row-major tensor of `shape`.
    pub open spec fn spec_required_units(shape: Seq<usize>) -> nat {
        div_ceil(shape_product(shape), T::spec_element_type().spec_num_packed())
    }

    /// Whether a row-major tensor of `shape` can be laid out in `buffer`.
    pub open spec fn allocatable(buffer: Buffer, shape: Seq<usize>) -> bool {
        &&& strides_fit(shape)
        &&& shape_product(shape) <= usize::MAX
        &&& Self::spec_required_units(shape) <= buffer.units
    }

    /// A view of `buffer` through `strider`. Nothing is checked here: a
    /// view that reaches outside its buffer is refused when it is bound.
    pub fn new(buffer: Buffer, strider: Strider<D>) -> (t: Self)
        ensures
            t.buffer == buffer,
            t.strider == strider,
    {
        Tensor { buffer, strider, element: PhantomData }
    }

    /// Another view of the same buffer.
    pub fn view<const E: usize>(&self, strider: Strider<E>) -> (t: Tensor<E, T>)
        ensures
            t.buffer == self.buffer,
            t.strider == strider,
    {
        Tensor { buffer: self.buffer, strider, element: PhantomData }
    }

    /// Number of encoded units that hold a row-major tensor of `shape`, or
    /// `None` where its strides or the number of its elements are too large
    /// to represent.
    pub fn required_units(shape: &[usize; D]) -> (units: Option<usize>)
        ensures
            units is Some <==> strides_fit(shape@) && shape_product(shape@) <= usize::MAX,
            units matches Some(n) ==> n == Self::spec_required_units(shape@),
    {
        match checked_contiguous_strides(shape) {
            None => None,
            Some(strides) => {
                let strider = Strider { shape: *shape, strides, offset: 0 };
                match strider.checked_len() {
                    None => None,
                    Some(len) => Some(div_ceil_usize(len, T::num_packed())),
                }
            },
        }
    }

    /// A row-major tensor of `shape` that fills `buffer` from its first
    /// unit, or `AllocationFailure` where the buffer is too small or the
    /// shape too large.
    pub fn allocate(buffer: Buffer, shape: [usize; D]) -> (r: Result<Self, KernelError>)
        ensures
            r is Ok <==> Self::allocatable(buffer, shape@),
            r matches Ok(t) ==> {
                &&& t.buffer == buffer
                &&& t.strider.shape == shape
                &&& t.strider.spec_is_contiguous()
                &&& t.spec_in_bounds()
            },
            r matches Err(e) ==> e == KernelError::AllocationFailure,
    {
        let strides = match checked_contiguous_strides(&shape) {
            None => {
                return Err(KernelError::AllocationFailure);
            },
            Some(strides) => strides,
        };
        let strider = Strider { shape, strides, offset: 0 };
        let len = match strider.checked_len() {
            None => {
                return Err(KernelError::AllocationFailure);
            },
            Some(len) => len,
        };
        let packed = T::num_packed();
        if div_ceil_usize(len, packed) > buffer.units {
            return Err(KernelError::AllocationFailure);
        }
        proof {
            let capacity = spec_capacity(buffer, T::spec_element_type());
            strider.lemma_within_by_span(capacity);
            if !strider.spec_is_empty() {
                strider.lemma_contiguous_span();
                lemma_div_ceil_is_least(len as nat, packed as nat);
                let needed = div_ceil(len as nat, packed as nat);
                assert(buffer.units * packed >= needed * packed) by (nonlinear_arith)
                    requires
                        buffer.units >= needed,
                        packed >= 0,
                ;
            }
        }
        Ok(Tensor { buffer, strider, element: PhantomData })
    }

    /// The buffer that holds the elements.
    pub fn buffer(&self) -> (buffer: Buffer)
        ensures
            buffer == self.buffer,
    {
        self.buffer
    }

    /// Where in the buffer each element stands.
    pub fn strider(&self) -> (strider: Strider<D>)
        ensures
            strider == self.strider,
    {
        self.strider
    }

    /// Extent of each dimension.
    pub fn shape(&self) -> (shape: [usize; D])
        ensures
            shape == self.strider.shape,
    {
        self.strider.shape
    }

    /// Whether every element stands inside the buffer.
    pub fn in_bounds(&self) -> (b: bool)
        ensures
            b == self.spec_in_bounds(),
    {
        locate(&self.buffer, &self.strider, T::element_type()).is_ok()
    }

    /// The encoded units between the lowest and the highest element, or
    /// `AccessViolation` where an element stands outside the buffer.
    pub fn region(&self) -> (r: Result<Option<Region>, KernelError>)
        ensures
            r is Ok <==> self.spec_in_bounds(),
            r matches Ok(region) ==> region == self.spec_region(),
            r matches Err(e) ==> e == KernelError::AccessViolation,
    {
        locate(&self.buffer, &self.strider, T::element_type())
    }
}

} // verus!

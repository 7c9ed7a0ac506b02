use vstd::prelude::*;
use vstd::layout::size_of;

verus! {

/// What a Metal buffer is made of: its length in bytes and the
/// resource-option bits it was allocated with.
pub struct BufferModel {
    pub nbytes: nat,
    pub options: u32,
}

/// Number of whole elements of `elem_size` bytes that fit in `nbytes` bytes.
pub open spec fn element_count(nbytes: nat, elem_size: nat) -> nat
    recommends
        elem_size > 0,
{
    nbytes / elem_size
}

/// A Metal buffer: `nbytes` bytes of storage allocated with `options`.
///
/// Its contents, seen as elements of a type `T`, are the first
/// `nbytes / size_of::<T>()` elements of the storage.
pub struct MetalBuffer {
    nbytes: usize,
    options: u32,
}

impl View for MetalBuffer {
    type V = BufferModel;

    closed spec fn view(&self) -> BufferModel {
        BufferModel { nbytes: self.nbytes as nat, options: self.options }
    }
}

impl MetalBuffer {
    /// A buffer of `nbytes` bytes with the resource options `options`.
    pub fn new(nbytes: usize, options: u32) -> (buffer: MetalBuffer)
        ensures
            buffer@ == (BufferModel { nbytes: nbytes as nat, options }),
    {
        MetalBuffer { nbytes, options }
    }

    /// The length of the buffer in bytes.
    pub fn nbytes(&self) -> (n: usize)
        ensures
            n as nat == self@.nbytes,
    {
        self.nbytes
    }

    /// The resource options the buffer was allocated with.
    pub fn options(&self) -> (o: u32)
        ensures
            o == self@.options,
    {
        self.options
    }

    /// The number of elements of type `T` in the buffer's contents:
    /// `nbytes / size_of::<T>()`, so that the contents never reach past the
    /// end of the buffer and leave less than one element of it unused.
    pub fn contents_len<T>(&self) -> (n: usize)
        requires
            size_of::<T>() > 0,
        ensures
            n as nat == element_count(self@.nbytes, size_of::<T>()),
            n * size_of::<T>() <= self@.nbytes,
            self@.nbytes < (n + 1) * size_of::<T>(),
    {
        let elem = core::mem::size_of::<T>();
        let n = self.nbytes / elem;
        proof {
            let b = self.nbytes as int;
            let e = elem as int;
            vstd::arithmetic::div_mod::lemma_fundamental_div_mod(b, e);
            assert(0 <= b % e < e) by {
                vstd::arithmetic::div_mod::lemma_mod_pos_bound(b, e);
            }
            assert(n * e == e * (b / e)) by (nonlinear_arith)
                requires
                    n == b / e,
            ;
            assert((n + 1) * e == n * e + e) by (nonlinear_arith);
        }
        n
    }
}

} // verus!

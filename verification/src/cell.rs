//! A memory cell that marks its content valid with a magic value.
//!
//! The cell is meant for memory that survives resets: the content counts as
//! initialized only while the magic value, which encodes the ABI version,
//! is in place. `init` writes the value first and the magic value last, so
//! an interrupted `init` leaves the cell uninitialized.
use vstd::prelude::*;

verus! {

/// ABI version encoded in the low 16 bits of the magic value.
pub const ABI_VERSION: u64 = 0x0001;

/// Magic value marking the content as valid for this firmware version.
pub const MAGIC: u64 = 0xCAFA_DEAD_BEEF_0000 | (ABI_VERSION & 0xFFFF);

/// A memory cell with a validity marker.
pub struct MemCell<T: Sized> {
    magic: u64,
    value: Option<T>,
}

impl<T> View for MemCell<T> {
    /// The content, when the cell is marked initialized.
    type V = Option<T>;

    closed spec fn view(&self) -> Option<T> {
        if self.magic == MAGIC {
            self.value
        } else {
            None
        }
    }
}

impl<T> MemCell<T> {
    /// Creates a new uninitialized memory cell: memory that holds no valid
    /// magic value, as after power-on.
    pub fn uninit() -> (r: Self)
        ensures
            r@ is None,
    {
        MemCell { magic: 0, value: None }
    }

    /// The cell over memory that a previous boot left holding `magic` and
    /// `value`: it reads as initialized with `value` exactly when `magic` is
    /// the magic value of this firmware version.
    pub fn retained(magic: u64, value: T) -> (r: Self)
        ensures
            r@ == (if magic == MAGIC {
                Some(value)
            } else {
                None::<T>
            }),
    {
        MemCell { magic, value: Some(value) }
    }

    /// Store `val` and mark the cell initialized; returns a reference to the
    /// stored value.
    pub fn init(&mut self, val: T) -> (r: &mut T)
        ensures
            *r == val,
            final(self)@ == Some(*final(r)),
    {
        self.value = Some(val);
        self.magic = MAGIC;
        self.value.as_mut().unwrap()
    }

    /// The stored value if the cell is marked initialized.
    pub fn get(&self) -> (r: Option<&T>)
        ensures
            r is None <==> self@ is None,
            r matches Some(x) ==> self@ == Some(*x),
    {
        if self.magic == MAGIC {
            self.value.as_ref()
        } else {
            None
        }
    }

    /// Mark the memory cell as uninitialized.
    pub fn invalidate(&mut self)
        ensures
            final(self)@ is None,
    {
        self.magic = 0;
        assert(0 != MAGIC) by (bit_vector);
    }
}

} // verus!

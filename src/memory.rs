use vstd::prelude::*;
use vstd::slice::slice_subrange;

use crate::float::FloatUnit;
use crate::immediate::{splice, write_bytes, DataSize, Immediate};
use crate::vm::Error as VmError;

verus! {

/// The flat byte memory of the virtual machine.
#[derive(Debug)]
pub struct Memory {
    pub storage: Vec<u8>,
}

impl View for Memory {
    type V = Seq<u8>;

    open spec fn view(&self) -> Seq<u8> {
        self.storage@
    }
}

impl Memory {
    /// A zeroed memory of `size` bytes.
    pub fn new(size: usize) -> (r: Self)
        ensures
            r@ == Seq::new(size as nat, |i: int| 0u8),
    {
        let r = Memory { storage: vec![0u8; size] };
        assert(r@ =~= Seq::new(size as nat, |i: int| 0u8));
        r
    }

    pub fn len(&self) -> (r: usize)
        ensures
            r == self@.len(),
    {
        self.storage.len()
    }

    /// Whether `size` bytes starting at `addr` lie inside memory.
    pub open spec fn in_bounds(&self, addr: int, size: DataSize) -> bool {
        addr + size.bytes() <= self@.len()
    }

    /// Reads a little-endian value of size `size` at `addr`.
    pub fn read(&self, addr: usize, size: DataSize) -> (r: Result<Immediate, VmError>)
        ensures
            r is Ok <==> self.in_bounds(addr as int, size),
            r matches Ok(v) ==> v == Immediate::from_le(
                self@.subrange(addr as int, addr + size.bytes()),
                size,
            ),
            r matches Err(e) ==> e == VmError::InstructionPointerOutOfBounds(addr as u64),
    {
        let n = size.size_in_bytes();
        if addr > self.storage.len() || n > self.storage.len() - addr {
            return Err(VmError::InstructionPointerOutOfBounds(addr as u64));
        }
        let s = slice_subrange(self.storage.as_slice(), addr, addr + n);
        Ok(Immediate::from_le_slice(s, size))
    }

    /// Writes `v`, in its own size, at `addr`.
    pub fn store(&mut self, addr: usize, v: Immediate) -> (r: Result<(), VmError>)
        ensures
            r is Ok <==> old(self).in_bounds(addr as int, v.spec_size()),
            r is Ok ==> final(self)@ == splice(old(self)@, addr as int, v.le_bytes()),
            r is Err ==> final(self)@ == old(self)@,
            r matches Err(e) ==> e == VmError::InstructionPointerOutOfBounds(addr as u64),
    {
        let n = v.size().size_in_bytes();
        if addr > self.storage.len() || n > self.storage.len() - addr {
            return Err(VmError::InstructionPointerOutOfBounds(addr as u64));
        }
        let bytes = v.to_le_bytes();
        write_bytes(&mut self.storage, addr, &bytes);
        Ok(())
    }

    /// Writes `value`, converted to `size`, at `addr`.
    pub fn write<F: FloatUnit>(&mut self, addr: usize, value: Immediate, size: DataSize, fpu: &F) -> (r:
        Result<(), VmError>)
        ensures
            r is Ok <==> old(self).in_bounds(addr as int, size),
            r is Err ==> final(self)@ == old(self)@,
            r matches Err(e) ==> e == VmError::InstructionPointerOutOfBounds(addr as u64),
            r is Ok && value.spec_size() == size ==> final(self)@ == splice(
                old(self)@,
                addr as int,
                value.le_bytes(),
            ),
            r is Ok && value.spec_size().is_integer() && size.is_integer() ==> final(self)@
                == splice(old(self)@, addr as int, Immediate::of_raw(size, value.raw()).le_bytes()),
    {
        let v = value.convert(size, fpu);
        self.store(addr, v)
    }
}

/// Reading back what was just stored at an address gives the stored value.
pub proof fn lemma_read_after_store(mem: Seq<u8>, addr: int, v: Immediate)
    requires
        0 <= addr,
        addr + v.spec_size().bytes() <= mem.len(),
    ensures
        splice(mem, addr, v.le_bytes()).subrange(addr, addr + v.spec_size().bytes())
            == v.le_bytes(),
        Immediate::from_le(
            splice(mem, addr, v.le_bytes()).subrange(addr, addr + v.spec_size().bytes()),
            v.spec_size(),
        ) == v,
{
    crate::immediate::lemma_le_round_trip(v);
    assert(splice(mem, addr, v.le_bytes()).subrange(addr, addr + v.spec_size().bytes())
        =~= v.le_bytes());
}

} // verus!

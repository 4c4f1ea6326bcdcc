//! Memory accounting for the mock execution host. Memory grows in pages of
//! 64 KiB; `memory_size` is the index of the end of memory, and data lives
//! from `init_offset` to `offset`. The store is a fixture value owned and
//! passed by the caller, so the accounting carries no process-wide state.

use vstd::prelude::*;

verus! {

/// The page size: 64 KiB.
pub const PAGE_SIZE: u32 = 65536;

#[derive(Clone, Copy, Debug, PartialEq, Eq, Structural)]
pub struct VM {
    /// Each page of memory is 64 KiB in size; `memory_size` is an index of
    /// the end of memory.
    pub memory_size: u32,
    /// Data exists from `init_offset` to `offset`.
    pub offset: u32,
    pub init_offset: u32,
}

impl Default for VM {
    fn default() -> (r: Self)
        ensures
            r == (VM { memory_size: 0u32, offset: 0u32, init_offset: 0u32 }),
    {
        VM { memory_size: 0, offset: 0, init_offset: 0 }
    }
}

/// The write position `mem_store` uses: the current offset once anything has
/// been stored, else the caller's offset.
pub open spec fn effective_offset(vm: VM, offset: u32) -> int {
    if vm.offset > 0 {
        vm.offset as int
    } else {
        offset as int
    }
}

/// The accounting state after the first store initialised it.
pub open spec fn spec_mem_store_initialised(vm: VM, offset: u32) -> VM {
    let off = effective_offset(vm, offset);
    if vm.memory_size == 0 {
        VM { memory_size: off as u32, offset: off as u32, init_offset: off as u32 }
    } else {
        vm
    }
}

/// The accounting state after memory grew to cover the requested end, if it
/// had to.
pub open spec fn spec_mem_store_grown(vm: VM, offset: u32, data_length: u32) -> VM {
    let off = effective_offset(vm, offset);
    let vm1 = spec_mem_store_initialised(vm, offset);
    if off + data_length > vm1.memory_size {
        VM {
            memory_size: (vm1.memory_size + PAGE_SIZE) as u32,
            offset: vm1.offset,
            init_offset: vm1.init_offset,
        }
    } else {
        vm1
    }
}

/// When `mem_store` neither overflows its arithmetic nor finds the requested
/// end beyond memory after growing one page.
pub open spec fn spec_mem_store_ok(vm: VM, offset: u32, data_length: u32) -> bool {
    let off = effective_offset(vm, offset);
    let vm1 = spec_mem_store_initialised(vm, offset);
    let vm2 = spec_mem_store_grown(vm, offset, data_length);
    data_length > 0 ==> {
        &&& off + data_length <= u32::MAX
        &&& (off + data_length > vm1.memory_size ==> vm1.memory_size + PAGE_SIZE <= u32::MAX)
        &&& off + data_length <= vm2.memory_size
        &&& vm2.offset + data_length <= u32::MAX
    }
}

/// The accounting state `mem_store` leaves behind.
pub open spec fn spec_mem_store_post(vm: VM, offset: u32, data_length: u32) -> VM {
    if data_length == 0 {
        vm
    } else {
        let vm2 = spec_mem_store_grown(vm, offset, data_length);
        VM {
            memory_size: vm2.memory_size,
            offset: (vm2.offset + data_length) as u32,
            init_offset: vm2.init_offset,
        }
    }
}

impl VM {
    /// Extend memory by whole pages.
    pub fn grow_memory(&mut self, number_of_pages: u32)
        requires
            old(self).memory_size + PAGE_SIZE * number_of_pages <= u32::MAX,
        ensures
            *final(self) == (VM {
                memory_size: (old(self).memory_size + PAGE_SIZE * number_of_pages) as u32,
                offset: old(self).offset,
                init_offset: old(self).init_offset,
            }),
    {
        self.memory_size = self.memory_size + PAGE_SIZE * number_of_pages;
    }

    /// How much memory the stored data spans.
    pub fn get_memory_size(&self) -> (r: u32)
        requires
            self.init_offset <= self.memory_size,
        ensures
            r == self.memory_size - self.init_offset,
    {
        self.memory_size - self.init_offset
    }

    /// Account for a store of `data_length` bytes at `offset` (or at the
    /// current offset once one exists): initialise on first use, grow by one
    /// page when the requested end lies beyond memory, and advance the
    /// offset. The caller rules out arithmetic overflow and a requested end
    /// that one page of growth cannot cover.
    pub fn mem_store(&mut self, offset: u32, data_length: u32) -> (r: Result<(), &'static [u8]>)
        requires
            spec_mem_store_ok(*old(self), offset, data_length),
        ensures
            r is Ok,
            *final(self) == spec_mem_store_post(*old(self), offset, data_length),
    {
        let offset = if self.offset > 0 {
            self.offset
        } else {
            offset
        };

        if data_length == 0 {
            return Ok(());
        }

        if self.memory_size == 0 {
            self.init_offset = offset;
            self.offset = offset;
            self.memory_size = offset;
        }

        let requested_end = offset + data_length;
        if requested_end > self.memory_size {
            self.grow_memory(1)
        }

        self.offset = self.offset + data_length;

        Ok(())
    }
}

/// `mem_store` against a caller-supplied fixture state. On the metered
/// host this accounting lives in one process-wide store; here the harness
/// owns the state and passes it in.
pub fn static_vm_mem_store(vm: &mut VM, offset: u32, data_length: u32) -> (r: Result<
    (),
    &'static [u8],
>)
    requires
        spec_mem_store_ok(*old(vm), offset, data_length),
    ensures
        r is Ok,
        *final(vm) == spec_mem_store_post(*old(vm), offset, data_length),
{
    vm.mem_store(offset, data_length)
}

/// A copy of the fixture state.
pub fn get_vm(vm: &VM) -> (r: VM)
    ensures
        r == *vm,
{
    *vm
}

} // verus!

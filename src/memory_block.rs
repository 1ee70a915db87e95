use vstd::prelude::*;

verus! {

/// What a wrapping read of `bytes` at `address` yields: absent for an empty
/// store, else the byte at `address` modulo the capacity.
pub open spec fn wrapped_read(bytes: Seq<u8>, address: int) -> Option<u8> {
    if bytes.len() == 0 {
        None
    } else {
        Some(bytes[address % (bytes.len() as int)])
    }
}

/// What a wrapping write of `data` at `address` leaves in `bytes`.
pub open spec fn wrapped_write(bytes: Seq<u8>, address: int, data: u8) -> Seq<u8> {
    if bytes.len() == 0 {
        bytes
    } else {
        bytes.update(address % (bytes.len() as int), data)
    }
}

/// A fixed-size byte store whose accesses wrap around its capacity.
/// A block of capacity zero stands for memory that is not there.
pub struct MemoryBlock {
    bytes: Vec<u8>,
}

impl View for MemoryBlock {
    type V = Seq<u8>;

    closed spec fn view(&self) -> Seq<u8> {
        self.bytes@
    }
}

impl MemoryBlock {
    /// A block holding a copy of `source`.
    pub fn new(source: &[u8]) -> (r: MemoryBlock)
        ensures
            r@ == source@,
    {
        let mut bytes: Vec<u8> = Vec::with_capacity(source.len());
        let mut i: usize = 0;
        while i < source.len()
            invariant
                i <= source@.len(),
                bytes@ == source@.subrange(0, i as int),
            decreases source@.len() - i,
        {
            bytes.push(source[i]);
            i = i + 1;
        }
        proof {
            assert(bytes@ =~= source@);
        }
        MemoryBlock { bytes }
    }

    /// A block of `size` zero bytes.
    pub fn zeroed(size: usize) -> (r: MemoryBlock)
        ensures
            r@ == Seq::new(size as nat, |_i: int| 0u8),
    {
        let mut bytes: Vec<u8> = Vec::with_capacity(size);
        let mut i: usize = 0;
        while i < size
            invariant
                i <= size,
                bytes@ == Seq::new(i as nat, |_i: int| 0u8),
            decreases size - i,
        {
            bytes.push(0u8);
            i = i + 1;
            proof {
                assert(bytes@ =~= Seq::new(i as nat, |_i: int| 0u8));
            }
        }
        MemoryBlock { bytes }
    }

    /// The physical capacity in bytes.
    pub fn len(&self) -> (r: usize)
        ensures
            r == self@.len(),
    {
        self.bytes.len()
    }

    /// The contents, as a copy.
    pub fn as_vec(&self) -> (r: Vec<u8>)
        ensures
            r@ == self@,
    {
        self.bytes.clone()
    }

    /// Reads the byte at `address` modulo the capacity; absent when the
    /// capacity is zero.
    pub fn wrapping_read(&self, address: usize) -> (r: Option<u8>)
        ensures
            r == wrapped_read(self@, address as int),
    {
        let len = self.bytes.len();
        if len == 0 {
            None
        } else {
            Some(self.bytes[address % len])
        }
    }

    /// Writes `data` at `address` modulo the capacity; does nothing when the
    /// capacity is zero.
    pub fn wrapping_write(&mut self, address: usize, data: u8)
        ensures
            final(self)@ == wrapped_write(old(self)@, address as int, data),
    {
        let len = self.bytes.len();
        if len != 0 {
            self.bytes.set(address % len, data);
        }
    }
}

/// Reading a block of capacity `N > 0` at `A` gives what reading at `A mod N`
/// gives; a block of capacity zero reads as absent everywhere and no write
/// changes it.
pub proof fn lemma_wrapping(bytes: Seq<u8>, address: int, data: u8)
    requires
        address >= 0,
    ensures
        bytes.len() > 0 ==> wrapped_read(bytes, address) == wrapped_read(
            bytes,
            address % (bytes.len() as int),
        ),
        bytes.len() == 0 ==> wrapped_read(bytes, address) is None,
        bytes.len() == 0 ==> wrapped_write(bytes, address, data) == bytes,
{
    if bytes.len() > 0 {
        let n = bytes.len() as int;
        vstd::arithmetic::div_mod::lemma_mod_twice(address, n);
    }
}

} // verus!

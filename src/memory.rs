use vstd::prelude::*;

verus! {

/// Number of addressable bytes in the store; addresses run from 0 to
/// `MEMORY_SIZE - 1`.
pub const MEMORY_SIZE: usize = 0xFFFF;

/// The contents of `m` after `data` has been written from address `a` on.
pub open spec fn written(m: Seq<u8>, a: int, data: Seq<u8>) -> Seq<u8> {
    Seq::new(m.len(), |i: int| if a <= i < a + data.len() { data[i - a] } else { m[i] })
}

/// The little-endian 16-bit value held at addresses `a` and `a + 1` of `m`.
pub open spec fn word_at(m: Seq<u8>, a: int) -> u16 {
    (m[a] as nat + 256 * (m[a + 1] as nat)) as u16
}

/// A fixed-size, byte-addressable memory store.
pub struct Memory {
    memory: Vec<u8>,
}

impl View for Memory {
    type V = Seq<u8>;

    closed spec fn view(&self) -> Seq<u8> {
        self.memory@
    }
}

impl Memory {
    #[verifier::type_invariant]
    closed spec fn inv(&self) -> bool {
        self.memory@.len() == MEMORY_SIZE
    }

    /// A store with every byte zero.
    pub fn new() -> (r: Memory)
        ensures
            r@ == Seq::new(MEMORY_SIZE as nat, |i: int| 0u8),
    {
        let memory = vec![0u8; MEMORY_SIZE];
        let r = Memory { memory };
        assert(r@ =~= Seq::new(MEMORY_SIZE as nat, |i: int| 0u8));
        r
    }

    /// The byte at `address`.
    pub fn read_byte(&self, address: u16) -> (r: u8)
        requires
            (address as int) < MEMORY_SIZE,
        ensures
            r == self@[address as int],
            self@.len() == MEMORY_SIZE,
    {
        proof {
            use_type_invariant(self);
        }
        self.memory[address as usize]
    }

    /// The little-endian word at `address` and `address + 1`.
    pub fn read_word(&self, address: u16) -> (r: u16)
        requires
            address as int + 1 < MEMORY_SIZE,
        ensures
            r == word_at(self@, address as int),
            self@.len() == MEMORY_SIZE,
    {
        proof {
            use_type_invariant(self);
        }
        let lo = self.memory[address as usize] as u16;
        let hi = self.memory[(address + 1) as usize] as u16;
        lo + hi * 256
    }

    /// Copies `data` into the store from `address` on. The whole range must
    /// lie inside the store: nothing is ever truncated.
    pub fn write(&mut self, address: usize, data: &[u8])
        requires
            address + data@.len() <= MEMORY_SIZE,
        ensures
            final(self)@ == written(old(self)@, address as int, data@),
            old(self)@.len() == MEMORY_SIZE,
            final(self)@.len() == MEMORY_SIZE,
    {
        proof {
            use_type_invariant(&*self);
        }
        let ghost start = self.memory@;
        let mut i: usize = 0;
        while i < data.len()
            invariant
                0 <= i <= data@.len(),
                address + data@.len() <= MEMORY_SIZE,
                start.len() == MEMORY_SIZE,
                self.memory@.len() == MEMORY_SIZE,
                forall|j: int|
                    0 <= j < MEMORY_SIZE ==> #[trigger] self.memory@[j] == if address <= j
                        < address + i {
                        data@[j - address]
                    } else {
                        start[j]
                    },
            decreases data@.len() - i,
        {
            self.memory[address + i] = data[i];
            i = i + 1;
        }
        assert(self.memory@ =~= written(start, address as int, data@));
    }
}

} // verus!

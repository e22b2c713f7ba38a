use vstd::prelude::*;

verus! {

/// One step of the xorshift64 generator.
pub open spec fn xorshift_spec(x: u64) -> u64 {
    let a = x ^ (x << 13u64);
    let b = a ^ (a >> 7u64);
    b ^ (b << 17u64)
}

/// A seeded source of pseudo-random numbers for initialising parameters,
/// so that a run can be repeated exactly.
pub struct Seeded {
    state: u64,
}

impl View for Seeded {
    type V = u64;

    closed spec fn view(&self) -> u64 {
        self.state
    }
}

impl Seeded {
    /// A source started from `seed`; a zero seed, on which xorshift would
    /// stay at zero, is replaced by a fixed non-zero one.
    pub fn new(seed: u64) -> (r: Seeded)
        ensures
            seed != 0 ==> r@ == seed,
            seed == 0 ==> r@ == 0x9E37_79B9_7F4A_7C15u64,
    {
        if seed == 0 {
            Seeded { state: 0x9E37_79B9_7F4A_7C15u64 }
        } else {
            Seeded { state: seed }
        }
    }

    /// The next number of the sequence, which is also the new state.
    pub fn next_u64(&mut self) -> (r: u64)
        ensures
            r == xorshift_spec(old(self)@),
            final(self)@ == r,
    {
        let x = self.state;
        let a = x ^ (x << 13u64);
        let b = a ^ (a >> 7u64);
        let c = b ^ (b << 17u64);
        self.state = c;
        c
    }

    /// `count` successive numbers of the sequence.
    pub fn take(&mut self, count: usize) -> (r: Vec<u64>)
        ensures
            r@.len() == count,
            count > 0 ==> r@[0] == xorshift_spec(old(self)@),
            forall|i: int| 0 < i < count ==> r@[i] == xorshift_spec(#[trigger] r@[i - 1]),
            count > 0 ==> final(self)@ == r@[count - 1],
            count == 0 ==> final(self)@ == old(self)@,
    {
        let mut r: Vec<u64> = Vec::new();
        let mut i: usize = 0;
        while i < count
            invariant
                i <= count,
                r@.len() == i,
                i > 0 ==> r@[0] == xorshift_spec(old(self)@),
                forall|j: int| 0 < j < i ==> r@[j] == xorshift_spec(#[trigger] r@[j - 1]),
                i > 0 ==> self@ == r@[i - 1],
                i == 0 ==> self@ == old(self)@,
            decreases count - i,
        {
            let v = self.next_u64();
            r.push(v);
            i = i + 1;
        }
        r
    }
}

} // verus!

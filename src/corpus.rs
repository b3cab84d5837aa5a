use vstd::prelude::*;

verus! {

/// An input worth keeping, as the bytes that the target ran on.
pub struct Testcase {
    pub input: Vec<u8>,
}

impl Testcase {
    pub open spec fn view(&self) -> Seq<u8> {
        self.input@
    }

    pub fn new(input: Vec<u8>) -> (r: Testcase)
        ensures
            r@ == input@,
    {
        Testcase { input }
    }

    /// An owned copy of this testcase, holding the same bytes.
    pub fn duplicate(&self) -> (r: Testcase)
        ensures
            r@ == self@,
    {
        let mut bytes: Vec<u8> = Vec::new();
        let mut i: usize = 0;
        while i < self.input.len()
            invariant
                i <= self.input@.len(),
                bytes@ == self.input@.subrange(0, i as int),
            decreases self.input@.len() - i,
        {
            bytes.push(self.input[i]);
            i = i + 1;
            assert(bytes@ =~= self.input@.subrange(0, i as int));
        }
        assert(bytes@ =~= self.input@);
        Testcase { input: bytes }
    }
}

/// The collection of retained testcases, in the order they were added.
pub struct Corpus {
    entries: Vec<Testcase>,
}

impl Corpus {
    pub closed spec fn view(&self) -> Seq<Seq<u8>> {
        Seq::new(self.entries@.len(), |i: int| self.entries@[i]@)
    }

    pub fn new() -> (r: Corpus)
        ensures
            r@ == Seq::<Seq<u8>>::empty(),
    {
        let r = Corpus { entries: Vec::new() };
        assert(r@ =~= Seq::<Seq<u8>>::empty());
        r
    }

    /// Appends a testcase; duplicates are kept.
    pub fn add(&mut self, testcase: Testcase)
        ensures
            final(self)@ == old(self)@.push(testcase@),
    {
        self.entries.push(testcase);
        assert(self@ =~= old(self)@.push(testcase@));
    }

    pub fn count(&self) -> (r: usize)
        ensures
            r == self@.len(),
    {
        self.entries.len()
    }

    pub fn get(&self, i: usize) -> (r: &Testcase)
        requires
            i < self@.len(),
        ensures
            r@ == self@[i as int],
    {
        &self.entries[i]
    }
}

} // verus!

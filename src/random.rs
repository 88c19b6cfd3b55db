use vstd::prelude::*;

verus! {

/// Relies on rand::random::<u32>: one `next_u32` of the thread-local
/// generator. Nothing is promised of the value. It panics only when the
/// operating system's entropy source fails while the generator is seeded.
#[verifier::external_body]
fn draw_u32() -> (r: u32) {
    rand::random::<u32>()
}

/// Where the simulation's random numbers come from: values pinned in
/// advance are handed out first, in order; after them, fresh draws.
pub struct RandomSource {
    pinned: Vec<u32>,
    next: usize,
}

impl RandomSource {
    /// The pinned values not yet handed out.
    pub closed spec fn pending(&self) -> Seq<u32> {
        self.pinned@.skip(self.next as int)
    }

    pub closed spec fn wf(&self) -> bool {
        self.next <= self.pinned.len()
    }

    /// A source of fresh draws only.
    pub fn new() -> (r: RandomSource)
        ensures
            r.wf(),
            r.pending() == Seq::<u32>::empty(),
    {
        let r = RandomSource { pinned: Vec::new(), next: 0 };
        assert(r.pending() =~= Seq::<u32>::empty());
        r
    }

    /// A source that hands out `values` first, in order.
    pub fn pinned(values: Vec<u32>) -> (r: RandomSource)
        ensures
            r.wf(),
            r.pending() == values@,
    {
        let r = RandomSource { pinned: values, next: 0 };
        assert(r.pending() =~= values@);
        r
    }

    /// The next value: the first pending pinned one if any, else a draw.
    pub fn next_u32(&mut self) -> (r: u32)
        requires
            old(self).wf(),
        ensures
            final(self).wf(),
            old(self).pending().len() > 0 ==> r == old(self).pending()[0] && final(self).pending()
                == old(self).pending().drop_first(),
            old(self).pending().len() == 0 ==> final(self).pending().len() == 0,
    {
        if self.next < self.pinned.len() {
            let r = self.pinned[self.next];
            self.next = self.next + 1;
            assert(self.pending() =~= old(self).pending().drop_first());
            r
        } else {
            draw_u32()
        }
    }
}

} // verus!

//! The configuration list a host supplied from outside the library hands to its callers.
use vstd::prelude::*;
use crate::format::SupportedStreamConfigRange;

verus! {

/// The configuration ranges a device offers, handed out one at a time in order.
#[derive(Clone, Debug)]
pub struct SupportedConfigs {
    ranges: Vec<SupportedStreamConfigRange>,
    next: usize,
}

impl View for SupportedConfigs {
    /// The ranges not yet handed out.
    type V = Seq<SupportedStreamConfigRange>;

    closed spec fn view(&self) -> Seq<SupportedStreamConfigRange> {
        if self.next <= self.ranges@.len() {
            self.ranges@.subrange(self.next as int, self.ranges@.len() as int)
        } else {
            Seq::empty()
        }
    }
}

impl SupportedConfigs {
    /// A list that hands out `ranges` in order.
    pub fn new(ranges: Vec<SupportedStreamConfigRange>) -> (s: SupportedConfigs)
        ensures
            s@ == ranges@,
    {
        let s = SupportedConfigs { ranges, next: 0 };
        assert(s@ =~= s.ranges@);
        s
    }

    /// The next range, or `None` once all have been handed out.
    pub fn next(&mut self) -> (r: Option<SupportedStreamConfigRange>)
        ensures
            old(self)@.len() == 0 ==> r is None && final(self)@ == old(self)@,
            old(self)@.len() > 0 ==> r == Some(old(self)@[0]) && final(self)@ == old(self)@.drop_first(),
    {
        if self.next < self.ranges.len() {
            let r = self.ranges[self.next];
            self.next = self.next + 1;
            assert(self@ =~= old(self)@.drop_first());
            Some(r)
        } else {
            None
        }
    }

    /// How many ranges are left.
    pub fn remaining(&self) -> (n: usize)
        ensures
            n == self@.len(),
    {
        if self.next <= self.ranges.len() {
            self.ranges.len() - self.next
        } else {
            0
        }
    }
}

} // verus!

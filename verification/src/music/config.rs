//! The list of videos that the user follows.

use vstd::prelude::*;

verus! {

/// One followed video, with the chapters that the user has hidden.
#[derive(Debug)]
pub struct Bv {
    pub bvid: String,
    pub blacklist: Vec<u32>,
}

/// The followed videos, in the order in which they were added.
#[derive(Debug)]
pub struct Config {
    pub bv_list: Vec<Bv>,
}

/// Some entry of `list` is the video `bvid`.
pub open spec fn follows(list: Seq<Bv>, bvid: Seq<char>) -> bool {
    exists|i: int| 0 <= i < list.len() && (#[trigger] list[i]).bvid@ == bvid
}

impl Bv {
    /// The video `bv` with nothing hidden.
    pub fn new(bv: &String) -> (entry: Self)
        ensures
            entry.bvid@ == bv@,
            entry.blacklist@.len() == 0,
    {
        Bv { bvid: bv.clone(), blacklist: Vec::new() }
    }
}

impl Config {
    /// A list without videos.
    pub fn new() -> (config: Self)
        ensures
            config.bv_list@.len() == 0,
    {
        Config { bv_list: Vec::new() }
    }

    /// Follows the video `bv`, unless the list holds it already. Tells
    /// whether the list grew, in which case it is to be saved.
    pub fn add_bv(&mut self, bv: &String) -> (added: bool)
        ensures
            added == !follows(old(self).bv_list@, bv@),
            !added ==> final(self).bv_list@ == old(self).bv_list@,
            added ==> final(self).bv_list@.len() == old(self).bv_list@.len() + 1,
            added ==> final(self).bv_list@.drop_last() == old(self).bv_list@,
            added ==> final(self).bv_list@.last().bvid@ == bv@,
            added ==> final(self).bv_list@.last().blacklist@.len() == 0,
    {
        let len = self.bv_list.len();
        let mut i: usize = 0;
        while i < len
            invariant
                i <= len,
                len == self.bv_list@.len(),
                self.bv_list@ == old(self).bv_list@,
                forall|j: int| 0 <= j < i ==> (#[trigger] self.bv_list@[j]).bvid@ != bv@,
            decreases len - i,
        {
            if *bv == self.bv_list[i].bvid {
                return false;
            }
            i = i + 1;
        }
        self.bv_list.push(Bv::new(bv));
        assert(self.bv_list@.drop_last() =~= old(self).bv_list@);
        true
    }
}

} // verus!

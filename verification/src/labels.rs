//! The label table: the mapping from label name to byte address that the
//! first pass builds and the encoding pass reads.

use vstd::prelude::*;

use crate::text::str_eq;

verus! {

/// The mapping a list of name/address pairs stands for: a later pair
/// shadows an earlier one with the same name, as repeated insertion does.
pub open spec fn map_of_pairs(pairs: Seq<(String, u32)>) -> Map<Seq<char>, u32>
    decreases pairs.len(),
{
    if pairs.len() == 0 {
        Map::empty()
    } else {
        map_of_pairs(pairs.drop_last()).insert(pairs.last().0@, pairs.last().1)
    }
}

/// The table of label addresses: built once by the first pass, read-only
/// during encoding.  Viewed as a `Map` from the label's characters to its
/// 32-bit byte address.
pub struct LabelTable {
    pairs: Vec<(String, u32)>,
}

impl View for LabelTable {
    type V = Map<Seq<char>, u32>;

    closed spec fn view(&self) -> Map<Seq<char>, u32> {
        map_of_pairs(self.pairs@)
    }
}

impl LabelTable {
    /// An empty table.
    pub fn new() -> (r: LabelTable)
        ensures
            r@ == Map::<Seq<char>, u32>::empty(),
    {
        LabelTable { pairs: Vec::new() }
    }

    /// Record `addr` for `name`, shadowing any earlier record of that name.
    pub fn insert(&mut self, name: String, addr: u32)
        ensures
            final(self)@ == old(self)@.insert(name@, addr),
    {
        self.pairs.push((name, addr));
        proof {
            assert(self.pairs@.drop_last() =~= old(self).pairs@);
        }
    }

    /// The address recorded last for `name`, if the table holds the name.
    pub fn get(&self, name: &str) -> (r: Option<u32>)
        ensures
            r == if self@.contains_key(name@) {
                Some(self@[name@])
            } else {
                None::<u32>
            },
    {
        let n = self.pairs.len();
        let mut i: usize = n;
        proof {
            assert(self.pairs@.take(n as int) =~= self.pairs@);
        }
        while i > 0
            invariant
                i <= n,
                n == self.pairs@.len(),
                self@.contains_key(name@) == map_of_pairs(
                    self.pairs@.take(i as int),
                ).contains_key(name@),
                self@.contains_key(name@) ==> self@[name@] == map_of_pairs(
                    self.pairs@.take(i as int),
                )[name@],
            decreases i,
        {
            i = i - 1;
            proof {
                assert(self.pairs@.take(i as int + 1).drop_last() =~= self.pairs@.take(i as int));
                assert(self.pairs@.take(i as int + 1).last() == self.pairs@[i as int]);
            }
            if str_eq(self.pairs[i].0.as_str(), name) {
                return Some(self.pairs[i].1);
            }
        }
        proof {
            assert(self.pairs@.take(0) =~= Seq::<(String, u32)>::empty());
        }
        None
    }
}

} // verus!

//! The registry of one block: its abbreviation id width and the abbreviations
//! it knows, each with the id that records use for it.
use super::abbrv::{Abbr, AbbrView};
use vstd::prelude::*;

verus! {

pub const MIN_ABBR_ID_WIDTH: u32 = 2;

/// The first id that an abbreviation of a block gets; the ids below it are
/// reserved for END_BLOCK, ENTER_SUBBLOCK, DEFINE_ABBREV and UNABBREV_RECORD.
pub const ABBR_INDEX_OFF: u32 = 4;

#[derive(Debug)]
pub struct AbbrEntry {
    pub abbr: Abbr,
    pub index: u32,
}

#[derive(Debug)]
pub struct Block {
    pub id: u32,
    pub abbr_id_width: u32,
    /// The abbreviations in the order they were added.
    pub abbr_map: Vec<AbbrEntry>,
}

/// No two abbreviations of `s` have the same name.
pub open spec fn distinct_names(s: Seq<AbbrView>) -> bool {
    forall|i: int, j: int| 0 <= i < j < s.len() ==> s[i].0 != s[j].0
}

/// The views of a sequence of abbreviations.
pub open spec fn abbrs_view(s: Seq<Abbr>) -> Seq<AbbrView> {
    s.map_values(|a: Abbr| a@)
}

/// The k-th abbreviation added to a block, counting from 1, has the id
/// `k + 3`: ids start at 4, after the four reserved ones.
pub proof fn lemma_kth_abbr_id(b: Block, k: int)
    requires
        b.wf(),
        1 <= k <= b.abbr_map@.len(),
    ensures
        b.abbr_map@[k - 1].index == k + 3,
{
}

impl Block {
    /// The abbreviations of the block, in the order they were added.
    pub open spec fn abbrs(&self) -> Seq<AbbrView> {
        self.abbr_map@.map_values(|e: AbbrEntry| e.abbr@)
    }

    /// Ids are handed out in order from `ABBR_INDEX_OFF`, names are unique,
    /// and the id width is at least the minimum.
    pub open spec fn wf(&self) -> bool {
        &&& self.abbr_id_width >= MIN_ABBR_ID_WIDTH
        &&& forall|i: int|
            0 <= i < self.abbr_map@.len() ==> #[trigger] self.abbr_map@[i].index == i
                + ABBR_INDEX_OFF
        &&& distinct_names(self.abbrs())
    }

    /// The block has an abbreviation of this name.
    pub open spec fn has_abbr(&self, name: Seq<char>) -> bool {
        exists|i: int| 0 <= i < self.abbrs().len() && #[trigger] self.abbrs()[i].0 == name
    }

    /// The position of the abbreviation of this name.
    pub open spec fn position_of(&self, name: Seq<char>) -> int {
        choose|i: int| 0 <= i < self.abbrs().len() && #[trigger] self.abbrs()[i].0 == name
    }

    pub fn new(id: u32, abbr_id_width: u32, global_abbrs: Vec<Abbr>) -> (r: Self)
        requires
            MIN_ABBR_ID_WIDTH <= abbr_id_width,
            distinct_names(abbrs_view(global_abbrs@)),
            global_abbrs@.len() + ABBR_INDEX_OFF <= u32::MAX,
        ensures
            r.wf(),
            r.id == id,
            r.abbr_id_width == abbr_id_width,
            r.abbrs() == abbrs_view(global_abbrs@),
    {
        let mut s = Self { id, abbr_id_width, abbr_map: Vec::new() };
        let mut i: usize = 0;
        while i < global_abbrs.len()
            invariant
                i <= global_abbrs@.len(),
                global_abbrs@.len() + ABBR_INDEX_OFF <= u32::MAX,
                distinct_names(abbrs_view(global_abbrs@)),
                s.wf(),
                s.id == id,
                s.abbr_id_width == abbr_id_width,
                s.abbr_map@.len() == i,
                forall|k: int| 0 <= k < i ==> #[trigger] s.abbrs()[k] == global_abbrs@[k]@,
            decreases global_abbrs@.len() - i,
        {
            let a = global_abbrs[i].clone();
            proof {
                assert forall|k: int| 0 <= k < s.abbr_map@.len() implies #[trigger] s.abbr_map@[k].abbr.name@
                    != a.name@ by {
                    assert(s.abbrs()[k] == global_abbrs@[k]@);
                    assert(abbrs_view(global_abbrs@)[k] == global_abbrs@[k]@);
                    assert(abbrs_view(global_abbrs@)[i as int] == global_abbrs@[i as int]@);
                }
            }
            let ghost before = s.abbrs();
            s.add_abbr(a);
            proof {
                assert forall|k: int| 0 <= k < i + 1 implies #[trigger] s.abbrs()[k]
                    == global_abbrs@[k]@ by {
                    if k < i {
                        assert(s.abbrs()[k] == before[k]);
                    }
                }
            }
            i = i + 1;
        }
        assert(s.abbrs() =~= abbrs_view(global_abbrs@));
        s
    }

    /// Adds an abbreviation under the next free id and returns that id.
    pub fn add_abbr(&mut self, abbr: Abbr) -> (r: u32)
        requires
            old(self).wf(),
            !old(self).has_abbr(abbr.name@),
            old(self).abbr_map@.len() + ABBR_INDEX_OFF <= u32::MAX,
        ensures
            final(self).wf(),
            r == old(self).abbr_map@.len() + ABBR_INDEX_OFF,
            final(self).id == old(self).id,
            final(self).abbr_id_width == old(self).abbr_id_width,
            final(self).abbr_map@ == old(self).abbr_map@.push(AbbrEntry { abbr, index: r }),
    {
        let index = self.abbr_map.len() as u32 + ABBR_INDEX_OFF;
        self.abbr_map.push(AbbrEntry { abbr, index });
        proof {
            let s = self.abbrs();
            assert(s.drop_last() =~= old(self).abbrs());
            assert forall|i: int, j: int| 0 <= i < j < s.len() implies s[i].0 != s[j].0 by {
                assert(s[i] == old(self).abbrs()[i]);
                assert(old(self).abbr_map@[i].abbr.name@ == s[i].0);
                if j < s.len() - 1 {
                    assert(s[j] == old(self).abbrs()[j]);
                } else {
                    assert(s[j] == abbr@);
                }
            }
        }
        index
    }
}

} // verus!

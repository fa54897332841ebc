//! The textual report: one line per item, `<name>, <days_remaining>,
//! <quality>`, under the header line `name, sellIn, quality`. Field order
//! and the `", "` separator are fixed for the report's consumers.

use vstd::prelude::*;
use vstd::string::*;

use crate::inventory::GildedRose;
use crate::item::{Item, ItemModel};
use crate::text::{i32_to_string, int_rep, u32_to_string};

verus! {

/// One report line: the three fields verbatim, joined by `", "`.
pub open spec fn line_rep(m: ItemModel) -> Seq<char> {
    m.name + ", "@ + int_rep(m.days_remaining) + ", "@ + int_rep(m.quality)
}

/// The report lines of a sequence of items, each followed by a newline.
pub open spec fn lines_rep(items: Seq<ItemModel>) -> Seq<char>
    decreases items.len(),
{
    if items.len() == 0 {
        Seq::empty()
    } else {
        lines_rep(items.drop_last()) + line_rep(items.last()) + "\n"@
    }
}

/// The whole report: the header line, then one line per item, in order.
pub open spec fn report_rep(items: Seq<ItemModel>) -> Seq<char> {
    "name, sellIn, quality\n"@ + lines_rep(items)
}

impl Item {
    /// Renders the item's line of the report.
    pub fn line(&self) -> (r: String)
        ensures
            r@ == line_rep(self@),
    {
        let mut s = self.name();
        s.append(", ");
        let days = i32_to_string(self.days_remaining());
        s.append(days.as_str());
        s.append(", ");
        let quality = u32_to_string(self.quality());
        s.append(quality.as_str());
        proof {
            assert(s@ =~= line_rep(self@));
        }
        s
    }
}

impl GildedRose {
    /// Renders the report of the whole inventory.
    pub fn report(&self) -> (r: String)
        ensures
            r@ == report_rep(self@),
    {
        let mut s = String::from_str("name, sellIn, quality\n");
        let mut i: usize = 0;
        while i < self.items.len()
            invariant
                i <= self.items@.len(),
                s@ == "name, sellIn, quality\n"@ + lines_rep(self@.take(i as int)),
            decreases self.items@.len() - i,
        {
            let line = self.items[i].line();
            s.append(line.as_str());
            s.append("\n");
            proof {
                assert(self@.take(i + 1).drop_last() =~= self@.take(i as int));
                assert(self@.take(i + 1).last() == self.items@[i as int]@);
                assert(s@ =~= "name, sellIn, quality\n"@ + lines_rep(self@.take(i + 1)));
            }
            i += 1;
        }
        proof {
            assert(self@.take(self.items@.len() as int) =~= self@);
        }
        s
    }
}

} // verus!

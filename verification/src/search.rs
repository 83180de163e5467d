//! The search filter of the filesystem list: plain substring matching on
//! definition identifiers, and the filtering of an inventory snapshot by an
//! active search.

use vstd::prelude::*;
use vstd::string::StrSliceExecFns;

use crate::model::InventoryItem;

verus! {

/// `needle` occurs in `hay` starting at position `i`.
pub open spec fn matches_at(hay: Seq<char>, needle: Seq<char>, i: int) -> bool {
    0 <= i && i + needle.len() <= hay.len() && hay.subrange(i, i + needle.len() as int) == needle
}

/// `needle` occurs somewhere in `hay` (an empty needle always does).
pub open spec fn contains_text(hay: Seq<char>, needle: Seq<char>) -> bool {
    exists|i: int| matches_at(hay, needle, i)
}

/// `needle` occurs in `hay` at position `i`.
fn match_at_index(hay: &str, needle: &str, i: usize, hay_len: usize, needle_len: usize) -> (r:
    bool)
    requires
        hay_len == hay@.len(),
        needle_len == needle@.len(),
        i + needle_len <= hay_len,
    ensures
        r == matches_at(hay@, needle@, i as int),
{
    let mut j: usize = 0;
    while j < needle_len
        invariant
            hay_len == hay@.len(),
            needle_len == needle@.len(),
            i + needle_len <= hay_len,
            0 <= j <= needle_len,
            forall|l: int| 0 <= l < j ==> hay@[i + l] == needle@[l],
        decreases needle_len - j,
    {
        if hay.get_char(i + j) != needle.get_char(j) {
            proof {
                assert(hay@.subrange(i as int, i + needle@.len())[j as int] == hay@[i + j]);
            }
            return false;
        }
        j = j + 1;
    }
    proof {
        assert(hay@.subrange(i as int, i + needle@.len()) =~= needle@);
    }
    true
}

/// Whether `needle` occurs as a contiguous substring of `hay`.
pub fn str_contains(hay: &str, needle: &str) -> (r: bool)
    ensures
        r == contains_text(hay@, needle@),
{
    let hay_len = hay.unicode_len();
    let needle_len = needle.unicode_len();
    if needle_len > hay_len {
        return false;
    }
    if needle_len == 0 {
        proof {
            assert(hay@.subrange(0, 0) =~= needle@);
            assert(matches_at(hay@, needle@, 0));
        }
        return true;
    }
    let mut i: usize = 0;
    while i <= hay_len - needle_len
        invariant
            hay_len == hay@.len(),
            needle_len == needle@.len(),
            0 < needle_len <= hay_len,
            0 <= i <= hay_len - needle_len + 1,
            forall|k: int| 0 <= k < i ==> !matches_at(hay@, needle@, k),
        decreases hay_len - needle_len - i + 1,
    {
        if match_at_index(hay, needle, i, hay_len, needle_len) {
            return true;
        }
        i = i + 1;
    }
    false
}

/// The subsequence of `inv` whose definition identifiers contain
/// `search_text`, in their existing order.
pub open spec fn matching_entries(inv: Seq<InventoryItem>, search_text: Seq<char>) -> Seq<
    InventoryItem,
>
    decreases inv.len(),
{
    if inv.len() == 0 {
        Seq::empty()
    } else {
        let rest = matching_entries(inv.drop_first(), search_text);
        if contains_text(inv.first().definition.id@, search_text) {
            seq![inv.first()] + rest
        } else {
            rest
        }
    }
}

/// The inventory restricted by an active search: when the search is enabled,
/// only the entries whose definition identifier contains the search text;
/// otherwise the whole inventory.
pub open spec fn search_filtered(
    inv: Seq<InventoryItem>,
    search_enabled: bool,
    search_text: Seq<char>,
) -> Seq<InventoryItem> {
    if search_enabled {
        matching_entries(inv, search_text)
    } else {
        inv
    }
}

/// Restricts an inventory snapshot by the current search: with the search
/// enabled, keeps exactly the entries whose identifier contains the search
/// text, in their existing order.
pub fn filter_by_search(
    inventory: Vec<InventoryItem>,
    search_enabled: bool,
    search_text: &str,
) -> (r: Vec<InventoryItem>)
    ensures
        r@ == search_filtered(inventory@, search_enabled, search_text@),
{
    if !search_enabled {
        return inventory;
    }
    let ghost orig = inventory@;
    let mut remaining = inventory;
    let mut out: Vec<InventoryItem> = Vec::new();
    while remaining.len() > 0
        invariant
            matching_entries(orig, search_text@) == out@ + matching_entries(
                remaining@,
                search_text@,
            ),
        decreases remaining.len(),
    {
        let ghost old_remaining = remaining@;
        let ghost old_out = out@;
        let item = remaining.remove(0);
        let ghost item_g = item;
        let keep = str_contains(item.definition.id.as_str(), search_text);
        if keep {
            out.push(item);
        }
        proof {
            assert(old_remaining.drop_first() =~= remaining@);
            assert(old_remaining.first() == item_g);
            if keep {
                assert(old_out + (seq![item_g] + matching_entries(remaining@, search_text@))
                    =~= out@ + matching_entries(remaining@, search_text@));
            }
        }
    }
    proof {
        assert(matching_entries(remaining@, search_text@) =~= Seq::<InventoryItem>::empty());
        assert(out@ + matching_entries(remaining@, search_text@) =~= out@);
    }
    out
}

} // verus!

//! Orders: one per table, each holding at most one line per menu item.

use std::collections::HashMap;
use vstd::prelude::*;
use crate::decimal::{i32_to_decimal, int_decimal};
use crate::menu::MenuItemId;

verus! {

/// Identifies a table; at most one order exists per table at any time.
#[derive(Debug, Clone, Copy, PartialEq, Eq, Structural, PartialOrd, Ord, Hash)]
pub struct TableId(pub i32);

impl TableId {
    /// The decimal form of the identifier.
    pub fn to_string(&self) -> (r: String)
        ensures
            r@ == int_decimal(self.0 as int),
    {
        i32_to_decimal(self.0)
    }
}

/// One menu item's line within an order.
#[derive(Clone, Copy, Debug, PartialEq, Eq, Structural)]
pub struct TableOrderItem {
    /// A table's order holds at most one line per menu item.
    pub item_id: MenuItemId,
    pub quantity: i32,
    pub total_preparation_time_mins: i32,
}

/// A table's order: its lines, keyed by the value of their menu item id.
#[derive(Clone, Debug, PartialEq)]
pub struct TableOrder {
    pub table_id: TableId,
    pub items: HashMap<i32, TableOrderItem>,
}

/// The lines that a sequence of items makes, keyed by item id: where an id
/// occurs more than once, its last occurrence wins.
pub open spec fn lines_of(items: Seq<TableOrderItem>) -> Map<i32, TableOrderItem>
    decreases items.len(),
{
    if items.len() == 0 {
        Map::empty()
    } else {
        lines_of(items.drop_last()).insert(items.last().item_id.0, items.last())
    }
}

/// Every line is stored under its own item id.
pub open spec fn lines_keyed_by_item(lines: Map<i32, TableOrderItem>) -> bool {
    forall|k: i32| #[trigger] lines.contains_key(k) ==> lines[k].item_id.0 == k
}

impl TableOrder {
    /// The order's lines, keyed by item id.
    pub open spec fn lines(&self) -> Map<i32, TableOrderItem> {
        self.items@
    }

    /// Well-formed: no line is stored under another item's id.
    pub open spec fn wf(&self) -> bool {
        lines_keyed_by_item(self.items@)
    }
}

/// `lines_of` keys each line by its own item id, and holds exactly the ids
/// that occur in the sequence.
pub proof fn lemma_lines_of(items: Seq<TableOrderItem>)
    ensures
        lines_keyed_by_item(lines_of(items)),
        forall|k: i32| #[trigger]
            lines_of(items).contains_key(k) <==> exists|i: int|
                0 <= i < items.len() && items[i].item_id.0 == k,
    decreases items.len(),
{
    if items.len() > 0 {
        let prefix = items.drop_last();
        lemma_lines_of(prefix);
        assert forall|k: i32| #[trigger]
            lines_of(items).contains_key(k) <==> exists|i: int|
                0 <= i < items.len() && items[i].item_id.0 == k by {
            if lines_of(prefix).contains_key(k) {
                let i = choose|i: int| 0 <= i < prefix.len() && prefix[i].item_id.0 == k;
                assert(items[i] == prefix[i]);
            }
            if exists|i: int| 0 <= i < items.len() && items[i].item_id.0 == k {
                let i = choose|i: int| 0 <= i < items.len() && items[i].item_id.0 == k;
                if i < items.len() - 1 {
                    assert(prefix[i] == items[i]);
                }
            }
        }
    }
}

} // verus!

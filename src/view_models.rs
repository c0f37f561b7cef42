//! What a client is shown of an order and its lines: identifiers in
//! decimal, with the menu's names and descriptions filled in.

use vstd::prelude::*;
use vstd::std_specs::hash::spec_hash_map_iter;
use vstd::std_specs::iter::IteratorSpec;
use crate::decimal::int_decimal;
use crate::menu::{get_menu_item, menu_item_description, menu_item_name};
use crate::orders::{TableOrder, TableOrderItem};

verus! {

/// An order as a client sees it.
pub struct TableOrderViewModel {
    pub table_id: String,
    pub items: Vec<TableOrderItemSummaryViewModel>,
}

/// A line of an order, as listed with the order.
pub struct TableOrderItemSummaryViewModel {
    pub item_id: String,
    pub name: String,
    pub quantity: i32,
    pub total_preparation_time_mins: i32,
}

/// A line of an order, shown on its own with the menu's description.
pub struct TableOrderItemDetailViewModel {
    pub item_id: String,
    pub name: String,
    pub quantity: i32,
    pub total_preparation_time_mins: i32,
    pub description: String,
}

/// `s` shows `line`: its id in decimal, the menu's name, its quantity and
/// preparation time.
pub open spec fn summarizes(s: TableOrderItemSummaryViewModel, line: TableOrderItem) -> bool {
    &&& s.item_id@ == int_decimal(line.item_id.0 as int)
    &&& s.name@ == menu_item_name(line.item_id)
    &&& s.quantity == line.quantity
    &&& s.total_preparation_time_mins == line.total_preparation_time_mins
}

/// Shows an order: its table id in decimal and one summary per line, in
/// the order in which the map yields them.
pub fn to_order_view_model(order: &TableOrder) -> (r: TableOrderViewModel)
    ensures
        r.table_id@ == int_decimal(order.table_id.0 as int),
        r.items.len() == order.lines().len(),
        exists|keys: Seq<i32>|
            {
                &&& keys.no_duplicates()
                &&& keys.to_set() == order.lines().dom()
                &&& keys.len() == r.items.len()
                &&& forall|i: int|
                    0 <= i < keys.len() ==> summarizes(
                        #[trigger] r.items@[i],
                        order.lines()[keys[i]],
                    )
            },
{
    let mut items: Vec<TableOrderItemSummaryViewModel> = Vec::new();
    let ghost lines = order.items@;
    let ghost pairs = spec_hash_map_iter(&order.items).remaining();
    for kv in it: order.items.iter()
        invariant
            lines == order.items@,
            it.seq() == pairs,
            items.len() == it.index(),
            forall|j: int|
                0 <= j < items.len() ==> summarizes(#[trigger] items@[j], *it.seq()[j].1),
    {
        items.push(to_order_item_summary_view_model(kv.1));
    }
    let ghost keys = pairs.map_values(|p: (&i32, &TableOrderItem)| *p.0);
    proof {
        assert(keys.no_duplicates()) by {
            assert forall|a: int, b: int| 0 <= a < b < keys.len() implies keys[a] != keys[b] by {
                if keys[a] == keys[b] {
                    assert(lines.contains_key(*pairs[a].0));
                    assert(lines.contains_key(*pairs[b].0));
                    assert(pairs[a] == pairs[b]);
                }
            }
        }
        assert forall|k: i32| #[trigger] lines.contains_key(k) implies keys.contains(k) by {
            assert(pairs.contains((&k, &lines[k])));
            let j = choose|j: int| 0 <= j < pairs.len() && pairs[j] == (&k, &lines[k]);
            assert(keys[j] == k);
        }
        assert forall|k: i32| keys.contains(k) implies #[trigger] lines.contains_key(k) by {
            let j = choose|j: int| 0 <= j < keys.len() && keys[j] == k;
            assert(lines.contains_key(*pairs[j].0));
        }
        assert(keys.to_set() =~= lines.dom());
        assert forall|i: int| 0 <= i < keys.len() implies summarizes(
            #[trigger] items@[i],
            lines[keys[i]],
        ) by {
            assert(lines.contains_key(*pairs[i].0));
        }
    }
    TableOrderViewModel { table_id: order.table_id.to_string(), items }
}

/// Shows a line as listed with its order.
pub fn to_order_item_summary_view_model(item: &TableOrderItem) -> (r:
    TableOrderItemSummaryViewModel)
    ensures
        summarizes(r, *item),
{
    let menu_item = get_menu_item(&item.item_id);
    TableOrderItemSummaryViewModel {
        item_id: item.item_id.to_string(),
        name: menu_item.name,
        quantity: item.quantity,
        total_preparation_time_mins: item.total_preparation_time_mins,
    }
}

/// Shows a line on its own, with the menu's description.
pub fn to_order_item_detail_view_model(item: &TableOrderItem) -> (r:
    TableOrderItemDetailViewModel)
    ensures
        r.item_id@ == int_decimal(item.item_id.0 as int),
        r.name@ == menu_item_name(item.item_id),
        r.quantity == item.quantity,
        r.total_preparation_time_mins == item.total_preparation_time_mins,
        r.description@ == menu_item_description(item.item_id),
{
    let menu_item = get_menu_item(&item.item_id);
    TableOrderItemDetailViewModel {
        item_id: item.item_id.to_string(),
        name: menu_item.name,
        quantity: item.quantity,
        total_preparation_time_mins: item.total_preparation_time_mins,
        description: menu_item.description,
    }
}

} // verus!

//! What clients send: identifiers as decimal text, and new lines as an
//! item id with a quantity.

use vstd::prelude::*;
use crate::decimal::{i32_literal_value, parse_i32};
use crate::menu::MenuItemId;
use crate::orders::{TableId, TableOrderItem};

verus! {

/// A line as a client sends it.
pub struct ClientNewItem {
    pub item_id: String,
    pub qty: i32,
}

/// The body of a create or an update.
pub struct CreateOrUpdateOrderParams {
    pub items: Vec<ClientNewItem>,
}

/// Whether `id` reads as an identifier: an `i32` in decimal.
pub fn is_client_id(id: &str) -> (r: bool)
    ensures
        r == i32_literal_value(id@) is Some,
{
    parse_i32(id).is_some()
}

/// Reads a table id sent as decimal text.
pub fn from_client_table_id(table_id: &str) -> (r: TableId)
    requires
        i32_literal_value(table_id@) is Some,
    ensures
        i32_literal_value(table_id@) == Some(r.0 as int),
{
    TableId(parse_i32(table_id).unwrap())
}

/// Reads a menu item id sent as decimal text.
pub fn from_client_item_id(item_id: &str) -> (r: MenuItemId)
    requires
        i32_literal_value(item_id@) is Some,
    ensures
        i32_literal_value(item_id@) == Some(r.0 as int),
{
    MenuItemId(parse_i32(item_id).unwrap())
}

/// Makes an order line from a client's line and the preparation time that
/// the menu gives for its item.
pub fn from_client_item(new_item: &ClientNewItem, preparation_time_mins: i32) -> (r: TableOrderItem)
    requires
        i32_literal_value(new_item.item_id@) is Some,
    ensures
        i32_literal_value(new_item.item_id@) == Some(r.item_id.0 as int),
        r.quantity == new_item.qty,
        r.total_preparation_time_mins == preparation_time_mins,
{
    let item_id = from_client_item_id(new_item.item_id.as_str());
    TableOrderItem {
        item_id,
        quantity: new_item.qty,
        total_preparation_time_mins: preparation_time_mins,
    }
}

} // verus!

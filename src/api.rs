//! The decisions of the request handlers: which line a request names, and
//! which status each outcome is reported with.

use vstd::prelude::*;
use crate::decimal::int_decimal;
use crate::menu::MenuItemId;
use crate::orders::{TableId, TableOrderItem};
use crate::persistence::{CreateOrderError, Persistence, ReadOrderError, ReadOrderItemError};

verus! {

/// The line for `item_id` in the order of `table_id`. Fails where the table
/// has no order, or the order has no such line.
pub fn find_order_item<'a, P: Persistence>(
    persistence: &'a P,
    table_id: &TableId,
    item_id: &MenuItemId,
) -> (r: Result<&'a TableOrderItem, ReadOrderItemError>)
    requires
        persistence.wf(),
    ensures
        match r {
            Ok(item) => {
                &&& persistence.orders().contains_key(table_id.0)
                &&& persistence.orders()[table_id.0].contains_key(item_id.0)
                &&& *item == persistence.orders()[table_id.0][item_id.0]
            },
            Err(ReadOrderItemError::OrderNotFound(id)) => {
                &&& !persistence.orders().contains_key(table_id.0)
                &&& id@ == int_decimal(table_id.0 as int)
            },
            Err(ReadOrderItemError::OrderItemNotFound(id)) => {
                &&& persistence.orders().contains_key(table_id.0)
                &&& !persistence.orders()[table_id.0].contains_key(item_id.0)
                &&& id@ == int_decimal(item_id.0 as int)
            },
        },
{
    match persistence.find_order(table_id) {
        Ok(order) => match order.items.get(&item_id.0) {
            Some(item) => Ok(item),
            None => Err(ReadOrderItemError::OrderItemNotFound(item_id.to_string())),
        },
        Err(ReadOrderError::OrderNotFound(id)) => Err(ReadOrderItemError::OrderNotFound(id)),
    }
}

impl CreateOrderError {
    /// The HTTP status: the table is taken, a conflict.
    pub fn status_code(&self) -> (r: u16)
        ensures
            r == 409,
    {
        match self {
            CreateOrderError::OrderAlreadyExistsForTable(_) => 409,
        }
    }
}

impl ReadOrderError {
    /// The HTTP status: not found.
    pub fn status_code(&self) -> (r: u16)
        ensures
            r == 404,
    {
        match self {
            ReadOrderError::OrderNotFound(_) => 404,
        }
    }
}

impl ReadOrderItemError {
    /// The HTTP status: not found, for a missing order as for a missing line.
    pub fn status_code(&self) -> (r: u16)
        ensures
            r == 404,
    {
        match self {
            ReadOrderItemError::OrderNotFound(_) => 404,
            ReadOrderItemError::OrderItemNotFound(_) => 404,
        }
    }
}

} // verus!

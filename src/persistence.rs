//! The repository interface: the table-to-order mapping and the outcome of
//! each operation on it, success or error.

use vstd::prelude::*;
use crate::decimal::int_decimal;
use crate::menu::MenuItemId;
use crate::orders::{lines_of, TableId, TableOrder, TableOrderItem};

verus! {

/// `Order id <id> not found.`
pub open spec fn order_not_found_message(id: Seq<char>) -> Seq<char> {
    seq!['O', 'r', 'd', 'e', 'r', ' ', 'i', 'd', ' '] + id
        + seq![' ', 'n', 'o', 't', ' ', 'f', 'o', 'u', 'n', 'd', '.']
}

/// `An order already exists for table id <id>.`
pub open spec fn order_exists_message(id: Seq<char>) -> Seq<char> {
    seq![
        'A', 'n', ' ', 'o', 'r', 'd', 'e', 'r', ' ', 'a', 'l', 'r', 'e', 'a', 'd', 'y', ' ',
        'e', 'x', 'i', 's', 't', 's', ' ', 'f', 'o', 'r', ' ', 't', 'a', 'b', 'l', 'e', ' ',
        'i', 'd', ' ',
    ] + id + seq!['.']
}

/// `Order item id <id> not found.`
pub open spec fn order_item_not_found_message(id: Seq<char>) -> Seq<char> {
    seq!['O', 'r', 'd', 'e', 'r', ' ', 'i', 't', 'e', 'm', ' ', 'i', 'd', ' '] + id
        + seq![' ', 'n', 'o', 't', ' ', 'f', 'o', 'u', 'n', 'd', '.']
}

/// `prefix`, then `id`, then `suffix`, as one string.
fn framed(prefix: &str, id: &String, suffix: &str) -> (r: String)
    ensures
        r@ == prefix@ + id@ + suffix@,
{
    String::from_str(prefix).concat(id.as_str()).concat(suffix)
}

/// A read, update or delete named a table that has no order.
#[derive(Clone, Debug, PartialEq, Eq)]
pub enum ReadOrderError {
    /// Holds the table id in decimal.
    OrderNotFound(String),
}

impl ReadOrderError {
    /// The text shown to a client.
    pub fn message(&self) -> (r: String)
        ensures
            match self {
                ReadOrderError::OrderNotFound(id) => r@ == order_not_found_message(id@),
            },
    {
        match self {
            ReadOrderError::OrderNotFound(id) => {
                let r = framed("Order id ", id, " not found.");
                proof {
                    reveal_strlit("Order id ");
                    reveal_strlit(" not found.");
                    assert(r@ =~= order_not_found_message(id@));
                }
                r
            },
        }
    }
}

/// A create named a table that already has an order.
#[derive(Clone, Debug, PartialEq, Eq)]
pub enum CreateOrderError {
    /// Holds the table id in decimal.
    OrderAlreadyExistsForTable(String),
}

impl CreateOrderError {
    /// The text shown to a client.
    pub fn message(&self) -> (r: String)
        ensures
            match self {
                CreateOrderError::OrderAlreadyExistsForTable(id) => r@ == order_exists_message(
                    id@,
                ),
            },
    {
        match self {
            CreateOrderError::OrderAlreadyExistsForTable(id) => {
                let r = framed("An order already exists for table id ", id, ".");
                proof {
                    reveal_strlit("An order already exists for table id ");
                    reveal_strlit(".");
                    assert(r@ =~= order_exists_message(id@));
                }
                r
            },
        }
    }
}

/// A line operation named a table without an order, or an order without
/// that line.
#[derive(Clone, Debug, PartialEq, Eq)]
pub enum ReadOrderItemError {
    /// Holds the table id in decimal.
    OrderNotFound(String),
    /// Holds the menu item id in decimal.
    OrderItemNotFound(String),
}

impl ReadOrderItemError {
    /// The text shown to a client.
    pub fn message(&self) -> (r: String)
        ensures
            match self {
                ReadOrderItemError::OrderNotFound(id) => r@ == order_not_found_message(id@),
                ReadOrderItemError::OrderItemNotFound(id) => r@ == order_item_not_found_message(
                    id@,
                ),
            },
    {
        match self {
            ReadOrderItemError::OrderNotFound(id) => {
                let r = framed("Order id ", id, " not found.");
                proof {
                    reveal_strlit("Order id ");
                    reveal_strlit(" not found.");
                    assert(r@ =~= order_not_found_message(id@));
                }
                r
            },
            ReadOrderItemError::OrderItemNotFound(id) => {
                let r = framed("Order item id ", id, " not found.");
                proof {
                    reveal_strlit("Order item id ");
                    reveal_strlit(" not found.");
                    assert(r@ =~= order_item_not_found_message(id@));
                }
                r
            },
        }
    }
}

/// The stored orders, as a map from table id to that order's lines.
pub type OrdersModel = Map<i32, Map<i32, TableOrderItem>>;

/// The orders after a create for `table`: unchanged where the table already
/// has an order, else with a new order holding `lines`.
pub open spec fn after_create(orders: OrdersModel, table: i32, lines: Map<i32, TableOrderItem>) -> OrdersModel {
    if orders.contains_key(table) {
        orders
    } else {
        orders.insert(table, lines)
    }
}

/// The orders after an update of `table`: its lines replaced by `lines`
/// where it has an order, else unchanged.
pub open spec fn after_update(orders: OrdersModel, table: i32, lines: Map<i32, TableOrderItem>) -> OrdersModel {
    if orders.contains_key(table) {
        orders.insert(table, lines)
    } else {
        orders
    }
}

/// The orders after deleting the line for `item` from `table`'s order:
/// unchanged where there is no such order or line.
pub open spec fn after_delete_line(orders: OrdersModel, table: i32, item: i32) -> OrdersModel {
    if orders.contains_key(table) && orders[table].contains_key(item) {
        orders.insert(table, orders[table].remove(item))
    } else {
        orders
    }
}

/// A store of table orders. Each operation is all-or-nothing: on an error
/// the stored orders are left as they were.
pub trait Persistence: Sized {
    /// For each table with an order, that order's lines.
    spec fn orders(&self) -> OrdersModel;

    /// The store's own invariant.
    spec fn wf(&self) -> bool;

    /// Stores a new order for `table_id` holding `items` (for an item id that
    /// occurs twice, the last line wins). Fails where the table already has
    /// an order.
    fn create_order(&mut self, table_id: &TableId, items: &[TableOrderItem]) -> (r: Result<
        &TableOrder,
        CreateOrderError,
    >)
        requires
            old(self).wf(),
        ensures
            final(self).wf(),
            final(self).orders() == after_create(old(self).orders(), table_id.0, lines_of(items@)),
            match r {
                Ok(order) => {
                    &&& !old(self).orders().contains_key(table_id.0)
                    &&& order.table_id == *table_id
                    &&& order.lines() == lines_of(items@)
                },
                Err(CreateOrderError::OrderAlreadyExistsForTable(id)) => {
                    &&& old(self).orders().contains_key(table_id.0)
                    &&& id@ == int_decimal(table_id.0 as int)
                },
            },
    ;

    /// The order of `table_id`. Fails where the table has none.
    fn find_order(&self, table_id: &TableId) -> (r: Result<&TableOrder, ReadOrderError>)
        requires
            self.wf(),
        ensures
            match r {
                Ok(order) => {
                    &&& self.orders().contains_key(table_id.0)
                    &&& order.table_id == *table_id
                    &&& order.lines() == self.orders()[table_id.0]
                },
                Err(ReadOrderError::OrderNotFound(id)) => {
                    &&& !self.orders().contains_key(table_id.0)
                    &&& id@ == int_decimal(table_id.0 as int)
                },
            },
    ;

    /// Replaces all lines of the order of `table_id` with `new_items` (for an
    /// item id that occurs twice, the last line wins). Fails where the table
    /// has no order; never creates one.
    fn update_order(&mut self, table_id: &TableId, new_items: &[TableOrderItem]) -> (r: Result<
        &TableOrder,
        ReadOrderError,
    >)
        requires
            old(self).wf(),
        ensures
            final(self).wf(),
            final(self).orders() == after_update(
                old(self).orders(),
                table_id.0,
                lines_of(new_items@),
            ),
            match r {
                Ok(order) => {
                    &&& old(self).orders().contains_key(table_id.0)
                    &&& order.table_id == *table_id
                    &&& order.lines() == lines_of(new_items@)
                },
                Err(ReadOrderError::OrderNotFound(id)) => {
                    &&& !old(self).orders().contains_key(table_id.0)
                    &&& id@ == int_decimal(table_id.0 as int)
                },
            },
    ;

    /// Removes the order of `table_id` with all its lines. Fails where the
    /// table has no order.
    fn delete_order(&mut self, table_id: &TableId) -> (r: Result<(), ReadOrderError>)
        requires
            old(self).wf(),
        ensures
            final(self).wf(),
            final(self).orders() == old(self).orders().remove(table_id.0),
            match r {
                Ok(()) => old(self).orders().contains_key(table_id.0),
                Err(ReadOrderError::OrderNotFound(id)) => {
                    &&& !old(self).orders().contains_key(table_id.0)
                    &&& id@ == int_decimal(table_id.0 as int)
                },
            },
    ;

    /// Removes the line for `item_id` from the order of `table_id`, keeping
    /// the order even where no line is left. Fails where the table has no
    /// order, or the order has no such line.
    fn delete_order_item(&mut self, table_id: &TableId, item_id: &MenuItemId) -> (r: Result<
        &TableOrder,
        ReadOrderItemError,
    >)
        requires
            old(self).wf(),
        ensures
            final(self).wf(),
            final(self).orders() == after_delete_line(old(self).orders(), table_id.0, item_id.0),
            match r {
                Ok(order) => {
                    &&& old(self).orders().contains_key(table_id.0)
                    &&& old(self).orders()[table_id.0].contains_key(item_id.0)
                    &&& order.table_id == *table_id
                    &&& order.lines() == old(self).orders()[table_id.0].remove(item_id.0)
                },
                Err(ReadOrderItemError::OrderNotFound(id)) => {
                    &&& !old(self).orders().contains_key(table_id.0)
                    &&& id@ == int_decimal(table_id.0 as int)
                },
                Err(ReadOrderItemError::OrderItemNotFound(id)) => {
                    &&& old(self).orders().contains_key(table_id.0)
                    &&& !old(self).orders()[table_id.0].contains_key(item_id.0)
                    &&& id@ == int_decimal(item_id.0 as int)
                },
            },
    ;
}

} // verus!

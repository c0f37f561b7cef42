//! Laws of the repository, proved over the state transitions that the
//! `Persistence` contracts state. They hold of every implementation.

use vstd::prelude::*;
use crate::orders::{lemma_lines_of, lines_of, TableOrderItem};
use crate::persistence::{after_create, after_delete_line, after_update, OrdersModel};

verus! {

/// The item ids that occur in a sequence of lines.
pub open spec fn item_ids(items: Seq<TableOrderItem>) -> Set<i32> {
    Set::new(|k: i32| exists|i: int| 0 <= i < items.len() && items[i].item_id.0 == k)
}

/// A create that succeeds stores, for that table, exactly the lines given
/// (an id given twice keeping its last line), so a find right after it
/// returns them; the order's ids are exactly the ids given.
pub proof fn lemma_find_after_create(orders: OrdersModel, table: i32, items: Seq<TableOrderItem>)
    requires
        !orders.contains_key(table),
    ensures
        after_create(orders, table, lines_of(items)).contains_key(table),
        after_create(orders, table, lines_of(items))[table] == lines_of(items),
        lines_of(items).dom() == item_ids(items),
{
    lemma_lines_of(items);
    assert(lines_of(items).dom() =~= item_ids(items));
}

/// A second create for the same table, with no delete between, finds the
/// table taken and changes nothing: the order stays as the first create
/// left it.
pub proof fn lemma_create_twice(
    orders: OrdersModel,
    table: i32,
    first: Seq<TableOrderItem>,
    second: Seq<TableOrderItem>,
)
    ensures
        after_create(orders, table, lines_of(first)).contains_key(table),
        after_create(after_create(orders, table, lines_of(first)), table, lines_of(second))
            == after_create(orders, table, lines_of(first)),
        !orders.contains_key(table) ==> after_create(orders, table, lines_of(first))[table]
            == lines_of(first),
{
}

/// An update of a table without an order creates none: the stored orders,
/// and so their number, stay as they were.
pub proof fn lemma_update_missing(orders: OrdersModel, table: i32, items: Seq<TableOrderItem>)
    requires
        !orders.contains_key(table),
    ensures
        after_update(orders, table, lines_of(items)) == orders,
        after_update(orders, table, lines_of(items)).len() == orders.len(),
        !after_update(orders, table, lines_of(items)).contains_key(table),
{
}

/// An update replaces the order's lines in full: afterwards its ids are
/// exactly those given, whatever it held before, and other tables keep
/// theirs.
pub proof fn lemma_update_replaces(orders: OrdersModel, table: i32, items: Seq<TableOrderItem>)
    requires
        orders.contains_key(table),
    ensures
        after_update(orders, table, lines_of(items))[table] == lines_of(items),
        after_update(orders, table, lines_of(items))[table].dom() == item_ids(items),
        after_update(orders, table, lines_of(items)).dom() == orders.dom(),
        forall|t: i32|
            t != table && #[trigger] orders.contains_key(t) ==> after_update(
                orders,
                table,
                lines_of(items),
            )[t] == orders[t],
{
    lemma_lines_of(items);
    assert(lines_of(items).dom() =~= item_ids(items));
    assert(after_update(orders, table, lines_of(items)).dom() =~= orders.dom());
}

/// Deleting a line removes that line alone: every other line of the order,
/// and every other order, stays; the order itself stays too.
pub proof fn lemma_delete_line_exact(orders: OrdersModel, table: i32, item: i32)
    requires
        orders.contains_key(table),
        orders[table].contains_key(item),
    ensures
        after_delete_line(orders, table, item).contains_key(table),
        !after_delete_line(orders, table, item)[table].contains_key(item),
        forall|k: i32|
            k != item && #[trigger] orders[table].contains_key(k) ==> after_delete_line(
                orders,
                table,
                item,
            )[table].contains_key(k) && after_delete_line(orders, table, item)[table][k]
                == orders[table][k],
        forall|t: i32|
            t != table && #[trigger] orders.contains_key(t) ==> after_delete_line(
                orders,
                table,
                item,
            )[t] == orders[t],
        after_delete_line(orders, table, item).dom() == orders.dom(),
{
    assert(after_delete_line(orders, table, item).dom() =~= orders.dom());
}

/// Deleting a line that the order lacks changes nothing: the order keeps
/// all its lines, and their number.
pub proof fn lemma_delete_missing_line(orders: OrdersModel, table: i32, item: i32)
    requires
        orders.contains_key(table),
        !orders[table].contains_key(item),
    ensures
        after_delete_line(orders, table, item) == orders,
        after_delete_line(orders, table, item)[table].len() == orders[table].len(),
{
}

/// Deleting an order removes the table: a find on it afterwards fails, and
/// the other orders stay.
pub proof fn lemma_find_after_delete(orders: OrdersModel, table: i32)
    ensures
        !orders.remove(table).contains_key(table),
        forall|t: i32|
            t != table && #[trigger] orders.contains_key(t) ==> orders.remove(table).contains_key(
                t,
            ) && orders.remove(table)[t] == orders[t],
{
}

/// The orders after the first `n` of `attempts`, each a create for
/// `table`, run one after another.
pub open spec fn after_creates(
    orders: OrdersModel,
    table: i32,
    attempts: Seq<Seq<TableOrderItem>>,
    n: nat,
) -> OrdersModel
    decreases n,
{
    if n == 0 {
        orders
    } else {
        after_create(
            after_creates(orders, table, attempts, (n - 1) as nat),
            table,
            lines_of(attempts[n - 1]),
        )
    }
}

/// Creates for one table that a lock puts in some order, starting where the
/// table has no order: the first succeeds, each later one finds the table
/// taken, and the order stored is the one of the first.
pub proof fn lemma_creates_in_turn(
    orders: OrdersModel,
    table: i32,
    attempts: Seq<Seq<TableOrderItem>>,
)
    requires
        !orders.contains_key(table),
        attempts.len() > 0,
    ensures
        forall|k: nat|
            k < attempts.len() ==> (#[trigger] after_creates(
                orders,
                table,
                attempts,
                k,
            ).contains_key(table) <==> k > 0),
        after_creates(orders, table, attempts, attempts.len()) == orders.insert(
            table,
            lines_of(attempts[0]),
        ),
{
    assert forall|k: nat| 0 < k <= attempts.len() implies #[trigger] after_creates(
        orders,
        table,
        attempts,
        k,
    ) == orders.insert(table, lines_of(attempts[0])) by {
        lemma_creates_settle(orders, table, attempts, k);
    }
    assert(after_creates(orders, table, attempts, 0) == orders);
}

/// Every prefix of at least one create leaves the first attempt's order.
proof fn lemma_creates_settle(
    orders: OrdersModel,
    table: i32,
    attempts: Seq<Seq<TableOrderItem>>,
    k: nat,
)
    requires
        !orders.contains_key(table),
        0 < k <= attempts.len(),
    ensures
        after_creates(orders, table, attempts, k) == orders.insert(table, lines_of(attempts[0])),
    decreases k,
{
    assert(after_creates(orders, table, attempts, 0) == orders);
    if k > 1 {
        lemma_creates_settle(orders, table, attempts, (k - 1) as nat);
    }
}

} // verus!

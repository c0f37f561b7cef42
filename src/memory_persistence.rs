//! The in-memory store: a hash map from table id to order.

use std::collections::HashMap;
use vstd::prelude::*;
use crate::menu::MenuItemId;
use crate::orders::{lemma_lines_of, lines_of, TableId, TableOrder, TableOrderItem};
use crate::persistence::{
    after_create, after_delete_line, after_update, CreateOrderError, OrdersModel, Persistence,
    ReadOrderError, ReadOrderItemError,
};

verus! {

/// Each order is stored under its own table id, and is well-formed.
pub open spec fn orders_keyed_by_table(data: Map<i32, TableOrder>) -> bool {
    forall|k: i32| #[trigger]
        data.contains_key(k) ==> data[k].table_id.0 == k && data[k].wf()
}

/// What a table-to-order map holds: for each table id, that order's lines.
pub open spec fn orders_of(data: Map<i32, TableOrder>) -> OrdersModel {
    data.map_values(|o: TableOrder| o.items@)
}

#[derive(Debug)]
pub struct MemoryPersistence {
    data: HashMap<i32, TableOrder>,
}

impl MemoryPersistence {
    /// A store holding the given orders.
    pub fn new(data: HashMap<i32, TableOrder>) -> (r: Self)
        requires
            orders_keyed_by_table(data@),
        ensures
            r.wf(),
            r.orders() == orders_of(data@),
    {
        Self { data }
    }
}

impl Default for MemoryPersistence {
    /// An empty store.
    fn default() -> (r: Self)
        ensures
            r.wf(),
            r.orders() == OrdersModel::empty(),
    {
        let r = Self { data: HashMap::new() };
        assert(r.orders() =~= OrdersModel::empty());
        r
    }
}

impl Persistence for MemoryPersistence {
    closed spec fn orders(&self) -> OrdersModel {
        orders_of(self.data@)
    }

    closed spec fn wf(&self) -> bool {
        orders_keyed_by_table(self.data@)
    }

    fn create_order(&mut self, table_id: &TableId, items: &[TableOrderItem]) -> (r: Result<
        &TableOrder,
        CreateOrderError,
    >) {
        if self.data.contains_key(&table_id.0) {
            return Err(CreateOrderError::OrderAlreadyExistsForTable(table_id.to_string()));
        }
        let new_record = TableOrder { table_id: *table_id, items: item_slice_to_hashmap(items) };
        proof {
            lemma_lines_of(items@);
        }
        self.data.insert(table_id.0, new_record);
        assert(self.orders() =~= after_create(old(self).orders(), table_id.0, lines_of(items@)));
        Ok(self.data.get(&table_id.0).unwrap())
    }

    fn find_order(&self, table_id: &TableId) -> (r: Result<&TableOrder, ReadOrderError>) {
        match self.data.get(&table_id.0) {
            Some(order) => Ok(order),
            None => Err(ReadOrderError::OrderNotFound(table_id.to_string())),
        }
    }

    fn update_order(&mut self, table_id: &TableId, new_items: &[TableOrderItem]) -> (r: Result<
        &TableOrder,
        ReadOrderError,
    >) {
        match self.data.remove(&table_id.0) {
            Some(mut order) => {
                order.items = item_slice_to_hashmap(new_items);
                proof {
                    lemma_lines_of(new_items@);
                }
                self.data.insert(table_id.0, order);
                assert(self.orders() =~= after_update(
                    old(self).orders(),
                    table_id.0,
                    lines_of(new_items@),
                ));
                Ok(self.data.get(&table_id.0).unwrap())
            },
            None => {
                assert(self.data@ =~= old(self).data@);
                Err(ReadOrderError::OrderNotFound(table_id.to_string()))
            },
        }
    }

    fn delete_order(&mut self, table_id: &TableId) -> (r: Result<(), ReadOrderError>) {
        let removed = self.data.remove(&table_id.0);
        assert(self.orders() =~= old(self).orders().remove(table_id.0));
        match removed {
            Some(_) => Ok(()),
            None => Err(ReadOrderError::OrderNotFound(table_id.to_string())),
        }
    }

    fn delete_order_item(&mut self, table_id: &TableId, item_id: &MenuItemId) -> (r: Result<
        &TableOrder,
        ReadOrderItemError,
    >) {
        match self.data.remove(&table_id.0) {
            Some(mut order) => {
                let ghost before = order.items@;
                let removed = order.items.remove(&item_id.0);
                self.data.insert(table_id.0, order);
                match removed {
                    Some(_) => {
                        assert(self.orders() =~= after_delete_line(
                            old(self).orders(),
                            table_id.0,
                            item_id.0,
                        ));
                        Ok(self.data.get(&table_id.0).unwrap())
                    },
                    None => {
                        assert(before.remove(item_id.0) =~= before);
                        assert(self.orders() =~= old(self).orders());
                        Err(ReadOrderItemError::OrderItemNotFound(item_id.to_string()))
                    },
                }
            },
            None => {
                assert(self.data@ =~= old(self).data@);
                Err(ReadOrderItemError::OrderNotFound(table_id.to_string()))
            },
        }
    }
}

/// The lines that `items` make, keyed by item id; where an id occurs more
/// than once, its last line wins.
pub fn item_slice_to_hashmap(items: &[TableOrderItem]) -> (r: HashMap<i32, TableOrderItem>)
    ensures
        r@ == lines_of(items@),
{
    let mut lines: HashMap<i32, TableOrderItem> = HashMap::new();
    let mut i: usize = 0;
    while i < items.len()
        invariant
            i <= items@.len(),
            lines@ == lines_of(items@.subrange(0, i as int)),
        decreases items@.len() - i,
    {
        let item = items[i];
        lines.insert(item.item_id.0, item);
        assert(items@.subrange(0, i + 1).drop_last() =~= items@.subrange(0, i as int));
        i = i + 1;
    }
    assert(items@.subrange(0, items@.len() as int) =~= items@);
    lines
}

/// Takes the store apart into its table-to-order map.
pub fn get_underlying_data(memory_persistence: MemoryPersistence) -> (r: HashMap<i32, TableOrder>)
    requires
        memory_persistence.wf(),
    ensures
        orders_keyed_by_table(r@),
        orders_of(r@) == memory_persistence.orders(),
{
    memory_persistence.data
}

} // verus!

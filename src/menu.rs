//! Menu items, as the rest of the system sees them.

use vstd::prelude::*;
use crate::decimal::{i32_to_decimal, int_decimal};

verus! {

/// Identifies a menu item definition.
#[derive(Debug, Clone, Copy, PartialEq, Eq, Structural, PartialOrd, Ord, Hash)]
pub struct MenuItemId(pub i32);

impl MenuItemId {
    /// The decimal form of the identifier.
    pub fn to_string(&self) -> (r: String)
        ensures
            r@ == int_decimal(self.0 as int),
    {
        i32_to_decimal(self.0)
    }
}

/// A menu item's display data.
#[derive(Debug, PartialEq)]
pub struct MenuItem {
    pub id: MenuItemId,
    pub name: String,
    /// Details, ingredients and the like.
    pub description: String,
}

/// The display name of a menu item: `menu item <id>`.
pub open spec fn menu_item_name(id: MenuItemId) -> Seq<char> {
    seq!['m', 'e', 'n', 'u', ' ', 'i', 't', 'e', 'm', ' '] + int_decimal(id.0 as int)
}

/// The description of a menu item: `menu item desc <id>`.
pub open spec fn menu_item_description(id: MenuItemId) -> Seq<char> {
    seq!['m', 'e', 'n', 'u', ' ', 'i', 't', 'e', 'm', ' ', 'd', 'e', 's', 'c', ' ']
        + int_decimal(id.0 as int)
}

/// Every identifier names a menu item; its name and description are
/// derived from the identifier.
pub fn get_menu_item(id: &MenuItemId) -> (r: MenuItem)
    ensures
        r.id == *id,
        r.name@ == menu_item_name(*id),
        r.description@ == menu_item_description(*id),
{
    let digits = i32_to_decimal(id.0);
    let name = String::from_str("menu item ").concat(digits.as_str());
    let description = String::from_str("menu item desc ").concat(digits.as_str());
    proof {
        reveal_strlit("menu item ");
        reveal_strlit("menu item desc ");
        assert(name@ =~= menu_item_name(*id));
        assert(description@ =~= menu_item_description(*id));
    }
    MenuItem { id: *id, name, description }
}

} // verus!

//! A declarative menu tree.
use vstd::prelude::*;

verus! {

/// An entry in a menu: a separator, an item, or a submenu.
pub enum MenuEntry {
    Seperator,
    Item(MenuItem),
    SubMenu(Menu),
}

/// A titled menu with its entries in order.
pub struct Menu {
    pub popup: bool,
    pub item: MenuItem,
    pub children: Vec<MenuEntry>,
}

/// Hands out menu item identities, each above every one handed out before
/// by the same counter.
pub struct MenuIdCounter {
    next: u64,
}

impl MenuIdCounter {
    /// The identity that the next call of `next` hands out.
    pub closed spec fn next_id(&self) -> u64 {
        self.next
    }

    /// A counter whose first identity is 1.
    pub fn new() -> (r: MenuIdCounter)
        ensures
            r.next_id() == 1,
    {
        MenuIdCounter { next: 1 }
    }

    /// A fresh identity, above every one this counter handed out before.
    pub fn next(&mut self) -> (id: u64)
        requires
            old(self).next_id() < u64::MAX,
        ensures
            id == old(self).next_id(),
            final(self).next_id() == id + 1,
    {
        let id = self.next;
        self.next = self.next + 1;
        id
    }
}

/// A titled item, with an identity drawn from a `MenuIdCounter`.
pub struct MenuItem {
    pub id: u64,
    pub title: String,
    pub selected: Option<bool>,
    pub enabled: bool,
}

impl From<Menu> for MenuEntry {
    fn from(m: Menu) -> (r: MenuEntry) {
        MenuEntry::SubMenu(m)
    }
}

impl vstd::std_specs::convert::FromSpecImpl<Menu> for MenuEntry {
    open spec fn obeys_from_spec() -> bool {
        true
    }

    open spec fn from_spec(m: Menu) -> MenuEntry {
        MenuEntry::SubMenu(m)
    }
}

impl From<MenuItem> for MenuEntry {
    fn from(i: MenuItem) -> (r: MenuEntry) {
        MenuEntry::Item(i)
    }
}

impl vstd::std_specs::convert::FromSpecImpl<MenuItem> for MenuEntry {
    open spec fn obeys_from_spec() -> bool {
        true
    }

    open spec fn from_spec(i: MenuItem) -> MenuEntry {
        MenuEntry::Item(i)
    }
}

impl Menu {
    /// An empty menu whose own item has a fresh identity and the given title.
    pub fn new(ids: &mut MenuIdCounter, title: String) -> (r: Menu)
        requires
            old(ids).next_id() < u64::MAX,
        ensures
            !r.popup,
            r.item.id == old(ids).next_id(),
            final(ids).next_id() == r.item.id + 1,
            r.item.title@ == title@,
            r.item.selected is None,
            r.item.enabled,
            r.children@.len() == 0,
    {
        Menu { popup: false, item: MenuItem::new(ids, title), children: Vec::new() }
    }

    /// The same menu, shown as a popup.
    pub fn popup(self) -> (r: Menu)
        ensures
            r.popup,
            r.item == self.item,
            r.children@ == self.children@,
    {
        let mut m = self;
        m.popup = true;
        m
    }

    /// Appends an entry.
    pub fn entry(self, entry: MenuEntry) -> (r: Menu)
        ensures
            r.popup == self.popup,
            r.item == self.item,
            r.children@ == self.children@.push(entry),
    {
        let mut m = self;
        m.children.push(entry);
        m
    }

    /// Appends a separator.
    pub fn separator(self) -> (r: Menu)
        ensures
            r.popup == self.popup,
            r.item == self.item,
            r.children@ == self.children@.push(MenuEntry::Seperator),
    {
        self.entry(MenuEntry::Seperator)
    }
}

impl MenuItem {
    /// An enabled, unselected item with a fresh identity.
    pub fn new(ids: &mut MenuIdCounter, title: String) -> (r: MenuItem)
        requires
            old(ids).next_id() < u64::MAX,
        ensures
            r.id == old(ids).next_id(),
            final(ids).next_id() == r.id + 1,
            r.title@ == title@,
            r.selected is None,
            r.enabled,
    {
        let id = ids.next();
        MenuItem { id, title, selected: None, enabled: true }
    }

    /// The same item, enabled or not.
    pub fn enabled(self, enabled: bool) -> (r: MenuItem)
        ensures
            r.id == self.id,
            r.title == self.title,
            r.selected == self.selected,
            r.enabled == enabled,
    {
        let mut i = self;
        i.enabled = enabled;
        i
    }
}

} // verus!

use floem::menu::{Menu, MenuEntry, MenuIdCounter, MenuItem};

#[test]
fn menu_builder_keeps_order() {
    let mut ids = MenuIdCounter::new();
    let file = Menu::new(&mut ids, "File".to_string());
    let open = MenuItem::new(&mut ids, "Open".to_string());
    let quit = MenuItem::new(&mut ids, "Quit".to_string()).enabled(false);
    let sub = Menu::new(&mut ids, "Recent".to_string());
    let m = file
        .entry(MenuEntry::from(open))
        .separator()
        .entry(sub.into())
        .entry(MenuEntry::from(quit));
    assert!(!m.popup);
    assert_eq!(m.item.id, 1);
    assert_eq!(m.item.title, "File");
    assert_eq!(m.children.len(), 4);
    assert!(matches!(&m.children[0], MenuEntry::Item(i) if i.id == 2 && i.enabled));
    assert!(matches!(&m.children[1], MenuEntry::Seperator));
    assert!(matches!(&m.children[2], MenuEntry::SubMenu(s) if s.item.title == "Recent" && s.item.id == 4));
    assert!(matches!(&m.children[3], MenuEntry::Item(i) if i.id == 3 && !i.enabled && i.selected.is_none()));
    let p = m.popup();
    assert!(p.popup);
}

#[test]
fn menu_ids_are_distinct_and_increasing() {
    let mut ids = MenuIdCounter::new();
    let a = MenuItem::new(&mut ids, "a".to_string());
    let b = MenuItem::new(&mut ids, "b".to_string());
    let c = ids.next();
    assert!(a.id < b.id && b.id < c);
}

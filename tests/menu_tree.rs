use std::cell::Cell;
use std::rc::Rc;

use appmenu::event::Event;
use appmenu::menu::{build_menu_bar, dispatch_event, Menu, MenuItem, MenuManager};
use appmenu::modifier::Modifier;

type Action = Box<dyn Fn()>;

fn counter() -> Rc<Cell<u32>> {
    Rc::new(Cell::new(0))
}

fn bump(c: &Rc<Cell<u32>>) -> Action {
    let c = c.clone();
    Box::new(move || c.set(c.get() + 1))
}

fn fire(manager: &MenuManager<Action>, tag: i32) {
    if let Some(action) = dispatch_event(manager, tag) {
        action();
    }
}

#[test]
fn modifier_union_commutes_and_is_idempotent() {
    let a = Modifier::command();
    let b = Modifier::shift() | Modifier::option();
    assert_eq!(a | b, b | a);
    assert_eq!(a | a, a);
    assert_eq!(b | b, b);
    assert_eq!((a | b).bits(), 0x0010_0000 | 0x0002_0000 | 0x0008_0000);
    assert_eq!(a.union(b), a | b);
}

#[test]
fn modifier_none_versus_named_keys() {
    assert!(Modifier::none().is_none());
    assert_eq!(Modifier::none().bits(), 1);
    assert!(!Modifier::command().is_none());
    assert!(!(Modifier::none() | Modifier::shift()).is_none());
    assert!(Modifier::none() | Modifier::none() == Modifier::none());
    assert_ne!(Modifier::control(), Modifier::none());
}

#[test]
fn modifier_bit_layout() {
    assert_eq!(Modifier::caps_lock().bits(), 1 << 16);
    assert_eq!(Modifier::shift().bits(), 1 << 17);
    assert_eq!(Modifier::control().bits(), 1 << 18);
    assert_eq!(Modifier::option().bits(), 1 << 19);
    assert_eq!(Modifier::command().bits(), 1 << 20);
    assert_eq!(Modifier::numeric_pad().bits(), 1 << 21);
    assert_eq!(Modifier::help().bits(), 1 << 22);
    assert_eq!(Modifier::function().bits(), 1 << 23);
    assert_eq!(Modifier::device_independent_flags_mask().bits(), 0xffff_0000);
}

#[test]
fn command_shift_mask_round_trip() {
    let item = MenuItem::new("Test", Modifier::command() | Modifier::shift(), "t", 0u8, 2);
    assert_eq!(item.accelerator_mask(), Some((1u32 << 20) | (1u32 << 17)));
}

#[test]
fn none_modifier_applies_no_mask() {
    let item = MenuItem::new("", Modifier::none(), "", 0u8, 0);
    assert_eq!(item.accelerator_mask(), None);
}

#[test]
fn new_item_keeps_its_fields() {
    let item = MenuItem::new("Quit", Modifier::command(), "q", 7u8, 1);
    assert_eq!(item.title, "Quit");
    assert_eq!(item.key, "q");
    assert_eq!(item.modifier, Modifier::command());
    assert_eq!(item.callback, 7);
    assert_eq!(item.tag, 1);
    assert!(item.submenu.is_none());
}

#[test]
fn add_menu_item_keeps_insertion_order() {
    let mut menu = Menu::new();
    assert!(menu.items.is_empty());
    menu.add_menu_item(MenuItem::new("a", Modifier::none(), "", 'a', 1));
    menu.add_menu_item(MenuItem::new("b", Modifier::none(), "", 'b', 2));
    menu.add_menu_item(MenuItem::new("c", Modifier::none(), "", 'c', 3));
    let titles: Vec<&str> = menu.items.iter().map(|i| i.title.as_str()).collect();
    assert_eq!(titles, vec!["a", "b", "c"]);
}

#[test]
fn lookup_returns_first_match_depth_first() {
    let mut sub = Menu::new();
    sub.add_menu_item(MenuItem::new("deep", Modifier::none(), "", "deep", 5));
    let mut first = MenuItem::new("first", Modifier::none(), "", "first", 4);
    first.set_submenu(sub);
    let mut menu = Menu::new();
    menu.add_menu_item(first);
    menu.add_menu_item(MenuItem::new("later", Modifier::none(), "", "later", 5));
    menu.add_menu_item(MenuItem::new("dup", Modifier::none(), "", "dup", 4));
    assert_eq!(menu.get_from_tag(5).map(|i| i.callback), Some("deep"));
    assert_eq!(menu.get_from_tag(4).map(|i| i.callback), Some("first"));
    assert!(menu.get_from_tag(6).is_none());
}

#[test]
fn lookup_in_empty_menu_is_absent() {
    let menu: Box<Menu<u8>> = Menu::new();
    assert!(menu.get_from_tag(0).is_none());
}

#[test]
fn item_lookup_checks_itself_then_submenu() {
    let mut sub = Menu::new();
    sub.add_menu_item(MenuItem::new("child", Modifier::none(), "", 2u8, 20));
    let mut item = MenuItem::new("parent", Modifier::none(), "", 1u8, 10);
    item.set_submenu(sub);
    assert_eq!(item.get_from_tag(10).map(|i| i.callback), Some(1));
    assert_eq!(item.get_from_tag(20).map(|i| i.callback), Some(2));
    assert!(item.get_from_tag(30).is_none());
}

#[test]
fn second_submenu_replaces_first() {
    let mut a = Menu::new();
    a.add_menu_item(MenuItem::new("a", Modifier::none(), "", 1u8, 1));
    let mut b = Menu::new();
    b.add_menu_item(MenuItem::new("b", Modifier::none(), "", 2u8, 2));
    let mut item = MenuItem::new("top", Modifier::none(), "", 0u8, 0);
    item.set_submenu(a);
    item.set_submenu(b);
    assert!(item.get_from_tag(1).is_none());
    assert_eq!(item.get_from_tag(2).map(|i| i.callback), Some(2));
}

#[test]
fn manager_without_tree_finds_nothing() {
    let manager: MenuManager<u8> = MenuManager::new();
    assert!(manager.current.is_none());
    assert!(manager.get_from_tag(0).is_none());
    assert!(dispatch_event(&manager, 1).is_none());
}

#[test]
fn installing_a_tree_forgets_the_previous_one() {
    let mut old_tree = Menu::new();
    old_tree.add_menu_item(MenuItem::new("old", Modifier::none(), "", 1u8, 1));
    let mut new_tree = Menu::new();
    new_tree.add_menu_item(MenuItem::new("new", Modifier::none(), "", 2u8, 2));
    let mut manager = MenuManager::new();
    manager.set_current(old_tree);
    assert_eq!(manager.get_from_tag(1).map(|i| i.callback), Some(1));
    manager.set_current(new_tree);
    assert!(manager.get_from_tag(1).is_none());
    assert_eq!(manager.get_from_tag(2).map(|i| i.callback), Some(2));
}

#[test]
fn dispatch_runs_exactly_the_registered_action_once() {
    let a = counter();
    let b = counter();
    let mut menu = Menu::new();
    menu.add_menu_item(MenuItem::new("a", Modifier::none(), "", bump(&a), 1));
    menu.add_menu_item(MenuItem::new("b", Modifier::none(), "", bump(&b), 2));
    let mut manager = MenuManager::new();
    manager.set_current(menu);
    fire(&manager, 2);
    assert_eq!((a.get(), b.get()), (0, 1));
}

#[test]
fn dispatch_of_unknown_tag_runs_nothing() {
    let a = counter();
    let mut menu = Menu::new();
    menu.add_menu_item(MenuItem::new("a", Modifier::none(), "", bump(&a), 1));
    let mut manager = MenuManager::new();
    manager.set_current(menu);
    assert!(dispatch_event(&manager, 42).is_none());
    fire(&manager, 42);
    assert_eq!(a.get(), 0);
}

#[test]
fn menu_bar_scenario() {
    let quit = counter();
    let test = counter();
    let bar = counter();
    let menu_bar = build_menu_bar(bump(&quit), bump(&test), bump(&bar));
    let mut manager = MenuManager::new();
    manager.set_current(menu_bar);
    fire(&manager, 1);
    assert_eq!((quit.get(), test.get(), bar.get()), (1, 0, 0));
    fire(&manager, 2);
    assert_eq!((quit.get(), test.get(), bar.get()), (1, 1, 0));
    fire(&manager, 99);
    assert_eq!((quit.get(), test.get(), bar.get()), (1, 1, 0));
}

#[test]
fn menu_bar_layout() {
    let menu_bar = build_menu_bar("quit", "test", "bar");
    assert_eq!(menu_bar.items.len(), 1);
    let top = &menu_bar.items[0];
    assert_eq!((top.title.as_str(), top.tag, top.accelerator_mask()), ("", 0, None));
    let app = top.submenu.as_ref().unwrap();
    assert_eq!(app.items.len(), 2);
    let quit = &app.items[0];
    assert_eq!((quit.title.as_str(), quit.key.as_str(), quit.tag), ("Quit", "q", 1));
    assert_eq!(quit.accelerator_mask(), Some(1 << 20));
    let test = &app.items[1];
    assert_eq!((test.title.as_str(), test.key.as_str(), test.tag), ("Test", "t", 2));
    assert_eq!(test.accelerator_mask(), Some((1 << 20) | (1 << 17)));
    assert_eq!(menu_bar.get_from_tag(2).map(|i| i.callback), Some("test"));
}

#[test]
fn load_event_compares_equal() {
    assert_eq!(Event::Load, Event::Load);
}

#[test]
fn sentinel_with_named_key_applies_mask() {
    let item = MenuItem::new("x", Modifier::none() | Modifier::shift(), "x", 0u8, 3);
    assert_eq!(item.accelerator_mask(), Some(1 | (1u32 << 17)));
}

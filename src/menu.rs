use vstd::prelude::*;

use crate::modifier::{Modifier, COMMAND_BITS, NONE_BITS, SHIFT_BITS};

verus! {

broadcast use vstd::std_specs::vec::group_vec_axioms;

/// An ordered collection of menu items. Insertion order is display order.
pub struct Menu<A> {
    pub items: Vec<Box<MenuItem<A>>>,
}

/// One menu entry: a title, an accelerator (modifier and key), the action
/// run when the entry is activated, the integer tag that identifies it, and
/// an optional submenu that it owns.
pub struct MenuItem<A> {
    pub title: String,
    pub key: String,
    pub modifier: Modifier,
    pub callback: A,
    pub submenu: Option<Box<Menu<A>>>,
    pub tag: i32,
}

/// Holds the menu tree that is currently installed as the main menu.
pub struct MenuManager<A> {
    pub current: Option<Box<Menu<A>>>,
}

/// The first item, in depth-first order, of `item` and its submenu whose tag
/// is `tag`.
pub open spec fn item_find<A>(item: MenuItem<A>, tag: i32) -> Option<MenuItem<A>>
    decreases item, 0int,
{
    if item.tag == tag {
        Some(item)
    } else {
        match item.submenu {
            Some(m) => menu_find(*m, tag),
            None => None,
        }
    }
}

/// The first item, in depth-first order, of `menu` whose tag is `tag`.
pub open spec fn menu_find<A>(menu: Menu<A>, tag: i32) -> Option<MenuItem<A>>
    decreases menu, 1int,
{
    items_find(menu.items@, 0, tag)
}

/// The first item, in depth-first order, of the trees `items[i..]` whose tag
/// is `tag`.
pub open spec fn items_find<A>(items: Seq<Box<MenuItem<A>>>, i: int, tag: i32) -> Option<
    MenuItem<A>,
>
    decreases items, items.len() - i,
{
    if i < 0 || i >= items.len() {
        None
    } else {
        match item_find(*items[i], tag) {
            Some(x) => Some(x),
            None => items_find(items, i + 1, tag),
        }
    }
}

/// The items of `item`'s tree in depth-first order: the item, then its
/// submenu's items.
pub open spec fn item_flatten<A>(item: MenuItem<A>) -> Seq<MenuItem<A>>
    decreases item, 0int,
{
    seq![item] + match item.submenu {
        Some(m) => menu_flatten(*m),
        None => Seq::empty(),
    }
}

/// The items of `menu`'s tree in depth-first order, siblings in insertion
/// order.
pub open spec fn menu_flatten<A>(menu: Menu<A>) -> Seq<MenuItem<A>>
    decreases menu, 1int,
{
    items_flatten(menu.items@, 0)
}

/// The items of the trees `items[i..]` in depth-first order.
pub open spec fn items_flatten<A>(items: Seq<Box<MenuItem<A>>>, i: int) -> Seq<MenuItem<A>>
    decreases items, items.len() - i,
{
    if i < 0 || i >= items.len() {
        Seq::empty()
    } else {
        item_flatten(*items[i]) + items_flatten(items, i + 1)
    }
}

/// The first element of `s` whose tag is `tag`.
pub open spec fn first_with_tag<A>(s: Seq<MenuItem<A>>, tag: i32) -> Option<MenuItem<A>>
    decreases s.len(),
{
    if s.len() == 0 {
        None
    } else if s[0].tag == tag {
        Some(s[0])
    } else {
        first_with_tag(s.drop_first(), tag)
    }
}

/// Whether some item of `menu`'s tree has tag `tag`.
pub open spec fn menu_has_tag<A>(menu: Menu<A>, tag: i32) -> bool {
    exists|k: int| 0 <= k < menu_flatten(menu).len() && (#[trigger] menu_flatten(menu)[k]).tag == tag
}

/// Whether some item of the tree that `manager` holds has tag `tag`.
pub open spec fn manager_has_tag<A>(manager: MenuManager<A>, tag: i32) -> bool {
    match manager.current {
        Some(menu) => menu_has_tag(*menu, tag),
        None => false,
    }
}

proof fn lemma_first_with_tag_concat<A>(a: Seq<MenuItem<A>>, b: Seq<MenuItem<A>>, tag: i32)
    ensures
        first_with_tag(a + b, tag) == match first_with_tag(a, tag) {
            Some(x) => Some(x),
            None => first_with_tag(b, tag),
        },
    decreases a.len(),
{
    if a.len() > 0 {
        assert((a + b).drop_first() =~= a.drop_first() + b);
        lemma_first_with_tag_concat(a.drop_first(), b, tag);
    } else {
        assert(a + b =~= b);
    }
}

proof fn lemma_first_with_tag_is_first<A>(s: Seq<MenuItem<A>>, tag: i32)
    ensures
        match first_with_tag(s, tag) {
            Some(x) => exists|k: int|
                0 <= k < s.len() && #[trigger] s[k] == x && x.tag == tag && forall|j: int|
                    0 <= j < k ==> (#[trigger] s[j]).tag != tag,
            None => forall|k: int| 0 <= k < s.len() ==> (#[trigger] s[k]).tag != tag,
        },
    decreases s.len(),
{
    if s.len() > 0 {
        let t = s.drop_first();
        lemma_first_with_tag_is_first(t, tag);
        if s[0].tag != tag {
            match first_with_tag(t, tag) {
                Some(x) => {
                    let k = choose|k: int|
                        0 <= k < t.len() && #[trigger] t[k] == x && x.tag == tag && forall|j: int|
                            0 <= j < k ==> (#[trigger] t[j]).tag != tag;
                    assert(s[k + 1] == x);
                    assert forall|j: int| 0 <= j < k + 1 implies (#[trigger] s[j]).tag != tag by {
                        if j > 0 {
                            assert(s[j] == t[j - 1]);
                        }
                    }
                },
                None => {
                    assert forall|k: int| 0 <= k < s.len() implies (#[trigger] s[k]).tag != tag by {
                        if k > 0 {
                            assert(s[k] == t[k - 1]);
                        }
                    }
                },
            }
        }
    }
}

proof fn lemma_item_find_first<A>(item: MenuItem<A>, tag: i32)
    ensures
        item_find(item, tag) == first_with_tag(item_flatten(item), tag),
    decreases item, 0int,
{
    let rest = match item.submenu {
        Some(m) => menu_flatten(*m),
        None => Seq::<MenuItem<A>>::empty(),
    };
    let s = item_flatten(item);
    assert(s.drop_first() =~= rest);
    assert(s[0] == item);
    if item.tag != tag {
        assert(first_with_tag(s, tag) == first_with_tag(rest, tag));
        match item.submenu {
            Some(m) => lemma_menu_find_first(*m, tag),
            None => {
                assert(first_with_tag(rest, tag) is None);
            },
        }
    }
}

proof fn lemma_menu_find_first<A>(menu: Menu<A>, tag: i32)
    ensures
        menu_find(menu, tag) == first_with_tag(menu_flatten(menu), tag),
    decreases menu, 1int,
{
    lemma_items_find_first(menu.items@, 0, tag);
}

proof fn lemma_items_find_first<A>(items: Seq<Box<MenuItem<A>>>, i: int, tag: i32)
    ensures
        items_find(items, i, tag) == first_with_tag(items_flatten(items, i), tag),
    decreases items, items.len() - i,
{
    if 0 <= i < items.len() {
        lemma_item_find_first(*items[i], tag);
        lemma_items_find_first(items, i + 1, tag);
        lemma_first_with_tag_concat(item_flatten(*items[i]), items_flatten(items, i + 1), tag);
    }
}

/// Lookup by tag in a menu yields the first item, in insertion order and
/// depth-first through submenus, whose tag matches, and nothing when no item
/// of the tree has that tag.
pub proof fn lemma_lookup_first_match<A>(menu: Menu<A>, tag: i32)
    ensures
        match menu_find(menu, tag) {
            Some(x) => exists|k: int|
                0 <= k < menu_flatten(menu).len() && #[trigger] menu_flatten(menu)[k] == x && x.tag
                    == tag && forall|j: int|
                    0 <= j < k ==> (#[trigger] menu_flatten(menu)[j]).tag != tag,
            None => forall|k: int|
                0 <= k < menu_flatten(menu).len() ==> (#[trigger] menu_flatten(menu)[k]).tag != tag,
        },
        menu_find(menu, tag) is Some <==> menu_has_tag(menu, tag),
{
    lemma_menu_find_first(menu, tag);
    lemma_first_with_tag_is_first(menu_flatten(menu), tag);
}

/// Once `menu` is installed, lookups see `menu` alone: a tag that only the
/// tree installed before had is no longer found.
pub proof fn lemma_install_replaces<A>(
    before: MenuManager<A>,
    after: MenuManager<A>,
    menu: Box<Menu<A>>,
    tag: i32,
)
    requires
        after.current == Some(menu),
    ensures
        manager_find(after, tag) == menu_find(*menu, tag),
        manager_has_tag(before, tag) && !menu_has_tag(*menu, tag) ==> manager_find(after, tag) is None,
{
    lemma_lookup_first_match(*menu, tag);
}

/// The item that `manager` finds for `tag` in its current tree.
pub open spec fn manager_find<A>(manager: MenuManager<A>, tag: i32) -> Option<MenuItem<A>> {
    match manager.current {
        Some(menu) => menu_find(*menu, tag),
        None => None,
    }
}

/// `r` is the item `found`, returned by reference.
pub open spec fn found_as<A>(r: Option<&MenuItem<A>>, found: Option<MenuItem<A>>) -> bool {
    match r {
        Some(x) => found == Some(*x),
        None => found is None,
    }
}

impl<A> Menu<A> {
    /// An empty menu.
    pub fn new() -> (r: Box<Self>)
        ensures
            r.items@.len() == 0,
    {
        Box::new(Menu { items: Vec::new() })
    }

    /// Appends `menu_item` after the items already present.
    pub fn add_menu_item(&mut self, menu_item: Box<MenuItem<A>>)
        ensures
            final(self).items@ == old(self).items@.push(menu_item),
    {
        self.items.push(menu_item);
    }

    /// The first item, in insertion order and depth-first through submenus,
    /// whose tag is `tag`. With duplicated tags the earliest wins.
    pub fn get_from_tag(&self, tag: i32) -> (r: Option<&MenuItem<A>>)
        ensures
            found_as(r, menu_find(*self, tag)),
        decreases self, 1int,
    {
        let mut i: usize = 0;
        while i < self.items.len()
            invariant
                0 <= i <= self.items@.len(),
                items_find(self.items@, 0, tag) == items_find(self.items@, i as int, tag),
            decreases self.items@.len() - i,
        {
            assert(decreases_to!(self => self.items@[i as int]));
            let found = self.items[i].get_from_tag(tag);
            if found.is_some() {
                return found;
            }
            i = i + 1;
        }
        None
    }
}

impl<A> MenuItem<A> {
    /// A menu item with no submenu.
    pub fn new(title: &str, modifier: Modifier, shortcut: &str, callback: A, index: i32) -> (r: Box<
        Self,
    >)
        ensures
            r.title@ == title@,
            r.key@ == shortcut@,
            r.modifier == modifier,
            r.callback == callback,
            r.submenu is None,
            r.tag == index,
    {
        Box::new(
            MenuItem {
                title: title.to_owned(),
                key: shortcut.to_owned(),
                modifier,
                callback,
                submenu: None,
                tag: index,
            },
        )
    }

    /// Gives this item `submenu`. A submenu set before is replaced and
    /// dropped, with its items and their actions.
    pub fn set_submenu(&mut self, submenu: Box<Menu<A>>)
        ensures
            final(self).submenu == Some(submenu),
            final(self).title == old(self).title,
            final(self).key == old(self).key,
            final(self).modifier == old(self).modifier,
            final(self).callback == old(self).callback,
            final(self).tag == old(self).tag,
    {
        self.submenu = Some(submenu);
    }

    /// The accelerator mask applied to the native item: the modifier's bits
    /// when it holds a named key, or nothing when it is the "none" sentinel,
    /// in which case the toolkit's default stays.
    pub fn accelerator_mask(&self) -> (r: Option<u32>)
        ensures
            r == (if self.modifier.has_named_key() {
                Some(self.modifier.spec_bits())
            } else {
                None
            }),
            r is None <==> self.modifier.spec_bits() == NONE_BITS,
    {
        if self.modifier.is_none() {
            None
        } else {
            Some(self.modifier.bits())
        }
    }

    /// This item if its tag is `tag`, else the first match in its submenu.
    pub fn get_from_tag(&self, tag: i32) -> (r: Option<&MenuItem<A>>)
        ensures
            found_as(r, item_find(*self, tag)),
        decreases self, 0int,
    {
        if self.tag == tag {
            return Some(self);
        }
        match &self.submenu {
            Some(submenu) => submenu.get_from_tag(tag),
            None => None,
        }
    }
}

impl<A> MenuManager<A> {
    /// A manager with no menu installed.
    pub fn new() -> (r: Self)
        ensures
            r.current is None,
    {
        MenuManager { current: None }
    }

    /// Installs `menu` as the current tree; the tree installed before is
    /// dropped.
    pub fn set_current(&mut self, menu: Box<Menu<A>>)
        ensures
            final(self).current == Some(menu),
    {
        self.current = Some(menu);
    }

    /// The first item of the current tree whose tag is `tag`, if a tree is
    /// installed.
    pub fn get_from_tag(&self, tag: i32) -> (r: Option<&MenuItem<A>>)
        ensures
            found_as(r, manager_find(*self, tag)),
    {
        match &self.current {
            Some(menu) => menu.get_from_tag(tag),
            None => None,
        }
    }
}

/// Resolves an activation of the item tagged `tag` to the one action to run:
/// that of the first item of the current tree with this tag, or none at all
/// when no item has it.
pub fn dispatch_event<A>(manager: &MenuManager<A>, tag: i32) -> (r: Option<&A>)
    ensures
        match manager_find(*manager, tag) {
            Some(item) => r is Some && *r.unwrap() == item.callback && item.tag == tag,
            None => r is None,
        },
        r is Some <==> manager_has_tag(*manager, tag),
{
    proof {
        if manager.current is Some {
            lemma_lookup_first_match(*manager.current.unwrap(), tag);
        }
    }
    match manager.get_from_tag(tag) {
        Some(item) => Some(&item.callback),
        None => None,
    }
}

/// Builds the application's menu bar: one item with an empty title, tag 0
/// and action `bar`, whose submenu holds "Quit" (Command+Q, tag 1, action
/// `quit`) and then "Test" (Command+Shift+T, tag 2, action `test`).
pub fn build_menu_bar<A>(quit: A, test: A, bar: A) -> (r: Box<Menu<A>>)
    ensures
        r.items@.len() == 1,
        r.items@[0].title@ == ""@,
        r.items@[0].key@ == ""@,
        r.items@[0].modifier.spec_bits() == NONE_BITS,
        r.items@[0].tag == 0,
        r.items@[0].callback == bar,
        r.items@[0].submenu is Some,
        ({
            let app = *r.items@[0].submenu.unwrap();
            &&& app.items@.len() == 2
            &&& app.items@[0].title@ == "Quit"@
            &&& app.items@[0].key@ == "q"@
            &&& app.items@[0].modifier.spec_bits() == COMMAND_BITS
            &&& app.items@[0].tag == 1
            &&& app.items@[0].callback == quit
            &&& app.items@[0].submenu is None
            &&& app.items@[1].title@ == "Test"@
            &&& app.items@[1].key@ == "t"@
            &&& app.items@[1].modifier.spec_bits() == COMMAND_BITS | SHIFT_BITS
            &&& app.items@[1].tag == 2
            &&& app.items@[1].callback == test
            &&& app.items@[1].submenu is None
        }),
{
    let mut app_menu = Menu::new();
    let quit_item = MenuItem::new("Quit", Modifier::command(), "q", quit, 1);
    app_menu.add_menu_item(quit_item);
    let test_item = MenuItem::new("Test", Modifier::command().union(Modifier::shift()), "t", test, 2);
    app_menu.add_menu_item(test_item);
    let mut menu_bar = Menu::new();
    let mut bar_item = MenuItem::new("", Modifier::none(), "", bar, 0);
    bar_item.set_submenu(app_menu);
    menu_bar.add_menu_item(bar_item);
    menu_bar
}

} // verus!

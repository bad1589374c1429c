use vstd::prelude::*;

verus! {

/// Next cursor position in a list of `len` entries, wrapping to the front.
pub open spec fn wrap_next(i: usize, len: nat) -> usize {
    if i + 1 >= len {
        0
    } else {
        (i + 1) as usize
    }
}

/// Previous cursor position in a list of `len` entries, wrapping to the back.
pub open spec fn wrap_prev(i: usize, len: nat) -> usize {
    if i == 0 {
        (len - 1) as usize
    } else {
        (i - 1) as usize
    }
}

/// The top-level menu categories.
#[derive(Debug, Clone, Copy, PartialEq, Eq, Structural)]
pub enum MainMenuItem {
    Network,
    Dex,
    Cex,
    Wallets,
}

impl MainMenuItem {
    pub open spec fn spec_label(self) -> Seq<char> {
        match self {
            MainMenuItem::Network => "🌐 Network"@,
            MainMenuItem::Dex => "📊 Dex"@,
            MainMenuItem::Cex => "📦 Cex"@,
            MainMenuItem::Wallets => "👛 Wallets"@,
        }
    }

    /// The label shown for the category in the left menu.
    pub fn as_str(&self) -> (r: &'static str)
        ensures
            r@ == self.spec_label(),
    {
        match self {
            MainMenuItem::Dex => "📊 Dex",
            MainMenuItem::Cex => "📦 Cex",
            MainMenuItem::Network => "🌐 Network",
            MainMenuItem::Wallets => "👛 Wallets",
        }
    }

    /// Every category, in display order.
    pub fn all() -> (r: Vec<MainMenuItem>)
        ensures
            r@ == seq![
                MainMenuItem::Network,
                MainMenuItem::Dex,
                MainMenuItem::Cex,
                MainMenuItem::Wallets,
            ],
    {
        let mut r: Vec<MainMenuItem> = Vec::new();
        r.push(MainMenuItem::Network);
        r.push(MainMenuItem::Dex);
        r.push(MainMenuItem::Cex);
        r.push(MainMenuItem::Wallets);
        assert(r@ =~= seq![
            MainMenuItem::Network,
            MainMenuItem::Dex,
            MainMenuItem::Cex,
            MainMenuItem::Wallets,
        ]);
        r
    }
}

/// A leaf entry under a category; its name is what the menu displays.
#[derive(Debug, Clone)]
pub struct SubMenuItem {
    pub name: String,
}

impl View for SubMenuItem {
    type V = Seq<char>;

    open spec fn view(&self) -> Seq<char> {
        self.name@
    }
}

impl SubMenuItem {
    pub fn new(name: &str) -> (r: Self)
        ensures
            r@ == name@,
    {
        SubMenuItem { name: name.to_owned() }
    }
}

impl PartialEq for SubMenuItem {
    fn eq(&self, other: &SubMenuItem) -> (r: bool)
        ensures
            r == (self@ == other@),
    {
        self.name == other.name
    }
}

impl vstd::std_specs::cmp::PartialEqSpecImpl for SubMenuItem {
    open spec fn obeys_eq_spec() -> bool {
        true
    }

    open spec fn eq_spec(&self, other: &SubMenuItem) -> bool {
        self@ == other@
    }
}

/// Which level of the menu the cursor keys move through.
#[derive(Debug, Clone, Copy, PartialEq, Eq, Structural)]
pub enum MenuFocusArea {
    /// The cursor moves across categories.
    MainMenu,
    /// The cursor moves across the sub-items of the category at this index.
    SubMenu(usize),
}

/// The leaf that the content area renders, chosen by committing a sub-item.
#[derive(Debug, Clone, Copy, PartialEq, Eq, Structural)]
pub enum SubMenuTypeEnum {
    Ethereum,
    Solana,
    Bsc,
    Base,
    Aptos,
    Sui,
    HyperEvm,
    Uniswap,
    Pancakeswap,
    Raydium,
    Orca,
    Binance,
    Coinbase,
    Bybit,
    Bitget,
    Kraken,
    Okx,
}

/// The number of leaves.
pub const LEAF_COUNT: usize = 17;

impl SubMenuTypeEnum {
    pub open spec fn spec_index(self) -> usize {
        match self {
            SubMenuTypeEnum::Ethereum => 0,
            SubMenuTypeEnum::Solana => 1,
            SubMenuTypeEnum::Bsc => 2,
            SubMenuTypeEnum::Base => 3,
            SubMenuTypeEnum::Aptos => 4,
            SubMenuTypeEnum::Sui => 5,
            SubMenuTypeEnum::HyperEvm => 6,
            SubMenuTypeEnum::Uniswap => 7,
            SubMenuTypeEnum::Pancakeswap => 8,
            SubMenuTypeEnum::Raydium => 9,
            SubMenuTypeEnum::Orca => 10,
            SubMenuTypeEnum::Binance => 11,
            SubMenuTypeEnum::Coinbase => 12,
            SubMenuTypeEnum::Bybit => 13,
            SubMenuTypeEnum::Bitget => 14,
            SubMenuTypeEnum::Kraken => 15,
            SubMenuTypeEnum::Okx => 16,
        }
    }

    /// Position of the leaf in a table with one entry per leaf.
    pub fn index(&self) -> (r: usize)
        ensures
            r == self.spec_index(),
            r < LEAF_COUNT,
    {
        match self {
            SubMenuTypeEnum::Ethereum => 0,
            SubMenuTypeEnum::Solana => 1,
            SubMenuTypeEnum::Bsc => 2,
            SubMenuTypeEnum::Base => 3,
            SubMenuTypeEnum::Aptos => 4,
            SubMenuTypeEnum::Sui => 5,
            SubMenuTypeEnum::HyperEvm => 6,
            SubMenuTypeEnum::Uniswap => 7,
            SubMenuTypeEnum::Pancakeswap => 8,
            SubMenuTypeEnum::Raydium => 9,
            SubMenuTypeEnum::Orca => 10,
            SubMenuTypeEnum::Binance => 11,
            SubMenuTypeEnum::Coinbase => 12,
            SubMenuTypeEnum::Bybit => 13,
            SubMenuTypeEnum::Bitget => 14,
            SubMenuTypeEnum::Kraken => 15,
            SubMenuTypeEnum::Okx => 16,
        }
    }

    /// How many content panes the leaf's page has beyond the first one.
    pub open spec fn spec_max_panes(self) -> usize {
        match self {
            SubMenuTypeEnum::Ethereum => 3,
            SubMenuTypeEnum::Solana => 5,
            SubMenuTypeEnum::Bsc => 4,
            _ => 2,
        }
    }

    pub fn max_panes(&self) -> (r: usize)
        ensures
            r == self.spec_max_panes(),
    {
        match self {
            SubMenuTypeEnum::Ethereum => 3,
            SubMenuTypeEnum::Solana => 5,
            SubMenuTypeEnum::Bsc => 4,
            _ => 2,
        }
    }

    /// How many tabs the leaf's page defines; zero where it has none.
    pub open spec fn spec_tab_count(self) -> usize {
        match self {
            SubMenuTypeEnum::Ethereum => 5,
            SubMenuTypeEnum::Solana => 4,
            SubMenuTypeEnum::Bsc => 4,
            SubMenuTypeEnum::Base => 4,
            SubMenuTypeEnum::Aptos => 4,
            SubMenuTypeEnum::Sui => 4,
            SubMenuTypeEnum::HyperEvm => 4,
            _ => 0,
        }
    }

    pub fn tab_count(&self) -> (r: usize)
        ensures
            r == self.spec_tab_count(),
    {
        match self {
            SubMenuTypeEnum::Ethereum => 5,
            SubMenuTypeEnum::Solana => 4,
            SubMenuTypeEnum::Bsc => 4,
            SubMenuTypeEnum::Base => 4,
            SubMenuTypeEnum::Aptos => 4,
            SubMenuTypeEnum::Sui => 4,
            SubMenuTypeEnum::HyperEvm => 4,
            _ => 0,
        }
    }
}

/// The fixed table from a category and a sub-item position to the leaf it
/// selects; `None` where the table has no entry.
pub open spec fn leaf_of(main: MainMenuItem, index: usize) -> Option<SubMenuTypeEnum> {
    match main {
        MainMenuItem::Network => {
            if index == 0 {
                Some(SubMenuTypeEnum::Ethereum)
            } else if index == 1 {
                Some(SubMenuTypeEnum::Solana)
            } else if index == 2 {
                Some(SubMenuTypeEnum::Bsc)
            } else if index == 3 {
                Some(SubMenuTypeEnum::Base)
            } else if index == 4 {
                Some(SubMenuTypeEnum::Aptos)
            } else if index == 5 {
                Some(SubMenuTypeEnum::Sui)
            } else if index == 6 {
                Some(SubMenuTypeEnum::HyperEvm)
            } else {
                None
            }
        },
        MainMenuItem::Dex => {
            if index == 0 {
                Some(SubMenuTypeEnum::Uniswap)
            } else if index == 1 {
                Some(SubMenuTypeEnum::Pancakeswap)
            } else if index == 2 {
                Some(SubMenuTypeEnum::Raydium)
            } else if index == 3 {
                Some(SubMenuTypeEnum::Orca)
            } else {
                None
            }
        },
        MainMenuItem::Cex => {
            if index == 0 {
                Some(SubMenuTypeEnum::Binance)
            } else if index == 1 {
                Some(SubMenuTypeEnum::Coinbase)
            } else if index == 2 {
                Some(SubMenuTypeEnum::Bybit)
            } else if index == 3 {
                Some(SubMenuTypeEnum::Bitget)
            } else if index == 4 {
                Some(SubMenuTypeEnum::Kraken)
            } else if index == 5 {
                Some(SubMenuTypeEnum::Okx)
            } else {
                None
            }
        },
        MainMenuItem::Wallets => None,
    }
}

/// Looks up the leaf selected by sub-item `index` of category `main`.
pub fn resolve_leaf(main: MainMenuItem, index: usize) -> (r: Option<SubMenuTypeEnum>)
    ensures
        r == leaf_of(main, index),
{
    match (main, index) {
        (MainMenuItem::Network, 0) => Some(SubMenuTypeEnum::Ethereum),
        (MainMenuItem::Network, 1) => Some(SubMenuTypeEnum::Solana),
        (MainMenuItem::Network, 2) => Some(SubMenuTypeEnum::Bsc),
        (MainMenuItem::Network, 3) => Some(SubMenuTypeEnum::Base),
        (MainMenuItem::Network, 4) => Some(SubMenuTypeEnum::Aptos),
        (MainMenuItem::Network, 5) => Some(SubMenuTypeEnum::Sui),
        (MainMenuItem::Network, 6) => Some(SubMenuTypeEnum::HyperEvm),
        (MainMenuItem::Dex, 0) => Some(SubMenuTypeEnum::Uniswap),
        (MainMenuItem::Dex, 1) => Some(SubMenuTypeEnum::Pancakeswap),
        (MainMenuItem::Dex, 2) => Some(SubMenuTypeEnum::Raydium),
        (MainMenuItem::Dex, 3) => Some(SubMenuTypeEnum::Orca),
        (MainMenuItem::Cex, 0) => Some(SubMenuTypeEnum::Binance),
        (MainMenuItem::Cex, 1) => Some(SubMenuTypeEnum::Coinbase),
        (MainMenuItem::Cex, 2) => Some(SubMenuTypeEnum::Bybit),
        (MainMenuItem::Cex, 3) => Some(SubMenuTypeEnum::Bitget),
        (MainMenuItem::Cex, 4) => Some(SubMenuTypeEnum::Kraken),
        (MainMenuItem::Cex, 5) => Some(SubMenuTypeEnum::Okx),
        _ => None,
    }
}

/// Abstract state of one category: its kind, the names of its sub-items,
/// whether it is unfolded, and the sub-item cursor.
pub struct MenuItemModel {
    pub main: MainMenuItem,
    pub subs: Seq<Seq<char>>,
    pub expanded: bool,
    pub cursor: Option<usize>,
}

impl MenuItemModel {
    /// The sub-item cursor is absent or addresses a sub-item.
    pub open spec fn wf(self) -> bool {
        self.cursor matches Some(c) ==> c < self.subs.len()
    }

    pub open spec fn next_sub(self) -> MenuItemModel {
        if self.subs.len() == 0 {
            self
        } else {
            let c = match self.cursor {
                Some(i) => wrap_next(i, self.subs.len()),
                None => 0,
            };
            MenuItemModel { cursor: Some(c), ..self }
        }
    }

    pub open spec fn prev_sub(self) -> MenuItemModel {
        if self.subs.len() == 0 {
            self
        } else {
            let c = match self.cursor {
                Some(i) => wrap_prev(i, self.subs.len()),
                None => 0,
            };
            MenuItemModel { cursor: Some(c), ..self }
        }
    }

    /// A folded category whose cursor starts on the first sub-item, if any.
    pub open spec fn initial(main: MainMenuItem, subs: Seq<Seq<char>>) -> MenuItemModel {
        MenuItemModel {
            main,
            subs,
            expanded: false,
            cursor: if subs.len() > 0 {
                Some(0)
            } else {
                None
            },
        }
    }
}

/// A category of the menu with its sub-items.
#[derive(Debug, Clone)]
pub struct MenuItem {
    pub main: MainMenuItem,
    pub sub_items: Vec<SubMenuItem>,
    pub expanded: bool,
    pub sub_menu_state: Option<usize>,
}

impl View for MenuItem {
    type V = MenuItemModel;

    open spec fn view(&self) -> MenuItemModel {
        MenuItemModel {
            main: self.main,
            subs: self.sub_items@.map_values(|s: SubMenuItem| s@),
            expanded: self.expanded,
            cursor: self.sub_menu_state,
        }
    }
}

impl MenuItem {
    pub fn new(main: MainMenuItem, sub_items: Vec<SubMenuItem>) -> (r: Self)
        ensures
            r@ == MenuItemModel::initial(main, sub_items@.map_values(|s: SubMenuItem| s@)),
            r.sub_items@ == sub_items@,
    {
        let sub_menu_state = if sub_items.len() > 0 {
            Some(0)
        } else {
            None
        };
        MenuItem { main, sub_items, expanded: false, sub_menu_state }
    }

    /// Moves the sub-item cursor forward, wrapping to the first; does
    /// nothing when the category has no sub-items.
    pub fn next_sub_menu(&mut self)
        ensures
            final(self)@ == old(self)@.next_sub(),
            final(self).sub_items == old(self).sub_items,
    {
        let item_count = self.sub_items.len();
        if item_count == 0 {
            return ;
        }
        let i = match self.sub_menu_state {
            Some(i) => {
                if i >= item_count - 1 {
                    0
                } else {
                    i + 1
                }
            },
            None => 0,
        };
        self.sub_menu_state = Some(i);
    }

    /// Moves the sub-item cursor back, wrapping to the last; does nothing
    /// when the category has no sub-items.
    pub fn previous_sub_menu(&mut self)
        ensures
            final(self)@ == old(self)@.prev_sub(),
            final(self).sub_items == old(self).sub_items,
    {
        let item_count = self.sub_items.len();
        if item_count == 0 {
            return ;
        }
        let i = match self.sub_menu_state {
            Some(i) => {
                if i == 0 {
                    item_count - 1
                } else {
                    i - 1
                }
            },
            None => 0,
        };
        self.sub_menu_state = Some(i);
    }

    /// The sub-item under the cursor, if the cursor addresses one.
    pub fn current_sub_menu(&self) -> (r: Option<&SubMenuItem>)
        ensures
            r.is_some() == (self.sub_menu_state matches Some(i) && i < self.sub_items@.len()),
            r matches Some(s) ==> *s == self.sub_items@[self.sub_menu_state.unwrap() as int],
    {
        match self.sub_menu_state {
            Some(i) => {
                if i < self.sub_items.len() {
                    Some(&self.sub_items[i])
                } else {
                    None
                }
            },
            None => None,
        }
    }
}

/// Abstract state of the whole menu.
pub struct MenuModel {
    pub items: Seq<MenuItemModel>,
    pub current_main: MainMenuItem,
    pub selection: Option<usize>,
    pub focus: MenuFocusArea,
    pub current_item: SubMenuTypeEnum,
}

impl MenuModel {
    /// The categories fit in memory, the category cursor is absent or
    /// addresses a category whose kind is the current one, every sub-item cursor is valid, and a sub-menu focus
    /// addresses a category.
    pub open spec fn wf(self) -> bool {
        &&& self.items.len() <= usize::MAX
        &&& self.selection matches Some(i) ==> i < self.items.len() && self.current_main
            == self.items[i as int].main
        &&& forall|k: int| 0 <= k < self.items.len() ==> (#[trigger] self.items[k]).wf()
        &&& self.focus matches MenuFocusArea::SubMenu(i) ==> i < self.items.len()
    }

    /// Category cursor forward with wraparound; the current category follows.
    pub open spec fn next_main(self) -> MenuModel {
        let len = self.items.len();
        if len == 0 {
            self
        } else {
            let i = match self.selection {
                Some(i) => wrap_next(i, len),
                None => 0,
            };
            MenuModel { selection: Some(i), current_main: self.items[i as int].main, ..self }
        }
    }

    /// Category cursor back with wraparound; the current category follows.
    pub open spec fn prev_main(self) -> MenuModel {
        let len = self.items.len();
        if len == 0 {
            self
        } else {
            let i = match self.selection {
                Some(i) => wrap_prev(i, len),
                None => 0,
            };
            MenuModel {
                selection: Some(i),
                current_main: if i < len {
                    self.items[i as int].main
                } else {
                    self.current_main
                },
                ..self
            }
        }
    }

    /// Sub-item cursor forward within the focused category, if any.
    pub open spec fn next_sub(self) -> MenuModel {
        match self.focus {
            MenuFocusArea::SubMenu(i) => if i < self.items.len() {
                MenuModel { items: self.items.update(i as int, self.items[i as int].next_sub()), ..self }
            } else {
                self
            },
            MenuFocusArea::MainMenu => self,
        }
    }

    /// Sub-item cursor back within the focused category, if any.
    pub open spec fn prev_sub(self) -> MenuModel {
        match self.focus {
            MenuFocusArea::SubMenu(i) => if i < self.items.len() {
                MenuModel { items: self.items.update(i as int, self.items[i as int].prev_sub()), ..self }
            } else {
                self
            },
            MenuFocusArea::MainMenu => self,
        }
    }

    pub open spec fn set_expanded(self, i: usize, expanded: bool) -> Seq<MenuItemModel> {
        self.items.update(i as int, MenuItemModel { expanded, ..self.items[i as int] })
    }

    /// Unfolds the selected category and moves the focus into it.
    pub open spec fn expand(self) -> MenuModel {
        match self.selection {
            Some(i) => if i < self.items.len() {
                MenuModel {
                    items: self.set_expanded(i, true),
                    focus: MenuFocusArea::SubMenu(i),
                    ..self
                }
            } else {
                self
            },
            None => self,
        }
    }

    /// Folds the focused category and returns to the categories; on the
    /// categories it moves to the previous one.
    pub open spec fn collapse(self) -> MenuModel {
        match self.focus {
            MenuFocusArea::SubMenu(i) => if i < self.items.len() {
                MenuModel {
                    items: self.set_expanded(i, false),
                    focus: MenuFocusArea::MainMenu,
                    ..self
                }
            } else {
                self
            },
            MenuFocusArea::MainMenu => self.prev_main(),
        }
    }

    /// The leaf that committing in the current sub-menu selects, if the
    /// focus, the cursor and the table all give one.
    pub open spec fn committed_leaf(self) -> Option<SubMenuTypeEnum> {
        match self.focus {
            MenuFocusArea::SubMenu(i) => if i < self.items.len() {
                let item = self.items[i as int];
                match item.cursor {
                    Some(s) => if s < item.subs.len() {
                        leaf_of(item.main, s)
                    } else {
                        None
                    },
                    None => None,
                }
            } else {
                None
            },
            MenuFocusArea::MainMenu => None,
        }
    }

    /// Publishes the committed leaf; without one the selection is unchanged.
    pub open spec fn commit(self) -> MenuModel {
        match self.committed_leaf() {
            Some(leaf) => MenuModel { current_item: leaf, ..self },
            None => self,
        }
    }
}

/// `k` successive forward moves of the category cursor.
pub open spec fn next_main_times(m: MenuModel, k: nat) -> MenuModel
    decreases k,
{
    if k == 0 {
        m
    } else {
        next_main_times(m, (k - 1) as nat).next_main()
    }
}

proof fn lemma_next_main_times(m: MenuModel, k: nat)
    requires
        m.wf(),
        m.items.len() > 0,
        m.selection is Some,
    ensures
        ({
            let len = m.items.len() as int;
            let j = (m.selection.unwrap() + k) % len;
            let r = next_main_times(m, k);
            &&& r == MenuModel { selection: Some(j as usize), current_main: m.items[j].main, ..m }
        }),
    decreases k,
{
    let len = m.items.len() as int;
    let i = m.selection.unwrap() as int;
    if k == 0 {
        vstd::arithmetic::div_mod::lemma_small_mod(i as nat, len as nat);
    } else {
        lemma_next_main_times(m, (k - 1) as nat);
        let j0 = (i + k - 1) % len;
        let j = (i + k) % len;
        vstd::arithmetic::div_mod::lemma_add_mod_noop(i + k - 1, 1, len);
        vstd::arithmetic::div_mod::lemma_mod_bound(i + k - 1, len);
        if len == 1 {
            vstd::arithmetic::div_mod::lemma_mod_self_0(1);
        } else {
            vstd::arithmetic::div_mod::lemma_small_mod(1, len as nat);
            if j0 + 1 < len {
                vstd::arithmetic::div_mod::lemma_small_mod((j0 + 1) as nat, len as nat);
            } else {
                vstd::arithmetic::div_mod::lemma_mod_self_0(len);
            }
        }
        assert(wrap_next(j0 as usize, len as nat) == j);
    }
}

/// Moving the category cursor forward once per category brings the menu
/// back to the state it started in.
pub proof fn lemma_next_category_cycle(m: MenuModel)
    requires
        m.wf(),
        m.items.len() > 0,
        m.selection is Some,
    ensures
        next_main_times(m, m.items.len()) == m,
{
    let len = m.items.len() as int;
    let i = m.selection.unwrap() as int;
    lemma_next_main_times(m, m.items.len());
    vstd::arithmetic::div_mod::lemma_mod_add_multiples_vanish(i, len);
    vstd::arithmetic::div_mod::lemma_small_mod(i as nat, len as nat);
}

/// In a focused category without sub-items, moving the sub-item cursor
/// either way changes nothing.
pub proof fn lemma_empty_category_cursor(m: MenuModel)
    requires
        m.focus matches MenuFocusArea::SubMenu(i) && i < m.items.len() && m.items[i as int].subs.len()
            == 0,
    ensures
        m.next_sub() == m,
        m.prev_sub() == m,
{
    let i = m.focus->SubMenu_0;
    assert(m.items.update(i as int, m.items[i as int]) =~= m.items);
}

/// From the categories, unfolding the selected category focuses its
/// sub-items and marks it unfolded; folding it again returns the focus to
/// the categories and marks it folded, with nothing else changed.
pub proof fn lemma_expand_collapse(m: MenuModel)
    requires
        m.wf(),
        m.focus == MenuFocusArea::MainMenu,
        m.selection is Some,
    ensures
        ({
            let i = m.selection.unwrap();
            let e = m.expand();
            let c = e.collapse();
            &&& e.focus == MenuFocusArea::SubMenu(i)
            &&& e.items[i as int].expanded
            &&& c.focus == MenuFocusArea::MainMenu
            &&& !c.items[i as int].expanded
            &&& c == MenuModel { items: m.set_expanded(i, false), ..m }
        }),
{
    let i = m.selection.unwrap();
    assert(m.expand().set_expanded(i, false) =~= m.set_expanded(i, false));
}

pub open spec fn network_names() -> Seq<Seq<char>> {
    seq!["Ethereum"@, "Solana"@, "Bsc"@, "Base"@, "Aptos"@, "Sui"@, "HyperEvm"@]
}

pub open spec fn dex_names() -> Seq<Seq<char>> {
    seq!["Uniswap"@, "Pancakeswap"@, "Raydium"@, "Orca"@]
}

pub open spec fn cex_names() -> Seq<Seq<char>> {
    seq!["Binance"@, "Coinbase"@, "Bybite"@, "Bitget"@, "Kraken"@, "Okx"@]
}

pub open spec fn wallet_names() -> Seq<Seq<char>> {
    seq!["Info"@, "Analysis"@, "Risk Manage"@]
}

/// The menu at start-up: four folded categories, the cursor and the focus on
/// the first one, and Ethereum as the selected leaf.
pub open spec fn initial_menu() -> MenuModel {
    MenuModel {
        items: seq![
            MenuItemModel::initial(MainMenuItem::Network, network_names()),
            MenuItemModel::initial(MainMenuItem::Dex, dex_names()),
            MenuItemModel::initial(MainMenuItem::Cex, cex_names()),
            MenuItemModel::initial(MainMenuItem::Wallets, wallet_names()),
        ],
        current_main: MainMenuItem::Network,
        selection: Some(0),
        focus: MenuFocusArea::MainMenu,
        current_item: SubMenuTypeEnum::Ethereum,
    }
}

pub open spec fn names_of(v: Seq<SubMenuItem>) -> Seq<Seq<char>> {
    v.map_values(|s: SubMenuItem| s@)
}

fn network_sub_items() -> (r: Vec<SubMenuItem>)
    ensures
        names_of(r@) == network_names(),
{
    let mut r: Vec<SubMenuItem> = Vec::new();
    r.push(SubMenuItem::new("Ethereum"));
    r.push(SubMenuItem::new("Solana"));
    r.push(SubMenuItem::new("Bsc"));
    r.push(SubMenuItem::new("Base"));
    r.push(SubMenuItem::new("Aptos"));
    r.push(SubMenuItem::new("Sui"));
    r.push(SubMenuItem::new("HyperEvm"));
    assert(names_of(r@) =~= network_names());
    r
}

fn dex_sub_items() -> (r: Vec<SubMenuItem>)
    ensures
        names_of(r@) == dex_names(),
{
    let mut r: Vec<SubMenuItem> = Vec::new();
    r.push(SubMenuItem::new("Uniswap"));
    r.push(SubMenuItem::new("Pancakeswap"));
    r.push(SubMenuItem::new("Raydium"));
    r.push(SubMenuItem::new("Orca"));
    assert(names_of(r@) =~= dex_names());
    r
}

fn cex_sub_items() -> (r: Vec<SubMenuItem>)
    ensures
        names_of(r@) == cex_names(),
{
    let mut r: Vec<SubMenuItem> = Vec::new();
    r.push(SubMenuItem::new("Binance"));
    r.push(SubMenuItem::new("Coinbase"));
    r.push(SubMenuItem::new("Bybite"));
    r.push(SubMenuItem::new("Bitget"));
    r.push(SubMenuItem::new("Kraken"));
    r.push(SubMenuItem::new("Okx"));
    assert(names_of(r@) =~= cex_names());
    r
}

fn wallet_sub_items() -> (r: Vec<SubMenuItem>)
    ensures
        names_of(r@) == wallet_names(),
{
    let mut r: Vec<SubMenuItem> = Vec::new();
    r.push(SubMenuItem::new("Info"));
    r.push(SubMenuItem::new("Analysis"));
    r.push(SubMenuItem::new("Risk Manage"));
    assert(names_of(r@) =~= wallet_names());
    r
}

/// The menu: its categories, the category cursor, the level that has the
/// focus, and the leaf last committed.
#[derive(Debug, Clone)]
pub struct Menu {
    pub menu_items: Vec<MenuItem>,
    pub current_main_menu: MainMenuItem,
    pub main_menu_selection: Option<usize>,
    pub focus: MenuFocusArea,
    pub current_menu_item: SubMenuTypeEnum,
}

impl View for Menu {
    type V = MenuModel;

    open spec fn view(&self) -> MenuModel {
        MenuModel {
            items: self.menu_items@.map_values(|m: MenuItem| m@),
            current_main: self.current_main_menu,
            selection: self.main_menu_selection,
            focus: self.focus,
            current_item: self.current_menu_item,
        }
    }
}

impl Menu {
    pub fn new() -> (r: Self)
        ensures
            r@ == initial_menu(),
            r@.wf(),
    {
        let mut menu_items: Vec<MenuItem> = Vec::new();
        menu_items.push(MenuItem::new(MainMenuItem::Network, network_sub_items()));
        menu_items.push(MenuItem::new(MainMenuItem::Dex, dex_sub_items()));
        menu_items.push(MenuItem::new(MainMenuItem::Cex, cex_sub_items()));
        menu_items.push(MenuItem::new(MainMenuItem::Wallets, wallet_sub_items()));
        let r = Menu {
            menu_items,
            current_main_menu: MainMenuItem::Network,
            main_menu_selection: Some(0),
            focus: MenuFocusArea::MainMenu,
            current_menu_item: SubMenuTypeEnum::Ethereum,
        };
        assert(r@.items =~= initial_menu().items);
        r
    }
}

} // verus!

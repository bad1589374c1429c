use vstd::prelude::*;
use crate::menu::{initial_menu, LEAF_COUNT, Menu, MenuFocusArea, MenuModel, SubMenuTypeEnum};
use crate::i18n::I18N;
use crate::pages::EthereumPageTabEnum;

verus! {

/// No leaf defines more tabs than this.
pub const MAX_TABS: usize = 5;

/// The screen region that receives key input.
#[derive(Debug, Clone, Copy, PartialEq, Eq, Structural)]
pub enum AreaFocusEnum {
    LeftMenu,
    ContentArea(usize),
    Search,
    /// No region has the focus.
    Unfocused,
}

/// Abstract state of the application: the menu, the region with the focus,
/// the quit and search flags, the active tab of each leaf, and the
/// interface language.
pub struct AppModel {
    pub menu: MenuModel,
    pub focus: AreaFocusEnum,
    pub quit: bool,
    pub search_mode: bool,
    pub tabs: Seq<usize>,
    pub lang: I18N,
}

impl AppModel {
    /// The menu is well formed, there is one tab entry per leaf and each
    /// is below the largest tab count, and a content focus addresses a pane
    /// of the current leaf.
    pub open spec fn wf(self) -> bool {
        &&& self.menu.wf()
        &&& self.tabs.len() == LEAF_COUNT
        &&& forall|k: int| 0 <= k < self.tabs.len() ==> #[trigger] self.tabs[k] < MAX_TABS
        &&& self.focus matches AreaFocusEnum::ContentArea(p) ==> p
            <= self.menu.current_item.spec_max_panes()
    }

    pub open spec fn with_menu(self, menu: MenuModel) -> AppModel {
        AppModel { menu, ..self }
    }

    /// Commits the sub-item under the cursor and hands the focus to the
    /// first content pane; on the categories it unfolds the current one.
    pub open spec fn commit(self) -> AppModel {
        match self.menu.focus {
            MenuFocusArea::SubMenu(_) => AppModel {
                focus: AreaFocusEnum::ContentArea(0),
                menu: self.menu.commit(),
                ..self
            },
            MenuFocusArea::MainMenu => self.with_menu(self.menu.expand()),
        }
    }

    /// Makes `tab` the active tab of the current leaf, where the leaf
    /// defines such a tab and the tab table has an entry for it.
    pub open spec fn select_tab(self, tab: usize) -> AppModel {
        let leaf = self.menu.current_item;
        if tab < leaf.spec_tab_count() && leaf.spec_index() < self.tabs.len() {
            AppModel { tabs: self.tabs.update(leaf.spec_index() as int, tab), ..self }
        } else {
            self
        }
    }

    /// The pane after `p`, wrapping past the leaf's last pane.
    pub open spec fn following_pane(self, p: usize) -> usize {
        if p < self.menu.current_item.spec_max_panes() {
            (p + 1) as usize
        } else {
            0
        }
    }

    /// Cycles the content panes; from outside the content area and the left
    /// menu it enters the first pane.
    pub open spec fn cycle_pane(self) -> AppModel {
        match self.focus {
            AreaFocusEnum::LeftMenu => self,
            AreaFocusEnum::ContentArea(p) => AppModel {
                focus: AreaFocusEnum::ContentArea(self.following_pane(p)),
                ..self
            },
            _ => AppModel { focus: AreaFocusEnum::ContentArea(0), ..self },
        }
    }

    /// Leaves a sub-menu, or leaves the content area for the left menu.
    pub open spec fn escape(self) -> AppModel {
        match self.focus {
            AreaFocusEnum::LeftMenu => match self.menu.focus {
                MenuFocusArea::SubMenu(_) => self.with_menu(self.menu.collapse()),
                MenuFocusArea::MainMenu => self,
            },
            AreaFocusEnum::ContentArea(_) => AppModel { focus: AreaFocusEnum::LeftMenu, ..self },
            _ => self,
        }
    }

    pub open spec fn enter_search(self) -> AppModel {
        AppModel { search_mode: true, focus: AreaFocusEnum::Search, ..self }
    }
}

/// The state at start-up: the initial menu with the left menu focused, and
/// English text.
pub open spec fn initial_app() -> AppModel {
    AppModel {
        menu: initial_menu(),
        focus: AreaFocusEnum::LeftMenu,
        quit: false,
        search_mode: false,
        tabs: Seq::new(LEAF_COUNT as nat, |i: int| 0usize),
        lang: I18N::EN,
    }
}

/// The application state driven by the event loop.
pub struct App {
    pub menu: Menu,
    pub focus: AreaFocusEnum,
    pub quit: bool,
    pub search_mode: bool,
    /// The active tab of each leaf, indexed by `SubMenuTypeEnum::index`.
    pub leaf_tabs: Vec<usize>,
    /// The language the pages are rendered in.
    pub i18n: I18N,
}

impl View for App {
    type V = AppModel;

    open spec fn view(&self) -> AppModel {
        AppModel {
            menu: self.menu@,
            focus: self.focus,
            quit: self.quit,
            search_mode: self.search_mode,
            tabs: self.leaf_tabs@,
            lang: self.i18n,
        }
    }
}

impl App {
    pub fn new() -> (r: Self)
        ensures
            r@ == initial_app(),
            r@.wf(),
    {
        let mut leaf_tabs: Vec<usize> = Vec::new();
        let mut i: usize = 0;
        while i < LEAF_COUNT
            invariant
                i <= LEAF_COUNT,
                leaf_tabs@.len() == i,
                forall|k: int| 0 <= k < i ==> leaf_tabs@[k] == 0,
            decreases LEAF_COUNT - i,
        {
            leaf_tabs.push(0);
            i = i + 1;
        }
        let r = App {
            menu: Menu::new(),
            focus: AreaFocusEnum::LeftMenu,
            quit: false,
            search_mode: false,
            leaf_tabs,
            i18n: I18N::EN,
        };
        assert(r@.tabs =~= initial_app().tabs);
        r
    }

    /// Moves the category cursor forward, wrapping to the first category.
    pub fn next_main_menu(&mut self)
        ensures
            final(self)@ == old(self)@.with_menu(old(self)@.menu.next_main()),
    {
        let len = self.menu.menu_items.len();
        if len == 0 {
            return ;
        }
        let i = match self.menu.main_menu_selection {
            Some(i) => {
                if i >= len - 1 {
                    0
                } else {
                    i + 1
                }
            },
            None => 0,
        };
        self.menu.main_menu_selection = Some(i);
        self.menu.current_main_menu = self.menu.menu_items[i].main;
    }

    /// Moves the category cursor back, wrapping to the last category.
    pub fn previous_main_menu(&mut self)
        ensures
            final(self)@ == old(self)@.with_menu(old(self)@.menu.prev_main()),
    {
        let len = self.menu.menu_items.len();
        if len == 0 {
            return ;
        }
        let i = match self.menu.main_menu_selection {
            Some(i) => {
                if i == 0 {
                    len - 1
                } else {
                    i - 1
                }
            },
            None => 0,
        };
        self.menu.main_menu_selection = Some(i);
        if i < len {
            self.menu.current_main_menu = self.menu.menu_items[i].main;
        }
    }

    /// Moves the sub-item cursor of the focused category forward.
    pub fn next_sub_menu(&mut self)
        ensures
            final(self)@ == old(self)@.with_menu(old(self)@.menu.next_sub()),
    {
        if let MenuFocusArea::SubMenu(main_index) = self.menu.focus {
            if main_index < self.menu.menu_items.len() {
                self.menu.menu_items[main_index].next_sub_menu();
                assert(self.menu@.items =~= old(self).menu@.items.update(
                    main_index as int,
                    old(self).menu@.items[main_index as int].next_sub(),
                ));
            }
        }
    }

    /// Moves the sub-item cursor of the focused category back.
    pub fn previous_sub_menu(&mut self)
        ensures
            final(self)@ == old(self)@.with_menu(old(self)@.menu.prev_sub()),
    {
        if let MenuFocusArea::SubMenu(main_index) = self.menu.focus {
            if main_index < self.menu.menu_items.len() {
                self.menu.menu_items[main_index].previous_sub_menu();
                assert(self.menu@.items =~= old(self).menu@.items.update(
                    main_index as int,
                    old(self).menu@.items[main_index as int].prev_sub(),
                ));
            }
        }
    }

    /// Unfolds the selected category and focuses its sub-items.
    pub fn expand_menu(&mut self)
        ensures
            final(self)@ == old(self)@.with_menu(old(self)@.menu.expand()),
    {
        if let Some(main_index) = self.menu.main_menu_selection {
            if main_index < self.menu.menu_items.len() {
                self.menu.menu_items[main_index].expanded = true;
                self.menu.focus = MenuFocusArea::SubMenu(main_index);
                assert(self.menu@.items =~= old(self).menu@.set_expanded(main_index, true));
            }
        }
    }

    /// Folds the focused category; on the categories, moves to the previous one.
    pub fn collapse_menu(&mut self)
        ensures
            final(self)@ == old(self)@.with_menu(old(self)@.menu.collapse()),
    {
        if let MenuFocusArea::SubMenu(main_index) = self.menu.focus {
            if main_index < self.menu.menu_items.len() {
                self.menu.menu_items[main_index].expanded = false;
                self.menu.focus = MenuFocusArea::MainMenu;
                assert(self.menu@.items =~= old(self).menu@.set_expanded(main_index, false));
            }
        } else {
            self.previous_main_menu();
        }
    }

    /// Commits the sub-item under the cursor: the leaf that the fixed table
    /// gives becomes the current one, and the first content pane takes the
    /// focus. On the categories this unfolds the current category.
    pub fn handle_sub_menu_selection(&mut self)
        ensures
            final(self)@ == old(self)@.commit(),
    {
        if let MenuFocusArea::SubMenu(index) = self.menu.focus {
            self.focus = AreaFocusEnum::ContentArea(0);
            if index < self.menu.menu_items.len() {
                let item = &self.menu.menu_items[index];
                if let Some(sub_index) = item.sub_menu_state {
                    if sub_index < item.sub_items.len() {
                        if let Some(leaf) = crate::menu::resolve_leaf(item.main, sub_index) {
                            self.menu.current_menu_item = leaf;
                        }
                    }
                }
            }
        } else {
            self.expand_menu();
        }
    }

    /// Makes `tab` the active tab of the current leaf where the leaf
    /// defines it; otherwise nothing changes.
    pub fn select_content_tab(&mut self, tab: usize)
        ensures
            final(self)@ == old(self)@.select_tab(tab),
    {
        let leaf = self.menu.current_menu_item;
        let k = leaf.index();
        if tab < leaf.tab_count() && k < self.leaf_tabs.len() {
            self.leaf_tabs.set(k, tab);
        }
    }

    /// The active tab of the current leaf; 0 if the tab table lacks it.
    pub fn current_content_tab(&self) -> (r: usize)
        ensures
            r == (if self@.menu.current_item.spec_index() < self@.tabs.len() {
                self@.tabs[self@.menu.current_item.spec_index() as int]
            } else {
                0
            }),
    {
        let k = self.menu.current_menu_item.index();
        if k < self.leaf_tabs.len() {
            self.leaf_tabs[k]
        } else {
            0
        }
    }

    /// The active tab of the Ethereum page; the first tab if the tab table
    /// lacks a valid entry for it, which a well-formed state never does.
    pub fn ethereum_page_current_tab(&self) -> (r: EthereumPageTabEnum)
        ensures
            ({
                let k = SubMenuTypeEnum::Ethereum.spec_index() as int;
                r.spec_index() == if k < self@.tabs.len() && self@.tabs[k] < MAX_TABS {
                    self@.tabs[k]
                } else {
                    0
                }
            }),
    {
        let k = SubMenuTypeEnum::Ethereum.index();
        if k < self.leaf_tabs.len() {
            if let Some(t) = EthereumPageTabEnum::from_index(self.leaf_tabs[k]) {
                return t;
            }
        }
        EthereumPageTabEnum::Status
    }

    /// Moves the focus to the next content pane, wrapping after the current
    /// leaf's last pane.
    pub fn next_content_area(&mut self)
        ensures
            final(self)@ == old(self)@.cycle_pane(),
    {
        match self.focus {
            AreaFocusEnum::LeftMenu => {},
            AreaFocusEnum::ContentArea(area_index) => {
                let max_area = self.menu.current_menu_item.max_panes();
                if area_index < max_area {
                    self.focus = AreaFocusEnum::ContentArea(area_index + 1);
                } else {
                    self.focus = AreaFocusEnum::ContentArea(0);
                }
            },
            _ => {
                self.focus = AreaFocusEnum::ContentArea(0);
            },
        }
    }

    /// Leaves the focused sub-menu or the content area.
    pub fn escape(&mut self)
        ensures
            final(self)@ == old(self)@.escape(),
    {
        match self.focus {
            AreaFocusEnum::LeftMenu => {
                if let MenuFocusArea::SubMenu(_) = self.menu.focus {
                    self.collapse_menu();
                }
            },
            AreaFocusEnum::ContentArea(_) => {
                self.focus = AreaFocusEnum::LeftMenu;
            },
            _ => {},
        }
    }

    /// Enters the search overlay.
    pub fn enter_search_mode(&mut self)
        ensures
            final(self)@ == old(self)@.enter_search(),
    {
        self.search_mode = true;
        self.focus = AreaFocusEnum::Search;
    }

    /// Item navigation inside a content pane; panes define none yet.
    pub fn next_content_item(&mut self, _area_index: usize)
        ensures
            final(self)@ == old(self)@,
    {
    }

    /// Item navigation inside a content pane; panes define none yet.
    pub fn previous_content_item(&mut self, _area_index: usize)
        ensures
            final(self)@ == old(self)@,
    {
    }

    /// The number of items of a content pane; panes define none yet.
    pub fn get_content_item_count(&self, _area_index: usize) -> (r: usize)
        ensures
            r == 0,
    {
        0
    }

    /// Confirmation inside a content pane; panes define none yet.
    pub fn handle_content_enter(&mut self, _area_index: usize)
        ensures
            final(self)@ == old(self)@,
    {
    }
}

} // verus!

use luminliquid::menu::{
    resolve_leaf, MainMenuItem, Menu, MenuFocusArea, MenuItem, SubMenuItem, SubMenuTypeEnum,
};

fn items(names: &[&str]) -> Vec<SubMenuItem> {
    names.iter().map(|n| SubMenuItem::new(n)).collect()
}

#[test]
fn main_menu_labels() {
    assert_eq!(MainMenuItem::Network.as_str(), "🌐 Network");
    assert_eq!(MainMenuItem::Dex.as_str(), "📊 Dex");
    assert_eq!(MainMenuItem::Cex.as_str(), "📦 Cex");
    assert_eq!(MainMenuItem::Wallets.as_str(), "👛 Wallets");
}

#[test]
fn main_menu_all_in_display_order() {
    assert_eq!(
        MainMenuItem::all(),
        vec![MainMenuItem::Network, MainMenuItem::Dex, MainMenuItem::Cex, MainMenuItem::Wallets]
    );
}

#[test]
fn sub_menu_item_keeps_name() {
    let s = SubMenuItem::new("Orca");
    assert_eq!(s.name, "Orca");
    assert!(s == SubMenuItem::new("Orca"));
    assert!(s != SubMenuItem::new("Raydium"));
}

#[test]
fn menu_item_starts_folded_on_first_sub_item() {
    let m = MenuItem::new(MainMenuItem::Dex, items(&["a", "b"]));
    assert!(!m.expanded);
    assert_eq!(m.sub_menu_state, Some(0));
    let empty = MenuItem::new(MainMenuItem::Wallets, vec![]);
    assert_eq!(empty.sub_menu_state, None);
}

#[test]
fn sub_cursor_wraps_both_ways() {
    let mut m = MenuItem::new(MainMenuItem::Dex, items(&["a", "b", "c"]));
    m.next_sub_menu();
    assert_eq!(m.sub_menu_state, Some(1));
    m.next_sub_menu();
    m.next_sub_menu();
    assert_eq!(m.sub_menu_state, Some(0));
    m.previous_sub_menu();
    assert_eq!(m.sub_menu_state, Some(2));
    m.sub_menu_state = None;
    m.previous_sub_menu();
    assert_eq!(m.sub_menu_state, Some(0));
}

#[test]
fn empty_category_cursor_is_unchanged() {
    let mut m = MenuItem::new(MainMenuItem::Wallets, vec![]);
    m.next_sub_menu();
    assert_eq!(m.sub_menu_state, None);
    m.previous_sub_menu();
    assert_eq!(m.sub_menu_state, None);
    m.sub_menu_state = Some(3);
    m.next_sub_menu();
    m.previous_sub_menu();
    assert_eq!(m.sub_menu_state, Some(3));
}

#[test]
fn current_sub_menu_follows_cursor() {
    let mut m = MenuItem::new(MainMenuItem::Dex, items(&["a", "b"]));
    m.next_sub_menu();
    assert_eq!(m.current_sub_menu().map(|s| s.name.clone()), Some("b".to_string()));
    m.sub_menu_state = Some(7);
    assert!(m.current_sub_menu().is_none());
}

#[test]
fn leaf_table_entries() {
    assert_eq!(resolve_leaf(MainMenuItem::Network, 0), Some(SubMenuTypeEnum::Ethereum));
    assert_eq!(resolve_leaf(MainMenuItem::Network, 2), Some(SubMenuTypeEnum::Bsc));
    assert_eq!(resolve_leaf(MainMenuItem::Network, 6), Some(SubMenuTypeEnum::HyperEvm));
    assert_eq!(resolve_leaf(MainMenuItem::Network, 7), None);
    assert_eq!(resolve_leaf(MainMenuItem::Dex, 3), Some(SubMenuTypeEnum::Orca));
    assert_eq!(resolve_leaf(MainMenuItem::Dex, 4), None);
    assert_eq!(resolve_leaf(MainMenuItem::Cex, 5), Some(SubMenuTypeEnum::Okx));
    assert_eq!(resolve_leaf(MainMenuItem::Wallets, 0), None);
}

#[test]
fn leaf_panes_and_tabs() {
    assert_eq!(SubMenuTypeEnum::Ethereum.max_panes(), 3);
    assert_eq!(SubMenuTypeEnum::Solana.max_panes(), 5);
    assert_eq!(SubMenuTypeEnum::Bsc.max_panes(), 4);
    assert_eq!(SubMenuTypeEnum::Orca.max_panes(), 2);
    assert_eq!(SubMenuTypeEnum::Ethereum.tab_count(), 5);
    assert_eq!(SubMenuTypeEnum::Sui.tab_count(), 4);
    assert_eq!(SubMenuTypeEnum::Binance.tab_count(), 0);
    assert_eq!(SubMenuTypeEnum::Okx.index(), 16);
}

#[test]
fn initial_menu_lists() {
    let m = Menu::new();
    let names: Vec<Vec<String>> = m
        .menu_items
        .iter()
        .map(|i| i.sub_items.iter().map(|s| s.name.clone()).collect())
        .collect();
    assert_eq!(
        names[0],
        vec!["Ethereum", "Solana", "Bsc", "Base", "Aptos", "Sui", "HyperEvm"]
    );
    assert_eq!(names[1], vec!["Uniswap", "Pancakeswap", "Raydium", "Orca"]);
    assert_eq!(names[2], vec!["Binance", "Coinbase", "Bybite", "Bitget", "Kraken", "Okx"]);
    assert_eq!(names[3], vec!["Info", "Analysis", "Risk Manage"]);
    assert_eq!(m.main_menu_selection, Some(0));
    assert_eq!(m.focus, MenuFocusArea::MainMenu);
    assert_eq!(m.current_main_menu, MainMenuItem::Network);
    assert_eq!(m.current_menu_item, SubMenuTypeEnum::Ethereum);
    assert!(m.menu_items.iter().all(|i| !i.expanded));
}

use std::sync::atomic::Ordering;
use std::sync::Arc;

use luminliquid::dashboard::{App, AreaFocusEnum};
use luminliquid::events::{dispatch_key, tab_of_digit, EventLoop, Key, LoopAction};
use luminliquid::menu::{MenuFocusArea, SubMenuTypeEnum};
use luminliquid::task::TaskController;

#[test]
fn keys_closer_than_window_mutate_once() {
    let mut lp = EventLoop::new(0);
    let mut app = App::new();
    assert!(lp.handle_key(&mut app, Key::Down, 1000));
    assert_eq!(app.menu.main_menu_selection, Some(1));
    assert!(!lp.handle_key(&mut app, Key::Down, 1149));
    assert_eq!(app.menu.main_menu_selection, Some(1));
    assert_eq!(lp.last_key_ms, 1000);
}

#[test]
fn keys_at_window_both_mutate() {
    let mut lp = EventLoop::new(0);
    let mut app = App::new();
    assert!(lp.handle_key(&mut app, Key::Down, 1000));
    assert!(lp.handle_key(&mut app, Key::Down, 1150));
    assert_eq!(app.menu.main_menu_selection, Some(2));
    assert!(lp.handle_key(&mut app, Key::Down, 1400));
    assert_eq!(app.menu.main_menu_selection, Some(3));
}

#[test]
fn first_key_inside_start_window_is_dropped() {
    let mut lp = EventLoop::new(500);
    let mut app = App::new();
    assert!(!lp.handle_key(&mut app, Key::Down, 600));
    assert_eq!(app.menu.main_menu_selection, Some(0));
}

#[test]
fn end_to_end_right_right_down_down_enter() {
    // The loop starts at 0; the first arrow falls inside the start window.
    let mut lp = EventLoop::new(0);
    let mut app = App::new();
    let mut tasks = TaskController::new(vec![]);
    let keys = [(Key::Right, 100), (Key::Right, 300), (Key::Down, 500), (Key::Down, 700), (Key::Enter, 900)];
    for (key, at) in keys {
        assert_eq!(lp.step(&mut app, &mut tasks, Some(key), at), LoopAction::Continue);
    }
    assert_eq!(app.focus, AreaFocusEnum::ContentArea(0));
    assert_eq!(app.menu.current_menu_item, SubMenuTypeEnum::Bsc);
}

#[test]
fn every_arrow_accepted_commits_first_network() {
    let mut lp = EventLoop::new(0);
    let mut app = App::new();
    let mut tasks = TaskController::new(vec![]);
    let keys = [(Key::Right, 200), (Key::Right, 400), (Key::Down, 600), (Key::Down, 800), (Key::Enter, 1000)];
    for (key, at) in keys {
        lp.step(&mut app, &mut tasks, Some(key), at);
    }
    assert_eq!(app.focus, AreaFocusEnum::ContentArea(0));
    assert_eq!(app.menu.current_menu_item, SubMenuTypeEnum::Ethereum);
}

#[test]
fn dispatch_table() {
    let mut app = App::new();
    dispatch_key(&mut app, Key::Char('3'));
    assert_eq!(app.current_content_tab(), 0);
    dispatch_key(&mut app, Key::Right);
    assert_eq!(app.menu.focus, MenuFocusArea::SubMenu(0));
    dispatch_key(&mut app, Key::Up);
    assert_eq!(app.menu.menu_items[0].sub_menu_state, Some(6));
    dispatch_key(&mut app, Key::Enter);
    assert_eq!(app.menu.current_menu_item, SubMenuTypeEnum::HyperEvm);
    dispatch_key(&mut app, Key::Char('2'));
    assert_eq!(app.current_content_tab(), 1);
    dispatch_key(&mut app, Key::Tab);
    dispatch_key(&mut app, Key::Tab);
    dispatch_key(&mut app, Key::Tab);
    assert_eq!(app.focus, AreaFocusEnum::ContentArea(0));
    dispatch_key(&mut app, Key::Esc);
    assert_eq!(app.focus, AreaFocusEnum::LeftMenu);
    dispatch_key(&mut app, Key::Left);
    assert_eq!(app.menu.focus, MenuFocusArea::MainMenu);
    dispatch_key(&mut app, Key::Left);
    assert_eq!(app.menu.main_menu_selection, Some(3));
    dispatch_key(&mut app, Key::Char('/'));
    assert!(app.search_mode);
    dispatch_key(&mut app, Key::Char('q'));
    assert!(!app.quit);
    assert_eq!(app.focus, AreaFocusEnum::Search);
}

#[test]
fn digits_map_to_tabs() {
    assert_eq!(tab_of_digit('1'), Some(0));
    assert_eq!(tab_of_digit('5'), Some(4));
    assert_eq!(tab_of_digit('6'), None);
    assert_eq!(tab_of_digit('0'), None);
}

#[test]
fn poll_timeout_and_tick() {
    let mut lp = EventLoop::new(1000);
    assert_eq!(lp.poll_timeout(1000), 1000);
    assert_eq!(lp.poll_timeout(1300), 700);
    assert_eq!(lp.poll_timeout(2500), 0);
    assert_eq!(lp.poll_timeout(900), 1000);
    lp.tick(1999);
    assert_eq!(lp.last_tick_ms, 1000);
    lp.tick(2000);
    assert_eq!(lp.last_tick_ms, 2000);
}

#[test]
fn discarded_key_skips_tick() {
    let mut lp = EventLoop::new(0);
    let mut app = App::new();
    let mut tasks = TaskController::new(vec![]);
    assert_eq!(lp.step(&mut app, &mut tasks, Some(Key::Down), 950), LoopAction::Continue);
    assert_eq!(lp.last_tick_ms, 0);
    assert_eq!(lp.step(&mut app, &mut tasks, Some(Key::Down), 1050), LoopAction::Continue);
    assert_eq!(lp.last_tick_ms, 0);
    assert_eq!(app.menu.main_menu_selection, Some(1));
    assert_eq!(lp.step(&mut app, &mut tasks, None, 1060), LoopAction::Continue);
    assert_eq!(lp.last_tick_ms, 1060);
}

#[test]
fn quit_raises_shutdown_for_every_reader() {
    let rt = tokio::runtime::Builder::new_multi_thread().worker_threads(2).build().unwrap();
    let mut tasks = TaskController::new(vec![]);
    let flag = Arc::clone(tasks.shutdown_flag());
    for _ in 0..3 {
        let f = Arc::clone(&flag);
        tasks.push(rt.spawn(async move {
            while !f.load(Ordering::SeqCst) {
                tokio::task::yield_now().await;
            }
        }));
    }
    assert_eq!(tasks.task_count(), 3);
    assert!(!flag.load(Ordering::SeqCst));

    let mut lp = EventLoop::new(0);
    let mut app = App::new();
    assert_eq!(lp.step(&mut app, &mut tasks, Some(Key::Char('q')), 1000), LoopAction::Exit);
    assert!(app.quit);
    assert!(flag.load(Ordering::SeqCst));
    assert!(tasks.shutdown_flag().load(Ordering::SeqCst));
    let later = Arc::clone(&flag);
    let seen = rt.block_on(async move { tokio::spawn(async move { later.load(Ordering::SeqCst) }).await.unwrap() });
    assert!(seen);
    tasks.clear_all_task();
    assert!(flag.load(Ordering::SeqCst));
    assert_eq!(tasks.task_count(), 3);
}

#[test]
fn no_quit_leaves_flag_down() {
    let mut tasks = TaskController::new(vec![]);
    let mut lp = EventLoop::new(0);
    let mut app = App::new();
    assert_eq!(lp.step(&mut app, &mut tasks, None, 10), LoopAction::Continue);
    assert!(!tasks.shutdown_flag().load(Ordering::SeqCst));
}

#[test]
fn horizontal_arrows_do_nothing_in_content() {
    let mut app = App::new();
    assert_eq!(app.i18n, luminliquid::i18n::I18N::EN);
    dispatch_key(&mut app, Key::Right);
    dispatch_key(&mut app, Key::Right);
    assert_eq!(app.focus, AreaFocusEnum::ContentArea(0));
    dispatch_key(&mut app, Key::Right);
    dispatch_key(&mut app, Key::Left);
    assert_eq!(app.focus, AreaFocusEnum::ContentArea(0));
    assert_eq!(app.menu.focus, MenuFocusArea::SubMenu(0));
    assert_eq!(app.menu.menu_items[0].sub_menu_state, Some(0));
    assert_eq!(app.menu.current_menu_item, SubMenuTypeEnum::Ethereum);
}

use vstd::prelude::*;
use crate::dashboard::{App, AppModel, AreaFocusEnum};
use crate::menu::MenuFocusArea;
use crate::task::TaskController;

verus! {

/// A key as the event loop sees it.
#[derive(Debug, Clone, Copy, PartialEq, Eq, Structural)]
pub enum Key {
    Char(char),
    Esc,
    Enter,
    Tab,
    Up,
    Down,
    Left,
    Right,
    Backspace,
    Delete,
    Other,
}

/// The tab that a digit key selects: `'1'` to `'5'` give tabs 0 to 4.
pub open spec fn digit_tab(c: char) -> Option<usize> {
    if c == '1' {
        Some(0)
    } else if c == '2' {
        Some(1)
    } else if c == '3' {
        Some(2)
    } else if c == '4' {
        Some(3)
    } else if c == '5' {
        Some(4)
    } else {
        None
    }
}

pub fn tab_of_digit(c: char) -> (r: Option<usize>)
    ensures
        r == digit_tab(c),
{
    if c == '1' {
        Some(0)
    } else if c == '2' {
        Some(1)
    } else if c == '3' {
        Some(2)
    } else if c == '4' {
        Some(3)
    } else if c == '5' {
        Some(4)
    } else {
        None
    }
}

/// What a key does to the application state. In search mode no key has an
/// effect: the search overlay defines none yet. In a content pane the arrows
/// and Enter reach the pane's item handlers, which define nothing yet, and
/// the horizontal arrows have no meaning there.
pub open spec fn key_effect(a: AppModel, key: Key) -> AppModel {
    if a.search_mode {
        a
    } else {
        match key {
            Key::Char(c) => if c == 'q' {
                AppModel { quit: true, ..a }
            } else if c == '/' {
                a.enter_search()
            } else {
                match digit_tab(c) {
                    Some(t) => if a.focus != AreaFocusEnum::LeftMenu {
                        a.select_tab(t)
                    } else {
                        a
                    },
                    None => a,
                }
            },
            Key::Esc => a.escape(),
            Key::Tab => a.cycle_pane(),
            Key::Down => match a.focus {
                AreaFocusEnum::LeftMenu => match a.menu.focus {
                    MenuFocusArea::MainMenu => a.with_menu(a.menu.next_main()),
                    MenuFocusArea::SubMenu(_) => a.with_menu(a.menu.next_sub()),
                },
                _ => a,
            },
            Key::Up => match a.focus {
                AreaFocusEnum::LeftMenu => match a.menu.focus {
                    MenuFocusArea::MainMenu => a.with_menu(a.menu.prev_main()),
                    MenuFocusArea::SubMenu(_) => a.with_menu(a.menu.prev_sub()),
                },
                _ => a,
            },
            Key::Right | Key::Enter => match a.focus {
                AreaFocusEnum::LeftMenu => a.commit(),
                _ => a,
            },
            Key::Left => match a.focus {
                AreaFocusEnum::LeftMenu => a.with_menu(a.menu.collapse()),
                _ => a,
            },
            _ => a,
        }
    }
}

/// Every key keeps the application state well formed.
pub proof fn lemma_key_effect_wf(a: AppModel, key: Key)
    requires
        a.wf(),
    ensures
        key_effect(a, key).wf(),
{
    let m = a.menu;
    match m.focus {
        MenuFocusArea::SubMenu(i) => {
            assert(m.next_sub().wf()) by {
                assert(m.next_sub().items[i as int].wf());
            }
            assert(m.prev_sub().wf()) by {
                assert(m.prev_sub().items[i as int].wf());
            }
            assert(m.collapse().wf()) by {
                assert(m.collapse().items[i as int].wf());
            }
        },
        MenuFocusArea::MainMenu => {},
    }
    match m.selection {
        Some(i) => {
            assert(m.expand().wf()) by {
                if i < m.items.len() {
                    assert(m.expand().items[i as int].wf());
                }
            }
        },
        None => {},
    }
}

/// Handles one key in the state `app`: routes it through the focus router
/// and the menu, or to the search overlay in search mode.
pub fn dispatch_key(app: &mut App, key: Key)
    ensures
        final(app)@ == key_effect(old(app)@, key),
        old(app)@.wf() ==> final(app)@.wf(),
{
    proof {
        if app@.wf() {
            lemma_key_effect_wf(app@, key);
        }
    }
    if app.search_mode {
        handle_search_key(app, key);
        return ;
    }
    match key {
        Key::Char(c) => {
            if c == 'q' {
                app.quit = true;
            } else if c == '/' {
                app.enter_search_mode();
            } else if let Some(t) = tab_of_digit(c) {
                if app.focus != AreaFocusEnum::LeftMenu {
                    app.select_content_tab(t);
                }
            }
        },
        Key::Esc => app.escape(),
        Key::Tab => app.next_content_area(),
        Key::Down => match app.focus {
            AreaFocusEnum::LeftMenu => match app.menu.focus {
                MenuFocusArea::MainMenu => app.next_main_menu(),
                MenuFocusArea::SubMenu(_) => app.next_sub_menu(),
            },
            AreaFocusEnum::ContentArea(area_index) => app.next_content_item(area_index),
            _ => {},
        },
        Key::Up => match app.focus {
            AreaFocusEnum::LeftMenu => match app.menu.focus {
                MenuFocusArea::MainMenu => app.previous_main_menu(),
                MenuFocusArea::SubMenu(_) => app.previous_sub_menu(),
            },
            AreaFocusEnum::ContentArea(area_index) => app.previous_content_item(area_index),
            _ => {},
        },
        Key::Right => match app.focus {
            AreaFocusEnum::LeftMenu => match app.menu.focus {
                MenuFocusArea::MainMenu => app.expand_menu(),
                MenuFocusArea::SubMenu(_) => app.handle_sub_menu_selection(),
            },
            _ => {},
        },
        Key::Left => match app.focus {
            AreaFocusEnum::LeftMenu => match app.menu.focus {
                MenuFocusArea::SubMenu(_) => app.collapse_menu(),
                MenuFocusArea::MainMenu => app.previous_main_menu(),
            },
            _ => {},
        },
        Key::Enter => match app.focus {
            AreaFocusEnum::LeftMenu => match app.menu.focus {
                MenuFocusArea::MainMenu => app.expand_menu(),
                MenuFocusArea::SubMenu(_) => app.handle_sub_menu_selection(),
            },
            AreaFocusEnum::ContentArea(area_index) => app.handle_content_enter(area_index),
            _ => {},
        },
        _ => {},
    }
}

/// Key handling in the search overlay; the overlay defines none yet, so the
/// state is left as it is.
pub fn handle_search_key(app: &mut App, _key: Key)
    ensures
        *final(app) == *old(app),
{
}

/// Period of the redraw tick, in milliseconds.
pub const TICK_RATE_MS: u64 = 1000;

/// A key that arrives sooner than this many milliseconds after the last
/// accepted key is discarded.
pub const KEY_DEBOUNCE_MS: u64 = 150;

/// Milliseconds from `since` to `now`; zero if `now` is earlier.
pub open spec fn elapsed(since: u64, now: u64) -> u64 {
    if now >= since {
        (now - since) as u64
    } else {
        0
    }
}

fn elapsed_ms(since: u64, now: u64) -> (r: u64)
    ensures
        r == elapsed(since, now),
{
    if now >= since {
        now - since
    } else {
        0
    }
}

/// What the loop does after an iteration.
#[derive(Debug, Clone, Copy, PartialEq, Eq, Structural)]
pub enum LoopAction {
    Continue,
    Exit,
}

/// The timing state of the event loop; times are milliseconds on a
/// monotonic clock chosen by the caller.
#[derive(Debug, Clone, Copy, PartialEq, Eq, Structural)]
pub struct EventLoop {
    /// When the last key was accepted (at start: when the loop began).
    pub last_key_ms: u64,
    /// When the tick was last reset.
    pub last_tick_ms: u64,
}

impl EventLoop {
    /// Whether a key arriving at `now` lies outside the debounce window.
    pub open spec fn accepts_key(self, now: u64) -> bool {
        elapsed(self.last_key_ms, now) >= KEY_DEBOUNCE_MS
    }

    /// The loop state and application state after a key arrives at `now`:
    /// a key inside the debounce window changes neither.
    pub open spec fn key_step(self, a: AppModel, key: Key, now: u64) -> (EventLoop, AppModel) {
        if self.accepts_key(now) {
            (EventLoop { last_key_ms: now, ..self }, key_effect(a, key))
        } else {
            (self, a)
        }
    }

    /// The loop state after the tick check at `now`.
    pub open spec fn tick_step(self, now: u64) -> EventLoop {
        if elapsed(self.last_tick_ms, now) >= TICK_RATE_MS {
            EventLoop { last_tick_ms: now, ..self }
        } else {
            self
        }
    }

    /// A loop that starts at `now`.
    pub fn new(now: u64) -> (r: Self)
        ensures
            r.last_key_ms == now,
            r.last_tick_ms == now,
    {
        EventLoop { last_key_ms: now, last_tick_ms: now }
    }

    /// How long to wait for input at `now`: the time left until the next
    /// tick, or zero when the tick is due.
    pub fn poll_timeout(&self, now: u64) -> (r: u64)
        ensures
            r == if elapsed(self.last_tick_ms, now) <= TICK_RATE_MS {
                (TICK_RATE_MS - elapsed(self.last_tick_ms, now)) as u64
            } else {
                0
            },
    {
        let e = elapsed_ms(self.last_tick_ms, now);
        if e <= TICK_RATE_MS {
            TICK_RATE_MS - e
        } else {
            0
        }
    }

    /// Takes a key that arrived at `now`: inside the debounce window it is
    /// discarded; otherwise it is dispatched and becomes the last accepted key.
    pub fn handle_key(&mut self, app: &mut App, key: Key, now: u64) -> (dispatched: bool)
        ensures
            dispatched == old(self).accepts_key(now),
            (*final(self), final(app)@) == old(self).key_step(old(app)@, key, now),
            !dispatched ==> *final(app) == *old(app),
            old(app)@.wf() ==> final(app)@.wf(),
    {
        if elapsed_ms(self.last_key_ms, now) < KEY_DEBOUNCE_MS {
            return false;
        }
        self.last_key_ms = now;
        dispatch_key(app, key);
        true
    }

    /// Resets the tick when a full period has passed since the last reset.
    pub fn tick(&mut self, now: u64)
        ensures
            *final(self) == old(self).tick_step(now),
    {
        if elapsed_ms(self.last_tick_ms, now) >= TICK_RATE_MS {
            self.last_tick_ms = now;
        }
    }

    /// One iteration after input was polled at `now`, with the key that
    /// arrived, if any. A discarded key ends the iteration at once. Otherwise
    /// the key is dispatched, the tick is checked, and when the quit flag is
    /// set the shutdown signal is raised and the loop exits.
    pub fn step(&mut self, app: &mut App, tasks: &mut TaskController, event: Option<Key>, now: u64) -> (r: LoopAction)
        ensures
            old(app)@.wf() ==> final(app)@.wf(),
            match event {
                Some(key) => !old(self).accepts_key(now) ==> {
                    &&& *final(self) == *old(self)
                    &&& *final(app) == *old(app)
                    &&& *final(tasks) == *old(tasks)
                    &&& r == LoopAction::Continue
                },
                None => true,
            },
            event is None || old(self).accepts_key(now) ==> {
                let (s1, a1) = match event {
                    Some(key) => old(self).key_step(old(app)@, key, now),
                    None => (*old(self), old(app)@),
                };
                &&& *final(self) == s1.tick_step(now)
                &&& final(app)@ == a1
                &&& r == (if a1.quit {
                    LoopAction::Exit
                } else {
                    LoopAction::Continue
                })
                &&& a1.quit ==> final(tasks).shutdown_signalled()
                &&& a1.quit ==> final(tasks).tasks() == old(tasks).tasks()
                &&& !a1.quit ==> *final(tasks) == *old(tasks)
            },
    {
        if let Some(key) = event {
            if !self.handle_key(app, key, now) {
                return LoopAction::Continue;
            }
        }
        self.tick(now);
        if app.quit {
            tasks.clear_all_task();
            LoopAction::Exit
        } else {
            LoopAction::Continue
        }
    }
}

/// Debounce: after a key accepted at `t1`, a second key at `t2` is
/// discarded, leaving both states as the first key left them, when it comes
/// less than the debounce window later; at the window or later it is
/// dispatched as well.
pub proof fn lemma_debounce(s: EventLoop, a: AppModel, k1: Key, t1: u64, k2: Key, t2: u64)
    requires
        s.accepts_key(t1),
        t1 <= t2,
    ensures
        ({
            let (s1, a1) = s.key_step(a, k1, t1);
            let (s2, a2) = s1.key_step(a1, k2, t2);
            &&& a1 == key_effect(a, k1)
            &&& t2 - t1 < KEY_DEBOUNCE_MS ==> s2 == s1 && a2 == a1
            &&& t2 - t1 >= KEY_DEBOUNCE_MS ==> s2.last_key_ms == t2 && a2 == key_effect(a1, k2)
        }),
{
}

} // verus!

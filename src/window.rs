use vstd::prelude::*;

verus! {

/// A window size in logical pixels.
#[derive(Debug, Clone, Copy, PartialEq, Eq, Structural)]
pub struct WindowSize {
    pub width: u32,
    pub height: u32,
}

/// The last size of the desktop window before it was maximized, written by
/// maximize and read by restore.
#[derive(Debug, Clone, Copy, PartialEq, Eq, Structural)]
pub struct WindowSizeRecord {
    pub saved: Option<WindowSize>,
}

/// What maximize does to the window.
#[derive(Debug, Clone, Copy, PartialEq, Eq, Structural)]
pub enum MaximizeAction {
    Maximize,
    Unmaximize,
}

impl WindowSizeRecord {
    /// A record that holds no size yet.
    pub fn new() -> (r: Self)
        ensures
            r.saved is None,
    {
        WindowSizeRecord { saved: None }
    }

    /// Keeps `size` as the size to restore, replacing any earlier one.
    pub fn remember(&mut self, size: WindowSize)
        ensures
            final(self).saved == Some(size),
    {
        self.saved = Some(size);
    }

    /// The size to restore: the one kept, or `current` if none was kept.
    pub fn restore_size(&self, current: WindowSize) -> (r: WindowSize)
        ensures
            r == match self.saved {
                Some(s) => s,
                None => current,
            },
    {
        match self.saved {
            Some(s) => s,
            None => current,
        }
    }
}

/// Maximize toggles: a maximized window is restored, any other is maximized.
pub fn maximize_action(is_maximized: bool) -> (r: MaximizeAction)
    ensures
        r == (if is_maximized {
            MaximizeAction::Unmaximize
        } else {
            MaximizeAction::Maximize
        }),
{
    if is_maximized {
        MaximizeAction::Unmaximize
    } else {
        MaximizeAction::Maximize
    }
}

} // verus!

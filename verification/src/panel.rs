//! The cursor bindings every list-shaped panel shares: `j`/`k` move the
//! cursor one entry, and with the control modifier `d`/`u` page by half the
//! viewport height.

use vstd::prelude::*;

use crate::events::{KeyCode, KeyEvent};
use crate::viewport::{ScrollDirection, ViewportWindow};

verus! {

/// The viewport after the shared cursor bindings handled key `ev`: one step
/// for `j`/`k`, half a page for control-`d`/control-`u`, unchanged for any
/// other key.
pub open spec fn key_scrolled(w: ViewportWindow, ev: KeyEvent) -> ViewportWindow {
    if ev.ctrl {
        if ev.code == KeyCode::Char('d') {
            w.scrolled(ScrollDirection::Down, (w.height / 2) as nat)
        } else if ev.code == KeyCode::Char('u') {
            w.scrolled(ScrollDirection::Up, (w.height / 2) as nat)
        } else {
            w
        }
    } else if ev.code == KeyCode::Char('j') {
        w.scrolled(ScrollDirection::Down, 1)
    } else if ev.code == KeyCode::Char('k') {
        w.scrolled(ScrollDirection::Up, 1)
    } else {
        w
    }
}

/// Whether the shared cursor bindings consume key `ev`.
pub open spec fn is_scroll_key(ev: KeyEvent) -> bool {
    if ev.ctrl {
        ev.code == KeyCode::Char('d') || ev.code == KeyCode::Char('u')
    } else {
        ev.code == KeyCode::Char('j') || ev.code == KeyCode::Char('k')
    }
}

/// Apply the shared cursor bindings to a panel's viewport.
pub fn scroll_for_key(w: &mut ViewportWindow, ev: KeyEvent)
    requires
        old(w).wf(),
    ensures
        final(w).wf(),
        *final(w) == key_scrolled(*old(w), ev),
{
    if ev.ctrl {
        let half = w.height / 2;
        match ev.code {
            KeyCode::Char(c) => {
                if c == 'd' {
                    w.scroll(ScrollDirection::Down, half);
                } else if c == 'u' {
                    w.scroll(ScrollDirection::Up, half);
                }
            }
            _ => {}
        }
    } else {
        match ev.code {
            KeyCode::Char(c) => {
                if c == 'j' {
                    w.scroll(ScrollDirection::Down, 1);
                } else if c == 'k' {
                    w.scroll(ScrollDirection::Up, 1);
                }
            }
            _ => {}
        }
    }
}

/// Whether the shared cursor bindings consume key `ev` (executable form).
pub fn scroll_key(ev: KeyEvent) -> (r: bool)
    ensures
        r == is_scroll_key(ev),
{
    match ev.code {
        KeyCode::Char(c) => {
            if ev.ctrl {
                c == 'd' || c == 'u'
            } else {
                c == 'j' || c == 'k'
            }
        }
        _ => false,
    }
}

} // verus!

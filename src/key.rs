use vstd::prelude::*;

verus! {

/// A key press as the scenes understand it.
#[derive(Clone, Copy, Debug, PartialEq, Eq, Structural)]
pub enum Key {
    F1,
    F2,
    F3,
    ArrowUp,
    ArrowDown,
    Other,
}

/// A parameter after a key press: the up arrow raises it and the down arrow
/// lowers it, within `lo..=hi`; every other key leaves it as it is.
pub open spec fn adjusted(v: int, key: Key, lo: int, hi: int) -> int {
    match key {
        Key::ArrowUp => if v < hi {
            v + 1
        } else {
            v
        },
        Key::ArrowDown => if v > lo {
            v - 1
        } else {
            v
        },
        _ => v,
    }
}

} // verus!

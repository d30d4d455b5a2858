//! Names of the keys the widgets react to, as the windowing layer reports
//! them, and small string comparisons used to read them.

use vstd::prelude::*;
use vstd::string::*;

verus! {

/// Whether two strings hold the same characters.
pub fn str_eq(a: &str, b: &str) -> (same: bool)
    ensures
        same == (a@ == b@),
{
    let n = a.unicode_len();
    if n != b.unicode_len() {
        return false;
    }
    let mut i: usize = 0;
    while i < n
        invariant
            n == a@.len(),
            n == b@.len(),
            i <= n,
            forall|j: int| 0 <= j < i ==> a@[j] == b@[j],
        decreases n - i,
    {
        if a.get_char(i) != b.get_char(i) {
            return false;
        }
        i = i + 1;
    }
    assert(a@ =~= b@);
    true
}

/// A key the widgets distinguish. `Other` is every name not listed here.
#[derive(Clone, Copy, Debug, PartialEq, Eq)]
pub enum NavKey {
    Escape,
    Up,
    Down,
    Left,
    Right,
    /// The key named "return".
    Return,
    /// The key named "enter".
    Enter,
    Space,
    Backspace,
    Delete,
    Home,
    End,
    Tab,
    Other,
}

/// The key a name stands for.
pub open spec fn nav_key_of(name: Seq<char>) -> NavKey {
    if name == "escape"@ {
        NavKey::Escape
    } else if name == "up"@ {
        NavKey::Up
    } else if name == "down"@ {
        NavKey::Down
    } else if name == "left"@ {
        NavKey::Left
    } else if name == "right"@ {
        NavKey::Right
    } else if name == "return"@ {
        NavKey::Return
    } else if name == "enter"@ {
        NavKey::Enter
    } else if name == "space"@ {
        NavKey::Space
    } else if name == "backspace"@ {
        NavKey::Backspace
    } else if name == "delete"@ {
        NavKey::Delete
    } else if name == "home"@ {
        NavKey::Home
    } else if name == "end"@ {
        NavKey::End
    } else if name == "tab"@ {
        NavKey::Tab
    } else {
        NavKey::Other
    }
}

impl NavKey {
    /// Read a key name.
    pub fn parse(name: &str) -> (k: NavKey)
        ensures
            k == nav_key_of(name@),
    {
        if str_eq(name, "escape") {
            NavKey::Escape
        } else if str_eq(name, "up") {
            NavKey::Up
        } else if str_eq(name, "down") {
            NavKey::Down
        } else if str_eq(name, "left") {
            NavKey::Left
        } else if str_eq(name, "right") {
            NavKey::Right
        } else if str_eq(name, "return") {
            NavKey::Return
        } else if str_eq(name, "enter") {
            NavKey::Enter
        } else if str_eq(name, "space") {
            NavKey::Space
        } else if str_eq(name, "backspace") {
            NavKey::Backspace
        } else if str_eq(name, "delete") {
            NavKey::Delete
        } else if str_eq(name, "home") {
            NavKey::Home
        } else if str_eq(name, "end") {
            NavKey::End
        } else if str_eq(name, "tab") {
            NavKey::Tab
        } else {
            NavKey::Other
        }
    }
}

/// Whether a key name is a single character, that is, text to insert.
pub fn is_single_char(name: &str) -> (b: bool)
    ensures
        b == (name@.len() == 1),
{
    name.unicode_len() == 1
}

/// Each listed name stands for its key.
pub proof fn lemma_nav_key_names()
    ensures
        nav_key_of("escape"@) == NavKey::Escape,
        nav_key_of("up"@) == NavKey::Up,
        nav_key_of("down"@) == NavKey::Down,
        nav_key_of("left"@) == NavKey::Left,
        nav_key_of("right"@) == NavKey::Right,
        nav_key_of("return"@) == NavKey::Return,
        nav_key_of("enter"@) == NavKey::Enter,
        nav_key_of("space"@) == NavKey::Space,
        nav_key_of("backspace"@) == NavKey::Backspace,
        nav_key_of("delete"@) == NavKey::Delete,
        nav_key_of("home"@) == NavKey::Home,
        nav_key_of("end"@) == NavKey::End,
        nav_key_of("tab"@) == NavKey::Tab,
{
    reveal_strlit("escape");
    reveal_strlit("up");
    reveal_strlit("down");
    reveal_strlit("left");
    reveal_strlit("right");
    reveal_strlit("return");
    reveal_strlit("enter");
    reveal_strlit("space");
    reveal_strlit("backspace");
    reveal_strlit("delete");
    reveal_strlit("home");
    reveal_strlit("end");
    reveal_strlit("tab");
    assert("escape"@.len() == 6 && "escape"@[0] == 'e');
    assert("up"@.len() == 2 && "up"@[0] == 'u');
    assert("down"@.len() == 4 && "down"@[0] == 'd');
    assert("left"@.len() == 4 && "left"@[0] == 'l');
    assert("right"@.len() == 5 && "right"@[0] == 'r');
    assert("return"@.len() == 6 && "return"@[0] == 'r');
    assert("enter"@.len() == 5 && "enter"@[0] == 'e');
    assert("space"@.len() == 5 && "space"@[0] == 's');
    assert("backspace"@.len() == 9 && "backspace"@[0] == 'b');
    assert("delete"@.len() == 6 && "delete"@[0] == 'd');
    assert("home"@.len() == 4 && "home"@[0] == 'h');
    assert("end"@.len() == 3 && "end"@[0] == 'e');
    assert("tab"@.len() == 3 && "tab"@[0] == 't');
}

} // verus!

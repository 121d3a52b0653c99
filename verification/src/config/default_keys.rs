//! What the default keymap binds.

use vstd::prelude::*;
use crate::action::Action;
use crate::config::keymap::default_bindings;

verus! {

/// The default keymap binds exactly these keys: `j`/`k` move the cursor,
/// `h`/`l` leave and enter directories, `gg`/`G` jump to the ends, `Enter`
/// opens, `y`/`d`/`p`/`r` copy, delete, page and rename, `.` `/` `s` toggle
/// hidden files, search and sort, `b`/`'` add and open bookmarks, `R`/`D`
/// show recent and duplicate files, `q` `?` `:` quit, help and the command
/// palette, `Tab` `1` `2` switch panels, and `t` `w` `]` `[` open, close,
/// go to the next and to the previous tab.
#[verifier::spinoff_prover]
#[verifier::rlimit(50)]
pub proof fn law_default_keymap()
    ensures
        ({
            let m = default_bindings();
            &&& m.contains_key("j"@) && m["j"@] == Action::CursorDown
            &&& m.contains_key("k"@) && m["k"@] == Action::CursorUp
            &&& m.contains_key("h"@) && m["h"@] == Action::GoParent
            &&& m.contains_key("l"@) && m["l"@] == Action::EnterDir
            &&& m.contains_key("gg"@) && m["gg"@] == Action::CursorTop
            &&& m.contains_key("G"@) && m["G"@] == Action::CursorBottom
            &&& m.contains_key("Enter"@) && m["Enter"@] == Action::Open
            &&& m.contains_key("y"@) && m["y"@] == Action::Copy
            &&& m.contains_key("d"@) && m["d"@] == Action::Delete
            &&& m.contains_key("p"@) && m["p"@] == Action::Pager
            &&& m.contains_key("r"@) && m["r"@] == Action::Rename
            &&& m.contains_key("."@) && m["."@] == Action::ToggleHidden
            &&& m.contains_key("/"@) && m["/"@] == Action::Search
            &&& m.contains_key("s"@) && m["s"@] == Action::SortCycle
            &&& m.contains_key("b"@) && m["b"@] == Action::BookmarkAdd
            &&& m.contains_key("'"@) && m["'"@] == Action::BookmarkGo
            &&& m.contains_key("R"@) && m["R"@] == Action::RecentFiles
            &&& m.contains_key("D"@) && m["D"@] == Action::DuplicateFiles
            &&& m.contains_key("q"@) && m["q"@] == Action::Quit
            &&& m.contains_key("?"@) && m["?"@] == Action::Help
            &&& m.contains_key(":"@) && m[":"@] == Action::CommandPalette
            &&& m.contains_key("Tab"@) && m["Tab"@] == Action::PanelToggleDual
            &&& m.contains_key("1"@) && m["1"@] == Action::PanelFocusLeft
            &&& m.contains_key("2"@) && m["2"@] == Action::PanelFocusRight
            &&& m.contains_key("t"@) && m["t"@] == Action::TabNew
            &&& m.contains_key("w"@) && m["w"@] == Action::TabClose
            &&& m.contains_key("]"@) && m["]"@] == Action::TabNext
            &&& m.contains_key("["@) && m["["@] == Action::TabPrev
        }),
{
    reveal_strlit("j");
    assert("j"@.len() == 1 && "j"@[0] == 'j');
    reveal_strlit("k");
    assert("k"@.len() == 1 && "k"@[0] == 'k');
    reveal_strlit("h");
    assert("h"@.len() == 1 && "h"@[0] == 'h');
    reveal_strlit("l");
    assert("l"@.len() == 1 && "l"@[0] == 'l');
    reveal_strlit("gg");
    assert("gg"@.len() == 2 && "gg"@[0] == 'g');
    reveal_strlit("G");
    assert("G"@.len() == 1 && "G"@[0] == 'G');
    reveal_strlit("Enter");
    assert("Enter"@.len() == 5 && "Enter"@[0] == 'E');
    reveal_strlit("y");
    assert("y"@.len() == 1 && "y"@[0] == 'y');
    reveal_strlit("d");
    assert("d"@.len() == 1 && "d"@[0] == 'd');
    reveal_strlit("p");
    assert("p"@.len() == 1 && "p"@[0] == 'p');
    reveal_strlit("r");
    assert("r"@.len() == 1 && "r"@[0] == 'r');
    reveal_strlit(".");
    assert("."@.len() == 1 && "."@[0] == '.');
    reveal_strlit("/");
    assert("/"@.len() == 1 && "/"@[0] == '/');
    reveal_strlit("s");
    assert("s"@.len() == 1 && "s"@[0] == 's');
    reveal_strlit("b");
    assert("b"@.len() == 1 && "b"@[0] == 'b');
    reveal_strlit("'");
    assert("'"@.len() == 1 && "'"@[0] == '\'');
    reveal_strlit("R");
    assert("R"@.len() == 1 && "R"@[0] == 'R');
    reveal_strlit("D");
    assert("D"@.len() == 1 && "D"@[0] == 'D');
    reveal_strlit("q");
    assert("q"@.len() == 1 && "q"@[0] == 'q');
    reveal_strlit("?");
    assert("?"@.len() == 1 && "?"@[0] == '?');
    reveal_strlit(":");
    assert(":"@.len() == 1 && ":"@[0] == ':');
    reveal_strlit("Tab");
    assert("Tab"@.len() == 3 && "Tab"@[0] == 'T');
    reveal_strlit("1");
    assert("1"@.len() == 1 && "1"@[0] == '1');
    reveal_strlit("2");
    assert("2"@.len() == 1 && "2"@[0] == '2');
    reveal_strlit("t");
    assert("t"@.len() == 1 && "t"@[0] == 't');
    reveal_strlit("w");
    assert("w"@.len() == 1 && "w"@[0] == 'w');
    reveal_strlit("]");
    assert("]"@.len() == 1 && "]"@[0] == ']');
    reveal_strlit("[");
    assert("["@.len() == 1 && "["@[0] == '[');
}

/// The default keymap binds no other keys than those of [`law_default_keymap`].
pub proof fn law_default_keymap_keys(key: Seq<char>)
    ensures
        default_bindings().contains_key(key) ==> key == "j"@ || key == "k"@ || key == "h"@ || key == "l"@ || key == "gg"@ || key == "G"@ || key == "Enter"@ || key == "y"@ || key == "d"@ || key == "p"@ || key == "r"@ || key == "."@ || key == "/"@ || key == "s"@ || key == "b"@ || key == "'"@ || key == "R"@ || key == "D"@ || key == "q"@ || key == "?"@ || key == ":"@ || key == "Tab"@ || key == "1"@ || key == "2"@ || key == "t"@ || key == "w"@ || key == "]"@ || key == "["@,
{
}

} // verus!

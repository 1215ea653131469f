//! Laws of the named keys: each key code belongs to one key.
use vstd::prelude::*;

use crate::hotkey::named_vk;

verus! {

/// The one name that the key table gives each key: `MetaLeft`, `Command` and
/// `Super` are other names of `Win`, `Apostrophe` of `Quote` and `Backquote`
/// of `Grave`; every other name is its own.
pub open spec fn key_alias(t: Seq<char>) -> Seq<char> {
    if t == "MetaLeft"@ || t == "Command"@ || t == "Super"@ {
        "Win"@
    } else if t == "Apostrophe"@ {
        "Quote"@
    } else if t == "Backquote"@ {
        "Grave"@
    } else {
        t
    }
}

/// The key that a virtual-key code of the named-key table stands for.
pub open spec fn named_key_of_vk(v: u32) -> Seq<char> {
    if v == 0x20u32 {
        "Space"@
    } else if v == 0x09u32 {
        "Tab"@
    } else if v == 0x08u32 {
        "Backspace"@
    } else if v == 0x0Du32 {
        "Return"@
    } else if v == 0x1Bu32 {
        "Escape"@
    } else if v == 0x14u32 {
        "CapsLock"@
    } else if v == 0x90u32 {
        "NumLock"@
    } else if v == 0x91u32 {
        "ScrollLock"@
    } else if v == 0x2Cu32 {
        "PrintScreen"@
    } else if v == 0x13u32 {
        "Pause"@
    } else if v == 0x5Du32 {
        "Menu"@
    } else if v == 0x5Bu32 {
        "Win"@
    } else if v == 0x5Cu32 {
        "MetaRight"@
    } else if v == 0x2Du32 {
        "Insert"@
    } else if v == 0x2Eu32 {
        "Delete"@
    } else if v == 0x24u32 {
        "Home"@
    } else if v == 0x23u32 {
        "End"@
    } else if v == 0x21u32 {
        "PageUp"@
    } else if v == 0x22u32 {
        "PageDown"@
    } else if v == 0x26u32 {
        "UpArrow"@
    } else if v == 0x28u32 {
        "DownArrow"@
    } else if v == 0x25u32 {
        "LeftArrow"@
    } else if v == 0x27u32 {
        "RightArrow"@
    } else if v == 0xBDu32 {
        "Minus"@
    } else if v == 0xBBu32 {
        "Equal"@
    } else if v == 0xBCu32 {
        "Comma"@
    } else if v == 0xBEu32 {
        "Period"@
    } else if v == 0xBFu32 {
        "Slash"@
    } else if v == 0xDCu32 {
        "BackSlash"@
    } else if v == 0xDEu32 {
        "Quote"@
    } else if v == 0xBAu32 {
        "Semicolon"@
    } else if v == 0xC0u32 {
        "Grave"@
    } else if v == 0xDBu32 {
        "BracketLeft"@
    } else if v == 0xDDu32 {
        "BracketRight"@
    } else {
        Seq::<char>::empty()
    }
}

proof fn lemma_named_space()
    ensures
        named_vk("Space"@) == Some(0x20u32),
        key_alias("Space"@) == "Space"@,
{
    reveal_strlit("Space");
    reveal_strlit("MetaLeft");
    assert("Space"@.len() != "MetaLeft"@.len());
    reveal_strlit("Command");
    assert("Space"@.len() != "Command"@.len());
    reveal_strlit("Super");
    assert("Space"@[1] != "Super"@[1]);
    reveal_strlit("Apostrophe");
    assert("Space"@.len() != "Apostrophe"@.len());
    reveal_strlit("Backquote");
    assert("Space"@.len() != "Backquote"@.len());
}

proof fn lemma_named_tab()
    ensures
        named_vk("Tab"@) == Some(0x09u32),
        key_alias("Tab"@) == "Tab"@,
{
    reveal_strlit("Tab");
    reveal_strlit("Space");
    assert("Tab"@.len() != "Space"@.len());
    reveal_strlit("MetaLeft");
    assert("Tab"@.len() != "MetaLeft"@.len());
    reveal_strlit("Command");
    assert("Tab"@.len() != "Command"@.len());
    reveal_strlit("Super");
    assert("Tab"@.len() != "Super"@.len());
    reveal_strlit("Apostrophe");
    assert("Tab"@.len() != "Apostrophe"@.len());
    reveal_strlit("Backquote");
    assert("Tab"@.len() != "Backquote"@.len());
}

proof fn lemma_named_backspace()
    ensures
        named_vk("Backspace"@) == Some(0x08u32),
        key_alias("Backspace"@) == "Backspace"@,
{
    reveal_strlit("Backspace");
    reveal_strlit("Space");
    assert("Backspace"@.len() != "Space"@.len());
    reveal_strlit("Tab");
    assert("Backspace"@.len() != "Tab"@.len());
    reveal_strlit("MetaLeft");
    assert("Backspace"@.len() != "MetaLeft"@.len());
    reveal_strlit("Command");
    assert("Backspace"@.len() != "Command"@.len());
    reveal_strlit("Super");
    assert("Backspace"@.len() != "Super"@.len());
    reveal_strlit("Apostrophe");
    assert("Backspace"@.len() != "Apostrophe"@.len());
    reveal_strlit("Backquote");
    assert("Backspace"@[4] != "Backquote"@[4]);
}

proof fn lemma_named_return()
    ensures
        named_vk("Return"@) == Some(0x0Du32),
        key_alias("Return"@) == "Return"@,
{
    reveal_strlit("Return");
    reveal_strlit("Space");
    assert("Return"@.len() != "Space"@.len());
    reveal_strlit("Tab");
    assert("Return"@.len() != "Tab"@.len());
    reveal_strlit("Backspace");
    assert("Return"@.len() != "Backspace"@.len());
    reveal_strlit("MetaLeft");
    assert("Return"@.len() != "MetaLeft"@.len());
    reveal_strlit("Command");
    assert("Return"@.len() != "Command"@.len());
    reveal_strlit("Super");
    assert("Return"@.len() != "Super"@.len());
    reveal_strlit("Apostrophe");
    assert("Return"@.len() != "Apostrophe"@.len());
    reveal_strlit("Backquote");
    assert("Return"@.len() != "Backquote"@.len());
}

proof fn lemma_named_escape()
    ensures
        named_vk("Escape"@) == Some(0x1Bu32),
        key_alias("Escape"@) == "Escape"@,
{
    reveal_strlit("Escape");
    reveal_strlit("Space");
    assert("Escape"@.len() != "Space"@.len());
    reveal_strlit("Tab");
    assert("Escape"@.len() != "Tab"@.len());
    reveal_strlit("Backspace");
    assert("Escape"@.len() != "Backspace"@.len());
    reveal_strlit("Return");
    assert("Escape"@[0] != "Return"@[0]);
    reveal_strlit("MetaLeft");
    assert("Escape"@.len() != "MetaLeft"@.len());
    reveal_strlit("Command");
    assert("Escape"@.len() != "Command"@.len());
    reveal_strlit("Super");
    assert("Escape"@.len() != "Super"@.len());
    reveal_strlit("Apostrophe");
    assert("Escape"@.len() != "Apostrophe"@.len());
    reveal_strlit("Backquote");
    assert("Escape"@.len() != "Backquote"@.len());
}

proof fn lemma_named_caps_lock()
    ensures
        named_vk("CapsLock"@) == Some(0x14u32),
        key_alias("CapsLock"@) == "CapsLock"@,
{
    reveal_strlit("CapsLock");
    reveal_strlit("Space");
    assert("CapsLock"@.len() != "Space"@.len());
    reveal_strlit("Tab");
    assert("CapsLock"@.len() != "Tab"@.len());
    reveal_strlit("Backspace");
    assert("CapsLock"@.len() != "Backspace"@.len());
    reveal_strlit("Return");
    assert("CapsLock"@.len() != "Return"@.len());
    reveal_strlit("Escape");
    assert("CapsLock"@.len() != "Escape"@.len());
    reveal_strlit("MetaLeft");
    assert("CapsLock"@[0] != "MetaLeft"@[0]);
    reveal_strlit("Command");
    assert("CapsLock"@.len() != "Command"@.len());
    reveal_strlit("Super");
    assert("CapsLock"@.len() != "Super"@.len());
    reveal_strlit("Apostrophe");
    assert("CapsLock"@.len() != "Apostrophe"@.len());
    reveal_strlit("Backquote");
    assert("CapsLock"@.len() != "Backquote"@.len());
}

proof fn lemma_named_num_lock()
    ensures
        named_vk("NumLock"@) == Some(0x90u32),
        key_alias("NumLock"@) == "NumLock"@,
{
    reveal_strlit("NumLock");
    reveal_strlit("Space");
    assert("NumLock"@.len() != "Space"@.len());
    reveal_strlit("Tab");
    assert("NumLock"@.len() != "Tab"@.len());
    reveal_strlit("Backspace");
    assert("NumLock"@.len() != "Backspace"@.len());
    reveal_strlit("Return");
    assert("NumLock"@.len() != "Return"@.len());
    reveal_strlit("Escape");
    assert("NumLock"@.len() != "Escape"@.len());
    reveal_strlit("CapsLock");
    assert("NumLock"@.len() != "CapsLock"@.len());
    reveal_strlit("MetaLeft");
    assert("NumLock"@.len() != "MetaLeft"@.len());
    reveal_strlit("Command");
    assert("NumLock"@[0] != "Command"@[0]);
    reveal_strlit("Super");
    assert("NumLock"@.len() != "Super"@.len());
    reveal_strlit("Apostrophe");
    assert("NumLock"@.len() != "Apostrophe"@.len());
    reveal_strlit("Backquote");
    assert("NumLock"@.len() != "Backquote"@.len());
}

proof fn lemma_named_scroll_lock()
    ensures
        named_vk("ScrollLock"@) == Some(0x91u32),
        key_alias("ScrollLock"@) == "ScrollLock"@,
{
    reveal_strlit("ScrollLock");
    reveal_strlit("Space");
    assert("ScrollLock"@.len() != "Space"@.len());
    reveal_strlit("Tab");
    assert("ScrollLock"@.len() != "Tab"@.len());
    reveal_strlit("Backspace");
    assert("ScrollLock"@.len() != "Backspace"@.len());
    reveal_strlit("Return");
    assert("ScrollLock"@.len() != "Return"@.len());
    reveal_strlit("Escape");
    assert("ScrollLock"@.len() != "Escape"@.len());
    reveal_strlit("CapsLock");
    assert("ScrollLock"@.len() != "CapsLock"@.len());
    reveal_strlit("NumLock");
    assert("ScrollLock"@.len() != "NumLock"@.len());
    reveal_strlit("MetaLeft");
    assert("ScrollLock"@.len() != "MetaLeft"@.len());
    reveal_strlit("Command");
    assert("ScrollLock"@.len() != "Command"@.len());
    reveal_strlit("Super");
    assert("ScrollLock"@.len() != "Super"@.len());
    reveal_strlit("Apostrophe");
    assert("ScrollLock"@[0] != "Apostrophe"@[0]);
    reveal_strlit("Backquote");
    assert("ScrollLock"@.len() != "Backquote"@.len());
}

proof fn lemma_named_print_screen()
    ensures
        named_vk("PrintScreen"@) == Some(0x2Cu32),
        key_alias("PrintScreen"@) == "PrintScreen"@,
{
    reveal_strlit("PrintScreen");
    reveal_strlit("Space");
    assert("PrintScreen"@.len() != "Space"@.len());
    reveal_strlit("Tab");
    assert("PrintScreen"@.len() != "Tab"@.len());
    reveal_strlit("Backspace");
    assert("PrintScreen"@.len() != "Backspace"@.len());
    reveal_strlit("Return");
    assert("PrintScreen"@.len() != "Return"@.len());
    reveal_strlit("Escape");
    assert("PrintScreen"@.len() != "Escape"@.len());
    reveal_strlit("CapsLock");
    assert("PrintScreen"@.len() != "CapsLock"@.len());
    reveal_strlit("NumLock");
    assert("PrintScreen"@.len() != "NumLock"@.len());
    reveal_strlit("ScrollLock");
    assert("PrintScreen"@.len() != "ScrollLock"@.len());
    reveal_strlit("MetaLeft");
    assert("PrintScreen"@.len() != "MetaLeft"@.len());
    reveal_strlit("Command");
    assert("PrintScreen"@.len() != "Command"@.len());
    reveal_strlit("Super");
    assert("PrintScreen"@.len() != "Super"@.len());
    reveal_strlit("Apostrophe");
    assert("PrintScreen"@.len() != "Apostrophe"@.len());
    reveal_strlit("Backquote");
    assert("PrintScreen"@.len() != "Backquote"@.len());
}

proof fn lemma_named_pause()
    ensures
        named_vk("Pause"@) == Some(0x13u32),
        key_alias("Pause"@) == "Pause"@,
{
    reveal_strlit("Pause");
    reveal_strlit("Space");
    assert("Pause"@[0] != "Space"@[0]);
    reveal_strlit("Tab");
    assert("Pause"@.len() != "Tab"@.len());
    reveal_strlit("Backspace");
    assert("Pause"@.len() != "Backspace"@.len());
    reveal_strlit("Return");
    assert("Pause"@.len() != "Return"@.len());
    reveal_strlit("Escape");
    assert("Pause"@.len() != "Escape"@.len());
    reveal_strlit("CapsLock");
    assert("Pause"@.len() != "CapsLock"@.len());
    reveal_strlit("NumLock");
    assert("Pause"@.len() != "NumLock"@.len());
    reveal_strlit("ScrollLock");
    assert("Pause"@.len() != "ScrollLock"@.len());
    reveal_strlit("PrintScreen");
    assert("Pause"@.len() != "PrintScreen"@.len());
    reveal_strlit("MetaLeft");
    assert("Pause"@.len() != "MetaLeft"@.len());
    reveal_strlit("Command");
    assert("Pause"@.len() != "Command"@.len());
    reveal_strlit("Super");
    assert("Pause"@[0] != "Super"@[0]);
    reveal_strlit("Apostrophe");
    assert("Pause"@.len() != "Apostrophe"@.len());
    reveal_strlit("Backquote");
    assert("Pause"@.len() != "Backquote"@.len());
}

proof fn lemma_named_menu()
    ensures
        named_vk("Menu"@) == Some(0x5Du32),
        key_alias("Menu"@) == "Menu"@,
{
    reveal_strlit("Menu");
    reveal_strlit("Space");
    assert("Menu"@.len() != "Space"@.len());
    reveal_strlit("Tab");
    assert("Menu"@.len() != "Tab"@.len());
    reveal_strlit("Backspace");
    assert("Menu"@.len() != "Backspace"@.len());
    reveal_strlit("Return");
    assert("Menu"@.len() != "Return"@.len());
    reveal_strlit("Escape");
    assert("Menu"@.len() != "Escape"@.len());
    reveal_strlit("CapsLock");
    assert("Menu"@.len() != "CapsLock"@.len());
    reveal_strlit("NumLock");
    assert("Menu"@.len() != "NumLock"@.len());
    reveal_strlit("ScrollLock");
    assert("Menu"@.len() != "ScrollLock"@.len());
    reveal_strlit("PrintScreen");
    assert("Menu"@.len() != "PrintScreen"@.len());
    reveal_strlit("Pause");
    assert("Menu"@.len() != "Pause"@.len());
    reveal_strlit("MetaLeft");
    assert("Menu"@.len() != "MetaLeft"@.len());
    reveal_strlit("Command");
    assert("Menu"@.len() != "Command"@.len());
    reveal_strlit("Super");
    assert("Menu"@.len() != "Super"@.len());
    reveal_strlit("Apostrophe");
    assert("Menu"@.len() != "Apostrophe"@.len());
    reveal_strlit("Backquote");
    assert("Menu"@.len() != "Backquote"@.len());
}

proof fn lemma_named_meta_left()
    ensures
        named_vk("MetaLeft"@) == Some(0x5Bu32),
        key_alias("MetaLeft"@) == "Win"@,
{
    reveal_strlit("MetaLeft");
    reveal_strlit("Space");
    assert("MetaLeft"@.len() != "Space"@.len());
    reveal_strlit("Tab");
    assert("MetaLeft"@.len() != "Tab"@.len());
    reveal_strlit("Backspace");
    assert("MetaLeft"@.len() != "Backspace"@.len());
    reveal_strlit("Return");
    assert("MetaLeft"@.len() != "Return"@.len());
    reveal_strlit("Escape");
    assert("MetaLeft"@.len() != "Escape"@.len());
    reveal_strlit("CapsLock");
    assert("MetaLeft"@[0] != "CapsLock"@[0]);
    reveal_strlit("NumLock");
    assert("MetaLeft"@.len() != "NumLock"@.len());
    reveal_strlit("ScrollLock");
    assert("MetaLeft"@.len() != "ScrollLock"@.len());
    reveal_strlit("PrintScreen");
    assert("MetaLeft"@.len() != "PrintScreen"@.len());
    reveal_strlit("Pause");
    assert("MetaLeft"@.len() != "Pause"@.len());
    reveal_strlit("Menu");
    assert("MetaLeft"@.len() != "Menu"@.len());
    reveal_strlit("Command");
    assert("MetaLeft"@.len() != "Command"@.len());
    reveal_strlit("Super");
    assert("MetaLeft"@.len() != "Super"@.len());
    reveal_strlit("Apostrophe");
    assert("MetaLeft"@.len() != "Apostrophe"@.len());
    reveal_strlit("Backquote");
    assert("MetaLeft"@.len() != "Backquote"@.len());
    reveal_strlit("Win");
}

proof fn lemma_named_meta_right()
    ensures
        named_vk("MetaRight"@) == Some(0x5Cu32),
        key_alias("MetaRight"@) == "MetaRight"@,
{
    reveal_strlit("MetaRight");
    reveal_strlit("Space");
    assert("MetaRight"@.len() != "Space"@.len());
    reveal_strlit("Tab");
    assert("MetaRight"@.len() != "Tab"@.len());
    reveal_strlit("Backspace");
    assert("MetaRight"@[0] != "Backspace"@[0]);
    reveal_strlit("Return");
    assert("MetaRight"@.len() != "Return"@.len());
    reveal_strlit("Escape");
    assert("MetaRight"@.len() != "Escape"@.len());
    reveal_strlit("CapsLock");
    assert("MetaRight"@.len() != "CapsLock"@.len());
    reveal_strlit("NumLock");
    assert("MetaRight"@.len() != "NumLock"@.len());
    reveal_strlit("ScrollLock");
    assert("MetaRight"@.len() != "ScrollLock"@.len());
    reveal_strlit("PrintScreen");
    assert("MetaRight"@.len() != "PrintScreen"@.len());
    reveal_strlit("Pause");
    assert("MetaRight"@.len() != "Pause"@.len());
    reveal_strlit("Menu");
    assert("MetaRight"@.len() != "Menu"@.len());
    reveal_strlit("MetaLeft");
    assert("MetaRight"@.len() != "MetaLeft"@.len());
    reveal_strlit("Command");
    assert("MetaRight"@.len() != "Command"@.len());
    reveal_strlit("Super");
    assert("MetaRight"@.len() != "Super"@.len());
    reveal_strlit("Apostrophe");
    assert("MetaRight"@.len() != "Apostrophe"@.len());
    reveal_strlit("Backquote");
    assert("MetaRight"@[0] != "Backquote"@[0]);
}

proof fn lemma_named_command()
    ensures
        named_vk("Command"@) == Some(0x5Bu32),
        key_alias("Command"@) == "Win"@,
{
    reveal_strlit("Command");
    reveal_strlit("Space");
    assert("Command"@.len() != "Space"@.len());
    reveal_strlit("Tab");
    assert("Command"@.len() != "Tab"@.len());
    reveal_strlit("Backspace");
    assert("Command"@.len() != "Backspace"@.len());
    reveal_strlit("Return");
    assert("Command"@.len() != "Return"@.len());
    reveal_strlit("Escape");
    assert("Command"@.len() != "Escape"@.len());
    reveal_strlit("CapsLock");
    assert("Command"@.len() != "CapsLock"@.len());
    reveal_strlit("NumLock");
    assert("Command"@[0] != "NumLock"@[0]);
    reveal_strlit("ScrollLock");
    assert("Command"@.len() != "ScrollLock"@.len());
    reveal_strlit("PrintScreen");
    assert("Command"@.len() != "PrintScreen"@.len());
    reveal_strlit("Pause");
    assert("Command"@.len() != "Pause"@.len());
    reveal_strlit("Menu");
    assert("Command"@.len() != "Menu"@.len());
    reveal_strlit("MetaLeft");
    assert("Command"@.len() != "MetaLeft"@.len());
    reveal_strlit("MetaRight");
    assert("Command"@.len() != "MetaRight"@.len());
    reveal_strlit("Super");
    assert("Command"@.len() != "Super"@.len());
    reveal_strlit("Apostrophe");
    assert("Command"@.len() != "Apostrophe"@.len());
    reveal_strlit("Backquote");
    assert("Command"@.len() != "Backquote"@.len());
    reveal_strlit("Win");
}

proof fn lemma_named_super()
    ensures
        named_vk("Super"@) == Some(0x5Bu32),
        key_alias("Super"@) == "Win"@,
{
    reveal_strlit("Super");
    reveal_strlit("Space");
    assert("Super"@[1] != "Space"@[1]);
    reveal_strlit("Tab");
    assert("Super"@.len() != "Tab"@.len());
    reveal_strlit("Backspace");
    assert("Super"@.len() != "Backspace"@.len());
    reveal_strlit("Return");
    assert("Super"@.len() != "Return"@.len());
    reveal_strlit("Escape");
    assert("Super"@.len() != "Escape"@.len());
    reveal_strlit("CapsLock");
    assert("Super"@.len() != "CapsLock"@.len());
    reveal_strlit("NumLock");
    assert("Super"@.len() != "NumLock"@.len());
    reveal_strlit("ScrollLock");
    assert("Super"@.len() != "ScrollLock"@.len());
    reveal_strlit("PrintScreen");
    assert("Super"@.len() != "PrintScreen"@.len());
    reveal_strlit("Pause");
    assert("Super"@[0] != "Pause"@[0]);
    reveal_strlit("Menu");
    assert("Super"@.len() != "Menu"@.len());
    reveal_strlit("MetaLeft");
    assert("Super"@.len() != "MetaLeft"@.len());
    reveal_strlit("MetaRight");
    assert("Super"@.len() != "MetaRight"@.len());
    reveal_strlit("Command");
    assert("Super"@.len() != "Command"@.len());
    reveal_strlit("Apostrophe");
    assert("Super"@.len() != "Apostrophe"@.len());
    reveal_strlit("Backquote");
    assert("Super"@.len() != "Backquote"@.len());
    reveal_strlit("Win");
}

proof fn lemma_named_win()
    ensures
        named_vk("Win"@) == Some(0x5Bu32),
        key_alias("Win"@) == "Win"@,
{
    reveal_strlit("Win");
    reveal_strlit("Space");
    assert("Win"@.len() != "Space"@.len());
    reveal_strlit("Tab");
    assert("Win"@[0] != "Tab"@[0]);
    reveal_strlit("Backspace");
    assert("Win"@.len() != "Backspace"@.len());
    reveal_strlit("Return");
    assert("Win"@.len() != "Return"@.len());
    reveal_strlit("Escape");
    assert("Win"@.len() != "Escape"@.len());
    reveal_strlit("CapsLock");
    assert("Win"@.len() != "CapsLock"@.len());
    reveal_strlit("NumLock");
    assert("Win"@.len() != "NumLock"@.len());
    reveal_strlit("ScrollLock");
    assert("Win"@.len() != "ScrollLock"@.len());
    reveal_strlit("PrintScreen");
    assert("Win"@.len() != "PrintScreen"@.len());
    reveal_strlit("Pause");
    assert("Win"@.len() != "Pause"@.len());
    reveal_strlit("Menu");
    assert("Win"@.len() != "Menu"@.len());
    reveal_strlit("MetaLeft");
    assert("Win"@.len() != "MetaLeft"@.len());
    reveal_strlit("MetaRight");
    assert("Win"@.len() != "MetaRight"@.len());
    reveal_strlit("Command");
    assert("Win"@.len() != "Command"@.len());
    reveal_strlit("Super");
    assert("Win"@.len() != "Super"@.len());
    reveal_strlit("Apostrophe");
    assert("Win"@.len() != "Apostrophe"@.len());
    reveal_strlit("Backquote");
    assert("Win"@.len() != "Backquote"@.len());
}

proof fn lemma_named_insert()
    ensures
        named_vk("Insert"@) == Some(0x2Du32),
        key_alias("Insert"@) == "Insert"@,
{
    reveal_strlit("Insert");
    reveal_strlit("Space");
    assert("Insert"@.len() != "Space"@.len());
    reveal_strlit("Tab");
    assert("Insert"@.len() != "Tab"@.len());
    reveal_strlit("Backspace");
    assert("Insert"@.len() != "Backspace"@.len());
    reveal_strlit("Return");
    assert("Insert"@[0] != "Return"@[0]);
    reveal_strlit("Escape");
    assert("Insert"@[0] != "Escape"@[0]);
    reveal_strlit("CapsLock");
    assert("Insert"@.len() != "CapsLock"@.len());
    reveal_strlit("NumLock");
    assert("Insert"@.len() != "NumLock"@.len());
    reveal_strlit("ScrollLock");
    assert("Insert"@.len() != "ScrollLock"@.len());
    reveal_strlit("PrintScreen");
    assert("Insert"@.len() != "PrintScreen"@.len());
    reveal_strlit("Pause");
    assert("Insert"@.len() != "Pause"@.len());
    reveal_strlit("Menu");
    assert("Insert"@.len() != "Menu"@.len());
    reveal_strlit("MetaLeft");
    assert("Insert"@.len() != "MetaLeft"@.len());
    reveal_strlit("MetaRight");
    assert("Insert"@.len() != "MetaRight"@.len());
    reveal_strlit("Command");
    assert("Insert"@.len() != "Command"@.len());
    reveal_strlit("Super");
    assert("Insert"@.len() != "Super"@.len());
    reveal_strlit("Win");
    assert("Insert"@.len() != "Win"@.len());
    reveal_strlit("Apostrophe");
    assert("Insert"@.len() != "Apostrophe"@.len());
    reveal_strlit("Backquote");
    assert("Insert"@.len() != "Backquote"@.len());
}

proof fn lemma_named_delete()
    ensures
        named_vk("Delete"@) == Some(0x2Eu32),
        key_alias("Delete"@) == "Delete"@,
{
    reveal_strlit("Delete");
    reveal_strlit("Space");
    assert("Delete"@.len() != "Space"@.len());
    reveal_strlit("Tab");
    assert("Delete"@.len() != "Tab"@.len());
    reveal_strlit("Backspace");
    assert("Delete"@.len() != "Backspace"@.len());
    reveal_strlit("Return");
    assert("Delete"@[0] != "Return"@[0]);
    reveal_strlit("Escape");
    assert("Delete"@[0] != "Escape"@[0]);
    reveal_strlit("CapsLock");
    assert("Delete"@.len() != "CapsLock"@.len());
    reveal_strlit("NumLock");
    assert("Delete"@.len() != "NumLock"@.len());
    reveal_strlit("ScrollLock");
    assert("Delete"@.len() != "ScrollLock"@.len());
    reveal_strlit("PrintScreen");
    assert("Delete"@.len() != "PrintScreen"@.len());
    reveal_strlit("Pause");
    assert("Delete"@.len() != "Pause"@.len());
    reveal_strlit("Menu");
    assert("Delete"@.len() != "Menu"@.len());
    reveal_strlit("MetaLeft");
    assert("Delete"@.len() != "MetaLeft"@.len());
    reveal_strlit("MetaRight");
    assert("Delete"@.len() != "MetaRight"@.len());
    reveal_strlit("Command");
    assert("Delete"@.len() != "Command"@.len());
    reveal_strlit("Super");
    assert("Delete"@.len() != "Super"@.len());
    reveal_strlit("Win");
    assert("Delete"@.len() != "Win"@.len());
    reveal_strlit("Insert");
    assert("Delete"@[0] != "Insert"@[0]);
    reveal_strlit("Apostrophe");
    assert("Delete"@.len() != "Apostrophe"@.len());
    reveal_strlit("Backquote");
    assert("Delete"@.len() != "Backquote"@.len());
}

proof fn lemma_named_home()
    ensures
        named_vk("Home"@) == Some(0x24u32),
        key_alias("Home"@) == "Home"@,
{
    reveal_strlit("Home");
    reveal_strlit("Space");
    assert("Home"@.len() != "Space"@.len());
    reveal_strlit("Tab");
    assert("Home"@.len() != "Tab"@.len());
    reveal_strlit("Backspace");
    assert("Home"@.len() != "Backspace"@.len());
    reveal_strlit("Return");
    assert("Home"@.len() != "Return"@.len());
    reveal_strlit("Escape");
    assert("Home"@.len() != "Escape"@.len());
    reveal_strlit("CapsLock");
    assert("Home"@.len() != "CapsLock"@.len());
    reveal_strlit("NumLock");
    assert("Home"@.len() != "NumLock"@.len());
    reveal_strlit("ScrollLock");
    assert("Home"@.len() != "ScrollLock"@.len());
    reveal_strlit("PrintScreen");
    assert("Home"@.len() != "PrintScreen"@.len());
    reveal_strlit("Pause");
    assert("Home"@.len() != "Pause"@.len());
    reveal_strlit("Menu");
    assert("Home"@[0] != "Menu"@[0]);
    reveal_strlit("MetaLeft");
    assert("Home"@.len() != "MetaLeft"@.len());
    reveal_strlit("MetaRight");
    assert("Home"@.len() != "MetaRight"@.len());
    reveal_strlit("Command");
    assert("Home"@.len() != "Command"@.len());
    reveal_strlit("Super");
    assert("Home"@.len() != "Super"@.len());
    reveal_strlit("Win");
    assert("Home"@.len() != "Win"@.len());
    reveal_strlit("Insert");
    assert("Home"@.len() != "Insert"@.len());
    reveal_strlit("Delete");
    assert("Home"@.len() != "Delete"@.len());
    reveal_strlit("Apostrophe");
    assert("Home"@.len() != "Apostrophe"@.len());
    reveal_strlit("Backquote");
    assert("Home"@.len() != "Backquote"@.len());
}

proof fn lemma_named_end()
    ensures
        named_vk("End"@) == Some(0x23u32),
        key_alias("End"@) == "End"@,
{
    reveal_strlit("End");
    reveal_strlit("Space");
    assert("End"@.len() != "Space"@.len());
    reveal_strlit("Tab");
    assert("End"@[0] != "Tab"@[0]);
    reveal_strlit("Backspace");
    assert("End"@.len() != "Backspace"@.len());
    reveal_strlit("Return");
    assert("End"@.len() != "Return"@.len());
    reveal_strlit("Escape");
    assert("End"@.len() != "Escape"@.len());
    reveal_strlit("CapsLock");
    assert("End"@.len() != "CapsLock"@.len());
    reveal_strlit("NumLock");
    assert("End"@.len() != "NumLock"@.len());
    reveal_strlit("ScrollLock");
    assert("End"@.len() != "ScrollLock"@.len());
    reveal_strlit("PrintScreen");
    assert("End"@.len() != "PrintScreen"@.len());
    reveal_strlit("Pause");
    assert("End"@.len() != "Pause"@.len());
    reveal_strlit("Menu");
    assert("End"@.len() != "Menu"@.len());
    reveal_strlit("MetaLeft");
    assert("End"@.len() != "MetaLeft"@.len());
    reveal_strlit("MetaRight");
    assert("End"@.len() != "MetaRight"@.len());
    reveal_strlit("Command");
    assert("End"@.len() != "Command"@.len());
    reveal_strlit("Super");
    assert("End"@.len() != "Super"@.len());
    reveal_strlit("Win");
    assert("End"@[0] != "Win"@[0]);
    reveal_strlit("Insert");
    assert("End"@.len() != "Insert"@.len());
    reveal_strlit("Delete");
    assert("End"@.len() != "Delete"@.len());
    reveal_strlit("Home");
    assert("End"@.len() != "Home"@.len());
    reveal_strlit("Apostrophe");
    assert("End"@.len() != "Apostrophe"@.len());
    reveal_strlit("Backquote");
    assert("End"@.len() != "Backquote"@.len());
}

proof fn lemma_named_page_up()
    ensures
        named_vk("PageUp"@) == Some(0x21u32),
        key_alias("PageUp"@) == "PageUp"@,
{
    reveal_strlit("PageUp");
    reveal_strlit("Space");
    assert("PageUp"@.len() != "Space"@.len());
    reveal_strlit("Tab");
    assert("PageUp"@.len() != "Tab"@.len());
    reveal_strlit("Backspace");
    assert("PageUp"@.len() != "Backspace"@.len());
    reveal_strlit("Return");
    assert("PageUp"@[0] != "Return"@[0]);
    reveal_strlit("Escape");
    assert("PageUp"@[0] != "Escape"@[0]);
    reveal_strlit("CapsLock");
    assert("PageUp"@.len() != "CapsLock"@.len());
    reveal_strlit("NumLock");
    assert("PageUp"@.len() != "NumLock"@.len());
    reveal_strlit("ScrollLock");
    assert("PageUp"@.len() != "ScrollLock"@.len());
    reveal_strlit("PrintScreen");
    assert("PageUp"@.len() != "PrintScreen"@.len());
    reveal_strlit("Pause");
    assert("PageUp"@.len() != "Pause"@.len());
    reveal_strlit("Menu");
    assert("PageUp"@.len() != "Menu"@.len());
    reveal_strlit("MetaLeft");
    assert("PageUp"@.len() != "MetaLeft"@.len());
    reveal_strlit("MetaRight");
    assert("PageUp"@.len() != "MetaRight"@.len());
    reveal_strlit("Command");
    assert("PageUp"@.len() != "Command"@.len());
    reveal_strlit("Super");
    assert("PageUp"@.len() != "Super"@.len());
    reveal_strlit("Win");
    assert("PageUp"@.len() != "Win"@.len());
    reveal_strlit("Insert");
    assert("PageUp"@[0] != "Insert"@[0]);
    reveal_strlit("Delete");
    assert("PageUp"@[0] != "Delete"@[0]);
    reveal_strlit("Home");
    assert("PageUp"@.len() != "Home"@.len());
    reveal_strlit("End");
    assert("PageUp"@.len() != "End"@.len());
    reveal_strlit("Apostrophe");
    assert("PageUp"@.len() != "Apostrophe"@.len());
    reveal_strlit("Backquote");
    assert("PageUp"@.len() != "Backquote"@.len());
}

proof fn lemma_named_page_down()
    ensures
        named_vk("PageDown"@) == Some(0x22u32),
        key_alias("PageDown"@) == "PageDown"@,
{
    reveal_strlit("PageDown");
    reveal_strlit("Space");
    assert("PageDown"@.len() != "Space"@.len());
    reveal_strlit("Tab");
    assert("PageDown"@.len() != "Tab"@.len());
    reveal_strlit("Backspace");
    assert("PageDown"@.len() != "Backspace"@.len());
    reveal_strlit("Return");
    assert("PageDown"@.len() != "Return"@.len());
    reveal_strlit("Escape");
    assert("PageDown"@.len() != "Escape"@.len());
    reveal_strlit("CapsLock");
    assert("PageDown"@[0] != "CapsLock"@[0]);
    reveal_strlit("NumLock");
    assert("PageDown"@.len() != "NumLock"@.len());
    reveal_strlit("ScrollLock");
    assert("PageDown"@.len() != "ScrollLock"@.len());
    reveal_strlit("PrintScreen");
    assert("PageDown"@.len() != "PrintScreen"@.len());
    reveal_strlit("Pause");
    assert("PageDown"@.len() != "Pause"@.len());
    reveal_strlit("Menu");
    assert("PageDown"@.len() != "Menu"@.len());
    reveal_strlit("MetaLeft");
    assert("PageDown"@[0] != "MetaLeft"@[0]);
    reveal_strlit("MetaRight");
    assert("PageDown"@.len() != "MetaRight"@.len());
    reveal_strlit("Command");
    assert("PageDown"@.len() != "Command"@.len());
    reveal_strlit("Super");
    assert("PageDown"@.len() != "Super"@.len());
    reveal_strlit("Win");
    assert("PageDown"@.len() != "Win"@.len());
    reveal_strlit("Insert");
    assert("PageDown"@.len() != "Insert"@.len());
    reveal_strlit("Delete");
    assert("PageDown"@.len() != "Delete"@.len());
    reveal_strlit("Home");
    assert("PageDown"@.len() != "Home"@.len());
    reveal_strlit("End");
    assert("PageDown"@.len() != "End"@.len());
    reveal_strlit("PageUp");
    assert("PageDown"@.len() != "PageUp"@.len());
    reveal_strlit("Apostrophe");
    assert("PageDown"@.len() != "Apostrophe"@.len());
    reveal_strlit("Backquote");
    assert("PageDown"@.len() != "Backquote"@.len());
}

proof fn lemma_named_up_arrow()
    ensures
        named_vk("UpArrow"@) == Some(0x26u32),
        key_alias("UpArrow"@) == "UpArrow"@,
{
    reveal_strlit("UpArrow");
    reveal_strlit("Space");
    assert("UpArrow"@.len() != "Space"@.len());
    reveal_strlit("Tab");
    assert("UpArrow"@.len() != "Tab"@.len());
    reveal_strlit("Backspace");
    assert("UpArrow"@.len() != "Backspace"@.len());
    reveal_strlit("Return");
    assert("UpArrow"@.len() != "Return"@.len());
    reveal_strlit("Escape");
    assert("UpArrow"@.len() != "Escape"@.len());
    reveal_strlit("CapsLock");
    assert("UpArrow"@.len() != "CapsLock"@.len());
    reveal_strlit("NumLock");
    assert("UpArrow"@[0] != "NumLock"@[0]);
    reveal_strlit("ScrollLock");
    assert("UpArrow"@.len() != "ScrollLock"@.len());
    reveal_strlit("PrintScreen");
    assert("UpArrow"@.len() != "PrintScreen"@.len());
    reveal_strlit("Pause");
    assert("UpArrow"@.len() != "Pause"@.len());
    reveal_strlit("Menu");
    assert("UpArrow"@.len() != "Menu"@.len());
    reveal_strlit("MetaLeft");
    assert("UpArrow"@.len() != "MetaLeft"@.len());
    reveal_strlit("MetaRight");
    assert("UpArrow"@.len() != "MetaRight"@.len());
    reveal_strlit("Command");
    assert("UpArrow"@[0] != "Command"@[0]);
    reveal_strlit("Super");
    assert("UpArrow"@.len() != "Super"@.len());
    reveal_strlit("Win");
    assert("UpArrow"@.len() != "Win"@.len());
    reveal_strlit("Insert");
    assert("UpArrow"@.len() != "Insert"@.len());
    reveal_strlit("Delete");
    assert("UpArrow"@.len() != "Delete"@.len());
    reveal_strlit("Home");
    assert("UpArrow"@.len() != "Home"@.len());
    reveal_strlit("End");
    assert("UpArrow"@.len() != "End"@.len());
    reveal_strlit("PageUp");
    assert("UpArrow"@.len() != "PageUp"@.len());
    reveal_strlit("PageDown");
    assert("UpArrow"@.len() != "PageDown"@.len());
    reveal_strlit("Apostrophe");
    assert("UpArrow"@.len() != "Apostrophe"@.len());
    reveal_strlit("Backquote");
    assert("UpArrow"@.len() != "Backquote"@.len());
}

proof fn lemma_named_down_arrow()
    ensures
        named_vk("DownArrow"@) == Some(0x28u32),
        key_alias("DownArrow"@) == "DownArrow"@,
{
    reveal_strlit("DownArrow");
    reveal_strlit("Space");
    assert("DownArrow"@.len() != "Space"@.len());
    reveal_strlit("Tab");
    assert("DownArrow"@.len() != "Tab"@.len());
    reveal_strlit("Backspace");
    assert("DownArrow"@[0] != "Backspace"@[0]);
    reveal_strlit("Return");
    assert("DownArrow"@.len() != "Return"@.len());
    reveal_strlit("Escape");
    assert("DownArrow"@.len() != "Escape"@.len());
    reveal_strlit("CapsLock");
    assert("DownArrow"@.len() != "CapsLock"@.len());
    reveal_strlit("NumLock");
    assert("DownArrow"@.len() != "NumLock"@.len());
    reveal_strlit("ScrollLock");
    assert("DownArrow"@.len() != "ScrollLock"@.len());
    reveal_strlit("PrintScreen");
    assert("DownArrow"@.len() != "PrintScreen"@.len());
    reveal_strlit("Pause");
    assert("DownArrow"@.len() != "Pause"@.len());
    reveal_strlit("Menu");
    assert("DownArrow"@.len() != "Menu"@.len());
    reveal_strlit("MetaLeft");
    assert("DownArrow"@.len() != "MetaLeft"@.len());
    reveal_strlit("MetaRight");
    assert("DownArrow"@[0] != "MetaRight"@[0]);
    reveal_strlit("Command");
    assert("DownArrow"@.len() != "Command"@.len());
    reveal_strlit("Super");
    assert("DownArrow"@.len() != "Super"@.len());
    reveal_strlit("Win");
    assert("DownArrow"@.len() != "Win"@.len());
    reveal_strlit("Insert");
    assert("DownArrow"@.len() != "Insert"@.len());
    reveal_strlit("Delete");
    assert("DownArrow"@.len() != "Delete"@.len());
    reveal_strlit("Home");
    assert("DownArrow"@.len() != "Home"@.len());
    reveal_strlit("End");
    assert("DownArrow"@.len() != "End"@.len());
    reveal_strlit("PageUp");
    assert("DownArrow"@.len() != "PageUp"@.len());
    reveal_strlit("PageDown");
    assert("DownArrow"@.len() != "PageDown"@.len());
    reveal_strlit("UpArrow");
    assert("DownArrow"@.len() != "UpArrow"@.len());
    reveal_strlit("Apostrophe");
    assert("DownArrow"@.len() != "Apostrophe"@.len());
    reveal_strlit("Backquote");
    assert("DownArrow"@[0] != "Backquote"@[0]);
}

proof fn lemma_named_left_arrow()
    ensures
        named_vk("LeftArrow"@) == Some(0x25u32),
        key_alias("LeftArrow"@) == "LeftArrow"@,
{
    reveal_strlit("LeftArrow");
    reveal_strlit("Space");
    assert("LeftArrow"@.len() != "Space"@.len());
    reveal_strlit("Tab");
    assert("LeftArrow"@.len() != "Tab"@.len());
    reveal_strlit("Backspace");
    assert("LeftArrow"@[0] != "Backspace"@[0]);
    reveal_strlit("Return");
    assert("LeftArrow"@.len() != "Return"@.len());
    reveal_strlit("Escape");
    assert("LeftArrow"@.len() != "Escape"@.len());
    reveal_strlit("CapsLock");
    assert("LeftArrow"@.len() != "CapsLock"@.len());
    reveal_strlit("NumLock");
    assert("LeftArrow"@.len() != "NumLock"@.len());
    reveal_strlit("ScrollLock");
    assert("LeftArrow"@.len() != "ScrollLock"@.len());
    reveal_strlit("PrintScreen");
    assert("LeftArrow"@.len() != "PrintScreen"@.len());
    reveal_strlit("Pause");
    assert("LeftArrow"@.len() != "Pause"@.len());
    reveal_strlit("Menu");
    assert("LeftArrow"@.len() != "Menu"@.len());
    reveal_strlit("MetaLeft");
    assert("LeftArrow"@.len() != "MetaLeft"@.len());
    reveal_strlit("MetaRight");
    assert("LeftArrow"@[0] != "MetaRight"@[0]);
    reveal_strlit("Command");
    assert("LeftArrow"@.len() != "Command"@.len());
    reveal_strlit("Super");
    assert("LeftArrow"@.len() != "Super"@.len());
    reveal_strlit("Win");
    assert("LeftArrow"@.len() != "Win"@.len());
    reveal_strlit("Insert");
    assert("LeftArrow"@.len() != "Insert"@.len());
    reveal_strlit("Delete");
    assert("LeftArrow"@.len() != "Delete"@.len());
    reveal_strlit("Home");
    assert("LeftArrow"@.len() != "Home"@.len());
    reveal_strlit("End");
    assert("LeftArrow"@.len() != "End"@.len());
    reveal_strlit("PageUp");
    assert("LeftArrow"@.len() != "PageUp"@.len());
    reveal_strlit("PageDown");
    assert("LeftArrow"@.len() != "PageDown"@.len());
    reveal_strlit("UpArrow");
    assert("LeftArrow"@.len() != "UpArrow"@.len());
    reveal_strlit("DownArrow");
    assert("LeftArrow"@[0] != "DownArrow"@[0]);
    reveal_strlit("Apostrophe");
    assert("LeftArrow"@.len() != "Apostrophe"@.len());
    reveal_strlit("Backquote");
    assert("LeftArrow"@[0] != "Backquote"@[0]);
}

proof fn lemma_named_right_arrow()
    ensures
        named_vk("RightArrow"@) == Some(0x27u32),
        key_alias("RightArrow"@) == "RightArrow"@,
{
    reveal_strlit("RightArrow");
    reveal_strlit("Space");
    assert("RightArrow"@.len() != "Space"@.len());
    reveal_strlit("Tab");
    assert("RightArrow"@.len() != "Tab"@.len());
    reveal_strlit("Backspace");
    assert("RightArrow"@.len() != "Backspace"@.len());
    reveal_strlit("Return");
    assert("RightArrow"@.len() != "Return"@.len());
    reveal_strlit("Escape");
    assert("RightArrow"@.len() != "Escape"@.len());
    reveal_strlit("CapsLock");
    assert("RightArrow"@.len() != "CapsLock"@.len());
    reveal_strlit("NumLock");
    assert("RightArrow"@.len() != "NumLock"@.len());
    reveal_strlit("ScrollLock");
    assert("RightArrow"@[0] != "ScrollLock"@[0]);
    reveal_strlit("PrintScreen");
    assert("RightArrow"@.len() != "PrintScreen"@.len());
    reveal_strlit("Pause");
    assert("RightArrow"@.len() != "Pause"@.len());
    reveal_strlit("Menu");
    assert("RightArrow"@.len() != "Menu"@.len());
    reveal_strlit("MetaLeft");
    assert("RightArrow"@.len() != "MetaLeft"@.len());
    reveal_strlit("MetaRight");
    assert("RightArrow"@.len() != "MetaRight"@.len());
    reveal_strlit("Command");
    assert("RightArrow"@.len() != "Command"@.len());
    reveal_strlit("Super");
    assert("RightArrow"@.len() != "Super"@.len());
    reveal_strlit("Win");
    assert("RightArrow"@.len() != "Win"@.len());
    reveal_strlit("Insert");
    assert("RightArrow"@.len() != "Insert"@.len());
    reveal_strlit("Delete");
    assert("RightArrow"@.len() != "Delete"@.len());
    reveal_strlit("Home");
    assert("RightArrow"@.len() != "Home"@.len());
    reveal_strlit("End");
    assert("RightArrow"@.len() != "End"@.len());
    reveal_strlit("PageUp");
    assert("RightArrow"@.len() != "PageUp"@.len());
    reveal_strlit("PageDown");
    assert("RightArrow"@.len() != "PageDown"@.len());
    reveal_strlit("UpArrow");
    assert("RightArrow"@.len() != "UpArrow"@.len());
    reveal_strlit("DownArrow");
    assert("RightArrow"@.len() != "DownArrow"@.len());
    reveal_strlit("LeftArrow");
    assert("RightArrow"@.len() != "LeftArrow"@.len());
    reveal_strlit("Apostrophe");
    assert("RightArrow"@[0] != "Apostrophe"@[0]);
    reveal_strlit("Backquote");
    assert("RightArrow"@.len() != "Backquote"@.len());
}

proof fn lemma_named_minus()
    ensures
        named_vk("Minus"@) == Some(0xBDu32),
        key_alias("Minus"@) == "Minus"@,
{
    reveal_strlit("Minus");
    reveal_strlit("Space");
    assert("Minus"@[0] != "Space"@[0]);
    reveal_strlit("Tab");
    assert("Minus"@.len() != "Tab"@.len());
    reveal_strlit("Backspace");
    assert("Minus"@.len() != "Backspace"@.len());
    reveal_strlit("Return");
    assert("Minus"@.len() != "Return"@.len());
    reveal_strlit("Escape");
    assert("Minus"@.len() != "Escape"@.len());
    reveal_strlit("CapsLock");
    assert("Minus"@.len() != "CapsLock"@.len());
    reveal_strlit("NumLock");
    assert("Minus"@.len() != "NumLock"@.len());
    reveal_strlit("ScrollLock");
    assert("Minus"@.len() != "ScrollLock"@.len());
    reveal_strlit("PrintScreen");
    assert("Minus"@.len() != "PrintScreen"@.len());
    reveal_strlit("Pause");
    assert("Minus"@[0] != "Pause"@[0]);
    reveal_strlit("Menu");
    assert("Minus"@.len() != "Menu"@.len());
    reveal_strlit("MetaLeft");
    assert("Minus"@.len() != "MetaLeft"@.len());
    reveal_strlit("MetaRight");
    assert("Minus"@.len() != "MetaRight"@.len());
    reveal_strlit("Command");
    assert("Minus"@.len() != "Command"@.len());
    reveal_strlit("Super");
    assert("Minus"@[0] != "Super"@[0]);
    reveal_strlit("Win");
    assert("Minus"@.len() != "Win"@.len());
    reveal_strlit("Insert");
    assert("Minus"@.len() != "Insert"@.len());
    reveal_strlit("Delete");
    assert("Minus"@.len() != "Delete"@.len());
    reveal_strlit("Home");
    assert("Minus"@.len() != "Home"@.len());
    reveal_strlit("End");
    assert("Minus"@.len() != "End"@.len());
    reveal_strlit("PageUp");
    assert("Minus"@.len() != "PageUp"@.len());
    reveal_strlit("PageDown");
    assert("Minus"@.len() != "PageDown"@.len());
    reveal_strlit("UpArrow");
    assert("Minus"@.len() != "UpArrow"@.len());
    reveal_strlit("DownArrow");
    assert("Minus"@.len() != "DownArrow"@.len());
    reveal_strlit("LeftArrow");
    assert("Minus"@.len() != "LeftArrow"@.len());
    reveal_strlit("RightArrow");
    assert("Minus"@.len() != "RightArrow"@.len());
    reveal_strlit("Apostrophe");
    assert("Minus"@.len() != "Apostrophe"@.len());
    reveal_strlit("Backquote");
    assert("Minus"@.len() != "Backquote"@.len());
}

proof fn lemma_named_equal()
    ensures
        named_vk("Equal"@) == Some(0xBBu32),
        key_alias("Equal"@) == "Equal"@,
{
    reveal_strlit("Equal");
    reveal_strlit("Space");
    assert("Equal"@[0] != "Space"@[0]);
    reveal_strlit("Tab");
    assert("Equal"@.len() != "Tab"@.len());
    reveal_strlit("Backspace");
    assert("Equal"@.len() != "Backspace"@.len());
    reveal_strlit("Return");
    assert("Equal"@.len() != "Return"@.len());
    reveal_strlit("Escape");
    assert("Equal"@.len() != "Escape"@.len());
    reveal_strlit("CapsLock");
    assert("Equal"@.len() != "CapsLock"@.len());
    reveal_strlit("NumLock");
    assert("Equal"@.len() != "NumLock"@.len());
    reveal_strlit("ScrollLock");
    assert("Equal"@.len() != "ScrollLock"@.len());
    reveal_strlit("PrintScreen");
    assert("Equal"@.len() != "PrintScreen"@.len());
    reveal_strlit("Pause");
    assert("Equal"@[0] != "Pause"@[0]);
    reveal_strlit("Menu");
    assert("Equal"@.len() != "Menu"@.len());
    reveal_strlit("MetaLeft");
    assert("Equal"@.len() != "MetaLeft"@.len());
    reveal_strlit("MetaRight");
    assert("Equal"@.len() != "MetaRight"@.len());
    reveal_strlit("Command");
    assert("Equal"@.len() != "Command"@.len());
    reveal_strlit("Super");
    assert("Equal"@[0] != "Super"@[0]);
    reveal_strlit("Win");
    assert("Equal"@.len() != "Win"@.len());
    reveal_strlit("Insert");
    assert("Equal"@.len() != "Insert"@.len());
    reveal_strlit("Delete");
    assert("Equal"@.len() != "Delete"@.len());
    reveal_strlit("Home");
    assert("Equal"@.len() != "Home"@.len());
    reveal_strlit("End");
    assert("Equal"@.len() != "End"@.len());
    reveal_strlit("PageUp");
    assert("Equal"@.len() != "PageUp"@.len());
    reveal_strlit("PageDown");
    assert("Equal"@.len() != "PageDown"@.len());
    reveal_strlit("UpArrow");
    assert("Equal"@.len() != "UpArrow"@.len());
    reveal_strlit("DownArrow");
    assert("Equal"@.len() != "DownArrow"@.len());
    reveal_strlit("LeftArrow");
    assert("Equal"@.len() != "LeftArrow"@.len());
    reveal_strlit("RightArrow");
    assert("Equal"@.len() != "RightArrow"@.len());
    reveal_strlit("Minus");
    assert("Equal"@[0] != "Minus"@[0]);
    reveal_strlit("Apostrophe");
    assert("Equal"@.len() != "Apostrophe"@.len());
    reveal_strlit("Backquote");
    assert("Equal"@.len() != "Backquote"@.len());
}

proof fn lemma_named_comma()
    ensures
        named_vk("Comma"@) == Some(0xBCu32),
        key_alias("Comma"@) == "Comma"@,
{
    reveal_strlit("Comma");
    reveal_strlit("Space");
    assert("Comma"@[0] != "Space"@[0]);
    reveal_strlit("Tab");
    assert("Comma"@.len() != "Tab"@.len());
    reveal_strlit("Backspace");
    assert("Comma"@.len() != "Backspace"@.len());
    reveal_strlit("Return");
    assert("Comma"@.len() != "Return"@.len());
    reveal_strlit("Escape");
    assert("Comma"@.len() != "Escape"@.len());
    reveal_strlit("CapsLock");
    assert("Comma"@.len() != "CapsLock"@.len());
    reveal_strlit("NumLock");
    assert("Comma"@.len() != "NumLock"@.len());
    reveal_strlit("ScrollLock");
    assert("Comma"@.len() != "ScrollLock"@.len());
    reveal_strlit("PrintScreen");
    assert("Comma"@.len() != "PrintScreen"@.len());
    reveal_strlit("Pause");
    assert("Comma"@[0] != "Pause"@[0]);
    reveal_strlit("Menu");
    assert("Comma"@.len() != "Menu"@.len());
    reveal_strlit("MetaLeft");
    assert("Comma"@.len() != "MetaLeft"@.len());
    reveal_strlit("MetaRight");
    assert("Comma"@.len() != "MetaRight"@.len());
    reveal_strlit("Command");
    assert("Comma"@.len() != "Command"@.len());
    reveal_strlit("Super");
    assert("Comma"@[0] != "Super"@[0]);
    reveal_strlit("Win");
    assert("Comma"@.len() != "Win"@.len());
    reveal_strlit("Insert");
    assert("Comma"@.len() != "Insert"@.len());
    reveal_strlit("Delete");
    assert("Comma"@.len() != "Delete"@.len());
    reveal_strlit("Home");
    assert("Comma"@.len() != "Home"@.len());
    reveal_strlit("End");
    assert("Comma"@.len() != "End"@.len());
    reveal_strlit("PageUp");
    assert("Comma"@.len() != "PageUp"@.len());
    reveal_strlit("PageDown");
    assert("Comma"@.len() != "PageDown"@.len());
    reveal_strlit("UpArrow");
    assert("Comma"@.len() != "UpArrow"@.len());
    reveal_strlit("DownArrow");
    assert("Comma"@.len() != "DownArrow"@.len());
    reveal_strlit("LeftArrow");
    assert("Comma"@.len() != "LeftArrow"@.len());
    reveal_strlit("RightArrow");
    assert("Comma"@.len() != "RightArrow"@.len());
    reveal_strlit("Minus");
    assert("Comma"@[0] != "Minus"@[0]);
    reveal_strlit("Equal");
    assert("Comma"@[0] != "Equal"@[0]);
    reveal_strlit("Apostrophe");
    assert("Comma"@.len() != "Apostrophe"@.len());
    reveal_strlit("Backquote");
    assert("Comma"@.len() != "Backquote"@.len());
}

proof fn lemma_named_period()
    ensures
        named_vk("Period"@) == Some(0xBEu32),
        key_alias("Period"@) == "Period"@,
{
    reveal_strlit("Period");
    reveal_strlit("Space");
    assert("Period"@.len() != "Space"@.len());
    reveal_strlit("Tab");
    assert("Period"@.len() != "Tab"@.len());
    reveal_strlit("Backspace");
    assert("Period"@.len() != "Backspace"@.len());
    reveal_strlit("Return");
    assert("Period"@[0] != "Return"@[0]);
    reveal_strlit("Escape");
    assert("Period"@[0] != "Escape"@[0]);
    reveal_strlit("CapsLock");
    assert("Period"@.len() != "CapsLock"@.len());
    reveal_strlit("NumLock");
    assert("Period"@.len() != "NumLock"@.len());
    reveal_strlit("ScrollLock");
    assert("Period"@.len() != "ScrollLock"@.len());
    reveal_strlit("PrintScreen");
    assert("Period"@.len() != "PrintScreen"@.len());
    reveal_strlit("Pause");
    assert("Period"@.len() != "Pause"@.len());
    reveal_strlit("Menu");
    assert("Period"@.len() != "Menu"@.len());
    reveal_strlit("MetaLeft");
    assert("Period"@.len() != "MetaLeft"@.len());
    reveal_strlit("MetaRight");
    assert("Period"@.len() != "MetaRight"@.len());
    reveal_strlit("Command");
    assert("Period"@.len() != "Command"@.len());
    reveal_strlit("Super");
    assert("Period"@.len() != "Super"@.len());
    reveal_strlit("Win");
    assert("Period"@.len() != "Win"@.len());
    reveal_strlit("Insert");
    assert("Period"@[0] != "Insert"@[0]);
    reveal_strlit("Delete");
    assert("Period"@[0] != "Delete"@[0]);
    reveal_strlit("Home");
    assert("Period"@.len() != "Home"@.len());
    reveal_strlit("End");
    assert("Period"@.len() != "End"@.len());
    reveal_strlit("PageUp");
    assert("Period"@[1] != "PageUp"@[1]);
    reveal_strlit("PageDown");
    assert("Period"@.len() != "PageDown"@.len());
    reveal_strlit("UpArrow");
    assert("Period"@.len() != "UpArrow"@.len());
    reveal_strlit("DownArrow");
    assert("Period"@.len() != "DownArrow"@.len());
    reveal_strlit("LeftArrow");
    assert("Period"@.len() != "LeftArrow"@.len());
    reveal_strlit("RightArrow");
    assert("Period"@.len() != "RightArrow"@.len());
    reveal_strlit("Minus");
    assert("Period"@.len() != "Minus"@.len());
    reveal_strlit("Equal");
    assert("Period"@.len() != "Equal"@.len());
    reveal_strlit("Comma");
    assert("Period"@.len() != "Comma"@.len());
    reveal_strlit("Apostrophe");
    assert("Period"@.len() != "Apostrophe"@.len());
    reveal_strlit("Backquote");
    assert("Period"@.len() != "Backquote"@.len());
}

proof fn lemma_named_slash()
    ensures
        named_vk("Slash"@) == Some(0xBFu32),
        key_alias("Slash"@) == "Slash"@,
{
    reveal_strlit("Slash");
    reveal_strlit("Space");
    assert("Slash"@[1] != "Space"@[1]);
    reveal_strlit("Tab");
    assert("Slash"@.len() != "Tab"@.len());
    reveal_strlit("Backspace");
    assert("Slash"@.len() != "Backspace"@.len());
    reveal_strlit("Return");
    assert("Slash"@.len() != "Return"@.len());
    reveal_strlit("Escape");
    assert("Slash"@.len() != "Escape"@.len());
    reveal_strlit("CapsLock");
    assert("Slash"@.len() != "CapsLock"@.len());
    reveal_strlit("NumLock");
    assert("Slash"@.len() != "NumLock"@.len());
    reveal_strlit("ScrollLock");
    assert("Slash"@.len() != "ScrollLock"@.len());
    reveal_strlit("PrintScreen");
    assert("Slash"@.len() != "PrintScreen"@.len());
    reveal_strlit("Pause");
    assert("Slash"@[0] != "Pause"@[0]);
    reveal_strlit("Menu");
    assert("Slash"@.len() != "Menu"@.len());
    reveal_strlit("MetaLeft");
    assert("Slash"@.len() != "MetaLeft"@.len());
    reveal_strlit("MetaRight");
    assert("Slash"@.len() != "MetaRight"@.len());
    reveal_strlit("Command");
    assert("Slash"@.len() != "Command"@.len());
    reveal_strlit("Super");
    assert("Slash"@[1] != "Super"@[1]);
    reveal_strlit("Win");
    assert("Slash"@.len() != "Win"@.len());
    reveal_strlit("Insert");
    assert("Slash"@.len() != "Insert"@.len());
    reveal_strlit("Delete");
    assert("Slash"@.len() != "Delete"@.len());
    reveal_strlit("Home");
    assert("Slash"@.len() != "Home"@.len());
    reveal_strlit("End");
    assert("Slash"@.len() != "End"@.len());
    reveal_strlit("PageUp");
    assert("Slash"@.len() != "PageUp"@.len());
    reveal_strlit("PageDown");
    assert("Slash"@.len() != "PageDown"@.len());
    reveal_strlit("UpArrow");
    assert("Slash"@.len() != "UpArrow"@.len());
    reveal_strlit("DownArrow");
    assert("Slash"@.len() != "DownArrow"@.len());
    reveal_strlit("LeftArrow");
    assert("Slash"@.len() != "LeftArrow"@.len());
    reveal_strlit("RightArrow");
    assert("Slash"@.len() != "RightArrow"@.len());
    reveal_strlit("Minus");
    assert("Slash"@[0] != "Minus"@[0]);
    reveal_strlit("Equal");
    assert("Slash"@[0] != "Equal"@[0]);
    reveal_strlit("Comma");
    assert("Slash"@[0] != "Comma"@[0]);
    reveal_strlit("Period");
    assert("Slash"@.len() != "Period"@.len());
    reveal_strlit("Apostrophe");
    assert("Slash"@.len() != "Apostrophe"@.len());
    reveal_strlit("Backquote");
    assert("Slash"@.len() != "Backquote"@.len());
}

proof fn lemma_named_back_slash()
    ensures
        named_vk("BackSlash"@) == Some(0xDCu32),
        key_alias("BackSlash"@) == "BackSlash"@,
{
    reveal_strlit("BackSlash");
    reveal_strlit("Space");
    assert("BackSlash"@.len() != "Space"@.len());
    reveal_strlit("Tab");
    assert("BackSlash"@.len() != "Tab"@.len());
    reveal_strlit("Backspace");
    assert("BackSlash"@[4] != "Backspace"@[4]);
    reveal_strlit("Return");
    assert("BackSlash"@.len() != "Return"@.len());
    reveal_strlit("Escape");
    assert("BackSlash"@.len() != "Escape"@.len());
    reveal_strlit("CapsLock");
    assert("BackSlash"@.len() != "CapsLock"@.len());
    reveal_strlit("NumLock");
    assert("BackSlash"@.len() != "NumLock"@.len());
    reveal_strlit("ScrollLock");
    assert("BackSlash"@.len() != "ScrollLock"@.len());
    reveal_strlit("PrintScreen");
    assert("BackSlash"@.len() != "PrintScreen"@.len());
    reveal_strlit("Pause");
    assert("BackSlash"@.len() != "Pause"@.len());
    reveal_strlit("Menu");
    assert("BackSlash"@.len() != "Menu"@.len());
    reveal_strlit("MetaLeft");
    assert("BackSlash"@.len() != "MetaLeft"@.len());
    reveal_strlit("MetaRight");
    assert("BackSlash"@[0] != "MetaRight"@[0]);
    reveal_strlit("Command");
    assert("BackSlash"@.len() != "Command"@.len());
    reveal_strlit("Super");
    assert("BackSlash"@.len() != "Super"@.len());
    reveal_strlit("Win");
    assert("BackSlash"@.len() != "Win"@.len());
    reveal_strlit("Insert");
    assert("BackSlash"@.len() != "Insert"@.len());
    reveal_strlit("Delete");
    assert("BackSlash"@.len() != "Delete"@.len());
    reveal_strlit("Home");
    assert("BackSlash"@.len() != "Home"@.len());
    reveal_strlit("End");
    assert("BackSlash"@.len() != "End"@.len());
    reveal_strlit("PageUp");
    assert("BackSlash"@.len() != "PageUp"@.len());
    reveal_strlit("PageDown");
    assert("BackSlash"@.len() != "PageDown"@.len());
    reveal_strlit("UpArrow");
    assert("BackSlash"@.len() != "UpArrow"@.len());
    reveal_strlit("DownArrow");
    assert("BackSlash"@[0] != "DownArrow"@[0]);
    reveal_strlit("LeftArrow");
    assert("BackSlash"@[0] != "LeftArrow"@[0]);
    reveal_strlit("RightArrow");
    assert("BackSlash"@.len() != "RightArrow"@.len());
    reveal_strlit("Minus");
    assert("BackSlash"@.len() != "Minus"@.len());
    reveal_strlit("Equal");
    assert("BackSlash"@.len() != "Equal"@.len());
    reveal_strlit("Comma");
    assert("BackSlash"@.len() != "Comma"@.len());
    reveal_strlit("Period");
    assert("BackSlash"@.len() != "Period"@.len());
    reveal_strlit("Slash");
    assert("BackSlash"@.len() != "Slash"@.len());
    reveal_strlit("Apostrophe");
    assert("BackSlash"@.len() != "Apostrophe"@.len());
    reveal_strlit("Backquote");
    assert("BackSlash"@[4] != "Backquote"@[4]);
}

proof fn lemma_named_apostrophe()
    ensures
        named_vk("Apostrophe"@) == Some(0xDEu32),
        key_alias("Apostrophe"@) == "Quote"@,
{
    reveal_strlit("Apostrophe");
    reveal_strlit("Space");
    assert("Apostrophe"@.len() != "Space"@.len());
    reveal_strlit("Tab");
    assert("Apostrophe"@.len() != "Tab"@.len());
    reveal_strlit("Backspace");
    assert("Apostrophe"@.len() != "Backspace"@.len());
    reveal_strlit("Return");
    assert("Apostrophe"@.len() != "Return"@.len());
    reveal_strlit("Escape");
    assert("Apostrophe"@.len() != "Escape"@.len());
    reveal_strlit("CapsLock");
    assert("Apostrophe"@.len() != "CapsLock"@.len());
    reveal_strlit("NumLock");
    assert("Apostrophe"@.len() != "NumLock"@.len());
    reveal_strlit("ScrollLock");
    assert("Apostrophe"@[0] != "ScrollLock"@[0]);
    reveal_strlit("PrintScreen");
    assert("Apostrophe"@.len() != "PrintScreen"@.len());
    reveal_strlit("Pause");
    assert("Apostrophe"@.len() != "Pause"@.len());
    reveal_strlit("Menu");
    assert("Apostrophe"@.len() != "Menu"@.len());
    reveal_strlit("MetaLeft");
    assert("Apostrophe"@.len() != "MetaLeft"@.len());
    reveal_strlit("MetaRight");
    assert("Apostrophe"@.len() != "MetaRight"@.len());
    reveal_strlit("Command");
    assert("Apostrophe"@.len() != "Command"@.len());
    reveal_strlit("Super");
    assert("Apostrophe"@.len() != "Super"@.len());
    reveal_strlit("Win");
    assert("Apostrophe"@.len() != "Win"@.len());
    reveal_strlit("Insert");
    assert("Apostrophe"@.len() != "Insert"@.len());
    reveal_strlit("Delete");
    assert("Apostrophe"@.len() != "Delete"@.len());
    reveal_strlit("Home");
    assert("Apostrophe"@.len() != "Home"@.len());
    reveal_strlit("End");
    assert("Apostrophe"@.len() != "End"@.len());
    reveal_strlit("PageUp");
    assert("Apostrophe"@.len() != "PageUp"@.len());
    reveal_strlit("PageDown");
    assert("Apostrophe"@.len() != "PageDown"@.len());
    reveal_strlit("UpArrow");
    assert("Apostrophe"@.len() != "UpArrow"@.len());
    reveal_strlit("DownArrow");
    assert("Apostrophe"@.len() != "DownArrow"@.len());
    reveal_strlit("LeftArrow");
    assert("Apostrophe"@.len() != "LeftArrow"@.len());
    reveal_strlit("RightArrow");
    assert("Apostrophe"@[0] != "RightArrow"@[0]);
    reveal_strlit("Minus");
    assert("Apostrophe"@.len() != "Minus"@.len());
    reveal_strlit("Equal");
    assert("Apostrophe"@.len() != "Equal"@.len());
    reveal_strlit("Comma");
    assert("Apostrophe"@.len() != "Comma"@.len());
    reveal_strlit("Period");
    assert("Apostrophe"@.len() != "Period"@.len());
    reveal_strlit("Slash");
    assert("Apostrophe"@.len() != "Slash"@.len());
    reveal_strlit("BackSlash");
    assert("Apostrophe"@.len() != "BackSlash"@.len());
    reveal_strlit("Backquote");
    assert("Apostrophe"@.len() != "Backquote"@.len());
    reveal_strlit("Quote");
}

proof fn lemma_named_quote()
    ensures
        named_vk("Quote"@) == Some(0xDEu32),
        key_alias("Quote"@) == "Quote"@,
{
    reveal_strlit("Quote");
    reveal_strlit("Space");
    assert("Quote"@[0] != "Space"@[0]);
    reveal_strlit("Tab");
    assert("Quote"@.len() != "Tab"@.len());
    reveal_strlit("Backspace");
    assert("Quote"@.len() != "Backspace"@.len());
    reveal_strlit("Return");
    assert("Quote"@.len() != "Return"@.len());
    reveal_strlit("Escape");
    assert("Quote"@.len() != "Escape"@.len());
    reveal_strlit("CapsLock");
    assert("Quote"@.len() != "CapsLock"@.len());
    reveal_strlit("NumLock");
    assert("Quote"@.len() != "NumLock"@.len());
    reveal_strlit("ScrollLock");
    assert("Quote"@.len() != "ScrollLock"@.len());
    reveal_strlit("PrintScreen");
    assert("Quote"@.len() != "PrintScreen"@.len());
    reveal_strlit("Pause");
    assert("Quote"@[0] != "Pause"@[0]);
    reveal_strlit("Menu");
    assert("Quote"@.len() != "Menu"@.len());
    reveal_strlit("MetaLeft");
    assert("Quote"@.len() != "MetaLeft"@.len());
    reveal_strlit("MetaRight");
    assert("Quote"@.len() != "MetaRight"@.len());
    reveal_strlit("Command");
    assert("Quote"@.len() != "Command"@.len());
    reveal_strlit("Super");
    assert("Quote"@[0] != "Super"@[0]);
    reveal_strlit("Win");
    assert("Quote"@.len() != "Win"@.len());
    reveal_strlit("Insert");
    assert("Quote"@.len() != "Insert"@.len());
    reveal_strlit("Delete");
    assert("Quote"@.len() != "Delete"@.len());
    reveal_strlit("Home");
    assert("Quote"@.len() != "Home"@.len());
    reveal_strlit("End");
    assert("Quote"@.len() != "End"@.len());
    reveal_strlit("PageUp");
    assert("Quote"@.len() != "PageUp"@.len());
    reveal_strlit("PageDown");
    assert("Quote"@.len() != "PageDown"@.len());
    reveal_strlit("UpArrow");
    assert("Quote"@.len() != "UpArrow"@.len());
    reveal_strlit("DownArrow");
    assert("Quote"@.len() != "DownArrow"@.len());
    reveal_strlit("LeftArrow");
    assert("Quote"@.len() != "LeftArrow"@.len());
    reveal_strlit("RightArrow");
    assert("Quote"@.len() != "RightArrow"@.len());
    reveal_strlit("Minus");
    assert("Quote"@[0] != "Minus"@[0]);
    reveal_strlit("Equal");
    assert("Quote"@[0] != "Equal"@[0]);
    reveal_strlit("Comma");
    assert("Quote"@[0] != "Comma"@[0]);
    reveal_strlit("Period");
    assert("Quote"@.len() != "Period"@.len());
    reveal_strlit("Slash");
    assert("Quote"@[0] != "Slash"@[0]);
    reveal_strlit("BackSlash");
    assert("Quote"@.len() != "BackSlash"@.len());
    reveal_strlit("Apostrophe");
    assert("Quote"@.len() != "Apostrophe"@.len());
    reveal_strlit("Backquote");
    assert("Quote"@.len() != "Backquote"@.len());
}

proof fn lemma_named_semicolon()
    ensures
        named_vk("Semicolon"@) == Some(0xBAu32),
        key_alias("Semicolon"@) == "Semicolon"@,
{
    reveal_strlit("Semicolon");
    reveal_strlit("Space");
    assert("Semicolon"@.len() != "Space"@.len());
    reveal_strlit("Tab");
    assert("Semicolon"@.len() != "Tab"@.len());
    reveal_strlit("Backspace");
    assert("Semicolon"@[0] != "Backspace"@[0]);
    reveal_strlit("Return");
    assert("Semicolon"@.len() != "Return"@.len());
    reveal_strlit("Escape");
    assert("Semicolon"@.len() != "Escape"@.len());
    reveal_strlit("CapsLock");
    assert("Semicolon"@.len() != "CapsLock"@.len());
    reveal_strlit("NumLock");
    assert("Semicolon"@.len() != "NumLock"@.len());
    reveal_strlit("ScrollLock");
    assert("Semicolon"@.len() != "ScrollLock"@.len());
    reveal_strlit("PrintScreen");
    assert("Semicolon"@.len() != "PrintScreen"@.len());
    reveal_strlit("Pause");
    assert("Semicolon"@.len() != "Pause"@.len());
    reveal_strlit("Menu");
    assert("Semicolon"@.len() != "Menu"@.len());
    reveal_strlit("MetaLeft");
    assert("Semicolon"@.len() != "MetaLeft"@.len());
    reveal_strlit("MetaRight");
    assert("Semicolon"@[0] != "MetaRight"@[0]);
    reveal_strlit("Command");
    assert("Semicolon"@.len() != "Command"@.len());
    reveal_strlit("Super");
    assert("Semicolon"@.len() != "Super"@.len());
    reveal_strlit("Win");
    assert("Semicolon"@.len() != "Win"@.len());
    reveal_strlit("Insert");
    assert("Semicolon"@.len() != "Insert"@.len());
    reveal_strlit("Delete");
    assert("Semicolon"@.len() != "Delete"@.len());
    reveal_strlit("Home");
    assert("Semicolon"@.len() != "Home"@.len());
    reveal_strlit("End");
    assert("Semicolon"@.len() != "End"@.len());
    reveal_strlit("PageUp");
    assert("Semicolon"@.len() != "PageUp"@.len());
    reveal_strlit("PageDown");
    assert("Semicolon"@.len() != "PageDown"@.len());
    reveal_strlit("UpArrow");
    assert("Semicolon"@.len() != "UpArrow"@.len());
    reveal_strlit("DownArrow");
    assert("Semicolon"@[0] != "DownArrow"@[0]);
    reveal_strlit("LeftArrow");
    assert("Semicolon"@[0] != "LeftArrow"@[0]);
    reveal_strlit("RightArrow");
    assert("Semicolon"@.len() != "RightArrow"@.len());
    reveal_strlit("Minus");
    assert("Semicolon"@.len() != "Minus"@.len());
    reveal_strlit("Equal");
    assert("Semicolon"@.len() != "Equal"@.len());
    reveal_strlit("Comma");
    assert("Semicolon"@.len() != "Comma"@.len());
    reveal_strlit("Period");
    assert("Semicolon"@.len() != "Period"@.len());
    reveal_strlit("Slash");
    assert("Semicolon"@.len() != "Slash"@.len());
    reveal_strlit("BackSlash");
    assert("Semicolon"@[0] != "BackSlash"@[0]);
    reveal_strlit("Apostrophe");
    assert("Semicolon"@.len() != "Apostrophe"@.len());
    reveal_strlit("Quote");
    assert("Semicolon"@.len() != "Quote"@.len());
    reveal_strlit("Backquote");
    assert("Semicolon"@[0] != "Backquote"@[0]);
}

proof fn lemma_named_grave()
    ensures
        named_vk("Grave"@) == Some(0xC0u32),
        key_alias("Grave"@) == "Grave"@,
{
    reveal_strlit("Grave");
    reveal_strlit("Space");
    assert("Grave"@[0] != "Space"@[0]);
    reveal_strlit("Tab");
    assert("Grave"@.len() != "Tab"@.len());
    reveal_strlit("Backspace");
    assert("Grave"@.len() != "Backspace"@.len());
    reveal_strlit("Return");
    assert("Grave"@.len() != "Return"@.len());
    reveal_strlit("Escape");
    assert("Grave"@.len() != "Escape"@.len());
    reveal_strlit("CapsLock");
    assert("Grave"@.len() != "CapsLock"@.len());
    reveal_strlit("NumLock");
    assert("Grave"@.len() != "NumLock"@.len());
    reveal_strlit("ScrollLock");
    assert("Grave"@.len() != "ScrollLock"@.len());
    reveal_strlit("PrintScreen");
    assert("Grave"@.len() != "PrintScreen"@.len());
    reveal_strlit("Pause");
    assert("Grave"@[0] != "Pause"@[0]);
    reveal_strlit("Menu");
    assert("Grave"@.len() != "Menu"@.len());
    reveal_strlit("MetaLeft");
    assert("Grave"@.len() != "MetaLeft"@.len());
    reveal_strlit("MetaRight");
    assert("Grave"@.len() != "MetaRight"@.len());
    reveal_strlit("Command");
    assert("Grave"@.len() != "Command"@.len());
    reveal_strlit("Super");
    assert("Grave"@[0] != "Super"@[0]);
    reveal_strlit("Win");
    assert("Grave"@.len() != "Win"@.len());
    reveal_strlit("Insert");
    assert("Grave"@.len() != "Insert"@.len());
    reveal_strlit("Delete");
    assert("Grave"@.len() != "Delete"@.len());
    reveal_strlit("Home");
    assert("Grave"@.len() != "Home"@.len());
    reveal_strlit("End");
    assert("Grave"@.len() != "End"@.len());
    reveal_strlit("PageUp");
    assert("Grave"@.len() != "PageUp"@.len());
    reveal_strlit("PageDown");
    assert("Grave"@.len() != "PageDown"@.len());
    reveal_strlit("UpArrow");
    assert("Grave"@.len() != "UpArrow"@.len());
    reveal_strlit("DownArrow");
    assert("Grave"@.len() != "DownArrow"@.len());
    reveal_strlit("LeftArrow");
    assert("Grave"@.len() != "LeftArrow"@.len());
    reveal_strlit("RightArrow");
    assert("Grave"@.len() != "RightArrow"@.len());
    reveal_strlit("Minus");
    assert("Grave"@[0] != "Minus"@[0]);
    reveal_strlit("Equal");
    assert("Grave"@[0] != "Equal"@[0]);
    reveal_strlit("Comma");
    assert("Grave"@[0] != "Comma"@[0]);
    reveal_strlit("Period");
    assert("Grave"@.len() != "Period"@.len());
    reveal_strlit("Slash");
    assert("Grave"@[0] != "Slash"@[0]);
    reveal_strlit("BackSlash");
    assert("Grave"@.len() != "BackSlash"@.len());
    reveal_strlit("Apostrophe");
    assert("Grave"@.len() != "Apostrophe"@.len());
    reveal_strlit("Quote");
    assert("Grave"@[0] != "Quote"@[0]);
    reveal_strlit("Semicolon");
    assert("Grave"@.len() != "Semicolon"@.len());
    reveal_strlit("Backquote");
    assert("Grave"@.len() != "Backquote"@.len());
}

proof fn lemma_named_backquote()
    ensures
        named_vk("Backquote"@) == Some(0xC0u32),
        key_alias("Backquote"@) == "Grave"@,
{
    reveal_strlit("Backquote");
    reveal_strlit("Space");
    assert("Backquote"@.len() != "Space"@.len());
    reveal_strlit("Tab");
    assert("Backquote"@.len() != "Tab"@.len());
    reveal_strlit("Backspace");
    assert("Backquote"@[4] != "Backspace"@[4]);
    reveal_strlit("Return");
    assert("Backquote"@.len() != "Return"@.len());
    reveal_strlit("Escape");
    assert("Backquote"@.len() != "Escape"@.len());
    reveal_strlit("CapsLock");
    assert("Backquote"@.len() != "CapsLock"@.len());
    reveal_strlit("NumLock");
    assert("Backquote"@.len() != "NumLock"@.len());
    reveal_strlit("ScrollLock");
    assert("Backquote"@.len() != "ScrollLock"@.len());
    reveal_strlit("PrintScreen");
    assert("Backquote"@.len() != "PrintScreen"@.len());
    reveal_strlit("Pause");
    assert("Backquote"@.len() != "Pause"@.len());
    reveal_strlit("Menu");
    assert("Backquote"@.len() != "Menu"@.len());
    reveal_strlit("MetaLeft");
    assert("Backquote"@.len() != "MetaLeft"@.len());
    reveal_strlit("MetaRight");
    assert("Backquote"@[0] != "MetaRight"@[0]);
    reveal_strlit("Command");
    assert("Backquote"@.len() != "Command"@.len());
    reveal_strlit("Super");
    assert("Backquote"@.len() != "Super"@.len());
    reveal_strlit("Win");
    assert("Backquote"@.len() != "Win"@.len());
    reveal_strlit("Insert");
    assert("Backquote"@.len() != "Insert"@.len());
    reveal_strlit("Delete");
    assert("Backquote"@.len() != "Delete"@.len());
    reveal_strlit("Home");
    assert("Backquote"@.len() != "Home"@.len());
    reveal_strlit("End");
    assert("Backquote"@.len() != "End"@.len());
    reveal_strlit("PageUp");
    assert("Backquote"@.len() != "PageUp"@.len());
    reveal_strlit("PageDown");
    assert("Backquote"@.len() != "PageDown"@.len());
    reveal_strlit("UpArrow");
    assert("Backquote"@.len() != "UpArrow"@.len());
    reveal_strlit("DownArrow");
    assert("Backquote"@[0] != "DownArrow"@[0]);
    reveal_strlit("LeftArrow");
    assert("Backquote"@[0] != "LeftArrow"@[0]);
    reveal_strlit("RightArrow");
    assert("Backquote"@.len() != "RightArrow"@.len());
    reveal_strlit("Minus");
    assert("Backquote"@.len() != "Minus"@.len());
    reveal_strlit("Equal");
    assert("Backquote"@.len() != "Equal"@.len());
    reveal_strlit("Comma");
    assert("Backquote"@.len() != "Comma"@.len());
    reveal_strlit("Period");
    assert("Backquote"@.len() != "Period"@.len());
    reveal_strlit("Slash");
    assert("Backquote"@.len() != "Slash"@.len());
    reveal_strlit("BackSlash");
    assert("Backquote"@[4] != "BackSlash"@[4]);
    reveal_strlit("Apostrophe");
    assert("Backquote"@.len() != "Apostrophe"@.len());
    reveal_strlit("Quote");
    assert("Backquote"@.len() != "Quote"@.len());
    reveal_strlit("Semicolon");
    assert("Backquote"@[0] != "Semicolon"@[0]);
    reveal_strlit("Grave");
    assert("Backquote"@.len() != "Grave"@.len());
    reveal_strlit("Grave");
}

proof fn lemma_named_bracket_left()
    ensures
        named_vk("BracketLeft"@) == Some(0xDBu32),
        key_alias("BracketLeft"@) == "BracketLeft"@,
{
    reveal_strlit("BracketLeft");
    reveal_strlit("Space");
    assert("BracketLeft"@.len() != "Space"@.len());
    reveal_strlit("Tab");
    assert("BracketLeft"@.len() != "Tab"@.len());
    reveal_strlit("Backspace");
    assert("BracketLeft"@.len() != "Backspace"@.len());
    reveal_strlit("Return");
    assert("BracketLeft"@.len() != "Return"@.len());
    reveal_strlit("Escape");
    assert("BracketLeft"@.len() != "Escape"@.len());
    reveal_strlit("CapsLock");
    assert("BracketLeft"@.len() != "CapsLock"@.len());
    reveal_strlit("NumLock");
    assert("BracketLeft"@.len() != "NumLock"@.len());
    reveal_strlit("ScrollLock");
    assert("BracketLeft"@.len() != "ScrollLock"@.len());
    reveal_strlit("PrintScreen");
    assert("BracketLeft"@[0] != "PrintScreen"@[0]);
    reveal_strlit("Pause");
    assert("BracketLeft"@.len() != "Pause"@.len());
    reveal_strlit("Menu");
    assert("BracketLeft"@.len() != "Menu"@.len());
    reveal_strlit("MetaLeft");
    assert("BracketLeft"@.len() != "MetaLeft"@.len());
    reveal_strlit("MetaRight");
    assert("BracketLeft"@.len() != "MetaRight"@.len());
    reveal_strlit("Command");
    assert("BracketLeft"@.len() != "Command"@.len());
    reveal_strlit("Super");
    assert("BracketLeft"@.len() != "Super"@.len());
    reveal_strlit("Win");
    assert("BracketLeft"@.len() != "Win"@.len());
    reveal_strlit("Insert");
    assert("BracketLeft"@.len() != "Insert"@.len());
    reveal_strlit("Delete");
    assert("BracketLeft"@.len() != "Delete"@.len());
    reveal_strlit("Home");
    assert("BracketLeft"@.len() != "Home"@.len());
    reveal_strlit("End");
    assert("BracketLeft"@.len() != "End"@.len());
    reveal_strlit("PageUp");
    assert("BracketLeft"@.len() != "PageUp"@.len());
    reveal_strlit("PageDown");
    assert("BracketLeft"@.len() != "PageDown"@.len());
    reveal_strlit("UpArrow");
    assert("BracketLeft"@.len() != "UpArrow"@.len());
    reveal_strlit("DownArrow");
    assert("BracketLeft"@.len() != "DownArrow"@.len());
    reveal_strlit("LeftArrow");
    assert("BracketLeft"@.len() != "LeftArrow"@.len());
    reveal_strlit("RightArrow");
    assert("BracketLeft"@.len() != "RightArrow"@.len());
    reveal_strlit("Minus");
    assert("BracketLeft"@.len() != "Minus"@.len());
    reveal_strlit("Equal");
    assert("BracketLeft"@.len() != "Equal"@.len());
    reveal_strlit("Comma");
    assert("BracketLeft"@.len() != "Comma"@.len());
    reveal_strlit("Period");
    assert("BracketLeft"@.len() != "Period"@.len());
    reveal_strlit("Slash");
    assert("BracketLeft"@.len() != "Slash"@.len());
    reveal_strlit("BackSlash");
    assert("BracketLeft"@.len() != "BackSlash"@.len());
    reveal_strlit("Apostrophe");
    assert("BracketLeft"@.len() != "Apostrophe"@.len());
    reveal_strlit("Quote");
    assert("BracketLeft"@.len() != "Quote"@.len());
    reveal_strlit("Semicolon");
    assert("BracketLeft"@.len() != "Semicolon"@.len());
    reveal_strlit("Grave");
    assert("BracketLeft"@.len() != "Grave"@.len());
    reveal_strlit("Backquote");
    assert("BracketLeft"@.len() != "Backquote"@.len());
}

proof fn lemma_named_bracket_right()
    ensures
        named_vk("BracketRight"@) == Some(0xDDu32),
        key_alias("BracketRight"@) == "BracketRight"@,
{
    reveal_strlit("BracketRight");
    reveal_strlit("Space");
    assert("BracketRight"@.len() != "Space"@.len());
    reveal_strlit("Tab");
    assert("BracketRight"@.len() != "Tab"@.len());
    reveal_strlit("Backspace");
    assert("BracketRight"@.len() != "Backspace"@.len());
    reveal_strlit("Return");
    assert("BracketRight"@.len() != "Return"@.len());
    reveal_strlit("Escape");
    assert("BracketRight"@.len() != "Escape"@.len());
    reveal_strlit("CapsLock");
    assert("BracketRight"@.len() != "CapsLock"@.len());
    reveal_strlit("NumLock");
    assert("BracketRight"@.len() != "NumLock"@.len());
    reveal_strlit("ScrollLock");
    assert("BracketRight"@.len() != "ScrollLock"@.len());
    reveal_strlit("PrintScreen");
    assert("BracketRight"@.len() != "PrintScreen"@.len());
    reveal_strlit("Pause");
    assert("BracketRight"@.len() != "Pause"@.len());
    reveal_strlit("Menu");
    assert("BracketRight"@.len() != "Menu"@.len());
    reveal_strlit("MetaLeft");
    assert("BracketRight"@.len() != "MetaLeft"@.len());
    reveal_strlit("MetaRight");
    assert("BracketRight"@.len() != "MetaRight"@.len());
    reveal_strlit("Command");
    assert("BracketRight"@.len() != "Command"@.len());
    reveal_strlit("Super");
    assert("BracketRight"@.len() != "Super"@.len());
    reveal_strlit("Win");
    assert("BracketRight"@.len() != "Win"@.len());
    reveal_strlit("Insert");
    assert("BracketRight"@.len() != "Insert"@.len());
    reveal_strlit("Delete");
    assert("BracketRight"@.len() != "Delete"@.len());
    reveal_strlit("Home");
    assert("BracketRight"@.len() != "Home"@.len());
    reveal_strlit("End");
    assert("BracketRight"@.len() != "End"@.len());
    reveal_strlit("PageUp");
    assert("BracketRight"@.len() != "PageUp"@.len());
    reveal_strlit("PageDown");
    assert("BracketRight"@.len() != "PageDown"@.len());
    reveal_strlit("UpArrow");
    assert("BracketRight"@.len() != "UpArrow"@.len());
    reveal_strlit("DownArrow");
    assert("BracketRight"@.len() != "DownArrow"@.len());
    reveal_strlit("LeftArrow");
    assert("BracketRight"@.len() != "LeftArrow"@.len());
    reveal_strlit("RightArrow");
    assert("BracketRight"@.len() != "RightArrow"@.len());
    reveal_strlit("Minus");
    assert("BracketRight"@.len() != "Minus"@.len());
    reveal_strlit("Equal");
    assert("BracketRight"@.len() != "Equal"@.len());
    reveal_strlit("Comma");
    assert("BracketRight"@.len() != "Comma"@.len());
    reveal_strlit("Period");
    assert("BracketRight"@.len() != "Period"@.len());
    reveal_strlit("Slash");
    assert("BracketRight"@.len() != "Slash"@.len());
    reveal_strlit("BackSlash");
    assert("BracketRight"@.len() != "BackSlash"@.len());
    reveal_strlit("Apostrophe");
    assert("BracketRight"@.len() != "Apostrophe"@.len());
    reveal_strlit("Quote");
    assert("BracketRight"@.len() != "Quote"@.len());
    reveal_strlit("Semicolon");
    assert("BracketRight"@.len() != "Semicolon"@.len());
    reveal_strlit("Grave");
    assert("BracketRight"@.len() != "Grave"@.len());
    reveal_strlit("Backquote");
    assert("BracketRight"@.len() != "Backquote"@.len());
    reveal_strlit("BracketLeft");
    assert("BracketRight"@.len() != "BracketLeft"@.len());
}

#[verifier::spinoff_prover]
proof fn lemma_named_key(t: Seq<char>)
    ensures
        named_vk(t) matches Some(v) ==> named_key_of_vk(v) == key_alias(t),
{
    if t == "Space"@ {
        lemma_named_space();
    } else if t == "Tab"@ {
        lemma_named_tab();
    } else if t == "Backspace"@ {
        lemma_named_backspace();
    } else if t == "Return"@ {
        lemma_named_return();
    } else if t == "Escape"@ {
        lemma_named_escape();
    } else if t == "CapsLock"@ {
        lemma_named_caps_lock();
    } else if t == "NumLock"@ {
        lemma_named_num_lock();
    } else if t == "ScrollLock"@ {
        lemma_named_scroll_lock();
    } else if t == "PrintScreen"@ {
        lemma_named_print_screen();
    } else if t == "Pause"@ {
        lemma_named_pause();
    } else if t == "Menu"@ {
        lemma_named_menu();
    } else if t == "MetaLeft"@ {
        lemma_named_meta_left();
    } else if t == "MetaRight"@ {
        lemma_named_meta_right();
    } else if t == "Command"@ {
        lemma_named_command();
    } else if t == "Super"@ {
        lemma_named_super();
    } else if t == "Win"@ {
        lemma_named_win();
    } else if t == "Insert"@ {
        lemma_named_insert();
    } else if t == "Delete"@ {
        lemma_named_delete();
    } else if t == "Home"@ {
        lemma_named_home();
    } else if t == "End"@ {
        lemma_named_end();
    } else if t == "PageUp"@ {
        lemma_named_page_up();
    } else if t == "PageDown"@ {
        lemma_named_page_down();
    } else if t == "UpArrow"@ {
        lemma_named_up_arrow();
    } else if t == "DownArrow"@ {
        lemma_named_down_arrow();
    } else if t == "LeftArrow"@ {
        lemma_named_left_arrow();
    } else if t == "RightArrow"@ {
        lemma_named_right_arrow();
    } else if t == "Minus"@ {
        lemma_named_minus();
    } else if t == "Equal"@ {
        lemma_named_equal();
    } else if t == "Comma"@ {
        lemma_named_comma();
    } else if t == "Period"@ {
        lemma_named_period();
    } else if t == "Slash"@ {
        lemma_named_slash();
    } else if t == "BackSlash"@ {
        lemma_named_back_slash();
    } else if t == "Apostrophe"@ {
        lemma_named_apostrophe();
    } else if t == "Quote"@ {
        lemma_named_quote();
    } else if t == "Semicolon"@ {
        lemma_named_semicolon();
    } else if t == "Grave"@ {
        lemma_named_grave();
    } else if t == "Backquote"@ {
        lemma_named_backquote();
    } else if t == "BracketLeft"@ {
        lemma_named_bracket_left();
    } else if t == "BracketRight"@ {
        lemma_named_bracket_right();
    }
}

/// Two named keys share a key code only when they are names of one key
/// (`Win`, `Super`, `Command` and `MetaLeft`; `Quote` and `Apostrophe`;
/// `Grave` and `Backquote`): distinct keys are registered on distinct codes.
pub proof fn law_named_keys_distinct(t1: Seq<char>, t2: Seq<char>)
    ensures
        named_vk(t1) is Some && named_vk(t1) == named_vk(t2) ==> key_alias(t1) == key_alias(t2),
{
    lemma_named_key(t1);
    lemma_named_key(t2);
}

/// No named key has the code of a letter, a digit or a function key, so a
/// named key is never registered on one of those.
pub proof fn law_named_codes_apart(t: Seq<char>)
    ensures
        named_vk(t) matches Some(v) ==> !(0x30 <= v <= 0x39) && !(0x41 <= v <= 0x5A) && !(0x70 <= v <= 0x7B),
{
}

} // verus!

//! The vocabulary tables: which target identifier stands for a key name, a
//! pointing-button name or a modifier name of the source format. Each table is
//! total or fails: a name that it does not hold has no target.

use crate::text::{chars_of, text_is};
use vstd::prelude::*;

verus! {

/// The letters.
pub open spec fn letter_key(name: Seq<char>) -> Option<Seq<char>> {
    if name == "A"@ {
        Some("a"@)
    } else if name == "B"@ {
        Some("b"@)
    } else if name == "C"@ {
        Some("c"@)
    } else if name == "D"@ {
        Some("d"@)
    } else if name == "E"@ {
        Some("e"@)
    } else if name == "F"@ {
        Some("f"@)
    } else if name == "G"@ {
        Some("g"@)
    } else if name == "H"@ {
        Some("h"@)
    } else if name == "I"@ {
        Some("i"@)
    } else if name == "J"@ {
        Some("j"@)
    } else if name == "K"@ {
        Some("k"@)
    } else if name == "L"@ {
        Some("l"@)
    } else if name == "M"@ {
        Some("m"@)
    } else if name == "N"@ {
        Some("n"@)
    } else if name == "O"@ {
        Some("o"@)
    } else if name == "P"@ {
        Some("p"@)
    } else if name == "Q"@ {
        Some("q"@)
    } else if name == "R"@ {
        Some("r"@)
    } else if name == "S"@ {
        Some("s"@)
    } else if name == "T"@ {
        Some("t"@)
    } else if name == "U"@ {
        Some("u"@)
    } else if name == "V"@ {
        Some("v"@)
    } else if name == "W"@ {
        Some("w"@)
    } else if name == "X"@ {
        Some("x"@)
    } else if name == "Y"@ {
        Some("y"@)
    } else if name == "Z"@ {
        Some("z"@)
    } else {
        None
    }
}

/// The digits of the main block, bare or with the prefix `KEY_`.
pub open spec fn digit_key(name: Seq<char>) -> Option<Seq<char>> {
    if name == "0"@ {
        Some("0"@)
    } else if name == "1"@ {
        Some("1"@)
    } else if name == "2"@ {
        Some("2"@)
    } else if name == "3"@ {
        Some("3"@)
    } else if name == "4"@ {
        Some("4"@)
    } else if name == "5"@ {
        Some("5"@)
    } else if name == "6"@ {
        Some("6"@)
    } else if name == "7"@ {
        Some("7"@)
    } else if name == "8"@ {
        Some("8"@)
    } else if name == "9"@ {
        Some("9"@)
    } else if name == "KEY_0"@ {
        Some("0"@)
    } else if name == "KEY_1"@ {
        Some("1"@)
    } else if name == "KEY_2"@ {
        Some("2"@)
    } else if name == "KEY_3"@ {
        Some("3"@)
    } else if name == "KEY_4"@ {
        Some("4"@)
    } else if name == "KEY_5"@ {
        Some("5"@)
    } else if name == "KEY_6"@ {
        Some("6"@)
    } else if name == "KEY_7"@ {
        Some("7"@)
    } else if name == "KEY_8"@ {
        Some("8"@)
    } else if name == "KEY_9"@ {
        Some("9"@)
    } else {
        None
    }
}

/// The keys of the numeric keypad.
pub open spec fn keypad_key(name: Seq<char>) -> Option<Seq<char>> {
    if name == "KEYPAD_0"@ {
        Some("keypad_0"@)
    } else if name == "KEYPAD_1"@ {
        Some("keypad_1"@)
    } else if name == "KEYPAD_2"@ {
        Some("keypad_2"@)
    } else if name == "KEYPAD_3"@ {
        Some("keypad_3"@)
    } else if name == "KEYPAD_4"@ {
        Some("keypad_4"@)
    } else if name == "KEYPAD_5"@ {
        Some("keypad_5"@)
    } else if name == "KEYPAD_6"@ {
        Some("keypad_6"@)
    } else if name == "KEYPAD_7"@ {
        Some("keypad_7"@)
    } else if name == "KEYPAD_8"@ {
        Some("keypad_8"@)
    } else if name == "KEYPAD_9"@ {
        Some("keypad_9"@)
    } else if name == "KEYPAD_DOT"@ {
        Some("keypad_period"@)
    } else if name == "KEYPAD_EQUAL"@ {
        Some("keypad_equal_sign"@)
    } else if name == "KEYPAD_PLUS"@ {
        Some("keypad_plus"@)
    } else if name == "KEYPAD_SLASH"@ {
        Some("keypad_slash"@)
    } else if name == "KEYPAD_MULTIPLY"@ {
        Some("keypad_asterisk"@)
    } else if name == "KEYPAD_MINUS"@ {
        Some("keypad_hyphen"@)
    } else {
        None
    }
}

/// The punctuation keys.
pub open spec fn punctuation_key(name: Seq<char>) -> Option<Seq<char>> {
    if name == "BACKQUOTE"@ {
        Some("grave_accent_and_tilde"@)
    } else if name == "BACKSLASH"@ {
        Some("backslash"@)
    } else if name == "BRACKET_LEFT"@ {
        Some("open_bracket"@)
    } else if name == "BRACKET_RIGHT"@ {
        Some("close_bracket"@)
    } else if name == "COMMA"@ {
        Some("comma"@)
    } else if name == "DOT"@ {
        Some("period"@)
    } else if name == "EQUAL"@ {
        Some("equal_sign"@)
    } else if name == "MINUS"@ {
        Some("hyphen"@)
    } else if name == "QUOTE"@ {
        Some("quote"@)
    } else if name == "SEMICOLON"@ {
        Some("semicolon"@)
    } else if name == "SLASH"@ {
        Some("slash"@)
    } else {
        None
    }
}

/// The keys that edit and confirm; `ENTER` and `RETURN` are one key.
pub open spec fn editing_key(name: Seq<char>) -> Option<Seq<char>> {
    if name == "DELETE"@ {
        Some("delete_or_backspace"@)
    } else if name == "ENTER"@ {
        Some("return_or_enter"@)
    } else if name == "ESCAPE"@ {
        Some("escape"@)
    } else if name == "RETURN"@ {
        Some("return_or_enter"@)
    } else if name == "SPACE"@ {
        Some("spacebar"@)
    } else if name == "TAB"@ {
        Some("tab"@)
    } else {
        None
    }
}

/// The function keys.
pub open spec fn function_key(name: Seq<char>) -> Option<Seq<char>> {
    if name == "F1"@ {
        Some("f1"@)
    } else if name == "F2"@ {
        Some("f2"@)
    } else if name == "F3"@ {
        Some("f3"@)
    } else if name == "F4"@ {
        Some("f4"@)
    } else if name == "F5"@ {
        Some("f5"@)
    } else if name == "F6"@ {
        Some("f6"@)
    } else if name == "F7"@ {
        Some("f7"@)
    } else if name == "F8"@ {
        Some("f8"@)
    } else if name == "F9"@ {
        Some("f9"@)
    } else if name == "F10"@ {
        Some("f10"@)
    } else if name == "F11"@ {
        Some("f11"@)
    } else if name == "F12"@ {
        Some("f12"@)
    } else if name == "F13"@ {
        Some("f13"@)
    } else if name == "F14"@ {
        Some("f14"@)
    } else if name == "F15"@ {
        Some("f15"@)
    } else if name == "F16"@ {
        Some("f16"@)
    } else if name == "F17"@ {
        Some("f17"@)
    } else if name == "F18"@ {
        Some("f18"@)
    } else if name == "F19"@ {
        Some("f19"@)
    } else {
        None
    }
}

/// The brightness and desktop keys.
pub open spec fn system_key(name: Seq<char>) -> Option<Seq<char>> {
    if name == "BRIGHTNESS_DOWN"@ {
        Some("display_brightness_decrement"@)
    } else if name == "BRIGHTNESS_UP"@ {
        Some("display_brightness_increment"@)
    } else if name == "DASHBOARD"@ {
        Some("dashboard"@)
    } else if name == "LAUNCHPAD"@ {
        Some("launchpad"@)
    } else if name == "MISSION_CONTROL"@ {
        Some("mission_control"@)
    } else {
        None
    }
}

/// The paging keys and the arrows.
pub open spec fn navigation_key(name: Seq<char>) -> Option<Seq<char>> {
    if name == "PAGEUP"@ {
        Some("page_up"@)
    } else if name == "PAGEDOWN"@ {
        Some("page_down"@)
    } else if name == "HOME"@ {
        Some("home"@)
    } else if name == "END"@ {
        Some("end"@)
    } else if name == "CURSOR_LEFT"@ {
        Some("left_arrow"@)
    } else if name == "CURSOR_RIGHT"@ {
        Some("right_arrow"@)
    } else if name == "CURSOR_UP"@ {
        Some("up_arrow"@)
    } else if name == "CURSOR_DOWN"@ {
        Some("down_arrow"@)
    } else {
        None
    }
}

/// The modifier keys, pressed as keys.
pub open spec fn modifier_key(name: Seq<char>) -> Option<Seq<char>> {
    if name == "CAPSLOCK"@ {
        Some("caps_lock"@)
    } else if name == "COMMAND_L"@ {
        Some("left_command"@)
    } else if name == "COMMAND_R"@ {
        Some("right_command"@)
    } else if name == "CONTROL_L"@ {
        Some("left_control"@)
    } else if name == "CONTROL_R"@ {
        Some("right_control"@)
    } else if name == "FN"@ {
        Some("fn"@)
    } else if name == "OPTION_L"@ {
        Some("left_option"@)
    } else if name == "OPTION_R"@ {
        Some("right_option"@)
    } else if name == "SHIFT_L"@ {
        Some("left_shift"@)
    } else if name == "SHIFT_R"@ {
        Some("right_shift"@)
    } else {
        None
    }
}

/// The first of two lookups that found a target.
pub open spec fn or_else(first: Option<Seq<char>>, second: Option<Seq<char>>) -> Option<Seq<char>> {
    if first is Some {
        first
    } else {
        second
    }
}

/// The target identifier of a key name.
pub open spec fn key_code_target(name: Seq<char>) -> Option<Seq<char>> {
    or_else(
        letter_key(name),
        or_else(
            digit_key(name),
            or_else(
                keypad_key(name),
                or_else(
                    punctuation_key(name),
                    or_else(
                        editing_key(name),
                        or_else(
                            function_key(name),
                            or_else(
                                system_key(name),
                                or_else(
                                    navigation_key(name),
                                    modifier_key(name),
                                ),
                            ),
                        ),
                    ),
                ),
            ),
        ),
    )
}

/// The target identifier of a pointing button: `LEFT`, `RIGHT` and `MIDDLE` are the
/// first three of the nine numbered buttons.
pub open spec fn button_target(name: Seq<char>) -> Option<Seq<char>> {
    if name == "LEFT"@ {
        Some("button1"@)
    } else if name == "RIGHT"@ {
        Some("button2"@)
    } else if name == "MIDDLE"@ {
        Some("button3"@)
    } else if name == "BUTTON1"@ {
        Some("button1"@)
    } else if name == "BUTTON2"@ {
        Some("button2"@)
    } else if name == "BUTTON3"@ {
        Some("button3"@)
    } else if name == "BUTTON4"@ {
        Some("button4"@)
    } else if name == "BUTTON5"@ {
        Some("button5"@)
    } else if name == "BUTTON6"@ {
        Some("button6"@)
    } else if name == "BUTTON7"@ {
        Some("button7"@)
    } else if name == "BUTTON8"@ {
        Some("button8"@)
    } else if name == "BUTTON9"@ {
        Some("button9"@)
    } else {
        None
    }
}

/// The target identifier of a modifier flag other than `NONE`; a flag without a
/// side is the left one.
pub open spec fn modifier_flag_target(name: Seq<char>) -> Option<Seq<char>> {
    if name == "ZERO"@ {
        Some("zero"@)
    } else if name == "CAPSLOCK"@ {
        Some("caps_lock"@)
    } else if name == "SHIFT"@ {
        Some("left_shift"@)
    } else if name == "SHIFT_L"@ {
        Some("left_shift"@)
    } else if name == "SHIFT_R"@ {
        Some("right_shift"@)
    } else if name == "CONTROL"@ {
        Some("left_control"@)
    } else if name == "CONTROL_L"@ {
        Some("left_control"@)
    } else if name == "CONTROL_R"@ {
        Some("right_control"@)
    } else if name == "OPTION_L"@ {
        Some("left_option"@)
    } else if name == "OPTION_R"@ {
        Some("right_option"@)
    } else if name == "COMMAND"@ {
        Some("left_command"@)
    } else if name == "COMMAND_L"@ {
        Some("left_command"@)
    } else if name == "COMMAND_R"@ {
        Some("right_command"@)
    } else if name == "FN"@ {
        Some("fn"@)
    } else {
        None
    }
}

/// Looks `name` up among the letters.
fn find_letter_key(name: &Vec<char>) -> (target: Option<&'static str>)
    ensures
        target.deep_view() == letter_key(name@),
{
    if text_is(name, "A") {
        Some("a")
    } else if text_is(name, "B") {
        Some("b")
    } else if text_is(name, "C") {
        Some("c")
    } else if text_is(name, "D") {
        Some("d")
    } else if text_is(name, "E") {
        Some("e")
    } else if text_is(name, "F") {
        Some("f")
    } else if text_is(name, "G") {
        Some("g")
    } else if text_is(name, "H") {
        Some("h")
    } else if text_is(name, "I") {
        Some("i")
    } else if text_is(name, "J") {
        Some("j")
    } else if text_is(name, "K") {
        Some("k")
    } else if text_is(name, "L") {
        Some("l")
    } else if text_is(name, "M") {
        Some("m")
    } else if text_is(name, "N") {
        Some("n")
    } else if text_is(name, "O") {
        Some("o")
    } else if text_is(name, "P") {
        Some("p")
    } else if text_is(name, "Q") {
        Some("q")
    } else if text_is(name, "R") {
        Some("r")
    } else if text_is(name, "S") {
        Some("s")
    } else if text_is(name, "T") {
        Some("t")
    } else if text_is(name, "U") {
        Some("u")
    } else if text_is(name, "V") {
        Some("v")
    } else if text_is(name, "W") {
        Some("w")
    } else if text_is(name, "X") {
        Some("x")
    } else if text_is(name, "Y") {
        Some("y")
    } else if text_is(name, "Z") {
        Some("z")
    } else {
        None
    }
}

/// Looks `name` up among the digits.
fn find_digit_key(name: &Vec<char>) -> (target: Option<&'static str>)
    ensures
        target.deep_view() == digit_key(name@),
{
    if text_is(name, "0") {
        Some("0")
    } else if text_is(name, "1") {
        Some("1")
    } else if text_is(name, "2") {
        Some("2")
    } else if text_is(name, "3") {
        Some("3")
    } else if text_is(name, "4") {
        Some("4")
    } else if text_is(name, "5") {
        Some("5")
    } else if text_is(name, "6") {
        Some("6")
    } else if text_is(name, "7") {
        Some("7")
    } else if text_is(name, "8") {
        Some("8")
    } else if text_is(name, "9") {
        Some("9")
    } else if text_is(name, "KEY_0") {
        Some("0")
    } else if text_is(name, "KEY_1") {
        Some("1")
    } else if text_is(name, "KEY_2") {
        Some("2")
    } else if text_is(name, "KEY_3") {
        Some("3")
    } else if text_is(name, "KEY_4") {
        Some("4")
    } else if text_is(name, "KEY_5") {
        Some("5")
    } else if text_is(name, "KEY_6") {
        Some("6")
    } else if text_is(name, "KEY_7") {
        Some("7")
    } else if text_is(name, "KEY_8") {
        Some("8")
    } else if text_is(name, "KEY_9") {
        Some("9")
    } else {
        None
    }
}

/// Looks `name` up among the keys of the numeric keypad.
fn find_keypad_key(name: &Vec<char>) -> (target: Option<&'static str>)
    ensures
        target.deep_view() == keypad_key(name@),
{
    if text_is(name, "KEYPAD_0") {
        Some("keypad_0")
    } else if text_is(name, "KEYPAD_1") {
        Some("keypad_1")
    } else if text_is(name, "KEYPAD_2") {
        Some("keypad_2")
    } else if text_is(name, "KEYPAD_3") {
        Some("keypad_3")
    } else if text_is(name, "KEYPAD_4") {
        Some("keypad_4")
    } else if text_is(name, "KEYPAD_5") {
        Some("keypad_5")
    } else if text_is(name, "KEYPAD_6") {
        Some("keypad_6")
    } else if text_is(name, "KEYPAD_7") {
        Some("keypad_7")
    } else if text_is(name, "KEYPAD_8") {
        Some("keypad_8")
    } else if text_is(name, "KEYPAD_9") {
        Some("keypad_9")
    } else if text_is(name, "KEYPAD_DOT") {
        Some("keypad_period")
    } else if text_is(name, "KEYPAD_EQUAL") {
        Some("keypad_equal_sign")
    } else if text_is(name, "KEYPAD_PLUS") {
        Some("keypad_plus")
    } else if text_is(name, "KEYPAD_SLASH") {
        Some("keypad_slash")
    } else if text_is(name, "KEYPAD_MULTIPLY") {
        Some("keypad_asterisk")
    } else if text_is(name, "KEYPAD_MINUS") {
        Some("keypad_hyphen")
    } else {
        None
    }
}

/// Looks `name` up among the punctuation keys.
fn find_punctuation_key(name: &Vec<char>) -> (target: Option<&'static str>)
    ensures
        target.deep_view() == punctuation_key(name@),
{
    if text_is(name, "BACKQUOTE") {
        Some("grave_accent_and_tilde")
    } else if text_is(name, "BACKSLASH") {
        Some("backslash")
    } else if text_is(name, "BRACKET_LEFT") {
        Some("open_bracket")
    } else if text_is(name, "BRACKET_RIGHT") {
        Some("close_bracket")
    } else if text_is(name, "COMMA") {
        Some("comma")
    } else if text_is(name, "DOT") {
        Some("period")
    } else if text_is(name, "EQUAL") {
        Some("equal_sign")
    } else if text_is(name, "MINUS") {
        Some("hyphen")
    } else if text_is(name, "QUOTE") {
        Some("quote")
    } else if text_is(name, "SEMICOLON") {
        Some("semicolon")
    } else if text_is(name, "SLASH") {
        Some("slash")
    } else {
        None
    }
}

/// Looks `name` up among the keys that edit and confirm.
fn find_editing_key(name: &Vec<char>) -> (target: Option<&'static str>)
    ensures
        target.deep_view() == editing_key(name@),
{
    if text_is(name, "DELETE") {
        Some("delete_or_backspace")
    } else if text_is(name, "ENTER") {
        Some("return_or_enter")
    } else if text_is(name, "ESCAPE") {
        Some("escape")
    } else if text_is(name, "RETURN") {
        Some("return_or_enter")
    } else if text_is(name, "SPACE") {
        Some("spacebar")
    } else if text_is(name, "TAB") {
        Some("tab")
    } else {
        None
    }
}

/// Looks `name` up among the function keys.
fn find_function_key(name: &Vec<char>) -> (target: Option<&'static str>)
    ensures
        target.deep_view() == function_key(name@),
{
    if text_is(name, "F1") {
        Some("f1")
    } else if text_is(name, "F2") {
        Some("f2")
    } else if text_is(name, "F3") {
        Some("f3")
    } else if text_is(name, "F4") {
        Some("f4")
    } else if text_is(name, "F5") {
        Some("f5")
    } else if text_is(name, "F6") {
        Some("f6")
    } else if text_is(name, "F7") {
        Some("f7")
    } else if text_is(name, "F8") {
        Some("f8")
    } else if text_is(name, "F9") {
        Some("f9")
    } else if text_is(name, "F10") {
        Some("f10")
    } else if text_is(name, "F11") {
        Some("f11")
    } else if text_is(name, "F12") {
        Some("f12")
    } else if text_is(name, "F13") {
        Some("f13")
    } else if text_is(name, "F14") {
        Some("f14")
    } else if text_is(name, "F15") {
        Some("f15")
    } else if text_is(name, "F16") {
        Some("f16")
    } else if text_is(name, "F17") {
        Some("f17")
    } else if text_is(name, "F18") {
        Some("f18")
    } else if text_is(name, "F19") {
        Some("f19")
    } else {
        None
    }
}

/// Looks `name` up among the brightness and desktop keys.
fn find_system_key(name: &Vec<char>) -> (target: Option<&'static str>)
    ensures
        target.deep_view() == system_key(name@),
{
    if text_is(name, "BRIGHTNESS_DOWN") {
        Some("display_brightness_decrement")
    } else if text_is(name, "BRIGHTNESS_UP") {
        Some("display_brightness_increment")
    } else if text_is(name, "DASHBOARD") {
        Some("dashboard")
    } else if text_is(name, "LAUNCHPAD") {
        Some("launchpad")
    } else if text_is(name, "MISSION_CONTROL") {
        Some("mission_control")
    } else {
        None
    }
}

/// Looks `name` up among the paging keys and the arrows.
fn find_navigation_key(name: &Vec<char>) -> (target: Option<&'static str>)
    ensures
        target.deep_view() == navigation_key(name@),
{
    if text_is(name, "PAGEUP") {
        Some("page_up")
    } else if text_is(name, "PAGEDOWN") {
        Some("page_down")
    } else if text_is(name, "HOME") {
        Some("home")
    } else if text_is(name, "END") {
        Some("end")
    } else if text_is(name, "CURSOR_LEFT") {
        Some("left_arrow")
    } else if text_is(name, "CURSOR_RIGHT") {
        Some("right_arrow")
    } else if text_is(name, "CURSOR_UP") {
        Some("up_arrow")
    } else if text_is(name, "CURSOR_DOWN") {
        Some("down_arrow")
    } else {
        None
    }
}

/// Looks `name` up among the modifier keys.
fn find_modifier_key(name: &Vec<char>) -> (target: Option<&'static str>)
    ensures
        target.deep_view() == modifier_key(name@),
{
    if text_is(name, "CAPSLOCK") {
        Some("caps_lock")
    } else if text_is(name, "COMMAND_L") {
        Some("left_command")
    } else if text_is(name, "COMMAND_R") {
        Some("right_command")
    } else if text_is(name, "CONTROL_L") {
        Some("left_control")
    } else if text_is(name, "CONTROL_R") {
        Some("right_control")
    } else if text_is(name, "FN") {
        Some("fn")
    } else if text_is(name, "OPTION_L") {
        Some("left_option")
    } else if text_is(name, "OPTION_R") {
        Some("right_option")
    } else if text_is(name, "SHIFT_L") {
        Some("left_shift")
    } else if text_is(name, "SHIFT_R") {
        Some("right_shift")
    } else {
        None
    }
}

/// Looks `name` up among the pointing buttons.
fn find_button(name: &Vec<char>) -> (target: Option<&'static str>)
    ensures
        target.deep_view() == button_target(name@),
{
    if text_is(name, "LEFT") {
        Some("button1")
    } else if text_is(name, "RIGHT") {
        Some("button2")
    } else if text_is(name, "MIDDLE") {
        Some("button3")
    } else if text_is(name, "BUTTON1") {
        Some("button1")
    } else if text_is(name, "BUTTON2") {
        Some("button2")
    } else if text_is(name, "BUTTON3") {
        Some("button3")
    } else if text_is(name, "BUTTON4") {
        Some("button4")
    } else if text_is(name, "BUTTON5") {
        Some("button5")
    } else if text_is(name, "BUTTON6") {
        Some("button6")
    } else if text_is(name, "BUTTON7") {
        Some("button7")
    } else if text_is(name, "BUTTON8") {
        Some("button8")
    } else if text_is(name, "BUTTON9") {
        Some("button9")
    } else {
        None
    }
}

/// Looks `name` up among the modifier flags.
fn find_modifier_flag(name: &Vec<char>) -> (target: Option<&'static str>)
    ensures
        target.deep_view() == modifier_flag_target(name@),
{
    if text_is(name, "ZERO") {
        Some("zero")
    } else if text_is(name, "CAPSLOCK") {
        Some("caps_lock")
    } else if text_is(name, "SHIFT") {
        Some("left_shift")
    } else if text_is(name, "SHIFT_L") {
        Some("left_shift")
    } else if text_is(name, "SHIFT_R") {
        Some("right_shift")
    } else if text_is(name, "CONTROL") {
        Some("left_control")
    } else if text_is(name, "CONTROL_L") {
        Some("left_control")
    } else if text_is(name, "CONTROL_R") {
        Some("right_control")
    } else if text_is(name, "OPTION_L") {
        Some("left_option")
    } else if text_is(name, "OPTION_R") {
        Some("right_option")
    } else if text_is(name, "COMMAND") {
        Some("left_command")
    } else if text_is(name, "COMMAND_L") {
        Some("left_command")
    } else if text_is(name, "COMMAND_R") {
        Some("right_command")
    } else if text_is(name, "FN") {
        Some("fn")
    } else {
        None
    }
}

/// The target identifier of the key named `name`, if the key-code table holds it.
pub fn lookup_key_code(name: &str) -> (target: Option<&'static str>)
    ensures
        target.deep_view() == key_code_target(name@),
{
    let chars = chars_of(name);
    if let Some(target) = find_letter_key(&chars) {
        return Some(target);
    }
    if let Some(target) = find_digit_key(&chars) {
        return Some(target);
    }
    if let Some(target) = find_keypad_key(&chars) {
        return Some(target);
    }
    if let Some(target) = find_punctuation_key(&chars) {
        return Some(target);
    }
    if let Some(target) = find_editing_key(&chars) {
        return Some(target);
    }
    if let Some(target) = find_function_key(&chars) {
        return Some(target);
    }
    if let Some(target) = find_system_key(&chars) {
        return Some(target);
    }
    if let Some(target) = find_navigation_key(&chars) {
        return Some(target);
    }
    find_modifier_key(&chars)
}

/// The target identifier of the pointing button named `name`, if the button
/// table holds it.
pub fn lookup_button(name: &str) -> (target: Option<&'static str>)
    ensures
        target.deep_view() == button_target(name@),
{
    let chars = chars_of(name);
    find_button(&chars)
}

/// The target identifier of the modifier flag named `name`, if the modifier
/// table holds it. `NONE` stands for no modifier and has no target.
pub fn lookup_modifier_flag(name: &str) -> (target: Option<&'static str>)
    ensures
        target.deep_view() == modifier_flag_target(name@),
{
    let chars = chars_of(name);
    find_modifier_flag(&chars)
}

/// A character of which the names of the source format are made: a capital
/// letter, a digit or the underscore.
pub open spec fn is_name_char(c: char) -> bool {
    let n = c as u32;
    ||| 0x41 <= n <= 0x5a
    ||| 0x30 <= n <= 0x39
    ||| n == 0x5f
}

/// Whether `name` is not empty and made of name characters alone.
pub open spec fn is_plain_name(name: Seq<char>) -> bool {
    name.len() > 0 && forall|i: int| 0 <= i < name.len() ==> is_name_char(name[i])
}

/// The names of the letters are plain.
proof fn lemma_letter_key_names(name: Seq<char>)
    requires
        letter_key(name) is Some,
    ensures
        is_plain_name(name),
{
    reveal_strlit("A");
    reveal_strlit("B");
    reveal_strlit("C");
    reveal_strlit("D");
    reveal_strlit("E");
    reveal_strlit("F");
    reveal_strlit("G");
    reveal_strlit("H");
    reveal_strlit("I");
    reveal_strlit("J");
    reveal_strlit("K");
    reveal_strlit("L");
    reveal_strlit("M");
    reveal_strlit("N");
    reveal_strlit("O");
    reveal_strlit("P");
    reveal_strlit("Q");
    reveal_strlit("R");
    reveal_strlit("S");
    reveal_strlit("T");
    reveal_strlit("U");
    reveal_strlit("V");
    reveal_strlit("W");
    reveal_strlit("X");
    reveal_strlit("Y");
    reveal_strlit("Z");
}

/// The names of the digits are plain.
proof fn lemma_digit_key_names(name: Seq<char>)
    requires
        digit_key(name) is Some,
    ensures
        is_plain_name(name),
{
    reveal_strlit("0");
    reveal_strlit("1");
    reveal_strlit("2");
    reveal_strlit("3");
    reveal_strlit("4");
    reveal_strlit("5");
    reveal_strlit("6");
    reveal_strlit("7");
    reveal_strlit("8");
    reveal_strlit("9");
    reveal_strlit("KEY_0");
    reveal_strlit("KEY_1");
    reveal_strlit("KEY_2");
    reveal_strlit("KEY_3");
    reveal_strlit("KEY_4");
    reveal_strlit("KEY_5");
    reveal_strlit("KEY_6");
    reveal_strlit("KEY_7");
    reveal_strlit("KEY_8");
    reveal_strlit("KEY_9");
}

/// The names of the keys of the numeric keypad are plain.
proof fn lemma_keypad_key_names(name: Seq<char>)
    requires
        keypad_key(name) is Some,
    ensures
        is_plain_name(name),
{
    reveal_strlit("KEYPAD_0");
    reveal_strlit("KEYPAD_1");
    reveal_strlit("KEYPAD_2");
    reveal_strlit("KEYPAD_3");
    reveal_strlit("KEYPAD_4");
    reveal_strlit("KEYPAD_5");
    reveal_strlit("KEYPAD_6");
    reveal_strlit("KEYPAD_7");
    reveal_strlit("KEYPAD_8");
    reveal_strlit("KEYPAD_9");
    reveal_strlit("KEYPAD_DOT");
    reveal_strlit("KEYPAD_EQUAL");
    reveal_strlit("KEYPAD_PLUS");
    reveal_strlit("KEYPAD_SLASH");
    reveal_strlit("KEYPAD_MULTIPLY");
    reveal_strlit("KEYPAD_MINUS");
}

/// The names of the punctuation keys are plain.
proof fn lemma_punctuation_key_names(name: Seq<char>)
    requires
        punctuation_key(name) is Some,
    ensures
        is_plain_name(name),
{
    reveal_strlit("BACKQUOTE");
    reveal_strlit("BACKSLASH");
    reveal_strlit("BRACKET_LEFT");
    reveal_strlit("BRACKET_RIGHT");
    reveal_strlit("COMMA");
    reveal_strlit("DOT");
    reveal_strlit("EQUAL");
    reveal_strlit("MINUS");
    reveal_strlit("QUOTE");
    reveal_strlit("SEMICOLON");
    reveal_strlit("SLASH");
}

/// The names of the keys that edit and confirm are plain.
proof fn lemma_editing_key_names(name: Seq<char>)
    requires
        editing_key(name) is Some,
    ensures
        is_plain_name(name),
{
    reveal_strlit("DELETE");
    reveal_strlit("ENTER");
    reveal_strlit("ESCAPE");
    reveal_strlit("RETURN");
    reveal_strlit("SPACE");
    reveal_strlit("TAB");
}

/// The names of the function keys are plain.
proof fn lemma_function_key_names(name: Seq<char>)
    requires
        function_key(name) is Some,
    ensures
        is_plain_name(name),
{
    reveal_strlit("F1");
    reveal_strlit("F2");
    reveal_strlit("F3");
    reveal_strlit("F4");
    reveal_strlit("F5");
    reveal_strlit("F6");
    reveal_strlit("F7");
    reveal_strlit("F8");
    reveal_strlit("F9");
    reveal_strlit("F10");
    reveal_strlit("F11");
    reveal_strlit("F12");
    reveal_strlit("F13");
    reveal_strlit("F14");
    reveal_strlit("F15");
    reveal_strlit("F16");
    reveal_strlit("F17");
    reveal_strlit("F18");
    reveal_strlit("F19");
}

/// The names of the brightness and desktop keys are plain.
proof fn lemma_system_key_names(name: Seq<char>)
    requires
        system_key(name) is Some,
    ensures
        is_plain_name(name),
{
    reveal_strlit("BRIGHTNESS_DOWN");
    reveal_strlit("BRIGHTNESS_UP");
    reveal_strlit("DASHBOARD");
    reveal_strlit("LAUNCHPAD");
    reveal_strlit("MISSION_CONTROL");
}

/// The names of the paging keys and the arrows are plain.
proof fn lemma_navigation_key_names(name: Seq<char>)
    requires
        navigation_key(name) is Some,
    ensures
        is_plain_name(name),
{
    reveal_strlit("PAGEUP");
    reveal_strlit("PAGEDOWN");
    reveal_strlit("HOME");
    reveal_strlit("END");
    reveal_strlit("CURSOR_LEFT");
    reveal_strlit("CURSOR_RIGHT");
    reveal_strlit("CURSOR_UP");
    reveal_strlit("CURSOR_DOWN");
}

/// The names of the modifier keys are plain.
proof fn lemma_modifier_key_names(name: Seq<char>)
    requires
        modifier_key(name) is Some,
    ensures
        is_plain_name(name),
{
    reveal_strlit("CAPSLOCK");
    reveal_strlit("COMMAND_L");
    reveal_strlit("COMMAND_R");
    reveal_strlit("CONTROL_L");
    reveal_strlit("CONTROL_R");
    reveal_strlit("FN");
    reveal_strlit("OPTION_L");
    reveal_strlit("OPTION_R");
    reveal_strlit("SHIFT_L");
    reveal_strlit("SHIFT_R");
}

/// Every name of the key-code table is plain.
pub proof fn lemma_key_code_names(name: Seq<char>)
    requires
        key_code_target(name) is Some,
    ensures
        is_plain_name(name),
{
    if letter_key(name) is Some {
        lemma_letter_key_names(name);
    } else if digit_key(name) is Some {
        lemma_digit_key_names(name);
    } else if keypad_key(name) is Some {
        lemma_keypad_key_names(name);
    } else if punctuation_key(name) is Some {
        lemma_punctuation_key_names(name);
    } else if editing_key(name) is Some {
        lemma_editing_key_names(name);
    } else if function_key(name) is Some {
        lemma_function_key_names(name);
    } else if system_key(name) is Some {
        lemma_system_key_names(name);
    } else if navigation_key(name) is Some {
        lemma_navigation_key_names(name);
    } else {
        lemma_modifier_key_names(name);
    }
}

/// Every name of the button table is plain.
pub proof fn lemma_button_names(name: Seq<char>)
    requires
        button_target(name) is Some,
    ensures
        is_plain_name(name),
{
    reveal_strlit("LEFT");
    reveal_strlit("RIGHT");
    reveal_strlit("MIDDLE");
    reveal_strlit("BUTTON1");
    reveal_strlit("BUTTON2");
    reveal_strlit("BUTTON3");
    reveal_strlit("BUTTON4");
    reveal_strlit("BUTTON5");
    reveal_strlit("BUTTON6");
    reveal_strlit("BUTTON7");
    reveal_strlit("BUTTON8");
    reveal_strlit("BUTTON9");
}

/// Every name of the modifier table is plain.
pub proof fn lemma_modifier_flag_names(name: Seq<char>)
    requires
        modifier_flag_target(name) is Some,
    ensures
        is_plain_name(name),
{
    reveal_strlit("ZERO");
    reveal_strlit("CAPSLOCK");
    reveal_strlit("SHIFT");
    reveal_strlit("SHIFT_L");
    reveal_strlit("SHIFT_R");
    reveal_strlit("CONTROL");
    reveal_strlit("CONTROL_L");
    reveal_strlit("CONTROL_R");
    reveal_strlit("OPTION_L");
    reveal_strlit("OPTION_R");
    reveal_strlit("COMMAND");
    reveal_strlit("COMMAND_L");
    reveal_strlit("COMMAND_R");
    reveal_strlit("FN");
}

} // verus!

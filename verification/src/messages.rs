//! Texts of the error boxes the program shows.
use vstd::prelude::*;
use crate::desktops::{digit_char, digit_str, DESKTOP_COUNT};

verus! {

/// Caption of every error box.
pub const ERROR_CAPTION: &'static str = "Virtual Desktop";

/// The error shown when the host thread cannot be bound to its desktop.
pub fn bind_desktop_error(error: &str) -> (text: String)
    ensures
        text@ == "绑定 Desktop 失败: "@ + error@,
{
    let mut text = String::from_str("绑定 Desktop 失败: ");
    text.append(error);
    text
}

/// The error shown when the terminal process cannot be started.
pub fn launch_error(error: &str) -> (text: String)
    ensures
        text@ == "无法启动终端: "@ + error@,
{
    let mut text = String::from_str("无法启动终端: ");
    text.append(error);
    text
}

/// The error shown when the desktop of slot `index` cannot be created; the
/// slot is numbered from 1.
pub fn create_desktop_error(index: usize, error: &str) -> (text: String)
    requires
        index < DESKTOP_COUNT,
    ensures
        text@ == "创建 Desktop "@.push(digit_char(index + 1)) + " 失败: "@ + error@,
{
    let mut text = String::from_str("创建 Desktop ");
    text.append(digit_str(index + 1));
    text.append(" 失败: ");
    text.append(error);
    text
}

} // verus!

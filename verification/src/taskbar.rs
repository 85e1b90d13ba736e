//! Keeping the window out of the taskbar.
use vstd::prelude::*;

verus! {

/// The style of a window with the flag of tool windows set and that of
/// application windows cleared.
pub open spec fn tool_style(style: isize, tool_window: isize, app_window: isize) -> isize {
    (style | tool_window) & !app_window
}

/// The extended style that keeps a window out of the taskbar: `tool_window`
/// set and `app_window` cleared.
pub fn style_off_taskbar(style: isize, tool_window: isize, app_window: isize) -> (r: isize)
    ensures
        r == tool_style(style, tool_window, app_window),
{
    (style | tool_window) & !app_window
}

/// The flag of application windows is cleared, that of tool windows is set,
/// and every other flag stays as it was.
pub proof fn law_style_off_taskbar(
    style: isize,
    tool_window: isize,
    app_window: isize,
    other: isize,
)
    requires
        tool_window & app_window == 0,
        other & (tool_window | app_window) == 0,
    ensures
        tool_style(style, tool_window, app_window) & app_window == 0,
        tool_style(style, tool_window, app_window) & tool_window == tool_window,
        tool_style(style, tool_window, app_window) & other == style & other,
{
    let r = tool_style(style, tool_window, app_window);
    assert(r & app_window == 0) by (bit_vector)
        requires
            r == (style | tool_window) & !app_window,
    ;
    assert(r & tool_window == tool_window) by (bit_vector)
        requires
            r == (style | tool_window) & !app_window,
            tool_window & app_window == 0,
    ;
    assert(r & other == style & other) by (bit_vector)
        requires
            r == (style | tool_window) & !app_window,
            other & (tool_window | app_window) == 0,
    ;
}

/// Doing it again changes nothing.
pub proof fn law_style_off_taskbar_idempotent(
    style: isize,
    tool_window: isize,
    app_window: isize,
)
    ensures
        tool_style(tool_style(style, tool_window, app_window), tool_window, app_window)
            == tool_style(style, tool_window, app_window),
{
    assert((((style | tool_window) & !app_window) | tool_window) & !app_window == (style
        | tool_window) & !app_window) by (bit_vector);
}

} // verus!

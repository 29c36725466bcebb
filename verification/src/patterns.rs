//! Test Patterns send-settings rules: size and speed steppers, the title's
//! resolution tag and the image selection when a custom image is removed.

use vstd::prelude::*;

verus! {

/// `v` clamped to `lo..=hi`.
pub open spec fn clamp(v: int, lo: int, hi: int) -> int {
    if v < lo {
        lo
    } else if v > hi {
        hi
    } else {
        v
    }
}

/// Narrowest and widest output width.
pub const MIN_WIDTH: i32 = 64;
pub const MAX_WIDTH: i32 = 7680;
/// Lowest and highest output height.
pub const MIN_HEIGHT: i32 = 64;
pub const MAX_HEIGHT: i32 = 4320;
/// Animation speed limit, in percent either way.
pub const MAX_ANIM_SPEED_PCT: i32 = 200;

/// Step the output width by `delta`, clamped to 64..=7680 and rounded down
/// to an even value (UYVY needs even widths).
pub fn nudge_width(width: i32, delta: i32) -> (r: i32)
    requires
        i32::MIN <= width + delta <= i32::MAX,
    ensures
        r == clamp(width + delta, 64, 7680) - clamp(width + delta, 64, 7680) % 2,
        64 <= r <= 7680,
        r % 2 == 0,
{
    let next = width + delta;
    let next = if next < MIN_WIDTH {
        MIN_WIDTH
    } else if next > MAX_WIDTH {
        MAX_WIDTH
    } else {
        next
    };
    next - next % 2
}

/// Step the output height by `delta`, clamped to 64..=4320.
pub fn nudge_height(height: i32, delta: i32) -> (r: i32)
    requires
        i32::MIN <= height + delta <= i32::MAX,
    ensures
        r == clamp(height + delta, 64, 4320),
{
    let next = height + delta;
    if next < MIN_HEIGHT {
        MIN_HEIGHT
    } else if next > MAX_HEIGHT {
        MAX_HEIGHT
    } else {
        next
    }
}

/// Step an animation speed (percent) by `delta`, clamped to -200..=200.
pub fn nudge_anim_speed(speed_pct: i32, delta: i32) -> (r: i32)
    requires
        i32::MIN <= speed_pct + delta <= i32::MAX,
    ensures
        r == clamp(speed_pct + delta, -200, 200),
{
    let next = speed_pct + delta;
    if next < -MAX_ANIM_SPEED_PCT {
        -MAX_ANIM_SPEED_PCT
    } else if next > MAX_ANIM_SPEED_PCT {
        MAX_ANIM_SPEED_PCT
    } else {
        next
    }
}

/// The resolution tag in the window title for an output `height`.
pub open spec fn resolution_tag(height: i32) -> Seq<char> {
    if height >= 2160 {
        "2160p"@
    } else if height >= 1080 {
        "1080p"@
    } else if height >= 720 {
        "720p"@
    } else {
        "SD"@
    }
}

pub fn resolution_tag_text(height: i32) -> (r: &'static str)
    ensures
        r@ == resolution_tag(height),
{
    if height >= 2160 {
        "2160p"
    } else if height >= 1080 {
        "1080p"
    } else if height >= 720 {
        "720p"
    } else {
        "SD"
    }
}

/// The selected custom image after the one at `removed` is deleted: the
/// selection is dropped when it was the removed image (and an image was
/// being shown), and shifts down when it came after it.
pub open spec fn selection_after_removal(
    selected: Option<usize>,
    removed: usize,
    showing_image: bool,
) -> Option<usize> {
    match selected {
        None => None,
        Some(s) => if showing_image && s == removed {
            None
        } else if s > removed {
            Some((s - 1) as usize)
        } else {
            Some(s)
        },
    }
}

pub fn selection_after_remove(selected: Option<usize>, removed: usize, showing_image: bool) -> (r:
    Option<usize>)
    ensures
        r == selection_after_removal(selected, removed, showing_image),
{
    match selected {
        None => None,
        Some(s) => {
            if showing_image && s == removed {
                None
            } else if s > removed {
                Some(s - 1)
            } else {
                Some(s)
            }
        },
    }
}

/// After a removal the selection still points into the shortened list, or
/// is gone: a selected index stays valid.
pub proof fn law_selection_stays_in_range(selected: usize, removed: usize, len: nat)
    requires
        selected < len,
        removed < len,
        selected != removed,
    ensures
        selection_after_removal(Some(selected), removed, true) matches Some(s) && s < len - 1,
{
}

} // verus!

verus! {

/// Step the send prefetch depth by `delta` frames, clamped to `min..=max`.
pub fn nudge_frame_buffer(frames: u32, delta: i32, min: u32, max: u32) -> (r: u32)
    requires
        min <= max <= i32::MAX,
        frames <= i32::MAX,
        i32::MIN <= frames + delta <= i32::MAX,
    ensures
        r == clamp(frames + delta, min as int, max as int),
{
    let next = frames as i32 + delta;
    if next < min as i32 {
        min
    } else if next > max as i32 {
        max
    } else {
        next as u32
    }
}

/// The drop-down menus of the send settings bar.
#[derive(Debug, Clone, Copy, PartialEq, Eq, Structural)]
pub enum MenuKind {
    Resolution,
    Tone,
    Fps,
    Level,
}

/// The open drop-down after its button is clicked: a click closes the menu
/// if it is open and opens it otherwise, except that Resolution and Fps
/// cannot be opened while sending.
pub open spec fn menu_after_toggle(open: Option<MenuKind>, menu: MenuKind, sending: bool) -> Option<
    MenuKind,
> {
    if open == Some(menu) {
        None
    } else if sending && (menu == MenuKind::Resolution || menu == MenuKind::Fps) {
        open
    } else {
        Some(menu)
    }
}

pub fn toggle_menu(open: Option<MenuKind>, menu: MenuKind, sending: bool) -> (r: Option<MenuKind>)
    ensures
        r == menu_after_toggle(open, menu, sending),
{
    let is_open = match open {
        Some(m) => m == menu,
        None => false,
    };
    if is_open {
        None
    } else if sending && (menu == MenuKind::Resolution || menu == MenuKind::Fps) {
        open
    } else {
        Some(menu)
    }
}

/// What a click on a drop-down button does: it closes the menu when that
/// menu is open; otherwise it opens it, except that while sending the
/// output-format menus (Resolution, Fps) stay shut and whatever was open
/// stays open. Every other menu (Tone, Level) opens while sending too, and
/// a second click on an opened menu closes it again.
pub proof fn law_only_format_menus_lock_while_sending(
    open: Option<MenuKind>,
    menu: MenuKind,
    sending: bool,
)
    ensures
        open == Some(menu) ==> menu_after_toggle(open, menu, sending) is None,
        open != Some(menu) && !(sending && (menu == MenuKind::Resolution || menu == MenuKind::Fps))
            ==> menu_after_toggle(open, menu, sending) == Some(menu),
        open != Some(menu) && sending && (menu == MenuKind::Resolution || menu == MenuKind::Fps)
            ==> menu_after_toggle(open, menu, sending) == open,
        menu != MenuKind::Resolution && menu != MenuKind::Fps ==> menu_after_toggle(
            menu_after_toggle(open, menu, sending),
            menu,
            sending,
        ) == (if open == Some(menu) {
            Some(menu)
        } else {
            None
        }),
{
}

/// Short quality tag shown on the send bar.
pub fn quality_label(quality: crate::monitor::Quality) -> (r: &'static str)
    ensures
        r@ == match quality {
            crate::monitor::Quality::Low => "LQ"@,
            crate::monitor::Quality::High => "HQ"@,
            _ => "SQ"@,
        },
{
    match quality {
        crate::monitor::Quality::Low => "LQ",
        crate::monitor::Quality::High => "HQ",
        _ => "SQ",
    }
}

} // verus!

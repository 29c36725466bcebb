//! The Test Patterns send form: the sender name field, the output format
//! (frozen while sending), the animation and quality controls and the
//! drop-down menus, with what each control changes.

use vstd::prelude::*;

use crate::editing::{apply_text_key, key_effect, TextKeyOutcome};
use crate::monitor::Quality;
use crate::patterns::{
    clamp, menu_after_toggle, nudge_anim_speed, nudge_frame_buffer, nudge_height, nudge_width,
    resolution_tag, resolution_tag_text, toggle_menu, MenuKind,
};
use crate::text::{decimal, joined, owned, trim, trimmed};

verus! {

/// Longest sender name, in UTF-8 bytes.
pub const NAME_MAX_BYTES: usize = 64;

/// An output frame rate `n / d` frames per second.
#[derive(Debug, Clone, Copy, PartialEq, Eq, Structural)]
pub struct FrameRate {
    pub n: i32,
    pub d: i32,
}

/// An output picture size.
#[derive(Debug, Clone, Copy, PartialEq, Eq, Structural)]
pub struct Resolution {
    pub width: i32,
    pub height: i32,
}

pub open spec fn rate(n: i32, d: i32) -> FrameRate {
    FrameRate { n, d }
}

/// The frame rates offered: 23.98, 24, 25, 29.97, 30, 50, 59.94 and 60.
pub open spec fn frame_rate_preset_list() -> Seq<FrameRate> {
    seq![
        rate(24_000, 1_001),
        rate(24, 1),
        rate(25, 1),
        rate(30_000, 1_001),
        rate(30, 1),
        rate(50, 1),
        rate(60_000, 1_001),
        rate(60, 1),
    ]
}

pub fn frame_rate_presets() -> (r: Vec<FrameRate>)
    ensures
        r@ == frame_rate_preset_list(),
{
    let r = vec![
        FrameRate { n: 24_000, d: 1_001 },
        FrameRate { n: 24, d: 1 },
        FrameRate { n: 25, d: 1 },
        FrameRate { n: 30_000, d: 1_001 },
        FrameRate { n: 30, d: 1 },
        FrameRate { n: 50, d: 1 },
        FrameRate { n: 60_000, d: 1_001 },
        FrameRate { n: 60, d: 1 },
    ];
    assert(r@ =~= frame_rate_preset_list());
    r
}

/// The picture sizes offered: 720p, 1080p and 2160p.
pub open spec fn resolution_preset_list() -> Seq<Resolution> {
    seq![
        Resolution { width: 1280, height: 720 },
        Resolution { width: 1920, height: 1080 },
        Resolution { width: 3840, height: 2160 },
    ]
}

pub fn resolution_presets() -> (r: Vec<Resolution>)
    ensures
        r@ == resolution_preset_list(),
{
    let r = vec![
        Resolution { width: 1280, height: 720 },
        Resolution { width: 1920, height: 1080 },
        Resolution { width: 3840, height: 2160 },
    ];
    assert(r@ =~= resolution_preset_list());
    r
}

/// Decimal text of a non-negative `i32`.
fn non_negative_text(n: i32) -> (r: String)
    requires
        n >= 0,
    ensures
        r@ == decimal(n as nat),
{
    crate::text::u32_to_text(n as u32)
}

/// A picture size as `W×H`.
pub fn resolution_label(r: Resolution) -> (s: String)
    requires
        r.width >= 0,
        r.height >= 0,
    ensures
        s@ == decimal(r.width as nat) + "×"@ + decimal(r.height as nat),
{
    let mut s = non_negative_text(r.width);
    s.append("×");
    s.append(non_negative_text(r.height).as_str());
    s
}

/// The window title: `OMT Test Patterns - <pattern> (<tag><fps>)`, where
/// the tag comes from the output height and `fps` is the rate's label.
pub fn window_title(pattern: &str, height: i32, fps: &str) -> (r: String)
    ensures
        r@ == "OMT Test Patterns - "@ + pattern@ + " ("@ + resolution_tag(height) + fps@ + ")"@,
{
    let mut r = joined("OMT Test Patterns - ", pattern);
    r.append(" (");
    r.append(resolution_tag_text(height));
    r.append(fps);
    r.append(")");
    r
}

/// The pattern part of the title: the selected image's file name (or
/// `Image` when there is none) while an image is shown, else the label of
/// the built-in pattern.
pub fn pattern_title(showing_image: bool, image_name: Option<&str>, builtin_label: &str) -> (r:
    String)
    ensures
        r@ == if showing_image {
            match image_name {
                Some(n) => n@,
                None => "Image"@,
            }
        } else {
            builtin_label@
        },
{
    if showing_image {
        match image_name {
            Some(n) => owned(n),
            None => owned("Image"),
        }
    } else {
        owned(builtin_label)
    }
}

/// The send form's state.
#[derive(Debug, Clone)]
pub struct PatternsForm {
    /// Sender name.
    pub name: String,
    pub name_editing: bool,
    /// A send session is running.
    pub sending: bool,
    pub width: i32,
    pub height: i32,
    pub frame_rate: FrameRate,
    pub quality: Quality,
    pub animate: bool,
    pub anim_speed_h_pct: i32,
    pub anim_speed_v_pct: i32,
    /// Prefetch depth for paced video sends.
    pub frame_buffer_frames: u32,
    /// The open drop-down, if any.
    pub open_menu: Option<MenuKind>,
    /// The custom image whose right-click menu is open, if any.
    pub custom_menu: Option<usize>,
}

/// The name after editing ends: a blank name becomes `Test Pattern`.
pub open spec fn settled_name(name: Seq<char>) -> Seq<char> {
    if trim(name).len() == 0 {
        "Test Pattern"@
    } else {
        name
    }
}

/// `a` and `b` agree on everything but the name, its editing and the menus.
pub open spec fn same_send_settings(a: PatternsForm, b: PatternsForm) -> bool {
    &&& a.sending == b.sending
    &&& a.width == b.width
    &&& a.height == b.height
    &&& a.frame_rate == b.frame_rate
    &&& a.quality == b.quality
    &&& a.animate == b.animate
    &&& a.anim_speed_h_pct == b.anim_speed_h_pct
    &&& a.anim_speed_v_pct == b.anim_speed_v_pct
    &&& a.frame_buffer_frames == b.frame_buffer_frames
}

/// Whether the output format controls (size and rate) are locked.
pub open spec fn format_locked(f: PatternsForm) -> bool {
    f.sending
}

impl PatternsForm {
    /// A form as the window opens: `Test Pattern`, 1920×1080 at 29.97,
    /// medium quality, animated at 100% both ways, nothing open.
    pub fn new(frame_buffer_frames: u32) -> (f: Self)
        ensures
            f.name@ == "Test Pattern"@,
            !f.name_editing,
            !f.sending,
            f.width == 1920 && f.height == 1080,
            f.frame_rate == rate(30_000, 1_001),
            f.quality == Quality::Medium,
            f.animate,
            f.anim_speed_h_pct == 100 && f.anim_speed_v_pct == 100,
            f.frame_buffer_frames == frame_buffer_frames,
            f.open_menu is None,
            f.custom_menu is None,
    {
        PatternsForm {
            name: owned("Test Pattern"),
            name_editing: false,
            sending: false,
            width: 1920,
            height: 1080,
            frame_rate: FrameRate { n: 30_000, d: 1_001 },
            quality: Quality::Medium,
            animate: true,
            anim_speed_h_pct: 100,
            anim_speed_v_pct: 100,
            frame_buffer_frames,
            open_menu: None,
            custom_menu: None,
        }
    }

    /// Stop editing the name; a blank name becomes `Test Pattern`.
    pub fn blur_name(&mut self)
        ensures
            !final(self).name_editing,
            final(self).name@ == if old(self).name_editing {
                settled_name(old(self).name@)
            } else {
                old(self).name@
            },
            final(self).sending == old(self).sending,
            final(self).width == old(self).width,
            final(self).height == old(self).height,
            final(self).frame_rate == old(self).frame_rate,
            final(self).quality == old(self).quality,
            final(self).animate == old(self).animate,
            final(self).anim_speed_h_pct == old(self).anim_speed_h_pct,
            final(self).anim_speed_v_pct == old(self).anim_speed_v_pct,
            final(self).frame_buffer_frames == old(self).frame_buffer_frames,
            final(self).open_menu == old(self).open_menu,
            final(self).custom_menu == old(self).custom_menu,
    {
        if !self.name_editing {
            return;
        }
        self.name_editing = false;
        let t = trimmed(self.name.as_str());
        if t.unicode_len() == 0 {
            self.name = owned("Test Pattern");
        }
    }

    /// Start editing the name (not while sending); the menus close.
    pub fn begin_edit_name(&mut self)
        ensures
            *final(self) == if old(self).sending {
                *old(self)
            } else {
                PatternsForm { name_editing: true, open_menu: None, custom_menu: None, ..*old(self) }
            },
    {
        if self.sending {
            return;
        }
        self.open_menu = None;
        self.custom_menu = None;
        self.name_editing = true;
    }

    /// A key press in the name field: Backspace deletes, Enter and Escape
    /// stop editing (see [`Self::blur_name`]), other keys type (the name
    /// stays within 64 bytes). Nothing happens when the name is not edited.
    pub fn on_name_key(&mut self, key: &str, typed: Option<&str>)
        ensures
            ({
                let typed_v = match typed {
                    Some(t) => Some(t@),
                    None => None,
                };
                let (outcome, text) = key_effect(old(self).name@, key@, typed_v, NAME_MAX_BYTES as nat);
                if !old(self).name_editing {
                    final(self).name@ == old(self).name@ && !final(self).name_editing
                } else if outcome is Finish {
                    final(self).name@ == settled_name(old(self).name@) && !final(self).name_editing
                } else {
                    final(self).name@ == text && final(self).name_editing
                }
            }),
            same_send_settings(*final(self), *old(self)),
            final(self).open_menu == old(self).open_menu,
            final(self).custom_menu == old(self).custom_menu,
    {
        if !self.name_editing {
            return;
        }
        let outcome = apply_text_key(&mut self.name, key, typed, NAME_MAX_BYTES);
        if outcome == TextKeyOutcome::Finish {
            self.blur_name();
        }
    }
}

/// The form after a picture size is chosen from the menu (the menu closes;
/// the size changes unless sending).
pub open spec fn after_set_resolution(f: PatternsForm, r: Resolution) -> PatternsForm {
    if f.sending {
        PatternsForm { open_menu: None, ..f }
    } else {
        PatternsForm { open_menu: None, width: r.width, height: r.height, ..f }
    }
}

/// The form after a frame rate is chosen from the menu.
pub open spec fn after_set_frame_rate(f: PatternsForm, fr: FrameRate) -> PatternsForm {
    if f.sending {
        PatternsForm { open_menu: None, ..f }
    } else {
        PatternsForm { open_menu: None, frame_rate: fr, ..f }
    }
}

/// The form after the width stepper (not while sending).
pub open spec fn after_nudge_width(f: PatternsForm, delta: i32) -> PatternsForm {
    if f.sending {
        f
    } else {
        PatternsForm {
            width: (clamp(f.width + delta, 64, 7680) - clamp(f.width + delta, 64, 7680) % 2) as i32,
            ..f
        }
    }
}

/// The form after the height stepper (not while sending).
pub open spec fn after_nudge_height(f: PatternsForm, delta: i32) -> PatternsForm {
    if f.sending {
        f
    } else {
        PatternsForm { height: clamp(f.height + delta, 64, 4320) as i32, ..f }
    }
}

impl PatternsForm {
    /// Choose a picture size from the menu; returns whether it changed (the
    /// title then needs refreshing).
    pub fn set_resolution(&mut self, r: Resolution) -> (changed: bool)
        ensures
            *final(self) == after_set_resolution(*old(self), r),
            changed == (!old(self).sending && (old(self).width != r.width || old(self).height
                != r.height)),
    {
        self.open_menu = None;
        if self.sending {
            return false;
        }
        if self.width == r.width && self.height == r.height {
            return false;
        }
        self.width = r.width;
        self.height = r.height;
        true
    }

    /// Choose a frame rate from the menu; returns whether it changed.
    pub fn set_frame_rate(&mut self, fr: FrameRate) -> (changed: bool)
        ensures
            *final(self) == after_set_frame_rate(*old(self), fr),
            changed == (!old(self).sending && old(self).frame_rate != fr),
    {
        self.open_menu = None;
        if self.sending {
            return false;
        }
        if self.frame_rate == fr {
            return false;
        }
        self.frame_rate = fr;
        true
    }

    /// Step the width; returns whether it changed.
    pub fn nudge_width(&mut self, delta: i32) -> (changed: bool)
        requires
            i32::MIN <= old(self).width + delta <= i32::MAX,
        ensures
            *final(self) == after_nudge_width(*old(self), delta),
            changed == (final(self).width != old(self).width),
    {
        if self.sending {
            return false;
        }
        let next = nudge_width(self.width, delta);
        if next == self.width {
            return false;
        }
        self.width = next;
        true
    }

    /// Step the height; returns whether it changed.
    pub fn nudge_height(&mut self, delta: i32) -> (changed: bool)
        requires
            i32::MIN <= old(self).height + delta <= i32::MAX,
        ensures
            *final(self) == after_nudge_height(*old(self), delta),
            changed == (final(self).height != old(self).height),
    {
        if self.sending {
            return false;
        }
        let next = nudge_height(self.height, delta);
        if next == self.height {
            return false;
        }
        self.height = next;
        true
    }

    /// Turn the animation on or off (the preview's scroll phases restart
    /// when it is turned off).
    pub fn toggle_animate(&mut self)
        ensures
            *final(self) == (PatternsForm { animate: !old(self).animate, ..*old(self) }),
    {
        self.animate = !self.animate;
    }

    /// Step the horizontal scroll speed; returns whether it changed (the
    /// live pattern then takes the new speeds).
    pub fn nudge_anim_speed_h(&mut self, delta: i32) -> (changed: bool)
        requires
            i32::MIN <= old(self).anim_speed_h_pct + delta <= i32::MAX,
        ensures
            *final(self) == (PatternsForm {
                anim_speed_h_pct: clamp(old(self).anim_speed_h_pct + delta, -200, 200) as i32,
                ..*old(self)
            }),
            changed == (final(self).anim_speed_h_pct != old(self).anim_speed_h_pct),
    {
        let next = nudge_anim_speed(self.anim_speed_h_pct, delta);
        if next == self.anim_speed_h_pct {
            return false;
        }
        self.anim_speed_h_pct = next;
        true
    }

    /// Step the vertical scroll speed; returns whether it changed.
    pub fn nudge_anim_speed_v(&mut self, delta: i32) -> (changed: bool)
        requires
            i32::MIN <= old(self).anim_speed_v_pct + delta <= i32::MAX,
        ensures
            *final(self) == (PatternsForm {
                anim_speed_v_pct: clamp(old(self).anim_speed_v_pct + delta, -200, 200) as i32,
                ..*old(self)
            }),
            changed == (final(self).anim_speed_v_pct != old(self).anim_speed_v_pct),
    {
        let next = nudge_anim_speed(self.anim_speed_v_pct, delta);
        if next == self.anim_speed_v_pct {
            return false;
        }
        self.anim_speed_v_pct = next;
        true
    }

    /// Choose the encode quality; returns whether it changed (a running
    /// session then takes it).
    pub fn set_quality(&mut self, q: Quality) -> (changed: bool)
        ensures
            *final(self) == (PatternsForm { quality: q, ..*old(self) }),
            changed == (old(self).quality != q),
    {
        if self.quality == q {
            return false;
        }
        self.quality = q;
        true
    }

    /// Step the send prefetch depth within `min..=max`; returns whether it
    /// changed (it is then saved and handed to a running session).
    pub fn nudge_frame_buffer(&mut self, delta: i32, min: u32, max: u32) -> (changed: bool)
        requires
            min <= max <= i32::MAX,
            old(self).frame_buffer_frames <= i32::MAX,
            i32::MIN <= old(self).frame_buffer_frames + delta <= i32::MAX,
        ensures
            *final(self) == (PatternsForm {
                frame_buffer_frames: clamp(
                    old(self).frame_buffer_frames + delta,
                    min as int,
                    max as int,
                ) as u32,
                ..*old(self)
            }),
            changed == (final(self).frame_buffer_frames != old(self).frame_buffer_frames),
    {
        let next = nudge_frame_buffer(self.frame_buffer_frames, delta, min, max);
        if next == self.frame_buffer_frames {
            return false;
        }
        self.frame_buffer_frames = next;
        true
    }

    /// Click on a drop-down button: the image menu closes, name editing
    /// stops (the name is kept as typed), and the drop-down toggles (see
    /// [`menu_after_toggle`]).
    pub fn toggle_menu(&mut self, menu: MenuKind)
        ensures
            *final(self) == (PatternsForm {
                custom_menu: None,
                name_editing: false,
                open_menu: menu_after_toggle(old(self).open_menu, menu, old(self).sending),
                ..*old(self)
            }),
    {
        self.custom_menu = None;
        self.name_editing = false;
        self.open_menu = toggle_menu(self.open_menu, menu, self.sending);
    }

    /// Open the right-click menu of a custom image (the drop-down closes).
    pub fn open_custom_menu(&mut self, index: usize)
        ensures
            *final(self) == (PatternsForm { open_menu: None, custom_menu: Some(index), ..*old(self) }),
    {
        self.open_menu = None;
        self.custom_menu = Some(index);
    }

    /// A click outside: menus close and name editing stops.
    pub fn close_overlays(&mut self)
        ensures
            final(self).open_menu is None,
            final(self).custom_menu is None,
            !final(self).name_editing,
            final(self).name@ == if old(self).name_editing {
                settled_name(old(self).name@)
            } else {
                old(self).name@
            },
            same_send_settings(*final(self), *old(self)),
    {
        self.open_menu = None;
        self.custom_menu = None;
        self.blur_name();
    }

    /// Prepare to start sending: menus close, name editing stops and a blank
    /// name becomes `Test Pattern` (the session is then started).
    pub fn start_sending(&mut self)
        ensures
            final(self).open_menu is None,
            final(self).custom_menu is None,
            !final(self).name_editing,
            final(self).name@ == settled_name(old(self).name@),
            same_send_settings(*final(self), *old(self)),
    {
        self.open_menu = None;
        self.custom_menu = None;
        self.name_editing = false;
        let t = trimmed(self.name.as_str());
        if t.unicode_len() == 0 {
            self.name = owned("Test Pattern");
        }
    }

    /// Prepare to stop sending: menus close (the session is then stopped).
    pub fn stop_sending(&mut self)
        ensures
            *final(self) == (PatternsForm { open_menu: None, custom_menu: None, ..*old(self) }),
    {
        self.open_menu = None;
        self.custom_menu = None;
    }
}

/// While a session runs, the output format is frozen: choosing a size or a
/// rate and the size steppers leave size and rate as they are.
pub proof fn law_format_frozen_while_sending(
    f: PatternsForm,
    r: Resolution,
    fr: FrameRate,
    dw: i32,
    dh: i32,
)
    requires
        format_locked(f),
    ensures
        after_set_resolution(f, r).width == f.width,
        after_set_resolution(f, r).height == f.height,
        after_set_frame_rate(f, fr).frame_rate == f.frame_rate,
        after_nudge_width(f, dw) == f,
        after_nudge_height(f, dh) == f,
{
}

/// Whatever was typed, a session never starts under a blank name.
pub proof fn law_settled_name_is_not_blank(name: Seq<char>)
    ensures
        trim(settled_name(name)).len() > 0,
{
    if trim(name).len() == 0 {
        assert(trim("Test Pattern"@).len() > 0) by {
            reveal_strlit("Test Pattern");
            crate::text::lemma_leading_ws("Test Pattern"@, 0);
        }
    }
}

} // verus!

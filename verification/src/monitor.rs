//! Studio Monitor rules: A/V buffer fields, connection status, the context
//! menu's flyout path and receive quality presets.

use vstd::prelude::*;

use crate::text::{decimal, joined, owned, parse_u32, starts_with, text_starts_with, trim, trimmed, u32_to_text};

verus! {

/// Unit of an A/V playout delay.
#[derive(Debug, Clone, Copy, PartialEq, Eq, Structural)]
pub enum DelayUnit {
    Milliseconds,
    Frames,
}

/// Mutable text drafts for A/V buffer fields (owned by the app).
#[derive(Debug, Clone, Default)]
pub struct BufferEditState {
    /// Video delay in **frames** (source FPS aware).
    pub video_frames: String,
    /// Audio delay in milliseconds.
    pub audio_ms: String,
}

impl BufferEditState {
    /// Refresh both drafts from the applied buffer: the video delay in frames
    /// (its amount when it is set in frames, else `video_ms_as_frames`, the
    /// applied milliseconds converted at the source rate), and the audio
    /// delay in milliseconds (the video delay when the two are linked).
    pub fn sync_from(
        &mut self,
        video_unit: DelayUnit,
        video_amount: u32,
        linked: bool,
        video_ms: u32,
        audio_ms: u32,
        video_ms_as_frames: u32,
    )
        ensures
            final(self).video_frames@ == decimal(
                (if video_unit == DelayUnit::Frames {
                    video_amount
                } else {
                    video_ms_as_frames
                }) as nat,
            ),
            final(self).audio_ms@ == decimal(
                (if linked {
                    video_ms
                } else {
                    audio_ms
                }) as nat,
            ),
    {
        let frames = match video_unit {
            DelayUnit::Frames => video_amount,
            DelayUnit::Milliseconds => video_ms_as_frames,
        };
        self.video_frames = u32_to_text(frames);
        self.audio_ms = if linked {
            u32_to_text(video_ms)
        } else {
            u32_to_text(audio_ms)
        };
    }
}

/// Largest video delay that can be typed, in frames.
pub const MAX_VIDEO_DELAY_FRAMES: u32 = 120;

/// Largest audio delay that can be typed, in milliseconds.
pub const MAX_AUDIO_DELAY_MS: u32 = 2000;

/// Commit a numeric draft when the field loses focus or Enter is pressed: a
/// number is capped at `max`, written back and returned to be applied;
/// other non-blank text is replaced by the `applied` value; blank text is
/// left as it is.
pub fn commit_number_field(edit: &mut String, max: u32, applied: u32) -> (r: Option<u32>)
    ensures
        match parse_u32(trim(old(edit)@)) {
            Some(v) => {
                let c = if v < max {
                    v
                } else {
                    max
                };
                r == Some(c) && final(edit)@ == decimal(c as nat)
            },
            None => r is None && final(edit)@ == if trim(old(edit)@).len() == 0 {
                old(edit)@
            } else {
                decimal(applied as nat)
            },
        },
{
    let t = trimmed(edit.as_str());
    match crate::text::parse_u32_text(t.as_str()) {
        Some(v) => {
            let c = if v < max {
                v
            } else {
                max
            };
            *edit = u32_to_text(c);
            Some(c)
        },
        None => {
            if t.unicode_len() != 0 {
                *edit = u32_to_text(applied);
            }
            None
        },
    }
}

/// Frame rate used to convert buffer delays: the source's rate when known,
/// else 30 fps.
pub fn buffer_fps(fps_n: i32, fps_d: i32) -> (r: (i32, i32))
    ensures
        r == if fps_n > 0 {
            (fps_n, if fps_d > 1 {
                fps_d
            } else {
                1
            })
        } else {
            (30, 1)
        },
{
    if fps_n > 0 {
        (fps_n, if fps_d > 1 {
            fps_d
        } else {
            1
        })
    } else {
        (30, 1)
    }
}

/// Receive session state as the worker reports it.
#[derive(Debug, Clone, Copy, PartialEq, Eq, Structural)]
pub enum SessionState {
    Connecting,
    Connected,
    Reconnecting,
    Stopping,
    Stopped,
}

/// The status line after a tick: `status` is the current line, `error` the
/// worker's last error (if any), `reconnects` its reconnect count.
pub open spec fn status_after_tick(
    state: SessionState,
    reconnects: u64,
    error: Option<Seq<char>>,
    status: Seq<char>,
) -> Seq<char> {
    match state {
        SessionState::Connecting => "Connecting…"@,
        SessionState::Reconnecting => "Reconnecting… ("@ + decimal(reconnects as nat) + ")"@,
        SessionState::Connected => match error {
            Some(e) => if e.len() > 0 {
                e
            } else {
                status
            },
            None => if starts_with(status, "Connecting"@) || starts_with(status, "Reconnecting"@) {
                Seq::empty()
            } else {
                status
            },
        },
        SessionState::Stopping | SessionState::Stopped => match error {
            Some(e) => e,
            None => status,
        },
    }
}

/// Decimal text of a `u64`.
pub fn u64_to_text(n: u64) -> (r: String)
    ensures
        r@ == decimal(n as nat),
    decreases n,
{
    if n < 10 {
        u32_to_text(n as u32)
    } else {
        let mut r = u64_to_text(n / 10);
        let d = u32_to_text((n % 10) as u32);
        assert(d@ == decimal((n % 10) as nat));
        assert(d@ =~= seq![crate::text::digit_char((n % 10) as int)]);
        r.append(d.as_str());
        assert(r@ =~= decimal((n / 10) as nat).push(crate::text::digit_char((n % 10) as int)));
        r
    }
}

/// Update the status line from the session state.
pub fn next_status(state: SessionState, reconnects: u64, error: Option<&str>, status: &str) -> (r:
    String)
    ensures
        r@ == status_after_tick(
            state,
            reconnects,
            match error {
                Some(e) => Some(e@),
                None => None,
            },
            status@,
        ),
{
    match state {
        SessionState::Connecting => owned("Connecting…"),
        SessionState::Reconnecting => {
            let mut r = joined("Reconnecting… (", u64_to_text(reconnects).as_str());
            r.append(")");
            r
        },
        SessionState::Connected => match error {
            Some(e) => {
                if e.unicode_len() > 0 {
                    owned(e)
                } else {
                    owned(status)
                }
            },
            None => {
                if text_starts_with(status, "Connecting") || text_starts_with(
                    status,
                    "Reconnecting",
                ) {
                    String::new()
                } else {
                    owned(status)
                }
            },
        },
        _ => match error {
            Some(e) => owned(e),
            None => owned(status),
        },
    }
}

/// A metadata log line: `[<ms within the last 100 s>] <kind>: <text>`.
pub fn format_log_line(unix_ms: u64, kind: &str, text: &str) -> (r: String)
    ensures
        r@ == "["@ + decimal((unix_ms % 100_000) as nat) + "] "@ + kind@ + ": "@ + text@,
{
    let mut r = joined("[", u64_to_text(unix_ms % 100_000).as_str());
    r.append("] ");
    r.append(kind);
    r.append(": ");
    r.append(text);
    r
}

/// Submenu identity along the flyout path.
#[derive(Debug, Clone, Copy, PartialEq, Eq, Structural)]
pub enum MenuNodeId {
    Settings,
    Audio,
    AudioBoost,
    AvBuffer,
    VideoBuffer,
    AudioBuffer,
    Video,
    VideoQuality,
    Overlay,
}

/// How deep a submenu sits below the root panel.
pub open spec fn menu_depth(node: MenuNodeId) -> nat {
    match node {
        MenuNodeId::Settings => 0,
        MenuNodeId::Audio | MenuNodeId::Video | MenuNodeId::Overlay => 1,
        MenuNodeId::AudioBoost | MenuNodeId::AvBuffer | MenuNodeId::VideoQuality => 2,
        MenuNodeId::VideoBuffer | MenuNodeId::AudioBuffer => 3,
    }
}

/// The open flyout path after expanding `node`: every open submenu at its
/// depth or deeper closes, then `node` opens.
pub open spec fn path_after_expand(path: Seq<MenuNodeId>, node: MenuNodeId) -> Seq<MenuNodeId> {
    path.take(
        if menu_depth(node) < path.len() {
            menu_depth(node) as int
        } else {
            path.len() as int
        },
    ).push(node)
}

/// Expand `node`: close every open submenu at its depth or deeper, then open it.
pub fn expand_menu_node(path: &mut Vec<MenuNodeId>, node: MenuNodeId)
    ensures
        final(path)@ == path_after_expand(old(path)@, node),
{
    let depth: usize = match node {
        MenuNodeId::Settings => 0,
        MenuNodeId::Audio | MenuNodeId::Video | MenuNodeId::Overlay => 1,
        MenuNodeId::AudioBoost | MenuNodeId::AvBuffer | MenuNodeId::VideoQuality => 2,
        MenuNodeId::VideoBuffer | MenuNodeId::AudioBuffer => 3,
    };
    path.truncate(depth);
    path.push(node);
}

/// Receive quality suggested to a sender.
#[derive(Debug, Clone, Copy, PartialEq, Eq, Structural)]
pub enum Quality {
    Default,
    Low,
    Medium,
    High,
}

/// Receive quality preset (suggested encode quality + optional Preview).
#[derive(Debug, Clone, Copy, PartialEq, Eq, Structural)]
pub enum VideoQualityPreset {
    Default,
    Low,
    Medium,
    High,
    LowBandwidth,
}

impl VideoQualityPreset {
    /// The suggested quality and whether to request the 1/8 Preview stream:
    /// `LowBandwidth` is low quality plus Preview.
    pub fn to_connect_parts(self) -> (r: (Quality, bool))
        ensures
            r == match self {
                VideoQualityPreset::Default => (Quality::Default, false),
                VideoQualityPreset::Low => (Quality::Low, false),
                VideoQualityPreset::Medium => (Quality::Medium, false),
                VideoQualityPreset::High => (Quality::High, false),
                VideoQualityPreset::LowBandwidth => (Quality::Low, true),
            },
    {
        match self {
            VideoQualityPreset::Default => (Quality::Default, false),
            VideoQualityPreset::Low => (Quality::Low, false),
            VideoQualityPreset::Medium => (Quality::Medium, false),
            VideoQualityPreset::High => (Quality::High, false),
            VideoQualityPreset::LowBandwidth => (Quality::Low, true),
        }
    }
}

/// The short label of a delay: `N ms`, `1 <frame>` or `N <frames>`, where
/// `frame` and `frames` are the UI language's words.
pub fn format_delay_short(unit: DelayUnit, amount: u32, frame: &str, frames: &str) -> (r: String)
    ensures
        r@ == match unit {
            DelayUnit::Milliseconds => decimal(amount as nat) + " ms"@,
            DelayUnit::Frames => if amount == 1 {
                "1 "@ + frame@
            } else {
                decimal(amount as nat) + " "@ + frames@
            },
        },
{
    match unit {
        DelayUnit::Milliseconds => joined(u32_to_text(amount).as_str(), " ms"),
        DelayUnit::Frames => {
            if amount == 1 {
                joined("1 ", frame)
            } else {
                let mut r = joined(u32_to_text(amount).as_str(), " ");
                r.append(frames);
                r
            }
        },
    }
}

} // verus!

verus! {

/// The theme the user picked.
#[derive(Debug, Clone, Copy, PartialEq, Eq, Structural)]
pub enum ThemeChoice {
    Light,
    Dark,
    System,
}

/// Whether the dark palette is used: always for Dark, never for Light, and
/// as the OS reports for System.
pub open spec fn theme_dark(pref: ThemeChoice, system_dark: bool) -> bool {
    match pref {
        ThemeChoice::Dark => true,
        ThemeChoice::Light => false,
        ThemeChoice::System => system_dark,
    }
}

pub fn theme_is_dark(pref: ThemeChoice, system_dark: bool) -> (r: bool)
    ensures
        r == theme_dark(pref, system_dark),
{
    match pref {
        ThemeChoice::Dark => true,
        ThemeChoice::Light => false,
        ThemeChoice::System => system_dark,
    }
}

/// Status after a discovery pass: `none_text` when nothing was found, else
/// `<n> source(s)`.
pub fn sources_status(count: usize, none_text: &str) -> (r: String)
    ensures
        r@ == if count == 0 {
            none_text@
        } else {
            decimal(count as nat) + " source(s)"@
        },
{
    if count == 0 {
        owned(none_text)
    } else {
        joined(u64_to_text(count as u64).as_str(), " source(s)")
    }
}

} // verus!

verus! {

/// The applied video delay as `N <frame(s)> (<equiv>M ms)`, where the
/// frame count is the amount when the delay is set in frames and
/// `video_ms_as_frames` otherwise; `frame`, `frames` and `equiv` are the UI
/// language's words.
pub open spec fn video_delay_text(
    unit: DelayUnit,
    amount: u32,
    video_ms: u32,
    video_ms_as_frames: u32,
    frame: Seq<char>,
    frames: Seq<char>,
    equiv: Seq<char>,
) -> Seq<char> {
    let n = if unit == DelayUnit::Frames {
        amount
    } else {
        video_ms_as_frames
    };
    decimal(n as nat) + " "@ + (if n == 1 {
        frame
    } else {
        frames
    }) + " ("@ + equiv + decimal(video_ms as nat) + " ms)"@
}

pub fn format_video_delay_frames(
    unit: DelayUnit,
    amount: u32,
    video_ms: u32,
    video_ms_as_frames: u32,
    frame: &str,
    frames: &str,
    equiv: &str,
) -> (r: String)
    ensures
        r@ == video_delay_text(unit, amount, video_ms, video_ms_as_frames, frame@, frames@, equiv@),
{
    let n = match unit {
        DelayUnit::Frames => amount,
        DelayUnit::Milliseconds => video_ms_as_frames,
    };
    let mut r = joined(u32_to_text(n).as_str(), " ");
    if n == 1 {
        r.append(frame);
    } else {
        r.append(frames);
    }
    r.append(" (");
    r.append(equiv);
    r.append(u32_to_text(video_ms).as_str());
    r.append(" ms)");
    r
}

/// The buffer line of the stats panel: `link · V <video> / A <N> ms`, or
/// `indep · ...` when audio and video are buffered independently.
pub fn format_buffer_stats(linked: bool, video_text: &str, audio_ms: u32) -> (r: String)
    ensures
        r@ == (if linked {
            "link"@
        } else {
            "indep"@
        }) + " · V "@ + video_text@ + " / A "@ + decimal(audio_ms as nat) + " ms"@,
{
    let mut r = if linked {
        owned("link")
    } else {
        owned("indep")
    };
    r.append(" · V ");
    r.append(video_text);
    r.append(" / A ");
    r.append(u32_to_text(audio_ms).as_str());
    r.append(" ms");
    r
}

} // verus!

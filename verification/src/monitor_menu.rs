//! The Studio Monitor's right-click menu: which rows each flyout panel shows,
//! which of them carry a check mark, and what choosing a row does to the
//! viewer settings.

use vstd::prelude::*;

use crate::monitor::{format_delay_short, menu_depth, path_after_expand, DelayUnit, MenuNodeId, VideoQualityPreset};
use crate::text::{decimal, joined, owned, u32_to_text};

verus! {

/// A playout delay: an amount in milliseconds or in frames.
#[derive(Debug, Clone, Copy, PartialEq, Eq, Structural)]
pub struct DelaySetting {
    pub amount: u32,
    pub unit: DelayUnit,
}

/// The A/V playout buffers: one delay per stream, and whether the audio
/// delay follows the video delay.
#[derive(Debug, Clone, Copy, PartialEq, Eq, Structural)]
pub struct BufferSettings {
    pub video: DelaySetting,
    pub audio: DelaySetting,
    pub linked: bool,
}

/// Viewer settings toggled from the context menu.
#[derive(Debug, Clone, Copy, PartialEq, Eq, Structural)]
pub struct MonitorSettings {
    pub show_alpha: bool,
    /// SMPTE ST 2046-1 action/title safe guides over the picture.
    pub safe_area: bool,
    pub vu_meter: bool,
    pub quality: VideoQualityPreset,
    pub audio_boost_db: i32,
    pub buffer: BufferSettings,
}

impl MonitorSettings {
    /// The settings a new monitor window starts with: no alpha view, no
    /// safe-area guides, the VU meter on, default quality, no boost, and the
    /// playout buffer's own defaults `buffer`.
    pub fn default_with_buffer(buffer: BufferSettings) -> (r: Self)
        ensures
            r == (MonitorSettings {
                show_alpha: false,
                safe_area: false,
                vu_meter: true,
                quality: VideoQualityPreset::Default,
                audio_boost_db: 0,
                buffer,
            }),
    {
        MonitorSettings {
            show_alpha: false,
            safe_area: false,
            vu_meter: true,
            quality: VideoQualityPreset::Default,
            audio_boost_db: 0,
            buffer,
        }
    }
}

/// The UI strings the menu shows; each is looked up by its key in the UI
/// language's string table.
#[derive(Debug, Clone, Copy, PartialEq, Eq, Structural)]
pub enum UiText {
    Fullscreen,
    Settings,
    Help,
    Exit,
    Audio,
    Video,
    Overlay,
    AudioBoost,
    AvBuffer,
    BufferVideo,
    BufferAudio,
    BufferLink,
    BufferUnlinkInfo,
    AlphaMask,
    Quality,
    QualityDefault,
    QualityLow,
    QualityMedium,
    QualityHigh,
    QualityLowBandwidth,
    SafeArea,
    VuMeter,
}

/// What a menu row says.
#[derive(Debug, Clone, Copy, PartialEq, Eq, Structural)]
pub enum MenuLabel {
    /// A UI string in the UI language.
    Text(UiText),
    /// An audio boost: `+<dB> dB`.
    Boost(i32),
    /// The short form of a delay.
    Delay(DelaySetting),
    /// A UI string followed by the short form of a delay in brackets.
    DelayTitle(UiText, DelaySetting),
}

/// Action triggered by a leaf menu item.
#[derive(Debug, Clone, Copy, PartialEq, Eq, Structural)]
pub enum MenuAction {
    Fullscreen,
    SetBoost(i32),
    SetVideoDelay(DelaySetting),
    SetAudioDelay(DelaySetting),
    ToggleBufferLink,
    ToggleAlpha,
    SetQuality(VideoQualityPreset),
    ToggleSafeArea,
    ToggleVu,
    Help,
    Exit,
}

/// One row of a menu panel.
#[derive(Debug, Clone, Copy, PartialEq, Eq, Structural)]
pub enum MenuEntry {
    Item { label: MenuLabel, checked: bool, action: MenuAction },
    Submenu { id: MenuNodeId, label: MenuLabel },
    Note { label: MenuLabel },
    Separator,
}

pub open spec fn item(label: MenuLabel, checked: bool, action: MenuAction) -> MenuEntry {
    MenuEntry::Item { label, checked, action }
}

pub open spec fn plain_item(text: UiText, action: MenuAction) -> MenuEntry {
    item(MenuLabel::Text(text), false, action)
}

pub open spec fn submenu_row(id: MenuNodeId, text: UiText) -> MenuEntry {
    MenuEntry::Submenu { id, label: MenuLabel::Text(text) }
}

/// The root panel: Fullscreen, a separator, Settings ▸, Help, Exit.
pub open spec fn root_menu() -> Seq<MenuEntry> {
    seq![
        plain_item(UiText::Fullscreen, MenuAction::Fullscreen),
        MenuEntry::Separator,
        submenu_row(MenuNodeId::Settings, UiText::Settings),
        plain_item(UiText::Help, MenuAction::Help),
        plain_item(UiText::Exit, MenuAction::Exit),
    ]
}

pub open spec fn ms(amount: u32) -> DelaySetting {
    DelaySetting { amount, unit: DelayUnit::Milliseconds }
}

pub open spec fn frames(amount: u32) -> DelaySetting {
    DelaySetting { amount, unit: DelayUnit::Frames }
}

/// The action that sets the video delay (`video`) or the audio delay to `d`.
pub open spec fn delay_action(d: DelaySetting, video: bool) -> MenuAction {
    if video {
        MenuAction::SetVideoDelay(d)
    } else {
        MenuAction::SetAudioDelay(d)
    }
}

/// A delay preset row, checked when it is the `current` delay.
pub open spec fn delay_choice(d: DelaySetting, current: DelaySetting, video: bool) -> MenuEntry {
    item(MenuLabel::Delay(d), current == d, delay_action(d, video))
}

/// The delay presets: 0, 50, 100, 200 and 500 ms, a separator, then 0, 1, 2,
/// 3 and 5 frames.
pub open spec fn delay_presets(current: DelaySetting, video: bool) -> Seq<MenuEntry> {
    seq![
        delay_choice(ms(0), current, video),
        delay_choice(ms(50), current, video),
        delay_choice(ms(100), current, video),
        delay_choice(ms(200), current, video),
        delay_choice(ms(500), current, video),
        MenuEntry::Separator,
        delay_choice(frames(0), current, video),
        delay_choice(frames(1), current, video),
        delay_choice(frames(2), current, video),
        delay_choice(frames(3), current, video),
        delay_choice(frames(5), current, video),
    ]
}

pub open spec fn boost_choice(db: i32, s: MonitorSettings) -> MenuEntry {
    item(MenuLabel::Boost(db), s.audio_boost_db == db, MenuAction::SetBoost(db))
}

pub open spec fn quality_choice(p: VideoQualityPreset, text: UiText, s: MonitorSettings) -> MenuEntry {
    item(MenuLabel::Text(text), s.quality == p, MenuAction::SetQuality(p))
}

/// The rows of the flyout panel `node`, for the settings `s`.
pub open spec fn submenu(s: MonitorSettings, node: MenuNodeId) -> Seq<MenuEntry> {
    match node {
        MenuNodeId::Settings => seq![
            submenu_row(MenuNodeId::Audio, UiText::Audio),
            submenu_row(MenuNodeId::Video, UiText::Video),
            submenu_row(MenuNodeId::Overlay, UiText::Overlay),
        ],
        MenuNodeId::Audio => seq![
            submenu_row(MenuNodeId::AudioBoost, UiText::AudioBoost),
            submenu_row(MenuNodeId::AvBuffer, UiText::AvBuffer),
        ],
        MenuNodeId::AudioBoost => seq![
            boost_choice(0, s),
            boost_choice(6, s),
            boost_choice(10, s),
            boost_choice(20, s),
        ],
        MenuNodeId::AvBuffer => seq![
            MenuEntry::Submenu {
                id: MenuNodeId::VideoBuffer,
                label: MenuLabel::DelayTitle(UiText::BufferVideo, s.buffer.video),
            },
            MenuEntry::Submenu {
                id: MenuNodeId::AudioBuffer,
                label: MenuLabel::DelayTitle(UiText::BufferAudio, s.buffer.audio),
            },
            MenuEntry::Separator,
            item(MenuLabel::Text(UiText::BufferLink), s.buffer.linked, MenuAction::ToggleBufferLink),
            MenuEntry::Note { label: MenuLabel::Text(UiText::BufferUnlinkInfo) },
        ],
        MenuNodeId::VideoBuffer => delay_presets(s.buffer.video, true),
        MenuNodeId::AudioBuffer => delay_presets(s.buffer.audio, false),
        MenuNodeId::Video => seq![
            item(MenuLabel::Text(UiText::AlphaMask), s.show_alpha, MenuAction::ToggleAlpha),
            submenu_row(MenuNodeId::VideoQuality, UiText::Quality),
        ],
        MenuNodeId::VideoQuality => seq![
            quality_choice(VideoQualityPreset::Default, UiText::QualityDefault, s),
            quality_choice(VideoQualityPreset::Low, UiText::QualityLow, s),
            quality_choice(VideoQualityPreset::Medium, UiText::QualityMedium, s),
            quality_choice(VideoQualityPreset::High, UiText::QualityHigh, s),
            quality_choice(VideoQualityPreset::LowBandwidth, UiText::QualityLowBandwidth, s),
        ],
        MenuNodeId::Overlay => seq![
            item(MenuLabel::Text(UiText::SafeArea), s.safe_area, MenuAction::ToggleSafeArea),
            item(MenuLabel::Text(UiText::VuMeter), s.vu_meter, MenuAction::ToggleVu),
        ],
    }
}

/// The rows of the root panel.
pub fn root_entries() -> (r: Vec<MenuEntry>)
    ensures
        r@ == root_menu(),
{
    let mut r: Vec<MenuEntry> = Vec::new();
    r.push(MenuEntry::Item {
        label: MenuLabel::Text(UiText::Fullscreen),
        checked: false,
        action: MenuAction::Fullscreen,
    });
    r.push(MenuEntry::Separator);
    r.push(MenuEntry::Submenu { id: MenuNodeId::Settings, label: MenuLabel::Text(UiText::Settings) });
    r.push(MenuEntry::Item { label: MenuLabel::Text(UiText::Help), checked: false, action: MenuAction::Help });
    r.push(MenuEntry::Item { label: MenuLabel::Text(UiText::Exit), checked: false, action: MenuAction::Exit });
    assert(r@ =~= root_menu());
    r
}

fn delay_row(d: DelaySetting, current: DelaySetting, video: bool) -> (r: MenuEntry)
    ensures
        r == delay_choice(d, current, video),
{
    let action = if video {
        MenuAction::SetVideoDelay(d)
    } else {
        MenuAction::SetAudioDelay(d)
    };
    MenuEntry::Item { label: MenuLabel::Delay(d), checked: current == d, action }
}

/// The delay preset rows of the video (`video`) or audio buffer panel, with
/// the `current` delay checked.
pub fn delay_preset_entries(current: DelaySetting, video: bool) -> (r: Vec<MenuEntry>)
    ensures
        r@ == delay_presets(current, video),
{
    let mut r: Vec<MenuEntry> = Vec::new();
    r.push(delay_row(DelaySetting { amount: 0, unit: DelayUnit::Milliseconds }, current, video));
    r.push(delay_row(DelaySetting { amount: 50, unit: DelayUnit::Milliseconds }, current, video));
    r.push(delay_row(DelaySetting { amount: 100, unit: DelayUnit::Milliseconds }, current, video));
    r.push(delay_row(DelaySetting { amount: 200, unit: DelayUnit::Milliseconds }, current, video));
    r.push(delay_row(DelaySetting { amount: 500, unit: DelayUnit::Milliseconds }, current, video));
    r.push(MenuEntry::Separator);
    r.push(delay_row(DelaySetting { amount: 0, unit: DelayUnit::Frames }, current, video));
    r.push(delay_row(DelaySetting { amount: 1, unit: DelayUnit::Frames }, current, video));
    r.push(delay_row(DelaySetting { amount: 2, unit: DelayUnit::Frames }, current, video));
    r.push(delay_row(DelaySetting { amount: 3, unit: DelayUnit::Frames }, current, video));
    r.push(delay_row(DelaySetting { amount: 5, unit: DelayUnit::Frames }, current, video));
    assert(r@ =~= delay_presets(current, video));
    r
}

fn text_row(text: UiText, checked: bool, action: MenuAction) -> (r: MenuEntry)
    ensures
        r == item(MenuLabel::Text(text), checked, action),
{
    MenuEntry::Item { label: MenuLabel::Text(text), checked, action }
}

fn sub_row(id: MenuNodeId, text: UiText) -> (r: MenuEntry)
    ensures
        r == submenu_row(id, text),
{
    MenuEntry::Submenu { id, label: MenuLabel::Text(text) }
}

/// The rows of the flyout panel `node`.
pub fn submenu_entries(settings: &MonitorSettings, node: MenuNodeId) -> (r: Vec<MenuEntry>)
    ensures
        r@ == submenu(*settings, node),
{
    let s = *settings;
    let mut r: Vec<MenuEntry> = Vec::new();
    match node {
        MenuNodeId::Settings => {
            r.push(sub_row(MenuNodeId::Audio, UiText::Audio));
            r.push(sub_row(MenuNodeId::Video, UiText::Video));
            r.push(sub_row(MenuNodeId::Overlay, UiText::Overlay));
        },
        MenuNodeId::Audio => {
            r.push(sub_row(MenuNodeId::AudioBoost, UiText::AudioBoost));
            r.push(sub_row(MenuNodeId::AvBuffer, UiText::AvBuffer));
        },
        MenuNodeId::AudioBoost => {
            let dbs: [i32; 4] = [0, 6, 10, 20];
            let mut k: usize = 0;
            while k < 4
                invariant
                    k <= 4,
                    dbs@ == seq![0i32, 6, 10, 20],
                    r@ =~= submenu(s, node).take(k as int),
                    node == MenuNodeId::AudioBoost,
                decreases 4 - k,
            {
                let db = dbs[k];
                r.push(MenuEntry::Item {
                    label: MenuLabel::Boost(db),
                    checked: s.audio_boost_db == db,
                    action: MenuAction::SetBoost(db),
                });
                assert(submenu(s, node).take(k + 1) =~= submenu(s, node).take(k as int).push(
                    boost_choice(db, s),
                ));
                k = k + 1;
            }
        },
        MenuNodeId::AvBuffer => {
            r.push(MenuEntry::Submenu {
                id: MenuNodeId::VideoBuffer,
                label: MenuLabel::DelayTitle(UiText::BufferVideo, s.buffer.video),
            });
            r.push(MenuEntry::Submenu {
                id: MenuNodeId::AudioBuffer,
                label: MenuLabel::DelayTitle(UiText::BufferAudio, s.buffer.audio),
            });
            r.push(MenuEntry::Separator);
            r.push(text_row(UiText::BufferLink, s.buffer.linked, MenuAction::ToggleBufferLink));
            r.push(MenuEntry::Note { label: MenuLabel::Text(UiText::BufferUnlinkInfo) });
        },
        MenuNodeId::VideoBuffer => {
            r = delay_preset_entries(s.buffer.video, true);
        },
        MenuNodeId::AudioBuffer => {
            r = delay_preset_entries(s.buffer.audio, false);
        },
        MenuNodeId::Video => {
            r.push(text_row(UiText::AlphaMask, s.show_alpha, MenuAction::ToggleAlpha));
            r.push(sub_row(MenuNodeId::VideoQuality, UiText::Quality));
        },
        MenuNodeId::VideoQuality => {
            let presets: [(VideoQualityPreset, UiText); 5] = [
                (VideoQualityPreset::Default, UiText::QualityDefault),
                (VideoQualityPreset::Low, UiText::QualityLow),
                (VideoQualityPreset::Medium, UiText::QualityMedium),
                (VideoQualityPreset::High, UiText::QualityHigh),
                (VideoQualityPreset::LowBandwidth, UiText::QualityLowBandwidth),
            ];
            let mut k: usize = 0;
            while k < 5
                invariant
                    k <= 5,
                    presets@ == seq![
                        (VideoQualityPreset::Default, UiText::QualityDefault),
                        (VideoQualityPreset::Low, UiText::QualityLow),
                        (VideoQualityPreset::Medium, UiText::QualityMedium),
                        (VideoQualityPreset::High, UiText::QualityHigh),
                        (VideoQualityPreset::LowBandwidth, UiText::QualityLowBandwidth),
                    ],
                    r@ =~= submenu(s, node).take(k as int),
                    node == MenuNodeId::VideoQuality,
                decreases 5 - k,
            {
                let (p, text) = presets[k];
                r.push(text_row(text, s.quality == p, MenuAction::SetQuality(p)));
                assert(submenu(s, node).take(k + 1) =~= submenu(s, node).take(k as int).push(
                    quality_choice(p, text, s),
                ));
                k = k + 1;
            }
        },
        MenuNodeId::Overlay => {
            r.push(text_row(UiText::SafeArea, s.safe_area, MenuAction::ToggleSafeArea));
            r.push(text_row(UiText::VuMeter, s.vu_meter, MenuAction::ToggleVu));
        },
    }
    assert(r@ =~= submenu(s, node));
    r
}

/// What is left to do after a menu choice has updated the settings.
#[derive(Debug, Clone, Copy, PartialEq, Eq, Structural)]
pub enum MenuEffect {
    /// Nothing more.
    Nothing,
    EnterFullscreen,
    /// Hand the new boost to the receive worker.
    SendAudioBoost(i32),
    /// Apply this video delay to the playout buffer at the source's rate.
    ApplyVideoDelay(DelaySetting),
    /// Apply this audio delay to the playout buffer at the source's rate.
    ApplyAudioDelay(DelaySetting),
    /// Link (`true`) or unlink the playout buffers at the source's rate.
    ApplyBufferLink(bool),
    /// Rebuild the picture texture (the alpha view changed).
    InvalidateTexture,
    /// Reconnect the selected source with the new quality.
    Reconnect,
    /// Open the project page in the browser.
    OpenHelp,
    Quit,
}

/// The viewer settings after choosing `a`. Delays and the buffer link are
/// changed by the playout buffer itself (see [`MenuEffect`]).
pub open spec fn settings_after(s: MonitorSettings, a: MenuAction) -> MonitorSettings {
    match a {
        MenuAction::SetBoost(db) => MonitorSettings { audio_boost_db: db, ..s },
        MenuAction::ToggleAlpha => MonitorSettings { show_alpha: !s.show_alpha, ..s },
        MenuAction::SetQuality(p) => MonitorSettings { quality: p, ..s },
        MenuAction::ToggleSafeArea => MonitorSettings { safe_area: !s.safe_area, ..s },
        MenuAction::ToggleVu => MonitorSettings { vu_meter: !s.vu_meter, ..s },
        _ => s,
    }
}

/// What is left to do after choosing `a` with the settings `s`.
pub open spec fn effect_of(s: MonitorSettings, a: MenuAction) -> MenuEffect {
    match a {
        MenuAction::Fullscreen => MenuEffect::EnterFullscreen,
        MenuAction::SetBoost(db) => MenuEffect::SendAudioBoost(db),
        MenuAction::SetVideoDelay(d) => MenuEffect::ApplyVideoDelay(d),
        MenuAction::SetAudioDelay(d) => MenuEffect::ApplyAudioDelay(d),
        MenuAction::ToggleBufferLink => MenuEffect::ApplyBufferLink(!s.buffer.linked),
        MenuAction::ToggleAlpha => MenuEffect::InvalidateTexture,
        MenuAction::SetQuality(_) => MenuEffect::Reconnect,
        MenuAction::ToggleSafeArea | MenuAction::ToggleVu => MenuEffect::Nothing,
        MenuAction::Help => MenuEffect::OpenHelp,
        MenuAction::Exit => MenuEffect::Quit,
    }
}

/// Carry out the settings part of a menu choice and say what is left to do.
pub fn dispatch_action(settings: &mut MonitorSettings, action: MenuAction) -> (r: MenuEffect)
    ensures
        *final(settings) == settings_after(*old(settings), action),
        r == effect_of(*old(settings), action),
{
    match action {
        MenuAction::Fullscreen => MenuEffect::EnterFullscreen,
        MenuAction::SetBoost(db) => {
            settings.audio_boost_db = db;
            MenuEffect::SendAudioBoost(db)
        },
        MenuAction::SetVideoDelay(d) => MenuEffect::ApplyVideoDelay(d),
        MenuAction::SetAudioDelay(d) => MenuEffect::ApplyAudioDelay(d),
        MenuAction::ToggleBufferLink => MenuEffect::ApplyBufferLink(!settings.buffer.linked),
        MenuAction::ToggleAlpha => {
            settings.show_alpha = !settings.show_alpha;
            MenuEffect::InvalidateTexture
        },
        MenuAction::SetQuality(p) => {
            settings.quality = p;
            MenuEffect::Reconnect
        },
        MenuAction::ToggleSafeArea => {
            settings.safe_area = !settings.safe_area;
            MenuEffect::Nothing
        },
        MenuAction::ToggleVu => {
            settings.vu_meter = !settings.vu_meter;
            MenuEffect::Nothing
        },
        MenuAction::Help => MenuEffect::OpenHelp,
        MenuAction::Exit => MenuEffect::Quit,
    }
}

/// Whether a row carries a check mark.
pub open spec fn is_checked(e: MenuEntry) -> bool {
    e matches MenuEntry::Item { checked, .. } && checked
}

/// The action of an item row (rows of other kinds have none; `Exit` stands
/// in for them).
pub open spec fn row_action(e: MenuEntry) -> MenuAction {
    match e {
        MenuEntry::Item { action, .. } => action,
        _ => MenuAction::Exit,
    }
}

/// Choosing an audio boost or a receive quality from its panel checks that
/// row, and no other row, when the panel is built again.
pub proof fn law_choice_is_checked(s: MonitorSettings, node: MenuNodeId, i: int)
    requires
        0 <= i < submenu(s, node).len(),
        submenu(s, node)[i] is Item,
        row_action(submenu(s, node)[i]) is SetBoost || row_action(submenu(s, node)[i]) is SetQuality,
    ensures
        ({
            let after = submenu(settings_after(s, row_action(submenu(s, node)[i])), node);
            &&& after.len() == submenu(s, node).len()
            &&& forall|j: int| 0 <= j < after.len() ==> (is_checked(#[trigger] after[j]) <==> j == i)
        }),
{
    let rows = submenu(s, node);
    let a = row_action(rows[i]);
    let after = submenu(settings_after(s, a), node);
    match node {
        MenuNodeId::AudioBoost => {
            let dbs = seq![0i32, 6, 10, 20];
            assert forall|j: int| 0 <= j < 4 implies rows[j] == boost_choice(dbs[j], s) by {}
            assert(a == MenuAction::SetBoost(dbs[i]));
            assert forall|j: int| 0 <= j < after.len() implies (is_checked(#[trigger] after[j])
                <==> j == i) by {
                assert(after[j] == boost_choice(dbs[j], settings_after(s, a)));
            }
        },
        MenuNodeId::VideoQuality => {
            let ps = seq![
                VideoQualityPreset::Default,
                VideoQualityPreset::Low,
                VideoQualityPreset::Medium,
                VideoQualityPreset::High,
                VideoQualityPreset::LowBandwidth,
            ];
            assert forall|j: int| 0 <= j < 5 implies row_action(#[trigger] rows[j])
                == MenuAction::SetQuality(ps[j]) by {}
            assert(a == MenuAction::SetQuality(ps[i]));
            assert forall|j: int| 0 <= j < after.len() implies (is_checked(#[trigger] after[j])
                <==> j == i) by {
                assert(is_checked(after[j]) <==> settings_after(s, a).quality == ps[j]);
            }
        },
        MenuNodeId::VideoBuffer | MenuNodeId::AudioBuffer => {
            assert(!(a is SetBoost) && !(a is SetQuality));
        },
        _ => {},
    }
}

/// Each on/off row shows its setting, so choosing it flips its check mark.
pub proof fn law_toggle_flips_check(s: MonitorSettings, node: MenuNodeId, i: int)
    requires
        0 <= i < submenu(s, node).len(),
        submenu(s, node)[i] is Item,
        row_action(submenu(s, node)[i]) is ToggleAlpha || row_action(submenu(s, node)[i]) is ToggleSafeArea
            || row_action(submenu(s, node)[i]) is ToggleVu,
    ensures
        is_checked(submenu(settings_after(s, row_action(submenu(s, node)[i])), node)[i]) == !is_checked(
            submenu(s, node)[i],
        ),
{
}

/// The string-table key of a UI string.
pub open spec fn ui_key(t: UiText) -> Seq<char> {
    match t {
        UiText::Fullscreen => "monitor.fullscreen"@,
        UiText::Settings => "monitor.settings"@,
        UiText::Help => "monitor.help"@,
        UiText::Exit => "monitor.exit"@,
        UiText::Audio => "monitor.audio"@,
        UiText::Video => "monitor.video"@,
        UiText::Overlay => "monitor.overlay"@,
        UiText::AudioBoost => "monitor.audio_boost"@,
        UiText::AvBuffer => "monitor.av_buffer"@,
        UiText::BufferVideo => "monitor.buffer_video"@,
        UiText::BufferAudio => "monitor.buffer_audio"@,
        UiText::BufferLink => "monitor.buffer_link"@,
        UiText::BufferUnlinkInfo => "monitor.buffer_unlink_info"@,
        UiText::AlphaMask => "monitor.alpha_mask"@,
        UiText::Quality => "monitor.quality"@,
        UiText::QualityDefault => "monitor.quality_default"@,
        UiText::QualityLow => "monitor.quality_low"@,
        UiText::QualityMedium => "monitor.quality_medium"@,
        UiText::QualityHigh => "monitor.quality_high"@,
        UiText::QualityLowBandwidth => "monitor.quality_low_bw"@,
        UiText::SafeArea => "monitor.safe_area"@,
        UiText::VuMeter => "monitor.vu_meter"@,
    }
}

/// The string-table key of a UI string.
pub fn ui_text_key(t: UiText) -> (r: &'static str)
    ensures
        r@ == ui_key(t),
{
    match t {
        UiText::Fullscreen => "monitor.fullscreen",
        UiText::Settings => "monitor.settings",
        UiText::Help => "monitor.help",
        UiText::Exit => "monitor.exit",
        UiText::Audio => "monitor.audio",
        UiText::Video => "monitor.video",
        UiText::Overlay => "monitor.overlay",
        UiText::AudioBoost => "monitor.audio_boost",
        UiText::AvBuffer => "monitor.av_buffer",
        UiText::BufferVideo => "monitor.buffer_video",
        UiText::BufferAudio => "monitor.buffer_audio",
        UiText::BufferLink => "monitor.buffer_link",
        UiText::BufferUnlinkInfo => "monitor.buffer_unlink_info",
        UiText::AlphaMask => "monitor.alpha_mask",
        UiText::Quality => "monitor.quality",
        UiText::QualityDefault => "monitor.quality_default",
        UiText::QualityLow => "monitor.quality_low",
        UiText::QualityMedium => "monitor.quality_medium",
        UiText::QualityHigh => "monitor.quality_high",
        UiText::QualityLowBandwidth => "monitor.quality_low_bw",
        UiText::SafeArea => "monitor.safe_area",
        UiText::VuMeter => "monitor.vu_meter",
    }
}

/// Decimal text of an `i32`, with a leading `-` when it is negative.
pub open spec fn signed_decimal(n: int) -> Seq<char> {
    if n < 0 {
        "-"@ + decimal((-n) as nat)
    } else {
        decimal(n as nat)
    }
}

/// Text of `n` (`i32::to_string`).
pub fn i32_to_text(n: i32) -> (r: String)
    ensures
        r@ == signed_decimal(n as int),
{
    if n < 0 {
        let m: u32 = if n == i32::MIN {
            2147483648u32
        } else {
            (-n) as u32
        };
        joined("-", u32_to_text(m).as_str())
    } else {
        u32_to_text(n as u32)
    }
}

/// The short form of a delay: `N ms`, `1 <frame>` or `N <frames>`.
pub open spec fn delay_short(d: DelaySetting, frame: Seq<char>, frames: Seq<char>) -> Seq<char> {
    match d.unit {
        DelayUnit::Milliseconds => decimal(d.amount as nat) + " ms"@,
        DelayUnit::Frames => if d.amount == 1 {
            "1 "@ + frame
        } else {
            decimal(d.amount as nat) + " "@ + frames
        },
    }
}

/// The text of a row's label: `title` is its UI string in the UI language
/// (if it has one), `frame` and `frames` the UI language's words.
pub open spec fn label_view(label: MenuLabel, title: Seq<char>, frame: Seq<char>, frames: Seq<char>) -> Seq<
    char,
> {
    match label {
        MenuLabel::Text(_) => title,
        MenuLabel::Boost(db) => "+"@ + signed_decimal(db as int) + " dB"@,
        MenuLabel::Delay(d) => delay_short(d, frame, frames),
        MenuLabel::DelayTitle(_, d) => title + " ("@ + delay_short(d, frame, frames) + ")"@,
    }
}

/// Render a row's label.
pub fn label_text(label: MenuLabel, title: &str, frame: &str, frames: &str) -> (r: String)
    ensures
        r@ == label_view(label, title@, frame@, frames@),
{
    match label {
        MenuLabel::Text(_) => owned(title),
        MenuLabel::Boost(db) => {
            let mut r = joined("+", i32_to_text(db).as_str());
            r.append(" dB");
            r
        },
        MenuLabel::Delay(d) => format_delay_short(d.unit, d.amount, frame, frames),
        MenuLabel::DelayTitle(_, d) => {
            let mut r = joined(title, " (");
            r.append(format_delay_short(d.unit, d.amount, frame, frames).as_str());
            r.append(")");
            r
        },
    }
}

/// `Debug` name of a quality preset.
pub open spec fn preset_name(p: VideoQualityPreset) -> Seq<char> {
    match p {
        VideoQualityPreset::Default => "Default"@,
        VideoQualityPreset::Low => "Low"@,
        VideoQualityPreset::Medium => "Medium"@,
        VideoQualityPreset::High => "High"@,
        VideoQualityPreset::LowBandwidth => "LowBandwidth"@,
    }
}

/// Element id of a delay row: `buf-<v|a>-<ms|fr>-<amount>`.
pub open spec fn delay_id(prefix: Seq<char>, d: DelaySetting) -> Seq<char> {
    "buf-"@ + prefix + (if d.unit == DelayUnit::Milliseconds {
        "-ms-"@
    } else {
        "-fr-"@
    }) + decimal(d.amount as nat)
}

/// Element id of the item row with action `a`.
pub open spec fn item_id_view(a: MenuAction) -> Seq<char> {
    match a {
        MenuAction::Fullscreen => "fullscreen"@,
        MenuAction::SetBoost(db) => "boost-"@ + signed_decimal(db as int),
        MenuAction::SetVideoDelay(d) => delay_id("v"@, d),
        MenuAction::SetAudioDelay(d) => delay_id("a"@, d),
        MenuAction::ToggleBufferLink => "buf-link"@,
        MenuAction::ToggleAlpha => "alpha"@,
        MenuAction::SetQuality(p) => "q-"@ + preset_name(p),
        MenuAction::ToggleSafeArea => "safe"@,
        MenuAction::ToggleVu => "vu"@,
        MenuAction::Help => "help"@,
        MenuAction::Exit => "exit"@,
    }
}

fn delay_id_text(prefix: &str, d: DelaySetting) -> (r: String)
    ensures
        r@ == delay_id(prefix@, d),
{
    let mut r = joined("buf-", prefix);
    match d.unit {
        DelayUnit::Milliseconds => r.append("-ms-"),
        DelayUnit::Frames => r.append("-fr-"),
    }
    r.append(u32_to_text(d.amount).as_str());
    r
}

/// Element id of the item row with action `action`.
pub fn item_id(action: MenuAction) -> (r: String)
    ensures
        r@ == item_id_view(action),
{
    match action {
        MenuAction::Fullscreen => owned("fullscreen"),
        MenuAction::SetBoost(db) => joined("boost-", i32_to_text(db).as_str()),
        MenuAction::SetVideoDelay(d) => delay_id_text("v", d),
        MenuAction::SetAudioDelay(d) => delay_id_text("a", d),
        MenuAction::ToggleBufferLink => owned("buf-link"),
        MenuAction::ToggleAlpha => owned("alpha"),
        MenuAction::SetQuality(p) => {
            let name = match p {
                VideoQualityPreset::Default => "Default",
                VideoQualityPreset::Low => "Low",
                VideoQualityPreset::Medium => "Medium",
                VideoQualityPreset::High => "High",
                VideoQualityPreset::LowBandwidth => "LowBandwidth",
            };
            joined("q-", name)
        },
        MenuAction::ToggleSafeArea => owned("safe"),
        MenuAction::ToggleVu => owned("vu"),
        MenuAction::Help => owned("help"),
        MenuAction::Exit => owned("exit"),
    }
}

/// The page that Help opens.
pub fn help_url() -> (r: &'static str)
    ensures
        r@ == "https://github.com/MikanseiLaboratory/omt-tools"@,
{
    "https://github.com/MikanseiLaboratory/omt-tools"
}

/// A delay for the stats panel: `N ms` when set in milliseconds, else the
/// frame count with its word and the equivalent milliseconds,
/// `N <frames> (<equiv>M ms)`.
pub open spec fn delay_setting_view(
    d: DelaySetting,
    delay_ms: u32,
    frame: Seq<char>,
    frames: Seq<char>,
    equiv: Seq<char>,
) -> Seq<char> {
    match d.unit {
        DelayUnit::Milliseconds => decimal(delay_ms as nat) + " ms"@,
        DelayUnit::Frames => decimal(d.amount as nat) + " "@ + (if d.amount == 1 {
            frame
        } else {
            frames
        }) + " ("@ + equiv + decimal(delay_ms as nat) + " ms)"@,
    }
}

pub fn format_delay_setting(
    d: DelaySetting,
    delay_ms: u32,
    frame: &str,
    frames: &str,
    equiv: &str,
) -> (r: String)
    ensures
        r@ == delay_setting_view(d, delay_ms, frame@, frames@, equiv@),
{
    match d.unit {
        DelayUnit::Milliseconds => joined(u32_to_text(delay_ms).as_str(), " ms"),
        DelayUnit::Frames => {
            let mut r = joined(u32_to_text(d.amount).as_str(), " ");
            if d.amount == 1 {
                r.append(frame);
            } else {
                r.append(frames);
            }
            r.append(" (");
            r.append(equiv);
            r.append(u32_to_text(delay_ms).as_str());
            r.append(" ms)");
            r
        },
    }
}

/// The buffer line of the stats panel with both delays in their own units:
/// `link · V <video> / A <audio>` (`indep` when not linked).
pub fn format_buffer_settings(
    buffer: BufferSettings,
    video_ms: u32,
    audio_ms: u32,
    frame: &str,
    frames: &str,
    equiv: &str,
) -> (r: String)
    ensures
        r@ == (if buffer.linked {
            "link"@
        } else {
            "indep"@
        }) + " · V "@ + delay_setting_view(buffer.video, video_ms, frame@, frames@, equiv@) + " / A "@
            + delay_setting_view(buffer.audio, audio_ms, frame@, frames@, equiv@),
{
    let mut r = if buffer.linked {
        owned("link")
    } else {
        owned("indep")
    };
    r.append(" · V ");
    r.append(format_delay_setting(buffer.video, video_ms, frame, frames, equiv).as_str());
    r.append(" / A ");
    r.append(format_delay_setting(buffer.audio, audio_ms, frame, frames, equiv).as_str());
    r
}

/// The submenu a row opens (rows of other kinds open none; `Settings`
/// stands in for them).
pub open spec fn row_submenu(e: MenuEntry) -> MenuNodeId {
    match e {
        MenuEntry::Submenu { id, .. } => id,
        _ => MenuNodeId::Settings,
    }
}

/// Expanding a submenu row keeps the panel that lists it open: a submenu of
/// the root panel opens alone, and a submenu listed in panel `parent`, when
/// `path` is the open path ending at `parent`, opens right after it. So each
/// listed submenu sits one level below the panel that lists it.
pub proof fn law_submenu_opens_beside_its_panel(
    s: MonitorSettings,
    parent: MenuNodeId,
    i: int,
    path: Seq<MenuNodeId>,
)
    ensures
        (0 <= i < root_menu().len() && root_menu()[i] is Submenu) ==> ({
            let id = row_submenu(root_menu()[i]);
            menu_depth(id) == 0 && path_after_expand(path, id) == seq![id]
        }),
        (0 <= i < submenu(s, parent).len() && submenu(s, parent)[i] is Submenu) ==> ({
            let id = row_submenu(submenu(s, parent)[i]);
            &&& menu_depth(id) == menu_depth(parent) + 1
            &&& (path.len() == menu_depth(parent) + 1 && path.last() == parent)
                ==> path_after_expand(path, id) == path.push(id)
        }),
{
    if 0 <= i < root_menu().len() && root_menu()[i] is Submenu {
        assert(path.take(0) =~= Seq::<MenuNodeId>::empty());
    }
    if 0 <= i < submenu(s, parent).len() && submenu(s, parent)[i] is Submenu {
        if path.len() == menu_depth(parent) + 1 && path.last() == parent {
            assert(path.take(path.len() as int) =~= path);
        }
    }
}
} // verus!

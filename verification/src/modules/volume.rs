//! Volume module: output level and mute state, changed by scrolling and clicking.

use vstd::prelude::*;
use crate::config::{ModulesConfig, VolumeConfig};
use crate::modules::Module;
use crate::text::{dec, push_dec, push_str, string_of};

verus! {

/// The state of a volume module.
pub struct VolumeView {
    pub scroll_to_change: bool,
    pub scroll_step: u32,
    pub cached_text: Seq<char>,
    pub volume_level: u32,
    pub is_muted: bool,
    pub output_device_name: Seq<char>,
}

/// Volume module
pub struct VolumeModule {
    scroll_to_change: bool,
    scroll_step: u32,
    cached_text: String,
    volume_level: u32,
    is_muted: bool,
    output_device_name: String,
}

impl View for VolumeModule {
    type V = VolumeView;

    closed spec fn view(&self) -> VolumeView {
        VolumeView {
            scroll_to_change: self.scroll_to_change,
            scroll_step: self.scroll_step,
            cached_text: self.cached_text@,
            volume_level: self.volume_level,
            is_muted: self.is_muted,
            output_device_name: self.output_device_name@,
        }
    }
}

/// The speaker glyph for a level.
pub open spec fn volume_icon_text(v: VolumeView) -> Seq<char> {
    if v.is_muted || v.volume_level == 0 {
        "🔇"@
    } else if v.volume_level < 25 {
        "🔈"@
    } else if v.volume_level < 75 {
        "🔉"@
    } else {
        "🔊"@
    }
}

/// The bar text for a volume state.
pub open spec fn volume_text(v: VolumeView, config: VolumeConfig) -> Seq<char> {
    if config.show_percentage {
        volume_icon_text(v) + seq![' '] + dec(v.volume_level as nat) + seq!['%']
    } else {
        volume_icon_text(v)
    }
}

/// `level + delta` kept within 0..=100.
pub open spec fn clamped_level(level: int, delta: int) -> u32 {
    let t = level + delta;
    if t < 0 {
        0
    } else if t > 100 {
        100
    } else {
        t as u32
    }
}

/// The level that `change_volume(delta)` asks for: representable without overflow.
pub open spec fn change_ok(v: VolumeView, delta: int) -> bool {
    v.volume_level <= i32::MAX && i32::MIN <= v.volume_level + delta <= i32::MAX
}

impl VolumeModule {
    pub fn new() -> (m: VolumeModule)
        ensures
            m@.scroll_to_change,
            m@.scroll_step == 5,
            m@.cached_text == Seq::<char>::empty(),
            m@.volume_level == 50,
            !m@.is_muted,
            m@.output_device_name == Seq::<char>::empty(),
    {
        VolumeModule {
            scroll_to_change: true,
            scroll_step: 5,
            cached_text: String::new(),
            volume_level: 50,
            is_muted: false,
            output_device_name: String::new(),
        }
    }

    /// Take in the system's level (percent) and mute state, where they could be
    /// read, and rebuild the text.
    pub fn force_update(&mut self, level: Option<u32>, muted: Option<bool>, config: &VolumeConfig)
        ensures
            final(self)@.volume_level == (match level {
                Some(l) => l,
                None => old(self)@.volume_level,
            }),
            final(self)@.is_muted == (match muted {
                Some(m) => m,
                None => old(self)@.is_muted,
            }),
            final(self)@.cached_text == volume_text(final(self)@, *config),
            final(self)@.scroll_to_change == old(self)@.scroll_to_change,
            final(self)@.scroll_step == old(self)@.scroll_step,
            final(self)@.output_device_name == old(self)@.output_device_name,
    {
        if let Some(l) = level {
            self.volume_level = l;
        }
        if let Some(m) = muted {
            self.is_muted = m;
        }
        self.cached_text = self.build_display_text(config);
    }

    /// Build the display text
    pub fn build_display_text(&self, config: &VolumeConfig) -> (s: String)
        ensures
            s@ == volume_text(self@, *config),
    {
        let mut s = string_of(self.get_volume_icon());
        if config.show_percentage {
            push_str(&mut s, " ");
            push_dec(&mut s, self.volume_level as u64);
            push_str(&mut s, "%");
        }
        proof {
            reveal_strlit(" ");
            reveal_strlit("%");
        }
        s
    }

    /// Rebuild the cached display text from current internal state and config
    pub fn rebuild_cached_text(&mut self, config: &VolumeConfig)
        ensures
            final(self)@ == (VolumeView { cached_text: volume_text(old(self)@, *config), ..old(self)@ }),
    {
        self.cached_text = self.build_display_text(config);
    }

    /// Get volume icon based on level
    pub fn get_volume_icon(&self) -> (s: &'static str)
        ensures
            s@ == volume_icon_text(self@),
    {
        if self.is_muted || self.volume_level == 0 {
            "🔇"
        } else if self.volume_level < 25 {
            "🔈"
        } else if self.volume_level < 75 {
            "🔉"
        } else {
            "🔊"
        }
    }

    /// Record that the system's mute state was flipped.
    pub fn toggle_mute(&mut self)
        ensures
            final(self)@ == (VolumeView { is_muted: !old(self)@.is_muted, ..old(self)@ }),
    {
        self.is_muted = !self.is_muted;
    }

    /// The level that a change by `delta` asks the system for.
    pub fn target_level(&self, delta: i32) -> (l: u32)
        requires
            change_ok(self@, delta as int),
        ensures
            l == clamped_level(self@.volume_level as int, delta as int),
    {
        let t = self.volume_level as i32 + delta;
        if t < 0 {
            0
        } else if t > 100 {
            100
        } else {
            t as u32
        }
    }

    /// Record a change of the level by `delta`, kept within 0..=100.
    pub fn change_volume(&mut self, delta: i32)
        requires
            change_ok(old(self)@, delta as int),
        ensures
            final(self)@ == (VolumeView {
                volume_level: clamped_level(old(self)@.volume_level as int, delta as int),
                ..old(self)@
            }),
    {
        self.volume_level = self.target_level(delta);
    }

    /// Record the outcome of asking the system for a change of the level by
    /// `delta`: the new level (kept within 0..=100) when the audio endpoint
    /// took it, the level as it was when there was no endpoint.
    pub fn change_volume_applied(&mut self, delta: i32, applied: bool)
        requires
            change_ok(old(self)@, delta as int),
        ensures
            final(self)@ == (if applied {
                VolumeView { volume_level: clamped_level(old(self)@.volume_level as int, delta as int), ..old(self)@ }
            } else {
                old(self)@
            }),
    {
        if applied {
            self.change_volume(delta);
        }
    }

    /// Record the outcome of asking the system to flip the mute state: it
    /// flips when the audio endpoint took it, and stays when there was none.
    pub fn toggle_mute_applied(&mut self, applied: bool)
        ensures
            final(self)@ == (if applied {
                VolumeView { is_muted: !old(self)@.is_muted, ..old(self)@ }
            } else {
                old(self)@
            }),
    {
        if applied {
            self.toggle_mute();
        }
    }

    /// The signed step that a scroll by `delta` asks for, if scrolling changes the volume.
    pub fn scroll_delta(&self, delta: i32) -> (r: Option<i32>)
        requires
            self@.scroll_step <= i32::MAX,
        ensures
            r == (if self@.scroll_to_change {
                Some((if delta > 0 {
                    self@.scroll_step as int
                } else {
                    -(self@.scroll_step as int)
                }) as i32)
            } else {
                None
            }),
    {
        if self.scroll_to_change {
            let step = if delta > 0 {
                self.scroll_step as i32
            } else {
                -(self.scroll_step as i32)
            };
            Some(step)
        } else {
            None
        }
    }

    /// Handle a scroll: change the level by one step up or down when enabled.
    pub fn on_scroll(&mut self, delta: i32)
        requires
            old(self)@.scroll_step <= i32::MAX,
            change_ok(old(self)@, old(self)@.scroll_step as int),
            change_ok(old(self)@, -(old(self)@.scroll_step as int)),
        ensures
            final(self)@ == (match old(self).scroll_delta_spec(delta) {
                Some(step) => VolumeView {
                    volume_level: clamped_level(old(self)@.volume_level as int, step as int),
                    ..old(self)@
                },
                None => old(self)@,
            }),
    {
        if let Some(step) = self.scroll_delta(delta) {
            self.change_volume(step);
        }
    }

    /// The step that `scroll_delta` returns.
    pub open spec fn scroll_delta_spec(&self, delta: i32) -> Option<i32> {
        if self@.scroll_to_change {
            Some((if delta > 0 {
                self@.scroll_step as int
            } else {
                -(self@.scroll_step as int)
            }) as i32)
        } else {
            None
        }
    }

    /// Get volume level
    pub fn volume_level(&self) -> (r: u32)
        ensures
            r == self@.volume_level,
    {
        self.volume_level
    }

    /// Check if muted
    pub fn is_muted(&self) -> (r: bool)
        ensures
            r == self@.is_muted,
    {
        self.is_muted
    }

    /// Get output device name
    pub fn output_device_name(&self) -> (r: &str)
        ensures
            r@ == self@.output_device_name,
    {
        self.output_device_name.as_str()
    }

    /// The tooltip text
    pub fn tooltip_text(&self) -> (s: String)
        ensures
            s@ == volume_tooltip(self@),
    {
        let mut s = string_of("Volume: ");
        push_dec(&mut s, self.volume_level as u64);
        push_str(&mut s, "%");
        if self.is_muted {
            push_str(&mut s, " (Muted)");
        } else {
            push_str(&mut s, "");
        }
        push_str(&mut s, "\nScroll to adjust, click to mute");
        s
    }
}

/// The tooltip: the level, whether it is muted, and what scrolling and a
/// click do.
pub open spec fn volume_tooltip(v: VolumeView) -> Seq<char> {
    "Volume: "@ + dec(v.volume_level as nat) + "%"@ + (if v.is_muted {
        " (Muted)"@
    } else {
        ""@
    }) + "\nScroll to adjust, click to mute"@
}

impl Module for VolumeModule {
    open spec fn spec_id(&self) -> Seq<char> {
        "volume"@
    }

    fn id(&self) -> (r: &str) {
        "volume"
    }

    fn name(&self) -> &str {
        "Volume"
    }

    open spec fn spec_refreshed(&self, before: &Self, config: ModulesConfig) -> bool {
        self@ == VolumeView { cached_text: volume_text(before@, config.volume), ..before@ }
    }

    open spec fn spec_text(&self, config: ModulesConfig) -> Seq<char> {
        self@.cached_text
    }

    open spec fn spec_tooltip(&self, r: Option<Seq<char>>) -> bool {
        r == Some(volume_tooltip(self@))
    }

    open spec fn spec_visible(&self) -> bool {
        true
    }

    fn display_text(&self, _config: &ModulesConfig) -> (s: String) {
        self.cached_text.clone()
    }

    fn update(&mut self, config: &ModulesConfig) {
        self.cached_text = self.build_display_text(&config.volume);
    }

    fn tooltip(&self) -> (r: Option<String>) {
        Some(self.tooltip_text())
    }

    fn is_visible(&self) -> (b: bool) {
        true
    }

    fn preferred_width(&self) -> i32 {
        0
    }
}

} // verus!

//! GPU module: use, video memory and temperature of the graphics card. The
//! readings are floating-point values, so they come in as the texts that
//! the bar prints for them; the module lays them out.

use vstd::prelude::*;
use crate::config::ModulesConfig;
use crate::modules::Module;
use crate::modules::network::opt_view;
use crate::modules::system_info::{push_part, with_part};
use crate::text::{dec, push_dec, push_str, string_of};
use crate::utils::{bytes_text, format_bytes};

verus! {

/// The state of a GPU module.
pub struct GpuView {
    /// Use in percent, without decimals
    pub usage_text: Seq<char>,
    /// Use in percent, with one decimal
    pub usage_detail: Seq<char>,
    /// Video memory used, in whole percent of the total
    pub vram_percent: u32,
    pub memory_used: u64,
    pub memory_total: u64,
    /// Temperature in degrees Celsius, without decimals
    pub temperature: Option<Seq<char>>,
    /// The adapter's name
    pub name: Seq<char>,
    pub show_memory: bool,
    pub show_temp: bool,
}

/// GPU module
pub struct GpuModule {
    usage_text: String,
    usage_detail: String,
    vram_percent: u32,
    memory_used: u64,
    memory_total: u64,
    temperature: Option<String>,
    name: String,
    show_memory: bool,
    show_temp: bool,
}

impl View for GpuModule {
    type V = GpuView;

    closed spec fn view(&self) -> GpuView {
        GpuView {
            usage_text: self.usage_text@,
            usage_detail: self.usage_detail@,
            vram_percent: self.vram_percent,
            memory_used: self.memory_used,
            memory_total: self.memory_total,
            temperature: opt_view(self.temperature),
            name: self.name@,
            show_memory: self.show_memory,
            show_temp: self.show_temp,
        }
    }
}

/// The bar text: "GPU n%" when the use is shown, "VRAM n%" when memory is
/// shown and known, and the temperature when shown and known, two spaces
/// apart.
pub open spec fn gpu_text(v: GpuView, show_usage: bool) -> Seq<char> {
    let a = if show_usage {
        "GPU "@ + v.usage_text + "%"@
    } else {
        Seq::empty()
    };
    let b = if v.show_memory && v.memory_total > 0 {
        with_part(a, "VRAM "@ + dec(v.vram_percent as nat) + "%"@, "  "@)
    } else {
        a
    };
    match v.temperature {
        Some(t) => if v.show_temp {
            with_part(b, t + "°C"@, "  "@)
        } else {
            b
        },
        None => b,
    }
}

/// The tooltip: the use, then the video memory when known, the
/// temperature when known and the device when named, one per line.
pub open spec fn gpu_tooltip(v: GpuView) -> Seq<char> {
    let a = "GPU Usage: "@ + v.usage_detail + "%"@;
    let b = if v.memory_total > 0 {
        a + "\nVRAM: "@ + bytes_text(v.memory_used as nat) + " / "@ + bytes_text(v.memory_total as nat)
    } else {
        a
    };
    let c = match v.temperature {
        Some(t) => b + "\nTemperature: "@ + t + "°C"@,
        None => b,
    };
    if v.name.len() > 0 {
        c + "\nDevice: "@ + v.name
    } else {
        c
    }
}

impl GpuModule {
    /// A module with no reading yet, showing the use only.
    pub fn new() -> (m: GpuModule)
        ensures
            m@.usage_text == "0"@,
            m@.usage_detail == "0.0"@,
            m@.vram_percent == 0,
            m@.memory_used == 0,
            m@.memory_total == 0,
            m@.temperature is None,
            m@.name == Seq::<char>::empty(),
            !m@.show_memory,
            !m@.show_temp,
    {
        GpuModule {
            usage_text: string_of("0"),
            usage_detail: string_of("0.0"),
            vram_percent: 0,
            memory_used: 0,
            memory_total: 0,
            temperature: None,
            name: String::new(),
            show_memory: false,
            show_temp: false,
        }
    }

    /// Set whether to show memory usage
    pub fn set_show_memory(&mut self, show: bool)
        ensures
            final(self)@ == (GpuView { show_memory: show, ..old(self)@ }),
    {
        self.show_memory = show;
    }

    /// Set whether to show temperature
    pub fn set_show_temp(&mut self, show: bool)
        ensures
            final(self)@ == (GpuView { show_temp: show, ..old(self)@ }),
    {
        self.show_temp = show;
    }

    /// Take in a reading: the use as printed without and with one decimal,
    /// the video memory (its whole percentage, used and total bytes), the
    /// temperature as printed, and the adapter's name.
    pub fn set_reading(
        &mut self,
        usage_text: String,
        usage_detail: String,
        vram_percent: u32,
        memory_used: u64,
        memory_total: u64,
        temperature: Option<String>,
        name: String,
    )
        ensures
            final(self)@ == (GpuView {
                usage_text: usage_text@,
                usage_detail: usage_detail@,
                vram_percent,
                memory_used,
                memory_total,
                temperature: opt_view(temperature),
                name: name@,
                ..old(self)@
            }),
    {
        self.usage_text = usage_text;
        self.usage_detail = usage_detail;
        self.vram_percent = vram_percent;
        self.memory_used = memory_used;
        self.memory_total = memory_total;
        self.temperature = temperature;
        self.name = name;
    }

    /// The bar text, with the use shown as asked.
    pub fn text_with(&self, show_usage: bool) -> (s: String)
        ensures
            s@ == gpu_text(self@, show_usage),
    {
        let mut s = String::new();
        if show_usage {
            let mut p = string_of("GPU ");
            push_str(&mut p, self.usage_text.as_str());
            push_str(&mut p, "%");
            push_part(&mut s, p.as_str(), "  ");
            proof {
                reveal_strlit("");
            }
        }
        if self.show_memory && self.memory_total > 0 {
            let mut p = string_of("VRAM ");
            push_dec(&mut p, self.vram_percent as u64);
            push_str(&mut p, "%");
            push_part(&mut s, p.as_str(), "  ");
        }
        match &self.temperature {
            Some(t) => {
                if self.show_temp {
                    let mut p = t.clone();
                    push_str(&mut p, "°C");
                    push_part(&mut s, p.as_str(), "  ");
                }
            },
            None => {},
        }
        s
    }

    /// The tooltip text
    pub fn tooltip_text(&self) -> (s: String)
        ensures
            s@ == gpu_tooltip(self@),
    {
        let mut s = string_of("GPU Usage: ");
        push_str(&mut s, self.usage_detail.as_str());
        push_str(&mut s, "%");
        if self.memory_total > 0 {
            push_str(&mut s, "\nVRAM: ");
            let used = format_bytes(self.memory_used);
            push_str(&mut s, used.as_str());
            push_str(&mut s, " / ");
            let total = format_bytes(self.memory_total);
            push_str(&mut s, total.as_str());
        }
        match &self.temperature {
            Some(t) => {
                push_str(&mut s, "\nTemperature: ");
                push_str(&mut s, t.as_str());
                push_str(&mut s, "°C");
            },
            None => {},
        }
        if self.name.unicode_len() > 0 {
            push_str(&mut s, "\nDevice: ");
            push_str(&mut s, self.name.as_str());
        }
        s
    }
}

impl Module for GpuModule {
    open spec fn spec_id(&self) -> Seq<char> {
        "gpu"@
    }

    fn id(&self) -> (r: &str) {
        "gpu"
    }

    fn name(&self) -> &str {
        "GPU"
    }

    open spec fn spec_refreshed(&self, before: &Self, config: ModulesConfig) -> bool {
        *self == *before
    }

    open spec fn spec_text(&self, config: ModulesConfig) -> Seq<char> {
        gpu_text(self@, config.gpu.show_usage)
    }

    open spec fn spec_tooltip(&self, r: Option<Seq<char>>) -> bool {
        r == Some(gpu_tooltip(self@))
    }

    open spec fn spec_visible(&self) -> bool {
        true
    }

    fn display_text(&self, config: &ModulesConfig) -> (s: String) {
        self.text_with(config.gpu.show_usage)
    }

    fn update(&mut self, _config: &ModulesConfig) {
    }

    fn tooltip(&self) -> (r: Option<String>) {
        Some(self.tooltip_text())
    }

    fn is_visible(&self) -> (b: bool) {
        true
    }

    fn preferred_width(&self) -> i32 {
        0
    }
}

} // verus!

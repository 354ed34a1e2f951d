//! System information module: CPU and memory use. The readings are
//! floating-point percentages, so they come in as the texts that the bar
//! prints for them; the module lays them out.

use vstd::prelude::*;
use crate::config::ModulesConfig;
use crate::modules::Module;
use crate::text::{push_str, string_of};
use crate::utils::{bytes_text, format_bytes};

verus! {

/// `acc` with `part` added after `sep` (just `part` when `acc` is empty).
pub open spec fn with_part(acc: Seq<char>, part: Seq<char>, sep: Seq<char>) -> Seq<char> {
    if acc.len() == 0 {
        part
    } else {
        acc + sep + part
    }
}

/// Appends `part` to `s`, after `sep` unless `s` is empty.
pub fn push_part(s: &mut String, part: &str, sep: &str)
    ensures
        final(s)@ == with_part(old(s)@, part@, sep@),
{
    if s.unicode_len() > 0 {
        push_str(s, sep);
    }
    push_str(s, part);
}

/// The readings of a system information module, as the bar prints them.
pub struct SystemInfoView {
    /// CPU use in percent, without decimals
    pub cpu_text: Seq<char>,
    /// Memory use in percent, without decimals
    pub memory_text: Seq<char>,
    /// CPU use in percent, with one decimal
    pub cpu_detail: Seq<char>,
    /// Memory use in percent, with one decimal
    pub memory_detail: Seq<char>,
    pub memory_used: u64,
    pub memory_total: u64,
}

/// System information module
pub struct SystemInfoModule {
    cpu_text: String,
    memory_text: String,
    cpu_detail: String,
    memory_detail: String,
    memory_used: u64,
    memory_total: u64,
}

impl View for SystemInfoModule {
    type V = SystemInfoView;

    closed spec fn view(&self) -> SystemInfoView {
        SystemInfoView {
            cpu_text: self.cpu_text@,
            memory_text: self.memory_text@,
            cpu_detail: self.cpu_detail@,
            memory_detail: self.memory_detail@,
            memory_used: self.memory_used,
            memory_total: self.memory_total,
        }
    }
}

/// The bar text: "CPU n%" and "MEM n%", each when shown, two spaces apart.
pub open spec fn system_info_text(v: SystemInfoView, show_cpu: bool, show_memory: bool) -> Seq<char> {
    let a = if show_cpu {
        "CPU "@ + v.cpu_text + "%"@
    } else {
        Seq::empty()
    };
    if show_memory {
        with_part(a, "MEM "@ + v.memory_text + "%"@, "  "@)
    } else {
        a
    }
}

/// The tooltip: CPU use, and memory used of total with its share.
pub open spec fn system_info_tooltip(v: SystemInfoView) -> Seq<char> {
    "CPU Usage: "@ + v.cpu_detail + "%\nMemory: "@ + bytes_text(v.memory_used as nat) + " / "@ + bytes_text(
        v.memory_total as nat,
    ) + " ("@ + v.memory_detail + "%)"@
}

impl SystemInfoModule {
    /// A module with no reading yet: every figure zero.
    pub fn new() -> (m: SystemInfoModule)
        ensures
            m@.cpu_text == "0"@,
            m@.memory_text == "0"@,
            m@.cpu_detail == "0.0"@,
            m@.memory_detail == "0.0"@,
            m@.memory_used == 0,
            m@.memory_total == 0,
    {
        SystemInfoModule {
            cpu_text: string_of("0"),
            memory_text: string_of("0"),
            cpu_detail: string_of("0.0"),
            memory_detail: string_of("0.0"),
            memory_used: 0,
            memory_total: 0,
        }
    }

    /// Take in a reading: the two percentages as printed without and with
    /// one decimal, and the memory used and in total, in bytes.
    pub fn set_reading(
        &mut self,
        cpu_text: String,
        memory_text: String,
        cpu_detail: String,
        memory_detail: String,
        memory_used: u64,
        memory_total: u64,
    )
        ensures
            final(self)@ == (SystemInfoView {
                cpu_text: cpu_text@,
                memory_text: memory_text@,
                cpu_detail: cpu_detail@,
                memory_detail: memory_detail@,
                memory_used,
                memory_total,
            }),
    {
        *self = SystemInfoModule { cpu_text, memory_text, cpu_detail, memory_detail, memory_used, memory_total };
    }

    /// The bar text with CPU and memory shown as asked.
    pub fn text_with(&self, show_cpu: bool, show_memory: bool) -> (s: String)
        ensures
            s@ == system_info_text(self@, show_cpu, show_memory),
    {
        let mut s = String::new();
        if show_cpu {
            let mut p = string_of("CPU ");
            push_str(&mut p, self.cpu_text.as_str());
            push_str(&mut p, "%");
            push_part(&mut s, p.as_str(), "  ");
            proof {
                reveal_strlit("");
            }
        }
        if show_memory {
            let mut p = string_of("MEM ");
            push_str(&mut p, self.memory_text.as_str());
            push_str(&mut p, "%");
            push_part(&mut s, p.as_str(), "  ");
        }
        s
    }

    /// The tooltip text
    pub fn tooltip_text(&self) -> (s: String)
        ensures
            s@ == system_info_tooltip(self@),
    {
        let mut s = string_of("CPU Usage: ");
        push_str(&mut s, self.cpu_detail.as_str());
        push_str(&mut s, "%\nMemory: ");
        let used = format_bytes(self.memory_used);
        push_str(&mut s, used.as_str());
        push_str(&mut s, " / ");
        let total = format_bytes(self.memory_total);
        push_str(&mut s, total.as_str());
        push_str(&mut s, " (");
        push_str(&mut s, self.memory_detail.as_str());
        push_str(&mut s, "%)");
        s
    }
}

impl Module for SystemInfoModule {
    open spec fn spec_id(&self) -> Seq<char> {
        "system_info"@
    }

    fn id(&self) -> (r: &str) {
        "system_info"
    }

    fn name(&self) -> &str {
        "System Info"
    }

    open spec fn spec_refreshed(&self, before: &Self, config: ModulesConfig) -> bool {
        *self == *before
    }

    open spec fn spec_text(&self, config: ModulesConfig) -> Seq<char> {
        system_info_text(self@, config.system_info.show_cpu, config.system_info.show_memory)
    }

    open spec fn spec_tooltip(&self, r: Option<Seq<char>>) -> bool {
        r == Some(system_info_tooltip(self@))
    }

    open spec fn spec_visible(&self) -> bool {
        true
    }

    fn display_text(&self, config: &ModulesConfig) -> (s: String) {
        self.text_with(config.system_info.show_cpu, config.system_info.show_memory)
    }

    fn update(&mut self, _config: &ModulesConfig) {
    }

    fn tooltip(&self) -> (r: Option<String>) {
        Some(self.tooltip_text())
    }

    fn is_visible(&self) -> (b: bool) {
        true
    }

    fn preferred_width(&self) -> i32 {
        0
    }
}

} // verus!

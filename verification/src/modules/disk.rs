//! Disk module: the usage of the system's disks, with one chosen as primary.

use vstd::prelude::*;
use crate::config::{DiskConfig, ModulesConfig};
use crate::modules::Module;
use crate::text::{chars_of, dec, has_prefix, push_dec, push_str, same_text, starts_with, string_of};
use crate::utils::{bytes_text, format_bytes};

verus! {

/// Disk usage information
#[derive(Debug, Clone)]
pub struct DiskInfo {
    pub name: String,
    pub mount_point: String,
    pub total_space: u64,
    pub available_space: u64,
    pub used_space: u64,
}

/// The disk as the system reports it: its space used is what is not
/// available, and none when more is available than the total.
pub fn disk_info(name: String, mount_point: String, total_space: u64, available_space: u64) -> (d: DiskInfo)
    ensures
        d.name@ == name@,
        d.mount_point@ == mount_point@,
        d.total_space == total_space,
        d.available_space == available_space,
        d.used_space == (if total_space >= available_space {
            (total_space - available_space) as u64
        } else {
            0u64
        }),
{
    DiskInfo { name, mount_point, total_space, available_space, used_space: total_space.saturating_sub(available_space) }
}

/// The system disk: mounted at `C:` (or below it) or at `/`.
pub open spec fn is_system_disk(d: DiskInfo) -> bool {
    has_prefix(d.mount_point@, "C:"@) || d.mount_point@ == "/"@
}

/// The disk named by a configured choice: its mount point starts with it,
/// or its name is it.
pub open spec fn is_chosen_disk(d: DiskInfo, choice: Seq<char>) -> bool {
    has_prefix(d.mount_point@, choice) || d.name@ == choice
}

/// The first system disk at or after `i`.
pub open spec fn first_system_disk(ds: Seq<DiskInfo>, i: int) -> Option<int>
    decreases ds.len() - i,
{
    if i < 0 || i >= ds.len() {
        None
    } else if is_system_disk(ds[i]) {
        Some(i)
    } else {
        first_system_disk(ds, i + 1)
    }
}

/// The first disk at or after `i` that the choice names.
pub open spec fn first_chosen_disk(ds: Seq<DiskInfo>, choice: Seq<char>, i: int) -> Option<int>
    decreases ds.len() - i,
{
    if i < 0 || i >= ds.len() {
        None
    } else if is_chosen_disk(ds[i], choice) {
        Some(i)
    } else {
        first_chosen_disk(ds, choice, i + 1)
    }
}

/// The primary disk: the first that a non-empty choice names, else the first
/// system disk, else the first disk.
pub open spec fn primary_index(ds: Seq<DiskInfo>, choice: Seq<char>) -> int {
    if choice.len() > 0 && first_chosen_disk(ds, choice, 0) is Some {
        first_chosen_disk(ds, choice, 0)->0
    } else if first_system_disk(ds, 0) is Some {
        first_system_disk(ds, 0)->0
    } else {
        0
    }
}

/// The bar text for a disk at `pct` percent used.
pub open spec fn usage_text(pct: u32) -> Seq<char> {
    "💾 "@ + dec(pct as nat) + "%"@
}

/// One line of the tooltip: the mount point (the name when there is none),
/// space used and total, and the percentage used.
pub open spec fn disk_line(d: DiskInfo, pct: u32) -> Seq<char> {
    (if d.mount_point@.len() == 0 {
        d.name@
    } else {
        d.mount_point@
    }) + " "@ + bytes_text(d.used_space as nat) + " / "@ + bytes_text(d.total_space as nat) + " ("@ + dec(
        pct as nat,
    ) + "%)"@
}

/// The lines of the first `n` disks, each after a line break.
pub open spec fn disk_lines(ds: Seq<DiskInfo>, us: Seq<u32>, n: int) -> Seq<char>
    decreases n,
{
    if n <= 0 {
        Seq::empty()
    } else {
        disk_lines(ds, us, n - 1) + "\n"@ + disk_line(ds[n - 1], us[n - 1])
    }
}

fn find_system_disk(ds: &Vec<DiskInfo>) -> (r: Option<usize>)
    ensures
        r matches Some(i) ==> first_system_disk(ds@, 0) == Some(i as int) && i < ds@.len(),
        r is None ==> first_system_disk(ds@, 0) is None,
{
    let c = chars_of("C:");
    let mut i: usize = 0;
    while i < ds.len()
        invariant
            i <= ds.len(),
            c@ == "C:"@,
            first_system_disk(ds@, 0) == first_system_disk(ds@, i as int),
        decreases ds.len() - i,
    {
        let m = chars_of(ds[i].mount_point.as_str());
        if starts_with(&m, &c) || same_text(ds[i].mount_point.as_str(), "/") {
            return Some(i);
        }
        i += 1;
    }
    None
}

fn find_chosen_disk(ds: &Vec<DiskInfo>, choice: &str) -> (r: Option<usize>)
    ensures
        r matches Some(i) ==> first_chosen_disk(ds@, choice@, 0) == Some(i as int) && i < ds@.len(),
        r is None ==> first_chosen_disk(ds@, choice@, 0) is None,
{
    let c = chars_of(choice);
    let mut i: usize = 0;
    while i < ds.len()
        invariant
            i <= ds.len(),
            c@ == choice@,
            first_chosen_disk(ds@, choice@, 0) == first_chosen_disk(ds@, choice@, i as int),
        decreases ds.len() - i,
    {
        let m = chars_of(ds[i].mount_point.as_str());
        if starts_with(&m, &c) || same_text(ds[i].name.as_str(), choice) {
            return Some(i);
        }
        i += 1;
    }
    None
}

/// The primary disk among `ds` under the configured choice (see `primary_index`).
pub fn select_primary(ds: &Vec<DiskInfo>, choice: &str) -> (r: usize)
    ensures
        r == primary_index(ds@, choice@),
        ds@.len() > 0 ==> r < ds@.len(),
{
    let base = match find_system_disk(ds) {
        Some(i) => i,
        None => 0,
    };
    if choice.unicode_len() > 0 {
        match find_chosen_disk(ds, choice) {
            Some(i) => {
                return i;
            },
            None => {},
        }
    }
    proof {
        if first_system_disk(ds@, 0) is Some {
            lemma_first_system_in_range(ds@, 0);
        }
    }
    base
}

proof fn lemma_first_system_in_range(ds: Seq<DiskInfo>, i: int)
    requires
        0 <= i,
        first_system_disk(ds, i) is Some,
    ensures
        i <= first_system_disk(ds, i)->0 < ds.len(),
    decreases ds.len() - i,
{
    if i < ds.len() && !is_system_disk(ds[i]) {
        lemma_first_system_in_range(ds, i + 1);
    }
}

fn push_disk_line(s: &mut String, d: &DiskInfo, pct: u32)
    ensures
        final(s)@ == old(s)@ + "\n"@ + disk_line(*d, pct),
{
    push_str(s, "\n");
    if d.mount_point.unicode_len() == 0 {
        push_str(s, d.name.as_str());
    } else {
        push_str(s, d.mount_point.as_str());
    }
    push_str(s, " ");
    let used = format_bytes(d.used_space);
    push_str(s, used.as_str());
    push_str(s, " / ");
    let total = format_bytes(d.total_space);
    push_str(s, total.as_str());
    push_str(s, " (");
    push_dec(s, pct as u64);
    push_str(s, "%)");
}

/// The state of a disk module.
pub struct DiskView {
    pub cached_text: Seq<char>,
    pub disks: Seq<DiskInfo>,
    pub primary: int,
    pub usage: Seq<u32>,
}

/// Disk module
pub struct DiskModule {
    cached_text: String,
    disks: Vec<DiskInfo>,
    primary_disk_index: usize,
    usage: Vec<u32>,
}

impl View for DiskModule {
    type V = DiskView;

    closed spec fn view(&self) -> DiskView {
        DiskView {
            cached_text: self.cached_text@,
            disks: self.disks@,
            primary: self.primary_disk_index as int,
            usage: self.usage@,
        }
    }
}

impl DiskModule {
    #[verifier::type_invariant]
    spec fn well_formed(self) -> bool {
        &&& self.usage@.len() == self.disks@.len()
        &&& (self.disks@.len() == 0 ==> self.primary_disk_index == 0)
        &&& (self.disks@.len() > 0 ==> self.primary_disk_index < self.disks@.len())
    }

    pub fn new() -> (m: DiskModule)
        ensures
            m@.cached_text == Seq::<char>::empty(),
            m@.disks.len() == 0,
            m@.usage.len() == 0,
            m@.primary == 0,
    {
        DiskModule { cached_text: String::new(), disks: Vec::new(), primary_disk_index: 0, usage: Vec::new() }
    }

    /// Take in the disks found and the percentage of each that is used,
    /// choose the primary disk and rebuild the bar text.
    pub fn force_update(&mut self, disks: Vec<DiskInfo>, usage: Vec<u32>, config: &DiskConfig)
        requires
            usage@.len() == disks@.len(),
        ensures
            final(self)@.disks == disks@,
            final(self)@.usage == usage@,
            final(self)@.primary == primary_index(disks@, config.primary_disk@),
            final(self)@.cached_text == (if disks@.len() == 0 {
                "💾 --"@
            } else {
                usage_text(usage@[primary_index(disks@, config.primary_disk@)])
            }),
    {
        let idx = select_primary(&disks, config.primary_disk.as_str());
        let text = if disks.len() == 0 {
            string_of("💾 --")
        } else {
            Self::usage_string(usage[idx])
        };
        *self = DiskModule { cached_text: text, disks, primary_disk_index: idx, usage };
    }

    fn usage_string(pct: u32) -> (r: String)
        ensures
            r@ == usage_text(pct),
    {
        let mut s = string_of("💾 ");
        push_dec(&mut s, pct as u64);
        push_str(&mut s, "%");
        s
    }

    /// Get primary disk usage percentage
    pub fn primary_usage_percent(&self) -> (r: u32)
        ensures
            r == (if self@.disks.len() == 0 {
                0
            } else {
                self@.usage[self@.primary]
            }),
    {
        proof {
            use_type_invariant(self);
        }
        if self.disks.len() == 0 {
            0
        } else {
            self.usage[self.primary_disk_index]
        }
    }

    /// Get all disk information
    pub fn get_disks(&self) -> (r: &[DiskInfo])
        ensures
            r@ == self@.disks,
    {
        self.disks.as_slice()
    }

    /// The text shown in the bar: empty without disks, else the primary
    /// disk's usage.
    pub fn bar_text(&self) -> (r: String)
        ensures
            r@ == (if self@.disks.len() == 0 {
                Seq::empty()
            } else {
                usage_text(self@.usage[self@.primary])
            }),
    {
        proof {
            use_type_invariant(self);
        }
        if self.disks.len() == 0 {
            String::new()
        } else {
            Self::usage_string(self.usage[self.primary_disk_index])
        }
    }

    /// The tooltip: a heading and one line per disk; none without disks.
    pub fn tooltip_text(&self) -> (r: Option<String>)
        ensures
            self@.disks.len() == 0 ==> r is None,
            self@.disks.len() > 0 ==> (r matches Some(s) && s@ == "Disk Usage:"@ + disk_lines(
                self@.disks,
                self@.usage,
                self@.disks.len() as int,
            )),
    {
        proof {
            use_type_invariant(self);
        }
        if self.disks.len() == 0 {
            return None;
        }
        let mut s = string_of("Disk Usage:");
        let mut i: usize = 0;
        while i < self.disks.len()
            invariant
                i <= self.disks@.len(),
                self.usage@.len() == self.disks@.len(),
                s@ == "Disk Usage:"@ + disk_lines(self.disks@, self.usage@, i as int),
            decreases self.disks.len() - i,
        {
            push_disk_line(&mut s, &self.disks[i], self.usage[i]);
            i += 1;
        }
        Some(s)
    }
}

impl Module for DiskModule {
    open spec fn spec_id(&self) -> Seq<char> {
        "disk"@
    }

    fn id(&self) -> (r: &str) {
        "disk"
    }

    fn name(&self) -> &str {
        "Disk Usage"
    }

    open spec fn spec_refreshed(&self, before: &Self, config: ModulesConfig) -> bool {
        *self == *before
    }

    open spec fn spec_text(&self, config: ModulesConfig) -> Seq<char> {
        if self@.disks.len() == 0 {
            Seq::empty()
        } else {
            usage_text(self@.usage[self@.primary])
        }
    }

    open spec fn spec_tooltip(&self, r: Option<Seq<char>>) -> bool {
        if self@.disks.len() == 0 {
            r is None
        } else {
            r == Some("Disk Usage:"@ + disk_lines(self@.disks, self@.usage, self@.disks.len() as int))
        }
    }

    open spec fn spec_visible(&self) -> bool {
        true
    }

    fn display_text(&self, _config: &ModulesConfig) -> (s: String) {
        self.bar_text()
    }

    fn update(&mut self, _config: &ModulesConfig) {
    }

    fn tooltip(&self) -> (r: Option<String>) {
        self.tooltip_text()
    }

    fn is_visible(&self) -> (b: bool) {
        true
    }

    fn preferred_width(&self) -> i32 {
        0
    }
}

} // verus!

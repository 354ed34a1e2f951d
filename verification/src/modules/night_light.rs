//! Night Light module: reading and writing the state stored in the system's
//! binary settings blob, and the steps of a toggle.

use vstd::prelude::*;
use crate::config::ModulesConfig;
use crate::modules::Module;
use crate::text::string_of;

verus! {

/// Night Light state
#[derive(Debug, Clone, Copy, PartialEq, Eq, Structural)]
pub enum NightLightState {
    On,
    Off,
    Unknown,
}

/// The state that a settings blob records: on when byte 18 is `0x15` or byte
/// 23 is `0x10` (in a blob longer than 23 bytes), off otherwise.
pub open spec fn decoded_state(d: Seq<u8>) -> NightLightState {
    if d.len() > 23 && (d[18] == 0x15 || d[23] == 0x10) {
        NightLightState::On
    } else {
        NightLightState::Off
    }
}

/// `256` to the power `k`.
pub open spec fn pow256(k: nat) -> nat
    decreases k,
{
    if k == 0 {
        1
    } else {
        256 * pow256((k - 1) as nat)
    }
}

/// The Windows file time (100 ns ticks since 1601) of a Unix time in seconds.
pub open spec fn file_time(now_secs: nat) -> nat {
    (now_secs + 11644473600) * 10000000
}

/// The blob after setting the state to `enable` at Unix time `now_secs`:
/// blobs of at least 43 bytes get the state bytes 18 and 23 and the
/// little-endian time stamp in bytes 10..18; shorter blobs are left alone.
pub open spec fn patched(d: Seq<u8>, enable: bool, now_secs: nat) -> Seq<u8> {
    if d.len() >= 43 {
        Seq::new(
            d.len(),
            |i: int|
                if i == 18 {
                    if enable {
                        0x15u8
                    } else {
                        0x13u8
                    }
                } else if i == 23 {
                    if enable {
                        0x10u8
                    } else {
                        0x00u8
                    }
                } else if 10 <= i < 18 {
                    ((file_time(now_secs) / pow256((i - 10) as nat)) % 256) as u8
                } else {
                    d[i]
                },
        )
    } else {
        d
    }
}

/// The target of a toggle: off when it is on, on otherwise.
pub open spec fn toggle_target_of(current: NightLightState) -> bool {
    current != NightLightState::On
}

/// The state read back after a change matches the target.
pub open spec fn applied_state(target: bool, after: NightLightState) -> bool {
    (target && after == NightLightState::On) || (!target && after == NightLightState::Off)
}

/// Writing a state into a full-size blob and reading it back gives that state.
pub proof fn lemma_patch_round_trip(d: Seq<u8>, enable: bool, now_secs: nat)
    requires
        d.len() >= 43,
    ensures
        decoded_state(patched(d, enable, now_secs)) == (if enable {
            NightLightState::On
        } else {
            NightLightState::Off
        }),
        applied_state(enable, decoded_state(patched(d, enable, now_secs))),
{
    let p = patched(d, enable, now_secs);
    assert(p[18] == (if enable { 0x15u8 } else { 0x13u8 }));
    assert(p[23] == (if enable { 0x10u8 } else { 0x00u8 }));
}

/// Toggling targets the opposite of a known state.
pub proof fn lemma_toggle_target_flips(current: NightLightState)
    requires
        current != NightLightState::Unknown,
    ensures
        applied_state(toggle_target_of(current), current) == false,
{
}

/// The step a toggle asks for next.
#[derive(Debug, Clone, Copy, PartialEq, Eq, Structural)]
pub enum ToggleAction {
    /// Write the target state into the settings blob
    WriteRegistry(bool),
    /// Wait this many milliseconds, then read the state back
    ReadBack(u64),
    /// Run the settings-page automation script
    RunScript,
    /// Open the Night Light settings page; the toggle did not apply
    OpenSettings,
    /// Finished; whether the target state was reached
    Done(bool),
}

/// What the step before produced.
#[derive(Debug, Clone, Copy, PartialEq, Eq, Structural)]
pub enum ToggleEvent {
    /// The state when the toggle began (`None`: unreadable)
    Started(Option<NightLightState>),
    /// Whether the blob was written
    Written(bool),
    /// The state read back (`None`: unreadable)
    ReadBack(Option<NightLightState>),
    /// Whether the script reported success
    ScriptRan(bool),
}

/// Where a toggle stands.
#[derive(Debug, Clone, Copy, PartialEq, Eq, Structural)]
pub enum TogglePhase {
    Begin,
    Writing,
    CheckingWrite,
    Scripting,
    CheckingScript,
    Finished,
}

/// A toggle in progress: the target state and the phase.
#[derive(Debug, Clone, Copy, PartialEq, Eq, Structural)]
pub struct NightLightToggle {
    pub target: bool,
    pub phase: TogglePhase,
}

/// An optional state read, unknown when unreadable.
pub open spec fn or_unknown(s: Option<NightLightState>) -> NightLightState {
    match s {
        Some(x) => x,
        None => NightLightState::Unknown,
    }
}

/// The next toggle and the step it asks for, given what the last step produced.
pub open spec fn toggle_step(t: NightLightToggle, e: ToggleEvent) -> (NightLightToggle, ToggleAction) {
    match (t.phase, e) {
        (TogglePhase::Begin, ToggleEvent::Started(cur)) => {
            let target = toggle_target_of(or_unknown(cur));
            (NightLightToggle { target, phase: TogglePhase::Writing }, ToggleAction::WriteRegistry(target))
        },
        (TogglePhase::Writing, ToggleEvent::Written(ok)) => if ok {
            (NightLightToggle { phase: TogglePhase::CheckingWrite, ..t }, ToggleAction::ReadBack(400))
        } else {
            (NightLightToggle { phase: TogglePhase::Scripting, ..t }, ToggleAction::RunScript)
        },
        (TogglePhase::CheckingWrite, ToggleEvent::ReadBack(after)) => if applied_state(t.target, or_unknown(after)) {
            (NightLightToggle { phase: TogglePhase::Finished, ..t }, ToggleAction::Done(true))
        } else {
            (NightLightToggle { phase: TogglePhase::Scripting, ..t }, ToggleAction::RunScript)
        },
        (TogglePhase::Scripting, ToggleEvent::ScriptRan(ok)) => if ok {
            (NightLightToggle { phase: TogglePhase::CheckingScript, ..t }, ToggleAction::ReadBack(700))
        } else {
            (NightLightToggle { phase: TogglePhase::Finished, ..t }, ToggleAction::OpenSettings)
        },
        (TogglePhase::CheckingScript, ToggleEvent::ReadBack(after)) => if applied_state(t.target, or_unknown(after)) {
            (NightLightToggle { phase: TogglePhase::Finished, ..t }, ToggleAction::Done(true))
        } else {
            (NightLightToggle { phase: TogglePhase::Finished, ..t }, ToggleAction::OpenSettings)
        },
        _ => (NightLightToggle { phase: TogglePhase::Finished, ..t }, ToggleAction::Done(false)),
    }
}

/// A toggle reports success only on reading back the state it aimed for,
/// and a finished toggle stays finished without success.
pub proof fn lemma_toggle_success_is_applied(t: NightLightToggle, e: ToggleEvent)
    ensures
        toggle_step(t, e).1 == ToggleAction::Done(true) ==> (e matches ToggleEvent::ReadBack(after) && applied_state(
            t.target,
            or_unknown(after),
        )),
        t.phase == TogglePhase::Finished ==> toggle_step(t, e) == (t, ToggleAction::Done(false)),
        toggle_step(t, e).0.phase != TogglePhase::Begin,
{
}

impl NightLightToggle {
    /// A toggle that has not started.
    pub fn new() -> (t: NightLightToggle)
        ensures
            t.phase == TogglePhase::Begin,
            t.target,
    {
        NightLightToggle { target: true, phase: TogglePhase::Begin }
    }

    /// Advance with what the last step produced; returns the next step.
    pub fn step(&mut self, e: ToggleEvent) -> (a: ToggleAction)
        ensures
            (*final(self), a) == toggle_step(*old(self), e),
    {
        match (self.phase, e) {
            (TogglePhase::Begin, ToggleEvent::Started(cur)) => {
                let current = match cur {
                    Some(x) => x,
                    None => NightLightState::Unknown,
                };
                let target = NightLightModule::toggle_target(current);
                *self = NightLightToggle { target, phase: TogglePhase::Writing };
                ToggleAction::WriteRegistry(target)
            },
            (TogglePhase::Writing, ToggleEvent::Written(ok)) => {
                if ok {
                    self.phase = TogglePhase::CheckingWrite;
                    ToggleAction::ReadBack(400)
                } else {
                    self.phase = TogglePhase::Scripting;
                    ToggleAction::RunScript
                }
            },
            (TogglePhase::CheckingWrite, ToggleEvent::ReadBack(after)) => {
                if NightLightModule::is_applied(self.target, after) {
                    self.phase = TogglePhase::Finished;
                    ToggleAction::Done(true)
                } else {
                    self.phase = TogglePhase::Scripting;
                    ToggleAction::RunScript
                }
            },
            (TogglePhase::Scripting, ToggleEvent::ScriptRan(ok)) => {
                if ok {
                    self.phase = TogglePhase::CheckingScript;
                    ToggleAction::ReadBack(700)
                } else {
                    self.phase = TogglePhase::Finished;
                    ToggleAction::OpenSettings
                }
            },
            (TogglePhase::CheckingScript, ToggleEvent::ReadBack(after)) => {
                self.phase = TogglePhase::Finished;
                if NightLightModule::is_applied(self.target, after) {
                    ToggleAction::Done(true)
                } else {
                    ToggleAction::OpenSettings
                }
            },
            _ => {
                self.phase = TogglePhase::Finished;
                ToggleAction::Done(false)
            },
        }
    }
}

/// Night Light module
pub struct NightLightModule {
    state: NightLightState,
}

impl View for NightLightModule {
    type V = NightLightState;

    closed spec fn view(&self) -> NightLightState {
        self.state
    }
}

impl NightLightModule {
    pub fn new() -> (m: NightLightModule)
        ensures
            m@ == NightLightState::Unknown,
    {
        NightLightModule { state: NightLightState::Unknown }
    }

    /// The state recorded in a settings blob (`None` when it could not be read or is empty).
    pub fn read_night_light_state(data: Option<&[u8]>) -> (r: Option<NightLightState>)
        ensures
            r == (match data {
                Some(d) => if d@.len() == 0 {
                    None
                } else {
                    Some(decoded_state(d@))
                },
                None => None,
            }),
    {
        match data {
            None => None,
            Some(d) => {
                if d.len() == 0 {
                    None
                } else if d.len() > 23 && (d[18] == 0x15 || d[23] == 0x10) {
                    Some(NightLightState::On)
                } else {
                    Some(NightLightState::Off)
                }
            },
        }
    }

    /// Re-read the state from the settings blob
    pub fn refresh(&mut self, data: Option<&[u8]>)
        ensures
            final(self)@ == or_unknown(NightLightModule::read_spec(data)),
    {
        self.state = match Self::read_night_light_state(data) {
            Some(s) => s,
            None => NightLightState::Unknown,
        };
    }

    /// What `read_night_light_state` gives.
    pub open spec fn read_spec(data: Option<&[u8]>) -> Option<NightLightState> {
        match data {
            Some(d) => if d@.len() == 0 {
                None
            } else {
                Some(decoded_state(d@))
            },
            None => None,
        }
    }

    /// Get the current state
    pub fn state(&self) -> (s: NightLightState)
        ensures
            s == self@,
    {
        self.state
    }

    /// The target of a toggle from `current`
    pub fn toggle_target(current: NightLightState) -> (b: bool)
        ensures
            b == toggle_target_of(current),
    {
        match current {
            NightLightState::On => false,
            NightLightState::Off => true,
            NightLightState::Unknown => true,
        }
    }

    /// Whether the state read back shows the target
    pub fn is_applied(target: bool, after: Option<NightLightState>) -> (b: bool)
        ensures
            b == applied_state(target, or_unknown(after)),
    {
        let a = match after {
            Some(x) => x,
            None => NightLightState::Unknown,
        };
        (target && a == NightLightState::On) || (!target && a == NightLightState::Off)
    }

    /// Set the state in a settings blob, stamping it with the time.
    pub fn set_night_light_enabled(data: &mut Vec<u8>, enable: bool, now_secs: u64)
        requires
            file_time(now_secs as nat) <= u64::MAX,
        ensures
            final(data)@ == patched(old(data)@, enable, now_secs as nat),
    {
        if data.len() >= 43 {
            if enable {
                data.set(18, 0x15);
                data.set(23, 0x10);
            } else {
                data.set(18, 0x13);
                data.set(23, 0x00);
            }
            let filetime = (now_secs + 11644473600) * 10000000;
            let mut x: u64 = filetime;
            let mut k: usize = 0;
            let ghost d0 = old(data)@;
            let ghost ft = filetime as nat;
            assert(pow256(0) == 1);
            assert(ft / 1 == ft);
            while k < 8
                invariant
                    k <= 8,
                    data@.len() == d0.len(),
                    d0.len() >= 43,
                    ft == file_time(now_secs as nat),
                    x as nat == ft / pow256(k as nat),
                    data@[18] == (if enable { 0x15u8 } else { 0x13u8 }),
                    data@[23] == (if enable { 0x10u8 } else { 0x00u8 }),
                    forall|i: int|
                        0 <= i < data@.len() && i != 18 && i != 23 && !(10 <= i < 10 + k) ==> data@[i] == d0[i],
                    forall|i: int| 10 <= i < 10 + k ==> data@[i] == ((ft / pow256((i - 10) as nat)) % 256) as u8,
                decreases 8 - k,
            {
                data.set(10 + k, (x % 256) as u8);
                proof {
                    assert(pow256((k + 1) as nat) == 256 * pow256(k as nat));
                    lemma_pow256_pos(k as nat);
                    vstd::arithmetic::div_mod::lemma_div_denominator(ft as int, pow256(k as nat) as int, 256);
                }
                x = x / 256;
                k += 1;
            }
            proof {
                assert(data@ == patched(d0, enable, now_secs as nat));
            }
        }
    }

    /// The glyph shown in the bar
    pub fn bar_text(&self) -> (s: String)
        ensures
            s@ == (match self@ {
                NightLightState::On => "🌙"@,
                NightLightState::Off => "☀"@,
                NightLightState::Unknown => "🌓"@,
            }),
    {
        match self.state {
            NightLightState::On => string_of("🌙"),
            NightLightState::Off => string_of("☀"),
            NightLightState::Unknown => string_of("🌓"),
        }
    }

    /// The tooltip text
    pub fn tooltip_text(&self) -> (s: String)
        ensures
            s@ == night_light_tooltip(self@),
    {
        let mut s = string_of("Night Light: ");
        let w = match self.state {
            NightLightState::On => "ON",
            NightLightState::Off => "OFF",
            NightLightState::Unknown => "Unknown",
        };
        crate::text::push_str(&mut s, w);
        crate::text::push_str(&mut s, "\nClick to toggle\nRight-click for settings");
        s
    }
}

proof fn lemma_pow256_pos(k: nat)
    ensures
        pow256(k) >= 1,
    decreases k,
{
    if k > 0 {
        lemma_pow256_pos((k - 1) as nat);
    }
}

/// The tooltip: the state and what a click and a right click do.
pub open spec fn night_light_tooltip(st: NightLightState) -> Seq<char> {
    "Night Light: "@ + (match st {
        NightLightState::On => "ON"@,
        NightLightState::Off => "OFF"@,
        NightLightState::Unknown => "Unknown"@,
    }) + "\nClick to toggle\nRight-click for settings"@
}

impl Module for NightLightModule {
    open spec fn spec_id(&self) -> Seq<char> {
        "night_light"@
    }

    fn id(&self) -> (r: &str) {
        "night_light"
    }

    fn name(&self) -> &str {
        "Night Light"
    }

    open spec fn spec_refreshed(&self, before: &Self, config: ModulesConfig) -> bool {
        *self == *before
    }

    open spec fn spec_text(&self, config: ModulesConfig) -> Seq<char> {
        match self@ {
            NightLightState::On => "🌙"@,
            NightLightState::Off => "☀"@,
            NightLightState::Unknown => "🌓"@,
        }
    }

    open spec fn spec_tooltip(&self, r: Option<Seq<char>>) -> bool {
        r == Some(night_light_tooltip(self@))
    }

    open spec fn spec_visible(&self) -> bool {
        true
    }

    fn display_text(&self, _config: &ModulesConfig) -> (s: String) {
        self.bar_text()
    }

    fn update(&mut self, _config: &ModulesConfig) {
    }

    fn tooltip(&self) -> (r: Option<String>) {
        Some(self.tooltip_text())
    }

    fn is_visible(&self) -> (b: bool) {
        true
    }

    fn preferred_width(&self) -> i32 {
        0
    }
}

} // verus!

//! The modules that the bar shows, as one type, so that a registry can
//! hold them together.

use vstd::prelude::*;
use crate::config::ModulesConfig;
use crate::modules::Module;
use crate::modules::clock::ClockModule;
use crate::modules::system_info::SystemInfoModule;
use crate::modules::battery::BatteryModule;
use crate::modules::network::NetworkModule;
use crate::modules::volume::VolumeModule;
use crate::modules::app_menu::AppMenuModule;
use crate::modules::active_window::ActiveWindowModule;
use crate::modules::media::MediaModule;
use crate::modules::gpu::GpuModule;
use crate::modules::keyboard_layout::KeyboardLayoutModule;
use crate::modules::uptime::UptimeModule;
use crate::modules::bluetooth::BluetoothModule;
use crate::modules::disk::DiskModule;

verus! {

/// One of the bar's modules.
pub enum BarModule {
    Clock(ClockModule),
    SystemInfo(SystemInfoModule),
    Battery(BatteryModule),
    Network(NetworkModule),
    Volume(VolumeModule),
    AppMenu(AppMenuModule),
    ActiveWindow(ActiveWindowModule),
    Media(MediaModule),
    Gpu(GpuModule),
    KeyboardLayout(KeyboardLayoutModule),
    Uptime(UptimeModule),
    Bluetooth(BluetoothModule),
    Disk(DiskModule),
}

impl Module for BarModule {
    open spec fn spec_id(&self) -> Seq<char> {
        match self {
            BarModule::Clock(m) => Module::spec_id(m),
            BarModule::SystemInfo(m) => Module::spec_id(m),
            BarModule::Battery(m) => Module::spec_id(m),
            BarModule::Network(m) => Module::spec_id(m),
            BarModule::Volume(m) => Module::spec_id(m),
            BarModule::AppMenu(m) => Module::spec_id(m),
            BarModule::ActiveWindow(m) => Module::spec_id(m),
            BarModule::Media(m) => Module::spec_id(m),
            BarModule::Gpu(m) => Module::spec_id(m),
            BarModule::KeyboardLayout(m) => Module::spec_id(m),
            BarModule::Uptime(m) => Module::spec_id(m),
            BarModule::Bluetooth(m) => Module::spec_id(m),
            BarModule::Disk(m) => Module::spec_id(m),
        }
    }

    fn id(&self) -> (r: &str) {
        match self {
            BarModule::Clock(m) => m.id(),
            BarModule::SystemInfo(m) => m.id(),
            BarModule::Battery(m) => m.id(),
            BarModule::Network(m) => m.id(),
            BarModule::Volume(m) => m.id(),
            BarModule::AppMenu(m) => m.id(),
            BarModule::ActiveWindow(m) => m.id(),
            BarModule::Media(m) => m.id(),
            BarModule::Gpu(m) => m.id(),
            BarModule::KeyboardLayout(m) => m.id(),
            BarModule::Uptime(m) => m.id(),
            BarModule::Bluetooth(m) => m.id(),
            BarModule::Disk(m) => m.id(),
        }
    }

    fn name(&self) -> &str {
        match self {
            BarModule::Clock(m) => m.name(),
            BarModule::SystemInfo(m) => m.name(),
            BarModule::Battery(m) => m.name(),
            BarModule::Network(m) => m.name(),
            BarModule::Volume(m) => m.name(),
            BarModule::AppMenu(m) => m.name(),
            BarModule::ActiveWindow(m) => m.name(),
            BarModule::Media(m) => m.name(),
            BarModule::Gpu(m) => m.name(),
            BarModule::KeyboardLayout(m) => m.name(),
            BarModule::Uptime(m) => m.name(),
            BarModule::Bluetooth(m) => m.name(),
            BarModule::Disk(m) => m.name(),
        }
    }

    open spec fn spec_refreshed(&self, before: &Self, config: ModulesConfig) -> bool {
        match (self, before) {
            (BarModule::Clock(m), BarModule::Clock(b)) => Module::spec_refreshed(m, b, config),
            (BarModule::SystemInfo(m), BarModule::SystemInfo(b)) => Module::spec_refreshed(m, b, config),
            (BarModule::Battery(m), BarModule::Battery(b)) => Module::spec_refreshed(m, b, config),
            (BarModule::Network(m), BarModule::Network(b)) => Module::spec_refreshed(m, b, config),
            (BarModule::Volume(m), BarModule::Volume(b)) => Module::spec_refreshed(m, b, config),
            (BarModule::AppMenu(m), BarModule::AppMenu(b)) => Module::spec_refreshed(m, b, config),
            (BarModule::ActiveWindow(m), BarModule::ActiveWindow(b)) => Module::spec_refreshed(m, b, config),
            (BarModule::Media(m), BarModule::Media(b)) => Module::spec_refreshed(m, b, config),
            (BarModule::Gpu(m), BarModule::Gpu(b)) => Module::spec_refreshed(m, b, config),
            (BarModule::KeyboardLayout(m), BarModule::KeyboardLayout(b)) => Module::spec_refreshed(m, b, config),
            (BarModule::Uptime(m), BarModule::Uptime(b)) => Module::spec_refreshed(m, b, config),
            (BarModule::Bluetooth(m), BarModule::Bluetooth(b)) => Module::spec_refreshed(m, b, config),
            (BarModule::Disk(m), BarModule::Disk(b)) => Module::spec_refreshed(m, b, config),
            _ => false,
        }
    }

    open spec fn spec_text(&self, config: ModulesConfig) -> Seq<char> {
        match self {
            BarModule::Clock(m) => Module::spec_text(m, config),
            BarModule::SystemInfo(m) => Module::spec_text(m, config),
            BarModule::Battery(m) => Module::spec_text(m, config),
            BarModule::Network(m) => Module::spec_text(m, config),
            BarModule::Volume(m) => Module::spec_text(m, config),
            BarModule::AppMenu(m) => Module::spec_text(m, config),
            BarModule::ActiveWindow(m) => Module::spec_text(m, config),
            BarModule::Media(m) => Module::spec_text(m, config),
            BarModule::Gpu(m) => Module::spec_text(m, config),
            BarModule::KeyboardLayout(m) => Module::spec_text(m, config),
            BarModule::Uptime(m) => Module::spec_text(m, config),
            BarModule::Bluetooth(m) => Module::spec_text(m, config),
            BarModule::Disk(m) => Module::spec_text(m, config),
        }
    }

    open spec fn spec_tooltip(&self, r: Option<Seq<char>>) -> bool {
        match self {
            BarModule::Clock(m) => Module::spec_tooltip(m, r),
            BarModule::SystemInfo(m) => Module::spec_tooltip(m, r),
            BarModule::Battery(m) => Module::spec_tooltip(m, r),
            BarModule::Network(m) => Module::spec_tooltip(m, r),
            BarModule::Volume(m) => Module::spec_tooltip(m, r),
            BarModule::AppMenu(m) => Module::spec_tooltip(m, r),
            BarModule::ActiveWindow(m) => Module::spec_tooltip(m, r),
            BarModule::Media(m) => Module::spec_tooltip(m, r),
            BarModule::Gpu(m) => Module::spec_tooltip(m, r),
            BarModule::KeyboardLayout(m) => Module::spec_tooltip(m, r),
            BarModule::Uptime(m) => Module::spec_tooltip(m, r),
            BarModule::Bluetooth(m) => Module::spec_tooltip(m, r),
            BarModule::Disk(m) => Module::spec_tooltip(m, r),
        }
    }

    open spec fn spec_visible(&self) -> bool {
        match self {
            BarModule::Clock(m) => Module::spec_visible(m),
            BarModule::SystemInfo(m) => Module::spec_visible(m),
            BarModule::Battery(m) => Module::spec_visible(m),
            BarModule::Network(m) => Module::spec_visible(m),
            BarModule::Volume(m) => Module::spec_visible(m),
            BarModule::AppMenu(m) => Module::spec_visible(m),
            BarModule::ActiveWindow(m) => Module::spec_visible(m),
            BarModule::Media(m) => Module::spec_visible(m),
            BarModule::Gpu(m) => Module::spec_visible(m),
            BarModule::KeyboardLayout(m) => Module::spec_visible(m),
            BarModule::Uptime(m) => Module::spec_visible(m),
            BarModule::Bluetooth(m) => Module::spec_visible(m),
            BarModule::Disk(m) => Module::spec_visible(m),
        }
    }

    fn display_text(&self, config: &ModulesConfig) -> (s: String) {
        match self {
            BarModule::Clock(m) => m.display_text(config),
            BarModule::SystemInfo(m) => m.display_text(config),
            BarModule::Battery(m) => m.display_text(config),
            BarModule::Network(m) => m.display_text(config),
            BarModule::Volume(m) => m.display_text(config),
            BarModule::AppMenu(m) => m.display_text(config),
            BarModule::ActiveWindow(m) => m.display_text(config),
            BarModule::Media(m) => m.display_text(config),
            BarModule::Gpu(m) => m.display_text(config),
            BarModule::KeyboardLayout(m) => m.display_text(config),
            BarModule::Uptime(m) => m.display_text(config),
            BarModule::Bluetooth(m) => m.display_text(config),
            BarModule::Disk(m) => m.display_text(config),
        }
    }

    fn update(&mut self, config: &ModulesConfig) {
        match self {
            BarModule::Clock(m) => m.update(config),
            BarModule::SystemInfo(m) => m.update(config),
            BarModule::Battery(m) => m.update(config),
            BarModule::Network(m) => m.update(config),
            BarModule::Volume(m) => m.update(config),
            BarModule::AppMenu(m) => m.update(config),
            BarModule::ActiveWindow(m) => m.update(config),
            BarModule::Media(m) => m.update(config),
            BarModule::Gpu(m) => m.update(config),
            BarModule::KeyboardLayout(m) => m.update(config),
            BarModule::Uptime(m) => m.update(config),
            BarModule::Bluetooth(m) => m.update(config),
            BarModule::Disk(m) => m.update(config),
        }
    }

    fn tooltip(&self) -> (r: Option<String>) {
        match self {
            BarModule::Clock(m) => m.tooltip(),
            BarModule::SystemInfo(m) => m.tooltip(),
            BarModule::Battery(m) => m.tooltip(),
            BarModule::Network(m) => m.tooltip(),
            BarModule::Volume(m) => m.tooltip(),
            BarModule::AppMenu(m) => m.tooltip(),
            BarModule::ActiveWindow(m) => m.tooltip(),
            BarModule::Media(m) => m.tooltip(),
            BarModule::Gpu(m) => m.tooltip(),
            BarModule::KeyboardLayout(m) => m.tooltip(),
            BarModule::Uptime(m) => m.tooltip(),
            BarModule::Bluetooth(m) => m.tooltip(),
            BarModule::Disk(m) => m.tooltip(),
        }
    }

    fn is_visible(&self) -> (b: bool) {
        match self {
            BarModule::Clock(m) => m.is_visible(),
            BarModule::SystemInfo(m) => m.is_visible(),
            BarModule::Battery(m) => m.is_visible(),
            BarModule::Network(m) => m.is_visible(),
            BarModule::Volume(m) => m.is_visible(),
            BarModule::AppMenu(m) => m.is_visible(),
            BarModule::ActiveWindow(m) => m.is_visible(),
            BarModule::Media(m) => m.is_visible(),
            BarModule::Gpu(m) => m.is_visible(),
            BarModule::KeyboardLayout(m) => m.is_visible(),
            BarModule::Uptime(m) => m.is_visible(),
            BarModule::Bluetooth(m) => m.is_visible(),
            BarModule::Disk(m) => m.is_visible(),
        }
    }

    fn preferred_width(&self) -> i32 {
        match self {
            BarModule::Clock(m) => m.preferred_width(),
            BarModule::SystemInfo(m) => m.preferred_width(),
            BarModule::Battery(m) => m.preferred_width(),
            BarModule::Network(m) => m.preferred_width(),
            BarModule::Volume(m) => m.preferred_width(),
            BarModule::AppMenu(m) => m.preferred_width(),
            BarModule::ActiveWindow(m) => m.preferred_width(),
            BarModule::Media(m) => m.preferred_width(),
            BarModule::Gpu(m) => m.preferred_width(),
            BarModule::KeyboardLayout(m) => m.preferred_width(),
            BarModule::Uptime(m) => m.preferred_width(),
            BarModule::Bluetooth(m) => m.preferred_width(),
            BarModule::Disk(m) => m.preferred_width(),
        }
    }
}

} // verus!

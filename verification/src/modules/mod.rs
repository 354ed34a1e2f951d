//! Module system: the components shown in the bar, and the registry that
//! keeps them by id and orders them on the left, in the center and on the right.

pub mod active_window;
pub mod app_menu;
pub mod bar;
pub mod battery;
pub mod bluetooth;
pub mod clipboard;
pub mod clock;
pub mod disk;
pub mod keyboard_layout;
pub mod media;
pub mod network;
pub mod night_light;
pub mod system_info;
pub mod gpu;
pub mod uptime;
pub mod volume;
pub mod weather;

use vstd::prelude::*;
use crate::config::{views, push_string, ModulesConfig};
use crate::modules::network::opt_view;
use crate::modules::bar::BarModule;
use crate::modules::clock::ClockModule;
use crate::modules::system_info::SystemInfoModule;
use crate::modules::battery::BatteryModule;
use crate::modules::network::NetworkModule;
use crate::modules::volume::VolumeModule;
use crate::modules::app_menu::AppMenuModule;
use crate::modules::active_window::ActiveWindowModule;
use crate::modules::media::MediaModule;
use crate::modules::gpu::GpuModule;
use crate::modules::keyboard_layout::KeyboardLayoutModule;
use crate::modules::uptime::UptimeModule;
use crate::modules::bluetooth::BluetoothModule;
use crate::modules::disk::DiskModule;


verus! {

/// Trait for all topbar modules
pub trait Module {
    /// The module's identifier as characters.
    spec fn spec_id(&self) -> Seq<char>;

    /// Unique identifier for the module
    fn id(&self) -> (r: &str)
        ensures
            r@ == self.spec_id(),
    ;

    /// Display name for the module
    fn name(&self) -> &str;

    /// The text shown in the bar under `config`.
    spec fn spec_text(&self, config: ModulesConfig) -> Seq<char>;

    /// Get the current display text
    fn display_text(&self, config: &ModulesConfig) -> (s: String)
        ensures
            s@ == self.spec_text(*config),
    ;

    /// Whether `self` is what `update` makes of `before` under `config`.
    spec fn spec_refreshed(&self, before: &Self, config: ModulesConfig) -> bool;

    /// Refresh the module's cached state from what it last observed
    fn update(&mut self, config: &ModulesConfig)
        ensures
            final(self).spec_id() == old(self).spec_id(),
            final(self).spec_refreshed(&*old(self), *config),
    ;

    /// Whether `r` is a tooltip that the module gives.
    spec fn spec_tooltip(&self, r: Option<Seq<char>>) -> bool;

    /// Get tooltip text
    fn tooltip(&self) -> (r: Option<String>)
        ensures
            self.spec_tooltip(opt_view(r)),
    ;

    /// Whether the module should be visible.
    spec fn spec_visible(&self) -> bool;

    /// Whether the module should be visible
    fn is_visible(&self) -> (b: bool)
        ensures
            b == self.spec_visible(),
    ;

    /// Get preferred width (0 for auto)
    fn preferred_width(&self) -> i32;
}

/// The first position of `id` in `ids` from `i` on (`ids.len()` if none).
pub open spec fn pos_from(ids: Seq<Seq<char>>, id: Seq<char>, i: int) -> int
    decreases ids.len() - i,
{
    if i < 0 || i >= ids.len() {
        ids.len() as int
    } else if ids[i] == id {
        i
    } else {
        pos_from(ids, id, i + 1)
    }
}

/// The position of `id` in `ids` (`ids.len()` if absent).
pub open spec fn key_pos(ids: Seq<Seq<char>>, id: Seq<char>) -> int {
    pos_from(ids, id, 0)
}

/// The modules that `order` names, in that order, skipping the ids under
/// which nothing is registered (`ids[i]` is the id of `ms[i]`).
pub open spec fn resolved<M>(order: Seq<Seq<char>>, ids: Seq<Seq<char>>, ms: Seq<M>) -> Seq<M>
    decreases order.len(),
{
    if order.len() == 0 {
        Seq::empty()
    } else {
        let rest = resolved(order.drop_last(), ids, ms);
        if ids.contains(order.last()) {
            rest.push(ms[key_pos(ids, order.last())])
        } else {
            rest
        }
    }
}

proof fn lemma_pos_from(ids: Seq<Seq<char>>, id: Seq<char>, i: int)
    requires
        0 <= i <= ids.len(),
    ensures
        i <= pos_from(ids, id, i) <= ids.len(),
        pos_from(ids, id, i) < ids.len() ==> ids[pos_from(ids, id, i)] == id,
        forall|j: int| i <= j < pos_from(ids, id, i) ==> #[trigger] ids[j] != id,
    decreases ids.len() - i,
{
    if i < ids.len() && ids[i] != id {
        lemma_pos_from(ids, id, i + 1);
    }
}

/// Where `id` occurs in `ids`, `key_pos` finds it.
proof fn lemma_key_pos(ids: Seq<Seq<char>>, id: Seq<char>)
    ensures
        0 <= key_pos(ids, id) <= ids.len(),
        ids.contains(id) <==> key_pos(ids, id) < ids.len(),
        key_pos(ids, id) < ids.len() ==> ids[key_pos(ids, id)] == id,
{
    lemma_pos_from(ids, id, 0);
    if ids.contains(id) {
        let j = choose|j: int| 0 <= j < ids.len() && ids[j] == id;
        assert(ids[j] == id);
    }
}

/// The ids after a module is registered under `k`: unchanged when `k` is
/// registered, else with `k` added at the end.
pub open spec fn ids_after_register(ids: Seq<Seq<char>>, k: Seq<char>) -> Seq<Seq<char>> {
    if ids.contains(k) {
        ids
    } else {
        ids.push(k)
    }
}

/// The modules after `m` is registered: it replaces the module registered
/// under its id, or is added at the end.
pub open spec fn modules_after_register<M: Module>(ids: Seq<Seq<char>>, ms: Seq<M>, m: M) -> Seq<M> {
    if ids.contains(m.spec_id()) {
        ms.update(key_pos(ids, m.spec_id()), m)
    } else {
        ms.push(m)
    }
}

/// The default left-hand order of the registry.
pub open spec fn default_left_order() -> Seq<Seq<char>> {
    seq!["app_menu"@, "active_window"@]
}

/// The default right-hand order of the registry.
pub open spec fn default_right_order() -> Seq<Seq<char>> {
    seq![
        "media"@,
        "keyboard_layout"@,
        "gpu"@,
        "system_info"@,
        "disk"@,
        "network"@,
        "bluetooth"@,
        "volume"@,
        "battery"@,
        "uptime"@,
        "clock"@,
    ]
}

/// Registry for managing modules: each is kept under the id it had when
/// it was registered.
pub struct ModuleRegistry<M: Module> {
    ids: Vec<String>,
    modules: Vec<M>,
    order_left: Vec<String>,
    order_center: Vec<String>,
    order_right: Vec<String>,
}

impl<M: Module> ModuleRegistry<M> {
    #[verifier::type_invariant]
    spec fn keyed(self) -> bool {
        &&& self.ids@.len() == self.modules@.len()
        &&& forall|i: int, j: int|
            0 <= i < self.ids@.len() && 0 <= j < self.ids@.len() && i != j ==> #[trigger] self.ids@[i]@
                != #[trigger] self.ids@[j]@
    }

    /// The ids under which modules are registered, in registration order.
    pub closed spec fn spec_ids(self) -> Seq<Seq<char>> {
        views(self.ids@)
    }

    /// The registered modules, in registration order (`spec_ids()[i]` is
    /// the id of `spec_modules()[i]`).
    pub closed spec fn spec_modules(self) -> Seq<M> {
        self.modules@
    }

    /// The left-hand order of ids.
    pub closed spec fn spec_left(self) -> Seq<Seq<char>> {
        views(self.order_left@)
    }

    /// The center order of ids.
    pub closed spec fn spec_center(self) -> Seq<Seq<char>> {
        views(self.order_center@)
    }

    /// The right-hand order of ids.
    pub closed spec fn spec_right(self) -> Seq<Seq<char>> {
        views(self.order_right@)
    }

    /// The module registered under `id` (meaningful when `id` is registered).
    pub open spec fn module_at(self, id: Seq<char>) -> M {
        self.spec_modules()[key_pos(self.spec_ids(), id)]
    }

    /// A registry with the default orders and no module; modules are added
    /// with `register`.
    pub fn empty() -> (r: ModuleRegistry<M>)
        ensures
            r.spec_ids().len() == 0,
            r.spec_modules().len() == 0,
            r.spec_left() == default_left_order(),
            r.spec_center() == Seq::<Seq<char>>::empty(),
            r.spec_right() == default_right_order(),
    {
        let mut left: Vec<String> = Vec::new();
        push_string(&mut left, "app_menu");
        push_string(&mut left, "active_window");
        let mut right: Vec<String> = Vec::new();
        push_string(&mut right, "media");
        push_string(&mut right, "keyboard_layout");
        push_string(&mut right, "gpu");
        push_string(&mut right, "system_info");
        push_string(&mut right, "disk");
        push_string(&mut right, "network");
        push_string(&mut right, "bluetooth");
        push_string(&mut right, "volume");
        push_string(&mut right, "battery");
        push_string(&mut right, "uptime");
        push_string(&mut right, "clock");
        let center: Vec<String> = Vec::new();
        let ids: Vec<String> = Vec::new();
        assert(views(center@) == Seq::<Seq<char>>::empty());
        assert(views(ids@) == Seq::<Seq<char>>::empty());
        ModuleRegistry { ids, modules: Vec::new(), order_left: left, order_center: center, order_right: right }
    }

    /// Position of the id `id`, if it is registered.
    fn position(&self, id: &str) -> (r: Option<usize>)
        ensures
            self.ids@.len() == self.modules@.len(),
            match r {
                Some(i) => i as int == key_pos(self.spec_ids(), id@) && i < self.ids@.len(),
                None => !self.spec_ids().contains(id@),
            },
    {
        proof {
            use_type_invariant(self);
            lemma_key_pos(self.spec_ids(), id@);
        }
        let ghost ids = self.spec_ids();
        let mut i: usize = 0;
        while i < self.ids.len()
            invariant
                i <= self.ids@.len(),
                self.ids@.len() == self.modules@.len(),
                ids == views(self.ids@),
                key_pos(ids, id@) == pos_from(ids, id@, i as int),
            decreases self.ids.len() - i,
        {
            if crate::text::same_text(self.ids[i].as_str(), id) {
                return Some(i);
            }
            i += 1;
        }
        None
    }

    /// Register a module under its id, replacing one registered under the
    /// same id.
    pub fn register(&mut self, module: M)
        ensures
            final(self).spec_ids() == ids_after_register(old(self).spec_ids(), module.spec_id()),
            final(self).spec_modules() == modules_after_register(
                old(self).spec_ids(),
                old(self).spec_modules(),
                module,
            ),
            old(self).spec_ids().len() == old(self).spec_modules().len(),
            final(self).spec_ids().len() == final(self).spec_modules().len(),
            final(self).spec_ids().contains(module.spec_id()),
            final(self).module_at(module.spec_id()) == module,
            final(self).spec_ids().no_duplicates(),
            final(self).spec_left() == old(self).spec_left(),
            final(self).spec_center() == old(self).spec_center(),
            final(self).spec_right() == old(self).spec_right(),
    {
        proof {
            use_type_invariant(&*self);
        }
        let ghost old_ids = self.spec_ids();
        let ghost old_ms = self.spec_modules();
        let ghost k = module.spec_id();
        let key = crate::text::string_of(module.id());
        let pos = self.position(module.id());
        let mut taken = ModuleRegistry {
            ids: Vec::new(),
            modules: Vec::new(),
            order_left: Vec::new(),
            order_center: Vec::new(),
            order_right: Vec::new(),
        };
        std::mem::swap(self, &mut taken);
        let ModuleRegistry { mut ids, mut modules, order_left, order_center, order_right } = taken;
        let ghost raw_ids = ids@;
        assert(views(raw_ids) == old_ids);
        match pos {
            Some(i) => {
                modules.set(i, module);
            },
            None => {
                ids.push(key);
                modules.push(module);
                proof {
                    let n = raw_ids.len() as int;
                    assert(views(ids@) == old_ids.push(k));
                    assert forall|a: int, b: int|
                        0 <= a < ids@.len() && 0 <= b < ids@.len() && a != b implies #[trigger] ids@[a]@
                            != #[trigger] ids@[b]@ by {
                        if a < n && b < n {
                            assert(ids@[a] == raw_ids[a] && ids@[b] == raw_ids[b]);
                        } else if a == n {
                            assert(ids@[b] == raw_ids[b]);
                            assert(old_ids[b] == raw_ids[b]@);
                        } else {
                            assert(ids@[a] == raw_ids[a]);
                            assert(old_ids[a] == raw_ids[a]@);
                        }
                    }
                }
            },
        }
        *self = ModuleRegistry { ids, modules, order_left, order_center, order_right };
        proof {
            use_type_invariant(&*self);
            let ids = self.spec_ids();
            assert forall|a: int, b: int| 0 <= a < ids.len() && 0 <= b < ids.len() && a != b implies ids[a]
                != ids[b] by {
                assert(self.ids@[a]@ != self.ids@[b]@);
            }
            lemma_key_pos(self.spec_ids(), k);
            if pos is None {
                let n = old_ids.len() as int;
                assert(self.spec_ids()[n] == k);
                if key_pos(self.spec_ids(), k) < n {
                    assert(old_ids[key_pos(self.spec_ids(), k)] == k);
                }
            }
        }
    }

    /// Get a module by ID
    pub fn get(&self, id: &str) -> (r: Option<&M>)
        ensures
            match r {
                Some(m) => self.spec_ids().contains(id@) && *m == self.module_at(id@),
                None => !self.spec_ids().contains(id@),
            },
    {
        match self.position(id) {
            Some(i) => {
                proof {
                    lemma_key_pos(self.spec_ids(), id@);
                }
                Some(&self.modules[i])
            },
            None => None,
        }
    }

    /// Get a module by ID, to change it in place (it stays registered under
    /// the same id).
    pub fn get_mut(&mut self, id: &str) -> (r: Option<&mut M>)
        ensures
            final(self).spec_ids() == old(self).spec_ids(),
            final(self).spec_left() == old(self).spec_left(),
            final(self).spec_center() == old(self).spec_center(),
            final(self).spec_right() == old(self).spec_right(),
            match r {
                Some(m) => {
                    &&& old(self).spec_ids().contains(id@)
                    &&& *m == old(self).module_at(id@)
                    &&& final(self).spec_modules() == old(self).spec_modules().update(
                        key_pos(old(self).spec_ids(), id@),
                        *final(m),
                    )
                },
                None => {
                    &&& !old(self).spec_ids().contains(id@)
                    &&& final(self).spec_modules() == old(self).spec_modules()
                },
            },
    {
        proof {
            use_type_invariant(&*self);
        }
        match self.position(id) {
            Some(i) => {
                proof {
                    lemma_key_pos(self.spec_ids(), id@);
                }
                Some(&mut self.modules[i])
            },
            None => None,
        }
    }

    /// Update all modules
    pub fn update_all(&mut self, config: &ModulesConfig)
        ensures
            final(self).spec_ids() == old(self).spec_ids(),
            final(self).spec_modules().len() == old(self).spec_modules().len(),
            forall|i: int|
                0 <= i < final(self).spec_modules().len() ==> (#[trigger] final(self).spec_modules()[i]).spec_id()
                    == old(self).spec_modules()[i].spec_id(),
            forall|i: int|
                0 <= i < final(self).spec_modules().len() ==> (#[trigger] final(self).spec_modules()[i]).spec_refreshed(
                    &old(self).spec_modules()[i],
                    *config,
                ),
            final(self).spec_left() == old(self).spec_left(),
            final(self).spec_center() == old(self).spec_center(),
            final(self).spec_right() == old(self).spec_right(),
    {
        proof {
            use_type_invariant(&*self);
        }
        let ghost old_ms = self.modules@;
        let ghost old_self = *self;
        let mut i: usize = 0;
        while i < self.modules.len()
            invariant
                i <= self.modules@.len(),
                self.modules@.len() == old_ms.len(),
                self.ids@.len() == self.modules@.len(),
                self.ids == old_self.ids,
                self.order_left == old_self.order_left,
                self.order_center == old_self.order_center,
                self.order_right == old_self.order_right,
                forall|j: int| 0 <= j < self.modules@.len() ==> #[trigger] self.modules@[j].spec_id() == old_ms[j].spec_id(),
                forall|j: int| 0 <= j < i ==> #[trigger] self.modules@[j].spec_refreshed(&old_ms[j], *config),
                forall|j: int| i <= j < self.modules@.len() ==> #[trigger] self.modules@[j] == old_ms[j],
            decreases self.modules@.len() - i,
        {
            proof {
                use_type_invariant(&*self);
            }
            self.modules[i].update(config);
            i += 1;
        }
    }

    /// The modules named by `order`, in that order, skipping unknown ids.
    fn resolve(&self, order: &Vec<String>) -> (r: Vec<&M>)
        ensures
            r@.map_values(|m: &M| *m) == resolved(views(order@), self.spec_ids(), self.spec_modules()),
    {
        let mut r: Vec<&M> = Vec::new();
        let mut i: usize = 0;
        while i < order.len()
            invariant
                i <= order@.len(),
                r@.map_values(|m: &M| *m) == resolved(views(order@).take(i as int), self.spec_ids(), self.spec_modules()),
            decreases order.len() - i,
        {
            let ghost before = r@;
            assert(views(order@).take(i + 1).drop_last() == views(order@).take(i as int));
            assert(views(order@).take(i + 1).last() == order@[i as int]@);
            match self.get(order[i].as_str()) {
                Some(m) => {
                    r.push(m);
                    assert(r@.map_values(|m: &M| *m) == before.map_values(|m: &M| *m).push(*m));
                },
                None => {},
            }
            i += 1;
        }
        assert(views(order@).take(order@.len() as int) == views(order@));
        r
    }

    /// Get left-side modules in order
    pub fn left_modules(&self) -> (r: Vec<&M>)
        ensures
            r@.map_values(|m: &M| *m) == resolved(self.spec_left(), self.spec_ids(), self.spec_modules()),
    {
        self.resolve(&self.order_left)
    }

    /// Get center modules in order
    pub fn center_modules(&self) -> (r: Vec<&M>)
        ensures
            r@.map_values(|m: &M| *m) == resolved(self.spec_center(), self.spec_ids(), self.spec_modules()),
    {
        self.resolve(&self.order_center)
    }

    /// Get right-side modules in order
    pub fn right_modules(&self) -> (r: Vec<&M>)
        ensures
            r@.map_values(|m: &M| *m) == resolved(self.spec_right(), self.spec_ids(), self.spec_modules()),
    {
        self.resolve(&self.order_right)
    }

    /// Set module order for left side
    pub fn set_left_order(&mut self, order: Vec<String>)
        ensures
            final(self).spec_left() == views(order@),
            final(self).spec_center() == old(self).spec_center(),
            final(self).spec_right() == old(self).spec_right(),
            final(self).spec_ids() == old(self).spec_ids(),
            final(self).spec_modules() == old(self).spec_modules(),
    {
        proof {
            use_type_invariant(&*self);
        }
        self.order_left = order;
    }

    /// Set module order for center
    pub fn set_center_order(&mut self, order: Vec<String>)
        ensures
            final(self).spec_center() == views(order@),
            final(self).spec_left() == old(self).spec_left(),
            final(self).spec_right() == old(self).spec_right(),
            final(self).spec_ids() == old(self).spec_ids(),
            final(self).spec_modules() == old(self).spec_modules(),
    {
        proof {
            use_type_invariant(&*self);
        }
        self.order_center = order;
    }

    /// Set module order for right side
    pub fn set_right_order(&mut self, order: Vec<String>)
        ensures
            final(self).spec_right() == views(order@),
            final(self).spec_left() == old(self).spec_left(),
            final(self).spec_center() == old(self).spec_center(),
            final(self).spec_ids() == old(self).spec_ids(),
            final(self).spec_modules() == old(self).spec_modules(),
    {
        proof {
            use_type_invariant(&*self);
        }
        self.order_right = order;
    }
}

/// The ids of the modules that a new registry holds, in registration order.
pub open spec fn default_module_ids() -> Seq<Seq<char>> {
    seq![
        "clock"@,
        "system_info"@,
        "battery"@,
        "network"@,
        "volume"@,
        "app_menu"@,
        "active_window"@,
        "media"@,
        "gpu"@,
        "keyboard_layout"@,
        "uptime"@,
        "bluetooth"@,
        "disk"@,
    ]
}

/// The default ids differ from one another: by length, or else by their
/// first character.
proof fn lemma_default_ids_distinct()
    ensures
        forall|i: int, j: int|
            0 <= i < 13 && 0 <= j < 13 && i != j ==> #[trigger] default_module_ids()[i] != #[trigger] default_module_ids()[j],
{
    let d = default_module_ids();
    reveal_strlit("clock");
    assert(d[0].len() == 5 && d[0][0] == 'c');
    reveal_strlit("system_info");
    assert(d[1].len() == 11 && d[1][0] == 's');
    reveal_strlit("battery");
    assert(d[2].len() == 7 && d[2][0] == 'b');
    reveal_strlit("network");
    assert(d[3].len() == 7 && d[3][0] == 'n');
    reveal_strlit("volume");
    assert(d[4].len() == 6 && d[4][0] == 'v');
    reveal_strlit("app_menu");
    assert(d[5].len() == 8 && d[5][0] == 'a');
    reveal_strlit("active_window");
    assert(d[6].len() == 13 && d[6][0] == 'a');
    reveal_strlit("media");
    assert(d[7].len() == 5 && d[7][0] == 'm');
    reveal_strlit("gpu");
    assert(d[8].len() == 3 && d[8][0] == 'g');
    reveal_strlit("keyboard_layout");
    assert(d[9].len() == 15 && d[9][0] == 'k');
    reveal_strlit("uptime");
    assert(d[10].len() == 6 && d[10][0] == 'u');
    reveal_strlit("bluetooth");
    assert(d[11].len() == 9 && d[11][0] == 'b');
    reveal_strlit("disk");
    assert(d[12].len() == 4 && d[12][0] == 'd');
}

impl ModuleRegistry<BarModule> {
    /// Create a registry with the default modules and orders: the clock,
    /// system information, battery, network, volume, application menu,
    /// active window, media, GPU, keyboard layout, uptime, Bluetooth and
    /// disk modules, each as it starts.
    pub fn new() -> (r: ModuleRegistry<BarModule>)
        ensures
            r.spec_ids() == default_module_ids(),
            forall|i: int| 0 <= i < r.spec_modules().len() ==> (#[trigger] r.spec_modules()[i]).spec_id() == default_module_ids()[i],
            r.spec_left() == default_left_order(),
            r.spec_center() == Seq::<Seq<char>>::empty(),
            r.spec_right() == default_right_order(),
    {
        let base: ModuleRegistry<BarModule> = ModuleRegistry::empty();
        let ModuleRegistry { ids: _, modules: _, order_left, order_center, order_right } = base;
        let mut ids: Vec<String> = Vec::new();
        let mut modules: Vec<BarModule> = Vec::new();
        push_string(&mut ids, "clock");
        modules.push(BarModule::Clock(ClockModule::new()));
        push_string(&mut ids, "system_info");
        modules.push(BarModule::SystemInfo(SystemInfoModule::new()));
        push_string(&mut ids, "battery");
        modules.push(BarModule::Battery(BatteryModule::new()));
        push_string(&mut ids, "network");
        modules.push(BarModule::Network(NetworkModule::new()));
        push_string(&mut ids, "volume");
        modules.push(BarModule::Volume(VolumeModule::new()));
        push_string(&mut ids, "app_menu");
        modules.push(BarModule::AppMenu(AppMenuModule::new()));
        push_string(&mut ids, "active_window");
        modules.push(BarModule::ActiveWindow(ActiveWindowModule::new()));
        push_string(&mut ids, "media");
        modules.push(BarModule::Media(MediaModule::new()));
        push_string(&mut ids, "gpu");
        modules.push(BarModule::Gpu(GpuModule::new()));
        push_string(&mut ids, "keyboard_layout");
        modules.push(BarModule::KeyboardLayout(KeyboardLayoutModule::new()));
        push_string(&mut ids, "uptime");
        modules.push(BarModule::Uptime(UptimeModule::new()));
        push_string(&mut ids, "bluetooth");
        modules.push(BarModule::Bluetooth(BluetoothModule::new()));
        push_string(&mut ids, "disk");
        modules.push(BarModule::Disk(DiskModule::new()));
        proof {
            reveal_strlit("clock");
            reveal_strlit("system_info");
            reveal_strlit("battery");
            reveal_strlit("network");
            reveal_strlit("volume");
            reveal_strlit("app_menu");
            reveal_strlit("active_window");
            reveal_strlit("media");
            reveal_strlit("gpu");
            reveal_strlit("keyboard_layout");
            reveal_strlit("uptime");
            reveal_strlit("bluetooth");
            reveal_strlit("disk");
            assert(views(ids@) =~= default_module_ids());
            lemma_default_ids_distinct();
            assert forall|i: int, j: int|
                0 <= i < ids@.len() && 0 <= j < ids@.len() && i != j implies #[trigger] ids@[i]@ != #[trigger] ids@[j]@ by {
                assert(ids@[i]@ == default_module_ids()[i]);
                assert(ids@[j]@ == default_module_ids()[j]);
            }
        }
        let r = ModuleRegistry { ids, modules, order_left, order_center, order_right };
        r
    }
}

/// Registering a module leaves every other id's lookup as it was: the
/// other id is registered afterwards exactly when it was before, and then
/// to the same module; the new module is found under its own id.
pub proof fn lemma_register_keeps_others<M: Module>(
    before: ModuleRegistry<M>,
    after: ModuleRegistry<M>,
    module: M,
    j: Seq<char>,
)
    requires
        before.spec_ids().len() == before.spec_modules().len(),
        after.spec_ids() == ids_after_register(before.spec_ids(), module.spec_id()),
        after.spec_modules() == modules_after_register(before.spec_ids(), before.spec_modules(), module),
        j != module.spec_id(),
    ensures
        after.spec_ids().contains(j) == before.spec_ids().contains(j),
        before.spec_ids().contains(j) ==> after.module_at(j) == before.module_at(j),
        after.spec_ids().contains(module.spec_id()),
        after.module_at(module.spec_id()) == module,
{
    let ids = before.spec_ids();
    let k = module.spec_id();
    lemma_key_pos(ids, j);
    lemma_key_pos(ids, k);
    lemma_key_pos(after.spec_ids(), j);
    lemma_key_pos(after.spec_ids(), k);
    if !ids.contains(k) {
        let n = ids.len() as int;
        assert(after.spec_ids()[n] == k);
        if ids.contains(j) {
            assert(after.spec_ids().contains(j)) by {
                assert(after.spec_ids()[key_pos(ids, j)] == j);
            }
            lemma_pos_from_push(ids, k, j, 0, key_pos(ids, j));
        } else {
            assert forall|x: int| 0 <= x < after.spec_ids().len() implies after.spec_ids()[x] != j by {
                if x < n {
                    assert(after.spec_ids()[x] == ids[x]);
                }
            }
        }
        if key_pos(after.spec_ids(), k) < n {
            assert(ids[key_pos(after.spec_ids(), k)] == k);
        }
    }
}

/// Adding an id at the end does not move an earlier occurrence of `j`.
proof fn lemma_pos_from_push(ids: Seq<Seq<char>>, k: Seq<char>, j: Seq<char>, i: int, x: int)
    requires
        0 <= i <= x < ids.len(),
        ids[x] == j,
    ensures
        pos_from(ids.push(k), j, i) == pos_from(ids, j, i),
    decreases ids.len() - i,
{
    if ids[i] != j {
        lemma_pos_from_push(ids, k, j, i + 1, x);
    }
}

} // verus!

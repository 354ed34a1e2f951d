//! App menu module: the system menu at the left of the bar, its items, and
//! what each of its actions launches.

use vstd::prelude::*;
use crate::config::{push_string, views, ModulesConfig};
use crate::modules::Module;
use crate::text::{same_text, string_of};

verus! {

/// Menu action types
#[derive(Debug)]
pub enum MenuAction {
    /// No action (a submenu parent or an inert entry)
    NoAction,
    SystemInfo,
    OpenSettings,
    Sleep,
    Restart,
    Shutdown,
    Lock,
    SignOut,
    OpenUrl(String),
    RunCommand(String),
    OpenFile(String),
    Custom(String),
}

/// Menu item structure
#[derive(Debug)]
pub struct MenuItem {
    pub label: String,
    pub icon: Option<String>,
    pub shortcut: Option<String>,
    pub action: MenuAction,
    pub submenu: Vec<MenuItem>,
    pub is_separator: bool,
    pub is_disabled: bool,
}

/// The view of an optional text: empty when absent.
pub open spec fn opt_text(o: Option<String>) -> Option<Seq<char>> {
    match o {
        Some(s) => Some(s@),
        None => None,
    }
}

/// `item` is a plain entry: the label, icon and shortcut given, a submenu
/// of `sub` items, not a separator, enabled unless `disabled`.
pub open spec fn entry_is(
    item: MenuItem,
    label: Seq<char>,
    icon: Option<Seq<char>>,
    shortcut: Option<Seq<char>>,
    sub: nat,
    disabled: bool,
) -> bool {
    &&& item.label@ == label
    &&& opt_text(item.icon) == icon
    &&& opt_text(item.shortcut) == shortcut
    &&& item.submenu@.len() == sub
    &&& !item.is_separator
    &&& item.is_disabled == disabled
}

/// `item` is a separator.
pub open spec fn separator_is(item: MenuItem) -> bool {
    &&& item.label@.len() == 0
    &&& item.icon is None
    &&& item.shortcut is None
    &&& item.action is NoAction
    &&& item.submenu@.len() == 0
    &&& item.is_separator
    &&& !item.is_disabled
}

impl MenuItem {
    pub fn new(label: &str, action: MenuAction) -> (m: MenuItem)
        ensures
            entry_is(m, label@, None, None, 0, false),
            m.action == action,
    {
        MenuItem {
            label: string_of(label),
            icon: None,
            shortcut: None,
            action,
            submenu: Vec::new(),
            is_separator: false,
            is_disabled: false,
        }
    }

    pub fn separator() -> (m: MenuItem)
        ensures
            separator_is(m),
    {
        MenuItem {
            label: String::new(),
            icon: None,
            shortcut: None,
            action: MenuAction::NoAction,
            submenu: Vec::new(),
            is_separator: true,
            is_disabled: false,
        }
    }

    pub fn with_icon(self, icon: &str) -> (m: MenuItem)
        ensures
            m == (MenuItem { icon: m.icon, ..self }),
            opt_text(m.icon) == Some(icon@),
    {
        MenuItem { icon: Some(string_of(icon)), ..self }
    }

    pub fn with_shortcut(self, shortcut: &str) -> (m: MenuItem)
        ensures
            m == (MenuItem { shortcut: m.shortcut, ..self }),
            opt_text(m.shortcut) == Some(shortcut@),
    {
        MenuItem { shortcut: Some(string_of(shortcut)), ..self }
    }

    pub fn with_submenu(self, submenu: Vec<MenuItem>) -> (m: MenuItem)
        ensures
            m == (MenuItem { submenu, ..self }),
    {
        MenuItem { submenu, ..self }
    }

    pub fn disabled(self) -> (m: MenuItem)
        ensures
            m == (MenuItem { is_disabled: true, ..self }),
    {
        MenuItem { is_disabled: true, ..self }
    }
}

/// What carrying out a menu action takes.
#[derive(Debug)]
pub enum LaunchPlan {
    /// Nothing to do
    Nothing,
    /// Open a URL, a settings page or a file with the shell
    Open(String),
    /// Start a program with arguments; `hidden` asks for no console window
    Spawn { program: String, args: Vec<String>, hidden: bool },
}

/// The plan's plain form: the kind (0 nothing, 1 open, 2 spawn), the target
/// or program, the arguments and whether the window is hidden.
pub open spec fn plan_view(p: LaunchPlan) -> (int, Seq<char>, Seq<Seq<char>>, bool) {
    match p {
        LaunchPlan::Nothing => (0, Seq::empty(), Seq::empty(), false),
        LaunchPlan::Open(t) => (1, t@, Seq::empty(), false),
        LaunchPlan::Spawn { program, args, hidden } => (2, program@, views(args@), hidden),
    }
}

/// What each action launches.
pub open spec fn planned(action: MenuAction) -> (int, Seq<char>, Seq<Seq<char>>, bool) {
    match action {
        MenuAction::NoAction => (0, Seq::empty(), Seq::empty(), false),
        MenuAction::SystemInfo => (1, "ms-settings:about"@, Seq::empty(), false),
        MenuAction::OpenSettings => (1, "ms-settings:"@, Seq::empty(), false),
        MenuAction::Sleep => (2, "rundll32.exe"@, seq!["powrprof.dll,SetSuspendState"@, "0,1,0"@], false),
        MenuAction::Restart => (2, "shutdown"@, seq!["/r"@, "/t"@, "0"@], false),
        MenuAction::Shutdown => (2, "shutdown"@, seq!["/s"@, "/t"@, "0"@], false),
        MenuAction::Lock => (2, "rundll32.exe"@, seq!["user32.dll,LockWorkStation"@], false),
        MenuAction::SignOut => (2, "shutdown"@, seq!["/l"@], false),
        MenuAction::OpenUrl(u) => (1, u@, Seq::empty(), false),
        MenuAction::RunCommand(c) => (2, "cmd"@, seq!["/c"@, c@], true),
        MenuAction::OpenFile(p) => (1, p@, Seq::empty(), false),
        MenuAction::Custom(_) => (0, Seq::empty(), Seq::empty(), false),
    }
}

fn spawn(program: &str, args: &[&str], hidden: bool) -> (p: LaunchPlan)
    ensures
        plan_view(p) == (2int, program@, args@.map_values(|a: &str| a@), hidden),
{
    let mut v: Vec<String> = Vec::new();
    let mut i: usize = 0;
    while i < args.len()
        invariant
            i <= args@.len(),
            views(v@) == args@.take(i as int).map_values(|a: &str| a@),
        decreases args.len() - i,
    {
        push_string(&mut v, args[i]);
        assert(args@.take(i + 1) == args@.take(i as int).push(args@[i as int]));
        i += 1;
    }
    assert(args@.take(args@.len() as int) == args@);
    LaunchPlan::Spawn { program: string_of(program), args: v, hidden }
}

/// The label of the toggle state of the menu.
pub open spec fn menu_icon() -> Seq<char> {
    "☰"@
}

/// The default menu, item by item.
pub open spec fn default_menu(items: Seq<MenuItem>) -> bool {
    &&& items.len() == 15
    &&& entry_is(items[0], "About This PC"@, Some("ℹ️"@), None, 0, false)
    &&& items[0].action is SystemInfo
    &&& separator_is(items[1])
    &&& entry_is(items[2], "System Preferences..."@, Some("⚙️"@), None, 0, false)
    &&& items[2].action is OpenSettings
    &&& entry_is(items[3], "App Store..."@, Some("🏪"@), None, 0, false)
    &&& items[3].action matches MenuAction::OpenUrl(u) && u@ == "ms-windows-store:"@
    &&& separator_is(items[4])
    &&& entry_is(items[5], "Recent Items"@, None, None, 1, false)
    &&& items[5].action is NoAction
    &&& entry_is(items[5].submenu@[0], "No recent items"@, None, None, 0, true)
    &&& items[5].submenu@[0].action is NoAction
    &&& separator_is(items[6])
    &&& entry_is(items[7], "Force Quit..."@, Some("⚠️"@), Some("Ctrl+Alt+Del"@), 0, false)
    &&& items[7].action matches MenuAction::RunCommand(c) && c@ == "taskmgr"@
    &&& separator_is(items[8])
    &&& entry_is(items[9], "Sleep"@, Some("😴"@), None, 0, false)
    &&& items[9].action is Sleep
    &&& entry_is(items[10], "Restart..."@, Some("🔄"@), None, 0, false)
    &&& items[10].action is Restart
    &&& entry_is(items[11], "Shut Down..."@, Some("⏻"@), None, 0, false)
    &&& items[11].action is Shutdown
    &&& separator_is(items[12])
    &&& entry_is(items[13], "Lock Screen"@, Some("🔒"@), Some("Win+L"@), 0, false)
    &&& items[13].action is Lock
    &&& entry_is(items[14], "Sign Out..."@, Some("🚪"@), None, 0, false)
    &&& items[14].action is SignOut
}

/// App menu module
pub struct AppMenuModule {
    cached_text: String,
    menu_items: Vec<MenuItem>,
    is_open: bool,
}

impl AppMenuModule {
    /// The items of the menu.
    pub closed spec fn spec_items(&self) -> Seq<MenuItem> {
        self.menu_items@
    }

    /// Whether the menu is open.
    pub closed spec fn spec_open(&self) -> bool {
        self.is_open
    }

    /// The text shown in the bar.
    pub closed spec fn spec_text(&self) -> Seq<char> {
        self.cached_text@
    }

    pub fn new() -> (m: AppMenuModule)
        ensures
            default_menu(m.spec_items()),
            !m.spec_open(),
            m.spec_text() == menu_icon(),
    {
        AppMenuModule { cached_text: string_of("☰"), menu_items: Self::default_menu_items(), is_open: false }
    }

    /// Create default menu items
    fn default_menu_items() -> (v: Vec<MenuItem>)
        ensures
            default_menu(v@),
    {
        let mut recent: Vec<MenuItem> = Vec::new();
        recent.push(MenuItem::new("No recent items", MenuAction::NoAction).disabled());
        let mut v: Vec<MenuItem> = Vec::new();
        v.push(MenuItem::new("About This PC", MenuAction::SystemInfo).with_icon("ℹ️"));
        v.push(MenuItem::separator());
        v.push(MenuItem::new("System Preferences...", MenuAction::OpenSettings).with_icon("⚙️"));
        v.push(
            MenuItem::new("App Store...", MenuAction::OpenUrl(string_of("ms-windows-store:"))).with_icon("🏪"),
        );
        v.push(MenuItem::separator());
        v.push(MenuItem::new("Recent Items", MenuAction::NoAction).with_submenu(recent));
        v.push(MenuItem::separator());
        v.push(
            MenuItem::new("Force Quit...", MenuAction::RunCommand(string_of("taskmgr"))).with_icon(
                "⚠️",
            ).with_shortcut("Ctrl+Alt+Del"),
        );
        v.push(MenuItem::separator());
        v.push(MenuItem::new("Sleep", MenuAction::Sleep).with_icon("😴"));
        v.push(MenuItem::new("Restart...", MenuAction::Restart).with_icon("🔄"));
        v.push(MenuItem::new("Shut Down...", MenuAction::Shutdown).with_icon("⏻"));
        v.push(MenuItem::separator());
        v.push(MenuItem::new("Lock Screen", MenuAction::Lock).with_icon("🔒").with_shortcut("Win+L"));
        v.push(MenuItem::new("Sign Out...", MenuAction::SignOut).with_icon("🚪"));
        v
    }

    /// What carrying out `action` takes: the page, URL or file to open, or
    /// the program to start with its arguments.
    pub fn launch_plan(action: &MenuAction) -> (p: LaunchPlan)
        ensures
            plan_view(p) == planned(*action),
    {
        match action {
            MenuAction::NoAction => LaunchPlan::Nothing,
            MenuAction::SystemInfo => LaunchPlan::Open(string_of("ms-settings:about")),
            MenuAction::OpenSettings => LaunchPlan::Open(string_of("ms-settings:")),
            MenuAction::Sleep => {
                let p = spawn("rundll32.exe", &["powrprof.dll,SetSuspendState", "0,1,0"], false);
                p
            },
            MenuAction::Restart => spawn("shutdown", &["/r", "/t", "0"], false),
            MenuAction::Shutdown => spawn("shutdown", &["/s", "/t", "0"], false),
            MenuAction::Lock => spawn("rundll32.exe", &["user32.dll,LockWorkStation"], false),
            MenuAction::SignOut => spawn("shutdown", &["/l"], false),
            MenuAction::OpenUrl(url) => LaunchPlan::Open(url.clone()),
            MenuAction::RunCommand(cmd) => spawn("cmd", &["/c", cmd.as_str()], true),
            MenuAction::OpenFile(path) => LaunchPlan::Open(path.clone()),
            MenuAction::Custom(_id) => LaunchPlan::Nothing,
        }
    }

    /// Get menu items
    pub fn menu_items(&self) -> (r: &[MenuItem])
        ensures
            r@ == self.spec_items(),
    {
        self.menu_items.as_slice()
    }

    /// Set menu items
    pub fn set_menu_items(&mut self, items: Vec<MenuItem>)
        ensures
            final(self).spec_items() == items@,
            final(self).spec_open() == old(self).spec_open(),
            final(self).spec_text() == old(self).spec_text(),
    {
        self.menu_items = items;
    }

    /// Toggle menu open state
    pub fn toggle_menu(&mut self)
        ensures
            final(self).spec_open() == !old(self).spec_open(),
            final(self).spec_items() == old(self).spec_items(),
            final(self).spec_text() == old(self).spec_text(),
    {
        self.is_open = !self.is_open;
    }

    /// Check if menu is open
    pub fn is_open(&self) -> (b: bool)
        ensures
            b == self.spec_open(),
    {
        self.is_open
    }

    /// A click toggles the menu.
    pub fn on_click(&mut self)
        ensures
            final(self).spec_open() == !old(self).spec_open(),
            final(self).spec_items() == old(self).spec_items(),
            final(self).spec_text() == old(self).spec_text(),
    {
        self.toggle_menu();
    }
}

impl Module for AppMenuModule {
    open spec fn spec_id(&self) -> Seq<char> {
        "app_menu"@
    }

    fn id(&self) -> (r: &str) {
        "app_menu"
    }

    fn name(&self) -> &str {
        "App Menu"
    }

    open spec fn spec_refreshed(&self, before: &Self, config: ModulesConfig) -> bool {
        *self == *before
    }

    open spec fn spec_text(&self, config: ModulesConfig) -> Seq<char> {
        "☰"@
    }

    open spec fn spec_tooltip(&self, r: Option<Seq<char>>) -> bool {
        r == Some("Click for menu"@)
    }

    open spec fn spec_visible(&self) -> bool {
        true
    }

    fn display_text(&self, _config: &ModulesConfig) -> (s: String) {
        string_of("☰")
    }

    fn update(&mut self, _config: &ModulesConfig) {
    }

    fn tooltip(&self) -> (r: Option<String>) {
        Some(string_of("Click for menu"))
    }

    fn is_visible(&self) -> (b: bool) {
        true
    }

    fn preferred_width(&self) -> i32 {
        0
    }
}

/// What a right click on a module opens: the connected-devices page for
/// Bluetooth, the disk management console for the disks, the keyboard
/// settings for the keyboard layout, the night light settings and the
/// sound settings; nothing for the other modules.
pub open spec fn right_click_planned(id: Seq<char>) -> (int, Seq<char>, Seq<Seq<char>>, bool) {
    if id == "bluetooth"@ {
        (2, "cmd"@, seq!["/c"@, "start"@, "ms-settings:connecteddevices"@], false)
    } else if id == "disk"@ {
        (2, "diskmgmt.msc"@, Seq::empty(), false)
    } else if id == "keyboard_layout"@ {
        (2, "cmd"@, seq!["/c"@, "start"@, "ms-settings:keyboard"@], false)
    } else if id == "night_light"@ {
        (1, "ms-settings:nightlight"@, Seq::empty(), false)
    } else if id == "volume"@ {
        (1, "ms-settings:sound"@, Seq::empty(), false)
    } else {
        (0, Seq::empty(), Seq::empty(), false)
    }
}

/// What a right click on the module `module_id` opens (see
/// `right_click_planned`).
pub fn right_click_plan(module_id: &str) -> (p: LaunchPlan)
    ensures
        plan_view(p) == right_click_planned(module_id@),
{
    if same_text(module_id, "bluetooth") {
        spawn("cmd", &["/c", "start", "ms-settings:connecteddevices"], false)
    } else if same_text(module_id, "disk") {
        spawn("diskmgmt.msc", &[], false)
    } else if same_text(module_id, "keyboard_layout") {
        spawn("cmd", &["/c", "start", "ms-settings:keyboard"], false)
    } else if same_text(module_id, "night_light") {
        LaunchPlan::Open(string_of("ms-settings:nightlight"))
    } else if same_text(module_id, "volume") {
        LaunchPlan::Open(string_of("ms-settings:sound"))
    } else {
        LaunchPlan::Nothing
    }
}

} // verus!

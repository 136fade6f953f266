//! The system tray's own logic: its labels, tooltip, menu, what activating
//! an entry changes, and how it reads the daemon's replies.

use vstd::prelude::*;
use crate::text::{append, concat, contains, is_prefix, owned, spec_contains, spec_trim, starts_with, str_eq, trim};

verus! {

/// The English text of a tray message key; an unknown key reads as itself.
pub open spec fn message(key: Seq<char>) -> Seq<char> {
    if key == "mode_work"@ {
        "Work"@
    } else if key == "mode_game"@ {
        "Game"@
    } else if key == "mode_game_battery"@ {
        "Game-Battery"@
    } else if key == "auto"@ {
        "Auto"@
    } else if key == "max"@ {
        "Max"@
    } else if key == "custom"@ {
        "Custom"@
    } else if key == "hybrid"@ {
        "Hybrid"@
    } else if key == "discrete"@ {
        "Discrete"@
    } else if key == "tt_gpu_hybrid"@ {
        "Hybrid"@
    } else if key == "tt_gpu_discrete"@ {
        "Discrete"@
    } else if key == "tt_power"@ {
        "Power"@
    } else if key == "tt_fan"@ {
        "Fan"@
    } else if key == "tt_gpu"@ {
        "GPU"@
    } else if key == "tray_open"@ {
        "Open OMEN-HUB"@
    } else if key == "power_mode"@ {
        "Power Mode"@
    } else if key == "fan_mode"@ {
        "Fan Mode"@
    } else if key == "gpu_mode"@ {
        "GPU Mode"@
    } else if key == "exit"@ {
        "Exit"@
    } else {
        key
    }
}

/// The English text of a tray message key; an unknown key reads as itself.
pub fn t(key: &str) -> (r: String)
    ensures
        r@ == message(key@),
{
    let known: &str = if str_eq(key, "mode_work") {
        "Work"
    } else if str_eq(key, "mode_game") {
        "Game"
    } else if str_eq(key, "mode_game_battery") {
        "Game-Battery"
    } else if str_eq(key, "auto") {
        "Auto"
    } else if str_eq(key, "max") {
        "Max"
    } else if str_eq(key, "custom") {
        "Custom"
    } else if str_eq(key, "hybrid") {
        "Hybrid"
    } else if str_eq(key, "discrete") {
        "Discrete"
    } else if str_eq(key, "tt_gpu_hybrid") {
        "Hybrid"
    } else if str_eq(key, "tt_gpu_discrete") {
        "Discrete"
    } else if str_eq(key, "tt_power") {
        "Power"
    } else if str_eq(key, "tt_fan") {
        "Fan"
    } else if str_eq(key, "tt_gpu") {
        "GPU"
    } else if str_eq(key, "tray_open") {
        "Open OMEN-HUB"
    } else if str_eq(key, "power_mode") {
        "Power Mode"
    } else if str_eq(key, "fan_mode") {
        "Fan Mode"
    } else if str_eq(key, "gpu_mode") {
        "GPU Mode"
    } else if str_eq(key, "exit") {
        "Exit"
    } else {
        key
    };
    owned(known)
}

/// The message key of the label of a power mode name: `game` and
/// `game-battery` have their own, anything else reads as work.
pub open spec fn power_label_key(mode: Seq<char>) -> Seq<char> {
    if mode == "game"@ {
        "mode_game"@
    } else if mode == "game-battery"@ {
        "mode_game_battery"@
    } else {
        "mode_work"@
    }
}

/// The label of a power mode name.
pub fn power_mode_label(mode: &str) -> (r: String)
    ensures
        r@ == message(power_label_key(mode@)),
{
    if str_eq(mode, "game") {
        t("mode_game")
    } else if str_eq(mode, "game-battery") {
        t("mode_game_battery")
    } else {
        t("mode_work")
    }
}

/// The message key of the label of a fan mode name.
pub open spec fn fan_label_key(mode: Seq<char>) -> Seq<char> {
    if mode == "max"@ {
        "max"@
    } else if mode == "custom"@ {
        "custom"@
    } else {
        "auto"@
    }
}

/// The label of a fan mode name.
pub fn fan_mode_label(mode: &str) -> (r: String)
    ensures
        r@ == message(fan_label_key(mode@)),
{
    if str_eq(mode, "max") {
        t("max")
    } else if str_eq(mode, "custom") {
        t("custom")
    } else {
        t("auto")
    }
}

/// The message key of the tooltip label of a GPU mode name.
pub open spec fn gpu_label_key(mode: Seq<char>) -> Seq<char> {
    if mode == "discrete"@ {
        "tt_gpu_discrete"@
    } else {
        "tt_gpu_hybrid"@
    }
}

/// The tooltip label of a GPU mode name.
pub fn gpu_mode_label(mode: &str) -> (r: String)
    ensures
        r@ == message(gpu_label_key(mode@)),
{
    if str_eq(mode, "discrete") {
        t("tt_gpu_discrete")
    } else {
        t("tt_gpu_hybrid")
    }
}

/// What the tray shows: the modes it last learned from the daemon.
#[derive(Debug, Clone, PartialEq, Eq)]
pub struct TrayState {
    pub power_mode: String,
    pub fan_mode: String,
    pub gpu_mode: String,
}

/// The tooltip text: one line each for power, fan and GPU.
pub open spec fn tooltip_text(s: TrayState) -> Seq<char> {
    message("tt_power"@) + ": "@ + message(power_label_key(s.power_mode@)) + "\n"@ + message(
        "tt_fan"@,
    ) + ": "@ + message(fan_label_key(s.fan_mode@)) + "\n"@ + message("tt_gpu"@) + ": "@ + message(
        gpu_label_key(s.gpu_mode@),
    )
}

impl TrayState {
    /// The description of the tray's tooltip.
    pub fn tool_tip_description(&self) -> (r: String)
        ensures
            r@ == tooltip_text(*self),
    {
        let mut r = t("tt_power");
        append(&mut r, ": ");
        let p = power_mode_label(self.power_mode.as_str());
        append(&mut r, p.as_str());
        append(&mut r, "\n");
        let f = t("tt_fan");
        append(&mut r, f.as_str());
        append(&mut r, ": ");
        let fl = fan_mode_label(self.fan_mode.as_str());
        append(&mut r, fl.as_str());
        append(&mut r, "\n");
        let g = t("tt_gpu");
        append(&mut r, g.as_str());
        append(&mut r, ": ");
        let gl = gpu_mode_label(self.gpu_mode.as_str());
        append(&mut r, gl.as_str());
        r
    }
}

/// What activating a tray menu entry asks for.
#[derive(Debug, Clone, Copy, PartialEq, Eq, Structural)]
pub enum TrayAction {
    OpenGui,
    PowerWork,
    PowerGame,
    PowerGameBattery,
    FanAuto,
    FanMax,
    GpuHybrid,
    GpuDiscrete,
    Exit,
}

/// A checkable entry of a tray submenu.
#[derive(Debug, Clone, PartialEq, Eq)]
pub struct CheckEntry {
    pub label: String,
    pub checked: bool,
    pub action: TrayAction,
}

/// An entry of the tray menu.
#[derive(Debug, Clone, PartialEq, Eq)]
pub enum MenuEntry {
    Standard { label: String, icon_name: String, action: TrayAction },
    Separator,
    SubMenu { label: String, items: Vec<CheckEntry> },
}

/// The view of a checkable entry: its label, whether it is checked, and its action.
pub open spec fn check_view(c: CheckEntry) -> (Seq<char>, bool, TrayAction) {
    (c.label@, c.checked, c.action)
}

/// The view of a menu entry.
pub enum MenuEntryView {
    Standard { label: Seq<char>, icon_name: Seq<char>, action: TrayAction },
    Separator,
    SubMenu { label: Seq<char>, items: Seq<(Seq<char>, bool, TrayAction)> },
}

/// The view of a menu entry.
pub open spec fn entry_view(e: MenuEntry) -> MenuEntryView {
    match e {
        MenuEntry::Standard { label, icon_name, action } => MenuEntryView::Standard {
            label: label@,
            icon_name: icon_name@,
            action,
        },
        MenuEntry::Separator => MenuEntryView::Separator,
        MenuEntry::SubMenu { label, items } => MenuEntryView::SubMenu {
            label: label@,
            items: items@.map_values(|c: CheckEntry| check_view(c)),
        },
    }
}

/// The tray menu for a state: open, a separator, the power, fan and GPU
/// submenus with the current mode of each checked, a separator, and exit.
pub open spec fn menu_spec(s: TrayState) -> Seq<MenuEntryView> {
    seq![
        MenuEntryView::Standard {
            label: message("tray_open"@),
            icon_name: "omenspace"@,
            action: TrayAction::OpenGui,
        },
        MenuEntryView::Separator,
        MenuEntryView::SubMenu {
            label: message("power_mode"@),
            items: seq![
                (message("mode_work"@), s.power_mode@ == "work"@, TrayAction::PowerWork),
                (message("mode_game"@), s.power_mode@ == "game"@, TrayAction::PowerGame),
                (
                    message("mode_game_battery"@),
                    s.power_mode@ == "game-battery"@,
                    TrayAction::PowerGameBattery,
                ),
            ],
        },
        MenuEntryView::SubMenu {
            label: message("fan_mode"@),
            items: seq![
                (message("auto"@), s.fan_mode@ == "auto"@, TrayAction::FanAuto),
                (message("max"@), s.fan_mode@ == "max"@, TrayAction::FanMax),
            ],
        },
        MenuEntryView::SubMenu {
            label: message("gpu_mode"@),
            items: seq![
                (message("hybrid"@), s.gpu_mode@ == "hybrid"@, TrayAction::GpuHybrid),
                (message("discrete"@), s.gpu_mode@ == "discrete"@, TrayAction::GpuDiscrete),
            ],
        },
        MenuEntryView::Separator,
        MenuEntryView::Standard {
            label: message("exit"@),
            icon_name: "application-exit"@,
            action: TrayAction::Exit,
        },
    ]
}

fn check(key: &str, checked: bool, action: TrayAction) -> (c: CheckEntry)
    ensures
        check_view(c) == (message(key@), checked, action),
{
    CheckEntry { label: t(key), checked, action }
}

fn submenu(key: &str, items: Vec<CheckEntry>) -> (e: MenuEntry)
    ensures
        entry_view(e) == (MenuEntryView::SubMenu {
            label: message(key@),
            items: items@.map_values(|c: CheckEntry| check_view(c)),
        }),
{
    MenuEntry::SubMenu { label: t(key), items }
}

impl TrayState {
    /// The tray menu.
    pub fn menu(&self) -> (r: Vec<MenuEntry>)
        ensures
            r@.map_values(|e: MenuEntry| entry_view(e)) == menu_spec(*self),
    {
        let mut power: Vec<CheckEntry> = Vec::new();
        power.push(check("mode_work", str_eq(self.power_mode.as_str(), "work"), TrayAction::PowerWork));
        power.push(check("mode_game", str_eq(self.power_mode.as_str(), "game"), TrayAction::PowerGame));
        power.push(
            check(
                "mode_game_battery",
                str_eq(self.power_mode.as_str(), "game-battery"),
                TrayAction::PowerGameBattery,
            ),
        );
        let mut fan: Vec<CheckEntry> = Vec::new();
        fan.push(check("auto", str_eq(self.fan_mode.as_str(), "auto"), TrayAction::FanAuto));
        fan.push(check("max", str_eq(self.fan_mode.as_str(), "max"), TrayAction::FanMax));
        let mut gpu: Vec<CheckEntry> = Vec::new();
        gpu.push(check("hybrid", str_eq(self.gpu_mode.as_str(), "hybrid"), TrayAction::GpuHybrid));
        gpu.push(
            check("discrete", str_eq(self.gpu_mode.as_str(), "discrete"), TrayAction::GpuDiscrete),
        );
        assert(power@.map_values(|c: CheckEntry| check_view(c)) =~= seq![
            (message("mode_work"@), self.power_mode@ == "work"@, TrayAction::PowerWork),
            (message("mode_game"@), self.power_mode@ == "game"@, TrayAction::PowerGame),
            (
                message("mode_game_battery"@),
                self.power_mode@ == "game-battery"@,
                TrayAction::PowerGameBattery,
            ),
        ]);
        assert(fan@.map_values(|c: CheckEntry| check_view(c)) =~= seq![
            (message("auto"@), self.fan_mode@ == "auto"@, TrayAction::FanAuto),
            (message("max"@), self.fan_mode@ == "max"@, TrayAction::FanMax),
        ]);
        assert(gpu@.map_values(|c: CheckEntry| check_view(c)) =~= seq![
            (message("hybrid"@), self.gpu_mode@ == "hybrid"@, TrayAction::GpuHybrid),
            (message("discrete"@), self.gpu_mode@ == "discrete"@, TrayAction::GpuDiscrete),
        ]);
        let mut r: Vec<MenuEntry> = Vec::new();
        r.push(
            MenuEntry::Standard {
                label: t("tray_open"),
                icon_name: owned("omenspace"),
                action: TrayAction::OpenGui,
            },
        );
        r.push(MenuEntry::Separator);
        r.push(submenu("power_mode", power));
        r.push(submenu("fan_mode", fan));
        r.push(submenu("gpu_mode", gpu));
        r.push(MenuEntry::Separator);
        r.push(
            MenuEntry::Standard {
                label: t("exit"),
                icon_name: owned("application-exit"),
                action: TrayAction::Exit,
            },
        );
        assert(r@.map_values(|e: MenuEntry| entry_view(e)) =~= menu_spec(*self));
        r
    }
}

/// What the tray asks of the system after an entry was activated.
#[derive(Debug, Clone, PartialEq, Eq)]
pub enum TrayCommand {
    /// Start the GUI.
    OpenGui,
    /// Ask the daemon for a power mode.
    SetPowerMode(String),
    /// Ask the daemon for a fan mode.
    SetFanMode(String),
    /// Ask the daemon for a GPU mode.
    SetGpuMode(String),
    /// Stop the GUI and the CLI, then leave.
    Exit,
}

/// The view of a tray command.
pub enum TrayCommandView {
    OpenGui,
    SetPowerMode(Seq<char>),
    SetFanMode(Seq<char>),
    SetGpuMode(Seq<char>),
    Exit,
}

/// The view of a tray command.
pub open spec fn command_view(c: TrayCommand) -> TrayCommandView {
    match c {
        TrayCommand::OpenGui => TrayCommandView::OpenGui,
        TrayCommand::SetPowerMode(m) => TrayCommandView::SetPowerMode(m@),
        TrayCommand::SetFanMode(m) => TrayCommandView::SetFanMode(m@),
        TrayCommand::SetGpuMode(m) => TrayCommandView::SetGpuMode(m@),
        TrayCommand::Exit => TrayCommandView::Exit,
    }
}

/// The mode name that a mode-setting action selects.
pub open spec fn action_mode(a: TrayAction) -> Seq<char> {
    match a {
        TrayAction::PowerWork => "work"@,
        TrayAction::PowerGame => "game"@,
        TrayAction::PowerGameBattery => "game-battery"@,
        TrayAction::FanAuto => "auto"@,
        TrayAction::FanMax => "max"@,
        TrayAction::GpuHybrid => "hybrid"@,
        TrayAction::GpuDiscrete => "discrete"@,
        _ => seq![],
    }
}

/// What activating `a` does: a power, fan or GPU entry shows its mode at
/// once and asks the daemon for it; open and exit change nothing shown.
pub open spec fn activation(old: TrayState, a: TrayAction, new: TrayState, c: TrayCommandView) -> bool {
    match a {
        TrayAction::PowerWork | TrayAction::PowerGame | TrayAction::PowerGameBattery => {
            &&& new.power_mode@ == action_mode(a)
            &&& new.fan_mode == old.fan_mode
            &&& new.gpu_mode == old.gpu_mode
            &&& c == TrayCommandView::SetPowerMode(action_mode(a))
        },
        TrayAction::FanAuto | TrayAction::FanMax => {
            &&& new.fan_mode@ == action_mode(a)
            &&& new.power_mode == old.power_mode
            &&& new.gpu_mode == old.gpu_mode
            &&& c == TrayCommandView::SetFanMode(action_mode(a))
        },
        TrayAction::GpuHybrid | TrayAction::GpuDiscrete => {
            &&& new.gpu_mode@ == action_mode(a)
            &&& new.power_mode == old.power_mode
            &&& new.fan_mode == old.fan_mode
            &&& c == TrayCommandView::SetGpuMode(action_mode(a))
        },
        TrayAction::OpenGui => new == old && c == TrayCommandView::OpenGui,
        TrayAction::Exit => new == old && c == TrayCommandView::Exit,
    }
}

impl TrayState {
    /// Activate a menu entry.
    pub fn activate(&mut self, a: TrayAction) -> (c: TrayCommand)
        ensures
            activation(*old(self), a, *final(self), command_view(c)),
    {
        match a {
            TrayAction::PowerWork => {
                self.power_mode = owned("work");
                TrayCommand::SetPowerMode(owned("work"))
            },
            TrayAction::PowerGame => {
                self.power_mode = owned("game");
                TrayCommand::SetPowerMode(owned("game"))
            },
            TrayAction::PowerGameBattery => {
                self.power_mode = owned("game-battery");
                TrayCommand::SetPowerMode(owned("game-battery"))
            },
            TrayAction::FanAuto => {
                self.fan_mode = owned("auto");
                TrayCommand::SetFanMode(owned("auto"))
            },
            TrayAction::FanMax => {
                self.fan_mode = owned("max");
                TrayCommand::SetFanMode(owned("max"))
            },
            TrayAction::GpuHybrid => {
                self.gpu_mode = owned("hybrid");
                TrayCommand::SetGpuMode(owned("hybrid"))
            },
            TrayAction::GpuDiscrete => {
                self.gpu_mode = owned("discrete");
                TrayCommand::SetGpuMode(owned("discrete"))
            },
            TrayAction::OpenGui => TrayCommand::OpenGui,
            TrayAction::Exit => TrayCommand::Exit,
        }
    }

    /// Take in the modes the daemon reported; a mode it did not report stays.
    pub fn update(&mut self, power: Option<String>, fan: Option<String>, gpu: Option<String>)
        ensures
            final(self).power_mode == match power {
                Some(p) => p,
                None => old(self).power_mode,
            },
            final(self).fan_mode == match fan {
                Some(f) => f,
                None => old(self).fan_mode,
            },
            final(self).gpu_mode == match gpu {
                Some(g) => g,
                None => old(self).gpu_mode,
            },
    {
        match power {
            Some(p) => {
                self.power_mode = p;
            },
            None => {},
        }
        match fan {
            Some(f) => {
                self.fan_mode = f;
            },
            None => {},
        }
        match gpu {
            Some(g) => {
                self.gpu_mode = g;
            },
            None => {},
        }
    }
}

/// Law: activating a mode entry makes it the checked entry of its submenu.
pub proof fn lemma_activated_entry_is_checked(old: TrayState, a: TrayAction, new: TrayState, c: TrayCommandView)
    requires
        activation(old, a, new, c),
    ensures
        a == TrayAction::PowerWork ==> menu_spec(new)[2]->SubMenu_items[0].1,
        a == TrayAction::PowerGame ==> menu_spec(new)[2]->SubMenu_items[1].1,
        a == TrayAction::PowerGameBattery ==> menu_spec(new)[2]->SubMenu_items[2].1,
        a == TrayAction::FanAuto ==> menu_spec(new)[3]->SubMenu_items[0].1,
        a == TrayAction::FanMax ==> menu_spec(new)[3]->SubMenu_items[1].1,
        a == TrayAction::GpuHybrid ==> menu_spec(new)[4]->SubMenu_items[0].1,
        a == TrayAction::GpuDiscrete ==> menu_spec(new)[4]->SubMenu_items[1].1,
{
}

/// Whether a daemon reply reports a failure: it starts with `FAIL` or `ERR`.
pub fn reply_failed(reply: &str) -> (r: bool)
    ensures
        r == (is_prefix("FAIL"@, reply@) || is_prefix("ERR"@, reply@)),
{
    starts_with(reply, "FAIL") || starts_with(reply, "ERR")
}

/// Whether a GPU mode reply asks for a reboot: it contains `REBOOT`.
pub fn reply_needs_reboot(reply: &str) -> (r: bool)
    ensures
        r == spec_contains(reply@, "REBOOT"@),
{
    contains(reply, "REBOOT")
}

/// The power mode that the daemon's reply reports: the trimmed reply,
/// unless it is empty or `unknown`.
pub fn reported_power_mode(reply: &str) -> (r: Option<String>)
    ensures
        (spec_trim(reply@).len() == 0 || spec_trim(reply@) == "unknown"@) ==> r is None,
        !(spec_trim(reply@).len() == 0 || spec_trim(reply@) == "unknown"@) ==> (r matches Some(m)
            && m@ == spec_trim(reply@)),
{
    let m = trim(reply);
    if m.as_str().unicode_len() == 0 || str_eq(m.as_str(), "unknown") {
        None
    } else {
        Some(m)
    }
}

/// The file that keeps a second tray from starting: `omen-tray.lock` in the
/// runtime directory, or in `/tmp/user-<uid>` when none is set.
pub fn lock_path(runtime_dir: Option<String>, uid_text: &str) -> (r: String)
    ensures
        r@ == match runtime_dir {
            Some(d) => d@,
            None => "/tmp/user-"@ + uid_text@,
        } + "/omen-tray.lock"@,
{
    let mut dir = match runtime_dir {
        Some(d) => d,
        None => concat("/tmp/user-", uid_text),
    };
    append(&mut dir, "/omen-tray.lock");
    dir
}

} // verus!

//! The decisions of the desktop shell around the supervisor: what the
//! application does when it starts, and what the entries of the tray menu
//! stand for.

use crate::text::str_eq;
use vstd::prelude::*;
use vstd::string::StringExecFns;

verus! {

/// What the application does first.
#[derive(Debug, Clone, Copy, PartialEq, Eq, Structural)]
pub enum StartupPlan {
    /// Show the first-run wizard; the gateway is not started.
    ShowWizard,
    /// Start the gateway.
    StartGateway,
}

/// What an entry of the tray menu asks for.
#[derive(Debug, Clone, Copy, PartialEq, Eq, Structural)]
pub enum MenuAction {
    /// Bring the main window back and give it the focus.
    ShowWindow,
    /// Hide the main window.
    HideWindow,
    /// Leave the application.
    Quit,
}

/// One entry of the tray menu.
#[derive(Debug, Clone, PartialEq, Eq)]
pub struct MenuEntry {
    pub id: String,
    pub label: String,
    pub enabled: bool,
}

impl View for MenuEntry {
    type V = (Seq<char>, Seq<char>, bool);

    open spec fn view(&self) -> (Seq<char>, Seq<char>, bool) {
        (self.id@, self.label@, self.enabled)
    }
}

/// The plan for a start: the wizard on a first run, the gateway otherwise.
pub open spec fn startup_plan_of(first_run: bool) -> StartupPlan {
    if first_run {
        StartupPlan::ShowWizard
    } else {
        StartupPlan::StartGateway
    }
}

/// The action behind the menu entry `id`; none for an entry that only
/// shows something, and for an unknown one.
pub open spec fn menu_action_of(id: Seq<char>) -> Option<MenuAction> {
    if id == "show"@ {
        Some(MenuAction::ShowWindow)
    } else if id == "hide"@ {
        Some(MenuAction::HideWindow)
    } else if id == "quit"@ {
        Some(MenuAction::Quit)
    } else {
        None
    }
}

/// The entries of the tray menu, from top to bottom. The entry `status`
/// shows the gateway's state and cannot be chosen.
pub open spec fn menu_entries_of() -> Seq<(Seq<char>, Seq<char>, bool)> {
    seq![
        ("show"@, "Show Window"@, true),
        ("hide"@, "Hide Window"@, true),
        ("status"@, "Status: Checking..."@, false),
        ("quit"@, "Quit"@, true),
    ]
}

/// The entries that a vector holds.
pub open spec fn entries_view(v: Seq<MenuEntry>) -> Seq<(Seq<char>, Seq<char>, bool)> {
    v.map_values(|e: MenuEntry| e@)
}

/// Decides what the application does first.
pub fn startup_plan(first_run: bool) -> (plan: StartupPlan)
    ensures
        plan == startup_plan_of(first_run),
{
    if first_run {
        StartupPlan::ShowWizard
    } else {
        StartupPlan::StartGateway
    }
}

/// The action behind the menu entry `id`.
pub fn menu_action(id: &str) -> (action: Option<MenuAction>)
    ensures
        action == menu_action_of(id@),
{
    if str_eq(id, "show") {
        Some(MenuAction::ShowWindow)
    } else if str_eq(id, "hide") {
        Some(MenuAction::HideWindow)
    } else if str_eq(id, "quit") {
        Some(MenuAction::Quit)
    } else {
        None
    }
}

fn entry(id: &str, label: &str, enabled: bool) -> (e: MenuEntry)
    ensures
        e@ == (id@, label@, enabled),
{
    MenuEntry { id: String::from_str(id), label: String::from_str(label), enabled }
}

/// The entries of the tray menu, from top to bottom.
pub fn menu_entries() -> (entries: Vec<MenuEntry>)
    ensures
        entries_view(entries@) == menu_entries_of(),
{
    let mut entries: Vec<MenuEntry> = Vec::new();
    entries.push(entry("show", "Show Window", true));
    entries.push(entry("hide", "Hide Window", true));
    entries.push(entry("status", "Status: Checking...", false));
    entries.push(entry("quit", "Quit", true));
    assert(entries_view(entries@) =~= menu_entries_of());
    entries
}

} // verus!

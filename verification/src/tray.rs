//! The tray icon: its menu, and what each of its events leads to.

use crate::text::same_text;
use vstd::prelude::*;

verus! {

/// An entry of the tray menu.
#[derive(Debug, Clone, PartialEq, Eq)]
pub enum TrayMenuEntry {
    Item(String),
    Separator,
}

/// What happened at the tray icon.
#[derive(Debug, Clone, PartialEq, Eq)]
pub enum TrayEvent {
    /// The left mouse button was released over the icon.
    LeftClick,
    /// The menu item with this identifier was chosen.
    MenuItemClick(String),
    /// Anything else.
    Other,
}

/// What the application does about an event of the tray icon.
#[derive(Debug, Clone, PartialEq, Eq)]
pub struct TrayReaction {
    /// Whether the application quits.
    pub quit: bool,
    /// The event that is sent to the main window, if any.
    pub emit: Option<String>,
    /// Whether the main window is shown and focused.
    pub show_window: bool,
}

/// What the contracts say of a `TrayReaction`.
pub struct TrayReactionView {
    pub quit: bool,
    pub emit: Option<Seq<char>>,
    pub show_window: bool,
}

impl View for TrayReaction {
    type V = TrayReactionView;

    open spec fn view(&self) -> TrayReactionView {
        TrayReactionView {
            quit: self.quit,
            emit: crate::text::optional_text(self.emit),
            show_window: self.show_window,
        }
    }
}

/// The reaction to each event.
///
/// A left click and `Show` show the main window, `Quit` quits, `Scan File`
/// asks the window for its file dialog, `Settings` and `History` ask it for
/// their page and show it. Nothing follows any other event.
pub open spec fn reaction_to(event: TrayEvent) -> TrayReactionView {
    let nothing = TrayReactionView { quit: false, emit: None, show_window: false };
    match event {
        TrayEvent::LeftClick => TrayReactionView { show_window: true, ..nothing },
        TrayEvent::MenuItemClick(id) => if id@ == "Quit"@ {
            TrayReactionView { quit: true, ..nothing }
        } else if id@ == "Show"@ {
            TrayReactionView { show_window: true, ..nothing }
        } else if id@ == "Scan File"@ {
            TrayReactionView { emit: Some("show-file-dialog"@), ..nothing }
        } else if id@ == "Settings"@ {
            TrayReactionView { emit: Some("show-settings"@), show_window: true, ..nothing }
        } else if id@ == "History"@ {
            TrayReactionView { emit: Some("show-history"@), show_window: true, ..nothing }
        } else {
            nothing
        },
        TrayEvent::Other => nothing,
    }
}

/// The entries of the tray menu, from the top.
pub open spec fn tray_menu() -> Seq<Option<Seq<char>>> {
    seq![
        Some("Show"@),
        Some("Scan File"@),
        Some("Settings"@),
        Some("History"@),
        None,
        Some("Quit"@),
    ]
}

/// What an entry shows: its label, or nothing for a separator.
pub open spec fn entry_label(entry: TrayMenuEntry) -> Option<Seq<char>> {
    match entry {
        TrayMenuEntry::Item(label) => Some(label@),
        TrayMenuEntry::Separator => None,
    }
}

/// The entries of the tray menu, from the top.
pub fn create_tray() -> (entries: Vec<TrayMenuEntry>)
    ensures
        entries@.len() == tray_menu().len(),
        forall|i: int| 0 <= i < entries@.len() ==> entry_label(#[trigger] entries@[i]) == tray_menu()[i],
{
    let mut entries: Vec<TrayMenuEntry> = Vec::new();
    entries.push(TrayMenuEntry::Item("Show".to_owned()));
    entries.push(TrayMenuEntry::Item("Scan File".to_owned()));
    entries.push(TrayMenuEntry::Item("Settings".to_owned()));
    entries.push(TrayMenuEntry::Item("History".to_owned()));
    entries.push(TrayMenuEntry::Separator);
    entries.push(TrayMenuEntry::Item("Quit".to_owned()));
    entries
}

/// The reaction to `event`.
pub fn handle_tray_event(event: &TrayEvent) -> (reaction: TrayReaction)
    ensures
        reaction@ == reaction_to(*event),
{
    match event {
        TrayEvent::LeftClick => TrayReaction { quit: false, emit: None, show_window: true },
        TrayEvent::MenuItemClick(id) => {
            if same_text(id.as_str(), "Quit") {
                TrayReaction { quit: true, emit: None, show_window: false }
            } else if same_text(id.as_str(), "Show") {
                TrayReaction { quit: false, emit: None, show_window: true }
            } else if same_text(id.as_str(), "Scan File") {
                TrayReaction {
                    quit: false,
                    emit: Some("show-file-dialog".to_owned()),
                    show_window: false,
                }
            } else if same_text(id.as_str(), "Settings") {
                TrayReaction {
                    quit: false,
                    emit: Some("show-settings".to_owned()),
                    show_window: true,
                }
            } else if same_text(id.as_str(), "History") {
                TrayReaction {
                    quit: false,
                    emit: Some("show-history".to_owned()),
                    show_window: true,
                }
            } else {
                TrayReaction { quit: false, emit: None, show_window: false }
            }
        },
        TrayEvent::Other => TrayReaction { quit: false, emit: None, show_window: false },
    }
}

} // verus!

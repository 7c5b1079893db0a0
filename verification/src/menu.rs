//! The tray menu model: an ordered, immutable-after-construction sequence
//! of labeled, identifiable entries. Insertion order is display order.

use vstd::prelude::*;

verus! {

/// Mathematical value of a [`MenuEntry`].
pub ghost struct SpecMenuEntry {
    pub id: Seq<char>,
    pub label: Seq<char>,
    pub enabled: bool,
}

/// One entry of the tray menu. The id is the stable dispatch key; the
/// label is what the menu shows.
#[derive(Debug, PartialEq, Eq)]
pub struct MenuEntry {
    pub id: String,
    pub label: String,
    pub enabled: bool,
}

impl View for MenuEntry {
    type V = SpecMenuEntry;

    open spec fn view(&self) -> SpecMenuEntry {
        SpecMenuEntry { id: self.id@, label: self.label@, enabled: self.enabled }
    }
}

impl DeepView for MenuEntry {
    type V = SpecMenuEntry;

    open spec fn deep_view(&self) -> SpecMenuEntry {
        self@
    }
}

/// The fixed tray menu: five enabled entries, in display order.
pub open spec fn spec_menu_model() -> Seq<SpecMenuEntry> {
    seq![
        SpecMenuEntry { id: "open"@, label: "Open"@, enabled: true },
        SpecMenuEntry { id: "hands_free"@, label: "Hands-free"@, enabled: true },
        SpecMenuEntry { id: "mute"@, label: "Mute"@, enabled: true },
        SpecMenuEntry { id: "model_picker"@, label: "Model Picker"@, enabled: true },
        SpecMenuEntry { id: "quit"@, label: "Quit"@, enabled: true },
    ]
}

impl MenuEntry {
    /// An entry with the given dispatch key and label.
    pub fn new(id: String, label: String, enabled: bool) -> (e: MenuEntry)
        ensures
            e@ == (SpecMenuEntry { id: id@, label: label@, enabled }),
    {
        MenuEntry { id, label, enabled }
    }
}

/// Builds the menu model, constructed once at startup and immutable for
/// the process lifetime.
pub fn menu_model() -> (m: Vec<MenuEntry>)
    ensures
        m.deep_view() == spec_menu_model(),
{
    let mut m: Vec<MenuEntry> = Vec::new();
    m.push(MenuEntry::new("open".to_owned(), "Open".to_owned(), true));
    m.push(MenuEntry::new("hands_free".to_owned(), "Hands-free".to_owned(), true));
    m.push(MenuEntry::new("mute".to_owned(), "Mute".to_owned(), true));
    m.push(MenuEntry::new("model_picker".to_owned(), "Model Picker".to_owned(), true));
    m.push(MenuEntry::new("quit".to_owned(), "Quit".to_owned(), true));
    proof {
        assert(m.deep_view() =~= spec_menu_model());
    }
    m
}

} // verus!

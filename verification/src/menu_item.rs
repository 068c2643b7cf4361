//! Menu entries: what an entry is, what it means, and how it is labelled.

use vstd::prelude::*;
use vstd::string::StringExecFns;

verus! {

/// The two shapes of a menu entry.
///
/// `Basic` is an actionable entry; the slice it carries is reserved for a
/// nested submenu and is empty in every menu this crate builds. `Checkbox`
/// carries the state of a toggle.
#[derive(Debug, PartialEq, Eq)]
pub enum MenuItemKind<'a> {
    Basic(&'a [MenuItem<'a>]),
    Checkbox(bool),
}

/// What an entry stands for. It only decides the entry's label.
#[derive(Copy, Clone, Debug, PartialEq, Eq, Structural)]
pub enum MenuItemMeaning {
    Update,
    Upgrade,
    Use,
}

/// One row of the menu.
#[derive(Debug, PartialEq, Eq)]
pub struct MenuItem<'a> {
    pub kind: MenuItemKind<'a>,
    pub meaning: MenuItemMeaning,
}

impl MenuItemMeaning {
    /// The label of a meaning, as a sequence of characters.
    pub open spec fn label_spec(self) -> Seq<char> {
        match self {
            MenuItemMeaning::Update => "update pkg db"@,
            MenuItemMeaning::Upgrade => "upgrade system"@,
            MenuItemMeaning::Use => "config use flags"@,
        }
    }

    /// The label of a meaning. Total: every meaning has exactly one label.
    pub fn label(&self) -> (label: &'static str)
        ensures
            label@ == self.label_spec(),
    {
        match self {
            MenuItemMeaning::Update => "update pkg db",
            MenuItemMeaning::Upgrade => "upgrade system",
            MenuItemMeaning::Use => "config use flags",
        }
    }

    /// The label as an owned string.
    pub fn to_string(&self) -> (label: String)
        ensures
            label@ == self.label_spec(),
    {
        String::from_str(self.label())
    }
}

impl<'a> MenuItemKind<'a> {
    /// The kind after one toggle: a checkbox flips, anything else stays.
    pub open spec fn toggled(self) -> MenuItemKind<'a> {
        match self {
            MenuItemKind::Checkbox(on) => MenuItemKind::Checkbox(!on),
            MenuItemKind::Basic(children) => MenuItemKind::Basic(children),
        }
    }

    /// What is drawn in front of the label.
    pub open spec fn prefix_spec(self) -> Seq<char> {
        match self {
            MenuItemKind::Checkbox(true) => "[*] "@,
            MenuItemKind::Checkbox(false) => "[ ] "@,
            MenuItemKind::Basic(_) => Seq::empty(),
        }
    }

    /// What is drawn in front of the label: the checkbox glyph, or nothing.
    pub fn prefix(&self) -> (prefix: &'static str)
        ensures
            prefix@ == self.prefix_spec(),
    {
        match self {
            MenuItemKind::Checkbox(true) => "[*] ",
            MenuItemKind::Checkbox(false) => "[ ] ",
            MenuItemKind::Basic(_) => {
                proof {
                    reveal_strlit("");
                    assert(""@ =~= Seq::<char>::empty());
                }
                ""
            },
        }
    }
}

impl<'a> MenuItem<'a> {
    /// The entry after one toggle.
    pub open spec fn toggled(self) -> MenuItem<'a> {
        MenuItem { kind: self.kind.toggled(), meaning: self.meaning }
    }

    /// The text of the entry's row: prefix, then label.
    pub open spec fn title_spec(self) -> Seq<char> {
        self.kind.prefix_spec() + self.meaning.label_spec()
    }

    /// Flips a checkbox in place. An actionable entry is left as it is.
    pub fn toggle(&mut self)
        ensures
            *final(self) == old(self).toggled(),
    {
        match self.kind {
            MenuItemKind::Checkbox(ref mut on) => *on = !*on,
            _ => (),
        };
    }

    /// The text of the entry's row.
    pub fn title(&self) -> (title: String)
        ensures
            title@ == self.title_spec(),
    {
        let mut title = String::from_str(self.kind.prefix());
        title.append(self.meaning.label());
        title
    }
}

} // verus!

//! The projection of a menu and a focus into styled rows.
//!
//! A frame is a plain value: one row per entry, in entry order. Drawing it
//! on a device is left to the caller.

use vstd::prelude::*;
use crate::menu_item::MenuItem;

verus! {

/// One drawn row: its text, and whether it carries the highlight style.
#[derive(Debug, PartialEq, Eq)]
pub struct Row {
    pub label: String,
    pub highlighted: bool,
}

/// A row as a mathematical value.
pub struct RowView {
    pub label: Seq<char>,
    pub highlighted: bool,
}

impl View for Row {
    type V = RowView;

    open spec fn view(&self) -> RowView {
        RowView { label: self.label@, highlighted: self.highlighted }
    }
}

/// The rows of a frame as mathematical values.
pub open spec fn rows_of(frame: Seq<Row>) -> Seq<RowView> {
    Seq::new(frame.len(), |i: int| frame[i]@)
}

/// The frame that a menu and a focus project to: row `i` shows the title of
/// entry `i`, and is highlighted exactly when `i` is the focus.
pub open spec fn frame_of(menu: Seq<MenuItem<'_>>, focus: int) -> Seq<RowView> {
    Seq::new(
        menu.len(),
        |i: int| RowView { label: menu[i].title_spec(), highlighted: i == focus },
    )
}

/// Projects a menu and a focus into a frame.
///
/// The result has one row per entry, in entry order, nothing cut and nothing
/// added. It depends on the two arguments alone. A focus past the last entry
/// highlights no row.
pub fn render(menu: &[MenuItem<'_>], focus: usize) -> (frame: Vec<Row>)
    ensures
        rows_of(frame@) == frame_of(menu@, focus as int),
{
    let mut frame: Vec<Row> = Vec::new();
    let mut i: usize = 0;
    while i < menu.len()
        invariant
            i <= menu.len(),
            frame.len() == i,
            forall|j: int|
                0 <= j < i ==> (#[trigger] frame[j])@ == frame_of(menu@, focus as int)[j],
        decreases menu.len() - i,
    {
        let row = Row { label: menu[i].title(), highlighted: i == focus };
        frame.push(row);
        i = i + 1;
    }
    frame
}

} // verus!

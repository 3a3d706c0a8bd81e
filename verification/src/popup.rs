//! The confirmation dialog raised when a card is dropped on a zone.
//!
//! The dialog is a fixed tree of panels: a full-screen overlay centers a
//! translucent panel holding a title bar and a row with a confirm and a
//! cancel button.  This module plans the tree as plain values; the host
//! spawns the widgets and routes each button's click back into the card's
//! state machine.

use vstd::prelude::*;

use crate::color::MilliColor;

verus! {

/// A widget length: absolute, or a share of the parent.
#[derive(Clone, Copy, Debug, PartialEq, Eq, Structural)]
pub enum UiVal {
    Px(i64),
    Pct(i64),
}

/// A widget's size.
#[derive(Clone, Copy, Debug, PartialEq, Eq, Structural)]
pub struct UiRect {
    pub width: UiVal,
    pub height: UiVal,
}

/// Which answer a dialog button gives.
#[derive(Clone, Copy, Debug, PartialEq, Eq, Structural)]
pub enum ButtonRole {
    Confirm,
    Cancel,
}

/// One dialog button; the host draws the role's own label on it.
#[derive(Clone, Copy, Debug, PartialEq, Eq, Structural)]
pub struct PopupButton {
    pub role: ButtonRole,
    pub size: UiRect,
    pub background: MilliColor,
    pub label_color: MilliColor,
    pub label_font_px: i64,
}

/// The whole dialog tree.
#[derive(Clone, Debug)]
pub struct PopupPlan {
    /// The full-screen overlay everything is centered in.
    pub overlay: UiRect,
    /// The dialog panel.
    pub panel: UiRect,
    pub panel_background: MilliColor,
    pub panel_border: MilliColor,
    pub panel_corner_px: i64,
    /// The title bar across the top of the panel.
    pub title_bar: UiRect,
    pub title: String,
    pub title_font_px: i64,
    pub title_color: MilliColor,
    /// The row the buttons are spread evenly across.
    pub button_row: UiRect,
    pub buttons: Vec<PopupButton>,
}

/// The dark confirm button with its yellow label.
pub open spec fn confirm_button() -> PopupButton {
    PopupButton {
        role: ButtonRole::Confirm,
        size: UiRect { width: UiVal::Px(80), height: UiVal::Px(40) },
        background: MilliColor { red: 0, green: 100, blue: 100, alpha: 1000 },
        label_color: MilliColor { red: 900, green: 900, blue: 0, alpha: 1000 },
        label_font_px: 33,
    }
}

/// The red cancel button with its light label.
pub open spec fn cancel_button() -> PopupButton {
    PopupButton {
        role: ButtonRole::Cancel,
        size: UiRect { width: UiVal::Px(80), height: UiVal::Px(40) },
        background: MilliColor { red: 1000, green: 0, blue: 0, alpha: 1000 },
        label_color: MilliColor { red: 900, green: 900, blue: 900, alpha: 1000 },
        label_font_px: 33,
    }
}

/// Plans the dialog for the given title: a translucent rounded panel on a
/// full-screen overlay, the title across its top, and the confirm and cancel
/// buttons spread across its bottom row.
pub fn popup_plan(title: String) -> (r: PopupPlan)
    ensures
        r.overlay == (UiRect { width: UiVal::Pct(100), height: UiVal::Pct(100) }),
        r.panel == (UiRect { width: UiVal::Px(500), height: UiVal::Px(100) }),
        r.panel_background == (MilliColor { red: 1000, green: 1000, blue: 1000, alpha: 600 }),
        r.panel_border == (MilliColor { red: 0, green: 0, blue: 0, alpha: 1000 }),
        r.panel_corner_px == 10,
        r.title_bar == (UiRect { width: UiVal::Pct(100), height: UiVal::Px(40) }),
        r.title@ == title@,
        r.title_font_px == 33,
        r.title_color == (MilliColor { red: 0, green: 0, blue: 0, alpha: 1000 }),
        r.button_row == (UiRect { width: UiVal::Pct(100), height: UiVal::Px(50) }),
        r.buttons@ =~= seq![confirm_button(), cancel_button()],
{
    let mut buttons: Vec<PopupButton> = Vec::new();
    buttons.push(PopupButton {
        role: ButtonRole::Confirm,
        size: UiRect { width: UiVal::Px(80), height: UiVal::Px(40) },
        background: MilliColor { red: 0, green: 100, blue: 100, alpha: 1000 },
        label_color: MilliColor { red: 900, green: 900, blue: 0, alpha: 1000 },
        label_font_px: 33,
    });
    buttons.push(PopupButton {
        role: ButtonRole::Cancel,
        size: UiRect { width: UiVal::Px(80), height: UiVal::Px(40) },
        background: MilliColor { red: 1000, green: 0, blue: 0, alpha: 1000 },
        label_color: MilliColor { red: 900, green: 900, blue: 900, alpha: 1000 },
        label_font_px: 33,
    });
    PopupPlan {
        overlay: UiRect { width: UiVal::Pct(100), height: UiVal::Pct(100) },
        panel: UiRect { width: UiVal::Px(500), height: UiVal::Px(100) },
        panel_background: MilliColor { red: 1000, green: 1000, blue: 1000, alpha: 600 },
        panel_border: MilliColor { red: 0, green: 0, blue: 0, alpha: 1000 },
        panel_corner_px: 10,
        title_bar: UiRect { width: UiVal::Pct(100), height: UiVal::Px(40) },
        title,
        title_font_px: 33,
        title_color: MilliColor { red: 0, green: 0, blue: 0, alpha: 1000 },
        button_row: UiRect { width: UiVal::Pct(100), height: UiVal::Px(50) },
        buttons,
    }
}

} // verus!

//! Values exchanged between the town's center pane and the items it shows.

use vstd::prelude::*;

verus! {

/// Event types that town items can emit.
#[derive(Clone, Copy, Eq, PartialEq, Hash, Debug, Structural)]
pub enum TownItemEvent {
    /// Request to close this item
    CloseItem,
    /// Tab content has changed and should be redrawn
    UpdateTab,
    /// Item content has been edited
    Edit,
}

/// The colours that a tab's text is drawn in.
#[derive(Clone, Copy, Eq, PartialEq, Hash, Debug, Structural)]
pub enum TextColor {
    Default,
    Muted,
    Hidden,
}

/// Parameters for rendering tab content.
#[derive(Clone, Copy, Default, Debug)]
pub struct TabContentParams {
    /// Whether this tab is currently selected
    pub selected: bool,
    /// Whether this tab should be deemphasized (pane not focused)
    pub deemphasized: bool,
}

/// The text colour of a tab: full only for the selected tab of a focused
/// pane, hidden only for an unselected tab of an unfocused one.
pub open spec fn text_color_of(selected: bool, deemphasized: bool) -> TextColor {
    if selected && !deemphasized {
        TextColor::Default
    } else if !selected && deemphasized {
        TextColor::Hidden
    } else {
        TextColor::Muted
    }
}

impl TabContentParams {
    /// Returns the text color to be used for the tab content.
    pub fn text_color(&self) -> (r: TextColor)
        ensures
            r == text_color_of(self.selected, self.deemphasized),
    {
        if self.deemphasized {
            if self.selected {
                TextColor::Muted
            } else {
                TextColor::Hidden
            }
        } else if self.selected {
            TextColor::Default
        } else {
            TextColor::Muted
        }
    }
}

} // verus!

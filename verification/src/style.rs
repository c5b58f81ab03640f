//! The sizes of the text styles, before any zoom.

use vstd::prelude::*;

verus! {

/// The roles a piece of text can have in the window.
#[derive(Clone, Copy, Debug, PartialEq, Eq, Structural)]
pub enum StyleRole {
    /// Running text of labels.
    Body,
    /// Section titles.
    Heading,
    /// The document itself.
    Monospace,
    /// Text on buttons and menu entries.
    Button,
}

/// Size of ordinary text, in points.
pub const TEXT_SIZE: u32 = 16;

/// Size of headings, in points.
pub const HEADING_SIZE: u32 = 32;

/// Space between a button's text and its edge on each side, in points.
pub const BUTTON_PADDING: u32 = 8;

/// The size of a role, in points: headings are twice as large as the rest.
pub open spec fn base_points(role: StyleRole) -> int {
    match role {
        StyleRole::Heading => HEADING_SIZE as int,
        StyleRole::Body | StyleRole::Monospace | StyleRole::Button => TEXT_SIZE as int,
    }
}

/// The size of a role, in points. The host sets the styles from this on
/// every frame.
pub fn base_size(role: StyleRole) -> (points: u32)
    ensures
        points == base_points(role),
{
    match role {
        StyleRole::Body => TEXT_SIZE,
        StyleRole::Heading => HEADING_SIZE,
        StyleRole::Monospace => TEXT_SIZE,
        StyleRole::Button => TEXT_SIZE,
    }
}

} // verus!

//! The emoji record: one selectable commit-type marker.

use vstd::prelude::*;

verus! {

/// One selectable commit-type marker, as loaded from the emoji catalog.
#[derive(Clone, Debug)]
pub struct Emoji {
    /// Colon-delimited shortcode, e.g. `:bug:`.
    pub code: String,
    /// Human-readable description.
    pub description: String,
    /// The glyph (or its textual rendering).
    pub emoji: String,
    /// Identifier.
    pub name: String,
}

impl Emoji {
    /// Builds a record from its four text fields.
    pub fn new(code: String, description: String, emoji: String, name: String) -> (r: Emoji)
        ensures
            r.code == code,
            r.description == description,
            r.emoji == emoji,
            r.name == name,
    {
        Emoji { code, description, emoji, name }
    }

    /// The line shown for this record in the selection list:
    /// the glyph, a separating dash, and the description.
    pub fn display_line(&self) -> (r: String)
        ensures
            r@ == self.emoji@ + " - "@ + self.description@,
    {
        let mut r = self.emoji.clone();
        r.append(" - ");
        r.append(self.description.as_str());
        r
    }
}

} // verus!

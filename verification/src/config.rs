//! User preferences that control which prompts run and their defaults.

use vstd::prelude::*;

verus! {

/// How a chosen emoji is rendered in the final commit text: as its
/// colon-delimited shortcode or as the glyph itself.
#[derive(Clone, Copy, Debug, PartialEq, Eq, Structural)]
pub enum EmojiFormat {
    CODE,
    EMOJI,
}

/// Preferences controlling which prompts appear and their defaults.
/// The fields are independent; there is no cross-field invariant.
#[derive(Clone, Copy, Debug, PartialEq, Eq, Structural)]
pub struct CommitConfig {
    pub auto_add: bool,
    pub signed_commit: bool,
    pub scope_prompt_enabled: bool,
    pub issue_prompt_enabled: bool,
    pub emoji_format: EmojiFormat,
}

/// The pre-selected index of the emoji-format selection list for a current
/// format: the shortcode entry comes first, the glyph entry second.
pub fn emoji_format_default_index(current: EmojiFormat) -> (i: usize)
    ensures
        i < 2,
        i == 0 <==> current == EmojiFormat::CODE,
{
    match current {
        EmojiFormat::CODE => 0,
        EmojiFormat::EMOJI => 1,
    }
}

/// The format that a choice from the emoji-format selection list stands for:
/// the first entry is the shortcode format, the second the glyph format.
pub fn emoji_format_from_index(i: usize) -> (f: EmojiFormat)
    requires
        i < 2,
    ensures
        f == EmojiFormat::CODE <==> i == 0,
{
    if i == 0 {
        EmojiFormat::CODE
    } else {
        EmojiFormat::EMOJI
    }
}

/// The display text of an emoji-format selection entry.
pub fn emoji_format_display(f: EmojiFormat) -> (s: &'static str)
    ensures
        f == EmojiFormat::CODE ==> s@ == ":smile:"@,
        f == EmojiFormat::EMOJI ==> s@ == "😄"@,
{
    match f {
        EmojiFormat::CODE => ":smile:",
        EmojiFormat::EMOJI => "😄",
    }
}

} // verus!

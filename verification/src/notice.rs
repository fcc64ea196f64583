//! What the tool says to the user, and the words it says it in.

use vstd::prelude::*;
use vstd::string::StringExecFns;

verus! {

/// The three lines of the main menu.
pub const MENU_TEXT: &'static str = "What would you like to do?\n1. Mass leave guilds\n2. Exit";

/// The line that answers an input that is none of the choices.
pub const INVALID_INPUT_TEXT: &'static str = "Invalid input! Please try again.";

/// The line that reports an empty listing.
pub const NO_GUILDS_TEXT: &'static str = "No guilds found.";

/// A question that is put to the user before a line is read.
#[derive(Debug, PartialEq, Eq)]
pub enum Prompt {
    /// The main menu.
    Menu,
    /// Whether to leave the guild of this name.
    Confirm(String),
}

/// What a [`Prompt`] is in contracts.
pub enum PromptView {
    Menu,
    Confirm(Seq<char>),
}

impl View for Prompt {
    type V = PromptView;

    open spec fn view(&self) -> PromptView {
        match self {
            Prompt::Menu => PromptView::Menu,
            Prompt::Confirm(name) => PromptView::Confirm(name@),
        }
    }
}

impl PromptView {
    /// The words of the prompt.
    pub open spec fn text(self) -> Seq<char> {
        match self {
            PromptView::Menu => MENU_TEXT@,
            PromptView::Confirm(name) => "Would you like to leave guild "@ + name + " (y/n)?"@,
        }
    }
}

impl Prompt {
    /// The words of the prompt.
    pub fn text(&self) -> (words: String)
        ensures
            words@ == self@.text(),
    {
        match self {
            Prompt::Menu => String::from_str(MENU_TEXT),
            Prompt::Confirm(name) => {
                let mut words = String::from_str("Would you like to leave guild ");
                words.append(name.as_str());
                words.append(" (y/n)?");
                words
            },
        }
    }
}

/// Something that the user is told after an input or a reply.
#[derive(Debug, PartialEq, Eq)]
pub enum Notice {
    /// The input was none of the choices.
    InvalidInput,
    /// The listing came back empty, or did not come back.
    NoGuilds,
    /// The guild of this name was left.
    Left(String),
    /// The guild of this name could not be left.
    LeaveFailed(String),
    /// The guild of this name was kept on the user's word.
    Skipped(String),
}

/// What a [`Notice`] is in contracts.
pub enum NoticeView {
    InvalidInput,
    NoGuilds,
    Left(Seq<char>),
    LeaveFailed(Seq<char>),
    Skipped(Seq<char>),
}

impl View for Notice {
    type V = NoticeView;

    open spec fn view(&self) -> NoticeView {
        match self {
            Notice::InvalidInput => NoticeView::InvalidInput,
            Notice::NoGuilds => NoticeView::NoGuilds,
            Notice::Left(name) => NoticeView::Left(name@),
            Notice::LeaveFailed(name) => NoticeView::LeaveFailed(name@),
            Notice::Skipped(name) => NoticeView::Skipped(name@),
        }
    }
}

impl NoticeView {
    /// The words of the notice.
    pub open spec fn text(self) -> Seq<char> {
        match self {
            NoticeView::InvalidInput => INVALID_INPUT_TEXT@,
            NoticeView::NoGuilds => NO_GUILDS_TEXT@,
            NoticeView::Left(name) => "Successfully left guild "@ + name + "!"@,
            NoticeView::LeaveFailed(name) => "Failed to leave guild "@ + name + "!"@,
            NoticeView::Skipped(name) => "Skipped leaving guild "@ + name + "."@,
        }
    }
}

/// `head`, `name` and `tail` in one string.
fn framed(head: &str, name: &str, tail: &str) -> (words: String)
    ensures
        words@ == head@ + name@ + tail@,
{
    let mut words = String::from_str(head);
    words.append(name);
    words.append(tail);
    words
}

impl Notice {
    /// The words of the notice.
    pub fn text(&self) -> (words: String)
        ensures
            words@ == self@.text(),
    {
        match self {
            Notice::InvalidInput => String::from_str(INVALID_INPUT_TEXT),
            Notice::NoGuilds => String::from_str(NO_GUILDS_TEXT),
            Notice::Left(name) => framed("Successfully left guild ", name.as_str(), "!"),
            Notice::LeaveFailed(name) => framed("Failed to leave guild ", name.as_str(), "!"),
            Notice::Skipped(name) => framed("Skipped leaving guild ", name.as_str(), "."),
        }
    }
}

} // verus!

//! Log tags: every log line of the bot is tagged with the action
//! category it belongs to, and each category has a fixed label and a
//! fixed background highlight. Rendering the highlight into terminal
//! escape codes is the runner's business; the mapping from category to
//! label and highlight is decided here.

use vstd::prelude::*;

verus! {

/// The action category a log line is tagged with.
#[derive(Clone, Copy, PartialEq, Eq, Structural, Debug)]
pub enum LogType {
    Extract,
    Sell,
    Navigate,
    Deliver,
    Dock,
}

/// The background highlight a log tag is rendered with.
#[derive(Clone, Copy, PartialEq, Eq, Structural, Debug)]
pub enum Highlight {
    OnRed,
    OnGreen,
    OnYellow,
    OnBlue,
    OnMagenta,
}

/// The label text of each tag.
pub open spec fn spec_label(t: LogType) -> Seq<char> {
    match t {
        LogType::Deliver => "DELIVER"@,
        LogType::Sell => "SELL"@,
        LogType::Dock => "DOCK"@,
        LogType::Navigate => "NAVIGATE"@,
        LogType::Extract => "EXTRACT"@,
    }
}

/// The highlight of each tag.
pub open spec fn spec_colored(t: LogType) -> Highlight {
    match t {
        LogType::Deliver => Highlight::OnRed,
        LogType::Sell => Highlight::OnGreen,
        LogType::Dock => Highlight::OnYellow,
        LogType::Navigate => Highlight::OnBlue,
        LogType::Extract => Highlight::OnMagenta,
    }
}

impl LogType {
    /// The tag's label text.
    pub fn label(&self) -> (s: &'static str)
        ensures
            s@ == spec_label(*self),
    {
        match self {
            LogType::Deliver => "DELIVER",
            LogType::Sell => "SELL",
            LogType::Dock => "DOCK",
            LogType::Navigate => "NAVIGATE",
            LogType::Extract => "EXTRACT",
        }
    }

    /// The background highlight the tag is rendered with.
    pub fn colored(&self) -> (h: Highlight)
        ensures
            h == spec_colored(*self),
    {
        match self {
            LogType::Deliver => Highlight::OnRed,
            LogType::Sell => Highlight::OnGreen,
            LogType::Dock => Highlight::OnYellow,
            LogType::Navigate => Highlight::OnBlue,
            LogType::Extract => Highlight::OnMagenta,
        }
    }
}

} // verus!

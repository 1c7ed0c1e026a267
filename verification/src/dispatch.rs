//! What the event handler decides: which command or button an
//! interaction names. The decision is pure text classification and is
//! verified here; performing the chosen action is the caller's affair.

use vstd::prelude::*;

use crate::text::{starts_with_sub, str_eq};

verus! {

/// The slash commands the bot understands.
#[derive(Clone, Copy, PartialEq, Eq, Structural, Debug)]
pub enum CommandKind {
    Clear,
    DamnitJimmy,
    Help,
    Join,
    Leave,
    List,
    LoopToggle,
    NowPlaying,
    Pause,
    Ping,
    PlayTitle,
    PlayUrl,
    Search,
    Skip,
    Resume,
}

/// The buttons the bot understands; a `search_play_` prefix marks a
/// search-result pick.
#[derive(Clone, Copy, PartialEq, Eq, Structural, Debug)]
pub enum ButtonKind {
    SearchPlay,
    Clear,
    LoopToggle,
    Pause,
    Resume,
    Skip,
}

/// Which command a name denotes.
pub open spec fn spec_parse_command(name: Seq<char>) -> Option<CommandKind> {
    if name == "clear"@ {
        Some(CommandKind::Clear)
    } else if name == "damnit-jimmy"@ {
        Some(CommandKind::DamnitJimmy)
    } else if name == "help"@ {
        Some(CommandKind::Help)
    } else if name == "join"@ {
        Some(CommandKind::Join)
    } else if name == "leave"@ {
        Some(CommandKind::Leave)
    } else if name == "list"@ {
        Some(CommandKind::List)
    } else if name == "loop"@ {
        Some(CommandKind::LoopToggle)
    } else if name == "now-playing"@ {
        Some(CommandKind::NowPlaying)
    } else if name == "pause"@ {
        Some(CommandKind::Pause)
    } else if name == "ping"@ {
        Some(CommandKind::Ping)
    } else if name == "play-title"@ {
        Some(CommandKind::PlayTitle)
    } else if name == "play-url"@ {
        Some(CommandKind::PlayUrl)
    } else if name == "search"@ {
        Some(CommandKind::Search)
    } else if name == "skip"@ {
        Some(CommandKind::Skip)
    } else if name == "resume"@ {
        Some(CommandKind::Resume)
    } else {
        None
    }
}

/// Which button an interaction's identifier denotes.
pub open spec fn spec_parse_button(id: Seq<char>) -> Option<ButtonKind> {
    if "search_play_"@.is_prefix_of(id) {
        Some(ButtonKind::SearchPlay)
    } else if id == "clear"@ {
        Some(ButtonKind::Clear)
    } else if id == "loop"@ {
        Some(ButtonKind::LoopToggle)
    } else if id == "pause"@ {
        Some(ButtonKind::Pause)
    } else if id == "resume"@ {
        Some(ButtonKind::Resume)
    } else if id == "skip"@ {
        Some(ButtonKind::Skip)
    } else {
        None
    }
}

/// Classifies a slash command's name; unknown names come back as
/// `None` for the caller to report.
pub fn parse_command(name: &str) -> (r: Option<CommandKind>)
    ensures
        r == spec_parse_command(name@),
{
    if str_eq(name, "clear") {
        Some(CommandKind::Clear)
    } else if str_eq(name, "damnit-jimmy") {
        Some(CommandKind::DamnitJimmy)
    } else if str_eq(name, "help") {
        Some(CommandKind::Help)
    } else if str_eq(name, "join") {
        Some(CommandKind::Join)
    } else if str_eq(name, "leave") {
        Some(CommandKind::Leave)
    } else if str_eq(name, "list") {
        Some(CommandKind::List)
    } else if str_eq(name, "loop") {
        Some(CommandKind::LoopToggle)
    } else if str_eq(name, "now-playing") {
        Some(CommandKind::NowPlaying)
    } else if str_eq(name, "pause") {
        Some(CommandKind::Pause)
    } else if str_eq(name, "ping") {
        Some(CommandKind::Ping)
    } else if str_eq(name, "play-title") {
        Some(CommandKind::PlayTitle)
    } else if str_eq(name, "play-url") {
        Some(CommandKind::PlayUrl)
    } else if str_eq(name, "search") {
        Some(CommandKind::Search)
    } else if str_eq(name, "skip") {
        Some(CommandKind::Skip)
    } else if str_eq(name, "resume") {
        Some(CommandKind::Resume)
    } else {
        None
    }
}

/// Classifies a button interaction's identifier; unknown identifiers
/// come back as `None` for the caller to report.
pub fn parse_button(id: &str) -> (r: Option<ButtonKind>)
    ensures
        r == spec_parse_button(id@),
{
    if starts_with_sub(id, "search_play_") {
        Some(ButtonKind::SearchPlay)
    } else if str_eq(id, "clear") {
        Some(ButtonKind::Clear)
    } else if str_eq(id, "loop") {
        Some(ButtonKind::LoopToggle)
    } else if str_eq(id, "pause") {
        Some(ButtonKind::Pause)
    } else if str_eq(id, "resume") {
        Some(ButtonKind::Resume)
    } else if str_eq(id, "skip") {
        Some(ButtonKind::Skip)
    } else {
        None
    }
}

} // verus!

//! The symbols that the user can restyle, what they are where the theme
//! leaves them out, and the sections that a theme file must have.

use crate::strings::str_contains;
use vstd::prelude::*;
use vstd::string::StringExecFns;

verus! {

/// The symbols of the theme.
#[derive(Debug, PartialEq, Eq)]
pub struct ThemeStyles {
    pub scrollbar_begin: Option<String>,
    pub scrollbar_end: Option<String>,
    pub scrollbar_thumb: Option<String>,
    pub scrollbar_track: Option<String>,
    pub highlight_symbol: String,
    pub urgency_low: String,
    pub urgency_medium: String,
    pub urgency_high: String,
    pub urgency_critical: String,
    pub completed: String,
}

/// The symbol at the start of a scrollbar: an arrow up.
pub fn scroll_begin() -> (symbol: Option<String>)
    ensures
        symbol matches Some(s) && s@ == "↑"@,
{
    Some(String::from_str("↑"))
}

/// The symbol at the end of a scrollbar: an arrow down.
pub fn scroll_end() -> (symbol: Option<String>)
    ensures
        symbol matches Some(s) && s@ == "↓"@,
{
    Some(String::from_str("↓"))
}

/// The symbol of the thumb of a scrollbar: a full block.
pub fn scroll_thumb() -> (symbol: Option<String>)
    ensures
        symbol matches Some(s) && s@ == "█"@,
{
    Some(String::from_str("█"))
}

/// The symbol of the track of a scrollbar: nothing.
pub fn scroll_track() -> (symbol: Option<String>)
    ensures
        symbol matches Some(s) && s@ == ""@,
{
    Some(String::from_str(""))
}

/// The symbol that marks the selected task.
pub fn highlight_symbol() -> (symbol: String)
    ensures
        symbol@ == ">"@,
{
    String::from_str(">")
}

/// The marks of a task of low urgency: none.
pub fn urgency_low() -> (marks: String)
    ensures
        marks@ == "   "@,
{
    String::from_str("   ")
}

/// The marks of a task of medium urgency.
pub fn urgency_medium() -> (marks: String)
    ensures
        marks@ == "!  "@,
{
    String::from_str("!  ")
}

/// The marks of a task of high urgency.
pub fn urgency_high() -> (marks: String)
    ensures
        marks@ == "!! "@,
{
    String::from_str("!! ")
}

/// The marks of a task of critical urgency.
pub fn urgency_critical() -> (marks: String)
    ensures
        marks@ == "!!!"@,
{
    String::from_str("!!!")
}

/// The mark of a completed task.
pub fn completed() -> (mark: String)
    ensures
        mark@ == "✓  "@,
{
    String::from_str("✓  ")
}

impl Default for ThemeStyles {
    /// The symbols of a theme that restyles none.
    fn default() -> (styles: Self)
        ensures
            styles.scrollbar_begin matches Some(s) && s@ == "↑"@,
            styles.scrollbar_end matches Some(s) && s@ == "↓"@,
            styles.scrollbar_thumb matches Some(s) && s@ == "█"@,
            styles.scrollbar_track matches Some(s) && s@ == ""@,
            styles.highlight_symbol@ == ">"@,
            styles.urgency_low@ == "   "@,
            styles.urgency_medium@ == "!  "@,
            styles.urgency_high@ == "!! "@,
            styles.urgency_critical@ == "!!!"@,
            styles.completed@ == "✓  "@,
    {
        ThemeStyles {
            scrollbar_begin: scroll_begin(),
            scrollbar_end: scroll_end(),
            scrollbar_thumb: scroll_thumb(),
            scrollbar_track: scroll_track(),
            highlight_symbol: highlight_symbol(),
            urgency_low: urgency_low(),
            urgency_medium: urgency_medium(),
            urgency_high: urgency_high(),
            urgency_critical: urgency_critical(),
            completed: completed(),
        }
    }
}

/// The header of the section `name` of a theme file.
pub open spec fn section_header(name: Seq<char>) -> Seq<char> {
    "["@ + name + "]"@
}

/// The text `buf` with the section `name` added at its end, unless `buf` has
/// the name in it already.
pub open spec fn with_section(buf: Seq<char>, name: Seq<char>) -> Seq<char> {
    if crate::strings::is_substring(name, buf) {
        buf
    } else {
        buf + "\n"@ + section_header(name)
    }
}

/// The text of a theme file that restyles nothing: the headers of the three
/// sections, one on each line.
pub open spec fn empty_theme() -> Seq<char> {
    section_header("theme_colors"@) + "\n"@ + section_header("text_colors"@) + "\n"@
        + section_header("theme_styles"@) + "\n"@
}

/// Adds the section `name` at the end of `buf` unless `buf` has the name in
/// it already. Returns whether the section was added.
pub fn ensure_section(buf: &mut String, name: &str) -> (added: bool)
    ensures
        final(buf)@ == with_section(old(buf)@, name@),
        added == !crate::strings::is_substring(name@, old(buf)@),
{
    if str_contains(buf.as_str(), name) {
        false
    } else {
        buf.append("\n");
        buf.append("[");
        buf.append(name);
        buf.append("]");
        assert(buf@ =~= old(buf)@ + "\n"@ + section_header(name@));
        true
    }
}

/// The text of a theme file with each of the three sections of a theme added
/// that it lacks: the colors of the panes, the colors of the texts, and the
/// symbols. A theme file that has all three is left as it is.
pub fn complete_theme(buf: String) -> (full: String)
    ensures
        full@ == with_section(
            with_section(with_section(buf@, "theme_colors"@), "text_colors"@),
            "theme_styles"@,
        ),
{
    let mut full = buf;
    ensure_section(&mut full, "theme_colors");
    ensure_section(&mut full, "text_colors");
    ensure_section(&mut full, "theme_styles");
    full
}

/// The text of a theme file that restyles nothing.
pub fn empty_theme_toml() -> (text: String)
    ensures
        text@ == empty_theme(),
{
    let mut text = String::new();
    text.append("[");
    text.append("theme_colors");
    text.append("]");
    text.append("\n");
    text.append("[");
    text.append("text_colors");
    text.append("]");
    text.append("\n");
    text.append("[");
    text.append("theme_styles");
    text.append("]");
    text.append("\n");
    assert(text@ =~= empty_theme());
    text
}

} // verus!

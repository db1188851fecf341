//! The outside functions this library relies on, each with the contract it
//! is believed to meet.
use vstd::prelude::*;

verus! {

#[verifier::external_type_specification]
#[verifier::external_body]
pub struct ExUuid(uuid::Uuid);

/// Relies on uuid::Uuid::new_v4: a random version-4 identifier, of which
/// nothing can be promised.
pub assume_specification[ uuid::Uuid::new_v4 ]() -> uuid::Uuid;

/// Relies on uuid's `Display` for `Uuid`: the hyphenated lowercase form,
/// 32 hex digits and 4 hyphens.
#[verifier::external_body]
pub(crate) fn uuid_text(u: &uuid::Uuid) -> (r: String)
    ensures
        r@.len() == 36,
{
    u.to_string()
}

#[verifier::external_type_specification]
#[verifier::external_body]
pub struct ExSystemTime(std::time::SystemTime);

#[verifier::external_type_specification]
#[verifier::external_body]
pub struct ExSystemTimeError(std::time::SystemTimeError);

/// Relies on std's SystemTime::now: the wall-clock time, of which nothing
/// can be promised.
pub assume_specification[ std::time::SystemTime::now ]() -> std::time::SystemTime;

/// Relies on SystemTime::duration_since, measured from the Unix epoch: the
/// elapsed time, or an error where the clock reads earlier than the epoch.
#[verifier::external_body]
pub(crate) fn since_unix_epoch(t: &std::time::SystemTime) -> (r: Result<
    core::time::Duration,
    std::time::SystemTimeError,
>) {
    t.duration_since(std::time::UNIX_EPOCH)
}

/// Relies on Duration::as_secs: the whole seconds of a duration.
pub assume_specification[ core::time::Duration::as_secs ](d: &core::time::Duration) -> u64;

/// How a character is written inside a JSON string: the quote, the
/// backslash and the control characters are escaped (short forms for
/// backspace, tab, line feed, form feed and carriage return, `\u00xx` with
/// lowercase hex digits for the others); every other character stands as it
/// is.
pub open spec fn json_char_escape(c: char) -> Seq<char> {
    if c == '"' {
        seq!['\\', '"']
    } else if c == '\\' {
        seq!['\\', '\\']
    } else if c == '\x08' {
        seq!['\\', 'b']
    } else if c == '\t' {
        seq!['\\', 't']
    } else if c == '\n' {
        seq!['\\', 'n']
    } else if c == '\x0C' {
        seq!['\\', 'f']
    } else if c == '\r' {
        seq!['\\', 'r']
    } else if (c as u32) < 0x20 {
        seq![
            '\\',
            'u',
            '0',
            '0',
            "0123456789abcdef"@[(c as u32 / 16) as int],
            "0123456789abcdef"@[(c as u32 % 16) as int],
        ]
    } else {
        seq![c]
    }
}

/// The characters of a text, each written as inside a JSON string.
pub open spec fn json_escaped(s: Seq<char>) -> Seq<char>
    decreases s.len(),
{
    if s.len() == 0 {
        Seq::empty()
    } else {
        json_escaped(s.drop_last()) + json_char_escape(s.last())
    }
}

/// The JSON string literal of a text: its escaped characters between quotes.
pub open spec fn json_string_literal(s: Seq<char>) -> Seq<char> {
    seq!['"'] + json_escaped(s) + seq!['"']
}

/// Relies on serde_json::to_string on a string slice: the text between
/// quotes, with the characters its escape table names escaped (only ASCII
/// bytes are ever escaped, so the text is escaped character by character).
/// Serializing a string slice cannot fail.
#[verifier::external_body]
pub(crate) fn json_string(s: &str) -> (r: String)
    ensures
        r@ == json_string_literal(s@),
{
    serde_json::to_string(s).unwrap_or_default()
}

/// The extension of a path's file name.
pub uninterp spec fn extension_of(path: Seq<char>) -> Option<Seq<char>>;

/// Relies on camino::Utf8Path::extension: the extension of the file name, if
/// it has one.
#[verifier::external_body]
pub(crate) fn path_extension(path: &str) -> (r: Option<String>)
    ensures
        opt_text(r) == extension_of(path@),
{
    camino::Utf8Path::new(path).extension().map(|e| e.to_owned())
}

/// The path without its last component.
pub uninterp spec fn parent_of(path: Seq<char>) -> Option<Seq<char>>;

/// Relies on camino::Utf8Path::parent: the path without its final component,
/// if there is one.
#[verifier::external_body]
pub(crate) fn path_parent(path: &str) -> (r: Option<String>)
    ensures
        opt_text(r) == parent_of(path@),
{
    camino::Utf8Path::new(path).parent().map(|p| p.as_str().to_owned())
}

/// The final component of a path, where it names a file or directory.
pub uninterp spec fn file_name_of(path: Seq<char>) -> Option<Seq<char>>;

/// Relies on camino::Utf8Path::file_name: the final component, unless the
/// path ends in `..`.
#[verifier::external_body]
pub(crate) fn path_file_name(path: &str) -> (r: Option<String>)
    ensures
        opt_text(r) == file_name_of(path@),
{
    camino::Utf8Path::new(path).file_name().map(|n| n.to_owned())
}

/// The components of a path in order: the text of each normal component,
/// and `None` for a root, prefix, `.` or `..` component.
pub uninterp spec fn components_of(path: Seq<char>) -> Seq<Option<Seq<char>>>;

/// Relies on camino::Utf8Path::components: the components of the path, in
/// order.
#[verifier::external_body]
pub(crate) fn path_components(path: &str) -> (r: Vec<Option<String>>)
    ensures
        r@.map_values(|c: Option<String>| opt_text(c)) == components_of(path@),
{
    camino::Utf8Path::new(path).components().map(|c| match c {
        camino::Utf8Component::Normal(s) => Some(s.to_owned()),
        _ => None,
    }).collect()
}

/// The capture groups of the first match of a regular expression in a text:
/// group 0 is the whole match, and a group that took no part is `None`.
/// There is no match, and no groups, where the pattern is invalid.
pub uninterp spec fn captures_of(pattern: Seq<char>, text: Seq<char>) -> Option<Seq<Option<Seq<char>>>>;

/// Relies on regex::Regex::new and Regex::captures: the groups of the
/// leftmost-first match of the pattern.
#[verifier::external_body]
pub(crate) fn regex_captures(pattern: &str, text: &str) -> (r: Option<Vec<Option<String>>>)
    ensures
        match r {
            Some(groups) => captures_of(pattern@, text@) == Some(
                groups@.map_values(|g: Option<String>| opt_text(g)),
            ),
            None => captures_of(pattern@, text@) is None,
        },
{
    let re = regex::Regex::new(pattern).ok()?;
    let caps = re.captures(text)?;
    Some(caps.iter().map(|m| m.map(|m| m.as_str().to_owned())).collect())
}

/// The text of an optional string.
pub open spec fn opt_text(o: Option<String>) -> Option<Seq<char>> {
    match o {
        Some(s) => Some(s@),
        None => None,
    }
}

} // verus!

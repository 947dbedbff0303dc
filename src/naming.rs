use vstd::prelude::*;

verus! {

/// Whether std's `Path::extension` finds an extension in `path`.
pub uninterp spec fn path_has_extension(path: Seq<char>) -> bool;

/// What std's `Path::with_extension` makes of `path` and `extension`.
pub uninterp spec fn path_with_extension(path: Seq<char>, extension: Seq<char>) -> Seq<char>;

/// Relies on `std::path::Path::extension`: whether the file name of `path`
/// has an extension. The answer depends on the text alone.
#[verifier::external_body]
fn has_extension(path: &str) -> (r: bool)
    ensures
        r == path_has_extension(path@),
{
    std::path::Path::new(path).extension().is_some()
}

/// Relies on `std::path::Path::with_extension`: `path` with its extension set
/// to `extension`. The result depends on the two texts alone, and both are
/// valid UTF-8, so the conversion back to a string loses nothing. std panics
/// when the extension holds a path separator, `/` on Unix.
#[verifier::external_body]
fn with_extension(path: &str, extension: &str) -> (r: String)
    requires
        !extension@.contains('/'),
    ensures
        r@ == path_with_extension(path@, extension@),
{
    std::path::Path::new(path).with_extension(extension).to_string_lossy().into_owned()
}

/// The path of the note called `name`: the notes directory followed by the
/// name, with the default extension added when the name has none.
pub open spec fn note_path_of(
    notes_directory: Seq<char>,
    name: Seq<char>,
    default_extension: Seq<char>,
) -> Seq<char> {
    let joined = notes_directory + name;
    if path_has_extension(joined) {
        joined
    } else {
        path_with_extension(joined, default_extension)
    }
}

/// The path of the note called `name` (see `note_path_of`). The default
/// extension must not hold a path separator.
pub fn note_path(notes_directory: &str, name: &str, default_extension: &str) -> (r: String)
    requires
        !default_extension@.contains('/'),
    ensures
        r@ == note_path_of(notes_directory@, name@, default_extension@),
{
    let mut joined = String::from_str(notes_directory);
    joined.append(name);
    if has_extension(joined.as_str()) {
        joined
    } else {
        with_extension(joined.as_str(), default_extension)
    }
}

/// The verdict on a name typed for a new or renamed note.
#[derive(Clone, Copy, Debug, PartialEq, Eq, Structural)]
pub enum NameCheck {
    /// Nothing was typed.
    Empty,
    /// A note already has the target path: nothing may be created or renamed,
    /// and the user is asked again.
    Taken,
    /// The target path is free.
    Available,
}

/// Judges the name `name`, given whether its target path already exists.
/// Only `Available` lets the caller create or rename a note.
pub fn check_note_name(name: &str, target_exists: bool) -> (r: NameCheck)
    ensures
        r == (if name@.len() == 0 {
            NameCheck::Empty
        } else if target_exists {
            NameCheck::Taken
        } else {
            NameCheck::Available
        }),
        target_exists ==> r != NameCheck::Available,
{
    if name.unicode_len() == 0 {
        NameCheck::Empty
    } else if target_exists {
        NameCheck::Taken
    } else {
        NameCheck::Available
    }
}

/// What the create and rename prompts do after a name check.
#[derive(Clone, Copy, Debug, PartialEq, Eq, Structural)]
pub enum NameStep {
    /// Create or rename the note under the checked name.
    Apply,
    /// Leave the notes and the selection as they are, warn, and ask again.
    AskAgain,
}

/// Only an available name is applied; an empty or taken name is asked for
/// again, so nothing is created or renamed for it.
pub fn next_name_step(check: NameCheck) -> (r: NameStep)
    ensures
        r == (if check == NameCheck::Available {
            NameStep::Apply
        } else {
            NameStep::AskAgain
        }),
{
    match check {
        NameCheck::Available => NameStep::Apply,
        _ => NameStep::AskAgain,
    }
}

} // verus!

use vstd::prelude::*;

verus! {

/// Where notes live when the configuration does not say.
pub const DEFAULT_NOTES_DIRECTORY: &'static str = "~/.notes/";

/// The default note's file name when the configuration does not say.
pub const DEFAULT_NOTES_FILE: &'static str = "default_notes.txt";

/// The extension given to new names without one, when the configuration
/// does not say.
pub const DEFAULT_FILE_EXTENSION: &'static str = "txt";

/// `path` with a leading `~` replaced by `home`.
pub open spec fn expand_home(path: Seq<char>, home: Seq<char>) -> Seq<char> {
    if path.len() > 0 && path[0] == '~' {
        home + path.drop_first()
    } else {
        path
    }
}

/// Replaces a leading `~` in `path` with the home directory `home`.
pub fn expand_homedir(path: String, home: &str) -> (r: String)
    ensures
        r@ == expand_home(path@, home@),
{
    let len = path.as_str().unicode_len();
    if len > 0 && path.as_str().get_char(0) == '~' {
        let rest = path.as_str().substring_char(1, len);
        let mut expanded = String::from_str(home);
        expanded.append(rest);
        proof {
            assert(path@.subrange(1, len as int) =~= path@.drop_first());
        }
        expanded
    } else {
        path
    }
}

/// The settings of the browser.
pub struct ConfigView {
    pub notes_directory: Seq<char>,
    pub default_notes_file: Seq<char>,
    pub default_file_extension: Seq<char>,
}

/// Where the notes are, which one is the default note, and which extension
/// new names get.
pub struct Config {
    notes_directory: String,
    default_notes_file: String,
    default_file_extension: String,
}

impl View for Config {
    type V = ConfigView;

    closed spec fn view(&self) -> ConfigView {
        ConfigView {
            notes_directory: self.notes_directory@,
            default_notes_file: self.default_notes_file@,
            default_file_extension: self.default_file_extension@,
        }
    }
}

/// A setting's value, or its default when it is absent.
pub open spec fn or_default(value: Option<String>, default: Seq<char>) -> Seq<char> {
    match value {
        Some(v) => v@,
        None => default,
    }
}

fn setting_or(value: Option<String>, default: &str) -> (r: String)
    ensures
        r@ == or_default(value, default@),
{
    match value {
        Some(v) => v,
        None => String::from_str(default),
    }
}

impl Config {
    /// The configuration from the settings that were given (each `None` takes
    /// its default), with a leading `~` of the two paths replaced by `home`.
    pub fn new(
        notes_directory: Option<String>,
        default_notes_file: Option<String>,
        default_file_extension: Option<String>,
        home: &str,
    ) -> (r: Config)
        ensures
            r@.notes_directory == expand_home(
                or_default(notes_directory, DEFAULT_NOTES_DIRECTORY@),
                home@,
            ),
            r@.default_notes_file == expand_home(
                or_default(default_notes_file, DEFAULT_NOTES_FILE@),
                home@,
            ),
            r@.default_file_extension == or_default(
                default_file_extension,
                DEFAULT_FILE_EXTENSION@,
            ),
    {
        let notes_directory = setting_or(notes_directory, DEFAULT_NOTES_DIRECTORY);
        let default_notes_file = setting_or(default_notes_file, DEFAULT_NOTES_FILE);
        let default_file_extension = setting_or(default_file_extension, DEFAULT_FILE_EXTENSION);
        Config {
            notes_directory: expand_homedir(notes_directory, home),
            default_notes_file: expand_homedir(default_notes_file, home),
            default_file_extension,
        }
    }

    /// The default note's path: the notes directory followed by its file name.
    pub fn get_default_notes_path(&self) -> (r: String)
        ensures
            r@ == self@.notes_directory + self@.default_notes_file,
    {
        let mut path = self.notes_directory.clone();
        path.append(self.default_notes_file.as_str());
        path
    }

    /// A file called `name` is the default (protected) note.
    pub fn is_default_note(&self, name: &String) -> (r: bool)
        ensures
            r == (name@ == self@.default_notes_file),
    {
        *name == self.default_notes_file
    }

    pub fn get_default_notes_file(&self) -> (r: &str)
        ensures
            r@ == self@.default_notes_file,
    {
        self.default_notes_file.as_str()
    }

    pub fn get_notes_directory(&self) -> (r: &str)
        ensures
            r@ == self@.notes_directory,
    {
        self.notes_directory.as_str()
    }

    pub fn get_default_file_extension(&self) -> (r: &str)
        ensures
            r@ == self@.default_file_extension,
    {
        self.default_file_extension.as_str()
    }
}

} // verus!

use vstd::prelude::*;

use crate::render::{Column, Columnar, Field};
use crate::text::decimal;

verus! {

/// The pattern that modification times are shown with.
pub const DATE_FORMAT: &'static str = "%b %m %I:%M";

/// Shown after the name of the default (protected) note.
pub const DEFAULT_INDICATOR: &'static str = "  [Default]";

/// The characters of `DEFAULT_INDICATOR`.
pub open spec fn default_indicator() -> Seq<char> {
    seq![' ', ' ', '[', 'D', 'e', 'f', 'a', 'u', 'l', 't', ']']
}

/// Relies on the `Display` of `u64` from std, which writes the number in
/// decimal without sign, padding or leading zeros.
#[verifier::external_body]
fn decimal_text(n: u64) -> (r: String)
    ensures
        r@ == decimal(n as nat),
{
    n.to_string()
}

/// The characters of `DATE_FORMAT`.
pub open spec fn date_format() -> Seq<char> {
    seq!['%', 'b', ' ', '%', 'm', ' ', '%', 'I', ':', '%', 'M']
}

/// Relies on chrono: `DateTime::from_timestamp_nanos` reads the time,
/// `with_timezone(&Local)` moves it to the machine's time zone, and `format`
/// writes it with `DATE_FORMAT`, whose items chrono all knows, so the
/// formatting cannot fail. `%b` is one of chrono's English three-letter month
/// names, and `%m`, `%I`, `%M` are two zero-padded digits each, so the text is
/// twelve ASCII characters in every time zone; which ones depends on the zone.
/// chrono panics if the machine's zone database cannot be read, which no
/// argument decides.
#[verifier::external_body]
fn local_time_text(nanos: i64, pattern: &str) -> (r: String)
    requires
        pattern@ == date_format(),
    ensures
        r@.len() == 12,
        forall|i: int| 0 <= i < 12 ==> (#[trigger] r@[i] as u32) < 128,
{
    chrono::DateTime::from_timestamp_nanos(nanos)
        .with_timezone(&chrono::Local)
        .format(pattern)
        .to_string()
}

/// One note file, as the browser lists it.
pub struct NoteEntry {
    pub path: String,
    pub name: String,
    /// Modification time, in nanoseconds since the Unix epoch.
    pub modified: i64,
    /// The modification time as shown in the table, in local time.
    pub modified_text: String,
    /// The default note, which cannot be deleted.
    pub is_default: bool,
    /// Size in bytes.
    pub size: u64,
}

/// What the browser does when asked to delete a note.
#[derive(Clone, Copy, Debug, PartialEq, Eq, Structural)]
pub enum DeleteCheck {
    /// The note has no path: warn and do nothing.
    EmptyPath,
    /// The note is the default note: refuse.
    Protected,
    /// Ask the user to confirm, then delete.
    Confirm,
}

impl NoteEntry {
    /// An entry; its shown modification time is taken from `modified` in
    /// the machine's local time zone.
    pub fn new(path: String, name: String, modified: i64, is_default: bool, size: u64) -> (r: Self)
        ensures
            r.path == path,
            r.name == name,
            r.modified == modified,
            r.is_default == is_default,
            r.size == size,
            r.modified_text@.len() == 12,
    {
        proof {
            reveal_strlit("%b %m %I:%M");
            assert(DATE_FORMAT@ =~= date_format());
        }
        let modified_text = local_time_text(modified, DATE_FORMAT);
        NoteEntry { path, name, modified, modified_text, is_default, size }
    }

    pub fn get_size(&self) -> (r: &u64)
        ensures
            *r == self.size,
    {
        &self.size
    }

    /// The name as shown: the default note carries an indicator.
    pub open spec fn shown_name(&self) -> Seq<char> {
        if self.is_default {
            self.name@ + default_indicator()
        } else {
            self.name@
        }
    }

    /// An empty path is only warned about; the default note is protected;
    /// any other note may be deleted once the user confirms.
    pub fn delete_check(&self) -> (r: DeleteCheck)
        ensures
            r == (if self.path@.len() == 0 {
                DeleteCheck::EmptyPath
            } else if self.is_default {
                DeleteCheck::Protected
            } else {
                DeleteCheck::Confirm
            }),
    {
        if self.path.as_str().unicode_len() == 0 {
            DeleteCheck::EmptyPath
        } else if self.is_default {
            DeleteCheck::Protected
        } else {
            DeleteCheck::Confirm
        }
    }
}

impl Columnar for NoteEntry {
    open spec fn column_value(&self, column: &Column) -> Seq<char> {
        match column.field {
            Field::Size => decimal(self.size as nat),
            Field::Name => self.shown_name(),
            Field::Modified => self.modified_text@,
        }
    }

    fn get_value(&self, column: &Column) -> (r: String) {
        match column.get_field() {
            Field::Size => decimal_text(self.size),
            Field::Name => {
                let mut shown = self.name.clone();
                if self.is_default {
                    shown.append(DEFAULT_INDICATOR);
                    proof {
                        reveal_strlit("  [Default]");
                    }
                }
                shown
            },
            Field::Modified => self.modified_text.clone(),
        }
    }
}

} // verus!

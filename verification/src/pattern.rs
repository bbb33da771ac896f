//! The shape of a backup file's name.
//!
//! The game keeps the save it is about to overwrite under the savegame's
//! name with `_Backup` put before the extension. A name is told by that
//! shape alone, character by character and with upper and lower case kept
//! apart. Of the character between `_Backup` and the extension only one
//! thing is asked: a dot stands there in the game's own names, and any other
//! one character is taken for it, but for a line feed.

use vstd::prelude::*;

verus! {

/// What the game appends to a savegame's stem when it keeps the previous save.
pub const BACKUP_MARKER: &'static str = "_Backup";

/// The extension of a savegame file, without the character before it.
pub const SAVEGAME_EXTENSION: &'static str = "eu4";

/// `true` when `part` stands in `text` at character position `at`.
pub open spec fn occurs_at(text: Seq<char>, at: int, part: Seq<char>) -> bool {
    &&& 0 <= at
    &&& at + part.len() <= text.len()
    &&& text.subrange(at, at + part.len()) == part
}

/// Compares the characters of `text` from position `at` on with those of `part`.
pub fn holds_at(text: &str, at: usize, part: &str) -> (r: bool)
    ensures
        r == occurs_at(text@, at as int, part@),
{
    let text_len: usize = text.unicode_len();
    let part_len: usize = part.unicode_len();
    if at > text_len || part_len > text_len - at {
        return false;
    }
    let mut i: usize = 0;
    while i < part_len
        invariant
            i <= part_len,
            part_len == part@.len(),
            text_len == text@.len(),
            at + part_len <= text_len,
            forall|j: int| 0 <= j < i ==> text@[at + j] == part@[j],
        decreases part_len - i,
    {
        if text.get_char(at + i) != part.get_char(i) {
            assert(text@.subrange(at as int, at + part@.len())[i as int] != part@[i as int]);
            return false;
        }
        i = i + 1;
    }
    assert(text@.subrange(at as int, at + part@.len()) =~= part@);
    true
}

/// The name made of `prefix`, the backup marker, the one character `sep` and
/// the savegame extension.
pub open spec fn backup_name(prefix: Seq<char>, sep: char) -> Seq<char> {
    prefix + BACKUP_MARKER@ + seq![sep] + SAVEGAME_EXTENSION@
}

/// A backup name is any prefix, then the backup marker, then one character
/// that is no line feed, then the savegame extension, and nothing after it.
/// The character between marker and extension is usually a dot, but any
/// other is taken for it, a line feed alone left out. The prefix may hold
/// anything, line feeds too.
pub open spec fn is_backup_name(name: Seq<char>) -> bool {
    exists|prefix: Seq<char>, sep: char|
        sep != '\n' && name == #[trigger] backup_name(prefix, sep)
}

/// The same shape, read from the end of the name: the extension fills the
/// last three places, one character that is no line feed stands before it,
/// and the marker fills the seven places before that.
pub open spec fn ends_as_backup(name: Seq<char>) -> bool {
    &&& name.len() >= 11
    &&& occurs_at(name, name.len() - 11, BACKUP_MARKER@)
    &&& name[name.len() - 4] != '\n'
    &&& occurs_at(name, name.len() - 3, SAVEGAME_EXTENSION@)
}

/// The characters of the marker and of the extension: seven and three.
pub proof fn lemma_marker_and_extension()
    ensures
        BACKUP_MARKER@ == seq!['_', 'B', 'a', 'c', 'k', 'u', 'p'],
        SAVEGAME_EXTENSION@ == seq!['e', 'u', '4'],
        BACKUP_MARKER@.len() == 7,
        SAVEGAME_EXTENSION@.len() == 3,
{
    reveal_strlit("_Backup");
    reveal_strlit("eu4");
    assert(BACKUP_MARKER@ =~= seq!['_', 'B', 'a', 'c', 'k', 'u', 'p']);
    assert(SAVEGAME_EXTENSION@ =~= seq!['e', 'u', '4']);
}

/// Both readings of the pattern accept the same names.
pub proof fn lemma_backup_name_by_its_end(name: Seq<char>)
    ensures
        is_backup_name(name) == ends_as_backup(name),
{
    lemma_marker_and_extension();
    let n = name.len() as int;
    if is_backup_name(name) {
        let (prefix, sep) = choose|prefix: Seq<char>, sep: char|
            sep != '\n' && name == #[trigger] backup_name(prefix, sep);
        assert(name.subrange(n - 11, n - 4) =~= BACKUP_MARKER@);
        assert(name.subrange(n - 3, n) =~= SAVEGAME_EXTENSION@);
        assert(name[n - 4] == sep);
    }
    if ends_as_backup(name) {
        let prefix = name.subrange(0, n - 11);
        let sep = name[n - 4];
        assert(name =~= backup_name(prefix, sep));
    }
}

/// Whatever the prefix, and whatever the character between marker and
/// extension as long as it is no line feed, the name built from them is a
/// backup name.
pub proof fn lemma_prefix_and_separator_are_free(prefix: Seq<char>, sep: char)
    requires
        sep != '\n',
    ensures
        is_backup_name(backup_name(prefix, sep)),
{
}

/// With a line feed between marker and extension the name is no backup name,
/// whatever stands before.
pub proof fn lemma_line_feed_is_not_taken(prefix: Seq<char>)
    ensures
        !is_backup_name(backup_name(prefix, '\n')),
{
    lemma_marker_and_extension();
    let name = backup_name(prefix, '\n');
    lemma_backup_name_by_its_end(name);
    assert(name[name.len() - 4] == '\n');
}

/// A backup name stays one when anything is put in front of it.
pub proof fn lemma_longer_prefix_keeps_shape(front: Seq<char>, name: Seq<char>)
    requires
        is_backup_name(name),
    ensures
        is_backup_name(front + name),
{
    let (prefix, sep) = choose|prefix: Seq<char>, sep: char|
        sep != '\n' && name == #[trigger] backup_name(prefix, sep);
    assert(front + name =~= backup_name(front + prefix, sep));
}

/// Tells whether a file name has the shape of a backup name.
pub fn matches_backup_pattern(name: &str) -> (r: bool)
    ensures
        r == is_backup_name(name@),
{
    proof {
        lemma_marker_and_extension();
        lemma_backup_name_by_its_end(name@);
    }
    let len: usize = name.unicode_len();
    if len < 11 {
        return false;
    }
    holds_at(name, len - 11, BACKUP_MARKER) && name.get_char(len - 4) != '\n' && holds_at(
        name,
        len - 3,
        SAVEGAME_EXTENSION,
    )
}

} // verus!

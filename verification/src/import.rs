//! Which files of a folder are imported.
//!
//! A file is taken for a RAW file by the extension of its name alone,
//! whatever the case of its letters.

use vstd::prelude::*;
use vstd::string::*;

verus! {

/// Number of extensions that are taken for RAW files.
pub const RAW_EXTENSION_COUNT: usize = 16;

/// The extensions that are taken for RAW files, in lower case.
pub open spec fn raw_extensions() -> Seq<Seq<char>> {
    seq![
        seq!['n', 'e', 'f'],
        seq!['d', 'n', 'g'],
        seq!['c', 'r', '2'],
        seq!['c', 'r', '3'],
        seq!['a', 'r', 'w'],
        seq!['r', 'a', 'f'],
        seq!['o', 'r', 'f'],
        seq!['r', 'w', '2'],
        seq!['p', 'e', 'f'],
        seq!['s', 'r', 'w'],
        seq!['e', 'r', 'f'],
        seq!['k', 'd', 'c'],
        seq!['d', 'c', 'r'],
        seq!['m', 'o', 's'],
        seq!['r', 'a', 'w'],
        seq!['r', 'w', 'l'],
    ]
}

/// The letter in lower case; other characters as they are.
pub open spec fn lower(c: char) -> char {
    if 'A' <= c <= 'Z' {
        ((c as u32) + 32) as char
    } else {
        c
    }
}

/// The characters in lower case, as far as they are letters from A to Z.
pub open spec fn lowered(s: Seq<char>) -> Seq<char> {
    Seq::new(s.len(), |i: int| lower(s[i]))
}

/// The extension is one of those taken for RAW files, in any mix of upper
/// and lower case.
pub open spec fn is_raw_extension_spec(extension: Seq<char>) -> bool {
    exists|k: int| 0 <= k < RAW_EXTENSION_COUNT && lowered(extension) == #[trigger] raw_extensions()[k]
}

/// The letter in lower case; other characters as they are.
fn to_lower(c: char) -> (l: char)
    ensures
        l == lower(c),
{
    match c {
        'A' => 'a',
        'B' => 'b',
        'C' => 'c',
        'D' => 'd',
        'E' => 'e',
        'F' => 'f',
        'G' => 'g',
        'H' => 'h',
        'I' => 'i',
        'J' => 'j',
        'K' => 'k',
        'L' => 'l',
        'M' => 'm',
        'N' => 'n',
        'O' => 'o',
        'P' => 'p',
        'Q' => 'q',
        'R' => 'r',
        'S' => 's',
        'T' => 't',
        'U' => 'u',
        'V' => 'v',
        'W' => 'w',
        'X' => 'x',
        'Y' => 'y',
        'Z' => 'z',
        other => other,
    }
}

/// True when a file with this extension is imported as a RAW file.
pub fn is_raw_extension(extension: &str) -> (raw: bool)
    ensures
        raw == is_raw_extension_spec(extension@),
{
    if extension.unicode_len() != 3 {
        assert forall|k: int| 0 <= k < RAW_EXTENSION_COUNT implies lowered(extension@)
            != #[trigger] raw_extensions()[k] by {
            assert(raw_extensions()[k].len() == 3);
        }
        return false;
    }
    let a = to_lower(extension.get_char(0));
    let b = to_lower(extension.get_char(1));
    let c = to_lower(extension.get_char(2));
    let ghost low = lowered(extension@);
    assert(low =~= seq![a, b, c]);
    let raw = match (a, b, c) {
        ('n', 'e', 'f') => true,
        ('d', 'n', 'g') => true,
        ('c', 'r', '2') => true,
        ('c', 'r', '3') => true,
        ('a', 'r', 'w') => true,
        ('r', 'a', 'f') => true,
        ('o', 'r', 'f') => true,
        ('r', 'w', '2') => true,
        ('p', 'e', 'f') => true,
        ('s', 'r', 'w') => true,
        ('e', 'r', 'f') => true,
        ('k', 'd', 'c') => true,
        ('d', 'c', 'r') => true,
        ('m', 'o', 's') => true,
        ('r', 'a', 'w') => true,
        ('r', 'w', 'l') => true,
        _ => false,
    };
    proof {
        let table = raw_extensions();
        if raw {
            let k = choose|k: int|
                0 <= k < RAW_EXTENSION_COUNT && (#[trigger] table[k]) =~= seq![a, b, c];
            assert(low == table[k]);
        } else {
            assert forall|k: int| 0 <= k < RAW_EXTENSION_COUNT implies low != #[trigger] table[k] by {
                assert(table[k][0] == low[0] && table[k][1] == low[1] && table[k][2] == low[2]
                    ==> false);
            }
        }
    }
    raw
}

/// What an import has done so far.
#[derive(Clone, Copy, Debug, PartialEq, Eq, Structural)]
pub struct ImportResult {
    /// Files that were added to the catalog.
    pub imported_count: usize,
    /// Files that the catalog held already.
    pub skipped_count: usize,
}

/// How the catalog answered the insertion of one file.
#[derive(Clone, Copy, Debug, PartialEq, Eq, Structural)]
pub enum InsertOutcome {
    /// The file was added.
    Inserted,
    /// The catalog holds a file of this path already.
    Duplicate,
    /// The catalog failed in another way; the file is passed over.
    Failed,
}

impl ImportResult {
    /// The result of an import that has not looked at any file.
    pub fn new() -> (result: ImportResult)
        ensures
            result == (ImportResult { imported_count: 0, skipped_count: 0 }),
    {
        ImportResult { imported_count: 0, skipped_count: 0 }
    }

    /// Takes down how the insertion of one file went: a new file counts
    /// as imported, a duplicate as skipped, a failure as neither. The
    /// counts stop at the largest number they can hold.
    pub fn record(&mut self, outcome: InsertOutcome)
        ensures
            final(self).imported_count == if outcome == InsertOutcome::Inserted
                && old(self).imported_count < usize::MAX {
                old(self).imported_count + 1
            } else {
                old(self).imported_count as int
            },
            final(self).skipped_count == if outcome == InsertOutcome::Duplicate
                && old(self).skipped_count < usize::MAX {
                old(self).skipped_count + 1
            } else {
                old(self).skipped_count as int
            },
    {
        match outcome {
            InsertOutcome::Inserted => {
                if self.imported_count < usize::MAX {
                    self.imported_count = self.imported_count + 1;
                }
            },
            InsertOutcome::Duplicate => {
                if self.skipped_count < usize::MAX {
                    self.skipped_count = self.skipped_count + 1;
                }
            },
            InsertOutcome::Failed => {},
        }
    }
}

} // verus!

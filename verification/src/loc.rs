//! Resolved source locations and file handles.
//!
//! A resolved location is the tuple (file, line, column, byte offset),
//! lines and columns 1-based. A file identifier of `0` stands for the
//! null file handle: a built-in or predefined entity with no textual
//! origin.

use vstd::prelude::*;
use crate::text::dec_digits;
use crate::text::decimal_chars;
use crate::text::extend_chars;
use crate::text::str_chars;
use crate::text::string_from_chars;
use crate::tu::TranslationUnit;

verus! {

/// A handle for one source file of a translation unit; `id == 0` is the
/// null handle of an entity with no file.
#[derive(Clone, Copy, Debug, PartialEq, Eq, Hash, Structural)]
pub struct File {
    pub id: usize,
}

impl File {
    /// The file's name, or `None` for the null handle.
    pub fn name(&self, tu: &TranslationUnit) -> (r: Option<String>)
        requires
            self.id <= tu.files@.len(),
        ensures
            self.id == 0 ==> r is None,
            self.id > 0 ==> r == Some(tu.files@[self.id - 1]),
    {
        if self.id == 0 {
            None
        } else {
            Some(tu.files[self.id - 1].clone())
        }
    }
}

/// One resolved source position inside a translation unit.
#[derive(Clone, Copy, Debug, PartialEq, Eq, Hash, Structural)]
pub struct SourceLocation {
    /// The file identifier; `0` when the location has no file.
    pub file: usize,
    /// 1-based line.
    pub line: u32,
    /// 1-based column.
    pub col: u32,
    /// 0-based byte offset.
    pub offset: u32,
}

/// What a location renders as: `<file>:<line>:<col>`, or the fixed
/// fallback label when the location has no file.
pub open spec fn loc_display(loc: SourceLocation, files: Seq<String>) -> Seq<char> {
    if loc.file == 0 {
        "builtin definitions"@
    } else {
        files[loc.file - 1]@ + seq![':'] + dec_digits(loc.line as nat) + seq![':'] + dec_digits(
            loc.col as nat,
        )
    }
}

impl SourceLocation {
    /// The location resolved to its (file, line, column, offset) tuple.
    pub fn location(&self, tu: &TranslationUnit) -> (r: (File, usize, usize, usize))
        requires
            self.file <= tu.files@.len(),
        ensures
            r.0 == (File { id: self.file }),
            r.1 == self.line as usize,
            r.2 == self.col as usize,
            r.3 == self.offset as usize,
    {
        (File { id: self.file }, self.line as usize, self.col as usize, self.offset as usize)
    }

    /// Renders the location as `<file>:<line>:<col>`, or as the fixed
    /// fallback label when it has no file — never as a path.
    pub fn render(&self, tu: &TranslationUnit) -> (r: String)
        requires
            self.file <= tu.files@.len(),
        ensures
            r@ == loc_display(*self, tu.files@),
    {
        if self.file == 0 {
            "builtin definitions".to_owned()
        } else {
            let mut out: Vec<char> = str_chars(tu.files[self.file - 1].as_str());
            let ghost name_part = tu.files@[self.file - 1]@;
            out.push(':');
            assert(out@ =~= name_part + seq![':']);
            let line_digits = decimal_chars(self.line);
            extend_chars(&mut out, &line_digits);
            out.push(':');
            let col_digits = decimal_chars(self.col);
            extend_chars(&mut out, &col_digits);
            assert(out@ =~= name_part + seq![':'] + dec_digits(self.line as nat) + seq![':']
                + dec_digits(self.col as nat));
            string_from_chars(&out)
        }
    }
}

} // verus!

//! Compiler findings: severity classification and the display
//! renderer.

use vstd::prelude::*;
use crate::kinds::DiagnosticSeverity;
use crate::text::dec_digits;
use crate::text::decimal_chars;
use crate::text::extend_chars;
use crate::text::str_chars;
use crate::text::string_from_chars;
use crate::tu::DiagnosticData;
use crate::tu::TranslationUnit;

verus! {

/// Display option bit: prefix the rendered finding with its source
/// location.
pub const DISPLAY_SOURCE_LOCATION: u32 = 1;

/// Display option bit: include the column in the source-location
/// prefix.
pub const DISPLAY_COLUMN: u32 = 2;

/// A value-type handle identifying one compiler finding of a
/// translation unit. Owned by the translation unit that produced it
/// and transient like a cursor.
#[derive(Clone, Copy, Debug, PartialEq, Eq, Hash, Structural)]
pub struct Diagnostic {
    pub id: usize,
}

/// The fixed label of each severity classification.
pub open spec fn severity_label(s: DiagnosticSeverity) -> Seq<char> {
    match s {
        DiagnosticSeverity::Ignored => "ignored"@,
        DiagnosticSeverity::Note => "note"@,
        DiagnosticSeverity::Warning => "warning"@,
        DiagnosticSeverity::Error => "error"@,
        DiagnosticSeverity::Fatal => "fatal"@,
    }
}

/// What a finding renders as: `<severity>: <text>`, prefixed by
/// `<file>:<line>[:<col>]: ` when the location-display bit is set and
/// the finding has a file — the column only with the column-display
/// bit.
pub open spec fn diag_display(d: DiagnosticData, files: Seq<String>, opts: u32) -> Seq<char> {
    let body = severity_label(d.severity) + ": "@ + d.text@;
    if opts & DISPLAY_SOURCE_LOCATION != 0 && d.loc.file != 0 {
        (if opts & DISPLAY_COLUMN != 0 {
            files[d.loc.file - 1]@ + seq![':'] + dec_digits(d.loc.line as nat) + seq![':']
                + dec_digits(d.loc.col as nat)
        } else {
            files[d.loc.file - 1]@ + seq![':'] + dec_digits(d.loc.line as nat)
        }) + ": "@ + body
    } else {
        body
    }
}

impl Diagnostic {
    /// The display options a renderer uses when the caller states
    /// none: source location and column.
    pub fn default_opts() -> (r: u32)
        ensures
            r == DISPLAY_SOURCE_LOCATION | DISPLAY_COLUMN,
    {
        DISPLAY_SOURCE_LOCATION | DISPLAY_COLUMN
    }

    /// The finding's severity classification: always one of the five
    /// classes, which the closed severity type carries by construction.
    pub fn severity(&self, tu: &TranslationUnit) -> (r: DiagnosticSeverity)
        requires
            tu.wf(),
            self.id < tu.diagnostics@.len(),
        ensures
            r == tu.diagnostics@[self.id as int].severity,
    {
        tu.diagnostics[self.id].severity
    }

    /// Renders the finding as a human-readable message per the display
    /// options. The text is this library's own fixed form — severity
    /// labels as in [`severity_label`], and only the location and
    /// column bits honoured — not a reproduction of the native
    /// renderer's exact wording.
    pub fn format(&self, tu: &TranslationUnit, opts: u32) -> (r: String)
        requires
            tu.wf(),
            self.id < tu.diagnostics@.len(),
        ensures
            r@ == diag_display(tu.diagnostics@[self.id as int], tu.files@, opts),
    {
        let d = &tu.diagnostics[self.id];
        proof {
            assert(*d == tu.diagnostics@[self.id as int]);
            assert(d.loc.file <= tu.files@.len());
        }
        let mut out: Vec<char> = Vec::new();
        if opts & DISPLAY_SOURCE_LOCATION != 0 && d.loc.file != 0 {
            let name_chars = str_chars(tu.files[d.loc.file - 1].as_str());
            extend_chars(&mut out, &name_chars);
            out.push(':');
            let line_digits = decimal_chars(d.loc.line);
            extend_chars(&mut out, &line_digits);
            if opts & DISPLAY_COLUMN != 0 {
                out.push(':');
                let col_digits = decimal_chars(d.loc.col);
                extend_chars(&mut out, &col_digits);
                assert(out@ =~= tu.files@[d.loc.file - 1]@ + seq![':'] + dec_digits(
                    d.loc.line as nat,
                ) + seq![':'] + dec_digits(d.loc.col as nat));
            } else {
                assert(out@ =~= tu.files@[d.loc.file - 1]@ + seq![':'] + dec_digits(
                    d.loc.line as nat,
                ));
            }
            let sep = str_chars(": ");
            extend_chars(&mut out, &sep);
        }
        let ghost prefix = out@;
        let label: &str = match d.severity {
            DiagnosticSeverity::Ignored => "ignored",
            DiagnosticSeverity::Note => "note",
            DiagnosticSeverity::Warning => "warning",
            DiagnosticSeverity::Error => "error",
            DiagnosticSeverity::Fatal => "fatal",
        };
        let label_chars = str_chars(label);
        extend_chars(&mut out, &label_chars);
        let sep = str_chars(": ");
        extend_chars(&mut out, &sep);
        let text_chars = str_chars(d.text.as_str());
        extend_chars(&mut out, &text_chars);
        proof {
            assert(label@ == severity_label(d.severity));
            assert(out@ =~= prefix + (severity_label(d.severity) + ": "@ + d.text@));
        }
        string_from_chars(&out)
    }
}

impl TranslationUnit {
    /// The full ordered set of findings currently attached.
    pub fn diags(&self) -> (r: Vec<Diagnostic>)
        requires
            self.wf(),
        ensures
            r@.len() == self.diagnostics@.len(),
            forall|k: int| 0 <= k < r@.len() ==> (#[trigger] r@[k]).id == k,
    {
        let mut r: Vec<Diagnostic> = Vec::new();
        let mut k: usize = 0;
        while k < self.diagnostics.len()
            invariant
                k <= self.diagnostics@.len(),
                r@.len() == k,
                forall|j: int| 0 <= j < k ==> (#[trigger] r@[j]).id == j,
            decreases self.diagnostics@.len() - k,
        {
            r.push(Diagnostic { id: k });
            k = k + 1;
        }
        r
    }
}

} // verus!

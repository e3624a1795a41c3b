//! A structured AST and type query layer over a native compiler frontend.
//!
//! The frontend itself answers every semantic question through opaque
//! handles and flat callbacks; this crate models one parsed translation
//! unit as an arena of plain values — nodes, resolved types, files,
//! documentation comments, diagnostics and tokens — and answers every
//! structural query from that arena. Handles (`Cursor`, `Type`,
//! `Comment`, `Diagnostic`, `File`) are value-type identifiers into the
//! arena of their owning [`TranslationUnit`] and carry no lifetime of
//! their own.

pub mod comment;
pub mod cursor;
pub mod diag;
pub mod dump;
pub mod kinds;
pub mod laws;
pub mod loc;
pub mod text;
pub mod tok;
pub mod tu;
pub mod ty;
pub mod unsaved;

pub use comment::Comment;
pub use cursor::Cursor;
pub use diag::Diagnostic;
pub use kinds::AccessSpecifier;
pub use kinds::CallingConv;
pub use kinds::ChildVisitResult;
pub use kinds::CommentKind;
pub use kinds::CursorKind;
pub use kinds::DiagnosticSeverity;
pub use kinds::LayoutError;
pub use kinds::LinkageKind;
pub use kinds::TemplateArgumentKind;
pub use kinds::TokenKind;
pub use kinds::TypeKind;
pub use kinds::VisibilityKind;
pub use kinds::kind_to_str;
pub use kinds::type_to_str;
pub use loc::File;
pub use loc::SourceLocation;
pub use tu::BuildError;
pub use tu::CommentData;
pub use tu::DiagnosticData;
pub use tu::Edge;
pub use tu::NodeData;
pub use tu::TagAttr;
pub use tu::TemplateArg;
pub use tu::TokenData;
pub use tu::TranslationUnit;
pub use tu::TypeData;
pub use tok::Token;
pub use unsaved::UnsavedFile;
pub use cursor::Visitor;
pub use dump::ast_dump;
pub use laws::lemma_canonical_idempotent;
pub use laws::lemma_canonical_type_idempotent;
pub use laws::lemma_cursor_eq_hash;
pub use ty::Type;

use clang_ast::AccessSpecifier;
use clang_ast::BuildError;
use clang_ast::CallingConv;
use clang_ast::Comment;
use clang_ast::CommentData;
use clang_ast::CommentKind;
use clang_ast::Cursor;
use clang_ast::CursorKind;
use clang_ast::Diagnostic;
use clang_ast::DiagnosticData;
use clang_ast::DiagnosticSeverity;
use clang_ast::File;
use clang_ast::LinkageKind;
use clang_ast::NodeData;
use clang_ast::SourceLocation;
use clang_ast::TemplateArgumentKind;
use clang_ast::TokenData;
use clang_ast::TokenKind;
use clang_ast::TranslationUnit;
use clang_ast::TypeData;
use clang_ast::TypeKind;
use clang_ast::VisibilityKind;
use clang_ast::kind_to_str;
use clang_ast::type_to_str;
use clang_ast::kinds::access_from_raw;
use clang_ast::kinds::calling_conv_from_raw;
use clang_ast::kinds::comment_kind_from_raw;
use clang_ast::kinds::cursor_kind_from_raw;
use clang_ast::kinds::is_invalid_kind;
use clang_ast::kinds::linkage_from_raw;
use clang_ast::kinds::severity_from_raw;
use clang_ast::kinds::template_argument_from_raw;
use clang_ast::kinds::token_kind_from_raw;
use clang_ast::kinds::type_kind_from_raw;
use clang_ast::kinds::visibility_from_raw;

fn node(kind: CursorKind, spelling: &str) -> NodeData {
    NodeData {
        kind,
        spelling: spelling.to_string(),
        display_name: String::new(),
        mangling: String::new(),
        raw_comment: String::new(),
        comment: 0,
        ty: 0,
        loc: SourceLocation { file: 0, line: 1, col: 1, offset: 0 },
        extent_start: 0,
        extent_end: 0,
        lexical_parent: 0,
        semantic_parent: 0,
        definition: 0,
        referenced: 0,
        canonical: 0,
        specialized: 0,
        bit_width_raw: -1,
        enum_ty: 0,
        enum_val: 0,
        typedef_ty: 0,
        ret_ty: 0,
        linkage: LinkageKind::External,
        visibility: VisibilityKind::DefaultVisibility,
        access: AccessSpecifier::Invalid,
        mutable_field: false,
        method_static: false,
        method_virtual: false,
        virtual_base: false,
        inlined: false,
        args_valid: false,
        template_args: vec![],
    }
}

#[test]
fn location_without_file_renders_fallback() {
    let tu = TranslationUnit::new();
    let loc = SourceLocation { file: 0, line: 7, col: 9, offset: 100 };
    assert_eq!(loc.render(&tu), "builtin definitions");
}

#[test]
fn location_with_file_renders_path_line_col() {
    let mut tu = TranslationUnit::new();
    let f = tu.add_file("a.h");
    let loc = SourceLocation { file: f.id, line: 3, col: 5, offset: 42 };
    assert_eq!(loc.render(&tu), "a.h:3:5");
    let (file, line, col, off) = loc.location(&tu);
    assert_eq!(file.name(&tu), Some("a.h".to_string()));
    assert_eq!((line, col, off), (3, 5, 42));
    let wide = SourceLocation { file: f.id, line: 1200, col: 10, offset: 0 };
    assert_eq!(wide.render(&tu), "a.h:1200:10");
    let null_file = File { id: 0 };
    assert_eq!(null_file.name(&tu), None);
    let zero = SourceLocation { file: f.id, line: 0, col: 0, offset: 0 };
    assert_eq!(zero.render(&tu), "a.h:0:0");
}

#[test]
fn cursor_location_reaches_file() {
    let mut tu = TranslationUnit::new();
    let f = tu.add_file("lib.h");
    let root = tu.add_node(&tu.cursor(), node(CursorKind::TranslationUnit, "t.c")).unwrap();
    let mut n = node(CursorKind::VarDecl, "x");
    n.loc = SourceLocation { file: f.id, line: 2, col: 1, offset: 11 };
    let c = tu.add_node(&root, n).unwrap();
    let loc = c.location(&tu);
    assert_eq!(loc.render(&tu), "lib.h:2:1");
    let (start, end) = c.extent(&tu);
    assert!(start <= end);
}

#[test]
fn diagnostics_render_and_classify() {
    let mut tu = TranslationUnit::new();
    let f = tu.add_file("a.h");
    let warn = DiagnosticData {
        severity: DiagnosticSeverity::Warning,
        loc: SourceLocation { file: f.id, line: 2, col: 3, offset: 0 },
        text: "unused variable".to_string(),
    };
    tu.add_diagnostic(warn).unwrap();
    let err = DiagnosticData {
        severity: DiagnosticSeverity::Error,
        loc: SourceLocation { file: 0, line: 0, col: 0, offset: 0 },
        text: "boom".to_string(),
    };
    tu.add_diagnostic(err).unwrap();
    let ds = tu.diags();
    assert_eq!(ds.len(), 2);
    assert_eq!(ds[0].severity(&tu), DiagnosticSeverity::Warning);
    assert_eq!(ds[1].severity(&tu), DiagnosticSeverity::Error);
    let opts = Diagnostic::default_opts();
    assert_eq!(ds[0].format(&tu, opts), "a.h:2:3: warning: unused variable");
    assert_eq!(ds[0].format(&tu, 1), "a.h:2: warning: unused variable");
    assert_eq!(ds[0].format(&tu, 0), "warning: unused variable");
    // a finding with no file never renders a path
    assert_eq!(ds[1].format(&tu, opts), "error: boom");
}

#[test]
fn kind_tables_label_known_and_unknown() {
    assert_eq!(kind_to_str(CursorKind::StructDecl), "StructDecl");
    assert_eq!(kind_to_str(CursorKind::FieldDecl), "FieldDecl");
    assert_eq!(kind_to_str(CursorKind::TranslationUnit), "TranslationUnit");
    assert_eq!(kind_to_str(CursorKind::InclusionDirective), "InclusionDirective");
    assert_eq!(kind_to_str(CursorKind::InvalidFile), "?");
    assert_eq!(kind_to_str(CursorKind::Other(9999)), "?");
    assert_eq!(type_to_str(TypeKind::Invalid), "Invalid");
    assert_eq!(type_to_str(TypeKind::Int), "Int");
    assert_eq!(type_to_str(TypeKind::FunctionProto), "FunctionProto");
    assert_eq!(type_to_str(TypeKind::Elaborated), "Elaborated");
    assert_eq!(type_to_str(TypeKind::Other(512)), "?");
}

#[test]
fn raw_code_tables_follow_native_enumerators() {
    assert_eq!(cursor_kind_from_raw(2), CursorKind::StructDecl);
    assert_eq!(cursor_kind_from_raw(6), CursorKind::FieldDecl);
    assert_eq!(cursor_kind_from_raw(70), CursorKind::InvalidFile);
    assert_eq!(cursor_kind_from_raw(300), CursorKind::TranslationUnit);
    assert_eq!(cursor_kind_from_raw(503), CursorKind::InclusionDirective);
    assert_eq!(cursor_kind_from_raw(777), CursorKind::Other(777));
    assert!(is_invalid_kind(cursor_kind_from_raw(71)));
    assert!(is_invalid_kind(CursorKind::Other(72)));
    assert!(!is_invalid_kind(CursorKind::Other(74)));
    assert_eq!(type_kind_from_raw(17), TypeKind::Int);
    assert_eq!(type_kind_from_raw(105), TypeKind::Record);
    assert_eq!(type_kind_from_raw(119), TypeKind::Elaborated);
    assert_eq!(type_kind_from_raw(888), TypeKind::Other(888));
    assert_eq!(linkage_from_raw(4), LinkageKind::External);
    assert_eq!(linkage_from_raw(9), LinkageKind::Other(9));
    assert_eq!(visibility_from_raw(3), VisibilityKind::DefaultVisibility);
    assert_eq!(access_from_raw(1), AccessSpecifier::Public);
    assert_eq!(template_argument_from_raw(4), TemplateArgumentKind::Integral);
    assert_eq!(severity_from_raw(2), Some(DiagnosticSeverity::Warning));
    assert_eq!(severity_from_raw(3), Some(DiagnosticSeverity::Error));
    assert_eq!(severity_from_raw(7), None);
    assert_eq!(calling_conv_from_raw(0), CallingConv::DefaultConv);
    assert_eq!(calling_conv_from_raw(100), CallingConv::Invalid);
    assert_eq!(comment_kind_from_raw(5), CommentKind::Paragraph);
    assert_eq!(token_kind_from_raw(1), Some(TokenKind::Keyword));
    assert_eq!(token_kind_from_raw(4), Some(TokenKind::Comment));
    assert_eq!(token_kind_from_raw(5), None);
}

#[test]
fn builders_reject_bad_references() {
    let mut tu = TranslationUnit::new();
    let root = tu.add_node(&tu.cursor(), node(CursorKind::TranslationUnit, "t.c")).unwrap();
    // BadParent
    let ghost_parent = Cursor { id: 99 };
    assert_eq!(tu.add_node(&ghost_parent, node(CursorKind::VarDecl, "x")), Err(BuildError::BadParent));
    // BadNodeRef
    let mut bad_lex = node(CursorKind::VarDecl, "x");
    bad_lex.lexical_parent = 99;
    assert_eq!(tu.add_node(&root, bad_lex), Err(BuildError::BadNodeRef));
    // BadCanonical: out of range (neither self nor existing)
    let mut bad_can = node(CursorKind::VarDecl, "x");
    bad_can.canonical = 50;
    assert_eq!(tu.add_node(&root, bad_can), Err(BuildError::BadCanonical));
    // BadCanonical: target exists but is not its own canonical
    let mut a = node(CursorKind::StructDecl, "S");
    a.canonical = 0;
    let ca = tu.add_node(&root, a).unwrap();
    let mut b = node(CursorKind::StructDecl, "S");
    b.canonical = ca.id;
    assert_eq!(tu.add_node(&root, b), Err(BuildError::BadCanonical));
    // BadTypeRef
    let mut bad_ty = node(CursorKind::VarDecl, "x");
    bad_ty.ty = 9;
    assert_eq!(tu.add_node(&root, bad_ty), Err(BuildError::BadTypeRef));
    // BadCommentRef
    let mut bad_comment = node(CursorKind::VarDecl, "x");
    bad_comment.comment = 9;
    assert_eq!(tu.add_node(&root, bad_comment), Err(BuildError::BadCommentRef));
    // BadFileRef
    let mut bad_file = node(CursorKind::VarDecl, "x");
    bad_file.loc = SourceLocation { file: 3, line: 1, col: 1, offset: 0 };
    assert_eq!(tu.add_node(&root, bad_file), Err(BuildError::BadFileRef));
    // BadExtent
    let mut bad_extent = node(CursorKind::VarDecl, "x");
    bad_extent.extent_start = 5;
    bad_extent.extent_end = 2;
    assert_eq!(tu.add_node(&root, bad_extent), Err(BuildError::BadExtent));
    // BadBitWidth
    let mut bad_width = node(CursorKind::FieldDecl, "x");
    bad_width.bit_width_raw = -2;
    assert_eq!(tu.add_node(&root, bad_width), Err(BuildError::BadBitWidth));
    // add_arg on missing nodes
    assert_eq!(tu.add_arg(&ghost_parent, &root), Err(BuildError::BadNodeRef));
}

#[test]
fn builders_enforce_the_root_shape() {
    let mut tu = TranslationUnit::new();
    // the first real node must be the translation-unit node
    assert_eq!(
        tu.add_node(&tu.cursor(), node(CursorKind::StructDecl, "S")),
        Err(BuildError::BadRoot)
    );
    let root = tu.add_node(&tu.cursor(), node(CursorKind::TranslationUnit, "t.c")).unwrap();
    assert_eq!(root.kind(&tu), CursorKind::TranslationUnit);
    assert!(tu.cursor().equals(&root));
    // once the root exists, nothing else may hang off the invalid node
    let zero = TranslationUnit::new().cursor();
    assert_eq!(tu.add_node(&zero, node(CursorKind::VarDecl, "x")), Err(BuildError::BadParent));
    assert!(tu.add_node(&root, node(CursorKind::VarDecl, "x")).is_ok());
}

#[test]
fn builders_reject_bad_type_and_token_data() {
    let mut tu = TranslationUnit::new();
    let base = TypeData {
        kind: TypeKind::Int,
        spelling: "int".to_string(),
        declaration: 0,
        is_const: false,
        size_raw: 4,
        align_raw: 4,
        array_size_raw: -1,
        pointee: 0,
        elem: 0,
        canonical: 0,
        named: 0,
        ret_ty: 0,
        call_conv: CallingConv::C,
        is_variadic: false,
        arg_types: vec![],
        has_template_args: false,
        template_args: vec![],
    };
    let mut bad_ref = base.clone();
    bad_ref.pointee = 9;
    assert_eq!(tu.add_type(bad_ref), Err(BuildError::BadTypeRef));
    let mut bad_arg = base.clone();
    bad_arg.arg_types = vec![9];
    assert_eq!(tu.add_type(bad_arg), Err(BuildError::BadTypeRef));
    let mut bad_layout = base.clone();
    bad_layout.size_raw = -6;
    assert_eq!(tu.add_type(bad_layout), Err(BuildError::BadLayoutCode));
    let mut bad_align = base.clone();
    bad_align.align_raw = -9;
    assert_eq!(tu.add_type(bad_align), Err(BuildError::BadLayoutCode));
    let mut bad_count = base.clone();
    bad_count.array_size_raw = -2;
    assert_eq!(tu.add_type(bad_count), Err(BuildError::BadArraySize));
    assert!(tu.add_type(base.clone()).is_ok());
    // the added type (id 1) has canonical 0, so it is not its own
    // canonical: pointing another type's canonical at it must fail
    let mut bad_canonical = base.clone();
    bad_canonical.canonical = 1;
    assert_eq!(tu.add_type(bad_canonical), Err(BuildError::BadCanonical));
    // out of range is also refused
    let mut far_canonical = base.clone();
    far_canonical.canonical = 9;
    assert_eq!(tu.add_type(far_canonical), Err(BuildError::BadCanonical));
    // comments must list only existing children
    let orphan = CommentData {
        kind: CommentKind::Paragraph,
        children: vec![5],
        tag_name: String::new(),
        attrs: vec![],
    };
    assert_eq!(tu.add_comment(orphan), Err(BuildError::BadCommentChild));
    // diagnostics must name an existing file
    let bad_diag = DiagnosticData {
        severity: DiagnosticSeverity::Note,
        loc: SourceLocation { file: 4, line: 1, col: 1, offset: 0 },
        text: String::new(),
    };
    assert_eq!(tu.add_diagnostic(bad_diag), Err(BuildError::BadFileRef));
    // tokens must arrive in source order
    tu.add_token(TokenData { kind: TokenKind::Keyword, spelling: "int".to_string(), offset: 5 })
        .unwrap();
    assert_eq!(
        tu.add_token(TokenData {
            kind: TokenKind::Identifier,
            spelling: "x".to_string(),
            offset: 3,
        }),
        Err(BuildError::TokenOutOfOrder)
    );
}

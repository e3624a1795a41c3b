use clang_ast::AccessSpecifier;
use clang_ast::CallingConv;
use clang_ast::ChildVisitResult;
use clang_ast::Cursor;
use clang_ast::CursorKind;
use clang_ast::LinkageKind;
use clang_ast::NodeData;
use clang_ast::SourceLocation;
use clang_ast::Token;
use clang_ast::TokenData;
use clang_ast::TokenKind;
use clang_ast::TranslationUnit;
use clang_ast::TypeData;
use clang_ast::TypeKind;
use clang_ast::Visitor;
use clang_ast::VisibilityKind;
use clang_ast::ast_dump;

fn node(kind: CursorKind, spelling: &str) -> NodeData {
    NodeData {
        kind,
        spelling: spelling.to_string(),
        display_name: String::new(),
        mangling: String::new(),
        raw_comment: String::new(),
        comment: 0,
        ty: 0,
        loc: SourceLocation { file: 0, line: 1, col: 1, offset: 0 },
        extent_start: 0,
        extent_end: 0,
        lexical_parent: 0,
        semantic_parent: 0,
        definition: 0,
        referenced: 0,
        canonical: 0,
        specialized: 0,
        bit_width_raw: -1,
        enum_ty: 0,
        enum_val: 0,
        typedef_ty: 0,
        ret_ty: 0,
        linkage: LinkageKind::External,
        visibility: VisibilityKind::DefaultVisibility,
        access: AccessSpecifier::Invalid,
        mutable_field: false,
        method_static: false,
        method_virtual: false,
        virtual_base: false,
        inlined: false,
        args_valid: false,
        template_args: vec![],
    }
}

struct Collect<'a> {
    tu: &'a TranslationUnit,
    seen: Vec<String>,
    parents: Vec<String>,
    break_after: usize,
    verdict: ChildVisitResult,
}

impl<'a> Visitor for Collect<'a> {
    fn visit(&mut self, cursor: &Cursor, parent: &Cursor) -> ChildVisitResult {
        self.seen.push(cursor.spelling(self.tu));
        self.parents.push(parent.spelling(self.tu));
        if self.seen.len() >= self.break_after {
            return ChildVisitResult::Break;
        }
        self.verdict
    }
}

#[test]
fn traversal_visits_children_in_order() {
    let mut tu = TranslationUnit::new();
    let root = tu.add_node(&tu.cursor(), node(CursorKind::TranslationUnit, "t.c")).unwrap();
    let s = tu.add_node(&root, node(CursorKind::StructDecl, "S")).unwrap();
    tu.add_node(&s, node(CursorKind::FieldDecl, "a")).unwrap();
    tu.add_node(&s, node(CursorKind::FieldDecl, "b")).unwrap();
    tu.add_node(&s, node(CursorKind::FieldDecl, "c")).unwrap();
    let mut v = Collect {
        tu: &tu,
        seen: vec![],
        parents: vec![],
        break_after: usize::MAX,
        verdict: ChildVisitResult::Continue,
    };
    let r = s.visit(&tu, &mut v);
    assert_eq!(r, ChildVisitResult::Continue);
    assert_eq!(v.seen, vec!["a", "b", "c"]);
    assert_eq!(v.parents, vec!["S", "S", "S"]);
}

#[test]
fn traversal_break_stops_everything() {
    let mut tu = TranslationUnit::new();
    let root = tu.add_node(&tu.cursor(), node(CursorKind::TranslationUnit, "t.c")).unwrap();
    let s = tu.add_node(&root, node(CursorKind::StructDecl, "S")).unwrap();
    tu.add_node(&s, node(CursorKind::FieldDecl, "a")).unwrap();
    tu.add_node(&s, node(CursorKind::FieldDecl, "b")).unwrap();
    tu.add_node(&s, node(CursorKind::FieldDecl, "c")).unwrap();
    let mut v = Collect {
        tu: &tu,
        seen: vec![],
        parents: vec![],
        break_after: 1,
        verdict: ChildVisitResult::Continue,
    };
    let r = s.visit(&tu, &mut v);
    assert_eq!(r, ChildVisitResult::Break);
    assert_eq!(v.seen, vec!["a"]);
}

#[test]
fn traversal_recurse_descends_and_continue_skips() {
    let mut tu = TranslationUnit::new();
    let root = tu.add_node(&tu.cursor(), node(CursorKind::TranslationUnit, "t.c")).unwrap();
    let s = tu.add_node(&root, node(CursorKind::StructDecl, "S")).unwrap();
    let inner = tu.add_node(&s, node(CursorKind::StructDecl, "Inner")).unwrap();
    tu.add_node(&inner, node(CursorKind::FieldDecl, "deep")).unwrap();
    tu.add_node(&s, node(CursorKind::FieldDecl, "tail")).unwrap();
    // with Recurse, the nested field is visited before the sibling
    let mut rec = Collect {
        tu: &tu,
        seen: vec![],
        parents: vec![],
        break_after: usize::MAX,
        verdict: ChildVisitResult::Recurse,
    };
    s.visit(&tu, &mut rec);
    assert_eq!(rec.seen, vec!["Inner", "deep", "tail"]);
    assert_eq!(rec.parents, vec!["S", "Inner", "S"]);
    // with Continue, the subtree of Inner is skipped
    let mut flat = Collect {
        tu: &tu,
        seen: vec![],
        parents: vec![],
        break_after: usize::MAX,
        verdict: ChildVisitResult::Continue,
    };
    s.visit(&tu, &mut flat);
    assert_eq!(flat.seen, vec!["Inner", "tail"]);
    // children() gives the same pull-based view
    let kids = s.children(&tu);
    assert_eq!(kids.len(), 2);
    assert_eq!(kids[0].spelling(&tu), "Inner");
    assert_eq!(kids[1].spelling(&tu), "tail");
}

#[test]
fn traversal_of_leaf_continues() {
    let mut tu = TranslationUnit::new();
    let root = tu.add_node(&tu.cursor(), node(CursorKind::TranslationUnit, "t.c")).unwrap();
    let leaf = tu.add_node(&root, node(CursorKind::VarDecl, "x")).unwrap();
    let mut v = Collect {
        tu: &tu,
        seen: vec![],
        parents: vec![],
        break_after: usize::MAX,
        verdict: ChildVisitResult::Recurse,
    };
    // a node without children never breaks: nothing is visited
    assert_eq!(leaf.visit(&tu, &mut v), ChildVisitResult::Continue);
    assert!(v.seen.is_empty());
}

#[test]
fn tokens_of_extent_in_source_order() {
    let mut tu = TranslationUnit::new();
    let root = tu.add_node(&tu.cursor(), node(CursorKind::TranslationUnit, "t.c")).unwrap();
    // int x = 1;
    let mut decl = node(CursorKind::VarDecl, "x");
    decl.extent_start = 0;
    decl.extent_end = 10;
    let c = tu.add_node(&root, decl).unwrap();
    // before any token buffer exists, the tokenizer reports none
    assert!(tu.tokens(&c).is_none());
    assert!(tu.cexpr_tokens(&c).is_none());
    let toks = [
        (TokenKind::Keyword, "int", 0u32),
        (TokenKind::Identifier, "x", 4),
        (TokenKind::Punctuation, "=", 6),
        (TokenKind::Literal, "1", 8),
        (TokenKind::Punctuation, ";", 9),
    ];
    for (kind, sp, off) in toks.iter() {
        tu.add_token(TokenData { kind: *kind, spelling: sp.to_string(), offset: *off }).unwrap();
    }
    let got = tu.tokens(&c).unwrap();
    assert_eq!(got.len(), 5);
    let kinds: Vec<TokenKind> = got.iter().map(|t| t.kind).collect();
    assert_eq!(
        kinds,
        vec![
            TokenKind::Keyword,
            TokenKind::Identifier,
            TokenKind::Punctuation,
            TokenKind::Literal,
            TokenKind::Punctuation,
        ]
    );
    let spellings: Vec<&str> = got.iter().map(|t| t.spelling.as_str()).collect();
    assert_eq!(spellings, vec!["int", "x", "=", "1", ";"]);
    // an extent covering only the first token selects only it
    let mut head = node(CursorKind::TypeRef, "int");
    head.extent_start = 0;
    head.extent_end = 3;
    let hc = tu.add_node(&root, head).unwrap();
    let head_toks = tu.tokens(&hc).unwrap();
    assert_eq!(head_toks.len(), 1);
    assert_eq!(head_toks[0].spelling, "int");
    // an empty-but-present buffer still answers with a sequence
    let mut empty_tu = TranslationUnit::new();
    let er = empty_tu
        .add_node(&empty_tu.cursor(), node(CursorKind::TranslationUnit, "t.c"))
        .unwrap();
    empty_tu.enable_tokens();
    assert_eq!(empty_tu.tokens(&er).unwrap().len(), 0);
}

#[test]
fn tokens_bridge_to_cexpr() {
    let mut tu = TranslationUnit::new();
    let root = tu.add_node(&tu.cursor(), node(CursorKind::TranslationUnit, "t.c")).unwrap();
    let mut decl = node(CursorKind::MacroDefinition, "N");
    decl.extent_start = 0;
    decl.extent_end = 10;
    let c = tu.add_node(&root, decl).unwrap();
    tu.add_token(TokenData { kind: TokenKind::Identifier, spelling: "N".to_string(), offset: 0 })
        .unwrap();
    tu.add_token(TokenData { kind: TokenKind::Literal, spelling: "42".to_string(), offset: 2 })
        .unwrap();
    let bridged = tu.cexpr_tokens(&c).unwrap();
    assert_eq!(bridged.len(), 2);
    assert_eq!(bridged[0].kind, cexpr::token::Kind::Identifier);
    assert_eq!(&*bridged[0].raw, b"N");
    assert_eq!(bridged[1].kind, cexpr::token::Kind::Literal);
    assert_eq!(&*bridged[1].raw, b"42");
    let one = Token { kind: TokenKind::Keyword, spelling: "int".to_string() };
    let ct = one.into_cexpr();
    assert_eq!(ct.kind, cexpr::token::Kind::Keyword);
    assert_eq!(&*ct.raw, b"int");
}

#[test]
fn ast_dump_renders_blocks() {
    let mut tu = TranslationUnit::new();
    let root = tu.add_node(&tu.cursor(), node(CursorKind::TranslationUnit, "t.c")).unwrap();
    let mut rec = TypeData {
        kind: TypeKind::Record,
        spelling: "struct S".to_string(),
        declaration: 0,
        is_const: false,
        size_raw: 4,
        align_raw: 4,
        array_size_raw: -1,
        pointee: 0,
        elem: 0,
        canonical: 0,
        named: 0,
        ret_ty: 0,
        call_conv: CallingConv::C,
        is_variadic: false,
        arg_types: vec![],
        has_template_args: false,
        template_args: vec![],
    };
    rec.declaration = 2;
    let t_rec = tu.add_type(rec).unwrap();
    let mut s = node(CursorKind::StructDecl, "S");
    s.ty = t_rec.id;
    let sc = tu.add_node(&root, s).unwrap();
    tu.add_node(&sc, node(CursorKind::FieldDecl, "a")).unwrap();
    let mut out: Vec<char> = Vec::new();
    let r = ast_dump(&sc, &tu, 0, &mut out);
    assert_eq!(r, ChildVisitResult::Continue);
    let text: String = out.into_iter().collect();
    assert_eq!(text, "(StructDecl S Record\n\t(FieldDecl a Invalid\n\t)\n)\n");
}

use std::collections::hash_map::DefaultHasher;
use std::hash::Hash;
use std::hash::Hasher;
use clang_ast::AccessSpecifier;
use clang_ast::CallingConv;
use clang_ast::CommentData;
use clang_ast::CommentKind;
use clang_ast::CursorKind;
use clang_ast::LayoutError;
use clang_ast::LinkageKind;
use clang_ast::NodeData;
use clang_ast::SourceLocation;
use clang_ast::TagAttr;
use clang_ast::TemplateArg;
use clang_ast::TemplateArgumentKind;
use clang_ast::TranslationUnit;
use clang_ast::TypeData;
use clang_ast::TypeKind;
use clang_ast::UnsavedFile;
use clang_ast::VisibilityKind;

fn node(kind: CursorKind, spelling: &str) -> NodeData {
    NodeData {
        kind,
        spelling: spelling.to_string(),
        display_name: String::new(),
        mangling: String::new(),
        raw_comment: String::new(),
        comment: 0,
        ty: 0,
        loc: SourceLocation { file: 0, line: 1, col: 1, offset: 0 },
        extent_start: 0,
        extent_end: 0,
        lexical_parent: 0,
        semantic_parent: 0,
        definition: 0,
        referenced: 0,
        canonical: 0,
        specialized: 0,
        bit_width_raw: -1,
        enum_ty: 0,
        enum_val: 0,
        typedef_ty: 0,
        ret_ty: 0,
        linkage: LinkageKind::External,
        visibility: VisibilityKind::DefaultVisibility,
        access: AccessSpecifier::Invalid,
        mutable_field: false,
        method_static: false,
        method_virtual: false,
        virtual_base: false,
        inlined: false,
        args_valid: false,
        template_args: vec![],
    }
}

fn ty(kind: TypeKind, spelling: &str) -> TypeData {
    TypeData {
        kind,
        spelling: spelling.to_string(),
        declaration: 0,
        is_const: false,
        size_raw: -1,
        align_raw: -1,
        array_size_raw: -1,
        pointee: 0,
        elem: 0,
        canonical: 0,
        named: 0,
        ret_ty: 0,
        call_conv: CallingConv::C,
        is_variadic: false,
        arg_types: vec![],
        has_template_args: false,
        template_args: vec![],
    }
}

#[test]
fn canonical_is_idempotent() {
    let mut tu = TranslationUnit::new();
    let root = tu.add_node(&tu.cursor(), node(CursorKind::TranslationUnit, "t.c")).unwrap();
    // first declaration of an entity: its own canonical (id 2)
    let mut first = node(CursorKind::StructDecl, "S");
    first.canonical = 2;
    let c1 = tu.add_node(&root, first).unwrap();
    // a redeclaration pointing at the first
    let mut second = node(CursorKind::StructDecl, "S");
    second.canonical = 2;
    let c2 = tu.add_node(&root, second).unwrap();
    let can2 = c2.canonical(&tu);
    assert!(can2.equals(&c1));
    assert!(can2.canonical(&tu).equals(&can2));
    let can1 = c1.canonical(&tu);
    assert!(can1.canonical(&tu).equals(&can1));
}

#[test]
fn canonical_type_is_idempotent() {
    let mut tu = TranslationUnit::new();
    // the record type is its own canonical form (id 1)
    let mut rec = ty(TypeKind::Record, "struct S");
    rec.canonical = 1;
    let t_rec = tu.add_type(rec).unwrap();
    // a typedef whose canonical form is the record
    let mut alias = ty(TypeKind::Typedef, "myS");
    alias.canonical = t_rec.id;
    let t_alias = tu.add_type(alias).unwrap();
    let can = t_alias.canonical_type(&tu);
    assert_eq!(can.kind(&tu), TypeKind::Record);
    assert_eq!(can.canonical_type(&tu), can);
    assert_eq!(t_rec.canonical_type(&tu).canonical_type(&tu), t_rec.canonical_type(&tu));
}

#[test]
fn cursor_equality_and_hash() {
    let mut tu = TranslationUnit::new();
    let root = tu.add_node(&tu.cursor(), node(CursorKind::TranslationUnit, "t.c")).unwrap();
    let a = tu.add_node(&root, node(CursorKind::VarDecl, "x")).unwrap();
    let b = tu.add_node(&root, node(CursorKind::VarDecl, "y")).unwrap();
    assert!(a.equals(&a));
    assert!(!a.equals(&b));
    assert!(!b.equals(&a));
    let a2 = a;
    assert!(a.equals(&a2) && a2.equals(&a));
    assert_eq!(a.hash_key(), a2.hash_key());
    let mut h1 = DefaultHasher::new();
    a.hash(&mut h1);
    let mut h2 = DefaultHasher::new();
    a2.hash(&mut h2);
    assert_eq!(h1.finish(), h2.finish());
}

#[test]
fn bit_width_sentinel() {
    let mut tu = TranslationUnit::new();
    let root = tu.add_node(&tu.cursor(), node(CursorKind::TranslationUnit, "t.c")).unwrap();
    let s = tu.add_node(&root, node(CursorKind::StructDecl, "S")).unwrap();
    // struct S { unsigned x:3; unsigned y; };
    let mut xf = node(CursorKind::FieldDecl, "x");
    xf.bit_width_raw = 3;
    let x = tu.add_node(&s, xf).unwrap();
    let y = tu.add_node(&s, node(CursorKind::FieldDecl, "y")).unwrap();
    assert_eq!(x.bit_width(&tu), Some(3));
    assert_eq!(y.bit_width(&tu), None);
}

#[test]
fn fallible_size_error_kinds() {
    let mut tu = TranslationUnit::new();
    // struct S; forward-declared, undefined
    let mut incomplete = ty(TypeKind::Record, "struct S");
    incomplete.size_raw = -2;
    let t_inc = tu.add_type(incomplete).unwrap();
    assert_eq!(t_inc.fallible_size(&tu), Err(LayoutError::Incomplete));
    assert_eq!(t_inc.size(&tu), 0);
    // a type depending on an unresolved template parameter
    let mut dependent = ty(TypeKind::Unexposed, "T");
    dependent.size_raw = -3;
    let t_dep = tu.add_type(dependent).unwrap();
    assert_eq!(t_dep.fallible_size(&tu), Err(LayoutError::Dependent));
    // a variable-length array type
    let mut vla = ty(TypeKind::VariableArray, "int [n]");
    vla.size_raw = -4;
    let t_vla = tu.add_type(vla).unwrap();
    assert_eq!(t_vla.fallible_size(&tu), Err(LayoutError::NotConstantSize));
    let mut invalid = ty(TypeKind::Invalid, "");
    invalid.size_raw = -1;
    let t_inv = tu.add_type(invalid).unwrap();
    assert_eq!(t_inv.fallible_size(&tu), Err(LayoutError::Invalid));
    let mut badfield = ty(TypeKind::Record, "struct R");
    badfield.size_raw = -5;
    let t_bad = tu.add_type(badfield).unwrap();
    assert_eq!(t_bad.fallible_size(&tu), Err(LayoutError::InvalidFieldName));
    let mut ok = ty(TypeKind::Int, "int");
    ok.size_raw = 4;
    ok.align_raw = 4;
    let t_ok = tu.add_type(ok).unwrap();
    assert_eq!(t_ok.fallible_size(&tu), Ok(4));
    assert_eq!(t_ok.size(&tu), 4);
    assert_eq!(t_ok.align(&tu), 4);
}

#[test]
fn navigation_and_validity() {
    let mut tu = TranslationUnit::new();
    let root = tu.add_node(&tu.cursor(), node(CursorKind::TranslationUnit, "t.c")).unwrap();
    // the empty unit's root is the invalid cursor
    let empty_unit = TranslationUnit::new();
    assert!(!empty_unit.cursor().is_valid(&empty_unit));
    let ns = tu.add_node(&root, node(CursorKind::Namespace, "ns")).unwrap();
    let mut m = node(CursorKind::CXXMethod, "f");
    m.lexical_parent = root.id;
    m.semantic_parent = ns.id;
    // the definition is only added later: the reference dangles first
    m.definition = 4;
    let decl = tu.add_node(&ns, m).unwrap();
    assert!(decl.is_valid(&tu));
    // while node 4 does not exist, definition resolves to the invalid node
    let def_before = decl.definition(&tu);
    assert!(!def_before.is_valid(&tu));
    let mut mdef = node(CursorKind::CXXMethod, "f");
    mdef.lexical_parent = root.id;
    mdef.semantic_parent = ns.id;
    let def = tu.add_node(&root, mdef).unwrap();
    let def_after = decl.definition(&tu);
    assert!(def_after.equals(&def));
    assert!(def_after.is_valid(&tu));
    assert_eq!(decl.lexical_parent(&tu).equals(&root), true);
    assert_eq!(decl.semantic_parent(&tu).equals(&ns), true);
    // no specialized template: invalid, so not a template
    assert!(!decl.specialized(&tu).is_valid(&tu));
    assert!(!decl.is_template(&tu));
    // a dangling referenced target resolves to the invalid cursor
    let refd = decl.referenced(&tu);
    assert!(!refd.is_valid(&tu));
}

#[test]
fn enum_and_typedef_queries() {
    let mut tu = TranslationUnit::new();
    let root = tu.add_node(&tu.cursor(), node(CursorKind::TranslationUnit, "t.c")).unwrap();
    let mut int_ty = ty(TypeKind::Int, "int");
    int_ty.size_raw = 4;
    let t_int = tu.add_type(int_ty).unwrap();
    let mut e = node(CursorKind::EnumDecl, "E");
    e.enum_ty = t_int.id;
    let ec = tu.add_node(&root, e).unwrap();
    assert_eq!(ec.enum_type(&tu).kind(&tu), TypeKind::Int);
    let mut v = node(CursorKind::EnumConstantDecl, "A");
    v.enum_val = -7;
    let vc = tu.add_node(&ec, v).unwrap();
    assert_eq!(vc.enum_val(&tu), -7);
    let mut td = node(CursorKind::TypedefDecl, "myint");
    td.typedef_ty = t_int.id;
    let tdc = tu.add_node(&root, td).unwrap();
    assert_eq!(tdc.typedef_type(&tu).kind(&tu), TypeKind::Int);
    assert_eq!(tdc.kind(&tu), CursorKind::TypedefDecl);
    assert_eq!(tdc.spelling(&tu), "myint");
}

#[test]
fn function_args_in_order() {
    let mut tu = TranslationUnit::new();
    let root = tu.add_node(&tu.cursor(), node(CursorKind::TranslationUnit, "t.c")).unwrap();
    let mut f = node(CursorKind::FunctionDecl, "f");
    f.args_valid = true;
    let fc = tu.add_node(&root, f).unwrap();
    let p1 = tu.add_node(&fc, node(CursorKind::ParmDecl, "a")).unwrap();
    let p2 = tu.add_node(&fc, node(CursorKind::ParmDecl, "b")).unwrap();
    tu.add_arg(&fc, &p1).unwrap();
    tu.add_arg(&fc, &p2).unwrap();
    assert_eq!(fc.num_args(&tu), 2);
    let args = fc.args(&tu);
    assert_eq!(args.len(), 2);
    assert!(args[0].equals(&p1));
    assert!(args[1].equals(&p2));
    assert_eq!(args[0].spelling(&tu), "a");
    // a node without an argument list reports the reserved -1
    let v = tu.add_node(&root, node(CursorKind::VarDecl, "x")).unwrap();
    assert_eq!(v.num_args(&tu), -1);
}

#[test]
fn type_composition_queries() {
    let mut tu = TranslationUnit::new();
    let root = tu.add_node(&tu.cursor(), node(CursorKind::TranslationUnit, "t.c")).unwrap();
    let mut rec = ty(TypeKind::Record, "struct S");
    rec.size_raw = 8;
    rec.canonical = 1;
    let t_rec = tu.add_type(rec).unwrap();
    let s = tu.add_node(&root, node(CursorKind::StructDecl, "S")).unwrap();
    let mut ptr = ty(TypeKind::Pointer, "struct S *");
    ptr.pointee = t_rec.id;
    ptr.size_raw = 8;
    let t_ptr = tu.add_type(ptr).unwrap();
    assert_eq!(t_ptr.pointee_type(&tu).kind(&tu), TypeKind::Record);
    let mut arr = ty(TypeKind::ConstantArray, "struct S [4]");
    arr.elem = t_rec.id;
    arr.array_size_raw = 4;
    let t_arr = tu.add_type(arr).unwrap();
    assert_eq!(t_arr.elem_type(&tu).kind(&tu), TypeKind::Record);
    assert_eq!(t_arr.array_size(&tu), 4);
    // the native "not an array" answer passes through as all-ones
    assert_eq!(t_rec.array_size(&tu), usize::MAX);
    let mut tdty = ty(TypeKind::Typedef, "myS");
    tdty.canonical = t_rec.id;
    tdty.named = t_rec.id;
    let t_td = tu.add_type(tdty).unwrap();
    assert_eq!(t_td.canonical_type(&tu).kind(&tu), TypeKind::Record);
    assert_eq!(t_td.named(&tu).kind(&tu), TypeKind::Record);
    let mut fty = ty(TypeKind::FunctionProto, "int (struct S *, ...)");
    fty.arg_types = vec![t_ptr.id];
    fty.is_variadic = true;
    fty.ret_ty = t_rec.id;
    fty.call_conv = CallingConv::C;
    let t_f = tu.add_type(fty).unwrap();
    assert!(t_f.is_variadic(&tu));
    assert_eq!(t_f.call_conv(&tu), CallingConv::C);
    assert_eq!(t_f.ret_type(&tu).kind(&tu), TypeKind::Record);
    let at = t_f.arg_types(&tu);
    assert_eq!(at.len(), 1);
    assert_eq!(at[0].kind(&tu), TypeKind::Pointer);
    // declaration: dangling resolves invalid, set one resolves to the node
    let mut declared = ty(TypeKind::Record, "struct T");
    declared.declaration = s.id;
    let t_declared = tu.add_type(declared).unwrap();
    assert!(t_declared.declaration(&tu).equals(&s));
    // t_rec's declaration field was left 0: the invalid node
    assert!(!t_rec.declaration(&tu).is_valid(&tu));
    // template arguments
    let mut spec = ty(TypeKind::Unexposed, "V<int>");
    spec.has_template_args = true;
    spec.template_args = vec![t_rec.id];
    let t_spec = tu.add_type(spec).unwrap();
    assert_eq!(t_spec.num_template_args(&tu), 1);
    assert_eq!(t_spec.template_arg_type(&tu, 0).kind(&tu), TypeKind::Record);
    assert_eq!(t_spec.template_arg_type(&tu, 5).kind(&tu), TypeKind::Invalid);
    assert_eq!(t_rec.num_template_args(&tu), -1);
}

#[test]
fn cxx_member_flags_and_template_args() {
    let mut tu = TranslationUnit::new();
    let root = tu.add_node(&tu.cursor(), node(CursorKind::TranslationUnit, "t.c")).unwrap();
    let mut m = node(CursorKind::CXXMethod, "get");
    m.access = AccessSpecifier::Public;
    m.method_static = true;
    m.method_virtual = false;
    m.mutable_field = false;
    m.inlined = true;
    m.template_args = vec![TemplateArg { kind: TemplateArgumentKind::Integral, value: 42 }];
    let c = tu.add_node(&root, m).unwrap();
    assert_eq!(c.access_specifier(&tu), AccessSpecifier::Public);
    assert!(c.method_is_static(&tu));
    assert!(!c.method_is_virtual(&tu));
    assert!(!c.is_mutable_field(&tu));
    assert!(c.is_inlined_function(&tu));
    assert!(!c.is_virtual_base(&tu));
    assert_eq!(c.template_arg_kind(&tu, 0), TemplateArgumentKind::Integral);
    assert_eq!(c.template_arg_value(&tu, 0), 42);
    assert_eq!(c.template_arg_kind(&tu, 9), TemplateArgumentKind::Invalid);
    assert_eq!(c.template_arg_value(&tu, 9), 0);
    assert_eq!(c.linkage(&tu), LinkageKind::External);
    assert_eq!(c.visibility(&tu), VisibilityKind::DefaultVisibility);
}

#[test]
fn sanitized_spelling_heuristic() {
    let mut tu = TranslationUnit::new();
    let cases = [
        ("const unsigned int", "unsigned"),
        ("unsigned int", "unsigned"),
        ("int", "int"),
        ("const const x y", "x"),
        ("", ""),
        ("xconst y", "xy"),
    ];
    let mut handles = Vec::new();
    for (raw, _) in cases.iter() {
        let t = ty(TypeKind::Typedef, raw);
        handles.push(tu.add_type(t).unwrap());
    }
    for (i, (_, want)) in cases.iter().enumerate() {
        assert_eq!(handles[i].sanitized_spelling(&tu), *want);
    }
    let candidates = vec!["size_t".to_string(), "unsigned".to_string()];
    assert!(handles[0].sanitized_spelling_in(&tu, &candidates));
    assert!(!handles[2].sanitized_spelling_in(&tu, &candidates));
    assert_eq!(handles[0].spelling(&tu), "const unsigned int");
    assert!(!handles[0].is_const(&tu));
}

#[test]
fn comment_tree_queries() {
    let mut tu = TranslationUnit::new();
    let root = tu.add_node(&tu.cursor(), node(CursorKind::TranslationUnit, "t.c")).unwrap();
    // children are added before their parent
    let text = tu
        .add_comment(CommentData {
            kind: CommentKind::Text,
            children: vec![],
            tag_name: String::new(),
            attrs: vec![],
        })
        .unwrap();
    let tag = tu
        .add_comment(CommentData {
            kind: CommentKind::HTMLStartTag,
            children: vec![],
            tag_name: "a".to_string(),
            attrs: vec![TagAttr { name: "href".to_string(), value: "x".to_string() }],
        })
        .unwrap();
    let para = tu
        .add_comment(CommentData {
            kind: CommentKind::Paragraph,
            children: vec![text.id, tag.id],
            tag_name: String::new(),
            attrs: vec![],
        })
        .unwrap();
    let mut n = node(CursorKind::FunctionDecl, "f");
    n.comment = para.id;
    n.raw_comment = "/// doc".to_string();
    let c = tu.add_node(&root, n).unwrap();
    assert_eq!(c.raw_comment(&tu), "/// doc");
    let pc = c.comment(&tu);
    assert_eq!(pc.kind(&tu), CommentKind::Paragraph);
    assert_eq!(pc.num_children(&tu), 2);
    assert_eq!(pc.get_child(&tu, 0).kind(&tu), CommentKind::Text);
    let child_tag = pc.get_child(&tu, 1);
    assert_eq!(child_tag.kind(&tu), CommentKind::HTMLStartTag);
    assert_eq!(child_tag.get_tag_name(&tu), "a");
    assert_eq!(child_tag.get_num_tag_attrs(&tu), 1);
    assert_eq!(child_tag.get_tag_attr_name(&tu, 0), "href");
    assert_eq!(child_tag.get_tag_attr_value(&tu, 0), "x");
    // a node without a comment points at the null comment
    let bare = tu.add_node(&root, node(CursorKind::VarDecl, "x")).unwrap();
    assert_eq!(bare.comment(&tu).kind(&tu), CommentKind::Null);
}

#[test]
fn unsaved_file_owns_copies() {
    let name = String::from("virtual.h");
    let contents = String::from("int x;");
    let u = UnsavedFile::new(&name, &contents);
    drop(name);
    drop(contents);
    assert_eq!(u.name, "virtual.h");
    assert_eq!(u.contents, "int x;");
}

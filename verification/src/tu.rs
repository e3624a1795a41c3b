//! One parsed translation unit, modelled as an arena of plain values.
//!
//! The arena owns every node, resolved type, documentation comment,
//! file name, diagnostic and token of one parse. Handles (`Cursor`,
//! `Type`, `Comment`, `Diagnostic`, `File`) are indices into these
//! arenas and are transient views: they carry no lifetime of their own
//! and mean nothing once the owning `TranslationUnit` is gone.
//!
//! Index `0` of the node, type and comment arenas is reserved for the
//! invalid entry, so that every failed or absent navigation can resolve
//! to a handle whose validity predicate is false. The arenas only ever
//! grow, and every stored back-reference points at an entry that already
//! existed when it was stored; the well-formedness invariant [`TranslationUnit::wf`]
//! records this, together with the idempotence of canonical links.

use vstd::prelude::*;
use crate::comment::Comment;
use crate::cursor::Cursor;
use crate::kinds::AccessSpecifier;
use crate::kinds::CallingConv;
use crate::kinds::CommentKind;
use crate::kinds::CursorKind;
use crate::kinds::DiagnosticSeverity;
use crate::kinds::LinkageKind;
use crate::kinds::TemplateArgumentKind;
use crate::kinds::TokenKind;
use crate::kinds::TypeKind;
use crate::kinds::VisibilityKind;
use crate::kinds::spec_is_invalid_kind;
use crate::loc::SourceLocation;
use crate::ty::Type;

verus! {

/// One parent-to-child edge of the syntax tree, in document order of
/// the children.
#[derive(Clone, Copy, Debug, PartialEq, Eq, Structural)]
pub struct Edge {
    pub parent: usize,
    pub child: usize,
}

/// One template argument attached to a node: its kind and its integral
/// value (meaningful for integral arguments).
#[derive(Clone, Copy, Debug, PartialEq, Eq, Structural)]
pub struct TemplateArg {
    pub kind: TemplateArgumentKind,
    pub value: i64,
}

/// The stored facts of one AST node.
///
/// `lexical_parent`, `semantic_parent` and `canonical` must name nodes
/// that already exist when the node is added; `definition`, `referenced`
/// and `specialized` may dangle, and a dangling value resolves to the
/// invalid node when queried. `bit_width_raw` carries the native
/// bit-field answer, `-1` being the reserved "not a bit-field" sentinel.
#[derive(Clone, Debug)]
pub struct NodeData {
    pub kind: CursorKind,
    pub spelling: String,
    pub display_name: String,
    pub mangling: String,
    pub raw_comment: String,
    pub comment: usize,
    pub ty: usize,
    pub loc: SourceLocation,
    pub extent_start: u32,
    pub extent_end: u32,
    pub lexical_parent: usize,
    pub semantic_parent: usize,
    pub definition: usize,
    pub referenced: usize,
    pub canonical: usize,
    pub specialized: usize,
    pub bit_width_raw: i32,
    pub enum_ty: usize,
    pub enum_val: i64,
    pub typedef_ty: usize,
    pub ret_ty: usize,
    pub linkage: LinkageKind,
    pub visibility: VisibilityKind,
    pub access: AccessSpecifier,
    pub mutable_field: bool,
    pub method_static: bool,
    pub method_virtual: bool,
    pub virtual_base: bool,
    pub inlined: bool,
    pub args_valid: bool,
    pub template_args: Vec<TemplateArg>,
}

/// The stored facts of one resolved type.
///
/// `size_raw`, `align_raw` and `array_size_raw` carry the native layout
/// answers, negative codes included: `-1` to `-5` classify a layout
/// failure, and `-1` is also the "not an array" answer of the element
/// count. `declaration` may dangle and then resolves to the invalid
/// node; every type-to-type reference must name a type that already
/// exists when this one is added.
#[derive(Clone, Debug)]
pub struct TypeData {
    pub kind: TypeKind,
    pub spelling: String,
    pub declaration: usize,
    pub is_const: bool,
    pub size_raw: i64,
    pub align_raw: i64,
    pub array_size_raw: i64,
    pub pointee: usize,
    pub elem: usize,
    pub canonical: usize,
    pub named: usize,
    pub ret_ty: usize,
    pub call_conv: CallingConv,
    pub is_variadic: bool,
    pub arg_types: Vec<usize>,
    pub has_template_args: bool,
    pub template_args: Vec<usize>,
}

/// One attribute of an HTML start-tag comment node.
#[derive(Clone, Debug)]
pub struct TagAttr {
    pub name: String,
    pub value: String,
}

/// The stored facts of one documentation-comment node. Children are
/// added before their parent, so every child index is smaller than the
/// index of the node that lists it.
#[derive(Clone, Debug)]
pub struct CommentData {
    pub kind: CommentKind,
    pub children: Vec<usize>,
    pub tag_name: String,
    pub attrs: Vec<TagAttr>,
}

/// The stored facts of one compiler finding.
#[derive(Clone, Debug)]
pub struct DiagnosticData {
    pub severity: DiagnosticSeverity,
    pub loc: SourceLocation,
    pub text: String,
}

/// One stored lexical token: kind, spelling and the byte offset of its
/// start inside the translation unit's source.
#[derive(Clone, Debug)]
pub struct TokenData {
    pub kind: TokenKind,
    pub spelling: String,
    pub offset: u32,
}

/// The reason a builder call rejected its input.
#[derive(Clone, Copy, Debug, PartialEq, Eq, Structural)]
pub enum BuildError {
    /// The parent handle does not name an existing node.
    BadParent,
    /// A node reference does not name an existing node.
    BadNodeRef,
    /// The canonical reference neither names the node itself nor an
    /// existing node that is its own canonical.
    BadCanonical,
    /// A type reference does not name an existing type.
    BadTypeRef,
    /// The comment reference does not name an existing comment.
    BadCommentRef,
    /// A location's file identifier does not name an existing file.
    BadFileRef,
    /// An extent whose start lies after its end.
    BadExtent,
    /// A bit-field width below the reserved `-1` sentinel.
    BadBitWidth,
    /// A layout answer below the lowest layout-error code.
    BadLayoutCode,
    /// An element count below the reserved `-1` sentinel.
    BadArraySize,
    /// More template arguments than the count query can report.
    TooManyTemplateArgs,
    /// More arguments than the count query can report.
    TooManyArgs,
    /// A comment child reference does not name an existing comment.
    BadCommentChild,
    /// A token whose offset lies before the previously added token.
    TokenOutOfOrder,
    /// A first node whose kind is not the translation-unit kind.
    BadRoot,
}

/// One parsed source file plus everything derived from it: the node,
/// type, comment, file, diagnostic and token arenas.
pub struct TranslationUnit {
    pub nodes: Vec<NodeData>,
    pub child_edges: Vec<Edge>,
    pub arg_edges: Vec<Edge>,
    pub types: Vec<TypeData>,
    pub comments: Vec<CommentData>,
    pub files: Vec<String>,
    pub diagnostics: Vec<DiagnosticData>,
    pub toks: Vec<TokenData>,
    pub has_tokens: bool,
}

impl TranslationUnit {
    /// A cursor handle is an index into the node arena.
    pub open spec fn valid_cursor(&self, c: Cursor) -> bool {
        c.id < self.nodes@.len()
    }

    /// A type handle is an index into the type arena.
    pub open spec fn valid_type(&self, t: Type) -> bool {
        t.id < self.types@.len()
    }

    /// A comment handle is an index into the comment arena.
    pub open spec fn valid_comment(&self, c: Comment) -> bool {
        c.id < self.comments@.len()
    }

    /// The stored back-references of one node all name existing
    /// entries.
    pub open spec fn node_wf(&self, n: NodeData) -> bool {
        &&& n.lexical_parent < self.nodes@.len()
        &&& n.semantic_parent < self.nodes@.len()
        &&& n.canonical < self.nodes@.len()
        &&& n.ty < self.types@.len()
        &&& n.enum_ty < self.types@.len()
        &&& n.typedef_ty < self.types@.len()
        &&& n.ret_ty < self.types@.len()
        &&& n.comment < self.comments@.len()
        &&& n.loc.file <= self.files@.len()
        &&& n.extent_start <= n.extent_end
        &&& n.bit_width_raw >= -1
    }

    /// The stored references of one type all name existing entries, and
    /// its raw layout answers lie in the native range.
    pub open spec fn type_wf(&self, t: TypeData) -> bool {
        &&& t.pointee < self.types@.len()
        &&& t.elem < self.types@.len()
        &&& t.canonical < self.types@.len()
        &&& t.named < self.types@.len()
        &&& t.ret_ty < self.types@.len()
        &&& t.size_raw >= -5
        &&& t.align_raw >= -5
        &&& t.array_size_raw >= -1
        &&& (forall|j: int| 0 <= j < t.arg_types@.len() ==> #[trigger] t.arg_types@[j] < self.types@.len())
        &&& (forall|j: int|
            0 <= j < t.template_args@.len() ==> #[trigger] t.template_args@[j] < self.types@.len())
        &&& (t.has_template_args ==> t.template_args@.len() <= i32::MAX)
    }

    /// Every child of a comment node was added before it.
    pub open spec fn comment_wf(&self, c: CommentData, i: int) -> bool {
        forall|j: int| 0 <= j < c.children@.len() ==> #[trigger] c.children@[j] < i
    }

    /// Node `i` was appended as the child of some real node: a child
    /// edge ends at it and starts at a node other than the invalid one.
    /// Together with every edge running from a node to a strictly later
    /// one, this makes every node beyond the root reachable from the
    /// root by descending through children.
    pub open spec fn has_parent_edge(&self, i: int) -> bool {
        exists|k: int|
            0 <= k < self.child_edges@.len() && (#[trigger] self.child_edges@[k]).child == i
                && self.child_edges@[k].parent >= 1
    }

    /// Well-formedness of the whole arena: the reserved invalid entries
    /// stand at index 0, every stored reference names an existing entry,
    /// tree edges run from a node to a strictly later one, canonical
    /// links of nodes and of types are idempotent, the first real node
    /// is the translation-unit node and every later node hangs off a
    /// real parent, and tokens are stored in source order.
    pub open spec fn wf(&self) -> bool {
        &&& self.nodes@.len() >= 1
        &&& self.types@.len() >= 1
        &&& self.comments@.len() >= 1
        &&& spec_is_invalid_kind(self.nodes@[0].kind)
        &&& self.nodes@[0].canonical == 0
        &&& self.types@[0].kind == TypeKind::Invalid
        &&& self.comments@[0].kind == CommentKind::Null
        &&& (forall|i: int| 0 <= i < self.nodes@.len() ==> self.node_wf(#[trigger] self.nodes@[i]))
        &&& (forall|i: int|
            0 <= i < self.nodes@.len() ==> self.nodes@[#[trigger] self.nodes@[i].canonical as int].canonical
                == self.nodes@[i].canonical)
        &&& (forall|i: int|
            0 <= i < self.child_edges@.len() ==> (#[trigger] self.child_edges@[i]).parent
                < self.child_edges@[i].child && self.child_edges@[i].child < self.nodes@.len())
        &&& (forall|i: int|
            0 <= i < self.arg_edges@.len() ==> (#[trigger] self.arg_edges@[i]).parent
                < self.nodes@.len() && self.arg_edges@[i].child < self.nodes@.len())
        &&& self.arg_edges@.len() <= i32::MAX
        &&& (forall|i: int| 0 <= i < self.types@.len() ==> self.type_wf(#[trigger] self.types@[i]))
        &&& (forall|i: int|
            0 <= i < self.types@.len() ==> self.types@[#[trigger] self.types@[i].canonical as int].canonical
                == self.types@[i].canonical)
        &&& (self.nodes@.len() > 1 ==> self.nodes@[1].kind == CursorKind::TranslationUnit)
        &&& (forall|i: int| 2 <= i < self.nodes@.len() ==> #[trigger] self.has_parent_edge(i))
        &&& (forall|i: int|
            0 <= i < self.comments@.len() ==> self.comment_wf(#[trigger] self.comments@[i], i))
        &&& (forall|i: int|
            0 <= i < self.diagnostics@.len() ==> (#[trigger] self.diagnostics@[i]).loc.file
                <= self.files@.len())
        &&& (forall|i: int|
            0 <= i && i + 1 < self.toks@.len() ==> (#[trigger] self.toks@[i]).offset
                <= self.toks@[i + 1].offset)
    }

    /// A fresh, empty translation unit: only the reserved invalid node,
    /// type and comment entries.
    pub fn new() -> (r: TranslationUnit)
        ensures
            r.wf(),
            r.nodes@.len() == 1,
            r.types@.len() == 1,
            r.comments@.len() == 1,
            r.child_edges@.len() == 0,
            r.arg_edges@.len() == 0,
            r.files@.len() == 0,
            r.diagnostics@.len() == 0,
            r.toks@.len() == 0,
            !r.has_tokens,
            r.nodes@[0].kind == CursorKind::InvalidFile,
            r.nodes@[0].bit_width_raw == -1,
            r.nodes@[0].canonical == 0,
            r.types@[0].kind == TypeKind::Invalid,
            r.types@[0].size_raw == -1,
            r.comments@[0].kind == CommentKind::Null,
    {
        let invalid_node = NodeData {
            kind: CursorKind::InvalidFile,
            spelling: String::new(),
            display_name: String::new(),
            mangling: String::new(),
            raw_comment: String::new(),
            comment: 0,
            ty: 0,
            loc: SourceLocation { file: 0, line: 0, col: 0, offset: 0 },
            extent_start: 0,
            extent_end: 0,
            lexical_parent: 0,
            semantic_parent: 0,
            definition: 0,
            referenced: 0,
            canonical: 0,
            specialized: 0,
            bit_width_raw: -1,
            enum_ty: 0,
            enum_val: 0,
            typedef_ty: 0,
            ret_ty: 0,
            linkage: LinkageKind::Invalid,
            visibility: VisibilityKind::Invalid,
            access: AccessSpecifier::Invalid,
            mutable_field: false,
            method_static: false,
            method_virtual: false,
            virtual_base: false,
            inlined: false,
            args_valid: false,
            template_args: Vec::new(),
        };
        let invalid_type = TypeData {
            kind: TypeKind::Invalid,
            spelling: String::new(),
            declaration: 0,
            is_const: false,
            size_raw: -1,
            align_raw: -1,
            array_size_raw: -1,
            pointee: 0,
            elem: 0,
            canonical: 0,
            named: 0,
            ret_ty: 0,
            call_conv: CallingConv::Invalid,
            is_variadic: false,
            arg_types: Vec::new(),
            has_template_args: false,
            template_args: Vec::new(),
        };
        let null_comment = CommentData {
            kind: CommentKind::Null,
            children: Vec::new(),
            tag_name: String::new(),
            attrs: Vec::new(),
        };
        let mut nodes: Vec<NodeData> = Vec::new();
        nodes.push(invalid_node);
        let mut types: Vec<TypeData> = Vec::new();
        types.push(invalid_type);
        let mut comments: Vec<CommentData> = Vec::new();
        comments.push(null_comment);
        TranslationUnit {
            nodes,
            child_edges: Vec::new(),
            arg_edges: Vec::new(),
            types,
            comments,
            files: Vec::new(),
            diagnostics: Vec::new(),
            toks: Vec::new(),
            has_tokens: false,
        }
    }

    /// Registers one source file name; the returned handle's identifier
    /// is 1-based, `0` staying reserved for the null file.
    #[verifier::rlimit(50)]
    pub fn add_file(&mut self, name: &str) -> (r: crate::loc::File)
        requires
            old(self).wf(),
        ensures
            final(self).wf(),
            final(self).files@.len() == old(self).files@.len() + 1,
            final(self).files@[old(self).files@.len() as int]@ == name@,
            forall|i: int|
                0 <= i < old(self).files@.len()
                    ==> #[trigger] final(self).files@[i] == old(self).files@[i],
            r == (crate::loc::File { id: final(self).files@.len() as usize }),
            final(self).nodes == old(self).nodes,
            final(self).child_edges == old(self).child_edges,
            final(self).arg_edges == old(self).arg_edges,
            final(self).types == old(self).types,
            final(self).comments == old(self).comments,
            final(self).diagnostics == old(self).diagnostics,
            final(self).toks == old(self).toks,
            final(self).has_tokens == old(self).has_tokens,
    {
        self.files.push(name.to_owned());
        proof {
            lemma_parent_edges_carry(old(self), self);
        }
        crate::loc::File { id: self.files.len() }
    }

    /// The checks `add_node` makes, in order, and the error each
    /// failure reports. The first real node must be the translation-unit
    /// node, and only that node may hang off the invalid node, so the
    /// whole tree hangs off the root. `definition`, `referenced` and
    /// `specialized` are left unchecked on purpose: they may name a node
    /// that is only added later, and resolve to the invalid node until
    /// then.
    pub open spec fn node_init_error(&self, parent: Cursor, d: NodeData) -> Option<BuildError> {
        if parent.id >= self.nodes@.len() || (self.nodes@.len() >= 2 && parent.id == 0) {
            Some(BuildError::BadParent)
        } else if self.nodes@.len() == 1 && d.kind != CursorKind::TranslationUnit {
            Some(BuildError::BadRoot)
        } else if d.lexical_parent >= self.nodes@.len() || d.semantic_parent
            >= self.nodes@.len() {
            Some(BuildError::BadNodeRef)
        } else if !(d.canonical == self.nodes@.len() || (d.canonical < self.nodes@.len()
            && self.nodes@[d.canonical as int].canonical == d.canonical)) {
            Some(BuildError::BadCanonical)
        } else if d.ty >= self.types@.len() || d.enum_ty >= self.types@.len() || d.typedef_ty
            >= self.types@.len() || d.ret_ty >= self.types@.len() {
            Some(BuildError::BadTypeRef)
        } else if d.comment >= self.comments@.len() {
            Some(BuildError::BadCommentRef)
        } else if d.loc.file > self.files@.len() {
            Some(BuildError::BadFileRef)
        } else if d.extent_start > d.extent_end {
            Some(BuildError::BadExtent)
        } else if d.bit_width_raw < -1 {
            Some(BuildError::BadBitWidth)
        } else {
            None
        }
    }

    /// Appends one node as the last child of `parent` and returns its
    /// cursor. The node's back-references must name existing entries,
    /// and its canonical reference must either name the node itself or
    /// an existing node that is its own canonical — which is what keeps
    /// canonical links idempotent across the whole arena.
    #[verifier::rlimit(50)]
    pub fn add_node(&mut self, parent: &Cursor, data: NodeData) -> (r: Result<Cursor, BuildError>)
        requires
            old(self).wf(),
        ensures
            final(self).wf(),
            match old(self).node_init_error(*parent, data) {
                Some(e) => r == Err::<Cursor, BuildError>(e) && *final(self) == *old(self),
                None => {
                    &&& r == Ok::<Cursor, BuildError>(
                        Cursor { id: old(self).nodes@.len() as usize },
                    )
                    &&& final(self).nodes@ == old(self).nodes@.push(data)
                    &&& final(self).child_edges@ == old(self).child_edges@.push(
                        Edge { parent: parent.id, child: old(self).nodes@.len() as usize },
                    )
                    &&& final(self).arg_edges == old(self).arg_edges
                    &&& final(self).types == old(self).types
                    &&& final(self).comments == old(self).comments
                    &&& final(self).files == old(self).files
                    &&& final(self).diagnostics == old(self).diagnostics
                    &&& final(self).toks == old(self).toks
                    &&& final(self).has_tokens == old(self).has_tokens
                },
            },
    {
        if parent.id >= self.nodes.len() || (self.nodes.len() >= 2 && parent.id == 0) {
            return Err(BuildError::BadParent);
        }
        if self.nodes.len() == 1 && !matches!(data.kind, CursorKind::TranslationUnit) {
            return Err(BuildError::BadRoot);
        }
        if data.lexical_parent >= self.nodes.len() || data.semantic_parent >= self.nodes.len() {
            return Err(BuildError::BadNodeRef);
        }
        let canonical_ok = data.canonical == self.nodes.len() || (data.canonical
            < self.nodes.len() && self.nodes[data.canonical].canonical == data.canonical);
        if !canonical_ok {
            return Err(BuildError::BadCanonical);
        }
        if data.ty >= self.types.len() || data.enum_ty >= self.types.len() || data.typedef_ty
            >= self.types.len() || data.ret_ty >= self.types.len() {
            return Err(BuildError::BadTypeRef);
        }
        if data.comment >= self.comments.len() {
            return Err(BuildError::BadCommentRef);
        }
        if data.loc.file > self.files.len() {
            return Err(BuildError::BadFileRef);
        }
        if data.extent_start > data.extent_end {
            return Err(BuildError::BadExtent);
        }
        if data.bit_width_raw < -1 {
            return Err(BuildError::BadBitWidth);
        }
        let new_id = self.nodes.len();
        let ghost old_self = *old(self);
        self.nodes.push(data);
        self.child_edges.push(Edge { parent: parent.id, child: new_id });
        proof {
            let oldn = old_self.nodes@;
            let newn = self.nodes@;
            assert forall|i: int| 0 <= i < newn.len() implies self.node_wf(#[trigger] newn[i]) by {
                if i < oldn.len() {
                    assert(old_self.node_wf(oldn[i]));
                }
            }
            assert forall|i: int|
                0 <= i < newn.len() implies newn[#[trigger] newn[i].canonical as int].canonical
                == newn[i].canonical by {
                if i < oldn.len() {
                    assert(oldn[newn[i].canonical as int].canonical == oldn[i].canonical);
                }
            }
            assert forall|i: int|
                0 <= i < self.child_edges@.len() implies (#[trigger] self.child_edges@[i]).parent
                < self.child_edges@[i].child && self.child_edges@[i].child
                < self.nodes@.len() by {
                if i < old_self.child_edges@.len() {
                    assert(old_self.child_edges@[i].parent < old_self.child_edges@[i].child);
                }
            }
            assert forall|i: int|
                0 <= i < self.arg_edges@.len() implies (#[trigger] self.arg_edges@[i]).parent
                < self.nodes@.len() && self.arg_edges@[i].child < self.nodes@.len() by {
                assert(old_self.arg_edges@[i].parent < oldn.len());
            }
            assert forall|i: int| 0 <= i < self.types@.len() implies self.type_wf(
                #[trigger] self.types@[i],
            ) by {
                assert(old_self.type_wf(self.types@[i]));
            }
            assert forall|i: int|
                0 <= i < self.types@.len() implies self.types@[#[trigger] self.types@[i].canonical as int].canonical
                == self.types@[i].canonical by {
                assert(old_self.types@[old_self.types@[i].canonical as int].canonical
                    == old_self.types@[i].canonical);
            }
            assert forall|i: int| 0 <= i < self.comments@.len() implies self.comment_wf(
                #[trigger] self.comments@[i],
                i,
            ) by {
                assert(old_self.comment_wf(self.comments@[i], i));
            }
            assert forall|i: int| 2 <= i < self.nodes@.len() implies #[trigger] self.has_parent_edge(
                i,
            ) by {
                if i < oldn.len() {
                    assert(old_self.has_parent_edge(i));
                    let k0 = choose|k: int|
                        0 <= k < old_self.child_edges@.len() && (#[trigger] old_self.child_edges@[k]).child
                            == i && old_self.child_edges@[k].parent >= 1;
                    assert(self.child_edges@[k0].child == i && self.child_edges@[k0].parent >= 1);
                } else {
                    let k0 = self.child_edges@.len() - 1;
                    assert(self.child_edges@[k0].child == i && self.child_edges@[k0].parent >= 1);
                }
            }
        }
        Ok(Cursor { id: new_id })
    }

    /// The checks `add_type` makes, in order, and the error each
    /// failure reports. `declaration` is left unchecked on purpose: it
    /// may name a node that is only added later. The canonical reference
    /// must either name the type being added itself — written as the
    /// arena's current length — or an existing type that is its own
    /// canonical, the same rule nodes obey, which keeps canonical links
    /// of types idempotent too.
    pub open spec fn type_init_error(&self, d: TypeData) -> Option<BuildError> {
        if d.pointee >= self.types@.len() || d.elem >= self.types@.len() || d.named
            >= self.types@.len() || d.ret_ty >= self.types@.len() {
            Some(BuildError::BadTypeRef)
        } else if !(d.canonical == self.types@.len() || (d.canonical < self.types@.len()
            && self.types@[d.canonical as int].canonical == d.canonical)) {
            Some(BuildError::BadCanonical)
        } else if !(forall|j: int|
            0 <= j < d.arg_types@.len() ==> #[trigger] d.arg_types@[j] < self.types@.len()) {
            Some(BuildError::BadTypeRef)
        } else if !(forall|j: int|
            0 <= j < d.template_args@.len() ==> #[trigger] d.template_args@[j]
                < self.types@.len()) {
            Some(BuildError::BadTypeRef)
        } else if d.size_raw < -5 || d.align_raw < -5 {
            Some(BuildError::BadLayoutCode)
        } else if d.array_size_raw < -1 {
            Some(BuildError::BadArraySize)
        } else if d.has_template_args && d.template_args@.len() > i32::MAX {
            Some(BuildError::TooManyTemplateArgs)
        } else {
            None
        }
    }

    /// Appends one resolved type and returns its handle. Every
    /// type-to-type reference must name an existing type, and the raw
    /// layout answers must lie in the native range.
    #[verifier::rlimit(50)]
    pub fn add_type(&mut self, data: TypeData) -> (r: Result<Type, BuildError>)
        requires
            old(self).wf(),
        ensures
            final(self).wf(),
            match old(self).type_init_error(data) {
                Some(e) => r == Err::<Type, BuildError>(e) && *final(self) == *old(self),
                None => {
                    &&& r == Ok::<Type, BuildError>(Type { id: old(self).types@.len() as usize })
                    &&& final(self).types@ == old(self).types@.push(data)
                    &&& final(self).nodes == old(self).nodes
                    &&& final(self).child_edges == old(self).child_edges
                    &&& final(self).arg_edges == old(self).arg_edges
                    &&& final(self).comments == old(self).comments
                    &&& final(self).files == old(self).files
                    &&& final(self).diagnostics == old(self).diagnostics
                    &&& final(self).toks == old(self).toks
                    &&& final(self).has_tokens == old(self).has_tokens
                },
            },
    {
        if data.pointee >= self.types.len() || data.elem >= self.types.len() || data.named
            >= self.types.len() || data.ret_ty >= self.types.len() {
            return Err(BuildError::BadTypeRef);
        }
        let canonical_ok = data.canonical == self.types.len() || (data.canonical
            < self.types.len() && self.types[data.canonical].canonical == data.canonical);
        if !canonical_ok {
            return Err(BuildError::BadCanonical);
        }
        if !ids_below(&data.arg_types, self.types.len()) {
            return Err(BuildError::BadTypeRef);
        }
        if !ids_below(&data.template_args, self.types.len()) {
            return Err(BuildError::BadTypeRef);
        }
        if data.size_raw < -5 || data.align_raw < -5 {
            return Err(BuildError::BadLayoutCode);
        }
        if data.array_size_raw < -1 {
            return Err(BuildError::BadArraySize);
        }
        if data.has_template_args && data.template_args.len() > (i32::MAX as usize) {
            return Err(BuildError::TooManyTemplateArgs);
        }
        let new_id = self.types.len();
        let ghost old_self = *old(self);
        self.types.push(data);
        proof {
            assert forall|i: int| 0 <= i < self.nodes@.len() implies self.node_wf(
                #[trigger] self.nodes@[i],
            ) by {
                assert(old_self.node_wf(self.nodes@[i]));
            }
            assert forall|i: int| 0 <= i < self.types@.len() implies self.type_wf(
                #[trigger] self.types@[i],
            ) by {
                if i < old_self.types@.len() {
                    assert(old_self.type_wf(self.types@[i]));
                }
            }
            let oldt = old_self.types@;
            let newt = self.types@;
            assert forall|i: int|
                0 <= i < newt.len() implies newt[#[trigger] newt[i].canonical as int].canonical
                == newt[i].canonical by {
                if i < oldt.len() {
                    assert(oldt[newt[i].canonical as int].canonical == oldt[i].canonical);
                }
            }
            assert forall|i: int| 0 <= i < self.comments@.len() implies self.comment_wf(
                #[trigger] self.comments@[i],
                i,
            ) by {
                assert(old_self.comment_wf(self.comments@[i], i));
            }
            assert forall|i: int| 2 <= i < self.nodes@.len() implies #[trigger] self.has_parent_edge(
                i,
            ) by {
                assert(old_self.has_parent_edge(i));
                let k0 = choose|k: int|
                    0 <= k < old_self.child_edges@.len() && (#[trigger] old_self.child_edges@[k]).child
                        == i && old_self.child_edges@[k].parent >= 1;
                assert(self.child_edges@[k0].child == i && self.child_edges@[k0].parent >= 1);
            }
        }
        Ok(Type { id: new_id })
    }

    /// The checks `add_arg` makes: both ends must exist, and the
    /// argument list must stay countable by the native count query.
    pub open spec fn arg_error(&self, func: Cursor, arg: Cursor) -> Option<BuildError> {
        if func.id >= self.nodes@.len() || arg.id >= self.nodes@.len() {
            Some(BuildError::BadNodeRef)
        } else if self.arg_edges@.len() >= i32::MAX {
            Some(BuildError::TooManyArgs)
        } else {
            None
        }
    }

    /// Appends `arg` to the ordered argument list of `func`.
    #[verifier::rlimit(50)]
    pub fn add_arg(&mut self, func: &Cursor, arg: &Cursor) -> (r: Result<(), BuildError>)
        requires
            old(self).wf(),
        ensures
            final(self).wf(),
            match old(self).arg_error(*func, *arg) {
                Some(e) => r == Err::<(), BuildError>(e) && *final(self) == *old(self),
                None => {
                    &&& r is Ok
                    &&& final(self).arg_edges@ == old(self).arg_edges@.push(
                        Edge { parent: func.id, child: arg.id },
                    )
                    &&& final(self).nodes == old(self).nodes
                    &&& final(self).child_edges == old(self).child_edges
                    &&& final(self).types == old(self).types
                    &&& final(self).comments == old(self).comments
                    &&& final(self).files == old(self).files
                    &&& final(self).diagnostics == old(self).diagnostics
                    &&& final(self).toks == old(self).toks
                    &&& final(self).has_tokens == old(self).has_tokens
                },
            },
    {
        if func.id >= self.nodes.len() || arg.id >= self.nodes.len() {
            return Err(BuildError::BadNodeRef);
        }
        if self.arg_edges.len() >= (i32::MAX as usize) {
            return Err(BuildError::TooManyArgs);
        }
        self.arg_edges.push(Edge { parent: func.id, child: arg.id });
        proof {
            lemma_parent_edges_carry(old(self), self);
        }
        Ok(())
    }

    /// The check `add_comment` makes: every listed child must already
    /// exist, which keeps the comment arena a forest whose children
    /// stand before their parent.
    pub open spec fn comment_init_error(&self, d: CommentData) -> Option<BuildError> {
        if !(forall|j: int|
            0 <= j < d.children@.len() ==> #[trigger] d.children@[j] < self.comments@.len()) {
            Some(BuildError::BadCommentChild)
        } else {
            None
        }
    }

    /// Appends one documentation-comment node, its children given by
    /// the handles of comments already added, and returns its handle.
    #[verifier::rlimit(50)]
    pub fn add_comment(&mut self, data: CommentData) -> (r: Result<Comment, BuildError>)
        requires
            old(self).wf(),
        ensures
            final(self).wf(),
            match old(self).comment_init_error(data) {
                Some(e) => r == Err::<Comment, BuildError>(e) && *final(self) == *old(self),
                None => {
                    &&& r == Ok::<Comment, BuildError>(
                        Comment { id: old(self).comments@.len() as usize },
                    )
                    &&& final(self).comments@ == old(self).comments@.push(data)
                    &&& final(self).nodes == old(self).nodes
                    &&& final(self).child_edges == old(self).child_edges
                    &&& final(self).arg_edges == old(self).arg_edges
                    &&& final(self).types == old(self).types
                    &&& final(self).files == old(self).files
                    &&& final(self).diagnostics == old(self).diagnostics
                    &&& final(self).toks == old(self).toks
                    &&& final(self).has_tokens == old(self).has_tokens
                },
            },
    {
        if !ids_below(&data.children, self.comments.len()) {
            return Err(BuildError::BadCommentChild);
        }
        let new_id = self.comments.len();
        let ghost old_self = *old(self);
        self.comments.push(data);
        proof {
            assert forall|i: int| 0 <= i < self.nodes@.len() implies self.node_wf(
                #[trigger] self.nodes@[i],
            ) by {
                assert(old_self.node_wf(self.nodes@[i]));
            }
            assert forall|i: int| 0 <= i < self.types@.len() implies self.type_wf(
                #[trigger] self.types@[i],
            ) by {
                assert(old_self.type_wf(self.types@[i]));
            }
            assert forall|i: int| 0 <= i < self.comments@.len() implies self.comment_wf(
                #[trigger] self.comments@[i],
                i,
            ) by {
                if i < old_self.comments@.len() {
                    assert(old_self.comment_wf(self.comments@[i], i));
                }
            }
            lemma_parent_edges_carry(&old_self, self);
        }
        Ok(Comment { id: new_id })
    }

    /// Appends one compiler finding and returns its handle.
    #[verifier::rlimit(50)]
    pub fn add_diagnostic(&mut self, data: DiagnosticData) -> (r: Result<
        crate::diag::Diagnostic,
        BuildError,
    >)
        requires
            old(self).wf(),
        ensures
            final(self).wf(),
            if data.loc.file > old(self).files@.len() {
                r == Err::<crate::diag::Diagnostic, BuildError>(BuildError::BadFileRef)
                    && *final(self) == *old(self)
            } else {
                &&& r == Ok::<crate::diag::Diagnostic, BuildError>(
                    (crate::diag::Diagnostic { id: old(self).diagnostics@.len() as usize }),
                )
                &&& final(self).diagnostics@ == old(self).diagnostics@.push(data)
                &&& final(self).nodes == old(self).nodes
                &&& final(self).child_edges == old(self).child_edges
                &&& final(self).arg_edges == old(self).arg_edges
                &&& final(self).types == old(self).types
                &&& final(self).comments == old(self).comments
                &&& final(self).files == old(self).files
                &&& final(self).toks == old(self).toks
                &&& final(self).has_tokens == old(self).has_tokens
            },
    {
        if data.loc.file > self.files.len() {
            return Err(BuildError::BadFileRef);
        }
        let new_id = self.diagnostics.len();
        self.diagnostics.push(data);
        proof {
            lemma_parent_edges_carry(old(self), self);
        }
        Ok(crate::diag::Diagnostic { id: new_id })
    }

    /// Appends one token, which must not stand before the previously
    /// added one, and marks the token buffer as present.
    #[verifier::rlimit(100)]
    pub fn add_token(&mut self, data: TokenData) -> (r: Result<(), BuildError>)
        requires
            old(self).wf(),
        ensures
            final(self).wf(),
            if old(self).toks@.len() > 0 && old(self).toks@.last().offset > data.offset {
                r == Err::<(), BuildError>(BuildError::TokenOutOfOrder)
                    && *final(self) == *old(self)
            } else {
                &&& r is Ok
                &&& final(self).toks@ == old(self).toks@.push(data)
                &&& final(self).has_tokens
                &&& final(self).nodes == old(self).nodes
                &&& final(self).child_edges == old(self).child_edges
                &&& final(self).arg_edges == old(self).arg_edges
                &&& final(self).types == old(self).types
                &&& final(self).comments == old(self).comments
                &&& final(self).files == old(self).files
                &&& final(self).diagnostics == old(self).diagnostics
            },
    {
        if self.toks.len() > 0 && self.toks[self.toks.len() - 1].offset > data.offset {
            return Err(BuildError::TokenOutOfOrder);
        }
        let ghost old_self = *old(self);
        let ghost data_g = data;
        self.toks.push(data);
        self.has_tokens = true;
        proof {
            let oldt = old_self.toks@;
            assert(self.toks@ == oldt.push(data_g));
            assert forall|i: int|
                0 <= i && i + 1 < self.toks@.len() implies (#[trigger] self.toks@[i]).offset
                <= self.toks@[i + 1].offset by {
                assert(self.toks@.len() == oldt.len() + 1);
                if i + 1 < oldt.len() {
                    assert(self.toks@[i] == oldt[i]);
                    assert(self.toks@[i + 1] == oldt[i + 1]);
                    assert(oldt[i].offset <= oldt[i + 1].offset);
                } else {
                    assert(i + 1 == oldt.len());
                    assert(oldt.len() > 0);
                    assert(self.toks@[i] == oldt[oldt.len() - 1]);
                    assert(self.toks@[i + 1] == data_g);
                }
            }
            lemma_parent_edges_carry(&old_self, self);
        }
        Ok(())
    }

    /// Marks the token buffer as present without adding a token, for a
    /// source range that tokenizes to nothing.
    #[verifier::rlimit(50)]
    pub fn enable_tokens(&mut self)
        requires
            old(self).wf(),
        ensures
            final(self).wf(),
            final(self).has_tokens,
            final(self).nodes == old(self).nodes,
            final(self).child_edges == old(self).child_edges,
            final(self).arg_edges == old(self).arg_edges,
            final(self).types == old(self).types,
            final(self).comments == old(self).comments,
            final(self).files == old(self).files,
            final(self).diagnostics == old(self).diagnostics,
            final(self).toks == old(self).toks,
    {
        self.has_tokens = true;
        proof {
            lemma_parent_edges_carry(old(self), self);
        }
    }

    /// The root cursor of the AST: the translation-unit node from
    /// which every other node hangs, or the invalid cursor while no
    /// node was parsed.
    pub fn cursor(&self) -> (r: Cursor)
        requires
            self.wf(),
        ensures
            r == (Cursor { id: if self.nodes@.len() > 1 { 1usize } else { 0usize } }),
            self.valid_cursor(r),
            self.nodes@.len() > 1 ==> self.nodes@[r.id as int].kind
                == CursorKind::TranslationUnit,
            self.nodes@.len() > 1 ==> !spec_is_invalid_kind(self.nodes@[r.id as int].kind),
    {
        if self.nodes.len() > 1 {
            Cursor { id: 1 }
        } else {
            Cursor { id: 0 }
        }
    }

    /// The ordered children of node `id`: the targets of its child
    /// edges, in the order the edges were added.
    pub open spec fn spec_children(&self, id: int) -> Seq<usize> {
        edges_to(self.child_edges@, id)
    }

    /// The ordered arguments of node `id`.
    pub open spec fn spec_args(&self, id: int) -> Seq<usize> {
        edges_to(self.arg_edges@, id)
    }
}

/// The targets of the edges whose source is `id`, in edge order.
pub open spec fn edges_to(edges: Seq<Edge>, id: int) -> Seq<usize>
    decreases edges.len(),
{
    if edges.len() == 0 {
        Seq::empty()
    } else {
        edges_to(edges.drop_last(), id) + (if edges.last().parent == id {
            seq![edges.last().child]
        } else {
            Seq::empty()
        })
    }
}

/// Appending one edge extends the selection of exactly the edge's
/// source by exactly its target.
pub proof fn lemma_edges_to_push(edges: Seq<Edge>, e: Edge, id: int)
    ensures
        edges_to(edges.push(e), id) == edges_to(edges, id) + (if e.parent == id {
            seq![e.child]
        } else {
            Seq::<usize>::empty()
        }),
{
    assert(edges.push(e).drop_last() =~= edges);
    assert(edges.push(e).last() == e);
    if e.parent != id {
        assert(edges_to(edges.push(e), id) =~= edges_to(edges, id) + Seq::<usize>::empty());
    }
}

/// Every selected child of `id` lies strictly between `id` and `n`,
/// provided every edge runs from a node to a strictly later one below
/// `n`.
pub proof fn lemma_edges_to_bounded(edges: Seq<Edge>, id: int, n: int)
    requires
        forall|i: int|
            0 <= i < edges.len() ==> (#[trigger] edges[i]).parent < edges[i].child
                && edges[i].child < n,
    ensures
        forall|k: int|
            0 <= k < edges_to(edges, id).len() ==> id < #[trigger] edges_to(edges, id)[k]
                && edges_to(edges, id)[k] < n,
    decreases edges.len(),
{
    if edges.len() > 0 {
        assert(forall|i: int|
            0 <= i < edges.drop_last().len() ==> (#[trigger] edges.drop_last()[i]).parent
                < edges.drop_last()[i].child && edges.drop_last()[i].child < n);
        lemma_edges_to_bounded(edges.drop_last(), id, n);
        let pre = edges_to(edges.drop_last(), id);
        let sel = edges_to(edges, id);
        assert(edges[edges.len() - 1].parent < edges[edges.len() - 1].child);
        assert forall|k: int| 0 <= k < sel.len() implies id < #[trigger] sel[k] && sel[k] < n by {
            if k < pre.len() {
                assert(sel[k] == pre[k]);
            } else {
                assert(edges.last().parent == id && sel[k] == edges.last().child);
            }
        }
    }
}

/// Every selected element is a node identifier below `n`, provided
/// every edge target is.
pub proof fn lemma_edges_to_below(edges: Seq<Edge>, id: int, n: int)
    requires
        forall|i: int| 0 <= i < edges.len() ==> (#[trigger] edges[i]).child < n,
    ensures
        forall|k: int| 0 <= k < edges_to(edges, id).len() ==> #[trigger] edges_to(edges, id)[k] < n,
    decreases edges.len(),
{
    if edges.len() > 0 {
        assert(forall|i: int|
            0 <= i < edges.drop_last().len() ==> (#[trigger] edges.drop_last()[i]).child < n);
        lemma_edges_to_below(edges.drop_last(), id, n);
        let pre = edges_to(edges.drop_last(), id);
        let sel = edges_to(edges, id);
        assert(edges[edges.len() - 1].child < n);
        assert forall|k: int| 0 <= k < sel.len() implies #[trigger] sel[k] < n by {
            if k < pre.len() {
                assert(sel[k] == pre[k]);
            } else {
                assert(edges.last().parent == id && sel[k] == edges.last().child);
            }
        }
    }
}

/// A selection never holds more elements than the edge list it was
/// drawn from.
pub proof fn lemma_edges_to_len(edges: Seq<Edge>, id: int)
    ensures
        edges_to(edges, id).len() <= edges.len(),
    decreases edges.len(),
{
    if edges.len() > 0 {
        lemma_edges_to_len(edges.drop_last(), id);
    }
}

/// The parent-edge property of every node carries over to any state
/// with the same child edges and node count.
proof fn lemma_parent_edges_carry(pre: &TranslationUnit, post: &TranslationUnit)
    requires
        forall|i: int| 2 <= i < pre.nodes@.len() ==> #[trigger] pre.has_parent_edge(i),
        post.child_edges@ == pre.child_edges@,
        post.nodes@.len() == pre.nodes@.len(),
    ensures
        forall|i: int| 2 <= i < post.nodes@.len() ==> #[trigger] post.has_parent_edge(i),
{
    assert forall|i: int| 2 <= i < post.nodes@.len() implies #[trigger] post.has_parent_edge(
        i,
    ) by {
        assert(pre.has_parent_edge(i));
        let k0 = choose|k: int|
            0 <= k < pre.child_edges@.len() && (#[trigger] pre.child_edges@[k]).child == i
                && pre.child_edges@[k].parent >= 1;
        assert(post.child_edges@[k0].child == i && post.child_edges@[k0].parent >= 1);
    }
}

/// Tests that every listed identifier lies below `bound`.
fn ids_below(v: &Vec<usize>, bound: usize) -> (r: bool)
    ensures
        r == (forall|j: int| 0 <= j < v@.len() ==> #[trigger] v@[j] < bound),
{
    let mut i: usize = 0;
    while i < v.len()
        invariant
            i <= v@.len(),
            forall|j: int| 0 <= j < i ==> #[trigger] v@[j] < bound,
        decreases v@.len() - i,
    {
        if v[i] >= bound {
            assert(exists|j: int| 0 <= j < v@.len() && #[trigger] v@[j] >= bound);
            return false;
        }
        i = i + 1;
    }
    true
}

} // verus!

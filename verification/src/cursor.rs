//! AST node handles: identity, attributes, navigation and traversal.

use vstd::prelude::*;
use crate::kinds::AccessSpecifier;
use crate::kinds::ChildVisitResult;
use crate::kinds::CursorKind;
use crate::kinds::LinkageKind;
use crate::kinds::TemplateArgumentKind;
use crate::kinds::VisibilityKind;
use crate::kinds::is_invalid_kind;
use crate::kinds::spec_is_invalid_kind;
use crate::loc::SourceLocation;
use crate::tu::TranslationUnit;
use crate::tu::edges_to;
use crate::tu::lemma_edges_to_below;
use crate::tu::lemma_edges_to_bounded;
use crate::tu::lemma_edges_to_len;
use crate::tu::lemma_edges_to_push;
use crate::comment::Comment;
use crate::ty::Type;

verus! {

/// A value-type handle identifying one AST node of a translation unit.
///
/// Two cursors of the same translation unit are equal exactly when they
/// identify the same node; hashing uses the same identity field as
/// equality. A cursor is transient: it means nothing once its owning
/// `TranslationUnit` is gone, and the caller must only use it with that
/// unit.
#[derive(Clone, Copy, Debug, PartialEq, Eq, Hash, Structural)]
pub struct Cursor {
    pub id: usize,
}

/// The visitor of a depth-first traversal: called once per visited
/// node, with the node and its parent, and answering how the walk goes
/// on — `Break` aborts the whole traversal, `Continue` proceeds to the
/// next sibling, `Recurse` descends into the node's subtree first.
pub trait Visitor {
    fn visit(&mut self, cursor: &Cursor, parent: &Cursor) -> ChildVisitResult;
}

impl Cursor {
    /// The semantic-identity test: two cursors of one translation unit
    /// are the same entity exactly when they carry the same identity.
    pub fn equals(&self, other: &Cursor) -> (r: bool)
        ensures
            r == (*self == *other),
    {
        self.id == other.id
    }

    /// The identity value that hashing uses: the same field that
    /// equality compares, so equal cursors always hash equal.
    pub fn hash_key(&self) -> (r: u64)
        ensures
            r == self.id as u64,
    {
        self.id as u64
    }

    /// The node's kind tag.
    pub fn kind(&self, tu: &TranslationUnit) -> (r: CursorKind)
        requires
            tu.wf(),
            tu.valid_cursor(*self),
        ensures
            r == tu.nodes@[self.id as int].kind,
    {
        tu.nodes[self.id].kind
    }

    /// A cursor is valid unless its kind falls in the frontend's
    /// "invalid" classification.
    pub fn is_valid(&self, tu: &TranslationUnit) -> (r: bool)
        requires
            tu.wf(),
            tu.valid_cursor(*self),
        ensures
            r == !spec_is_invalid_kind(tu.nodes@[self.id as int].kind),
    {
        !is_invalid_kind(tu.nodes[self.id].kind)
    }

    /// The node's identifier text.
    pub fn spelling(&self, tu: &TranslationUnit) -> (r: String)
        requires
            tu.wf(),
            tu.valid_cursor(*self),
        ensures
            r@ == tu.nodes@[self.id as int].spelling@,
    {
        let n = &tu.nodes[self.id];
        n.spelling.clone()
    }

    /// The node's human-readable signature.
    pub fn display_name(&self, tu: &TranslationUnit) -> (r: String)
        requires
            tu.wf(),
            tu.valid_cursor(*self),
        ensures
            r@ == tu.nodes@[self.id as int].display_name@,
    {
        let n = &tu.nodes[self.id];
        n.display_name.clone()
    }

    /// The node's mangled name.
    pub fn mangling(&self, tu: &TranslationUnit) -> (r: String)
        requires
            tu.wf(),
            tu.valid_cursor(*self),
        ensures
            r@ == tu.nodes@[self.id as int].mangling@,
    {
        let n = &tu.nodes[self.id];
        n.mangling.clone()
    }

    /// The raw text of the node's documentation comment.
    pub fn raw_comment(&self, tu: &TranslationUnit) -> (r: String)
        requires
            tu.wf(),
            tu.valid_cursor(*self),
        ensures
            r@ == tu.nodes@[self.id as int].raw_comment@,
    {
        let n = &tu.nodes[self.id];
        n.raw_comment.clone()
    }

    /// The root of the node's parsed documentation-comment tree.
    pub fn comment(&self, tu: &TranslationUnit) -> (r: Comment)
        requires
            tu.wf(),
            tu.valid_cursor(*self),
        ensures
            r == (Comment { id: tu.nodes@[self.id as int].comment }),
            tu.valid_comment(r),
    {
        Comment { id: tu.nodes[self.id].comment }
    }

    /// The node's source location.
    pub fn location(&self, tu: &TranslationUnit) -> (r: SourceLocation)
        requires
            tu.wf(),
            tu.valid_cursor(*self),
        ensures
            r == tu.nodes@[self.id as int].loc,
            r.file <= tu.files@.len(),
    {
        tu.nodes[self.id].loc
    }

    /// The byte-offset range the node spans in its source, start
    /// inclusive and end exclusive.
    pub fn extent(&self, tu: &TranslationUnit) -> (r: (u32, u32))
        requires
            tu.wf(),
            tu.valid_cursor(*self),
        ensures
            r.0 == tu.nodes@[self.id as int].extent_start,
            r.1 == tu.nodes@[self.id as int].extent_end,
            r.0 <= r.1,
    {
        let n = &tu.nodes[self.id];
        (n.extent_start, n.extent_end)
    }

    /// The node's declared type.
    pub fn cur_type(&self, tu: &TranslationUnit) -> (r: Type)
        requires
            tu.wf(),
            tu.valid_cursor(*self),
        ensures
            r == (Type { id: tu.nodes@[self.id as int].ty }),
            tu.valid_type(r),
    {
        Type { id: tu.nodes[self.id].ty }
    }

    /// The enclosing syntactic scope.
    pub fn lexical_parent(&self, tu: &TranslationUnit) -> (r: Cursor)
        requires
            tu.wf(),
            tu.valid_cursor(*self),
        ensures
            r == (Cursor { id: tu.nodes@[self.id as int].lexical_parent }),
            tu.valid_cursor(r),
    {
        Cursor { id: tu.nodes[self.id].lexical_parent }
    }

    /// The enclosing semantic scope, which may differ from the lexical
    /// one, as for an out-of-line method definition.
    pub fn semantic_parent(&self, tu: &TranslationUnit) -> (r: Cursor)
        requires
            tu.wf(),
            tu.valid_cursor(*self),
        ensures
            r == (Cursor { id: tu.nodes@[self.id as int].semantic_parent }),
            tu.valid_cursor(r),
    {
        Cursor { id: tu.nodes[self.id].semantic_parent }
    }

    /// The canonical cursor of `c`: the stable representative of all
    /// redeclarations of one entity.
    pub open spec fn spec_canonical(tu: TranslationUnit, c: Cursor) -> Cursor {
        Cursor { id: tu.nodes@[c.id as int].canonical }
    }

    /// The stable representative across redeclarations. Idempotent: the
    /// canonical cursor of a canonical cursor is itself.
    pub fn canonical(&self, tu: &TranslationUnit) -> (r: Cursor)
        requires
            tu.wf(),
            tu.valid_cursor(*self),
        ensures
            r == Cursor::spec_canonical(*tu, *self),
            tu.valid_cursor(r),
            Cursor::spec_canonical(*tu, r) == r,
    {
        Cursor { id: tu.nodes[self.id].canonical }
    }

    /// The canonical defining node of the declared entity, or an
    /// invalid cursor while none is known.
    pub fn definition(&self, tu: &TranslationUnit) -> (r: Cursor)
        requires
            tu.wf(),
            tu.valid_cursor(*self),
        ensures
            r == (Cursor {
                id: if tu.nodes@[self.id as int].definition < tu.nodes@.len() {
                    tu.nodes@[self.id as int].definition
                } else {
                    0usize
                },
            }),
            tu.valid_cursor(r),
    {
        let d = tu.nodes[self.id].definition;
        if d < tu.nodes.len() {
            Cursor { id: d }
        } else {
            Cursor { id: 0 }
        }
    }

    /// The target of a reference node, or an invalid cursor while none
    /// is known.
    pub fn referenced(&self, tu: &TranslationUnit) -> (r: Cursor)
        requires
            tu.wf(),
            tu.valid_cursor(*self),
        ensures
            r == (Cursor {
                id: if tu.nodes@[self.id as int].referenced < tu.nodes@.len() {
                    tu.nodes@[self.id as int].referenced
                } else {
                    0usize
                },
            }),
            tu.valid_cursor(r),
    {
        let d = tu.nodes[self.id].referenced;
        if d < tu.nodes.len() {
            Cursor { id: d }
        } else {
            Cursor { id: 0 }
        }
    }

    /// The generic template this node specializes, or an invalid cursor
    /// if it specializes none.
    pub fn specialized(&self, tu: &TranslationUnit) -> (r: Cursor)
        requires
            tu.wf(),
            tu.valid_cursor(*self),
        ensures
            r == (Cursor {
                id: if tu.nodes@[self.id as int].specialized < tu.nodes@.len() {
                    tu.nodes@[self.id as int].specialized
                } else {
                    0usize
                },
            }),
            tu.valid_cursor(r),
    {
        let d = tu.nodes[self.id].specialized;
        if d < tu.nodes.len() {
            Cursor { id: d }
        } else {
            Cursor { id: 0 }
        }
    }

    /// Whether the node specializes a template: whether its
    /// `specialized` cursor is valid.
    pub fn is_template(&self, tu: &TranslationUnit) -> (r: bool)
        requires
            tu.wf(),
            tu.valid_cursor(*self),
        ensures
            r == !spec_is_invalid_kind(
                tu.nodes@[if tu.nodes@[self.id as int].specialized < tu.nodes@.len() {
                    tu.nodes@[self.id as int].specialized as int
                } else {
                    0
                }].kind,
            ),
    {
        let s = self.specialized(tu);
        s.is_valid(tu)
    }

    /// The declared width of a bit-field, or `None` for a node that is
    /// not a bit-field — the reserved `-1` sentinel of the native
    /// answer, translated to an absent value rather than a width.
    pub fn bit_width(&self, tu: &TranslationUnit) -> (r: Option<u32>)
        requires
            tu.wf(),
            tu.valid_cursor(*self),
        ensures
            tu.nodes@[self.id as int].bit_width_raw == -1 ==> r is None,
            tu.nodes@[self.id as int].bit_width_raw >= 0 ==> r == Some(
                tu.nodes@[self.id as int].bit_width_raw as u32,
            ),
    {
        let w = tu.nodes[self.id].bit_width_raw;
        if w == -1 {
            None
        } else {
            Some(w as u32)
        }
    }

    /// The underlying integer type of an enum declaration.
    pub fn enum_type(&self, tu: &TranslationUnit) -> (r: Type)
        requires
            tu.wf(),
            tu.valid_cursor(*self),
        ensures
            r == (Type { id: tu.nodes@[self.id as int].enum_ty }),
            tu.valid_type(r),
    {
        Type { id: tu.nodes[self.id].enum_ty }
    }

    /// The signed 64-bit value of an enum-constant declaration.
    pub fn enum_val(&self, tu: &TranslationUnit) -> (r: i64)
        requires
            tu.wf(),
            tu.valid_cursor(*self),
        ensures
            r == tu.nodes@[self.id as int].enum_val,
    {
        tu.nodes[self.id].enum_val
    }

    /// The aliased type underlying a typedef declaration.
    pub fn typedef_type(&self, tu: &TranslationUnit) -> (r: Type)
        requires
            tu.wf(),
            tu.valid_cursor(*self),
        ensures
            r == (Type { id: tu.nodes@[self.id as int].typedef_ty }),
            tu.valid_type(r),
    {
        Type { id: tu.nodes[self.id].typedef_ty }
    }

    /// The return type of a function-like node.
    pub fn ret_type(&self, tu: &TranslationUnit) -> (r: Type)
        requires
            tu.wf(),
            tu.valid_cursor(*self),
        ensures
            r == (Type { id: tu.nodes@[self.id as int].ret_ty }),
            tu.valid_type(r),
    {
        Type { id: tu.nodes[self.id].ret_ty }
    }

    /// The linkage classification of a function or variable.
    pub fn linkage(&self, tu: &TranslationUnit) -> (r: LinkageKind)
        requires
            tu.wf(),
            tu.valid_cursor(*self),
        ensures
            r == tu.nodes@[self.id as int].linkage,
    {
        tu.nodes[self.id].linkage
    }

    /// The symbol-visibility classification of a function or variable.
    pub fn visibility(&self, tu: &TranslationUnit) -> (r: VisibilityKind)
        requires
            tu.wf(),
            tu.valid_cursor(*self),
        ensures
            r == tu.nodes@[self.id as int].visibility,
    {
        tu.nodes[self.id].visibility
    }

    /// The C++ member access specifier.
    pub fn access_specifier(&self, tu: &TranslationUnit) -> (r: AccessSpecifier)
        requires
            tu.wf(),
            tu.valid_cursor(*self),
        ensures
            r == tu.nodes@[self.id as int].access,
    {
        tu.nodes[self.id].access
    }

    /// Whether a C++ field is declared `mutable`.
    pub fn is_mutable_field(&self, tu: &TranslationUnit) -> (r: bool)
        requires
            tu.wf(),
            tu.valid_cursor(*self),
        ensures
            r == tu.nodes@[self.id as int].mutable_field,
    {
        tu.nodes[self.id].mutable_field
    }

    /// Whether a C++ method is static.
    pub fn method_is_static(&self, tu: &TranslationUnit) -> (r: bool)
        requires
            tu.wf(),
            tu.valid_cursor(*self),
        ensures
            r == tu.nodes@[self.id as int].method_static,
    {
        tu.nodes[self.id].method_static
    }

    /// Whether a C++ method is virtual.
    pub fn method_is_virtual(&self, tu: &TranslationUnit) -> (r: bool)
        requires
            tu.wf(),
            tu.valid_cursor(*self),
        ensures
            r == tu.nodes@[self.id as int].method_virtual,
    {
        tu.nodes[self.id].method_virtual
    }

    /// Whether a C++ base specifier is virtual.
    pub fn is_virtual_base(&self, tu: &TranslationUnit) -> (r: bool)
        requires
            tu.wf(),
            tu.valid_cursor(*self),
        ensures
            r == tu.nodes@[self.id as int].virtual_base,
    {
        tu.nodes[self.id].virtual_base
    }

    /// Whether a function is declared inline.
    pub fn is_inlined_function(&self, tu: &TranslationUnit) -> (r: bool)
        requires
            tu.wf(),
            tu.valid_cursor(*self),
        ensures
            r == tu.nodes@[self.id as int].inlined,
    {
        tu.nodes[self.id].inlined
    }

    /// The kind of the node's template argument at `i`, or the invalid
    /// kind for an index past the argument list.
    pub fn template_arg_kind(&self, tu: &TranslationUnit, i: usize) -> (r: TemplateArgumentKind)
        requires
            tu.wf(),
            tu.valid_cursor(*self),
        ensures
            i < tu.nodes@[self.id as int].template_args@.len() ==> r == tu.nodes@[self.id as int].template_args@[i as int].kind,
            i >= tu.nodes@[self.id as int].template_args@.len() ==> r
                == TemplateArgumentKind::Invalid,
    {
        let n = &tu.nodes[self.id];
        if i < n.template_args.len() {
            n.template_args[i].kind
        } else {
            TemplateArgumentKind::Invalid
        }
    }

    /// The integral value of the node's template argument at `i`, or
    /// `0` for an index past the argument list.
    pub fn template_arg_value(&self, tu: &TranslationUnit, i: usize) -> (r: i64)
        requires
            tu.wf(),
            tu.valid_cursor(*self),
        ensures
            i < tu.nodes@[self.id as int].template_args@.len() ==> r == tu.nodes@[self.id as int].template_args@[i as int].value,
            i >= tu.nodes@[self.id as int].template_args@.len() ==> r == 0,
    {
        let n = &tu.nodes[self.id];
        if i < n.template_args.len() {
            n.template_args[i].value
        } else {
            0
        }
    }

    /// The node's immediate children, in declaration order. Every
    /// child's identifier lies strictly above its parent's, which is
    /// what bounds the recursion of a traversal.
    pub fn children(&self, tu: &TranslationUnit) -> (r: Vec<Cursor>)
        requires
            tu.wf(),
            tu.valid_cursor(*self),
        ensures
            r@.len() == tu.spec_children(self.id as int).len(),
            forall|k: int|
                0 <= k < r@.len() ==> (#[trigger] r@[k]).id == tu.spec_children(self.id as int)[k],
            forall|k: int|
                0 <= k < r@.len() ==> self.id < (#[trigger] r@[k]).id && tu.valid_cursor(r@[k]),
    {
        let edges = &tu.child_edges;
        let mut r: Vec<Cursor> = Vec::new();
        let mut j: usize = 0;
        while j < edges.len()
            invariant
                j <= edges@.len(),
                r@.len() == edges_to(edges@.subrange(0, j as int), self.id as int).len(),
                forall|k: int|
                    0 <= k < r@.len() ==> (#[trigger] r@[k]).id == edges_to(
                        edges@.subrange(0, j as int),
                        self.id as int,
                    )[k],
            decreases edges@.len() - j,
        {
            let ghost pre = edges@.subrange(0, j as int);
            let e = edges[j];
            proof {
                assert(edges@.subrange(0, j + 1 as int) =~= pre.push(e));
                lemma_edges_to_push(pre, e, self.id as int);
            }
            if e.parent == self.id {
                r.push(Cursor { id: e.child });
            }
            proof {
                if e.parent == self.id as int {
                    assert(edges_to(pre.push(e), self.id as int) =~= edges_to(pre, self.id as int)
                        + seq![e.child]);
                } else {
                    assert(edges_to(pre.push(e), self.id as int) =~= edges_to(
                        pre,
                        self.id as int,
                    ));
                }
            }
            j = j + 1;
        }
        proof {
            assert(edges@.subrange(0, edges@.len() as int) =~= edges@);
            lemma_edges_to_bounded(edges@, self.id as int, tu.nodes@.len() as int);
        }
        r
    }

    /// The node's ordered argument cursors.
    pub fn args(&self, tu: &TranslationUnit) -> (r: Vec<Cursor>)
        requires
            tu.wf(),
            tu.valid_cursor(*self),
        ensures
            r@.len() == tu.spec_args(self.id as int).len(),
            forall|k: int|
                0 <= k < r@.len() ==> (#[trigger] r@[k]).id == tu.spec_args(self.id as int)[k],
            forall|k: int| 0 <= k < r@.len() ==> tu.valid_cursor(#[trigger] r@[k]),
    {
        let edges = &tu.arg_edges;
        let mut r: Vec<Cursor> = Vec::new();
        let mut j: usize = 0;
        while j < edges.len()
            invariant
                j <= edges@.len(),
                r@.len() == edges_to(edges@.subrange(0, j as int), self.id as int).len(),
                forall|k: int|
                    0 <= k < r@.len() ==> (#[trigger] r@[k]).id == edges_to(
                        edges@.subrange(0, j as int),
                        self.id as int,
                    )[k],
            decreases edges@.len() - j,
        {
            let ghost pre = edges@.subrange(0, j as int);
            let e = edges[j];
            proof {
                assert(edges@.subrange(0, j + 1 as int) =~= pre.push(e));
                lemma_edges_to_push(pre, e, self.id as int);
            }
            if e.parent == self.id {
                r.push(Cursor { id: e.child });
            }
            proof {
                if e.parent == self.id as int {
                    assert(edges_to(pre.push(e), self.id as int) =~= edges_to(pre, self.id as int)
                        + seq![e.child]);
                } else {
                    assert(edges_to(pre.push(e), self.id as int) =~= edges_to(
                        pre,
                        self.id as int,
                    ));
                }
            }
            j = j + 1;
        }
        proof {
            assert(edges@.subrange(0, edges@.len() as int) =~= edges@);
            lemma_edges_to_below(edges@, self.id as int, tu.nodes@.len() as int);
        }
        r
    }

    /// The number of arguments of a function-like node, or `-1` for a
    /// node that has no argument list.
    pub fn num_args(&self, tu: &TranslationUnit) -> (r: i32)
        requires
            tu.wf(),
            tu.valid_cursor(*self),
        ensures
            tu.nodes@[self.id as int].args_valid ==> r == tu.spec_args(self.id as int).len(),
            !tu.nodes@[self.id as int].args_valid ==> r == -1,
    {
        if !tu.nodes[self.id].args_valid {
            return -1;
        }
        let a = self.args(tu);
        proof {
            lemma_edges_to_len(tu.arg_edges@, self.id as int);
        }
        a.len() as i32
    }

    /// Walks the node's immediate children in declaration order,
    /// handing each to the visitor together with its parent, and obeys
    /// the visitor's answer: `Break` aborts the whole walk at once,
    /// `Continue` moves to the next sibling, `Recurse` descends into
    /// the child's subtree first. Returns `Break` exactly when the
    /// visitor aborted the walk, else `Continue`.
    pub fn visit<V: Visitor>(&self, tu: &TranslationUnit, visitor: &mut V) -> (r: ChildVisitResult)
        requires
            tu.wf(),
            tu.valid_cursor(*self),
        ensures
            r == ChildVisitResult::Break || r == ChildVisitResult::Continue,
            tu.spec_children(self.id as int).len() == 0 ==> r == ChildVisitResult::Continue,
            r == ChildVisitResult::Break ==> tu.spec_children(self.id as int).len() > 0,
        decreases tu.nodes@.len() - self.id,
    {
        let children = self.children(tu);
        let mut i: usize = 0;
        while i < children.len()
            invariant
                tu.wf(),
                tu.valid_cursor(*self),
                children@.len() == tu.spec_children(self.id as int).len(),
                forall|k: int|
                    0 <= k < children@.len() ==> self.id < (#[trigger] children@[k]).id
                        && tu.valid_cursor(children@[k]),
            decreases children@.len() - i,
        {
            let child = children[i];
            match visitor.visit(&child, self) {
                ChildVisitResult::Break => {
                    return ChildVisitResult::Break;
                },
                ChildVisitResult::Continue => {},
                ChildVisitResult::Recurse => {
                    let sub = child.visit(tu, visitor);
                    if matches!(sub, ChildVisitResult::Break) {
                        return ChildVisitResult::Break;
                    }
                },
            }
            i = i + 1;
        }
        ChildVisitResult::Continue
    }
}

} // verus!

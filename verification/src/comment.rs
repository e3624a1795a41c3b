//! Documentation-comment tree handles: structural recursion over a
//! node's children, and the tag queries of inline-HTML markup nodes.

use vstd::prelude::*;
use crate::kinds::CommentKind;
use crate::tu::TranslationUnit;

verus! {

/// A value-type handle identifying one documentation-comment node of a
/// translation unit. Transient like a cursor.
///
/// Child and attribute indices are 0-based and must stay below the
/// reported counts; the boundary leaves out-of-range access undefined,
/// so callers must reject it, and these queries demand that.
#[derive(Clone, Copy, Debug, PartialEq, Eq, Hash, Structural)]
pub struct Comment {
    pub id: usize,
}

impl Comment {
    /// The comment node's kind.
    pub fn kind(&self, tu: &TranslationUnit) -> (r: CommentKind)
        requires
            tu.wf(),
            tu.valid_comment(*self),
        ensures
            r == tu.comments@[self.id as int].kind,
    {
        tu.comments[self.id].kind
    }

    /// The number of child nodes.
    pub fn num_children(&self, tu: &TranslationUnit) -> (r: usize)
        requires
            tu.wf(),
            tu.valid_comment(*self),
        ensures
            r == tu.comments@[self.id as int].children@.len(),
    {
        tu.comments[self.id].children.len()
    }

    /// The child node at `idx`. Each child stands earlier in the arena
    /// than its parent, which is what bounds a structural recursion
    /// over the tree.
    pub fn get_child(&self, tu: &TranslationUnit, idx: usize) -> (r: Comment)
        requires
            tu.wf(),
            tu.valid_comment(*self),
            idx < tu.comments@[self.id as int].children@.len(),
        ensures
            r == (Comment { id: tu.comments@[self.id as int].children@[idx as int] }),
            r.id < self.id,
            tu.valid_comment(r),
    {
        proof {
            assert(tu.comment_wf(tu.comments@[self.id as int], self.id as int));
        }
        Comment { id: tu.comments[self.id].children[idx] }
    }

    /// The tag name of an inline-HTML markup node.
    pub fn get_tag_name(&self, tu: &TranslationUnit) -> (r: String)
        requires
            tu.wf(),
            tu.valid_comment(*self),
        ensures
            r@ == tu.comments@[self.id as int].tag_name@,
    {
        let c = &tu.comments[self.id];
        c.tag_name.clone()
    }

    /// The number of attributes of an HTML start-tag node.
    pub fn get_num_tag_attrs(&self, tu: &TranslationUnit) -> (r: usize)
        requires
            tu.wf(),
            tu.valid_comment(*self),
        ensures
            r == tu.comments@[self.id as int].attrs@.len(),
    {
        tu.comments[self.id].attrs.len()
    }

    /// The name of the attribute at `idx` of an HTML start-tag node.
    pub fn get_tag_attr_name(&self, tu: &TranslationUnit, idx: usize) -> (r: String)
        requires
            tu.wf(),
            tu.valid_comment(*self),
            idx < tu.comments@[self.id as int].attrs@.len(),
        ensures
            r@ == tu.comments@[self.id as int].attrs@[idx as int].name@,
    {
        let c = &tu.comments[self.id];
        c.attrs[idx].name.clone()
    }

    /// The value of the attribute at `idx` of an HTML start-tag node.
    pub fn get_tag_attr_value(&self, tu: &TranslationUnit, idx: usize) -> (r: String)
        requires
            tu.wf(),
            tu.valid_comment(*self),
            idx < tu.comments@[self.id as int].attrs@.len(),
        ensures
            r@ == tu.comments@[self.id as int].attrs@[idx as int].value@,
    {
        let c = &tu.comments[self.id];
        c.attrs[idx].value.clone()
    }
}

} // verus!

//! The AST dump utility: a purely diagnostic recursive rendering of a
//! subtree, one parenthesized block per node at an indentation
//! proportional to its depth. Not consulted by any query decision.

use vstd::prelude::*;
use crate::cursor::Cursor;
use crate::kinds::ChildVisitResult;
use crate::kinds::cursor_kind_label;
use crate::kinds::kind_to_str;
use crate::kinds::type_kind_label;
use crate::kinds::type_to_str;
use crate::text::extend_chars;
use crate::text::str_chars;
use crate::tu::TranslationUnit;
use crate::tu::lemma_edges_to_bounded;

verus! {

/// One tab per level of depth.
pub open spec fn indent(depth: nat) -> Seq<char>
    decreases depth,
{
    if depth == 0 {
        Seq::empty()
    } else {
        seq!['\t'] + indent((depth - 1) as nat)
    }
}

/// The indentation of depth `d` is exactly `d` tabs.
pub proof fn lemma_indent(d: nat)
    ensures
        indent(d).len() == d,
        forall|j: int| 0 <= j < d ==> #[trigger] indent(d)[j] == '\t',
    decreases d,
{
    if d > 0 {
        lemma_indent((d - 1) as nat);
    }
}

/// The head line of one dumped node: an opening parenthesis, the
/// node's kind label, its spelling, and the label of its declared
/// type's kind.
pub open spec fn dump_line(tu: TranslationUnit, id: int) -> Seq<char> {
    seq!['('] + cursor_kind_label(tu.nodes@[id].kind) + seq![' '] + tu.nodes@[id].spelling@ + seq![
        ' ',
    ] + type_kind_label(tu.types@[tu.nodes@[id].ty as int].kind)
}

/// The rendering of the subtree rooted at node `id` at depth `depth`:
/// its head line, the renderings of its children one level deeper, and
/// a closing parenthesis, the first and last line indented by the
/// depth.
pub open spec fn dump_of(tu: TranslationUnit, id: int, depth: nat) -> Seq<char>
    decreases tu.nodes@.len() - id, 1nat, 0nat,
        when tu.wf() && 0 <= id < tu.nodes@.len()
{
    indent(depth) + dump_line(tu, id) + seq!['\n'] + dump_children(tu, id, 0, depth + 1) + indent(
        depth,
    ) + seq![')'] + seq!['\n']
}

/// The renderings of the children of node `id` from child index `k`
/// on, each at depth `depth`, concatenated in declaration order.
pub open spec fn dump_children(tu: TranslationUnit, id: int, k: int, depth: nat) -> Seq<char>
    decreases tu.nodes@.len() - id, 0nat, tu.spec_children(id).len() - k,
        when tu.wf() && 0 <= id < tu.nodes@.len() && 0 <= k <= tu.spec_children(id).len()
        via dump_children_dec
{
    if k >= tu.spec_children(id).len() {
        Seq::empty()
    } else {
        dump_of(tu, tu.spec_children(id)[k] as int, depth) + dump_children(tu, id, k + 1, depth)
    }
}

#[via_fn]
proof fn dump_children_dec(tu: TranslationUnit, id: int, k: int, depth: nat) {
    if k < tu.spec_children(id).len() {
        lemma_edges_to_bounded(tu.child_edges@, id, tu.nodes@.len() as int);
    }
}

/// Renders the subtree rooted at `c` into `out`: for each node its
/// kind label, spelling and resolved-type label at an indentation
/// proportional to its depth, each subtree wrapped in a parenthesized
/// block, descending into every child.
pub fn ast_dump(c: &Cursor, tu: &TranslationUnit, depth: usize, out: &mut Vec<char>) -> (r:
    ChildVisitResult)
    requires
        tu.wf(),
        tu.valid_cursor(*c),
        depth + (tu.nodes@.len() - c.id) <= usize::MAX,
    ensures
        final(out)@ == old(out)@ + dump_of(*tu, c.id as int, depth as nat),
        r == ChildVisitResult::Continue,
    decreases tu.nodes@.len() - c.id,
{
    let ghost base = out@;
    push_indent(out, depth);
    out.push('(');
    let kind_chars = str_chars(kind_to_str(tu.nodes[c.id].kind));
    extend_chars(out, &kind_chars);
    out.push(' ');
    let spelling_chars = str_chars(tu.nodes[c.id].spelling.as_str());
    extend_chars(out, &spelling_chars);
    out.push(' ');
    let ty_chars = str_chars(type_to_str(tu.types[tu.nodes[c.id].ty].kind));
    extend_chars(out, &ty_chars);
    out.push('\n');
    let ghost head = base + indent(depth as nat) + dump_line(*tu, c.id as int) + seq!['\n'];
    proof {
        assert(out@ =~= head);
    }
    let children = c.children(tu);
    let mut k: usize = 0;
    let ghost mut prod = Seq::<char>::empty();
    proof {
        assert(prod + dump_children(*tu, c.id as int, 0, (depth + 1) as nat) =~= dump_children(
            *tu,
            c.id as int,
            0,
            (depth + 1) as nat,
        ));
        assert(head + prod =~= head);
    }
    while k < children.len()
        invariant
            tu.wf(),
            tu.valid_cursor(*c),
            depth + (tu.nodes@.len() - c.id) <= usize::MAX,
            k <= children@.len(),
            children@.len() == tu.spec_children(c.id as int).len(),
            forall|j: int|
                0 <= j < children@.len() ==> (#[trigger] children@[j]).id == tu.spec_children(
                    c.id as int,
                )[j],
            forall|j: int|
                0 <= j < children@.len() ==> c.id < (#[trigger] children@[j]).id && tu.valid_cursor(
                    children@[j],
                ),
            out@ == head + prod,
            dump_children(*tu, c.id as int, 0, (depth + 1) as nat) == prod + dump_children(
                *tu,
                c.id as int,
                k as int,
                (depth + 1) as nat,
            ),
        decreases children@.len() - k,
    {
        let child = children[k];
        ast_dump(&child, tu, depth + 1, out);
        proof {
            assert(dump_children(*tu, c.id as int, k as int, (depth + 1) as nat) == dump_of(
                *tu,
                child.id as int,
                (depth + 1) as nat,
            ) + dump_children(*tu, c.id as int, k + 1 as int, (depth + 1) as nat));
            let piece = dump_of(*tu, child.id as int, (depth + 1) as nat);
            assert(head + (prod + piece) =~= (head + prod) + piece);
            assert((prod + piece) + dump_children(*tu, c.id as int, k + 1 as int, (depth
                + 1) as nat) =~= prod + (piece + dump_children(
                *tu,
                c.id as int,
                k + 1 as int,
                (depth + 1) as nat,
            )));
            prod = prod + piece;
        }
        k = k + 1;
    }
    proof {
        assert(dump_children(*tu, c.id as int, k as int, (depth + 1) as nat)
            == Seq::<char>::empty());
        assert(prod + Seq::<char>::empty() =~= prod);
    }
    let ghost with_children = out@;
    push_indent(out, depth);
    out.push(')');
    out.push('\n');
    proof {
        assert(out@ =~= with_children + indent(depth as nat) + seq![')'] + seq!['\n']);
        assert(with_children == head + dump_children(*tu, c.id as int, 0, (depth + 1) as nat));
        assert(out@ =~= base + dump_of(*tu, c.id as int, depth as nat));
    }
    ChildVisitResult::Continue
}

/// Appends `depth` tabs.
fn push_indent(out: &mut Vec<char>, depth: usize)
    ensures
        final(out)@ == old(out)@ + indent(depth as nat),
{
    let mut i: usize = 0;
    proof {
        lemma_indent(depth as nat);
        assert(out@ =~= old(out)@ + indent(0));
    }
    while i < depth
        invariant
            i <= depth,
            out@ == old(out)@ + indent(i as nat),
        decreases depth - i,
    {
        out.push('\t');
        proof {
            lemma_indent(i as nat);
            lemma_indent((i + 1) as nat);
            assert(out@ =~= old(out)@ + indent((i + 1) as nat));
        }
        i = i + 1;
    }
}

} // verus!

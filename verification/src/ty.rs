//! Resolved-type handles: classification, spelling, qualification,
//! layout, composition and function-type queries.

use vstd::prelude::*;
use crate::cursor::Cursor;
use crate::kinds::CallingConv;
use crate::kinds::LayoutError;
use crate::kinds::TypeKind;
use crate::text::str_chars;
use crate::text::string_from_chars;
use crate::tu::TranslationUnit;

verus! {

/// A value-type handle identifying one resolved type of a translation
/// unit. Transient like a cursor: meaningful only together with its
/// owning `TranslationUnit`.
#[derive(Clone, Copy, Debug, PartialEq, Eq, Hash, Structural)]
pub struct Type {
    pub id: usize,
}

/// The `const` qualifier token followed by one space, as the sanitizing
/// heuristic removes it.
pub open spec fn const_qualifier() -> Seq<char> {
    seq!['c', 'o', 'n', 's', 't', ' ']
}

/// The spelling with every occurrence of `"const "` removed, scanning
/// left to right.
pub open spec fn remove_const(s: Seq<char>) -> Seq<char>
    decreases s.len(),
{
    if s.len() >= 6 && s.subrange(0, 6) == const_qualifier() {
        remove_const(s.subrange(6, s.len() as int))
    } else if s.len() == 0 {
        s
    } else {
        seq![s[0]] + remove_const(s.subrange(1, s.len() as int))
    }
}

/// The first whitespace-delimited token: everything before the first
/// space.
pub open spec fn first_token(s: Seq<char>) -> Seq<char>
    decreases s.len(),
{
    if s.len() == 0 {
        s
    } else if s[0] == ' ' {
        Seq::empty()
    } else {
        seq![s[0]] + first_token(s.subrange(1, s.len() as int))
    }
}

/// The sanitized form of a type spelling: the `const` qualifier tokens
/// stripped, then only the first whitespace-delimited token kept. A
/// heuristic approximation used solely to recognize a typedef's base
/// name, not a full parser.
pub open spec fn sanitize_spelling(s: Seq<char>) -> Seq<char> {
    first_token(remove_const(s))
}

impl Type {
    /// The type's kind tag.
    pub fn kind(&self, tu: &TranslationUnit) -> (r: TypeKind)
        requires
            tu.wf(),
            tu.valid_type(*self),
        ensures
            r == tu.types@[self.id as int].kind,
    {
        tu.types[self.id].kind
    }

    /// The cursor that declared this type, or an invalid cursor for a
    /// type without a declaration, such as a built-in.
    pub fn declaration(&self, tu: &TranslationUnit) -> (r: Cursor)
        requires
            tu.wf(),
            tu.valid_type(*self),
        ensures
            r == (Cursor {
                id: if tu.types@[self.id as int].declaration < tu.nodes@.len() {
                    tu.types@[self.id as int].declaration
                } else {
                    0usize
                },
            }),
            tu.valid_cursor(r),
    {
        let d = tu.types[self.id].declaration;
        if d < tu.nodes.len() {
            Cursor { id: d }
        } else {
            Cursor { id: 0 }
        }
    }

    /// The type's raw textual spelling.
    pub fn spelling(&self, tu: &TranslationUnit) -> (r: String)
        requires
            tu.wf(),
            tu.valid_type(*self),
        ensures
            r@ == tu.types@[self.id as int].spelling@,
    {
        let t = &tu.types[self.id];
        t.spelling.clone()
    }

    /// The sanitized spelling: `"const "` stripped everywhere, then the
    /// first whitespace-delimited token kept.
    pub fn sanitized_spelling(&self, tu: &TranslationUnit) -> (r: String)
        requires
            tu.wf(),
            tu.valid_type(*self),
        ensures
            r@ == sanitize_spelling(tu.types@[self.id as int].spelling@),
    {
        let t = &tu.types[self.id];
        proof {
            assert(*t == tu.types@[self.id as int]);
        }
        let sp: &str = t.spelling.as_str();
        proof {
            assert(sp@ == tu.types@[self.id as int].spelling@);
        }
        let cv = str_chars(sp);
        let ghost s = cv@;
        let mut out: Vec<char> = Vec::new();
        let mut i: usize = 0;
        proof {
            assert(s.subrange(0, s.len() as int) =~= s);
            assert(out@ + first_token(remove_const(s)) =~= first_token(remove_const(s)));
        }
        while i < cv.len()
            invariant
                i <= cv@.len(),
                cv@ == s,
                tu.wf(),
                tu.valid_type(*self),
                s == tu.types@[self.id as int].spelling@,
                first_token(remove_const(s)) == out@ + first_token(
                    remove_const(s.subrange(i as int, s.len() as int)),
                ),
            decreases cv@.len() - i,
        {
            let ghost suf = s.subrange(i as int, s.len() as int);
            let rest = cv.len() - i;
            if rest >= 6 && cv[i] == 'c' && cv[i + 1] == 'o' && cv[i + 2] == 'n' && cv[i + 3]
                == 's' && cv[i + 4] == 't' && cv[i + 5] == ' ' {
                proof {
                    assert(suf.subrange(0, 6) =~= const_qualifier());
                    assert(remove_const(suf) == remove_const(suf.subrange(6, suf.len() as int)));
                    assert(suf.subrange(6, suf.len() as int) =~= s.subrange(
                        i + 6 as int,
                        s.len() as int,
                    ));
                }
                i = i + 6;
            } else {
                let c = cv[i];
                proof {
                    if suf.len() >= 6 && suf.subrange(0, 6) == const_qualifier() {
                        assert(suf.subrange(0, 6)[0] == suf[0]);
                        assert(suf.subrange(0, 6)[1] == suf[1]);
                        assert(suf.subrange(0, 6)[2] == suf[2]);
                        assert(suf.subrange(0, 6)[3] == suf[3]);
                        assert(suf.subrange(0, 6)[4] == suf[4]);
                        assert(suf.subrange(0, 6)[5] == suf[5]);
                        assert(false);
                    }
                    assert(remove_const(suf) == seq![suf[0]] + remove_const(
                        suf.subrange(1, suf.len() as int),
                    ));
                    assert(suf[0] == c);
                }
                if c == ' ' {
                    proof {
                        assert(remove_const(suf)[0] == ' ');
                        assert(first_token(remove_const(suf)) =~= Seq::<char>::empty());
                        assert(out@ + Seq::<char>::empty() =~= out@);
                        assert(first_token(remove_const(s)) == out@);
                        assert(s == tu.types@[self.id as int].spelling@);
                    }
                    return string_from_chars(&out);
                }
                proof {
                    let rc = remove_const(suf);
                    assert(rc[0] == c && c != ' ');
                    assert(first_token(rc) == seq![rc[0]] + first_token(
                        rc.subrange(1, rc.len() as int),
                    ));
                    assert(rc.subrange(1, rc.len() as int) =~= remove_const(
                        suf.subrange(1, suf.len() as int),
                    ));
                    assert(suf.subrange(1, suf.len() as int) =~= s.subrange(
                        i + 1 as int,
                        s.len() as int,
                    ));
                    assert(out@ + first_token(rc) =~= out@.push(c) + first_token(
                        remove_const(s.subrange(i + 1 as int, s.len() as int)),
                    ));
                }
                out.push(c);
                i = i + 1;
            }
        }
        proof {
            assert(s.subrange(i as int, s.len() as int) =~= Seq::<char>::empty());
            assert(first_token(remove_const(s)) =~= out@);
        }
        string_from_chars(&out)
    }

    /// Whether the sanitized spelling is one of the given candidate
    /// spellings, by exact string match.
    pub fn sanitized_spelling_in(&self, tu: &TranslationUnit, possible: &Vec<String>) -> (r: bool)
        requires
            tu.wf(),
            tu.valid_type(*self),
        ensures
            r == (exists|k: int|
                0 <= k < possible@.len() && (#[trigger] possible@[k])@ == sanitize_spelling(
                    tu.types@[self.id as int].spelling@,
                )),
    {
        let s = self.sanitized_spelling(tu);
        let mut k: usize = 0;
        while k < possible.len()
            invariant
                k <= possible@.len(),
                s@ == sanitize_spelling(tu.types@[self.id as int].spelling@),
                forall|j: int|
                    0 <= j < k ==> (#[trigger] possible@[j])@ != sanitize_spelling(
                        tu.types@[self.id as int].spelling@,
                    ),
            decreases possible@.len() - k,
        {
            if possible[k] == s {
                return true;
            }
            k = k + 1;
        }
        false
    }

    /// Whether the type carries the `const` qualifier.
    pub fn is_const(&self, tu: &TranslationUnit) -> (r: bool)
        requires
            tu.wf(),
            tu.valid_type(*self),
        ensures
            r == tu.types@[self.id as int].is_const,
    {
        tu.types[self.id].is_const
    }

    /// The type's size in bytes, every failure collapsed to `0`: the
    /// lossy companion of `fallible_size`.
    pub fn size(&self, tu: &TranslationUnit) -> (r: usize)
        requires
            tu.wf(),
            tu.valid_type(*self),
        ensures
            tu.types@[self.id as int].size_raw < 0 ==> r == 0,
            0 <= tu.types@[self.id as int].size_raw <= usize::MAX ==> r == tu.types@[self.id as int].size_raw,
            tu.types@[self.id as int].size_raw > usize::MAX ==> r == usize::MAX,
    {
        let v = tu.types[self.id].size_raw;
        if v < 0 {
            0
        } else if v as u64 <= (usize::MAX as u64) {
            v as usize
        } else {
            usize::MAX
        }
    }

    /// The type's size in bytes, or the reason it has none: the closed
    /// error classification of the native layout answer, one error for
    /// exactly one reserved code.
    pub fn fallible_size(&self, tu: &TranslationUnit) -> (r: Result<usize, LayoutError>)
        requires
            tu.wf(),
            tu.valid_type(*self),
        ensures
            ({
                let raw = tu.types@[self.id as int].size_raw;
                &&& raw == -1 ==> r == Err::<usize, LayoutError>(LayoutError::Invalid)
                &&& raw == -2 ==> r == Err::<usize, LayoutError>(LayoutError::Incomplete)
                &&& raw == -3 ==> r == Err::<usize, LayoutError>(LayoutError::Dependent)
                &&& raw == -4 ==> r == Err::<usize, LayoutError>(LayoutError::NotConstantSize)
                &&& raw == -5 ==> r == Err::<usize, LayoutError>(LayoutError::InvalidFieldName)
                &&& 0 <= raw <= usize::MAX ==> r == Ok::<usize, LayoutError>(raw as usize)
                &&& raw > usize::MAX ==> r == Ok::<usize, LayoutError>(usize::MAX)
                &&& (r is Ok <==> raw >= 0)
            }),
    {
        let v = tu.types[self.id].size_raw;
        if v == -1 {
            Err(LayoutError::Invalid)
        } else if v == -2 {
            Err(LayoutError::Incomplete)
        } else if v == -3 {
            Err(LayoutError::Dependent)
        } else if v == -4 {
            Err(LayoutError::NotConstantSize)
        } else if v == -5 {
            Err(LayoutError::InvalidFieldName)
        } else if v as u64 <= (usize::MAX as u64) {
            Ok(v as usize)
        } else {
            Ok(usize::MAX)
        }
    }

    /// The type's alignment in bytes, every failure collapsed to `0`.
    pub fn align(&self, tu: &TranslationUnit) -> (r: usize)
        requires
            tu.wf(),
            tu.valid_type(*self),
        ensures
            tu.types@[self.id as int].align_raw < 0 ==> r == 0,
            0 <= tu.types@[self.id as int].align_raw <= usize::MAX ==> r == tu.types@[self.id as int].align_raw,
            tu.types@[self.id as int].align_raw > usize::MAX ==> r == usize::MAX,
    {
        let v = tu.types[self.id].align_raw;
        if v < 0 {
            0
        } else if v as u64 <= (usize::MAX as u64) {
            v as usize
        } else {
            usize::MAX
        }
    }

    /// The number of template arguments, or `-1` for a type that is no
    /// template specialization.
    pub fn num_template_args(&self, tu: &TranslationUnit) -> (r: i32)
        requires
            tu.wf(),
            tu.valid_type(*self),
        ensures
            tu.types@[self.id as int].has_template_args ==> r == tu.types@[self.id as int].template_args@.len(),
            !tu.types@[self.id as int].has_template_args ==> r == -1,
    {
        let t = &tu.types[self.id];
        if t.has_template_args {
            t.template_args.len() as i32
        } else {
            -1
        }
    }

    /// The template argument at `i` as a type, or the invalid type for
    /// an index past the argument list.
    pub fn template_arg_type(&self, tu: &TranslationUnit, i: usize) -> (r: Type)
        requires
            tu.wf(),
            tu.valid_type(*self),
        ensures
            i < tu.types@[self.id as int].template_args@.len() ==> r == (Type {
                id: tu.types@[self.id as int].template_args@[i as int],
            }),
            i >= tu.types@[self.id as int].template_args@.len() ==> r == (Type { id: 0usize }),
            tu.valid_type(r),
    {
        let t = &tu.types[self.id];
        if i < t.template_args.len() {
            Type { id: t.template_args[i] }
        } else {
            Type { id: 0 }
        }
    }

    /// The type a pointer or reference points to.
    pub fn pointee_type(&self, tu: &TranslationUnit) -> (r: Type)
        requires
            tu.wf(),
            tu.valid_type(*self),
        ensures
            r == (Type { id: tu.types@[self.id as int].pointee }),
            tu.valid_type(r),
    {
        Type { id: tu.types[self.id].pointee }
    }

    /// The element type of an array type.
    pub fn elem_type(&self, tu: &TranslationUnit) -> (r: Type)
        requires
            tu.wf(),
            tu.valid_type(*self),
        ensures
            r == (Type { id: tu.types@[self.id as int].elem }),
            tu.valid_type(r),
    {
        Type { id: tu.types[self.id].elem }
    }

    /// The constant element count of an array type. The native answer
    /// for a non-array is `-1`, which this query passes through as the
    /// all-ones value, matching the native cast convention.
    pub fn array_size(&self, tu: &TranslationUnit) -> (r: usize)
        requires
            tu.wf(),
            tu.valid_type(*self),
        ensures
            tu.types@[self.id as int].array_size_raw == -1 ==> r == usize::MAX,
            0 <= tu.types@[self.id as int].array_size_raw <= usize::MAX ==> r == tu.types@[self.id as int].array_size_raw,
            tu.types@[self.id as int].array_size_raw > usize::MAX ==> r == usize::MAX,
    {
        let v = tu.types[self.id].array_size_raw;
        if v < 0 {
            usize::MAX
        } else if v as u64 <= (usize::MAX as u64) {
            v as usize
        } else {
            usize::MAX
        }
    }

    /// The canonical type of `t`: the fully typedef-resolved
    /// representative.
    pub open spec fn spec_canonical(tu: TranslationUnit, t: Type) -> Type {
        Type { id: tu.types@[t.id as int].canonical }
    }

    /// The canonical, typedef-resolved form of the type. Idempotent:
    /// the canonical form has no further sugar to strip, so its own
    /// canonical form is itself.
    pub fn canonical_type(&self, tu: &TranslationUnit) -> (r: Type)
        requires
            tu.wf(),
            tu.valid_type(*self),
        ensures
            r == Type::spec_canonical(*tu, *self),
            tu.valid_type(r),
            Type::spec_canonical(*tu, r) == r,
    {
        Type { id: tu.types[self.id].canonical }
    }

    /// The named type behind a transparent sugar wrapper, such as an
    /// elaborated type reference.
    pub fn named(&self, tu: &TranslationUnit) -> (r: Type)
        requires
            tu.wf(),
            tu.valid_type(*self),
        ensures
            r == (Type { id: tu.types@[self.id as int].named }),
            tu.valid_type(r),
    {
        Type { id: tu.types[self.id].named }
    }

    /// Whether a function type is variadic.
    pub fn is_variadic(&self, tu: &TranslationUnit) -> (r: bool)
        requires
            tu.wf(),
            tu.valid_type(*self),
        ensures
            r == tu.types@[self.id as int].is_variadic,
    {
        tu.types[self.id].is_variadic
    }

    /// The ordered argument types of a function type.
    pub fn arg_types(&self, tu: &TranslationUnit) -> (r: Vec<Type>)
        requires
            tu.wf(),
            tu.valid_type(*self),
        ensures
            r@.len() == tu.types@[self.id as int].arg_types@.len(),
            forall|k: int|
                0 <= k < r@.len() ==> (#[trigger] r@[k]).id == tu.types@[self.id as int].arg_types@[k],
            forall|k: int| 0 <= k < r@.len() ==> tu.valid_type(#[trigger] r@[k]),
    {
        let t = &tu.types[self.id];
        let mut r: Vec<Type> = Vec::new();
        let mut k: usize = 0;
        while k < t.arg_types.len()
            invariant
                k <= t.arg_types@.len(),
                t == tu.types@[self.id as int],
                tu.wf(),
                tu.valid_type(*self),
                r@.len() == k,
                forall|j: int|
                    0 <= j < k ==> (#[trigger] r@[j]).id == tu.types@[self.id as int].arg_types@[j],
            decreases t.arg_types@.len() - k,
        {
            r.push(Type { id: t.arg_types[k] });
            k = k + 1;
        }
        proof {
            assert forall|j: int| 0 <= j < r@.len() implies tu.valid_type(#[trigger] r@[j]) by {
                assert(tu.type_wf(tu.types@[self.id as int]));
            }
        }
        r
    }

    /// The return type of a function type.
    pub fn ret_type(&self, tu: &TranslationUnit) -> (r: Type)
        requires
            tu.wf(),
            tu.valid_type(*self),
        ensures
            r == (Type { id: tu.types@[self.id as int].ret_ty }),
            tu.valid_type(r),
    {
        Type { id: tu.types[self.id].ret_ty }
    }

    /// The calling-convention classification of a function type.
    pub fn call_conv(&self, tu: &TranslationUnit) -> (r: CallingConv)
        requires
            tu.wf(),
            tu.valid_type(*self),
        ensures
            r == tu.types@[self.id as int].call_conv,
    {
        tu.types[self.id].call_conv
    }
}

} // verus!

//! The path canonicalizer: from a type expression to its canonical name.

use vstd::prelude::*;
use vstd::std_specs::iter::IteratorSpec;
use vstd::string::StringExecFns;
use crate::error::ExtractError;
use crate::model::{is_type_name, separator};
use crate::syntax::{Path, PathSegmentView, QPath, QPathView, TyKind, TyKindView};

verus! {

/// Whether `s` can stand as one segment of a path: it is not empty and holds
/// no colon.
pub open spec fn is_ident(s: Seq<char>) -> bool {
    &&& s.len() > 0
    &&& forall|i: int| 0 <= i < s.len() ==> s[i] != ':'
}

/// A path as a frontend resolves it: at least one segment, each an
/// identifier.
pub open spec fn is_resolved_path(path: Seq<PathSegmentView>) -> bool {
    &&& path.len() > 0
    &&& forall|i: int| 0 <= i < path.len() ==> is_ident(#[trigger] path[i].ident)
}

/// Whether no segment of `path` carries generic arguments.
pub open spec fn is_plain(path: Seq<PathSegmentView>) -> bool {
    forall|i: int| 0 <= i < path.len() ==> !(#[trigger] path[i]).has_generic_args
}

/// The identifiers of the segments of `path`, in order.
pub open spec fn idents(path: Seq<PathSegmentView>) -> Seq<Seq<char>> {
    path.map_values(|segment: PathSegmentView| segment.ident)
}

/// The segments joined by the separator: `a::b::c` for `[a, b, c]`. Joining
/// no segment gives the empty sequence, which is the name of no path: a
/// path without a segment is rejected.
pub open spec fn canonical_name(segments: Seq<Seq<char>>) -> Seq<char>
    decreases segments.len(),
{
    if segments.len() == 0 {
        Seq::empty()
    } else if segments.len() == 1 {
        segments[0]
    } else {
        canonical_name(segments.drop_last()) + separator() + segments.last()
    }
}

/// Whether a type expression is a plain resolved path, the one shape that
/// has a canonical name: a resolved path of at least one segment, each an
/// identifier, with no self type in front and no generic arguments.
pub open spec fn is_supported(ty: TyKindView) -> bool {
    match ty {
        TyKindView::Path(QPathView::Resolved { has_self_type, path }) => {
            &&& !has_self_type
            &&& is_resolved_path(path)
            &&& is_plain(path)
        },
        _ => false,
    }
}

/// The canonical name of a supported type expression.
pub open spec fn name_of_type(ty: TyKindView) -> Seq<char>
    recommends
        is_supported(ty),
{
    match ty {
        TyKindView::Path(QPathView::Resolved { has_self_type, path }) => canonical_name(
            idents(path),
        ),
        _ => Seq::empty(),
    }
}

/// Checks that `s` can stand as one segment of a path: that it is not empty
/// and holds no colon.
pub fn is_identifier(s: &str) -> (ok: bool)
    ensures
        ok == is_ident(s@),
{
    broadcast use {vstd::string::axiom_spec_iter, vstd::string::next_postcondition};

    if s.is_empty() {
        return false;
    }
    let mut chars = s.chars();
    let ghost mut seen: int = 0;
    loop
        invariant
            s@.len() > 0,
            0 <= seen <= s@.len(),
            chars.remaining() == s@.skip(seen),
            chars.obeys_prophetic_iter_laws(),
            chars.decrease() is Some,
            forall|j: int| 0 <= j < seen ==> s@[j] != ':',
        decreases chars.decrease()->0,
    {
        let ghost rest = chars.remaining();
        match chars.next() {
            Some(c) => {
                assert(rest.len() > 0 && c == s@[seen]);
                if c == ':' {
                    return false;
                }
                proof {
                    assert(s@.skip(seen).drop_first() =~= s@.skip(seen + 1));
                    seen = seen + 1;
                }
            },
            None => {
                assert(rest.len() == 0 && seen == s@.len());
                return true;
            },
        }
    }
}

/// Joins the identifiers of the segments of `path` with `::`. A path with
/// no segment, or with a segment that is no identifier, has no name and is
/// an error.
pub fn path_to_string(path: &Path) -> (name: Result<String, ExtractError>)
    ensures
        match name {
            Ok(name) => {
                &&& is_resolved_path(path@)
                &&& name@ == canonical_name(idents(path@))
                &&& is_type_name(name@)
            },
            Err(e) => !is_resolved_path(path@) && e == ExtractError::UnsupportedTypeShape,
        },
{
    let n = path.segments.len();
    if n == 0 {
        return Err(ExtractError::UnsupportedTypeShape);
    }
    let mut name = String::new();
    let mut i: usize = 0;
    while i < n
        invariant
            n == path.segments.len(),
            i <= n,
            forall|j: int| 0 <= j < i ==> is_ident(#[trigger] path@[j].ident),
            name@ == canonical_name(idents(path@).take(i as int)),
        decreases n - i,
    {
        let ident = path.segments[i].ident.as_str();
        if !is_identifier(ident) {
            assert(!is_ident(path@[i as int].ident));
            return Err(ExtractError::UnsupportedTypeShape);
        }
        proof {
            reveal_strlit("::");
            let done = idents(path@).take(i as int);
            let next = idents(path@).take(i + 1);
            assert(next.drop_last() =~= done);
            assert(next.last() == path.segments[i as int].ident@);
            assert("::"@ =~= separator());
        }
        if i > 0 {
            name.append("::");
        }
        name.append(ident);
        i += 1;
    }
    proof {
        assert(idents(path@).take(n as int) =~= idents(path@));
        lemma_canonical_name_is_type_name(path@);
    }
    Ok(name)
}

/// Checks that no segment of `path` carries generic arguments.
pub fn path_is_plain(path: &Path) -> (plain: bool)
    ensures
        plain == is_plain(path@),
{
    let n = path.segments.len();
    let mut i: usize = 0;
    while i < n
        invariant
            n == path.segments.len(),
            i <= n,
            forall|j: int| 0 <= j < i ==> !(#[trigger] path@[j]).has_generic_args,
        decreases n - i,
    {
        if path.segments[i].has_generic_args {
            assert(path@[i as int].has_generic_args);
            return false;
        }
        i += 1;
    }
    true
}

/// The canonical name of the type expression `ty`, or the error for every
/// shape but a plain resolved path. Every name that comes out is a canonical
/// type name.
pub fn ty_to_string(ty: &TyKind) -> (name: Result<String, ExtractError>)
    ensures
        match name {
            Ok(name) => {
                &&& is_supported(ty@)
                &&& name@ == name_of_type(ty@)
                &&& is_type_name(name@)
            },
            Err(e) => !is_supported(ty@) && e == ExtractError::UnsupportedTypeShape,
        },
{
    match ty {
        TyKind::Path(qpath) => match qpath {
            QPath::Resolved { has_self_type, path } => {
                if *has_self_type || !path_is_plain(path) {
                    Err(ExtractError::UnsupportedTypeShape)
                } else {
                    path_to_string(path)
                }
            },
            _ => Err(ExtractError::UnsupportedTypeShape),
        },
        _ => Err(ExtractError::UnsupportedTypeShape),
    }
}

/// The canonical name of a resolved path ends with its last segment and has
/// no colon at its first and last place.
pub proof fn lemma_canonical_name_ends(segments: Seq<Seq<char>>)
    requires
        segments.len() > 0,
        forall|i: int| 0 <= i < segments.len() ==> is_ident(#[trigger] segments[i]),
    ensures
        canonical_name(segments).len() >= segments.last().len(),
        canonical_name(segments).len() > 0,
        canonical_name(segments)[0] != ':',
        canonical_name(segments).last() != ':',
        segments.len() == 1 ==> canonical_name(segments) == segments[0],
        segments.len() > 1 ==> canonical_name(segments).len() >= segments.last().len() + 3,
    decreases segments.len(),
{
    if segments.len() > 1 {
        let front = segments.drop_last();
        assert forall|i: int| 0 <= i < front.len() implies is_ident(#[trigger] front[i]) by {
            assert(front[i] == segments[i]);
        }
        lemma_canonical_name_ends(front);
        let name = canonical_name(segments);
        assert(name == canonical_name(front) + separator() + segments.last());
        assert(is_ident(segments[segments.len() - 1]));
        assert(name[0] == canonical_name(front)[0]);
        assert(name.last() == segments.last().last());
    } else {
        assert(is_ident(segments[0]));
    }
}

/// The canonical name of a resolved path is a canonical type name.
pub proof fn lemma_canonical_name_is_type_name(path: Seq<PathSegmentView>)
    requires
        is_resolved_path(path),
    ensures
        is_type_name(canonical_name(idents(path))),
{
    let segments = idents(path);
    assert forall|i: int| 0 <= i < segments.len() implies is_ident(#[trigger] segments[i]) by {
        assert(segments[i] == path[i].ident);
    }
    lemma_canonical_name_ends(segments);
    let name = canonical_name(segments);
    if separator().is_prefix_of(name) {
        assert(name[0] == separator()[0]);
    }
    if separator().is_suffix_of(name) {
        assert(name.last() == separator()[1]);
    }
}

/// How the canonical name of a resolved path is laid out: it ends with the
/// last segment, and where there are more segments, the separator stands
/// before that and the name of the segments in front before the separator.
proof fn lemma_canonical_name_layout(segments: Seq<Seq<char>>)
    requires
        segments.len() > 0,
        forall|i: int| 0 <= i < segments.len() ==> is_ident(#[trigger] segments[i]),
    ensures
        ({
            let name = canonical_name(segments);
            let last = segments.last();
            &&& name.len() >= last.len()
            &&& name.subrange(name.len() - last.len(), name.len() as int) == last
            &&& segments.len() == 1 ==> name.len() == last.len()
            &&& segments.len() > 1 ==> {
                &&& name.len() >= last.len() + 3
                &&& name[name.len() - last.len() - 1] == ':'
                &&& name.subrange(0, name.len() - last.len() - 2) == canonical_name(
                    segments.drop_last(),
                )
            }
        }),
{
    let name = canonical_name(segments);
    let last = segments.last();
    if segments.len() > 1 {
        let front = segments.drop_last();
        assert forall|i: int| 0 <= i < front.len() implies is_ident(#[trigger] front[i]) by {
            assert(front[i] == segments[i]);
        }
        lemma_canonical_name_ends(front);
        assert(name == canonical_name(front) + separator() + last);
        assert(name.subrange(name.len() - last.len(), name.len() as int) =~= last);
        assert(name.subrange(0, name.len() - last.len() - 2) =~= canonical_name(front));
        assert(name[name.len() - last.len() - 1] == separator()[1]);
    } else {
        assert(name.subrange(0, name.len() as int) =~= name);
    }
}

/// Two lists of identifiers with the same canonical name are the same list.
pub proof fn lemma_canonical_name_injective(a: Seq<Seq<char>>, b: Seq<Seq<char>>)
    requires
        a.len() > 0,
        b.len() > 0,
        forall|i: int| 0 <= i < a.len() ==> is_ident(#[trigger] a[i]),
        forall|i: int| 0 <= i < b.len() ==> is_ident(#[trigger] b[i]),
        canonical_name(a) == canonical_name(b),
    ensures
        a == b,
    decreases a.len(),
{
    let name = canonical_name(a);
    let la = a.last();
    let lb = b.last();
    lemma_canonical_name_layout(a);
    lemma_canonical_name_layout(b);
    assert(is_ident(a[a.len() - 1]));
    assert(is_ident(b[b.len() - 1]));
    if la.len() < lb.len() {
        // The place just before `la` lies inside `lb`, which holds no colon.
        let at = name.len() - la.len() - 1;
        assert(a.len() > 1);
        assert(name[at] == ':');
        assert(name.subrange(name.len() - lb.len(), name.len() as int)[at - (name.len()
            - lb.len())] == name[at]);
        assert(false);
    }
    if lb.len() < la.len() {
        let at = name.len() - lb.len() - 1;
        assert(b.len() > 1);
        assert(name[at] == ':');
        assert(name.subrange(name.len() - la.len(), name.len() as int)[at - (name.len()
            - la.len())] == name[at]);
        assert(false);
    }
    assert(la == lb);
    if a.len() == 1 {
        assert(b.len() == 1);
        assert(a =~= b);
    } else {
        assert(b.len() > 1);
        let fa = a.drop_last();
        let fb = b.drop_last();
        assert forall|i: int| 0 <= i < fa.len() implies is_ident(#[trigger] fa[i]) by {
            assert(fa[i] == a[i]);
        }
        assert forall|i: int| 0 <= i < fb.len() implies is_ident(#[trigger] fb[i]) by {
            assert(fb[i] == b[i]);
        }
        lemma_canonical_name_injective(fa, fb);
        assert(a =~= fa.push(la));
        assert(b =~= fb.push(lb));
    }
}

/// Canonicalization is injective: two supported type expressions that have
/// the same canonical name are the same expression.
pub proof fn lemma_name_of_type_injective(s: TyKindView, t: TyKindView)
    requires
        is_supported(s),
        is_supported(t),
        name_of_type(s) == name_of_type(t),
    ensures
        s == t,
{
    let p = s->Path_0->path;
    let q = t->Path_0->path;
    let a = idents(p);
    let b = idents(q);
    assert forall|i: int| 0 <= i < a.len() implies is_ident(#[trigger] a[i]) by {
        assert(a[i] == p[i].ident);
    }
    assert forall|i: int| 0 <= i < b.len() implies is_ident(#[trigger] b[i]) by {
        assert(b[i] == q[i].ident);
    }
    lemma_canonical_name_injective(a, b);
    assert forall|i: int| 0 <= i < p.len() implies p[i] == q[i] by {
        assert(a[i] == p[i].ident);
        assert(b[i] == q[i].ident);
        assert(!p[i].has_generic_args);
        assert(!q[i].has_generic_args);
    }
    assert(p =~= q);
}

} // verus!

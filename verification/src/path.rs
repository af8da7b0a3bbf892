//! Path models and the shared self-path resolution helper.
//!
//! Two kinds of path appear in the engine. A [`TypePath`] is a path as it was
//! written in the input: each segment keeps its identifier and, verbatim, any
//! generic-argument text that followed it. A [`Path`] is a path as the engine
//! emits it: a plain sequence of segment texts, already resolved. Both the
//! declarative generator and the template rewriting engine resolve a leading
//! self-referential segment to the implementing type's own generics-stripped
//! path through [`resolve_self_path`].

use vstd::prelude::*;

use crate::span::Span;

verus! {

/// One path segment as written: an identifier plus the raw text of any
/// generic arguments attached to it (`"< T >"`, `"::< u8 >"`).
#[derive(Debug)]
pub struct PathSeg {
    pub ident: String,
    pub args: Option<String>,
}

/// A path as written in the input, possibly rooted with a leading `::`.
#[derive(Debug)]
pub struct TypePath {
    pub global: bool,
    pub segs: Vec<PathSeg>,
    pub span: Span,
}

/// The implementing type of a skeleton: a path, or any other type form
/// carried through as its raw token text.
#[derive(Debug)]
pub enum SelfTy {
    Path { path: TypePath },
    Opaque { text: String },
}

/// A resolved, emitted path: raw segment texts joined by `::` when rendered.
#[derive(Debug)]
pub struct Path {
    pub global: bool,
    pub segs: Vec<String>,
}

/// The text of one written segment: the identifier, followed by its raw
/// generic-argument text when it has one.
pub open spec fn seg_text(seg: PathSeg) -> Seq<char> {
    match seg.args {
        Some(a) => seg.ident@ + seq![' '] + a@,
        None => seg.ident@,
    }
}

/// The texts of a sequence of strings.
pub open spec fn str_views(s: Seq<String>) -> Seq<Seq<char>> {
    s.map_values(|x: String| x@)
}

/// Two emitted paths are the same path.
pub open spec fn path_eq(a: Path, b: Path) -> bool {
    &&& a.global == b.global
    &&& a.segs@.len() == b.segs@.len()
    &&& forall|i: int| 0 <= i < a.segs@.len() ==> a.segs@[i]@ == #[trigger] b.segs@[i]@
}

/// `r` is `t` with the generic arguments stripped from every segment; a
/// non-path type is kept as it stands.
pub open spec fn is_base_of(r: SelfTy, t: SelfTy) -> bool {
    match t {
        SelfTy::Path { path } => match r {
            SelfTy::Path { path: rp } => {
                &&& rp.global == path.global
                &&& rp.segs@.len() == path.segs@.len()
                &&& forall|i: int|
                    0 <= i < path.segs@.len() ==> (#[trigger] rp.segs@[i]).ident@
                        == path.segs@[i].ident@ && rp.segs@[i].args is None
            },
            SelfTy::Opaque { .. } => false,
        },
        SelfTy::Opaque { text } => match r {
            SelfTy::Opaque { text: rt } => rt@ == text@,
            SelfTy::Path { .. } => false,
        },
    }
}

/// The emitted segment texts of a stripped self type: its identifiers when it
/// is a path, its whole raw text otherwise.
pub open spec fn self_head_segs(base: SelfTy) -> Seq<Seq<char>> {
    match base {
        SelfTy::Path { path } => path.segs@.map_values(|s: PathSeg| s.ident@),
        SelfTy::Opaque { text } => seq![text@],
    }
}

pub open spec fn self_head_global(base: SelfTy) -> bool {
    match base {
        SelfTy::Path { path } => path.global,
        SelfTy::Opaque { .. } => false,
    }
}

/// Whether a written path starts with a bare self-referential segment.
pub open spec fn starts_with_self(p: TypePath) -> bool {
    &&& p.segs@.len() > 0
    &&& p.segs@[0].ident@ == "Self"@
    &&& p.segs@[0].args is None
}

/// `r` is the written path `p` resolved against the stripped self type
/// `base`: a leading bare `Self` segment becomes the self type's own path and
/// every other segment keeps its written text; without a leading `Self` the
/// segment texts are kept and the path is emitted relative.
pub open spec fn is_resolved_path(p: TypePath, base: SelfTy, r: Path) -> bool {
    if starts_with_self(p) {
        &&& r.global == self_head_global(base)
        &&& r.segs@.map_values(|s: String| s@) == self_head_segs(base) + p.segs@.skip(
            1,
        ).map_values(|s: PathSeg| seg_text(s))
    } else {
        &&& !r.global
        &&& r.segs@.map_values(|s: String| s@) == p.segs@.map_values(|s: PathSeg| seg_text(s))
    }
}

/// Copies a `String`.
pub(crate) fn clone_string(s: &String) -> (r: String)
    ensures
        r == *s,
{
    s.clone()
}

/// Copies an emitted path.
pub(crate) fn clone_path(p: &Path) -> (r: Path)
    ensures
        r.global == p.global,
        r.segs@ == p.segs@,
{
    let mut segs: Vec<String> = Vec::new();
    let mut i: usize = 0;
    while i < p.segs.len()
        invariant
            i <= p.segs@.len(),
            segs@ =~= p.segs@.subrange(0, i as int),
        decreases p.segs@.len() - i,
    {
        segs.push(clone_string(&p.segs[i]));
        i = i + 1;
    }
    proof {
        assert(segs@ =~= p.segs@);
    }
    Path { global: p.global, segs }
}

/// Strips the generic arguments from every segment of the implementing type,
/// so that a parameterized type is matched and re-emitted by its bare name.
pub fn self_type_base(t: &SelfTy) -> (r: SelfTy)
    ensures
        is_base_of(r, *t),
{
    match t {
        SelfTy::Path { path } => {
            let mut segs: Vec<PathSeg> = Vec::new();
            let mut i: usize = 0;
            while i < path.segs.len()
                invariant
                    i <= path.segs@.len(),
                    segs@.len() == i,
                    forall|j: int|
                        0 <= j < i ==> (#[trigger] segs@[j]).ident@ == path.segs@[j].ident@
                            && segs@[j].args is None,
                decreases path.segs@.len() - i,
            {
                segs.push(PathSeg { ident: clone_string(&path.segs[i].ident), args: None });
                i = i + 1;
            }
            SelfTy::Path {
                path: TypePath { global: path.global, segs, span: path.span },
            }
        },
        SelfTy::Opaque { text } => SelfTy::Opaque { text: clone_string(text) },
    }
}

/// Stripping generic arguments changes neither the emitted head segments nor
/// whether the path is rooted.
pub proof fn lemma_base_heads(base: SelfTy, t: SelfTy)
    requires
        is_base_of(base, t),
    ensures
        self_head_global(base) == self_head_global(t),
        self_head_segs(base) == self_head_segs(t),
{
    match t {
        SelfTy::Path { path } => {
            match base {
                SelfTy::Path { path: bp } => {
                    assert(bp.segs@.map_values(|s: PathSeg| s.ident@) =~= path.segs@.map_values(
                        |s: PathSeg| s.ident@,
                    ));
                },
                SelfTy::Opaque { .. } => {},
            }
        },
        SelfTy::Opaque { .. } => {},
    }
}

/// The implementing type's own emitted path: its stripped segments, or its
/// whole raw text as a single segment.
pub fn self_path(base: &SelfTy) -> (r: Path)
    ensures
        r.global == self_head_global(*base),
        str_views(r.segs@) == self_head_segs(*base),
{
    match base {
        SelfTy::Path { path } => {
            let mut segs: Vec<String> = Vec::new();
            let mut i: usize = 0;
            while i < path.segs.len()
                invariant
                    i <= path.segs@.len(),
                    segs@.len() == i,
                    forall|j: int| 0 <= j < i ==> (#[trigger] segs@[j])@ == path.segs@[j].ident@,
                decreases path.segs@.len() - i,
            {
                segs.push(clone_string(&path.segs[i].ident));
                i = i + 1;
            }
            let r = Path { global: path.global, segs };
            proof {
                assert(str_views(r.segs@) =~= self_head_segs(*base));
            }
            r
        },
        SelfTy::Opaque { text } => {
            let mut segs: Vec<String> = Vec::new();
            segs.push(clone_string(text));
            let r = Path { global: false, segs };
            proof {
                assert(str_views(r.segs@) =~= self_head_segs(*base));
            }
            r
        },
    }
}

/// The emitted text of one written segment.
fn seg_to_text(seg: &PathSeg) -> (r: String)
    ensures
        r@ == seg_text(*seg),
{
    match &seg.args {
        Some(a) => {
            let mut s = clone_string(&seg.ident);
            s.append(" ");
            s.append(a.as_str());
            proof {
                reveal_strlit(" ");
                assert(s@ =~= seg_text(*seg));
            }
            s
        },
        None => clone_string(&seg.ident),
    }
}

/// Resolves a path written inside a skeleton against the implementing type:
/// a leading self-referential segment is rewritten to the type's own
/// generics-stripped path, and all other segments pass through unchanged.
pub fn resolve_self_path(p: &TypePath, base: &SelfTy) -> (r: Path)
    ensures
        is_resolved_path(*p, *base, r),
{
    let mut segs: Vec<String> = Vec::new();
    let is_self = p.segs.len() > 0 && p.segs[0].args.is_none() && str_eq(
        p.segs[0].ident.as_str(),
        "Self",
    );
    let mut start: usize = 0;
    let mut global = false;
    if is_self {
        match base {
            SelfTy::Path { path } => {
                global = path.global;
                let mut i: usize = 0;
                while i < path.segs.len()
                    invariant
                        i <= path.segs@.len(),
                        segs@.len() == i,
                        forall|j: int|
                            0 <= j < i ==> (#[trigger] segs@[j])@ == path.segs@[j].ident@,
                    decreases path.segs@.len() - i,
                {
                    segs.push(clone_string(&path.segs[i].ident));
                    i = i + 1;
                }
            },
            SelfTy::Opaque { text } => {
                segs.push(clone_string(text));
            },
        }
        start = 1;
        proof {
            assert(segs@.map_values(|s: String| s@) =~= self_head_segs(*base));
        }
    }
    let ghost head: Seq<Seq<char>> = segs@.map_values(|s: String| s@);
    let mut i: usize = start;
    while i < p.segs.len()
        invariant
            start <= i <= p.segs@.len(),
            segs@.map_values(|s: String| s@) =~= head + p.segs@.subrange(
                start as int,
                i as int,
            ).map_values(|s: PathSeg| seg_text(s)),
        decreases p.segs@.len() - i,
    {
        let ghost segs_before = segs@;
        segs.push(seg_to_text(&p.segs[i]));
        proof {
            assert(p.segs@.subrange(start as int, i + 1 as int) =~= p.segs@.subrange(
                start as int,
                i as int,
            ).push(p.segs@[i as int]));
            assert(segs@.map_values(|s: String| s@) =~= segs_before.map_values(|s: String| s@).push(
                segs@[segs@.len() - 1]@,
            ));
        }
        i = i + 1;
    }
    let r = Path { global, segs };
    proof {
        assert(p.segs@.subrange(start as int, p.segs@.len() as int) =~= p.segs@.skip(start as int));
        if starts_with_self(*p) {
            assert(r.segs@.map_values(|s: String| s@) =~= self_head_segs(*base) + p.segs@.skip(
                1,
            ).map_values(|s: PathSeg| seg_text(s)));
        } else {
            assert(head =~= Seq::<Seq<char>>::empty());
            assert(r.segs@.map_values(|s: String| s@) =~= p.segs@.map_values(
                |s: PathSeg| seg_text(s),
            ));
        }
    }
    r
}

/// Compares two string slices.
pub(crate) fn str_eq(a: &str, b: &str) -> (r: bool)
    ensures
        r == (a@ == b@),
{
    let a_str: String = String::from_str(a);
    let b_str: String = String::from_str(b);
    a_str.eq(&b_str)
}

} // verus!

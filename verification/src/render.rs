//! Rendering of generated output to source text.
//!
//! Every renderer writes a token stream as text: each token is followed by a
//! single space, and multi-character operators are kept as one token. The
//! spec functions state the exact text each node renders to, character for
//! character.

use vstd::prelude::*;

use crate::derive::DeriveOutput;
use crate::expr::{Entry, Expr, FieldInit, SIntKind, UIntKind};
use crate::genfn::{BindsPat, GenArm, GenBody, GenFn, GenLet, GenSource};
use crate::numfmt::{dec_str, push_dec};
use crate::path::{seg_text, Path, PathSeg, TypePath};
use crate::span::Diag;
use crate::template::{
    FieldPat, ImplItemK, ImplSkeleton, PatNode, PatOut, Rewritten, RewrittenArm, RewriteOutput,
};

verus! {

/// Appends one character.
///
/// Relies on `String::push`: it appends exactly the given character.
#[verifier::external_body]
fn push_char(out: &mut String, c: char)
    ensures
        final(out)@ == old(out)@ + seq![c],
{
    out.push(c);
}

/// The escaped form of one character inside a rendered string literal.
pub open spec fn esc_char(c: char) -> Seq<char> {
    if c == '"' {
        seq!['\\', '"']
    } else if c == '\\' {
        seq!['\\', '\\']
    } else if c == '\n' {
        seq!['\\', 'n']
    } else {
        seq![c]
    }
}

/// The escaped form of the first `i` characters.
pub open spec fn esc_pre(s: Seq<char>, i: int) -> Seq<char>
    decreases i,
{
    if i <= 0 {
        Seq::empty()
    } else {
        esc_pre(s, i - 1) + esc_char(s[i - 1])
    }
}

/// The rendered string literal: quoted and escaped, as one token.
pub open spec fn text_str_lit(s: Seq<char>) -> Seq<char> {
    seq!['"'] + esc_pre(s, s.len() as int) + "\" "@
}

/// Appends a quoted, escaped string literal token.
fn write_str_lit(out: &mut String, s: &str)
    ensures
        final(out)@ == old(out)@ + text_str_lit(s@),
{
    push_char(out, '"');
    let n = s.unicode_len();
    let mut i: usize = 0;
    while i < n
        invariant
            n == s@.len(),
            i <= n,
            out@ == old(out)@ + seq!['"'] + esc_pre(s@, i as int),
        decreases n - i,
    {
        let c = s.get_char(i);
        if c == '"' {
            out.append("\\\"");
            proof {
                reveal_strlit("\\\"");
                assert(out@ =~= old(out)@ + seq!['"'] + esc_pre(s@, i + 1 as int));
            }
        } else if c == '\\' {
            out.append("\\\\");
            proof {
                reveal_strlit("\\\\");
                assert(out@ =~= old(out)@ + seq!['"'] + esc_pre(s@, i + 1 as int));
            }
        } else if c == '\n' {
            out.append("\\n");
            proof {
                reveal_strlit("\\n");
                assert(out@ =~= old(out)@ + seq!['"'] + esc_pre(s@, i + 1 as int));
            }
        } else {
            push_char(out, c);
            proof {
                assert(out@ =~= old(out)@ + seq!['"'] + esc_pre(s@, i + 1 as int));
            }
        }
        i = i + 1;
    }
    out.append("\" ");
    proof {
        reveal_strlit("\" ");
        assert(out@ =~= old(out)@ + text_str_lit(s@));
    }
}

/// The text of an emitted path's segments from `i` on.
pub open spec fn text_segs(segs: Seq<String>, i: int) -> Seq<char>
    decreases segs.len() - i,
{
    if i < 0 || i >= segs.len() {
        Seq::empty()
    } else if i + 1 == segs.len() {
        segs[i]@ + " "@
    } else {
        segs[i]@ + " "@ + ":: "@ + text_segs(segs, i + 1)
    }
}

/// The text of an emitted path.
pub open spec fn text_path(p: Path) -> Seq<char> {
    (if p.global {
        ":: "@
    } else {
        Seq::<char>::empty()
    }) + text_segs(p.segs@, 0)
}

fn write_segs(out: &mut String, segs: &Vec<String>, i: usize)
    requires
        i <= segs@.len(),
    ensures
        final(out)@ == old(out)@ + text_segs(segs@, i as int),
    decreases segs@.len() - i,
{
    if i < segs.len() {
        out.append(segs[i].as_str());
        out.append(" ");
        if i + 1 < segs.len() {
            out.append(":: ");
            write_segs(out, segs, i + 1);
        }
        proof {
            reveal_strlit(" ");
            reveal_strlit(":: ");
            assert(out@ =~= old(out)@ + text_segs(segs@, i as int));
        }
    }
}

/// Appends an emitted path.
pub fn write_path(out: &mut String, p: &Path)
    ensures
        final(out)@ == old(out)@ + text_path(*p),
{
    if p.global {
        out.append(":: ");
    }
    write_segs(out, &p.segs, 0);
    proof {
        reveal_strlit(":: ");
        assert(out@ =~= old(out)@ + text_path(*p));
    }
}

/// The text of a written path's segments from `i` on, keeping generic
/// arguments.
pub open spec fn text_tp_segs(segs: Seq<PathSeg>, i: int) -> Seq<char>
    decreases segs.len() - i,
{
    if i < 0 || i >= segs.len() {
        Seq::empty()
    } else if i + 1 == segs.len() {
        seg_text(segs[i]) + " "@
    } else {
        seg_text(segs[i]) + " "@ + ":: "@ + text_tp_segs(segs, i + 1)
    }
}

/// The text of a written path, as the author wrote it.
pub open spec fn text_type_path(p: TypePath) -> Seq<char> {
    (if p.global {
        ":: "@
    } else {
        Seq::<char>::empty()
    }) + text_tp_segs(p.segs@, 0)
}

fn write_tp_segs(out: &mut String, segs: &Vec<PathSeg>, i: usize)
    requires
        i <= segs@.len(),
    ensures
        final(out)@ == old(out)@ + text_tp_segs(segs@, i as int),
    decreases segs@.len() - i,
{
    if i < segs.len() {
        let s = &segs[i];
        out.append(s.ident.as_str());
        match &s.args {
            Some(a) => {
                out.append(" ");
                out.append(a.as_str());
            },
            None => {},
        }
        out.append(" ");
        if i + 1 < segs.len() {
            out.append(":: ");
            write_tp_segs(out, segs, i + 1);
        }
        proof {
            reveal_strlit(" ");
            reveal_strlit(":: ");
            assert(out@ =~= old(out)@ + text_tp_segs(segs@, i as int));
        }
    }
}

/// Appends a written path, as the author wrote it.
pub fn write_type_path(out: &mut String, p: &TypePath)
    ensures
        final(out)@ == old(out)@ + text_type_path(*p),
{
    if p.global {
        out.append(":: ");
    }
    write_tp_segs(out, &p.segs, 0);
    proof {
        reveal_strlit(":: ");
        assert(out@ =~= old(out)@ + text_type_path(*p));
    }
}

/// The rendered suffix of an unsigned literal, space included.
pub open spec fn usuffix(k: UIntKind) -> Seq<char> {
    match k {
        UIntKind::U8 => "u8 "@,
        UIntKind::U16 => "u16 "@,
        UIntKind::U32 => "u32 "@,
        UIntKind::U64 => "u64 "@,
        UIntKind::U128 => "u128 "@,
        UIntKind::Usize => "usize "@,
    }
}

pub open spec fn ssuffix(k: SIntKind) -> Seq<char> {
    match k {
        SIntKind::I8 => "i8 "@,
        SIntKind::I16 => "i16 "@,
        SIntKind::I32 => "i32 "@,
        SIntKind::I64 => "i64 "@,
        SIntKind::I128 => "i128 "@,
        SIntKind::Isize => "isize "@,
    }
}

fn write_usuffix(out: &mut String, k: UIntKind)
    ensures
        final(out)@ == old(out)@ + usuffix(k),
{
    match k {
        UIntKind::U8 => out.append("u8 "),
        UIntKind::U16 => out.append("u16 "),
        UIntKind::U32 => out.append("u32 "),
        UIntKind::U64 => out.append("u64 "),
        UIntKind::U128 => out.append("u128 "),
        UIntKind::Usize => out.append("usize "),
    }
}

fn write_ssuffix(out: &mut String, k: SIntKind)
    ensures
        final(out)@ == old(out)@ + ssuffix(k),
{
    match k {
        SIntKind::I8 => out.append("i8 "),
        SIntKind::I16 => out.append("i16 "),
        SIntKind::I32 => out.append("i32 "),
        SIntKind::I64 => out.append("i64 "),
        SIntKind::I128 => out.append("i128 "),
        SIntKind::Isize => out.append("isize "),
    }
}

/// The magnitude of a signed literal.
pub open spec fn abs_of(v: i128) -> nat {
    if v >= 0 {
        v as nat
    } else {
        (-(v as int)) as nat
    }
}

/// The rendered signed literal: sign, digits and suffix as one token.
pub open spec fn text_sint(k: SIntKind, v: i128) -> Seq<char> {
    (if v < 0 {
        seq!['-']
    } else {
        Seq::<char>::empty()
    }) + dec_str(abs_of(v)) + ssuffix(k)
}

fn write_sint(out: &mut String, k: SIntKind, v: i128)
    ensures
        final(out)@ == old(out)@ + text_sint(k, v),
{
    let abs: u128 = if v >= 0 {
        v as u128
    } else {
        ((-(v + 1)) as u128) + 1
    };
    proof {
        assert(abs == abs_of(v));
    }
    if v < 0 {
        push_char(out, '-');
    }
    push_dec(out, abs);
    write_ssuffix(out, k);
    proof {
        assert(out@ =~= old(out)@ + text_sint(k, v));
    }
}

/// The text of one generated fragment.
pub open spec fn text_expr(e: Expr) -> Seq<char>
    decreases e, 1int,
{
    match e {
        Expr::PathExpr { path } => text_path(path),
        Expr::CtorCall { path, args } => text_path(path) + "( "@ + text_args(args@, 0) + ") "@,
        Expr::CtorNamed { path, fields } => text_path(path) + "{ "@ + text_inits(fields@, 0)
            + "} "@,
        Expr::Splice { name } => "# "@ + name@ + " "@,
        Expr::LitBool { b } => {
            if b {
                "true "@
            } else {
                "false "@
            }
        },
        Expr::LitUInt { k, v } => dec_str(v as nat) + usuffix(k),
        Expr::LitSInt { k, v } => text_sint(k, v),
        Expr::StrFrom { s } => "String :: from ( "@ + text_str_lit(s@) + ") "@,
        Expr::SomeOf { e: sub } => "Some ( "@ + text_expr(*sub) + ") "@,
        Expr::NoneLit => "None "@,
        Expr::BoxNew { e: sub } => "Box :: new ( "@ + text_expr(*sub) + ") "@,
        Expr::VecNew => "< std :: vec :: Vec < _ > > :: new ( ) "@,
        Expr::VecFrom { es } => "< std :: vec :: Vec < _ > > :: from ( [ "@ + text_list(es@, 0)
            + "] ) "@,
        Expr::MapNew => "< std :: collections :: BTreeMap < _ , _ > > :: new ( ) "@,
        Expr::MapFrom { entries } => "< std :: collections :: BTreeMap < _ , _ > > :: from ( [ "@
            + text_entries(entries@, 0) + "] ) "@,
        Expr::SetNew => "< std :: collections :: BTreeSet < _ , _ > > :: new ( ) "@,
        Expr::SetFrom { es } => "< std :: collections :: BTreeSet < _ , _ > > :: from ( [ "@
            + text_list(es@, 0) + "] ) "@,
        Expr::NonZeroU { k, v } => "std :: num :: NonZero"@ + unz_name(k) + " :: new ( "@ + dec_str(
            v as nat,
        ) + usuffix(k) + ") . unwrap ( ) "@,
        Expr::NonZeroI { k, v } => "std :: num :: NonZero"@ + snz_name(k) + " :: new ( "@
            + text_sint(k, v) + ") . unwrap ( ) "@,
        Expr::DateTimeFrom { secs, nanos } => "chrono :: DateTime :: < chrono :: Utc > :: from_timestamp ( "@
            + text_sint(SIntKind::I64, secs as i128) + ", "@ + dec_str(nanos as nat) + "u32 "@
            + ") . unwrap ( ) "@,
    }
}

/// The bounded-nonzero type names.
pub open spec fn unz_name(k: UIntKind) -> Seq<char> {
    match k {
        UIntKind::U8 => "U8"@,
        UIntKind::U16 => "U16"@,
        UIntKind::U32 => "U32"@,
        UIntKind::U64 => "U64"@,
        UIntKind::U128 => "U128"@,
        UIntKind::Usize => "Usize"@,
    }
}

pub open spec fn snz_name(k: SIntKind) -> Seq<char> {
    match k {
        SIntKind::I8 => "I8"@,
        SIntKind::I16 => "I16"@,
        SIntKind::I32 => "I32"@,
        SIntKind::I64 => "I64"@,
        SIntKind::I128 => "I128"@,
        SIntKind::Isize => "Isize"@,
    }
}

/// Positional arguments, each followed by a comma.
pub open spec fn text_args(es: Seq<Expr>, i: int) -> Seq<char>
    decreases es, es.len() - i,
{
    if i < 0 || i >= es.len() {
        Seq::empty()
    } else {
        text_expr(es[i]) + ", "@ + text_args(es, i + 1)
    }
}

/// List elements, each followed by a comma.
pub open spec fn text_list(es: Seq<Expr>, i: int) -> Seq<char>
    decreases es, es.len() - i,
{
    if i < 0 || i >= es.len() {
        Seq::empty()
    } else {
        text_expr(es[i]) + ", "@ + text_list(es, i + 1)
    }
}

/// Named-field initializers, each followed by a comma.
pub open spec fn text_inits(fs: Seq<FieldInit>, i: int) -> Seq<char>
    decreases fs, fs.len() - i,
{
    if i < 0 || i >= fs.len() {
        Seq::empty()
    } else {
        fs[i].name@ + " : "@ + text_expr(fs[i].e) + ", "@ + text_inits(fs, i + 1)
    }
}

/// Key/value pair tuples, each followed by a comma.
pub open spec fn text_entries(es: Seq<Entry>, i: int) -> Seq<char>
    decreases es, es.len() - i,
{
    if i < 0 || i >= es.len() {
        Seq::empty()
    } else {
        "( "@ + text_expr(es[i].k) + ", "@ + text_expr(es[i].v) + ") "@ + ", "@ + text_entries(
            es,
            i + 1,
        )
    }
}

/// Appends one generated fragment.
#[verifier::rlimit(80)]
pub fn write_expr(out: &mut String, e: &Expr)
    ensures
        final(out)@ == old(out)@ + text_expr(*e),
    decreases *e, 1int,
{
    match e {
        Expr::PathExpr { path } => {
            write_path(out, path);
        },
        Expr::CtorCall { path, args } => {
            write_path(out, path);
            out.append("( ");
            proof {
                assert(decreases_to!(*e => (*e)->CtorCall_args));
            }
            write_args(out, e, args, 0);
            out.append(") ");
            proof {
                assert(out@ =~= old(out)@ + text_expr(*e));
            }
        },
        Expr::CtorNamed { path, fields } => {
            write_path(out, path);
            out.append("{ ");
            proof {
                assert(decreases_to!(*e => (*e)->CtorNamed_fields));
            }
            write_inits(out, e, fields, 0);
            out.append("} ");
            proof {
                assert(out@ =~= old(out)@ + text_expr(*e));
            }
        },
        Expr::Splice { name } => {
            out.append("# ");
            out.append(name.as_str());
            out.append(" ");
            proof {
                assert(out@ =~= old(out)@ + text_expr(*e));
            }
        },
        Expr::LitBool { b } => {
            if *b {
                out.append("true ");
            } else {
                out.append("false ");
            }
        },
        Expr::LitUInt { k, v } => {
            push_dec(out, *v);
            write_usuffix(out, *k);
            proof {
                assert(out@ =~= old(out)@ + text_expr(*e));
            }
        },
        Expr::LitSInt { k, v } => {
            write_sint(out, *k, *v);
        },
        Expr::StrFrom { s } => {
            out.append("String :: from ( ");
            write_str_lit(out, s.as_str());
            out.append(") ");
            proof {
                assert(out@ =~= old(out)@ + text_expr(*e));
            }
        },
        Expr::SomeOf { e: sub } => {
            out.append("Some ( ");
            proof {
                assert(decreases_to!(*e => (*e)->SomeOf_e));
            }
            write_expr(out, sub);
            out.append(") ");
            proof {
                assert(out@ =~= old(out)@ + text_expr(*e));
            }
        },
        Expr::NoneLit => {
            out.append("None ");
        },
        Expr::BoxNew { e: sub } => {
            out.append("Box :: new ( ");
            proof {
                assert(decreases_to!(*e => (*e)->BoxNew_e));
            }
            write_expr(out, sub);
            out.append(") ");
            proof {
                assert(out@ =~= old(out)@ + text_expr(*e));
            }
        },
        Expr::VecNew => {
            out.append("< std :: vec :: Vec < _ > > :: new ( ) ");
        },
        Expr::VecFrom { es } => {
            out.append("< std :: vec :: Vec < _ > > :: from ( [ ");
            proof {
                assert(decreases_to!(*e => (*e)->VecFrom_es));
            }
            write_list(out, e, es, 0);
            out.append("] ) ");
            proof {
                assert(out@ =~= old(out)@ + text_expr(*e));
            }
        },
        Expr::MapNew => {
            out.append("< std :: collections :: BTreeMap < _ , _ > > :: new ( ) ");
        },
        Expr::MapFrom { entries } => {
            out.append("< std :: collections :: BTreeMap < _ , _ > > :: from ( [ ");
            proof {
                assert(decreases_to!(*e => (*e)->MapFrom_entries));
            }
            write_entries(out, e, entries, 0);
            out.append("] ) ");
            proof {
                assert(out@ =~= old(out)@ + text_expr(*e));
            }
        },
        Expr::SetNew => {
            out.append("< std :: collections :: BTreeSet < _ , _ > > :: new ( ) ");
        },
        Expr::SetFrom { es } => {
            out.append("< std :: collections :: BTreeSet < _ , _ > > :: from ( [ ");
            proof {
                assert(decreases_to!(*e => (*e)->SetFrom_es));
            }
            write_list(out, e, es, 0);
            out.append("] ) ");
            proof {
                assert(out@ =~= old(out)@ + text_expr(*e));
            }
        },
        Expr::NonZeroU { k, v } => {
            out.append("std :: num :: NonZero");
            match k {
                UIntKind::U8 => out.append("U8"),
                UIntKind::U16 => out.append("U16"),
                UIntKind::U32 => out.append("U32"),
                UIntKind::U64 => out.append("U64"),
                UIntKind::U128 => out.append("U128"),
                UIntKind::Usize => out.append("Usize"),
            }
            out.append(" :: new ( ");
            push_dec(out, *v);
            write_usuffix(out, *k);
            out.append(") . unwrap ( ) ");
            proof {
                assert(out@ =~= old(out)@ + text_expr(*e));
            }
        },
        Expr::NonZeroI { k, v } => {
            out.append("std :: num :: NonZero");
            match k {
                SIntKind::I8 => out.append("I8"),
                SIntKind::I16 => out.append("I16"),
                SIntKind::I32 => out.append("I32"),
                SIntKind::I64 => out.append("I64"),
                SIntKind::I128 => out.append("I128"),
                SIntKind::Isize => out.append("Isize"),
            }
            out.append(" :: new ( ");
            write_sint(out, *k, *v);
            out.append(") . unwrap ( ) ");
            proof {
                assert(out@ =~= old(out)@ + text_expr(*e));
            }
        },
        Expr::DateTimeFrom { secs, nanos } => {
            out.append("chrono :: DateTime :: < chrono :: Utc > :: from_timestamp ( ");
            write_sint(out, SIntKind::I64, *secs as i128);
            out.append(", ");
            push_dec(out, *nanos as u128);
            out.append("u32 ");
            out.append(") . unwrap ( ) ");
            proof {
                assert(out@ =~= old(out)@ + text_expr(*e));
            }
        },
    }
}

fn write_args(out: &mut String, whole: &Expr, es: &Vec<Expr>, i: usize)
    requires
        i <= es@.len(),
        decreases_to!(*whole => *es),
    ensures
        final(out)@ == old(out)@ + text_args(es@, i as int),
    decreases *whole, 0int, es@.len() - i,
{
    if i < es.len() {
        proof {
            assert(decreases_to!(*whole => es@[i as int]));
        }
        write_expr(out, &es[i]);
        out.append(", ");
        write_args(out, whole, es, i + 1);
        proof {
            reveal_strlit(", ");
            assert(out@ =~= old(out)@ + text_args(es@, i as int));
        }
    }
}

fn write_list(out: &mut String, whole: &Expr, es: &Vec<Expr>, i: usize)
    requires
        i <= es@.len(),
        decreases_to!(*whole => *es),
    ensures
        final(out)@ == old(out)@ + text_list(es@, i as int),
    decreases *whole, 0int, es@.len() - i,
{
    if i < es.len() {
        proof {
            assert(decreases_to!(*whole => es@[i as int]));
        }
        write_expr(out, &es[i]);
        out.append(", ");
        write_list(out, whole, es, i + 1);
        proof {
            reveal_strlit(", ");
            assert(out@ =~= old(out)@ + text_list(es@, i as int));
        }
    }
}

fn write_inits(out: &mut String, whole: &Expr, fs: &Vec<FieldInit>, i: usize)
    requires
        i <= fs@.len(),
        decreases_to!(*whole => *fs),
    ensures
        final(out)@ == old(out)@ + text_inits(fs@, i as int),
    decreases *whole, 0int, fs@.len() - i,
{
    if i < fs.len() {
        out.append(fs[i].name.as_str());
        out.append(" : ");
        proof {
            assert(decreases_to!(*whole => fs@[i as int]));
            assert(decreases_to!(fs@[i as int] => fs@[i as int].e));
        }
        write_expr(out, &fs[i].e);
        out.append(", ");
        write_inits(out, whole, fs, i + 1);
        proof {
            reveal_strlit(" : ");
            reveal_strlit(", ");
            assert(out@ =~= old(out)@ + text_inits(fs@, i as int));
        }
    }
}

fn write_entries(out: &mut String, whole: &Expr, es: &Vec<Entry>, i: usize)
    requires
        i <= es@.len(),
        decreases_to!(*whole => *es),
    ensures
        final(out)@ == old(out)@ + text_entries(es@, i as int),
    decreases *whole, 0int, es@.len() - i,
{
    if i < es.len() {
        out.append("( ");
        proof {
            assert(decreases_to!(*whole => es@[i as int]));
            assert(decreases_to!(es@[i as int] => es@[i as int].k));
            assert(decreases_to!(es@[i as int] => es@[i as int].v));
        }
        write_expr(out, &es[i].k);
        out.append(", ");
        write_expr(out, &es[i].v);
        out.append(") ");
        out.append(", ");
        write_entries(out, whole, es, i + 1);
        proof {
            reveal_strlit("( ");
            reveal_strlit(", ");
            reveal_strlit(") ");
            assert(out@ =~= old(out)@ + text_entries(es@, i as int));
        }
    }
}

/// The text of one recursive-generation binding.
pub open spec fn text_genlet(l: GenLet) -> Seq<char> {
    match l.source {
        GenSource::SelfField { name } => "let "@ + l.bind@
            + " = :: transmogrify :: Transmogrify :: transmogrify ( & self . "@ + name@ + " ) ; "@,
        GenSource::SelfIndex { index } => "let "@ + l.bind@
            + " = :: transmogrify :: Transmogrify :: transmogrify ( & self . "@ + dec_str(
            index as nat,
        ) + " ) ; "@,
        GenSource::BindingCall { name } => "let "@ + l.bind@
            + " = :: transmogrify :: Transmogrify :: transmogrify ( "@ + name@ + " ) ; "@,
        GenSource::BindingMethod { name } => "let "@ + l.bind@ + " = "@ + name@
            + " . transmogrify ( ) ; "@,
    }
}

pub open spec fn text_genlets(ls: Seq<GenLet>, i: int) -> Seq<char>
    decreases ls.len() - i,
{
    if i < 0 || i >= ls.len() {
        Seq::empty()
    } else {
        text_genlet(ls[i]) + text_genlets(ls, i + 1)
    }
}

/// The text of one synthesized generator body: the bindings, then the quoted
/// template.
pub open spec fn text_genfn(f: GenFn) -> Seq<char> {
    text_genlets(f.lets@, 0) + "quote :: quote ! { "@ + text_expr(f.template) + "} "@
}

fn write_genlet(out: &mut String, l: &GenLet)
    ensures
        final(out)@ == old(out)@ + text_genlet(*l),
{
    out.append("let ");
    out.append(l.bind.as_str());
    match &l.source {
        GenSource::SelfField { name } => {
            out.append(" = :: transmogrify :: Transmogrify :: transmogrify ( & self . ");
            out.append(name.as_str());
            out.append(" ) ; ");
        },
        GenSource::SelfIndex { index } => {
            out.append(" = :: transmogrify :: Transmogrify :: transmogrify ( & self . ");
            push_dec(out, *index as u128);
            out.append(" ) ; ");
        },
        GenSource::BindingCall { name } => {
            out.append(" = :: transmogrify :: Transmogrify :: transmogrify ( ");
            out.append(name.as_str());
            out.append(" ) ; ");
        },
        GenSource::BindingMethod { name } => {
            out.append(" = ");
            out.append(name.as_str());
            out.append(" . transmogrify ( ) ; ");
        },
    }
    proof {
        assert(out@ =~= old(out)@ + text_genlet(*l));
    }
}

fn write_genlets(out: &mut String, ls: &Vec<GenLet>, i: usize)
    requires
        i <= ls@.len(),
    ensures
        final(out)@ == old(out)@ + text_genlets(ls@, i as int),
    decreases ls@.len() - i,
{
    if i < ls.len() {
        write_genlet(out, &ls[i]);
        write_genlets(out, ls, i + 1);
        proof {
            assert(out@ =~= old(out)@ + text_genlets(ls@, i as int));
        }
    }
}

/// Appends one synthesized generator body.
pub fn write_genfn(out: &mut String, f: &GenFn)
    ensures
        final(out)@ == old(out)@ + text_genfn(*f),
{
    write_genlets(out, &f.lets, 0);
    out.append("quote :: quote ! { ");
    write_expr(out, &f.template);
    out.append("} ");
    proof {
        assert(out@ =~= old(out)@ + text_genfn(*f));
    }
}

} // verus!

verus! {

/// The text of the names an arm's pattern binds, each followed by a comma.
pub open spec fn text_names_trailing(names: Seq<String>, i: int) -> Seq<char>
    decreases names.len() - i,
{
    if i < 0 || i >= names.len() {
        Seq::empty()
    } else {
        names[i]@ + " "@ + ", "@ + text_names_trailing(names, i + 1)
    }
}

fn write_names_trailing(out: &mut String, names: &Vec<String>, i: usize)
    requires
        i <= names@.len(),
    ensures
        final(out)@ == old(out)@ + text_names_trailing(names@, i as int),
    decreases names@.len() - i,
{
    if i < names.len() {
        out.append(names[i].as_str());
        out.append(" ");
        out.append(", ");
        write_names_trailing(out, names, i + 1);
        proof {
            reveal_strlit(" ");
            reveal_strlit(", ");
            assert(out@ =~= old(out)@ + text_names_trailing(names@, i as int));
        }
    }
}

/// The text of the names an arm's pattern binds, comma-separated.
pub open spec fn text_names_sep(names: Seq<String>, i: int) -> Seq<char>
    decreases names.len() - i,
{
    if i < 0 || i >= names.len() {
        Seq::empty()
    } else if i + 1 == names.len() {
        names[i]@ + " "@
    } else {
        names[i]@ + " "@ + ", "@ + text_names_sep(names, i + 1)
    }
}

fn write_names_sep(out: &mut String, names: &Vec<String>, i: usize)
    requires
        i <= names@.len(),
    ensures
        final(out)@ == old(out)@ + text_names_sep(names@, i as int),
    decreases names@.len() - i,
{
    if i < names.len() {
        out.append(names[i].as_str());
        out.append(" ");
        if i + 1 < names.len() {
            out.append(", ");
            write_names_sep(out, names, i + 1);
        }
        proof {
            reveal_strlit(" ");
            reveal_strlit(", ");
            assert(out@ =~= old(out)@ + text_names_sep(names@, i as int));
        }
    }
}

/// The text of the field names a written pattern binds, comma-separated.
pub open spec fn text_field_pats(fs: Seq<FieldPat>, i: int) -> Seq<char>
    decreases fs.len() - i,
{
    if i < 0 || i >= fs.len() {
        Seq::empty()
    } else if i + 1 == fs.len() {
        fs[i].name@ + " "@
    } else {
        fs[i].name@ + " "@ + ", "@ + text_field_pats(fs, i + 1)
    }
}

fn write_field_pats(out: &mut String, fs: &Vec<FieldPat>, i: usize)
    requires
        i <= fs@.len(),
    ensures
        final(out)@ == old(out)@ + text_field_pats(fs@, i as int),
    decreases fs@.len() - i,
{
    if i < fs.len() {
        out.append(fs[i].name.as_str());
        out.append(" ");
        if i + 1 < fs.len() {
            out.append(", ");
            write_field_pats(out, fs, i + 1);
        }
        proof {
            reveal_strlit(" ");
            reveal_strlit(", ");
            assert(out@ =~= old(out)@ + text_field_pats(fs@, i as int));
        }
    }
}

/// The text of one synthesized arm of the declarative generator.
pub open spec fn text_gen_arm(a: GenArm) -> Seq<char> {
    "Self :: "@ + a.variant@ + " "@ + (match a.binds {
        BindsPat::Named { names } => "{ "@ + text_names_trailing(names@, 0) + "} "@,
        BindsPat::Positional { names } => "( "@ + text_names_trailing(names@, 0) + ") "@,
        BindsPat::Unit => Seq::<char>::empty(),
    }) + "=> { "@ + text_genfn(a.body) + "} "@
}

fn write_gen_arm(out: &mut String, a: &GenArm)
    ensures
        final(out)@ == old(out)@ + text_gen_arm(*a),
{
    out.append("Self :: ");
    out.append(a.variant.as_str());
    out.append(" ");
    match &a.binds {
        BindsPat::Named { names } => {
            out.append("{ ");
            write_names_trailing(out, names, 0);
            out.append("} ");
        },
        BindsPat::Positional { names } => {
            out.append("( ");
            write_names_trailing(out, names, 0);
            out.append(") ");
        },
        BindsPat::Unit => {},
    }
    out.append("=> { ");
    write_genfn(out, &a.body);
    out.append("} ");
    proof {
        assert(out@ =~= old(out)@ + text_gen_arm(*a));
    }
}

pub open spec fn text_gen_arms(arms: Seq<GenArm>, i: int) -> Seq<char>
    decreases arms.len() - i,
{
    if i < 0 || i >= arms.len() {
        Seq::empty()
    } else {
        text_gen_arm(arms[i]) + text_gen_arms(arms, i + 1)
    }
}

fn write_gen_arms(out: &mut String, arms: &Vec<GenArm>, i: usize)
    requires
        i <= arms@.len(),
    ensures
        final(out)@ == old(out)@ + text_gen_arms(arms@, i as int),
    decreases arms@.len() - i,
{
    if i < arms.len() {
        write_gen_arm(out, &arms[i]);
        write_gen_arms(out, arms, i + 1);
        proof {
            assert(out@ =~= old(out)@ + text_gen_arms(arms@, i as int));
        }
    }
}

/// The text of a whole synthesized generator body.
pub open spec fn text_gen_body(b: GenBody) -> Seq<char> {
    match b {
        GenBody::Flat { f } => text_genfn(f),
        GenBody::Match { arms } => "match self { "@ + text_gen_arms(arms@, 0) + "} "@,
    }
}

pub fn write_gen_body(out: &mut String, b: &GenBody)
    ensures
        final(out)@ == old(out)@ + text_gen_body(*b),
{
    match b {
        GenBody::Flat { f } => {
            write_genfn(out, f);
        },
        GenBody::Match { arms } => {
            out.append("match self { ");
            write_gen_arms(out, arms, 0);
            out.append("} ");
            proof {
                assert(out@ =~= old(out)@ + text_gen_body(*b));
            }
        },
    }
}

/// The text of one rendered compile-time error.
pub open spec fn text_compile_error(d: Diag) -> Seq<char> {
    ":: core :: compile_error ! { "@ + text_str_lit(d.msg@) + "} "@
}

pub open spec fn text_compile_errors(ds: Seq<Diag>, i: int) -> Seq<char>
    decreases ds.len() - i,
{
    if i < 0 || i >= ds.len() {
        Seq::empty()
    } else {
        text_compile_error(ds[i]) + text_compile_errors(ds, i + 1)
    }
}

/// Appends every collected diagnostic as a compile-time error, in order: no
/// error is silently swallowed.
pub fn write_compile_errors(out: &mut String, ds: &Vec<Diag>, i: usize)
    requires
        i <= ds@.len(),
    ensures
        final(out)@ == old(out)@ + text_compile_errors(ds@, i as int),
    decreases ds@.len() - i,
{
    if i < ds.len() {
        out.append(":: core :: compile_error ! { ");
        write_str_lit(out, ds[i].msg.as_str());
        out.append("} ");
        write_compile_errors(out, ds, i + 1);
        proof {
            reveal_strlit(":: core :: compile_error ! { ");
            reveal_strlit("} ");
            assert(out@ =~= old(out)@ + text_compile_errors(ds@, i as int));
        }
    }
}

/// The full text the declarative generator emits: the collected diagnostics
/// as compile-time errors, then the generator implementation, generic
/// parameters propagated unchanged.
pub open spec fn text_derive_output(o: DeriveOutput) -> Seq<char> {
    text_compile_errors(o.errors@, 0) + "impl "@ + o.generics.impl_generics@
        + " :: transmogrify :: Transmogrify for "@ + o.name@ + " "@ + o.generics.ty_generics@
        + " "@ + o.generics.where_clause@
        + " { fn transmogrify ( & self ) -> proc_macro2 :: TokenStream { "@ + text_gen_body(o.body)
        + "} } "@
}

/// Renders the declarative generator's output to source text.
pub fn render_derive_output(o: &DeriveOutput) -> (r: String)
    ensures
        r@ == text_derive_output(*o),
{
    let mut out = String::new();
    write_compile_errors(&mut out, &o.errors, 0);
    out.append("impl ");
    out.append(o.generics.impl_generics.as_str());
    out.append(" :: transmogrify :: Transmogrify for ");
    out.append(o.name.as_str());
    out.append(" ");
    out.append(o.generics.ty_generics.as_str());
    out.append(" ");
    out.append(o.generics.where_clause.as_str());
    out.append(" { fn transmogrify ( & self ) -> proc_macro2 :: TokenStream { ");
    write_gen_body(&mut out, &o.body);
    out.append("} } ");
    proof {
        assert(out@ =~= text_derive_output(*o));
    }
    out
}

/// The text of a kept written pattern.
pub open spec fn text_pat(p: PatNode) -> Seq<char> {
    match p {
        PatNode::Path { path } => text_type_path(path),
        PatNode::TupleStruct { path, .. } => text_type_path(path) + "( ) "@,
        PatNode::Struct { path, fields, .. } => text_type_path(path) + "{ "@ + text_field_pats(
            fields@,
            0,
        ) + "} "@,
        PatNode::Other { .. } => Seq::empty(),
    }
}

fn write_pat(out: &mut String, p: &PatNode)
    ensures
        final(out)@ == old(out)@ + text_pat(*p),
{
    match p {
        PatNode::Path { path } => {
            write_type_path(out, path);
        },
        PatNode::TupleStruct { path, .. } => {
            write_type_path(out, path);
            out.append("( ) ");
            proof {
                assert(out@ =~= old(out)@ + text_pat(*p));
            }
        },
        PatNode::Struct { path, fields, .. } => {
            write_type_path(out, path);
            out.append("{ ");
            write_field_pats(out, fields, 0);
            out.append("} ");
            proof {
                assert(out@ =~= old(out)@ + text_pat(*p));
            }
        },
        PatNode::Other { .. } => {},
    }
}

/// The text of one rewritten arm's pattern, as the author wrote it, with
/// positional slots rebound to synthetic names.
pub open spec fn text_pat_out(p: PatOut) -> Seq<char> {
    match p {
        PatOut::Path { path } => text_type_path(path),
        PatOut::TupleSynth { path, names } => text_type_path(path) + "( "@ + text_names_sep(
            names@,
            0,
        ) + ") "@,
        PatOut::StructKept { path, fields } => text_type_path(path) + "{ "@ + text_field_pats(
            fields@,
            0,
        ) + "} "@,
    }
}

fn write_pat_out(out: &mut String, p: &PatOut)
    ensures
        final(out)@ == old(out)@ + text_pat_out(*p),
{
    match p {
        PatOut::Path { path } => {
            write_type_path(out, path);
        },
        PatOut::TupleSynth { path, names } => {
            write_type_path(out, path);
            out.append("( ");
            write_names_sep(out, names, 0);
            out.append(") ");
            proof {
                assert(out@ =~= old(out)@ + text_pat_out(*p));
            }
        },
        PatOut::StructKept { path, fields } => {
            write_type_path(out, path);
            out.append("{ ");
            write_field_pats(out, fields, 0);
            out.append("} ");
            proof {
                assert(out@ =~= old(out)@ + text_pat_out(*p));
            }
        },
    }
}

/// The text of one rewritten match arm.
pub open spec fn text_rw_arm(a: RewrittenArm) -> Seq<char> {
    text_pat_out(a.pat) + "=> { "@ + text_genfn(a.body) + "} "@
}

pub open spec fn text_rw_arms(arms: Seq<RewrittenArm>, i: int) -> Seq<char>
    decreases arms.len() - i,
{
    if i < 0 || i >= arms.len() {
        Seq::empty()
    } else {
        text_rw_arm(arms[i]) + text_rw_arms(arms, i + 1)
    }
}

fn write_rw_arms(out: &mut String, arms: &Vec<RewrittenArm>, i: usize)
    requires
        i <= arms@.len(),
    ensures
        final(out)@ == old(out)@ + text_rw_arms(arms@, i as int),
    decreases arms@.len() - i,
{
    if i < arms.len() {
        write_pat_out(out, &arms[i].pat);
        out.append("=> { ");
        write_genfn(out, &arms[i].body);
        out.append("} ");
        write_rw_arms(out, arms, i + 1);
        proof {
            reveal_strlit("=> { ");
            reveal_strlit("} ");
            assert(out@ =~= old(out)@ + text_rw_arms(arms@, i as int));
        }
    }
}

/// The raw texts of the block's items from `i` on, each as written.
pub open spec fn text_items_from(items: Seq<ImplItemK>, i: int) -> Seq<char>
    decreases items.len() - i,
{
    if i < 0 || i >= items.len() {
        Seq::empty()
    } else {
        (match items[i] {
            ImplItemK::Fn { f, .. } => f.sig@ + " "@ + f.block_text@ + " "@,
            ImplItemK::OtherItem { text, .. } => text@ + " "@,
        }) + text_items_from(items, i + 1)
    }
}

fn write_items_from(out: &mut String, items: &Vec<ImplItemK>, i: usize)
    requires
        i <= items@.len(),
    ensures
        final(out)@ == old(out)@ + text_items_from(items@, i as int),
    decreases items@.len() - i,
{
    if i < items.len() {
        match &items[i] {
            ImplItemK::Fn { f, .. } => {
                out.append(f.sig.as_str());
                out.append(" ");
                out.append(f.block_text.as_str());
                out.append(" ");
            },
            ImplItemK::OtherItem { text, .. } => {
                out.append(text.as_str());
                out.append(" ");
            },
        }
        write_items_from(out, items, i + 1);
        proof {
            reveal_strlit(" ");
            assert(out@ =~= old(out)@ + text_items_from(items@, i as int));
        }
    }
}

/// The text of the rewritten skeleton function's block.
pub open spec fn text_rewritten(rw: Rewritten) -> Seq<char> {
    match rw {
        Rewritten::Flat { pat, body } => "{ let "@ + text_pat(pat) + "= self ; "@ + text_genfn(
            body,
        ) + "} "@,
        Rewritten::Arms { arms } => "{ match self { "@ + text_rw_arms(arms@, 0) + "} } "@,
    }
}

/// The placeholder body appended when the block holds no skeleton function.
pub open spec fn text_stub_fn() -> Seq<char> {
    "fn transmogrify ( & self ) -> proc_macro2 :: TokenStream { panic ! ( ) } "@
}

/// The full text the template rewriting engine emits: the implementation
/// block with its one function rewritten (or kept as written, or stubbed in),
/// its other items unchanged, and every soft diagnostic rendered after it.
pub open spec fn text_rewrite_output(imp: ImplSkeleton, o: RewriteOutput) -> Seq<char> {
    imp.header@ + " { "@ + (match o.rewritten {
        Some(rw) => {
            (if imp.items@.len() > 0 && imp.items@[0] is Fn {
                imp.items@[0]->Fn_f.sig@ + " "@ + text_rewritten(rw)
            } else {
                Seq::<char>::empty()
            }) + text_items_from(imp.items@, 1)
        },
        None => {
            if o.stubbed {
                text_items_from(imp.items@, 0) + text_stub_fn()
            } else {
                text_items_from(imp.items@, 0)
            }
        },
    }) + "} "@ + text_compile_errors(o.errors@, 0)
}

/// Renders the template rewriting engine's output to source text.
pub fn render_rewrite_output(imp: &ImplSkeleton, o: &RewriteOutput) -> (r: String)
    ensures
        r@ == text_rewrite_output(*imp, *o),
{
    let mut out = String::new();
    out.append(imp.header.as_str());
    out.append(" { ");
    match &o.rewritten {
        Some(rw) => {
            if imp.items.len() > 0 {
                match &imp.items[0] {
                    ImplItemK::Fn { f, .. } => {
                        out.append(f.sig.as_str());
                        out.append(" ");
                        match rw {
                            Rewritten::Flat { pat, body } => {
                                out.append("{ let ");
                                write_pat(&mut out, pat);
                                out.append("= self ; ");
                                write_genfn(&mut out, body);
                                out.append("} ");
                            },
                            Rewritten::Arms { arms } => {
                                out.append("{ match self { ");
                                write_rw_arms(&mut out, arms, 0);
                                out.append("} } ");
                            },
                        }
                    },
                    ImplItemK::OtherItem { .. } => {},
                }
            }
            if imp.items.len() >= 1 {
                write_items_from(&mut out, &imp.items, 1);
            }
        },
        None => {
            write_items_from(&mut out, &imp.items, 0);
            if o.stubbed {
                out.append("fn transmogrify ( & self ) -> proc_macro2 :: TokenStream { panic ! ( ) } ");
            }
        },
    }
    out.append("} ");
    write_compile_errors(&mut out, &o.errors, 0);
    proof {
        assert(out@ =~= text_rewrite_output(*imp, *o));
    }
    out
}

} // verus!

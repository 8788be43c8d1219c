//! Names in the workspace: the per-library work names, and paths inside the
//! workspace root.
use vstd::prelude::*;

use crate::text::{chars_of, push_all, string_of};

verus! {

/// The directory, relative to the working directory, that holds a run's
/// intermediate files.
pub const TEMP_ROOT: &'static str = ".soplink.tmp";

/// The final component of `path`, as `Path::file_name` gives it; empty when
/// there is none.
pub uninterp spec fn file_name_of(path: Seq<char>) -> Seq<char>;

/// Relies on `std::path::Path::file_name`: the last component of the path,
/// which depends on the path alone.
#[verifier::external_body]
pub(crate) fn file_name(path: &str) -> (r: String)
    ensures
        r@ == file_name_of(path@),
{
    std::path::Path::new(path).file_name().unwrap_or_default().to_string_lossy().to_string()
}

pub open spec fn digit(d: nat) -> char {
    seq!['0', '1', '2', '3', '4', '5', '6', '7', '8', '9'][d as int]
}

/// The decimal digits of `n`, without leading zeros.
pub open spec fn decimal(n: nat) -> Seq<char>
    decreases n,
{
    if n < 10 {
        seq![digit(n)]
    } else {
        decimal(n / 10).push(digit(n % 10))
    }
}

fn push_decimal(out: &mut Vec<char>, n: usize)
    ensures
        final(out)@ == old(out)@ + decimal(n as nat),
    decreases n,
{
    if n >= 10 {
        push_decimal(out, n / 10);
    }
    let d = n % 10;
    let c = if d == 0 { '0' } else if d == 1 { '1' } else if d == 2 { '2' } else if d == 3 { '3' }
    else if d == 4 { '4' } else if d == 5 { '5' } else if d == 6 { '6' } else if d == 7 { '7' }
    else if d == 8 { '8' } else { '9' };
    assert(c == digit(d as nat));
    out.push(c);
    proof {
        if n < 10 {
            assert(out@ =~= old(out)@ + decimal(n as nat));
        } else {
            assert(out@ =~= old(out)@ + decimal(n as nat / 10).push(digit(n as nat % 10)));
        }
    }
}

/// The name of the `index`-th library's work directory: its position and its
/// file name, so that two libraries with one file name do not share one.
pub open spec fn work_name(index: nat, name: Seq<char>) -> Seq<char> {
    decimal(index) + seq!['-'] + name
}

proof fn lemma_digit_injective(a: nat, b: nat)
    requires
        a < 10,
        b < 10,
        digit(a) == digit(b),
    ensures
        a == b,
{
    let ds = seq!['0', '1', '2', '3', '4', '5', '6', '7', '8', '9'];
    assert(ds[0] == '0' && ds[1] == '1' && ds[2] == '2' && ds[3] == '3' && ds[4] == '4');
    assert(ds[5] == '5' && ds[6] == '6' && ds[7] == '7' && ds[8] == '8' && ds[9] == '9');
}

proof fn lemma_decimal_shape(n: nat)
    ensures
        decimal(n).len() >= 1,
        n >= 10 ==> decimal(n).len() >= 2,
        forall|k: int| 0 <= k < decimal(n).len() ==> (#[trigger] decimal(n)[k]) != '-',
    decreases n,
{
    let ds = seq!['0', '1', '2', '3', '4', '5', '6', '7', '8', '9'];
    assert(forall|d: int| 0 <= d < 10 ==> (#[trigger] ds[d]) != '-');
    if n >= 10 {
        lemma_decimal_shape(n / 10);
        let p = decimal(n / 10);
        assert forall|k: int| 0 <= k < decimal(n).len() implies (#[trigger] decimal(n)[k]) != '-' by {
            if k < p.len() {
                assert(decimal(n)[k] == p[k]);
            }
        }
    }
}

proof fn lemma_decimal_injective(a: nat, b: nat)
    requires
        decimal(a) == decimal(b),
    ensures
        a == b,
    decreases a,
{
    lemma_decimal_shape(a);
    lemma_decimal_shape(b);
    if a < 10 && b < 10 {
        assert(decimal(a)[0] == digit(a));
        assert(decimal(b)[0] == digit(b));
        lemma_digit_injective(a, b);
    } else if a >= 10 && b >= 10 {
        assert(decimal(a).last() == digit(a % 10));
        assert(decimal(b).last() == digit(b % 10));
        lemma_digit_injective(a % 10, b % 10);
        assert(decimal(a).drop_last() =~= decimal(a / 10));
        assert(decimal(b).drop_last() =~= decimal(b / 10));
        lemma_decimal_injective(a / 10, b / 10);
    }
}

/// Libraries at different positions get different work names, whatever their
/// file names; so no two libraries share an extraction directory or a
/// prelinked object.
pub proof fn lemma_work_names_distinct(i: nat, j: nat, a: Seq<char>, b: Seq<char>)
    requires
        i != j,
    ensures
        work_name(i, a) != work_name(j, b),
{
    lemma_decimal_shape(i);
    lemma_decimal_shape(j);
    let di = decimal(i);
    let dj = decimal(j);
    let wi = work_name(i, a);
    let wj = work_name(j, b);
    if wi == wj {
        if di.len() == dj.len() {
            assert(wi.subrange(0, di.len() as int) =~= di);
            assert(wj.subrange(0, dj.len() as int) =~= dj);
            lemma_decimal_injective(i, j);
        } else if di.len() < dj.len() {
            assert(wi[di.len() as int] == '-');
            assert(wj[di.len() as int] == dj[di.len() as int]);
        } else {
            assert(wj[dj.len() as int] == '-');
            assert(wi[dj.len() as int] == di[dj.len() as int]);
        }
    }
}

pub fn work_name_of(index: usize, name: &String) -> (r: String)
    ensures
        r@ == work_name(index as nat, name@),
{
    let mut out: Vec<char> = Vec::new();
    push_decimal(&mut out, index);
    out.push('-');
    let n = chars_of(name.as_str());
    push_all(&mut out, n.as_slice());
    proof {
        assert(out@ =~= work_name(index as nat, name@));
    }
    string_of(out.as_slice())
}

/// `dir` and `name` joined by a slash.
pub fn path_join(dir: &str, name: &str) -> (r: String)
    ensures
        r@ == dir@ + seq!['/'] + name@,
{
    let mut out = chars_of(dir);
    out.push('/');
    let n = chars_of(name);
    push_all(&mut out, n.as_slice());
    string_of(out.as_slice())
}

/// `a` followed by `b`.
pub fn concat(a: &str, b: &str) -> (r: String)
    ensures
        r@ == a@ + b@,
{
    let mut out = chars_of(a);
    let n = chars_of(b);
    push_all(&mut out, n.as_slice());
    string_of(out.as_slice())
}

} // verus!

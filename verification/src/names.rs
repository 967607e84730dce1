//! Collision-free file naming for downloads.
//!
//! A download's file name is its display title, sanitized for the
//! filesystem, plus the fixed `.zip` extension. When that name is
//! already present in the destination directory, an incrementing
//! numeric suffix (`title_1.zip`, `title_2.zip`, ...) is tried until a
//! free name is found; among a finite set of existing names one of the
//! first `len + 1` candidates is always free.

use crate::text::str_eq;
use vstd::arithmetic::div_mod::{lemma_div_decreases, lemma_fundamental_div_mod};
use vstd::prelude::*;
use vstd::set_lib::lemma_len_subset;
use vstd::string::{StrSliceExecFns, StringExecFns};

verus! {

/// The ASCII digit for a value below ten.
pub open spec fn digit_char(d: nat) -> char
    recommends
        d < 10,
{
    if d == 0 {
        '0'
    } else if d == 1 {
        '1'
    } else if d == 2 {
        '2'
    } else if d == 3 {
        '3'
    } else if d == 4 {
        '4'
    } else if d == 5 {
        '5'
    } else if d == 6 {
        '6'
    } else if d == 7 {
        '7'
    } else if d == 8 {
        '8'
    } else {
        '9'
    }
}

/// The decimal rendering of `n`, most significant digit first, no
/// leading zeros (except for `n == 0` itself).
pub open spec fn spec_decimal(n: nat) -> Seq<char>
    decreases n,
{
    if n < 10 {
        seq![digit_char(n)]
    } else {
        spec_decimal(n / 10).push(digit_char(n % 10))
    }
}

/// A decimal rendering is never empty, and has at least two digits
/// from ten upward.
pub proof fn lemma_decimal_len(n: nat)
    ensures
        spec_decimal(n).len() >= 1,
        n >= 10 ==> spec_decimal(n).len() >= 2,
    decreases n,
{
    if n >= 10 {
        lemma_decimal_len(n / 10);
    }
}

/// Distinct values have distinct decimal renderings.
pub proof fn lemma_decimal_injective(m: nat, n: nat)
    requires
        spec_decimal(m) == spec_decimal(n),
    ensures
        m == n,
    decreases m + n,
{
    lemma_decimal_len(m);
    lemma_decimal_len(n);
    if m < 10 && n < 10 {
        assert(spec_decimal(m)[0] == digit_char(m));
        assert(spec_decimal(n)[0] == digit_char(n));
    } else if m < 10 {
        assert(spec_decimal(m).len() == 1);
    } else if n < 10 {
        assert(spec_decimal(n).len() == 1);
    } else {
        let pm = spec_decimal(m / 10);
        let pn = spec_decimal(n / 10);
        assert(spec_decimal(m).last() == digit_char(m % 10));
        assert(spec_decimal(n).last() == digit_char(n % 10));
        assert(m % 10 == n % 10);
        assert(pm =~= spec_decimal(m).drop_last());
        assert(pn =~= spec_decimal(n).drop_last());
        lemma_div_decreases(m as int, 10);
        lemma_div_decreases(n as int, 10);
        lemma_decimal_injective(m / 10, n / 10);
        lemma_fundamental_div_mod(m as int, 10);
        lemma_fundamental_div_mod(n as int, 10);
    }
}

/// The one-character string for a digit.
fn digit_str(d: u64) -> (r: &'static str)
    requires
        d < 10,
    ensures
        r@ == seq![digit_char(d as nat)],
{
    if d == 0 {
        proof {
            reveal_strlit("0");
            assert("0"@ =~= seq![digit_char(0)]);
        }
        "0"
    } else if d == 1 {
        proof {
            reveal_strlit("1");
            assert("1"@ =~= seq![digit_char(1)]);
        }
        "1"
    } else if d == 2 {
        proof {
            reveal_strlit("2");
            assert("2"@ =~= seq![digit_char(2)]);
        }
        "2"
    } else if d == 3 {
        proof {
            reveal_strlit("3");
            assert("3"@ =~= seq![digit_char(3)]);
        }
        "3"
    } else if d == 4 {
        proof {
            reveal_strlit("4");
            assert("4"@ =~= seq![digit_char(4)]);
        }
        "4"
    } else if d == 5 {
        proof {
            reveal_strlit("5");
            assert("5"@ =~= seq![digit_char(5)]);
        }
        "5"
    } else if d == 6 {
        proof {
            reveal_strlit("6");
            assert("6"@ =~= seq![digit_char(6)]);
        }
        "6"
    } else if d == 7 {
        proof {
            reveal_strlit("7");
            assert("7"@ =~= seq![digit_char(7)]);
        }
        "7"
    } else if d == 8 {
        proof {
            reveal_strlit("8");
            assert("8"@ =~= seq![digit_char(8)]);
        }
        "8"
    } else {
        proof {
            reveal_strlit("9");
            assert("9"@ =~= seq![digit_char(9)]);
        }
        "9"
    }
}

/// Render `n` in decimal.
pub fn u64_to_decimal(n: u64) -> (r: String)
    ensures
        r@ == spec_decimal(n as nat),
    decreases n,
{
    if n < 10 {
        String::from_str(digit_str(n))
    } else {
        proof {
            lemma_div_decreases(n as int, 10);
        }
        let mut prefix = u64_to_decimal(n / 10);
        prefix.append(digit_str(n % 10));
        proof {
            assert(prefix@ =~= spec_decimal((n / 10) as nat).push(digit_char((n % 10) as nat)));
        }
        prefix
    }
}

/// A title character made safe for a file name: path separators
/// become underscores, everything else is kept.
pub open spec fn sanitize_char(c: char) -> char {
    if c == '/' || c == '\\' {
        '_'
    } else {
        c
    }
}

/// The sanitized base name derived from a display title.
pub open spec fn spec_sanitized(title: Seq<char>) -> Seq<char> {
    title.map_values(|c: char| sanitize_char(c))
}

/// Relies on `String::push`: appends the character to the end.
#[verifier::external_body]
fn string_push(s: &mut String, c: char)
    ensures
        final(s)@ == old(s)@.push(c),
{
    s.push(c);
}

/// Sanitize a display title into a filesystem-safe base name.
pub fn sanitize_title(title: &str) -> (r: String)
    ensures
        r@ == spec_sanitized(title@),
{
    let n: usize = title.unicode_len();
    let mut out = String::new();
    let mut i: usize = 0;
    while i < n
        invariant
            i <= n,
            n == title@.len(),
            out@ == title@.subrange(0, i as int).map_values(|c: char| sanitize_char(c)),
        decreases n - i,
    {
        let c = title.get_char(i);
        let kept = if c == '/' || c == '\\' {
            '_'
        } else {
            c
        };
        string_push(&mut out, kept);
        proof {
            assert(title@.subrange(0, (i + 1) as int).map_values(|c: char| sanitize_char(c))
                =~= title@.subrange(0, i as int).map_values(|c: char| sanitize_char(c)).push(
                sanitize_char(title@[i as int]),
            ));
        }
        i = i + 1;
    }
    proof {
        assert(title@.subrange(0, n as int) =~= title@);
    }
    out
}

/// Candidate `k` for a title: the sanitized base plus `.zip`, with
/// `_k` spliced in for every retry after the first attempt.
pub open spec fn spec_candidate(title: Seq<char>, k: nat) -> Seq<char> {
    if k == 0 {
        spec_sanitized(title) + ".zip"@
    } else {
        spec_sanitized(title) + "_"@ + spec_decimal(k) + ".zip"@
    }
}

/// Some existing name equals `name`.
pub open spec fn name_taken(existing: Seq<Seq<char>>, name: Seq<char>) -> bool {
    exists|i: int| 0 <= i < existing.len() && existing[i] == name
}

/// The shape of a retry candidate: its length, and where the decimal
/// suffix sits inside it.
proof fn lemma_candidate_parts(title: Seq<char>, k: nat)
    requires
        k >= 1,
    ensures
        spec_candidate(title, k).len() == spec_sanitized(title).len() + 1 + spec_decimal(k).len()
            + 4,
        forall|i: int|
            0 <= i < spec_decimal(k).len() ==> spec_candidate(title, k)[spec_sanitized(
                title,
            ).len() + 1 + i] == spec_decimal(k)[i],
        spec_candidate(title, 0).len() == spec_sanitized(title).len() + 4,
{
    reveal_strlit("_");
    reveal_strlit(".zip");
    assert("_"@.len() == 1);
    assert(".zip"@.len() == 4);
}

/// Distinct candidate indices give distinct names.
proof fn lemma_candidate_injective(title: Seq<char>, j: nat, k: nat)
    requires
        j < k,
    ensures
        spec_candidate(title, j) != spec_candidate(title, k),
{
    lemma_candidate_parts(title, k);
    lemma_decimal_len(k);
    if j == 0 {
        assert(spec_candidate(title, k).len() > spec_candidate(title, 0).len());
        if spec_candidate(title, j) == spec_candidate(title, k) {
            assert(spec_candidate(title, j).len() == spec_candidate(title, k).len());
        }
    } else {
        lemma_candidate_parts(title, j);
        lemma_decimal_len(j);
        if spec_candidate(title, j) == spec_candidate(title, k) {
            let s = spec_sanitized(title).len() as int;
            assert(spec_decimal(j).len() == spec_decimal(k).len());
            assert forall|i: int| 0 <= i < spec_decimal(j).len() implies spec_decimal(j)[i]
                == spec_decimal(k)[i] by {
                assert(spec_candidate(title, j)[s + 1 + i] == spec_decimal(j)[i]);
                assert(spec_candidate(title, k)[s + 1 + i] == spec_decimal(k)[i]);
            }
            assert(spec_decimal(j) =~= spec_decimal(k));
            lemma_decimal_injective(j, k);
        }
    }
}

/// If the first `count` candidates are all taken, the existing set has
/// at least `count` names: distinct candidates occupy distinct
/// existing entries.
proof fn lemma_candidates_pigeonhole(title: Seq<char>, existing: Seq<Seq<char>>, count: nat)
    requires
        forall|j: nat| j < count ==> name_taken(existing, #[trigger] spec_candidate(title, j)),
    ensures
        count <= existing.len(),
{
    broadcast use vstd::seq_lib::seq_to_set_is_finite;

    let cands = Seq::new(count, |j: int| spec_candidate(title, j as nat));
    assert(cands.no_duplicates()) by {
        assert forall|i: int, j: int|
            0 <= i < cands.len() && 0 <= j < cands.len() && i != j implies cands[i] != cands[j] by {
            if i < j {
                lemma_candidate_injective(title, i as nat, j as nat);
            } else {
                lemma_candidate_injective(title, j as nat, i as nat);
            }
        }
    }
    cands.unique_seq_to_set();
    assert(cands.to_set().subset_of(existing.to_set())) by {
        assert forall|x: Seq<char>| cands.to_set().contains(x) implies existing.to_set().contains(
            x,
        ) by {
            let j = choose|j: int| 0 <= j < cands.len() && cands[j] == x;
            assert(name_taken(existing, spec_candidate(title, j as nat)));
            let i = choose|i: int| 0 <= i < existing.len() && existing[i] == x;
            assert(existing.contains(x));
        }
    }
    lemma_len_subset(cands.to_set(), existing.to_set());
    existing.lemma_cardinality_of_set();
}

/// Whether `name` appears among the existing names.
fn contains_name(existing: &Vec<String>, name: &str) -> (r: bool)
    ensures
        r == name_taken(existing.deep_view(), name@),
{
    let ghost views = existing.deep_view();
    let mut i: usize = 0;
    while i < existing.len()
        invariant
            i <= existing.len(),
            views == existing.deep_view(),
            views.len() == existing.len(),
            forall|j: int| 0 <= j < i ==> views[j] != name@,
        decreases existing.len() - i,
    {
        if str_eq(existing[i].as_str(), name) {
            assert(views[i as int] == name@);
            return true;
        }
        i = i + 1;
    }
    false
}

/// The first free file name for a download titled `title`, given the
/// names already present in the destination directory: the plain
/// `.zip` name if free, otherwise the lowest-numbered retry candidate
/// that no existing name equals.
pub fn next_free_name(title: &str, existing: &Vec<String>) -> (r: String)
    ensures
        !name_taken(existing.deep_view(), r@),
        exists|k: nat|
            r@ == #[trigger] spec_candidate(title@, k) && (forall|j: nat|
                j < k ==> name_taken(existing.deep_view(), #[trigger] spec_candidate(title@, j))),
{
    let ghost views = existing.deep_view();
    let base = sanitize_title(title);
    let first = base.clone().concat(".zip");
    if !contains_name(existing, first.as_str()) {
        proof {
            assert(first@ == spec_candidate(title@, 0));
        }
        return first;
    }
    let n: u64 = existing.len() as u64;
    let mut k: u64 = 1;
    loop
        invariant
            1 <= k,
            base@ == spec_sanitized(title@),
            views == existing.deep_view(),
            n == views.len(),
            k <= n + 1,
            forall|j: nat| j < k ==> name_taken(views, #[trigger] spec_candidate(title@, j)),
        decreases n + 1 - k,
    {
        let digits = u64_to_decimal(k);
        let cand = base.clone().concat("_").concat(digits.as_str()).concat(".zip");
        proof {
            assert(cand@ == spec_candidate(title@, k as nat));
        }
        if !contains_name(existing, cand.as_str()) {
            return cand;
        }
        proof {
            assert forall|j: nat| j < k + 1 implies name_taken(
                views,
                #[trigger] spec_candidate(title@, j),
            ) by {
                if j == k {
                    assert(name_taken(views, cand@));
                }
            }
            lemma_candidates_pigeonhole(title@, views, (k + 1) as nat);
        }
        k = k + 1;
    }
}

} // verus!

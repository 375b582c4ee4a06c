use vstd::prelude::*;
use vstd::string::*;
use crate::database::sym_ops_order::{texts_of, ORDER_12, ORDER_24, ORDER_48};
use crate::hall_symbols::general_positions::ops_of;
use crate::hall_symbols::matrix_symbol::matrices::jones_faithful::rotation_text;
use crate::hall_symbols::matrix_symbol::matrices::{AffineOp, IntMatrix, SeitzMatrix};
use crate::hall_symbols::matrix_symbol::notations::{NFold, NFoldDiag};
use crate::hall_symbols::matrix_symbol::MatrixSymbolView;
use crate::hall_symbols::closure::{
    is_closed, is_coset_list, is_known, known_at, same_coset,
};
use crate::hall_symbols::scan::chars_of;
use crate::hall_symbols::translation_symbol::IntVector;

verus! {

/// The reference order that goes with the first generator of a symbol: the
/// hexagonal one for a six-fold or a three-fold axis, the rhombohedral one
/// for a three-fold axis along the body diagonal, the cubic one for every
/// other.
pub open spec fn reference_order(first: MatrixSymbolView) -> Seq<Seq<char>> {
    match first.nfold_body {
        NFold::N6 => texts_of(ORDER_24@),
        NFold::N3 => match first.nfold_diag {
            NFoldDiag::Asterisk => texts_of(ORDER_12@),
            _ => texts_of(ORDER_24@),
        },
        _ => texts_of(ORDER_48@),
    }
}

/// The first place from `from` on at which the table holds `text`; the
/// length of the table where it holds it nowhere.
pub open spec fn rank_from(table: Seq<Seq<char>>, text: Seq<char>, from: int) -> int
    decreases table.len() - from,
{
    if from < 0 || from >= table.len() {
        table.len() as int
    } else if table[from] == text {
        from
    } else {
        rank_from(table, text, from + 1)
    }
}

/// The place of the linear part of `m` in the table.
pub open spec fn rank_of(table: Seq<Seq<char>>, m: AffineOp) -> int {
    rank_from(table, rotation_text(m.rot), 0)
}

/// The table holds the linear part `r`, whose entries are -1, 0 or 1.
pub open spec fn in_reference(table: Seq<Seq<char>>, r: IntMatrix) -> bool {
    r.is_unit_entries() && rank_from(table, rotation_text(r), 0) < table.len()
}

/// `out` holds the entries of `list`, entry `i` of `out` being entry
/// `origin[i]` of `list`, in the order of the table, and entries of one
/// place in the table in the order of `list`.
pub open spec fn is_arrangement(
    table: Seq<Seq<char>>,
    list: Seq<AffineOp>,
    out: Seq<AffineOp>,
    origin: Seq<int>,
) -> bool {
    &&& out.len() == list.len()
    &&& origin.len() == list.len()
    &&& forall|i: int|
        0 <= i < out.len() ==> 0 <= #[trigger] origin[i] < list.len() && out[i] == list[origin[i]]
    &&& forall|k: int| 0 <= k < list.len() ==> #[trigger] placed(origin, k)
    &&& forall|i: int, j: int|
        0 <= i < j < out.len() ==> #[trigger] comes_before(table, list, origin[i], origin[j])
}

/// `out` holds the entries of `list` in the order of the table, entries
/// of one place in the table in the order of `list`.
pub open spec fn is_arranged(table: Seq<Seq<char>>, list: Seq<AffineOp>, out: Seq<AffineOp>) -> bool {
    exists|origin: Seq<int>| #[trigger] is_arrangement(table, list, out, origin)
}

/// Some entry of `origin` is `k`.
pub open spec fn placed(origin: Seq<int>, k: int) -> bool {
    exists|i: int| 0 <= i < origin.len() && #[trigger] origin[i] == k
}

/// Entry `a` of the list is to stand before entry `b`: its place in the
/// table is earlier, or the same with `a` before `b`.
pub open spec fn comes_before(table: Seq<Seq<char>>, list: Seq<AffineOp>, a: int, b: int) -> bool {
    rank_of(table, list[a]) < rank_of(table, list[b]) || (rank_of(table, list[a]) == rank_of(
        table,
        list[b],
    ) && a < b)
}

/// `rank_from` gives a place from `from` on, or the length of the table.
pub proof fn lemma_rank_from(table: Seq<Seq<char>>, text: Seq<char>, from: int)
    requires
        0 <= from <= table.len(),
    ensures
        from <= rank_from(table, text, from) <= table.len(),
        rank_from(table, text, from) < table.len() ==> table[rank_from(table, text, from)] == text,
    decreases table.len() - from,
{
    if from < table.len() && table[from] != text {
        lemma_rank_from(table, text, from + 1);
    }
}

/// The identity comes first in every reference order.
pub proof fn lemma_identity_first(first: MatrixSymbolView)
    ensures
        rank_of(reference_order(first), AffineOp::identity()) == 0,
        reference_order(first).len() > 0,
{
    reveal_strlit("x,y,z");
    let text = rotation_text(IntMatrix::identity());
    assert(text =~= "x,y,z"@);
    assert(ORDER_48@[0]@ == "x,y,z"@);
    assert(ORDER_24@[0]@ == "x,y,z"@);
    assert(ORDER_12@[0]@ == "x,y,z"@);
    let table = reference_order(first);
    assert(table[0] == text);
}

/// Whether two texts are the same.
pub fn same_chars(a: &Vec<char>, b: &Vec<char>) -> (r: bool)
    ensures
        r == (a@ == b@),
{
    if a.len() != b.len() {
        return false;
    }
    let mut i: usize = 0;
    while i < a.len()
        invariant
            0 <= i <= a.len(),
            a.len() == b.len(),
            forall|k: int| 0 <= k < i ==> a@[k] == b@[k],
        decreases a.len() - i,
    {
        if a[i] != b[i] {
            return false;
        }
        i = i + 1;
    }
    assert(a@ =~= b@);
    true
}

/// The texts of a table, character by character.
pub fn table_chars(table: &Vec<&'static str>) -> (r: Vec<Vec<char>>)
    ensures
        r@.len() == table@.len(),
        forall|i: int| 0 <= i < r@.len() ==> (#[trigger] r@[i])@ == table@[i]@,
{
    let mut r: Vec<Vec<char>> = Vec::new();
    let mut i: usize = 0;
    while i < table.len()
        invariant
            0 <= i <= table.len(),
            r@.len() == i,
            forall|k: int| 0 <= k < i ==> (#[trigger] r@[k])@ == table@[k]@,
        decreases table.len() - i,
    {
        r.push(chars_of(table[i]));
        i = i + 1;
    }
    r
}

/// The place of the linear part of `m` in the table.
pub(crate) fn rank_in_table(
    table: &Vec<Vec<char>>,
    Ghost(texts): Ghost<Seq<Seq<char>>>,
    m: &SeitzMatrix,
)
    -> (r: usize)
    requires
        texts.len() == table@.len(),
        forall|i: int| 0 <= i < table@.len() ==> (#[trigger] table@[i])@ == texts[i],
    ensures
        r == rank_of(texts, m@),
        r <= table@.len(),
{
    let text = m.jones_faithful_repr_rot();
    let chars = chars_of(text.as_str());
    let mut i: usize = 0;
    while i < table.len()
        invariant
            0 <= i <= table.len(),
            texts.len() == table@.len(),
            forall|k: int| 0 <= k < table@.len() ==> (#[trigger] table@[k])@ == texts[k],
            chars@ == rotation_text(m@.rot),
            rank_from(texts, chars@, i as int) == rank_from(texts, chars@, 0),
        decreases table.len() - i,
    {
        if same_chars(&table[i], &chars) {
            return i;
        }
        i = i + 1;
    }
    i
}

/// Arranges the operations in the order of the table, keeping the order
/// of those that share a place in it.  Gives back the first operation
/// whose linear part the table lacks, should there be one.
#[verifier::rlimit(60)]
pub(crate) fn arrange_by_reference(list: &Vec<SeitzMatrix>, table: &Vec<&'static str>) -> (r: Result<
    (Vec<SeitzMatrix>, Ghost<Seq<int>>),
    SeitzMatrix,
>)
    ensures
        match r {
            Ok((out, origin)) => is_arrangement(
                texts_of(table@),
                ops_of(list@),
                ops_of(out@),
                origin@,
            ) && forall|k: int|
                0 <= k < list@.len() ==> rank_of(texts_of(table@), #[trigger] ops_of(list@)[k])
                    < table@.len(),
            Err(m) => exists|k: int|
                0 <= k < list@.len() && #[trigger] list@[k] == m && rank_of(
                    texts_of(table@),
                    m@,
                ) == table@.len() && forall|j: int|
                    0 <= j < k ==> rank_of(texts_of(table@), #[trigger] ops_of(list@)[j])
                        < table@.len(),
        },
{
    let ghost texts = texts_of(table@);
    let ghost ops = ops_of(list@);
    let chars = table_chars(table);
    let mut out: Vec<SeitzMatrix> = Vec::new();
    let mut keys: Vec<usize> = Vec::new();
    let ghost mut origin: Seq<int> = Seq::empty();
    let mut k: usize = 0;
    while k < list.len()
        invariant
            0 <= k <= list.len(),
            texts == texts_of(table@),
            ops == ops_of(list@),
            chars@.len() == table@.len(),
            forall|i: int| 0 <= i < chars@.len() ==> (#[trigger] chars@[i])@ == texts[i],
            out@.len() == k,
            keys@.len() == k,
            origin.len() == k,
            forall|i: int|
                0 <= i < k ==> 0 <= #[trigger] origin[i] < k && out@[i] == list@[origin[i]]
                    && keys@[i] == rank_of(texts, ops[origin[i]]),
            forall|a: int| 0 <= a < k ==> #[trigger] placed(origin, a),
            forall|a: int| 0 <= a < k ==> rank_of(texts, #[trigger] ops[a]) < table@.len(),
            forall|i: int, j: int|
                0 <= i < j < k ==> #[trigger] comes_before(texts, ops, origin[i], origin[j]),
        decreases list.len() - k,
    {
        let m = list[k];
        let key = rank_in_table(&chars, Ghost(texts), &m);
        if key >= table.len() {
            return Err(m);
        }
        let mut p: usize = out.len();
        while p > 0 && keys[p - 1] > key
            invariant
                0 <= p <= k,
                keys@.len() == k,
                forall|i: int| p <= i < k ==> keys@[i] > key,
            decreases p,
        {
            p = p - 1;
        }
        let ghost old_origin = origin;
        let ghost old_out = out@;
        let ghost old_keys = keys@;
        out.insert(p, m);
        keys.insert(p, key);
        proof {
            origin = old_origin.insert(p as int, k as int);
            old_origin.insert_ensures(p as int, k as int);
            old_out.insert_ensures(p as int, m);
            old_keys.insert_ensures(p as int, key);
            assert forall|i: int| 0 <= i < k + 1 implies 0 <= #[trigger] origin[i] < k + 1
                && out@[i] == list@[origin[i]] && keys@[i] == rank_of(texts, ops[origin[i]]) by {
                if i < p {
                    assert(origin[i] == old_origin[i]);
                } else if i > p {
                    assert(origin[i] == old_origin[i - 1]);
                }
            }
            assert forall|a: int| 0 <= a < k + 1 implies #[trigger] placed(origin, a) by {
                if a == k {
                    assert(origin[p as int] == a);
                } else {
                    assert(placed(old_origin, a));
                    let i = choose|i: int| 0 <= i < old_origin.len() && #[trigger] old_origin[i] == a;
                    if i < p {
                        assert(origin[i] == a);
                    } else {
                        assert(origin[i + 1] == a);
                    }
                }
            }
            assert forall|i: int, j: int| 0 <= i < j < k + 1 implies #[trigger] comes_before(
                texts,
                ops,
                origin[i],
                origin[j],
            ) by {
                let oi = if i < p {
                    i
                } else {
                    i - 1
                };
                let oj = if j < p {
                    j
                } else {
                    j - 1
                };
                if i == p {
                    assert(origin[j] == old_origin[oj]);
                    assert(old_keys[oj] > key);
                } else if j == p {
                    assert(origin[i] == old_origin[oi]);
                    if p > 0 {
                        assert(old_keys[p - 1] <= key);
                        if oi < p - 1 {
                            assert(comes_before(texts, ops, old_origin[oi], old_origin[p - 1]));
                        }
                    }
                } else {
                    assert(origin[i] == old_origin[oi]);
                    assert(origin[j] == old_origin[oj]);
                    assert(comes_before(texts, ops, old_origin[oi], old_origin[oj]));
                }
            }
        }
        k = k + 1;
    }
    proof {
        assert forall|i: int| 0 <= i < out@.len() implies 0 <= #[trigger] origin[i] < ops.len()
            && ops_of(out@)[i] == ops[origin[i]] by {
            assert(out@[i] == list@[origin[i]]);
        }
    }
    Ok((out, Ghost(origin)))
}

/// The reference order as a list of texts.
pub fn order_table(first_fold: NFold, first_diag: NFoldDiag) -> (r: Vec<&'static str>)
    ensures
        texts_of(r@) == (match first_fold {
            NFold::N6 => texts_of(ORDER_24@),
            NFold::N3 => match first_diag {
                NFoldDiag::Asterisk => texts_of(ORDER_12@),
                _ => texts_of(ORDER_24@),
            },
            _ => texts_of(ORDER_48@),
        }),
{
    let mut r: Vec<&'static str> = Vec::new();
    match first_fold {
        NFold::N6 => {
            copy_24(&mut r);
        },
        NFold::N3 => match first_diag {
            NFoldDiag::Asterisk => {
                let mut i: usize = 0;
                while i < 12
                    invariant
                        0 <= i <= 12,
                        r@.len() == i,
                        forall|k: int| 0 <= k < i ==> r@[k] == ORDER_12@[k],
                    decreases 12 - i,
                {
                    r.push(ORDER_12[i]);
                    i = i + 1;
                }
                assert(texts_of(r@) =~= texts_of(ORDER_12@));
            },
            _ => {
                copy_24(&mut r);
            },
        },
        _ => {
            let mut i: usize = 0;
            while i < 48
                invariant
                    0 <= i <= 48,
                    r@.len() == i,
                    forall|k: int| 0 <= k < i ==> r@[k] == ORDER_48@[k],
                decreases 48 - i,
            {
                r.push(ORDER_48[i]);
                i = i + 1;
            }
            assert(texts_of(r@) =~= texts_of(ORDER_48@));
        },
    }
    r
}

/// Fills an empty list with the hexagonal reference order.
fn copy_24(r: &mut Vec<&'static str>)
    requires
        old(r)@.len() == 0,
    ensures
        texts_of(final(r)@) == texts_of(ORDER_24@),
{
    let mut i: usize = 0;
    while i < 24
        invariant
            0 <= i <= 24,
            r@.len() == i,
            forall|k: int| 0 <= k < i ==> r@[k] == ORDER_24@[k],
        decreases 24 - i,
    {
        r.push(ORDER_24[i]);
        i = i + 1;
    }
    assert(texts_of(r@) =~= texts_of(ORDER_24@));
}

/// What the list knows its arrangement knows.
pub proof fn lemma_arrangement_keeps_known(
    table: Seq<Seq<char>>,
    lat: Seq<IntVector>,
    list: Seq<AffineOp>,
    out: Seq<AffineOp>,
    origin: Seq<int>,
    m: AffineOp,
)
    requires
        is_arrangement(table, list, out, origin),
        is_known(lat, list, m),
    ensures
        is_known(lat, out, m),
{
    let k = choose|k: int| #[trigger] known_at(lat, list, m, k);
    assert(placed(origin, k));
    let i = choose|i: int| 0 <= i < origin.len() && #[trigger] origin[i] == k;
    assert(out[i] == list[k]);
    assert(known_at(lat, out, m, i));
}

/// The arrangement of a coset list is one, closed if the list is, and in
/// the order of the table.
pub proof fn lemma_arrangement_keeps_cosets(
    table: Seq<Seq<char>>,
    lat: Seq<IntVector>,
    list: Seq<AffineOp>,
    out: Seq<AffineOp>,
    origin: Seq<int>,
)
    requires
        is_arrangement(table, list, out, origin),
        is_coset_list(lat, list),
    ensures
        is_coset_list(lat, out),
        is_closed(lat, list) ==> is_closed(lat, out),
        forall|i: int, j: int|
            0 <= i < j < out.len() ==> rank_of(table, #[trigger] out[i]) <= rank_of(
                table,
                #[trigger] out[j],
            ),
{
    assert forall|i: int, j: int|
        0 <= i < out.len() && 0 <= j < out.len() && i != j implies !same_coset(
        lat,
        #[trigger] out[i],
        #[trigger] out[j],
    ) by {
        if i < j {
            assert(comes_before(table, list, origin[i], origin[j]));
        } else {
            assert(comes_before(table, list, origin[j], origin[i]));
        }
        assert(out[i] == list[origin[i]]);
        assert(out[j] == list[origin[j]]);
    }
    assert forall|k: int| 0 <= k < out.len() implies (#[trigger] out[k]).tr.is_reduced()
        && out[k].rot.is_unit_entries() by {
        assert(out[k] == list[origin[k]]);
    }
    if is_closed(lat, list) {
        assert forall|i: int, j: int| 0 <= i < out.len() && 0 <= j < out.len() implies is_known(
            lat,
            out,
            #[trigger] out[i].compose(out[j]),
        ) by {
            assert(out[i] == list[origin[i]]);
            assert(out[j] == list[origin[j]]);
            assert(is_known(lat, list, list[origin[i]].compose(list[origin[j]])));
            lemma_arrangement_keeps_known(table, lat, list, out, origin, out[i].compose(out[j]));
        }
    }
    assert forall|i: int, j: int| 0 <= i < j < out.len() implies rank_of(table, #[trigger] out[i])
        <= rank_of(table, #[trigger] out[j]) by {
        assert(comes_before(table, list, origin[i], origin[j]));
        assert(out[i] == list[origin[i]]);
        assert(out[j] == list[origin[j]]);
    }
}

/// The first entry of a list stays first in its arrangement if nothing
/// comes before it in the table.
pub proof fn lemma_arrangement_keeps_first(
    table: Seq<Seq<char>>,
    list: Seq<AffineOp>,
    out: Seq<AffineOp>,
    origin: Seq<int>,
)
    requires
        is_arrangement(table, list, out, origin),
        list.len() > 0,
        rank_of(table, list[0]) == 0,
        forall|k: int| 0 <= k < list.len() ==> 0 <= rank_of(table, #[trigger] list[k]),
    ensures
        out[0] == list[0],
{
    assert(placed(origin, 0));
    let i = choose|i: int| 0 <= i < origin.len() && #[trigger] origin[i] == 0;
    if i > 0 {
        assert(comes_before(table, list, origin[0], origin[i]));
        assert(0 <= rank_of(table, list[origin[0]]));
    }
}

} // verus!

//! The records kept in the image database and the decisions made before a query is sent.

use vstd::prelude::*;
use crate::hashes::{HexString, PHashHexString};
use crate::hamming::{
    HammingError, calculate_hamming_distance, distance_fits, hamming_error_is, phash_distance,
};
use crate::stats::{ComparisonEvent, Stats};

verus! {

/// A row of the `image_hashes` table.
#[derive(Debug, Clone)]
pub struct ImageRecord {
    pub crypto_hash: HexString,
    pub p_hash: PHashHexString,
    pub id: i64,
    pub file_path: String,
    pub created_at: String,
}

/// A candidate image (id and perceptual hash) to compare against another image's hash.
pub struct PHashEntry(pub i64, pub PHashHexString);

/// A similar image: its id, its file name and its Hamming distance from the image asked about.
pub struct SimilarEntry(pub i64, pub String, pub i64);

/// The key under which a comparison of two images is stored: the smaller id first, as the
/// table's `CHECK (image_id_1 < image_id_2)` requires.
pub open spec fn comparison_key_spec(image_id_1: i64, image_id_2: i64) -> (i64, i64) {
    if image_id_1 < image_id_2 {
        (image_id_1, image_id_2)
    } else {
        (image_id_2, image_id_1)
    }
}

/// Orders the pair of image ids of a comparison, smaller first.
pub fn comparison_key(image_id_1: i64, image_id_2: i64) -> (key: (i64, i64))
    ensures
        key == comparison_key_spec(image_id_1, image_id_2),
{
    if image_id_1 < image_id_2 {
        (image_id_1, image_id_2)
    } else {
        (image_id_2, image_id_1)
    }
}

/// A comparison of two images is stored under one key whichever image it started from, and
/// that key holds the smaller id first.
pub proof fn law_comparison_key_symmetric(image_id_1: i64, image_id_2: i64)
    ensures
        comparison_key_spec(image_id_1, image_id_2) == comparison_key_spec(image_id_2, image_id_1),
        comparison_key_spec(image_id_1, image_id_2).0 <= comparison_key_spec(
            image_id_1,
            image_id_2,
        ).1,
{
}

/// What comparing one image with a candidate comes to: the key and distance to store, or why
/// the two hashes cannot be compared.
pub type PlannedComparison = Result<((i64, i64), usize), HammingError>;

/// `item` is what comparing image `image_id` (hash `phash`) with candidate `entry_id` (hash
/// `entry_hash`) comes to.
pub open spec fn planned_as(
    image_id: i64,
    phash: Seq<char>,
    entry_id: i64,
    entry_hash: Seq<char>,
    item: PlannedComparison,
) -> bool {
    match item {
        Ok((key, d)) => key == comparison_key_spec(image_id, entry_id) && phash_distance(
            phash,
            entry_hash,
        ) == Some(d as nat),
        Err(e) => phash_distance(phash, entry_hash) is None && hamming_error_is(
            phash,
            entry_hash,
            e,
        ),
    }
}

/// Compares an image with each candidate, in order: for each, the key under which the
/// comparison is stored and the Hamming distance, or why the hashes cannot be compared (such a
/// pair has nothing to store).
pub fn plan_comparisons(image_id: i64, phash: &PHashHexString, entries: &Vec<PHashEntry>) -> (plan:
    Vec<PlannedComparison>)
    requires
        forall|i: int| 0 <= i < entries@.len() ==> distance_fits(phash@, #[trigger] entries@[i].1@),
    ensures
        plan@.len() == entries@.len(),
        forall|i: int|
            0 <= i < entries@.len() ==> planned_as(
                image_id,
                phash@,
                entries@[i].0,
                entries@[i].1@,
                #[trigger] plan@[i],
            ),
{
    let mut plan: Vec<PlannedComparison> = Vec::new();
    let mut i: usize = 0;
    while i < entries.len()
        invariant
            i <= entries@.len(),
            plan@.len() == i,
            forall|j: int| 0 <= j < entries@.len() ==> distance_fits(phash@, #[trigger] entries@[j].1@),
            forall|j: int|
                0 <= j < i ==> planned_as(
                    image_id,
                    phash@,
                    entries@[j].0,
                    entries@[j].1@,
                    #[trigger] plan@[j],
                ),
        decreases entries@.len() - i,
    {
        let entry = &entries[i];
        let item = match calculate_hamming_distance(phash, &entry.1) {
            Ok(d) => Ok((comparison_key(image_id, entry.0), d)),
            Err(e) => Err(e),
        };
        plan.push(item);
        i = i + 1;
    }
    plan
}

/// The comparison event for a planned comparison: hashes that could not be compared, or a
/// comparison that was stored or failed to be stored.
pub open spec fn planned_event(item: PlannedComparison, stored: bool) -> ComparisonEvent {
    match item {
        Err(_) => ComparisonEvent::Incomparable,
        Ok(_) => if stored {
            ComparisonEvent::Recorded
        } else {
            ComparisonEvent::RecordFailed
        },
    }
}

/// The event to count for a planned comparison, given whether storing it succeeded (a pair
/// that could not be compared is not stored).
pub fn planned_outcome(item: &PlannedComparison, stored: bool) -> (event: ComparisonEvent)
    ensures
        event == planned_event(*item, stored),
{
    match item {
        Err(_) => ComparisonEvent::Incomparable,
        Ok(_) => if stored {
            ComparisonEvent::Recorded
        } else {
            ComparisonEvent::RecordFailed
        },
    }
}

/// The counters after counting the first `n` planned comparisons, `stored[i]` saying whether
/// the `i`th was stored.
pub open spec fn after_plan(
    s: Stats,
    plan: Seq<PlannedComparison>,
    stored: Seq<bool>,
    n: nat,
) -> Stats
    decreases n,
{
    if n == 0 {
        s
    } else {
        after_plan(s, plan, stored, (n - 1) as nat).after_comparison(
            planned_event(plan[n - 1], stored[n - 1]),
        )
    }
}

/// How many of the first `n` planned comparisons could not be compared.
pub open spec fn incomparable_count(plan: Seq<PlannedComparison>, n: nat) -> nat
    decreases n,
{
    if n == 0 {
        0
    } else {
        incomparable_count(plan, (n - 1) as nat) + if plan[n - 1] is Err {
            1nat
        } else {
            0nat
        }
    }
}

/// Comparing an image with its candidates counts each candidate exactly once: the comparisons
/// performed, comparison errors and database errors together grow by the number of
/// candidates, and the comparison errors by the number of pairs that could not be compared.
pub proof fn law_each_candidate_counted_once(
    s: Stats,
    plan: Seq<PlannedComparison>,
    stored: Seq<bool>,
    n: nat,
)
    requires
        n <= plan.len(),
        n <= stored.len(),
        s.comparisons_performed + n <= u64::MAX,
        s.comparison_errors + n <= u64::MAX,
        s.database_errors + n <= u64::MAX,
    ensures
        after_plan(s, plan, stored, n).comparisons_performed + after_plan(
            s,
            plan,
            stored,
            n,
        ).comparison_errors + after_plan(s, plan, stored, n).database_errors
            == s.comparisons_performed + s.comparison_errors + s.database_errors + n,
        after_plan(s, plan, stored, n).comparison_errors == s.comparison_errors
            + incomparable_count(plan, n),
        after_plan(s, plan, stored, n).comparisons_performed <= s.comparisons_performed + n,
        after_plan(s, plan, stored, n).comparison_errors <= s.comparison_errors + n,
        after_plan(s, plan, stored, n).database_errors <= s.database_errors + n,
    decreases n,
{
    if n > 0 {
        law_each_candidate_counted_once(s, plan, stored, (n - 1) as nat);
    }
}

/// The keys under which comparisons between the images `ids` are stored: one for every pair
/// of different positions, in either order.
pub open spec fn comparison_keys(ids: Seq<i64>) -> Set<(i64, i64)> {
    Set::new(
        |k: (i64, i64)|
            exists|i: int, j: int|
                0 <= i < ids.len() && 0 <= j < ids.len() && i != j
                    && #[trigger] comparison_key_spec(ids[i], ids[j]) == k,
    )
}

/// The keys of comparisons between `x` and each of `ids`.
pub open spec fn row_keys(x: i64, ids: Seq<i64>) -> Set<(i64, i64)> {
    Set::new(
        |k: (i64, i64)|
            exists|j: int| 0 <= j < ids.len() && #[trigger] comparison_key_spec(x, ids[j]) == k,
    )
}

proof fn lemma_row_keys_len(x: i64, ids: Seq<i64>)
    requires
        ids.no_duplicates(),
        !ids.contains(x),
    ensures
        row_keys(x, ids).finite(),
        row_keys(x, ids).len() == ids.len(),
    decreases ids.len(),
{
    if ids.len() == 0 {
        assert(row_keys(x, ids) =~= Set::empty());
    } else {
        let rest = ids.drop_last();
        let y = ids.last();
        assert(!rest.contains(x)) by {
            if rest.contains(x) {
                let j = choose|j: int| 0 <= j < rest.len() && rest[j] == x;
                assert(ids[j] == x);
            }
        }
        assert(rest.no_duplicates());
        lemma_row_keys_len(x, rest);
        assert(row_keys(x, ids) =~= row_keys(x, rest).insert(comparison_key_spec(x, y))) by {
            assert forall|k: (i64, i64)| row_keys(x, ids).contains(k) implies row_keys(
                x,
                rest,
            ).insert(comparison_key_spec(x, y)).contains(k) by {
                let j = choose|j: int|
                    0 <= j < ids.len() && #[trigger] comparison_key_spec(x, ids[j]) == k;
                if j < rest.len() {
                    assert(comparison_key_spec(x, rest[j]) == k);
                }
            }
            assert forall|k: (i64, i64)| row_keys(x, rest).insert(
                comparison_key_spec(x, y),
            ).contains(k) implies row_keys(x, ids).contains(k) by {
                if k == comparison_key_spec(x, y) {
                    assert(comparison_key_spec(x, ids[ids.len() - 1]) == k);
                } else {
                    let j = choose|j: int|
                        0 <= j < rest.len() && #[trigger] comparison_key_spec(x, rest[j]) == k;
                    assert(comparison_key_spec(x, ids[j]) == k);
                }
            }
        }
        assert(!row_keys(x, rest).contains(comparison_key_spec(x, y))) by {
            if row_keys(x, rest).contains(comparison_key_spec(x, y)) {
                let j = choose|j: int|
                    0 <= j < rest.len() && #[trigger] comparison_key_spec(x, rest[j])
                        == comparison_key_spec(x, y);
                assert(rest[j] == y);
                assert(ids[j] == ids[ids.len() - 1]);
            }
        }
    }
}

proof fn lemma_comparison_keys_step(ids: Seq<i64>)
    requires
        ids.len() > 0,
        ids.no_duplicates(),
    ensures
        comparison_keys(ids) == comparison_keys(ids.drop_last()) + row_keys(
            ids.last(),
            ids.drop_last(),
        ),
        comparison_keys(ids.drop_last()).disjoint(row_keys(ids.last(), ids.drop_last())),
{
    let rest = ids.drop_last();
    let x = ids.last();
    let n = ids.len() - 1;
    assert forall|k: (i64, i64)| comparison_keys(ids).contains(k) implies (comparison_keys(rest)
        + row_keys(x, rest)).contains(k) by {
        let (i, j) = choose|i: int, j: int|
            0 <= i < ids.len() && 0 <= j < ids.len() && i != j
                && #[trigger] comparison_key_spec(ids[i], ids[j]) == k;
        if i < n && j < n {
            assert(comparison_key_spec(rest[i], rest[j]) == k);
        } else if i == n {
            assert(comparison_key_spec(x, rest[j]) == k);
        } else {
            assert(comparison_key_spec(x, rest[i]) == k);
        }
    }
    assert forall|k: (i64, i64)| (comparison_keys(rest) + row_keys(x, rest)).contains(
        k,
    ) implies comparison_keys(ids).contains(k) by {
        if comparison_keys(rest).contains(k) {
            let (i, j) = choose|i: int, j: int|
                0 <= i < rest.len() && 0 <= j < rest.len() && i != j
                    && #[trigger] comparison_key_spec(rest[i], rest[j]) == k;
            assert(comparison_key_spec(ids[i], ids[j]) == k);
        } else {
            let j = choose|j: int|
                0 <= j < rest.len() && #[trigger] comparison_key_spec(x, rest[j]) == k;
            assert(comparison_key_spec(ids[n], ids[j]) == k);
        }
    }
    assert(comparison_keys(ids) =~= comparison_keys(rest) + row_keys(x, rest));
    assert forall|k: (i64, i64)| #[trigger] comparison_keys(rest).contains(k) implies !row_keys(
        x,
        rest,
    ).contains(k) by {
        let (i, j) = choose|i: int, j: int|
            0 <= i < rest.len() && 0 <= j < rest.len() && i != j
                && #[trigger] comparison_key_spec(rest[i], rest[j]) == k;
        if row_keys(x, rest).contains(k) {
            let m = choose|m: int|
                0 <= m < rest.len() && #[trigger] comparison_key_spec(x, rest[m]) == k;
            assert(k.0 == x || k.1 == x);
            assert(ids[i] == x || ids[j] == x);
        }
    }
}

/// Comparisons among `N` different images are stored under exactly `N(N-1)/2` keys: one per
/// unordered pair, so a complete comparison table holds N(N-1)/2 rows.
pub proof fn law_comparison_key_count(ids: Seq<i64>)
    requires
        ids.no_duplicates(),
    ensures
        comparison_keys(ids).finite(),
        comparison_keys(ids).len() == ids.len() * (ids.len() - 1) / 2,
    decreases ids.len(),
{
    if ids.len() == 0 {
        assert(comparison_keys(ids) =~= Set::empty());
    } else {
        let rest = ids.drop_last();
        let x = ids.last();
        assert(rest.no_duplicates());
        assert(!rest.contains(x)) by {
            if rest.contains(x) {
                let j = choose|j: int| 0 <= j < rest.len() && rest[j] == x;
                assert(ids[j] == x);
            }
        }
        law_comparison_key_count(rest);
        lemma_row_keys_len(x, rest);
        lemma_comparison_keys_step(ids);
        vstd::set_lib::lemma_set_disjoint_lens(comparison_keys(rest), row_keys(x, rest));
        let m = rest.len();
        assert(m * (m - 1) / 2 + m == (m + 1) * m / 2) by (nonlinear_arith);
    }
}

/// The query for all comparisons of one image, up to the sort direction.
pub const COMPARISONS_QUERY_HEAD: &'static str =
    "SELECT ih.id AS id, ih.file_path AS name, p.hamming_distance as hamming_distance
        FROM phash_comparisons AS p
        INNER JOIN image_hashes AS ih
           ON ih.id = CASE WHEN p.image_id_1 = ?1 THEN p.image_id_2 ELSE p.image_id_1 END
        WHERE p.image_id_1 = ?1 OR p.image_id_2 = ?1
        ORDER BY p.hamming_distance ";

/// What follows the sort direction in the comparisons query.
pub const COMPARISONS_QUERY_TAIL: &'static str = ";
        ";

/// The SQL sort direction: ascending lists the most similar images first.
pub fn comparison_order(order_asc: bool) -> (order: &'static str)
    ensures
        order@ == (if order_asc {
            "ASC"@
        } else {
            "DESC"@
        }),
{
    if order_asc {
        "ASC"
    } else {
        "DESC"
    }
}

/// The query that lists the images compared with `?1`, with the file name and distance of
/// each, sorted by distance in the direction asked for.
pub fn image_comparisons_query(order_asc: bool) -> (query: String)
    ensures
        query@ == COMPARISONS_QUERY_HEAD@ + (if order_asc {
            "ASC"@
        } else {
            "DESC"@
        }) + COMPARISONS_QUERY_TAIL@,
{
    let head = String::from_str(COMPARISONS_QUERY_HEAD);
    head.concat(comparison_order(order_asc)).concat(COMPARISONS_QUERY_TAIL)
}

} // verus!

//! Visual similarity: a 64-bit difference hash of a picture, the Hamming distance between
//! hashes, and the ranking of earlier imports that look alike.
use vstd::prelude::*;
use vstd::arithmetic::power2::{pow2, lemma2_to64, lemma_pow2_unfold, lemma_pow2_strictly_increases};
use crate::text::{is_text_less, same_text, text_less, lemma_text_less_irreflexive, lemma_text_less_transitive, lemma_text_less_total};

verus! {

/// Columns of the luminance grid that the difference hash compares.
pub const GRID_WIDTH: u32 = 9;

/// Rows of the luminance grid.
pub const GRID_HEIGHT: u32 = 8;

/// The largest Hamming distance at which two pictures count as similar.
pub const SIMILARITY_THRESHOLD: u32 = 10;

/// How many similar imports a review shows.
pub const SIMILARITY_LIMIT: usize = 3;

/// Comparison `k` of the hash (row `k / 8`, column `k % 8`): whether a pixel is brighter than
/// its right neighbour in the 9-by-8 grid.
pub open spec fn dhash_bit(grid: Seq<u8>, k: int) -> bool {
    grid[9 * (k / 8) + k % 8] > grid[9 * (k / 8) + k % 8 + 1]
}

/// The first `k` comparisons read as a binary number, the first one most significant.
pub open spec fn dhash_value(grid: Seq<u8>, k: nat) -> nat
    decreases k,
{
    if k == 0 {
        0
    } else {
        2 * dhash_value(grid, (k - 1) as nat) + if dhash_bit(grid, k - 1) {
            1nat
        } else {
            0nat
        }
    }
}

/// The difference hash of a 9-by-8 luminance grid in row order: 64 comparisons of each pixel
/// with its right neighbour, row by row, the first one in the most significant bit.
pub open spec fn dhash_spec(grid: Seq<u8>) -> nat {
    dhash_value(grid, 64)
}

/// Computes the difference hash of a 9-by-8 luminance grid.
pub fn dhash(grid: &Vec<u8>) -> (r: u64)
    requires
        grid@.len() == 72,
    ensures
        r as nat == dhash_spec(grid@),
{
    let mut hash: u64 = 0;
    let mut k: usize = 0;
    proof {
        lemma2_to64();
    }
    while k < 64
        invariant
            grid@.len() == 72,
            k <= 64,
            hash as nat == dhash_value(grid@, k as nat),
            dhash_value(grid@, k as nat) < pow2(k as nat),
            pow2(64) == 0x10000000000000000,
        decreases 64 - k,
    {
        let y = k / 8;
        let x = k % 8;
        let bit: u64 = if grid[9 * y + x] > grid[9 * y + x + 1] {
            1
        } else {
            0
        };
        proof {
            lemma_pow2_unfold((k + 1) as nat);
            if k + 1 < 64 {
                lemma_pow2_strictly_increases((k + 1) as nat, 64);
            }
            assert(dhash_value(grid@, (k + 1) as nat) == 2 * dhash_value(grid@, k as nat) + bit);
        }
        hash = hash * 2 + bit;
        k = k + 1;
    }
    hash
}

/// What `ImageReader::with_format` (the format named by the extension), then
/// `with_guessed_format` and `into_dimensions` give for these file bytes: the picture's width
/// and height.
pub uninterp spec fn decoded_dimensions(bytes: Seq<u8>, extension: Seq<char>) -> Option<(u32, u32)>;

/// What decoding these file bytes in the format named by the extension, then
/// `resize_exact` with the triangle filter and `to_luma8`, give: one luminance byte per pixel
/// of the scaled picture, in row order.
pub uninterp spec fn decoded_luma_grid(bytes: Seq<u8>, extension: Seq<char>, width: u32, height: u32) -> Option<Seq<u8>>;

/// The dimensions of the picture in `bytes`, read as `image::ImageReader::open` reads a file
/// with this extension, with its format guessed from the content where it can be.
#[verifier::external_body]
pub(crate) fn picture_dimensions(bytes: &[u8], extension: &str) -> (r: Option<(u32, u32)>)
    ensures
        r == decoded_dimensions(bytes@, extension@),
{
    let format = image::ImageFormat::from_extension(extension)?;
    image::ImageReader::with_format(std::io::Cursor::new(bytes), format)
        .with_guessed_format()
        .ok()?
        .into_dimensions()
        .ok()
}

/// The picture in `bytes`, decoded as `image::open` decodes a file with this extension, scaled
/// to `width` by `height` pixels with the triangle filter, as luminance bytes in row order.
/// `resize_exact` gives exactly those dimensions and `to_luma8` one byte per pixel.
#[verifier::external_body]
pub(crate) fn picture_luma_grid(bytes: &[u8], extension: &str, width: u32, height: u32) -> (r: Option<Vec<u8>>)
    ensures
        match r {
            Some(grid) => decoded_luma_grid(bytes@, extension@, width, height) == Some(grid@)
                && grid@.len() == width * height,
            None => decoded_luma_grid(bytes@, extension@, width, height) is None,
        },
{
    let format = image::ImageFormat::from_extension(extension)?;
    let picture = image::ImageReader::with_format(std::io::Cursor::new(bytes), format).decode().ok()?;
    Some(picture.resize_exact(width, height, image::imageops::FilterType::Triangle).to_luma8().into_raw())
}

/// The number of one bits of `n`.
pub open spec fn popcount(n: nat) -> nat
    decreases n,
{
    if n == 0 {
        0
    } else {
        n % 2 + popcount(n / 2)
    }
}

/// The Hamming distance of two hashes: the number of bits in which they differ.
pub open spec fn hamming_spec(a: u64, b: u64) -> nat {
    popcount((a ^ b) as nat)
}

/// The distance between two hashes does not depend on their order, and every hash is at
/// distance zero from itself.
pub proof fn lemma_hamming_symmetric(a: u64, b: u64)
    ensures
        hamming_spec(a, b) == hamming_spec(b, a),
        hamming_spec(a, a) == 0,
{
    assert(a ^ b == b ^ a) by (bit_vector);
    assert(a ^ a == 0) by (bit_vector);
}

/// Counts the bits in which two hashes differ.
pub fn hamming_distance(a: u64, b: u64) -> (r: u32)
    ensures
        r as nat == hamming_spec(a, b),
        r <= 64,
{
    let mut rest: u64 = a ^ b;
    let mut count: u32 = 0;
    let mut steps: u32 = 0;
    proof {
        lemma2_to64();
    }
    while rest != 0
        invariant
            popcount((a ^ b) as nat) == count + popcount(rest as nat),
            count <= steps,
            steps <= 64,
            rest < pow2((64 - steps) as nat),
        decreases rest,
    {
        proof {
            lemma2_to64();
            if steps >= 64 {
                assert(pow2(0) == 1);
            }
            lemma_pow2_unfold((64 - steps) as nat);
        }
        count = count + (rest % 2) as u32;
        rest = rest / 2;
        steps = steps + 1;
    }
    count
}

/// A picture imported earlier whose hash may be compared.
#[derive(Debug)]
pub struct SimilarCandidate {
    pub candidate_id: i64,
    pub relative_path: String,
    pub decided_at: String,
    pub destination_path: String,
    pub perceptual_hash: u64,
}

/// A similar picture and its distance from the one under review.
#[derive(Debug)]
pub struct RankedMatch {
    pub distance: u32,
    pub candidate: SimilarCandidate,
}

/// `a` is shown before `b`: a smaller distance first, then the more recent decision, then the
/// smaller candidate id.
pub open spec fn ranks_before(a: RankedMatch, b: RankedMatch) -> bool {
    ||| a.distance < b.distance
    ||| (a.distance == b.distance && text_less(b.candidate.decided_at@, a.candidate.decided_at@))
    ||| (a.distance == b.distance && a.candidate.decided_at@ == b.candidate.decided_at@
        && a.candidate.candidate_id < b.candidate.candidate_id)
}

proof fn lemma_ranks_before_transitive(a: RankedMatch, b: RankedMatch, c: RankedMatch)
    requires
        ranks_before(a, b),
        ranks_before(b, c),
    ensures
        ranks_before(a, c),
{
    let (da, db, dc) = (
        a.candidate.decided_at@,
        b.candidate.decided_at@,
        c.candidate.decided_at@,
    );
    if a.distance == b.distance && b.distance == c.distance {
        if text_less(db, da) && text_less(dc, db) {
            lemma_text_less_transitive(dc, db, da);
        }
    }
}

proof fn lemma_ranks_before_irreflexive(a: RankedMatch)
    ensures
        !ranks_before(a, a),
{
    lemma_text_less_irreflexive(a.candidate.decided_at@);
}

/// Whether `a` is shown before `b`.
fn is_ranked_before(a: &RankedMatch, b: &RankedMatch) -> (r: bool)
    ensures
        r == ranks_before(*a, *b),
{
    if a.distance != b.distance {
        return a.distance < b.distance;
    }
    if is_text_less(b.candidate.decided_at.as_str(), a.candidate.decided_at.as_str()) {
        return true;
    }
    if !same_text(a.candidate.decided_at.as_str(), b.candidate.decided_at.as_str()) {
        return false;
    }
    a.candidate.candidate_id < b.candidate.candidate_id
}

/// Sorted in display order: no later entry is shown before an earlier one.
pub open spec fn ranked(s: Seq<RankedMatch>) -> bool {
    forall|i: int, j: int| 0 <= i < j < s.len() ==> !ranks_before(#[trigger] s[j], #[trigger] s[i])
}

/// The candidates within the similarity threshold of `hash`, with their distances, in the
/// order given.
pub open spec fn within_threshold(hash: u64, rows: Seq<SimilarCandidate>) -> Seq<RankedMatch>
    decreases rows.len(),
{
    if rows.len() == 0 {
        seq![]
    } else {
        let rest = within_threshold(hash, rows.drop_last());
        let last = rows.last();
        let d = hamming_spec(hash, last.perceptual_hash);
        if d <= SIMILARITY_THRESHOLD {
            rest.push(RankedMatch { distance: d as u32, candidate: last })
        } else {
            rest
        }
    }
}

proof fn lemma_insert_multiset<T>(s: Seq<T>, p: int, x: T)
    requires
        0 <= p <= s.len(),
    ensures
        s.insert(p, x).to_multiset() == s.to_multiset().insert(x),
{
    broadcast use vstd::seq_lib::group_to_multiset_ensures;

    let left = s.take(p);
    let right = s.skip(p);
    assert(s =~= left + right);
    assert(s.insert(p, x) =~= left.push(x) + right);
    vstd::seq_lib::lemma_multiset_commutative(left, right);
    vstd::seq_lib::lemma_multiset_commutative(left.push(x), right);
}

/// Inserts `m` after every entry that is not shown after it, keeping the order.
fn insert_ranked(sorted: &mut Vec<RankedMatch>, m: RankedMatch)
    requires
        ranked(old(sorted)@),
    ensures
        ranked(final(sorted)@),
        final(sorted)@.to_multiset() == old(sorted)@.to_multiset().insert(m),
        final(sorted)@.len() == old(sorted)@.len() + 1,
{
    let mut p: usize = 0;
    while p < sorted.len() && !is_ranked_before(&m, &sorted[p])
        invariant
            0 <= p <= sorted@.len(),
            forall|k: int| 0 <= k < p ==> !ranks_before(m, #[trigger] sorted@[k]),
        decreases sorted@.len() - p,
    {
        p = p + 1;
    }
    let ghost before = sorted@;
    let ghost item = m;
    proof {
        lemma_insert_multiset(before, p as int, m);
    }
    sorted.insert(p, m);
    proof {
        let after = sorted@;
        assert forall|i: int, j: int| 0 <= i < j < after.len() implies !ranks_before(
            #[trigger] after[j],
            #[trigger] after[i],
        ) by {
            if i < p && j == p {
            } else if i == p && j > p {
                let q = j - 1;
                if ranks_before(before[q], item) {
                    assert(ranks_before(item, before[p as int]));
                    if q == p {
                        lemma_ranks_before_transitive(item, before[p as int], item);
                        lemma_ranks_before_irreflexive(item);
                    } else {
                        lemma_ranks_before_transitive(before[q], item, before[p as int]);
                    }
                }
            } else if i < p && j < p {
            } else if i < p && j > p {
            } else {
            }
        }
    }
}

/// The similar pictures to show for a picture with hash `hash`: those within the threshold,
/// ranked, and at most the limit of them.
pub open spec fn shows_top_matches(hash: u64, rows: Seq<SimilarCandidate>, r: Seq<RankedMatch>) -> bool {
    exists|all: Seq<RankedMatch>|
        {
            &&& all.to_multiset() == within_threshold(hash, rows).to_multiset()
            &&& ranked(all)
            &&& r == all.take(
                if all.len() < SIMILARITY_LIMIT {
                    all.len() as int
                } else {
                    SIMILARITY_LIMIT as int
                },
            )
        }
}

/// What the candidates within the threshold are: each carries its own Hamming distance, at
/// most the threshold, and a candidate of `rows`; every row within the threshold is among them.
proof fn lemma_within_threshold_members(hash: u64, rows: Seq<SimilarCandidate>)
    ensures
        forall|m: RankedMatch| #[trigger]
            within_threshold(hash, rows).contains(m) ==> {
                &&& m.distance as nat == hamming_spec(hash, m.candidate.perceptual_hash)
                &&& m.distance <= SIMILARITY_THRESHOLD
                &&& rows.contains(m.candidate)
            },
        forall|idx: int|
            0 <= idx < rows.len() && hamming_spec(hash, #[trigger] rows[idx].perceptual_hash)
                <= SIMILARITY_THRESHOLD ==> within_threshold(hash, rows).contains(
                RankedMatch {
                    distance: hamming_spec(hash, rows[idx].perceptual_hash) as u32,
                    candidate: rows[idx],
                },
            ),
    decreases rows.len(),
{
    if rows.len() > 0 {
        let front = rows.drop_last();
        lemma_within_threshold_members(hash, front);
        let rest = within_threshold(hash, front);
        let last = rows.last();
        let d = hamming_spec(hash, last.perceptual_hash);
        assert forall|m: RankedMatch| #[trigger]
            within_threshold(hash, rows).contains(m) implies {
                &&& m.distance as nat == hamming_spec(hash, m.candidate.perceptual_hash)
                &&& m.distance <= SIMILARITY_THRESHOLD
                &&& rows.contains(m.candidate)
            } by {
            let w = within_threshold(hash, rows);
            let k = choose|k: int| 0 <= k < w.len() && w[k] == m;
            if d <= SIMILARITY_THRESHOLD && k == rest.len() {
                assert(rows[rows.len() - 1] == last);
            } else {
                assert(rest[k] == m);
                assert(rest.contains(m));
                let q = choose|q: int| 0 <= q < front.len() && front[q] == m.candidate;
                assert(rows[q] == m.candidate);
            }
        }
        assert forall|idx: int|
            0 <= idx < rows.len() && hamming_spec(hash, #[trigger] rows[idx].perceptual_hash)
                <= SIMILARITY_THRESHOLD implies within_threshold(hash, rows).contains(
                RankedMatch {
                    distance: hamming_spec(hash, rows[idx].perceptual_hash) as u32,
                    candidate: rows[idx],
                },
            ) by {
            let target = RankedMatch {
                distance: hamming_spec(hash, rows[idx].perceptual_hash) as u32,
                candidate: rows[idx],
            };
            let w = within_threshold(hash, rows);
            if idx == rows.len() - 1 {
                assert(w[w.len() - 1] == target);
            } else {
                assert(front[idx] == rows[idx]);
                assert(rest.contains(target));
                let k = choose|k: int| 0 <= k < rest.len() && rest[k] == target;
                assert(w[k] == target);
            }
        }
    }
}

/// The similar pictures shown are the closest ones, nearest first: each carries its Hamming
/// distance from `hash`, within the threshold, and is a candidate of `rows`; distances never
/// decrease along the list; a candidate within the threshold that is left out is no closer than
/// any shown one; at most `SIMILARITY_LIMIT` are shown, and fewer only when every candidate
/// within the threshold is shown.
pub proof fn lemma_shown_matches_are_closest_first(hash: u64, rows: Seq<SimilarCandidate>, r: Seq<RankedMatch>)
    requires
        shows_top_matches(hash, rows, r),
    ensures
        r.len() <= SIMILARITY_LIMIT,
        forall|k: int|
            0 <= k < r.len() ==> {
                &&& (#[trigger] r[k]).distance as nat == hamming_spec(hash, r[k].candidate.perceptual_hash)
                &&& r[k].distance <= SIMILARITY_THRESHOLD
                &&& rows.contains(r[k].candidate)
            },
        forall|i: int, j: int| 0 <= i < j < r.len() ==> (#[trigger] r[i]).distance <= (#[trigger] r[j]).distance,
        forall|idx: int, k: int|
            0 <= idx < rows.len() && 0 <= k < r.len() && hamming_spec(
                hash,
                (#[trigger] rows[idx]).perceptual_hash,
            ) < (#[trigger] r[k]).distance ==> exists|m: int| 0 <= m < r.len() && r[m].candidate == rows[idx],
        r.len() < SIMILARITY_LIMIT ==> forall|idx: int|
            0 <= idx < rows.len() && hamming_spec(hash, (#[trigger] rows[idx]).perceptual_hash)
                <= SIMILARITY_THRESHOLD ==> exists|m: int| 0 <= m < r.len() && r[m].candidate == rows[idx],
{
    broadcast use vstd::seq_lib::group_to_multiset_ensures;

    let all = choose|all: Seq<RankedMatch>|
        {
            &&& all.to_multiset() == within_threshold(hash, rows).to_multiset()
            &&& ranked(all)
            &&& r == all.take(
                if all.len() < SIMILARITY_LIMIT {
                    all.len() as int
                } else {
                    SIMILARITY_LIMIT as int
                },
            )
        };
    lemma_within_threshold_members(hash, rows);
    let w = within_threshold(hash, rows);
    assert forall|m: RankedMatch| all.contains(m) <==> #[trigger] w.contains(m) by {
        assert(all.to_multiset().count(m) == w.to_multiset().count(m));
    }
    assert forall|k: int| 0 <= k < r.len() implies {
        &&& (#[trigger] r[k]).distance as nat == hamming_spec(hash, r[k].candidate.perceptual_hash)
        &&& r[k].distance <= SIMILARITY_THRESHOLD
        &&& rows.contains(r[k].candidate)
    } by {
        assert(r[k] == all[k]);
        assert(all.contains(all[k]));
        assert(w.contains(all[k]));
    }
    assert forall|i: int, j: int| 0 <= i < j < r.len() implies (#[trigger] r[i]).distance <= (#[trigger] r[j]).distance by {
        assert(r[i] == all[i] && r[j] == all[j]);
        assert(!ranks_before(all[j], all[i]));
    }
    assert forall|idx: int|
        0 <= idx < rows.len() && hamming_spec(hash, (#[trigger] rows[idx]).perceptual_hash)
            <= SIMILARITY_THRESHOLD implies exists|p: int| 0 <= p < all.len() && all[p].candidate == rows[idx]
            && all[p].distance as nat == hamming_spec(hash, rows[idx].perceptual_hash) by {
        let target = RankedMatch {
            distance: hamming_spec(hash, rows[idx].perceptual_hash) as u32,
            candidate: rows[idx],
        };
        assert(w.contains(target));
        assert(all.contains(target));
        let p = choose|p: int| 0 <= p < all.len() && all[p] == target;
        assert(all[p].candidate == rows[idx]);
    }
    assert forall|idx: int, k: int|
        0 <= idx < rows.len() && 0 <= k < r.len() && hamming_spec(
            hash,
            (#[trigger] rows[idx]).perceptual_hash,
        ) < (#[trigger] r[k]).distance implies exists|m: int| 0 <= m < r.len() && r[m].candidate == rows[idx] by {
        assert(r[k] == all[k]);
        assert(hamming_spec(hash, rows[idx].perceptual_hash) <= SIMILARITY_THRESHOLD);
        let p = choose|p: int| 0 <= p < all.len() && all[p].candidate == rows[idx]
            && all[p].distance as nat == hamming_spec(hash, rows[idx].perceptual_hash);
        if p >= r.len() {
            assert(k < p);
            assert(!ranks_before(all[p], all[k]));
            assert(false);
        }
        assert(r[p] == all[p]);
    }
    assert forall|idx: int|
        r.len() < SIMILARITY_LIMIT && 0 <= idx < rows.len() && hamming_spec(hash, (#[trigger] rows[idx]).perceptual_hash)
            <= SIMILARITY_THRESHOLD implies exists|m: int| 0 <= m < r.len() && r[m].candidate == rows[idx] by {
        let p = choose|p: int| 0 <= p < all.len() && all[p].candidate == rows[idx]
            && all[p].distance as nat == hamming_spec(hash, rows[idx].perceptual_hash);
        assert(r.len() == all.len());
        assert(r[p] == all[p]);
    }
}

/// Ranks the earlier imports that look like the picture with hash `hash`: those within the
/// similarity threshold, closest first, then the most recently decided, then by id; at most
/// three.
pub fn rank_similar_matches(hash: u64, rows: Vec<SimilarCandidate>) -> (r: Vec<RankedMatch>)
    ensures
        shows_top_matches(hash, rows@, r@),
        r@.len() <= SIMILARITY_LIMIT,
        forall|k: int|
            0 <= k < r@.len() ==> {
                &&& (#[trigger] r@[k]).distance as nat == hamming_spec(hash, r@[k].candidate.perceptual_hash)
                &&& r@[k].distance <= SIMILARITY_THRESHOLD
                &&& rows@.contains(r@[k].candidate)
            },
        forall|i: int, j: int| 0 <= i < j < r@.len() ==> (#[trigger] r@[i]).distance <= (#[trigger] r@[j]).distance,
        forall|idx: int, k: int|
            0 <= idx < rows@.len() && 0 <= k < r@.len() && hamming_spec(
                hash,
                (#[trigger] rows@[idx]).perceptual_hash,
            ) < (#[trigger] r@[k]).distance ==> exists|m: int| 0 <= m < r@.len() && r@[m].candidate == rows@[idx],
        r@.len() < SIMILARITY_LIMIT ==> forall|idx: int|
            0 <= idx < rows@.len() && hamming_spec(hash, (#[trigger] rows@[idx]).perceptual_hash)
                <= SIMILARITY_THRESHOLD ==> exists|m: int| 0 <= m < r@.len() && r@[m].candidate == rows@[idx],
{
    let ghost input = rows@;
    let mut all: Vec<RankedMatch> = Vec::new();
    let mut rest = rows;
    proof {
        broadcast use vstd::seq_lib::group_to_multiset_ensures;

        assert(all@ =~= Seq::<RankedMatch>::empty());
    }
    // Walk the rows from the front by reversing them first.
    let mut reversed: Vec<SimilarCandidate> = Vec::new();
    while rest.len() > 0
        invariant
            reversed@.len() + rest@.len() == input.len(),
            rest@ == input.take(rest@.len() as int),
            forall|k: int| 0 <= k < reversed@.len() ==> #[trigger] reversed@[k] == input[input.len() - 1 - k],
        decreases rest@.len(),
    {
        let x = rest.pop().unwrap();
        reversed.push(x);
    }
    let n = reversed.len();
    let mut i: usize = 0;
    while reversed.len() > 0
        invariant
            n == input.len(),
            i + reversed@.len() == n,
            forall|k: int| 0 <= k < reversed@.len() ==> #[trigger] reversed@[k] == input[n - 1 - k],
            ranked(all@),
            all@.to_multiset() == within_threshold(hash, input.take(i as int)).to_multiset(),
        decreases reversed@.len(),
    {
        let row = reversed.pop().unwrap();
        assert(row == input[i as int]);
        assert(input.take(i + 1).drop_last() =~= input.take(i as int));
        let d = hamming_distance(hash, row.perceptual_hash);
        proof {
            broadcast use vstd::seq_lib::group_to_multiset_ensures;

            assert(input.take(i + 1).last() == row);
        }
        if d <= SIMILARITY_THRESHOLD {
            let m = RankedMatch { distance: d, candidate: row };
            assert(within_threshold(hash, input.take(i + 1)) == within_threshold(
                hash,
                input.take(i as int),
            ).push(m));
            insert_ranked(&mut all, m);
        } else {
            assert(within_threshold(hash, input.take(i + 1)) == within_threshold(
                hash,
                input.take(i as int),
            ));
        }
        i = i + 1;
    }
    assert(input.take(n as int) =~= input);
    let ghost full = all@;
    let mut shown: Vec<RankedMatch> = Vec::new();
    assert(shown@ =~= full.take(0));
    let limit = if all.len() < SIMILARITY_LIMIT {
        all.len()
    } else {
        SIMILARITY_LIMIT
    };
    let mut remaining = all;
    // Keep the first `limit` entries.
    let mut front: Vec<RankedMatch> = Vec::new();
    while remaining.len() > 0
        invariant
            front@.len() + remaining@.len() == full.len(),
            remaining@ == full.take(remaining@.len() as int),
            forall|k: int| 0 <= k < front@.len() ==> #[trigger] front@[k] == full[full.len() - 1 - k],
        decreases remaining@.len(),
    {
        let x = remaining.pop().unwrap();
        front.push(x);
    }
    let mut j: usize = 0;
    while j < limit
        invariant
            limit <= full.len(),
            front@.len() == full.len() - j,
            j <= limit,
            forall|k: int| 0 <= k < front@.len() ==> #[trigger] front@[k] == full[full.len() - 1 - k],
            shown@ == full.take(j as int),
        decreases limit - j,
    {
        let x = front.pop().unwrap();
        assert(x == full[j as int]);
        shown.push(x);
        assert(shown@ =~= full.take(j + 1));
        j = j + 1;
    }
    proof {
        lemma_shown_matches_are_closest_first(hash, input, shown@);
    }
    shown
}

} // verus!

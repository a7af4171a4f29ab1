//! Seeds for generators that work side by side.

use vstd::prelude::*;

verus! {

/// The low 32 bits of a count.
pub open spec fn low_word(count: int) -> int {
    count % 0x1_0000_0000
}

/// A time since the epoch, given in whole seconds and the nanoseconds
/// beyond them, as a count of milliseconds.
pub open spec fn as_millis(secs: u64, subsec_nanos: u32) -> int {
    secs * 1_000 + subsec_nanos / 1_000_000
}

/// The same time as a count of microseconds.
pub open spec fn as_micros(secs: u64, subsec_nanos: u32) -> int {
    secs * 1_000_000 + subsec_nanos / 1_000
}

/// The same time as a count of nanoseconds.
pub open spec fn as_nanos(secs: u64, subsec_nanos: u32) -> int {
    secs * 1_000_000_000 + subsec_nanos
}

/// The seed at position `i` of a batch made from a time: six rules take
/// turns, each reading the time in another unit.
pub open spec fn seed_at(i: int, secs: u64, subsec_nanos: u32) -> int {
    if i % 6 == 0 {
        low_word(as_millis(secs, subsec_nanos))
    } else if i % 6 == 1 {
        0xFFFF_FFFF - low_word(as_nanos(secs, subsec_nanos))
    } else if i % 6 == 2 {
        low_word(secs as int) / 60
    } else if i % 6 == 3 {
        0xFFFF_FFFF - low_word(as_micros(secs, subsec_nanos))
    } else if i % 6 == 4 {
        low_word(secs as int)
    } else {
        low_word(as_millis(secs, subsec_nanos)) / 60
    }
}

/// The low 32 bits of a count that fits in 128 bits.
fn low_u32(count: u128) -> (w: u32)
    ensures
        w == low_word(count as int),
{
    assert((count & 0xFFFF_FFFFu128) == count % 0x1_0000_0000u128) by (bit_vector);
    assert((count & 0xFFFF_FFFFu128) <= 0xFFFF_FFFFu128) by (bit_vector);
    (count & 0xFFFF_FFFF) as u32
}

/// Makes `N` seeds from a time since the epoch, given in whole seconds and
/// the nanoseconds beyond them.
pub fn generate_seeds<const N: usize>(secs: u64, subsec_nanos: u32) -> (array: [u32; N])
    ensures
        forall|i: int| 0 <= i < N ==> #[trigger] array@[i] == seed_at(i, secs, subsec_nanos),
{
    let mut array = [0_u32; N];
    let millis: u128 = (secs as u128) * 1_000 + (subsec_nanos / 1_000_000) as u128;
    let micros: u128 = (secs as u128) * 1_000_000 + (subsec_nanos / 1_000) as u128;
    let nanos: u128 = (secs as u128) * 1_000_000_000 + subsec_nanos as u128;
    let mut i: usize = 0;
    while i < N
        invariant
            0 <= i <= N,
            array@.len() == N,
            millis == as_millis(secs, subsec_nanos),
            micros == as_micros(secs, subsec_nanos),
            nanos == as_nanos(secs, subsec_nanos),
            forall|k: int| 0 <= k < i ==> #[trigger] array@[k] == seed_at(k, secs, subsec_nanos),
        decreases N - i,
    {
        let w: u32 = match i % 6_usize {
            0_usize => low_u32(millis),
            1_usize => u32::MAX - low_u32(nanos),
            2_usize => low_u32(secs as u128) / 60_u32,
            3_usize => u32::MAX - low_u32(micros),
            4_usize => low_u32(secs as u128),
            _ => low_u32(millis) / 60_u32,
        };
        array[i] = w;
        i += 1;
    }
    array
}

/// The value that replaces a seed `later` found equal to the seed `earlier`.
pub open spec fn perturbed(earlier: u32, later: u32) -> u32 {
    let w = (later << 3u32) ^ (earlier >> 2u32);
    if w == 0 {
        1192
    } else {
        w
    }
}

/// The seeds after positions `i` and `j` have been compared.
pub open spec fn after_pair(s: Seq<u32>, i: int, j: int) -> Seq<u32> {
    if s[i] == s[j] {
        s.update(j, perturbed(s[i], s[j]))
    } else {
        s
    }
}

/// The seeds after position `i` has been compared with `j` and every later
/// position, in ascending order.
pub open spec fn after_row(s: Seq<u32>, i: int, j: int) -> Seq<u32>
    decreases s.len() - j,
{
    if 0 <= j < s.len() {
        after_row(after_pair(s, i, j), i, j + 1)
    } else {
        s
    }
}

/// The seeds after `i` and every later position have had their row.
pub open spec fn after_rows(s: Seq<u32>, i: int) -> Seq<u32>
    decreases s.len() - i,
{
    if 0 <= i < s.len() {
        proof {
            lemma_after_row_len(s, i, i + 1);
        }
        after_rows(after_row(s, i, i + 1), i + 1)
    } else {
        s
    }
}

/// The seeds after the whole pass.
pub open spec fn adjusted(s: Seq<u32>) -> Seq<u32> {
    after_rows(s, 0)
}

/// Whether no two of the seeds are equal.
pub open spec fn pairwise_distinct(s: Seq<u32>) -> bool {
    forall|i: int, j: int| 0 <= i < j < s.len() ==> s[i] != s[j]
}

/// A row keeps the number of seeds.
pub proof fn lemma_after_row_len(s: Seq<u32>, i: int, j: int)
    requires
        0 <= i < j,
    ensures
        after_row(s, i, j).len() == s.len(),
    decreases s.len() - j,
{
    if j < s.len() {
        lemma_after_row_len(after_pair(s, i, j), i, j + 1);
    }
}

/// Changes the seeds so that generators made from them start apart: one
/// pass over the pairs, each later seed that equals an earlier one replaced.
pub fn adjust_seeds<const N: usize>(seeds: [u32; N]) -> (adjusted_seeds: [u32; N])
    ensures
        adjusted_seeds@ == adjusted(seeds@),
{
    let mut copy_array = seeds;
    let mut i: usize = 0;
    while i < N
        invariant
            0 <= i <= N,
            copy_array@.len() == N,
            after_rows(copy_array@, i as int) == adjusted(seeds@),
        decreases N - i,
    {
        let mut j: usize = i + 1;
        while j < N
            invariant
                0 <= i < j <= N,
                copy_array@.len() == N,
                after_rows(after_row(copy_array@, i as int, j as int), i + 1) == adjusted(seeds@),
            decreases N - j,
        {
            if copy_array[i] == copy_array[j] {
                let mut w: u32 = (copy_array[j] << 3) ^ (copy_array[i] >> 2);
                if w == 0 {
                    w = 1192;
                }
                copy_array[j] = w;
            }
            j += 1;
        }
        i += 1;
    }
    copy_array
}


/// A seed never equals what replaces it, and replacing twice does not lead
/// back either.
pub proof fn lemma_perturbed_moves(a: u32)
    ensures
        perturbed(a, a) != a,
        perturbed(perturbed(a, a), perturbed(a, a)) != perturbed(a, a),
        perturbed(perturbed(a, a), perturbed(a, a)) != a,
{
    assert(perturbed(a, a) != a) by (bit_vector);
    let b = perturbed(a, a);
    assert(perturbed(b, b) != b) by (bit_vector);
    assert(perturbed(perturbed(a, a), perturbed(a, a)) != a) by (bit_vector);
}

/// A row changes nothing before position `j`, and keeps the length.
pub proof fn lemma_after_row_prefix(s: Seq<u32>, i: int, j: int)
    requires
        0 <= i < j,
    ensures
        after_row(s, i, j).len() == s.len(),
        forall|k: int| 0 <= k < j && k < s.len() ==> #[trigger] after_row(s, i, j)[k] == s[k],
    decreases s.len() - j,
{
    if j < s.len() {
        let t = after_pair(s, i, j);
        lemma_after_row_prefix(t, i, j + 1);
        assert forall|k: int| 0 <= k < j && k < s.len() implies #[trigger] after_row(s, i, j)[k]
            == s[k] by {
            assert(after_row(t, i, j + 1)[k] == t[k]);
        }
    }
}

/// The pass keeps the number of seeds, and the first seed.
pub proof fn lemma_adjusted_keeps_first(s: Seq<u32>)
    ensures
        adjusted(s).len() == s.len(),
        s.len() > 0 ==> adjusted(s)[0] == s[0],
{
    lemma_after_rows_prefix(s, 0);
}

/// The rows from `i` on change nothing up to position `i`, and keep the
/// length.
pub proof fn lemma_after_rows_prefix(s: Seq<u32>, i: int)
    requires
        0 <= i,
    ensures
        after_rows(s, i).len() == s.len(),
        forall|k: int| 0 <= k <= i && k < s.len() ==> #[trigger] after_rows(s, i)[k] == s[k],
    decreases s.len() - i,
{
    if i < s.len() {
        let t = after_row(s, i, i + 1);
        lemma_after_row_prefix(s, i, i + 1);
        lemma_after_rows_prefix(t, i + 1);
        assert forall|k: int| 0 <= k <= i && k < s.len() implies #[trigger] after_rows(s, i)[k]
            == s[k] by {
            assert(after_rows(t, i + 1)[k] == t[k]);
            assert(after_row(s, i, i + 1)[k] == s[k]);
        }
    }
}

/// A row leaves seeds alone among which position `i` has no equal.
pub proof fn lemma_after_row_distinct(s: Seq<u32>, i: int, j: int)
    requires
        0 <= i < j,
        forall|k: int| j <= k < s.len() ==> s[i] != s[k],
    ensures
        after_row(s, i, j) == s,
    decreases s.len() - j,
{
    if j < s.len() {
        lemma_after_row_distinct(s, i, j + 1);
    }
}

proof fn lemma_after_rows_distinct(s: Seq<u32>, i: int)
    requires
        0 <= i,
        pairwise_distinct(s),
    ensures
        after_rows(s, i) == s,
    decreases s.len() - i,
{
    if i < s.len() {
        lemma_after_row_distinct(s, i, i + 1);
        lemma_after_rows_distinct(s, i + 1);
    }
}

/// Seeds that are pairwise distinct already are left as they are.
pub proof fn lemma_distinct_seeds_kept(s: Seq<u32>)
    requires
        pairwise_distinct(s),
    ensures
        adjusted(s) == s,
{
    lemma_after_rows_distinct(s, 0);
}

/// What the pass makes of two seeds.
pub proof fn lemma_adjusted_two(a: u32, b: u32)
    ensures
        adjusted(seq![a, b]) == after_pair(seq![a, b], 0, 1),
{
    let s = seq![a, b];
    let s1 = after_pair(s, 0, 1);
    assert(after_row(s1, 0, 2) == s1);
    assert(after_row(s, 0, 1) == s1);
    assert(after_row(s1, 1, 2) == s1);
    assert(after_rows(s1, 2) == s1);
    assert(after_rows(s1, 1) == s1);
}

/// Two seeds always come out distinct.
pub proof fn lemma_two_seeds_apart(a: u32, b: u32)
    ensures
        pairwise_distinct(adjusted(seq![a, b])),
{
    lemma_adjusted_two(a, b);
    lemma_perturbed_moves(a);
}

/// Three equal seeds come out pairwise distinct.
pub proof fn lemma_three_equal_seeds_apart(a: u32)
    ensures
        adjusted(seq![a, a, a]) == seq![
            a,
            perturbed(a, a),
            perturbed(perturbed(a, a), perturbed(a, a)),
        ],
        pairwise_distinct(adjusted(seq![a, a, a])),
{
    let p = perturbed(a, a);
    let q = perturbed(p, p);
    lemma_perturbed_moves(a);
    let s = seq![a, a, a];
    let s1 = seq![a, p, a];
    let s2 = seq![a, p, p];
    let s3 = seq![a, p, q];
    assert(after_pair(s, 0, 1) =~= s1);
    assert(after_pair(s1, 0, 2) =~= s2);
    assert(after_row(s2, 0, 3) == s2);
    assert(after_row(s1, 0, 2) == s2);
    assert(after_row(s, 0, 1) == s2);
    assert(after_pair(s2, 1, 2) =~= s3);
    assert(after_row(s3, 1, 3) == s3);
    assert(after_row(s2, 1, 2) == s3);
    assert(after_row(s3, 2, 3) == s3);
    assert(after_rows(s3, 3) == s3);
    assert(after_rows(s3, 2) == s3);
    assert(after_rows(s2, 1) == s3);
    assert(after_rows(s, 0) == s3);
}

} // verus!

//! Patch sites, the operations applied at them, and what a pass over an
//! ordered plan of sites leaves in the image.
//!
//! A pass carries one piece of state besides the image: the running
//! aggregate, the spillover that the enlarged heaps add to the heap they all
//! draw from. Contributing sites add to it; the one aggregate site reads it.
//! So the order of a plan matters, and a `PatchPlan` is a sequence of sites
//! in which nothing but literal writes follows an aggregate site.

use vstd::prelude::*;
use crate::config::{Category, HeapSizeConfig};
use crate::image::{in_image, with_word, word_at};
use crate::scaling::{larger, saturate, scaled, spillover};

verus! {

/// What is done to the word at a site.
///
/// The expansion of a container is not an operation of its own: it enters a
/// plan as the literal writes that `expansion` works out for its catalogue.
#[derive(Clone, Copy, Debug, PartialEq, Eq, Structural)]
pub enum Operation {
    /// Overwrite the word with a value.
    SetLiteral(u32),
    /// Multiply the word by the category's scale factor; if the flag is set,
    /// add what that adds to the running aggregate.
    ScaledMultiply(Category, bool),
    /// Enlarge the word by the category's scale factor or by the running
    /// aggregate, whichever gives more.
    AggregateApply(Category),
}

/// An offset from the image base and the operation applied to the word there.
#[derive(Clone, Copy, Debug, PartialEq, Eq, Structural)]
pub struct PatchSite {
    pub offset: usize,
    pub operation: Operation,
}

/// The value an aggregate site gets: what its own scale factor asks for or
/// what the spillover of the other heaps asks for, whichever is more.
pub open spec fn aggregate_value(existing: u32, scale: u32, bonus: u32) -> u32 {
    larger(scaled(existing, scale), saturate(existing + bonus))
}

/// The running aggregate after a multiply site that found `existing`.
pub open spec fn bonus_with(bonus: u32, existing: u32, scale: u32, contributes: bool) -> u32 {
    if contributes {
        saturate(bonus + spillover(existing, scale))
    } else {
        bonus
    }
}

/// The word an operation leaves where it found `existing`.
pub open spec fn patched_word(
    operation: Operation,
    existing: u32,
    sizes: HeapSizeConfig,
    bonus: u32,
) -> u32 {
    match operation {
        Operation::SetLiteral(value) => value,
        Operation::ScaledMultiply(category, _) => scaled(existing, sizes.factor(category)),
        Operation::AggregateApply(category) => aggregate_value(
            existing,
            sizes.factor(category),
            bonus,
        ),
    }
}

/// The running aggregate after an operation that found `existing`.
pub open spec fn patched_bonus(
    operation: Operation,
    existing: u32,
    sizes: HeapSizeConfig,
    bonus: u32,
) -> u32 {
    match operation {
        Operation::ScaledMultiply(category, contributes) => bonus_with(
            bonus,
            existing,
            sizes.factor(category),
            contributes,
        ),
        _ => bonus,
    }
}

/// Image and running aggregate after one site has been patched.
pub open spec fn apply_site(site: PatchSite, sizes: HeapSizeConfig, state: (Seq<u8>, u32)) -> (
    Seq<u8>,
    u32,
) {
    let existing = word_at(state.0, site.offset as int);
    (
        with_word(
            state.0,
            site.offset as int,
            patched_word(site.operation, existing, sizes, state.1),
        ),
        patched_bonus(site.operation, existing, sizes, state.1),
    )
}

/// Image and running aggregate after every site of `sites` has been
/// patched, first to last.
pub open spec fn pass(sites: Seq<PatchSite>, sizes: HeapSizeConfig, state: (Seq<u8>, u32)) -> (
    Seq<u8>,
    u32,
)
    decreases sites.len(),
{
    if sites.len() == 0 {
        state
    } else {
        apply_site(sites.last(), sizes, pass(sites.drop_last(), sizes, state))
    }
}

/// Whether every site of `sites` lies inside an image of `len` bytes.
pub open spec fn fits(sites: Seq<PatchSite>, len: nat) -> bool {
    forall|i: int| 0 <= i < sites.len() ==> in_image(len, (#[trigger] sites[i]).offset as int)
}

/// Whether nothing but literal writes follows an aggregate site. Then there
/// is at most one aggregate site, and it runs after every site that
/// contributes to what it reads.
pub open spec fn well_ordered(sites: Seq<PatchSite>) -> bool {
    forall|i: int, j: int|
        0 <= i < j < sites.len() && (#[trigger] sites[i]).operation is AggregateApply ==> (
        #[trigger] sites[j]).operation is SetLiteral
}

/// Whether every site of `sites` is a literal write.
pub open spec fn all_literal(sites: Seq<PatchSite>) -> bool {
    forall|i: int| 0 <= i < sites.len() ==> (#[trigger] sites[i]).operation is SetLiteral
}

/// Whether no site of `sites` is an aggregate site.
pub open spec fn no_aggregate(sites: Seq<PatchSite>) -> bool {
    forall|i: int| 0 <= i < sites.len() ==> !((#[trigger] sites[i]).operation is AggregateApply)
}

/// Whether no two sites of `sites` share a byte.
pub open spec fn disjoint(sites: Seq<PatchSite>) -> bool {
    forall|i: int, j: int|
        0 <= i < j < sites.len() ==> (#[trigger] sites[i]).offset + 4 <= (#[trigger] sites[j]).offset
            || sites[j].offset + 4 <= sites[i].offset
}

/// What the contributing sites of `sites` add to the running aggregate, one
/// entry per contributing site in plan order, when the pass starts on `image`.
pub open spec fn contributions(sites: Seq<PatchSite>, sizes: HeapSizeConfig, image: Seq<u8>) -> Seq<
    u32,
>
    decreases sites.len(),
{
    if sites.len() == 0 {
        Seq::empty()
    } else {
        let earlier = contributions(sites.drop_last(), sizes, image);
        let before = pass(sites.drop_last(), sizes, (image, 0u32)).0;
        match sites.last().operation {
            Operation::ScaledMultiply(category, true) => earlier.push(
                spillover(word_at(before, sites.last().offset as int), sizes.factor(category)),
            ),
            _ => earlier,
        }
    }
}

/// The exact sum of `parts`.
pub open spec fn sum(parts: Seq<u32>) -> int
    decreases parts.len(),
{
    if parts.len() == 0 {
        0
    } else {
        sum(parts.drop_last()) + parts.last()
    }
}

/// The running aggregate after `parts` have been added to nothing, one
/// saturating addition at a time.
pub open spec fn gathered(parts: Seq<u32>) -> u32
    decreases parts.len(),
{
    if parts.len() == 0 {
        0
    } else {
        saturate(gathered(parts.drop_last()) + parts.last())
    }
}

/// A pass changes no byte count.
pub proof fn lemma_pass_keeps_length(
    sites: Seq<PatchSite>,
    sizes: HeapSizeConfig,
    state: (Seq<u8>, u32),
)
    ensures
        pass(sites, sizes, state).0.len() == state.0.len(),
    decreases sites.len(),
{
    if sites.len() > 0 {
        lemma_pass_keeps_length(sites.drop_last(), sizes, state);
    }
}

/// A pass over one plan followed by another is the second pass started
/// where the first one ended.
pub proof fn lemma_pass_concat(
    first: Seq<PatchSite>,
    second: Seq<PatchSite>,
    sizes: HeapSizeConfig,
    state: (Seq<u8>, u32),
)
    ensures
        pass(first + second, sizes, state) == pass(second, sizes, pass(first, sizes, state)),
    decreases second.len(),
{
    if second.len() == 0 {
        assert(first + second =~= first);
    } else {
        assert((first + second).drop_last() =~= first + second.drop_last());
        assert((first + second).last() == second.last());
        lemma_pass_concat(first, second.drop_last(), sizes, state);
    }
}

/// The pass over the first `k + 1` sites is one more site applied to the
/// pass over the first `k`.
pub proof fn lemma_pass_step(
    sites: Seq<PatchSite>,
    sizes: HeapSizeConfig,
    state: (Seq<u8>, u32),
    k: int,
)
    requires
        0 <= k < sites.len(),
    ensures
        pass(sites.take(k + 1), sizes, state) == apply_site(
            sites[k],
            sizes,
            pass(sites.take(k), sizes, state),
        ),
{
    assert(sites.take(k + 1).drop_last() =~= sites.take(k));
    assert(sites.take(k + 1).last() == sites[k]);
}

/// Adding up with saturation gives the exact sum, clamped once at the end.
pub proof fn lemma_gathered_is_clamped_sum(parts: Seq<u32>)
    ensures
        gathered(parts) == saturate(sum(parts)),
        sum(parts) >= 0,
    decreases parts.len(),
{
    if parts.len() > 0 {
        lemma_gathered_is_clamped_sum(parts.drop_last());
    }
}

/// Taking one entry out of a sequence takes its value off the sum.
pub proof fn lemma_sum_remove(parts: Seq<u32>, i: int)
    requires
        0 <= i < parts.len(),
    ensures
        sum(parts) == sum(parts.remove(i)) + parts[i],
    decreases parts.len(),
{
    if i == parts.len() - 1 {
        assert(parts.remove(i) =~= parts.drop_last());
    } else {
        lemma_sum_remove(parts.drop_last(), i);
        assert(parts.remove(i).drop_last() =~= parts.drop_last().remove(i));
        assert(parts.remove(i).last() == parts.last());
    }
}

/// The exact sum does not depend on the order of its parts.
pub proof fn lemma_sum_reorders(a: Seq<u32>, b: Seq<u32>)
    requires
        a.to_multiset() == b.to_multiset(),
    ensures
        sum(a) == sum(b),
    decreases a.len(),
{
    broadcast use vstd::seq_lib::group_to_multiset_ensures;

    assert(a.len() == a.to_multiset().len() && b.len() == b.to_multiset().len());
    if a.len() > 0 {
        let x = a.last();
        assert(a.to_multiset().count(x) > 0) by {
            assert(a.contains(x));
        }
        assert(b.contains(x));
        let i = choose|i: int| 0 <= i < b.len() && b[i] == x;
        assert(a.drop_last() =~= a.remove(a.len() - 1));
        assert(a.drop_last().to_multiset() =~= b.remove(i).to_multiset());
        lemma_sum_reorders(a.drop_last(), b.remove(i));
        lemma_sum_remove(b, i);
    }
}

/// The running aggregate does not depend on the order in which the
/// contributions arrive: two sequences with the same entries, in whatever
/// order, gather to the same aggregate.
pub proof fn lemma_gathered_reorders(a: Seq<u32>, b: Seq<u32>)
    requires
        a.to_multiset() == b.to_multiset(),
    ensures
        gathered(a) == gathered(b),
{
    lemma_sum_reorders(a, b);
    lemma_gathered_is_clamped_sum(a);
    lemma_gathered_is_clamped_sum(b);
}

/// The running aggregate at the end of a pass that started with nothing
/// gathered is the contributions of the pass, gathered.
pub proof fn lemma_bonus_is_gathered(sites: Seq<PatchSite>, sizes: HeapSizeConfig, image: Seq<u8>)
    requires
        no_aggregate(sites),
    ensures
        pass(sites, sizes, (image, 0u32)).1 == gathered(contributions(sites, sizes, image)),
    decreases sites.len(),
{
    if sites.len() > 0 {
        let front = sites.drop_last();
        assert forall|i: int| 0 <= i < front.len() implies !((
        #[trigger] front[i]).operation is AggregateApply) by {
            assert(front[i] == sites[i]);
        }
        lemma_bonus_is_gathered(front, sizes, image);
        let earlier = contributions(front, sizes, image);
        match sites.last().operation {
            Operation::ScaledMultiply(category, true) => {
                let part = spillover(
                    word_at(pass(front, sizes, (image, 0u32)).0, sites.last().offset as int),
                    sizes.factor(category),
                );
                assert(earlier.push(part).drop_last() =~= earlier);
            },
            _ => {},
        }
    }
}

/// The aggregate site has the exact value that covers both demands on it:
/// at least its own scaled size and at least its size plus the aggregate,
/// each clamped to 32 bits, and equal to the larger of the two.
pub proof fn lemma_aggregate_covers_both(existing: u32, scale: u32, bonus: u32)
    ensures
        aggregate_value(existing, scale, bonus) >= scaled(existing, scale),
        aggregate_value(existing, scale, bonus) >= saturate(existing + bonus),
        aggregate_value(existing, scale, bonus) == scaled(existing, scale) || aggregate_value(
            existing,
            scale,
            bonus,
        ) == saturate(existing + bonus),
        aggregate_value(existing, scale, bonus) >= existing,
{
    crate::scaling::lemma_scaled_grows(existing, scale);
}

/// Where neither demand overflows 32 bits, the aggregate site holds exactly
/// the larger of `existing * scale` and `existing + bonus`.
pub proof fn lemma_aggregate_exact(existing: u32, scale: u32, bonus: u32)
    requires
        scale >= 1,
        existing * scale <= u32::MAX,
        existing + bonus <= u32::MAX,
    ensures
        aggregate_value(existing, scale, bonus) >= existing * scale,
        aggregate_value(existing, scale, bonus) >= existing + bonus,
        aggregate_value(existing, scale, bonus) == existing * scale || aggregate_value(
            existing,
            scale,
            bonus,
        ) == existing + bonus,
{
}

/// Whether the four bytes at `at` share no byte with any site of `sites`.
pub open spec fn clear_of(sites: Seq<PatchSite>, at: int) -> bool {
    forall|j: int|
        0 <= j < sites.len() ==> (#[trigger] sites[j]).offset + 4 <= at || at + 4
            <= sites[j].offset
}

/// A pass leaves a word that none of its sites overlaps as it was.
pub proof fn lemma_pass_keeps_word(
    sites: Seq<PatchSite>,
    sizes: HeapSizeConfig,
    state: (Seq<u8>, u32),
    at: int,
)
    requires
        fits(sites, state.0.len()),
        in_image(state.0.len(), at),
        clear_of(sites, at),
    ensures
        word_at(pass(sites, sizes, state).0, at) == word_at(state.0, at),
    decreases sites.len(),
{
    if sites.len() > 0 {
        let front = sites.drop_last();
        assert forall|j: int| 0 <= j < front.len() implies in_image(
            state.0.len(),
            (#[trigger] front[j]).offset as int,
        ) && (front[j].offset + 4 <= at || at + 4 <= front[j].offset) by {
            assert(front[j] == sites[j]);
        }
        lemma_pass_keeps_word(front, sizes, state, at);
        lemma_pass_keeps_length(front, sizes, state);
        let before = pass(front, sizes, state);
        let site = sites.last();
        assert(site == sites[sites.len() - 1]);
        crate::image::lemma_word_untouched(
            before.0,
            site.offset as int,
            patched_word(site.operation, word_at(before.0, site.offset as int), sizes, before.1),
            at,
        );
    }
}

/// In a plan whose sites share no byte, every site ends up holding what its
/// own operation makes of the word that was there before the pass, whatever
/// the other sites did: no site is left with a stale value and none is
/// overwritten by a later one.
pub proof fn lemma_disjoint_pass_word(
    sites: Seq<PatchSite>,
    sizes: HeapSizeConfig,
    state: (Seq<u8>, u32),
    i: int,
)
    requires
        fits(sites, state.0.len()),
        disjoint(sites),
        0 <= i < sites.len(),
    ensures
        word_at(pass(sites, sizes, state).0, sites[i].offset as int) == patched_word(
            sites[i].operation,
            word_at(state.0, sites[i].offset as int),
            sizes,
            pass(sites.take(i), sizes, state).1,
        ),
{
    let at = sites[i].offset as int;
    let head = sites.take(i);
    let upto = sites.take(i + 1);
    let tail = sites.skip(i + 1);
    assert(in_image(state.0.len(), at));
    assert forall|j: int| 0 <= j < head.len() implies in_image(
        state.0.len(),
        (#[trigger] head[j]).offset as int,
    ) && (head[j].offset + 4 <= at || at + 4 <= head[j].offset) by {
        assert(head[j] == sites[j]);
    }
    lemma_pass_keeps_word(head, sizes, state, at);
    lemma_pass_keeps_length(head, sizes, state);
    lemma_pass_step(sites, sizes, state, i);
    let before = pass(head, sizes, state);
    let word = patched_word(sites[i].operation, word_at(before.0, at), sizes, before.1);
    crate::image::lemma_word_read_back(before.0, at, word);
    let middle = pass(upto, sizes, state);
    assert(word_at(middle.0, at) == word);
    assert forall|j: int| 0 <= j < tail.len() implies in_image(
        middle.0.len(),
        (#[trigger] tail[j]).offset as int,
    ) && (tail[j].offset + 4 <= at || at + 4 <= tail[j].offset) by {
        assert(tail[j] == sites[i + 1 + j]);
    }
    lemma_pass_keeps_word(tail, sizes, middle, at);
    assert(upto + tail =~= sites);
    lemma_pass_concat(upto, tail, sizes, state);
}

/// A pass leaves every byte that lies in none of its sites as it was.
pub proof fn lemma_pass_keeps_other_bytes(
    sites: Seq<PatchSite>,
    sizes: HeapSizeConfig,
    state: (Seq<u8>, u32),
    at: int,
)
    requires
        0 <= at < state.0.len(),
        forall|j: int|
            0 <= j < sites.len() ==> at < (#[trigger] sites[j]).offset || sites[j].offset + 4
                <= at,
    ensures
        pass(sites, sizes, state).0[at] == state.0[at],
    decreases sites.len(),
{
    if sites.len() > 0 {
        let front = sites.drop_last();
        assert forall|j: int| 0 <= j < front.len() implies at < (#[trigger] front[j]).offset
            || front[j].offset + 4 <= at by {
            assert(front[j] == sites[j]);
        }
        lemma_pass_keeps_other_bytes(front, sizes, state, at);
        lemma_pass_keeps_length(front, sizes, state);
        assert(sites.last() == sites[sites.len() - 1]);
    }
}

/// What the contributing sites of `sites` add to the running aggregate when
/// each of them finds the word that `image` holds at its offset.
pub open spec fn spills(sites: Seq<PatchSite>, sizes: HeapSizeConfig, image: Seq<u8>) -> Seq<u32>
    decreases sites.len(),
{
    if sites.len() == 0 {
        Seq::empty()
    } else {
        let earlier = spills(sites.drop_last(), sizes, image);
        match sites.last().operation {
            Operation::ScaledMultiply(category, true) => earlier.push(
                spillover(word_at(image, sites.last().offset as int), sizes.factor(category)),
            ),
            _ => earlier,
        }
    }
}

/// In a plan whose sites share no byte, every contributing site finds the
/// word that the image held before the pass, so the contributions follow
/// from that image alone.
pub proof fn lemma_disjoint_contributions(
    sites: Seq<PatchSite>,
    sizes: HeapSizeConfig,
    image: Seq<u8>,
)
    requires
        fits(sites, image.len()),
        disjoint(sites),
    ensures
        contributions(sites, sizes, image) == spills(sites, sizes, image),
    decreases sites.len(),
{
    if sites.len() > 0 {
        let front = sites.drop_last();
        let at = sites.last().offset as int;
        assert(sites.last() == sites[sites.len() - 1]);
        assert forall|j: int| 0 <= j < front.len() implies in_image(
            image.len(),
            (#[trigger] front[j]).offset as int,
        ) && (front[j].offset + 4 <= at || at + 4 <= front[j].offset) by {
            assert(front[j] == sites[j]);
        }
        assert forall|i: int, j: int| 0 <= i < j < front.len() implies (
        #[trigger] front[i]).offset + 4 <= (#[trigger] front[j]).offset || front[j].offset + 4
            <= front[i].offset by {
            assert(front[i] == sites[i] && front[j] == sites[j]);
        }
        lemma_disjoint_contributions(front, sizes, image);
        lemma_pass_keeps_word(front, sizes, (image, 0u32), at);
    }
}

/// What a whole pass leaves at each site of a well-ordered plan whose sites
/// share no byte, in terms of the image before the pass alone: a literal
/// site holds its value, a multiply site the word that was there, scaled,
/// and the aggregate site the larger of the word that was there, scaled, and
/// that word plus everything that the contributing sites of the plan spill.
pub proof fn lemma_pass_site_by_site(
    sites: Seq<PatchSite>,
    sizes: HeapSizeConfig,
    image: Seq<u8>,
    i: int,
)
    requires
        fits(sites, image.len()),
        disjoint(sites),
        well_ordered(sites),
        0 <= i < sites.len(),
    ensures
        word_at(pass(sites, sizes, (image, 0u32)).0, sites[i].offset as int) == patched_word(
            sites[i].operation,
            word_at(image, sites[i].offset as int),
            sizes,
            gathered(spills(sites, sizes, image)),
        ),
{
    lemma_disjoint_pass_word(sites, sizes, (image, 0u32), i);
    if sites[i].operation is AggregateApply {
        lemma_aggregate_reads_all(sites, sizes, image, i);
        lemma_disjoint_contributions(sites, sizes, image);
    }
}

/// Sites that do not contribute add nothing to the contributions.
pub proof fn lemma_contributions_tail(
    sites: Seq<PatchSite>,
    sizes: HeapSizeConfig,
    image: Seq<u8>,
    k: int,
    n: int,
)
    requires
        0 <= k <= n <= sites.len(),
        forall|j: int| k <= j < n ==> !((#[trigger] sites[j]).operation is ScaledMultiply),
    ensures
        contributions(sites.take(n), sizes, image) == contributions(sites.take(k), sizes, image),
    decreases n - k,
{
    if k < n {
        lemma_contributions_tail(sites, sizes, image, k, n - 1);
        assert(sites.take(n).drop_last() =~= sites.take(n - 1));
        assert(sites.take(n).last() == sites[n - 1]);
    }
}

/// In a well-ordered plan the aggregate site reads the final aggregate: the
/// contributions of every contributing site of the whole plan, gathered.
pub proof fn lemma_aggregate_reads_all(
    sites: Seq<PatchSite>,
    sizes: HeapSizeConfig,
    image: Seq<u8>,
    k: int,
)
    requires
        well_ordered(sites),
        0 <= k < sites.len(),
        sites[k].operation is AggregateApply,
    ensures
        pass(sites.take(k), sizes, (image, 0u32)).1 == gathered(
            contributions(sites, sizes, image),
        ),
{
    let head = sites.take(k);
    assert forall|i: int| 0 <= i < head.len() implies !((
    #[trigger] head[i]).operation is AggregateApply) by {
        assert(head[i] == sites[i]);
        if sites[i].operation is AggregateApply {
            assert(sites[k].operation is SetLiteral);
        }
    }
    lemma_bonus_is_gathered(head, sizes, image);
    assert forall|j: int| k <= j < sites.len() implies !((
    #[trigger] sites[j]).operation is ScaledMultiply) by {
        if j > k {
            assert(sites[j].operation is SetLiteral);
        }
    }
    lemma_contributions_tail(sites, sizes, image, k, sites.len() as int);
    assert(sites.take(sites.len() as int) =~= sites);
}

/// Literal writes are well ordered among themselves.
pub proof fn lemma_literals_well_ordered(sites: Seq<PatchSite>)
    requires
        all_literal(sites),
    ensures
        well_ordered(sites),
        no_aggregate(sites),
{
}

/// A plan stays well ordered when literal writes are put behind it.
pub proof fn lemma_well_ordered_with_literals(sites: Seq<PatchSite>, literals: Seq<PatchSite>)
    requires
        well_ordered(sites),
        all_literal(literals),
    ensures
        well_ordered(sites + literals),
{
    let whole = sites + literals;
    assert forall|i: int, j: int|
        0 <= i < j < whole.len() && (#[trigger] whole[i]).operation is AggregateApply implies (
    #[trigger] whole[j]).operation is SetLiteral by {
        if j < sites.len() {
            assert(whole[i] == sites[i] && whole[j] == sites[j]);
        } else {
            assert(whole[j] == literals[j - sites.len()]);
        }
    }
}

/// Sites without an aggregate site stay well ordered when one aggregate
/// site is put behind them.
pub proof fn lemma_well_ordered_with_aggregate(sites: Seq<PatchSite>, last: PatchSite)
    requires
        no_aggregate(sites),
    ensures
        well_ordered(sites.push(last)),
{
    let whole = sites.push(last);
    assert forall|i: int, j: int|
        0 <= i < j < whole.len() && (#[trigger] whole[i]).operation is AggregateApply implies (
    #[trigger] whole[j]).operation is SetLiteral by {
        assert(whole[i] == sites[i]);
    }
}

/// Literal writes put behind literal writes are literal writes.
pub proof fn lemma_literals_concat(first: Seq<PatchSite>, second: Seq<PatchSite>)
    requires
        all_literal(first),
        all_literal(second),
    ensures
        all_literal(first + second),
{
    let whole = first + second;
    assert forall|i: int| 0 <= i < whole.len() implies (
    #[trigger] whole[i]).operation is SetLiteral by {
        if i < first.len() {
            assert(whole[i] == first[i]);
        } else {
            assert(whole[i] == second[i - first.len()]);
        }
    }
}

/// A multiply site whose scale factor is one, or below one and so clamped
/// to one, changes nothing: not the image and not the running aggregate.
pub proof fn lemma_unit_scale_changes_nothing(
    site: PatchSite,
    sizes: HeapSizeConfig,
    state: (Seq<u8>, u32),
)
    requires
        in_image(state.0.len(), site.offset as int),
        site.operation matches Operation::ScaledMultiply(category, _) && sizes.factor(category)
            <= 1,
    ensures
        apply_site(site, sizes, state) == state,
{
    let existing = word_at(state.0, site.offset as int);
    match site.operation {
        Operation::ScaledMultiply(category, contributes) => {
            crate::scaling::lemma_scaled_grows(existing, sizes.factor(category));
            assert(spillover(existing, sizes.factor(category)) == 0) by {
                assert(existing * 0 == 0);
            }
        },
        _ => {},
    }
    crate::image::lemma_word_store_same(state.0, site.offset as int);
}

/// An ordered sequence of patch sites in which nothing but literal writes
/// follows an aggregate site.
#[derive(Debug)]
pub struct PatchPlan {
    sites: Vec<PatchSite>,
}

impl View for PatchPlan {
    type V = Seq<PatchSite>;

    closed spec fn view(&self) -> Seq<PatchSite> {
        self.sites@
    }
}

impl PatchPlan {
    #[verifier::type_invariant]
    spec fn ordered(self) -> bool {
        well_ordered(self.sites@)
    }

    /// The plan that patches `sites` in the order given, if that order is
    /// one in which nothing but literal writes follows an aggregate site.
    pub fn new(sites: Vec<PatchSite>) -> (plan: Option<PatchPlan>)
        ensures
            plan is Some <==> well_ordered(sites@),
            plan is Some ==> plan->0@ == sites@,
    {
        let mut seen = false;
        let mut k: usize = 0;
        while k < sites.len()
            invariant
                k <= sites.len(),
                well_ordered(sites@.take(k as int)),
                seen <==> exists|i: int|
                    0 <= i < k && (#[trigger] sites@[i]).operation is AggregateApply,
            decreases sites.len() - k,
        {
            let literal = match sites[k].operation {
                Operation::SetLiteral(_) => true,
                _ => false,
            };
            if seen && !literal {
                proof {
                    let i = choose|i: int|
                        0 <= i < k && (#[trigger] sites@[i]).operation is AggregateApply;
                    assert(!(sites@[k as int].operation is SetLiteral));
                }
                return None;
            }
            proof {
                let upto = sites@.take(k as int + 1);
                assert forall|i: int, j: int|
                    0 <= i < j < upto.len() && (
                    #[trigger] upto[i]).operation is AggregateApply implies (
                #[trigger] upto[j]).operation is SetLiteral by {
                    assert(upto[i] == sites@[i] && upto[j] == sites@[j]);
                    if j < k {
                        assert(sites@.take(k as int)[i] == sites@[i]);
                        assert(sites@.take(k as int)[j] == sites@[j]);
                    }
                }
            }
            match sites[k].operation {
                Operation::AggregateApply(_) => {
                    seen = true;
                },
                _ => {},
            }
            k = k + 1;
        }
        assert(sites@.take(k as int) =~= sites@);
        Some(PatchPlan { sites })
    }

    /// The sites of the plan, in the order in which they are patched.
    pub fn sites(&self) -> (sites: &Vec<PatchSite>)
        ensures
            sites@ == self@,
            well_ordered(self@),
    {
        proof {
            use_type_invariant(self);
        }
        &self.sites
    }

    /// How many sites the plan patches.
    pub fn len(&self) -> (n: usize)
        ensures
            n == self@.len(),
    {
        self.sites.len()
    }

    /// Whether no two sites of the plan share a byte.
    pub fn is_disjoint(&self) -> (yes: bool)
        ensures
            yes == disjoint(self@),
    {
        let n = self.sites.len();
        let mut j: usize = 0;
        while j < n
            invariant
                j <= n,
                n == self.sites@.len(),
                disjoint(self.sites@.take(j as int)),
            decreases n - j,
        {
            let mut i: usize = 0;
            while i < j
                invariant
                    i <= j < n,
                    n == self.sites@.len(),
                    forall|h: int|
                        0 <= h < i ==> (#[trigger] self.sites@[h]).offset + 4
                            <= self.sites@[j as int].offset || self.sites@[j as int].offset + 4
                            <= self.sites@[h].offset,
                decreases j - i,
            {
                let a = self.sites[i].offset;
                let b = self.sites[j].offset;
                let apart = if a <= b {
                    b - a >= 4
                } else {
                    a - b >= 4
                };
                if !apart {
                    assert(!(self.sites@[i as int].offset + 4 <= self.sites@[j as int].offset
                        || self.sites@[j as int].offset + 4 <= self.sites@[i as int].offset));
                    return false;
                }
                i = i + 1;
            }
            proof {
                let upto = self.sites@.take(j as int + 1);
                assert forall|h: int, l: int| 0 <= h < l < upto.len() implies (
                #[trigger] upto[h]).offset + 4 <= (#[trigger] upto[l]).offset || upto[l].offset
                    + 4 <= upto[h].offset by {
                    assert(upto[h] == self.sites@[h] && upto[l] == self.sites@[l]);
                    if l < j {
                        assert(self.sites@.take(j as int)[h] == self.sites@[h]);
                        assert(self.sites@.take(j as int)[l] == self.sites@[l]);
                    }
                }
            }
            j = j + 1;
        }
        assert(self.sites@.take(j as int) =~= self.sites@);
        true
    }
}

} // verus!

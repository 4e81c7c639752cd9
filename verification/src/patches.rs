//! The patch engine: the scaled-write primitives, the pass over a plan, and
//! the plan that is placed into the known build.
//!
//! The engine works on the image as a slice of bytes whose first byte lies
//! at the image base. Before it touches a site it asks the protection
//! toggler, a function handed in by the caller, to make the four bytes at
//! the site's absolute address writable; a refusal ends the pass at once,
//! with the sites before it patched and the sites from it on untouched.

use vstd::prelude::*;
use crate::catalogue::{
    character_plan, character_sites, morpheme_plan, morpheme_sites, soundbank_plan,
    soundbank_sites, standard_plan, standard_sites,
};
use crate::config::{Config, HeapSizeConfig};
use crate::image::{in_image, read_u32, with_word, word_at, write_u32, ImageLayout, WORD};
use crate::plan::{
    aggregate_value, bonus_with, fits, lemma_literals_well_ordered, lemma_pass_step, pass,
    patched_bonus, patched_word, Operation, PatchPlan, PatchSite,
};
use crate::scaling::{clamp_scale, saturating_product, saturating_sum, scaled};

verus! {

/// Why a pass did not run to its end.
#[derive(Clone, Copy, Debug, PartialEq, Eq, Structural)]
pub enum PatchError {
    /// The image is not the known build, so no site means what the plan
    /// takes it to mean. Nothing was written.
    VersionMismatch,
    /// The platform refused to make a site writable. The sites before it
    /// are patched, the sites from it on are not.
    ProtectionDenied,
    /// The base of the image is unknown, or a site of the plan lies outside
    /// the image. Nothing was written.
    ImageLayoutUnresolvable,
}

/// Whether the toggler may answer that the word at `addr` is now writable.
pub open spec fn granted<F: Fn(usize, usize) -> bool>(toggler: &F, addr: int) -> bool {
    call_ensures(*toggler, (addr as usize, WORD), true)
}

/// Whether the toggler may answer that the word at `addr` stays protected.
pub open spec fn denied<F: Fn(usize, usize) -> bool>(toggler: &F, addr: int) -> bool {
    call_ensures(*toggler, (addr as usize, WORD), false)
}

/// Whether the toggler can be asked about every span.
pub open spec fn askable<F: Fn(usize, usize) -> bool>(toggler: &F) -> bool {
    forall|addr: usize, len: usize| call_requires(*toggler, (addr, len))
}

/// Whether an image of `len` bytes at `base` lies inside the address space
/// and holds the word at `offset`.
pub open spec fn reaches(base: usize, len: nat, offset: usize) -> bool {
    base + len <= usize::MAX && in_image(len, offset as int)
}

/// Whether an image of `len` bytes at `base` lies inside the address space
/// and holds every site of `sites`.
pub open spec fn reaches_all(base: usize, len: nat, sites: Seq<PatchSite>) -> bool {
    base + len <= usize::MAX && fits(sites, len)
}

/// Whether the toggler made every one of the first `k` sites writable.
pub open spec fn granted_upto<F: Fn(usize, usize) -> bool>(
    toggler: &F,
    base: usize,
    sites: Seq<PatchSite>,
    k: int,
) -> bool {
    forall|i: int| 0 <= i < k ==> granted(toggler, base + (#[trigger] sites[i]).offset)
}

/// Whether `error` is the reason for which the word at `offset` was left
/// alone: it lies outside the image, or the toggler refused it.
pub open spec fn refused<F: Fn(usize, usize) -> bool>(
    toggler: &F,
    base: usize,
    len: nat,
    offset: usize,
    error: PatchError,
) -> bool {
    match error {
        PatchError::ImageLayoutUnresolvable => !reaches(base, len, offset),
        PatchError::ProtectionDenied => reaches(base, len, offset) && denied(
            toggler,
            base + offset,
        ),
        PatchError::VersionMismatch => false,
    }
}

/// Whether `after` and `result` are a possible outcome of a pass over
/// `sites` that starts in `before`, image and running aggregate.
///
/// * `Ok`: every site lies in the image, the toggler made each writable, and
///   `after` is the state that the whole pass leaves.
/// * `ImageLayoutUnresolvable`: some site lies outside the image, and
///   nothing changed.
/// * `ProtectionDenied`: every site lies in the image, and there is a site
///   that the toggler refused after it had made all sites before it
///   writable; `after` is the state that the pass over the sites before it
///   leaves.
pub open spec fn passed<F: Fn(usize, usize) -> bool>(
    toggler: &F,
    base: usize,
    sizes: HeapSizeConfig,
    sites: Seq<PatchSite>,
    before: (Seq<u8>, u32),
    after: (Seq<u8>, u32),
    result: Result<(), PatchError>,
) -> bool {
    match result {
        Ok(_) => {
            &&& reaches_all(base, before.0.len(), sites)
            &&& granted_upto(toggler, base, sites, sites.len() as int)
            &&& after == pass(sites, sizes, before)
        },
        Err(PatchError::ImageLayoutUnresolvable) => {
            &&& !reaches_all(base, before.0.len(), sites)
            &&& after == before
        },
        Err(PatchError::ProtectionDenied) => {
            &&& reaches_all(base, before.0.len(), sites)
            &&& exists|k: int|
                {
                    &&& 0 <= k < sites.len()
                    &&& granted_upto(toggler, base, sites, k)
                    &&& denied(toggler, base + sites[k].offset)
                    &&& after == #[trigger] pass(sites.take(k), sizes, before)
                }
        },
        Err(PatchError::VersionMismatch) => false,
    }
}

/// The state of one pass: the configuration it scales by, the image base,
/// and the running aggregate.
#[derive(Clone, Copy, Debug)]
pub struct PatchHelper {
    config: Config,
    base_addr: usize,
    global_heap_bonus: u32,
}

impl PatchHelper {
    /// The configuration whose scale factors the pass applies.
    pub closed spec fn config(self) -> Config {
        self.config
    }

    /// The address of the first byte of the image.
    pub closed spec fn base_addr(self) -> usize {
        self.base_addr
    }

    /// The running aggregate.
    pub closed spec fn bonus(self) -> u32 {
        self.global_heap_bonus
    }

    /// Whether `after` differs from this state in the running aggregate only.
    pub open spec fn same_pass(self, after: PatchHelper) -> bool {
        after.config() == self.config() && after.base_addr() == self.base_addr()
    }

    /// Whether `after`, `image_after` and `result` are a possible outcome of
    /// one attempt at the word at `offset` that, if it succeeds, stores
    /// `word` and leaves the running aggregate at `bonus`.
    pub open spec fn attempted<F: Fn(usize, usize) -> bool>(
        self,
        after: PatchHelper,
        toggler: &F,
        image: Seq<u8>,
        image_after: Seq<u8>,
        offset: usize,
        word: u32,
        bonus: u32,
        result: Result<(), PatchError>,
    ) -> bool {
        &&& self.same_pass(after)
        &&& match result {
            Ok(_) => {
                &&& reaches(self.base_addr(), image.len(), offset)
                &&& granted(toggler, self.base_addr() + offset)
                &&& image_after == with_word(image, offset as int, word)
                &&& after.bonus() == bonus
            },
            Err(error) => {
                &&& refused(toggler, self.base_addr(), image.len(), offset, error)
                &&& image_after == image
                &&& after.bonus() == self.bonus()
            },
        }
    }

    /// The state at the start of a pass over the image at `base`: nothing
    /// gathered yet. Without a base there is no pass.
    pub fn new(config: &Config, base: Option<usize>) -> (helper: Result<PatchHelper, PatchError>)
        ensures
            match helper {
                Ok(h) => base == Some(h.base_addr()) && h.config() == *config && h.bonus() == 0,
                Err(e) => base is None && e == PatchError::ImageLayoutUnresolvable,
            },
    {
        match base {
            Some(base_addr) => Ok(
                PatchHelper { config: *config, base_addr, global_heap_bonus: 0 },
            ),
            None => Err(PatchError::ImageLayoutUnresolvable),
        }
    }

    /// The running aggregate.
    pub fn global_heap_bonus(&self) -> (bonus: u32)
        ensures
            bonus == self.bonus(),
    {
        self.global_heap_bonus
    }

    /// The address of the first byte of the image.
    pub fn base_address(&self) -> (base: usize)
        ensures
            base == self.base_addr(),
    {
        self.base_addr
    }

    /// Asks the toggler to make the word at `addr` writable and executable.
    pub fn set_rwe_memory_u32<F: Fn(usize, usize) -> bool>(toggler: &F, addr: usize) -> (result:
        Result<(), PatchError>)
        requires
            call_requires(*toggler, (addr, WORD)),
        ensures
            result is Ok ==> granted(toggler, addr as int),
            result is Err ==> result == Err::<(), PatchError>(PatchError::ProtectionDenied)
                && denied(toggler, addr as int),
    {
        if toggler(addr, WORD) {
            Ok(())
        } else {
            Err(PatchError::ProtectionDenied)
        }
    }

    /// Resolves `offset` to an address inside the image and has the word
    /// there made writable.
    fn unlock<F: Fn(usize, usize) -> bool>(&self, image: &[u8], toggler: &F, offset: usize) -> (result:
        Result<(), PatchError>)
        requires
            askable(toggler),
        ensures
            match result {
                Ok(_) => reaches(self.base_addr(), image@.len(), offset) && granted(
                    toggler,
                    self.base_addr() + offset,
                ),
                Err(error) => refused(toggler, self.base_addr(), image@.len(), offset, error),
            },
    {
        let layout = match ImageLayout::locate(Some(self.base_addr), image.len()) {
            Some(layout) => layout,
            None => {
                return Err(PatchError::ImageLayoutUnresolvable);
            },
        };
        match layout.resolve(offset) {
            Some(addr) => PatchHelper::set_rwe_memory_u32(toggler, addr),
            None => Err(PatchError::ImageLayoutUnresolvable),
        }
    }

    /// Overwrites the word at `offset` with `val`.
    pub fn set_u32<F: Fn(usize, usize) -> bool>(
        &mut self,
        image: &mut [u8],
        toggler: &F,
        offset: usize,
        val: u32,
    ) -> (result: Result<(), PatchError>)
        requires
            askable(toggler),
        ensures
            old(self).attempted(
                *final(self),
                toggler,
                old(image)@,
                final(image)@,
                offset,
                val,
                old(self).bonus(),
                result,
            ),
    {
        match self.unlock(image, toggler, offset) {
            Ok(_) => {
                write_u32(image, offset, val);
                Ok(())
            },
            Err(error) => Err(error),
        }
    }

    /// Multiplies the word at `offset` by `val`, clamped to at least one,
    /// saturating. With `add_to_global_heap` set, what the multiplication
    /// adds to the word is added to the running aggregate, saturating.
    pub fn mul_u32<F: Fn(usize, usize) -> bool>(
        &mut self,
        image: &mut [u8],
        toggler: &F,
        offset: usize,
        val: u32,
        add_to_global_heap: bool,
    ) -> (result: Result<(), PatchError>)
        requires
            askable(toggler),
        ensures
            old(self).attempted(
                *final(self),
                toggler,
                old(image)@,
                final(image)@,
                offset,
                scaled(word_at(old(image)@, offset as int), val),
                bonus_with(
                    old(self).bonus(),
                    word_at(old(image)@, offset as int),
                    val,
                    add_to_global_heap,
                ),
                result,
            ),
    {
        match self.unlock(image, toggler, offset) {
            Ok(_) => {
                let existing = read_u32(image, offset);
                let scale = clamp_scale(val);
                if add_to_global_heap {
                    self.global_heap_bonus = saturating_sum(
                        self.global_heap_bonus,
                        saturating_product(existing, scale - 1),
                    );
                }
                write_u32(image, offset, saturating_product(existing, scale));
                Ok(())
            },
            Err(error) => Err(error),
        }
    }

    /// Enlarges the word at `offset` by `scale`, clamped to at least one, or
    /// by the running aggregate, whichever gives more.
    pub fn apply_aggregate<F: Fn(usize, usize) -> bool>(
        &mut self,
        image: &mut [u8],
        toggler: &F,
        offset: usize,
        scale: u32,
    ) -> (result: Result<(), PatchError>)
        requires
            askable(toggler),
        ensures
            old(self).attempted(
                *final(self),
                toggler,
                old(image)@,
                final(image)@,
                offset,
                aggregate_value(word_at(old(image)@, offset as int), scale, old(self).bonus()),
                old(self).bonus(),
                result,
            ),
    {
        match self.unlock(image, toggler, offset) {
            Ok(_) => {
                let existing = read_u32(image, offset);
                let with_mul = saturating_product(existing, clamp_scale(scale));
                let with_add = saturating_sum(existing, self.global_heap_bonus);
                let value = if with_mul >= with_add {
                    with_mul
                } else {
                    with_add
                };
                write_u32(image, offset, value);
                Ok(())
            },
            Err(error) => Err(error),
        }
    }

    /// Sizes the global heap at `offset`: by its own scale factor or by the
    /// running aggregate, whichever gives more.
    pub fn set_global_heap_u32<F: Fn(usize, usize) -> bool>(
        &mut self,
        image: &mut [u8],
        toggler: &F,
        offset: usize,
    ) -> (result: Result<(), PatchError>)
        requires
            askable(toggler),
        ensures
            old(self).attempted(
                *final(self),
                toggler,
                old(image)@,
                final(image)@,
                offset,
                aggregate_value(
                    word_at(old(image)@, offset as int),
                    old(self).config().heap_sizes.global,
                    old(self).bonus(),
                ),
                old(self).bonus(),
                result,
            ),
    {
        let scale = self.config.heap_sizes.global;
        self.apply_aggregate(image, toggler, offset, scale)
    }

    /// Patches one site.
    pub fn apply<F: Fn(usize, usize) -> bool>(
        &mut self,
        image: &mut [u8],
        toggler: &F,
        site: &PatchSite,
    ) -> (result: Result<(), PatchError>)
        requires
            askable(toggler),
        ensures
            old(self).attempted(
                *final(self),
                toggler,
                old(image)@,
                final(image)@,
                site.offset,
                patched_word(
                    site.operation,
                    word_at(old(image)@, site.offset as int),
                    old(self).config().heap_sizes,
                    old(self).bonus(),
                ),
                patched_bonus(
                    site.operation,
                    word_at(old(image)@, site.offset as int),
                    old(self).config().heap_sizes,
                    old(self).bonus(),
                ),
                result,
            ),
    {
        match site.operation {
            Operation::SetLiteral(value) => self.set_u32(image, toggler, site.offset, value),
            Operation::ScaledMultiply(category, contributes) => {
                let scale = self.config.heap_sizes.scale(category);
                self.mul_u32(image, toggler, site.offset, scale, contributes)
            },
            Operation::AggregateApply(category) => {
                let scale = self.config.heap_sizes.scale(category);
                self.apply_aggregate(image, toggler, site.offset, scale)
            },
        }
    }

    /// Patches every site of `plan`, first to last. Before the first write
    /// it makes sure that every site lies in the image; after that only the
    /// toggler can stop it.
    #[verifier::loop_isolation(false)]
    pub fn run<F: Fn(usize, usize) -> bool>(
        &mut self,
        image: &mut [u8],
        toggler: &F,
        plan: &PatchPlan,
    ) -> (result: Result<(), PatchError>)
        requires
            askable(toggler),
        ensures
            old(self).same_pass(*final(self)),
            passed(
                toggler,
                old(self).base_addr(),
                old(self).config().heap_sizes,
                plan@,
                (old(image)@, old(self).bonus()),
                (final(image)@, final(self).bonus()),
                result,
            ),
    {
        let sites = plan.sites();
        let n = sites.len();
        let layout = match ImageLayout::locate(Some(self.base_addr), image.len()) {
            Some(layout) => layout,
            None => {
                return Err(PatchError::ImageLayoutUnresolvable);
            },
        };
        let ghost start = (image@, self.global_heap_bonus);
        let ghost sizes = self.config.heap_sizes;
        let ghost base = self.base_addr;
        let ghost entry = *self;
        let mut j: usize = 0;
        while j < n
            invariant
                j <= n,
                forall|i: int|
                    0 <= i < j ==> in_image(image@.len(), (#[trigger] sites@[i]).offset as int),
            decreases n - j,
        {
            if layout.resolve(sites[j].offset).is_none() {
                assert(!in_image(image@.len(), sites@[j as int].offset as int));
                return Err(PatchError::ImageLayoutUnresolvable);
            }
            j = j + 1;
        }
        let mut k: usize = 0;
        assert(sites@.take(0) =~= Seq::<PatchSite>::empty());
        while k < n
            invariant
                k <= n,
                entry.same_pass(*self),
                reaches_all(base, start.0.len(), sites@),
                image@.len() == start.0.len(),
                granted_upto(toggler, base, sites@, k as int),
                (image@, self.global_heap_bonus) == pass(sites@.take(k as int), sizes, start),
            decreases n - k,
        {
            match self.apply(image, toggler, &sites[k]) {
                Ok(_) => {
                    proof {
                        lemma_pass_step(sites@, sizes, start, k as int);
                    }
                },
                Err(error) => {
                    assert(error == PatchError::ProtectionDenied);
                    assert(denied(toggler, base + sites@[k as int].offset));
                    assert((image@, self.global_heap_bonus) == pass(
                        sites@.take(k as int),
                        sizes,
                        start,
                    ));
                    return Err(error);
                },
            }
            k = k + 1;
        }
        assert(sites@.take(n as int) =~= sites@);
        Ok(())
    }

    /// Raises the limits of the morpheme data vector by the morpheme scale
    /// factor: its element count, and its byte size in two places.
    pub fn patch_morpheme_limit<F: Fn(usize, usize) -> bool>(
        &mut self,
        image: &mut [u8],
        toggler: &F,
    ) -> (result: Result<(), PatchError>)
        requires
            askable(toggler),
        ensures
            old(self).same_pass(*final(self)),
            passed(
                toggler,
                old(self).base_addr(),
                old(self).config().heap_sizes,
                morpheme_sites(old(self).config().heap_sizes),
                (old(image)@, old(self).bonus()),
                (final(image)@, final(self).bonus()),
                result,
            ),
    {
        let sites = morpheme_plan(&self.config.heap_sizes);
        proof {
            lemma_literals_well_ordered(sites@);
        }
        let plan = PatchPlan::new(sites).unwrap();
        self.run(image, toggler, &plan)
    }

    /// Enlarges the containers of character resource slots from 32 to 1024
    /// slots, unless the configuration switches that off: every catalogued
    /// site gets the constant that follows from the new capacity, and the
    /// two checks against the old capacity are neutralised.
    pub fn patch_character_resource_limit<F: Fn(usize, usize) -> bool>(
        &mut self,
        image: &mut [u8],
        toggler: &F,
    ) -> (result: Result<(), PatchError>)
        requires
            askable(toggler),
        ensures
            old(self).same_pass(*final(self)),
            passed(
                toggler,
                old(self).base_addr(),
                old(self).config().heap_sizes,
                character_sites(old(self).config()),
                (old(image)@, old(self).bonus()),
                (final(image)@, final(self).bonus()),
                result,
            ),
    {
        let sites = character_plan(&self.config);
        proof {
            lemma_literals_well_ordered(sites@);
        }
        let plan = PatchPlan::new(sites).unwrap();
        self.run(image, toggler, &plan)
    }

    /// Enlarges the container of registered sound banks from 48 to 513
    /// entries, unless the configuration switches that off.
    pub fn patch_soundbank_limit<F: Fn(usize, usize) -> bool>(
        &mut self,
        image: &mut [u8],
        toggler: &F,
    ) -> (result: Result<(), PatchError>)
        requires
            askable(toggler),
        ensures
            old(self).same_pass(*final(self)),
            passed(
                toggler,
                old(self).base_addr(),
                old(self).config().heap_sizes,
                soundbank_sites(old(self).config()),
                (old(image)@, old(self).bonus()),
                (final(image)@, final(self).bonus()),
                result,
            ),
    {
        let sites = soundbank_plan(&self.config);
        proof {
            lemma_literals_well_ordered(sites@);
        }
        let plan = PatchPlan::new(sites).unwrap();
        self.run(image, toggler, &plan)
    }
}

/// Whether `image_after` and `result` are a possible outcome of placing the
/// standard plan for `config` into `image`, mapped at `base`.
///
/// * `Ok`: the image is what the pass over the whole plan leaves.
/// * `ImageLayoutUnresolvable`: the base is unknown or a site lies outside
///   the image, and the image is as it was.
/// * `ProtectionDenied`: the toggler refused some site after it had made
///   all sites before it writable, and the image is what the pass over the
///   sites before it leaves.
pub open spec fn placed<F: Fn(usize, usize) -> bool>(
    toggler: &F,
    config: Config,
    base: Option<usize>,
    image: Seq<u8>,
    image_after: Seq<u8>,
    result: Result<(), PatchError>,
) -> bool {
    let sites = standard_sites(config);
    let start = (image, 0u32);
    match result {
        Ok(_) => {
            &&& base is Some
            &&& reaches_all(base->0, image.len(), sites)
            &&& granted_upto(toggler, base->0, sites, sites.len() as int)
            &&& image_after == pass(sites, config.heap_sizes, start).0
        },
        Err(PatchError::ImageLayoutUnresolvable) => {
            &&& base is None || !reaches_all(base->0, image.len(), sites)
            &&& image_after == image
        },
        Err(PatchError::ProtectionDenied) => {
            &&& base is Some
            &&& reaches_all(base->0, image.len(), sites)
            &&& exists|k: int|
                {
                    &&& 0 <= k < sites.len()
                    &&& granted_upto(toggler, base->0, sites, k)
                    &&& denied(toggler, base->0 + sites[k].offset)
                    &&& image_after == (#[trigger] pass(sites.take(k), config.heap_sizes, start)).0
                }
        },
        Err(PatchError::VersionMismatch) => false,
    }
}

/// Places the standard plan for `config` into `image`, whose first byte
/// lies at `base`: every heap size scaled, the global heap sized from what
/// the others spilled, the morpheme limits raised, the two containers
/// enlarged as far as the configuration asks, the generator limit lifted.
pub fn place_all<F: Fn(usize, usize) -> bool>(
    config: &Config,
    base: Option<usize>,
    image: &mut [u8],
    toggler: &F,
) -> (result: Result<(), PatchError>)
    requires
        askable(toggler),
    ensures
        placed(toggler, *config, base, old(image)@, final(image)@, result),
{
    let mut patch_helper = match PatchHelper::new(config, base) {
        Ok(helper) => helper,
        Err(error) => {
            return Err(error);
        },
    };
    let plan = standard_plan(config);
    let result = patch_helper.run(image, toggler, &plan);
    proof {
        if result == Err::<(), PatchError>(PatchError::ProtectionDenied) {
            let sites = standard_sites(*config);
            let start = (old(image)@, 0u32);
            let k = choose|k: int|
                {
                    &&& 0 <= k < sites.len()
                    &&& granted_upto(toggler, base->0, sites, k)
                    &&& denied(toggler, base->0 + sites[k].offset)
                    &&& (image@, patch_helper.bonus()) == #[trigger] pass(
                        sites.take(k),
                        config.heap_sizes,
                        start,
                    )
                };
            assert(image@ == pass(sites.take(k), config.heap_sizes, start).0);
        }
    }
    result
}

} // verus!

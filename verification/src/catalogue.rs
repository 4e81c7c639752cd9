//! The sites of the known build: where each heap size, each morpheme limit
//! and each constant of the two expanded containers is encoded.
//!
//! Every offset is written as the offset of an instruction from the image
//! base plus the position of the 32-bit operand inside that instruction.
//! Each table is given twice, as the sequence that contracts speak of and
//! as the code that builds it, and the two are proved equal.

use vstd::prelude::*;
use crate::config::{Category, Config, HeapSizeConfig};
use crate::expansion::{
    covers, lemma_defined_constants_fit, lemma_expansion_is_literal, lemma_uniform_offsets,
    literal_sites, ContainerDescriptor, DependentSite, EnclosingLayout, Member, Selector,
};
use crate::image::word_at;
use crate::plan::{
    all_literal, disjoint, fits, gathered, lemma_literals_concat, lemma_pass_site_by_site,
    lemma_well_ordered_with_aggregate, lemma_well_ordered_with_literals, no_aggregate, pass,
    patched_word, spills, well_ordered, Operation, PatchPlan, PatchSite,
};
use crate::scaling::{clamp_scale, saturate, saturating_product, saturating_sum, scaled};

verus! {

/// Elements that the morpheme data vector holds before it is enlarged.
pub const MORPHEME_DATA_FIXED_COUNT: u32 = 0x3000;

/// Size in bytes of one element of the morpheme data vector.
pub const MORPHEME_DATA_ELEMENT_SIZE: u32 = 0x28;

/// Size in bytes of the header in front of the morpheme data.
pub const MORPHEME_DATA_HEADER_SIZE: u32 = 0x28;

/// The multiply site at `at` for the heap of `category`.
pub open spec fn multiply(at: nat, category: Category, contributes: bool) -> PatchSite {
    PatchSite { offset: at as usize, operation: Operation::ScaledMultiply(category, contributes) }
}

/// The literal write of `value` at `at`.
pub open spec fn literal(at: nat, value: u32) -> PatchSite {
    PatchSite { offset: at as usize, operation: Operation::SetLiteral(value) }
}

/// The catalogued site at `at` that holds the constant `selector`.
pub open spec fn dependent(at: nat, selector: Selector) -> DependentSite {
    DependentSite { offset: at as usize, selector }
}

/// The heap sizes, each with the category that scales it and whether its
/// growth spills over into the global heap, and last the global heap itself,
/// which is sized from what the others spilled.
pub open spec fn heap_sites() -> Seq<PatchSite> {
    seq![
        multiply(0xaef57c + 3, Category::Graphics, true),
        multiply(0xaef59c + 3, Category::FileData, false),
        multiply(0xaef5a3 + 4, Category::Sound, true),
        multiply(0xaef5ab + 3, Category::Network, false),
        multiply(0xaef5b2 + 3, Category::StringData, false),
        multiply(0xaef5b9 + 3, Category::Temp, true),
        multiply(0xaef5c0 + 3, Category::Temp2, true),
        multiply(0xaef5c7 + 3, Category::Debug, false),
        multiply(0xaef5ce + 4, Category::Gui, false),
        multiply(0x1c3512 + 2, Category::Regulation, true),
        multiply(0x1c352e + 2, Category::Regulation, false),
        multiply(0x1c357e + 2, Category::Menu, true),
        multiply(0x1c359a + 2, Category::Menu, false),
        multiply(0x1c35f3 + 2, Category::Facegen, true),
        multiply(0x1c360f + 2, Category::Facegen, false),
        multiply(0x1c3670 + 2, Category::Player, true),
        multiply(0x1c368c + 2, Category::Player, false),
        multiply(0x1c372c + 2, Category::Sfx, true),
        multiply(0x1c3748 + 2, Category::Sfx, false),
        multiply(0x1c37a1 + 2, Category::Havok, true),
        multiply(0x1c37c0 + 2, Category::Havok, false),
        multiply(0x1c3819 + 2, Category::SceneGraph, true),
        multiply(0x1c3835 + 2, Category::SceneGraph, false),
        multiply(0x1c388e + 2, Category::Morpheme, true),
        multiply(0x1c38aa + 2, Category::Morpheme, false),
        PatchSite {
            offset: (0xaef595 + 3) as usize,
            operation: Operation::AggregateApply(Category::Global),
        },
    ]
}

/// How many elements the morpheme data vector holds at `scale`.
pub open spec fn morpheme_count(scale: u32) -> u32 {
    scaled(MORPHEME_DATA_FIXED_COUNT, scale)
}

/// How many bytes the morpheme data takes at `scale`, header included.
pub open spec fn morpheme_size(scale: u32) -> u32 {
    saturate(
        saturate(MORPHEME_DATA_ELEMENT_SIZE * morpheme_count(scale)) + MORPHEME_DATA_HEADER_SIZE,
    )
}

/// The sites that hold the element count and the byte size of the morpheme
/// data vector.
pub open spec fn morpheme_sites(sizes: HeapSizeConfig) -> Seq<PatchSite> {
    seq![
        literal(0x5f4f38 + 2, morpheme_count(sizes.morpheme)),
        literal(0x5f4ef2 + 1, morpheme_size(sizes.morpheme)),
        literal(0x5f4f43 + 5, morpheme_size(sizes.morpheme)),
    ]
}

/// The container that holds the character resource slots of one kind:
/// 32 pointers, enlarged 32 times.
pub open spec fn character_descriptor() -> ContainerDescriptor {
    ContainerDescriptor {
        element_stride: 8,
        old_capacity: 32,
        new_capacity: 1024,
        alignment_padding: 8,
        size_field_width: 8,
    }
}

/// The structure that holds the character resources: an allocator pointer
/// and one container for each of the four kinds of resource.
pub open spec fn character_members() -> Seq<Member> {
    seq![
        Member::Field(8),
        Member::Container,
        Member::Container,
        Member::Container,
        Member::Container,
    ]
}

/// Every site whose operand depends on the capacity of the character
/// resource containers.
pub open spec fn character_catalogue() -> Seq<DependentSite> {
    seq![
        dependent(0x165c85 + 3, Selector::MemberSizeField(1)),
        dependent(0x165c8c + 3, Selector::MemberSizeField(2)),
        dependent(0x165c93 + 3, Selector::MemberSizeField(3)),
        dependent(0x165c9a + 3, Selector::MemberSizeField(4)),
        dependent(0x1663ad + 3, Selector::TotalSize),
        dependent(0x1663b7 + 3, Selector::SizeFieldOffset),
        dependent(0x166402 + 3, Selector::SizeFieldOffset),
        dependent(0x166419 + 3, Selector::SizeFieldOffset),
        dependent(0x166470 + 3, Selector::SizeFieldOffset),
        dependent(0x166492 + 3, Selector::SizeFieldOffset),
        dependent(0x1664b8 + 3, Selector::TotalSize),
        dependent(0x1664c3 + 3, Selector::TotalSize),
        dependent(0x166567 + 3, Selector::SizeFieldOffset),
        dependent(0x1665c0 + 3, Selector::MemberOffset(2)),
        dependent(0x1665ca + 3, Selector::SizeFieldOffset),
        dependent(0x166620 + 3, Selector::MemberOffset(2)),
        dependent(0x16662a + 3, Selector::SizeFieldOffset),
        dependent(0x166687 + 3, Selector::SizeFieldOffset),
        dependent(0x1666e0 + 3, Selector::MemberOffset(4)),
        dependent(0x1666ea + 3, Selector::SizeFieldOffset),
        dependent(0x167279 + 3, Selector::SizeFieldOffset),
        dependent(0x167289 + 3, Selector::TotalSize),
        dependent(0x1673eb + 3, Selector::SizeFieldOffset),
        dependent(0x167432 + 3, Selector::TotalSize),
        dependent(0x1674c0 + 3, Selector::SizeFieldOffset),
        dependent(0x1674d0 + 3, Selector::TotalSize),
        dependent(0x167540 + 3, Selector::SizeFieldOffset),
        dependent(0x16755e + 3, Selector::SizeFieldOffset),
        dependent(0x167585 + 3, Selector::SizeFieldOffset),
        dependent(0x167592 + 3, Selector::SizeFieldOffset),
        dependent(0x1675ac + 3, Selector::TotalSize),
        dependent(0x16766e + 3, Selector::TotalSize),
        dependent(0x16767b + 3, Selector::SizeFieldOffset),
        dependent(0x1677a4 + 3, Selector::TotalSize),
        dependent(0x1677b1 + 3, Selector::SizeFieldOffset),
        dependent(0x1677e5 + 4, Selector::TotalSize),
        dependent(0x16793d + 3, Selector::SizeFieldOffset),
        dependent(0x167951 + 3, Selector::SizeFieldOffset),
        dependent(0x1677ee + 2, Selector::Neutralized(0)),
        dependent(0x167947 + 0, Selector::Neutralized(0xF9909090)),
        dependent(0x1679ca + 3, Selector::TotalSize),
        dependent(0x1679d7 + 3, Selector::SizeFieldOffset),
        dependent(0x350e16 + 1, Selector::EnclosingSize),
    ]
}

/// The container that holds the registered sound banks: 48 entries of 632
/// bytes, enlarged to 513 entries.
pub open spec fn soundbank_descriptor() -> ContainerDescriptor {
    ContainerDescriptor {
        element_stride: 632,
        old_capacity: 48,
        new_capacity: 513,
        alignment_padding: 8,
        size_field_width: 8,
    }
}

/// The structure that holds the registered sound banks: a count, padded to
/// eight bytes, and the container.
pub open spec fn soundbank_members() -> Seq<Member> {
    seq![Member::Field(8), Member::Container]
}

/// Every site whose operand depends on the capacity of the sound bank
/// container.
pub open spec fn soundbank_catalogue() -> Seq<DependentSite> {
    seq![
        dependent(0xb07741 + 1, Selector::EnclosingSize),
        dependent(0xb57dfa + 3, Selector::MemberSizeField(1)),
        dependent(0xb57d74 + 3, Selector::MemberSizeField(1)),
        dependent(0xb58113 + 3, Selector::SizeFieldOffset),
        dependent(0xb5825d + 0, Selector::Neutralized(0xF9909090)),
        dependent(0xb5825d + 4, Selector::Neutralized(0x90909090)),
        dependent(0xb583c6 + 3, Selector::SizeFieldOffset),
        dependent(0xb58521 + 3, Selector::SizeFieldOffset),
        dependent(0xb58549 + 3, Selector::SizeFieldOffset),
        dependent(0xb58575 + 3, Selector::SizeFieldOffset),
        dependent(0xb5857c + 3, Selector::MemberSizeField(1)),
        dependent(0xb58654 + 3, Selector::SizeFieldOffset),
        dependent(0xb5865e + 0, Selector::Neutralized(0xF9909090)),
        dependent(0xb58667 + 3, Selector::SizeFieldOffset),
    ]
}

/// The writes that enlarge the character resource containers, or none when
/// the configuration switches that off.
pub open spec fn character_sites(config: Config) -> Seq<PatchSite> {
    if config.patch_character_limit {
        literal_sites(character_descriptor(), character_members(), character_catalogue())
    } else {
        Seq::empty()
    }
}

/// The writes that enlarge the sound bank container, or none when the
/// configuration switches that off.
pub open spec fn soundbank_sites(config: Config) -> Seq<PatchSite> {
    if config.patch_soundbank_limit {
        literal_sites(soundbank_descriptor(), soundbank_members(), soundbank_catalogue())
    } else {
        Seq::empty()
    }
}

/// The site that holds the limit of 255 enemy generators, which is lifted.
pub open spec fn generator_sites() -> Seq<PatchSite> {
    seq![literal(0x40e7d8 + 2, 0)]
}

/// Everything that is placed into the known build, in order: the heaps with
/// the global heap last among them, the morpheme limits, the two container
/// expansions as far as they are switched on, and the generator limit.
pub open spec fn standard_sites(config: Config) -> Seq<PatchSite> {
    heap_sites() + morpheme_sites(config.heap_sizes) + character_sites(config) + soundbank_sites(
        config,
    ) + generator_sites()
}

/// Enters a multiply site into a list that holds no aggregate site.
fn push_multiply(sites: &mut Vec<PatchSite>, at: usize, category: Category, contributes: bool)
    requires
        no_aggregate(old(sites)@),
    ensures
        final(sites)@ == old(sites)@.push(multiply(at as nat, category, contributes)),
        no_aggregate(final(sites)@),
{
    sites.push(PatchSite { offset: at, operation: Operation::ScaledMultiply(category, contributes) });
    proof {
        let grown = sites@;
        assert forall|i: int| 0 <= i < grown.len() implies !((
        #[trigger] grown[i]).operation is AggregateApply) by {
            if i < grown.len() - 1 {
                assert(grown[i] == old(sites)@[i]);
            }
        }
    }
}

/// The heap sites, in the order in which they are patched.
pub fn heap_plan() -> (sites: Vec<PatchSite>)
    ensures
        sites@ == heap_sites(),
        well_ordered(sites@),
{
    let mut sites: Vec<PatchSite> = Vec::new();
    push_multiply(&mut sites, 0xaef57c + 3, Category::Graphics, true);
    push_multiply(&mut sites, 0xaef59c + 3, Category::FileData, false);
    push_multiply(&mut sites, 0xaef5a3 + 4, Category::Sound, true);
    push_multiply(&mut sites, 0xaef5ab + 3, Category::Network, false);
    push_multiply(&mut sites, 0xaef5b2 + 3, Category::StringData, false);
    push_multiply(&mut sites, 0xaef5b9 + 3, Category::Temp, true);
    push_multiply(&mut sites, 0xaef5c0 + 3, Category::Temp2, true);
    push_multiply(&mut sites, 0xaef5c7 + 3, Category::Debug, false);
    push_multiply(&mut sites, 0xaef5ce + 4, Category::Gui, false);
    push_multiply(&mut sites, 0x1c3512 + 2, Category::Regulation, true);
    push_multiply(&mut sites, 0x1c352e + 2, Category::Regulation, false);
    push_multiply(&mut sites, 0x1c357e + 2, Category::Menu, true);
    push_multiply(&mut sites, 0x1c359a + 2, Category::Menu, false);
    push_multiply(&mut sites, 0x1c35f3 + 2, Category::Facegen, true);
    push_multiply(&mut sites, 0x1c360f + 2, Category::Facegen, false);
    push_multiply(&mut sites, 0x1c3670 + 2, Category::Player, true);
    push_multiply(&mut sites, 0x1c368c + 2, Category::Player, false);
    push_multiply(&mut sites, 0x1c372c + 2, Category::Sfx, true);
    push_multiply(&mut sites, 0x1c3748 + 2, Category::Sfx, false);
    push_multiply(&mut sites, 0x1c37a1 + 2, Category::Havok, true);
    push_multiply(&mut sites, 0x1c37c0 + 2, Category::Havok, false);
    push_multiply(&mut sites, 0x1c3819 + 2, Category::SceneGraph, true);
    push_multiply(&mut sites, 0x1c3835 + 2, Category::SceneGraph, false);
    push_multiply(&mut sites, 0x1c388e + 2, Category::Morpheme, true);
    push_multiply(&mut sites, 0x1c38aa + 2, Category::Morpheme, false);
    proof {
        lemma_well_ordered_with_aggregate(
            sites@,
            PatchSite {
                offset: (0xaef595 + 3) as usize,
                operation: Operation::AggregateApply(Category::Global),
            },
        );
    }
    sites.push(
        PatchSite { offset: 0xaef595 + 3, operation: Operation::AggregateApply(Category::Global) },
    );
    sites
}

/// The morpheme sites for the scale factors `sizes`.
pub fn morpheme_plan(sizes: &HeapSizeConfig) -> (sites: Vec<PatchSite>)
    ensures
        sites@ == morpheme_sites(*sizes),
        all_literal(sites@),
{
    let count = saturating_product(MORPHEME_DATA_FIXED_COUNT, clamp_scale(sizes.morpheme));
    let size = saturating_sum(
        saturating_product(MORPHEME_DATA_ELEMENT_SIZE, count),
        MORPHEME_DATA_HEADER_SIZE,
    );
    let mut sites: Vec<PatchSite> = Vec::new();
    sites.push(PatchSite { offset: 0x5f4f38 + 2, operation: Operation::SetLiteral(count) });
    sites.push(PatchSite { offset: 0x5f4ef2 + 1, operation: Operation::SetLiteral(size) });
    sites.push(PatchSite { offset: 0x5f4f43 + 5, operation: Operation::SetLiteral(size) });
    sites
}

/// The container of character resource slots inside the structure that
/// holds the four of them.
pub fn character_layout() -> (layout: EnclosingLayout)
    ensures
        layout.descriptor == character_descriptor(),
        layout.members@ == character_members(),
{
    let descriptor = ContainerDescriptor::scaled_up(8, 32, 32, 8, 8).unwrap();
    let mut members: Vec<Member> = Vec::new();
    members.push(Member::Field(8));
    members.push(Member::Container);
    members.push(Member::Container);
    members.push(Member::Container);
    members.push(Member::Container);
    EnclosingLayout { descriptor, members }
}

/// The sound bank container inside the structure that holds it.
pub fn soundbank_layout() -> (layout: EnclosingLayout)
    ensures
        layout.descriptor == soundbank_descriptor(),
        layout.members@ == soundbank_members(),
{
    let descriptor = ContainerDescriptor {
        element_stride: 632,
        old_capacity: 48,
        new_capacity: 513,
        alignment_padding: 8,
        size_field_width: 8,
    };
    let mut members: Vec<Member> = Vec::new();
    members.push(Member::Field(8));
    members.push(Member::Container);
    EnclosingLayout { descriptor, members }
}

/// The constants of the character resource containers: each container takes
/// 8208 bytes with its size field at 8200, container `k` of the four starts
/// at `8 + k * 8208`, and the structure takes 32840 bytes.
pub proof fn lemma_character_constants()
    ensures
        character_descriptor().new_capacity == character_descriptor().old_capacity * 32,
        character_descriptor().total_size() == 8208,
        character_descriptor().size_field_offset() == 8200,
        forall|k: int|
            1 <= k <= 5 ==> character_descriptor().span(#[trigger] character_members().take(k))
                == 8 + (k - 1) * 8208,
        character_descriptor().span(character_members()) == 32840,
        forall|selector: Selector|
            crate::expansion::defines(character_members(), selector)
                ==> #[trigger] crate::expansion::yields(
                character_descriptor(),
                character_members(),
                selector,
            ),
{
    let d = character_descriptor();
    let m = character_members();
    assert(d.total_size() == 8208);
    assert forall|k: int| 1 <= k <= 5 implies d.span(#[trigger] m.take(k)) == 8 + (k - 1)
        * 8208 by {
        lemma_uniform_offsets(d, m, 8, k);
    }
    assert(m.take(5) =~= m);
    assert forall|selector: Selector| crate::expansion::defines(m, selector)
        implies #[trigger] crate::expansion::yields(d, m, selector) by {
        lemma_defined_constants_fit(d, m, selector);
    }
}

/// The constants of the sound bank container: it takes 324232 bytes with its
/// size field at 324224, and starts at 8 in a structure of 324240 bytes.
pub proof fn lemma_soundbank_constants()
    ensures
        soundbank_descriptor().total_size() == 324232,
        soundbank_descriptor().size_field_offset() == 324224,
        soundbank_descriptor().span(soundbank_members().take(1)) == 8,
        soundbank_descriptor().span(soundbank_members()) == 324240,
        forall|selector: Selector|
            crate::expansion::defines(soundbank_members(), selector)
                ==> #[trigger] crate::expansion::yields(
                soundbank_descriptor(),
                soundbank_members(),
                selector,
            ),
{
    let d = soundbank_descriptor();
    let m = soundbank_members();
    assert(d.total_size() == 324232);
    lemma_uniform_offsets(d, m, 8, 1);
    lemma_uniform_offsets(d, m, 8, 2);
    assert(m.take(2) =~= m);
    assert forall|selector: Selector| crate::expansion::defines(m, selector)
        implies #[trigger] crate::expansion::yields(d, m, selector) by {
        lemma_defined_constants_fit(d, m, selector);
    }
}

/// The catalogue of the character resource containers.
pub fn character_table() -> (catalogue: Vec<DependentSite>)
    ensures
        catalogue@ == character_catalogue(),
        covers(character_descriptor(), character_members(), catalogue@),
{
    proof {
        lemma_character_constants();
    }
    let layout = character_layout();
    let mut catalogue: Vec<DependentSite> = Vec::new();
    assert(covers(layout.descriptor, layout.members@, catalogue@)) by {
        reveal(covers);
    }
    layout.list(&mut catalogue, 0x165c85 + 3, Selector::MemberSizeField(1));
    layout.list(&mut catalogue, 0x165c8c + 3, Selector::MemberSizeField(2));
    layout.list(&mut catalogue, 0x165c93 + 3, Selector::MemberSizeField(3));
    layout.list(&mut catalogue, 0x165c9a + 3, Selector::MemberSizeField(4));
    layout.list(&mut catalogue, 0x1663ad + 3, Selector::TotalSize);
    layout.list(&mut catalogue, 0x1663b7 + 3, Selector::SizeFieldOffset);
    layout.list(&mut catalogue, 0x166402 + 3, Selector::SizeFieldOffset);
    layout.list(&mut catalogue, 0x166419 + 3, Selector::SizeFieldOffset);
    layout.list(&mut catalogue, 0x166470 + 3, Selector::SizeFieldOffset);
    layout.list(&mut catalogue, 0x166492 + 3, Selector::SizeFieldOffset);
    layout.list(&mut catalogue, 0x1664b8 + 3, Selector::TotalSize);
    layout.list(&mut catalogue, 0x1664c3 + 3, Selector::TotalSize);
    layout.list(&mut catalogue, 0x166567 + 3, Selector::SizeFieldOffset);
    layout.list(&mut catalogue, 0x1665c0 + 3, Selector::MemberOffset(2));
    layout.list(&mut catalogue, 0x1665ca + 3, Selector::SizeFieldOffset);
    layout.list(&mut catalogue, 0x166620 + 3, Selector::MemberOffset(2));
    layout.list(&mut catalogue, 0x16662a + 3, Selector::SizeFieldOffset);
    layout.list(&mut catalogue, 0x166687 + 3, Selector::SizeFieldOffset);
    layout.list(&mut catalogue, 0x1666e0 + 3, Selector::MemberOffset(4));
    layout.list(&mut catalogue, 0x1666ea + 3, Selector::SizeFieldOffset);
    layout.list(&mut catalogue, 0x167279 + 3, Selector::SizeFieldOffset);
    layout.list(&mut catalogue, 0x167289 + 3, Selector::TotalSize);
    layout.list(&mut catalogue, 0x1673eb + 3, Selector::SizeFieldOffset);
    layout.list(&mut catalogue, 0x167432 + 3, Selector::TotalSize);
    layout.list(&mut catalogue, 0x1674c0 + 3, Selector::SizeFieldOffset);
    layout.list(&mut catalogue, 0x1674d0 + 3, Selector::TotalSize);
    layout.list(&mut catalogue, 0x167540 + 3, Selector::SizeFieldOffset);
    layout.list(&mut catalogue, 0x16755e + 3, Selector::SizeFieldOffset);
    layout.list(&mut catalogue, 0x167585 + 3, Selector::SizeFieldOffset);
    layout.list(&mut catalogue, 0x167592 + 3, Selector::SizeFieldOffset);
    layout.list(&mut catalogue, 0x1675ac + 3, Selector::TotalSize);
    layout.list(&mut catalogue, 0x16766e + 3, Selector::TotalSize);
    layout.list(&mut catalogue, 0x16767b + 3, Selector::SizeFieldOffset);
    layout.list(&mut catalogue, 0x1677a4 + 3, Selector::TotalSize);
    layout.list(&mut catalogue, 0x1677b1 + 3, Selector::SizeFieldOffset);
    layout.list(&mut catalogue, 0x1677e5 + 4, Selector::TotalSize);
    layout.list(&mut catalogue, 0x16793d + 3, Selector::SizeFieldOffset);
    layout.list(&mut catalogue, 0x167951 + 3, Selector::SizeFieldOffset);
    layout.list(&mut catalogue, 0x1677ee + 2, Selector::Neutralized(0));
    layout.list(&mut catalogue, 0x167947 + 0, Selector::Neutralized(0xF9909090));
    layout.list(&mut catalogue, 0x1679ca + 3, Selector::TotalSize);
    layout.list(&mut catalogue, 0x1679d7 + 3, Selector::SizeFieldOffset);
    layout.list(&mut catalogue, 0x350e16 + 1, Selector::EnclosingSize);
    catalogue
}

/// The catalogue of the sound bank container.
pub fn soundbank_table() -> (catalogue: Vec<DependentSite>)
    ensures
        catalogue@ == soundbank_catalogue(),
        covers(soundbank_descriptor(), soundbank_members(), catalogue@),
{
    proof {
        lemma_soundbank_constants();
    }
    let layout = soundbank_layout();
    let mut catalogue: Vec<DependentSite> = Vec::new();
    assert(covers(layout.descriptor, layout.members@, catalogue@)) by {
        reveal(covers);
    }
    layout.list(&mut catalogue, 0xb07741 + 1, Selector::EnclosingSize);
    layout.list(&mut catalogue, 0xb57dfa + 3, Selector::MemberSizeField(1));
    layout.list(&mut catalogue, 0xb57d74 + 3, Selector::MemberSizeField(1));
    layout.list(&mut catalogue, 0xb58113 + 3, Selector::SizeFieldOffset);
    layout.list(&mut catalogue, 0xb5825d + 0, Selector::Neutralized(0xF9909090));
    layout.list(&mut catalogue, 0xb5825d + 4, Selector::Neutralized(0x90909090));
    layout.list(&mut catalogue, 0xb583c6 + 3, Selector::SizeFieldOffset);
    layout.list(&mut catalogue, 0xb58521 + 3, Selector::SizeFieldOffset);
    layout.list(&mut catalogue, 0xb58549 + 3, Selector::SizeFieldOffset);
    layout.list(&mut catalogue, 0xb58575 + 3, Selector::SizeFieldOffset);
    layout.list(&mut catalogue, 0xb5857c + 3, Selector::MemberSizeField(1));
    layout.list(&mut catalogue, 0xb58654 + 3, Selector::SizeFieldOffset);
    layout.list(&mut catalogue, 0xb5865e + 0, Selector::Neutralized(0xF9909090));
    layout.list(&mut catalogue, 0xb58667 + 3, Selector::SizeFieldOffset);
    catalogue
}

/// The writes that enlarge the character resource containers, or none when
/// the configuration switches that off.
pub fn character_plan(config: &Config) -> (sites: Vec<PatchSite>)
    ensures
        sites@ == character_sites(*config),
        all_literal(sites@),
{
    if !config.patch_character_limit {
        return Vec::new();
    }
    let layout = character_layout();
    let catalogue = character_table();
    proof {
        lemma_expansion_is_literal(
            character_descriptor(),
            character_members(),
            character_catalogue(),
        );
    }
    layout.expand(&catalogue).unwrap()
}

/// The writes that enlarge the sound bank container, or none when the
/// configuration switches that off.
pub fn soundbank_plan(config: &Config) -> (sites: Vec<PatchSite>)
    ensures
        sites@ == soundbank_sites(*config),
        all_literal(sites@),
{
    if !config.patch_soundbank_limit {
        return Vec::new();
    }
    let layout = soundbank_layout();
    let catalogue = soundbank_table();
    proof {
        lemma_expansion_is_literal(
            soundbank_descriptor(),
            soundbank_members(),
            soundbank_catalogue(),
        );
    }
    layout.expand(&catalogue).unwrap()
}

/// The write that lifts the generator limit.
pub fn generator_plan() -> (sites: Vec<PatchSite>)
    ensures
        sites@ == generator_sites(),
        all_literal(sites@),
{
    let mut sites: Vec<PatchSite> = Vec::new();
    sites.push(PatchSite { offset: 0x40e7d8 + 2, operation: Operation::SetLiteral(0) });
    sites
}

/// Puts the sites of `more` behind those of `sites`.
fn append(sites: &mut Vec<PatchSite>, more: &Vec<PatchSite>)
    ensures
        final(sites)@ == old(sites)@ + more@,
{
    let mut i: usize = 0;
    while i < more.len()
        invariant
            i <= more@.len(),
            sites@ == old(sites)@ + more@.take(i as int),
        decreases more.len() - i,
    {
        sites.push(more[i]);
        assert(sites@ =~= old(sites)@ + more@.take(i as int + 1));
        i = i + 1;
    }
    assert(more@.take(i as int) =~= more@);
}

/// The standard plan is well ordered: the global heap is sized after every
/// heap that spills over into it, and only literal writes follow.
pub proof fn lemma_standard_sites_ordered(config: Config)
    ensures
        well_ordered(standard_sites(config)),
        all_literal(
            morpheme_sites(config.heap_sizes) + character_sites(config) + soundbank_sites(config)
                + generator_sites(),
        ),
{
    let heaps = heap_sites();
    let front = heaps.drop_last();
    assert(heaps =~= front.push(heaps.last()));
    assert(no_aggregate(front));
    lemma_well_ordered_with_aggregate(front, heaps.last());
    lemma_expansion_is_literal(
        character_descriptor(),
        character_members(),
        character_catalogue(),
    );
    lemma_expansion_is_literal(
        soundbank_descriptor(),
        soundbank_members(),
        soundbank_catalogue(),
    );
    let a = morpheme_sites(config.heap_sizes);
    let b = character_sites(config);
    let c = soundbank_sites(config);
    let d = generator_sites();
    lemma_literals_concat(a, b);
    lemma_literals_concat(a + b, c);
    lemma_literals_concat(a + b + c, d);
    lemma_well_ordered_with_literals(heaps, a + b + c + d);
    assert(heaps + (a + b + c + d) =~= standard_sites(config));
}

/// The number of bytes from the image base to the end of the last site of
/// the standard plan.
pub const STANDARD_EXTENT: usize = 0xb5866e;

/// An image of at least `STANDARD_EXTENT` bytes holds every site of the
/// standard plan, and with everything switched on no shorter image does.
pub proof fn lemma_standard_sites_fit(config: Config, len: nat)
    ensures
        len >= STANDARD_EXTENT ==> fits(standard_sites(config), len),
        config.patch_soundbank_limit && fits(standard_sites(config), len) ==> len
            >= STANDARD_EXTENT,
{
    let sites = standard_sites(config);
    if config.patch_soundbank_limit && fits(sites, len) {
        let last = sites.len() - 2;
        assert(sites[last].offset == 0xb58667 + 3);
    }
}

/// No two sites of the standard plan share a byte, whatever is switched on.
pub proof fn lemma_standard_sites_disjoint(config: Config)
    ensures
        disjoint(standard_sites(config)),
{
}

/// What placing the standard plan leaves at each of its sites, in terms of
/// the image before alone: every catalogued site holds its recomputed
/// constant, every heap size is the size that was there, scaled, and the
/// global heap is sized from what was there and from everything that the
/// contributing heaps spill. No site is left stale and none is overwritten.
pub proof fn lemma_standard_pass_site_by_site(config: Config, image: Seq<u8>, i: int)
    requires
        fits(standard_sites(config), image.len()),
        0 <= i < standard_sites(config).len(),
    ensures
        word_at(
            pass(standard_sites(config), config.heap_sizes, (image, 0u32)).0,
            standard_sites(config)[i].offset as int,
        ) == patched_word(
            standard_sites(config)[i].operation,
            word_at(image, standard_sites(config)[i].offset as int),
            config.heap_sizes,
            gathered(spills(standard_sites(config), config.heap_sizes, image)),
        ),
{
    lemma_standard_sites_disjoint(config);
    lemma_standard_sites_ordered(config);
    lemma_pass_site_by_site(standard_sites(config), config.heap_sizes, image, i);
}

/// The plan that is placed into the known build under `config`.
pub fn standard_plan(config: &Config) -> (plan: PatchPlan)
    ensures
        plan@ == standard_sites(*config),
        disjoint(plan@),
{
    let mut sites = heap_plan();
    let morpheme = morpheme_plan(&config.heap_sizes);
    let character = character_plan(config);
    let soundbank = soundbank_plan(config);
    let generator = generator_plan();
    append(&mut sites, &morpheme);
    append(&mut sites, &character);
    append(&mut sites, &soundbank);
    append(&mut sites, &generator);
    proof {
        lemma_standard_sites_ordered(*config);
        lemma_standard_sites_disjoint(*config);
    }
    PatchPlan::new(sites).unwrap()
}

} // verus!

//! Capacity expansion of a fixed-capacity container that is embedded by
//! value in an enclosing structure.
//!
//! Such a container is laid out as `stride * capacity + padding` bytes of
//! element storage followed by its size field. Its total size, the offset of
//! its size field, and the offset of every member that follows it in the
//! enclosing structure are immediates in the compiled code. Enlarging the
//! capacity means recomputing each of them and writing the new value at
//! every catalogued site that held the old one.

use vstd::prelude::*;
use crate::plan::{Operation, PatchSite};

verus! {

/// The shape of a fixed-capacity container and the capacity it is to get.
#[derive(Clone, Copy, Debug, PartialEq, Eq, Structural)]
pub struct ContainerDescriptor {
    /// Size in bytes of one element.
    pub element_stride: u32,
    /// The capacity that the image was compiled with.
    pub old_capacity: u32,
    /// The capacity that the image is patched to.
    pub new_capacity: u32,
    /// Bytes of storage added so that the elements can be aligned.
    pub alignment_padding: u32,
    /// Size in bytes of the size field that follows the storage.
    pub size_field_width: u32,
}

/// One member of the enclosing structure.
#[derive(Clone, Copy, Debug, PartialEq, Eq, Structural)]
pub enum Member {
    /// A member of a fixed number of bytes.
    Field(u32),
    /// An instance of the container.
    Container,
}

/// Which derived constant a catalogued site holds.
#[derive(Clone, Copy, Debug, PartialEq, Eq, Structural)]
pub enum Selector {
    /// The total size of the container.
    TotalSize,
    /// The offset of the size field from the start of the container.
    SizeFieldOffset,
    /// The offset of the member at this position from the start of the
    /// enclosing structure.
    MemberOffset(usize),
    /// The offset, from the start of the enclosing structure, of the size
    /// field of the container at this position.
    MemberSizeField(usize),
    /// The total size of the enclosing structure.
    EnclosingSize,
    /// Fixed bytes that take the place of a check against the old capacity,
    /// which cannot be rescaled.
    Neutralized(u32),
}

/// A catalogued site: an offset from the image base and the derived constant
/// that belongs there.
#[derive(Clone, Copy, Debug, PartialEq, Eq, Structural)]
pub struct DependentSite {
    pub offset: usize,
    pub selector: Selector,
}

/// A container and the members of the structure that embeds it.
#[derive(Debug)]
pub struct EnclosingLayout {
    pub descriptor: ContainerDescriptor,
    pub members: Vec<Member>,
}

impl ContainerDescriptor {
    /// Bytes of element storage at the new capacity, padding included.
    pub open spec fn storage_size(self) -> int {
        self.element_stride * self.new_capacity + self.alignment_padding
    }

    /// Total size of the container at the new capacity.
    pub open spec fn total_size(self) -> int {
        self.element_stride * self.new_capacity + self.alignment_padding + self.size_field_width
    }

    /// Offset of the size field at the new capacity.
    pub open spec fn size_field_offset(self) -> int {
        self.total_size() - self.size_field_width
    }

    /// Size of a member of the enclosing structure.
    pub open spec fn member_size(self, member: Member) -> int {
        match member {
            Member::Field(bytes) => bytes as int,
            Member::Container => self.total_size(),
        }
    }

    /// Sum of the sizes of `members`.
    pub open spec fn span(self, members: Seq<Member>) -> int
        decreases members.len(),
    {
        if members.len() == 0 {
            0
        } else {
            self.span(members.drop_last()) + self.member_size(members.last())
        }
    }

    /// The descriptor of a container of `old_capacity` elements that is to
    /// hold `factor` times as many, if that many can be counted in 32 bits.
    pub fn scaled_up(
        element_stride: u32,
        old_capacity: u32,
        factor: u32,
        alignment_padding: u32,
        size_field_width: u32,
    ) -> (descriptor: Option<ContainerDescriptor>)
        ensures
            descriptor is Some <==> old_capacity * factor <= u32::MAX,
            descriptor is Some ==> descriptor->0 == (ContainerDescriptor {
                element_stride,
                old_capacity,
                new_capacity: (old_capacity * factor) as u32,
                alignment_padding,
                size_field_width,
            }),
    {
        match old_capacity.checked_mul(factor) {
            Some(new_capacity) => Some(
                ContainerDescriptor {
                    element_stride,
                    old_capacity,
                    new_capacity,
                    alignment_padding,
                    size_field_width,
                },
            ),
            None => None,
        }
    }

    /// Total size of the container at the new capacity, if it fits 32 bits.
    pub fn new_total_size(&self) -> (size: Option<u32>)
        ensures
            size is Some <==> self.total_size() <= u32::MAX,
            size is Some ==> size->0 == self.total_size(),
    {
        proof {
            lemma_sizes_nonnegative(*self);
        }
        match self.new_size_field_offset() {
            Some(storage) => storage.checked_add(self.size_field_width),
            None => None,
        }
    }

    /// Offset of the size field at the new capacity, if it fits 32 bits.
    pub fn new_size_field_offset(&self) -> (offset: Option<u32>)
        ensures
            offset is Some <==> self.size_field_offset() <= u32::MAX,
            offset is Some ==> offset->0 == self.size_field_offset(),
    {
        proof {
            lemma_sizes_nonnegative(*self);
        }
        match self.element_stride.checked_mul(self.new_capacity) {
            Some(elements) => elements.checked_add(self.alignment_padding),
            None => None,
        }
    }
}

/// No size is negative, and the size field lies at the end of the container.
pub proof fn lemma_sizes_nonnegative(descriptor: ContainerDescriptor)
    ensures
        descriptor.element_stride * descriptor.new_capacity >= 0,
        descriptor.size_field_offset() >= 0,
        descriptor.total_size() >= descriptor.size_field_offset(),
        descriptor.size_field_offset() == descriptor.storage_size(),
        descriptor.total_size() == descriptor.size_field_offset() + descriptor.size_field_width,
        forall|member: Member| #[trigger] descriptor.member_size(member) >= 0,
{
    let s = descriptor.element_stride as int;
    let c = descriptor.new_capacity as int;
    assert(s * c >= 0) by (nonlinear_arith)
        requires
            s >= 0,
            c >= 0,
    ;
}

/// The span of a sequence of members grows with every member, from nothing:
/// the span of the first `k + 1` members is the span of the first `k` plus
/// the size of member `k`.
pub proof fn lemma_span_step(descriptor: ContainerDescriptor, members: Seq<Member>, k: int)
    requires
        0 <= k < members.len(),
    ensures
        descriptor.span(members.take(0)) == 0,
        descriptor.span(members.take(k + 1)) == descriptor.span(members.take(k))
            + descriptor.member_size(members[k]),
        descriptor.span(members.take(members.len() as int)) == descriptor.span(members),
{
    assert(members.take(k + 1).drop_last() =~= members.take(k));
    assert(members.take(k + 1).last() == members[k]);
    assert(members.take(members.len() as int) =~= members);
}

/// The span of the first `j` members is at most the span of the first `k`
/// when `j <= k`.
pub proof fn lemma_span_monotonic(
    descriptor: ContainerDescriptor,
    members: Seq<Member>,
    j: int,
    k: int,
)
    requires
        0 <= j <= k <= members.len(),
    ensures
        0 <= descriptor.span(members.take(j)) <= descriptor.span(members.take(k)),
    decreases k,
{
    lemma_sizes_nonnegative(descriptor);
    if k == 0 {
        assert(members.take(0).len() == 0);
    } else {
        lemma_span_step(descriptor, members, k - 1);
        if j < k {
            lemma_span_monotonic(descriptor, members, j, k - 1);
        } else {
            lemma_span_monotonic(descriptor, members, k - 1, k - 1);
        }
    }
}

/// Where the members before position `k` are one field of `header` bytes
/// followed by containers only, member `k` starts at `header` plus `k - 1`
/// container sizes.
pub proof fn lemma_uniform_offsets(
    descriptor: ContainerDescriptor,
    members: Seq<Member>,
    header: u32,
    k: int,
)
    requires
        1 <= k <= members.len(),
        members[0] == Member::Field(header),
        forall|i: int| 1 <= i < k ==> #[trigger] members[i] == Member::Container,
    ensures
        descriptor.span(members.take(k)) == header + (k - 1) * descriptor.total_size(),
    decreases k,
{
    lemma_span_step(descriptor, members, k - 1);
    if k == 1 {
        assert(members.take(0).len() == 0);
    } else {
        lemma_uniform_offsets(descriptor, members, header, k - 1);
        let t = descriptor.total_size();
        assert((k - 2) * t + t == (k - 1) * t) by (nonlinear_arith);
    }
}

/// Whether `selector` names a constant of a structure with these members:
/// a member position must exist, and a size field belongs to a container.
pub open spec fn defines(members: Seq<Member>, selector: Selector) -> bool {
    match selector {
        Selector::MemberOffset(k) => k < members.len(),
        Selector::MemberSizeField(k) => k < members.len() && members[k as int]
            == Member::Container,
        _ => true,
    }
}

/// The exact value of the constant that `selector` names.
pub open spec fn constant_value(
    descriptor: ContainerDescriptor,
    members: Seq<Member>,
    selector: Selector,
) -> int {
    match selector {
        Selector::TotalSize => descriptor.total_size(),
        Selector::SizeFieldOffset => descriptor.size_field_offset(),
        Selector::MemberOffset(k) => descriptor.span(members.take(k as int)),
        Selector::MemberSizeField(k) => descriptor.span(members.take(k as int))
            + descriptor.size_field_offset(),
        Selector::EnclosingSize => descriptor.span(members),
        Selector::Neutralized(bytes) => bytes as int,
    }
}

/// Whether `selector` names a constant that fits 32 bits.
pub open spec fn yields(
    descriptor: ContainerDescriptor,
    members: Seq<Member>,
    selector: Selector,
) -> bool {
    defines(members, selector) && constant_value(descriptor, members, selector) <= u32::MAX
}

/// Whether every site of `catalogue` names a constant that fits 32 bits.
#[verifier::opaque]
pub open spec fn covers(
    descriptor: ContainerDescriptor,
    members: Seq<Member>,
    catalogue: Seq<DependentSite>,
) -> bool {
    forall|i: int|
        0 <= i < catalogue.len() ==> yields(
            descriptor,
            members,
            (#[trigger] catalogue[i]).selector,
        )
}

/// The literal writes that bring every site of `catalogue` up to the new
/// capacity: at each site, in catalogue order, the value of its constant.
pub open spec fn literal_sites(
    descriptor: ContainerDescriptor,
    members: Seq<Member>,
    catalogue: Seq<DependentSite>,
) -> Seq<PatchSite> {
    Seq::new(
        catalogue.len(),
        |i: int|
            PatchSite {
                offset: catalogue[i].offset,
                operation: Operation::SetLiteral(
                    constant_value(descriptor, members, catalogue[i].selector) as u32,
                ),
            },
    )
}

/// Where the container and the whole enclosing structure fit 32 bits, every
/// constant that a selector can name does.
pub proof fn lemma_defined_constants_fit(
    descriptor: ContainerDescriptor,
    members: Seq<Member>,
    selector: Selector,
)
    requires
        descriptor.total_size() <= u32::MAX,
        descriptor.span(members) <= u32::MAX,
        defines(members, selector),
    ensures
        yields(descriptor, members, selector),
        0 <= constant_value(descriptor, members, selector),
{
    lemma_sizes_nonnegative(descriptor);
    assert(members.take(members.len() as int) =~= members);
    lemma_span_monotonic(descriptor, members, 0, members.len() as int);
    match selector {
        Selector::MemberOffset(k) => {
            lemma_span_monotonic(descriptor, members, k as int, members.len() as int);
        },
        Selector::MemberSizeField(k) => {
            lemma_span_step(descriptor, members, k as int);
            lemma_span_monotonic(descriptor, members, k as int, k as int);
            lemma_span_monotonic(descriptor, members, k as int + 1, members.len() as int);
        },
        _ => {},
    }
}

/// The writes of an expansion are literal writes, one per catalogued site.
pub proof fn lemma_expansion_is_literal(
    descriptor: ContainerDescriptor,
    members: Seq<Member>,
    catalogue: Seq<DependentSite>,
)
    ensures
        crate::plan::all_literal(literal_sites(descriptor, members, catalogue)),
        literal_sites(descriptor, members, catalogue).len() == catalogue.len(),
{
}

impl EnclosingLayout {
    /// Sum of the sizes of the first `k` members: the offset of member `k`
    /// for `k` below the member count, the size of the whole structure for
    /// `k` equal to it.
    pub fn span_of(&self, k: usize) -> (offset: Option<u32>)
        ensures
            offset is Some <==> k <= self.members@.len() && self.descriptor.span(
                self.members@.take(k as int),
            ) <= u32::MAX,
            offset is Some ==> offset->0 == self.descriptor.span(self.members@.take(k as int)),
    {
        if k > self.members.len() {
            return None;
        }
        let container = self.descriptor.new_total_size();
        let mut total: u32 = 0;
        let mut j: usize = 0;
        assert(self.members@.take(0).len() == 0);
        while j < k
            invariant
                j <= k <= self.members@.len(),
                total == self.descriptor.span(self.members@.take(j as int)),
                container is Some <==> self.descriptor.total_size() <= u32::MAX,
                container is Some ==> container->0 == self.descriptor.total_size(),
            decreases k - j,
        {
            proof {
                lemma_span_step(self.descriptor, self.members@, j as int);
                lemma_span_monotonic(self.descriptor, self.members@, j as int + 1, k as int);
                lemma_span_monotonic(self.descriptor, self.members@, j as int, j as int);
            }
            let size = match self.members[j] {
                Member::Field(bytes) => Some(bytes),
                Member::Container => container,
            };
            let next = match size {
                Some(bytes) => total.checked_add(bytes),
                None => None,
            };
            match next {
                Some(sum) => {
                    total = sum;
                },
                None => {
                    return None;
                },
            }
            j = j + 1;
        }
        Some(total)
    }

    /// The value of the constant that `selector` names, if it names one and
    /// the value fits 32 bits.
    pub fn constant(&self, selector: Selector) -> (value: Option<u32>)
        ensures
            value is Some <==> yields(self.descriptor, self.members@, selector),
            value is Some ==> value->0 == constant_value(self.descriptor, self.members@, selector),
    {
        proof {
            lemma_sizes_nonnegative(self.descriptor);
            assert(self.members@.take(self.members@.len() as int) =~= self.members@);
        }
        match selector {
            Selector::TotalSize => self.descriptor.new_total_size(),
            Selector::SizeFieldOffset => self.descriptor.new_size_field_offset(),
            Selector::MemberOffset(k) => {
                if k < self.members.len() {
                    self.span_of(k)
                } else {
                    None
                }
            },
            Selector::MemberSizeField(k) => {
                if k >= self.members.len() {
                    return None;
                }
                match self.members[k] {
                    Member::Field(_) => None,
                    Member::Container => {
                        proof {
                            lemma_span_monotonic(
                                self.descriptor,
                                self.members@,
                                k as int,
                                k as int,
                            );
                        }
                        match (self.span_of(k), self.descriptor.new_size_field_offset()) {
                            (Some(start), Some(field)) => start.checked_add(field),
                            _ => None,
                        }
                    },
                }
            },
            Selector::EnclosingSize => self.span_of(self.members.len()),
            Selector::Neutralized(bytes) => Some(bytes),
        }
    }

    /// Enters the site at `offset` into `catalogue` as one that holds the
    /// constant named by `selector`.
    pub(crate) fn list(
        &self,
        catalogue: &mut Vec<DependentSite>,
        offset: usize,
        selector: Selector,
    )
        requires
            covers(self.descriptor, self.members@, old(catalogue)@),
            yields(self.descriptor, self.members@, selector),
        ensures
            final(catalogue)@ == old(catalogue)@.push(DependentSite { offset, selector }),
            covers(self.descriptor, self.members@, final(catalogue)@),
    {
        catalogue.push(DependentSite { offset, selector });
        proof {
            reveal(covers);
            let grown = catalogue@;
            assert forall|i: int| 0 <= i < grown.len() implies yields(
                self.descriptor,
                self.members@,
                (#[trigger] grown[i]).selector,
            ) by {
                if i < grown.len() - 1 {
                    assert(grown[i] == old(catalogue)@[i]);
                }
            }
        }
    }

    /// The literal writes that bring every site of `catalogue` up to the new
    /// capacity, or nothing if some site names a constant that this layout
    /// does not have or that does not fit 32 bits.
    pub fn expand(&self, catalogue: &Vec<DependentSite>) -> (sites: Option<Vec<PatchSite>>)
        ensures
            sites is Some <==> covers(self.descriptor, self.members@, catalogue@),
            sites is Some ==> sites->0@ == literal_sites(
                self.descriptor,
                self.members@,
                catalogue@,
            ),
    {
        proof {
            reveal(covers);
        }
        let mut sites: Vec<PatchSite> = Vec::new();
        let mut i: usize = 0;
        while i < catalogue.len()
            invariant
                i <= catalogue@.len(),
                sites@.len() == i,
                forall|h: int|
                    0 <= h < i ==> yields(
                        self.descriptor,
                        self.members@,
                        (#[trigger] catalogue@[h]).selector,
                    ),
                forall|h: int|
                    0 <= h < i ==> #[trigger] sites@[h] == literal_sites(
                        self.descriptor,
                        self.members@,
                        catalogue@,
                    )[h],
            decreases catalogue.len() - i,
        {
            match self.constant(catalogue[i].selector) {
                Some(value) => {
                    sites.push(
                        PatchSite {
                            offset: catalogue[i].offset,
                            operation: Operation::SetLiteral(value),
                        },
                    );
                },
                None => {
                    proof {
                        reveal(covers);
                    }
                    assert(!yields(self.descriptor, self.members@, catalogue@[i as int].selector));
                    return None;
                },
            }
            i = i + 1;
        }
        proof {
            reveal(covers);
        }
        assert(sites@ =~= literal_sites(self.descriptor, self.members@, catalogue@));
        Some(sites)
    }
}

} // verus!

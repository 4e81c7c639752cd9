//! The byte-level model of the loaded image: little-endian 32-bit words at
//! arbitrary (unaligned) offsets, and the layout that turns an offset into
//! an absolute address.

use vstd::prelude::*;

verus! {

/// Width in bytes of every patched operand.
pub const WORD: usize = 4;

/// The `k`-th byte, least significant first, of `word`.
pub open spec fn byte_of(word: u32, k: int) -> u8 {
    if k == 0 {
        (word % 0x100) as u8
    } else if k == 1 {
        (word / 0x100 % 0x100) as u8
    } else if k == 2 {
        (word / 0x1_0000 % 0x100) as u8
    } else {
        (word / 0x100_0000) as u8
    }
}

/// The word stored little-endian in `bytes[at..at + 4]`.
pub open spec fn word_at(bytes: Seq<u8>, at: int) -> u32 {
    (bytes[at] + bytes[at + 1] * 0x100 + bytes[at + 2] * 0x1_0000 + bytes[at + 3] * 0x100_0000) as u32
}

/// `bytes` with `word` stored little-endian at `at`; every other byte is kept.
pub open spec fn with_word(bytes: Seq<u8>, at: int, word: u32) -> Seq<u8> {
    Seq::new(
        bytes.len(),
        |i: int|
            if at <= i < at + 4 {
                byte_of(word, i - at)
            } else {
                bytes[i]
            },
    )
}

/// Whether the four bytes at `at` lie inside an image of `len` bytes.
pub open spec fn in_image(len: nat, at: int) -> bool {
    0 <= at && at + 4 <= len
}

/// A word that was stored is the word that is read back.
pub proof fn lemma_word_read_back(bytes: Seq<u8>, at: int, word: u32)
    requires
        in_image(bytes.len(), at),
    ensures
        word_at(with_word(bytes, at, word), at) == word,
        with_word(bytes, at, word).len() == bytes.len(),
{
}

/// Storing a word leaves every word that does not overlap it as it was.
pub proof fn lemma_word_untouched(bytes: Seq<u8>, at: int, word: u32, other: int)
    requires
        in_image(bytes.len(), at),
        in_image(bytes.len(), other),
        other + 4 <= at || at + 4 <= other,
    ensures
        word_at(with_word(bytes, at, word), other) == word_at(bytes, other),
{
}

/// The bytes of a word are the bytes it was put together from.
pub proof fn lemma_bytes_of_word(b0: u8, b1: u8, b2: u8, b3: u8)
    ensures
        ({
            let word = (b0 + b1 * 0x100 + b2 * 0x1_0000 + b3 * 0x100_0000) as u32;
            &&& byte_of(word, 0) == b0
            &&& byte_of(word, 1) == b1
            &&& byte_of(word, 2) == b2
            &&& byte_of(word, 3) == b3
        }),
{
    let n: int = b0 + b1 * 0x100 + b2 * 0x1_0000 + b3 * 0x100_0000;
    assert(0 <= n <= 0xffff_ffff);
    assert(n % 0x100 == b0 && n / 0x100 == b1 + b2 * 0x100 + b3 * 0x1_0000);
    let m: int = n / 0x100;
    assert(m % 0x100 == b1 && m / 0x100 == b2 + b3 * 0x100);
    let l: int = m / 0x100;
    assert(l % 0x100 == b2 && l / 0x100 == b3);
    assert(n / 0x1_0000 == l && n / 0x100_0000 == b3);
}

/// Storing the word that is already there changes nothing.
pub proof fn lemma_word_store_same(bytes: Seq<u8>, at: int)
    requires
        in_image(bytes.len(), at),
    ensures
        with_word(bytes, at, word_at(bytes, at)) == bytes,
{
    lemma_bytes_of_word(bytes[at], bytes[at + 1], bytes[at + 2], bytes[at + 3]);
    assert(with_word(bytes, at, word_at(bytes, at)) =~= bytes);
}

/// Reads the word at offset `at`, which need not be aligned.
pub fn read_u32(image: &[u8], at: usize) -> (word: u32)
    requires
        in_image(image@.len(), at as int),
    ensures
        word == word_at(image@, at as int),
{
    let b0: u32 = image[at] as u32;
    let b1: u32 = image[at + 1] as u32;
    let b2: u32 = image[at + 2] as u32;
    let b3: u32 = image[at + 3] as u32;
    b0 + b1 * 0x100 + b2 * 0x1_0000 + b3 * 0x100_0000
}

/// Stores `word` at offset `at`, which need not be aligned.
pub fn write_u32(image: &mut [u8], at: usize, word: u32)
    requires
        in_image(old(image)@.len(), at as int),
    ensures
        final(image)@ == with_word(old(image)@, at as int, word),
{
    image[at] = (word % 0x100) as u8;
    image[at + 1] = (word / 0x100 % 0x100) as u8;
    image[at + 2] = (word / 0x1_0000 % 0x100) as u8;
    image[at + 3] = (word / 0x100_0000) as u8;
    assert(image@ =~= with_word(old(image)@, at as int, word));
}

/// Where the image is mapped: its base address and its size in bytes.
#[derive(Clone, Copy, Debug)]
pub struct ImageLayout {
    base: usize,
    size: usize,
}

impl ImageLayout {
    /// Address of the first byte of the image.
    pub closed spec fn base(self) -> usize {
        self.base
    }

    /// Number of bytes that the image spans.
    pub closed spec fn size(self) -> usize {
        self.size
    }

    #[verifier::type_invariant]
    spec fn fits_address_space(self) -> bool {
        self.base + self.size <= usize::MAX
    }

    /// The layout of an image of `size` bytes mapped at `base`. There is none
    /// when the base is unknown or the image would run past the last address.
    pub fn locate(base: Option<usize>, size: usize) -> (layout: Option<ImageLayout>)
        ensures
            layout is Some <==> base is Some && base->0 + size <= usize::MAX,
            layout is Some ==> layout->0.base() == base->0 && layout->0.size() == size,
    {
        match base {
            None => None,
            Some(b) => {
                if size <= usize::MAX - b {
                    Some(ImageLayout { base: b, size })
                } else {
                    None
                }
            },
        }
    }

    /// The absolute address of the word at `offset`, when that word lies
    /// inside the image.
    pub fn resolve(&self, offset: usize) -> (addr: Option<usize>)
        ensures
            addr is Some <==> in_image(self.size() as nat, offset as int),
            addr is Some ==> addr->0 == self.base() + offset,
    {
        proof {
            use_type_invariant(self);
        }
        if self.size >= 4 && offset <= self.size - 4 {
            Some(self.base + offset)
        } else {
            None
        }
    }

    /// Address of the first byte of the image.
    pub fn base_address(&self) -> (b: usize)
        ensures
            b == self.base(),
    {
        self.base
    }

    /// Number of bytes that the image spans.
    pub fn len(&self) -> (n: usize)
        ensures
            n == self.size(),
    {
        self.size
    }
}

} // verus!

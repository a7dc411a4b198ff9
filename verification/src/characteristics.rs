//! The attributes of an image.
//!
//! The header packs sixteen independent attributes into one 16-bit word, one
//! bit each. [`Characteristics`] keeps the word and stands for the set of
//! attributes whose bit is set; every bit has a name, so no bit is lost between
//! the word and the set.

use vstd::prelude::*;

verus! {

/// One attribute of an image.
#[derive(Clone, Copy, Debug, PartialEq, Eq, Structural)]
pub enum Characteristic {
    /// The file holds no base relocations and must be loaded at its preferred
    /// base address.
    RelocsStripped,
    /// The image is valid and can be run.
    ExecutableImage,
    /// COFF line numbers have been removed. Deprecated.
    LineNumsStripped,
    /// COFF symbol table entries for local symbols have been removed.
    /// Deprecated.
    LocalSymsStripped,
    /// Aggressively trim working set. Obsolete.
    AggressiveWsTrim,
    /// The application can handle addresses beyond 2 GB.
    LargeAddressAware,
    /// Reserved for future use.
    Reserved,
    /// Little endian. Deprecated.
    BytesReversedLo,
    /// The machine is based on a 32-bit-word architecture.
    Machine32Bit,
    /// Debugging information has been removed from the image file.
    DebugStripped,
    /// If the image is on removable media, fully load it and copy it to the
    /// swap file.
    RemovableRunFromSwap,
    /// If the image is on network media, fully load it and copy it to the swap
    /// file.
    NetRunFromSwap,
    /// The image file is a system file, not a user program.
    System,
    /// The image file is a dynamic-link library.
    Dll,
    /// The file should be run only on a uniprocessor machine.
    UpSystemOnly,
    /// Big endian. Deprecated.
    BytesReversedHi,
}

/// Every attribute, in the order of their bits, lowest first.
pub const ALL_CHARACTERISTICS: [Characteristic; 16] = [
    Characteristic::RelocsStripped,
    Characteristic::ExecutableImage,
    Characteristic::LineNumsStripped,
    Characteristic::LocalSymsStripped,
    Characteristic::AggressiveWsTrim,
    Characteristic::LargeAddressAware,
    Characteristic::Reserved,
    Characteristic::BytesReversedLo,
    Characteristic::Machine32Bit,
    Characteristic::DebugStripped,
    Characteristic::RemovableRunFromSwap,
    Characteristic::NetRunFromSwap,
    Characteristic::System,
    Characteristic::Dll,
    Characteristic::UpSystemOnly,
    Characteristic::BytesReversedHi,
];

impl Characteristic {
    /// The bit this attribute owns, as a mask.
    pub open spec fn spec_bit(self) -> u16 {
        match self {
            Characteristic::RelocsStripped => 0x0001,
            Characteristic::ExecutableImage => 0x0002,
            Characteristic::LineNumsStripped => 0x0004,
            Characteristic::LocalSymsStripped => 0x0008,
            Characteristic::AggressiveWsTrim => 0x0010,
            Characteristic::LargeAddressAware => 0x0020,
            Characteristic::Reserved => 0x0040,
            Characteristic::BytesReversedLo => 0x0080,
            Characteristic::Machine32Bit => 0x0100,
            Characteristic::DebugStripped => 0x0200,
            Characteristic::RemovableRunFromSwap => 0x0400,
            Characteristic::NetRunFromSwap => 0x0800,
            Characteristic::System => 0x1000,
            Characteristic::Dll => 0x2000,
            Characteristic::UpSystemOnly => 0x4000,
            Characteristic::BytesReversedHi => 0x8000,
        }
    }

    /// Where this attribute stands in [`ALL_CHARACTERISTICS`].
    pub open spec fn ordinal(self) -> int {
        match self {
            Characteristic::RelocsStripped => 0,
            Characteristic::ExecutableImage => 1,
            Characteristic::LineNumsStripped => 2,
            Characteristic::LocalSymsStripped => 3,
            Characteristic::AggressiveWsTrim => 4,
            Characteristic::LargeAddressAware => 5,
            Characteristic::Reserved => 6,
            Characteristic::BytesReversedLo => 7,
            Characteristic::Machine32Bit => 8,
            Characteristic::DebugStripped => 9,
            Characteristic::RemovableRunFromSwap => 10,
            Characteristic::NetRunFromSwap => 11,
            Characteristic::System => 12,
            Characteristic::Dll => 13,
            Characteristic::UpSystemOnly => 14,
            Characteristic::BytesReversedHi => 15,
        }
    }

    /// The bit this attribute owns, as a mask.
    #[verifier::when_used_as_spec(spec_bit)]
    pub fn bit(self) -> (b: u16)
        ensures
            b == self.spec_bit(),
    {
        match self {
            Characteristic::RelocsStripped => 0x0001,
            Characteristic::ExecutableImage => 0x0002,
            Characteristic::LineNumsStripped => 0x0004,
            Characteristic::LocalSymsStripped => 0x0008,
            Characteristic::AggressiveWsTrim => 0x0010,
            Characteristic::LargeAddressAware => 0x0020,
            Characteristic::Reserved => 0x0040,
            Characteristic::BytesReversedLo => 0x0080,
            Characteristic::Machine32Bit => 0x0100,
            Characteristic::DebugStripped => 0x0200,
            Characteristic::RemovableRunFromSwap => 0x0400,
            Characteristic::NetRunFromSwap => 0x0800,
            Characteristic::System => 0x1000,
            Characteristic::Dll => 0x2000,
            Characteristic::UpSystemOnly => 0x4000,
            Characteristic::BytesReversedHi => 0x8000,
        }
    }
}

/// The attributes whose bit is set in `mask`.
pub open spec fn flags_of(mask: u16) -> Set<Characteristic> {
    Set::new(|f: Characteristic| mask & f.spec_bit() != 0)
}

/// The bit of `f` if `flags` holds it, and no bit otherwise.
pub open spec fn bit_if(flags: Set<Characteristic>, f: Characteristic) -> u16 {
    if flags.contains(f) {
        f.spec_bit()
    } else {
        0
    }
}

/// The word in which exactly the bits of the attributes in `flags` are set.
pub open spec fn mask_of(flags: Set<Characteristic>) -> u16 {
    bit_if(flags, Characteristic::RelocsStripped)
        | bit_if(flags, Characteristic::ExecutableImage)
        | bit_if(flags, Characteristic::LineNumsStripped)
        | bit_if(flags, Characteristic::LocalSymsStripped)
        | bit_if(flags, Characteristic::AggressiveWsTrim)
        | bit_if(flags, Characteristic::LargeAddressAware)
        | bit_if(flags, Characteristic::Reserved)
        | bit_if(flags, Characteristic::BytesReversedLo)
        | bit_if(flags, Characteristic::Machine32Bit)
        | bit_if(flags, Characteristic::DebugStripped)
        | bit_if(flags, Characteristic::RemovableRunFromSwap)
        | bit_if(flags, Characteristic::NetRunFromSwap)
        | bit_if(flags, Characteristic::System)
        | bit_if(flags, Characteristic::Dll)
        | bit_if(flags, Characteristic::UpSystemOnly)
        | bit_if(flags, Characteristic::BytesReversedHi)
}

/// The attributes of an image, kept as the word they were read from.
#[derive(Clone, Copy, Debug, PartialEq, Eq, Structural)]
pub struct Characteristics {
    /// The raw word.
    pub bits: u16,
}

impl View for Characteristics {
    type V = Set<Characteristic>;

    open spec fn view(&self) -> Set<Characteristic> {
        flags_of(self.bits)
    }
}

impl Characteristics {
    /// Decodes a raw characteristics word. Every word is valid.
    pub fn decode(mask: u16) -> (flags: Characteristics)
        ensures
            flags.bits == mask,
            flags@ == flags_of(mask),
    {
        Characteristics { bits: mask }
    }

    /// The word that spells this set of attributes.
    pub fn encode(&self) -> (mask: u16)
        ensures
            mask == mask_of(self@),
            mask == self.bits,
    {
        proof {
            lemma_mask_round_trip(self.bits);
        }
        self.bits
    }

    /// Whether the attribute `flag` is set.
    pub fn contains(&self, flag: Characteristic) -> (set: bool)
        ensures
            set == self@.contains(flag),
    {
        self.bits & flag.bit() != 0
    }

    /// The attributes that are set, each once, in the order of their bits.
    pub fn flags(&self) -> (list: Vec<Characteristic>)
        ensures
            forall|f: Characteristic| list@.contains(f) <==> self@.contains(f),
            forall|i: int, j: int|
                0 <= i < j < list@.len() ==> list@[i].spec_bit() < list@[j].spec_bit(),
    {
        let mut list: Vec<Characteristic> = Vec::new();
        let mut k: usize = 0;
        while k < 16
            invariant
                k <= 16,
                forall|i: int| 0 <= i < list@.len() ==> self@.contains(#[trigger] list@[i]),
                forall|i: int| 0 <= i < list@.len() ==> (#[trigger] list@[i]).ordinal() < k,
                forall|i: int, j: int|
                    #![trigger list@[i], list@[j]]
                    0 <= i < j < list@.len() ==> list@[i].ordinal() < list@[j].ordinal(),
                forall|f: Characteristic|
                    self@.contains(f) && f.ordinal() < k ==> list@.contains(f),
            decreases 16 - k,
        {
            let flag: Characteristic = ALL_CHARACTERISTICS[k];
            assert(flag.ordinal() == k);
            if self.contains(flag) {
                let ghost before = list@;
                list.push(flag);
                assert(list@[before.len() as int] == flag);
                assert forall|f: Characteristic|
                    self@.contains(f) && f.ordinal() < k + 1 implies list@.contains(f) by {
                    if f.ordinal() < k {
                        let i = choose|i: int| 0 <= i < before.len() && before[i] == f;
                        assert(list@[i] == f);
                    } else {
                        lemma_ordinal_is_injective(f, flag);
                    }
                }
            }
            k = k + 1;
        }
        proof {
            assert forall|i: int, j: int|
                0 <= i < j < list@.len() implies list@[i].spec_bit() < list@[j].spec_bit() by {
                lemma_bits_follow_ordinals(list@[i], list@[j]);
            }
        }
        list
    }
}

/// No two attributes stand at the same place.
pub proof fn lemma_ordinal_is_injective(a: Characteristic, b: Characteristic)
    requires
        a.ordinal() == b.ordinal(),
    ensures
        a == b,
{
}

/// An attribute that stands earlier owns a lower bit.
pub proof fn lemma_bits_follow_ordinals(a: Characteristic, b: Characteristic)
    requires
        a.ordinal() < b.ordinal(),
    ensures
        a.spec_bit() < b.spec_bit(),
{
}

/// A word read as a set of attributes and written back is the same word: each
/// of the sixteen bits, the reserved one too, belongs to an attribute.
pub proof fn lemma_mask_round_trip(mask: u16)
    ensures
        mask_of(flags_of(mask)) == mask,
{
    assert(mask == (if mask & 0x0001 != 0 { 0x0001u16 } else { 0u16 })
        | (if mask & 0x0002 != 0 { 0x0002u16 } else { 0u16 })
        | (if mask & 0x0004 != 0 { 0x0004u16 } else { 0u16 })
        | (if mask & 0x0008 != 0 { 0x0008u16 } else { 0u16 })
        | (if mask & 0x0010 != 0 { 0x0010u16 } else { 0u16 })
        | (if mask & 0x0020 != 0 { 0x0020u16 } else { 0u16 })
        | (if mask & 0x0040 != 0 { 0x0040u16 } else { 0u16 })
        | (if mask & 0x0080 != 0 { 0x0080u16 } else { 0u16 })
        | (if mask & 0x0100 != 0 { 0x0100u16 } else { 0u16 })
        | (if mask & 0x0200 != 0 { 0x0200u16 } else { 0u16 })
        | (if mask & 0x0400 != 0 { 0x0400u16 } else { 0u16 })
        | (if mask & 0x0800 != 0 { 0x0800u16 } else { 0u16 })
        | (if mask & 0x1000 != 0 { 0x1000u16 } else { 0u16 })
        | (if mask & 0x2000 != 0 { 0x2000u16 } else { 0u16 })
        | (if mask & 0x4000 != 0 { 0x4000u16 } else { 0u16 })
        | (if mask & 0x8000 != 0 { 0x8000u16 } else { 0u16 })) by (bit_vector);
}

/// A set of attributes written as a word and read back is the same set.
pub proof fn lemma_flags_round_trip(flags: Set<Characteristic>)
    ensures
        flags_of(mask_of(flags)) == flags,
{
    let read_back = flags_of(mask_of(flags));
    assert forall|f: Characteristic| read_back.contains(f) == flags.contains(f) by {
        lemma_mask_of_tests_each_flag(flags, f);
    }
    assert(read_back =~= flags);
}

/// In the word that spells `flags`, the bit of `f` is set exactly when `flags`
/// holds `f`.
pub proof fn lemma_mask_of_tests_each_flag(flags: Set<Characteristic>, f: Characteristic)
    ensures
        (mask_of(flags) & f.spec_bit() != 0) == flags.contains(f),
{
    let b0 = bit_if(flags, Characteristic::RelocsStripped);
    let b1 = bit_if(flags, Characteristic::ExecutableImage);
    let b2 = bit_if(flags, Characteristic::LineNumsStripped);
    let b3 = bit_if(flags, Characteristic::LocalSymsStripped);
    let b4 = bit_if(flags, Characteristic::AggressiveWsTrim);
    let b5 = bit_if(flags, Characteristic::LargeAddressAware);
    let b6 = bit_if(flags, Characteristic::Reserved);
    let b7 = bit_if(flags, Characteristic::BytesReversedLo);
    let b8 = bit_if(flags, Characteristic::Machine32Bit);
    let b9 = bit_if(flags, Characteristic::DebugStripped);
    let b10 = bit_if(flags, Characteristic::RemovableRunFromSwap);
    let b11 = bit_if(flags, Characteristic::NetRunFromSwap);
    let b12 = bit_if(flags, Characteristic::System);
    let b13 = bit_if(flags, Characteristic::Dll);
    let b14 = bit_if(flags, Characteristic::UpSystemOnly);
    let b15 = bit_if(flags, Characteristic::BytesReversedHi);
    let m = mask_of(flags);
    lemma_or_of_single_bits(m, b0, b1, b2, b3, b4, b5, b6, b7, b8, b9, b10, b11, b12, b13, b14, b15);
    assert(bit_if(flags, f) != 0 <==> flags.contains(f));
}

/// Of sixteen words that each hold at most their own bit, the bitwise or
/// shows bit for bit which of them are not zero.
proof fn lemma_or_of_single_bits(
    m: u16,
    b0: u16,
    b1: u16,
    b2: u16,
    b3: u16,
    b4: u16,
    b5: u16,
    b6: u16,
    b7: u16,
    b8: u16,
    b9: u16,
    b10: u16,
    b11: u16,
    b12: u16,
    b13: u16,
    b14: u16,
    b15: u16,
)
    by (bit_vector)
    requires
        m == b0 | b1 | b2 | b3 | b4 | b5 | b6 | b7 | b8 | b9 | b10 | b11 | b12 | b13 | b14 | b15,
        b0 == 0 || b0 == 0x0001,
        b1 == 0 || b1 == 0x0002,
        b2 == 0 || b2 == 0x0004,
        b3 == 0 || b3 == 0x0008,
        b4 == 0 || b4 == 0x0010,
        b5 == 0 || b5 == 0x0020,
        b6 == 0 || b6 == 0x0040,
        b7 == 0 || b7 == 0x0080,
        b8 == 0 || b8 == 0x0100,
        b9 == 0 || b9 == 0x0200,
        b10 == 0 || b10 == 0x0400,
        b11 == 0 || b11 == 0x0800,
        b12 == 0 || b12 == 0x1000,
        b13 == 0 || b13 == 0x2000,
        b14 == 0 || b14 == 0x4000,
        b15 == 0 || b15 == 0x8000,
    ensures
        (m & 0x0001 != 0) == (b0 != 0),
        (m & 0x0002 != 0) == (b1 != 0),
        (m & 0x0004 != 0) == (b2 != 0),
        (m & 0x0008 != 0) == (b3 != 0),
        (m & 0x0010 != 0) == (b4 != 0),
        (m & 0x0020 != 0) == (b5 != 0),
        (m & 0x0040 != 0) == (b6 != 0),
        (m & 0x0080 != 0) == (b7 != 0),
        (m & 0x0100 != 0) == (b8 != 0),
        (m & 0x0200 != 0) == (b9 != 0),
        (m & 0x0400 != 0) == (b10 != 0),
        (m & 0x0800 != 0) == (b11 != 0),
        (m & 0x1000 != 0) == (b12 != 0),
        (m & 0x2000 != 0) == (b13 != 0),
        (m & 0x4000 != 0) == (b14 != 0),
        (m & 0x8000 != 0) == (b15 != 0),
{
}

} // verus!

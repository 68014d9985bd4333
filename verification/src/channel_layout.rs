//! The two representations of a stream's channel layout: the legacy flag set
//! of speaker positions, and the structured layout that replaced it.

use libc::c_int;
use vstd::prelude::*;

verus! {

pub const FRONT_LEFT: u64 = 0x0000_0001;
pub const FRONT_RIGHT: u64 = 0x0000_0002;
pub const FRONT_CENTER: u64 = 0x0000_0004;
pub const LOW_FREQUENCY: u64 = 0x0000_0008;
pub const BACK_LEFT: u64 = 0x0000_0010;
pub const BACK_RIGHT: u64 = 0x0000_0020;
pub const FRONT_LEFT_OF_CENTER: u64 = 0x0000_0040;
pub const FRONT_RIGHT_OF_CENTER: u64 = 0x0000_0080;
pub const BACK_CENTER: u64 = 0x0000_0100;
pub const SIDE_LEFT: u64 = 0x0000_0200;
pub const SIDE_RIGHT: u64 = 0x0000_0400;
pub const TOP_CENTER: u64 = 0x0000_0800;
pub const TOP_FRONT_LEFT: u64 = 0x0000_1000;
pub const TOP_FRONT_CENTER: u64 = 0x0000_2000;
pub const TOP_FRONT_RIGHT: u64 = 0x0000_4000;
pub const TOP_BACK_LEFT: u64 = 0x0000_8000;
pub const TOP_BACK_CENTER: u64 = 0x0001_0000;
pub const TOP_BACK_RIGHT: u64 = 0x0002_0000;
pub const STEREO_LEFT: u64 = 0x2000_0000;
pub const STEREO_RIGHT: u64 = 0x4000_0000;
pub const WIDE_LEFT: u64 = 0x8000_0000;
pub const WIDE_RIGHT: u64 = 0x0001_0000_0000;
pub const SURROUND_DIRECT_LEFT: u64 = 0x0002_0000_0000;
pub const SURROUND_DIRECT_RIGHT: u64 = 0x0004_0000_0000;
pub const LOW_FREQUENCY_2: u64 = 0x0008_0000_0000;
/// Asks the native library for its own layout rather than naming a speaker.
pub const NATIVE: u64 = 0x8000_0000_0000_0000;

/// Every bit that names a flag: the vocabulary of the flag set.
pub const KNOWN_BITS: u64 = 0x8000_000F_E003_FFFF;

/// What is left of a 64-bit field once the bits outside the vocabulary are
/// dropped.
pub open spec fn truncated(bits: u64) -> u64 {
    bits & KNOWN_BITS
}

/// A set of speaker positions, one bit each.
#[derive(Clone, Copy, Debug, PartialEq, Eq, Structural)]
pub struct ChannelLayoutMask {
    bits: u64,
}

impl ChannelLayoutMask {
    /// The bit pattern of the set.
    pub closed spec fn spec_bits(self) -> u64 {
        self.bits
    }

    /// Whether every bit of the set names a flag.
    pub open spec fn recognized(self) -> bool {
        truncated(self.spec_bits()) == self.spec_bits()
    }

    /// The set without any position.
    pub fn empty() -> (r: ChannelLayoutMask)
        ensures
            r.spec_bits() == 0,
            r.recognized(),
    {
        assert(0u64 & 0x8000_000F_E003_FFFFu64 == 0u64) by (bit_vector);
        ChannelLayoutMask { bits: 0 }
    }

    /// The set of every position in the vocabulary.
    pub fn all() -> (r: ChannelLayoutMask)
        ensures
            r.spec_bits() == KNOWN_BITS,
            r.recognized(),
    {
        assert(0x8000_000F_E003_FFFFu64 & 0x8000_000F_E003_FFFFu64 == 0x8000_000F_E003_FFFFu64)
            by (bit_vector);
        ChannelLayoutMask { bits: KNOWN_BITS }
    }

    /// The set with exactly the given bit pattern, if all of it is in the
    /// vocabulary.
    pub fn from_bits(bits: u64) -> (r: Option<ChannelLayoutMask>)
        ensures
            r.is_some() <==> truncated(bits) == bits,
            r.is_some() ==> r.unwrap().spec_bits() == bits,
    {
        if bits & KNOWN_BITS == bits {
            Some(ChannelLayoutMask { bits })
        } else {
            None
        }
    }

    /// The set made of those of the given bits that are in the vocabulary;
    /// the others are dropped without notice.
    pub fn from_bits_truncate(bits: u64) -> (r: ChannelLayoutMask)
        ensures
            r.spec_bits() == truncated(bits),
            r.recognized(),
    {
        proof {
            lemma_truncated_is_stable(bits);
        }
        ChannelLayoutMask { bits: bits & KNOWN_BITS }
    }

    /// The set with exactly the given bit pattern, whether or not the
    /// vocabulary names all of it.
    pub fn from_bits_retain(bits: u64) -> (r: ChannelLayoutMask)
        ensures
            r.spec_bits() == bits,
    {
        ChannelLayoutMask { bits }
    }

    /// The bit pattern of the set.
    pub fn bits(&self) -> (r: u64)
        ensures
            r == self.spec_bits(),
    {
        self.bits
    }

    /// Tells whether the set has no position.
    pub fn is_empty(&self) -> (r: bool)
        ensures
            r <==> self.spec_bits() == 0,
    {
        self.bits == 0
    }

    /// Tells whether every position of `other` is in the set.
    pub fn contains(&self, other: ChannelLayoutMask) -> (r: bool)
        ensures
            r <==> self.spec_bits() & other.spec_bits() == other.spec_bits(),
    {
        self.bits & other.bits == other.bits
    }

    /// The set of the positions that are in either set.
    pub fn union(self, other: ChannelLayoutMask) -> (r: ChannelLayoutMask)
        ensures
            r.spec_bits() == self.spec_bits() | other.spec_bits(),
            self.recognized() && other.recognized() ==> r.recognized(),
    {
        let a: u64 = self.bits;
        let b: u64 = other.bits;
        assert((a & 0x8000_000F_E003_FFFFu64 == a && b & 0x8000_000F_E003_FFFFu64 == b) ==> (a | b)
            & 0x8000_000F_E003_FFFFu64 == (a | b)) by (bit_vector);
        ChannelLayoutMask { bits: a | b }
    }
}

/// Two flag sets are the same exactly when their bit patterns are.
pub proof fn lemma_mask_determined_by_bits(a: ChannelLayoutMask, b: ChannelLayoutMask)
    ensures
        a == b <==> a.spec_bits() == b.spec_bits(),
{
}

/// Dropping the unknown bits a second time changes nothing, and nothing that
/// was not there appears.
pub proof fn lemma_truncated_is_stable(bits: u64)
    ensures
        truncated(truncated(bits)) == truncated(bits),
        truncated(bits) & bits == truncated(bits),
{
    assert((bits & 0x8000_000F_E003_FFFFu64) & 0x8000_000F_E003_FFFFu64 == bits
        & 0x8000_000F_E003_FFFFu64) by (bit_vector);
    assert((bits & 0x8000_000F_E003_FFFFu64) & bits == bits & 0x8000_000F_E003_FFFFu64)
        by (bit_vector);
}

/// The order in which a structured layout lists its channels.
#[derive(Clone, Copy, Debug, PartialEq, Eq, Structural)]
pub enum ChannelOrder {
    /// Only the number of channels is known.
    Unspecified,
    /// The channels are the positions of a mask, lowest bit first.
    Native,
    /// Each channel is named by an entry of the map.
    Custom,
    /// The channels are ambisonic components, with optional extra speakers
    /// in the mask.
    Ambisonic,
}

/// A structured channel layout. Unlike a mask it can describe more channels
/// than there are bits, through its map.
#[derive(Debug)]
pub struct ChannelLayout {
    pub order: ChannelOrder,
    pub nb_channels: c_int,
    pub mask: u64,
    pub map: Vec<c_int>,
}

/// What a structured layout holds, as plain values.
pub struct ChannelLayoutView {
    pub order: ChannelOrder,
    pub nb_channels: int,
    pub mask: u64,
    pub map: Seq<c_int>,
}

impl View for ChannelLayout {
    type V = ChannelLayoutView;

    open spec fn view(&self) -> ChannelLayoutView {
        ChannelLayoutView {
            order: self.order,
            nb_channels: self.nb_channels as int,
            mask: self.mask,
            map: self.map@,
        }
    }
}

impl ChannelLayout {
    /// A layout of `nb_channels` channels about which nothing else is known.
    pub fn unspecified(nb_channels: c_int) -> (r: ChannelLayout)
        ensures
            r@ == (ChannelLayoutView {
                order: ChannelOrder::Unspecified,
                nb_channels: nb_channels as int,
                mask: 0,
                map: Seq::empty(),
            }),
    {
        ChannelLayout { order: ChannelOrder::Unspecified, nb_channels, mask: 0, map: Vec::new() }
    }

    /// An independently owned layout that holds the same values.
    pub fn duplicate(&self) -> (r: ChannelLayout)
        ensures
            r@ == self@,
    {
        let mut map: Vec<c_int> = Vec::new();
        let mut i: usize = 0;
        while i < self.map.len()
            invariant
                i <= self.map.len(),
                map@ == self.map@.subrange(0, i as int),
            decreases self.map.len() - i,
        {
            map.push(self.map[i]);
            assert(map@ == self.map@.subrange(0, i as int + 1));
            i += 1;
        }
        assert(map@ == self.map@);
        ChannelLayout { order: self.order, nb_channels: self.nb_channels, mask: self.mask, map }
    }

    /// Tells whether two layouts hold the same values: the equality of
    /// layouts.
    pub fn same_as(&self, other: &ChannelLayout) -> (r: bool)
        ensures
            r <==> self@ == other@,
    {
        if self.order != other.order || self.nb_channels != other.nb_channels || self.mask
            != other.mask || self.map.len() != other.map.len() {
            return false;
        }
        let mut i: usize = 0;
        while i < self.map.len()
            invariant
                i <= self.map.len(),
                self.map.len() == other.map.len(),
                forall|j: int| 0 <= j < i ==> self.map@[j] == other.map@[j],
            decreases self.map.len() - i,
        {
            if self.map[i] != other.map[i] {
                return false;
            }
            i += 1;
        }
        assert(self.map@ =~= other.map@);
        true
    }
}

} // verus!

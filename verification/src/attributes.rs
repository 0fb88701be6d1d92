//! Bit-packed attribute words.
//!
//! A tile carries a 16-bit attribute word and a sprite an 8-bit one. Each word
//! is cut into named fields, every field described by the position of its
//! lowest bit and by its width. Reading a field is one shift and one mask;
//! writing a field masks the new value to the field's width and merges it into
//! the word without touching any other bit.

use vstd::prelude::*;
use vstd::arithmetic::power2::{lemma2_to64, pow2};

verus! {

/// The `width` lowest bits of a 16-bit word, all set.
pub open spec fn low_bits16(width: u16) -> u16 {
    ((1u16 << width) - 1) as u16
}

/// The field of `width` bits that starts at bit `offset` of `word`.
pub open spec fn unpack16(word: u16, offset: u16, width: u16) -> u16 {
    (word >> offset) & low_bits16(width)
}

/// `word` with the field of `width` bits at `offset` replaced by the `width`
/// lowest bits of `value`.
pub open spec fn pack16(word: u16, offset: u16, width: u16, value: u16) -> u16 {
    (word & !(low_bits16(width) << offset)) | ((value & low_bits16(width)) << offset)
}

/// The `width` lowest bits of an 8-bit word, all set.
pub open spec fn low_bits8(width: u8) -> u8 {
    ((1u8 << width) - 1) as u8
}

/// The field of `width` bits that starts at bit `offset` of `word`.
pub open spec fn unpack8(word: u8, offset: u8, width: u8) -> u8 {
    (word >> offset) & low_bits8(width)
}

/// `word` with the field of `width` bits at `offset` replaced by the `width`
/// lowest bits of `value`.
pub open spec fn pack8(word: u8, offset: u8, width: u8, value: u8) -> u8 {
    (word & !(low_bits8(width) << offset)) | ((value & low_bits8(width)) << offset)
}

proof fn lemma_low_bits16(width: u16)
    by (bit_vector)
    requires
        width == 1 || width == 2,
    ensures
        1u16 << width >= 1,
        width == 1 ==> low_bits16(width) == 1,
        width == 2 ==> low_bits16(width) == 3,
{
}

proof fn lemma_unpack_pack16(word: u16, offset: u16, width: u16, value: u16)
    by (bit_vector)
    requires
        width == 1 || width == 2,
        offset + width <= 16,
    ensures
        unpack16(pack16(word, offset, width, value), offset, width) == value % (1u16 << width),
        unpack16(word, offset, width) < (1u16 << width),
{
}

proof fn lemma_pack_elsewhere16(word: u16, offset: u16, width: u16, value: u16, at: u16, span: u16)
    by (bit_vector)
    requires
        width == 1 || width == 2,
        span == 1 || span == 2,
        offset + width <= 16,
        at + span <= 16,
        offset + width <= at || at + span <= offset,
    ensures
        unpack16(pack16(word, offset, width, value), at, span) == unpack16(word, at, span),
{
}

proof fn lemma_pack_outside16(word: u16, offset: u16, width: u16, value: u16, keep: u16)
    by (bit_vector)
    requires
        width == 1 || width == 2,
        offset + width <= 16,
        keep & (low_bits16(width) << offset) == 0,
    ensures
        pack16(word, offset, width, value) & keep == word & keep,
{
}

proof fn lemma_low_bits8(width: u8)
    by (bit_vector)
    requires
        width == 1 || width == 2,
    ensures
        1u8 << width >= 1,
        width == 1 ==> low_bits8(width) == 1,
        width == 2 ==> low_bits8(width) == 3,
{
}

proof fn lemma_unpack_pack8(word: u8, offset: u8, width: u8, value: u8)
    by (bit_vector)
    requires
        width == 1 || width == 2,
        offset + width <= 8,
    ensures
        unpack8(pack8(word, offset, width, value), offset, width) == value % (1u8 << width),
        unpack8(word, offset, width) < (1u8 << width),
{
}

proof fn lemma_pack_elsewhere8(word: u8, offset: u8, width: u8, value: u8, at: u8, span: u8)
    by (bit_vector)
    requires
        width == 1 || width == 2,
        span == 1 || span == 2,
        offset + width <= 8,
        at + span <= 8,
        offset + width <= at || at + span <= offset,
    ensures
        unpack8(pack8(word, offset, width, value), at, span) == unpack8(word, at, span),
{
}

proof fn lemma_shifted_one16(width: u16)
    by (bit_vector)
    requires
        width == 1 || width == 2,
    ensures
        width == 1 ==> 1u16 << width == 2,
        width == 2 ==> 1u16 << width == 4,
{
}

proof fn lemma_shifted_one8(width: u8)
    by (bit_vector)
    requires
        width == 1 || width == 2,
    ensures
        width == 1 ==> 1u8 << width == 2,
        width == 2 ==> 1u8 << width == 4,
{
}

/// The fields of a tile's attribute word, lowest bit first. Bits 4 to 15 belong
/// to no field.
#[derive(Clone, Copy, Debug, PartialEq, Eq, Structural)]
pub enum TileField {
    /// Mirror the tile left to right: bit 0.
    Horizontal,
    /// Mirror the tile top to bottom: bit 1.
    Vertical,
    /// Quarter turns, 0 to 3: bits 2 and 3.
    Rotation,
}

impl TileField {
    /// Position of the field's lowest bit.
    pub open spec fn spec_offset(self) -> u16 {
        match self {
            TileField::Horizontal => 0,
            TileField::Vertical => 1,
            TileField::Rotation => 2,
        }
    }

    /// Number of bits in the field.
    pub open spec fn spec_width(self) -> u16 {
        match self {
            TileField::Horizontal => 1,
            TileField::Vertical => 1,
            TileField::Rotation => 2,
        }
    }

    /// Number of values the field can hold.
    pub open spec fn modulus(self) -> int {
        match self {
            TileField::Horizontal => 2,
            TileField::Vertical => 2,
            TileField::Rotation => 4,
        }
    }

    /// A field holds two to the power of its width values.
    pub proof fn lemma_modulus_is_power_of_two(self)
        ensures
            self.modulus() == pow2(self.spec_width() as nat),
    {
        lemma2_to64();
    }

    /// Position of the field's lowest bit.
    #[verifier::when_used_as_spec(spec_offset)]
    pub fn offset(self) -> (r: u16)
        ensures
            r == self.spec_offset(),
    {
        match self {
            TileField::Horizontal => 0,
            TileField::Vertical => 1,
            TileField::Rotation => 2,
        }
    }

    /// Number of bits in the field.
    #[verifier::when_used_as_spec(spec_width)]
    pub fn width(self) -> (r: u16)
        ensures
            r == self.spec_width(),
    {
        match self {
            TileField::Horizontal => 1,
            TileField::Vertical => 1,
            TileField::Rotation => 2,
        }
    }

    /// The largest value the field can hold.
    pub fn max_value(self) -> (r: u16)
        ensures
            r == low_bits16(self.spec_width()),
            r == self.modulus() - 1,
    {
        let width: u16 = self.width();
        proof {
            lemma_low_bits16(width);
        }
        (1u16 << width) - 1
    }
}

/// The attribute word of a tile: sixteen bits, of which the four lowest are
/// the fields of [`TileField`] and the rest are reserved.
#[derive(Clone, Copy, Debug, PartialEq, Eq, Structural)]
pub struct TileAttributes(pub u16);

impl TileAttributes {
    /// The mask of the bits that belong to no field.
    pub open spec fn reserved_mask() -> u16 {
        0xfff0
    }

    /// The value held in `field`.
    pub open spec fn field(self, field: TileField) -> u16 {
        unpack16(self.0, field.spec_offset(), field.spec_width())
    }

    /// The word with `field` holding `value` cut to the field's width, every
    /// other bit as before.
    pub open spec fn updated(self, field: TileField, value: u16) -> TileAttributes {
        TileAttributes(pack16(self.0, field.spec_offset(), field.spec_width(), value))
    }

    /// The bits of the word that belong to no field, in place.
    pub open spec fn reserved(self) -> u16 {
        self.0 & Self::reserved_mask()
    }

    /// The all-zero word.
    pub fn new() -> (r: Self)
        ensures
            r == TileAttributes(0),
    {
        TileAttributes(0)
    }

    /// The word with exactly the given bits.
    pub fn from_bits(bits: u16) -> (r: Self)
        ensures
            r == TileAttributes(bits),
    {
        TileAttributes(bits)
    }

    /// The raw bits of the word.
    pub fn bits(self) -> (r: u16)
        ensures
            r == self.0,
    {
        self.0
    }

    /// Reads `field`.
    pub fn get(self, field: TileField) -> (value: u16)
        ensures
            value == self.field(field),
            value < field.modulus(),
    {
        let width: u16 = field.width();
        let offset: u16 = field.offset();
        proof {
            lemma_low_bits16(width);
            lemma_unpack_pack16(self.0, offset, width, 0);
            lemma_shifted_one16(width);
        }
        (self.0 >> offset) & ((1u16 << width) - 1)
    }

    /// Reads `field` as a flag: whether it holds anything but zero.
    pub fn flag(self, field: TileField) -> (on: bool)
        ensures
            on == (self.field(field) != 0),
    {
        self.get(field) != 0
    }

    /// Writes a flag into `field`: one for `true`, zero for `false`. No other
    /// field and no reserved bit changes.
    pub fn set_flag(&mut self, field: TileField, on: bool)
        ensures
            *final(self) == old(self).updated(field, if on { 1u16 } else { 0u16 }),
            final(self).field(field) == (if on { 1int } else { 0int }),
            forall|other: TileField|
                other != field ==> final(self).field(other) == old(self).field(other),
            final(self).reserved() == old(self).reserved(),
    {
        if on {
            self.set(field, 1);
        } else {
            self.set(field, 0);
        }
    }

    /// Writes `value`, cut to the width of `field`, into `field`. No other
    /// field and no reserved bit changes.
    pub fn set(&mut self, field: TileField, value: u16)
        ensures
            *final(self) == old(self).updated(field, value),
            final(self).field(field) == (value as int) % field.modulus(),
            forall|other: TileField|
                other != field ==> final(self).field(other) == old(self).field(other),
            final(self).reserved() == old(self).reserved(),
    {
        let next = self.with(field, value);
        *self = next;
    }

    /// A copy of the word with `value`, cut to the width of `field`, written
    /// into `field`. No other field and no reserved bit differs.
    pub fn with(self, field: TileField, value: u16) -> (r: Self)
        ensures
            r == self.updated(field, value),
            r.field(field) == (value as int) % field.modulus(),
            forall|other: TileField| other != field ==> r.field(other) == self.field(other),
            r.reserved() == self.reserved(),
    {
        let width: u16 = field.width();
        let offset: u16 = field.offset();
        proof {
            lemma_low_bits16(width);
            Self::lemma_set_then_get(self, field, value);
            Self::lemma_set_keeps_reserved(self, field, value);
            assert forall|other: TileField| other != field implies self.updated(field, value).field(
                other,
            ) == self.field(other) by {
                Self::lemma_set_keeps_other_fields(self, field, value, other);
            }
        }
        let mask: u16 = (1u16 << width) - 1;
        TileAttributes((self.0 & !(mask << offset)) | ((value & mask) << offset))
    }

    /// Reading a field just written gives the written value modulo two to the
    /// power of the field's width.
    pub proof fn lemma_set_then_get(word: TileAttributes, field: TileField, value: u16)
        ensures
            word.updated(field, value).field(field) == (value as int) % field.modulus(),
    {
        lemma_unpack_pack16(word.0, field.spec_offset(), field.spec_width(), value);
        lemma_shifted_one16(field.spec_width());
    }

    /// Writing one field leaves the value of every other field as it was.
    pub proof fn lemma_set_keeps_other_fields(
        word: TileAttributes,
        field: TileField,
        value: u16,
        other: TileField,
    )
        requires
            other != field,
        ensures
            word.updated(field, value).field(other) == word.field(other),
    {
        lemma_pack_elsewhere16(
            word.0,
            field.spec_offset(),
            field.spec_width(),
            value,
            other.spec_offset(),
            other.spec_width(),
        );
    }

    /// Writing a field leaves the reserved bits as they were; in particular
    /// reserved bits that are zero stay zero.
    pub proof fn lemma_set_keeps_reserved(word: TileAttributes, field: TileField, value: u16)
        ensures
            word.updated(field, value).reserved() == word.reserved(),
    {
        let offset = field.spec_offset();
        let width = field.spec_width();
        assert(Self::reserved_mask() & (low_bits16(width) << offset) == 0) by (bit_vector)
            requires
                width == 1 || width == 2,
                offset + width <= 4,
        ;
        lemma_pack_outside16(word.0, offset, width, value, Self::reserved_mask());
    }
}

impl Default for TileAttributes {
    /// The all-zero word.
    fn default() -> (r: Self)
        ensures
            r == TileAttributes(0),
    {
        TileAttributes(0)
    }
}

/// The fields of a sprite's attribute word, lowest bit first. The five fields
/// fill the eight bits; none is reserved.
#[derive(Clone, Copy, Debug, PartialEq, Eq, Structural)]
pub enum SpriteField {
    /// Mirror the sprite left to right: bit 0.
    Horizontal,
    /// Mirror the sprite top to bottom: bit 1.
    Vertical,
    /// Quarter turns, 0 to 3: bits 2 and 3.
    Rotation,
    /// Width class of the sprite, 0 to 3: bits 4 and 5.
    XSize,
    /// Height class of the sprite, 0 to 3: bits 6 and 7.
    YSize,
}

impl SpriteField {
    /// Position of the field's lowest bit.
    pub open spec fn spec_offset(self) -> u8 {
        match self {
            SpriteField::Horizontal => 0,
            SpriteField::Vertical => 1,
            SpriteField::Rotation => 2,
            SpriteField::XSize => 4,
            SpriteField::YSize => 6,
        }
    }

    /// Number of bits in the field.
    pub open spec fn spec_width(self) -> u8 {
        match self {
            SpriteField::Horizontal => 1,
            SpriteField::Vertical => 1,
            SpriteField::Rotation => 2,
            SpriteField::XSize => 2,
            SpriteField::YSize => 2,
        }
    }

    /// Number of values the field can hold.
    pub open spec fn modulus(self) -> int {
        match self {
            SpriteField::Horizontal => 2,
            SpriteField::Vertical => 2,
            SpriteField::Rotation => 4,
            SpriteField::XSize => 4,
            SpriteField::YSize => 4,
        }
    }

    /// A field holds two to the power of its width values.
    pub proof fn lemma_modulus_is_power_of_two(self)
        ensures
            self.modulus() == pow2(self.spec_width() as nat),
    {
        lemma2_to64();
    }

    /// Position of the field's lowest bit.
    #[verifier::when_used_as_spec(spec_offset)]
    pub fn offset(self) -> (r: u8)
        ensures
            r == self.spec_offset(),
    {
        match self {
            SpriteField::Horizontal => 0,
            SpriteField::Vertical => 1,
            SpriteField::Rotation => 2,
            SpriteField::XSize => 4,
            SpriteField::YSize => 6,
        }
    }

    /// Number of bits in the field.
    #[verifier::when_used_as_spec(spec_width)]
    pub fn width(self) -> (r: u8)
        ensures
            r == self.spec_width(),
    {
        match self {
            SpriteField::Horizontal => 1,
            SpriteField::Vertical => 1,
            SpriteField::Rotation => 2,
            SpriteField::XSize => 2,
            SpriteField::YSize => 2,
        }
    }

    /// The largest value the field can hold.
    pub fn max_value(self) -> (r: u8)
        ensures
            r == low_bits8(self.spec_width()),
            r == self.modulus() - 1,
    {
        let width: u8 = self.width();
        proof {
            lemma_low_bits8(width);
        }
        (1u8 << width) - 1
    }
}

/// The attribute word of a sprite: eight bits, all of them in the fields of
/// [`SpriteField`].
#[derive(Clone, Copy, Debug, PartialEq, Eq, Structural)]
pub struct SpriteAttributes(pub u8);

impl SpriteAttributes {
    /// The value held in `field`.
    pub open spec fn field(self, field: SpriteField) -> u8 {
        unpack8(self.0, field.spec_offset(), field.spec_width())
    }

    /// The word with `field` holding `value` cut to the field's width, every
    /// other bit as before.
    pub open spec fn updated(self, field: SpriteField, value: u8) -> SpriteAttributes {
        SpriteAttributes(pack8(self.0, field.spec_offset(), field.spec_width(), value))
    }

    /// The all-zero word.
    pub fn new() -> (r: Self)
        ensures
            r == SpriteAttributes(0),
    {
        SpriteAttributes(0)
    }

    /// The word with exactly the given bits.
    pub fn from_bits(bits: u8) -> (r: Self)
        ensures
            r == SpriteAttributes(bits),
    {
        SpriteAttributes(bits)
    }

    /// The raw bits of the word.
    pub fn bits(self) -> (r: u8)
        ensures
            r == self.0,
    {
        self.0
    }

    /// Reads `field`.
    pub fn get(self, field: SpriteField) -> (value: u8)
        ensures
            value == self.field(field),
            value < field.modulus(),
    {
        let width: u8 = field.width();
        let offset: u8 = field.offset();
        proof {
            lemma_low_bits8(width);
            lemma_unpack_pack8(self.0, offset, width, 0);
            lemma_shifted_one8(width);
        }
        (self.0 >> offset) & ((1u8 << width) - 1)
    }

    /// Reads `field` as a flag: whether it holds anything but zero.
    pub fn flag(self, field: SpriteField) -> (on: bool)
        ensures
            on == (self.field(field) != 0),
    {
        self.get(field) != 0
    }

    /// Writes a flag into `field`: one for `true`, zero for `false`. No other
    /// field changes.
    pub fn set_flag(&mut self, field: SpriteField, on: bool)
        ensures
            *final(self) == old(self).updated(field, if on { 1u8 } else { 0u8 }),
            final(self).field(field) == (if on { 1int } else { 0int }),
            forall|other: SpriteField|
                other != field ==> final(self).field(other) == old(self).field(other),
    {
        if on {
            self.set(field, 1);
        } else {
            self.set(field, 0);
        }
    }

    /// Writes `value`, cut to the width of `field`, into `field`. No other
    /// field changes.
    pub fn set(&mut self, field: SpriteField, value: u8)
        ensures
            *final(self) == old(self).updated(field, value),
            final(self).field(field) == (value as int) % field.modulus(),
            forall|other: SpriteField|
                other != field ==> final(self).field(other) == old(self).field(other),
    {
        let next = self.with(field, value);
        *self = next;
    }

    /// A copy of the word with `value`, cut to the width of `field`, written
    /// into `field`. No other field differs.
    pub fn with(self, field: SpriteField, value: u8) -> (r: Self)
        ensures
            r == self.updated(field, value),
            r.field(field) == (value as int) % field.modulus(),
            forall|other: SpriteField| other != field ==> r.field(other) == self.field(other),
    {
        let width: u8 = field.width();
        let offset: u8 = field.offset();
        proof {
            lemma_low_bits8(width);
            Self::lemma_set_then_get(self, field, value);
            assert forall|other: SpriteField| other != field implies self.updated(
                field,
                value,
            ).field(other) == self.field(other) by {
                Self::lemma_set_keeps_other_fields(self, field, value, other);
            }
        }
        let mask: u8 = (1u8 << width) - 1;
        SpriteAttributes((self.0 & !(mask << offset)) | ((value & mask) << offset))
    }

    /// Reading a field just written gives the written value modulo two to the
    /// power of the field's width.
    pub proof fn lemma_set_then_get(word: SpriteAttributes, field: SpriteField, value: u8)
        ensures
            word.updated(field, value).field(field) == (value as int) % field.modulus(),
    {
        lemma_unpack_pack8(word.0, field.spec_offset(), field.spec_width(), value);
        lemma_shifted_one8(field.spec_width());
    }

    /// Writing one field leaves the value of every other field as it was.
    pub proof fn lemma_set_keeps_other_fields(
        word: SpriteAttributes,
        field: SpriteField,
        value: u8,
        other: SpriteField,
    )
        requires
            other != field,
        ensures
            word.updated(field, value).field(other) == word.field(other),
    {
        lemma_pack_elsewhere8(
            word.0,
            field.spec_offset(),
            field.spec_width(),
            value,
            other.spec_offset(),
            other.spec_width(),
        );
    }
}

impl Default for SpriteAttributes {
    /// The all-zero word.
    fn default() -> (r: Self)
        ensures
            r == SpriteAttributes(0),
    {
        SpriteAttributes(0)
    }
}

} // verus!

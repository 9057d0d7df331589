use vstd::prelude::*;

verus! {

/// The "no modifier" sentinel bit.
pub const NONE_BITS: u32 = 0x0000_0001;

/// The bit of Caps Lock.
pub const CAPS_LOCK_BITS: u32 = 0x0001_0000;

/// The bit of Shift.
pub const SHIFT_BITS: u32 = 0x0002_0000;

/// The bit of Control.
pub const CONTROL_BITS: u32 = 0x0004_0000;

/// The bit of Option (Alt).
pub const OPTION_BITS: u32 = 0x0008_0000;

/// The bit of Command.
pub const COMMAND_BITS: u32 = 0x0010_0000;

/// The bit of a key of the numeric pad.
pub const NUMERIC_PAD_BITS: u32 = 0x0020_0000;

/// The bit of Help.
pub const HELP_BITS: u32 = 0x0040_0000;

/// The bit of a function key.
pub const FUNCTION_BITS: u32 = 0x0080_0000;

/// Selects the device-independent flag bits of a modifier mask.
pub const DEVICE_INDEPENDENT_BITS: u32 = 0xffff_0000;

/// The bits of all named modifier keys, Caps Lock through Function.
pub const NAMED_BITS: u32 = 0x00ff_0000;

/// Keyboard accelerator modifiers, as a set of bits laid out like the native
/// toolkit's modifier mask.
///
/// Every value is either exactly the "none" sentinel or holds at least one
/// named key: the field is private, and the constructors and `union` keep
/// this as the type's invariant.
#[derive(Clone, Copy, Debug, PartialEq, Eq, Structural)]
pub struct Modifier {
    bits: u32,
}

/// A modifier bit pattern that the constructors and `union` can produce.
pub open spec fn valid_bits(bits: u32) -> bool {
    bits == NONE_BITS || bits & NAMED_BITS != 0
}

impl Modifier {
    #[verifier::type_invariant]
    spec fn inv(self) -> bool {
        valid_bits(self.bits)
    }

    /// The bit pattern of this modifier set.
    pub closed spec fn spec_bits(self) -> u32 {
        self.bits
    }

    /// The union of two modifier sets.
    pub closed spec fn spec_union(self, other: Modifier) -> Modifier {
        Modifier { bits: self.bits | other.bits }
    }

    /// Whether at least one named modifier key is set.
    pub open spec fn has_named_key(self) -> bool {
        self.spec_bits() & NAMED_BITS != 0
    }

    /// The bit pattern of this modifier set.
    pub fn bits(&self) -> (r: u32)
        ensures
            r == self.spec_bits(),
            valid_bits(r),
    {
        proof {
            use_type_invariant(self);
        }
        self.bits
    }

    /// The "no modifier" sentinel.
    pub fn none() -> (r: Modifier)
        ensures
            r.spec_bits() == NONE_BITS,
    {
        Modifier { bits: NONE_BITS }
    }

    /// The set holding only Caps Lock.
    pub fn caps_lock() -> (r: Modifier)
        ensures
            r.spec_bits() == CAPS_LOCK_BITS,
    {
        assert(CAPS_LOCK_BITS & NAMED_BITS != 0) by (bit_vector);
        Modifier { bits: CAPS_LOCK_BITS }
    }

    /// The set holding only Shift.
    pub fn shift() -> (r: Modifier)
        ensures
            r.spec_bits() == SHIFT_BITS,
    {
        assert(SHIFT_BITS & NAMED_BITS != 0) by (bit_vector);
        Modifier { bits: SHIFT_BITS }
    }

    /// The set holding only Control.
    pub fn control() -> (r: Modifier)
        ensures
            r.spec_bits() == CONTROL_BITS,
    {
        assert(CONTROL_BITS & NAMED_BITS != 0) by (bit_vector);
        Modifier { bits: CONTROL_BITS }
    }

    /// The set holding only Option (Alt).
    pub fn option() -> (r: Modifier)
        ensures
            r.spec_bits() == OPTION_BITS,
    {
        assert(OPTION_BITS & NAMED_BITS != 0) by (bit_vector);
        Modifier { bits: OPTION_BITS }
    }

    /// The set holding only Command.
    pub fn command() -> (r: Modifier)
        ensures
            r.spec_bits() == COMMAND_BITS,
    {
        assert(COMMAND_BITS & NAMED_BITS != 0) by (bit_vector);
        Modifier { bits: COMMAND_BITS }
    }

    /// The set holding only the numeric-pad flag.
    pub fn numeric_pad() -> (r: Modifier)
        ensures
            r.spec_bits() == NUMERIC_PAD_BITS,
    {
        assert(NUMERIC_PAD_BITS & NAMED_BITS != 0) by (bit_vector);
        Modifier { bits: NUMERIC_PAD_BITS }
    }

    /// The set holding only Help.
    pub fn help() -> (r: Modifier)
        ensures
            r.spec_bits() == HELP_BITS,
    {
        assert(HELP_BITS & NAMED_BITS != 0) by (bit_vector);
        Modifier { bits: HELP_BITS }
    }

    /// The set holding only the function-key flag.
    pub fn function() -> (r: Modifier)
        ensures
            r.spec_bits() == FUNCTION_BITS,
    {
        assert(FUNCTION_BITS & NAMED_BITS != 0) by (bit_vector);
        Modifier { bits: FUNCTION_BITS }
    }

    /// The mask that selects only device-independent flag bits.
    pub fn device_independent_flags_mask() -> (r: Modifier)
        ensures
            r.spec_bits() == DEVICE_INDEPENDENT_BITS,
    {
        assert(DEVICE_INDEPENDENT_BITS & NAMED_BITS != 0) by (bit_vector);
        Modifier { bits: DEVICE_INDEPENDENT_BITS }
    }

    /// Bitwise union of two modifier sets.
    pub fn union(self, other: Modifier) -> (r: Modifier)
        ensures
            r == self.spec_union(other),
            r.spec_bits() == self.spec_bits() | other.spec_bits(),
    {
        proof {
            use_type_invariant(self);
            use_type_invariant(other);
            lemma_union_valid(self.bits, other.bits);
        }
        Modifier { bits: self.bits | other.bits }
    }

    /// Whether this is the "no modifier" sentinel, in which case no
    /// accelerator mask is applied. A modifier differs from the sentinel
    /// exactly when it holds a named key.
    pub fn is_none(&self) -> (r: bool)
        ensures
            r == (self.spec_bits() == NONE_BITS),
            r == !self.has_named_key(),
    {
        proof {
            use_type_invariant(self);
            let x = self.bits;
            assert((x == 1u32 || x & 0x00ff_0000u32 != 0) ==> ((x == 1u32) <==> (x & 0x00ff_0000u32
                == 0))) by (bit_vector);
        }
        self.bits == NONE_BITS
    }
}

proof fn lemma_union_valid(a: u32, b: u32)
    requires
        valid_bits(a),
        valid_bits(b),
    ensures
        valid_bits(a | b),
{
    assert((a == 1u32 || a & 0x00ff_0000u32 != 0) && (b == 1u32 || b & 0x00ff_0000u32 != 0)
        ==> ((a | b) == 1u32 || (a | b) & 0x00ff_0000u32 != 0)) by (bit_vector);
}

impl core::ops::BitOr for Modifier {
    type Output = Modifier;

    fn bitor(self, other: Modifier) -> (r: Modifier) {
        self.union(other)
    }
}

impl vstd::std_specs::ops::BitOrSpecImpl for Modifier {
    open spec fn obeys_bitor_spec() -> bool {
        true
    }

    open spec fn bitor_req(self, rhs: Modifier) -> bool {
        true
    }

    open spec fn bitor_spec(self, rhs: Modifier) -> Modifier {
        self.spec_union(rhs)
    }
}

/// Union of modifier sets is commutative and idempotent.
pub proof fn lemma_modifier_algebra(a: Modifier, b: Modifier)
    ensures
        a.spec_union(b) == b.spec_union(a),
        a.spec_union(a) == a,
{
    let x = a.bits;
    let y = b.bits;
    assert(x | y == y | x) by (bit_vector);
    assert(x | x == x) by (bit_vector);
}

} // verus!

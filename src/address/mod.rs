use vstd::prelude::*;

pub mod error;

use error::AddressError;

verus! {

/// 16-bit address type.
#[derive(Debug, Clone, Copy, PartialEq, Eq, Structural)]
pub struct Address16(u16);

/// 24-bit address type: a bank byte and a 16-bit offset inside the bank.
#[derive(Debug, Clone, Copy, PartialEq, Eq, Structural)]
pub struct Address24(u32);

impl View for Address16 {
    type V = nat;

    closed spec fn view(&self) -> nat {
        self.0 as nat
    }
}

impl View for Address24 {
    type V = nat;

    closed spec fn view(&self) -> nat {
        self.0 as nat
    }
}

impl Address16 {
    /// The address whose value is `v`.
    pub closed spec fn spec_new(v: u16) -> Address16 {
        Address16(v)
    }

    /// `spec_new` keeps the value.
    pub broadcast proof fn lemma_spec_new(v: u16)
        ensures
            #[trigger] Address16::spec_new(v)@ == v as nat,
    {
    }

    /// Creates a new `Address16` with the given `u16` value.
    pub fn new(address: u16) -> (r: Address16)
        ensures
            r@ == address as nat,
    {
        Address16(address)
    }

    /// Returns the low byte of the address.
    pub fn low(&self) -> (r: u8)
        ensures
            r as nat == self@ % 0x100,
    {
        proof {
            let x = self.0;
            assert(((x & 0xFF) as u8) as u16 == x % 0x100) by (bit_vector);
        }
        (self.0 & 0xFF) as u8
    }

    /// Returns the high byte of the address.
    pub fn high(&self) -> (r: u8)
        ensures
            r as nat == self@ / 0x100,
    {
        proof {
            let x = self.0;
            assert(((x >> 8) as u8) as u16 == x / 0x100) by (bit_vector);
        }
        (self.0 >> 8) as u8
    }
}

impl Address24 {
    #[verifier::type_invariant]
    spec fn fits(&self) -> bool {
        self.0 < 0x1000000
    }

    /// The address whose value is `v` truncated to 24 bits.
    pub closed spec fn spec_new(v: nat) -> Address24 {
        Address24((v % 0x1000000) as u32)
    }

    /// `spec_new` truncates the value to 24 bits.
    pub broadcast proof fn lemma_spec_new(v: nat)
        ensures
            #[trigger] Address24::spec_new(v)@ == v % 0x1000000,
    {
    }

    /// Creates a new `Address24` with the given `u32` value truncating the highest 8 bits.
    pub fn new(address: u32) -> (r: Address24)
        ensures
            r@ == address as nat % 0x1000000,
    {
        proof {
            assert((address & 0xFFFFFF) == address % 0x1000000) by (bit_vector);
        }
        Address24(address & 0xFFFFFF)
    }

    /// The value, as a flat index into the 24-bit space.
    pub fn index(&self) -> (r: usize)
        ensures
            r as nat == self@,
            r < 0x1000000,
    {
        proof {
            use_type_invariant(self);
        }
        self.0 as usize
    }

    /// Returns the low byte of the address.
    pub fn low(&self) -> (r: u8)
        ensures
            r as nat == self@ % 0x100,
    {
        proof {
            let x = self.0;
            assert(((x & 0xFF) as u8) as u32 == x % 0x100) by (bit_vector);
        }
        (self.0 & 0xFF) as u8
    }

    /// Returns the middle byte of the address.
    pub fn middle(&self) -> (r: u8)
        ensures
            r as nat == self@ / 0x100 % 0x100,
    {
        proof {
            let x = self.0;
            assert(((x >> 8) as u8) as u32 == (x / 0x100) % 0x100) by (bit_vector);
        }
        (self.0 >> 8) as u8
    }

    /// Returns the high byte of the address: its bank.
    pub fn high(&self) -> (r: u8)
        ensures
            r as nat == self@ / 0x10000,
    {
        proof {
            use_type_invariant(self);
            let x = self.0;
            assert(x < 0x1000000 ==> ((x >> 16) as u8) as u32 == x / 0x10000) by (bit_vector);
        }
        (self.0 >> 16) as u8
    }

    /// Returns the lower 16 bits of the address: its offset inside the bank.
    pub fn get_lower_address16(&self) -> (r: Address16)
        ensures
            r@ == self@ % 0x10000,
    {
        proof {
            let x = self.0;
            assert((x as u16) as u32 == x % 0x10000) by (bit_vector);
        }
        Address16(self.0 as u16)
    }
}

impl core::ops::Add<Address16> for Address16 {
    type Output = Address16;

    fn add(self, rhs: Address16) -> (r: Address16)
        ensures
            r@ == (self@ + rhs@) % 0x10000,
    {
        Address16(self.0.wrapping_add(rhs.0))
    }
}

impl vstd::std_specs::ops::AddSpecImpl<Address16> for Address16 {
    open spec fn obeys_add_spec() -> bool {
        true
    }

    open spec fn add_req(self, rhs: Address16) -> bool {
        true
    }

    open spec fn add_spec(self, rhs: Address16) -> Address16 {
        Address16::spec_new(((self@ + rhs@) % 0x10000) as u16)
    }
}

impl<'a> core::ops::Add<Address16> for &'a Address16 {
    type Output = Address16;

    fn add(self, rhs: Address16) -> (r: Address16)
        ensures
            r@ == ((*self)@ + rhs@) % 0x10000,
    {
        *self + rhs
    }
}

impl<'a> vstd::std_specs::ops::AddSpecImpl<Address16> for &'a Address16 {
    open spec fn obeys_add_spec() -> bool {
        true
    }

    open spec fn add_req(self, rhs: Address16) -> bool {
        true
    }

    open spec fn add_spec(self, rhs: Address16) -> Address16 {
        Address16::spec_new((((*self)@ + rhs@) % 0x10000) as u16)
    }
}

impl<'a> core::ops::Add<&'a Address16> for Address16 {
    type Output = Address16;

    fn add(self, rhs: &'a Address16) -> (r: Address16)
        ensures
            r@ == (self@ + (*rhs)@) % 0x10000,
    {
        self + *rhs
    }
}

impl<'a> vstd::std_specs::ops::AddSpecImpl<&'a Address16> for Address16 {
    open spec fn obeys_add_spec() -> bool {
        true
    }

    open spec fn add_req(self, rhs: &'a Address16) -> bool {
        true
    }

    open spec fn add_spec(self, rhs: &'a Address16) -> Address16 {
        Address16::spec_new(((self@ + (*rhs)@) % 0x10000) as u16)
    }
}

impl<'a, 'b> core::ops::Add<&'b Address16> for &'a Address16 {
    type Output = Address16;

    fn add(self, rhs: &'b Address16) -> (r: Address16)
        ensures
            r@ == ((*self)@ + (*rhs)@) % 0x10000,
    {
        *self + *rhs
    }
}

impl<'a, 'b> vstd::std_specs::ops::AddSpecImpl<&'b Address16> for &'a Address16 {
    open spec fn obeys_add_spec() -> bool {
        true
    }

    open spec fn add_req(self, rhs: &'b Address16) -> bool {
        true
    }

    open spec fn add_spec(self, rhs: &'b Address16) -> Address16 {
        Address16::spec_new((((*self)@ + (*rhs)@) % 0x10000) as u16)
    }
}

impl core::ops::Sub<Address16> for Address16 {
    type Output = Address16;

    fn sub(self, rhs: Address16) -> (r: Address16)
        ensures
            r@ == (self@ + 0x10000 - rhs@) % 0x10000,
    {
        Address16(self.0.wrapping_sub(rhs.0))
    }
}

impl vstd::std_specs::ops::SubSpecImpl<Address16> for Address16 {
    open spec fn obeys_sub_spec() -> bool {
        true
    }

    open spec fn sub_req(self, rhs: Address16) -> bool {
        true
    }

    open spec fn sub_spec(self, rhs: Address16) -> Address16 {
        Address16::spec_new(((self@ + 0x10000 - rhs@) % 0x10000) as u16)
    }
}

impl<'a> core::ops::Sub<Address16> for &'a Address16 {
    type Output = Address16;

    fn sub(self, rhs: Address16) -> (r: Address16)
        ensures
            r@ == ((*self)@ + 0x10000 - rhs@) % 0x10000,
    {
        *self - rhs
    }
}

impl<'a> vstd::std_specs::ops::SubSpecImpl<Address16> for &'a Address16 {
    open spec fn obeys_sub_spec() -> bool {
        true
    }

    open spec fn sub_req(self, rhs: Address16) -> bool {
        true
    }

    open spec fn sub_spec(self, rhs: Address16) -> Address16 {
        Address16::spec_new((((*self)@ + 0x10000 - rhs@) % 0x10000) as u16)
    }
}

impl<'a> core::ops::Sub<&'a Address16> for Address16 {
    type Output = Address16;

    fn sub(self, rhs: &'a Address16) -> (r: Address16)
        ensures
            r@ == (self@ + 0x10000 - (*rhs)@) % 0x10000,
    {
        self - *rhs
    }
}

impl<'a> vstd::std_specs::ops::SubSpecImpl<&'a Address16> for Address16 {
    open spec fn obeys_sub_spec() -> bool {
        true
    }

    open spec fn sub_req(self, rhs: &'a Address16) -> bool {
        true
    }

    open spec fn sub_spec(self, rhs: &'a Address16) -> Address16 {
        Address16::spec_new(((self@ + 0x10000 - (*rhs)@) % 0x10000) as u16)
    }
}

impl<'a, 'b> core::ops::Sub<&'b Address16> for &'a Address16 {
    type Output = Address16;

    fn sub(self, rhs: &'b Address16) -> (r: Address16)
        ensures
            r@ == ((*self)@ + 0x10000 - (*rhs)@) % 0x10000,
    {
        *self - *rhs
    }
}

impl<'a, 'b> vstd::std_specs::ops::SubSpecImpl<&'b Address16> for &'a Address16 {
    open spec fn obeys_sub_spec() -> bool {
        true
    }

    open spec fn sub_req(self, rhs: &'b Address16) -> bool {
        true
    }

    open spec fn sub_spec(self, rhs: &'b Address16) -> Address16 {
        Address16::spec_new((((*self)@ + 0x10000 - (*rhs)@) % 0x10000) as u16)
    }
}

impl core::ops::BitAnd<u16> for Address16 {
    type Output = Address16;

    fn bitand(self, rhs: u16) -> (r: Address16)
        ensures
            r@ == (self@ as u16 & rhs) as nat,
    {
        Address16(self.0 & rhs)
    }
}

impl vstd::std_specs::ops::BitAndSpecImpl<u16> for Address16 {
    open spec fn obeys_bitand_spec() -> bool {
        true
    }

    open spec fn bitand_req(self, rhs: u16) -> bool {
        true
    }

    open spec fn bitand_spec(self, rhs: u16) -> Address16 {
        Address16::spec_new(self@ as u16 & rhs)
    }
}

impl<'a> core::ops::BitAnd<u16> for &'a Address16 {
    type Output = Address16;

    fn bitand(self, rhs: u16) -> (r: Address16)
        ensures
            r@ == ((*self)@ as u16 & rhs) as nat,
    {
        *self & rhs
    }
}

impl<'a> vstd::std_specs::ops::BitAndSpecImpl<u16> for &'a Address16 {
    open spec fn obeys_bitand_spec() -> bool {
        true
    }

    open spec fn bitand_req(self, rhs: u16) -> bool {
        true
    }

    open spec fn bitand_spec(self, rhs: u16) -> Address16 {
        Address16::spec_new((*self)@ as u16 & rhs)
    }
}

impl<'a> core::ops::BitAnd<&'a u16> for Address16 {
    type Output = Address16;

    fn bitand(self, rhs: &'a u16) -> (r: Address16)
        ensures
            r@ == (self@ as u16 & *rhs) as nat,
    {
        self & *rhs
    }
}

impl<'a> vstd::std_specs::ops::BitAndSpecImpl<&'a u16> for Address16 {
    open spec fn obeys_bitand_spec() -> bool {
        true
    }

    open spec fn bitand_req(self, rhs: &'a u16) -> bool {
        true
    }

    open spec fn bitand_spec(self, rhs: &'a u16) -> Address16 {
        Address16::spec_new(self@ as u16 & *rhs)
    }
}

impl<'a, 'b> core::ops::BitAnd<&'b u16> for &'a Address16 {
    type Output = Address16;

    fn bitand(self, rhs: &'b u16) -> (r: Address16)
        ensures
            r@ == ((*self)@ as u16 & *rhs) as nat,
    {
        *self & *rhs
    }
}

impl<'a, 'b> vstd::std_specs::ops::BitAndSpecImpl<&'b u16> for &'a Address16 {
    open spec fn obeys_bitand_spec() -> bool {
        true
    }

    open spec fn bitand_req(self, rhs: &'b u16) -> bool {
        true
    }

    open spec fn bitand_spec(self, rhs: &'b u16) -> Address16 {
        Address16::spec_new((*self)@ as u16 & *rhs)
    }
}

impl core::ops::Add<Address24> for Address24 {
    type Output = Address24;

    fn add(self, rhs: Address24) -> (r: Address24)
        ensures
            r@ == (self@ + rhs@) % 0x1000000,
    {
        Address24::new(self.0.wrapping_add(rhs.0))
    }
}

impl vstd::std_specs::ops::AddSpecImpl<Address24> for Address24 {
    open spec fn obeys_add_spec() -> bool {
        true
    }

    open spec fn add_req(self, rhs: Address24) -> bool {
        true
    }

    open spec fn add_spec(self, rhs: Address24) -> Address24 {
        Address24::spec_new(self@ + rhs@)
    }
}

impl<'a> core::ops::Add<Address24> for &'a Address24 {
    type Output = Address24;

    fn add(self, rhs: Address24) -> (r: Address24)
        ensures
            r@ == ((*self)@ + rhs@) % 0x1000000,
    {
        *self + rhs
    }
}

impl<'a> vstd::std_specs::ops::AddSpecImpl<Address24> for &'a Address24 {
    open spec fn obeys_add_spec() -> bool {
        true
    }

    open spec fn add_req(self, rhs: Address24) -> bool {
        true
    }

    open spec fn add_spec(self, rhs: Address24) -> Address24 {
        Address24::spec_new((*self)@ + rhs@)
    }
}

impl<'a> core::ops::Add<&'a Address24> for Address24 {
    type Output = Address24;

    fn add(self, rhs: &'a Address24) -> (r: Address24)
        ensures
            r@ == (self@ + (*rhs)@) % 0x1000000,
    {
        self + *rhs
    }
}

impl<'a> vstd::std_specs::ops::AddSpecImpl<&'a Address24> for Address24 {
    open spec fn obeys_add_spec() -> bool {
        true
    }

    open spec fn add_req(self, rhs: &'a Address24) -> bool {
        true
    }

    open spec fn add_spec(self, rhs: &'a Address24) -> Address24 {
        Address24::spec_new(self@ + (*rhs)@)
    }
}

impl<'a, 'b> core::ops::Add<&'b Address24> for &'a Address24 {
    type Output = Address24;

    fn add(self, rhs: &'b Address24) -> (r: Address24)
        ensures
            r@ == ((*self)@ + (*rhs)@) % 0x1000000,
    {
        *self + *rhs
    }
}

impl<'a, 'b> vstd::std_specs::ops::AddSpecImpl<&'b Address24> for &'a Address24 {
    open spec fn obeys_add_spec() -> bool {
        true
    }

    open spec fn add_req(self, rhs: &'b Address24) -> bool {
        true
    }

    open spec fn add_spec(self, rhs: &'b Address24) -> Address24 {
        Address24::spec_new((*self)@ + (*rhs)@)
    }
}

impl core::ops::Sub<Address24> for Address24 {
    type Output = Address24;

    fn sub(self, rhs: Address24) -> (r: Address24)
        ensures
            r@ == (self@ + 0x1000000 - rhs@) % 0x1000000,
    {
        proof {
            use_type_invariant(&self);
            use_type_invariant(&rhs);
            let (a, b) = (self.0, rhs.0);
            assert(a < 0x1000000 && b < 0x1000000 ==> (a.wrapping_sub(b) & 0xFFFFFF) as int == (a + 0x1000000 - b) % 0x1000000) by (bit_vector);
        }
        Address24(self.0.wrapping_sub(rhs.0) & 0xFFFFFF)
    }
}

impl vstd::std_specs::ops::SubSpecImpl<Address24> for Address24 {
    open spec fn obeys_sub_spec() -> bool {
        true
    }

    open spec fn sub_req(self, rhs: Address24) -> bool {
        true
    }

    open spec fn sub_spec(self, rhs: Address24) -> Address24 {
        Address24::spec_new((self@ + 0x1000000 - rhs@) as nat)
    }
}

impl<'a> core::ops::Sub<Address24> for &'a Address24 {
    type Output = Address24;

    fn sub(self, rhs: Address24) -> (r: Address24)
        ensures
            r@ == ((*self)@ + 0x1000000 - rhs@) % 0x1000000,
    {
        *self - rhs
    }
}

impl<'a> vstd::std_specs::ops::SubSpecImpl<Address24> for &'a Address24 {
    open spec fn obeys_sub_spec() -> bool {
        true
    }

    open spec fn sub_req(self, rhs: Address24) -> bool {
        true
    }

    open spec fn sub_spec(self, rhs: Address24) -> Address24 {
        Address24::spec_new(((*self)@ + 0x1000000 - rhs@) as nat)
    }
}

impl<'a> core::ops::Sub<&'a Address24> for Address24 {
    type Output = Address24;

    fn sub(self, rhs: &'a Address24) -> (r: Address24)
        ensures
            r@ == (self@ + 0x1000000 - (*rhs)@) % 0x1000000,
    {
        self - *rhs
    }
}

impl<'a> vstd::std_specs::ops::SubSpecImpl<&'a Address24> for Address24 {
    open spec fn obeys_sub_spec() -> bool {
        true
    }

    open spec fn sub_req(self, rhs: &'a Address24) -> bool {
        true
    }

    open spec fn sub_spec(self, rhs: &'a Address24) -> Address24 {
        Address24::spec_new((self@ + 0x1000000 - (*rhs)@) as nat)
    }
}

impl<'a, 'b> core::ops::Sub<&'b Address24> for &'a Address24 {
    type Output = Address24;

    fn sub(self, rhs: &'b Address24) -> (r: Address24)
        ensures
            r@ == ((*self)@ + 0x1000000 - (*rhs)@) % 0x1000000,
    {
        *self - *rhs
    }
}

impl<'a, 'b> vstd::std_specs::ops::SubSpecImpl<&'b Address24> for &'a Address24 {
    open spec fn obeys_sub_spec() -> bool {
        true
    }

    open spec fn sub_req(self, rhs: &'b Address24) -> bool {
        true
    }

    open spec fn sub_spec(self, rhs: &'b Address24) -> Address24 {
        Address24::spec_new(((*self)@ + 0x1000000 - (*rhs)@) as nat)
    }
}

impl core::ops::BitAnd<u32> for Address24 {
    type Output = Address24;

    fn bitand(self, rhs: u32) -> (r: Address24)
        ensures
            r@ == (self@ as u32 & rhs) as nat,
    {
        proof {
            use_type_invariant(&self);
            let x = self.0;
            assert(x < 0x1000000 ==> (x & rhs) < 0x1000000) by (bit_vector);
        }
        Address24(self.0 & rhs)
    }
}

impl vstd::std_specs::ops::BitAndSpecImpl<u32> for Address24 {
    open spec fn obeys_bitand_spec() -> bool {
        true
    }

    open spec fn bitand_req(self, rhs: u32) -> bool {
        true
    }

    open spec fn bitand_spec(self, rhs: u32) -> Address24 {
        Address24::spec_new((self@ as u32 & rhs) as nat)
    }
}

impl<'a> core::ops::BitAnd<u32> for &'a Address24 {
    type Output = Address24;

    fn bitand(self, rhs: u32) -> (r: Address24)
        ensures
            r@ == ((*self)@ as u32 & rhs) as nat,
    {
        *self & rhs
    }
}

impl<'a> vstd::std_specs::ops::BitAndSpecImpl<u32> for &'a Address24 {
    open spec fn obeys_bitand_spec() -> bool {
        true
    }

    open spec fn bitand_req(self, rhs: u32) -> bool {
        true
    }

    open spec fn bitand_spec(self, rhs: u32) -> Address24 {
        Address24::spec_new(((*self)@ as u32 & rhs) as nat)
    }
}

impl<'a> core::ops::BitAnd<&'a u32> for Address24 {
    type Output = Address24;

    fn bitand(self, rhs: &'a u32) -> (r: Address24)
        ensures
            r@ == (self@ as u32 & *rhs) as nat,
    {
        self & *rhs
    }
}

impl<'a> vstd::std_specs::ops::BitAndSpecImpl<&'a u32> for Address24 {
    open spec fn obeys_bitand_spec() -> bool {
        true
    }

    open spec fn bitand_req(self, rhs: &'a u32) -> bool {
        true
    }

    open spec fn bitand_spec(self, rhs: &'a u32) -> Address24 {
        Address24::spec_new((self@ as u32 & *rhs) as nat)
    }
}

impl<'a, 'b> core::ops::BitAnd<&'b u32> for &'a Address24 {
    type Output = Address24;

    fn bitand(self, rhs: &'b u32) -> (r: Address24)
        ensures
            r@ == ((*self)@ as u32 & *rhs) as nat,
    {
        *self & *rhs
    }
}

impl<'a, 'b> vstd::std_specs::ops::BitAndSpecImpl<&'b u32> for &'a Address24 {
    open spec fn obeys_bitand_spec() -> bool {
        true
    }

    open spec fn bitand_req(self, rhs: &'b u32) -> bool {
        true
    }

    open spec fn bitand_spec(self, rhs: &'b u32) -> Address24 {
        Address24::spec_new(((*self)@ as u32 & *rhs) as nat)
    }
}

impl core::ops::Add<Address16> for Address24 {
    type Output = Address24;

    fn add(self, rhs: Address16) -> (r: Address24)
        ensures
            r@ == self@ - self@ % 0x10000 + (self@ % 0x10000 + rhs@) % 0x10000,
    {
        proof {
            use_type_invariant(&self);
            Address16::lemma_spec_new(((self@ % 0x10000 + rhs@) % 0x10000) as u16);
        }
        let low = self.get_lower_address16() + rhs;
        proof {
            let x = self.0;
            let s = low.0 as u32;
            assert(x < 0x1000000 && s < 0x10000 ==> (x & 0xFF0000 | s) == x - x % 0x10000 + s && (x & 0xFF0000 | s) < 0x1000000) by (bit_vector);
        }
        Address24(self.0 & 0xFF0000 | low.0 as u32)
    }
}

impl vstd::std_specs::ops::AddSpecImpl<Address16> for Address24 {
    open spec fn obeys_add_spec() -> bool {
        true
    }

    open spec fn add_req(self, rhs: Address16) -> bool {
        true
    }

    open spec fn add_spec(self, rhs: Address16) -> Address24 {
        Address24::spec_new((self@ - self@ % 0x10000 + (self@ % 0x10000 + rhs@) % 0x10000) as nat)
    }
}

impl<'a> core::ops::Add<Address16> for &'a Address24 {
    type Output = Address24;

    fn add(self, rhs: Address16) -> (r: Address24)
        ensures
            r@ == (*self)@ - (*self)@ % 0x10000 + ((*self)@ % 0x10000 + rhs@) % 0x10000,
    {
        *self + rhs
    }
}

impl<'a> vstd::std_specs::ops::AddSpecImpl<Address16> for &'a Address24 {
    open spec fn obeys_add_spec() -> bool {
        true
    }

    open spec fn add_req(self, rhs: Address16) -> bool {
        true
    }

    open spec fn add_spec(self, rhs: Address16) -> Address24 {
        Address24::spec_new(((*self)@ - (*self)@ % 0x10000 + ((*self)@ % 0x10000 + rhs@) % 0x10000) as nat)
    }
}

impl<'a> core::ops::Add<&'a Address16> for Address24 {
    type Output = Address24;

    fn add(self, rhs: &'a Address16) -> (r: Address24)
        ensures
            r@ == self@ - self@ % 0x10000 + (self@ % 0x10000 + (*rhs)@) % 0x10000,
    {
        self + *rhs
    }
}

impl<'a> vstd::std_specs::ops::AddSpecImpl<&'a Address16> for Address24 {
    open spec fn obeys_add_spec() -> bool {
        true
    }

    open spec fn add_req(self, rhs: &'a Address16) -> bool {
        true
    }

    open spec fn add_spec(self, rhs: &'a Address16) -> Address24 {
        Address24::spec_new((self@ - self@ % 0x10000 + (self@ % 0x10000 + (*rhs)@) % 0x10000) as nat)
    }
}

impl<'a, 'b> core::ops::Add<&'b Address16> for &'a Address24 {
    type Output = Address24;

    fn add(self, rhs: &'b Address16) -> (r: Address24)
        ensures
            r@ == (*self)@ - (*self)@ % 0x10000 + ((*self)@ % 0x10000 + (*rhs)@) % 0x10000,
    {
        *self + *rhs
    }
}

impl<'a, 'b> vstd::std_specs::ops::AddSpecImpl<&'b Address16> for &'a Address24 {
    open spec fn obeys_add_spec() -> bool {
        true
    }

    open spec fn add_req(self, rhs: &'b Address16) -> bool {
        true
    }

    open spec fn add_spec(self, rhs: &'b Address16) -> Address24 {
        Address24::spec_new(((*self)@ - (*self)@ % 0x10000 + ((*self)@ % 0x10000 + (*rhs)@) % 0x10000) as nat)
    }
}

impl From<u8> for Address16 {
    fn from(src: u8) -> (r: Address16)
        ensures
            r@ == src as nat,
    {
        Address16(src as u16)
    }
}

impl vstd::std_specs::convert::FromSpecImpl<u8> for Address16 {
    open spec fn obeys_from_spec() -> bool {
        true
    }

    open spec fn from_spec(v: u8) -> Address16 {
        Address16::spec_new(v as u16)
    }
}

impl From<u16> for Address16 {
    fn from(src: u16) -> (r: Address16)
        ensures
            r@ == src as nat,
    {
        Address16(src)
    }
}

impl vstd::std_specs::convert::FromSpecImpl<u16> for Address16 {
    open spec fn obeys_from_spec() -> bool {
        true
    }

    open spec fn from_spec(v: u16) -> Address16 {
        Address16::spec_new(v)
    }
}

impl From<u8> for Address24 {
    fn from(src: u8) -> (r: Address24)
        ensures
            r@ == src as nat,
    {
        Address24(src as u32)
    }
}

impl vstd::std_specs::convert::FromSpecImpl<u8> for Address24 {
    open spec fn obeys_from_spec() -> bool {
        true
    }

    open spec fn from_spec(v: u8) -> Address24 {
        Address24::spec_new(v as nat)
    }
}

impl From<u16> for Address24 {
    fn from(src: u16) -> (r: Address24)
        ensures
            r@ == src as nat,
    {
        Address24(src as u32)
    }
}

impl vstd::std_specs::convert::FromSpecImpl<u16> for Address24 {
    open spec fn obeys_from_spec() -> bool {
        true
    }

    open spec fn from_spec(v: u16) -> Address24 {
        Address24::spec_new(v as nat)
    }
}

impl From<Address16> for Address24 {
    fn from(src: Address16) -> (r: Address24)
        ensures
            r@ == src@,
    {
        Address24(src.0 as u32)
    }
}

impl vstd::std_specs::convert::FromSpecImpl<Address16> for Address24 {
    open spec fn obeys_from_spec() -> bool {
        true
    }

    open spec fn from_spec(v: Address16) -> Address24 {
        Address24::spec_new(v@)
    }
}

impl From<Address16> for u16 {
    fn from(src: Address16) -> (r: u16)
        ensures
            r as nat == src@,
    {
        src.0 as u16
    }
}

impl vstd::std_specs::convert::FromSpecImpl<Address16> for u16 {
    open spec fn obeys_from_spec() -> bool {
        true
    }

    open spec fn from_spec(v: Address16) -> u16 {
        v@ as u16
    }
}

impl From<Address16> for u32 {
    fn from(src: Address16) -> (r: u32)
        ensures
            r as nat == src@,
    {
        src.0 as u32
    }
}

impl vstd::std_specs::convert::FromSpecImpl<Address16> for u32 {
    open spec fn obeys_from_spec() -> bool {
        true
    }

    open spec fn from_spec(v: Address16) -> u32 {
        v@ as u32
    }
}

impl From<Address16> for u64 {
    fn from(src: Address16) -> (r: u64)
        ensures
            r as nat == src@,
    {
        src.0 as u64
    }
}

impl vstd::std_specs::convert::FromSpecImpl<Address16> for u64 {
    open spec fn obeys_from_spec() -> bool {
        true
    }

    open spec fn from_spec(v: Address16) -> u64 {
        v@ as u64
    }
}

impl From<Address16> for u128 {
    fn from(src: Address16) -> (r: u128)
        ensures
            r as nat == src@,
    {
        src.0 as u128
    }
}

impl vstd::std_specs::convert::FromSpecImpl<Address16> for u128 {
    open spec fn obeys_from_spec() -> bool {
        true
    }

    open spec fn from_spec(v: Address16) -> u128 {
        v@ as u128
    }
}

impl From<Address16> for usize {
    fn from(src: Address16) -> (r: usize)
        ensures
            r as nat == src@,
    {
        src.0 as usize
    }
}

impl vstd::std_specs::convert::FromSpecImpl<Address16> for usize {
    open spec fn obeys_from_spec() -> bool {
        true
    }

    open spec fn from_spec(v: Address16) -> usize {
        v@ as usize
    }
}

impl From<Address24> for u32 {
    fn from(src: Address24) -> (r: u32)
        ensures
            r as nat == src@,
    {
        proof {
            use_type_invariant(&src);
        }
        src.0 as u32
    }
}

impl vstd::std_specs::convert::FromSpecImpl<Address24> for u32 {
    open spec fn obeys_from_spec() -> bool {
        true
    }

    open spec fn from_spec(v: Address24) -> u32 {
        v@ as u32
    }
}

impl From<Address24> for u64 {
    fn from(src: Address24) -> (r: u64)
        ensures
            r as nat == src@,
    {
        proof {
            use_type_invariant(&src);
        }
        src.0 as u64
    }
}

impl vstd::std_specs::convert::FromSpecImpl<Address24> for u64 {
    open spec fn obeys_from_spec() -> bool {
        true
    }

    open spec fn from_spec(v: Address24) -> u64 {
        v@ as u64
    }
}

impl From<Address24> for u128 {
    fn from(src: Address24) -> (r: u128)
        ensures
            r as nat == src@,
    {
        proof {
            use_type_invariant(&src);
        }
        src.0 as u128
    }
}

impl vstd::std_specs::convert::FromSpecImpl<Address24> for u128 {
    open spec fn obeys_from_spec() -> bool {
        true
    }

    open spec fn from_spec(v: Address24) -> u128 {
        v@ as u128
    }
}

impl From<Address24> for usize {
    fn from(src: Address24) -> (r: usize)
        ensures
            r as nat == src@,
    {
        proof {
            use_type_invariant(&src);
        }
        src.0 as usize
    }
}

impl vstd::std_specs::convert::FromSpecImpl<Address24> for usize {
    open spec fn obeys_from_spec() -> bool {
        true
    }

    open spec fn from_spec(v: Address24) -> usize {
        v@ as usize
    }
}

impl TryFrom<i8> for Address16 {
    type Error = AddressError;

    fn try_from(src: i8) -> (r: Result<Address16, AddressError>)
        ensures
            0 <= src as int ==> r is Ok && r->Ok_0@ == src as nat,
            !(0 <= src as int) ==> r == Err::<Address16, AddressError>(AddressError::TryFromIntError),
    {
        if 0 <= src {
            Ok(Address16(src as u16))
        } else {
            Err(AddressError::TryFromIntError)
        }
    }
}

impl vstd::std_specs::convert::TryFromSpecImpl<i8> for Address16 {
    open spec fn obeys_try_from_spec() -> bool {
        true
    }

    open spec fn try_from_spec(v: i8) -> Result<Address16, AddressError> {
        if 0 <= v {
            Ok(Address16::spec_new(v as u16))
        } else {
            Err(AddressError::TryFromIntError)
        }
    }
}

impl TryFrom<i16> for Address16 {
    type Error = AddressError;

    fn try_from(src: i16) -> (r: Result<Address16, AddressError>)
        ensures
            0 <= src as int ==> r is Ok && r->Ok_0@ == src as nat,
            !(0 <= src as int) ==> r == Err::<Address16, AddressError>(AddressError::TryFromIntError),
    {
        if 0 <= src {
            Ok(Address16(src as u16))
        } else {
            Err(AddressError::TryFromIntError)
        }
    }
}

impl vstd::std_specs::convert::TryFromSpecImpl<i16> for Address16 {
    open spec fn obeys_try_from_spec() -> bool {
        true
    }

    open spec fn try_from_spec(v: i16) -> Result<Address16, AddressError> {
        if 0 <= v {
            Ok(Address16::spec_new(v as u16))
        } else {
            Err(AddressError::TryFromIntError)
        }
    }
}

impl TryFrom<i32> for Address16 {
    type Error = AddressError;

    fn try_from(src: i32) -> (r: Result<Address16, AddressError>)
        ensures
            0 <= src as int && src as int <= 0xFFFF ==> r is Ok && r->Ok_0@ == src as nat,
            !(0 <= src as int && src as int <= 0xFFFF) ==> r == Err::<Address16, AddressError>(AddressError::TryFromIntError),
    {
        if 0 <= src && src <= 0xFFFF {
            Ok(Address16(src as u16))
        } else {
            Err(AddressError::TryFromIntError)
        }
    }
}

impl vstd::std_specs::convert::TryFromSpecImpl<i32> for Address16 {
    open spec fn obeys_try_from_spec() -> bool {
        true
    }

    open spec fn try_from_spec(v: i32) -> Result<Address16, AddressError> {
        if 0 <= v && v <= 0xFFFF {
            Ok(Address16::spec_new(v as u16))
        } else {
            Err(AddressError::TryFromIntError)
        }
    }
}

impl TryFrom<i64> for Address16 {
    type Error = AddressError;

    fn try_from(src: i64) -> (r: Result<Address16, AddressError>)
        ensures
            0 <= src as int && src as int <= 0xFFFF ==> r is Ok && r->Ok_0@ == src as nat,
            !(0 <= src as int && src as int <= 0xFFFF) ==> r == Err::<Address16, AddressError>(AddressError::TryFromIntError),
    {
        if 0 <= src && src <= 0xFFFF {
            Ok(Address16(src as u16))
        } else {
            Err(AddressError::TryFromIntError)
        }
    }
}

impl vstd::std_specs::convert::TryFromSpecImpl<i64> for Address16 {
    open spec fn obeys_try_from_spec() -> bool {
        true
    }

    open spec fn try_from_spec(v: i64) -> Result<Address16, AddressError> {
        if 0 <= v && v <= 0xFFFF {
            Ok(Address16::spec_new(v as u16))
        } else {
            Err(AddressError::TryFromIntError)
        }
    }
}

impl TryFrom<i128> for Address16 {
    type Error = AddressError;

    fn try_from(src: i128) -> (r: Result<Address16, AddressError>)
        ensures
            0 <= src as int && src as int <= 0xFFFF ==> r is Ok && r->Ok_0@ == src as nat,
            !(0 <= src as int && src as int <= 0xFFFF) ==> r == Err::<Address16, AddressError>(AddressError::TryFromIntError),
    {
        if 0 <= src && src <= 0xFFFF {
            Ok(Address16(src as u16))
        } else {
            Err(AddressError::TryFromIntError)
        }
    }
}

impl vstd::std_specs::convert::TryFromSpecImpl<i128> for Address16 {
    open spec fn obeys_try_from_spec() -> bool {
        true
    }

    open spec fn try_from_spec(v: i128) -> Result<Address16, AddressError> {
        if 0 <= v && v <= 0xFFFF {
            Ok(Address16::spec_new(v as u16))
        } else {
            Err(AddressError::TryFromIntError)
        }
    }
}

impl TryFrom<u32> for Address16 {
    type Error = AddressError;

    fn try_from(src: u32) -> (r: Result<Address16, AddressError>)
        ensures
            src as int <= 0xFFFF ==> r is Ok && r->Ok_0@ == src as nat,
            !(src as int <= 0xFFFF) ==> r == Err::<Address16, AddressError>(AddressError::TryFromIntError),
    {
        if src <= 0xFFFF {
            Ok(Address16(src as u16))
        } else {
            Err(AddressError::TryFromIntError)
        }
    }
}

impl vstd::std_specs::convert::TryFromSpecImpl<u32> for Address16 {
    open spec fn obeys_try_from_spec() -> bool {
        true
    }

    open spec fn try_from_spec(v: u32) -> Result<Address16, AddressError> {
        if v <= 0xFFFF {
            Ok(Address16::spec_new(v as u16))
        } else {
            Err(AddressError::TryFromIntError)
        }
    }
}

impl TryFrom<u64> for Address16 {
    type Error = AddressError;

    fn try_from(src: u64) -> (r: Result<Address16, AddressError>)
        ensures
            src as int <= 0xFFFF ==> r is Ok && r->Ok_0@ == src as nat,
            !(src as int <= 0xFFFF) ==> r == Err::<Address16, AddressError>(AddressError::TryFromIntError),
    {
        if src <= 0xFFFF {
            Ok(Address16(src as u16))
        } else {
            Err(AddressError::TryFromIntError)
        }
    }
}

impl vstd::std_specs::convert::TryFromSpecImpl<u64> for Address16 {
    open spec fn obeys_try_from_spec() -> bool {
        true
    }

    open spec fn try_from_spec(v: u64) -> Result<Address16, AddressError> {
        if v <= 0xFFFF {
            Ok(Address16::spec_new(v as u16))
        } else {
            Err(AddressError::TryFromIntError)
        }
    }
}

impl TryFrom<u128> for Address16 {
    type Error = AddressError;

    fn try_from(src: u128) -> (r: Result<Address16, AddressError>)
        ensures
            src as int <= 0xFFFF ==> r is Ok && r->Ok_0@ == src as nat,
            !(src as int <= 0xFFFF) ==> r == Err::<Address16, AddressError>(AddressError::TryFromIntError),
    {
        if src <= 0xFFFF {
            Ok(Address16(src as u16))
        } else {
            Err(AddressError::TryFromIntError)
        }
    }
}

impl vstd::std_specs::convert::TryFromSpecImpl<u128> for Address16 {
    open spec fn obeys_try_from_spec() -> bool {
        true
    }

    open spec fn try_from_spec(v: u128) -> Result<Address16, AddressError> {
        if v <= 0xFFFF {
            Ok(Address16::spec_new(v as u16))
        } else {
            Err(AddressError::TryFromIntError)
        }
    }
}

impl TryFrom<i8> for Address24 {
    type Error = AddressError;

    fn try_from(src: i8) -> (r: Result<Address24, AddressError>)
        ensures
            0 <= src as int ==> r is Ok && r->Ok_0@ == src as nat,
            !(0 <= src as int) ==> r == Err::<Address24, AddressError>(AddressError::TryFromIntError),
    {
        if 0 <= src {
            Ok(Address24(src as u32))
        } else {
            Err(AddressError::TryFromIntError)
        }
    }
}

impl vstd::std_specs::convert::TryFromSpecImpl<i8> for Address24 {
    open spec fn obeys_try_from_spec() -> bool {
        true
    }

    open spec fn try_from_spec(v: i8) -> Result<Address24, AddressError> {
        if 0 <= v {
            Ok(Address24::spec_new(v as nat))
        } else {
            Err(AddressError::TryFromIntError)
        }
    }
}

impl TryFrom<i16> for Address24 {
    type Error = AddressError;

    fn try_from(src: i16) -> (r: Result<Address24, AddressError>)
        ensures
            0 <= src as int ==> r is Ok && r->Ok_0@ == src as nat,
            !(0 <= src as int) ==> r == Err::<Address24, AddressError>(AddressError::TryFromIntError),
    {
        if 0 <= src {
            Ok(Address24(src as u32))
        } else {
            Err(AddressError::TryFromIntError)
        }
    }
}

impl vstd::std_specs::convert::TryFromSpecImpl<i16> for Address24 {
    open spec fn obeys_try_from_spec() -> bool {
        true
    }

    open spec fn try_from_spec(v: i16) -> Result<Address24, AddressError> {
        if 0 <= v {
            Ok(Address24::spec_new(v as nat))
        } else {
            Err(AddressError::TryFromIntError)
        }
    }
}

impl TryFrom<i32> for Address24 {
    type Error = AddressError;

    fn try_from(src: i32) -> (r: Result<Address24, AddressError>)
        ensures
            0 <= src as int && src as int <= 0xFFFFFF ==> r is Ok && r->Ok_0@ == src as nat,
            !(0 <= src as int && src as int <= 0xFFFFFF) ==> r == Err::<Address24, AddressError>(AddressError::TryFromIntError),
    {
        if 0 <= src && src <= 0xFFFFFF {
            Ok(Address24(src as u32))
        } else {
            Err(AddressError::TryFromIntError)
        }
    }
}

impl vstd::std_specs::convert::TryFromSpecImpl<i32> for Address24 {
    open spec fn obeys_try_from_spec() -> bool {
        true
    }

    open spec fn try_from_spec(v: i32) -> Result<Address24, AddressError> {
        if 0 <= v && v <= 0xFFFFFF {
            Ok(Address24::spec_new(v as nat))
        } else {
            Err(AddressError::TryFromIntError)
        }
    }
}

impl TryFrom<i64> for Address24 {
    type Error = AddressError;

    fn try_from(src: i64) -> (r: Result<Address24, AddressError>)
        ensures
            0 <= src as int && src as int <= 0xFFFFFF ==> r is Ok && r->Ok_0@ == src as nat,
            !(0 <= src as int && src as int <= 0xFFFFFF) ==> r == Err::<Address24, AddressError>(AddressError::TryFromIntError),
    {
        if 0 <= src && src <= 0xFFFFFF {
            Ok(Address24(src as u32))
        } else {
            Err(AddressError::TryFromIntError)
        }
    }
}

impl vstd::std_specs::convert::TryFromSpecImpl<i64> for Address24 {
    open spec fn obeys_try_from_spec() -> bool {
        true
    }

    open spec fn try_from_spec(v: i64) -> Result<Address24, AddressError> {
        if 0 <= v && v <= 0xFFFFFF {
            Ok(Address24::spec_new(v as nat))
        } else {
            Err(AddressError::TryFromIntError)
        }
    }
}

impl TryFrom<i128> for Address24 {
    type Error = AddressError;

    fn try_from(src: i128) -> (r: Result<Address24, AddressError>)
        ensures
            0 <= src as int && src as int <= 0xFFFFFF ==> r is Ok && r->Ok_0@ == src as nat,
            !(0 <= src as int && src as int <= 0xFFFFFF) ==> r == Err::<Address24, AddressError>(AddressError::TryFromIntError),
    {
        if 0 <= src && src <= 0xFFFFFF {
            Ok(Address24(src as u32))
        } else {
            Err(AddressError::TryFromIntError)
        }
    }
}

impl vstd::std_specs::convert::TryFromSpecImpl<i128> for Address24 {
    open spec fn obeys_try_from_spec() -> bool {
        true
    }

    open spec fn try_from_spec(v: i128) -> Result<Address24, AddressError> {
        if 0 <= v && v <= 0xFFFFFF {
            Ok(Address24::spec_new(v as nat))
        } else {
            Err(AddressError::TryFromIntError)
        }
    }
}

impl TryFrom<u32> for Address24 {
    type Error = AddressError;

    fn try_from(src: u32) -> (r: Result<Address24, AddressError>)
        ensures
            src as int <= 0xFFFFFF ==> r is Ok && r->Ok_0@ == src as nat,
            !(src as int <= 0xFFFFFF) ==> r == Err::<Address24, AddressError>(AddressError::TryFromIntError),
    {
        if src <= 0xFFFFFF {
            Ok(Address24(src as u32))
        } else {
            Err(AddressError::TryFromIntError)
        }
    }
}

impl vstd::std_specs::convert::TryFromSpecImpl<u32> for Address24 {
    open spec fn obeys_try_from_spec() -> bool {
        true
    }

    open spec fn try_from_spec(v: u32) -> Result<Address24, AddressError> {
        if v <= 0xFFFFFF {
            Ok(Address24::spec_new(v as nat))
        } else {
            Err(AddressError::TryFromIntError)
        }
    }
}

impl TryFrom<u64> for Address24 {
    type Error = AddressError;

    fn try_from(src: u64) -> (r: Result<Address24, AddressError>)
        ensures
            src as int <= 0xFFFFFF ==> r is Ok && r->Ok_0@ == src as nat,
            !(src as int <= 0xFFFFFF) ==> r == Err::<Address24, AddressError>(AddressError::TryFromIntError),
    {
        if src <= 0xFFFFFF {
            Ok(Address24(src as u32))
        } else {
            Err(AddressError::TryFromIntError)
        }
    }
}

impl vstd::std_specs::convert::TryFromSpecImpl<u64> for Address24 {
    open spec fn obeys_try_from_spec() -> bool {
        true
    }

    open spec fn try_from_spec(v: u64) -> Result<Address24, AddressError> {
        if v <= 0xFFFFFF {
            Ok(Address24::spec_new(v as nat))
        } else {
            Err(AddressError::TryFromIntError)
        }
    }
}

impl TryFrom<u128> for Address24 {
    type Error = AddressError;

    fn try_from(src: u128) -> (r: Result<Address24, AddressError>)
        ensures
            src as int <= 0xFFFFFF ==> r is Ok && r->Ok_0@ == src as nat,
            !(src as int <= 0xFFFFFF) ==> r == Err::<Address24, AddressError>(AddressError::TryFromIntError),
    {
        if src <= 0xFFFFFF {
            Ok(Address24(src as u32))
        } else {
            Err(AddressError::TryFromIntError)
        }
    }
}

impl vstd::std_specs::convert::TryFromSpecImpl<u128> for Address24 {
    open spec fn obeys_try_from_spec() -> bool {
        true
    }

    open spec fn try_from_spec(v: u128) -> Result<Address24, AddressError> {
        if v <= 0xFFFFFF {
            Ok(Address24::spec_new(v as nat))
        } else {
            Err(AddressError::TryFromIntError)
        }
    }
}

} // verus!

//! `Slot` and `Epoch`: two units of chain time, each a newtype over `u64`.
//!
//! The two types convert to and from raw integers, compare with raw integers and
//! with values of their own type, and offer arithmetic against both. They never
//! mix with each other: the only bridge between them is an explicit epoch length
//! (the number of slots in an epoch).
//!
//! Addition, subtraction and multiplication saturate at the bounds of `u64`;
//! nothing here wraps. Division and remainder by zero are excluded by
//! precondition; `checked_div` is the total form.
use crate::codec::decode_u64;
use crate::codec::encode_u64;
use crate::codec::field_at;
use crate::codec::DecodeError;
use std::cmp::Ordering;
use vstd::arithmetic::div_mod::lemma_fundamental_div_mod;
use vstd::arithmetic::div_mod::lemma_fundamental_div_mod_converse;
use vstd::arithmetic::power2::is_pow2_exists;
use vstd::bytes::lemma_auto_spec_u64_to_from_le_bytes;
use vstd::bytes::spec_u64_from_le_bytes;
use vstd::bytes::spec_u64_to_le_bytes;
use vstd::prelude::*;
use vstd::slice::slice_subrange;
use vstd::std_specs::cmp::PartialEqSpecImpl;
use vstd::std_specs::cmp::PartialOrdSpecImpl;
use vstd::std_specs::convert::FromSpecImpl;

verus! {

/// The sum of `a` and `b`, held at `u64::MAX`.
pub open spec fn saturating_sum(a: u64, b: u64) -> u64 {
    if a + b > u64::MAX {
        u64::MAX
    } else {
        (a + b) as u64
    }
}

/// The difference `a - b`, held at zero.
pub open spec fn saturating_difference(a: u64, b: u64) -> u64 {
    if a < b {
        0
    } else {
        (a - b) as u64
    }
}

/// The product of `a` and `b`, held at `u64::MAX`.
pub open spec fn saturating_product(a: u64, b: u64) -> u64 {
    if a * b > u64::MAX {
        u64::MAX
    } else {
        (a * b) as u64
    }
}

/// The raw number of the first slot of epoch `epoch`.
pub open spec fn epoch_start(epoch: u64, epoch_length: u64) -> u64 {
    saturating_product(epoch, epoch_length)
}

/// The raw number of the last slot of epoch `epoch`.
pub open spec fn epoch_end(epoch: u64, epoch_length: u64) -> u64 {
    saturating_difference(saturating_product(saturating_sum(epoch, 1), epoch_length), 1)
}

/// The raw numbers `first, first + 1, .., last`, in order; empty where `last < first`.
pub open spec fn slot_range(first: u64, last: u64) -> Seq<u64> {
    if last < first {
        Seq::empty()
    } else {
        Seq::new((last - first + 1) as nat, |i: int| (first + i) as u64)
    }
}

/// The raw numbers of the slots of epoch `epoch`, in order: from `epoch_start`
/// through `epoch_end`. An epoch of length zero has no slots.
pub open spec fn epoch_slots(epoch: u64, epoch_length: u64) -> Seq<u64> {
    if epoch_length == 0 {
        Seq::empty()
    } else {
        slot_range(epoch_start(epoch, epoch_length), epoch_end(epoch, epoch_length))
    }
}

/// How three-way comparison orders two raw numbers.
pub open spec fn raw_order(a: u64, b: u64) -> Ordering {
    if a < b {
        Ordering::Less
    } else if a == b {
        Ordering::Equal
    } else {
        Ordering::Greater
    }
}

/// `u64::is_power_of_two`: true exactly when the number is `2^k` for some `k`.
pub assume_specification[ u64::is_power_of_two ](n: u64) -> (b: bool)
    ensures
        b == is_pow2_exists(n as int),
;

/// `a * b`, held at `u64::MAX`.
fn saturating_mul(a: u64, b: u64) -> (product: u64)
    ensures
        product == saturating_product(a, b),
{
    match a.checked_mul(b) {
        Some(p) => p,
        None => u64::MAX,
    }
}

/// What may stand on the right of an arithmetic operation on `Unit`: a `Unit`
/// itself or a raw integer. No `Slot` is an operand for an `Epoch`, nor the
/// other way round.
pub trait Operand<Unit>: Sized {
    /// The operand as a raw number.
    spec fn raw(self) -> u64;

    fn into_raw(self) -> (n: u64)
        ensures
            n == self.raw(),
    ;
}

/// A slot: the smallest unit of chain time.
#[derive(Clone, Copy, Debug, Hash, PartialEq, Eq, Structural, Ord)]
pub struct Slot(u64);

/// An epoch: a window of consecutive slots.
#[derive(Clone, Copy, Debug, Hash, PartialEq, Eq, Structural, Ord)]
pub struct Epoch(u64);

impl View for Slot {
    type V = u64;

    closed spec fn view(&self) -> u64 {
        self.0
    }
}

impl Operand<Slot> for Slot {
    open spec fn raw(self) -> u64 {
        self@
    }

    fn into_raw(self) -> (n: u64) {
        self.0
    }
}

impl Operand<Slot> for u64 {
    open spec fn raw(self) -> u64 {
        self
    }

    fn into_raw(self) -> (n: u64) {
        self
    }
}

impl PartialEq<u64> for Slot {
    fn eq(&self, other: &u64) -> (equal: bool) {
        self.0 == *other
    }
}

impl PartialEqSpecImpl<u64> for Slot {
    open spec fn obeys_eq_spec() -> bool {
        true
    }

    open spec fn eq_spec(&self, other: &u64) -> bool {
        self@ == *other
    }
}

impl PartialOrd for Slot {
    fn partial_cmp(&self, other: &Slot) -> (order: Option<Ordering>) {
        if self.0 < other.0 {
            Some(Ordering::Less)
        } else if self.0 == other.0 {
            Some(Ordering::Equal)
        } else {
            Some(Ordering::Greater)
        }
    }
}

impl PartialOrdSpecImpl for Slot {
    open spec fn obeys_partial_cmp_spec() -> bool {
        true
    }

    open spec fn partial_cmp_spec(&self, other: &Slot) -> Option<Ordering> {
        Some(raw_order(self@, other@))
    }
}

impl PartialOrd<u64> for Slot {
    fn partial_cmp(&self, other: &u64) -> (order: Option<Ordering>) {
        if self.0 < *other {
            Some(Ordering::Less)
        } else if self.0 == *other {
            Some(Ordering::Equal)
        } else {
            Some(Ordering::Greater)
        }
    }
}

impl PartialOrdSpecImpl<u64> for Slot {
    open spec fn obeys_partial_cmp_spec() -> bool {
        true
    }

    open spec fn partial_cmp_spec(&self, other: &u64) -> Option<Ordering> {
        Some(raw_order(self@, *other))
    }
}

impl From<u64> for Slot {
    fn from(n: u64) -> (slot: Slot)
        ensures
            slot@ == n,
    {
        Slot(n)
    }
}

impl FromSpecImpl<u64> for Slot {
    open spec fn obeys_from_spec() -> bool {
        true
    }

    closed spec fn from_spec(n: u64) -> Slot {
        Slot(n)
    }
}

impl From<usize> for Slot {
    fn from(n: usize) -> (slot: Slot)
        ensures
            slot@ == n,
    {
        Slot(n as u64)
    }
}

impl FromSpecImpl<usize> for Slot {
    open spec fn obeys_from_spec() -> bool {
        true
    }

    closed spec fn from_spec(n: usize) -> Slot {
        Slot(n as u64)
    }
}

impl From<Slot> for u64 {
    fn from(slot: Slot) -> (n: u64) {
        slot.0
    }
}

impl FromSpecImpl<Slot> for u64 {
    open spec fn obeys_from_spec() -> bool {
        true
    }

    open spec fn from_spec(slot: Slot) -> u64 {
        slot@
    }
}

impl From<Slot> for usize {
    fn from(slot: Slot) -> (n: usize) {
        slot.0 as usize
    }
}

impl FromSpecImpl<Slot> for usize {
    open spec fn obeys_from_spec() -> bool {
        true
    }

    open spec fn from_spec(slot: Slot) -> usize {
        slot@ as usize
    }
}

impl Default for Slot {
    fn default() -> (slot: Slot)
        ensures
            slot@ == 0,
    {
        Slot(0)
    }
}

impl Slot {
    /// The slot with number `slot`.
    pub fn new(slot: u64) -> (made: Slot)
        ensures
            made@ == slot,
    {
        Slot(slot)
    }

    /// The epoch that this slot falls in, where each epoch has `epoch_length` slots.
    pub fn epoch(&self, epoch_length: u64) -> (epoch: Epoch)
        requires
            epoch_length != 0,
        ensures
            epoch@ == self@ / epoch_length,
    {
        Epoch(self.0 / epoch_length)
    }

    /// The last slot that can be told.
    pub fn max_value() -> (slot: Slot)
        ensures
            slot@ == u64::MAX,
    {
        Slot(u64::MAX)
    }

    /// The number of the slot.
    pub fn as_u64(&self) -> (n: u64)
        ensures
            n == self@,
    {
        self.0
    }

    /// The number as a `usize`; its low bits where a `usize` is narrower.
    pub fn as_usize(&self) -> (n: usize)
        ensures
            n == self@ as usize,
    {
        self.0 as usize
    }

    /// The sum, held at `u64::MAX`.
    pub fn saturating_add<T: Operand<Slot>>(self, other: T) -> (sum: Slot)
        ensures
            sum@ == saturating_sum(self@, other.raw()),
    {
        Slot(self.0.saturating_add(other.into_raw()))
    }

    /// The difference, held at zero.
    pub fn saturating_sub<T: Operand<Slot>>(&self, other: T) -> (difference: Slot)
        ensures
            difference@ == saturating_difference(self@, other.raw()),
    {
        Slot(self.0.saturating_sub(other.into_raw()))
    }

    /// The product, held at `u64::MAX`.
    pub fn saturating_mul<T: Operand<Slot>>(self, rhs: T) -> (product: Slot)
        ensures
            product@ == saturating_product(self@, rhs.raw()),
    {
        Slot(self::saturating_mul(self.0, rhs.into_raw()))
    }

    /// The quotient, rounded down. The divisor is not zero.
    pub fn div<T: Operand<Slot>>(self, rhs: T) -> (quotient: Slot)
        requires
            rhs.raw() != 0,
        ensures
            quotient@ == self@ / rhs.raw(),
    {
        Slot(self.0 / rhs.into_raw())
    }

    /// The remainder of the division by `modulus`, which is not zero.
    pub fn rem<T: Operand<Slot>>(self, modulus: T) -> (remainder: Slot)
        requires
            modulus.raw() != 0,
        ensures
            remainder@ == self@ % modulus.raw(),
    {
        Slot(self.0 % modulus.into_raw())
    }

    /// Division that answers `None` for a zero divisor.
    pub fn checked_div<T: Operand<Slot>>(&self, rhs: T) -> (quotient: Option<Slot>)
        ensures
            rhs.raw() == 0 ==> quotient is None,
            rhs.raw() != 0 ==> (quotient matches Some(q) && q@ == self@ / rhs.raw()),
    {
        let divisor = rhs.into_raw();
        if divisor == 0 {
            None
        } else {
            Some(Slot(self.0 / divisor))
        }
    }

    /// Adds `other` in place; the sum is held at `u64::MAX`.
    pub fn add_assign<T: Operand<Slot>>(&mut self, other: T)
        ensures
            final(self)@ == saturating_sum(old(self)@, other.raw()),
    {
        self.0 = self.0.saturating_add(other.into_raw());
    }

    /// Takes `other` away in place; the difference is held at zero.
    pub fn sub_assign<T: Operand<Slot>>(&mut self, other: T)
        ensures
            final(self)@ == saturating_difference(old(self)@, other.raw()),
    {
        self.0 = self.0.saturating_sub(other.into_raw());
    }

    /// Multiplies by `rhs` in place; the product is held at `u64::MAX`.
    pub fn mul_assign<T: Operand<Slot>>(&mut self, rhs: T)
        ensures
            final(self)@ == saturating_product(old(self)@, rhs.raw()),
    {
        self.0 = self::saturating_mul(self.0, rhs.into_raw());
    }

    /// Divides by `rhs` in place, rounding down. The divisor is not zero.
    pub fn div_assign<T: Operand<Slot>>(&mut self, rhs: T)
        requires
            rhs.raw() != 0,
        ensures
            final(self)@ == old(self)@ / rhs.raw(),
    {
        self.0 = self.0 / rhs.into_raw();
    }

    /// The serialised form: the number in eight bytes, least significant first.
    pub open spec fn ssz_bytes(&self) -> Seq<u8> {
        spec_u64_to_le_bytes(self@)
    }

    /// Appends the serialised form to `buffer`.
    pub fn ssz_append(&self, buffer: &mut Vec<u8>)
        ensures
            final(buffer)@ == old(buffer)@ + self.ssz_bytes(),
    {
        let mut encoded = encode_u64(self.0);
        buffer.append(&mut encoded);
    }

    /// Reads a value from the eight bytes of `bytes` that begin at `index`,
    /// and gives it with the index of the byte that follows.
    pub fn ssz_decode(bytes: &[u8], index: usize) -> (decoded: Result<(Slot, usize), DecodeError>)
        ensures
            match field_at(bytes@, index as int, 8) {
                None => decoded == Err::<(Slot, usize), DecodeError>(DecodeError::TooShort),
                Some(field) => decoded matches Ok((slot, next)) && slot@ == spec_u64_from_le_bytes(
                    field,
                ) && next == index + 8,
            },
    {
        if index > bytes.len() {
            return Err(DecodeError::TooShort);
        }
        let rest = slice_subrange(bytes, index, bytes.len());
        match decode_u64(rest) {
            None => Err(DecodeError::TooShort),
            Some((value, read)) => {
                assert(rest@.subrange(0, 8) =~= bytes@.subrange(index as int, index + 8));
                Ok((Slot(value), index + read))
            },
        }
    }

    /// What was appended is read back: the serialised form, wherever it stands
    /// in a byte string, has eight bytes and decodes to the same number.
    pub proof fn lemma_ssz_round_trip(self, before: Seq<u8>, after: Seq<u8>)
        ensures
            self.ssz_bytes().len() == 8,
            field_at(before + self.ssz_bytes() + after, before.len() as int, 8) == Some(
                self.ssz_bytes(),
            ),
            spec_u64_from_le_bytes(self.ssz_bytes()) == self@,
    {
        lemma_auto_spec_u64_to_from_le_bytes();
        let bytes = before + self.ssz_bytes() + after;
        assert(bytes.subrange(before.len() as int, before.len() as int + 8) =~= self.ssz_bytes());
    }

    /// Whether the number is a power of two.
    pub fn is_power_of_two(&self) -> (b: bool)
        ensures
            b == is_pow2_exists(self@ as int),
    {
        self.0.is_power_of_two()
    }

    /// Two values are the same exactly when their numbers are equal.
    pub proof fn lemma_equal_by_number(a: Slot, b: Slot)
        ensures
            (a == b) == (a@ == b@),
    {
    }
}

impl View for Epoch {
    type V = u64;

    closed spec fn view(&self) -> u64 {
        self.0
    }
}

impl Operand<Epoch> for Epoch {
    open spec fn raw(self) -> u64 {
        self@
    }

    fn into_raw(self) -> (n: u64) {
        self.0
    }
}

impl Operand<Epoch> for u64 {
    open spec fn raw(self) -> u64 {
        self
    }

    fn into_raw(self) -> (n: u64) {
        self
    }
}

impl PartialEq<u64> for Epoch {
    fn eq(&self, other: &u64) -> (equal: bool) {
        self.0 == *other
    }
}

impl PartialEqSpecImpl<u64> for Epoch {
    open spec fn obeys_eq_spec() -> bool {
        true
    }

    open spec fn eq_spec(&self, other: &u64) -> bool {
        self@ == *other
    }
}

impl PartialOrd for Epoch {
    fn partial_cmp(&self, other: &Epoch) -> (order: Option<Ordering>) {
        if self.0 < other.0 {
            Some(Ordering::Less)
        } else if self.0 == other.0 {
            Some(Ordering::Equal)
        } else {
            Some(Ordering::Greater)
        }
    }
}

impl PartialOrdSpecImpl for Epoch {
    open spec fn obeys_partial_cmp_spec() -> bool {
        true
    }

    open spec fn partial_cmp_spec(&self, other: &Epoch) -> Option<Ordering> {
        Some(raw_order(self@, other@))
    }
}

impl PartialOrd<u64> for Epoch {
    fn partial_cmp(&self, other: &u64) -> (order: Option<Ordering>) {
        if self.0 < *other {
            Some(Ordering::Less)
        } else if self.0 == *other {
            Some(Ordering::Equal)
        } else {
            Some(Ordering::Greater)
        }
    }
}

impl PartialOrdSpecImpl<u64> for Epoch {
    open spec fn obeys_partial_cmp_spec() -> bool {
        true
    }

    open spec fn partial_cmp_spec(&self, other: &u64) -> Option<Ordering> {
        Some(raw_order(self@, *other))
    }
}

impl From<u64> for Epoch {
    fn from(n: u64) -> (epoch: Epoch)
        ensures
            epoch@ == n,
    {
        Epoch(n)
    }
}

impl FromSpecImpl<u64> for Epoch {
    open spec fn obeys_from_spec() -> bool {
        true
    }

    closed spec fn from_spec(n: u64) -> Epoch {
        Epoch(n)
    }
}

impl From<usize> for Epoch {
    fn from(n: usize) -> (epoch: Epoch)
        ensures
            epoch@ == n,
    {
        Epoch(n as u64)
    }
}

impl FromSpecImpl<usize> for Epoch {
    open spec fn obeys_from_spec() -> bool {
        true
    }

    closed spec fn from_spec(n: usize) -> Epoch {
        Epoch(n as u64)
    }
}

impl From<Epoch> for u64 {
    fn from(epoch: Epoch) -> (n: u64) {
        epoch.0
    }
}

impl FromSpecImpl<Epoch> for u64 {
    open spec fn obeys_from_spec() -> bool {
        true
    }

    open spec fn from_spec(epoch: Epoch) -> u64 {
        epoch@
    }
}

impl From<Epoch> for usize {
    fn from(epoch: Epoch) -> (n: usize) {
        epoch.0 as usize
    }
}

impl FromSpecImpl<Epoch> for usize {
    open spec fn obeys_from_spec() -> bool {
        true
    }

    open spec fn from_spec(epoch: Epoch) -> usize {
        epoch@ as usize
    }
}

impl Default for Epoch {
    fn default() -> (epoch: Epoch)
        ensures
            epoch@ == 0,
    {
        Epoch(0)
    }
}

impl Epoch {
    /// The epoch with number `epoch`.
    pub fn new(epoch: u64) -> (made: Epoch)
        ensures
            made@ == epoch,
    {
        Epoch(epoch)
    }

    /// The last epoch that can be told.
    pub fn max_value() -> (epoch: Epoch)
        ensures
            epoch@ == u64::MAX,
    {
        Epoch(u64::MAX)
    }

    /// The first slot of this epoch.
    pub fn start_slot(&self, epoch_length: u64) -> (slot: Slot)
        ensures
            slot@ == epoch_start(self@, epoch_length),
    {
        Slot(self::saturating_mul(self.0, epoch_length))
    }

    /// The last slot of this epoch.
    pub fn end_slot(&self, epoch_length: u64) -> (slot: Slot)
        ensures
            slot@ == epoch_end(self@, epoch_length),
    {
        Slot(
            self::saturating_mul(self.0.saturating_add(1), epoch_length).saturating_sub(1),
        )
    }

    /// A fresh walk over the slots of this epoch, from its first slot to its last.
    pub fn slot_iter(&self, epoch_length: u64) -> (iter: SlotIter<'_>)
        ensures
            iter@ == epoch_slots(self@, epoch_length),
    {
        let iter = SlotIter { current: self.start_slot(epoch_length), epoch: self, epoch_length };
        assert(iter@ =~= epoch_slots(self@, epoch_length));
        iter
    }

    /// The number of the epoch.
    pub fn as_u64(&self) -> (n: u64)
        ensures
            n == self@,
    {
        self.0
    }

    /// The number as a `usize`; its low bits where a `usize` is narrower.
    pub fn as_usize(&self) -> (n: usize)
        ensures
            n == self@ as usize,
    {
        self.0 as usize
    }

    /// The sum, held at `u64::MAX`.
    pub fn saturating_add<T: Operand<Epoch>>(self, other: T) -> (sum: Epoch)
        ensures
            sum@ == saturating_sum(self@, other.raw()),
    {
        Epoch(self.0.saturating_add(other.into_raw()))
    }

    /// The difference, held at zero.
    pub fn saturating_sub<T: Operand<Epoch>>(&self, other: T) -> (difference: Epoch)
        ensures
            difference@ == saturating_difference(self@, other.raw()),
    {
        Epoch(self.0.saturating_sub(other.into_raw()))
    }

    /// The product, held at `u64::MAX`.
    pub fn saturating_mul<T: Operand<Epoch>>(self, rhs: T) -> (product: Epoch)
        ensures
            product@ == saturating_product(self@, rhs.raw()),
    {
        Epoch(self::saturating_mul(self.0, rhs.into_raw()))
    }

    /// The quotient, rounded down. The divisor is not zero.
    pub fn div<T: Operand<Epoch>>(self, rhs: T) -> (quotient: Epoch)
        requires
            rhs.raw() != 0,
        ensures
            quotient@ == self@ / rhs.raw(),
    {
        Epoch(self.0 / rhs.into_raw())
    }

    /// The remainder of the division by `modulus`, which is not zero.
    pub fn rem<T: Operand<Epoch>>(self, modulus: T) -> (remainder: Epoch)
        requires
            modulus.raw() != 0,
        ensures
            remainder@ == self@ % modulus.raw(),
    {
        Epoch(self.0 % modulus.into_raw())
    }

    /// Division that answers `None` for a zero divisor.
    pub fn checked_div<T: Operand<Epoch>>(&self, rhs: T) -> (quotient: Option<Epoch>)
        ensures
            rhs.raw() == 0 ==> quotient is None,
            rhs.raw() != 0 ==> (quotient matches Some(q) && q@ == self@ / rhs.raw()),
    {
        let divisor = rhs.into_raw();
        if divisor == 0 {
            None
        } else {
            Some(Epoch(self.0 / divisor))
        }
    }

    /// Adds `other` in place; the sum is held at `u64::MAX`.
    pub fn add_assign<T: Operand<Epoch>>(&mut self, other: T)
        ensures
            final(self)@ == saturating_sum(old(self)@, other.raw()),
    {
        self.0 = self.0.saturating_add(other.into_raw());
    }

    /// Takes `other` away in place; the difference is held at zero.
    pub fn sub_assign<T: Operand<Epoch>>(&mut self, other: T)
        ensures
            final(self)@ == saturating_difference(old(self)@, other.raw()),
    {
        self.0 = self.0.saturating_sub(other.into_raw());
    }

    /// Multiplies by `rhs` in place; the product is held at `u64::MAX`.
    pub fn mul_assign<T: Operand<Epoch>>(&mut self, rhs: T)
        ensures
            final(self)@ == saturating_product(old(self)@, rhs.raw()),
    {
        self.0 = self::saturating_mul(self.0, rhs.into_raw());
    }

    /// Divides by `rhs` in place, rounding down. The divisor is not zero.
    pub fn div_assign<T: Operand<Epoch>>(&mut self, rhs: T)
        requires
            rhs.raw() != 0,
        ensures
            final(self)@ == old(self)@ / rhs.raw(),
    {
        self.0 = self.0 / rhs.into_raw();
    }

    /// The serialised form: the number in eight bytes, least significant first.
    pub open spec fn ssz_bytes(&self) -> Seq<u8> {
        spec_u64_to_le_bytes(self@)
    }

    /// Appends the serialised form to `buffer`.
    pub fn ssz_append(&self, buffer: &mut Vec<u8>)
        ensures
            final(buffer)@ == old(buffer)@ + self.ssz_bytes(),
    {
        let mut encoded = encode_u64(self.0);
        buffer.append(&mut encoded);
    }

    /// Reads a value from the eight bytes of `bytes` that begin at `index`,
    /// and gives it with the index of the byte that follows.
    pub fn ssz_decode(bytes: &[u8], index: usize) -> (decoded: Result<(Epoch, usize), DecodeError>)
        ensures
            match field_at(bytes@, index as int, 8) {
                None => decoded == Err::<(Epoch, usize), DecodeError>(DecodeError::TooShort),
                Some(field) => decoded matches Ok((epoch, next)) && epoch@ == spec_u64_from_le_bytes(
                    field,
                ) && next == index + 8,
            },
    {
        if index > bytes.len() {
            return Err(DecodeError::TooShort);
        }
        let rest = slice_subrange(bytes, index, bytes.len());
        match decode_u64(rest) {
            None => Err(DecodeError::TooShort),
            Some((value, read)) => {
                assert(rest@.subrange(0, 8) =~= bytes@.subrange(index as int, index + 8));
                Ok((Epoch(value), index + read))
            },
        }
    }

    /// What was appended is read back: the serialised form, wherever it stands
    /// in a byte string, has eight bytes and decodes to the same number.
    pub proof fn lemma_ssz_round_trip(self, before: Seq<u8>, after: Seq<u8>)
        ensures
            self.ssz_bytes().len() == 8,
            field_at(before + self.ssz_bytes() + after, before.len() as int, 8) == Some(
                self.ssz_bytes(),
            ),
            spec_u64_from_le_bytes(self.ssz_bytes()) == self@,
    {
        lemma_auto_spec_u64_to_from_le_bytes();
        let bytes = before + self.ssz_bytes() + after;
        assert(bytes.subrange(before.len() as int, before.len() as int + 8) =~= self.ssz_bytes());
    }

    /// Whether the number is a power of two.
    pub fn is_power_of_two(&self) -> (b: bool)
        ensures
            b == is_pow2_exists(self@ as int),
    {
        self.0.is_power_of_two()
    }

    /// Two values are the same exactly when their numbers are equal.
    pub proof fn lemma_equal_by_number(a: Epoch, b: Epoch)
        ensures
            (a == b) == (a@ == b@),
    {
    }
}

/// A walk over the slots of one epoch, in order. Its view is the raw numbers of
/// the slots that are still to come.
pub struct SlotIter<'a> {
    current: Slot,
    epoch: &'a Epoch,
    epoch_length: u64,
}

impl<'a> View for SlotIter<'a> {
    type V = Seq<u64>;

    closed spec fn view(&self) -> Seq<u64> {
        if self.epoch_length == 0 {
            Seq::empty()
        } else {
            slot_range(self.current@, epoch_end(self.epoch@, self.epoch_length))
        }
    }
}

impl<'a> SlotIter<'a> {
    /// The next slot of the epoch, or `None` once its last slot has been given.
    pub fn next(&mut self) -> (slot: Option<Slot>)
        ensures
            old(self)@.len() == 0 ==> slot is None && final(self)@ == old(self)@,
            old(self)@.len() > 0 ==> (slot matches Some(s) && s@ == old(self)@[0])
                && final(self)@ == old(self)@.skip(1),
    {
        if self.epoch_length == 0 {
            return None;
        }
        let end = self.epoch.end_slot(self.epoch_length);
        if self.current.0 > end.0 {
            None
        } else {
            let previous = self.current;
            self.current = Slot(previous.0 + 1);
            assert(self@ =~= old(self)@.skip(1));
            Some(previous)
        }
    }
}

/// For an epoch length `L > 0` and an epoch `E` whose slots all lie below
/// `u64::MAX`, the epoch starts at slot `E * L`, ends at slot `(E + 1) * L - 1`,
/// and holds exactly the `L` slots from its start to its end, in order. Each of
/// them is a slot whose epoch is `E`.
pub proof fn lemma_epoch_boundaries(epoch: u64, epoch_length: u64)
    requires
        epoch_length > 0,
        (epoch + 1) * epoch_length <= u64::MAX,
    ensures
        epoch_start(epoch, epoch_length) == epoch * epoch_length,
        epoch_end(epoch, epoch_length) == (epoch + 1) * epoch_length - 1,
        epoch_slots(epoch, epoch_length).len() == epoch_length,
        forall|i: int|
            0 <= i < epoch_length ==> #[trigger] epoch_slots(epoch, epoch_length)[i] == epoch
                * epoch_length + i,
        forall|i: int|
            0 <= i < epoch_length ==> #[trigger] epoch_slots(epoch, epoch_length)[i]
                / epoch_length == epoch,
        epoch_slots(epoch, epoch_length).first() == epoch_start(epoch, epoch_length),
        epoch_slots(epoch, epoch_length).last() == epoch_end(epoch, epoch_length),
{
    assert((epoch + 1) * epoch_length == epoch * epoch_length + epoch_length
        && epoch * epoch_length >= 0 && (epoch + 1) * epoch_length >= epoch + 1)
        by (nonlinear_arith)
        requires
            epoch_length > 0,
            epoch >= 0,
    ;
    assert forall|i: int| 0 <= i < epoch_length implies #[trigger] epoch_slots(
        epoch,
        epoch_length,
    )[i] / epoch_length == epoch by {
        lemma_fundamental_div_mod_converse(
            epoch * epoch_length + i,
            epoch_length as int,
            epoch as int,
            i,
        );
    }
}

/// Every slot lies within its own epoch: for an epoch length `L > 0` and a
/// slot `S` whose epoch ends below `u64::MAX`, the epoch `S / L` starts at or
/// before `S` and ends at or after it, and `S` is the slot at place `S % L`
/// among the slots of that epoch.
pub proof fn lemma_slot_within_its_epoch(slot: u64, epoch_length: u64)
    requires
        epoch_length > 0,
        (slot / epoch_length + 1) * epoch_length <= u64::MAX,
    ensures
        epoch_start((slot / epoch_length) as u64, epoch_length) <= slot <= epoch_end(
            (slot / epoch_length) as u64,
            epoch_length,
        ),
        epoch_slots((slot / epoch_length) as u64, epoch_length)[(slot % epoch_length) as int] == slot,
{
    let epoch = (slot / epoch_length) as u64;
    lemma_fundamental_div_mod(slot as int, epoch_length as int);
    lemma_epoch_boundaries(epoch, epoch_length);
    assert(epoch_length * (slot / epoch_length) == (slot / epoch_length) * epoch_length)
        by (nonlinear_arith);
}

/// Adding `u64::MAX` to any value gives `u64::MAX`, and taking one from zero
/// gives zero: sums and differences are held at the bounds, they never wrap.
pub proof fn lemma_saturation(a: u64)
    ensures
        saturating_sum(a, u64::MAX) == u64::MAX,
        saturating_sum(u64::MAX, a) == u64::MAX,
        saturating_difference(0, 1) == 0,
        saturating_difference(0, a) == 0,
{
}

} // verus!

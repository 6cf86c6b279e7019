use vstd::prelude::*;
use vstd::std_specs::convert::FromSpecImpl;
use vstd::std_specs::ops::{
    BitAndSpec, BitAndSpecImpl, BitOrSpec, BitOrSpecImpl, BitXorSpec, BitXorSpecImpl, NotSpec,
    NotSpecImpl, ShlSpecImpl, ShrSpecImpl,
};
use crate::rotate::{RotateLeft, RotateRight};
use crate::signs::{ToSigned, ToUnsigned};
use crate::truncate::Truncate;
use crate::wrapping::{WrappingAdd, WrappingSub};

verus! {

/// A value that is only ever used in constant time.
///
/// The wrapped word can only be combined through the operations below, none of
/// which branches on it or indexes memory with it; `expose` is the one way out.
pub struct Secret<T: Copy> {
    inner: T,
}

impl<T: Copy> Clone for Secret<T> {
    fn clone(&self) -> (r: Secret<T>)
        ensures
            r == *self,
    {
        *self
    }
}

impl<T: Copy> Copy for Secret<T> {}

impl<T: Copy> View for Secret<T> {
    type V = T;

    closed spec fn view(&self) -> T {
        self.inner
    }
}

impl<T: Copy> Secret<T> {
    /// The secret holding `val`.
    pub closed spec fn wrap(val: T) -> Secret<T> {
        Secret { inner: val }
    }

    /// What `wrap(val)` holds is `val`.
    pub broadcast proof fn lemma_wrap_view(val: T)
        ensures
            (#[trigger] Secret::wrap(val))@ == val,
    {
    }

    /// A secret is determined by what it holds.
    pub broadcast proof fn lemma_view_wrap(s: Secret<T>)
        ensures
            Secret::wrap(#[trigger] s@) == s,
    {
    }

    /// Marks `val` as secret.
    pub fn new(val: T) -> (r: Secret<T>)
        ensures
            r@ == val,
    {
        Secret { inner: val }
    }

    /// Hands the wrapped value out as plain data.
    pub fn expose(self) -> (r: T)
        ensures
            r == self@,
    {
        self.inner
    }
}

pub broadcast group group_secret {
    Secret::lemma_wrap_view,
    Secret::lemma_view_wrap,
}

impl<T: Copy + core::ops::BitAnd<Output = T>> core::ops::BitAnd<Secret<T>> for Secret<T> {
    type Output = Secret<T>;

    fn bitand(self, rhs: Secret<T>) -> Secret<T> {
        Secret { inner: self.inner & rhs.inner }
    }
}

impl<T: Copy + core::ops::BitAnd<Output = T>> BitAndSpecImpl<Secret<T>> for Secret<T> {
    open spec fn obeys_bitand_spec() -> bool {
        <T as BitAndSpec>::obeys_bitand_spec()
    }

    open spec fn bitand_req(self, rhs: Secret<T>) -> bool {
        self@.bitand_req(rhs@)
    }

    open spec fn bitand_spec(self, rhs: Secret<T>) -> Secret<T> {
        Secret::wrap(self@.bitand_spec(rhs@))
    }
}

impl<T: Copy + core::ops::BitAnd<Output = T>> core::ops::BitAnd<T> for Secret<T> {
    type Output = Secret<T>;

    fn bitand(self, rhs: T) -> Secret<T> {
        Secret { inner: self.inner & rhs }
    }
}

impl<T: Copy + core::ops::BitAnd<Output = T>> BitAndSpecImpl<T> for Secret<T> {
    open spec fn obeys_bitand_spec() -> bool {
        <T as BitAndSpec>::obeys_bitand_spec()
    }

    open spec fn bitand_req(self, rhs: T) -> bool {
        self@.bitand_req(rhs)
    }

    open spec fn bitand_spec(self, rhs: T) -> Secret<T> {
        Secret::wrap(self@.bitand_spec(rhs))
    }
}

impl<T: Copy + core::ops::BitOr<Output = T>> core::ops::BitOr<Secret<T>> for Secret<T> {
    type Output = Secret<T>;

    fn bitor(self, rhs: Secret<T>) -> Secret<T> {
        Secret { inner: self.inner | rhs.inner }
    }
}

impl<T: Copy + core::ops::BitOr<Output = T>> BitOrSpecImpl<Secret<T>> for Secret<T> {
    open spec fn obeys_bitor_spec() -> bool {
        <T as BitOrSpec>::obeys_bitor_spec()
    }

    open spec fn bitor_req(self, rhs: Secret<T>) -> bool {
        self@.bitor_req(rhs@)
    }

    open spec fn bitor_spec(self, rhs: Secret<T>) -> Secret<T> {
        Secret::wrap(self@.bitor_spec(rhs@))
    }
}

impl<T: Copy + core::ops::BitOr<Output = T>> core::ops::BitOr<T> for Secret<T> {
    type Output = Secret<T>;

    fn bitor(self, rhs: T) -> Secret<T> {
        Secret { inner: self.inner | rhs }
    }
}

impl<T: Copy + core::ops::BitOr<Output = T>> BitOrSpecImpl<T> for Secret<T> {
    open spec fn obeys_bitor_spec() -> bool {
        <T as BitOrSpec>::obeys_bitor_spec()
    }

    open spec fn bitor_req(self, rhs: T) -> bool {
        self@.bitor_req(rhs)
    }

    open spec fn bitor_spec(self, rhs: T) -> Secret<T> {
        Secret::wrap(self@.bitor_spec(rhs))
    }
}

impl<T: Copy + core::ops::BitXor<Output = T>> core::ops::BitXor<Secret<T>> for Secret<T> {
    type Output = Secret<T>;

    fn bitxor(self, rhs: Secret<T>) -> Secret<T> {
        Secret { inner: self.inner ^ rhs.inner }
    }
}

impl<T: Copy + core::ops::BitXor<Output = T>> BitXorSpecImpl<Secret<T>> for Secret<T> {
    open spec fn obeys_bitxor_spec() -> bool {
        <T as BitXorSpec>::obeys_bitxor_spec()
    }

    open spec fn bitxor_req(self, rhs: Secret<T>) -> bool {
        self@.bitxor_req(rhs@)
    }

    open spec fn bitxor_spec(self, rhs: Secret<T>) -> Secret<T> {
        Secret::wrap(self@.bitxor_spec(rhs@))
    }
}

impl<T: Copy + core::ops::BitXor<Output = T>> core::ops::BitXor<T> for Secret<T> {
    type Output = Secret<T>;

    fn bitxor(self, rhs: T) -> Secret<T> {
        Secret { inner: self.inner ^ rhs }
    }
}

impl<T: Copy + core::ops::BitXor<Output = T>> BitXorSpecImpl<T> for Secret<T> {
    open spec fn obeys_bitxor_spec() -> bool {
        <T as BitXorSpec>::obeys_bitxor_spec()
    }

    open spec fn bitxor_req(self, rhs: T) -> bool {
        self@.bitxor_req(rhs)
    }

    open spec fn bitxor_spec(self, rhs: T) -> Secret<T> {
        Secret::wrap(self@.bitxor_spec(rhs))
    }
}

impl<T: Copy + core::ops::Not<Output = T>> core::ops::Not for Secret<T> {
    type Output = Secret<T>;

    fn not(self) -> Secret<T> {
        Secret { inner: !self.inner }
    }
}

impl<T: Copy + core::ops::Not<Output = T>> NotSpecImpl for Secret<T> {
    open spec fn obeys_not_spec() -> bool {
        <T as NotSpec>::obeys_not_spec()
    }

    open spec fn not_req(self) -> bool {
        self@.not_req()
    }

    open spec fn not_spec(self) -> Secret<T> {
        Secret::wrap(self@.not_spec())
    }
}

impl core::ops::Shl<u32> for Secret<u8> {
    type Output = Secret<u8>;

    fn shl(self, rhs: u32) -> Secret<u8> {
        Secret { inner: self.inner << rhs }
    }
}

impl ShlSpecImpl<u32> for Secret<u8> {
    open spec fn obeys_shl_spec() -> bool {
        true
    }

    open spec fn shl_req(self, rhs: u32) -> bool {
        rhs < 8
    }

    open spec fn shl_spec(self, rhs: u32) -> Secret<u8> {
        Secret::wrap(self@ << rhs)
    }
}

impl core::ops::Shr<u32> for Secret<u8> {
    type Output = Secret<u8>;

    fn shr(self, rhs: u32) -> Secret<u8> {
        Secret { inner: self.inner >> rhs }
    }
}

impl ShrSpecImpl<u32> for Secret<u8> {
    open spec fn obeys_shr_spec() -> bool {
        true
    }

    open spec fn shr_req(self, rhs: u32) -> bool {
        rhs < 8
    }

    open spec fn shr_spec(self, rhs: u32) -> Secret<u8> {
        Secret::wrap(self@ >> rhs)
    }
}

impl core::ops::Shl<u32> for Secret<u16> {
    type Output = Secret<u16>;

    fn shl(self, rhs: u32) -> Secret<u16> {
        Secret { inner: self.inner << rhs }
    }
}

impl ShlSpecImpl<u32> for Secret<u16> {
    open spec fn obeys_shl_spec() -> bool {
        true
    }

    open spec fn shl_req(self, rhs: u32) -> bool {
        rhs < 16
    }

    open spec fn shl_spec(self, rhs: u32) -> Secret<u16> {
        Secret::wrap(self@ << rhs)
    }
}

impl core::ops::Shr<u32> for Secret<u16> {
    type Output = Secret<u16>;

    fn shr(self, rhs: u32) -> Secret<u16> {
        Secret { inner: self.inner >> rhs }
    }
}

impl ShrSpecImpl<u32> for Secret<u16> {
    open spec fn obeys_shr_spec() -> bool {
        true
    }

    open spec fn shr_req(self, rhs: u32) -> bool {
        rhs < 16
    }

    open spec fn shr_spec(self, rhs: u32) -> Secret<u16> {
        Secret::wrap(self@ >> rhs)
    }
}

impl core::ops::Shl<u32> for Secret<u32> {
    type Output = Secret<u32>;

    fn shl(self, rhs: u32) -> Secret<u32> {
        Secret { inner: self.inner << rhs }
    }
}

impl ShlSpecImpl<u32> for Secret<u32> {
    open spec fn obeys_shl_spec() -> bool {
        true
    }

    open spec fn shl_req(self, rhs: u32) -> bool {
        rhs < 32
    }

    open spec fn shl_spec(self, rhs: u32) -> Secret<u32> {
        Secret::wrap(self@ << rhs)
    }
}

impl core::ops::Shr<u32> for Secret<u32> {
    type Output = Secret<u32>;

    fn shr(self, rhs: u32) -> Secret<u32> {
        Secret { inner: self.inner >> rhs }
    }
}

impl ShrSpecImpl<u32> for Secret<u32> {
    open spec fn obeys_shr_spec() -> bool {
        true
    }

    open spec fn shr_req(self, rhs: u32) -> bool {
        rhs < 32
    }

    open spec fn shr_spec(self, rhs: u32) -> Secret<u32> {
        Secret::wrap(self@ >> rhs)
    }
}

impl core::ops::Shl<u32> for Secret<u64> {
    type Output = Secret<u64>;

    fn shl(self, rhs: u32) -> Secret<u64> {
        Secret { inner: self.inner << rhs }
    }
}

impl ShlSpecImpl<u32> for Secret<u64> {
    open spec fn obeys_shl_spec() -> bool {
        true
    }

    open spec fn shl_req(self, rhs: u32) -> bool {
        rhs < 64
    }

    open spec fn shl_spec(self, rhs: u32) -> Secret<u64> {
        Secret::wrap(self@ << rhs)
    }
}

impl core::ops::Shr<u32> for Secret<u64> {
    type Output = Secret<u64>;

    fn shr(self, rhs: u32) -> Secret<u64> {
        Secret { inner: self.inner >> rhs }
    }
}

impl ShrSpecImpl<u32> for Secret<u64> {
    open spec fn obeys_shr_spec() -> bool {
        true
    }

    open spec fn shr_req(self, rhs: u32) -> bool {
        rhs < 64
    }

    open spec fn shr_spec(self, rhs: u32) -> Secret<u64> {
        Secret::wrap(self@ >> rhs)
    }
}

impl core::ops::Shl<u32> for Secret<i8> {
    type Output = Secret<i8>;

    fn shl(self, rhs: u32) -> Secret<i8> {
        Secret { inner: self.inner << rhs }
    }
}

impl ShlSpecImpl<u32> for Secret<i8> {
    open spec fn obeys_shl_spec() -> bool {
        true
    }

    open spec fn shl_req(self, rhs: u32) -> bool {
        rhs < 8
    }

    open spec fn shl_spec(self, rhs: u32) -> Secret<i8> {
        Secret::wrap(self@ << rhs)
    }
}

impl core::ops::Shr<u32> for Secret<i8> {
    type Output = Secret<i8>;

    fn shr(self, rhs: u32) -> Secret<i8> {
        Secret { inner: self.inner >> rhs }
    }
}

impl ShrSpecImpl<u32> for Secret<i8> {
    open spec fn obeys_shr_spec() -> bool {
        true
    }

    open spec fn shr_req(self, rhs: u32) -> bool {
        rhs < 8
    }

    open spec fn shr_spec(self, rhs: u32) -> Secret<i8> {
        Secret::wrap(self@ >> rhs)
    }
}

impl core::ops::Shl<u32> for Secret<i16> {
    type Output = Secret<i16>;

    fn shl(self, rhs: u32) -> Secret<i16> {
        Secret { inner: self.inner << rhs }
    }
}

impl ShlSpecImpl<u32> for Secret<i16> {
    open spec fn obeys_shl_spec() -> bool {
        true
    }

    open spec fn shl_req(self, rhs: u32) -> bool {
        rhs < 16
    }

    open spec fn shl_spec(self, rhs: u32) -> Secret<i16> {
        Secret::wrap(self@ << rhs)
    }
}

impl core::ops::Shr<u32> for Secret<i16> {
    type Output = Secret<i16>;

    fn shr(self, rhs: u32) -> Secret<i16> {
        Secret { inner: self.inner >> rhs }
    }
}

impl ShrSpecImpl<u32> for Secret<i16> {
    open spec fn obeys_shr_spec() -> bool {
        true
    }

    open spec fn shr_req(self, rhs: u32) -> bool {
        rhs < 16
    }

    open spec fn shr_spec(self, rhs: u32) -> Secret<i16> {
        Secret::wrap(self@ >> rhs)
    }
}

impl core::ops::Shl<u32> for Secret<i32> {
    type Output = Secret<i32>;

    fn shl(self, rhs: u32) -> Secret<i32> {
        Secret { inner: self.inner << rhs }
    }
}

impl ShlSpecImpl<u32> for Secret<i32> {
    open spec fn obeys_shl_spec() -> bool {
        true
    }

    open spec fn shl_req(self, rhs: u32) -> bool {
        rhs < 32
    }

    open spec fn shl_spec(self, rhs: u32) -> Secret<i32> {
        Secret::wrap(self@ << rhs)
    }
}

impl core::ops::Shr<u32> for Secret<i32> {
    type Output = Secret<i32>;

    fn shr(self, rhs: u32) -> Secret<i32> {
        Secret { inner: self.inner >> rhs }
    }
}

impl ShrSpecImpl<u32> for Secret<i32> {
    open spec fn obeys_shr_spec() -> bool {
        true
    }

    open spec fn shr_req(self, rhs: u32) -> bool {
        rhs < 32
    }

    open spec fn shr_spec(self, rhs: u32) -> Secret<i32> {
        Secret::wrap(self@ >> rhs)
    }
}

impl core::ops::Shl<u32> for Secret<i64> {
    type Output = Secret<i64>;

    fn shl(self, rhs: u32) -> Secret<i64> {
        Secret { inner: self.inner << rhs }
    }
}

impl ShlSpecImpl<u32> for Secret<i64> {
    open spec fn obeys_shl_spec() -> bool {
        true
    }

    open spec fn shl_req(self, rhs: u32) -> bool {
        rhs < 64
    }

    open spec fn shl_spec(self, rhs: u32) -> Secret<i64> {
        Secret::wrap(self@ << rhs)
    }
}

impl core::ops::Shr<u32> for Secret<i64> {
    type Output = Secret<i64>;

    fn shr(self, rhs: u32) -> Secret<i64> {
        Secret { inner: self.inner >> rhs }
    }
}

impl ShrSpecImpl<u32> for Secret<i64> {
    open spec fn obeys_shr_spec() -> bool {
        true
    }

    open spec fn shr_req(self, rhs: u32) -> bool {
        rhs < 64
    }

    open spec fn shr_spec(self, rhs: u32) -> Secret<i64> {
        Secret::wrap(self@ >> rhs)
    }
}

impl From<Secret<u8>> for Secret<u16> {
    fn from(val: Secret<u8>) -> Secret<u16> {
        Secret { inner: val.inner as u16 }
    }
}

impl FromSpecImpl<Secret<u8>> for Secret<u16> {
    open spec fn obeys_from_spec() -> bool {
        true
    }

    open spec fn from_spec(val: Secret<u8>) -> Secret<u16> {
        Secret::wrap(val@ as u16)
    }
}

impl From<Secret<u8>> for Secret<u32> {
    fn from(val: Secret<u8>) -> Secret<u32> {
        Secret { inner: val.inner as u32 }
    }
}

impl FromSpecImpl<Secret<u8>> for Secret<u32> {
    open spec fn obeys_from_spec() -> bool {
        true
    }

    open spec fn from_spec(val: Secret<u8>) -> Secret<u32> {
        Secret::wrap(val@ as u32)
    }
}

impl From<Secret<u8>> for Secret<u64> {
    fn from(val: Secret<u8>) -> Secret<u64> {
        Secret { inner: val.inner as u64 }
    }
}

impl FromSpecImpl<Secret<u8>> for Secret<u64> {
    open spec fn obeys_from_spec() -> bool {
        true
    }

    open spec fn from_spec(val: Secret<u8>) -> Secret<u64> {
        Secret::wrap(val@ as u64)
    }
}

impl From<Secret<u16>> for Secret<u32> {
    fn from(val: Secret<u16>) -> Secret<u32> {
        Secret { inner: val.inner as u32 }
    }
}

impl FromSpecImpl<Secret<u16>> for Secret<u32> {
    open spec fn obeys_from_spec() -> bool {
        true
    }

    open spec fn from_spec(val: Secret<u16>) -> Secret<u32> {
        Secret::wrap(val@ as u32)
    }
}

impl From<Secret<u16>> for Secret<u64> {
    fn from(val: Secret<u16>) -> Secret<u64> {
        Secret { inner: val.inner as u64 }
    }
}

impl FromSpecImpl<Secret<u16>> for Secret<u64> {
    open spec fn obeys_from_spec() -> bool {
        true
    }

    open spec fn from_spec(val: Secret<u16>) -> Secret<u64> {
        Secret::wrap(val@ as u64)
    }
}

impl From<Secret<u32>> for Secret<u64> {
    fn from(val: Secret<u32>) -> Secret<u64> {
        Secret { inner: val.inner as u64 }
    }
}

impl FromSpecImpl<Secret<u32>> for Secret<u64> {
    open spec fn obeys_from_spec() -> bool {
        true
    }

    open spec fn from_spec(val: Secret<u32>) -> Secret<u64> {
        Secret::wrap(val@ as u64)
    }
}

impl From<Secret<i8>> for Secret<i16> {
    fn from(val: Secret<i8>) -> Secret<i16> {
        Secret { inner: val.inner as i16 }
    }
}

impl FromSpecImpl<Secret<i8>> for Secret<i16> {
    open spec fn obeys_from_spec() -> bool {
        true
    }

    open spec fn from_spec(val: Secret<i8>) -> Secret<i16> {
        Secret::wrap(val@ as i16)
    }
}

impl From<Secret<i8>> for Secret<i32> {
    fn from(val: Secret<i8>) -> Secret<i32> {
        Secret { inner: val.inner as i32 }
    }
}

impl FromSpecImpl<Secret<i8>> for Secret<i32> {
    open spec fn obeys_from_spec() -> bool {
        true
    }

    open spec fn from_spec(val: Secret<i8>) -> Secret<i32> {
        Secret::wrap(val@ as i32)
    }
}

impl From<Secret<i8>> for Secret<i64> {
    fn from(val: Secret<i8>) -> Secret<i64> {
        Secret { inner: val.inner as i64 }
    }
}

impl FromSpecImpl<Secret<i8>> for Secret<i64> {
    open spec fn obeys_from_spec() -> bool {
        true
    }

    open spec fn from_spec(val: Secret<i8>) -> Secret<i64> {
        Secret::wrap(val@ as i64)
    }
}

impl From<Secret<i16>> for Secret<i32> {
    fn from(val: Secret<i16>) -> Secret<i32> {
        Secret { inner: val.inner as i32 }
    }
}

impl FromSpecImpl<Secret<i16>> for Secret<i32> {
    open spec fn obeys_from_spec() -> bool {
        true
    }

    open spec fn from_spec(val: Secret<i16>) -> Secret<i32> {
        Secret::wrap(val@ as i32)
    }
}

impl From<Secret<i16>> for Secret<i64> {
    fn from(val: Secret<i16>) -> Secret<i64> {
        Secret { inner: val.inner as i64 }
    }
}

impl FromSpecImpl<Secret<i16>> for Secret<i64> {
    open spec fn obeys_from_spec() -> bool {
        true
    }

    open spec fn from_spec(val: Secret<i16>) -> Secret<i64> {
        Secret::wrap(val@ as i64)
    }
}

impl From<Secret<i32>> for Secret<i64> {
    fn from(val: Secret<i32>) -> Secret<i64> {
        Secret { inner: val.inner as i64 }
    }
}

impl FromSpecImpl<Secret<i32>> for Secret<i64> {
    open spec fn obeys_from_spec() -> bool {
        true
    }

    open spec fn from_spec(val: Secret<i32>) -> Secret<i64> {
        Secret::wrap(val@ as i64)
    }
}

impl<T: Copy + RotateLeft<u32, Output = T>> RotateLeft<u32> for Secret<T> {
    type Output = Secret<T>;

    open spec fn rotate_left_spec(self, rhs: u32) -> Secret<T> {
        Secret::wrap(self@.rotate_left_spec(rhs))
    }

    fn rotate_left(self, rhs: u32) -> Secret<T> {
        Secret { inner: self.inner.rotate_left(rhs) }
    }
}

impl<T: Copy + RotateRight<u32, Output = T>> RotateRight<u32> for Secret<T> {
    type Output = Secret<T>;

    open spec fn rotate_right_spec(self, rhs: u32) -> Secret<T> {
        Secret::wrap(self@.rotate_right_spec(rhs))
    }

    fn rotate_right(self, rhs: u32) -> Secret<T> {
        Secret { inner: self.inner.rotate_right(rhs) }
    }
}

impl Truncate<Secret<u32>> for Secret<u64> {
    open spec fn truncate_spec(self) -> Secret<u32> {
        Secret::wrap(self@ as u32)
    }

    fn truncate(self) -> Secret<u32> {
        Secret { inner: self.inner as u32 }
    }
}

impl Truncate<Secret<u16>> for Secret<u64> {
    open spec fn truncate_spec(self) -> Secret<u16> {
        Secret::wrap(self@ as u16)
    }

    fn truncate(self) -> Secret<u16> {
        Secret { inner: self.inner as u16 }
    }
}

impl Truncate<Secret<u8>> for Secret<u64> {
    open spec fn truncate_spec(self) -> Secret<u8> {
        Secret::wrap(self@ as u8)
    }

    fn truncate(self) -> Secret<u8> {
        Secret { inner: self.inner as u8 }
    }
}

impl Truncate<Secret<u16>> for Secret<u32> {
    open spec fn truncate_spec(self) -> Secret<u16> {
        Secret::wrap(self@ as u16)
    }

    fn truncate(self) -> Secret<u16> {
        Secret { inner: self.inner as u16 }
    }
}

impl Truncate<Secret<u8>> for Secret<u32> {
    open spec fn truncate_spec(self) -> Secret<u8> {
        Secret::wrap(self@ as u8)
    }

    fn truncate(self) -> Secret<u8> {
        Secret { inner: self.inner as u8 }
    }
}

impl Truncate<Secret<u8>> for Secret<u16> {
    open spec fn truncate_spec(self) -> Secret<u8> {
        Secret::wrap(self@ as u8)
    }

    fn truncate(self) -> Secret<u8> {
        Secret { inner: self.inner as u8 }
    }
}

impl Truncate<Secret<i32>> for Secret<i64> {
    open spec fn truncate_spec(self) -> Secret<i32> {
        Secret::wrap(self@ as i32)
    }

    fn truncate(self) -> Secret<i32> {
        Secret { inner: self.inner as i32 }
    }
}

impl Truncate<Secret<i16>> for Secret<i64> {
    open spec fn truncate_spec(self) -> Secret<i16> {
        Secret::wrap(self@ as i16)
    }

    fn truncate(self) -> Secret<i16> {
        Secret { inner: self.inner as i16 }
    }
}

impl Truncate<Secret<i8>> for Secret<i64> {
    open spec fn truncate_spec(self) -> Secret<i8> {
        Secret::wrap(self@ as i8)
    }

    fn truncate(self) -> Secret<i8> {
        Secret { inner: self.inner as i8 }
    }
}

impl Truncate<Secret<i16>> for Secret<i32> {
    open spec fn truncate_spec(self) -> Secret<i16> {
        Secret::wrap(self@ as i16)
    }

    fn truncate(self) -> Secret<i16> {
        Secret { inner: self.inner as i16 }
    }
}

impl Truncate<Secret<i8>> for Secret<i32> {
    open spec fn truncate_spec(self) -> Secret<i8> {
        Secret::wrap(self@ as i8)
    }

    fn truncate(self) -> Secret<i8> {
        Secret { inner: self.inner as i8 }
    }
}

impl Truncate<Secret<i8>> for Secret<i16> {
    open spec fn truncate_spec(self) -> Secret<i8> {
        Secret::wrap(self@ as i8)
    }

    fn truncate(self) -> Secret<i8> {
        Secret { inner: self.inner as i8 }
    }
}

impl<T: Copy + ToSigned<Output = S>, S: Copy> ToSigned for Secret<T> {
    type Output = Secret<S>;

    open spec fn to_signed_spec(self) -> Secret<S> {
        Secret::wrap(self@.to_signed_spec())
    }

    fn to_signed(self) -> Secret<S> {
        Secret { inner: self.inner.to_signed() }
    }
}

impl<T: Copy + ToUnsigned<Output = U>, U: Copy> ToUnsigned for Secret<T> {
    type Output = Secret<U>;

    open spec fn to_unsigned_spec(self) -> Secret<U> {
        Secret::wrap(self@.to_unsigned_spec())
    }

    fn to_unsigned(self) -> Secret<U> {
        Secret { inner: self.inner.to_unsigned() }
    }
}

impl<T: Copy + WrappingAdd<T, Output = T>> WrappingAdd<Secret<T>> for Secret<T> {
    type Output = Secret<T>;

    open spec fn wrapping_add_spec(self, rhs: Secret<T>) -> Secret<T> {
        Secret::wrap(self@.wrapping_add_spec(rhs@))
    }

    fn wrapping_add(self, rhs: Secret<T>) -> Secret<T> {
        Secret { inner: WrappingAdd::wrapping_add(self.inner, rhs.inner) }
    }
}

impl<T: Copy + WrappingAdd<T, Output = T>> WrappingAdd<T> for Secret<T> {
    type Output = Secret<T>;

    open spec fn wrapping_add_spec(self, rhs: T) -> Secret<T> {
        Secret::wrap(self@.wrapping_add_spec(rhs))
    }

    fn wrapping_add(self, rhs: T) -> Secret<T> {
        Secret { inner: WrappingAdd::wrapping_add(self.inner, rhs) }
    }
}

impl<T: Copy + WrappingSub<T, Output = T>> WrappingSub<Secret<T>> for Secret<T> {
    type Output = Secret<T>;

    open spec fn wrapping_sub_spec(self, rhs: Secret<T>) -> Secret<T> {
        Secret::wrap(self@.wrapping_sub_spec(rhs@))
    }

    fn wrapping_sub(self, rhs: Secret<T>) -> Secret<T> {
        Secret { inner: WrappingSub::wrapping_sub(self.inner, rhs.inner) }
    }
}

impl<T: Copy + WrappingSub<T, Output = T>> WrappingSub<T> for Secret<T> {
    type Output = Secret<T>;

    open spec fn wrapping_sub_spec(self, rhs: T) -> Secret<T> {
        Secret::wrap(self@.wrapping_sub_spec(rhs))
    }

    fn wrapping_sub(self, rhs: T) -> Secret<T> {
        Secret { inner: WrappingSub::wrapping_sub(self.inner, rhs) }
    }
}

} // verus!

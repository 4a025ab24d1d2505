//! Requests of the token-wrapping flows.
//!
//! Wrap and batch-wrap requests carry no `to` address at all: the
//! destination is always the factory contract's own resolved address.
//! Unwrap and get-wrapped requests name the factory as the call target and
//! pass the asset contract's resolved address as an argument.

use vstd::prelude::*;
use crate::asset::{AssetData, AssetDataView, views_of};

verus! {

/// A wrap request: transfer `amount` of token `id` into the factory.
#[derive(Debug, Clone, PartialEq)]
pub struct Wrap1155 {
    pub from: String,
    pub amount: u64,
    pub id: u64,
    pub data: AssetData,
}

/// The mathematical value of a [`Wrap1155`].
#[verifier::ext_equal]
pub struct Wrap1155View {
    pub from: Seq<char>,
    pub amount: u64,
    pub id: u64,
    pub data: AssetDataView,
}

impl View for Wrap1155 {
    type V = Wrap1155View;

    open spec fn view(&self) -> Wrap1155View {
        Wrap1155View { from: self.from@, amount: self.amount, id: self.id, data: self.data@ }
    }
}

/// A batch wrap request; position `i` of `amounts`, `ids` and `data`
/// describes one leg.
#[derive(Debug, Clone, PartialEq)]
pub struct BatchWrap1155 {
    pub from: String,
    pub amounts: Vec<u64>,
    pub ids: Vec<u64>,
    pub data: Vec<AssetData>,
}

/// The mathematical value of a [`BatchWrap1155`].
#[verifier::ext_equal]
pub struct BatchWrap1155View {
    pub from: Seq<char>,
    pub amounts: Seq<u64>,
    pub ids: Seq<u64>,
    pub data: Seq<AssetDataView>,
}

impl View for BatchWrap1155 {
    type V = BatchWrap1155View;

    open spec fn view(&self) -> BatchWrap1155View {
        BatchWrap1155View {
            from: self.from@,
            amounts: self.amounts@,
            ids: self.ids@,
            data: views_of(self.data@),
        }
    }
}

/// A read-only query for the wrapped counterpart of token `id`.
#[derive(Debug, Clone, PartialEq)]
pub struct GetWrapped1155 {
    pub id: u64,
    pub data: AssetData,
}

/// The mathematical value of a [`GetWrapped1155`].
#[verifier::ext_equal]
pub struct GetWrapped1155View {
    pub id: u64,
    pub data: AssetDataView,
}

impl View for GetWrapped1155 {
    type V = GetWrapped1155View;

    open spec fn view(&self) -> GetWrapped1155View {
        GetWrapped1155View { id: self.id, data: self.data@ }
    }
}

/// An unwrap request: release `amount` of token `id` from the factory to
/// `recipient_address`.
#[derive(Debug, Clone, PartialEq)]
pub struct Unwrap1155 {
    pub id: u64,
    pub amount: u64,
    pub recipient_address: String,
    pub data: AssetData,
}

/// The mathematical value of an [`Unwrap1155`].
#[verifier::ext_equal]
pub struct Unwrap1155View {
    pub id: u64,
    pub amount: u64,
    pub recipient_address: Seq<char>,
    pub data: AssetDataView,
}

impl View for Unwrap1155 {
    type V = Unwrap1155View;

    open spec fn view(&self) -> Unwrap1155View {
        Unwrap1155View {
            id: self.id,
            amount: self.amount,
            recipient_address: self.recipient_address@,
            data: self.data@,
        }
    }
}

} // verus!

use vstd::prelude::*;
use crate::price::{bits_at_least_zero, Price};

verus! {

/// Why a request could not be served.
#[derive(Clone, Copy, Debug, PartialEq, Eq, Structural)]
pub enum ApiError {
    /// Bad or missing input, or a stress parameter out of range.
    InvalidArgument,
    /// No item has the requested id.
    NotFound,
    /// The store could not do the work for a reason other than the input.
    Internal,
}

pub open spec fn status_of(e: ApiError) -> u16 {
    match e {
        ApiError::InvalidArgument => 400,
        ApiError::NotFound => 404,
        ApiError::Internal => 500,
    }
}

impl ApiError {
    /// The HTTP status code that this error is reported with.
    pub fn status_code(&self) -> (r: u16)
        ensures
            r == status_of(*self),
    {
        match self {
            ApiError::InvalidArgument => 400,
            ApiError::NotFound => 404,
            ApiError::Internal => 500,
        }
    }
}

/// The writable fields of an item, as a client sends them.
#[derive(Debug)]
pub struct Item {
    pub name: String,
    pub description: Option<String>,
    pub price: Price,
}

/// An item as stored: the client's fields plus the id and creation time given by the store.
#[derive(Debug)]
pub struct ItemResponse {
    pub id: i64,
    pub name: String,
    pub description: Option<String>,
    pub price: Price,
    pub created_at: String,
}

/// A payload is acceptable when its name is not empty and its price is at least zero
/// (a NaN price is not).
pub open spec fn valid_fields(name: Seq<char>, price: Price) -> bool {
    name.len() > 0 && bits_at_least_zero(price.bits)
}

pub open spec fn valid_item(payload: Item) -> bool {
    valid_fields(payload.name@, payload.price)
}

/// Every stored item satisfies the payload rules and has a positive id.
pub open spec fn valid_row(row: ItemResponse) -> bool {
    row.id > 0 && valid_fields(row.name@, row.price)
}

pub fn copy_text(s: &Option<String>) -> (r: Option<String>)
    ensures
        r == *s,
{
    match s {
        Some(t) => Some(t.clone()),
        None => None,
    }
}

impl Item {
    pub fn new(name: String, description: Option<String>, price: Price) -> (r: Item)
        ensures
            r.name == name,
            r.description == description,
            r.price == price,
    {
        Item { name, description, price }
    }

    /// A field-for-field copy.
    pub fn duplicate(&self) -> (r: Item)
        ensures
            r == *self,
    {
        Item { name: self.name.clone(), description: copy_text(&self.description), price: self.price }
    }
}

impl ItemResponse {
    /// A field-for-field copy.
    pub fn duplicate(&self) -> (r: ItemResponse)
        ensures
            r == *self,
    {
        ItemResponse {
            id: self.id,
            name: self.name.clone(),
            description: copy_text(&self.description),
            price: self.price,
            created_at: self.created_at.clone(),
        }
    }
}

/// Checks a payload before any storage work: `InvalidArgument` exactly when the name is
/// empty or the price is not at least zero (below zero, or NaN).
pub fn validate_item(payload: &Item) -> (r: Result<(), ApiError>)
    ensures
        r is Ok <==> valid_item(*payload),
        r is Err ==> r == Err::<(), ApiError>(ApiError::InvalidArgument),
{
    if payload.name.as_str().is_empty() || !payload.price.is_non_negative() {
        Err(ApiError::InvalidArgument)
    } else {
        Ok(())
    }
}

} // verus!

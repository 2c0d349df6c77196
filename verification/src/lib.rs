//! Identifier validation and price extraction for a cryptocurrency price
//! lookup tool.
//!
//! A lookup names a crypto asset and a target currency. Both are checked
//! against reference lists of the pricing service, the asset by bisecting a
//! sorted list and the currency by scanning an unordered one, and the price
//! with its 24-hour volume and 24-hour change is then read out of the
//! service's response. The library decides and computes; sending requests,
//! decoding replies and printing are left to its caller.
//!
//! - [`ident`]: the two kinds of identifier, and how they compare.
//! - [`order`]: the byte order that identifiers are sorted by.
//! - [`search`]: bisection of a list, for any element type.
//! - [`validate`]: the two checks against reference lists.
//! - [`price`]: the response of the price endpoint, and the snapshot read
//!   from it.
//! - [`request`]: addresses and parameters of the requests.
//! - [`session`]: the order in which a lookup asks and checks.
//! - [`table`]: layout of the table that presents a snapshot.

pub mod ident;
pub mod order;
pub mod price;
pub mod request;
pub mod search;
pub mod session;
pub mod table;
pub mod validate;

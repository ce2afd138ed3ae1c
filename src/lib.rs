//! Client-side logic for querying abuse.ch threat feeds: feed selection and
//! request shape, record decoding support, the filter pipeline and the
//! rendering of filtered records.

pub mod filter;
pub mod records;
pub mod run;
pub mod stamp;
pub mod table;
pub mod text;

//! Classification of the status codes that an SRT transport reports.
//!
//! The transport signals failure through an integer return code and a
//! per-thread "last error" number. This crate turns those numbers into
//! closed enumerations and projects them onto a small set of portable
//! error categories.

pub mod category;
pub mod describe;
pub mod error;
pub mod reject;
pub mod status;

pub use category::GenericErrorCategory;
pub use error::SrtError;
pub use reject::SrtRejectReason;
pub use status::handle_result;

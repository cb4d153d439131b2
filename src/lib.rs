//! Review coordination for a membership site: leases on the users under review,
//! the choice of the next candidate, and the rules that turn a review into
//! changes of the user records.
pub mod access;
pub mod calendar;
pub mod discovery;
pub mod lease;
pub mod profile;
pub mod requests;
pub mod response;
pub mod review;
pub mod token;
pub mod user;

//! The verified core of a newsletter service: validation of subscriber
//! data, the decisions taken while a subscription request is served,
//! the text of the confirmation email, subscription tokens and error
//! reports.

pub mod domain;
pub mod routes;
pub mod startup;
pub mod text;

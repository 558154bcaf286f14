pub mod subscribe_flow;
pub mod subscriptions;

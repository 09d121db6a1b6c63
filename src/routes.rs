pub mod newsletters;
pub mod subscriptions;
pub mod subscriptions_confirm;

//! Request handling for an email subscription service: route dispatch, form
//! validation, the subscription record handed to the store, and the lifecycle
//! of a serving process.
pub mod pool;
pub mod response;
pub mod routing;
pub mod shutdown;
pub mod subscriptions;

pub use response::{fallback, health_check, internal_error, Response};
pub use routing::{handle, route, Handling, Route};
pub use subscriptions::{subscribe, subscribe_completed, SubscriptionData, SubscriptionRecord};

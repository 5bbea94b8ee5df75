pub mod balance;
pub mod model;
pub mod payment_methods;

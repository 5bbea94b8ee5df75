pub mod accept;
pub mod cancel;
pub mod create;
pub mod decline;
pub mod info;
pub mod list;
pub mod model;
pub mod plans;
pub mod ports;
pub mod preflight;
pub mod validation;

pub mod in_transfer;
pub mod model;
pub mod options;
pub mod out;
pub mod selection;

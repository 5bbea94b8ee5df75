pub mod friends;
pub mod friendship;
pub mod info;
pub mod lookup;
pub mod ports;
pub mod recipient;
pub mod user;
pub mod users;

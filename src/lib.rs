//! A small user-registration service built around a key-value store.
//! `Db` keeps its entries in a `DashMap` and is viewed as a map; each of its
//! operations is specified by the matching step in `model`, where the laws
//! of the store are proved. Registration validates a request and then
//! creates the user under its name.

pub mod model;
pub mod register;
pub mod store;
pub mod user;

pub use register::{conclude, create_user};
pub use store::Db;
pub use user::{User, UserError, UserReq, MIN_NAME_LEN, MIN_PASSWORD_LEN};

//! An in-memory store of user records: validation of names and e-mail
//! addresses, allocation of identifiers, and insert, find and delete by
//! identifier.

mod clock;
pub mod model;
pub mod repository;
pub mod text;
pub mod user;
pub mod utils;

pub use model::StoreState;
pub use repository::{InMemoryUserRepository, Repository};
pub use user::{create_user, validate_email, User, UserRole, UserView};

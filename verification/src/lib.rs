//! A small user-management library: a user table with create / find /
//! update / delete / credential lookup, request validation, password
//! hashing, and login / logout orchestration over a caller-scoped session.

pub mod auth;
pub mod crypto;
pub mod errors;
pub mod laws;
pub mod user;

pub use auth::LoginRequest;
pub use auth::PrivateClaim;
pub use auth::Session;
pub use auth::TOKEN_TTL_SECONDS;
pub use auth::login;
pub use auth::logout;
pub use auth::validate;
pub use crypto::hash;
pub use errors::ApiError;
pub use user::AuthUser;
pub use user::NewUser;
pub use user::UpdateUser;
pub use user::User;
pub use user::UserResponse;
pub use user::UserStore;
pub use user::UsersResponse;
pub use user::create;
pub use user::delete;
pub use user::find;
pub use user::find_by_auth;
pub use user::get_all;
pub use user::is_uuid_string;
pub use user::update;

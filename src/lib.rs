//! Identity core of a multi-user web backend: password credentials, signed
//! session tokens, the check in front of protected routes, and the
//! signup / signin rules over an account store.

mod role;
mod error;
mod password;
mod text;
mod token;
mod records;
mod store;
mod config;
mod directory;
mod guard;
mod defaults;

pub use role::UserRole;
pub use error::{AppError, TokenFailure};
pub use password::{hash_password, hash_password_with_salt, verify_password};
pub use token::{check_token_at, create_token, create_token_at, encode_claims, verify_token, Claims};
pub use token::{EXPIRY_LEEWAY_SECONDS, SECONDS_PER_DAY, TOKEN_VALIDITY_DAYS};
pub use records::{default_profile_image, Auth, LoginRequest, NewAuth, NewMessage, NewUser, SignupRequest, TokenResponse, User};
pub use store::{Account, AccountStore};
pub use config::{backend_for_url, AppConfig, Backend};
pub use directory::{issue_response, issue_response_now, new_account, signin, signin_identity, signin_with, signup, signup_role, signup_with};
pub use guard::{authenticate, authenticate_at, authenticate_optional, authenticate_optional_at, bearer_token, can_access_user, require_admin};
pub use defaults::{default_height, default_limit, default_n, default_steps, default_top_k, default_width};

use vstd::prelude::*;
use crate::error::{message_of, AppError};
use crate::text::{chars_of, has_at, matches_at};

verus! {

/// Settings read once at startup and shared, unchanged, by every request.
#[derive(Debug, Clone)]
pub struct AppConfig {
    pub host: String,
    pub port: u16,
    pub webui_name: String,
    pub webui_url: String,
    /// The symmetric key that signs session tokens.
    pub webui_secret_key: String,
    pub enable_signup: bool,
    pub enable_oauth: bool,
    pub enable_admin_export: bool,
    pub enable_community_sharing: bool,
    pub default_locale: String,
    /// Selects the storage backend by its scheme.
    pub database_url: String,
    pub redis_url: Option<String>,
    pub ollama_base_url: String,
    pub ollama_base_urls: Vec<String>,
    pub openai_api_key: Option<String>,
    pub openai_api_base_url: String,
    pub bypass_model_access_control: bool,
    pub bypass_admin_access_control: bool,
    pub task_model: Option<String>,
    pub task_model_external: Option<String>,
    pub title_generation_prompt_template: String,
    pub enable_rag_web_search: bool,
    pub rag_embedding_engine: String,
    pub rag_embedding_model: String,
    pub enable_image_generation: bool,
    pub image_generation_engine: String,
    pub audio_tts_engine: String,
    pub audio_tts_model: String,
    pub audio_stt_engine: String,
    pub audio_stt_model: String,
    pub upload_dir: String,
    pub file_max_size: usize,
    pub enable_base_models_cache: bool,
    pub log_level: String,
}

/// The relational engine behind the persistence gateway.
#[derive(Debug, Clone, Copy, PartialEq, Eq, Structural)]
pub enum Backend {
    Postgres,
    Sqlite,
}

/// The backend that a connection string names, by its scheme.
pub open spec fn backend_of_url(url: Seq<char>) -> Option<Backend> {
    if has_at(url, 0, "postgresql://"@) || has_at(url, 0, "postgres://"@) {
        Some(Backend::Postgres)
    } else if has_at(url, 0, "sqlite:"@) {
        Some(Backend::Sqlite)
    } else {
        None
    }
}

/// Picks the backend from a connection string: `postgresql://` or
/// `postgres://` for PostgreSQL, `sqlite:` for SQLite; anything else is a
/// storage failure.
pub fn backend_for_url(url: &str) -> (r: Result<Backend, AppError>)
    ensures
        match r {
            Ok(b) => backend_of_url(url@) == Some(b),
            Err(e) => backend_of_url(url@) is None && e is DatabaseError
                && message_of(e) == "Unsupported database URL. Use postgresql:// or sqlite:"@,
        },
{
    let u = chars_of(url);
    if matches_at(&u, 0, &chars_of("postgresql://")) || matches_at(&u, 0, &chars_of("postgres://")) {
        Ok(Backend::Postgres)
    } else if matches_at(&u, 0, &chars_of("sqlite:")) {
        Ok(Backend::Sqlite)
    } else {
        Err(AppError::DatabaseError(String::from_str("Unsupported database URL. Use postgresql:// or sqlite:")))
    }
}

} // verus!

use webui_auth::{
    authenticate_at, authenticate_optional_at, backend_for_url, bearer_token, can_access_user,
    check_token_at, create_token_at, default_height, default_limit, default_n, default_profile_image,
    default_steps, default_top_k, default_width, issue_response, issue_response_now, new_account,
    require_admin, signin, signin_identity, signin_with, signup,
    signup_role, signup_with, AccountStore, AppConfig, AppError, Auth, Backend, Claims,
    LoginRequest, SignupRequest, User, UserRole,
};

const SECRET: &str = "directory-secret";
const NOW: i64 = 1_700_000_000;
const SALT: &str = "c29tZXNhbHRzb21lc2FsdA";

fn config(enable_signup: bool) -> AppConfig {
    AppConfig {
        host: "0.0.0.0".to_string(),
        port: 8080,
        webui_name: "Open WebUI".to_string(),
        webui_url: "http://localhost:3000".to_string(),
        webui_secret_key: SECRET.to_string(),
        enable_signup,
        enable_oauth: false,
        enable_admin_export: true,
        enable_community_sharing: true,
        default_locale: "en-US".to_string(),
        database_url: "sqlite:./data/webui.db".to_string(),
        redis_url: None,
        ollama_base_url: "http://localhost:11434".to_string(),
        ollama_base_urls: vec![],
        openai_api_key: None,
        openai_api_base_url: "https://api.openai.com/v1".to_string(),
        bypass_model_access_control: false,
        bypass_admin_access_control: false,
        task_model: None,
        task_model_external: None,
        title_generation_prompt_template: "Generate a concise title for this conversation".to_string(),
        enable_rag_web_search: false,
        rag_embedding_engine: String::new(),
        rag_embedding_model: String::new(),
        enable_image_generation: false,
        image_generation_engine: String::new(),
        audio_tts_engine: String::new(),
        audio_tts_model: String::new(),
        audio_stt_engine: String::new(),
        audio_stt_model: String::new(),
        upload_dir: "./data/uploads".to_string(),
        file_max_size: 10485760,
        enable_base_models_cache: false,
        log_level: "info".to_string(),
    }
}

fn req(name: &str, email: &str, password: &str) -> SignupRequest {
    SignupRequest { name: name.to_string(), email: email.to_string(), password: password.to_string() }
}

fn login(email: &str, password: &str) -> LoginRequest {
    LoginRequest { email: email.to_string(), password: password.to_string() }
}

#[test]
fn first_signup_is_admin() {
    let mut store = AccountStore::new();
    let resp = signup(&mut store, &config(true), &req("Alice", "alice@example.com", "Secret123!")).unwrap();
    assert_eq!(resp.token_type, "Bearer");
    let claims = webui_auth::verify_token(&resp.token, SECRET).unwrap();
    assert_eq!(claims.role, "admin");
    assert_eq!(claims.email, "alice@example.com");
    assert_eq!(store.count_users(), 1);
    let user = store.get_user_by_email("alice@example.com").unwrap();
    assert_eq!(user.role, UserRole::Admin);
    assert_eq!(user.name, "Alice");
    assert_eq!(user.profile_image_url, "/user.png");
    assert_eq!(claims.sub, user.id);
}

#[test]
fn second_signup_is_ordinary_user() {
    let mut store = AccountStore::new();
    signup(&mut store, &config(true), &req("Alice", "alice@example.com", "Secret123!")).unwrap();
    let resp = signup(&mut store, &config(true), &req("Bob", "bob@example.com", "Passw0rd!")).unwrap();
    let claims = webui_auth::verify_token(&resp.token, SECRET).unwrap();
    assert_eq!(claims.role, "user");
    assert_eq!(store.count_users(), 2);
    let listed = store.list_users();
    assert_eq!(listed.len(), 2);
    assert!(listed[0].timestamp >= listed[1].timestamp);
}

#[test]
fn listing_orders_by_timestamp_then_id() {
    let mut store = AccountStore::new();
    signup_with(&mut store, true, SECRET, &req("A", "a@x.io", "pw"), "id-b".to_string(), SALT, NOW).unwrap();
    signup_with(&mut store, true, SECRET, &req("B", "b@x.io", "pw"), "id-a".to_string(), SALT, NOW).unwrap();
    signup_with(&mut store, true, SECRET, &req("C", "c@x.io", "pw"), "id-c".to_string(), SALT, NOW - 10).unwrap();
    signup_with(&mut store, true, SECRET, &req("D", "d@x.io", "pw"), "id-d".to_string(), SALT, NOW + 10).unwrap();
    let names: Vec<String> = store.list_users().into_iter().map(|u| u.name).collect();
    assert_eq!(names, vec!["D", "B", "A", "C"]);
}

#[test]
fn signin_steps() {
    let hash = webui_auth::hash_password("pw").unwrap();
    let cred = Some(Auth { id: "id-1".to_string(), email: "e".to_string(), password: hash, active: true, created_at: 0 });
    assert_eq!(signin_identity(&cred, "pw").unwrap(), "id-1");
    assert_eq!(signin_identity(&cred, "no").unwrap_err().message(), "Invalid email or password");
    assert_eq!(signin_identity(&None, "pw").unwrap_err().message(), "Invalid email or password");
    let (auth, user) = new_account(&req("N", "n@x.io", "pw"), "id-9".to_string(), UserRole::User, "h".to_string(), NOW);
    assert_eq!(auth.id, user.id);
    assert_eq!(auth.email, user.email);
    assert_eq!(user.timestamp, NOW);
    let resp = issue_response(&user, SECRET, NOW);
    assert_eq!(resp.token_type, "Bearer");
    assert_eq!(check_token_at(&resp.token, SECRET, NOW).unwrap().role, "user");
    assert_eq!(issue_response_now(&user, SECRET).token_type, "Bearer");
    let err = backend_for_url("mysql://h").unwrap_err();
    assert_eq!(err.message(), "Unsupported database URL. Use postgresql:// or sqlite:");
}

#[test]
fn signup_disabled_creates_nothing() {
    let mut store = AccountStore::new();
    let err = signup(&mut store, &config(false), &req("Alice", "alice@example.com", "Secret123!")).unwrap_err();
    assert!(matches!(err, AppError::Forbidden(_)));
    assert_eq!(err.status_code(), 403);
    assert_eq!(store.count_users(), 0);
    assert!(store.get_credential_by_email("alice@example.com").is_none());
}

#[test]
fn duplicate_email_is_rejected() {
    let mut store = AccountStore::new();
    signup(&mut store, &config(true), &req("Alice", "alice@example.com", "Secret123!")).unwrap();
    let err = signup(&mut store, &config(true), &req("Alice Two", "alice@example.com", "other")).unwrap_err();
    assert!(matches!(err, AppError::ValidationError(_)));
    assert_eq!(err.status_code(), 400);
    assert_eq!(store.count_users(), 1);
    assert_eq!(store.get_user_by_email("alice@example.com").unwrap().name, "Alice");
}

#[test]
fn reused_account_id_stores_nothing() {
    let mut store = AccountStore::new();
    signup_with(&mut store, true, SECRET, &req("A", "a@x.io", "pw"), "same-id".to_string(), SALT, NOW).unwrap();
    let err = signup_with(&mut store, true, SECRET, &req("B", "b@x.io", "pw"), "same-id".to_string(), SALT, NOW).unwrap_err();
    assert!(matches!(err, AppError::DatabaseError(_)));
    assert_eq!(store.count_users(), 1);
}

#[test]
fn signup_with_gives_exact_token() {
    let mut store = AccountStore::new();
    let resp = signup_with(&mut store, true, SECRET, &req("A", "a@x.io", "pw"), "id-a".to_string(), SALT, NOW).unwrap();
    let expected = create_token_at("id-a".to_string(), "a@x.io".to_string(), "admin".to_string(), SECRET, NOW);
    assert_eq!(resp.token, expected);
    let auth = store.get_credential_by_email("a@x.io").unwrap();
    assert_eq!(auth.id, "id-a");
    assert!(auth.active);
    assert_eq!(auth.created_at, NOW);
    assert_ne!(auth.password, "pw");
}

#[test]
fn signin_with_wrong_password_is_generic_failure() {
    let mut store = AccountStore::new();
    signup(&mut store, &config(true), &req("Alice", "alice@example.com", "Secret123!")).unwrap();
    let wrong = signin(&store, &config(true), &login("alice@example.com", "nope")).unwrap_err();
    let unknown = signin(&store, &config(true), &login("nobody@example.com", "Secret123!")).unwrap_err();
    assert!(matches!(wrong, AppError::AuthError(_)));
    assert!(matches!(unknown, AppError::AuthError(_)));
    assert_eq!(wrong.status_code(), 401);
    assert_eq!(wrong.message(), "Invalid email or password");
    assert_eq!(unknown.message(), wrong.message());
}

#[test]
fn signin_with_right_password_issues_token() {
    let mut store = AccountStore::new();
    signup_with(&mut store, true, SECRET, &req("A", "a@x.io", "pw"), "id-a".to_string(), SALT, NOW).unwrap();
    signup_with(&mut store, true, SECRET, &req("B", "b@x.io", "pw2"), "id-b".to_string(), SALT, NOW).unwrap();
    let resp = signin_with(&store, SECRET, &login("b@x.io", "pw2"), NOW + 5).unwrap();
    let c = check_token_at(&resp.token, SECRET, NOW + 5).unwrap();
    assert_eq!(c.sub, "id-b");
    assert_eq!(c.role, "user");
    assert_eq!(c.iat, NOW + 5);
}

#[test]
fn signin_against_corrupt_hash_is_hash_failure() {
    let mut store = AccountStore::new();
    signup_with(&mut store, true, SECRET, &req("A", "a@x.io", "pw"), "id-a".to_string(), SALT, NOW).unwrap();
    assert!(store.update_credential_password("id-a", "corrupt".to_string()));
    let err = signin_with(&store, SECRET, &login("a@x.io", "pw"), NOW).unwrap_err();
    assert!(matches!(err, AppError::HashError(_)));
    assert!(!store.update_credential_password("missing", "x".to_string()));
}

#[test]
fn password_change_takes_effect() {
    let mut store = AccountStore::new();
    signup_with(&mut store, true, SECRET, &req("A", "a@x.io", "old"), "id-a".to_string(), SALT, NOW).unwrap();
    let new_hash = webui_auth::hash_password("new").unwrap();
    assert!(store.update_credential_password("id-a", new_hash));
    assert!(signin_with(&store, SECRET, &login("a@x.io", "new"), NOW).is_ok());
    assert!(signin_with(&store, SECRET, &login("a@x.io", "old"), NOW).is_err());
}

#[test]
fn delete_removes_credential_and_profile() {
    let mut store = AccountStore::new();
    signup_with(&mut store, true, SECRET, &req("A", "a@x.io", "pw"), "id-a".to_string(), SALT, NOW).unwrap();
    signup_with(&mut store, true, SECRET, &req("B", "b@x.io", "pw"), "id-b".to_string(), SALT, NOW).unwrap();
    assert!(store.delete_user("id-a"));
    assert!(!store.delete_user("id-a"));
    assert!(store.get_user_by_id("id-a").is_none());
    assert!(store.get_credential_by_email("a@x.io").is_none());
    assert_eq!(store.get_user_by_id("id-b").unwrap().email, "b@x.io");
    assert_eq!(store.count_users(), 1);
}

#[test]
fn create_account_refuses_taken_email() {
    let mut store = AccountStore::new();
    let auth = |id: &str| Auth { id: id.to_string(), email: "dup@x.io".to_string(), password: "h".to_string(), active: true, created_at: 0 };
    let user = |id: &str| User {
        id: id.to_string(), name: "n".to_string(), email: "dup@x.io".to_string(), role: UserRole::default(),
        profile_image_url: default_profile_image(), timestamp: 0, api_key: None, settings: None,
        info: None, oauth_sub: None, last_active_at: None,
    };
    assert!(store.create_account(auth("1"), user("1")).is_ok());
    assert!(matches!(store.create_account(auth("2"), user("2")), Err(AppError::DatabaseError(_))));
    assert_eq!(store.count_users(), 1);
    assert_eq!(store.get_user_by_id("1").unwrap().role, UserRole::Pending);
}

#[test]
fn signup_role_decisions() {
    assert!(matches!(signup_role(false, false, 0), Err(AppError::Forbidden(_))));
    assert!(matches!(signup_role(true, true, 0), Err(AppError::ValidationError(_))));
    assert_eq!(signup_role(true, false, 0).unwrap(), UserRole::Admin);
    assert_eq!(signup_role(true, false, 1).unwrap(), UserRole::User);
    assert_eq!(signup_role(true, false, 57).unwrap(), UserRole::User);
}

#[test]
fn one_admin_among_consecutive_first_signups() {
    let mut store = AccountStore::new();
    let a = signup(&mut store, &config(true), &req("A", "a@x.io", "pw")).unwrap();
    let b = signup(&mut store, &config(true), &req("B", "b@x.io", "pw")).unwrap();
    let ra = webui_auth::verify_token(&a.token, SECRET).unwrap().role;
    let rb = webui_auth::verify_token(&b.token, SECRET).unwrap().role;
    assert!(!(ra == "admin" && rb == "admin"));
}

#[test]
fn gate_scenarios() {
    let token = create_token_at("id-9".to_string(), "n@x.io".to_string(), "user".to_string(), SECRET, NOW);
    let missing = authenticate_at(None, SECRET, NOW).unwrap_err();
    assert_eq!(missing.status_code(), 401);
    let wrong_scheme = authenticate_at(Some("Token abc"), SECRET, NOW).unwrap_err();
    assert_eq!(wrong_scheme.status_code(), 401);
    let header = format!("Bearer {}", token);
    let c = authenticate_at(Some(&header), SECRET, NOW).unwrap();
    assert_eq!(c.sub, "id-9");
    assert_eq!(c.role, "user");
    let bad = authenticate_at(Some("Bearer abc"), SECRET, NOW).unwrap_err();
    assert_eq!(bad.status_code(), 401);
    assert!(authenticate_optional_at(None, SECRET, NOW).is_none());
    assert!(authenticate_optional_at(Some("Token abc"), SECRET, NOW).is_none());
    assert_eq!(authenticate_optional_at(Some(&header), SECRET, NOW).unwrap().sub, "id-9");
}

#[test]
fn bearer_prefix_is_exact() {
    assert_eq!(bearer_token("Bearer abc").unwrap(), "abc");
    assert_eq!(bearer_token("Bearer ").unwrap(), "");
    assert!(bearer_token("bearer abc").is_none());
    assert!(bearer_token("Bearerabc").is_none());
    assert!(bearer_token("").is_none());
}

#[test]
fn role_checks() {
    let mk = |sub: &str, role: &str| Claims { sub: sub.to_string(), email: "e".to_string(), role: role.to_string(), exp: 0, iat: 0 };
    assert!(require_admin(&mk("a", "admin")).is_ok());
    let e = require_admin(&mk("a", "user")).unwrap_err();
    assert!(matches!(e, AppError::Forbidden(_)));
    assert_eq!(e.status_code(), 403);
    assert!(can_access_user(&mk("a", "user"), "a"));
    assert!(!can_access_user(&mk("a", "user"), "b"));
    assert!(can_access_user(&mk("a", "admin"), "b"));
}

#[test]
fn role_names() {
    assert_eq!(UserRole::Admin.to_string(), "admin");
    assert_eq!(UserRole::User.to_string(), "user");
    assert_eq!(UserRole::Pending.to_string(), "pending");
    assert_eq!(UserRole::parse("pending"), Some(UserRole::Pending));
    assert_eq!(UserRole::parse("Admin"), None);
    assert_eq!(UserRole::default(), UserRole::Pending);
    assert!(UserRole::Admin.is_admin());
}

#[test]
fn backend_selection() {
    assert_eq!(backend_for_url("postgresql://u@h/db").unwrap(), Backend::Postgres);
    assert_eq!(backend_for_url("postgres://u@h/db").unwrap(), Backend::Postgres);
    assert_eq!(backend_for_url("sqlite:./data/webui.db").unwrap(), Backend::Sqlite);
    assert!(matches!(backend_for_url("mysql://h/db"), Err(AppError::DatabaseError(_))));
}

#[test]
fn error_statuses() {
    let s = |e: AppError| e.status_code();
    assert_eq!(s(AppError::DatabaseError("x".to_string())), 500);
    assert_eq!(s(AppError::NotFound("x".to_string())), 404);
    assert_eq!(s(AppError::InternalError("x".to_string())), 500);
    assert_eq!(s(AppError::BadRequest("x".to_string())), 400);
    assert_eq!(AppError::NotFound("gone".to_string()).message(), "gone");
}

#[test]
fn request_defaults() {
    assert_eq!(default_steps(), 20);
    assert_eq!(default_width(), 512);
    assert_eq!(default_height(), 512);
    assert_eq!(default_n(), 1);
    assert_eq!(default_limit(), 10);
    assert_eq!(default_top_k(), 5);
    assert_eq!(default_profile_image(), "/user.png");
}

#[test]
fn record_constructors() {
    let a = Auth::new("id".to_string(), "e@x.io".to_string(), "hash".to_string());
    assert!(a.active);
    assert_eq!(a.password, "hash");
    assert!(a.created_at > 1_600_000_000);
    let mut u = User::new("N".to_string(), "e@x.io".to_string(), UserRole::Pending, default_profile_image());
    let v = User::new("N".to_string(), "e@x.io".to_string(), UserRole::Pending, default_profile_image());
    assert_ne!(u.id, v.id);
    assert_eq!(u.id.len(), 36);
    assert!(u.api_key.is_none());
    u.generate_api_key();
    let key = u.api_key.clone().unwrap();
    assert!(key.starts_with("sk-"));
    assert_eq!(key.len(), 39);
    assert_eq!(u.name, "N");
}

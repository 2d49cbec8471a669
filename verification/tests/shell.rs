use service_shell::bot::Bot;
use service_shell::bot::HandlerFault;
use service_shell::bot::chat_startup;
use service_shell::config::ConfigError;
use service_shell::config::get_required;
use service_shell::config::load_required;
use service_shell::secrets::SecretStore;
use service_shell::web::HandlerKind;
use service_shell::web::HttpRequest;
use service_shell::web::Method;
use service_shell::web::Router;
use service_shell::web::hello_world;
use service_shell::web::web_startup;

fn request(method: Method, path: &str) -> HttpRequest {
    HttpRequest {
        method,
        path: path.to_string(),
        query: String::new(),
        headers: Vec::new(),
    }
}

#[test]
fn store_get_present() {
    let mut store = SecretStore::new();
    store.insert("DISCORD_TOKEN", "abc");
    assert_eq!(store.get("DISCORD_TOKEN"), Some("abc".to_string()));
}

#[test]
fn store_get_absent() {
    let mut store = SecretStore::new();
    store.insert("DISCORD_TOKEN", "abc");
    assert_eq!(store.get("GUILD_ID"), None);
    assert_eq!(SecretStore::new().get("DISCORD_TOKEN"), None);
}

#[test]
fn store_insert_overwrites() {
    let mut store = SecretStore::new();
    store.insert("GUILD_ID", "first");
    store.insert("GUILD_ID", "second");
    assert_eq!(store.get("GUILD_ID"), Some("second".to_string()));
}

#[test]
fn get_required_present() {
    let mut store = SecretStore::new();
    store.insert("GUILD_ID", "1234");
    assert_eq!(get_required(&store, "GUILD_ID"), Ok("1234".to_string()));
}

#[test]
fn get_required_missing() {
    let store = SecretStore::new();
    let err = get_required(&store, "GUILD_ID").unwrap_err();
    assert_eq!(err, ConfigError::MissingSecret("GUILD_ID".to_string()));
    assert_eq!(err.missing_key().as_str(), "GUILD_ID");
}

#[test]
fn load_required_all_present() {
    let mut store = SecretStore::new();
    store.insert("DISCORD_TOKEN", "t");
    store.insert("GUILD_ID", "g");
    let names = vec!["DISCORD_TOKEN".to_string(), "GUILD_ID".to_string()];
    assert_eq!(
        load_required(&store, &names),
        Ok(vec!["t".to_string(), "g".to_string()])
    );
}

#[test]
fn load_required_reports_first_missing() {
    let mut store = SecretStore::new();
    store.insert("OAUTH_CLIENT_ID", "a");
    let names = vec![
        "OAUTH_CLIENT_ID".to_string(),
        "OAUTH_CLIENT_SECRET".to_string(),
        "DISCORD_TOKEN".to_string(),
    ];
    assert_eq!(
        load_required(&store, &names),
        Err(ConfigError::MissingSecret("OAUTH_CLIENT_SECRET".to_string()))
    );
}

#[test]
fn load_required_no_names() {
    let store = SecretStore::new();
    assert_eq!(load_required(&store, &Vec::new()), Ok(Vec::new()));
}

#[test]
fn hello_world_response() {
    let resp = hello_world();
    assert_eq!(resp.status, 200);
    assert_eq!(resp.body, "Hello, world!");
}

#[test]
fn web_startup_builds_one_route() {
    let mut store = SecretStore::new();
    store.insert("OAUTH_CLIENT_ID", "a");
    store.insert("OAUTH_CLIENT_SECRET", "b");
    let app = web_startup(&store).ok().unwrap();
    assert_eq!(app.config.client_id, "a");
    assert_eq!(app.config.client_secret, "b");
    assert_eq!(app.router.len(), 1);
    let resp = app.router.handle(&request(Method::Get, "/")).unwrap();
    assert_eq!(resp.status, 200);
    assert_eq!(resp.body, "Hello, world!");
}

#[test]
fn root_get_ignores_headers_and_query() {
    let router = Router::new().route(Method::Get, "/", HandlerKind::HelloWorld);
    let req = HttpRequest {
        method: Method::Get,
        path: "/".to_string(),
        query: "lang=en&debug=1".to_string(),
        headers: vec![
            ("Accept".to_string(), "text/html".to_string()),
            ("X-Forwarded-For".to_string(), "203.0.113.9".to_string()),
        ],
    };
    let resp = router.handle(&req).unwrap();
    assert_eq!(resp.status, 200);
    assert_eq!(resp.body, "Hello, world!");
}

#[test]
fn router_unknown_path_is_unhandled() {
    let router = Router::new().route(Method::Get, "/", HandlerKind::HelloWorld);
    assert!(router.handle(&request(Method::Get, "/health")).is_none());
}

#[test]
fn router_other_method_is_unhandled() {
    let router = Router::new().route(Method::Get, "/", HandlerKind::HelloWorld);
    assert!(router.handle(&request(Method::Post, "/")).is_none());
}

#[test]
fn web_startup_missing_client_id() {
    let mut store = SecretStore::new();
    store.insert("OAUTH_CLIENT_SECRET", "b");
    assert_eq!(
        web_startup(&store).err().unwrap(),
        ConfigError::MissingSecret("OAUTH_CLIENT_ID".to_string())
    );
}

#[test]
fn web_startup_missing_client_secret() {
    let mut store = SecretStore::new();
    store.insert("OAUTH_CLIENT_ID", "a");
    assert_eq!(
        web_startup(&store).err().unwrap(),
        ConfigError::MissingSecret("OAUTH_CLIENT_SECRET".to_string())
    );
}

#[test]
fn ready_emits_exactly_one_log_line() {
    let bot = Bot { guild_id: "1234".to_string() };
    let logs = bot.ready();
    assert_eq!(logs.len(), 1);
    assert_eq!(
        logs[0],
        "The bot has successfully started and is now listening events..."
    );
}

#[test]
fn message_always_faults() {
    let bot = Bot { guild_id: "1234".to_string() };
    assert_eq!(bot.message(""), Err(HandlerFault::Unimplemented));
    assert_eq!(bot.message("hello"), Err(HandlerFault::Unimplemented));
    assert_eq!(
        bot.message("a very long message that still is not handled"),
        Err(HandlerFault::Unimplemented)
    );
}

#[test]
fn chat_startup_success() {
    let mut store = SecretStore::new();
    store.insert("DISCORD_TOKEN", "token-value");
    store.insert("GUILD_ID", "4242");
    let reg = chat_startup(&store).ok().unwrap();
    assert_eq!(reg.token, "token-value");
    assert_eq!(reg.handler.guild_id, "4242");
    assert!(reg.intents.guild_messages);
    assert!(reg.intents.message_content);
}

#[test]
fn chat_startup_missing_token() {
    let mut store = SecretStore::new();
    store.insert("GUILD_ID", "4242");
    let err = chat_startup(&store).err().unwrap();
    assert_eq!(err, ConfigError::MissingSecret("DISCORD_TOKEN".to_string()));
    assert_eq!(err.missing_key().as_str(), "DISCORD_TOKEN");
}

#[test]
fn chat_startup_missing_guild_id() {
    let mut store = SecretStore::new();
    store.insert("DISCORD_TOKEN", "t");
    assert_eq!(
        chat_startup(&store).err().unwrap(),
        ConfigError::MissingSecret("GUILD_ID".to_string())
    );
}

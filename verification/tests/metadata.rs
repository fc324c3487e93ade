use anni::metadata::{init_metadata, LazyDb, MetadataConfig, ProxySetup, RepoAction};

fn config(pull: bool, proxy: Option<&str>) -> MetadataConfig {
    MetadataConfig {
        repo: "https://example.org/repo.git".to_string(),
        branch: "master".to_string(),
        base: "/data".to_string(),
        pull,
        proxy: proxy.map(|p| p.to_string()),
    }
}

#[test]
fn missing_working_copy_is_cloned() {
    assert_eq!(init_metadata(&config(true, None), false), RepoAction::Clone);
    assert_eq!(init_metadata(&config(false, None), false), RepoAction::Clone);
}

#[test]
fn existing_working_copy_is_pulled_if_asked_for() {
    assert_eq!(init_metadata(&config(true, None), true), RepoAction::Pull);
}

#[test]
fn existing_working_copy_is_loaded_otherwise() {
    assert_eq!(init_metadata(&config(false, None), true), RepoAction::Load);
}

#[test]
fn working_copy_and_database_lie_below_the_base() {
    let config = config(false, None);
    let base = std::path::Path::new("/data");
    assert_eq!(std::path::Path::new(&config.repo_root()), base.join("repo"));
    assert_eq!(std::path::Path::new(&config.database_path()), base.join("repo.db"));
    assert_ne!(config.repo_root(), config.database_path());
}

#[test]
fn proxy_setup_follows_the_configuration() {
    assert_eq!(config(true, None).proxy_setup(), ProxySetup::Default);
    assert_eq!(config(true, Some("")).proxy_setup(), ProxySetup::Direct);
    assert_eq!(
        config(true, Some("socks5://127.0.0.1:1080")).proxy_setup(),
        ProxySetup::Through("socks5://127.0.0.1:1080".to_string())
    );
}

#[test]
fn duplicate_of_a_configuration_is_equal() {
    let config = config(true, Some("p"));
    assert_eq!(config.duplicate(), config);
}

#[test]
fn database_is_made_once() {
    let mut db = LazyDb::new(&config(true, None));
    let mut calls = 0;
    let first = db.open(|metadata| {
        calls += 1;
        Ok::<String, String>(format!("{}/repo.db", metadata.base))
    });
    assert_eq!(first, Ok("/data/repo.db".to_string()));
    let second = db.open(|_| {
        calls += 1;
        Ok::<String, String>("elsewhere".to_string())
    });
    assert_eq!(second, Ok("/data/repo.db".to_string()));
    assert_eq!(calls, 1);
}

#[test]
fn failure_to_make_the_database_is_not_remembered() {
    let mut db = LazyDb::new(&config(true, None));
    let failed = db.open(|_| Err::<String, String>("no network".to_string()));
    assert_eq!(failed, Err("no network".to_string()));
    let made = db.open(|_| Ok::<String, String>("/data/repo.db".to_string()));
    assert_eq!(made, Ok("/data/repo.db".to_string()));
    let again = db.open(|_| Err::<String, String>("no network".to_string()));
    assert_eq!(again, Ok("/data/repo.db".to_string()));
}

#[test]
fn lazy_database_keeps_its_configuration() {
    let config = config(false, Some("proxy"));
    let mut db = LazyDb::new(&config);
    let seen = db.open(|metadata| Ok::<String, String>(format!("{:?}", metadata)));
    assert_eq!(seen, Ok(format!("{:?}", config)));
}

#[test]
fn working_copy_and_database_have_their_names_below_the_base() {
    let config = config(false, None);
    let separator = std::path::MAIN_SEPARATOR;
    assert_eq!(config.repo_root(), format!("/data{}repo", separator));
    assert_eq!(config.database_path(), format!("/data{}repo.db", separator));
}

#[test]
fn working_copy_below_a_base_that_ends_in_a_separator() {
    let mut config = config(false, None);
    config.base = "/data/".to_string();
    assert_eq!(config.repo_root(), "/data/repo");
    assert_eq!(config.database_path(), "/data/repo.db");
}

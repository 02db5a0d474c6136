use miniserver::admin::AdminCommand;
use miniserver::admin::AdminOutcome;
use miniserver::admin::apply_command;
use miniserver::admin::outcome_message;
use miniserver::admin::parse_command;
use miniserver::cache::CacheMap;

fn key(s: &str) -> String {
    s.to_string()
}

#[test]
fn admin_parse_reload_bare() {
    assert!(matches!(parse_command("reload"), AdminCommand::ReloadAll));
    assert!(matches!(parse_command("reload\n"), AdminCommand::ReloadAll));
    assert!(matches!(parse_command("  reload  "), AdminCommand::ReloadAll));
}

#[test]
fn admin_parse_reload_star_and_all() {
    assert!(matches!(parse_command("reload *"), AdminCommand::ReloadAll));
    assert!(matches!(parse_command("reload all"), AdminCommand::ReloadAll));
    assert!(matches!(parse_command("reload *\n"), AdminCommand::ReloadAll));
}

#[test]
fn admin_parse_reload_named_key() {
    match parse_command("reload style.css") {
        AdminCommand::ReloadKey(k) => assert_eq!(k, "style.css"),
        _ => panic!("expected a single-key reload"),
    }
    match parse_command("reload a b") {
        AdminCommand::ReloadKey(k) => assert_eq!(k, "a"),
        _ => panic!("expected a single-key reload"),
    }
}

#[test]
fn admin_parse_unicode_whitespace_separates_tokens() {
    // no-break space, em space and ideographic space separate tokens,
    // exactly as char::is_whitespace sees them
    assert!(matches!(parse_command("reload\u{A0}*"), AdminCommand::ReloadAll));
    assert!(matches!(parse_command("reload\u{3000}all"), AdminCommand::ReloadAll));
    match parse_command("reload\u{2003}style.css") {
        AdminCommand::ReloadKey(k) => assert_eq!(k, "style.css"),
        _ => panic!("expected a single-key reload"),
    }
    assert!(matches!(parse_command("\u{2028}exit"), AdminCommand::Exit));
}

#[test]
fn admin_parse_exit_and_unknown() {
    assert!(matches!(parse_command("exit"), AdminCommand::Exit));
    assert!(matches!(parse_command("exit now"), AdminCommand::Exit));
    assert!(matches!(parse_command(""), AdminCommand::Unknown));
    assert!(matches!(parse_command("   "), AdminCommand::Unknown));
    assert!(matches!(parse_command("restart"), AdminCommand::Unknown));
    assert!(matches!(parse_command("reloadall"), AdminCommand::Unknown));
}

#[test]
fn admin_reload_forms_all_empty_the_cache() {
    for line in ["reload", "reload *", "reload all"] {
        let mut cache = CacheMap::new();
        cache.insert(key("/a"), b"alpha".to_vec());
        cache.insert(key("/b"), b"beta".to_vec());
        let cmd = parse_command(line);
        let outcome = apply_command(&mut cache, cmd);
        assert!(matches!(outcome, AdminOutcome::Cleared));
        assert_eq!(cache.len(), 0);
        assert!(cache.lookup(&key("/a")).is_none());
    }
}

#[test]
fn admin_reload_named_removes_only_that_key() {
    let mut cache = CacheMap::new();
    cache.insert(key("/a"), b"alpha".to_vec());
    cache.insert(key("/b"), b"beta".to_vec());
    let outcome = apply_command(&mut cache, parse_command("reload /a"));
    match outcome {
        AdminOutcome::Removed(k) => assert_eq!(k, "/a"),
        _ => panic!("expected a removal"),
    }
    assert!(cache.lookup(&key("/a")).is_none());
    assert_eq!(cache.lookup(&key("/b")), Some(b"beta".to_vec()));
}

#[test]
fn admin_reload_missing_key_reports_and_keeps_cache_empty() {
    let mut cache = CacheMap::new();
    let outcome = apply_command(&mut cache, parse_command("reload missing-key"));
    assert!(matches!(outcome, AdminOutcome::NoSuchAsset));
    assert_eq!(outcome_message(&outcome), "No such asset");
    assert_eq!(cache.len(), 0);
}

#[test]
fn admin_exit_and_unknown_leave_cache_alone() {
    let mut cache = CacheMap::new();
    cache.insert(key("/a"), b"alpha".to_vec());
    assert!(matches!(
        apply_command(&mut cache, AdminCommand::Exit),
        AdminOutcome::Terminate
    ));
    assert!(matches!(
        apply_command(&mut cache, AdminCommand::Unknown),
        AdminOutcome::UnknownOperation
    ));
    assert_eq!(cache.lookup(&key("/a")), Some(b"alpha".to_vec()));
}

#[test]
fn admin_outcome_messages() {
    assert_eq!(outcome_message(&AdminOutcome::Cleared), "Cache cleared");
    assert_eq!(
        outcome_message(&AdminOutcome::Removed(key("style.css"))),
        "removed style.css"
    );
    assert_eq!(outcome_message(&AdminOutcome::NoSuchAsset), "No such asset");
    assert_eq!(outcome_message(&AdminOutcome::Terminate), "Shutting down");
    assert_eq!(
        outcome_message(&AdminOutcome::UnknownOperation),
        "unknown operation"
    );
}

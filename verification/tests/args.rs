use miniserver::args::Args;
use miniserver::args::ArgsOutcome;
use miniserver::args::host_address;
use miniserver::args::options_text;
use miniserver::args::parse_usize;
use miniserver::args::start_text;
use miniserver::args::usage_text;

fn argv(words: &[&str]) -> Vec<String> {
    words.iter().map(|w| w.to_string()).collect()
}

#[test]
fn args_defaults() {
    let a = Args::new();
    assert_eq!(a.port(), "8080");
    assert_eq!(a.daemon(), "");
    assert_eq!(a.threads(), 10);
    assert_eq!(a.service(), "");
    assert!(!a.has_service());
    assert!(a.wants_console());
}

#[test]
fn args_port_and_threads() {
    let mut a = Args::new();
    let out = a.process(&argv(&["prog", "--port", "9090", "-t", "4"]));
    assert_eq!(out, ArgsOutcome::Proceed);
    assert_eq!(a.port(), "9090");
    assert_eq!(a.threads(), 4);
}

#[test]
fn args_short_port_flag() {
    let mut a = Args::new();
    assert_eq!(a.process(&argv(&["prog", "-p", "81"])), ArgsOutcome::Proceed);
    assert_eq!(a.port(), "81");
}

#[test]
fn args_daemon_words() {
    let mut a = Args::new();
    assert_eq!(a.process(&argv(&["prog", "--daemon"])), ArgsOutcome::Proceed);
    assert_eq!(a.daemon(), "--daemon");
    assert!(a.wants_console());

    let mut b = Args::new();
    assert_eq!(b.process(&argv(&["prog", "daemon-child"])), ArgsOutcome::Proceed);
    assert_eq!(b.daemon(), "daemon-child");
    assert!(!b.wants_console());
}

#[test]
fn args_service_flag() {
    let mut a = Args::new();
    assert_eq!(
        a.process(&argv(&["prog", "--service", "./svc"])),
        ArgsOutcome::Proceed
    );
    assert_eq!(a.service(), "./svc");
    assert!(a.has_service());
}

#[test]
fn args_help_stops_the_scan() {
    let mut a = Args::new();
    assert_eq!(
        a.process(&argv(&["prog", "--help", "--port", "9"])),
        ArgsOutcome::Help
    );
    // the scan stopped before --port
    assert_eq!(a.port(), "8080");
    let mut b = Args::new();
    assert_eq!(b.process(&argv(&["prog", "-h"])), ArgsOutcome::Help);
}

#[test]
fn args_missing_operands() {
    let mut a = Args::new();
    assert_eq!(a.process(&argv(&["prog", "--port"])), ArgsOutcome::MissingPort);
    let mut b = Args::new();
    assert_eq!(b.process(&argv(&["prog", "-t"])), ArgsOutcome::MissingThreads);
    let mut c = Args::new();
    assert_eq!(
        c.process(&argv(&["prog", "--service"])),
        ArgsOutcome::MissingService
    );
}

#[test]
fn args_bad_thread_count() {
    let mut a = Args::new();
    assert_eq!(
        a.process(&argv(&["prog", "-t", "many"])),
        ArgsOutcome::BadThreadCount
    );
    assert_eq!(a.threads(), 10);
}

#[test]
fn args_operand_is_scanned_again() {
    // A flag's operand is read, and the scan then revisits it as a word:
    // "--port -p 7" first sets the port to "-p", then "-p" sets it to "7".
    let mut a = Args::new();
    assert_eq!(
        a.process(&argv(&["prog", "--port", "-p", "7"])),
        ArgsOutcome::Proceed
    );
    assert_eq!(a.port(), "7");
}

#[test]
fn args_unknown_words_are_ignored() {
    let mut a = Args::new();
    assert_eq!(
        a.process(&argv(&["prog", "whatever", "--port", "82", "rest"])),
        ArgsOutcome::Proceed
    );
    assert_eq!(a.port(), "82");
}

#[test]
fn parse_usize_accepts_plain_and_signed_digits() {
    assert_eq!(parse_usize("0"), Some(0));
    assert_eq!(parse_usize("123"), Some(123));
    assert_eq!(parse_usize("+10"), Some(10));
}

#[test]
fn parse_usize_rejects_junk() {
    assert_eq!(parse_usize(""), None);
    assert_eq!(parse_usize("+"), None);
    assert_eq!(parse_usize("-1"), None);
    assert_eq!(parse_usize("1 "), None);
    assert_eq!(parse_usize(" 1"), None);
    assert_eq!(parse_usize("12x"), None);
    assert_eq!(parse_usize("1.5"), None);
}

#[test]
fn parse_usize_handles_the_largest_value() {
    let max = usize::MAX.to_string();
    assert_eq!(parse_usize(&max), Some(usize::MAX));
    // one digit more overflows
    let over = format!("{}0", max);
    assert_eq!(parse_usize(&over), None);
}

#[test]
fn host_address_forms() {
    assert_eq!(host_address(&"".to_string()), "0.0.0.0:8080");
    assert_eq!(host_address(&"9090".to_string()), "0.0.0.0:9090");
}

#[test]
fn banner_texts_mention_their_subjects() {
    assert!(usage_text().contains("--port"));
    assert!(start_text().contains("Starting minimal webserver"));
    assert!(options_text().contains("reload"));
    assert!(options_text().contains("exit"));
}

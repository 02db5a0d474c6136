//! Command-line configuration: the server's port, daemon mode, worker
//! count and optional sidecar service, filled from an argument list.
//!
//! A flag that takes an operand reads the following list element and the
//! scan continues right after the flag itself, so the operand is seen again
//! as an ordinary word — as the server has always behaved.

use vstd::prelude::*;
use vstd::string::StrSliceExecFns;
use vstd::string::StringExecFns;

verus! {

/// Server configuration.
pub struct Args {
    pub port: String,
    pub daemon: String,
    pub threads: usize,
    pub service: String,
}

/// The mathematical form of the configuration.
pub struct ArgsModel {
    pub port: Seq<char>,
    pub daemon: Seq<char>,
    pub threads: usize,
    pub service: Seq<char>,
}

impl View for Args {
    type V = ArgsModel;

    open spec fn view(&self) -> ArgsModel {
        ArgsModel {
            port: self.port@,
            daemon: self.daemon@,
            threads: self.threads,
            service: self.service@,
        }
    }
}

/// How an argument scan ends: ready to run, asked for the help text, or
/// stopped at a flag whose operand is missing or unusable.
#[derive(Clone, Copy, Debug, PartialEq, Eq, Structural)]
pub enum ArgsOutcome {
    /// All arguments consumed; start the server.
    Proceed,
    /// `--help` or `-h`: print the usage text and stop.
    Help,
    /// `--port` or `-p` with nothing after it.
    MissingPort,
    /// `-t` with nothing after it.
    MissingThreads,
    /// `-t` with an operand that is not an unsigned decimal count.
    BadThreadCount,
    /// `--service` with nothing after it.
    MissingService,
}

/// Digit in the decimal sense.
pub open spec fn is_ascii_digit(c: char) -> bool {
    48 <= c as int && c as int <= 57
}

/// Numeric value of one decimal digit.
pub open spec fn digit_value(c: char) -> int {
    c as int - 48
}

/// Value of a digit string read left to right.
pub open spec fn digits_value(s: Seq<char>) -> int
    decreases s.len(),
{
    if s.len() == 0 {
        0
    } else {
        10 * digits_value(s.drop_last()) + digit_value(s.last())
    }
}

/// Every character is a decimal digit.
pub open spec fn all_digits(s: Seq<char>) -> bool {
    forall|i: int| 0 <= i < s.len() ==> is_ascii_digit(s[i])
}

/// What parsing an unsigned decimal count from `s` yields: the digits'
/// value after an optional leading `+`, provided there is at least one
/// digit, nothing else, and the value fits; `None` otherwise.
pub open spec fn usize_value_model(s: Seq<char>) -> Option<usize> {
    let body = if s.len() > 0 && s[0] == '+' {
        s.skip(1)
    } else {
        s
    };
    if body.len() > 0 && all_digits(body) && digits_value(body) <= usize::MAX as int {
        Some(digits_value(body) as usize)
    } else {
        None
    }
}

pub proof fn lemma_digits_value_nonneg(s: Seq<char>)
    requires
        all_digits(s),
    ensures
        digits_value(s) >= 0,
    decreases s.len(),
{
    if s.len() > 0 {
        assert(all_digits(s.drop_last()));
        lemma_digits_value_nonneg(s.drop_last());
    }
}

/// A digit string is worth at least any of its prefixes: appending digits
/// never shrinks the value.
pub proof fn lemma_digits_value_prefix_le(s: Seq<char>, i: int)
    requires
        all_digits(s),
        0 <= i <= s.len(),
    ensures
        digits_value(s.subrange(0, i)) <= digits_value(s),
    decreases s.len() - i,
{
    if i == s.len() {
        assert(s.subrange(0, i) =~= s);
    } else {
        assert(s.subrange(0, i + 1).drop_last() =~= s.subrange(0, i));
        assert(all_digits(s.subrange(0, i)));
        lemma_digits_value_nonneg(s.subrange(0, i));
        assert(digits_value(s.subrange(0, i + 1)) == 10 * digits_value(s.subrange(0, i))
            + digit_value(s[i]));
        lemma_digits_value_prefix_le(s, i + 1);
    }
}

/// Parses an unsigned decimal count, as the thread-count operand is read.
pub fn parse_usize(s: &str) -> (r: Option<usize>)
    ensures
        r == usize_value_model(s@),
{
    let n = s.unicode_len();
    let mut start: usize = 0;
    if n > 0 && s.get_char(0) == '+' {
        start = 1;
    }
    let ghost body = if s@.len() > 0 && s@[0] == '+' {
        s@.skip(1)
    } else {
        s@
    };
    proof {
        assert(body =~= s@.subrange(start as int, n as int));
    }
    if start == n {
        return None;
    }
    let mut acc: usize = 0;
    let mut i = start;
    while i < n
        invariant
            n == s@.len(),
            start <= i <= n,
            start < n,
            body == (if s@.len() > 0 && s@[0] == '+' {
                s@.skip(1)
            } else {
                s@
            }),
            body == s@.subrange(start as int, n as int),
            forall|t: int| start <= t < i ==> is_ascii_digit(s@[t]),
            acc == digits_value(s@.subrange(start as int, i as int)),
        decreases n - i,
    {
        let c = s.get_char(i);
        let cv = c as u32;
        if cv < 48 || cv > 57 {
            proof {
                assert(body[i - start] == s@[i as int]);
                assert(!all_digits(body));
            }
            return None;
        }
        let d = (cv - 48) as usize;
        let wide: u128 = acc as u128 * 10 + d as u128;
        proof {
            assert(s@.subrange(start as int, i as int + 1).drop_last() =~= s@.subrange(
                start as int,
                i as int,
            ));
            assert(digits_value(s@.subrange(start as int, i as int + 1)) == 10 * acc + d);
        }
        if wide > usize::MAX as u128 {
            proof {
                if all_digits(body) {
                    assert(body.subrange(0, i as int + 1 - start) =~= s@.subrange(
                        start as int,
                        i as int + 1,
                    ));
                    lemma_digits_value_prefix_le(body, i as int + 1 - start);
                }
            }
            return None;
        }
        acc = wide as usize;
        i = i + 1;
    }
    proof {
        assert(s@.subrange(start as int, n as int) =~= body);
        assert(all_digits(body));
    }
    Some(acc)
}

/// The list element at `i`, as characters.
pub open spec fn argv_model(argv: Seq<String>) -> Seq<Seq<char>> {
    argv.map_values(|a: String| a@)
}

/// The configuration and outcome that scanning `argv` from position `i`
/// leaves behind, starting from configuration `m`. The whole-list scan is
/// `process_model(argv, 0, m)`.
pub open spec fn process_model(argv: Seq<Seq<char>>, i: int, m: ArgsModel) -> (ArgsModel,
    ArgsOutcome)
    decreases argv.len() - i when 0 <= i <= argv.len()
{
    if i >= argv.len() {
        (m, ArgsOutcome::Proceed)
    } else {
        let a = argv[i];
        if a == "--port"@ || a == "-p"@ {
            if i + 1 < argv.len() {
                process_model(argv, i + 1, ArgsModel { port: argv[i + 1], ..m })
            } else {
                (m, ArgsOutcome::MissingPort)
            }
        } else if a == "-t"@ {
            if i + 1 < argv.len() {
                match usize_value_model(argv[i + 1]) {
                    Some(t) => process_model(argv, i + 1, ArgsModel { threads: t, ..m }),
                    None => (m, ArgsOutcome::BadThreadCount),
                }
            } else {
                (m, ArgsOutcome::MissingThreads)
            }
        } else if a == "--daemon"@ || a == "daemon-child"@ {
            process_model(argv, i + 1, ArgsModel { daemon: a, ..m })
        } else if a == "--help"@ || a == "-h"@ {
            (m, ArgsOutcome::Help)
        } else if a == "--service"@ {
            if i + 1 < argv.len() {
                process_model(argv, i + 1, ArgsModel { service: argv[i + 1], ..m })
            } else {
                (m, ArgsOutcome::MissingService)
            }
        } else {
            process_model(argv, i + 1, m)
        }
    }
}

fn matches_word(a: &String, w: &str) -> (r: bool)
    ensures
        r == (a@ == w@),
{
    let owned = w.to_owned();
    *a == owned
}

impl Args {
    /// The defaults: port 8080, no daemon mode, ten workers, no sidecar.
    pub fn new() -> (r: Self)
        ensures
            r@.port == "8080"@,
            r@.daemon == Seq::<char>::empty(),
            r@.threads == 10,
            r@.service == Seq::<char>::empty(),
    {
        Args {
            port: String::from_str("8080"),
            daemon: String::new(),
            threads: 10,
            service: String::new(),
        }
    }

    pub fn port(&self) -> (r: &String)
        ensures
            r@ == self@.port,
    {
        &self.port
    }

    pub fn daemon(&self) -> (r: &String)
        ensures
            r@ == self@.daemon,
    {
        &self.daemon
    }

    pub fn threads(&self) -> (r: usize)
        ensures
            r == self@.threads,
    {
        self.threads
    }

    pub fn service(&self) -> (r: &String)
        ensures
            r@ == self@.service,
    {
        &self.service
    }

    /// Whether a sidecar service was asked for.
    pub fn has_service(&self) -> (r: bool)
        ensures
            r == (self@.service.len() != 0),
    {
        !self.service.as_str().is_empty()
    }

    /// Whether the admin console should run: everywhere except in the
    /// re-spawned daemon child, which has no terminal of its own.
    pub fn wants_console(&self) -> (r: bool)
        ensures
            r == (self@.daemon != "daemon-child"@),
    {
        let child = String::from_str("daemon-child");
        !(self.daemon == child)
    }

    /// Scans the argument list (the program name at position 0, as handed
    /// to the process) and fills the configuration. Stops early at
    /// `--help`/`-h` or at a flag with a missing or unusable operand; the
    /// outcome says which.
    pub fn process(&mut self, argv: &Vec<String>) -> (r: ArgsOutcome)
        ensures
            ({
                let (m, out) = process_model(argv_model(argv@), 0, old(self)@);
                final(self)@ == m && r == out
            }),
    {
        let ghost am = argv_model(argv@);
        let n = argv.len();
        let mut i: usize = 0;
        while i < n
            invariant
                n == argv.len(),
                am == argv_model(argv@),
                i <= n,
                process_model(am, 0, old(self)@) == process_model(am, i as int, self@),
            decreases n - i,
        {
            let ghost pre = self@;
            let a = &argv[i];
            if matches_word(a, "--port") || matches_word(a, "-p") {
                if i + 1 < n {
                    self.port = argv[i + 1].clone();
                } else {
                    return ArgsOutcome::MissingPort;
                }
            } else if matches_word(a, "-t") {
                if i + 1 < n {
                    match parse_usize(argv[i + 1].as_str()) {
                        Some(t) => {
                            self.threads = t;
                        },
                        None => {
                            return ArgsOutcome::BadThreadCount;
                        },
                    }
                } else {
                    return ArgsOutcome::MissingThreads;
                }
            } else if matches_word(a, "--daemon") || matches_word(a, "daemon-child") {
                self.daemon = a.clone();
            } else if matches_word(a, "--help") || matches_word(a, "-h") {
                return ArgsOutcome::Help;
            } else if matches_word(a, "--service") {
                if i + 1 < n {
                    self.service = argv[i + 1].clone();
                } else {
                    return ArgsOutcome::MissingService;
                }
            }
            proof {
                assert(process_model(am, i as int, pre) == process_model(am, i as int + 1, self@));
            }
            i = i + 1;
        }
        ArgsOutcome::Proceed
    }
}

/// The listener address for a configured port; an empty port falls back to
/// the default.
pub fn host_address(port: &String) -> (r: String)
    ensures
        port@.len() == 0 ==> r@ == "0.0.0.0:8080"@,
        port@.len() != 0 ==> r@ == "0.0.0.0:"@ + port@,
{
    if port.as_str().is_empty() {
        String::from_str("0.0.0.0:8080")
    } else {
        String::from_str("0.0.0.0:").concat(port.as_str())
    }
}

/// The usage banner.
pub fn usage_text() -> (r: String)
    ensures
        r@ == "\nUsage: [-p | --port PORT] [--daemon] [--help | -h] [-t MAX_THREADS]\nDefaults to 8080.\n"@,
{
    String::from_str(
        "\nUsage: [-p | --port PORT] [--daemon] [--help | -h] [-t MAX_THREADS]\nDefaults to 8080.\n",
    )
}

/// The startup banner.
pub fn start_text() -> (r: String)
    ensures
        r@ == "\nStarting minimal webserver"@,
{
    String::from_str("\nStarting minimal webserver")
}

/// The console's own usage text.
pub fn options_text() -> (r: String)
    ensures
        r@ == "\nCommandline options:\nreload [NAME] - remove an ressource from the cache.\nreload * - remove all ressources from the cache.\nreload all - remove all ressources from the cache.\nreload - remove all ressources from the cache.\nexit - terminate the server.\n"@,
{
    String::from_str(
        "\nCommandline options:\nreload [NAME] - remove an ressource from the cache.\nreload * - remove all ressources from the cache.\nreload all - remove all ressources from the cache.\nreload - remove all ressources from the cache.\nexit - terminate the server.\n",
    )
}

} // verus!

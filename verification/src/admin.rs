//! The operator console: parses one command line and applies it to the
//! cache.
//!
//! Commands: `reload <name>` drops one key; `reload`, `reload *` and
//! `reload all` drop everything; `exit` asks for shutdown; anything else is
//! reported as an unknown operation and the console carries on.

use vstd::prelude::*;
use vstd::string::StrSliceExecFns;
use vstd::string::StringExecFns;
use crate::cache::CacheMap;
use crate::cache::lookup_model;
use crate::dispatch::needs_asset_read;
use crate::lifecycle::shutdown_message;

verus! {

/// Whitespace, the separator of the console's token grammar: the Unicode
/// White_Space set, exactly the characters `char::is_whitespace` accepts.
pub open spec fn is_space(c: char) -> bool {
    let v = c as int;
    (9 <= v && v <= 13) || v == 32 || v == 0x85 || v == 0xA0 || v == 0x1680 || (0x2000 <= v && v
        <= 0x200A) || v == 0x2028 || v == 0x2029 || v == 0x202F || v == 0x205F || v == 0x3000
}

/// First position at or after `i` that is not whitespace (or the end).
pub open spec fn skip_spaces(s: Seq<char>, i: int) -> int
    decreases s.len() - i when 0 <= i <= s.len()
{
    if i < s.len() && is_space(s[i]) {
        skip_spaces(s, i + 1)
    } else {
        i
    }
}

/// First position at or after `i` that is whitespace (or the end).
pub open spec fn token_end(s: Seq<char>, i: int) -> int
    decreases s.len() - i when 0 <= i <= s.len()
{
    if i < s.len() && !is_space(s[i]) {
        token_end(s, i + 1)
    } else {
        i
    }
}

/// Start of the first whitespace-separated token.
pub open spec fn first_start(s: Seq<char>) -> int {
    skip_spaces(s, 0)
}

/// End of the first whitespace-separated token.
pub open spec fn first_end(s: Seq<char>) -> int {
    token_end(s, first_start(s))
}

/// The first whitespace-separated token (empty when the line is blank).
pub open spec fn first_token(s: Seq<char>) -> Seq<char> {
    s.subrange(first_start(s), first_end(s))
}

/// Start of the second whitespace-separated token.
pub open spec fn second_start(s: Seq<char>) -> int {
    skip_spaces(s, first_end(s))
}

/// End of the second whitespace-separated token.
pub open spec fn second_end(s: Seq<char>) -> int {
    token_end(s, second_start(s))
}

/// Whether the line has a second token at all.
pub open spec fn has_second_token(s: Seq<char>) -> bool {
    second_start(s) < s.len()
}

/// The second whitespace-separated token.
pub open spec fn second_token(s: Seq<char>) -> Seq<char> {
    s.subrange(second_start(s), second_end(s))
}

/// One parsed console command.
pub enum AdminCommand {
    /// `reload`, `reload *` or `reload all`: drop every cached entry.
    ReloadAll,
    /// `reload <name>`: drop the named key only.
    ReloadKey(String),
    /// `exit`: shut the server down.
    Exit,
    /// Anything else.
    Unknown,
}

/// The mathematical form of a command.
pub enum CommandModel {
    ReloadAll,
    ReloadKey(Seq<char>),
    Exit,
    Unknown,
}

impl View for AdminCommand {
    type V = CommandModel;

    open spec fn view(&self) -> CommandModel {
        match self {
            AdminCommand::ReloadAll => CommandModel::ReloadAll,
            AdminCommand::ReloadKey(k) => CommandModel::ReloadKey(k@),
            AdminCommand::Exit => CommandModel::Exit,
            AdminCommand::Unknown => CommandModel::Unknown,
        }
    }
}

/// What one line of console input means. Only the first two tokens count;
/// anything after them is ignored.
pub open spec fn parse_model(s: Seq<char>) -> CommandModel {
    if first_token(s) == "reload"@ {
        if !has_second_token(s) {
            CommandModel::ReloadAll
        } else if second_token(s) == "*"@ || second_token(s) == "all"@ {
            CommandModel::ReloadAll
        } else {
            CommandModel::ReloadKey(second_token(s))
        }
    } else if first_token(s) == "exit"@ {
        CommandModel::Exit
    } else {
        CommandModel::Unknown
    }
}

fn is_space_char(c: char) -> (r: bool)
    ensures
        r == is_space(c),
{
    let v = c as u32;
    (9 <= v && v <= 13) || v == 32 || v == 0x85 || v == 0xA0 || v == 0x1680 || (0x2000 <= v && v
        <= 0x200A) || v == 0x2028 || v == 0x2029 || v == 0x202F || v == 0x205F || v == 0x3000
}

/// Parses one console line into a command.
pub fn parse_command(line: &str) -> (c: AdminCommand)
    ensures
        c@ == parse_model(line@),
{
    let ghost s = line@;
    let n = line.unicode_len();
    let mut i: usize = 0;
    while i < n && is_space_char(line.get_char(i))
        invariant
            s == line@,
            n == s.len(),
            i <= n,
            skip_spaces(s, 0) == skip_spaces(s, i as int),
        decreases n - i,
    {
        proof {
            assert(skip_spaces(s, i as int) == skip_spaces(s, i as int + 1));
        }
        i = i + 1;
    }
    let t1s = i;
    proof {
        assert(skip_spaces(s, t1s as int) == t1s as int);
        assert(first_start(s) == t1s as int);
    }
    while i < n && !is_space_char(line.get_char(i))
        invariant
            s == line@,
            n == s.len(),
            t1s <= i <= n,
            first_start(s) == t1s as int,
            token_end(s, t1s as int) == token_end(s, i as int),
        decreases n - i,
    {
        proof {
            assert(token_end(s, i as int) == token_end(s, i as int + 1));
        }
        i = i + 1;
    }
    let t1e = i;
    proof {
        assert(token_end(s, i as int) == i as int);
        assert(first_end(s) == t1e as int);
    }
    while i < n && is_space_char(line.get_char(i))
        invariant
            s == line@,
            n == s.len(),
            t1e <= i <= n,
            first_end(s) == t1e as int,
            skip_spaces(s, t1e as int) == skip_spaces(s, i as int),
        decreases n - i,
    {
        proof {
            assert(skip_spaces(s, i as int) == skip_spaces(s, i as int + 1));
        }
        i = i + 1;
    }
    let t2s = i;
    proof {
        assert(skip_spaces(s, i as int) == i as int);
        assert(second_start(s) == t2s as int);
    }
    while i < n && !is_space_char(line.get_char(i))
        invariant
            s == line@,
            n == s.len(),
            t2s <= i <= n,
            second_start(s) == t2s as int,
            token_end(s, t2s as int) == token_end(s, i as int),
        decreases n - i,
    {
        proof {
            assert(token_end(s, i as int) == token_end(s, i as int + 1));
        }
        i = i + 1;
    }
    let t2e = i;
    proof {
        assert(token_end(s, i as int) == i as int);
        assert(second_end(s) == t2e as int);
    }
    let tok1 = line.substring_char(t1s, t1e).to_owned();
    let reload = String::from_str("reload");
    if tok1 == reload {
        if t2s == n {
            AdminCommand::ReloadAll
        } else {
            let tok2 = line.substring_char(t2s, t2e).to_owned();
            let star = String::from_str("*");
            let all = String::from_str("all");
            if tok2 == star || tok2 == all {
                AdminCommand::ReloadAll
            } else {
                AdminCommand::ReloadKey(tok2)
            }
        }
    } else {
        let exit_word = String::from_str("exit");
        if tok1 == exit_word {
            AdminCommand::Exit
        } else {
            AdminCommand::Unknown
        }
    }
}

/// What the console reports after applying a command.
pub enum AdminOutcome {
    /// The whole cache was emptied.
    Cleared,
    /// The named key was present and is gone now.
    Removed(String),
    /// The named key was not cached; nothing changed.
    NoSuchAsset,
    /// The operator asked for shutdown.
    Terminate,
    /// The line was not a command; nothing changed.
    UnknownOperation,
}

/// The mathematical form of an outcome.
pub enum OutcomeModel {
    Cleared,
    Removed(Seq<char>),
    NoSuchAsset,
    Terminate,
    UnknownOperation,
}

impl View for AdminOutcome {
    type V = OutcomeModel;

    open spec fn view(&self) -> OutcomeModel {
        match self {
            AdminOutcome::Cleared => OutcomeModel::Cleared,
            AdminOutcome::Removed(k) => OutcomeModel::Removed(k@),
            AdminOutcome::NoSuchAsset => OutcomeModel::NoSuchAsset,
            AdminOutcome::Terminate => OutcomeModel::Terminate,
            AdminOutcome::UnknownOperation => OutcomeModel::UnknownOperation,
        }
    }
}

/// The cache state a command leaves behind.
pub open spec fn apply_model(
    m: Map<Seq<char>, Seq<u8>>,
    c: CommandModel,
) -> Map<Seq<char>, Seq<u8>> {
    match c {
        CommandModel::ReloadAll => Map::<Seq<char>, Seq<u8>>::empty(),
        CommandModel::ReloadKey(k) => m.remove(k),
        CommandModel::Exit => m,
        CommandModel::Unknown => m,
    }
}

/// The report a command produces against cache state `m`.
pub open spec fn outcome_model(m: Map<Seq<char>, Seq<u8>>, c: CommandModel) -> OutcomeModel {
    match c {
        CommandModel::ReloadAll => OutcomeModel::Cleared,
        CommandModel::ReloadKey(k) => if m.contains_key(k) {
            OutcomeModel::Removed(k)
        } else {
            OutcomeModel::NoSuchAsset
        },
        CommandModel::Exit => OutcomeModel::Terminate,
        CommandModel::Unknown => OutcomeModel::UnknownOperation,
    }
}

/// Applies one parsed command to the cache and says what happened.
/// `exit` and unknown lines leave the cache untouched; a `reload` of an
/// absent key reports the absence and changes nothing.
pub fn apply_command(cache: &mut CacheMap, cmd: AdminCommand) -> (r: AdminOutcome)
    ensures
        final(cache)@ == apply_model(old(cache)@, cmd@),
        r@ == outcome_model(old(cache)@, cmd@),
{
    match cmd {
        AdminCommand::ReloadAll => {
            cache.clear();
            AdminOutcome::Cleared
        },
        AdminCommand::ReloadKey(k) => {
            if cache.remove(&k) {
                AdminOutcome::Removed(k)
            } else {
                AdminOutcome::NoSuchAsset
            }
        },
        AdminCommand::Exit => AdminOutcome::Terminate,
        AdminCommand::Unknown => AdminOutcome::UnknownOperation,
    }
}

/// The console line each outcome is reported with.
pub fn outcome_message(outcome: &AdminOutcome) -> (r: String)
    ensures
        match outcome {
            AdminOutcome::Cleared => r@ == "Cache cleared"@,
            AdminOutcome::Removed(k) => r@ == "removed "@ + k@,
            AdminOutcome::NoSuchAsset => r@ == "No such asset"@,
            AdminOutcome::Terminate => r@ == "Shutting down"@,
            AdminOutcome::UnknownOperation => r@ == "unknown operation"@,
        },
{
    match outcome {
        AdminOutcome::Cleared => String::from_str("Cache cleared"),
        AdminOutcome::Removed(k) => String::from_str("removed ").concat(k.as_str()),
        AdminOutcome::NoSuchAsset => String::from_str("No such asset"),
        AdminOutcome::Terminate => shutdown_message(),
        AdminOutcome::UnknownOperation => String::from_str("unknown operation"),
    }
}

/// `reload *`, `reload all`, and bare `reload` are one command: each
/// parses to the clear-everything form, applying it empties the cache, and
/// a lookup of any key afterwards misses, so the next serve of a
/// previously cached key reads the asset store again.
pub proof fn lemma_reload_forms_equivalent(
    s: Seq<char>,
    m: Map<Seq<char>, Seq<u8>>,
    k: Seq<char>,
)
    requires
        s == "reload"@ || s == "reload *"@ || s == "reload all"@,
    ensures
        parse_model(s) == CommandModel::ReloadAll,
        apply_model(m, parse_model(s)) == Map::<Seq<char>, Seq<u8>>::empty(),
        lookup_model(apply_model(m, parse_model(s)), k) is None,
        needs_asset_read(apply_model(m, parse_model(s)), k),
{
    reveal_strlit("reload");
    reveal_strlit("reload *");
    reveal_strlit("reload all");
    reveal_strlit("*");
    reveal_strlit("all");
    reveal_with_fuel(skip_spaces, 12);
    reveal_with_fuel(token_end, 12);
    if s == "reload"@ {
        assert(first_token(s) =~= "reload"@);
        assert(!has_second_token(s));
    } else if s == "reload *"@ {
        assert(first_token(s) =~= "reload"@);
        assert(second_token(s) =~= "*"@);
    } else {
        assert(first_token(s) =~= "reload"@);
        assert(second_token(s) =~= "all"@);
    }
}

/// `reload <name>` removes only the named key: afterwards that key misses
/// and every other key answers exactly as before.
pub proof fn lemma_reload_removes_only_named(
    m: Map<Seq<char>, Seq<u8>>,
    k: Seq<char>,
    other: Seq<char>,
)
    requires
        other != k,
    ensures
        apply_model(m, CommandModel::ReloadKey(k)) == m.remove(k),
        lookup_model(m.remove(k), k) is None,
        lookup_model(m.remove(k), other) == lookup_model(m, other),
{
}

} // verus!

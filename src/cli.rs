//! Command-line settings: the options that configure a run and the targets
//! named on the command line, and the selection of targets from the lines of
//! a URL list file.
use vstd::prelude::*;
use vstd::string::{StrSliceExecFns, StringExecFns};

verus! {

pub open spec fn is_digit(c: char) -> bool {
    '0' <= c && c <= '9'
}

pub open spec fn digits_value(s: Seq<char>) -> nat
    decreases s.len(),
{
    if s.len() == 0 {
        0
    } else {
        digits_value(s.drop_last()) * 10 + (s.last() as nat - '0' as nat) as nat
    }
}

/// The digits of an unsigned number in text: an optional leading `+` is
/// dropped.
pub open spec fn unsigned_digits(s: Seq<char>) -> Seq<char> {
    if s.len() > 0 && s[0] == '+' {
        s.drop_first()
    } else {
        s
    }
}

/// The unsigned number that `s` writes in decimal, if it is one and at most
/// `max`.
pub open spec fn unsigned_value(s: Seq<char>, max: nat) -> Option<nat> {
    let d = unsigned_digits(s);
    if d.len() > 0 && (forall|i: int| 0 <= i < d.len() ==> is_digit(#[trigger] d[i]))
        && digits_value(d) <= max {
        Some(digits_value(d))
    } else {
        None
    }
}

/// Reads an unsigned decimal number no larger than `max`.
pub fn parse_unsigned(s: &str, max: u64) -> (r: Option<u64>)
    ensures
        match unsigned_value(s@, max as nat) {
            Some(n) => r == Some(n as u64),
            None => r is None,
        },
{
    let n = s.unicode_len();
    let mut start: usize = 0;
    if n > 0 && s.get_char(0) == '+' {
        start = 1;
    }
    let ghost d = unsigned_digits(s@);
    assert(d =~= s@.subrange(start as int, n as int));
    if start >= n {
        return None;
    }
    let mut acc: u64 = 0;
    let mut over = false;
    let mut i: usize = start;
    while i < n
        invariant
            start <= i <= n,
            n == s@.len(),
            d =~= s@.subrange(start as int, n as int),
            d == unsigned_digits(s@),
            forall|j: int| start <= j < i ==> is_digit(#[trigger] s@[j]),
            !over ==> acc == digits_value(s@.subrange(start as int, i as int)) && acc <= max,
            over ==> digits_value(s@.subrange(start as int, i as int)) > max,
        decreases n - i,
    {
        let c = s.get_char(i);
        if !('0' <= c && c <= '9') {
            assert(d[i - start] == s@[i as int]);
            assert(!is_digit(d[i - start]));
            return None;
        }
        let dv: u64 = (c as u32 - '0' as u32) as u64;
        assert(s@.subrange(start as int, i + 1).drop_last() =~= s@.subrange(start as int, i as int));
        if !over {
            let next: u128 = acc as u128 * 10 + dv as u128;
            if next > max as u128 {
                over = true;
            } else {
                acc = next as u64;
            }
        }
        i = i + 1;
    }
    assert forall|j: int| 0 <= j < d.len() implies is_digit(#[trigger] d[j]) by {
        assert(d[j] == s@[j + start]);
    }
    assert(s@.subrange(start as int, n as int) =~= d);
    if over {
        None
    } else {
        Some(acc)
    }
}

/// Compares two texts character by character.
pub fn text_eq(a: &str, b: &str) -> (r: bool)
    ensures
        r == (a@ == b@),
{
    let n = a.unicode_len();
    if n != b.unicode_len() {
        return false;
    }
    let mut i: usize = 0;
    while i < n
        invariant
            n == a@.len(),
            n == b@.len(),
            i <= n,
            forall|j: int| 0 <= j < i ==> a@[j] == b@[j],
        decreases n - i,
    {
        if a.get_char(i) != b.get_char(i) {
            return false;
        }
        i = i + 1;
    }
    assert(a@ =~= b@);
    true
}

/// An argument that starts with two dashes names an option.
pub open spec fn is_option(a: Seq<char>) -> bool {
    a.len() >= 2 && a[0] == '-' && a[1] == '-'
}

pub fn option_like(a: &str) -> (r: bool)
    ensures
        r == is_option(a@),
{
    let n = a.unicode_len();
    n >= 2 && a.get_char(0) == '-' && a.get_char(1) == '-'
}

/// Why the command line was refused.
pub enum ArgsError {
    MissingFilePath,
    MissingWorkers,
    ZeroWorkers,
    InvalidWorkers,
    MissingTimeout,
    InvalidTimeout,
    MissingRetries,
    InvalidRetries,
    UnknownArgument(String),
    /// Neither a file nor a URL was given.
    NoTargets,
}

/// The settings read from a command line.
pub struct CliConfig {
    pub file_path: Option<String>,
    pub urls: Vec<String>,
    pub workers: usize,
    pub timeout: u64,
    pub retries: u32,
}

/// The settings as mathematical values.
pub struct CliModel {
    pub file_path: Option<String>,
    pub urls: Seq<String>,
    pub workers: usize,
    pub timeout: u64,
    pub retries: u32,
}

impl CliConfig {
    pub open spec fn model(&self) -> CliModel {
        CliModel {
            file_path: self.file_path,
            urls: self.urls@,
            workers: self.workers,
            timeout: self.timeout,
            retries: self.retries,
        }
    }
}

/// The settings before any argument is read: a timeout of five seconds, no
/// retries, and `workers` workers.
pub open spec fn initial_model(workers: usize) -> CliModel {
    CliModel { file_path: None, urls: Seq::empty(), workers, timeout: 5, retries: 0 }
}

/// Reads `args` from position `i` on, into the settings `m` read so far.
/// Each option takes the argument after it; any other argument that starts
/// with two dashes is refused; every other argument is a URL.
pub open spec fn parse_from(args: Seq<String>, i: nat, m: CliModel) -> Result<CliModel, ArgsError>
    decreases args.len() - i,
{
    if i >= args.len() {
        if m.file_path is None && m.urls.len() == 0 {
            Err(ArgsError::NoTargets)
        } else {
            Ok(m)
        }
    } else {
        let a = args[i as int]@;
        let has_value = i + 1 < args.len();
        let v = args[i + 1 as int]@;
        if a == "--file"@ {
            if !has_value {
                Err(ArgsError::MissingFilePath)
            } else {
                parse_from(args, i + 2, CliModel { file_path: Some(args[i + 1 as int]), ..m })
            }
        } else if a == "--workers"@ {
            if !has_value {
                Err(ArgsError::MissingWorkers)
            } else {
                match unsigned_value(v, usize::MAX as nat) {
                    None => Err(ArgsError::InvalidWorkers),
                    Some(n) => if n == 0 {
                        Err(ArgsError::ZeroWorkers)
                    } else {
                        parse_from(args, i + 2, CliModel { workers: n as usize, ..m })
                    },
                }
            }
        } else if a == "--timeout"@ {
            if !has_value {
                Err(ArgsError::MissingTimeout)
            } else {
                match unsigned_value(v, u64::MAX as nat) {
                    None => Err(ArgsError::InvalidTimeout),
                    Some(n) => parse_from(args, i + 2, CliModel { timeout: n as u64, ..m }),
                }
            }
        } else if a == "--retries"@ {
            if !has_value {
                Err(ArgsError::MissingRetries)
            } else {
                match unsigned_value(v, u32::MAX as nat) {
                    None => Err(ArgsError::InvalidRetries),
                    Some(n) => parse_from(args, i + 2, CliModel { retries: n as u32, ..m }),
                }
            }
        } else if is_option(a) {
            Err(ArgsError::UnknownArgument(args[i as int]))
        } else {
            parse_from(args, i + 1, CliModel { urls: m.urls.push(args[i as int]), ..m })
        }
    }
}

/// `r` is what reading `args` from scratch gives, with `workers` workers
/// unless the command line says otherwise.
pub open spec fn parsed_as(args: Seq<String>, workers: usize, r: Result<CliConfig, ArgsError>) -> bool {
    match r {
        Ok(c) => parse_from(args, 0, initial_model(workers)) == Ok::<CliModel, ArgsError>(c.model()),
        Err(e) => parse_from(args, 0, initial_model(workers)) == Err::<CliModel, ArgsError>(e),
    }
}

/// Reads the command line `args` (the program name left out), with
/// `default_workers` workers unless `--workers` says otherwise.
pub fn parse_arguments_with(args: &Vec<String>, default_workers: usize) -> (r: Result<
    CliConfig,
    ArgsError,
>)
    ensures
        parsed_as(args@, default_workers, r),
{
    let mut c = CliConfig {
        file_path: None,
        urls: Vec::new(),
        workers: default_workers,
        timeout: 5,
        retries: 0,
    };
    let n = args.len();
    let mut i: usize = 0;
    proof {
        reveal_strlit("--file");
        reveal_strlit("--workers");
        reveal_strlit("--timeout");
        reveal_strlit("--retries");
    }
    assert(c.model() == initial_model(default_workers));
    while i < n
        invariant
            n == args@.len(),
            i <= n,
            parse_from(args@, 0, initial_model(default_workers)) == parse_from(
                args@,
                i as nat,
                c.model(),
            ),
        decreases n - i,
    {
        let a = args[i].as_str();
        let has_value = i + 1 < n;
        if text_eq(a, "--file") {
            if !has_value {
                return Err(ArgsError::MissingFilePath);
            }
            c.file_path = Some(args[i + 1].clone());
            i = i + 2;
        } else if text_eq(a, "--workers") {
            if !has_value {
                return Err(ArgsError::MissingWorkers);
            }
            match parse_unsigned(args[i + 1].as_str(), usize::MAX as u64) {
                None => {
                    return Err(ArgsError::InvalidWorkers);
                },
                Some(w) => {
                    if w == 0 {
                        return Err(ArgsError::ZeroWorkers);
                    }
                    c.workers = w as usize;
                },
            }
            i = i + 2;
        } else if text_eq(a, "--timeout") {
            if !has_value {
                return Err(ArgsError::MissingTimeout);
            }
            match parse_unsigned(args[i + 1].as_str(), u64::MAX) {
                None => {
                    return Err(ArgsError::InvalidTimeout);
                },
                Some(t) => {
                    c.timeout = t;
                },
            }
            i = i + 2;
        } else if text_eq(a, "--retries") {
            if !has_value {
                return Err(ArgsError::MissingRetries);
            }
            match parse_unsigned(args[i + 1].as_str(), u32::MAX as u64) {
                None => {
                    return Err(ArgsError::InvalidRetries);
                },
                Some(k) => {
                    c.retries = k as u32;
                },
            }
            i = i + 2;
        } else if option_like(a) {
            return Err(ArgsError::UnknownArgument(args[i].clone()));
        } else {
            c.urls.push(args[i].clone());
            i = i + 1;
        }
    }
    if c.file_path.is_none() && c.urls.len() == 0 {
        return Err(ArgsError::NoTargets);
    }
    Ok(c)
}

/// Relies on num_cpus::get: the number of logical CPUs available to this
/// process, which depends on the machine, so nothing is stated of it.
#[verifier::external_body]
fn available_cpus() -> usize {
    num_cpus::get()
}

/// Reads the command line `args` (the program name left out), with as many
/// workers as the machine has logical CPUs unless `--workers` says otherwise.
pub fn parse_arguments(args: &Vec<String>) -> (r: Result<CliConfig, ArgsError>)
    ensures
        exists|w: usize| parsed_as(args@, w, r),
{
    let w = available_cpus();
    parse_arguments_with(args, w)
}

impl ArgsError {
    /// The text shown to the user.
    pub fn message(&self) -> (m: String)
        ensures
            self is MissingFilePath ==> m@ == "Error: Missing path for --file argument."@,
            self is MissingWorkers ==> m@ == "Error: Missing value for --workers argument."@,
            self is ZeroWorkers ==> m@ == "Error: --workers value must be greater than 0"@,
            self is InvalidWorkers ==> m@ == "Error: Invalid value for --workers. Must be a positive integer."@,
            self is MissingTimeout ==> m@ == "Error: Missing value for --timeout argument."@,
            self is InvalidTimeout ==> m@ == "Error: Invalid value for --timeout. Must be a positive integer."@,
            self is MissingRetries ==> m@ == "Error: Missing value for --retries argument."@,
            self is InvalidRetries ==> m@ == "Error: Invalid value for --retries. Must be a non-negative integer."@,
            self is NoTargets ==> m@ == "Usage: website_checker [--file <path>] [URL ...] [--workers N] [--timeout S] [--retries N]"@,
            self is UnknownArgument ==> m@ == "Error: Unknown argument: "@ + self->UnknownArgument_0@,
    {
        match self {
            ArgsError::MissingFilePath => String::from_str("Error: Missing path for --file argument."),
            ArgsError::MissingWorkers => String::from_str("Error: Missing value for --workers argument."),
            ArgsError::ZeroWorkers => String::from_str("Error: --workers value must be greater than 0"),
            ArgsError::InvalidWorkers => String::from_str(
                "Error: Invalid value for --workers. Must be a positive integer.",
            ),
            ArgsError::MissingTimeout => String::from_str("Error: Missing value for --timeout argument."),
            ArgsError::InvalidTimeout => String::from_str(
                "Error: Invalid value for --timeout. Must be a positive integer.",
            ),
            ArgsError::MissingRetries => String::from_str("Error: Missing value for --retries argument."),
            ArgsError::InvalidRetries => String::from_str(
                "Error: Invalid value for --retries. Must be a non-negative integer.",
            ),
            ArgsError::UnknownArgument(a) => {
                let mut m = String::from_str("Error: Unknown argument: ");
                m.append(a.as_str());
                m
            },
            ArgsError::NoTargets => String::from_str(
                "Usage: website_checker [--file <path>] [URL ...] [--workers N] [--timeout S] [--retries N]",
            ),
        }
    }
}

/// What trimming surrounding whitespace leaves of `s`.
pub uninterp spec fn trimmed(s: Seq<char>) -> Seq<char>;

/// Relies on str::trim: leading and trailing whitespace removed; the result
/// depends on the characters alone.
#[verifier::external_body]
fn trim_text(s: &str) -> (r: String)
    ensures
        r@ == trimmed(s@),
{
    s.trim().to_string()
}

/// A trimmed line names a target unless it is empty or a comment.
pub open spec fn is_url_text(t: Seq<char>) -> bool {
    t.len() > 0 && t[0] != '#'
}

pub fn is_url_line(trimmed_line: &str) -> (r: bool)
    ensures
        r == is_url_text(trimmed_line@),
{
    let n = trimmed_line.unicode_len();
    n > 0 && trimmed_line.get_char(0) != '#'
}

pub open spec fn texts(v: Seq<String>) -> Seq<Seq<char>> {
    v.map_values(|s: String| s@)
}

/// The targets that the lines of a URL list name, each trimmed, in order.
pub open spec fn url_list(lines: Seq<Seq<char>>) -> Seq<Seq<char>>
    decreases lines.len(),
{
    if lines.len() == 0 {
        Seq::empty()
    } else {
        let rest = url_list(lines.drop_last());
        let t = trimmed(lines.last());
        if is_url_text(t) {
            rest.push(t)
        } else {
            rest
        }
    }
}

/// Selects the targets from the lines of a URL list file.
pub fn select_urls(lines: &Vec<String>) -> (r: Vec<String>)
    ensures
        texts(r@) == url_list(texts(lines@)),
{
    let mut r: Vec<String> = Vec::new();
    let mut i: usize = 0;
    while i < lines.len()
        invariant
            i <= lines@.len(),
            texts(r@) == url_list(texts(lines@.subrange(0, i as int))),
        decreases lines@.len() - i,
    {
        let t = trim_text(lines[i].as_str());
        let ghost before = r@;
        assert(texts(lines@.subrange(0, i + 1)).drop_last() =~= texts(lines@.subrange(0, i as int)));
        assert(texts(lines@.subrange(0, i + 1)).last() == lines@[i as int]@);
        if is_url_line(t.as_str()) {
            r.push(t);
            assert(texts(r@) =~= texts(before).push(r@.last()@));
        }
        i = i + 1;
    }
    assert(lines@.subrange(0, lines@.len() as int) =~= lines@);
    r
}

} // verus!

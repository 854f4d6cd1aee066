//! The command line: reading the arguments, and shortening paths for display.

use vstd::prelude::*;
use vstd::utf8::encode_utf8;
use crate::config::{default_ignore_dirs, AnalyzerConfig};
use crate::text::{byte_suffix, bytes_text, chars_of, cuttable, seq_starts_with, str_equal, str_starts_with, string_from_chars};

verus! {

// ---------------------------------------------------------------------------
// Numbers
// ---------------------------------------------------------------------------

/// An ASCII decimal digit.
pub open spec fn is_digit(c: char) -> bool {
    '0' <= c && c <= '9'
}

/// Every character of `d` is a digit.
pub open spec fn all_digits(d: Seq<char>) -> bool {
    forall|i: int| 0 <= i < d.len() ==> #[trigger] is_digit(d[i])
}

/// The value of a string of decimal digits.
pub open spec fn digits_value(d: Seq<char>) -> int
    decreases d.len(),
{
    if d.len() == 0 {
        0
    } else {
        digits_value(d.drop_last()) * 10 + ((d.last() as int) - ('0' as int))
    }
}

/// The digits of an unsigned number's text: the text without one leading `+`.
pub open spec fn unsigned_digits(s: Seq<char>) -> Seq<char> {
    if s.len() > 0 && s[0] == '+' {
        s.drop_first()
    } else {
        s
    }
}

/// What parsing `s` as an unsigned integer with largest value `max` gives, as
/// `from_str` of the unsigned integer types documents it: an optional `+`,
/// then one or more decimal digits, of a value not above `max`.
pub open spec fn parse_unsigned(s: Seq<char>, max: int) -> Option<int> {
    let d = unsigned_digits(s);
    if d.len() > 0 && all_digits(d) && digits_value(d) <= max {
        Some(digits_value(d))
    } else {
        None
    }
}

/// The value of a digit string grows with each digit.
proof fn lemma_digits_value_grows(d: Seq<char>, i: int)
    requires
        0 <= i <= d.len(),
        all_digits(d),
    ensures
        0 <= digits_value(d.take(i)) <= digits_value(d),
    decreases d.len() - i,
{
    if i < d.len() {
        lemma_digits_value_grows(d, i + 1);
        assert(d.take(i + 1).drop_last() =~= d.take(i));
        assert(is_digit(d[i]));
    } else {
        assert(d.take(i) =~= d);
    }
    lemma_digits_value_nonneg(d.take(i));
}

/// The value of a digit string is not negative.
proof fn lemma_digits_value_nonneg(d: Seq<char>)
    requires
        all_digits(d),
    ensures
        digits_value(d) >= 0,
    decreases d.len(),
{
    if d.len() > 0 {
        assert(all_digits(d.drop_last())) by {
            assert forall|i: int| 0 <= i < d.drop_last().len() implies #[trigger] is_digit(d.drop_last()[i]) by {
                assert(d.drop_last()[i] == d[i]);
            }
        }
        lemma_digits_value_nonneg(d.drop_last());
        assert(is_digit(d[d.len() - 1]));
    }
}

/// Parses an unsigned decimal number no larger than `max`.
pub fn parse_decimal(s: &str, max: u64) -> (r: Option<u64>)
    ensures
        r matches Some(v) ==> parse_unsigned(s@, max as int) == Some(v as int),
        r is None ==> parse_unsigned(s@, max as int) is None,
{
    let cs = chars_of(s);
    let start: usize = if cs.len() > 0 && cs[0] == '+' {
        1
    } else {
        0
    };
    let ghost d = unsigned_digits(s@);
    assert(d =~= cs@.subrange(start as int, cs@.len() as int));
    if start >= cs.len() {
        return None;
    }
    let mut value: u64 = 0;
    let mut i: usize = start;
    while i < cs.len()
        invariant
            cs@ == s@,
            start <= i <= cs@.len(),
            d == cs@.subrange(start as int, cs@.len() as int),
            d == unsigned_digits(s@),
            forall|j: int| start <= j < i ==> #[trigger] is_digit(cs@[j]),
            value as int == digits_value(d.take(i - start)),
            value <= max,
        decreases cs@.len() - i,
    {
        let c = cs[i];
        if !('0' <= c && c <= '9') {
            assert(!all_digits(d)) by {
                assert(d[i - start] == cs@[i as int]);
                assert(!is_digit(d[i - start]));
            }
            return None;
        }
        let digit = (c as u32 - '0' as u32) as u64;
        assert(d.take(i - start + 1).drop_last() =~= d.take(i - start));
        assert(d.take(i - start + 1).last() == c);
        if digit > max || value > (max - digit) / 10 {
            proof {
                if digit <= max {
                    assert(value * 10 + digit > max) by (nonlinear_arith)
                        requires
                            value > (max - digit) / 10,
                            digit <= max,
                    ;
                }
                assert(all_digits(d) ==> digits_value(d) > max) by {
                    if all_digits(d) {
                        lemma_digits_value_grows(d, i - start + 1);
                    }
                }
            }
            return None;
        }
        proof {
            assert(value * 10 + digit <= max) by (nonlinear_arith)
                requires
                    value <= (max - digit) / 10,
                    digit <= max,
            ;
        }
        value = value * 10 + digit;
        i = i + 1;
    }
    assert(d.take(i - start) =~= d);
    assert(all_digits(d)) by {
        assert forall|j: int| 0 <= j < d.len() implies #[trigger] is_digit(d[j]) by {
            assert(d[j] == cs@[j + start]);
        }
    }
    Some(value)
}

// ---------------------------------------------------------------------------
// Arguments
// ---------------------------------------------------------------------------

/// The settings that the option arguments set.
pub struct OptionState {
    pub max_files: usize,
    pub max_file_size: u64,
    pub timeout_ms: u64,
    pub follow_symlinks: bool,
    pub include_hidden: bool,
    pub json: bool,
    pub verbose: bool,
    pub unknown: Seq<Seq<char>>,
}

/// The settings before any option: the default configuration.
pub open spec fn initial_options() -> OptionState {
    OptionState {
        max_files: 10_000,
        max_file_size: 10485760u64,
        timeout_ms: 30_000,
        follow_symlinks: false,
        include_hidden: false,
        json: false,
        verbose: false,
        unknown: Seq::empty(),
    }
}

/// The settings after one option argument.
pub open spec fn option_step(st: OptionState, arg: Seq<char>) -> OptionState {
    if arg == "--fast"@ || arg == "-f"@ {
        OptionState {
            max_files: 1_000,
            max_file_size: 1048576u64,
            timeout_ms: 5_000,
            follow_symlinks: false,
            include_hidden: false,
            ..st
        }
    } else if arg == "--thorough"@ || arg == "-t"@ {
        OptionState {
            max_files: 0,
            max_file_size: 52428800u64,
            timeout_ms: 120_000,
            follow_symlinks: false,
            include_hidden: true,
            ..st
        }
    } else if arg == "--json"@ || arg == "-j"@ {
        OptionState { json: true, ..st }
    } else if arg == "--verbose"@ || arg == "-v"@ {
        OptionState { verbose: true, ..st }
    } else if arg == "--hidden"@ {
        OptionState { include_hidden: true, ..st }
    } else if arg == "--follow-links"@ {
        OptionState { follow_symlinks: true, ..st }
    } else if seq_starts_with(arg, "--timeout="@) {
        let rest = arg.subrange("--timeout="@.len() as int, arg.len() as int);
        OptionState {
            timeout_ms: match parse_unsigned(rest, u64::MAX as int) {
                Some(v) => v as u64,
                None => 30_000,
            },
            ..st
        }
    } else if seq_starts_with(arg, "--max-files="@) {
        let rest = arg.subrange("--max-files="@.len() as int, arg.len() as int);
        OptionState {
            max_files: match parse_unsigned(rest, usize::MAX as int) {
                Some(v) => v as usize,
                None => 10_000,
            },
            ..st
        }
    } else if seq_starts_with(arg, "-"@) {
        OptionState { unknown: st.unknown.push(arg), ..st }
    } else {
        st
    }
}

/// The settings after the arguments from the `k`-th on.
pub open spec fn options_from(args: Seq<Seq<char>>, k: int, st: OptionState) -> OptionState
    decreases args.len() - k,
{
    if k < 0 || k >= args.len() {
        st
    } else {
        options_from(args, k + 1, option_step(st, args[k]))
    }
}

/// What the command line asks for when it asks for an analysis.
pub struct CliOptions {
    /// The token to search for.
    pub token_name: String,
    /// The directory to scan, where one is named (else the current one).
    pub directory: Option<String>,
    /// The analyzer configuration.
    pub config: AnalyzerConfig,
    /// Whether to print JSON.
    pub json: bool,
    /// Whether to show progress.
    pub verbose: bool,
    /// The options that were not recognized, in order.
    pub unknown_options: Vec<String>,
}

/// What the command line asks for.
pub enum CliCommand {
    /// Print the usage text.
    Usage,
    /// Print the version.
    Version,
    /// Run an analysis.
    Analyze(CliOptions),
}

impl CliOptions {
    /// These options hold the settings `st`, with the default lists of the
    /// configuration.
    pub open spec fn holds(&self, st: OptionState) -> bool {
        &&& self.config.max_files == st.max_files
        &&& self.config.max_file_size == st.max_file_size
        &&& self.config.timeout_ms == st.timeout_ms
        &&& self.config.follow_symlinks == st.follow_symlinks
        &&& self.config.include_hidden == st.include_hidden
        &&& self.config.extensions@.len() == 0
        &&& self.config.ignore_dirs.deep_view() == default_ignore_dirs()
        &&& self.config.num_threads == 0
        &&& self.json == st.json
        &&& self.verbose == st.verbose
        &&& self.unknown_options.deep_view() == st.unknown
    }
}

/// The command line asks for the usage text: no token, or `--help`/`-h`.
pub open spec fn asks_usage(args: Seq<Seq<char>>) -> bool {
    args.len() < 2 || args[1] == "--help"@ || args[1] == "-h"@
}

/// The command line asks for the version: `--version`/`-V`.
pub open spec fn asks_version(args: Seq<Seq<char>>) -> bool {
    args.len() >= 2 && (args[1] == "--version"@ || args[1] == "-V"@)
}

/// The directory that the command line names: the third argument, unless it
/// is an option.
pub open spec fn named_directory(args: Seq<Seq<char>>) -> Option<Seq<char>> {
    if args.len() > 2 && !seq_starts_with(args[2], "-"@) {
        Some(args[2])
    } else {
        None
    }
}

/// The settings after one option argument.
fn apply_option(o: &mut CliOptions, arg: &str, Ghost(st): Ghost<OptionState>)
    requires
        old(o).holds(st),
    ensures
        final(o).holds(option_step(st, arg@)),
        final(o).token_name == old(o).token_name,
        final(o).directory == old(o).directory,
{
    if str_equal(arg, "--fast") || str_equal(arg, "-f") {
        o.config = AnalyzerConfig::fast();
    } else if str_equal(arg, "--thorough") || str_equal(arg, "-t") {
        o.config = AnalyzerConfig::thorough();
    } else if str_equal(arg, "--json") || str_equal(arg, "-j") {
        o.json = true;
    } else if str_equal(arg, "--verbose") || str_equal(arg, "-v") {
        o.verbose = true;
    } else if str_equal(arg, "--hidden") {
        o.config.include_hidden = true;
    } else if str_equal(arg, "--follow-links") {
        o.config.follow_symlinks = true;
    } else if str_starts_with(arg, "--timeout=") {
        let cs = chars_of(arg);
        let k = chars_of("--timeout=").len();
        let rest = string_from_chars(&cs, k, cs.len());
        o.config.timeout_ms = match parse_decimal(rest.as_str(), u64::MAX) {
            Some(v) => v,
            None => 30_000,
        };
    } else if str_starts_with(arg, "--max-files=") {
        let cs = chars_of(arg);
        let k = chars_of("--max-files=").len();
        let rest = string_from_chars(&cs, k, cs.len());
        o.config.max_files = match parse_decimal(rest.as_str(), usize::MAX as u64) {
            Some(v) => v as usize,
            None => 10_000,
        };
    } else if str_starts_with(arg, "-") {
        let ghost before = o.unknown_options.deep_view();
        o.unknown_options.push(arg.to_owned());
        assert(o.unknown_options.deep_view() =~= before.push(arg@));
    }
}

/// Reads the command line: the program name, the token, an optional
/// directory, and options.
pub fn parse_args(args: &Vec<String>) -> (r: CliCommand)
    ensures
        asks_usage(args.deep_view()) ==> r is Usage,
        !asks_usage(args.deep_view()) && asks_version(args.deep_view()) ==> r is Version,
        !asks_usage(args.deep_view()) && !asks_version(args.deep_view()) ==> (r matches CliCommand::Analyze(o) && {
            &&& o.token_name@ == args.deep_view()[1]
            &&& o.directory.deep_view() == named_directory(args.deep_view())
            &&& o.holds(options_from(args.deep_view(), 2, initial_options()))
        }),
{
    let ghost a = args.deep_view();
    if args.len() < 2 {
        return CliCommand::Usage;
    }
    assert(a[1] == args[1]@);
    let first = args[1].as_str();
    if str_equal(first, "--help") || str_equal(first, "-h") {
        return CliCommand::Usage;
    }
    if str_equal(first, "--version") || str_equal(first, "-V") {
        return CliCommand::Version;
    }
    let directory = if args.len() > 2 && !str_starts_with(args[2].as_str(), "-") {
        Some(args[2].clone())
    } else {
        None
    };
    proof {
        if args.len() > 2 {
            assert(a[2] == args[2]@);
        }
    }
    let mut o = CliOptions {
        token_name: first.to_owned(),
        directory,
        config: AnalyzerConfig::default(),
        json: false,
        verbose: false,
        unknown_options: Vec::new(),
    };
    assert(o.unknown_options.deep_view() =~= Seq::<Seq<char>>::empty());
    let n = args.len();
    let mut k: usize = 2;
    let ghost mut st = initial_options();
    while k < n
        invariant
            n == args@.len(),
            a == args.deep_view(),
            2 <= k <= n,
            o.token_name@ == a[1],
            o.directory.deep_view() == named_directory(a),
            o.holds(st),
            options_from(a, 2, initial_options()) == options_from(a, k as int, st),
        decreases n - k,
    {
        assert(a[k as int] == args[k as int]@);
        apply_option(&mut o, args[k].as_str(), Ghost(st));
        proof {
            st = option_step(st, a[k as int]);
        }
        k = k + 1;
    }
    CliCommand::Analyze(o)
}

// ---------------------------------------------------------------------------
// Paths for display
// ---------------------------------------------------------------------------

/// A path shortened to at most `max_len` bytes for display: the path itself
/// where it fits, else `...` and its last `max_len - 3` bytes; `None` where
/// that cut panics (it splits a character, or `max_len` is below 3).
pub open spec fn shortened(path: Seq<char>, max_len: int) -> Option<Seq<char>> {
    let b = encode_utf8(path);
    if b.len() <= max_len {
        Some(path)
    } else {
        let start = b.len() - max_len + 3;
        if cuttable(path, start) {
            Some("..."@ + bytes_text(b, start, b.len() as int))
        } else {
            None
        }
    }
}

/// Shortens a path for display, or `None` where the cut panics.
pub fn try_shorten_path(path: &str, max_len: usize) -> (r: Option<String>)
    ensures
        r is None <==> shortened(path@, max_len as int) is None,
        r matches Some(s) ==> shortened(path@, max_len as int) == Some(s@),
{
    let n = path.as_bytes().len();
    if n <= max_len {
        return Some(path.to_owned());
    }
    let over = n - max_len;
    if over > usize::MAX - 3 {
        return None;
    }
    match byte_suffix(path, over + 3) {
        Some(tail) => {
            let mut s = "...".to_owned();
            s.append(tail.as_str());
            Some(s)
        },
        None => None,
    }
}

/// Shortens a path for display to at most `max_len` bytes.
pub fn shorten_path(path: &str, max_len: usize) -> (s: String)
    requires
        shortened(path@, max_len as int) is Some,
    ensures
        shortened(path@, max_len as int) == Some(s@),
{
    match try_shorten_path(path, max_len) {
        Some(s) => s,
        None => {
            proof {
                assert(false);
            }
            String::new()
        },
    }
}

} // verus!

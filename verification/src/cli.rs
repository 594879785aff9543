//! Command-line parsing in the single-dash style of Go's `flag` package,
//! as the engine's own console client takes it:
//!
//!   psiphon -config psiphon.config -serverList server-list-standard.txt -dataRootDirectory data
//!
//! Both `-flag value` and `-flag=value` are accepted, and `--flag` means
//! the same as `-flag`. All three flags are optional: `-dataRootDirectory`
//! defaults to `data`; `-config` and `-serverList` default to
//! `psiphon.config` and `server-list-standard.txt` only when that file
//! exists in the current directory. Whether they exist is asked of the
//! caller; without a config file, `-config` is required, and without a
//! server list file the server list is empty.

use vstd::prelude::*;
use crate::text::{text_is, texts, char_position, lemma_position_absent, lemma_position_after};

verus! {

/// The paths a run uses.
#[derive(Debug)]
pub struct Args {
    pub config: String,
    pub server_list: String,
    pub data_root_directory: String,
}

/// What the command line asks for.
#[derive(Debug)]
pub enum ParseResult {
    Args(Args),
    Help,
}

/// What the command line asks for, as plain texts.
pub enum CliOutcome {
    Help,
    Run { config: Seq<char>, server_list: Seq<char>, data_root_directory: Seq<char> },
}

pub const DEFAULT_CONFIG: &'static str = "psiphon.config";
pub const DEFAULT_SERVER_LIST: &'static str = "server-list-standard.txt";
pub const DEFAULT_DATA_ROOT_DIRECTORY: &'static str = "data";

pub const USAGE: &'static str = "\
psiphon-tui — a Rust TUI front-end for psiphon-tunnel-core

USAGE:
    psiphon [-config <path>] [-serverList <path>] [-dataRootDirectory <dir>]

FLAGS:
    -config <path>              configuration input file
                                 (default: ./psiphon.config, if present)
    -serverList <path>          embedded server entry list input file
                                 (default: ./server-list-standard.txt, if present)
    -dataRootDirectory <dir>    directory where persistent files will be stored
                                 (default: ./data)
    -h, -help, --help           print this help and exit
";

/// The text with its leading dashes removed.
pub open spec fn strip_dashes(s: Seq<char>) -> Seq<char>
    decreases s.len(),
{
    if s.len() > 0 && s[0] == '-' {
        strip_dashes(s.drop_first())
    } else {
        s
    }
}

/// Whether an argument asks for help.
pub open spec fn is_help(arg: Seq<char>) -> bool {
    arg == "-h"@ || arg == "-help"@ || arg == "--help"@
}

/// The flag name of an argument, and the value written after its first
/// `=` when there is one.
pub open spec fn flag_parts(arg: Seq<char>) -> (Seq<char>, Option<Seq<char>>) {
    let stripped = strip_dashes(arg);
    match char_position(stripped, '=') {
        Some(k) => (stripped.take(k), Some(stripped.skip(k + 1))),
        None => (stripped, None),
    }
}

/// Whether a flag name is one of the three known flags.
pub open spec fn is_known_flag(flag: Seq<char>) -> bool {
    flag == "config"@ || flag == "serverList"@ || flag == "dataRootDirectory"@
}

/// The outcome once every argument has been read, with the defaults applied.
pub open spec fn finish(
    config: Option<Seq<char>>,
    server_list: Option<Seq<char>>,
    data_root_directory: Option<Seq<char>>,
    config_file_exists: bool,
    server_list_file_exists: bool,
) -> Result<CliOutcome, Seq<char>> {
    let config = match config {
        Some(c) => Some(c),
        None => if config_file_exists { Some(DEFAULT_CONFIG@) } else { None },
    };
    match config {
        None => Err("-config is required (no psiphon.config found in the current directory either)"@),
        Some(c) => Ok(CliOutcome::Run {
            config: c,
            server_list: match server_list {
                Some(s) => s,
                None => if server_list_file_exists { DEFAULT_SERVER_LIST@ } else { Seq::empty() },
            },
            data_root_directory: match data_root_directory {
                Some(d) => d,
                None => DEFAULT_DATA_ROOT_DIRECTORY@,
            },
        }),
    }
}

/// The outcome of reading the arguments `rest`, with the flag values read
/// so far. Reading stops at the first help flag or the first error.
pub open spec fn scan(
    rest: Seq<Seq<char>>,
    config: Option<Seq<char>>,
    server_list: Option<Seq<char>>,
    data_root_directory: Option<Seq<char>>,
    config_file_exists: bool,
    server_list_file_exists: bool,
) -> Result<CliOutcome, Seq<char>>
    decreases rest.len(),
{
    if rest.len() == 0 {
        finish(config, server_list, data_root_directory, config_file_exists, server_list_file_exists)
    } else {
        let arg = rest[0];
        if is_help(arg) {
            Ok(CliOutcome::Help)
        } else if !(arg.len() > 0 && arg[0] == '-') {
            Err("unexpected positional argument: "@ + arg)
        } else {
            let (flag, inline) = flag_parts(arg);
            if !is_known_flag(flag) {
                Err("unknown flag: -"@ + flag)
            } else if inline is None && rest.len() < 2 {
                Err("flag -"@ + flag + " requires a value"@)
            } else {
                let value = match inline {
                    Some(v) => v,
                    None => rest[1],
                };
                let consumed: int = if inline is Some { 1 } else { 2 };
                let remaining = rest.skip(consumed);
                if flag == "config"@ {
                    scan(remaining, Some(value), server_list, data_root_directory,
                        config_file_exists, server_list_file_exists)
                } else if flag == "serverList"@ {
                    scan(remaining, config, Some(value), data_root_directory,
                        config_file_exists, server_list_file_exists)
                } else {
                    scan(remaining, config, server_list, Some(value),
                        config_file_exists, server_list_file_exists)
                }
            }
        }
    }
}

/// The outcome of a whole command line.
pub open spec fn parse_spec(args: Seq<Seq<char>>, config_file_exists: bool,
    server_list_file_exists: bool) -> Result<CliOutcome, Seq<char>> {
    scan(args, None, None, None, config_file_exists, server_list_file_exists)
}

/// A parse result as plain texts.
pub open spec fn outcome_of(r: Result<ParseResult, String>) -> Result<CliOutcome, Seq<char>> {
    match r {
        Ok(ParseResult::Help) => Ok(CliOutcome::Help),
        Ok(ParseResult::Args(a)) => Ok(CliOutcome::Run {
            config: a.config@,
            server_list: a.server_list@,
            data_root_directory: a.data_root_directory@,
        }),
        Err(e) => Err(e@),
    }
}

fn strip_leading_dashes(s: &str) -> (r: &str)
    ensures
        r@ == strip_dashes(s@),
{
    let n = s.unicode_len();
    let mut k: usize = 0;
    assert(s@.skip(0) =~= s@);
    while k < n && s.get_char(k) == '-'
        invariant
            n == s@.len(),
            k <= n,
            strip_dashes(s@) == strip_dashes(s@.skip(k as int)),
        decreases n - k,
    {
        assert(s@.skip(k as int).drop_first() =~= s@.skip(k + 1));
        k = k + 1;
    }
    s.substring_char(k, n)
}

fn split_flag(s: &str) -> (r: (&str, Option<&str>))
    ensures
        r.0@ == (match char_position(s@, '=') {
            Some(k) => s@.take(k),
            None => s@,
        }),
        match r.1 {
            Some(v) => char_position(s@, '=') matches Some(k) && v@ == s@.skip(k + 1),
            None => char_position(s@, '=') is None,
        },
{
    let n = s.unicode_len();
    let mut k: usize = 0;
    assert(s@.skip(0) =~= s@);
    while k < n
        invariant
            n == s@.len(),
            k <= n,
            char_position(s@, '=') == match char_position(s@.skip(k as int), '=') {
                Some(j) => Some(j + k),
                None => None,
            },
        decreases n - k,
    {
        assert(s@.skip(k as int)[0] == s@[k as int]);
        if s.get_char(k) == '=' {
            assert(s@.take(k as int) =~= s@.subrange(0, k as int));
            return (s.substring_char(0, k), Some(s.substring_char(k + 1, n)));
        }
        assert(s@.skip(k as int).drop_first() =~= s@.skip(k + 1));
        k = k + 1;
    }
    (s, None)
}

fn joined2(a: &str, b: &str) -> (s: String)
    ensures
        s@ == a@ + b@,
{
    let mut s = String::from_str(a);
    s.append(b);
    s
}

fn joined(a: &str, b: &str, c: &str) -> (s: String)
    ensures
        s@ == a@ + b@ + c@,
{
    let mut s = String::from_str(a);
    s.append(b);
    s.append(c);
    s
}

/// Reads a command line (without the program name). The two flags tell
/// whether `psiphon.config` and `server-list-standard.txt` exist in the
/// current directory; they are consulted only for the defaults.
pub fn parse(args: Vec<String>, config_file_exists: bool, server_list_file_exists: bool)
    -> (r: Result<ParseResult, String>)
    ensures
        outcome_of(r) == parse_spec(texts(args@), config_file_exists, server_list_file_exists),
{
    proof { reveal_strlit(""); }
    let ghost all = texts(args@);
    let mut config: Option<String> = None;
    let mut server_list: Option<String> = None;
    let mut data_root_directory: Option<String> = None;
    let mut i: usize = 0;
    assert(all.skip(0) =~= all);
    while i < args.len()
        invariant
            i <= args@.len(),
            all == texts(args@),
            parse_spec(all, config_file_exists, server_list_file_exists) == scan(all.skip(i as int),
                crate::app::opt_text(config), crate::app::opt_text(server_list),
                crate::app::opt_text(data_root_directory), config_file_exists, server_list_file_exists),
        decreases args@.len() - i,
    {
        let ghost rest = all.skip(i as int);
        assert(rest[0] == args@[i as int]@);
        let arg = args[i].as_str();
        if text_is(arg, "-h") || text_is(arg, "-help") || text_is(arg, "--help") {
            return Ok(ParseResult::Help);
        }
        if !(arg.unicode_len() > 0 && arg.get_char(0) == '-') {
            return Err(joined2("unexpected positional argument: ", arg));
        }
        let stripped = strip_leading_dashes(arg);
        let (flag, inline) = split_flag(stripped);
        assert(flag_parts(arg@) == (flag@, match inline { Some(v) => Some(v@), None => None::<Seq<char>> }));
        let is_config = text_is(flag, "config");
        let is_server_list = text_is(flag, "serverList");
        let is_data_root = text_is(flag, "dataRootDirectory");
        if !(is_config || is_server_list || is_data_root) {
            return Err(joined2("unknown flag: -", flag));
        }
        let value: String = match inline {
            Some(v) => String::from_str(v),
            None => {
                if i + 1 >= args.len() {
                    return Err(joined("flag -", flag, " requires a value"));
                }
                i = i + 1;
                assert(rest[1] == args@[i as int]@);
                args[i].clone()
            },
        };
        assert(all.skip(i + 1) =~= rest.skip(if inline is Some { 1int } else { 2int }));
        if is_config {
            config = Some(value);
        } else if is_server_list {
            server_list = Some(value);
        } else {
            data_root_directory = Some(value);
        }
        i = i + 1;
    }
    let config = match config {
        Some(c) => c,
        None => {
            if config_file_exists {
                String::from_str(DEFAULT_CONFIG)
            } else {
                return Err(String::from_str(
                    "-config is required (no psiphon.config found in the current directory either)"));
            }
        },
    };
    let server_list = match server_list {
        Some(s) => s,
        None => if server_list_file_exists {
            String::from_str(DEFAULT_SERVER_LIST)
        } else {
            String::new()
        },
    };
    let data_root_directory = match data_root_directory {
        Some(d) => d,
        None => String::from_str(DEFAULT_DATA_ROOT_DIRECTORY),
    };
    Ok(ParseResult::Args(Args { config, server_list, data_root_directory }))
}

proof fn lemma_strip_after_dash(s: Seq<char>)
    ensures
        strip_dashes(seq!['-'] + s) == strip_dashes(s),
{
    assert((seq!['-'] + s).drop_first() =~= s);
}

proof fn help_texts()
    ensures
        "-h"@ =~= seq!['-', 'h'],
        "-help"@ =~= seq!['-', 'h', 'e', 'l', 'p'],
        "--help"@ =~= seq!['-', '-', 'h', 'e', 'l', 'p'],
        "h"@ =~= seq!['h'],
        "help"@ =~= seq!['h', 'e', 'l', 'p'],
{
    reveal_strlit("-h");
    reveal_strlit("-help");
    reveal_strlit("--help");
    reveal_strlit("h");
    reveal_strlit("help");
}

/// `-flag value` and `-flag=value` mean the same, for any flag name
/// without `=` that does not start with a dash and is not a help flag.
pub proof fn inline_value_same_as_separate(
    flag: Seq<char>,
    value: Seq<char>,
    rest: Seq<Seq<char>>,
    config: Option<Seq<char>>,
    server_list: Option<Seq<char>>,
    data_root_directory: Option<Seq<char>>,
    config_file_exists: bool,
    server_list_file_exists: bool,
)
    requires
        !flag.contains('='),
        flag.len() == 0 || flag[0] != '-',
        flag != "h"@,
        flag != "help"@,
    ensures
        scan(seq![seq!['-'] + flag, value] + rest, config, server_list, data_root_directory,
            config_file_exists, server_list_file_exists)
        == scan(seq![seq!['-'] + flag + seq!['='] + value] + rest, config, server_list,
            data_root_directory, config_file_exists, server_list_file_exists),
{
    help_texts();
    let a1 = seq!['-'] + flag;
    let a2 = seq!['-'] + flag + seq!['='] + value;
    let r1 = seq![a1, value] + rest;
    let r2 = seq![a2] + rest;
    assert(r1[0] == a1 && r1[1] == value);
    assert(r2[0] == a2);
    // Neither argument asks for help.
    if a1 == "-h"@ {
        assert(flag =~= a1.drop_first());
        assert(flag =~= "h"@);
    }
    if a1 == "-help"@ {
        assert(flag =~= a1.drop_first());
        assert(flag =~= "help"@);
    }
    if a1 == "--help"@ {
        assert(flag[0] == a1[1]);
    }
    assert(a2[flag.len() as int + 1] == '=');
    if a2 == "-h"@ || a2 == "-help"@ || a2 == "--help"@ {
        assert(a2[flag.len() as int + 1] == '=');
    }
    // Both name the flag; only the second carries the value.
    lemma_strip_after_dash(flag);
    assert(a2 =~= seq!['-'] + (flag + seq!['='] + value));
    lemma_strip_after_dash(flag + seq!['='] + value);
    assert((flag + seq!['='] + value)[0] == if flag.len() > 0 { flag[0] } else { '=' });
    assert(strip_dashes(flag + seq!['='] + value) == flag + seq!['='] + value);
    lemma_position_absent(flag, '=');
    lemma_position_after(flag, '=', value);
    assert((flag + seq!['='] + value).take(flag.len() as int) =~= flag);
    assert((flag + seq!['='] + value).skip(flag.len() as int + 1) =~= value);
    assert(flag_parts(a1) == (flag, None::<Seq<char>>));
    assert(flag_parts(a2) == (flag, Some(value)));
    assert(r1.skip(2) =~= rest);
    assert(r2.skip(1) =~= rest);
}

/// `--flag` means the same as `-flag`, for any flag name that does not
/// start with a dash and is not a help flag.
pub proof fn double_dash_same_as_single(
    flag: Seq<char>,
    rest: Seq<Seq<char>>,
    config: Option<Seq<char>>,
    server_list: Option<Seq<char>>,
    data_root_directory: Option<Seq<char>>,
    config_file_exists: bool,
    server_list_file_exists: bool,
)
    requires
        flag.len() == 0 || flag[0] != '-',
        flag != "h"@,
        flag != "help"@,
    ensures
        scan(seq![seq!['-', '-'] + flag] + rest, config, server_list, data_root_directory,
            config_file_exists, server_list_file_exists)
        == scan(seq![seq!['-'] + flag] + rest, config, server_list, data_root_directory,
            config_file_exists, server_list_file_exists),
{
    help_texts();
    let a1 = seq!['-', '-'] + flag;
    let a2 = seq!['-'] + flag;
    let r1 = seq![a1] + rest;
    let r2 = seq![a2] + rest;
    assert(r1[0] == a1);
    assert(r2[0] == a2);
    if a1 == "--help"@ {
        assert(flag =~= a1.skip(2));
        assert(flag =~= "help"@);
    }
    if a1 == "-h"@ || a1 == "-help"@ {
        assert(a1[1] == '-');
    }
    if a2 == "-h"@ {
        assert(flag =~= a2.drop_first());
        assert(flag =~= "h"@);
    }
    if a2 == "-help"@ {
        assert(flag =~= a2.drop_first());
        assert(flag =~= "help"@);
    }
    if a2 == "--help"@ {
        assert(flag[0] == a2[1]);
    }
    assert(a1 =~= seq!['-'] + a2);
    lemma_strip_after_dash(a2);
    assert(r1.skip(1) =~= r2.skip(1));
    assert(r1.len() == r2.len());
    if r1.len() >= 2 {
        assert(r1[1] == r2[1]);
        assert(r1.skip(2) =~= r2.skip(2));
    }
    assert(flag_parts(a1) == flag_parts(a2));
}

/// The flag values after reading all of `p`, when reading it neither asks
/// for help nor fails nor needs a value beyond its end.
pub open spec fn read_through(
    p: Seq<Seq<char>>,
    config: Option<Seq<char>>,
    server_list: Option<Seq<char>>,
    data_root_directory: Option<Seq<char>>,
) -> Option<(Option<Seq<char>>, Option<Seq<char>>, Option<Seq<char>>)>
    decreases p.len(),
{
    if p.len() == 0 {
        Some((config, server_list, data_root_directory))
    } else {
        let arg = p[0];
        if is_help(arg) || !(arg.len() > 0 && arg[0] == '-') {
            None
        } else {
            let (flag, inline) = flag_parts(arg);
            if !is_known_flag(flag) || (inline is None && p.len() < 2) {
                None
            } else {
                let value = match inline {
                    Some(v) => v,
                    None => p[1],
                };
                let consumed: int = if inline is Some { 1 } else { 2 };
                let remaining = p.skip(consumed);
                if flag == "config"@ {
                    read_through(remaining, Some(value), server_list, data_root_directory)
                } else if flag == "serverList"@ {
                    read_through(remaining, config, Some(value), data_root_directory)
                } else {
                    read_through(remaining, config, server_list, Some(value))
                }
            }
        }
    }
}

/// Arguments read through go on from where they left the flag values.
pub proof fn lemma_read_through(
    p: Seq<Seq<char>>,
    rest: Seq<Seq<char>>,
    config: Option<Seq<char>>,
    server_list: Option<Seq<char>>,
    data_root_directory: Option<Seq<char>>,
    config_file_exists: bool,
    server_list_file_exists: bool,
)
    requires
        read_through(p, config, server_list, data_root_directory) is Some,
    ensures
        ({
            let (c, s, d) = read_through(p, config, server_list, data_root_directory)->0;
            scan(p + rest, config, server_list, data_root_directory, config_file_exists,
                server_list_file_exists)
            == scan(rest, c, s, d, config_file_exists, server_list_file_exists)
        }),
    decreases p.len(),
{
    if p.len() == 0 {
        assert(p + rest =~= rest);
    } else {
        let all = p + rest;
        assert(all[0] == p[0]);
        let (flag, inline) = flag_parts(p[0]);
        let consumed: int = if inline is Some { 1 } else { 2 };
        if inline is None {
            assert(all[1] == p[1]);
        }
        assert(all.skip(consumed) =~= p.skip(consumed) + rest);
        let value = match inline {
            Some(v) => v,
            None => p[1],
        };
        if flag == "config"@ {
            lemma_read_through(p.skip(consumed), rest, Some(value), server_list, data_root_directory,
                config_file_exists, server_list_file_exists);
        } else if flag == "serverList"@ {
            lemma_read_through(p.skip(consumed), rest, config, Some(value), data_root_directory,
                config_file_exists, server_list_file_exists);
        } else {
            lemma_read_through(p.skip(consumed), rest, config, server_list, Some(value),
                config_file_exists, server_list_file_exists);
        }
    }
}

/// Anywhere on a command line, once the arguments before it have been read
/// through, `-flag value`, `-flag=value`, `--flag value` and
/// `--flag=value` give the same outcome, for any flag name without `=`
/// that does not start with a dash and is not a help flag (so for
/// `config`, `serverList` and `dataRootDirectory`).
pub proof fn flag_spellings_agree(
    p: Seq<Seq<char>>,
    flag: Seq<char>,
    value: Seq<char>,
    q: Seq<Seq<char>>,
    config_file_exists: bool,
    server_list_file_exists: bool,
)
    requires
        read_through(p, None, None, None) is Some,
        !flag.contains('='),
        flag.len() == 0 || flag[0] != '-',
        flag != "h"@,
        flag != "help"@,
    ensures
        ({
            let separate = parse_spec(p + seq![seq!['-'] + flag, value] + q, config_file_exists,
                server_list_file_exists);
            &&& separate == parse_spec(p + seq![seq!['-'] + flag + seq!['='] + value] + q,
                config_file_exists, server_list_file_exists)
            &&& separate == parse_spec(p + seq![seq!['-', '-'] + flag, value] + q,
                config_file_exists, server_list_file_exists)
            &&& separate == parse_spec(p + seq![seq!['-', '-'] + flag + seq!['='] + value] + q,
                config_file_exists, server_list_file_exists)
        }),
{
    let (c, s, d) = read_through(p, None, None, None)->0;
    let cf = config_file_exists;
    let sf = server_list_file_exists;
    let a1 = seq!['-'] + flag;
    let a2 = seq!['-'] + flag + seq!['='] + value;
    let a3 = seq!['-', '-'] + flag;
    let a4 = seq!['-', '-'] + flag + seq!['='] + value;
    assert(p + seq![a1, value] + q =~= p + (seq![a1, value] + q));
    assert(p + seq![a2] + q =~= p + (seq![a2] + q));
    assert(p + seq![a3, value] + q =~= p + (seq![a3, value] + q));
    assert(p + seq![a4] + q =~= p + (seq![a4] + q));
    lemma_read_through(p, seq![a1, value] + q, None, None, None, cf, sf);
    lemma_read_through(p, seq![a2] + q, None, None, None, cf, sf);
    lemma_read_through(p, seq![a3, value] + q, None, None, None, cf, sf);
    lemma_read_through(p, seq![a4] + q, None, None, None, cf, sf);
    inline_value_same_as_separate(flag, value, q, c, s, d, cf, sf);
    assert(seq![a3, value] + q =~= seq![a3] + (seq![value] + q));
    assert(seq![a1, value] + q =~= seq![a1] + (seq![value] + q));
    double_dash_same_as_single(flag, seq![value] + q, c, s, d, cf, sf);
    // `--flag=value` is `-` followed by `-flag=value`.
    let g = flag + seq!['='] + value;
    assert(a4 =~= seq!['-', '-'] + g);
    assert(a2 =~= seq!['-'] + g);
    assert(g[flag.len() as int] == '=');
    help_texts();
    if g == "h"@ {
        assert(g.len() == 1);
        assert(g[0] == '=');
    }
    if g == "help"@ {
        assert(g[flag.len() as int] == "help"@[flag.len() as int]);
    }
    assert(g.len() == 0 || g[0] != '-') by {
        if flag.len() > 0 {
            assert(g[0] == flag[0]);
        } else {
            assert(g[0] == '=');
        }
    }
    double_dash_same_as_single(g, q, c, s, d, cf, sf);
}

proof fn lemma_plain_flag(flag: Seq<char>)
    requires
        !flag.contains('='),
        flag.len() == 0 || flag[0] != '-',
    ensures
        flag_parts(seq!['-'] + flag) == (flag, None::<Seq<char>>),
{
    lemma_strip_after_dash(flag);
    lemma_position_absent(flag, '=');
}

proof fn known_flag_texts()
    ensures
        "config"@ =~= seq!['c', 'o', 'n', 'f', 'i', 'g'],
        "serverList"@ =~= seq!['s', 'e', 'r', 'v', 'e', 'r', 'L', 'i', 's', 't'],
        "dataRootDirectory"@ =~= seq!['d', 'a', 't', 'a', 'R', 'o', 'o', 't', 'D', 'i', 'r', 'e', 'c',
            't', 'o', 'r', 'y'],
{
    reveal_strlit("config");
    reveal_strlit("serverList");
    reveal_strlit("dataRootDirectory");
}

/// Reading `-flag value` for a known flag stores `value` under that flag
/// and goes on after the value.
pub proof fn flag_value_is_read(
    p: Seq<Seq<char>>,
    flag: Seq<char>,
    value: Seq<char>,
    q: Seq<Seq<char>>,
)
    requires
        read_through(p, None, None, None) is Some,
        is_known_flag(flag),
    ensures
        ({
            let (c, s, d) = read_through(p, None, None, None)->0;
            let after = read_through(p + seq![seq!['-'] + flag, value] + q, None, None, None);
            &&& flag == "config"@ ==> after == read_through(q, Some(value), s, d)
            &&& flag == "serverList"@ ==> after == read_through(q, c, Some(value), d)
            &&& flag == "dataRootDirectory"@ ==> after == read_through(q, c, s, Some(value))
        }),
{
    known_flag_texts();
    help_texts();
    lemma_read_through_prefix(p, seq![seq!['-'] + flag, value] + q, None, None, None);
    let (c, s, d) = read_through(p, None, None, None)->0;
    let a = seq!['-'] + flag;
    let r = seq![a, value] + q;
    assert(p + seq![a, value] + q =~= p + r);
    assert(r[0] == a && r[1] == value);
    assert(a[0] == '-');
    assert(a.len() == flag.len() + 1);
    assert(flag.len() >= 6);
    assert(!is_help(a));
    assert(!flag.contains('=')) by {
        if flag.contains('=') {
            let k = choose|k: int| 0 <= k < flag.len() && flag[k] == '=';
            assert(flag[k] == '=');
        }
    }
    assert(flag[0] != '-');
    lemma_plain_flag(flag);
    assert(flag_parts(a) == (flag, None::<Seq<char>>));
    assert(r.len() >= 2);
    assert(r.skip(2) =~= q);
    if flag == "config"@ {
        assert(read_through(r, c, s, d) == read_through(q, Some(value), s, d));
    } else if flag == "serverList"@ {
        assert(flag != "config"@);
        assert(read_through(r, c, s, d) == read_through(q, c, Some(value), d));
    } else {
        assert(flag != "config"@ && flag != "serverList"@);
        assert(read_through(r, c, s, d) == read_through(q, c, s, Some(value)));
    }
}

/// Reading all of `p` and then `rest` is reading `rest` from where `p` left
/// the flag values.
proof fn lemma_read_through_prefix(
    p: Seq<Seq<char>>,
    rest: Seq<Seq<char>>,
    config: Option<Seq<char>>,
    server_list: Option<Seq<char>>,
    data_root_directory: Option<Seq<char>>,
)
    requires
        read_through(p, config, server_list, data_root_directory) is Some,
    ensures
        ({
            let (c, s, d) = read_through(p, config, server_list, data_root_directory)->0;
            read_through(p + rest, config, server_list, data_root_directory) == read_through(rest, c, s, d)
        }),
    decreases p.len(),
{
    if p.len() == 0 {
        assert(p + rest =~= rest);
    } else {
        let all = p + rest;
        assert(all[0] == p[0]);
        let (flag, inline) = flag_parts(p[0]);
        let consumed: int = if inline is Some { 1 } else { 2 };
        if inline is None {
            assert(all[1] == p[1]);
        }
        assert(all.skip(consumed) =~= p.skip(consumed) + rest);
        let value = match inline {
            Some(v) => v,
            None => p[1],
        };
        if flag == "config"@ {
            lemma_read_through_prefix(p.skip(consumed), rest, Some(value), server_list, data_root_directory);
        } else if flag == "serverList"@ {
            lemma_read_through_prefix(p.skip(consumed), rest, config, Some(value), data_root_directory);
        } else {
            lemma_read_through_prefix(p.skip(consumed), rest, config, server_list, Some(value));
        }
    }
}

/// A command line read to its end gives the values it set; the config
/// file of the current directory is used only when no `-config` was given
/// (and is then required), the server list file only when no `-serverList`
/// was given, and `data` only when no `-dataRootDirectory` was given.
pub proof fn given_values_win_over_defaults(args: Seq<Seq<char>>, config_file_exists: bool,
    server_list_file_exists: bool)
    requires
        read_through(args, None, None, None) is Some,
    ensures
        ({
            let (c, s, d) = read_through(args, None, None, None)->0;
            let r = parse_spec(args, config_file_exists, server_list_file_exists);
            &&& c matches Some(cv) ==> (r matches Ok(CliOutcome::Run { config, .. }) && config == cv)
            &&& c is None && config_file_exists ==> (r matches Ok(CliOutcome::Run { config, .. })
                && config == DEFAULT_CONFIG@)
            &&& c is None && !config_file_exists ==> r == Err::<CliOutcome, Seq<char>>(
                "-config is required (no psiphon.config found in the current directory either)"@)
            &&& r matches Ok(CliOutcome::Run { server_list, data_root_directory, .. }) ==> {
                &&& server_list == match s {
                    Some(sv) => sv,
                    None => if server_list_file_exists { DEFAULT_SERVER_LIST@ } else { Seq::empty() },
                }
                &&& data_root_directory == match d {
                    Some(dv) => dv,
                    None => DEFAULT_DATA_ROOT_DIRECTORY@,
                }
            }
        }),
{
    lemma_read_through(args, Seq::empty(), None, None, None, config_file_exists, server_list_file_exists);
    assert(args + Seq::<Seq<char>>::empty() =~= args);
}

/// After arguments read through, a positional argument, an unknown flag
/// or a known flag with no value left is refused with its message.
pub proof fn refusals(p: Seq<Seq<char>>, arg: Seq<char>, q: Seq<Seq<char>>, config_file_exists: bool,
    server_list_file_exists: bool)
    requires
        read_through(p, None, None, None) is Some,
        !is_help(arg),
    ensures
        ({
            let r = parse_spec(p + seq![arg] + q, config_file_exists, server_list_file_exists);
            let (flag, inline) = flag_parts(arg);
            &&& !(arg.len() > 0 && arg[0] == '-') ==> r == Err::<CliOutcome, Seq<char>>(
                "unexpected positional argument: "@ + arg)
            &&& arg.len() > 0 && arg[0] == '-' && !is_known_flag(flag) ==> r == Err::<CliOutcome, Seq<char>>(
                "unknown flag: -"@ + flag)
            &&& arg.len() > 0 && arg[0] == '-' && is_known_flag(flag) && inline is None && q.len() == 0
                ==> r == Err::<CliOutcome, Seq<char>>("flag -"@ + flag + " requires a value"@)
        }),
{
    let (c, s, d) = read_through(p, None, None, None)->0;
    assert(p + seq![arg] + q =~= p + (seq![arg] + q));
    lemma_read_through(p, seq![arg] + q, None, None, None, config_file_exists, server_list_file_exists);
    assert((seq![arg] + q)[0] == arg);
}

/// A help flag ends the reading: whatever follows it, the outcome is help.
pub proof fn help_stops_reading(
    arg: Seq<char>,
    rest: Seq<Seq<char>>,
    config: Option<Seq<char>>,
    server_list: Option<Seq<char>>,
    data_root_directory: Option<Seq<char>>,
    config_file_exists: bool,
    server_list_file_exists: bool,
)
    requires
        is_help(arg),
    ensures
        scan(seq![arg] + rest, config, server_list, data_root_directory, config_file_exists,
            server_list_file_exists) == Ok::<CliOutcome, Seq<char>>(CliOutcome::Help),
{
    assert((seq![arg] + rest)[0] == arg);
}

/// Without arguments, the data root directory is `data`; the config and
/// server list are the files of the current directory when they exist;
/// a missing config file is an error, a missing server list is empty.
pub proof fn no_arguments_use_defaults(config_file_exists: bool, server_list_file_exists: bool)
    ensures
        config_file_exists ==> parse_spec(Seq::empty(), config_file_exists, server_list_file_exists)
            == Ok::<CliOutcome, Seq<char>>(CliOutcome::Run {
                config: DEFAULT_CONFIG@,
                server_list: if server_list_file_exists { DEFAULT_SERVER_LIST@ } else { Seq::empty() },
                data_root_directory: DEFAULT_DATA_ROOT_DIRECTORY@,
            }),
        !config_file_exists ==> parse_spec(Seq::empty(), config_file_exists, server_list_file_exists) is Err,
{
}

/// The help text.
pub fn usage() -> (u: &'static str)
    ensures
        u@ == USAGE@,
{
    USAGE
}

} // verus!

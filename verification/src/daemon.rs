//! The command line of the long-running service.

use vstd::prelude::*;
use crate::text::{chars_of, str_eq, views};

verus! {

/// How the service runs.
#[derive(Debug, Clone)]
pub struct DaemonConfig {
    pub config_path: String,
    pub host: String,
    pub port: u16,
    pub daemon_mode: bool,
    pub pid_file: Option<String>,
    pub log_file: Option<String>,
}

impl Default for DaemonConfig {
    /// The configuration in config.toml, served on 127.0.0.1:8080, in the
    /// foreground.
    fn default() -> (c: Self)
        ensures
            c.config_path@ == "config.toml"@,
            c.host@ == "127.0.0.1"@,
            c.port == 8080,
            !c.daemon_mode,
            c.pid_file is None,
            c.log_file is None,
    {
        DaemonConfig {
            config_path: String::from_str("config.toml"),
            host: String::from_str("127.0.0.1"),
            port: 8080,
            daemon_mode: false,
            pid_file: None,
            log_file: None,
        }
    }
}

/// What the command line asks for.
#[derive(Debug, Clone)]
pub enum DaemonArgs {
    /// Run with this configuration.
    Run(DaemonConfig),
    /// Print the help text and stop.
    Help,
    /// Report this unknown argument, print the help text and stop.
    Unknown(String),
}

/// The value of a string of decimal digits.
pub open spec fn digits_value(s: Seq<char>) -> int
    decreases s.len(),
{
    if s.len() == 0 {
        0
    } else {
        digits_value(s.drop_last()) * 10 + (s.last() as int - '0' as int)
    }
}

/// Whether `s` is all decimal digits.
pub open spec fn all_digits(s: Seq<char>) -> bool {
    forall|i: int| 0 <= i < s.len() ==> '0' <= #[trigger] s[i] <= '9'
}

/// The port that a text names, as `str::parse::<u16>` reads it: decimal
/// digits, after an optional plus sign, of a value below 65536.
pub open spec fn port_of(s: Seq<char>) -> Option<u16> {
    let d = if s.len() > 0 && s[0] == '+' { s.skip(1) } else { s };
    if d.len() > 0 && all_digits(d) && digits_value(d) <= 65535 {
        Some(digits_value(d) as u16)
    } else {
        None
    }
}

/// The port that a text names, as `str::parse::<u16>` reads it.
pub fn parse_port(s: &str) -> (r: Option<u16>)
    ensures
        r == port_of(s@),
{
    let v = chars_of(s);
    let start: usize = if v.len() > 0 && v[0] == '+' { 1 } else { 0 };
    let ghost d = if s@.len() > 0 && s@[0] == '+' { s@.skip(1) } else { s@ };
    proof {
        assert(d =~= v@.skip(start as int));
    }
    if start >= v.len() {
        return None;
    }
    let mut value: u32 = 0;
    let mut i = start;
    while i < v.len()
        invariant
            start <= i <= v@.len(),
            v@ == s@,
            d == v@.skip(start as int),
            d == (if s@.len() > 0 && s@[0] == '+' { s@.skip(1) } else { s@ }),
            all_digits(d.take(i - start)),
            value == digits_value(d.take(i - start)),
            value <= 65535,
        decreases v@.len() - i,
    {
        let c = v[i];
        if c < '0' || c > '9' {
            proof {
                assert(d[i - start] == c);
                assert(!all_digits(d));
            }
            return None;
        }
        let digit: u32 = (c as u32) - ('0' as u32);
        proof {
            assert(d.take(i + 1 - start).drop_last() =~= d.take(i - start));
            assert(d.take(i + 1 - start).last() == c);
            assert(d[i - start] == c);
            assert forall|k: int| 0 <= k < i + 1 - start implies '0' <= #[trigger] d.take(i + 1 - start)[k] <= '9' by {
                if k < i - start {
                    assert(d.take(i + 1 - start)[k] == d.take(i - start)[k]);
                }
            }
            assert(digits_value(d.take(i + 1 - start)) == value * 10 + digit);
        }
        if value > 6553 || (value == 6553 && digit > 5) {
            proof {
                lemma_digits_grow(d, i + 1 - start);
            }
            return None;
        }
        value = value * 10 + digit;
        i = i + 1;
    }
    proof {
        assert(d.take(v@.len() - start) =~= d);
    }
    Some(value as u16)
}

proof fn lemma_digits_grow(d: Seq<char>, n: int)
    requires
        0 < n <= d.len(),
        all_digits(d.take(n)),
        digits_value(d.take(n)) > 65535,
    ensures
        !(all_digits(d) && digits_value(d) <= 65535),
    decreases d.len() - n,
{
    if n < d.len() && all_digits(d) {
        assert(d.take(n + 1).drop_last() =~= d.take(n));
        assert forall|k: int| 0 <= k < n + 1 implies '0' <= #[trigger] d.take(n + 1)[k] <= '9' by {
            assert(d.take(n + 1)[k] == d[k]);
        }
        lemma_digits_grow(d, n + 1);
    } else if n == d.len() {
        assert(d.take(n) =~= d);
    }
}

/// What a configuration holds, as plain text.
pub struct DaemonView {
    pub config_path: Seq<char>,
    pub host: Seq<char>,
    pub port: u16,
    pub daemon_mode: bool,
    pub pid_file: Option<Seq<char>>,
    pub log_file: Option<Seq<char>>,
}

/// What the command line asks for, as plain text.
pub enum ArgsView {
    Run(DaemonView),
    Help,
    Unknown(Seq<char>),
}

impl DaemonConfig {
    /// What this configuration holds, as plain text.
    pub open spec fn view(&self) -> DaemonView {
        DaemonView {
            config_path: self.config_path@,
            host: self.host@,
            port: self.port,
            daemon_mode: self.daemon_mode,
            pid_file: match self.pid_file { Some(p) => Some(p@), None => None },
            log_file: match self.log_file { Some(p) => Some(p@), None => None },
        }
    }
}

impl DaemonArgs {
    /// What the command line asks for, as plain text.
    pub open spec fn view(&self) -> ArgsView {
        match self {
            DaemonArgs::Run(c) => ArgsView::Run(c.view()),
            DaemonArgs::Help => ArgsView::Help,
            DaemonArgs::Unknown(a) => ArgsView::Unknown(a@),
        }
    }
}

/// Whether `a` is an option that takes a value.
pub open spec fn takes_value(a: Seq<char>) -> bool {
    a == "--config"@ || a == "--host"@ || a == "--port"@ || a == "--pid-file"@ || a == "--log-file"@
}

/// The configuration with option `o` set to `v`; a port that does not
/// parse leaves it as it was.
pub open spec fn with_option(c: DaemonView, o: Seq<char>, v: Seq<char>) -> DaemonView {
    if o == "--config"@ {
        DaemonView { config_path: v, ..c }
    } else if o == "--host"@ {
        DaemonView { host: v, ..c }
    } else if o == "--port"@ {
        match port_of(v) {
            Some(p) => DaemonView { port: p, ..c },
            None => c,
        }
    } else if o == "--pid-file"@ {
        DaemonView { pid_file: Some(v), ..c }
    } else {
        DaemonView { log_file: Some(v), ..c }
    }
}

/// What the arguments from position `i` on make of configuration `c`:
/// an option with a value takes the next argument where there is one,
/// `--daemon` turns on daemon mode, `--help` or `-h` asks for help, and
/// anything else is unknown.
pub open spec fn args_from(args: Seq<Seq<char>>, i: int, c: DaemonView) -> ArgsView
    decreases args.len() - i,
{
    if i < 0 || i >= args.len() {
        ArgsView::Run(c)
    } else if takes_value(args[i]) {
        if i + 1 < args.len() {
            args_from(args, i + 2, with_option(c, args[i], args[i + 1]))
        } else {
            args_from(args, i + 1, c)
        }
    } else if args[i] == "--daemon"@ {
        args_from(args, i + 1, DaemonView { daemon_mode: true, ..c })
    } else if args[i] == "--help"@ || args[i] == "-h"@ {
        ArgsView::Help
    } else {
        ArgsView::Unknown(args[i])
    }
}

/// What the command line asks for; `args` leaves out the program's name.
pub fn parse_daemon_args(args: &Vec<String>) -> (r: DaemonArgs)
    ensures
        r.view() == args_from(views(args@), 0, DaemonConfig::default_view()),
{
    let mut c = DaemonConfig::default();
    let mut i: usize = 0;
    proof {
        assert(c.view() == DaemonConfig::default_view());
    }
    while i < args.len()
        invariant
            i <= args@.len(),
            args_from(views(args@), 0, DaemonConfig::default_view()) == args_from(views(args@), i as int, c.view()),
        decreases args@.len() - i,
    {
        let a = args[i].as_str();
        proof {
            assert(views(args@)[i as int] == args@[i as int]@);
        }
        if str_eq(a, "--config") || str_eq(a, "--host") || str_eq(a, "--port") || str_eq(a, "--pid-file") || str_eq(a, "--log-file") {
            if i + 1 < args.len() {
                let v = args[i + 1].clone();
                proof {
                    assert(views(args@)[i + 1] == args@[i + 1]@);
                }
                if str_eq(a, "--config") {
                    c.config_path = v;
                } else if str_eq(a, "--host") {
                    c.host = v;
                } else if str_eq(a, "--port") {
                    match parse_port(v.as_str()) {
                        Some(p) => { c.port = p; },
                        None => {},
                    }
                } else if str_eq(a, "--pid-file") {
                    c.pid_file = Some(v);
                } else {
                    c.log_file = Some(v);
                }
                i = i + 2;
            } else {
                i = i + 1;
            }
        } else if str_eq(a, "--daemon") {
            c.daemon_mode = true;
            i = i + 1;
        } else if str_eq(a, "--help") || str_eq(a, "-h") {
            return DaemonArgs::Help;
        } else {
            return DaemonArgs::Unknown(args[i].clone());
        }
    }
    DaemonArgs::Run(c)
}

impl DaemonConfig {
    /// What the default configuration holds, as plain text.
    pub open spec fn default_view() -> DaemonView {
        DaemonView {
            config_path: "config.toml"@,
            host: "127.0.0.1"@,
            port: 8080,
            daemon_mode: false,
            pid_file: None,
            log_file: None,
        }
    }
}

} // verus!

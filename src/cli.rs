//! The command-line surface: `--filter/-f <text>`, `--port/-p <port>`,
//! `--json`, `--kill <pid>`, `--tui`, `--help/-h` and `--version/-V`. A value
//! follows its option as the next argument, after '=' (`--port=8080`,
//! `-p=8080`), or right after a short option (`-p8080`). Each option may be
//! given once.

use vstd::prelude::*;
use crate::scan::{parse_unsigned, parsed_unsigned};
use crate::text::chars_of;

verus! {

/// The options given on the command line.
#[derive(Clone, Debug)]
pub struct Cli {
    pub filter: Option<String>,
    pub port: Option<u16>,
    pub json: bool,
    pub kill: Option<u32>,
    pub tui: bool,
}

/// The value of a `Cli`.
pub struct CliView {
    pub filter: Option<Seq<char>>,
    pub port: Option<u16>,
    pub json: bool,
    pub kill: Option<u32>,
    pub tui: bool,
}

impl View for Cli {
    type V = CliView;

    open spec fn view(&self) -> CliView {
        CliView {
            filter: match self.filter {
                Some(f) => Some(f@),
                None => None,
            },
            port: self.port,
            json: self.json,
            kill: self.kill,
            tui: self.tui,
        }
    }
}

/// Why a command line was not accepted; each carries the index of the
/// argument at fault, counting the program name as 0.
#[derive(Clone, Copy, Debug, PartialEq, Eq, Structural)]
pub enum CliError {
    /// No such option.
    UnknownArgument(usize),
    /// The option needs a value and none follows.
    MissingValue(usize),
    /// The value is no number in range, or a flag was given a value.
    InvalidValue(usize),
    /// The option was given before.
    Repeated(usize),
    /// `--help` was asked for.
    HelpRequested(usize),
    /// `--version` was asked for.
    VersionRequested(usize),
}

/// The options, by what they do.
#[derive(Clone, Copy, Debug, PartialEq, Eq, Structural)]
pub enum Opt {
    Filter,
    Port,
    Json,
    Kill,
    Tui,
    Help,
    Version,
}

/// The option an argument names, if any.
pub open spec fn option_of(name: Seq<char>) -> Option<Opt> {
    if name == "--filter"@ || name == "-f"@ {
        Some(Opt::Filter)
    } else if name == "--port"@ || name == "-p"@ {
        Some(Opt::Port)
    } else if name == "--json"@ {
        Some(Opt::Json)
    } else if name == "--kill"@ {
        Some(Opt::Kill)
    } else if name == "--tui"@ {
        Some(Opt::Tui)
    } else if name == "--help"@ || name == "-h"@ {
        Some(Opt::Help)
    } else if name == "--version"@ || name == "-V"@ {
        Some(Opt::Version)
    } else {
        None
    }
}

/// The index of the first '=' of `s` at or after `from`, or `s.len()`.
pub open spec fn find_eq(s: Seq<char>, from: int) -> int
    decreases s.len() - from,
{
    if from < 0 || from >= s.len() {
        s.len() as int
    } else if s[from] == '=' {
        from
    } else {
        find_eq(s, from + 1)
    }
}

/// An argument split into the option it names and a value given with it: a
/// long option carries one after its first '=' (`--name=value`), a short one
/// in the rest of the argument, without a leading '=' (`-nvalue`, `-n=value`).
pub open spec fn split_inline(a: Seq<char>) -> (Seq<char>, Option<Seq<char>>) {
    if a.len() >= 2 && a[0] == '-' && a[1] == '-' {
        if find_eq(a, 2) < a.len() {
            let e = find_eq(a, 2);
            (a.subrange(0, e), Some(a.subrange(e + 1, a.len() as int)))
        } else {
            (a, None)
        }
    } else if a.len() > 2 && a[0] == '-' {
        let v = if a[2] == '=' {
            a.subrange(3, a.len() as int)
        } else {
            a.subrange(2, a.len() as int)
        };
        (a.subrange(0, 2), Some(v))
    } else {
        (a, None)
    }
}

/// No option given.
pub open spec fn no_options() -> CliView {
    CliView { filter: None, port: None, json: false, kill: None, tui: false }
}

/// Reading the argument at `i` on top of `acc`: the options so far and the
/// index of the next argument, or why the command line is refused.
pub open spec fn step(args: Seq<Seq<char>>, i: int, acc: CliView) -> Result<(CliView, int), CliError> {
    let (name, inline) = split_inline(args[i]);
    let at = i as usize;
    match option_of(name) {
        None => Err(CliError::UnknownArgument(at)),
        Some(Opt::Help) => Err(CliError::HelpRequested(at)),
        Some(Opt::Version) => Err(CliError::VersionRequested(at)),
        Some(Opt::Json) => if inline is Some {
            Err(CliError::InvalidValue(at))
        } else if acc.json {
            Err(CliError::Repeated(at))
        } else {
            Ok((CliView { json: true, ..acc }, i + 1))
        },
        Some(Opt::Tui) => if inline is Some {
            Err(CliError::InvalidValue(at))
        } else if acc.tui {
            Err(CliError::Repeated(at))
        } else {
            Ok((CliView { tui: true, ..acc }, i + 1))
        },
        Some(opt) => {
            let next = if inline is Some { i + 1 } else { i + 2 };
            if inline is None && i + 1 >= args.len() {
                Err(CliError::MissingValue(at))
            } else {
                let v = match inline {
                    Some(v) => v,
                    None => args[i + 1],
                };
                match opt {
                    Opt::Filter => if acc.filter is Some {
                        Err(CliError::Repeated(at))
                    } else {
                        Ok((CliView { filter: Some(v), ..acc }, next))
                    },
                    Opt::Port => if acc.port is Some {
                        Err(CliError::Repeated(at))
                    } else {
                        match parsed_unsigned(v, u16::MAX as nat) {
                            Some(n) => Ok((CliView { port: Some(n as u16), ..acc }, next)),
                            None => Err(CliError::InvalidValue(at)),
                        }
                    },
                    _ => if acc.kill is Some {
                        Err(CliError::Repeated(at))
                    } else {
                        match parsed_unsigned(v, u32::MAX as nat) {
                            Some(n) => Ok((CliView { kill: Some(n as u32), ..acc }, next)),
                            None => Err(CliError::InvalidValue(at)),
                        }
                    },
                }
            }
        },
    }
}

/// Reading the arguments from index `i` on, on top of `acc`.
pub open spec fn parse_rest(args: Seq<Seq<char>>, i: int, acc: CliView) -> Result<CliView, CliError>
    decreases args.len() - i,
{
    if i < 0 || i >= args.len() {
        Ok(acc)
    } else {
        match step(args, i, acc) {
            Ok((next_acc, j)) => if j > i {
                parse_rest(args, j, next_acc)
            } else {
                Ok(next_acc)
            },
            Err(e) => Err(e),
        }
    }
}

/// The views of the arguments.
pub open spec fn arg_texts(args: Seq<&str>) -> Seq<Seq<char>> {
    args.map_values(|a: &str| a@)
}

/// What a command line means; the first argument is the program name.
pub open spec fn parse_args(args: Seq<Seq<char>>) -> Result<CliView, CliError> {
    parse_rest(args, 1, no_options())
}

/// Whether `chars[0..hi]` spells `lit`.
fn spells(chars: &Vec<char>, hi: usize, lit: &str) -> (r: bool)
    requires
        hi <= chars.len(),
    ensures
        r == (chars@.subrange(0, hi as int) == lit@),
{
    let l = chars_of(lit);
    if l.len() != hi {
        return false;
    }
    let mut i: usize = 0;
    while i < hi
        invariant
            i <= hi <= chars.len(),
            l@ == lit@,
            l.len() == hi,
            forall|j: int| 0 <= j < i ==> chars@[j] == l@[j],
        decreases hi - i,
    {
        if chars[i] != l[i] {
            assert(chars@.subrange(0, hi as int)[i as int] != lit@[i as int]);
            return false;
        }
        i = i + 1;
    }
    assert(chars@.subrange(0, hi as int) =~= lit@);
    true
}

/// The option that `chars[0..hi]` names.
fn option_at(chars: &Vec<char>, hi: usize) -> (r: Option<Opt>)
    requires
        hi <= chars.len(),
    ensures
        r == option_of(chars@.subrange(0, hi as int)),
{
    if spells(chars, hi, "--filter") || spells(chars, hi, "-f") {
        Some(Opt::Filter)
    } else if spells(chars, hi, "--port") || spells(chars, hi, "-p") {
        Some(Opt::Port)
    } else if spells(chars, hi, "--json") {
        Some(Opt::Json)
    } else if spells(chars, hi, "--kill") {
        Some(Opt::Kill)
    } else if spells(chars, hi, "--tui") {
        Some(Opt::Tui)
    } else if spells(chars, hi, "--help") || spells(chars, hi, "-h") {
        Some(Opt::Help)
    } else if spells(chars, hi, "--version") || spells(chars, hi, "-V") {
        Some(Opt::Version)
    } else {
        None
    }
}

/// Where the option name of an argument ends and where a value given with
/// it starts; the name ends at `chars.len()` when no value is given with it.
fn name_end(chars: &Vec<char>) -> (r: (usize, usize))
    ensures
        r.0 <= r.1 <= chars.len(),
        r.0 < chars.len() <==> split_inline(chars@).1 is Some,
        r.0 < chars.len() ==> split_inline(chars@) == (
            chars@.subrange(0, r.0 as int),
            Some(chars@.subrange(r.1 as int, chars.len() as int)),
        ),
        r.0 == chars.len() ==> split_inline(chars@).0 == chars@,
{
    let len = chars.len();
    if len >= 2 && chars[0] == '-' && chars[1] == '-' {
        let mut k: usize = 2;
        while k < len
            invariant
                2 <= k <= len == chars.len(),
                chars@[0] == '-' && chars@[1] == '-',
                find_eq(chars@, 2) == find_eq(chars@, k as int),
            decreases len - k,
        {
            if chars[k] == '=' {
                assert(find_eq(chars@, k as int) == k);
                return (k, k + 1);
            }
            k = k + 1;
        }
        return (len, len);
    }
    if len > 2 && chars[0] == '-' {
        if chars[2] == '=' {
            return (2, 3);
        }
        return (2, 2);
    }
    (len, len)
}

impl Cli {
    /// No option given.
    pub fn empty() -> (c: Cli)
        ensures
            c@ == no_options(),
    {
        Cli { filter: None, port: None, json: false, kill: None, tui: false }
    }

    /// Reads the argument at `i` on top of `self`.
    fn step_at(self, args: &Vec<&str>, i: usize) -> (r: Result<(Cli, usize), CliError>)
        requires
            i < args.len(),
        ensures
            match (r, step(arg_texts(args@), i as int, self@)) {
                (Ok((c, j)), Ok((v, k))) => c@ == v && j == k,
                (Err(e), Err(f)) => e == f,
                _ => false,
            },
    {
        let ghost texts = arg_texts(args@);
        let a = args[i];
        let chars = chars_of(a);
        assert(texts[i as int] == chars@);
        let (e, vs) = name_end(&chars);
        let has_inline = e < chars.len();
        proof {
            if !has_inline {
                assert(chars@.subrange(0, e as int) =~= chars@);
            }
        }
        let opt = option_at(&chars, e);
        let mut c = self;
        match opt {
            None => Err(CliError::UnknownArgument(i)),
            Some(Opt::Help) => Err(CliError::HelpRequested(i)),
            Some(Opt::Version) => Err(CliError::VersionRequested(i)),
            Some(Opt::Json) => {
                if has_inline {
                    Err(CliError::InvalidValue(i))
                } else if c.json {
                    Err(CliError::Repeated(i))
                } else {
                    c.json = true;
                    Ok((c, i + 1))
                }
            },
            Some(Opt::Tui) => {
                if has_inline {
                    Err(CliError::InvalidValue(i))
                } else if c.tui {
                    Err(CliError::Repeated(i))
                } else {
                    c.tui = true;
                    Ok((c, i + 1))
                }
            },
            Some(o) => {
                if !has_inline && i + 1 >= args.len() {
                    return Err(CliError::MissingValue(i));
                }
                let next = if has_inline { i + 1 } else { i + 2 };
                let vchars = if has_inline {
                    let mut v: Vec<char> = Vec::new();
                    let mut k = vs;
                    while k < chars.len()
                        invariant
                            vs <= k <= chars.len(),
                            v@ == chars@.subrange(vs as int, k as int),
                        decreases chars.len() - k,
                    {
                        v.push(chars[k]);
                        k = k + 1;
                    }
                    v
                } else {
                    chars_of(args[i + 1])
                };
                let ghost v = match split_inline(texts[i as int]).1 {
                    Some(v) => v,
                    None => texts[i + 1],
                };
                assert(vchars@ == v);
                match o {
                    Opt::Filter => {
                        if c.filter.is_some() {
                            return Err(CliError::Repeated(i));
                        }
                        let text = if has_inline {
                            a.substring_char(vs, chars.len()).to_owned()
                        } else {
                            args[i + 1].to_owned()
                        };
                        c.filter = Some(text);
                        Ok((c, next))
                    },
                    Opt::Port => {
                        if c.port.is_some() {
                            return Err(CliError::Repeated(i));
                        }
                        assert(vchars@.subrange(0, vchars.len() as int) =~= v);
                        match parse_unsigned(&vchars, 0, vchars.len(), 0xFFFF) {
                            Some(n) => {
                                c.port = Some(n as u16);
                                Ok((c, next))
                            },
                            None => Err(CliError::InvalidValue(i)),
                        }
                    },
                    _ => {
                        if c.kill.is_some() {
                            return Err(CliError::Repeated(i));
                        }
                        assert(vchars@.subrange(0, vchars.len() as int) =~= v);
                        match parse_unsigned(&vchars, 0, vchars.len(), 0xFFFF_FFFF) {
                            Some(n) => {
                                c.kill = Some(n as u32);
                                Ok((c, next))
                            },
                            None => Err(CliError::InvalidValue(i)),
                        }
                    },
                }
            },
        }
    }

    /// Reads a command line whose first argument is the program name.
    pub fn try_parse_from(args: Vec<&str>) -> (r: Result<Cli, CliError>)
        ensures
            match (r, parse_args(arg_texts(args@))) {
                (Ok(c), Ok(v)) => c@ == v,
                (Err(e), Err(f)) => e == f,
                _ => false,
            },
    {
        let ghost texts = arg_texts(args@);
        let mut cli = Cli::empty();
        let mut i: usize = 1;
        while i < args.len()
            invariant
                1 <= i,
                texts == arg_texts(args@),
                parse_rest(texts, i as int, cli@) == parse_args(texts),
            decreases args.len() - i,
        {
            match cli.step_at(&args, i) {
                Ok((c, j)) => {
                    cli = c;
                    i = j;
                },
                Err(e) => {
                    return Err(e);
                },
            }
        }
        Ok(cli)
    }

    /// Reads a command line that is known to be accepted.
    pub fn parse_from(args: Vec<&str>) -> (c: Cli)
        requires
            parse_args(arg_texts(args@)) is Ok,
        ensures
            parse_args(arg_texts(args@)) == Ok::<CliView, CliError>(c@),
    {
        match Cli::try_parse_from(args) {
            Ok(c) => c,
            Err(_) => Cli::empty(),
        }
    }
}

} // verus!

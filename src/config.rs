//! The run's configuration, and reading it from command-line arguments.
use vstd::prelude::*;
use vstd::string::*;
use crate::filesystem::{resolution_of, validate_filesystem, FsError};
use crate::name::{sanitize_volume_name, sanitized};
use crate::text::same_text;

verus! {

/// What one run is asked to do.
#[derive(Clone, Debug)]
pub struct Config {
    /// The size token, as typed.
    pub size: String,
    /// The volume name.
    pub name: String,
    /// The filesystem token, as typed.
    pub filesystem: String,
    /// Whether to report each step.
    pub verbose: bool,
}

impl Default for Config {
    fn default() -> (r: Self)
        ensures
            r.size@.len() == 0,
            r.name@ == "RAMDisk"@,
            r.filesystem@ == "apfs"@,
            !r.verbose,
    {
        Config {
            size: String::new(),
            name: String::from_str("RAMDisk"),
            filesystem: String::from_str("apfs"),
            verbose: false,
        }
    }
}

/// What the arguments ask for.
#[derive(Clone, Debug)]
pub enum Command {
    /// Show the usage text.
    Help,
    /// Provision a volume.
    Run(Config),
}

/// Why the arguments were refused.
#[derive(Clone, Debug)]
pub enum ArgError {
    /// `-f` or `--format` came last, without its value.
    MissingFormatValue,
    /// An argument starting with `-` that is no known option.
    UnknownOption(String),
    /// More than a size and a name were given.
    TooManyArguments,
    /// No size, or an empty one, was given.
    MissingSize,
    /// The filesystem token names no supported filesystem.
    Filesystem(FsError),
}

/// What a scan of the arguments' text comes to, before the filesystem is
/// checked and the name sanitized.
pub enum ArgsView {
    Help,
    Run { size: Seq<char>, name: Seq<char>, filesystem: Seq<char>, verbose: bool },
    MissingFormatValue,
    UnknownOption(Seq<char>),
    TooManyArguments,
    MissingSize,
}

pub open spec fn texts(args: Seq<String>) -> Seq<Seq<char>> {
    args.map_values(|s: String| s@)
}

pub open spec fn opt_text(o: Option<String>) -> Option<Seq<char>> {
    match o {
        Some(s) => Some(s@),
        None => None,
    }
}

/// Reads the arguments from index `i` on, with what was read before them:
/// options anywhere, the first positional argument as the size and the second
/// as the name.
pub open spec fn scan_args(
    args: Seq<Seq<char>>,
    i: int,
    size: Option<Seq<char>>,
    name: Option<Seq<char>>,
    filesystem: Seq<char>,
    verbose: bool,
) -> ArgsView
    decreases args.len() - i,
{
    if i < 0 || i >= args.len() {
        if size is Some && size->0.len() > 0 {
            ArgsView::Run {
                size: size->0,
                name: if name is Some {
                    name->0
                } else {
                    "RAMDisk"@
                },
                filesystem,
                verbose,
            }
        } else {
            ArgsView::MissingSize
        }
    } else {
        let a = args[i];
        if a == "-h"@ || a == "--help"@ {
            ArgsView::Help
        } else if a == "-v"@ || a == "--verbose"@ {
            scan_args(args, i + 1, size, name, filesystem, true)
        } else if a == "-f"@ || a == "--format"@ {
            if i + 1 >= args.len() {
                ArgsView::MissingFormatValue
            } else {
                scan_args(args, i + 2, size, name, args[i + 1], verbose)
            }
        } else if a.len() > 0 && a[0] == '-' {
            ArgsView::UnknownOption(a)
        } else if size is None {
            scan_args(args, i + 1, Some(a), name, filesystem, verbose)
        } else if name is None {
            scan_args(args, i + 1, size, Some(a), filesystem, verbose)
        } else {
            ArgsView::TooManyArguments
        }
    }
}

/// What the whole argument list comes to.
pub open spec fn args_view(args: Seq<Seq<char>>) -> ArgsView {
    scan_args(args, 0, None, None, "apfs"@, false)
}

/// Whether `r` is what `parse_args` owes for a scan that came to `v`.
pub open spec fn parsed_as(r: Result<Command, ArgError>, v: ArgsView) -> bool {
    match v {
        ArgsView::Help => r matches Ok(Command::Help),
        ArgsView::Run { size, name, filesystem, verbose } => if resolution_of(filesystem) is Ok {
            r matches Ok(Command::Run(c)) && c.size@ == size && c.name@ == sanitized(name)
                && c.filesystem@ == filesystem && c.verbose == verbose
        } else {
            r matches Err(ArgError::Filesystem(e)) && e.token@ == filesystem
        },
        ArgsView::MissingFormatValue => r matches Err(ArgError::MissingFormatValue),
        ArgsView::UnknownOption(a) => r matches Err(ArgError::UnknownOption(o)) && o@ == a,
        ArgsView::TooManyArguments => r matches Err(ArgError::TooManyArguments),
        ArgsView::MissingSize => r matches Err(ArgError::MissingSize),
    }
}

/// Reads the command-line arguments (without the program name).
pub fn parse_args(args: &[String]) -> (r: Result<Command, ArgError>)
    ensures
        parsed_as(r, args_view(texts(args@))),
{
    let ghost t = texts(args@);
    let n = args.len();
    let mut size: Option<String> = None;
    let mut name: Option<String> = None;
    let mut filesystem = String::from_str("apfs");
    let mut verbose = false;
    let mut i: usize = 0;
    while i < n
        invariant
            n == args@.len(),
            t == texts(args@),
            i <= n,
            args_view(t) == scan_args(t, i as int, opt_text(size), opt_text(name), filesystem@, verbose),
        decreases n - i,
    {
        let a = args[i].as_str();
        assert(t[i as int] == a@);
        if same_text(a, "-h") || same_text(a, "--help") {
            return Ok(Command::Help);
        } else if same_text(a, "-v") || same_text(a, "--verbose") {
            verbose = true;
            i = i + 1;
        } else if same_text(a, "-f") || same_text(a, "--format") {
            if i + 1 >= n {
                return Err(ArgError::MissingFormatValue);
            }
            assert(t[i + 1] == args@[i + 1]@);
            filesystem = args[i + 1].clone();
            i = i + 2;
        } else if a.unicode_len() > 0 && a.get_char(0) == '-' {
            return Err(ArgError::UnknownOption(args[i].clone()));
        } else if size.is_none() {
            size = Some(args[i].clone());
            i = i + 1;
        } else if name.is_none() {
            name = Some(args[i].clone());
            i = i + 1;
        } else {
            return Err(ArgError::TooManyArguments);
        }
    }
    let size = match size {
        Some(s) => s,
        None => {
            return Err(ArgError::MissingSize);
        },
    };
    if size.unicode_len() == 0 {
        return Err(ArgError::MissingSize);
    }
    let raw_name = match name {
        Some(s) => s,
        None => String::from_str("RAMDisk"),
    };
    match validate_filesystem(filesystem.as_str()) {
        Ok(()) => {},
        Err(e) => {
            return Err(ArgError::Filesystem(e));
        },
    }
    let name = sanitize_volume_name(raw_name.as_str());
    Ok(Command::Run(Config { size, name, filesystem, verbose }))
}

} // verus!

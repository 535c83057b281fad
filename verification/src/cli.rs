//! Command-line options, parsed by a verified parser whose meaning is a
//! single recursive specification over the argument list.

use vstd::prelude::*;

use crate::strutil::{parse_u8, spec_parse_u8, spec_trim, str_eq, trim_spaces};
use crate::views::strs_view;

verus! {

/// The subcommands.
#[derive(Debug, Clone, Copy, PartialEq, Eq, Structural)]
pub enum Commands {
    Envs,
    Cache,
    Help,
    Version,
    GuiTest,
}

/// The parsed command line.
pub struct Cli {
    pub preview: bool,
    pub no_log: bool,
    pub tty: Option<u8>,
    pub config: Option<String>,
    pub variables: Option<String>,
    pub command: Option<Commands>,
    pub xsessions: Option<String>,
    pub wlsessions: Option<String>,
    pub initial_path: Option<String>,
}

/// Why the command line was rejected.
#[derive(Debug, Clone, PartialEq, Eq)]
pub enum CliError {
    /// The named flag came last, with no argument after it.
    MissingArgument(&'static str),
    /// The TTY number did not parse, or lies outside 1 to 12.
    InvalidTTY,
    /// An unknown flag or command.
    InvalidArgument(String),
}

/// The mathematical shape of a parsed command line.
pub ghost struct CliModel {
    pub preview: bool,
    pub no_log: bool,
    pub tty: Option<u8>,
    pub config: Option<Seq<char>>,
    pub variables: Option<Seq<char>>,
    pub command: Option<Commands>,
    pub xsessions: Option<Seq<char>>,
    pub wlsessions: Option<Seq<char>>,
    pub initial_path: Option<Seq<char>>,
}

/// The mathematical shape of a rejection.
pub ghost enum CliErrModel {
    MissingArgument(Seq<char>),
    InvalidTTY,
    InvalidArgument(Seq<char>),
}

/// The view of an optional string.
pub open spec fn opt_view(o: Option<String>) -> Option<Seq<char>> {
    match o {
        Some(s) => Some(s@),
        None => None,
    }
}

impl Cli {
    /// The mathematical shape of this command line.
    pub open spec fn model(&self) -> CliModel {
        CliModel {
            preview: self.preview,
            no_log: self.no_log,
            tty: self.tty,
            config: opt_view(self.config),
            variables: opt_view(self.variables),
            command: self.command,
            xsessions: opt_view(self.xsessions),
            wlsessions: opt_view(self.wlsessions),
            initial_path: opt_view(self.initial_path),
        }
    }
}

impl CliError {
    /// The mathematical shape of this rejection.
    pub open spec fn model(&self) -> CliErrModel {
        match self {
            CliError::MissingArgument(f) => CliErrModel::MissingArgument(f@),
            CliError::InvalidTTY => CliErrModel::InvalidTTY,
            CliError::InvalidArgument(a) => CliErrModel::InvalidArgument(a@),
        }
    }
}

/// A command line with nothing set.
pub open spec fn spec_default_cli() -> CliModel {
    CliModel {
        preview: false,
        no_log: false,
        tty: None,
        config: None,
        variables: None,
        command: None,
        xsessions: None,
        wlsessions: None,
        initial_path: None,
    }
}

/// What parsing the remaining arguments onto an accumulated command line
/// means. Each option is matched with surrounding whitespace stripped; an
/// option that takes a value consumes the following argument as given. A TTY
/// number must parse and lie between 1 and 12.
pub open spec fn spec_parse_from(acc: CliModel, args: Seq<Seq<char>>) -> Result<
    CliModel,
    CliErrModel,
>
    decreases args.len(),
{
    if args.len() == 0 {
        Ok(acc)
    } else {
        let t = spec_trim(args[0]);
        if t == "envs"@ {
            spec_parse_from(CliModel { command: Some(Commands::Envs), ..acc }, args.skip(1))
        } else if t == "cache"@ {
            spec_parse_from(CliModel { command: Some(Commands::Cache), ..acc }, args.skip(1))
        } else if t == "help"@ || t == "--help"@ || t == "-h"@ {
            spec_parse_from(CliModel { command: Some(Commands::Help), ..acc }, args.skip(1))
        } else if t == "--version"@ || t == "-V"@ {
            spec_parse_from(CliModel { command: Some(Commands::Version), ..acc }, args.skip(1))
        } else if t == "gui-test"@ {
            spec_parse_from(CliModel { command: Some(Commands::GuiTest), ..acc }, args.skip(1))
        } else if t == "--preview"@ {
            spec_parse_from(CliModel { preview: true, ..acc }, args.skip(1))
        } else if t == "--no-log"@ {
            spec_parse_from(CliModel { no_log: true, ..acc }, args.skip(1))
        } else if t == "--tty"@ {
            if args.len() < 2 {
                Err(CliErrModel::MissingArgument("tty"@))
            } else {
                match spec_parse_u8(args[1]) {
                    None => Err(CliErrModel::InvalidTTY),
                    Some(v) => if v == 0 || v > 12 {
                        Err(CliErrModel::InvalidTTY)
                    } else {
                        spec_parse_from(CliModel { tty: Some(v), ..acc }, args.skip(2))
                    },
                }
            }
        } else if t == "--config"@ || t == "-c"@ {
            if args.len() < 2 {
                Err(CliErrModel::MissingArgument("config"@))
            } else {
                spec_parse_from(CliModel { config: Some(args[1]), ..acc }, args.skip(2))
            }
        } else if t == "--xsessions"@ {
            if args.len() < 2 {
                Err(CliErrModel::MissingArgument("xsessions"@))
            } else {
                spec_parse_from(CliModel { xsessions: Some(args[1]), ..acc }, args.skip(2))
            }
        } else if t == "--wlsessions"@ {
            if args.len() < 2 {
                Err(CliErrModel::MissingArgument("wlsessions"@))
            } else {
                spec_parse_from(CliModel { wlsessions: Some(args[1]), ..acc }, args.skip(2))
            }
        } else if t == "--variables"@ || t == "-v"@ {
            if args.len() < 2 {
                Err(CliErrModel::MissingArgument("variables"@))
            } else {
                spec_parse_from(CliModel { variables: Some(args[1]), ..acc }, args.skip(2))
            }
        } else if t == "--initial-path"@ {
            if args.len() < 2 {
                Err(CliErrModel::MissingArgument("initial-path"@))
            } else {
                spec_parse_from(CliModel { initial_path: Some(args[1]), ..acc }, args.skip(2))
            }
        } else {
            Err(CliErrModel::InvalidArgument(t))
        }
    }
}

impl Cli {
    /// Parse a full argument list, exactly as [`spec_parse_from`] states,
    /// starting from a command line with nothing set.
    pub fn parse_args(args: Vec<String>) -> (r: Result<Cli, CliError>)
        ensures
            match r {
                Ok(cli) => spec_parse_from(spec_default_cli(), strs_view(args@)) == Ok::<
                    CliModel,
                    CliErrModel,
                >(cli.model()),
                Err(e) => spec_parse_from(spec_default_cli(), strs_view(args@)) == Err::<
                    CliModel,
                    CliErrModel,
                >(e.model()),
            },
    {
        let ghost all = strs_view(args@);
        let mut cli = Cli {
            preview: false,
            no_log: false,
            tty: None,
            config: None,
            variables: None,
            command: None,
            xsessions: None,
            wlsessions: None,
            initial_path: None,
        };
        let mut i: usize = 0;
        proof {
            assert(all.skip(0) =~= all);
            assert(cli.model() == spec_default_cli());
        }
        while i < args.len()
            invariant
                all == strs_view(args@),
                0 <= i <= args@.len(),
                spec_parse_from(spec_default_cli(), all) == spec_parse_from(
                    cli.model(),
                    all.skip(i as int),
                ),
            decreases args@.len() - i,
        {
            proof {
                assert(all.skip(i as int)[0] == args@[i as int]@);
                assert(all.skip(i as int).skip(1) =~= all.skip(i as int + 1));
                if i + 1 < args@.len() {
                    assert(all.skip(i as int)[1] == args@[i as int + 1]@);
                    assert(all.skip(i as int).skip(2) =~= all.skip(i as int + 2));
                }
            }
            let trimmed = trim_spaces(args[i].as_str());
            if str_eq(trimmed, "envs") {
                cli.command = Some(Commands::Envs);
                i = i + 1;
            } else if str_eq(trimmed, "cache") {
                cli.command = Some(Commands::Cache);
                i = i + 1;
            } else if str_eq(trimmed, "help") || str_eq(trimmed, "--help") || str_eq(
                trimmed,
                "-h",
            ) {
                cli.command = Some(Commands::Help);
                i = i + 1;
            } else if str_eq(trimmed, "--version") || str_eq(trimmed, "-V") {
                cli.command = Some(Commands::Version);
                i = i + 1;
            } else if str_eq(trimmed, "gui-test") {
                cli.command = Some(Commands::GuiTest);
                i = i + 1;
            } else if str_eq(trimmed, "--preview") {
                cli.preview = true;
                i = i + 1;
            } else if str_eq(trimmed, "--no-log") {
                cli.no_log = true;
                i = i + 1;
            } else if str_eq(trimmed, "--tty") {
                if i + 1 >= args.len() {
                    return Err(CliError::MissingArgument("tty"));
                }
                match parse_u8(args[i + 1].as_str()) {
                    None => {
                        return Err(CliError::InvalidTTY);
                    },
                    Some(v) => {
                        if v == 0 || v > 12 {
                            return Err(CliError::InvalidTTY);
                        }
                        cli.tty = Some(v);
                        i = i + 2;
                    },
                }
            } else if str_eq(trimmed, "--config") || str_eq(trimmed, "-c") {
                if i + 1 >= args.len() {
                    return Err(CliError::MissingArgument("config"));
                }
                cli.config = Some(args[i + 1].clone());
                i = i + 2;
            } else if str_eq(trimmed, "--xsessions") {
                if i + 1 >= args.len() {
                    return Err(CliError::MissingArgument("xsessions"));
                }
                cli.xsessions = Some(args[i + 1].clone());
                i = i + 2;
            } else if str_eq(trimmed, "--wlsessions") {
                if i + 1 >= args.len() {
                    return Err(CliError::MissingArgument("wlsessions"));
                }
                cli.wlsessions = Some(args[i + 1].clone());
                i = i + 2;
            } else if str_eq(trimmed, "--variables") || str_eq(trimmed, "-v") {
                if i + 1 >= args.len() {
                    return Err(CliError::MissingArgument("variables"));
                }
                cli.variables = Some(args[i + 1].clone());
                i = i + 2;
            } else if str_eq(trimmed, "--initial-path") {
                if i + 1 >= args.len() {
                    return Err(CliError::MissingArgument("initial-path"));
                }
                cli.initial_path = Some(args[i + 1].clone());
                i = i + 2;
            } else {
                return Err(CliError::InvalidArgument(trimmed.to_owned()));
            }
        }
        proof {
            assert(all.skip(i as int) =~= Seq::<Seq<char>>::empty());
        }
        Ok(cli)
    }
}

} // verus!

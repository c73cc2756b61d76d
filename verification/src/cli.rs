//! The commands of the command-line tool, and the choice of what each one
//! runs.
use vstd::prelude::*;

use crate::error::Error;
use crate::paths::{path_debug, path_debug_spec, path_extension, path_extension_spec};
use crate::shuffle::{output_paths, output_paths_spec};
use crate::text::{concat, str_eq};

verus! {

broadcast use vstd::string::group_string_axioms;

/// The data formats the tool reads and writes.
#[derive(Clone, Copy, Debug, PartialEq, Eq, Structural)]
pub enum Format {
    Sfbinpack,
    Viriformat,
    Bulletformat,
    Bulletplain,
}

pub open spec fn format_name(f: Format) -> Seq<char> {
    match f {
        Format::Sfbinpack => "sfbinpack"@,
        Format::Viriformat => "viriformat"@,
        Format::Bulletformat => "bulletformat"@,
        Format::Bulletplain => "bulletplain"@,
    }
}

/// The format named by a file extension.
pub open spec fn format_of_extension(ext: Seq<char>) -> Option<Format> {
    if ext == "vf"@ || ext == "viri"@ || ext == "viriformat"@ {
        Some(Format::Viriformat)
    } else if ext == "sf"@ || ext == "sfbinpack"@ || ext == "binpack"@ {
        Some(Format::Sfbinpack)
    } else if ext == "bf"@ || ext == "bullet"@ || ext == "bulletformat"@ {
        Some(Format::Bulletformat)
    } else if ext == "txt"@ || ext == "bulletplain"@ {
        Some(Format::Bulletplain)
    } else {
        None
    }
}

/// The result of inferring a format (or backend) from a path's extension,
/// with the error the tool gives when it cannot.
pub open spec fn inferred<T>(path: Seq<char>, found: spec_fn(Seq<char>) -> Option<T>, what: Seq<char>, r: Result<T, Error>) -> bool {
    match path_extension_spec(path) {
        None => r matches Err(Error::InvalidFormat(m)) && m@ == "could not infer format from path: "@
            + path_debug_spec(path),
        Some(ext) => match found(ext) {
            Some(f) => r == Ok::<T, Error>(f),
            None => r matches Err(Error::InvalidFormat(m)) && m@ == what + ext,
        },
    }
}

impl Format {
    /// The format's name as the command line writes it.
    pub fn name(self) -> (s: &'static str)
        ensures
            s@ == format_name(self),
    {
        proof {
            reveal_strlit("sfbinpack");
            reveal_strlit("viriformat");
            reveal_strlit("bulletformat");
            reveal_strlit("bulletplain");
        }
        match self {
            Format::Sfbinpack => "sfbinpack",
            Format::Viriformat => "viriformat",
            Format::Bulletformat => "bulletformat",
            Format::Bulletplain => "bulletplain",
        }
    }

    /// The format named by a file extension, if any.
    pub fn from_extension(ext: &str) -> (r: Option<Format>)
        ensures
            r == format_of_extension(ext@),
    {
        proof {
            reveal_strlit("vf");
            reveal_strlit("viri");
            reveal_strlit("viriformat");
            reveal_strlit("sf");
            reveal_strlit("sfbinpack");
            reveal_strlit("binpack");
            reveal_strlit("bf");
            reveal_strlit("bullet");
            reveal_strlit("bulletformat");
            reveal_strlit("txt");
            reveal_strlit("bulletplain");
        }
        if str_eq(ext, "vf") || str_eq(ext, "viri") || str_eq(ext, "viriformat") {
            Some(Format::Viriformat)
        } else if str_eq(ext, "sf") || str_eq(ext, "sfbinpack") || str_eq(ext, "binpack") {
            Some(Format::Sfbinpack)
        } else if str_eq(ext, "bf") || str_eq(ext, "bullet") || str_eq(ext, "bulletformat") {
            Some(Format::Bulletformat)
        } else if str_eq(ext, "txt") || str_eq(ext, "bulletplain") {
            Some(Format::Bulletplain)
        } else {
            None
        }
    }

    /// Infers the format of a file from its extension.
    pub fn from_path(path: &str) -> (r: Result<Format, Error>)
        ensures
            inferred(path@, |e: Seq<char>| format_of_extension(e), "unknown file extension for format inference: "@, r),
    {
        proof {
            reveal_strlit("could not infer format from path: ");
            reveal_strlit("unknown file extension for format inference: ");
        }
        match path_extension(path) {
            None => {
                let shown = path_debug(path);
                Err(Error::InvalidFormat(concat("could not infer format from path: ", shown.as_str())))
            },
            Some(ext) => match Format::from_extension(ext.as_str()) {
                Some(f) => Ok(f),
                None => Err(
                    Error::InvalidFormat(concat("unknown file extension for format inference: ", ext.as_str())),
                ),
            },
        }
    }

    /// What the format holds one unit of: games or positions.
    pub fn item_label(self) -> (s: &'static str)
        ensures
            s@ == if self == Format::Sfbinpack || self == Format::Viriformat { "games"@ } else { "positions"@ },
    {
        proof {
            reveal_strlit("games");
            reveal_strlit("positions");
        }
        match self {
            Format::Sfbinpack | Format::Viriformat => "games",
            _ => "positions",
        }
    }

    /// The singular of `item_label`.
    pub fn item_label_singular(self) -> (s: &'static str)
        ensures
            s@ == if self == Format::Sfbinpack || self == Format::Viriformat { "game"@ } else { "position"@ },
    {
        proof {
            reveal_strlit("game");
            reveal_strlit("position");
        }
        match self {
            Format::Sfbinpack | Format::Viriformat => "game",
            _ => "position",
        }
    }

    pub fn position_label(self) -> (s: &'static str)
        ensures
            s@ == "positions"@,
    {
        "positions"
    }

    pub fn position_label_singular(self) -> (s: &'static str)
        ensures
            s@ == "position"@,
    {
        "position"
    }
}

/// The game-oriented formats, whose files hold whole games.
#[derive(Clone, Copy, Debug, PartialEq, Eq, Structural)]
pub enum Backend {
    Sfbinpack,
    Viriformat,
}

/// The backend named by a file extension.
pub open spec fn backend_of_extension(ext: Seq<char>) -> Option<Backend> {
    match format_of_extension(ext) {
        Some(Format::Sfbinpack) => Some(Backend::Sfbinpack),
        Some(Format::Viriformat) => Some(Backend::Viriformat),
        _ => None,
    }
}

impl Backend {
    /// Infers the backend of a file from its extension.
    pub fn from_path(path: &str) -> (r: Result<Backend, Error>)
        ensures
            inferred(path@, |e: Seq<char>| backend_of_extension(e), "unknown file extension for backend inference: "@, r),
    {
        proof {
            reveal_strlit("could not infer format from path: ");
            reveal_strlit("unknown file extension for backend inference: ");
        }
        match path_extension(path) {
            None => {
                let shown = path_debug(path);
                Err(Error::InvalidFormat(concat("could not infer format from path: ", shown.as_str())))
            },
            Some(ext) => match Format::from_extension(ext.as_str()) {
                Some(Format::Sfbinpack) => Ok(Backend::Sfbinpack),
                Some(Format::Viriformat) => Ok(Backend::Viriformat),
                _ => Err(
                    Error::InvalidFormat(concat("unknown file extension for backend inference: ", ext.as_str())),
                ),
            },
        }
    }
}

/// The conversions the tool performs.
#[derive(Clone, Copy, Debug, PartialEq, Eq, Structural)]
pub enum ConversionRoute {
    BulletplainToBulletformat,
    SfbinpackToViriformat,
    SfbinpackToBulletformat,
    ViriformatToSfbinpack,
    ViriformatToBulletformat,
}

pub open spec fn route_spec(from: Format, to: Format) -> Option<ConversionRoute> {
    match (from, to) {
        (Format::Bulletplain, Format::Bulletformat) => Some(ConversionRoute::BulletplainToBulletformat),
        (Format::Sfbinpack, Format::Viriformat) => Some(ConversionRoute::SfbinpackToViriformat),
        (Format::Sfbinpack, Format::Bulletformat) => Some(ConversionRoute::SfbinpackToBulletformat),
        (Format::Viriformat, Format::Sfbinpack) => Some(ConversionRoute::ViriformatToSfbinpack),
        (Format::Viriformat, Format::Bulletformat) => Some(ConversionRoute::ViriformatToBulletformat),
        _ => None,
    }
}

/// The conversion from one format to another, or the error for a pair the
/// tool does not convert.
pub fn conversion_route(from: Format, to: Format) -> (r: Result<ConversionRoute, Error>)
    ensures
        match route_spec(from, to) {
            Some(route) => r == Ok::<ConversionRoute, Error>(route),
            None => r matches Err(Error::UnsupportedConversion { from: f, to: t }) && f@ == format_name(from)
                && t@ == format_name(to),
        },
{
    match (from, to) {
        (Format::Bulletplain, Format::Bulletformat) => Ok(ConversionRoute::BulletplainToBulletformat),
        (Format::Sfbinpack, Format::Viriformat) => Ok(ConversionRoute::SfbinpackToViriformat),
        (Format::Sfbinpack, Format::Bulletformat) => Ok(ConversionRoute::SfbinpackToBulletformat),
        (Format::Viriformat, Format::Sfbinpack) => Ok(ConversionRoute::ViriformatToSfbinpack),
        (Format::Viriformat, Format::Bulletformat) => Ok(ConversionRoute::ViriformatToBulletformat),
        (from, to) => Err(Error::UnsupportedConversion { from: from.name(), to: to.name() }),
    }
}

/// A format is never converted to itself.
pub proof fn law_same_format_rejected(f: Format)
    ensures
        route_spec(f, f) is None,
{
}

/// Bulletformat holds standalone positions, not games, so nothing is
/// converted from it; and nothing is converted into bulletplain.
pub proof fn law_positions_are_not_games(to: Format, from: Format)
    ensures
        route_spec(Format::Bulletformat, to) is None,
        route_spec(from, Format::Bulletplain) is None,
{
}

pub struct ConvertCommand {
    pub from: Option<Format>,
    pub to: Option<Format>,
    pub input: String,
    pub output: String,
    pub limit: Option<u128>,
}

pub struct UniqueCommand {
    pub backend: Option<Backend>,
    pub input: String,
    pub limit: Option<usize>,
}

pub struct BenchmarkCommand {
    pub format: Option<Format>,
    pub input: String,
}

pub struct InspectCommand {
    pub format: Option<Format>,
    pub input: String,
    pub limit: Option<u128>,
}

pub struct ValidateCommand {
    pub backend: Option<Backend>,
    pub input: String,
}

pub struct ShuffleCommand {
    pub backend: Option<Backend>,
    pub input: String,
    pub output: String,
    pub split: usize,
    pub seed: Option<u64>,
}

pub enum Command {
    Convert(ConvertCommand),
    Unique(UniqueCommand),
    Benchmark(BenchmarkCommand),
    Inspect(InspectCommand),
    Validate(ValidateCommand),
    Shuffle(ShuffleCommand),
}

pub struct Cli {
    pub command: Command,
}

/// The work a command comes down to, with every format resolved.
pub enum Task {
    Convert { route: ConversionRoute, input: String, output: String, limit: Option<u128> },
    Unique { backend: Backend, input: String, limit: Option<usize> },
    Benchmark { format: Format, input: String },
    Inspect { format: Format, input: String, limit: Option<usize> },
    Validate { backend: Backend, input: String },
    Shuffle { backend: Backend, input: String, outputs: Vec<String>, seed: Option<u64> },
}

/// A format given on the command line, or else the one inferred from the path.
pub open spec fn chosen<T>(given: Option<T>, path: Seq<char>, found: spec_fn(Seq<char>) -> Option<T>) -> Option<T> {
    match given {
        Some(f) => Some(f),
        None => match path_extension_spec(path) {
            Some(ext) => found(ext),
            None => None,
        },
    }
}

fn format_or_infer(given: Option<Format>, path: &str) -> (r: Result<Format, Error>)
    ensures
        given matches Some(f) ==> r == Ok::<Format, Error>(f),
        given is None ==> inferred(path@, |e: Seq<char>| format_of_extension(e), "unknown file extension for format inference: "@, r),
{
    match given {
        Some(f) => Ok(f),
        None => Format::from_path(path),
    }
}

fn backend_or_infer(given: Option<Backend>, path: &str) -> (r: Result<Backend, Error>)
    ensures
        given matches Some(b) ==> r == Ok::<Backend, Error>(b),
        given is None ==> inferred(path@, |e: Seq<char>| backend_of_extension(e), "unknown file extension for backend inference: "@, r),
{
    match given {
        Some(b) => Ok(b),
        None => Backend::from_path(path),
    }
}

/// Resolves a command into the work it asks for: formats not given are
/// inferred from file extensions, a conversion gets its route, an inspection
/// limit must fit in `usize`, a shuffle gets its output paths.
pub fn run(cli: Cli) -> (r: Result<Task, Error>)
    ensures
        match cli.command {
            Command::Convert(c) => match (chosen(c.from, c.input@, |e: Seq<char>| format_of_extension(e)),
                chosen(c.to, c.output@, |e: Seq<char>| format_of_extension(e))) {
                (Some(from), Some(to)) => match route_spec(from, to) {
                    Some(route) => r matches Ok(Task::Convert { route: rt, input, output, limit })
                        && rt == route && input@ == c.input@ && output@ == c.output@ && limit == c.limit,
                    None => r matches Err(Error::UnsupportedConversion { from: f, to: t }) && f@ == format_name(from)
                        && t@ == format_name(to),
                },
                _ => r matches Err(Error::InvalidFormat(_)),
            },
            Command::Unique(c) => match chosen(c.backend, c.input@, |e: Seq<char>| backend_of_extension(e)) {
                Some(b) => r matches Ok(Task::Unique { backend, input, limit }) && backend == b
                    && input@ == c.input@ && limit == c.limit,
                None => r matches Err(Error::InvalidFormat(_)),
            },
            Command::Benchmark(c) => match chosen(c.format, c.input@, |e: Seq<char>| format_of_extension(e)) {
                Some(f) => r matches Ok(Task::Benchmark { format, input }) && format == f && input@ == c.input@,
                None => r matches Err(Error::InvalidFormat(_)),
            },
            Command::Inspect(c) => match chosen(c.format, c.input@, |e: Seq<char>| format_of_extension(e)) {
                Some(f) => match c.limit {
                    Some(l) if l > usize::MAX => r matches Err(Error::InvalidLimit(x)) && x == l,
                    _ => r matches Ok(Task::Inspect { format, input, limit }) && format == f && input@ == c.input@
                        && limit == match c.limit {
                        Some(l) => Some(l as usize),
                        None => None::<usize>,
                    },
                },
                None => r matches Err(Error::InvalidFormat(_)),
            },
            Command::Validate(c) => match chosen(c.backend, c.input@, |e: Seq<char>| backend_of_extension(e)) {
                Some(b) => r matches Ok(Task::Validate { backend, input }) && backend == b && input@ == c.input@,
                None => r matches Err(Error::InvalidFormat(_)),
            },
            Command::Shuffle(c) => match chosen(c.backend, c.input@, |e: Seq<char>| backend_of_extension(e)) {
                Some(b) => match output_paths_spec(c.output@, c.split as nat) {
                    Some(paths) => r matches Ok(Task::Shuffle { backend, input, outputs, seed }) && backend == b
                        && input@ == c.input@ && seed == c.seed && outputs@.map_values(|p: String| p@) == paths,
                    None => if c.split == 0 {
                        r matches Err(Error::InvalidSplitCount(n)) && n == 0
                    } else {
                        r matches Err(Error::InvalidFormat(m)) && m@ == "could not infer output basename from path: "@
                            + path_debug_spec(c.output@)
                    },
                },
                None => r matches Err(Error::InvalidFormat(_)),
            },
        },
{
    match cli.command {
        Command::Convert(c) => {
            let from = format_or_infer(c.from, c.input.as_str())?;
            let to = format_or_infer(c.to, c.output.as_str())?;
            let route = conversion_route(from, to)?;
            Ok(Task::Convert { route, input: c.input, output: c.output, limit: c.limit })
        },
        Command::Unique(c) => {
            let backend = backend_or_infer(c.backend, c.input.as_str())?;
            Ok(Task::Unique { backend, input: c.input, limit: c.limit })
        },
        Command::Benchmark(c) => {
            let format = format_or_infer(c.format, c.input.as_str())?;
            Ok(Task::Benchmark { format, input: c.input })
        },
        Command::Inspect(c) => {
            let format = format_or_infer(c.format, c.input.as_str())?;
            let limit = match c.limit {
                Some(l) => {
                    if l > usize::MAX as u128 {
                        return Err(Error::InvalidLimit(l));
                    }
                    Some(l as usize)
                },
                None => None,
            };
            Ok(Task::Inspect { format, input: c.input, limit })
        },
        Command::Validate(c) => {
            let backend = backend_or_infer(c.backend, c.input.as_str())?;
            Ok(Task::Validate { backend, input: c.input })
        },
        Command::Shuffle(c) => {
            let backend = backend_or_infer(c.backend, c.input.as_str())?;
            let outputs = output_paths(c.output.as_str(), c.split)?;
            Ok(Task::Shuffle { backend, input: c.input, outputs, seed: c.seed })
        },
    }
}

} // verus!

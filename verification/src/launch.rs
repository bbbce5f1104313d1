//! From settings to what the host is asked to do.

use crate::address::{address_of, describe, parse_error_text, server_address, url_parse};
use crate::settings::{listed_args_of, listed_path_of, Settings};
use crate::text::same_text;
use serde_json::Value;
use url::{ParseError, Url};
use vstd::prelude::*;

verus! {

/// The argument that every start of the server begins with.
pub open spec fn default_args() -> Seq<Seq<char>> {
    seq!["language-server"@]
}

/// The strings among `items`, in their order.
pub open spec fn strings_among(items: Seq<Option<Seq<char>>>) -> Seq<Seq<char>> {
    items.filter(|item: Option<Seq<char>>| item.is_some()).map_values(
        |item: Option<Seq<char>>| item.unwrap(),
    )
}

/// The arguments of the server: `language-server` first, always, and behind
/// it the strings of the listed array in their order. Where no array is
/// listed, or one without strings, `language-server` stands alone.
pub open spec fn spec_server_args(listed: Option<Seq<Option<Seq<char>>>>) -> Seq<Seq<char>> {
    default_args() + match listed {
        Some(items) => strings_among(items),
        None => Seq::empty(),
    }
}

/// The path of the server's executable: the listed path unless it is empty.
pub open spec fn spec_server_path(listed: Option<Seq<char>>) -> Option<Seq<char>> {
    match listed {
        Some(path) => if path.len() > 0 {
            Some(path)
        } else {
            None
        },
        None => None,
    }
}

/// The program that looks an executable up: `where` on Windows, `which`
/// everywhere else, also where the operating system is not known.
pub open spec fn spec_search_program(os: Option<Seq<char>>) -> Seq<char> {
    if os == Some("windows"@) {
        "where"@
    } else {
        "which"@
    }
}

/// What the user is told when no path is set.
pub open spec fn path_unset_text() -> Seq<char> {
    "Path to Dart executable not set.\nPlease enter a valid path."@
}

/// What the user is told when the executable is not found.
pub open spec fn not_found_text() -> Seq<char> {
    "Unable to find dart executable.\nPlease enter a valid path."@
}

/// The characters of an optional string slice.
pub open spec fn chars_of(s: Option<&str>) -> Option<Seq<char>> {
    match s {
        Some(s) => Some(s@),
        None => None,
    }
}

/// There are no strings among no items.
pub proof fn strings_among_none()
    ensures
        strings_among(Seq::empty()) == Seq::<Seq<char>>::empty(),
{
    reveal(Seq::filter);
    assert(strings_among(Seq::empty()) =~= Seq::empty());
}

/// Appending an element to `items` appends its string, if it is one, to the
/// strings among them.
pub proof fn strings_among_push(items: Seq<Option<Seq<char>>>, item: Option<Seq<char>>)
    ensures
        strings_among(items.push(item)) == match item {
            Some(s) => strings_among(items).push(s),
            None => strings_among(items),
        },
{
    reveal(Seq::filter);
    let grown = items.push(item);
    assert(grown.drop_last() =~= items);
    assert(grown.last() == item);
    let kept = |item: Option<Seq<char>>| item.is_some();
    assert(grown.filter(kept) == if item.is_some() {
        items.filter(kept).push(item)
    } else {
        items.filter(kept)
    });
    match item {
        Some(s) => {
            assert(strings_among(grown) =~= strings_among(items).push(s));
        },
        None => {},
    }
}

/// The arguments always begin with `language-server`, whatever is listed, and
/// what follows it is exactly the strings that are listed.
pub proof fn server_args_begin_with_default(listed: Option<Seq<Option<Seq<char>>>>)
    ensures
        spec_server_args(listed).len() >= 1,
        spec_server_args(listed)[0] == "language-server"@,
        spec_server_args(listed).skip(1) == match listed {
            Some(items) => strings_among(items),
            None => Seq::empty(),
        },
{
    let listed_strings = match listed {
        Some(items) => strings_among(items),
        None => Seq::empty(),
    };
    assert(spec_server_args(listed).skip(1) =~= listed_strings);
}

/// Whether a request's method is the one that initializes the plugin.
pub fn is_initialize(method: &str) -> (r: bool)
    ensures
        r == (method@ == "initialize"@),
{
    same_text(method, "initialize")
}

/// The arguments to start the server with.
pub fn server_args(listed: &Option<Vec<Option<String>>>) -> (r: Vec<String>)
    ensures
        r.deep_view() == spec_server_args(listed.deep_view()),
{
    let mut out: Vec<String> = Vec::new();
    out.push("language-server".to_owned());
    assert(out.deep_view() =~= default_args());
    match listed {
        Some(items) => {
            let mut i: usize = 0;
            proof {
                strings_among_none();
                assert(items.deep_view().take(0) =~= Seq::empty());
                assert(out.deep_view() =~= default_args() + Seq::<Seq<char>>::empty());
            }
            while i < items.len()
                invariant
                    i <= items@.len(),
                    out.deep_view() == default_args() + strings_among(
                        items.deep_view().take(i as int),
                    ),
                decreases items@.len() - i,
            {
                let ghost before = out.deep_view();
                let ghost seen = items.deep_view().take(i as int);
                proof {
                    assert(items.deep_view().take(i + 1) =~= seen.push(
                        items@[i as int].deep_view(),
                    ));
                    strings_among_push(seen, items@[i as int].deep_view());
                }
                match &items[i] {
                    Some(s) => {
                        out.push(s.clone());
                        assert(out.deep_view() =~= before.push(s@));
                        assert(before.push(s@) =~= default_args() + strings_among(seen).push(
                            s@,
                        ));
                    },
                    None => {},
                }
                i += 1;
            }
            assert(items.deep_view().take(i as int) =~= items.deep_view());
        },
        None => {
            assert(out.deep_view() =~= default_args() + Seq::<Seq<char>>::empty());
        },
    }
    out
}

/// The path of the server's executable, if one is set.
pub fn server_path(listed: &Option<String>) -> (r: Option<String>)
    ensures
        r.deep_view() == spec_server_path(listed.deep_view()),
{
    match listed {
        Some(path) => if path.as_str().is_empty() {
            None
        } else {
            Some(path.clone())
        },
        None => None,
    }
}

/// The program that looks an executable up on the operating system `os`.
pub fn search_program(os: Option<&str>) -> (r: &'static str)
    ensures
        r@ == spec_search_program(chars_of(os)),
{
    match os {
        Some(name) => if same_text(name, "windows") {
            "where"
        } else {
            "which"
        },
        None => "which",
    }
}

/// A request to the host: run `program` on `target` to learn whether the
/// executable exists. `args` are kept for the start of the server.
#[derive(Debug, Clone, PartialEq, Eq)]
pub struct Probe {
    pub program: String,
    pub target: String,
    pub args: Vec<String>,
}

/// What the plugin does first with its initialization options.
#[derive(Debug, Clone, PartialEq, Eq)]
pub enum Plan {
    /// There are no options: nothing is done.
    Idle,
    /// No path is set: the user is shown `text` as an error.
    Report { text: String },
    /// A path is set: the host is asked to look it up.
    Lookup { probe: Probe },
}

/// A request to the host to start the server for Dart files.
#[derive(Debug, PartialEq, Eq)]
pub struct Launch {
    pub uri: Url,
    pub args: Vec<String>,
    /// The language of the documents that the server is for.
    pub language: String,
    /// The pattern of the files that the server is for.
    pub pattern: String,
    /// The scheme of the documents that the server is for; `None` for any.
    pub scheme: Option<String>,
}

/// What the plugin does once the host has looked the executable up.
#[derive(Debug, PartialEq, Eq)]
pub enum Verdict {
    /// The executable exists: the server is started.
    Start { launch: Launch },
    /// It does not: the user is shown `text` as an error.
    Report { text: String },
}

/// Why initialization failed.
#[derive(Debug, PartialEq, Eq)]
pub enum LaunchError {
    /// The path of the executable makes no address.
    BadAddress { cause: ParseError },
}

impl LaunchError {
    /// The line that reports this error.
    pub open spec fn spec_report(&self) -> Seq<char> {
        match self {
            LaunchError::BadAddress { cause } => "plugin returned with error: "@
                + parse_error_text(*cause),
        }
    }

    /// Writes the line that reports this error.
    pub fn report(&self) -> (r: String)
        ensures
            r@ == self.spec_report(),
    {
        match self {
            LaunchError::BadAddress { cause } => {
                let message = describe(cause);
                "plugin returned with error: ".to_owned().concat(message.as_str())
            },
        }
    }
}

impl Plan {
    /// Whether this is the plan for options that list `args` and `path`, on
    /// the operating system `os`.
    pub open spec fn follows(
        &self,
        args: Option<Seq<Option<Seq<char>>>>,
        path: Option<Seq<char>>,
        os: Option<Seq<char>>,
    ) -> bool {
        match spec_server_path(path) {
            None => *self matches Plan::Report { text } && text@ == path_unset_text(),
            Some(target) => *self matches Plan::Lookup { probe } && probe.target@ == target
                && probe.program@ == spec_search_program(os) && probe.args.deep_view()
                == spec_server_args(args),
        }
    }
}

/// Plans for settings that were read before; `None` stands for options that
/// are absent.
pub fn plan_for(settings: Option<&Settings>, os: Option<&str>) -> (r: Plan)
    ensures
        match settings {
            None => r == Plan::Idle,
            Some(s) => r.follows(s.args(), s.path(), chars_of(os)),
        },
        r matches Plan::Lookup { probe } ==> probe.target@.len() > 0,
{
    let settings = match settings {
        Some(s) => s,
        None => { return Plan::Idle; },
    };
    let args = server_args(&settings.listed_args);
    match server_path(&settings.listed_path) {
        Some(target) => Plan::Lookup {
            probe: Probe { program: search_program(os).to_owned(), target, args },
        },
        None => Plan::Report {
            text: "Path to Dart executable not set.\nPlease enter a valid path.".to_owned(),
        },
    }
}

/// Plans for the initialization options that the host sent.
pub fn plan(options: Option<&Value>, os: Option<&str>) -> (r: Plan)
    ensures
        match options {
            None => r == Plan::Idle,
            Some(o) => r.follows(listed_args_of(*o), listed_path_of(*o), chars_of(os)),
        },
        r matches Plan::Lookup { probe } ==> probe.target@.len() > 0,
{
    match options {
        Some(o) => {
            let settings = Settings::read(o);
            plan_for(Some(&settings), os)
        },
        None => Plan::Idle,
    }
}

/// Whether `result` starts the server with `args` at the address that
/// `parsed` holds, or fails with the error that it holds.
pub open spec fn starts(
    result: Result<Verdict, LaunchError>,
    args: Vec<String>,
    parsed: Result<Url, ParseError>,
) -> bool {
    match parsed {
        Ok(uri) => result matches Ok(Verdict::Start { launch }) && launch.uri == uri
            && launch.args == args && launch.language@ == "dart"@ && launch.pattern@
            == "**/*.dart"@ && launch.scheme.is_none(),
        Err(cause) => result == Err::<Verdict, LaunchError>(LaunchError::BadAddress { cause }),
    }
}

/// Starts the server at a parsed address, or fails where parsing failed.
pub fn start(args: Vec<String>, parsed: Result<Url, ParseError>) -> (r: Result<
    Verdict,
    LaunchError,
>)
    ensures
        starts(r, args, parsed),
{
    match parsed {
        Ok(uri) => Ok(
            Verdict::Start {
                launch: Launch {
                    uri,
                    args,
                    language: "dart".to_owned(),
                    pattern: "**/*.dart".to_owned(),
                    scheme: None,
                },
            },
        ),
        Err(cause) => Err(LaunchError::BadAddress { cause }),
    }
}

impl Probe {
    /// Whether the host's answer says that the executable exists: it ran the
    /// search program, and the program succeeded.
    pub open spec fn found(outcome: Option<bool>) -> bool {
        outcome == Some(true)
    }

    /// Decides on the host's answer: `Some` with the search program's success
    /// where the host ran it, `None` where it could not.
    pub fn settle(self, outcome: Option<bool>) -> (r: Result<Verdict, LaunchError>)
        ensures
            if Self::found(outcome) {
                starts(r, self.args, url_parse(server_address(self.target@)))
            } else {
                r matches Ok(Verdict::Report { text }) && text@ == not_found_text()
            },
    {
        let found = match outcome {
            Some(success) => success,
            None => false,
        };
        if found {
            let parsed = address_of(self.target.as_str());
            start(self.args, parsed)
        } else {
            Ok(
                Verdict::Report {
                    text: "Unable to find dart executable.\nPlease enter a valid path.".to_owned(),
                },
            )
        }
    }
}

} // verus!

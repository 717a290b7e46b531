//! What the user asked for on the command line.

use vstd::prelude::*;
use crate::parser::{
    all_well_named, declare_flag, declared, describe, free_of, is_present, matched, new_parser,
    parse_arguments, parse_result, usage_of, usage_text, FlagSpec,
};

verus! {

/// The heading of the usage message.
pub const USAGE: &'static str = "Usage:\n  charm [options] file";

/// The name and version that a version request is answered with.
pub const VERSION_LINE: &'static str = "charm 0.1.0";

/// The switches that change what is shown.
#[derive(Clone, Copy, Debug, PartialEq, Eq, Structural)]
pub struct Flags {
    /// Count encoded bytes instead of characters.
    pub bytes: bool,
    /// Show the Unicode name of each character.
    pub show_names: bool,
    /// Accepted, and without effect on what is shown.
    pub show_scripts: bool,
    /// Accepted, and without effect on what is shown.
    pub show_widths: bool,
}

/// The parsed command line.
#[derive(Clone, Debug, PartialEq, Eq)]
pub struct Options {
    /// The switches that change what is shown.
    pub flags: Flags,
    /// The file to read, or `None` for standard input.
    pub input_file_name: Option<String>,
}

/// What an `Options` value holds.
pub struct OptionsView {
    pub flags: Flags,
    pub input_file_name: Option<Seq<char>>,
}

impl View for Options {
    type V = OptionsView;

    open spec fn view(&self) -> OptionsView {
        OptionsView {
            flags: self.flags,
            input_file_name: match self.input_file_name {
                Some(name) => Some(name@),
                None => None,
            },
        }
    }
}

/// Why the program does not run.
#[derive(Clone, Debug, PartialEq, Eq)]
pub enum Misfire {
    /// The parser did not accept the arguments; this is its sentence.
    InvalidOptions(String),
    /// The user asked for help; this is the usage message.
    Help(String),
    /// The user asked for the version.
    Version,
    /// More than one file was named; this is the usage message.
    ExtraArguments(String),
}

/// What a `Misfire` value holds.
pub enum MisfireView {
    InvalidOptions(Seq<char>),
    Help(Seq<char>),
    Version,
    ExtraArguments(Seq<char>),
}

impl View for Misfire {
    type V = MisfireView;

    open spec fn view(&self) -> MisfireView {
        match self {
            Misfire::InvalidOptions(message) => MisfireView::InvalidOptions(message@),
            Misfire::Help(usage) => MisfireView::Help(usage@),
            Misfire::Version => MisfireView::Version,
            Misfire::ExtraArguments(usage) => MisfireView::ExtraArguments(usage@),
        }
    }
}

/// The exit status of a misfire: 2 for a request for help, 3 for any other.
pub open spec fn exit_status_of(misfire: MisfireView) -> int {
    if misfire is Help {
        2
    } else {
        3
    }
}

/// The line that a misfire is reported with.
pub open spec fn message_of(misfire: MisfireView) -> Seq<char> {
    match misfire {
        MisfireView::InvalidOptions(message) => message,
        MisfireView::Help(usage) => usage,
        MisfireView::Version => VERSION_LINE@,
        MisfireView::ExtraArguments(usage) => usage,
    }
}

impl Misfire {
    /// The exit status that this misfire ends the process with.
    pub fn exit_status(&self) -> (status: i32)
        ensures
            status == exit_status_of(self@),
            status == 2 <==> self is Help,
            status == 2 || status == 3,
    {
        match self {
            Misfire::Help(_) => 2,
            _ => 3,
        }
    }

    /// The line that reports this misfire.
    pub fn message(&self) -> (text: String)
        ensures
            text@ == message_of(self@),
    {
        match self {
            Misfire::InvalidOptions(message) => message.clone(),
            Misfire::Help(usage) => usage.clone(),
            Misfire::Version => VERSION_LINE.to_owned(),
            Misfire::ExtraArguments(usage) => usage.clone(),
        }
    }
}

/// What a parse found: which of the options were given, and the arguments
/// that belong to none.
#[derive(Clone, Debug, PartialEq, Eq)]
pub struct Parsed {
    pub help: bool,
    pub version: bool,
    pub flags: Flags,
    pub free: Vec<String>,
}

/// What a `Parsed` value holds.
pub struct ParsedView {
    pub help: bool,
    pub version: bool,
    pub flags: Flags,
    pub free: Seq<Seq<char>>,
}

impl View for Parsed {
    type V = ParsedView;

    open spec fn view(&self) -> ParsedView {
        ParsedView {
            help: self.help,
            version: self.version,
            flags: self.flags,
            free: self.free.deep_view(),
        }
    }
}

/// What a parse leads to. A request for help comes first, then one for the
/// version. After that the free arguments decide: none reads standard
/// input, one names the file, more than one is an error.
pub open spec fn resolve(parsed: ParsedView, usage: Seq<char>) -> Result<OptionsView, MisfireView> {
    if parsed.help {
        Err(MisfireView::Help(usage))
    } else if parsed.version {
        Err(MisfireView::Version)
    } else if parsed.free.len() == 0 {
        Ok(OptionsView { flags: parsed.flags, input_file_name: None })
    } else if parsed.free.len() == 1 {
        Ok(OptionsView { flags: parsed.flags, input_file_name: Some(parsed.free[0]) })
    } else {
        Err(MisfireView::ExtraArguments(usage))
    }
}

/// The view of a result of option parsing.
pub open spec fn result_view(result: Result<Options, Misfire>) -> Result<OptionsView, MisfireView> {
    match result {
        Ok(options) => Ok(options@),
        Err(misfire) => Err(misfire@),
    }
}

/// The flags of the program: short name, long name, description.
pub open spec fn flag_table() -> Seq<FlagSpec> {
    seq![
        ("b"@, "bytes"@, "show count in number of bytes, not characters"@),
        ("n"@, "names"@, "show unicode name of each character"@),
        ("s"@, "scripts"@, "show script for each character"@),
        ("w"@, "widths"@, "show width for each character"@),
        (""@, "version"@, "display version of program"@),
        ("?"@, "help"@, "show list of command-line options"@),
    ]
}

/// What the matches of a parse say about the flags of the program.
pub open spec fn summary(present: Map<Seq<char>, bool>, free: Seq<Seq<char>>) -> ParsedView {
    ParsedView {
        help: present["help"@],
        version: present["version"@],
        flags: Flags {
            bytes: present["bytes"@],
            show_names: present["names"@],
            show_scripts: present["scripts"@],
            show_widths: present["widths"@],
        },
        free,
    }
}

/// What the arguments `args` lead to: the failure of the parser, or what
/// its matches resolve to.
pub open spec fn getopts_outcome(args: Seq<Seq<char>>) -> Result<OptionsView, MisfireView> {
    match parse_result(flag_table(), args) {
        Ok((present, free)) => resolve(summary(present, free), usage_text(flag_table(), USAGE@)),
        Err(message) => Err(MisfireView::InvalidOptions(message)),
    }
}

/// The flags of the program have names that the parser takes.
proof fn lemma_flag_table_well_named()
    ensures
        all_well_named(flag_table()),
        flag_table().len() == 6,
        forall|i: int| 0 <= i < 6 ==> (#[trigger] flag_table()[i]).1.len() > 0,
{
    reveal_strlit("b");
    reveal_strlit("n");
    reveal_strlit("s");
    reveal_strlit("w");
    reveal_strlit("");
    reveal_strlit("?");
    reveal_strlit("bytes");
    reveal_strlit("names");
    reveal_strlit("scripts");
    reveal_strlit("widths");
    reveal_strlit("version");
    reveal_strlit("help");
}

impl Options {
    /// Decides what a parse leads to, given the usage message to answer
    /// with.
    pub fn from_parsed(parsed: Parsed, usage: String) -> (result: Result<Options, Misfire>)
        ensures
            result_view(result) == resolve(parsed@, usage@),
    {
        if parsed.help {
            Err(Misfire::Help(usage))
        } else if parsed.version {
            Err(Misfire::Version)
        } else {
            let count = parsed.free.len();
            if count == 0 {
                Ok(Options { flags: parsed.flags, input_file_name: None })
            } else if count == 1 {
                let name = parsed.free[0].clone();
                Ok(Options { flags: parsed.flags, input_file_name: Some(name) })
            } else {
                Err(Misfire::ExtraArguments(usage))
            }
        }
    }

    /// Parses the arguments of the command line, without the name of the
    /// program.
    pub fn getopts(args: &[String]) -> (result: Result<Options, Misfire>)
        ensures
            result_view(result) == getopts_outcome(args.deep_view()),
    {
        let mut parser = new_parser();
        proof {
            lemma_flag_table_well_named();
        }
        declare_flag(&mut parser, "b", "bytes", "show count in number of bytes, not characters");
        declare_flag(&mut parser, "n", "names", "show unicode name of each character");
        declare_flag(&mut parser, "s", "scripts", "show script for each character");
        declare_flag(&mut parser, "w", "widths", "show width for each character");
        declare_flag(&mut parser, "", "version", "display version of program");
        declare_flag(&mut parser, "?", "help", "show list of command-line options");
        assert(declared(parser) =~= flag_table());

        match parse_arguments(&parser, args) {
            Ok(matches) => {
                proof {
                    let flags = flag_table();
                    assert(matched(matches).dom().contains(flags[0].1));
                    assert(matched(matches).dom().contains(flags[1].1));
                    assert(matched(matches).dom().contains(flags[2].1));
                    assert(matched(matches).dom().contains(flags[3].1));
                    assert(matched(matches).dom().contains(flags[4].1));
                    assert(matched(matches).dom().contains(flags[5].1));
                }
                let parsed = Parsed {
                    help: is_present(&matches, "help"),
                    version: is_present(&matches, "version"),
                    flags: Flags {
                        bytes: is_present(&matches, "bytes"),
                        show_names: is_present(&matches, "names"),
                        show_scripts: is_present(&matches, "scripts"),
                        show_widths: is_present(&matches, "widths"),
                    },
                    free: free_of(&matches),
                };
                let usage = usage_of(&parser, USAGE);
                Options::from_parsed(parsed, usage)
            },
            Err(fail) => Err(Misfire::InvalidOptions(describe(&fail))),
        }
    }
}

} // verus!

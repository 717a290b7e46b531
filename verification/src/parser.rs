//! The command-line parser of `getopts`, as far as the options need it.
//!
//! Nothing in this file is proved: each contract states what the source of
//! `getopts` shows of the function that it names.

use vstd::prelude::*;

verus! {

/// One flag: its short name, its long name and its description.
pub type FlagSpec = (Seq<char>, Seq<char>, Seq<char>);

/// A parser of `getopts`, kept closed: only the functions of this file
/// reach into it.
#[verifier::external_body]
pub struct Parser {
    inner: getopts::Options,
}

#[verifier::external_type_specification]
#[verifier::external_body]
pub struct ExMatches(getopts::Matches);

#[verifier::external_type_specification]
#[verifier::external_body]
pub struct ExFail(getopts::Fail);

/// The flags that a parser holds, in the order in which they were declared.
/// This describes a parser that was made empty and given flags only; any
/// other parser has a value here that no such parser has.
pub uninterp spec fn declared(parser: Parser) -> Seq<FlagSpec>;

/// For every option name that a parse knows, whether the option was given.
pub uninterp spec fn matched(matches: getopts::Matches) -> Map<Seq<char>, bool>;

/// The arguments of a parse that belong to no option, in their order.
pub uninterp spec fn free_arguments(matches: getopts::Matches) -> Seq<Seq<char>>;

/// The sentence that a parse failure is displayed as.
pub uninterp spec fn fail_message(fail: getopts::Fail) -> Seq<char>;

/// What parsing `args` against `flags` gives: the options matched and the
/// free arguments, or the sentence of the failure.
pub uninterp spec fn parse_result(flags: Seq<FlagSpec>, args: Seq<Seq<char>>) -> Result<
    (Map<Seq<char>, bool>, Seq<Seq<char>>),
    Seq<char>,
>;

/// The usage message for `flags` under the heading `brief`.
pub uninterp spec fn usage_text(flags: Seq<FlagSpec>, brief: Seq<char>) -> Seq<char>;

/// Names that `getopts` takes for a flag: a short name that is empty or one
/// ASCII character, a long name that is empty or at least two characters
/// long, and not both empty.
pub open spec fn well_named(short: Seq<char>, long: Seq<char>) -> bool {
    &&& short.len() == 0 || (short.len() == 1 && (short[0] as u32) < 0x80)
    &&& long.len() != 1
    &&& short.len() + long.len() > 0
}

/// Every flag of `flags` is well named.
pub open spec fn all_well_named(flags: Seq<FlagSpec>) -> bool {
    forall|i: int| 0 <= i < flags.len() ==> well_named((#[trigger] flags[i]).0, flags[i].1)
}

/// `getopts::Options::new`: a parser without options.
#[verifier::external_body]
pub(crate) fn new_parser() -> (parser: Parser)
    ensures
        declared(parser) == Seq::<FlagSpec>::empty(),
{
    Parser { inner: getopts::Options::new() }
}

/// `getopts::Options::optflag`: adds an optional flag without argument
/// behind those that the parser holds. It panics on names that are not well
/// named.
#[verifier::external_body]
pub(crate) fn declare_flag(parser: &mut Parser, short: &str, long: &str, desc: &str)
    requires
        well_named(short@, long@),
    ensures
        declared(*final(parser)) == declared(*old(parser)).push((short@, long@, desc@)),
{
    parser.inner.optflag(short, long, desc);
}

/// `getopts::Options::parse`: the matches or the failure, which depend on
/// the flags and the arguments alone. A successful parse knows every name
/// that was declared.
#[verifier::external_body]
pub(crate) fn parse_arguments(parser: &Parser, args: &[String]) -> (result: Result<
    getopts::Matches,
    getopts::Fail,
>)
    requires
        all_well_named(declared(*parser)),
    ensures
        match result {
            Ok(matches) => {
                &&& parse_result(declared(*parser), args.deep_view()) == Ok::<
                    (Map<Seq<char>, bool>, Seq<Seq<char>>),
                    Seq<char>,
                >((matched(matches), free_arguments(matches)))
                &&& forall|i: int|
                    0 <= i < declared(*parser).len() ==> {
                        let flag = #[trigger] declared(*parser)[i];
                        &&& flag.0.len() > 0 ==> matched(matches).dom().contains(flag.0)
                        &&& flag.1.len() > 0 ==> matched(matches).dom().contains(flag.1)
                    }
            },
            Err(fail) => parse_result(declared(*parser), args.deep_view()) == Err::<
                (Map<Seq<char>, bool>, Seq<Seq<char>>),
                Seq<char>,
            >(fail_message(fail)),
        },
{
    parser.inner.parse(args)
}

/// `getopts::Matches::opt_present`: whether the option was given. It panics
/// on a name that the parse does not know.
#[verifier::external_body]
pub(crate) fn is_present(matches: &getopts::Matches, name: &str) -> (present: bool)
    requires
        matched(*matches).dom().contains(name@),
    ensures
        present == matched(*matches)[name@],
{
    matches.opt_present(name)
}

/// The field `free` of `getopts::Matches`: the free arguments.
#[verifier::external_body]
pub(crate) fn free_of(matches: &getopts::Matches) -> (free: Vec<String>)
    ensures
        free.deep_view() == free_arguments(*matches),
{
    matches.free.clone()
}

/// `getopts::Options::usage`: the usage message, which depends on the flags
/// and the heading alone.
#[verifier::external_body]
pub(crate) fn usage_of(parser: &Parser, brief: &str) -> (usage: String)
    requires
        all_well_named(declared(*parser)),
    ensures
        usage@ == usage_text(declared(*parser), brief@),
{
    parser.inner.usage(brief)
}

/// The `Display` of `getopts::Fail`: the sentence of the failure.
#[verifier::external_body]
pub(crate) fn describe(fail: &getopts::Fail) -> (message: String)
    ensures
        message@ == fail_message(*fail),
{
    format!("{}", fail)
}

} // verus!

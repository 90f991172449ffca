//! The option parser that the command line is read with, behind contracts.
//!
//! The parser is the `getopts` crate. Verus does not read its code: what this
//! module says of it is taken on trust from its source, and everything the
//! rest of the library proves about the command line rests on it.

use crate::text::texts;
use vstd::prelude::*;

verus! {

/// Whether an option takes a value.
#[derive(Clone, Copy, Debug, PartialEq, Eq, Structural)]
pub enum ValueMode {
    /// It takes none.
    Flag,
    /// It takes one.
    Required,
    /// It may take one.
    Optional,
}

/// How often an option may be given.
#[derive(Clone, Copy, Debug, PartialEq, Eq, Structural)]
pub enum Occurrence {
    /// Exactly once.
    Once,
    /// At most once.
    AtMostOnce,
    /// Any number of times.
    Many,
}

/// One option as it was declared to the parser.
pub struct OptionDecl {
    /// Its one-letter name, or nothing.
    pub short: Seq<char>,
    /// Its long name, or nothing.
    pub long: Seq<char>,
    /// What the help text says of it.
    pub desc: Seq<char>,
    /// What the help text calls its value.
    pub hint: Seq<char>,
    /// Whether it takes a value.
    pub value: ValueMode,
    /// How often it may be given.
    pub occurs: Occurrence,
}

/// The kinds of fault that the parser finds in a command line.
#[derive(Clone, Copy, Debug, PartialEq, Eq, Structural)]
pub enum FailureKind {
    /// An option lacks its value.
    ArgumentMissing,
    /// An option was not declared.
    UnrecognizedOption,
    /// An option that must be given is not there.
    OptionMissing,
    /// An option was given more often than it may be.
    OptionDuplicated,
    /// An option that takes no value has one.
    UnexpectedArgument,
}

/// A fault that the parser found in a command line.
#[derive(Clone, Debug, PartialEq, Eq)]
pub struct ParseFailure {
    /// What is wrong.
    pub kind: FailureKind,
    /// The name of the option at fault.
    pub option: String,
}

/// What a command line holds once it is parsed: for each name under which an
/// option was declared the values of its occurrences, in order (an occurrence
/// without a value has none), and the arguments that are no options.
pub struct ParsedLine {
    /// Occurrences of each declared option, by each of its names.
    pub given: Map<Seq<char>, Seq<Option<Seq<char>>>>,
    /// The arguments that are no options, in order.
    pub free: Seq<Seq<char>>,
}

/// `getopts::Options`: a parser with the options declared to it. Nothing of
/// its inside is known here but what `option_table`, `stops_at_first_free`
/// and `long_only` name.
#[verifier::external_type_specification]
#[verifier::external_body]
pub struct ExOptions(getopts::Options);

/// `getopts::Matches`: a parsed command line. Nothing of its inside is known
/// here but what `occurrences` and `free_of` name.
#[verifier::external_type_specification]
#[verifier::external_body]
pub struct ExMatches(getopts::Matches);

/// The options declared to a parser, in the order of their declaration.
pub uninterp spec fn option_table(parser: getopts::Options) -> Seq<OptionDecl>;

/// Whether a parser takes everything from the first argument that is no
/// option as free arguments.
pub uninterp spec fn stops_at_first_free(parser: getopts::Options) -> bool;

/// Whether a parser reads long options behind a single dash.
pub uninterp spec fn long_only(parser: getopts::Options) -> bool;

/// The occurrences that a set of matches holds: for each name under which an
/// option was declared, the values of its occurrences, in order.
pub uninterp spec fn occurrences(matches: getopts::Matches) -> Map<
    Seq<char>,
    Seq<Option<Seq<char>>>,
>;

/// The free arguments that a set of matches holds, in order.
pub uninterp spec fn free_of(matches: getopts::Matches) -> Seq<Seq<char>>;

/// What a set of matches holds.
pub open spec fn parsed_line(matches: getopts::Matches) -> ParsedLine {
    ParsedLine { given: occurrences(matches), free: free_of(matches) }
}

/// What parsing `args` gives with these options and settings.
pub uninterp spec fn parse_outcome(
    table: Seq<OptionDecl>,
    stop_at_first_free: bool,
    long_only: bool,
    args: Seq<Seq<char>>,
) -> Result<ParsedLine, (FailureKind, Seq<char>)>;

/// The help text for these options under the heading `brief`.
pub uninterp spec fn usage_text(table: Seq<OptionDecl>, long_only: bool, brief: Seq<char>) -> Seq<
    char,
>;

/// Names that the parser takes for an option: a short name is one ASCII
/// character or nothing, a long name has at least two characters or is
/// nothing, and one of the two is there.
pub open spec fn names_allowed(short: Seq<char>, long: Seq<char>) -> bool {
    &&& short.len() == 0 || (short.len() == 1 && ' ' <= short[0] && short[0] <= '~')
    &&& long.len() == 0 || long.len() >= 2
    &&& short.len() + long.len() > 0
}

/// Whether every option of the table has a name that the parser takes.
pub open spec fn table_allowed(table: Seq<OptionDecl>) -> bool {
    forall|i: int| 0 <= i < table.len() ==> names_allowed(#[trigger] table[i].short, table[i].long)
}

/// The names under which the options of a table can be asked for.
pub open spec fn declared_names(table: Seq<OptionDecl>) -> Set<Seq<char>> {
    Set::new(
        |name: Seq<char>|
            name.len() > 0 && exists|i: int|
                0 <= i < table.len() && (#[trigger] table[i].short == name || table[i].long
                    == name),
    )
}

/// `getopts::Options::new`: a parser without options, which lets options and
/// free arguments mix and reads long options behind two dashes only.
#[verifier::external_body]
pub(crate) fn new_parser() -> (parser: getopts::Options)
    ensures
        option_table(parser) == Seq::<OptionDecl>::empty(),
        !stops_at_first_free(parser),
        !long_only(parser),
{
    getopts::Options::new()
}

/// `getopts::Options::optflag`: declares an option without value that may be
/// given at most once, as the last option of the table. The settings of the
/// parser stay.
#[verifier::external_body]
pub(crate) fn declare_flag(parser: &mut getopts::Options, short: &str, long: &str, desc: &str)
    requires
        names_allowed(short@, long@),
    ensures
        option_table(*final(parser)) == option_table(*old(parser)).push(
            OptionDecl {
                short: short@,
                long: long@,
                desc: desc@,
                hint: Seq::<char>::empty(),
                value: ValueMode::Flag,
                occurs: Occurrence::AtMostOnce,
            },
        ),
        stops_at_first_free(*final(parser)) == stops_at_first_free(*old(parser)),
        long_only(*final(parser)) == long_only(*old(parser)),
{
    parser.optflag(short, long, desc);
}

/// `getopts::Options::optflagmulti`: declares an option without value that
/// may be given any number of times, as the last option of the table. The
/// settings of the parser stay.
#[verifier::external_body]
pub(crate) fn declare_flag_multi(
    parser: &mut getopts::Options,
    short: &str,
    long: &str,
    desc: &str,
)
    requires
        names_allowed(short@, long@),
    ensures
        option_table(*final(parser)) == option_table(*old(parser)).push(
            OptionDecl {
                short: short@,
                long: long@,
                desc: desc@,
                hint: Seq::<char>::empty(),
                value: ValueMode::Flag,
                occurs: Occurrence::Many,
            },
        ),
        stops_at_first_free(*final(parser)) == stops_at_first_free(*old(parser)),
        long_only(*final(parser)) == long_only(*old(parser)),
{
    parser.optflagmulti(short, long, desc);
}

/// `getopts::Options::optopt`: declares an option with a value that may be
/// given at most once, as the last option of the table. The settings of the
/// parser stay.
#[verifier::external_body]
pub(crate) fn declare_value(
    parser: &mut getopts::Options,
    short: &str,
    long: &str,
    desc: &str,
    hint: &str,
)
    requires
        names_allowed(short@, long@),
    ensures
        option_table(*final(parser)) == option_table(*old(parser)).push(
            OptionDecl {
                short: short@,
                long: long@,
                desc: desc@,
                hint: hint@,
                value: ValueMode::Required,
                occurs: Occurrence::AtMostOnce,
            },
        ),
        stops_at_first_free(*final(parser)) == stops_at_first_free(*old(parser)),
        long_only(*final(parser)) == long_only(*old(parser)),
{
    parser.optopt(short, long, desc, hint);
}

/// `getopts::Options::parsing_style` with `StopAtFirstFree`: from the first
/// argument that is no option on, everything is a free argument. The options
/// stay.
#[verifier::external_body]
pub(crate) fn stop_at_first_free(parser: &mut getopts::Options)
    ensures
        stops_at_first_free(*final(parser)),
        option_table(*final(parser)) == option_table(*old(parser)),
        long_only(*final(parser)) == long_only(*old(parser)),
{
    parser.parsing_style(getopts::ParsingStyle::StopAtFirstFree);
}

/// `getopts::Options::parse`: the outcome depends on the options, the
/// settings and the arguments alone. Matches answer for exactly the names
/// that were declared. A fault comes with its kind and the option's name.
#[verifier::external_body]
pub(crate) fn parse(parser: &getopts::Options, args: &Vec<String>) -> (r: Result<
    getopts::Matches,
    ParseFailure,
>)
    requires
        table_allowed(option_table(*parser)),
    ensures
        match r {
            Ok(matches) => {
                &&& parse_outcome(
                    option_table(*parser),
                    stops_at_first_free(*parser),
                    long_only(*parser),
                    texts(args@),
                ) == Ok::<ParsedLine, (FailureKind, Seq<char>)>(parsed_line(matches))
                &&& occurrences(matches).dom() == declared_names(option_table(*parser))
            },
            Err(failure) => parse_outcome(
                option_table(*parser),
                stops_at_first_free(*parser),
                long_only(*parser),
                texts(args@),
            ) == Err::<ParsedLine, (FailureKind, Seq<char>)>((failure.kind, failure.option@)),
        },
{
    let failure = match parser.parse(args) {
        Ok(matches) => return Ok(matches),
        Err(failure) => failure,
    };
    let (kind, option) = match failure {
        getopts::Fail::ArgumentMissing(name) => (FailureKind::ArgumentMissing, name),
        getopts::Fail::UnrecognizedOption(name) => (FailureKind::UnrecognizedOption, name),
        getopts::Fail::OptionMissing(name) => (FailureKind::OptionMissing, name),
        getopts::Fail::OptionDuplicated(name) => (FailureKind::OptionDuplicated, name),
        getopts::Fail::UnexpectedArgument(name) => (FailureKind::UnexpectedArgument, name),
    };
    Err(ParseFailure { kind, option })
}

/// `getopts::Matches::opt_present`: whether the option occurred. The name
/// must be a declared one.
#[verifier::external_body]
pub(crate) fn opt_present(matches: &getopts::Matches, name: &str) -> (r: bool)
    requires
        occurrences(*matches).dom().contains(name@),
    ensures
        r == (occurrences(*matches)[name@].len() > 0),
{
    matches.opt_present(name)
}

/// `getopts::Matches::opt_str`: the value of the option's first occurrence,
/// if it occurred and that occurrence has a value. The name must be a
/// declared one.
#[verifier::external_body]
pub(crate) fn opt_str(matches: &getopts::Matches, name: &str) -> (r: Option<String>)
    requires
        occurrences(*matches).dom().contains(name@),
    ensures
        match r {
            Some(value) => occurrences(*matches)[name@].len() > 0 && occurrences(
                *matches,
            )[name@][0] == Some(value@),
            None => occurrences(*matches)[name@].len() == 0 || occurrences(*matches)[name@][0]
                is None,
        },
{
    matches.opt_str(name)
}

/// The field `free` of `getopts::Matches`: the arguments that are no options.
#[verifier::external_body]
pub(crate) fn free_arguments(matches: &getopts::Matches) -> (r: Vec<String>)
    ensures
        texts(r@) == free_of(*matches),
{
    matches.free.clone()
}

/// `getopts::Options::usage`: the help text, which depends on the options,
/// on how long options are written, and on the heading alone.
#[verifier::external_body]
pub(crate) fn usage_of(parser: &getopts::Options, brief: &str) -> (r: String)
    requires
        table_allowed(option_table(*parser)),
    ensures
        r@ == usage_text(option_table(*parser), long_only(*parser), brief@),
{
    parser.usage(brief)
}

/// `num_cpus::get`: the number of processors that the machine offers to this
/// process, which is at least 1. It may differ from call to call.
#[verifier::external_body]
pub(crate) fn host_parallelism() -> (n: usize)
    ensures
        n >= 1,
{
    num_cpus::get()
}

} // verus!

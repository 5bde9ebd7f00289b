//! From the words of a command line to [`Args`].
//!
//! clap splits the command line into options and values, fills in the defaults,
//! and reports what is wrong. Which options there are, which values they accept
//! and what those mean is decided here and in [`crate::sim::options`].

use vstd::prelude::*;

use crate::hardware::mem::general_cache::prefetcher::PrefetcherKind;
use crate::hardware::mem::general_cache::write_policy::WritePolicy;
use crate::hardware::mem::simple_dram::DramTiming;
use crate::number::parse_usize;
use crate::sim::cli::{
    Args, BackingMemoryArg, BranchPredictorArg, PrefetcherArg, ReplacementPolicyArg, WritePolicyArg,
};
use crate::sim::options::{
    check_text, option_list, CliOption, CliOptionView, ValueKind, BP, DRAM_TCL, DRAM_TRCD,
    DRAM_TRP, ELF_DIR, L1D_BLOCK, L1D_PENALTY, L1D_SIZE, L1D_WAYS, L1I_BLOCK, L1I_PENALTY,
    L1I_SIZE, L1I_WAYS, L2_BLOCK, L2_PENALTY, L2_SIZE, L2_WAYS, MEMORY, OPTION_COUNT, PREFETCHER,
    PROG, RP, STATS_OUT, WP,
};
use crate::sim::runner::{
    BackingMemoryKind, BranchPredictorKind, ReplacementPolicyKind, SimulationConfig,
};

verus! {

/// Name of the program.
pub const COMMAND: &'static str = "simulator";

/// What the program does.
pub const ABOUT: &'static str =
    "SimplePipeSim — a teaching RISC-V pipeline simulator focused on the cache subsystem. Configure the three cache levels and the replacement policy from the command line, then either print stats to stdout or emit JSON for offline plotting";

/// Why there are no arguments.
#[derive(Debug)]
pub enum ArgsError {
    /// clap refuses the command line, or it asks for help.
    CommandLine { exit_code: i32, message: String },
    /// No program is named.
    MissingProgram,
    /// An option does not accept its value.
    InvalidValue { option: &'static str, value: String },
}

/// The same with texts as sequences of characters.
pub enum ArgsErrorView {
    CommandLine { exit_code: i32, message: Seq<char> },
    MissingProgram,
    InvalidValue { option: Seq<char>, value: Seq<char> },
}

impl View for ArgsError {
    type V = ArgsErrorView;

    open spec fn view(&self) -> ArgsErrorView {
        match self {
            ArgsError::CommandLine { exit_code, message } => ArgsErrorView::CommandLine {
                exit_code: *exit_code,
                message: message@,
            },
            ArgsError::MissingProgram => ArgsErrorView::MissingProgram,
            ArgsError::InvalidValue { option, value } => ArgsErrorView::InvalidValue {
                option: option@,
                value: value@,
            },
        }
    }
}

/// The view of an optional text.
pub open spec fn text_view(text: Option<String>) -> Option<Seq<char>> {
    match text {
        Some(text) => Some(text@),
        None => None,
    }
}

/// The views of optional texts.
pub open spec fn texts_view(texts: Seq<Option<String>>) -> Seq<Option<Seq<char>>> {
    texts.map_values(|text: Option<String>| text_view(text))
}

/// The views of the words of a command line.
pub open spec fn words_view(words: Seq<String>) -> Seq<Seq<char>> {
    words.map_values(|word: String| word@)
}

/// Why the option at position `i` cannot be given as `value`.
pub open spec fn rejection(i: int, value: Option<Seq<char>>) -> Option<ArgsErrorView> {
    let option = crate::sim::options::option_table()[i];
    match value {
        None => if i == PROG {
            Some(ArgsErrorView::MissingProgram)
        } else {
            None
        },
        Some(text) => if option.accepts(text) {
            None
        } else {
            Some(ArgsErrorView::InvalidValue { option: option.name, value: text })
        },
    }
}

/// The text given, or `default`.
pub open spec fn text_or(value: Option<Seq<char>>, default: Seq<char>) -> Seq<char> {
    match value {
        Some(text) => text,
        None => default,
    }
}

/// The number given, or `default`.
pub open spec fn number_or(value: Option<Seq<char>>, default: usize) -> usize {
    match value {
        Some(text) => crate::number::usize_value(text)->0,
        None => default,
    }
}

impl Args {
    /// The arguments are those that `values` choose, with the default for
    /// every option that is not given.
    pub open spec fn chosen_by(self, values: Seq<Option<Seq<char>>>) -> bool {
        &&& Some(self.prog@) == values[PROG as int]
        &&& self.elf_dir@ == text_or(
            values[ELF_DIR as int],
            "../target/riscv32im-unknown-none-elf/debug"@,
        )
        &&& self.l1i_size == number_or(values[L1I_SIZE as int], 2048)
        &&& self.l1i_block == number_or(values[L1I_BLOCK as int], 32)
        &&& self.l1i_ways == number_or(values[L1I_WAYS as int], 4)
        &&& self.l1i_penalty == number_or(values[L1I_PENALTY as int], 2)
        &&& self.l1d_size == number_or(values[L1D_SIZE as int], 256)
        &&& self.l1d_block == number_or(values[L1D_BLOCK as int], 32)
        &&& self.l1d_ways == number_or(values[L1D_WAYS as int], 2)
        &&& self.l1d_penalty == number_or(values[L1D_PENALTY as int], 2)
        &&& self.l2_size == number_or(values[L2_SIZE as int], 16384)
        &&& self.l2_block == number_or(values[L2_BLOCK as int], 64)
        &&& self.l2_ways == number_or(values[L2_WAYS as int], 4)
        &&& self.l2_penalty == number_or(values[L2_PENALTY as int], 10)
        &&& Some(self.rp) == ReplacementPolicyArg::named(text_or(values[RP as int], "fifo"@))
        &&& Some(self.wp) == WritePolicyArg::named(text_or(values[WP as int], "wb-wa"@))
        &&& Some(self.prefetcher) == PrefetcherArg::named(
            text_or(values[PREFETCHER as int], "null"@),
        )
        &&& Some(self.bp) == BranchPredictorArg::named(text_or(values[BP as int], "bimodal"@))
        &&& Some(self.memory) == BackingMemoryArg::named(
            text_or(values[MEMORY as int], "simple-mem"@),
        )
        &&& self.dram_trcd == number_or(values[DRAM_TRCD as int], 4)
        &&& self.dram_tcl == number_or(values[DRAM_TCL as int], 4)
        &&& self.dram_trp == number_or(values[DRAM_TRP as int], 4)
        &&& text_view(self.stats_out) == values[STATS_OUT as int]
    }
}

/// The option at position `i` is the first that is rejected.
pub open spec fn first_rejected(values: Seq<Option<Seq<char>>>, i: int) -> bool {
    &&& 0 <= i < OPTION_COUNT
    &&& rejection(i, values[i]) is Some
    &&& forall|j: int| 0 <= j < i ==> rejection(j, #[trigger] values[j]) is None
}

/// No option is rejected.
pub open spec fn none_rejected(values: Seq<Option<Seq<char>>>) -> bool {
    forall|j: int| 0 <= j < OPTION_COUNT ==> rejection(j, #[trigger] values[j]) is None
}

/// What comes of the values of the options: the arguments that they choose,
/// or the error of the first option that is rejected.
pub open spec fn interprets(
    values: Seq<Option<Seq<char>>>,
    res: Result<Args, ArgsError>,
) -> bool {
    match res {
        Ok(args) => none_rejected(values) && args.chosen_by(values),
        Err(error) => exists|i: int|
            #[trigger] first_rejected(values, i) && rejection(i, values[i]) == Some(error@),
    }
}

/// The error of the first option that is rejected.
fn first_rejection(values: &Vec<Option<String>>) -> (res: Option<ArgsError>)
    requires
        values@.len() == OPTION_COUNT,
    ensures
        match res {
            None => none_rejected(texts_view(values@)),
            Some(error) => interprets(texts_view(values@), Err(error)),
        },
{
    let options = option_list();
    let ghost texts = texts_view(values@);
    let ghost table = crate::sim::options::option_table();
    let mut i: usize = 0;
    while i < OPTION_COUNT
        invariant
            i <= OPTION_COUNT,
            values@.len() == OPTION_COUNT,
            options@.len() == OPTION_COUNT,
            table == crate::sim::options::option_table(),
            crate::sim::options::options_view(options@) == table,
            texts == texts_view(values@),
            forall|j: int| 0 <= j < i ==> rejection(j, #[trigger] texts[j]) is None,
        decreases OPTION_COUNT - i,
    {
        assert(texts[i as int] == text_view(values@[i as int]));
        assert(crate::sim::options::options_view(options@)[i as int] == options@[i as int]@);
        match &values[i] {
            None => if i == PROG {
                assert(first_rejected(texts, i as int));
                return Some(ArgsError::MissingProgram);
            },
            Some(text) => if !options[i].accepts(text.as_str()) {
                assert(first_rejected(texts, i as int));
                return Some(
                    ArgsError::InvalidValue { option: options[i].name, value: text.clone() },
                );
            },
        }
        i += 1;
    }
    None
}

/// The text given, or `default`.
fn given_text(value: &Option<String>, default: &str) -> (text: String)
    ensures
        text@ == text_or(text_view(*value), default@),
{
    match value {
        Some(text) => text.clone(),
        None => default.to_owned(),
    }
}

/// The number given, or `default`.
fn given_number(value: &Option<String>, default: usize) -> (n: usize)
    requires
        text_view(*value) matches Some(text) ==> crate::number::usize_value(text) is Some,
    ensures
        n == number_or(text_view(*value), default),
{
    match value {
        Some(text) => parse_usize(text.as_str()).unwrap(),
        None => default,
    }
}

impl Args {
    /// The arguments that the values of the options choose, in the order of the
    /// table of options; `None` stands for an option that is not given.
    pub fn from_values(values: &Vec<Option<String>>) -> (res: Result<Args, ArgsError>)
        requires
            values@.len() == OPTION_COUNT,
        ensures
            interprets(texts_view(values@), res),
    {
        if let Some(error) = first_rejection(values) {
            return Err(error);
        }
        assert forall|j: int| 0 <= j < OPTION_COUNT implies rejection(
            j,
            #[trigger] text_view(values@[j]),
        ) is None && texts_view(values@)[j] == text_view(values@[j]) by {
            assert(rejection(j, texts_view(values@)[j]) is None);
        }
        Ok(
            Args {
                prog: given_text(&values[PROG], ""),
                elf_dir: given_text(
                    &values[ELF_DIR],
                    "../target/riscv32im-unknown-none-elf/debug",
                ),
                l1i_size: given_number(&values[L1I_SIZE], 2048),
                l1i_block: given_number(&values[L1I_BLOCK], 32),
                l1i_ways: given_number(&values[L1I_WAYS], 4),
                l1i_penalty: given_number(&values[L1I_PENALTY], 2),
                l1d_size: given_number(&values[L1D_SIZE], 256),
                l1d_block: given_number(&values[L1D_BLOCK], 32),
                l1d_ways: given_number(&values[L1D_WAYS], 2),
                l1d_penalty: given_number(&values[L1D_PENALTY], 2),
                l2_size: given_number(&values[L2_SIZE], 16384),
                l2_block: given_number(&values[L2_BLOCK], 64),
                l2_ways: given_number(&values[L2_WAYS], 4),
                l2_penalty: given_number(&values[L2_PENALTY], 10),
                rp: ReplacementPolicyArg::from_name(&given_text(&values[RP], "fifo")).unwrap(),
                wp: WritePolicyArg::from_name(&given_text(&values[WP], "wb-wa")).unwrap(),
                prefetcher: PrefetcherArg::from_name(
                    &given_text(&values[PREFETCHER], "null"),
                ).unwrap(),
                bp: BranchPredictorArg::from_name(&given_text(&values[BP], "bimodal")).unwrap(),
                memory: BackingMemoryArg::from_name(
                    &given_text(&values[MEMORY], "simple-mem"),
                ).unwrap(),
                dram_trcd: given_number(&values[DRAM_TRCD], 4),
                dram_tcl: given_number(&values[DRAM_TCL], 4),
                dram_trp: given_number(&values[DRAM_TRP], 4),
                stats_out: match &values[STATS_OUT] {
                    Some(path) => Some(path.clone()),
                    None => None,
                },
            },
        )
    }
}

/// An option as a command line gives it: `--name value` in two words, or
/// `--name=value` in one.
pub struct Given {
    /// Position of the option.
    pub option: int,
    /// Whether name and value are joined by `=`.
    pub joined: bool,
    pub value: Seq<char>,
}

impl Given {
    /// The words for it.
    pub open spec fn words(self, options: Seq<CliOptionView>) -> Seq<Seq<char>> {
        let flag = "--"@ + options[self.option].name;
        if self.joined {
            seq![flag + "="@ + self.value]
        } else {
            seq![flag, self.value]
        }
    }

    /// It gives one of `options`, and a value in a word of its own does not look
    /// like an option.
    pub open spec fn well_formed(self, options: Seq<CliOptionView>) -> bool {
        &&& 0 <= self.option < options.len()
        &&& self.joined || (self.value.len() > 0 && self.value[0] != '-')
    }
}

/// The words for `given`, one after the other.
pub open spec fn spelled(options: Seq<CliOptionView>, given: Seq<Given>) -> Seq<Seq<char>>
    decreases given.len(),
{
    if given.len() == 0 {
        Seq::empty()
    } else {
        spelled(options, given.drop_last()) + given.last().words(options)
    }
}

/// The command line `words` is the name of the program followed by the words
/// for `given`, with no option twice.
pub open spec fn spells(
    options: Seq<CliOptionView>,
    given: Seq<Given>,
    words: Seq<Seq<char>>,
) -> bool {
    &&& words.len() >= 1
    &&& words.skip(1) == spelled(options, given)
    &&& forall|k: int| 0 <= k < given.len() ==> (#[trigger] given[k]).well_formed(options)
    &&& forall|k: int, l: int|
        0 <= k < l < given.len() ==> (#[trigger] given[k]).option != (#[trigger] given[l]).option
}

/// The value that `given` gives to the option at position `j`.
pub open spec fn value_of(given: Seq<Given>, j: int) -> Option<Seq<char>>
    decreases given.len(),
{
    if given.len() == 0 {
        None
    } else if given.last().option == j {
        Some(given.last().value)
    } else {
        value_of(given.drop_last(), j)
    }
}

/// The values that `given` gives to all options.
pub open spec fn values_of(given: Seq<Given>) -> Seq<Option<Seq<char>>> {
    Seq::new(OPTION_COUNT as nat, |j: int| value_of(given, j))
}

/// `values` with the default of every option that has one and is not given.
pub open spec fn filled(values: Seq<Option<Seq<char>>>) -> Seq<Option<Seq<char>>> {
    Seq::new(
        values.len(),
        |j: int|
            match values[j] {
                Some(text) => Some(text),
                None => crate::sim::options::option_table()[j].default,
            },
    )
}

/// The outcome of a command line, over views.
pub open spec fn outcome_view(res: Result<Vec<Option<String>>, (i32, String)>) -> Result<
    Seq<Option<Seq<char>>>,
    (i32, Seq<char>),
> {
    match res {
        Ok(values) => Ok(texts_view(values@)),
        Err(end) => Err((end.0, end.1@)),
    }
}

/// `outcome` is that of a command line with the values `values`: these with the
/// defaults, if none of them is rejected, and exit status 2 otherwise.
pub open spec fn outcome_of(
    values: Seq<Option<Seq<char>>>,
    outcome: Result<Seq<Option<Seq<char>>>, (i32, Seq<char>)>,
) -> bool {
    match outcome {
        Ok(found) => none_rejected(filled(values)) && found == filled(values),
        Err(end) => !none_rejected(filled(values)) && end.0 == 2,
    }
}

/// clap's description of a command line, a collection of options.
#[verifier::external_type_specification]
#[verifier::external_body]
pub struct ExCommand(clap::Command);

/// The options that a `clap::Command` holds, in the order in which they were
/// added.
pub uninterp spec fn command_options(command: clap::Command) -> Seq<CliOptionView>;

/// The name of the program and what it does, as a `clap::Command` holds them.
pub uninterp spec fn command_texts(command: clap::Command) -> Seq<Seq<char>>;

/// A command without options, from `clap::Command::new` and
/// `clap::Command::about`.
#[verifier::external_body]
fn new_command(name: &'static str, about: &'static str) -> (command: clap::Command)
    ensures
        command_options(command) == Seq::<CliOptionView>::empty(),
        command_texts(command) == seq![name@, about@],
{
    clap::Command::new(name).about(about)
}

/// Adds a long option without choices through `clap::Command::arg`: a
/// `clap::Arg` with the name, value name, explanation, default and requirement
/// of `option`, whose values clap hands to [`check_text`] for its kind.
#[verifier::external_body]
fn with_checked_option(command: clap::Command, option: &CliOption) -> (res: clap::Command)
    requires
        option.kind is Text || option.kind is Number || option.kind is Cycles,
        option.choices@.len() == 0,
    ensures
        command_options(res) == command_options(command).push(option@),
        command_texts(res) == command_texts(command),
{
    let kind: ValueKind = option.kind;
    command.arg(
        clap::Arg::new(option.name).long(option.name).value_name(option.value_name).help(
            option.help,
        ).required(option.required).default_value(option.default).value_parser(
            move |text: &str| check_text(kind, text),
        ),
    )
}

/// Adds a long option without choices whose values are paths through
/// `clap::Command::arg`: a `clap::Arg` with the name, value name, explanation,
/// default and requirement of `option` and
/// `clap::builder::ValueParser::path_buf`, which refuses an empty value only.
#[verifier::external_body]
fn with_path_option(command: clap::Command, option: &CliOption) -> (res: clap::Command)
    requires
        option.kind is Path,
        option.choices@.len() == 0,
    ensures
        command_options(res) == command_options(command).push(option@),
        command_texts(res) == command_texts(command),
{
    command.arg(
        clap::Arg::new(option.name).long(option.name).value_name(option.value_name).help(
            option.help,
        ).required(option.required).default_value(option.default).value_parser(
            clap::builder::ValueParser::path_buf(),
        ),
    )
}

/// Adds a long option with a few possible values through `clap::Command::arg`:
/// a `clap::Arg` with the name, value name, explanation, default and requirement
/// of `option` and a `clap::builder::PossibleValuesParser` over its choices, each
/// with its explanation, which accepts exactly their names.
#[verifier::external_body]
fn with_choice_option(command: clap::Command, option: &CliOption) -> (res: clap::Command)
    requires
        option.kind is Choice,
    ensures
        command_options(res) == command_options(command).push(option@),
        command_texts(res) == command_texts(command),
{
    let values = option.choices.iter().map(|c| clap::builder::PossibleValue::new(c.0).help(c.1));
    command.arg(
        clap::Arg::new(option.name).long(option.name).value_name(option.value_name).help(
            option.help,
        ).required(option.required).default_value(option.default).value_parser(
            clap::builder::PossibleValuesParser::new(values),
        ),
    )
}

/// The command with the options of the simulator.
fn command_with(options: &Vec<CliOption>) -> (command: clap::Command)
    requires
        options@.len() == OPTION_COUNT,
        crate::sim::options::options_view(options@) == crate::sim::options::option_table(),
    ensures
        command_options(command) == crate::sim::options::options_view(options@),
        command_texts(command) == seq![COMMAND@, ABOUT@],
{
    let mut command = new_command(COMMAND, ABOUT);
    let ghost views = crate::sim::options::options_view(options@);
    assert(views.take(0) =~= Seq::<CliOptionView>::empty());
    let mut i: usize = 0;
    while i < options.len()
        invariant
            i <= options@.len() == OPTION_COUNT,
            views == crate::sim::options::options_view(options@),
            views == crate::sim::options::option_table(),
            command_options(command) == views.take(i as int),
            command_texts(command) == seq![COMMAND@, ABOUT@],
        decreases options@.len() - i,
    {
        proof {
            assert(views[i as int] == options@[i as int]@);
            assert(views.take(i + 1) =~= views.take(i as int).push(options@[i as int]@));
            crate::sim::options::lemma_only_choices_have_choices(i as int);
        }
        command =
        match options[i].kind {
            ValueKind::Path => with_path_option(command, &options[i]),
            ValueKind::Choice => with_choice_option(command, &options[i]),
            _ => with_checked_option(command, &options[i]),
        };
        i += 1;
    }
    assert(views.take(options@.len() as int) =~= views);
    command
}

/// What clap makes of a command line: the value of each option, or the exit
/// status and the message with which it ends.
pub uninterp spec fn clap_outcome(
    texts: Seq<Seq<char>>,
    options: Seq<CliOptionView>,
    words: Seq<Seq<char>>,
) -> Result<Seq<Option<Seq<char>>>, (i32, Seq<char>)>;

/// Reads `words`, the first of which names the program, through
/// `clap::Command::try_get_matches_from`. The value of an option, given or
/// default, comes from `clap::ArgMatches::get_raw`, the exit status and the
/// message from the `clap::Error`.
///
/// The contract names the outcome, a function of what the command holds and of
/// the words. It says that an accepted command line has one entry per option,
/// that every value in it is accepted by its option, and that no required option
/// is missing. Of a command line made of `--name value` and `--name=value`, each
/// option at most once, it says that clap gives each option its value or its
/// default, and refuses it with status 2 exactly when a value is not accepted or
/// a required option is missing. What clap makes of any other command line, and
/// its messages, are left unsaid. The options are those of this program, among
/// which clap finds no contradiction.
#[verifier::external_body]
fn clap_values(command: clap::Command, options: &Vec<CliOption>, words: &Vec<String>) -> (res:
    Result<Vec<Option<String>>, (i32, String)>)
    requires
        command_options(command) == crate::sim::options::option_table(),
        crate::sim::options::options_view(options@) == crate::sim::options::option_table(),
    ensures
        outcome_view(res) == clap_outcome(
            command_texts(command),
            command_options(command),
            words_view(words@),
        ),
        res matches Ok(values) ==> values@.len() == options@.len() && none_rejected(
            texts_view(values@),
        ),
        forall|given: Seq<Given>|
            #[trigger] spells(command_options(command), given, words_view(words@)) ==> outcome_of(
                values_of(given),
                outcome_view(res),
            ),
{
    match command.try_get_matches_from(words) {
        Ok(found) => Ok(
            options.iter().map(
                |o|
                    found.get_raw(o.name).and_then(|mut raw| raw.next()).map(
                        |text| text.to_string_lossy().into_owned(),
                    ),
            ).collect(),
        ),
        Err(error) => Err((error.exit_code(), error.to_string())),
    }
}

/// The values are accepted and choose the arguments.
pub open spec fn accepted(values: Seq<Option<Seq<char>>>, res: Result<Args, ArgsError>) -> bool {
    none_rejected(values) && (res matches Ok(args) && args.chosen_by(values))
}

/// The command line is refused with the exit status 2.
pub open spec fn refused(res: Result<Args, ArgsError>) -> bool {
    res matches Err(error) && (error@ matches ArgsErrorView::CommandLine { exit_code, .. }
        && exit_code == 2)
}

/// A command line with the values `values` is accepted with them unless one is
/// rejected, and refused otherwise.
pub open spec fn answers(values: Seq<Option<Seq<char>>>, res: Result<Args, ArgsError>) -> bool {
    if none_rejected(values) {
        accepted(values, res)
    } else {
        refused(res)
    }
}

impl Args {
    /// Reads a command line whose first word names the program.
    ///
    /// It is accepted when clap accepts it. A command line made of
    /// `--name value` and `--name=value`, with no option twice, is accepted
    /// exactly when no option is rejected.
    pub fn try_parse_from(words: &Vec<String>) -> (res: Result<Args, ArgsError>)
        ensures
            match clap_outcome(
                seq![COMMAND@, ABOUT@],
                crate::sim::options::option_table(),
                words_view(words@),
            ) {
                Ok(values) => values.len() == OPTION_COUNT && accepted(values, res),
                Err((exit_code, message)) => res matches Err(error) && error@
                    == (ArgsErrorView::CommandLine { exit_code, message }),
            },
            forall|given: Seq<Given>|
                #[trigger] spells(
                    crate::sim::options::option_table(),
                    given,
                    words_view(words@),
                ) ==> answers(values_of(given), res),
    {
        let options = option_list();
        let command = command_with(&options);
        let outcome = clap_values(command, &options, words);
        let ghost found = outcome_view(outcome);
        let res = match outcome {
            Ok(values) => Args::from_values(&values),
            Err((exit_code, message)) => Err(ArgsError::CommandLine { exit_code, message }),
        };
        proof {
            assert forall|given: Seq<Given>|
                #[trigger] spells(
                    crate::sim::options::option_table(),
                    given,
                    words_view(words@),
                ) implies answers(values_of(given), res) by {
                assert(outcome_of(values_of(given), found));
                if let Ok(args) = res {
                    law_defaults_fill_in(values_of(given), args);
                } else {
                    law_defaults_are_accepted(values_of(given));
                }
            }
        }
        res
    }
}

/// Given options. On a command line that gives no option twice, an option has
/// the value that it is given, and none if it is not given.
pub proof fn law_given_option_has_its_value(given: Seq<Given>, j: int, k: int)
    requires
        forall|k: int, l: int|
            0 <= k < l < given.len() ==> (#[trigger] given[k]).option != (
            #[trigger] given[l]).option,
    ensures
        0 <= k < given.len() && given[k].option == j ==> value_of(given, j) == Some(given[k].value),
        (forall|l: int| 0 <= l < given.len() ==> (#[trigger] given[l]).option != j) ==> value_of(
            given,
            j,
        ) is None,
    decreases given.len(),
{
    if given.len() > 0 {
        let earlier = given.drop_last();
        assert forall|k: int, l: int| 0 <= k < l < earlier.len() implies (
        #[trigger] earlier[k]).option != (#[trigger] earlier[l]).option by {
            assert(given[k].option != given[l].option);
        }
        law_given_option_has_its_value(earlier, j, k);
        if 0 <= k < given.len() - 1 && given[k].option == j {
            assert(given[k].option != given[given.len() - 1].option);
            assert(earlier[k] == given[k]);
        }
        if forall|l: int| 0 <= l < given.len() ==> (#[trigger] given[l]).option != j {
            assert(given[given.len() - 1].option != j);
            assert forall|l: int| 0 <= l < earlier.len() implies (#[trigger] earlier[l]).option
                != j by {
                assert(given[l].option != j);
            }
        }
    }
}

/// One reading. A command line gives its options in one way only.
pub proof fn law_command_line_reads_one_way(
    first: Seq<Given>,
    second: Seq<Given>,
    words: Seq<Seq<char>>,
)
    requires
        spells(crate::sim::options::option_table(), first, words),
        spells(crate::sim::options::option_table(), second, words),
    ensures
        first == second,
{
    lemma_same_words_same_options(first, second);
}

/// The same words give the same options.
proof fn lemma_same_words_same_options(first: Seq<Given>, second: Seq<Given>)
    requires
        forall|k: int|
            0 <= k < first.len() ==> (#[trigger] first[k]).well_formed(
                crate::sim::options::option_table(),
            ),
        forall|k: int|
            0 <= k < second.len() ==> (#[trigger] second[k]).well_formed(
                crate::sim::options::option_table(),
            ),
        spelled(crate::sim::options::option_table(), first) == spelled(
            crate::sim::options::option_table(),
            second,
        ),
    ensures
        first == second,
    decreases first.len(),
{
    let table = crate::sim::options::option_table();
    let words = spelled(table, first);
    reveal_strlit("--");
    if first.len() > 0 && second.len() > 0 {
        let a = first.last();
        let b = second.last();
        assert(first[first.len() - 1].well_formed(table));
        assert(second[second.len() - 1].well_formed(table));
        let a_words = a.words(table);
        let b_words = b.words(table);
        let a_rest = spelled(table, first.drop_last());
        let b_rest = spelled(table, second.drop_last());
        assert(words.last() == a_words.last());
        assert(words.last() == b_words.last());
        assert(a.joined == (words.last()[0] == '-'));
        assert(b.joined == (words.last()[0] == '-'));
        assert(a_words.len() == b_words.len());
        assert(a_rest =~= words.take(words.len() - a_words.len()));
        assert(b_rest =~= words.take(words.len() - b_words.len()));
        assert(a_words =~= words.skip(words.len() - a_words.len()));
        assert(b_words =~= words.skip(words.len() - b_words.len()));
        let a_flag = "--"@ + table[a.option].name;
        let b_flag = "--"@ + table[b.option].name;
        crate::sim::options::law_option_names_are_distinct(a.option, b.option);
        crate::sim::options::law_option_names_are_distinct(b.option, a.option);
        if a.joined {
            lemma_joined_words_split_once(table[a.option].name, a.value, table[b.option].name, b.value);
        } else {
            assert(a_words[0] == a_flag && b_words[0] == b_flag);
            assert(a_flag.skip(2) =~= table[a.option].name);
            assert(b_flag.skip(2) =~= table[b.option].name);
            assert(a_words[1] == a.value && b_words[1] == b.value);
        }
        assert(a == b);
        lemma_same_words_same_options(first.drop_last(), second.drop_last());
        assert(first =~= first.drop_last().push(a));
        assert(second =~= second.drop_last().push(b));
    } else if first.len() > 0 {
        assert(words.len() >= first.last().words(table).len());
    } else if second.len() > 0 {
        assert(words.len() >= second.last().words(table).len());
    }
    assert(first =~= second);
}

/// A word with a `=` splits into a name without one and a value in one way.
proof fn lemma_joined_words_split_once(
    name: Seq<char>,
    value: Seq<char>,
    other_name: Seq<char>,
    other_value: Seq<char>,
)
    requires
        !name.contains('='),
        !other_name.contains('='),
        "--"@ + name + "="@ + value == "--"@ + other_name + "="@ + other_value,
    ensures
        name == other_name,
        value == other_value,
{
    reveal_strlit("--");
    reveal_strlit("=");
    let word = "--"@ + name + "="@ + value;
    let n = name.len() as int;
    let m = other_name.len() as int;
    assert(word[n + 2] == '=');
    assert(("--"@ + other_name + "="@ + other_value)[m + 2] == '=');
    if n < m {
        assert(word[n + 2] == other_name[n]);
        assert(other_name.contains(other_name[n]));
    }
    if m < n {
        assert(word[m + 2] == name[m]);
        assert(name.contains(name[m]));
    }
    assert(name =~= word.subrange(2, n + 2));
    assert(other_name =~= word.subrange(2, m + 2));
    assert(value =~= word.skip(n + 3));
    assert(other_value =~= word.skip(m + 3));
}

/// Default values. Every default is accepted by its option, so the defaults
/// change nothing about what is rejected.
pub proof fn law_defaults_are_accepted(values: Seq<Option<Seq<char>>>)
    requires
        values.len() == OPTION_COUNT,
    ensures
        none_rejected(filled(values)) <==> none_rejected(values),
{
    lemma_default_numbers();
    lemma_default_names();
    let table = crate::sim::options::option_table();
    assert forall|j: int| 0 <= j < OPTION_COUNT implies (rejection(j, #[trigger] values[j]) is None
        <==> rejection(j, filled(values)[j]) is None) by {
        reveal_strlit("../target/riscv32im-unknown-none-elf/debug");
        if values[j] is None && table[j].default is Some {
            assert(table[j].accepts(table[j].default->0));
        }
    }
    if none_rejected(filled(values)) {
        assert forall|j: int| 0 <= j < OPTION_COUNT implies rejection(
            j,
            #[trigger] values[j],
        ) is None by {
            assert(rejection(j, filled(values)[j]) is None);
        }
    }
    if none_rejected(values) {
        assert forall|j: int| 0 <= j < OPTION_COUNT implies rejection(
            j,
            #[trigger] filled(values)[j],
        ) is None by {
            assert(rejection(j, values[j]) is None);
        }
    }
}

/// Defaults. An option that is not given is chosen like one that is given its
/// default.
pub proof fn law_defaults_fill_in(values: Seq<Option<Seq<char>>>, args: Args)
    requires
        values.len() == OPTION_COUNT,
    ensures
        none_rejected(filled(values)) <==> none_rejected(values),
        args.chosen_by(filled(values)) <==> args.chosen_by(values),
{
    law_defaults_are_accepted(values);
    lemma_default_numbers();
}

/// The defaults of the numbers denote what they say.
proof fn lemma_default_numbers()
    ensures
        crate::number::usize_value("2048"@) == Some(2048usize),
        crate::number::usize_value("32"@) == Some(32usize),
        crate::number::usize_value("4"@) == Some(4usize),
        crate::number::usize_value("2"@) == Some(2usize),
        crate::number::usize_value("256"@) == Some(256usize),
        crate::number::usize_value("16384"@) == Some(16384usize),
        crate::number::usize_value("64"@) == Some(64usize),
        crate::number::usize_value("10"@) == Some(10usize),
{
    reveal_with_fuel(crate::number::decimal, 5);
    reveal_strlit("2048");
    reveal_strlit("32");
    reveal_strlit("4");
    reveal_strlit("2");
    reveal_strlit("256");
    reveal_strlit("16384");
    reveal_strlit("64");
    reveal_strlit("10");
    assert(crate::number::decimal(2048) =~= "2048"@);
    assert(crate::number::decimal(32) =~= "32"@);
    assert(crate::number::decimal(4) =~= "4"@);
    assert(crate::number::decimal(2) =~= "2"@);
    assert(crate::number::decimal(256) =~= "256"@);
    assert(crate::number::decimal(16384) =~= "16384"@);
    assert(crate::number::decimal(64) =~= "64"@);
    assert(crate::number::decimal(10) =~= "10"@);
    crate::number::law_decimal_reads_back(2048);
    crate::number::law_decimal_reads_back(32);
    crate::number::law_decimal_reads_back(4);
    crate::number::law_decimal_reads_back(2);
    crate::number::law_decimal_reads_back(256);
    crate::number::law_decimal_reads_back(16384);
    crate::number::law_decimal_reads_back(64);
    crate::number::law_decimal_reads_back(10);
}

/// The defaults of the choices are among the choices.
proof fn lemma_default_names()
    ensures
        forall|j: int|
            RP <= j <= MEMORY ==> (#[trigger] crate::sim::options::option_table()[j]).accepts(
                crate::sim::options::option_table()[j].default->0,
            ),
{
    let table = crate::sim::options::option_table();
    assert(table[RP as int].choices[0].0 == "fifo"@);
    assert(table[WP as int].choices[0].0 == "wb-wa"@);
    assert(table[PREFETCHER as int].choices[0].0 == "null"@);
    assert(table[BP as int].choices[1].0 == "bimodal"@);
    assert(table[MEMORY as int].choices[0].0 == "simple-mem"@);
}

/// Standard machine. Values that name the program and give nothing else are accepted
/// and choose the standard machine.
pub proof fn law_program_alone_runs_standard_machine(
    values: Seq<Option<Seq<char>>>,
    res: Result<Args, ArgsError>,
)
    requires
        values.len() == OPTION_COUNT,
        interprets(values, res),
        values[PROG as int] is Some,
        forall|i: int| 0 < i < OPTION_COUNT ==> #[trigger] values[i] is None,
    ensures
        none_rejected(values),
        res is Ok,
        res->Ok_0.config() == SimulationConfig::standard(),
        res->Ok_0.stats_out is None,
{
    reveal_strlit("dummy");
    reveal_strlit("bimodal");
    assert("dummy"@.len() != "bimodal"@.len());
    if let Err(error) = res {
        let i = choose|i: int|
            #[trigger] first_rejected(values, i) && rejection(i, values[i]) == Some(error@);
        assert(rejection(i, values[i]) is Some);
    }
}

/// Timing. With `--memory dram`, the three timing options, or 4 cycles for
/// each that is not given, are the timing of the DRAM.
pub proof fn law_dram_options_reach_the_machine(values: Seq<Option<Seq<char>>>, args: Args)
    requires
        values.len() == OPTION_COUNT,
        interprets(values, Ok(args)),
        values[MEMORY as int] == Some("dram"@),
    ensures
        args.config().backing_memory == (BackingMemoryKind::SimpleDram {
            timing: DramTiming {
                t_rcd: number_or(values[DRAM_TRCD as int], 4),
                t_cl: number_or(values[DRAM_TCL as int], 4),
                t_rp: number_or(values[DRAM_TRP as int], 4),
            },
        }),
{
    reveal_strlit("dram");
    reveal_strlit("simple-mem");
}

/// Zero. A DRAM timing of 0 cycles is refused, with any memory.
pub proof fn law_zero_timing_is_refused(
    values: Seq<Option<Seq<char>>>,
    res: Result<Args, ArgsError>,
    i: int,
)
    requires
        values.len() == OPTION_COUNT,
        DRAM_TRCD <= i <= DRAM_TRP,
        values[i] matches Some(text) && crate::number::usize_value(text) == Some(0usize),
    ensures
        !none_rejected(values),
        interprets(values, res) ==> res is Err,
{
    assert(rejection(i, values[i]) is Some);
}

/// Soundness. The machine that an accepted command line chooses has a memory
/// that can be built.
pub proof fn law_accepted_arguments_have_a_valid_memory(
    values: Seq<Option<Seq<char>>>,
    args: Args,
)
    requires
        values.len() == OPTION_COUNT,
        interprets(values, Ok(args)),
    ensures
        args.dram_trcd >= 1,
        args.dram_tcl >= 1,
        args.dram_trp >= 1,
        args.config().backing_memory.valid(),
{
    assert(rejection(DRAM_TRCD as int, values[DRAM_TRCD as int]) is None);
    assert(rejection(DRAM_TCL as int, values[DRAM_TCL as int]) is None);
    assert(rejection(DRAM_TRP as int, values[DRAM_TRP as int]) is None);
}

/// Numbers. A number that is given in decimal notation is the number chosen,
/// whatever it is; one that is given in any other notation is the number denoted;
/// and one that is not given is its default.
pub proof fn law_numbers_given_are_the_numbers_chosen(
    values: Seq<Option<Seq<char>>>,
    args: Args,
    n: nat,
)
    requires
        values.len() == OPTION_COUNT,
        interprets(values, Ok(args)),
        n <= usize::MAX,
    ensures
        values[L1I_SIZE as int] == Some(crate::number::decimal(n)) ==> args.l1i_size == n,
        values[L1I_SIZE as int] matches Some(text) ==> crate::number::usize_value(text) == Some(
            args.l1i_size,
        ),
        values[L1I_SIZE as int] is None ==> args.l1i_size == 2048,
        values[L1I_BLOCK as int] == Some(crate::number::decimal(n)) ==> args.l1i_block == n,
        values[L1I_BLOCK as int] matches Some(text) ==> crate::number::usize_value(text) == Some(
            args.l1i_block,
        ),
        values[L1I_BLOCK as int] is None ==> args.l1i_block == 32,
        values[L1I_WAYS as int] == Some(crate::number::decimal(n)) ==> args.l1i_ways == n,
        values[L1I_WAYS as int] matches Some(text) ==> crate::number::usize_value(text) == Some(
            args.l1i_ways,
        ),
        values[L1I_WAYS as int] is None ==> args.l1i_ways == 4,
        values[L1I_PENALTY as int] == Some(crate::number::decimal(n)) ==> args.l1i_penalty == n,
        values[L1I_PENALTY as int] matches Some(text) ==> crate::number::usize_value(text) == Some(
            args.l1i_penalty,
        ),
        values[L1I_PENALTY as int] is None ==> args.l1i_penalty == 2,
        values[L1D_SIZE as int] == Some(crate::number::decimal(n)) ==> args.l1d_size == n,
        values[L1D_SIZE as int] matches Some(text) ==> crate::number::usize_value(text) == Some(
            args.l1d_size,
        ),
        values[L1D_SIZE as int] is None ==> args.l1d_size == 256,
        values[L1D_BLOCK as int] == Some(crate::number::decimal(n)) ==> args.l1d_block == n,
        values[L1D_BLOCK as int] matches Some(text) ==> crate::number::usize_value(text) == Some(
            args.l1d_block,
        ),
        values[L1D_BLOCK as int] is None ==> args.l1d_block == 32,
        values[L1D_WAYS as int] == Some(crate::number::decimal(n)) ==> args.l1d_ways == n,
        values[L1D_WAYS as int] matches Some(text) ==> crate::number::usize_value(text) == Some(
            args.l1d_ways,
        ),
        values[L1D_WAYS as int] is None ==> args.l1d_ways == 2,
        values[L1D_PENALTY as int] == Some(crate::number::decimal(n)) ==> args.l1d_penalty == n,
        values[L1D_PENALTY as int] matches Some(text) ==> crate::number::usize_value(text) == Some(
            args.l1d_penalty,
        ),
        values[L1D_PENALTY as int] is None ==> args.l1d_penalty == 2,
        values[L2_SIZE as int] == Some(crate::number::decimal(n)) ==> args.l2_size == n,
        values[L2_SIZE as int] matches Some(text) ==> crate::number::usize_value(text) == Some(
            args.l2_size,
        ),
        values[L2_SIZE as int] is None ==> args.l2_size == 16384,
        values[L2_BLOCK as int] == Some(crate::number::decimal(n)) ==> args.l2_block == n,
        values[L2_BLOCK as int] matches Some(text) ==> crate::number::usize_value(text) == Some(
            args.l2_block,
        ),
        values[L2_BLOCK as int] is None ==> args.l2_block == 64,
        values[L2_WAYS as int] == Some(crate::number::decimal(n)) ==> args.l2_ways == n,
        values[L2_WAYS as int] matches Some(text) ==> crate::number::usize_value(text) == Some(
            args.l2_ways,
        ),
        values[L2_WAYS as int] is None ==> args.l2_ways == 4,
        values[L2_PENALTY as int] == Some(crate::number::decimal(n)) ==> args.l2_penalty == n,
        values[L2_PENALTY as int] matches Some(text) ==> crate::number::usize_value(text) == Some(
            args.l2_penalty,
        ),
        values[L2_PENALTY as int] is None ==> args.l2_penalty == 10,
        values[DRAM_TRCD as int] == Some(crate::number::decimal(n)) ==> args.dram_trcd == n,
        values[DRAM_TRCD as int] matches Some(text) ==> crate::number::usize_value(text) == Some(
            args.dram_trcd,
        ),
        values[DRAM_TRCD as int] is None ==> args.dram_trcd == 4,
        values[DRAM_TCL as int] == Some(crate::number::decimal(n)) ==> args.dram_tcl == n,
        values[DRAM_TCL as int] matches Some(text) ==> crate::number::usize_value(text) == Some(
            args.dram_tcl,
        ),
        values[DRAM_TCL as int] is None ==> args.dram_tcl == 4,
        values[DRAM_TRP as int] == Some(crate::number::decimal(n)) ==> args.dram_trp == n,
        values[DRAM_TRP as int] matches Some(text) ==> crate::number::usize_value(text) == Some(
            args.dram_trp,
        ),
        values[DRAM_TRP as int] is None ==> args.dram_trp == 4,
{
    crate::number::law_every_number_can_be_read(n);
    let table = crate::sim::options::option_table();
    assert(rejection(L1I_SIZE as int, values[L1I_SIZE as int]) is None);
    assert(rejection(L1I_BLOCK as int, values[L1I_BLOCK as int]) is None);
    assert(rejection(L1I_WAYS as int, values[L1I_WAYS as int]) is None);
    assert(rejection(L1I_PENALTY as int, values[L1I_PENALTY as int]) is None);
    assert(rejection(L1D_SIZE as int, values[L1D_SIZE as int]) is None);
    assert(rejection(L1D_BLOCK as int, values[L1D_BLOCK as int]) is None);
    assert(rejection(L1D_WAYS as int, values[L1D_WAYS as int]) is None);
    assert(rejection(L1D_PENALTY as int, values[L1D_PENALTY as int]) is None);
    assert(rejection(L2_SIZE as int, values[L2_SIZE as int]) is None);
    assert(rejection(L2_BLOCK as int, values[L2_BLOCK as int]) is None);
    assert(rejection(L2_WAYS as int, values[L2_WAYS as int]) is None);
    assert(rejection(L2_PENALTY as int, values[L2_PENALTY as int]) is None);
    assert(rejection(DRAM_TRCD as int, values[DRAM_TRCD as int]) is None);
    assert(rejection(DRAM_TCL as int, values[DRAM_TCL as int]) is None);
    assert(rejection(DRAM_TRP as int, values[DRAM_TRP as int]) is None);
}

/// Texts. The program is the one named, and a path that is given is the path
/// chosen; without one, the directory is its default and there is no file for
/// the statistics.
pub proof fn law_texts_given_are_the_texts_chosen(values: Seq<Option<Seq<char>>>, args: Args)
    requires
        values.len() == OPTION_COUNT,
        interprets(values, Ok(args)),
    ensures
        values[PROG as int] == Some(args.prog@),
        values[ELF_DIR as int] matches Some(path) ==> args.elf_dir@ == path,
        values[ELF_DIR as int] is None ==> args.elf_dir@
            == "../target/riscv32im-unknown-none-elf/debug"@,
        values[STATS_OUT as int] is None <==> args.stats_out is None,
        args.stats_out matches Some(path) ==> values[STATS_OUT as int] == Some(path@),
{
}

/// Choices. The policy, the prefetcher, the predictor and the memory of the
/// machine are those whose names are given, so different names give different
/// machines; without a name they are FIFO, write-back with write-allocate, none,
/// bimodal and flat.
pub proof fn law_names_given_reach_the_machine(values: Seq<Option<Seq<char>>>, args: Args)
    requires
        values.len() == OPTION_COUNT,
        interprets(values, Ok(args)),
    ensures
        (values[RP as int] == Some("fifo"@) || values[RP as int] is None) <==> args.rp == ReplacementPolicyArg::Fifo,
        (values[RP as int] == Some("fifo"@) || values[RP as int] is None) <==> args.config().replacement_policy == ReplacementPolicyKind::Fifo,
        values[RP as int] == Some("random"@) <==> args.rp == ReplacementPolicyArg::Random,
        values[RP as int] == Some("random"@) <==> args.config().replacement_policy == ReplacementPolicyKind::Random,
        values[RP as int] == Some("plru"@) <==> args.rp == ReplacementPolicyArg::Plru,
        values[RP as int] == Some("plru"@) <==> args.config().replacement_policy == ReplacementPolicyKind::Plru,
        (values[WP as int] == Some("wb-wa"@) || values[WP as int] is None) <==> args.wp == WritePolicyArg::WbWa,
        (values[WP as int] == Some("wb-wa"@) || values[WP as int] is None) <==> args.config().write_policy == WritePolicy::WriteBackWriteAllocate,
        values[WP as int] == Some("wb-nwa"@) <==> args.wp == WritePolicyArg::WbNwa,
        values[WP as int] == Some("wb-nwa"@) <==> args.config().write_policy == WritePolicy::WriteBackNoWriteAllocate,
        values[WP as int] == Some("wt-wa"@) <==> args.wp == WritePolicyArg::WtWa,
        values[WP as int] == Some("wt-wa"@) <==> args.config().write_policy == WritePolicy::WriteThroughWriteAllocate,
        values[WP as int] == Some("wt-nwa"@) <==> args.wp == WritePolicyArg::WtNwa,
        values[WP as int] == Some("wt-nwa"@) <==> args.config().write_policy == WritePolicy::WriteThroughNoWriteAllocate,
        (values[PREFETCHER as int] == Some("null"@) || values[PREFETCHER as int] is None) <==> args.prefetcher == PrefetcherArg::Null,
        (values[PREFETCHER as int] == Some("null"@) || values[PREFETCHER as int] is None) <==> args.config().prefetcher_kind == PrefetcherKind::Null,
        values[PREFETCHER as int] == Some("next-line"@) <==> args.prefetcher == PrefetcherArg::NextLine,
        values[PREFETCHER as int] == Some("next-line"@) <==> args.config().prefetcher_kind == PrefetcherKind::NextLine,
        values[BP as int] == Some("dummy"@) <==> args.bp == BranchPredictorArg::Dummy,
        values[BP as int] == Some("dummy"@) <==> args.config().branch_predictor == BranchPredictorKind::Dummy,
        (values[BP as int] == Some("bimodal"@) || values[BP as int] is None) <==> args.bp == BranchPredictorArg::Bimodal,
        (values[BP as int] == Some("bimodal"@) || values[BP as int] is None) <==> args.config().branch_predictor == BranchPredictorKind::Bimodal,
        (values[MEMORY as int] == Some("simple-mem"@) || values[MEMORY as int] is None) <==> args.memory
            == BackingMemoryArg::SimpleMem,
        values[MEMORY as int] == Some("dram"@) <==> args.memory == BackingMemoryArg::Dram,
        (values[MEMORY as int] == Some("simple-mem"@) || values[MEMORY as int] is None)
            <==> args.config().backing_memory == BackingMemoryKind::SimpleMem,
        values[MEMORY as int] == Some("dram"@) <==> args.config().backing_memory == (
        BackingMemoryKind::SimpleDram {
            timing: DramTiming {
                t_rcd: args.dram_trcd,
                t_cl: args.dram_tcl,
                t_rp: args.dram_trp,
            },
        }),
{
    crate::sim::cli::law_replacement_policy_names(text_or(values[RP as int], "fifo"@));
    crate::sim::cli::law_write_policy_names(text_or(values[WP as int], "wb-wa"@));
    crate::sim::cli::law_prefetcher_names(text_or(values[PREFETCHER as int], "null"@));
    crate::sim::cli::law_branch_predictor_names(text_or(values[BP as int], "bimodal"@));
    crate::sim::cli::law_backing_memory_names(text_or(values[MEMORY as int], "simple-mem"@));
    crate::sim::cli::law_arguments_describe_the_machine(args);
}

/// Acceptance. Values are accepted exactly when the program is named, no path is
/// empty, every number denotes one that fits, every number of cycles denotes one
/// other than zero, and every choice is one of its names; the values that are not
/// given do not matter.
pub proof fn law_values_are_accepted_when(values: Seq<Option<Seq<char>>>)
    requires
        values.len() == OPTION_COUNT,
    ensures
        none_rejected(values) <==> {
            &&& values[PROG as int] is Some
            &&& values[ELF_DIR as int] matches Some(path) ==> path.len() > 0
            &&& values[STATS_OUT as int] matches Some(path) ==> path.len() > 0
            &&& forall|i: int|
                L1I_SIZE <= i <= L2_PENALTY ==> (#[trigger] values[i] matches Some(text)
                    ==> crate::number::usize_value(text) is Some)
            &&& forall|i: int|
                DRAM_TRCD <= i <= DRAM_TRP ==> (#[trigger] values[i] matches Some(text) ==> (
                crate::number::usize_value(text) matches Some(n) && n > 0))
            &&& values[RP as int] matches Some(name) ==> name == "fifo"@ || name == "random"@ || name == "plru"@
            &&& values[WP as int] matches Some(name) ==> name == "wb-wa"@ || name == "wb-nwa"@ || name == "wt-wa"@ || name == "wt-nwa"@
            &&& values[PREFETCHER as int] matches Some(name) ==> name == "null"@ || name == "next-line"@
            &&& values[BP as int] matches Some(name) ==> name == "dummy"@ || name == "bimodal"@
            &&& values[MEMORY as int] matches Some(name) ==> name == "simple-mem"@ || name == "dram"@
        },
{
    let table = crate::sim::options::option_table();
    crate::sim::options::law_choices_are_these(text_or(values[RP as int], Seq::empty()));
    crate::sim::options::law_choices_are_these(text_or(values[WP as int], Seq::empty()));
    crate::sim::options::law_choices_are_these(text_or(values[PREFETCHER as int], Seq::empty()));
    crate::sim::options::law_choices_are_these(text_or(values[BP as int], Seq::empty()));
    crate::sim::options::law_choices_are_these(text_or(values[MEMORY as int], Seq::empty()));
    if !none_rejected(values) {
        let j = choose|j: int|
            0 <= j < OPTION_COUNT && !(rejection(j, #[trigger] values[j]) is None);
        assert(!(rejection(j, values[j]) is None));
        assert(values[j] is Some ==> !table[j].accepts(values[j]->0));
    } else {
        assert(rejection(PROG as int, values[PROG as int]) is None);
        assert(rejection(ELF_DIR as int, values[ELF_DIR as int]) is None);
        assert(rejection(L1I_SIZE as int, values[L1I_SIZE as int]) is None);
        assert(rejection(L1I_BLOCK as int, values[L1I_BLOCK as int]) is None);
        assert(rejection(L1I_WAYS as int, values[L1I_WAYS as int]) is None);
        assert(rejection(L1I_PENALTY as int, values[L1I_PENALTY as int]) is None);
        assert(rejection(L1D_SIZE as int, values[L1D_SIZE as int]) is None);
        assert(rejection(L1D_BLOCK as int, values[L1D_BLOCK as int]) is None);
        assert(rejection(L1D_WAYS as int, values[L1D_WAYS as int]) is None);
        assert(rejection(L1D_PENALTY as int, values[L1D_PENALTY as int]) is None);
        assert(rejection(L2_SIZE as int, values[L2_SIZE as int]) is None);
        assert(rejection(L2_BLOCK as int, values[L2_BLOCK as int]) is None);
        assert(rejection(L2_WAYS as int, values[L2_WAYS as int]) is None);
        assert(rejection(L2_PENALTY as int, values[L2_PENALTY as int]) is None);
        assert(rejection(RP as int, values[RP as int]) is None);
        assert(rejection(WP as int, values[WP as int]) is None);
        assert(rejection(PREFETCHER as int, values[PREFETCHER as int]) is None);
        assert(rejection(BP as int, values[BP as int]) is None);
        assert(rejection(MEMORY as int, values[MEMORY as int]) is None);
        assert(rejection(DRAM_TRCD as int, values[DRAM_TRCD as int]) is None);
        assert(rejection(DRAM_TCL as int, values[DRAM_TCL as int]) is None);
        assert(rejection(DRAM_TRP as int, values[DRAM_TRP as int]) is None);
        assert(rejection(STATS_OUT as int, values[STATS_OUT as int]) is None);
        assert forall|i: int| L1I_SIZE <= i <= L2_PENALTY implies (#[trigger] values[i]
            matches Some(text) ==> crate::number::usize_value(text) is Some) by {
            assert(rejection(i, values[i]) is None);
        }
        assert forall|i: int| DRAM_TRCD <= i <= DRAM_TRP implies (#[trigger] values[i]
            matches Some(text) ==> (crate::number::usize_value(text) matches Some(n) && n > 0)) by {
            assert(rejection(i, values[i]) is None);
        }
    }
}

/// Outcomes. Values give arguments exactly when none is rejected. Otherwise the
/// error is that there is no program, if none is named, and the first option with
/// a value that it does not accept, together with that value, if one is named.
pub proof fn law_values_give_arguments_or_the_first_error(
    values: Seq<Option<Seq<char>>>,
    res: Result<Args, ArgsError>,
)
    requires
        values.len() == OPTION_COUNT,
        interprets(values, res),
    ensures
        res is Ok <==> none_rejected(values),
        values[PROG as int] is None <==> (res matches Err(error) && error
            == ArgsError::MissingProgram),
        res matches Err(error) ==> error@ == ArgsErrorView::MissingProgram || exists|i: int|
            {
                &&& 0 <= i < OPTION_COUNT
                &&& #[trigger] values[i] is Some
                &&& !crate::sim::options::option_table()[i].accepts(values[i]->0)
                &&& error@ == (ArgsErrorView::InvalidValue {
                    option: crate::sim::options::option_table()[i].name,
                    value: values[i]->0,
                })
                &&& forall|j: int|
                    0 <= j < i ==> (#[trigger] values[j] matches Some(text)
                        ==> crate::sim::options::option_table()[j].accepts(text))
            },
{
    if let Err(error) = res {
        let i = choose|i: int|
            #[trigger] first_rejected(values, i) && rejection(i, values[i]) == Some(error@);
        assert(first_rejected(values, i));
        assert(rejection(i, values[i]) is Some);
        assert forall|j: int| 0 <= j < i implies (#[trigger] values[j] matches Some(text)
            ==> crate::sim::options::option_table()[j].accepts(text)) by {
            assert(rejection(j, values[j]) is None);
        }
        if i > 0 {
            assert(rejection(PROG as int, values[PROG as int]) is None);
        }
    } else {
        assert(rejection(PROG as int, values[PROG as int]) is None);
    }
}

/// Command lines. A command line that is answered gives the arguments that its
/// values choose exactly when none of them is rejected, and is refused with the
/// exit status 2 otherwise.
pub proof fn law_command_line_is_answered(
    values: Seq<Option<Seq<char>>>,
    res: Result<Args, ArgsError>,
)
    requires
        values.len() == OPTION_COUNT,
    ensures
        answers(values, res) ==> (res is Ok <==> none_rejected(values)),
        answers(values, res) && res is Ok ==> interprets(values, res),
        accepted(values, res) ==> res is Ok && interprets(values, res),
        answers(values, res) && res is Err ==> (res->Err_0@
            matches ArgsErrorView::CommandLine { exit_code, .. } && exit_code == 2),
{
}

/// Numbers on the command line. An option that is given any number in decimal
/// notation, in either spelling, has that number in the arguments.
pub proof fn law_number_on_the_command_line(given: Seq<Given>, k: int, n: nat, args: Args)
    requires
        forall|k: int, l: int|
            0 <= k < l < given.len() ==> (#[trigger] given[k]).option != (
            #[trigger] given[l]).option,
        0 <= k < given.len(),
        given[k].value == crate::number::decimal(n),
        n <= usize::MAX,
        answers(values_of(given), Ok(args)),
    ensures
        given[k].option == L1I_SIZE ==> args.l1i_size == n,
        given[k].option == L1I_BLOCK ==> args.l1i_block == n,
        given[k].option == L1I_WAYS ==> args.l1i_ways == n,
        given[k].option == L1I_PENALTY ==> args.l1i_penalty == n,
        given[k].option == L1D_SIZE ==> args.l1d_size == n,
        given[k].option == L1D_BLOCK ==> args.l1d_block == n,
        given[k].option == L1D_WAYS ==> args.l1d_ways == n,
        given[k].option == L1D_PENALTY ==> args.l1d_penalty == n,
        given[k].option == L2_SIZE ==> args.l2_size == n,
        given[k].option == L2_BLOCK ==> args.l2_block == n,
        given[k].option == L2_WAYS ==> args.l2_ways == n,
        given[k].option == L2_PENALTY ==> args.l2_penalty == n,
        given[k].option == DRAM_TRCD ==> args.dram_trcd == n,
        given[k].option == DRAM_TCL ==> args.dram_tcl == n,
        given[k].option == DRAM_TRP ==> args.dram_trp == n,
{
    law_given_option_has_its_value(given, given[k].option, k);
    law_command_line_is_answered(values_of(given), Ok(args));
    law_numbers_given_are_the_numbers_chosen(values_of(given), args, n);
}

/// Program. The program has this name and says this of itself.
pub proof fn law_program_texts()
    ensures
        COMMAND@ == "simulator"@,
        ABOUT@
            == "SimplePipeSim — a teaching RISC-V pipeline simulator focused on the cache subsystem. Configure the three cache levels and the replacement policy from the command line, then either print stats to stdout or emit JSON for offline plotting"@,
{
}

/// Words. The words of a command line are, after the name of the program, for
/// each option that is given its flag and its value, or both joined by `=`.
pub proof fn law_words_spell_what_is_given(
    options: Seq<CliOptionView>,
    given: Seq<Given>,
    last: Given,
)
    ensures
        spelled(options, Seq::<Given>::empty()) == Seq::<Seq<char>>::empty(),
        spelled(options, given.push(last)) == spelled(options, given) + (if last.joined {
            seq!["--"@ + options[last.option].name + "="@ + last.value]
        } else {
            seq!["--"@ + options[last.option].name, last.value]
        }),
{
    assert(given.push(last).drop_last() =~= given);
}

/// The views of texts, words and errors have what the texts, words and errors
/// hold.
pub proof fn law_views_show_what_is_held(
    texts: Seq<Option<String>>,
    words: Seq<String>,
    given: Seq<Given>,
    i: int,
)
    ensures
        texts_view(texts).len() == texts.len(),
        0 <= i < texts.len() && texts[i] is None ==> texts_view(texts)[i] is None,
        0 <= i < texts.len() && texts[i] is Some ==> texts_view(texts)[i] == Some(texts[i]->0@),
        words_view(words).len() == words.len(),
        0 <= i < words.len() ==> words_view(words)[i] == words[i]@,
        values_of(given).len() == OPTION_COUNT,
        0 <= i < OPTION_COUNT ==> values_of(given)[i] == value_of(given, i),
{
}

/// The view of an error has its fields.
pub proof fn law_error_view_shows_every_field(error: ArgsError)
    ensures
        match error {
            ArgsError::CommandLine { exit_code, message } => error@
                == (ArgsErrorView::CommandLine { exit_code, message: message@ }),
            ArgsError::MissingProgram => error@ == ArgsErrorView::MissingProgram,
            ArgsError::InvalidValue { option, value } => error@ == (ArgsErrorView::InvalidValue {
                option: option@,
                value: value@,
            }),
        },
{
}

} // verus!

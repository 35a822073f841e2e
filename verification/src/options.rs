//! The command line options.

use vstd::prelude::*;

use crate::text::same_text;
use crate::text::{split_on, splitting_goes_piece_by_piece, whole_texts_are_one_piece};

verus! {

/// What is wrong with a command line.
#[derive(Debug, PartialEq, Eq)]
pub enum UsageError {
    /// An option lacks the value that it needs.
    MissingValue(Option<String>),
    /// There is no such option.
    UnexpectedOption(String),
    /// An argument belongs to no option.
    UnexpectedArgument(String),
    /// An option has a value that it does not take.
    UnexpectedValue { option: String, value: String },
    /// Something else, which the text names.
    Other(String),
}

/// The texts of a [`UsageError`].
pub enum UsageErrorView {
    MissingValue(Option<Seq<char>>),
    UnexpectedOption(Seq<char>),
    UnexpectedArgument(Seq<char>),
    UnexpectedValue { option: Seq<char>, value: Seq<char> },
    Other(Seq<char>),
}

impl DeepView for UsageError {
    type V = UsageErrorView;

    open spec fn deep_view(&self) -> UsageErrorView {
        match self {
            UsageError::MissingValue(option) => UsageErrorView::MissingValue(option.deep_view()),
            UsageError::UnexpectedOption(option) => UsageErrorView::UnexpectedOption(option@),
            UsageError::UnexpectedArgument(value) => UsageErrorView::UnexpectedArgument(value@),
            UsageError::UnexpectedValue { option, value } => UsageErrorView::UnexpectedValue {
                option: option@,
                value: value@,
            },
            UsageError::Other(text) => UsageErrorView::Other(text@),
        }
    }
}

/// The parser of command lines.
#[verifier::external_type_specification]
#[verifier::external_body]
pub struct ExParser(lexopt::Parser);

/// The arguments that a parser has not taken up yet.
pub uninterp spec fn unread_args(parser: lexopt::Parser) -> Seq<Seq<char>>;

/// The value that an option was written with, as in `--option=value`, until it is taken.
pub uninterp spec fn attached_value(parser: lexopt::Parser) -> Option<Seq<char>>;

/// The option that a parser handed out last, with its dashes.
pub uninterp spec fn last_option(parser: lexopt::Parser) -> Option<Seq<char>>;

/// Whether a parser is neither inside a group of short options nor behind a `--`.
pub uninterp spec fn takes_options(parser: lexopt::Parser) -> bool;

/// What a parser finds on a command line.
#[derive(Debug, PartialEq, Eq)]
pub enum Token {
    /// A long option, without its dashes.
    Long(String),
    /// A short option, without its dash.
    Short(char),
    /// Any other argument.
    Value(String),
}

/// The texts of a [`Token`].
pub enum TokenView {
    Long(Seq<char>),
    Short(char),
    Value(Seq<char>),
}

impl DeepView for Token {
    type V = TokenView;

    open spec fn deep_view(&self) -> TokenView {
        match self {
            Token::Long(name) => TokenView::Long(name@),
            Token::Short(letter) => TokenView::Short(*letter),
            Token::Value(value) => TokenView::Value(value@),
        }
    }
}

/// A long option as written, without the value that may be attached to it.
pub open spec fn written_option(arg: Seq<char>) -> Seq<char> {
    split_on(arg, '=')[0]
}

/// The value that is attached to a long option.
pub open spec fn written_value(arg: Seq<char>) -> Option<Seq<char>> {
    if arg.contains('=') {
        Some(arg.skip(written_option(arg).len() as int + 1))
    } else {
        None
    }
}

/// Whether an argument is a long option.
pub open spec fn is_long(arg: Seq<char>) -> bool {
    arg.len() > 2 && arg[0] == '-' && arg[1] == '-'
}

/// What stands first on a command line. Behind a `--` everything is a value.
pub open spec fn first_token(args: Seq<Seq<char>>) -> Option<TokenView> {
    if args.len() == 0 {
        None
    } else if args[0] == seq!['-', '-'] {
        if args.len() > 1 {
            Some(TokenView::Value(args[1]))
        } else {
            None
        }
    } else if is_long(args[0]) {
        Some(TokenView::Long(written_option(args[0]).skip(2)))
    } else if args[0].len() > 1 && args[0][0] == '-' {
        Some(TokenView::Short(args[0][1]))
    } else {
        Some(TokenView::Value(args[0]))
    }
}

/// The arguments of a command line: everything but the name of the program.
pub open spec fn without_program(argv: Seq<Seq<char>>) -> Seq<Seq<char>> {
    if argv.len() > 0 {
        argv.skip(1)
    } else {
        argv
    }
}

/// `lexopt::Parser::from_iter` makes a parser that has all arguments before it but the first, which
/// names the program.
#[verifier::external_body]
fn start_parser(argv: &Vec<String>) -> (r: lexopt::Parser)
    ensures
        unread_args(r) == without_program(argv.deep_view()),
        attached_value(r) is None,
        last_option(r) is None,
        takes_options(r),
{
    lexopt::Parser::from_iter(argv)
}

/// `lexopt::Parser::next` refuses a value that was attached to the option before and not taken.
/// Otherwise it hands out what stands first among the arguments. Having handed out a long option, it
/// keeps the value attached to it, and the arguments behind it are still before it. What it keeps
/// after anything else is not stated.
#[verifier::external_body]
fn next_token(parser: &mut lexopt::Parser) -> (r: Result<Option<Token>, UsageError>)
    requires
        takes_options(*old(parser)),
    ensures
        match attached_value(*old(parser)) {
            Some(unused) => r matches Err(UsageError::UnexpectedValue { option, value })
                && last_option(*old(parser)) == Some(option@) && value@ == unused,
            None => r matches Ok(token) && token.deep_view() == first_token(
                unread_args(*old(parser)),
            ),
        },
        r matches Ok(Some(Token::Long(_))) ==> {
            &&& unread_args(*final(parser)) == unread_args(*old(parser)).skip(1)
            &&& attached_value(*final(parser)) == written_value(unread_args(*old(parser))[0])
            &&& last_option(*final(parser)) == Some(
                written_option(unread_args(*old(parser))[0]),
            )
            &&& takes_options(*final(parser))
        },
{
    match parser.next() {
        Ok(None) => Ok(None),
        Ok(Some(lexopt::Arg::Long(name))) => Ok(Some(Token::Long(name.to_string()))),
        Ok(Some(lexopt::Arg::Short(letter))) => Ok(Some(Token::Short(letter))),
        Ok(Some(lexopt::Arg::Value(value))) => {
            Ok(Some(Token::Value(value.to_string_lossy().into_owned())))
        },
        Err(lexopt::Error::UnexpectedValue { option, value }) => {
            let value = value.to_string_lossy().into_owned();
            Err(UsageError::UnexpectedValue { option, value })
        },
        Err(error) => Err(UsageError::Other(error.to_string())),
    }
}

/// `lexopt::Parser::value` hands out the value attached to the option before or, where there is
/// none, the next argument whatever it looks like. Without either it says which option lacks one.
/// `lexopt::ValueExt::string` leaves a text that is valid Unicode as it is.
#[verifier::external_body]
fn next_value(parser: &mut lexopt::Parser) -> (r: Result<String, UsageError>)
    requires
        takes_options(*old(parser)),
    ensures
        match attached_value(*old(parser)) {
            Some(attached) => r matches Ok(value) && value@ == attached && unread_args(
                *final(parser),
            ) == unread_args(*old(parser)),
            None => if unread_args(*old(parser)).len() > 0 {
                r matches Ok(value) && value@ == unread_args(*old(parser))[0] && unread_args(
                    *final(parser),
                ) == unread_args(*old(parser)).skip(1)
            } else {
                r matches Err(UsageError::MissingValue(option)) && option.deep_view()
                    == last_option(*old(parser))
            },
        },
        r is Ok ==> attached_value(*final(parser)) is None && takes_options(*final(parser)),
{
    match parser.value().and_then(lexopt::ValueExt::string) {
        Ok(value) => Ok(value),
        Err(lexopt::Error::MissingValue { option }) => Err(UsageError::MissingValue(option)),
        Err(error) => Err(UsageError::Other(error.to_string())),
    }
}

/// What the command line says.
#[derive(Debug, PartialEq, Eq)]
pub struct Options {
    pub hostname: Option<String>,
    pub canonical_target_drive: Option<String>,
    pub mount_path: String,
    pub partition_drive: Option<bool>,
    pub format_partitions: Option<bool>,
    pub substitute_only: Option<bool>,
    pub update_lockfile: bool,
    pub flake_path: Option<String>,
    pub create_flake_store_path_gc_root: bool,
}

/// The contents of [`Options`].
#[verifier::ext_equal]
pub struct OptionsView {
    pub hostname: Option<Seq<char>>,
    pub canonical_target_drive: Option<Seq<char>>,
    pub mount_path: Seq<char>,
    pub partition_drive: Option<bool>,
    pub format_partitions: Option<bool>,
    pub substitute_only: Option<bool>,
    pub update_lockfile: bool,
    pub flake_path: Option<Seq<char>>,
    pub create_flake_store_path_gc_root: bool,
}

impl DeepView for Options {
    type V = OptionsView;

    open spec fn deep_view(&self) -> OptionsView {
        OptionsView {
            hostname: self.hostname.deep_view(),
            canonical_target_drive: self.canonical_target_drive.deep_view(),
            mount_path: self.mount_path@,
            partition_drive: self.partition_drive,
            format_partitions: self.format_partitions,
            substitute_only: self.substitute_only,
            update_lockfile: self.update_lockfile,
            flake_path: self.flake_path.deep_view(),
            create_flake_store_path_gc_root: self.create_flake_store_path_gc_root,
        }
    }
}

/// What holds where the command line says nothing.
pub open spec fn default_options() -> OptionsView {
    OptionsView {
        hostname: None,
        canonical_target_drive: None,
        mount_path: "/mnt"@,
        partition_drive: None,
        format_partitions: None,
        substitute_only: None,
        update_lockfile: false,
        flake_path: None,
        create_flake_store_path_gc_root: true,
    }
}

/// Whether a long option takes a value.
pub open spec fn takes_value(name: Seq<char>) -> bool {
    name == "hostname"@ || name == "target-drive"@ || name == "flake-path"@ || name
        == "mount-path"@
}

/// The options with the value that `--name` gives to one of them.
pub open spec fn with_value(
    options: OptionsView,
    name: Seq<char>,
    value: Seq<char>,
) -> OptionsView {
    if name == "hostname"@ {
        OptionsView { hostname: Some(value), ..options }
    } else if name == "target-drive"@ {
        OptionsView { canonical_target_drive: Some(value), ..options }
    } else if name == "flake-path"@ {
        OptionsView { flake_path: Some(value), ..options }
    } else {
        OptionsView { mount_path: value, ..options }
    }
}

/// The options with what the switch `--name` says, where there is such a switch.
pub open spec fn with_switch(options: OptionsView, name: Seq<char>) -> Option<OptionsView> {
    if name == "update-lockfile"@ {
        Some(OptionsView { update_lockfile: true, ..options })
    } else if name == "no-update-lockfile"@ {
        Some(OptionsView { update_lockfile: false, ..options })
    } else if name == "no-flake-store-path-gc-root"@ {
        Some(OptionsView { create_flake_store_path_gc_root: false, ..options })
    } else if name == "partition-drive"@ {
        Some(OptionsView { partition_drive: Some(true), ..options })
    } else if name == "no-partition-drive"@ {
        Some(OptionsView { partition_drive: Some(false), ..options })
    } else if name == "format-partitions"@ {
        Some(OptionsView { format_partitions: Some(true), ..options })
    } else if name == "no-format-partitions"@ {
        Some(OptionsView { format_partitions: Some(false), ..options })
    } else if name == "substitute-only"@ {
        Some(OptionsView { substitute_only: Some(true), ..options })
    } else if name == "do-build"@ {
        Some(OptionsView { substitute_only: Some(false), ..options })
    } else {
        None
    }
}

/// The options that `args` make of `options`, or what is wrong with `args`.
pub open spec fn options_from(args: Seq<Seq<char>>, options: OptionsView) -> Result<
    OptionsView,
    UsageErrorView,
>
    decreases args.len(),
{
    match first_token(args) {
        None => Ok(options),
        Some(TokenView::Value(value)) => Err(UsageErrorView::UnexpectedArgument(value)),
        Some(TokenView::Short(letter)) => Err(UsageErrorView::UnexpectedOption(seq!['-', letter])),
        Some(TokenView::Long(name)) => if takes_value(name) {
            match written_value(args[0]) {
                Some(value) => options_from(args.skip(1), with_value(options, name, value)),
                None => if args.len() > 1 {
                    options_from(args.skip(2), with_value(options, name, args[1]))
                } else {
                    Err(UsageErrorView::MissingValue(Some(written_option(args[0]))))
                },
            }
        } else {
            match with_switch(options, name) {
                None => Err(UsageErrorView::UnexpectedOption(seq!['-', '-'] + name)),
                Some(changed) => match written_value(args[0]) {
                    Some(value) => Err(
                        UsageErrorView::UnexpectedValue { option: written_option(args[0]), value },
                    ),
                    None => options_from(args.skip(1), changed),
                },
            }
        },
    }
}

/// The same options, with the value that `--name` gives to one of them.
fn set_value(options: Options, name: &str, value: String) -> (r: Options)
    requires
        takes_value(name@),
    ensures
        r.deep_view() == with_value(options.deep_view(), name@, value@),
{
    let mut r = options;
    if same_text(name, "hostname") {
        r.hostname = Some(value);
    } else if same_text(name, "target-drive") {
        r.canonical_target_drive = Some(value);
    } else if same_text(name, "flake-path") {
        r.flake_path = Some(value);
    } else {
        r.mount_path = value;
    }
    r
}

/// The same options, with what the switch `--name` says, where there is such a switch.
fn set_switch(options: Options, name: &str) -> (r: Option<Options>)
    ensures
        r.deep_view() == with_switch(options.deep_view(), name@),
{
    let mut r = options;
    if same_text(name, "update-lockfile") {
        r.update_lockfile = true;
    } else if same_text(name, "no-update-lockfile") {
        r.update_lockfile = false;
    } else if same_text(name, "no-flake-store-path-gc-root") {
        r.create_flake_store_path_gc_root = false;
    } else if same_text(name, "partition-drive") {
        r.partition_drive = Some(true);
    } else if same_text(name, "no-partition-drive") {
        r.partition_drive = Some(false);
    } else if same_text(name, "format-partitions") {
        r.format_partitions = Some(true);
    } else if same_text(name, "no-format-partitions") {
        r.format_partitions = Some(false);
    } else if same_text(name, "substitute-only") {
        r.substitute_only = Some(true);
    } else if same_text(name, "do-build") {
        r.substitute_only = Some(false);
    } else {
        return None;
    }
    Some(r)
}

/// Reads a command line, whose first argument names the program.
pub fn read_options(argv: &Vec<String>) -> (r: Result<Options, UsageError>)
    ensures
        match r {
            Ok(options) => options_from(without_program(argv.deep_view()), default_options())
                == Ok::<OptionsView, UsageErrorView>(options.deep_view()),
            Err(error) => options_from(without_program(argv.deep_view()), default_options())
                == Err::<OptionsView, UsageErrorView>(error.deep_view()),
        },
{
    let ghost expected = options_from(without_program(argv.deep_view()), default_options());
    let mut options = Options {
        hostname: None,
        canonical_target_drive: None,
        mount_path: "/mnt".to_string(),
        partition_drive: None,
        format_partitions: None,
        substitute_only: None,
        update_lockfile: false,
        flake_path: None,
        create_flake_store_path_gc_root: true,
    };
    let mut parser = start_parser(argv);
    loop
        invariant
            expected == options_from(without_program(argv.deep_view()), default_options()),
            takes_options(parser),
            match attached_value(parser) {
                None => expected == options_from(unread_args(parser), options.deep_view()),
                Some(value) => last_option(parser) matches Some(option) && expected == Err::<
                    OptionsView,
                    UsageErrorView,
                >(UsageErrorView::UnexpectedValue { option, value }),
            },
        decreases unread_args(parser).len(),
    {
        let ghost args = unread_args(parser);
        let name = match next_token(&mut parser)? {
            None => {
                return Ok(options);
            },
            Some(Token::Value(value)) => {
                return Err(UsageError::UnexpectedArgument(value));
            },
            Some(Token::Short(letter)) => {
                let mut option = String::new();
                option.push('-');
                option.push(letter);
                assert(option@ =~= seq!['-', letter]);
                return Err(UsageError::UnexpectedOption(option));
            },
            Some(Token::Long(name)) => name,
        };
        if same_text(name.as_str(), "hostname") || same_text(name.as_str(), "target-drive")
            || same_text(name.as_str(), "flake-path") || same_text(name.as_str(), "mount-path") {
            let value = next_value(&mut parser)?;
            assert(args.len() > 1 ==> args.skip(1).skip(1) =~= args.skip(2));
            options = set_value(options, name.as_str(), value);
        } else {
            match set_switch(options, name.as_str()) {
                None => {
                    let mut option = String::new();
                    option.push('-');
                    option.push('-');
                    option.append(name.as_str());
                    assert(option@ =~= seq!['-', '-'] + name@);
                    return Err(UsageError::UnexpectedOption(option));
                },
                Some(changed) => {
                    options = changed;
                },
            }
        }
    }
}

/// Whether a `--` ends the options of `args`. One that is the value of an option does not.
pub open spec fn ends_options(args: Seq<Seq<char>>) -> bool
    decreases args.len(),
{
    if args.len() == 0 {
        false
    } else if args[0] == seq!['-', '-'] {
        true
    } else if is_long(args[0]) && takes_value(written_option(args[0]).skip(2)) && written_value(
        args[0],
    ) is None {
        args.len() > 1 && ends_options(args.skip(2))
    } else {
        ends_options(args.skip(1))
    }
}

/// Options are read from left to right, each on top of those before it, so that of several options
/// that set the same thing the last one decides. Whatever follows a `--` that ends the options is
/// refused.
pub proof fn options_are_read_in_turn(
    first: Seq<Seq<char>>,
    second: Seq<Seq<char>>,
    options: OptionsView,
)
    requires
        options_from(first, options) is Ok,
    ensures
        options_from(first + second, options) == if ends_options(first) && second.len() > 0 {
            Err(UsageErrorView::UnexpectedArgument(second[0]))
        } else {
            options_from(second, options_from(first, options)->Ok_0)
        },
    decreases first.len(),
{
    let args = first + second;
    if first.len() == 0 {
        assert(args =~= second);
    } else if first[0] == seq!['-', '-'] {
        assert(first.len() == 1);
        if second.len() == 0 {
            assert(args =~= first);
        } else {
            assert(args[1] == second[0]);
        }
    } else {
        let name = written_option(first[0]).skip(2);
        assert(args[0] == first[0]);
        if takes_value(name) {
            match written_value(first[0]) {
                Some(value) => {
                    assert(args.skip(1) =~= first.skip(1) + second);
                    options_are_read_in_turn(
                        first.skip(1),
                        second,
                        with_value(options, name, value),
                    );
                },
                None => {
                    assert(args.skip(2) =~= first.skip(2) + second);
                    assert(args[1] == first[1]);
                    options_are_read_in_turn(
                        first.skip(2),
                        second,
                        with_value(options, name, first[1]),
                    );
                },
            }
        } else {
            assert(args.skip(1) =~= first.skip(1) + second);
            options_are_read_in_turn(first.skip(1), second, with_switch(options, name)->0);
        }
    }
}

/// The names of the options differ, and none of them holds an equals sign.
proof fn option_names_differ()
    ensures
        "hostname"@.len() == 8,
        "target-drive"@.len() == 12,
        "flake-path"@.len() == 10,
        "mount-path"@.len() == 10,
        "update-lockfile"@.len() == 15,
        "no-update-lockfile"@.len() == 18,
        "no-flake-store-path-gc-root"@.len() == 27,
        "partition-drive"@.len() == 15,
        "no-partition-drive"@.len() == 18,
        "format-partitions"@.len() == 17,
        "no-format-partitions"@.len() == 20,
        "substitute-only"@.len() == 15,
        "do-build"@.len() == 8,
        "hostname"@[0] != "do-build"@[0],
        "flake-path"@[0] != "mount-path"@[0],
        "update-lockfile"@[0] != "partition-drive"@[0],
        "update-lockfile"@[0] != "substitute-only"@[0],
        "partition-drive"@[0] != "substitute-only"@[0],
        "no-update-lockfile"@[3] != "no-partition-drive"@[3],
        !"hostname"@.contains('='),
        !"target-drive"@.contains('='),
        !"flake-path"@.contains('='),
        !"mount-path"@.contains('='),
        !"update-lockfile"@.contains('='),
        !"no-update-lockfile"@.contains('='),
        !"no-flake-store-path-gc-root"@.contains('='),
        !"partition-drive"@.contains('='),
        !"no-partition-drive"@.contains('='),
        !"format-partitions"@.contains('='),
        !"no-format-partitions"@.contains('='),
        !"substitute-only"@.contains('='),
        !"do-build"@.contains('='),
{
    reveal_strlit("hostname");
    reveal_strlit("target-drive");
    reveal_strlit("flake-path");
    reveal_strlit("mount-path");
    reveal_strlit("update-lockfile");
    reveal_strlit("no-update-lockfile");
    reveal_strlit("no-flake-store-path-gc-root");
    reveal_strlit("partition-drive");
    reveal_strlit("no-partition-drive");
    reveal_strlit("format-partitions");
    reveal_strlit("no-format-partitions");
    reveal_strlit("substitute-only");
    reveal_strlit("do-build");
}

/// A long option as it is written, with its dashes.
pub open spec fn dashed(name: Seq<char>) -> Seq<char> {
    seq!['-', '-'] + name
}

/// A long option is written with its name and, where it has a value attached, an equals sign and the
/// value behind it.
pub proof fn long_options_are_written_out(name: Seq<char>, value: Seq<char>)
    requires
        name.len() > 0,
        !name.contains('='),
    ensures
        first_token(seq![dashed(name)]) == Some(TokenView::Long(name)),
        written_value(dashed(name)) is None,
        first_token(seq![dashed(name).push('=') + value]) == Some(TokenView::Long(name)),
        written_value(dashed(name).push('=') + value) == Some(value),
        written_option(dashed(name)) == dashed(name),
        written_option(dashed(name).push('=') + value) == dashed(name),
{
    let option = dashed(name);
    let with_value = option.push('=') + value;
    assert(!option.contains('=')) by {
        assert forall|i: int| 0 <= i < option.len() implies option[i] != '=' by {
            if i >= 2 {
                assert(option[i] == name[i - 2]);
                assert(name.contains(name[i - 2]));
            }
        }
    }
    whole_texts_are_one_piece(option, '=');
    splitting_goes_piece_by_piece(option, value, '=');
    assert(option.skip(2) =~= name);
    assert(option != seq!['-', '-']) by {
        assert(option.len() > 2);
    }
    assert(with_value != seq!['-', '-']) by {
        assert(with_value.len() > 2);
    }
    assert(with_value[option.len() as int] == '=');
    assert(with_value.contains('='));
    assert(written_option(with_value) =~= option);
    assert(with_value.skip(option.len() as int + 1) =~= value);
}

/// Each switch sets one thing and leaves everything else as it was.
pub proof fn switches_set_one_thing_each(options: OptionsView)
    ensures
        options_from(seq![dashed("update-lockfile"@)], options) == Ok::<
            OptionsView,
            UsageErrorView,
        >(OptionsView { update_lockfile: true, ..options }),
        options_from(seq![dashed("no-update-lockfile"@)], options) == Ok::<
            OptionsView,
            UsageErrorView,
        >(OptionsView { update_lockfile: false, ..options }),
        options_from(seq![dashed("no-flake-store-path-gc-root"@)], options) == Ok::<
            OptionsView,
            UsageErrorView,
        >(OptionsView { create_flake_store_path_gc_root: false, ..options }),
        options_from(seq![dashed("partition-drive"@)], options) == Ok::<
            OptionsView,
            UsageErrorView,
        >(OptionsView { partition_drive: Some(true), ..options }),
        options_from(seq![dashed("no-partition-drive"@)], options) == Ok::<
            OptionsView,
            UsageErrorView,
        >(OptionsView { partition_drive: Some(false), ..options }),
        options_from(seq![dashed("format-partitions"@)], options) == Ok::<
            OptionsView,
            UsageErrorView,
        >(OptionsView { format_partitions: Some(true), ..options }),
        options_from(seq![dashed("no-format-partitions"@)], options) == Ok::<
            OptionsView,
            UsageErrorView,
        >(OptionsView { format_partitions: Some(false), ..options }),
        options_from(seq![dashed("substitute-only"@)], options) == Ok::<
            OptionsView,
            UsageErrorView,
        >(OptionsView { substitute_only: Some(true), ..options }),
        options_from(seq![dashed("do-build"@)], options) == Ok::<OptionsView, UsageErrorView>(
            OptionsView { substitute_only: Some(false), ..options },
        ),
{
    option_names_differ();
    switch_is_read("update-lockfile"@, options);
    switch_is_read("no-update-lockfile"@, options);
    switch_is_read("no-flake-store-path-gc-root"@, options);
    switch_is_read("partition-drive"@, options);
    switch_is_read("no-partition-drive"@, options);
    switch_is_read("format-partitions"@, options);
    switch_is_read("no-format-partitions"@, options);
    switch_is_read("substitute-only"@, options);
    switch_is_read("do-build"@, options);
}

/// A switch on its own gives what is made of it.
proof fn switch_is_read(name: Seq<char>, options: OptionsView)
    requires
        name.len() > 0,
        !name.contains('='),
        !takes_value(name),
        with_switch(options, name) is Some,
    ensures
        options_from(seq![dashed(name)], options) == Ok::<OptionsView, UsageErrorView>(
            with_switch(options, name)->0,
        ),
{
    let args = seq![dashed(name)];
    long_options_are_written_out(name, Seq::empty());
    assert(args.skip(1) =~= Seq::empty());
    reveal_with_fuel(options_from, 2);
}

/// Each option with a value sets one thing and leaves everything else as it was, whether the value is
/// attached to it or stands behind it.
pub proof fn values_set_one_thing_each(options: OptionsView, value: Seq<char>)
    ensures
        value_is_read("hostname"@, value, options, OptionsView { hostname: Some(value), ..options }),
        value_is_read(
            "target-drive"@,
            value,
            options,
            OptionsView { canonical_target_drive: Some(value), ..options },
        ),
        value_is_read(
            "flake-path"@,
            value,
            options,
            OptionsView { flake_path: Some(value), ..options },
        ),
        value_is_read("mount-path"@, value, options, OptionsView { mount_path: value, ..options }),
{
    option_names_differ();
    value_option_is_read("hostname"@, value, options);
    value_option_is_read("target-drive"@, value, options);
    value_option_is_read("flake-path"@, value, options);
    value_option_is_read("mount-path"@, value, options);
}

/// Whether `--name value` and `--name=value` make `after` of the options `before`.
pub open spec fn value_is_read(
    name: Seq<char>,
    value: Seq<char>,
    before: OptionsView,
    after: OptionsView,
) -> bool {
    &&& options_from(seq![dashed(name), value], before) == Ok::<OptionsView, UsageErrorView>(after)
    &&& options_from(seq![dashed(name).push('=') + value], before) == Ok::<
        OptionsView,
        UsageErrorView,
    >(after)
}

/// An option with a value on its own gives what is made of it.
proof fn value_option_is_read(name: Seq<char>, value: Seq<char>, options: OptionsView)
    requires
        name.len() > 0,
        !name.contains('='),
        takes_value(name),
    ensures
        value_is_read(name, value, options, with_value(options, name, value)),
{
    let apart = seq![dashed(name), value];
    let attached = seq![dashed(name).push('=') + value];
    long_options_are_written_out(name, value);
    assert(apart[0] == seq![dashed(name)][0]);
    assert(apart.skip(2) =~= Seq::empty());
    assert(attached.skip(1) =~= Seq::empty());
    reveal_with_fuel(options_from, 2);
}

/// Whether an argument is the long option `name`, with or without a value attached to it.
pub open spec fn is_option(arg: Seq<char>, name: Seq<char>) -> bool {
    is_long(arg) && written_option(arg) == dashed(name)
}

/// The number of arguments that the first option takes up: two where a value stands behind it.
pub open spec fn width(args: Seq<Seq<char>>) -> int {
    if args.len() > 1 && written_value(args[0]) is None && (is_option(args[0], "hostname"@)
        || is_option(args[0], "target-drive"@) || is_option(args[0], "flake-path"@) || is_option(
        args[0],
        "mount-path"@,
    )) {
        2
    } else {
        1
    }
}

/// What the last of the switches `yes` and `no` among `args` says, or `before` where there is none.
pub open spec fn last_switch(
    args: Seq<Seq<char>>,
    yes: Seq<char>,
    no: Seq<char>,
    before: Option<bool>,
) -> Option<bool>
    decreases args.len(),
{
    if args.len() == 0 {
        before
    } else {
        last_switch(
            args.skip(width(args)),
            yes,
            no,
            if is_option(args[0], yes) {
                Some(true)
            } else if is_option(args[0], no) {
                Some(false)
            } else {
                before
            },
        )
    }
}

/// The value of the last option `name` among `args`, or `before` where there is none.
pub open spec fn last_value(
    args: Seq<Seq<char>>,
    name: Seq<char>,
    before: Option<Seq<char>>,
) -> Option<Seq<char>>
    decreases args.len(),
{
    if args.len() == 0 {
        before
    } else {
        last_value(
            args.skip(width(args)),
            name,
            if is_option(args[0], name) {
                match written_value(args[0]) {
                    Some(value) => Some(value),
                    None => Some(args[1]),
                }
            } else {
                before
            },
        )
    }
}

/// Whether the option `name` is among `args`.
pub open spec fn is_given(args: Seq<Seq<char>>, name: Seq<char>) -> bool
    decreases args.len(),
{
    args.len() > 0 && (is_option(args[0], name) || is_given(args.skip(width(args)), name))
}

/// Whether an argument is one of the options that there are.
pub open spec fn is_known_option(arg: Seq<char>) -> bool {
    ||| is_option(arg, "hostname"@)
    ||| is_option(arg, "target-drive"@)
    ||| is_option(arg, "flake-path"@)
    ||| is_option(arg, "mount-path"@)
    ||| is_option(arg, "update-lockfile"@)
    ||| is_option(arg, "no-update-lockfile"@)
    ||| is_option(arg, "no-flake-store-path-gc-root"@)
    ||| is_option(arg, "partition-drive"@)
    ||| is_option(arg, "no-partition-drive"@)
    ||| is_option(arg, "format-partitions"@)
    ||| is_option(arg, "no-format-partitions"@)
    ||| is_option(arg, "substitute-only"@)
    ||| is_option(arg, "do-build"@)
}

/// Whether everything among `args` that is not the value of an option is an option that there is, but
/// for a `--` at the end.
pub open spec fn all_known(args: Seq<Seq<char>>) -> bool
    decreases args.len(),
{
    args.len() == 0 || args == seq![seq!['-', '-']] || (is_known_option(args[0]) && all_known(
        args.skip(width(args)),
    ))
}

/// Each thing is decided by the last of its own options and by no other argument, and there are no
/// options but those.
pub proof fn each_option_decides_its_own(args: Seq<Seq<char>>, options: OptionsView)
    ensures
        options_from(args, options) matches Ok(read) ==> {
            &&& read.hostname == last_value(args, "hostname"@, options.hostname)
            &&& read.canonical_target_drive == last_value(
                args,
                "target-drive"@,
                options.canonical_target_drive,
            )
            &&& read.flake_path == last_value(args, "flake-path"@, options.flake_path)
            &&& Some(read.mount_path) == last_value(args, "mount-path"@, Some(options.mount_path))
            &&& read.partition_drive == last_switch(
                args,
                "partition-drive"@,
                "no-partition-drive"@,
                options.partition_drive,
            )
            &&& read.format_partitions == last_switch(
                args,
                "format-partitions"@,
                "no-format-partitions"@,
                options.format_partitions,
            )
            &&& read.substitute_only == last_switch(
                args,
                "substitute-only"@,
                "do-build"@,
                options.substitute_only,
            )
            &&& Some(read.update_lockfile) == last_switch(
                args,
                "update-lockfile"@,
                "no-update-lockfile"@,
                Some(options.update_lockfile),
            )
            &&& read.create_flake_store_path_gc_root == (options.create_flake_store_path_gc_root
                && !is_given(args, "no-flake-store-path-gc-root"@))
            &&& all_known(args)
        },
    decreases args.len(),
{
    if args.len() > 0 && options_from(args, options) is Ok {
        option_names_differ();
        if args[0] == seq!['-', '-'] {
            assert(args =~= seq![seq!['-', '-']]);
            assert(args.skip(1) =~= Seq::empty());
            reveal_with_fuel(last_switch, 2);
            reveal_with_fuel(last_value, 2);
            reveal_with_fuel(is_given, 2);
        } else {
            let name = written_option(args[0]).skip(2);
            dashes_come_first(args[0]);
            dashes_hide_nothing(name);
            if takes_value(name) {
                match written_value(args[0]) {
                    Some(value) => {
                        each_option_decides_its_own(
                            args.skip(1),
                            with_value(options, name, value),
                        );
                    },
                    None => {
                        each_option_decides_its_own(
                            args.skip(2),
                            with_value(options, name, args[1]),
                        );
                    },
                }
            } else {
                each_option_decides_its_own(args.skip(1), with_switch(options, name)->0);
            }
        }
    }
}

/// Options with the same text have the same name.
proof fn dashes_hide_nothing(name: Seq<char>)
    ensures
        forall|other: Seq<char>| #[trigger] dashed(other) == dashed(name) ==> other == name,
{
    assert forall|other: Seq<char>| #[trigger] dashed(other) == dashed(name) implies other
        == name by {
        assert(dashed(other).skip(2) =~= other);
        assert(dashed(name).skip(2) =~= name);
    }
}

/// A long option as written begins with two dashes.
proof fn dashes_come_first(arg: Seq<char>)
    requires
        is_long(arg),
    ensures
        written_option(arg) == dashed(written_option(arg).skip(2)),
{
    let rest = arg.skip(2);
    if arg.contains('=') {
        let k = first_place(arg, '=');
        let before = arg.take(k);
        assert(!before.contains('='));
        assert(arg =~= before.push('=') + arg.skip(k + 1));
        splitting_goes_piece_by_piece(before, arg.skip(k + 1), '=');
        whole_texts_are_one_piece(before, '=');
        assert(before =~= dashed(before.skip(2)));
    } else {
        whole_texts_are_one_piece(arg, '=');
        assert(arg =~= dashed(arg.skip(2)));
    }
}

/// Where a character stands first.
proof fn first_place(s: Seq<char>, c: char) -> (k: int)
    requires
        s.contains(c),
    ensures
        0 <= k < s.len(),
        s[k] == c,
        !s.take(k).contains(c),
    decreases s.len(),
{
    if s[0] == c {
        assert(s.take(0) =~= Seq::empty());
        0
    } else {
        let i = choose|i: int| 0 <= i < s.len() && s[i] == c;
        assert(s.skip(1)[i - 1] == c);
        let k = first_place(s.skip(1), c) + 1;
        assert forall|j: int| 0 <= j < k implies s.take(k)[j] != c by {
            if j > 0 {
                assert(s.take(k)[j] == s.skip(1).take(k - 1)[j - 1]);
                assert(s.skip(1).take(k - 1).contains(s.skip(1).take(k - 1)[j - 1]));
            }
        }
        k
    }
}

/// What is wrong with a command line is what is wrong with the first argument that cannot be read.
pub proof fn bad_arguments_are_named(
    arg: Seq<char>,
    rest: Seq<Seq<char>>,
    name: Seq<char>,
    value: Seq<char>,
    options: OptionsView,
)
    requires
        name.len() > 0,
        !name.contains('='),
    ensures
        arg.len() == 0 || arg[0] != '-' || arg.len() == 1 ==> options_from(seq![arg] + rest, options)
            == Err::<OptionsView, UsageErrorView>(UsageErrorView::UnexpectedArgument(arg)),
        arg.len() > 1 && arg[0] == '-' && arg[1] != '-' ==> options_from(seq![arg] + rest, options)
            == Err::<OptionsView, UsageErrorView>(
            UsageErrorView::UnexpectedOption(seq!['-', arg[1]]),
        ),
        !is_known_option(dashed(name)) ==> {
            &&& options_from(seq![dashed(name)] + rest, options) == Err::<
                OptionsView,
                UsageErrorView,
            >(UsageErrorView::UnexpectedOption(dashed(name)))
            &&& options_from(seq![dashed(name).push('=') + value] + rest, options) == Err::<
                OptionsView,
                UsageErrorView,
            >(UsageErrorView::UnexpectedOption(dashed(name)))
        },
        is_known_option(dashed(name)) && !takes_value(name) ==> options_from(
            seq![dashed(name).push('=') + value] + rest,
            options,
        ) == Err::<OptionsView, UsageErrorView>(
            UsageErrorView::UnexpectedValue { option: dashed(name), value },
        ),
        name == "hostname"@ || name == "target-drive"@ || name == "flake-path"@ || name
            == "mount-path"@ ==> options_from(seq![dashed(name)], options) == Err::<
            OptionsView,
            UsageErrorView,
        >(UsageErrorView::MissingValue(Some(dashed(name)))),
{
    option_names_differ();
    long_options_are_written_out(name, value);
    assert(dashed(name).skip(2) =~= name);
    assert((seq![arg] + rest)[0] == arg);
    assert((seq![dashed(name)] + rest)[0] == dashed(name));
    assert((seq![dashed(name).push('=') + value] + rest)[0] == dashed(name).push('=') + value);
    assert(dashed(name)[2] == name[0]);
    dashes_hide_nothing(name);
}

/// A command line is read behind the name of the program. What it does not speak of stays open, but for
/// the mount path, which is `/mnt`, the lock file, which is left as it is, and the store path of the flake,
/// which is kept from being collected.
pub proof fn unspoken_things_stay_open(program: Seq<char>, args: Seq<Seq<char>>)
    ensures
        without_program(seq![program] + args) == args,
        options_from(args, default_options()) matches Ok(read) ==> {
            &&& !is_given(args, "hostname"@) ==> read.hostname is None
            &&& !is_given(args, "target-drive"@) ==> read.canonical_target_drive is None
            &&& !is_given(args, "flake-path"@) ==> read.flake_path is None
            &&& !is_given(args, "mount-path"@) ==> read.mount_path == "/mnt"@
            &&& !is_given(args, "partition-drive"@) && !is_given(args, "no-partition-drive"@)
                ==> read.partition_drive is None
            &&& !is_given(args, "format-partitions"@) && !is_given(args, "no-format-partitions"@)
                ==> read.format_partitions is None
            &&& !is_given(args, "substitute-only"@) && !is_given(args, "do-build"@)
                ==> read.substitute_only is None
            &&& !is_given(args, "update-lockfile"@) ==> !read.update_lockfile
            &&& !is_given(args, "no-flake-store-path-gc-root"@)
                ==> read.create_flake_store_path_gc_root
        },
{
    each_option_decides_its_own(args, default_options());
    assert((seq![program] + args).skip(1) =~= args);
    ungiven_values_stay(args, "hostname"@, None);
    ungiven_values_stay(args, "target-drive"@, None);
    ungiven_values_stay(args, "flake-path"@, None);
    ungiven_values_stay(args, "mount-path"@, Some("/mnt"@));
    ungiven_switches_stay(args, "partition-drive"@, "no-partition-drive"@, None);
    ungiven_switches_stay(args, "format-partitions"@, "no-format-partitions"@, None);
    ungiven_switches_stay(args, "substitute-only"@, "do-build"@, None);
    ungiven_switches_stay(args, "update-lockfile"@, "no-update-lockfile"@, Some(false));
}

/// An option that is not given leaves a value as it is.
proof fn ungiven_values_stay(args: Seq<Seq<char>>, name: Seq<char>, value: Option<Seq<char>>)
    ensures
        !is_given(args, name) ==> last_value(args, name, value) == value,
    decreases args.len(),
{
    if args.len() > 0 {
        ungiven_values_stay(args.skip(width(args)), name, value);
    }
}

/// An option that is not given does not turn a thing on.
proof fn ungiven_switches_stay(
    args: Seq<Seq<char>>,
    on: Seq<char>,
    off: Seq<char>,
    value: Option<bool>,
)
    ensures
        !is_given(args, on) && !is_given(args, off) ==> last_switch(args, on, off, value) == value,
        !is_given(args, on) && value == Some(false) ==> last_switch(args, on, off, value) == value,
    decreases args.len(),
{
    if args.len() > 0 {
        ungiven_switches_stay(args.skip(width(args)), on, off, value);
    }
}

} // verus!

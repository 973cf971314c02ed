//! From the parsed command line to the one mode that a run carries out.

use vstd::prelude::*;

verus! {

/// What the command line held, as plain values.
#[derive(Debug, PartialEq, Eq)]
pub struct Flags {
    /// The value given with `-s` / `--store_key`, if the flag was given.
    pub store_key: Option<String>,
    /// Whether `-d` / `--delete_key` was given.
    pub delete_key: bool,
    /// Whether `-p` / `--print_key` was given.
    pub print_key: bool,
    /// The positional tokens, in the order in which they were given.
    pub prompt: Vec<String>,
}

/// The mathematical model of [`Flags`].
pub struct FlagsView {
    pub store_key: Option<Seq<char>>,
    pub delete_key: bool,
    pub print_key: bool,
    pub prompt: Seq<Seq<char>>,
}

impl View for Flags {
    type V = FlagsView;

    open spec fn view(&self) -> FlagsView {
        FlagsView {
            store_key: self.store_key.deep_view(),
            delete_key: self.delete_key,
            print_key: self.print_key,
            prompt: self.prompt.deep_view(),
        }
    }
}

/// The single behaviour selected for a run.
#[derive(Debug, PartialEq, Eq)]
pub enum Mode {
    /// Write the given value to the credential store.
    StoreKey(String),
    /// Remove the stored credential.
    DeleteKey,
    /// Show the stored credential in clear text.
    PrintKey,
    /// Send a question; the tokens are those of the command line and may be none.
    AskQuestion(Vec<String>),
}

/// The mathematical model of [`Mode`].
pub enum ModeView {
    StoreKey(Seq<char>),
    DeleteKey,
    PrintKey,
    AskQuestion(Seq<Seq<char>>),
}

impl View for Mode {
    type V = ModeView;

    open spec fn view(&self) -> ModeView {
        match self {
            Mode::StoreKey(value) => ModeView::StoreKey(value@),
            Mode::DeleteKey => ModeView::DeleteKey,
            Mode::PrintKey => ModeView::PrintKey,
            Mode::AskQuestion(tokens) => ModeView::AskQuestion(tokens.deep_view()),
        }
    }
}

/// One of the three flags that exclude each other.
#[derive(Clone, Copy, Debug, PartialEq, Eq, Structural)]
pub enum Flag {
    StoreKey,
    DeleteKey,
    PrintKey,
}

/// Two flags were given that cannot be used together.
#[derive(Clone, Copy, Debug, PartialEq, Eq, Structural)]
pub struct UsageError {
    pub given: Flag,
    pub excluded: Flag,
}

/// How the usage names `flag`.
pub open spec fn usage_of(flag: Flag) -> Seq<char> {
    match flag {
        Flag::StoreKey => "--store_key <KEY>"@,
        Flag::DeleteKey => "--delete_key"@,
        Flag::PrintKey => "--print_key"@,
    }
}

/// The sentence that tells the user which two flags exclude each other.
pub open spec fn conflict_text(error: UsageError) -> Seq<char> {
    "the argument '"@ + usage_of(error.given) + "' cannot be used with '"@ + usage_of(
        error.excluded,
    ) + "'"@
}

impl Flag {
    /// The flag as the usage names it.
    pub fn usage(&self) -> (out: &'static str)
        ensures
            out@ == usage_of(*self),
    {
        match self {
            Flag::StoreKey => "--store_key <KEY>",
            Flag::DeleteKey => "--delete_key",
            Flag::PrintKey => "--print_key",
        }
    }
}

impl UsageError {
    /// The error as the user should read it.
    pub fn text(&self) -> (out: String)
        ensures
            out@ == conflict_text(*self),
    {
        let mut out = "the argument '".to_owned();
        out.append(self.given.usage());
        out.append("' cannot be used with '");
        out.append(self.excluded.usage());
        out.append("'");
        out
    }
}

/// At least two of the three key-management flags are set.
pub open spec fn conflicting(flags: FlagsView) -> bool {
    ||| flags.store_key is Some && flags.delete_key
    ||| flags.store_key is Some && flags.print_key
    ||| flags.delete_key && flags.print_key
}

/// The mode that `flags` select, or the first pair of flags that exclude each
/// other, pairs taken in the order store/delete, store/print, delete/print.
/// With none of the three flags set the run asks a question.
pub open spec fn chosen(flags: FlagsView) -> Result<ModeView, UsageError> {
    if flags.store_key is Some && flags.delete_key {
        Err(UsageError { given: Flag::StoreKey, excluded: Flag::DeleteKey })
    } else if flags.store_key is Some && flags.print_key {
        Err(UsageError { given: Flag::StoreKey, excluded: Flag::PrintKey })
    } else if flags.delete_key && flags.print_key {
        Err(UsageError { given: Flag::DeleteKey, excluded: Flag::PrintKey })
    } else if flags.store_key is Some {
        Ok(ModeView::StoreKey(flags.store_key->0))
    } else if flags.delete_key {
        Ok(ModeView::DeleteKey)
    } else if flags.print_key {
        Ok(ModeView::PrintKey)
    } else {
        Ok(ModeView::AskQuestion(flags.prompt))
    }
}

/// The model of what [`select_mode`] returns.
pub open spec fn selection_view(out: Result<Mode, UsageError>) -> Result<ModeView, UsageError> {
    match out {
        Ok(mode) => Ok(mode@),
        Err(error) => Err(error),
    }
}

/// Chooses the mode of a run. Flags that exclude each other are refused,
/// whatever their values; otherwise exactly one mode comes back.
pub fn select_mode(flags: Flags) -> (out: Result<Mode, UsageError>)
    ensures
        selection_view(out) == chosen(flags@),
        out is Err <==> conflicting(flags@),
{
    let Flags { store_key, delete_key, print_key, prompt } = flags;
    match store_key {
        Some(value) => {
            if delete_key {
                Err(UsageError { given: Flag::StoreKey, excluded: Flag::DeleteKey })
            } else if print_key {
                Err(UsageError { given: Flag::StoreKey, excluded: Flag::PrintKey })
            } else {
                Ok(Mode::StoreKey(value))
            }
        },
        None => {
            if delete_key && print_key {
                Err(UsageError { given: Flag::DeleteKey, excluded: Flag::PrintKey })
            } else if delete_key {
                Ok(Mode::DeleteKey)
            } else if print_key {
                Ok(Mode::PrintKey)
            } else {
                Ok(Mode::AskQuestion(prompt))
            }
        },
    }
}

} // verus!

//! The command line of the tool: a directory, and `--dry-run` if wanted.

use vstd::prelude::*;
use vstd::string::*;

verus! {

/// What the user asked for.
#[derive(Debug, PartialEq, Eq)]
pub struct Arguments {
    /// The directory whose grandchildren are uploaded.
    pub path: String,
    /// Whether the commands are only shown and not run.
    pub dry_run: bool,
}

/// `Arguments` as a mathematical value.
pub struct Request {
    pub path: Seq<char>,
    pub dry_run: bool,
}

impl View for Arguments {
    type V = Request;

    open spec fn view(&self) -> Request {
        Request { path: self.path@, dry_run: self.dry_run }
    }
}

/// Why a command line was refused.
#[derive(Debug)]
pub enum ArgumentError {
    /// No directory was named.
    MissingPath,
    /// The word after the directory is not `--dry-run`.
    InvalidArgument(String),
    /// Something follows `--dry-run`.
    TooManyArguments,
}

/// `ArgumentError` as a mathematical value.
pub enum Refusal {
    MissingPath,
    InvalidArgument(Seq<char>),
    TooManyArguments,
}

impl View for ArgumentError {
    type V = Refusal;

    open spec fn view(&self) -> Refusal {
        match self {
            ArgumentError::MissingPath => Refusal::MissingPath,
            ArgumentError::InvalidArgument(word) => Refusal::InvalidArgument(word@),
            ArgumentError::TooManyArguments => Refusal::TooManyArguments,
        }
    }
}

impl Refusal {
    /// The line that tells a user why the command line was refused.
    pub open spec fn message(self) -> Seq<char> {
        match self {
            Refusal::MissingPath => "Usage: immich-refresh <path> [--dry-run]"@,
            Refusal::InvalidArgument(word) => "Invalid argument: "@ + word
                + ". Expected --dry-run or no additional arguments"@,
            Refusal::TooManyArguments => {
                "Too many arguments. Usage: immich-refresh <path> [--dry-run]"@
            },
        }
    }
}

impl ArgumentError {
    /// The line that tells a user why the command line was refused.
    pub fn message(&self) -> (line: String)
        ensures
            line@ == self@.message(),
    {
        match self {
            ArgumentError::MissingPath => String::from_str(
                "Usage: immich-refresh <path> [--dry-run]",
            ),
            ArgumentError::InvalidArgument(word) => {
                let mut line = String::from_str("Invalid argument: ");
                line.append(word.as_str());
                line.append(". Expected --dry-run or no additional arguments");
                line
            },
            ArgumentError::TooManyArguments => String::from_str(
                "Too many arguments. Usage: immich-refresh <path> [--dry-run]",
            ),
        }
    }
}

/// What a command line asks for. Its first word is the program's own name,
/// the second the directory, and a third can only be `--dry-run`. A wrong
/// third word is reported even if more words follow it.
pub open spec fn parsed(words: Seq<Seq<char>>) -> Result<Request, Refusal> {
    if words.len() < 2 {
        Err(Refusal::MissingPath)
    } else if words.len() > 2 && words[2] != "--dry-run"@ {
        Err(Refusal::InvalidArgument(words[2]))
    } else if words.len() > 3 {
        Err(Refusal::TooManyArguments)
    } else {
        Ok(Request { path: words[1], dry_run: words.len() > 2 })
    }
}

/// The result of reading a command line, as a mathematical value.
pub open spec fn parse_view(parse: Result<Arguments, ArgumentError>) -> Result<Request, Refusal> {
    match parse {
        Ok(arguments) => Ok(arguments@),
        Err(error) => Err(error@),
    }
}

/// Reads the words of a command line, the program's own name first.
pub fn parse_arguments(args: Vec<String>) -> (parse: Result<Arguments, ArgumentError>)
    ensures
        parse_view(parse) == parsed(args.deep_view()),
{
    if args.len() < 2 {
        return Err(ArgumentError::MissingPath);
    }
    let mut dry_run = false;
    if args.len() > 2 {
        let flag = String::from_str("--dry-run");
        if args[2] == flag {
            dry_run = true;
        } else {
            return Err(ArgumentError::InvalidArgument(args[2].clone()));
        }
    }
    if args.len() > 3 {
        return Err(ArgumentError::TooManyArguments);
    }
    Ok(Arguments { path: args[1].clone(), dry_run })
}

} // verus!

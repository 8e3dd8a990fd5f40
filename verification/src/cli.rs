//! Reading command-line flags: the value that follows a flag, and boolean
//! flag values.

use vstd::prelude::*;

use crate::effect::concat2;
use crate::search::{first_item, is_first, lemma_first_item, some_item};
use crate::text::str_eq;

verus! {

/// Why command-line arguments could not be read.
#[derive(Debug)]
pub struct CliError {
    message: String,
}

impl View for CliError {
    type V = Seq<char>;

    closed spec fn view(&self) -> Seq<char> {
        self.message@
    }
}

impl CliError {
    fn new(message: String) -> (r: Self)
        ensures
            r@ == message@,
    {
        CliError { message }
    }

    /// The message that explains the failure.
    pub fn message(&self) -> (r: &str)
        ensures
            r@ == self@,
    {
        self.message.as_str()
    }
}

/// The positions of `args` that hold `flag` and have a value after them.
pub open spec fn flag_is(args: Seq<String>, flag: Seq<char>) -> spec_fn(int) -> bool {
    |i: int| 0 <= i && i + 1 < args.len() && args[i]@ == flag
}

/// The positions `0, 1, ...` of `args` that can start a pair.
pub open spec fn pair_starts(args: Seq<String>) -> Seq<int> {
    Seq::new(if args.len() > 0 { (args.len() - 1) as nat } else { 0 }, |i: int| i)
}

/// The value that follows the first occurrence of `flag` in `args` that has
/// one.
pub open spec fn flag_value(args: Seq<String>, flag: Seq<char>) -> Option<Seq<char>> {
    if some_item(pair_starts(args), flag_is(args, flag)) {
        Some(args[first_item(pair_starts(args), flag_is(args, flag)) + 1]@)
    } else {
        None
    }
}

/// The value that follows `flag` in `arguments`, if any.
pub fn optional_cli_flag<'a>(arguments: &'a [String], flag: &str) -> (r: Option<&'a str>)
    ensures
        match r {
            Some(v) => flag_value(arguments@, flag@) == Some(v@),
            None => flag_value(arguments@, flag@) is None,
        },
{
    let ghost starts = pair_starts(arguments@);
    let mut i: usize = 0;
    while i < arguments.len()
        invariant
            starts == pair_starts(arguments@),
            i <= arguments@.len(),
            forall|j: int| 0 <= j < i && j < starts.len() ==> !flag_is(arguments@, flag@)(#[trigger] starts[j]),
        decreases arguments.len() - i,
    {
        if i + 1 < arguments.len() && str_eq(arguments[i].as_str(), flag) {
            assert(starts[i as int] == i);
            proof {
                lemma_first_item(starts, flag_is(arguments@, flag@), i as int);
            }
            return Some(arguments[i + 1].as_str());
        }
        proof {
            if i < starts.len() {
                assert(starts[i as int] == i);
            }
        }
        i = i + 1;
    }
    None
}

/// The value that follows `flag` in `arguments`; refused when there is none.
pub fn required_cli_flag<'a>(arguments: &'a [String], flag: &str) -> (r: Result<&'a str, CliError>)
    ensures
        match r {
            Ok(v) => flag_value(arguments@, flag@) == Some(v@),
            Err(e) => flag_value(arguments@, flag@) is None && e@ == flag@ + " is required"@,
        },
{
    match optional_cli_flag(arguments, flag) {
        Some(v) => Ok(v),
        None => Err(CliError::new(concat2(flag, " is required"))),
    }
}

/// Reading `raw` as `true` or `false`, exactly.
pub open spec fn bool_value(raw: Seq<char>) -> Option<bool> {
    if raw == "true"@ {
        Some(true)
    } else if raw == "false"@ {
        Some(false)
    } else {
        None
    }
}

/// `true` or `false`; refuses any other text.
pub fn parse_bool_flag(raw: &str) -> (r: Result<bool, CliError>)
    ensures
        match r {
            Ok(b) => bool_value(raw@) == Some(b),
            Err(e) => bool_value(raw@) is None && e@ == "expected true or false"@,
        },
{
    if str_eq(raw, "true") {
        Ok(true)
    } else if str_eq(raw, "false") {
        Ok(false)
    } else {
        Err(CliError::new("expected true or false".to_owned()))
    }
}

/// The value of an `--observed` flag.
pub fn parse_observed_flag(raw: &str) -> (r: Result<bool, CliError>)
    ensures
        match r {
            Ok(b) => bool_value(raw@) == Some(b),
            Err(e) => bool_value(raw@) is None && e@ == "invalid observed flag: expected true or false"@,
        },
{
    match parse_bool_flag(raw) {
        Ok(b) => Ok(b),
        Err(_) => Err(CliError::new("invalid observed flag: expected true or false".to_owned())),
    }
}

/// The value of a `--shared` flag.
pub fn parse_shared_flag(raw: &str) -> (r: Result<bool, CliError>)
    ensures
        match r {
            Ok(b) => bool_value(raw@) == Some(b),
            Err(e) => bool_value(raw@) is None && e@ == "invalid shared flag: expected true or false"@,
        },
{
    match parse_bool_flag(raw) {
        Ok(b) => Ok(b),
        Err(_) => Err(CliError::new("invalid shared flag: expected true or false".to_owned())),
    }
}

} // verus!

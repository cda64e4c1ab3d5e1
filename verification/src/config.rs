//! The arguments of the command line.

use vstd::prelude::*;
use vstd::string::StringExecFns;

verus! {

/// What `{:?}` prints for a list of strings, each string given by its
/// characters.
pub uninterp spec fn debug_listing(items: Seq<Seq<char>>) -> Seq<char>;

/// What the command line asks for.
#[derive(Debug, PartialEq)]
pub struct Config {
    /// The file to read the transactions from.
    pub filename: String,
}

/// Why the command line is not understood.
#[derive(Debug, PartialEq)]
pub enum ConfigError {
    /// No parameter was given; `program` is the name the program was called by.
    Usage { program: String },
    /// More than one parameter was given.
    TooManyParameters { parameters: Vec<String> },
}

/// The characters of each string of `items`.
pub open spec fn characters(items: Seq<String>) -> Seq<Seq<char>> {
    items.map_values(|s: String| s@)
}

impl Config {
    /// Reads the arguments, of which the first is the program's own name:
    /// exactly one more is expected, the file name.
    pub fn new(args: &[String]) -> (r: Result<Config, ConfigError>)
        requires
            args@.len() >= 1,
        ensures
            args@.len() == 1 ==> r == Err::<Config, ConfigError>(
                ConfigError::Usage { program: args@[0] },
            ),
            args@.len() == 2 ==> r == Ok::<Config, ConfigError>(Config { filename: args@[1] }),
            args@.len() > 2 ==> (r matches Err(ConfigError::TooManyParameters { parameters })
                && parameters@ == args@.skip(1)),
    {
        if args.len() == 1 {
            Err(ConfigError::Usage { program: args[0].clone() })
        } else if args.len() == 2 {
            Ok(Config { filename: args[1].clone() })
        } else {
            let mut parameters: Vec<String> = Vec::new();
            let mut i: usize = 1;
            while i < args.len()
                invariant
                    1 <= i <= args@.len(),
                    parameters@ == args@.subrange(1, i as int),
                decreases args@.len() - i,
            {
                parameters.push(args[i].clone());
                proof {
                    assert(args@.subrange(1, i as int).push(args@[i as int]) =~= args@.subrange(
                        1,
                        i + 1,
                    ));
                }
                i = i + 1;
            }
            Err(ConfigError::TooManyParameters { parameters })
        }
    }
}

impl ConfigError {
    /// What the message says.
    pub open spec fn text(self) -> Seq<char> {
        match self {
            ConfigError::Usage { program } => "Usage: "@ + program@ + " filename"@,
            ConfigError::TooManyParameters { parameters } => "Only one parameter allowed. Got: "@
                + debug_listing(characters(parameters@)),
        }
    }

    /// The message for the user.
    pub fn message(&self) -> (r: String)
        ensures
            r@ == self.text(),
    {
        match self {
            ConfigError::Usage { program } => String::from_str("Usage: ").concat(
                program.as_str(),
            ).concat(" filename"),
            ConfigError::TooManyParameters { parameters } => {
                let listing = debug_format(parameters);
                String::from_str("Only one parameter allowed. Got: ").concat(listing.as_str())
            },
        }
    }
}

/// Formats a list of strings with `{:?}`, as `format!` of std does. Trusted:
/// the result is that formatting of the list, which depends on the strings'
/// characters alone.
#[verifier::external_body]
fn debug_format(items: &Vec<String>) -> (r: String)
    ensures
        r@ == debug_listing(characters(items@)),
{
    format!("{:?}", items)
}

} // verus!

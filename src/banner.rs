use vstd::prelude::*;
use crate::line::{BannerColor, Line};

verus! {

/// Widget that shows the output of a shell command in a colour.
#[derive(Clone, Debug)]
pub struct Banner {
    pub color: BannerColor,
    pub command: String,
}

/// Why the banner's command gave no output to show.
#[derive(Clone, Debug)]
pub enum BannerError {
    /// The command could not be started or exited with a failure.
    BetterCommandError { message: String },
    /// Reading the command's output failed.
    IOError { message: String },
}

/// What `str::trim_end` leaves of a text.
pub uninterp spec fn trimmed_end(s: Seq<char>) -> Seq<char>;

/// Relies on `str::trim_end`, which removes trailing whitespace and so
/// leaves a prefix of the text.
#[verifier::external_body]
fn trim_end_string(s: &str) -> (r: String)
    ensures
        r@ == trimmed_end(s@),
        r@.len() <= s@.len(),
        r@ == s@.subrange(0, r@.len() as int),
{
    s.trim_end().to_string()
}

impl BannerError {
    /// The text shown for this error.
    pub open spec fn message_spec(&self) -> Seq<char> {
        match self {
            BannerError::BetterCommandError { message } => message@,
            BannerError::IOError { message } => message@,
        }
    }

    /// The text shown for this error.
    pub fn message(&self) -> (r: String)
        ensures
            r@ == self.message_spec(),
    {
        match self {
            BannerError::BetterCommandError { message } => message.clone(),
            BannerError::IOError { message } => message.clone(),
        }
    }
}

impl Banner {
    /// Banner that runs `command` and shows its output in `color`.
    pub fn new(color: BannerColor, command: String) -> (r: Self)
        ensures
            r.color == color,
            r.command@ == command@,
    {
        Banner { color, command }
    }

    /// The banner's line for the command's `output`: the output without
    /// trailing whitespace, in the banner's colour; a failed command's error
    /// is handed back.
    pub fn print_or_error(self, output: Result<String, BannerError>) -> (r: Result<Vec<Line>, BannerError>)
        ensures
            output is Err ==> r is Err && r->Err_0 == output->Err_0,
            output matches Ok(o) ==> r matches Ok(lines) && lines@.len() == 1
                && lines@[0].is_colored(self.color, trimmed_end(o@)),
    {
        match output {
            Err(e) => Err(e),
            Ok(o) => {
                let lines = vec![Line::Colored(self.color, trim_end_string(o.as_str()))];
                Ok(lines)
            },
        }
    }
}

} // verus!

//! Errors that end the program with a distinguishing exit status, and the
//! decision that turns a request's outcome into one.

use vstd::prelude::*;

verus! {

/// An error that carries the exit status of the process.
#[derive(Clone, Copy, Debug)]
pub struct ExitError {
    message: &'static str,
    exit_code: i32,
}

impl View for ExitError {
    type V = (Seq<char>, i32);

    closed spec fn view(&self) -> (Seq<char>, i32) {
        (self.message@, self.exit_code)
    }
}

impl ExitError {
    /// An error with `message` that exits with `exit_code`.
    pub fn new(message: &'static str, exit_code: i32) -> (r: ExitError)
        ensures
            r@ == (message@, exit_code),
    {
        ExitError { message, exit_code }
    }

    /// What went wrong.
    pub fn message(&self) -> (r: &'static str)
        ensures
            r@ == self@.0,
    {
        self.message
    }

    /// The exit status to end with.
    pub fn exit_code(&self) -> (r: i32)
        ensures
            r == self@.1,
    {
        self.exit_code
    }
}

/// Fails with `msg` and the exit status `code`.
pub fn err_code(msg: &'static str, code: i32) -> (r: Result<(), ExitError>)
    ensures
        r matches Err(e) && e@ == (msg@, code),
{
    Err(ExitError::new(msg, code))
}

/// Exit status when no responder took the request and the caller must not
/// serve itself.
pub const EXIT_NO_RESPONSE: i32 = 3;

/// Exit status when the responder could not load the image.
pub const EXIT_REMOTE_FAILED: i32 = 2;

/// Exit status of any other failure.
pub const EXIT_FAILURE: i32 = 1;

/// How an invocation goes on after it tried to hand its image over.
#[derive(PartialEq, Eq, Structural, Clone, Copy, Debug)]
pub enum Start {
    /// A running viewer showed the image: nothing more to do.
    Done,
    /// Open a window and serve requests.
    Serve,
}

/// How an invocation goes on: `has_name` tells whether it names an image,
/// `outcome` is what the request gave (`None`: no responder, or no request
/// made), and `fail` asks to exit rather than serve.
pub fn start_after(has_name: bool, outcome: Option<bool>, fail: bool) -> (r: Result<Start, ExitError>)
    ensures
        has_name && outcome == Some(true) ==> r == Ok::<Start, ExitError>(Start::Done),
        has_name && outcome == Some(false) ==> (r matches Err(e) && e@.1 == EXIT_REMOTE_FAILED),
        has_name && outcome is None && fail ==> (r matches Err(e) && e@.1 == EXIT_NO_RESPONSE),
        !has_name && fail ==> (r matches Err(e) && e@.1 == EXIT_FAILURE),
        !fail && (!has_name || outcome is None) ==> r == Ok::<Start, ExitError>(Start::Serve),
{
    if has_name {
        match outcome {
            Some(true) => return Ok(Start::Done),
            Some(false) => {
                return Err(
                    ExitError::new("the remote process failed to load the image", EXIT_REMOTE_FAILED),
                );
            },
            None => {},
        }
        if fail {
            return Err(ExitError::new("the remote process failed to respond in time", EXIT_NO_RESPONSE));
        }
    } else if fail {
        return Err(ExitError::new("no image file name was specified", EXIT_FAILURE));
    }
    Ok(Start::Serve)
}

/// Seconds to wait for a responder when none are given: longer when the
/// invocation will not serve itself.
pub fn default_timeout(fail: bool) -> (r: u64)
    ensures
        r == if fail {
            5u64
        } else {
            1u64
        },
{
    if fail {
        5
    } else {
        1
    }
}

} // verus!

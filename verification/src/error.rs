//! The error channel: the latest error message and a count of errors that
//! is read and set back to zero in one step.

use vstd::prelude::*;
use vstd::string::*;

verus! {

/// What an error channel holds, as contracts see it: the latest message, if
/// there is one, and the number of errors recorded since the count was last
/// read.
pub struct ErrorState {
    pub message: Option<Seq<char>>,
    pub count: int,
}

impl ErrorState {
    /// The state of a channel on which nothing was recorded.
    pub open spec fn empty() -> ErrorState {
        ErrorState { message: None, count: 0 }
    }

    /// The state after one more error with message `msg`. A message that
    /// holds a NUL character cannot be kept and leaves no message behind.
    /// The count stops at `i32::MAX`.
    pub open spec fn recorded(self, msg: Seq<char>) -> ErrorState {
        ErrorState {
            message: if msg.contains('\0') {
                None
            } else {
                Some(msg)
            },
            count: if self.count < i32::MAX {
                self.count + 1
            } else {
                self.count
            },
        }
    }

    /// The state after an error that may or may not carry a message.
    pub open spec fn recorded_if(self, msg: Option<Seq<char>>) -> ErrorState {
        match msg {
            Some(m) => self.recorded(m),
            None => self,
        }
    }

    /// The state after each message of `msgs` was recorded in turn.
    pub open spec fn recorded_all(self, msgs: Seq<Seq<char>>) -> ErrorState
        decreases msgs.len(),
    {
        if msgs.len() == 0 {
            self
        } else {
            self.recorded_all(msgs.drop_last()).recorded(msgs.last())
        }
    }

    /// The state after the message was dropped.
    pub open spec fn cleared(self) -> ErrorState {
        ErrorState { message: None, count: self.count }
    }

    /// The state after the count was read.
    pub open spec fn drained(self) -> ErrorState {
        ErrorState { message: self.message, count: 0 }
    }

    /// The text that stands for error code `code`.
    pub open spec fn text(self, code: int) -> Seq<char> {
        if code == 0 {
            match self.message {
                Some(m) => m,
                None => "no error"@,
            }
        } else if code == -1 {
            match self.message {
                Some(m) => m,
                None => "unknown error"@,
            }
        } else {
            "unknown error"@
        }
    }
}

/// The latest error message and the count of errors of one caller. Each
/// thread of a program keeps a channel of its own and hands it to the
/// operations it calls.
#[derive(Debug)]
pub struct ErrorChannel {
    last: Option<String>,
    count: i32,
}

impl View for ErrorChannel {
    type V = ErrorState;

    closed spec fn view(&self) -> ErrorState {
        ErrorState {
            message: match self.last {
                Some(s) => Some(s@),
                None => None,
            },
            count: self.count as int,
        }
    }
}

impl ErrorChannel {
    /// A channel on which nothing was recorded.
    pub fn new() -> (errors: Self)
        ensures
            errors@ == ErrorState::empty(),
    {
        ErrorChannel { last: None, count: 0 }
    }
}

fn has_nul(msg: &str) -> (found: bool)
    ensures
        found == msg@.contains('\0'),
{
    let n = msg.unicode_len();
    let mut i: usize = 0;
    while i < n
        invariant
            n == msg@.len(),
            i <= n,
            forall|j: int| 0 <= j < i ==> msg@[j] != '\0',
        decreases n - i,
    {
        if msg.get_char(i) == '\0' {
            return true;
        }
        i = i + 1;
    }
    false
}

/// Records one error with message `msg`.
pub fn set_error(errors: &mut ErrorChannel, msg: &str)
    ensures
        final(errors)@ == old(errors)@.recorded(msg@),
{
    if has_nul(msg) {
        errors.last = None;
    } else {
        errors.last = Some(String::from_str(msg));
    }
    if errors.count < i32::MAX {
        errors.count = errors.count + 1;
    }
}

/// Drops the latest message. The count stays.
pub fn clear_error(errors: &mut ErrorChannel)
    ensures
        final(errors)@ == old(errors)@.cleared(),
{
    errors.last = None;
}

/// The latest message, if there is one.
pub fn get_error_ptr(errors: &ErrorChannel) -> (msg: Option<&str>)
    ensures
        match msg {
            Some(s) => errors@.message == Some(s@),
            None => errors@.message is None,
        },
{
    match &errors.last {
        Some(s) => Some(s.as_str()),
        None => None,
    }
}

/// The number of errors recorded since the count was last read.
pub fn get_errno(errors: &ErrorChannel) -> (n: i32)
    ensures
        n == errors@.count,
{
    errors.count
}

/// Reads the count of errors and sets it back to zero. The message stays.
pub fn elf_errno(errors: &mut ErrorChannel) -> (n: i32)
    ensures
        n == old(errors)@.count,
        final(errors)@ == old(errors)@.drained(),
{
    let n = errors.count;
    errors.count = 0;
    n
}

/// The text for error code `error`: for 0 the latest message or "no error",
/// for -1 the latest message or "unknown error", for any other code
/// "unknown error".
pub fn elf_errmsg(errors: &ErrorChannel, error: i32) -> (text: &str)
    ensures
        text@ == errors@.text(error as int),
{
    if error == 0 {
        match get_error_ptr(errors) {
            Some(s) => s,
            None => "no error",
        }
    } else if error == -1 {
        match get_error_ptr(errors) {
            Some(s) => s,
            None => "unknown error",
        }
    } else {
        "unknown error"
    }
}

/// The count after a run of errors: one more for each of them, up to
/// `i32::MAX`, whatever their messages.
pub proof fn lemma_count_after_errors(state: ErrorState, msgs: Seq<Seq<char>>)
    requires
        0 <= state.count <= i32::MAX,
    ensures
        state.recorded_all(msgs).count == if state.count + msgs.len() <= i32::MAX {
            state.count + msgs.len()
        } else {
            i32::MAX as int
        },
    decreases msgs.len(),
{
    if msgs.len() > 0 {
        lemma_count_after_errors(state, msgs.drop_last());
    }
}

/// After the count was read, `n` errors in a row make the next reading `n`,
/// and the reading after that 0.
pub proof fn lemma_errno_counts_and_resets(state: ErrorState, msgs: Seq<Seq<char>>)
    requires
        msgs.len() <= i32::MAX,
    ensures
        state.drained().recorded_all(msgs).count == msgs.len(),
        state.drained().recorded_all(msgs).drained().count == 0,
{
    lemma_count_after_errors(state.drained(), msgs);
}

/// The message after a run of errors is that of the last of them.
pub proof fn lemma_message_after_errors(state: ErrorState, msgs: Seq<Seq<char>>)
    requires
        msgs.len() > 0,
    ensures
        state.recorded_all(msgs).message == (if msgs.last().contains('\0') {
            None
        } else {
            Some(msgs.last())
        }),
{
}

} // verus!

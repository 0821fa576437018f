//! Resolution of a termination-notification stream into a single outcome.
//!
//! The stream for one container yields zero or more messages; each is either
//! a termination event (an exit status code with an optional engine error
//! detail) or a transport failure. Resolution stops at the first decisive
//! message; exhaustion without one counts as clean termination.

use vstd::prelude::*;

use crate::container::Error;

verus! {

/// One message of the termination-notification stream.
pub enum WaitMessage {
    /// A termination event: the exit status code and the engine's optional
    /// error detail message.
    Event { status_code: i64, error_message: Option<String> },
    /// A transport failure, carried as its message text.
    Transport(String),
}

/// What one stream message decides.
pub enum WaitStep {
    /// The wait resolves successfully; no further message is consumed.
    Resolved,
    /// The message is an intermediate notification; keep consuming.
    Pending,
    /// The wait resolves as a failure; no further message is consumed.
    Failed(Error),
}

/// The decision a single stream message leads to: a zero status code
/// resolves the wait successfully; a non-zero code with an error detail
/// resolves it as a failure carrying the message and the code; a non-zero
/// code without a detail is an intermediate notification; a transport
/// failure resolves as a failure carrying the error unchanged.
pub open spec fn spec_wait_step(msg: WaitMessage) -> WaitStep {
    match msg {
        WaitMessage::Event { status_code, error_message } => {
            if status_code == 0 {
                WaitStep::Resolved
            } else {
                match error_message {
                    Some(m) => WaitStep::Failed(Error::WaitFailed { code: status_code, message: m }),
                    None => WaitStep::Pending,
                }
            }
        },
        WaitMessage::Transport(m) => WaitStep::Failed(Error::Transport(m)),
    }
}

/// Decide what a single stream message means for the wait.
pub fn wait_step(msg: WaitMessage) -> (r: WaitStep)
    ensures
        r == spec_wait_step(msg),
{
    match msg {
        WaitMessage::Event { status_code, error_message } => {
            if status_code == 0 {
                WaitStep::Resolved
            } else {
                match error_message {
                    Some(m) => WaitStep::Failed(Error::WaitFailed { code: status_code, message: m }),
                    None => WaitStep::Pending,
                }
            }
        },
        WaitMessage::Transport(m) => WaitStep::Failed(Error::Transport(m)),
    }
}

/// The outcome a finite message sequence resolves to, first decisive
/// message wins; exhaustion resolves successfully.
pub open spec fn spec_resolve(msgs: Seq<WaitMessage>) -> Result<(), Error>
    decreases msgs.len(),
{
    if msgs.len() == 0 {
        Ok(())
    } else {
        match msgs[0] {
            WaitMessage::Event { status_code, error_message } => {
                if status_code == 0 {
                    Ok(())
                } else {
                    match error_message {
                        Some(m) => Err(Error::WaitFailed { code: status_code, message: m }),
                        None => spec_resolve(msgs.drop_first()),
                    }
                }
            },
            WaitMessage::Transport(m) => Err(Error::Transport(m)),
        }
    }
}

/// Resolve a sequence of received stream messages to the outcome of the
/// wait.
pub fn resolve(msgs: Vec<WaitMessage>) -> (r: Result<(), Error>)
    ensures
        r == spec_resolve(msgs@),
{
    let n = msgs.len();
    let mut i: usize = 0;
    proof {
        assert(msgs@.subrange(0, n as int) =~= msgs@);
    }
    while i < n
        invariant
            0 <= i <= n == msgs@.len(),
            spec_resolve(msgs@) == spec_resolve(msgs@.subrange(i as int, n as int)),
        decreases n - i,
    {
        let ghost rest = msgs@.subrange(i as int, n as int);
        proof {
            assert(rest[0] == msgs@[i as int]);
            assert(rest.drop_first() =~= msgs@.subrange(i as int + 1, n as int));
        }
        match &msgs[i] {
            WaitMessage::Event { status_code, error_message } => {
                if *status_code == 0 {
                    return Ok(());
                }
                match error_message {
                    Some(m) => {
                        return Err(
                            Error::WaitFailed { code: *status_code, message: m.clone() },
                        );
                    },
                    None => {},
                }
            },
            WaitMessage::Transport(m) => {
                return Err(Error::Transport(m.clone()));
            },
        }
        i += 1;
    }
    proof {
        assert(msgs@.subrange(i as int, n as int) =~= Seq::<WaitMessage>::empty());
    }
    Ok(())
}

/// The wait resolves successfully on the first message carrying a zero
/// status code, whatever messages follow.
pub proof fn lemma_wait_first_zero(msgs: Seq<WaitMessage>, detail: Option<String>)
    requires
        msgs.len() > 0,
        msgs[0] == (WaitMessage::Event { status_code: 0, error_message: detail }),
    ensures
        spec_resolve(msgs) == Ok::<(), Error>(()),
{
}

/// The wait resolves as a failure immediately on a transport error,
/// carrying that error unchanged, whatever messages follow.
pub proof fn lemma_wait_transport(msgs: Seq<WaitMessage>, m: String)
    requires
        msgs.len() > 0,
        msgs[0] == WaitMessage::Transport(m),
    ensures
        spec_resolve(msgs) == Err::<(), Error>(Error::Transport(m)),
{
}

/// The wait resolves as a failure on a message with a non-zero status code
/// and an explicit error detail, carrying both, whatever messages follow.
pub proof fn lemma_wait_error_detail(msgs: Seq<WaitMessage>, code: i64, m: String)
    requires
        msgs.len() > 0,
        code != 0,
        msgs[0] == (WaitMessage::Event { status_code: code, error_message: Some(m) }),
    ensures
        spec_resolve(msgs) == Err::<(), Error>(Error::WaitFailed { code: code, message: m }),
{
}

/// A non-zero status code without an error detail does not decide the wait:
/// the outcome is that of the remaining messages.
pub proof fn lemma_wait_bare_nonzero(msgs: Seq<WaitMessage>, code: i64)
    requires
        msgs.len() > 0,
        code != 0,
        msgs[0] == (WaitMessage::Event { status_code: code, error_message: None }),
    ensures
        spec_resolve(msgs) == spec_resolve(msgs.drop_first()),
{
}

/// Stream exhaustion without a decisive message resolves successfully.
pub proof fn lemma_wait_exhaustion()
    ensures
        spec_resolve(Seq::<WaitMessage>::empty()) == Ok::<(), Error>(()),
{
}

} // verus!

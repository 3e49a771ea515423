//! The command inbox: an unbounded in-process channel of messages with many
//! senders and one receiver, made by `crossbeam_channel`.

use vstd::prelude::*;

use crate::command::encode_command;
use crate::command::spec_encode;
use crate::command::Command;

verus! {

/// The sending end of a channel, `crossbeam_channel::Sender`. Nothing of
/// its inside is known here.
#[verifier::external_type_specification]
#[verifier::external_body]
#[verifier::reject_recursive_types(T)]
pub struct ExSender<T>(crossbeam_channel::Sender<T>);

/// The receiving end of a channel, `crossbeam_channel::Receiver`. Nothing
/// of its inside is known here.
#[verifier::external_type_specification]
#[verifier::external_body]
#[verifier::reject_recursive_types(T)]
pub struct ExReceiver<T>(crossbeam_channel::Receiver<T>);

/// Makes the two ends of a channel of unbounded capacity with
/// `crossbeam_channel::unbounded`. Nothing is claimed of them.
#[verifier::external_body]
fn unbounded_messages() -> (ends: (
    crossbeam_channel::Sender<String>,
    crossbeam_channel::Receiver<String>,
)) {
    crossbeam_channel::unbounded()
}

/// Hands a message to `crossbeam_channel::Sender::send`.
///
/// Taken on trust from the outside crate: a message that the channel does
/// not take comes back in the error, as it was handed in. Whether the channel
/// takes a message is not claimed: it refuses once its receiver is gone,
/// which another thread decides.
#[verifier::external_body]
fn send_message(
    sender: &crossbeam_channel::Sender<String>,
    message: String,
) -> (sent: Result<(), String>)
    ensures
        sent matches Err(undelivered) ==> undelivered@ == message@,
{
    match sender.send(message) {
        Ok(()) => Ok(()),
        Err(crossbeam_channel::SendError(undelivered)) => Err(undelivered),
    }
}

/// Asks `crossbeam_channel::Receiver::try_recv` for a waiting message,
/// without blocking. Nothing is claimed of the answer: what waits in the
/// channel is decided by the sending threads.
#[verifier::external_body]
fn try_receive(receiver: &crossbeam_channel::Receiver<String>) -> (message: Option<String>) {
    receiver.try_recv().ok()
}

/// The handle with which the user interface sends commands to the
/// controller.
pub struct ControlSender {
    sender: crossbeam_channel::Sender<String>,
}

/// The receiving end of the command channel, read by the controller once
/// per tick.
pub struct Inbox {
    receiver: crossbeam_channel::Receiver<String>,
}

/// Makes the command channel. It is unbounded, so that sending never waits.
pub fn command_channel() -> (ends: (ControlSender, Inbox)) {
    let (sender, receiver) = unbounded_messages();
    (ControlSender { sender }, Inbox { receiver })
}

impl ControlSender {
    /// Sends a command, as the message that stands for it. No command is
    /// lost on the way in: either the channel takes the message, or it comes
    /// back as the error, which happens once the inbox is gone.
    pub fn send(&self, command: &Command) -> (sent: Result<(), String>)
        ensures
            sent matches Err(undelivered) ==> undelivered@ == spec_encode(command@),
    {
        send_message(&self.sender, encode_command(command))
    }
}

impl Inbox {
    /// Takes the oldest waiting message out of the inbox, if there is one.
    /// Never waits.
    pub fn next_message(&self) -> (message: Option<String>) {
        try_receive(&self.receiver)
    }
}

} // verus!

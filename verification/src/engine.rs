use vstd::prelude::*;

verus! {

/// Command understood by a running OSC receiver.
pub enum OscReceiverCommand {
    Stop,
}

/// What polling a command channel gave.
pub enum CommandPoll<C> {
    /// No command is waiting.
    Empty,
    /// A command arrived.
    Received(C),
    /// Every sender of the channel is gone.
    Disconnected,
}

/// What a worker loop does after polling its command channel.
#[derive(Clone, Copy, Debug, PartialEq, Eq, Structural)]
pub enum LoopStep {
    /// Do one round of work.
    Work,
    /// Leave the loop.
    Stop,
    /// Do nothing this round and poll again.
    Idle,
}

/// Step of a network loop (OSC receiver, OSC sender): work while no command is
/// waiting, stop on a command, and keep polling once the command channel is gone.
pub fn listener_step<C>(poll: CommandPoll<C>) -> (step: LoopStep)
    ensures
        step == match poll {
            CommandPoll::Empty => LoopStep::Work,
            CommandPoll::Received(_) => LoopStep::Stop,
            CommandPoll::Disconnected => LoopStep::Idle,
        },
{
    match poll {
        CommandPoll::Empty => LoopStep::Work,
        CommandPoll::Received(_) => LoopStep::Stop,
        CommandPoll::Disconnected => LoopStep::Idle,
    }
}

/// Step of a synthesis loop: render while no command is waiting, and stop on a
/// command or once the command channel is gone.
pub fn synth_step<C>(poll: CommandPoll<C>) -> (step: LoopStep)
    ensures
        step == match poll {
            CommandPoll::Empty => LoopStep::Work,
            _ => LoopStep::Stop,
        },
{
    match poll {
        CommandPoll::Empty => LoopStep::Work,
        _ => LoopStep::Stop,
    }
}

/// Error of starting an OSC receiver.
#[derive(Debug)]
pub enum OscReceiverError {
    /// The listening address is not an IPv4 socket address.
    NotAValidAddress(String),
}

/// Error of starting the OSC sender of the granular sampler.
#[derive(Debug)]
pub enum GranularOscSenderError {
    /// One of the two addresses is not an IPv4 socket address.
    NotAValidAddress(String),
}

/// Outcome of checking the listening address of an OSC receiver, given whether it
/// parses as an IPv4 socket address.
pub fn check_listen_address(address: &String, parses: bool) -> (r: Result<(), OscReceiverError>)
    ensures
        parses ==> r is Ok,
        !parses ==> (r matches Err(OscReceiverError::NotAValidAddress(a)) && a@ == address@),
{
    if parses {
        Ok(())
    } else {
        Err(OscReceiverError::NotAValidAddress(address.clone()))
    }
}

/// Outcome of checking the local and remote addresses of the OSC sender, given
/// whether each parses as an IPv4 socket address; the local one is checked first.
pub fn check_sender_addresses(
    local: &String,
    local_parses: bool,
    remote: &String,
    remote_parses: bool,
) -> (r: Result<(), GranularOscSenderError>)
    ensures
        local_parses && remote_parses ==> r is Ok,
        !local_parses ==> (r matches Err(GranularOscSenderError::NotAValidAddress(a)) && a@ == local@),
        local_parses && !remote_parses ==> (r matches Err(GranularOscSenderError::NotAValidAddress(a))
            && a@ == remote@),
{
    if !local_parses {
        Err(GranularOscSenderError::NotAValidAddress(local.clone()))
    } else if !remote_parses {
        Err(GranularOscSenderError::NotAValidAddress(remote.clone()))
    } else {
        Ok(())
    }
}

} // verus!

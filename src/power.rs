//! The two power options and the privileged calls behind them.
use vstd::prelude::*;
use vstd::string::*;
use nix::errno::Errno;
use nix::sys::reboot::RebootMode;

verus! {

#[verifier::external_type_specification]
#[verifier::external_body]
pub struct ExErrno(Errno);

/// The power options offered in `Power` mode, in display order.
#[derive(PartialEq, Eq, Structural, Clone, Copy, Debug)]
pub enum PowerOption {
    Shutdown,
    Reboot,
}

/// The privileged system operations behind the power options.
#[derive(PartialEq, Eq, Structural, Clone, Copy, Debug)]
pub enum PowerCall {
    /// Restart the machine.
    Restart,
    /// Stop the machine and switch off power.
    PowerOff,
}

/// The option shown at `index`.
pub open spec fn option_at(index: int) -> PowerOption {
    if index == 0 {
        PowerOption::Shutdown
    } else {
        PowerOption::Reboot
    }
}

/// The call made for an option. Note that "Shutdown" restarts the machine and
/// "Reboot" powers it off; this pairing is kept as the greeter has always
/// behaved, and is worth confirming before it is changed.
pub open spec fn call_for(option: PowerOption) -> PowerCall {
    match option {
        PowerOption::Shutdown => PowerCall::Restart,
        PowerOption::Reboot => PowerCall::PowerOff,
    }
}

pub fn power_option(index: usize) -> (o: PowerOption)
    requires
        index < crate::greeter::POWER_OPTION_COUNT,
    ensures
        o == option_at(index as int),
{
    if index == 0 {
        PowerOption::Shutdown
    } else {
        PowerOption::Reboot
    }
}

pub fn power_call(option: PowerOption) -> (c: PowerCall)
    ensures
        c == call_for(option),
{
    match option {
        PowerOption::Shutdown => PowerCall::Restart,
        PowerOption::Reboot => PowerCall::PowerOff,
    }
}

/// Why a power action failed, in words.
pub struct PowerError {
    pub description: String,
}

/// Performs the privileged power operations. The system's implementation is
/// [`SystemPower`]; a test may supply one that records the calls instead.
pub trait PowerControl {
    fn perform(&mut self, call: PowerCall) -> Result<(), PowerError>;
}

/// Power control through the kernel's reboot system call.
pub struct SystemPower;

/// Relies on nix::sys::reboot::reboot: it returns only when the call failed,
/// with the error number.
#[verifier::external_body]
fn reboot(call: PowerCall) -> (r: Result<(), Errno>)
    ensures
        r is Err,
{
    let how = match call {
        PowerCall::Restart => RebootMode::RB_AUTOBOOT,
        PowerCall::PowerOff => RebootMode::RB_POWER_OFF,
    };
    nix::sys::reboot::reboot(how).map(|_| ())
}

/// Relies on the `Display` impl of nix's `Errno`: the error's name and description.
#[verifier::external_body]
fn describe(e: Errno) -> String {
    e.to_string()
}

impl PowerControl for SystemPower {
    fn perform(&mut self, call: PowerCall) -> Result<(), PowerError> {
        match reboot(call) {
            Ok(()) => Ok(()),
            Err(e) => Err(PowerError { description: describe(e) }),
        }
    }
}

/// The text that opens the message of a failed power action.
pub open spec fn failure_prefix() -> Seq<char> {
    "Failed to perform power action: "@
}

/// The message shown when a power action failed.
pub open spec fn failure_message(description: Seq<char>) -> Seq<char> {
    failure_prefix() + description
}

pub fn power_failure_message(e: &PowerError) -> (r: String)
    ensures
        r@ == failure_message(e.description@),
        r@.len() > 0,
{
    let mut r = String::from_str("Failed to perform power action: ");
    r.append(e.description.as_str());
    proof {
        reveal_strlit("Failed to perform power action: ");
    }
    r
}

} // verus!

//! Who may use the host's shells.
//!
//! Commands share: any number of them may be waiting or running, one behind
//! the other. A console is alone. On a host with one shell the two exclude each
//! other; on a host with two they do not.

use vstd::prelude::*;

verus! {

/// Who holds the shell side of the host.
#[derive(Debug, Clone, Copy, PartialEq, Eq, Structural)]
pub enum ShellOwner {
    Idle,
    Exec,
    Interactive,
}

/// The claims that are held.
#[derive(Debug, PartialEq, Eq, Structural)]
pub struct ShellChannel {
    /// Commands that run or wait.
    pub execs: u32,
    /// A console is open.
    pub interactive: bool,
}

impl ShellChannel {
    /// Whether a claim is granted. `dual` says that the host has a shell for
    /// consoles.
    pub open spec fn grants(self, who: ShellOwner, dual: bool) -> bool {
        match who {
            ShellOwner::Idle => false,
            ShellOwner::Exec => (dual || !self.interactive) && self.execs < u32::MAX,
            ShellOwner::Interactive => !self.interactive && (dual || self.execs == 0),
        }
    }

    /// The claims with one more.
    pub open spec fn claimed(self, who: ShellOwner) -> ShellChannel {
        match who {
            ShellOwner::Idle => self,
            ShellOwner::Exec => ShellChannel { execs: (self.execs + 1) as u32, ..self },
            ShellOwner::Interactive => ShellChannel { interactive: true, ..self },
        }
    }

    /// The claims with one less.
    pub open spec fn released(self, who: ShellOwner) -> ShellChannel {
        match who {
            ShellOwner::Idle => self,
            ShellOwner::Exec => ShellChannel { execs: self.execs.saturating_sub(1), ..self },
            ShellOwner::Interactive => ShellChannel { interactive: false, ..self },
        }
    }

    pub fn new() -> (r: ShellChannel)
        ensures
            r == (ShellChannel { execs: 0, interactive: false }),
    {
        ShellChannel { execs: 0, interactive: false }
    }

    /// Claims the shell side, at once or not at all.
    pub fn try_acquire(&mut self, who: ShellOwner, dual: bool) -> (r: bool)
        ensures
            r == old(self).grants(who, dual),
            *final(self) == (if r {
                old(self).claimed(who)
            } else {
                *old(self)
            }),
    {
        match who {
            ShellOwner::Idle => false,
            ShellOwner::Exec => {
                if (dual || !self.interactive) && self.execs < u32::MAX {
                    self.execs = self.execs + 1;
                    true
                } else {
                    false
                }
            },
            ShellOwner::Interactive => {
                if !self.interactive && (dual || self.execs == 0) {
                    self.interactive = true;
                    true
                } else {
                    false
                }
            },
        }
    }

    /// Gives a claim back.
    pub fn release(&mut self, who: ShellOwner)
        ensures
            *final(self) == old(self).released(who),
    {
        match who {
            ShellOwner::Idle => {},
            ShellOwner::Exec => {
                self.execs = self.execs.saturating_sub(1);
            },
            ShellOwner::Interactive => {
                self.interactive = false;
            },
        }
    }

    /// Who holds the shell side; a console counts before commands.
    pub fn current_owner(&self) -> (r: ShellOwner)
        ensures
            r == (if self.interactive {
                ShellOwner::Interactive
            } else if self.execs > 0 {
                ShellOwner::Exec
            } else {
                ShellOwner::Idle
            }),
    {
        if self.interactive {
            ShellOwner::Interactive
        } else if self.execs > 0 {
            ShellOwner::Exec
        } else {
            ShellOwner::Idle
        }
    }
}

/// There is never a second console, whatever the host can do.
pub proof fn law_one_console_at_a_time(channel: ShellChannel, dual: bool)
    requires
        channel.interactive,
    ensures
        !channel.grants(ShellOwner::Interactive, dual),
{
}

/// On a host with one shell, console and commands exclude each other.
pub proof fn law_legacy_host_serves_one_kind(channel: ShellChannel)
    ensures
        channel.interactive ==> !channel.grants(ShellOwner::Exec, false),
        channel.execs > 0 ==> !channel.grants(ShellOwner::Interactive, false),
{
}

/// On a host with two shells, a console does not keep commands out, nor they
/// it.
pub proof fn law_dual_host_serves_both_kinds(channel: ShellChannel)
    ensures
        channel.execs < u32::MAX ==> channel.grants(ShellOwner::Exec, true),
        !channel.interactive ==> channel.grants(ShellOwner::Interactive, true),
{
}

/// A claim that is given back leaves the channel as it was: it can be claimed
/// again.
pub proof fn law_released_claim_leaves_no_trace(channel: ShellChannel, who: ShellOwner, dual: bool)
    requires
        channel.grants(who, dual),
    ensures
        channel.claimed(who).released(who) == channel,
        channel.claimed(who).released(who).grants(who, dual),
{
}

/// While a command waits or runs on a host with one shell no console slips in,
/// also not when another command ends.
pub proof fn law_waiting_command_keeps_consoles_out(channel: ShellChannel)
    requires
        channel.execs >= 2,
    ensures
        !channel.released(ShellOwner::Exec).grants(ShellOwner::Interactive, false),
{
}

/// A claim is granted at once where nobody is in the way: a command where there
/// is no console, or the host has a shell for each; a console where there is no
/// other, and no command or a shell for each. A refusal changes nothing.
pub proof fn law_free_shell_is_granted(
    channel: &mut ShellChannel,
    who: ShellOwner,
    dual: bool,
    granted: bool,
)
    requires
        call_ensures(ShellChannel::try_acquire, (channel, who, dual), granted),
    ensures
        who == ShellOwner::Exec && !old(channel).interactive && old(channel).execs < u32::MAX
            ==> granted,
        who == ShellOwner::Exec && dual && old(channel).execs < u32::MAX ==> granted,
        who == ShellOwner::Interactive && !old(channel).interactive && old(channel).execs == 0
            ==> granted,
        who == ShellOwner::Interactive && !old(channel).interactive && dual ==> granted,
        who == ShellOwner::Exec && old(channel).interactive && !dual ==> !granted,
        who == ShellOwner::Interactive && old(channel).interactive ==> !granted,
        who == ShellOwner::Interactive && old(channel).execs > 0 && !dual ==> !granted,
        who == ShellOwner::Idle ==> !granted,
        !granted ==> *final(channel) == *old(channel),
        granted && who == ShellOwner::Exec ==> final(channel).execs == old(channel).execs + 1
            && final(channel).interactive == old(channel).interactive,
        granted && who == ShellOwner::Interactive ==> final(channel).interactive && final(channel).execs == old(channel).execs,
        granted == old(channel).grants(who, dual),
{
}

/// Giving a claim back ends that claim and no other.
pub proof fn law_release_ends_one_claim(channel: &mut ShellChannel, who: ShellOwner)
    requires
        call_ensures(ShellChannel::release, (channel, who), ()),
    ensures
        who == ShellOwner::Exec && old(channel).execs > 0 ==> final(channel).execs == old(channel).execs - 1,
        who == ShellOwner::Exec && old(channel).execs == 0 ==> final(channel).execs == 0,
        who == ShellOwner::Exec ==> final(channel).interactive == old(channel).interactive,
        who == ShellOwner::Interactive ==> !final(channel).interactive && final(channel).execs
            == old(channel).execs,
        who == ShellOwner::Idle ==> *final(channel) == *old(channel),
{
}

/// A console is named as the owner before commands, and nobody where nobody
/// holds anything.
pub proof fn law_owner_is_who_holds_a_claim(channel: ShellChannel, who: ShellOwner)
    requires
        call_ensures(ShellChannel::current_owner, (&channel,), who),
    ensures
        who == ShellOwner::Interactive <==> channel.interactive,
        who == ShellOwner::Exec <==> !channel.interactive && channel.execs > 0,
        who == ShellOwner::Idle <==> !channel.interactive && channel.execs == 0,
{
}

} // verus!

//! What the window shows, and what the user does there.
//!
//! Drawing, and everything that the window toolkit does, is not done here.

pub mod settings;
pub mod shell_pane;
pub mod window;

use vstd::prelude::*;
use vstd::string::*;

use crate::text::{decimal, push_decimal};

verus! {

/// Whether there is a host.
#[derive(Debug, Clone, Copy, PartialEq, Eq, Structural)]
pub enum ConnectionState {
    Disconnected,
    Connecting,
    Connected,
}

impl ConnectionState {
    /// The state in words.
    pub open spec fn words(self) -> Seq<char> {
        match self {
            ConnectionState::Disconnected => "Not connected"@,
            ConnectionState::Connecting => "Connecting…"@,
            ConnectionState::Connected => "Connected"@,
        }
    }

    /// The state in words.
    pub fn to_text(&self) -> (r: String)
        ensures
            r@ == self.words(),
    {
        match self {
            ConnectionState::Disconnected => "Not connected".to_owned(),
            ConnectionState::Connecting => "Connecting…".to_owned(),
            ConnectionState::Connected => "Connected".to_owned(),
        }
    }
}

/// What the link tells the window.
#[derive(Debug, Clone, PartialEq, Eq)]
pub enum TransportEvent {
    Connected { host_name: String, screen_w: u16, screen_h: u16 },
    Disconnected(String),
    /// The link is being opened again, for the `attempt`th time.
    Reconnecting { attempt: u32 },
    ClipboardFromHost(String),
    Heartbeat,
    ShellOutput(Vec<u8>),
    ShellExit(i32),
    ShellError(String),
    /// A notice to show for a moment.
    Toast(String),
}

/// `TransportEvent` as a mathematical value.
#[verifier::ext_equal]
pub enum LinkEvent {
    Connected { host_name: Seq<char>, screen_w: u16, screen_h: u16 },
    Disconnected(Seq<char>),
    Reconnecting { attempt: u32 },
    ClipboardFromHost(Seq<char>),
    Heartbeat,
    ShellOutput(Seq<u8>),
    ShellExit(i32),
    ShellError(Seq<char>),
    Toast(Seq<char>),
}

impl View for TransportEvent {
    type V = LinkEvent;

    open spec fn view(&self) -> LinkEvent {
        match *self {
            TransportEvent::Connected { host_name, screen_w, screen_h } => LinkEvent::Connected {
                host_name: host_name@,
                screen_w,
                screen_h,
            },
            TransportEvent::Disconnected(reason) => LinkEvent::Disconnected(reason@),
            TransportEvent::Reconnecting { attempt } => LinkEvent::Reconnecting { attempt },
            TransportEvent::ClipboardFromHost(text) => LinkEvent::ClipboardFromHost(text@),
            TransportEvent::Heartbeat => LinkEvent::Heartbeat,
            TransportEvent::ShellOutput(data) => LinkEvent::ShellOutput(data@),
            TransportEvent::ShellExit(code) => LinkEvent::ShellExit(code),
            TransportEvent::ShellError(msg) => LinkEvent::ShellError(msg@),
            TransportEvent::Toast(msg) => LinkEvent::Toast(msg@),
        }
    }
}

/// `a`, or `b` where that is less.
pub open spec fn lesser(a: u64, b: u64) -> u64 {
    if a <= b {
        a
    } else {
        b
    }
}

/// How far a transfer is, in words: in bytes where it is short, else in
/// kilobytes, and in percent. Nothing where there is none.
pub open spec fn progress_words(action: Seq<char>, current: u64, total: u64) -> Option<Seq<char>> {
    let cur = lesser(current, total) as nat;
    let all = total as nat;
    let (shown, of, unit) = if total < 1024 {
        (cur, all, " B ("@)
    } else {
        (cur / 1024, all / 1024, " KB ("@)
    };
    if total == 0 {
        None
    } else {
        Some(
            action + " — "@ + decimal(shown) + "/"@ + decimal(of) + unit + decimal(cur * 100 / all)
                + "%)"@,
        )
    }
}

/// How far a transfer is, in words.
pub fn format_progress(action: &str, current: u64, total: u64) -> (r: Option<String>)
    requires
        lesser(current, total) * 100 <= u64::MAX,
    ensures
        match progress_words(action@, current, total) {
            Some(words) => r matches Some(s) && s@ == words,
            None => r is None,
        },
{
    if total == 0 {
        return None;
    }
    let cur: u64 = if current <= total {
        current
    } else {
        total
    };
    let pct: u64 = (cur * 100) / total;
    let mut out = action.to_owned();
    out.append(" — ");
    if total < 1024 {
        push_decimal(&mut out, cur);
        out.append("/");
        push_decimal(&mut out, total);
        out.append(" B (");
    } else {
        push_decimal(&mut out, cur / 1024);
        out.append("/");
        push_decimal(&mut out, total / 1024);
        out.append(" KB (");
    }
    push_decimal(&mut out, pct);
    out.append("%)");
    Some(out)
}

/// The percentage that is shown is never more than a hundred, and is a hundred
/// exactly when everything has arrived.
pub proof fn law_progress_ends_at_a_hundred(current: u64, total: u64)
    requires
        total > 0,
    ensures
        lesser(current, total) * 100 / total as int <= 100,
        lesser(current, total) * 100 / total as int == 100 <==> current >= total,
{
    let cur = lesser(current, total) as int;
    let all = total as int;
    assert(cur * 100 / all <= 100) by (nonlinear_arith)
        requires
            0 <= cur <= all,
            all > 0,
    ;
    if cur == all {
        assert(all * 100 / all == 100) by (nonlinear_arith)
            requires
                all > 0,
        ;
    } else {
        assert(cur * 100 / all < 100) by (nonlinear_arith)
            requires
                0 <= cur < all,
                all > 0,
        ;
    }
}

/// What the user has to do before the keyboard can be taken over on a Mac.
pub fn permission_steps() -> (r: [&'static str; 4])
    ensures
        r[0]@ == "Open System Settings → Privacy & Security → Accessibility."@,
        r[1]@ == "Click \"+\" and add the wiredesk-client binary."@,
        r[2]@ == "Toggle the switch ON for wiredesk-client."@,
        r[3]@ == "Restart WireDesk — required: the tap thread is created at startup."@,
{
    [
        "Open System Settings → Privacy & Security → Accessibility.",
        "Click \"+\" and add the wiredesk-client binary.",
        "Toggle the switch ON for wiredesk-client.",
        "Restart WireDesk — required: the tap thread is created at startup.",
    ]
}

/// A transfer is shown by what has gone of it and all of it, in bytes below a
/// kilobyte and in kilobytes else, and in percent; more than all of it is never
/// shown. Where there is none nothing is shown.
pub proof fn law_progress_is_shown(action: &str, current: u64, total: u64, r: Option<String>)
    requires
        call_ensures(format_progress, (action, current, total), r),
    ensures
        r is None <==> total == 0,
        r matches Some(words) ==> {
            let gone = (if current <= total {
                current as int
            } else {
                total as int
            });
            let unit = if total < 1024 {
                1int
            } else {
                1024
            };
            &&& words@ == action@ + " — "@ + decimal((gone / unit) as nat) + "/"@ + decimal(
                (total as int / unit) as nat,
            ) + (if total < 1024 {
                " B ("@
            } else {
                " KB ("@
            }) + decimal((gone * 100 / total as int) as nat) + "%)"@
        },
{
}

/// Each state of the connection has words of its own.
pub proof fn law_states_are_told_apart(a: ConnectionState, b: ConnectionState, x: String, y: String)
    requires
        call_ensures(ConnectionState::to_text, (&a,), x),
        call_ensures(ConnectionState::to_text, (&b,), y),
    ensures
        x@ == y@ <==> a == b,
        a == ConnectionState::Connected ==> x@ == "Connected"@,
{
    reveal_strlit("Not connected");
    reveal_strlit("Connecting…");
    reveal_strlit("Connected");
    assert("Not connected"@[0] == 'N');
    assert("Connecting…"@[0] == 'C');
    assert("Connected"@[0] == 'C');
    assert("Connecting…"@[7] == 'i');
    assert("Connected"@[7] == 'e');
}

} // verus!

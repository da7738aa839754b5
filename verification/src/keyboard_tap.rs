//! Taking over the keyboard while input is captured.
//!
//! The operating system hands every key event to the tap before anything else
//! sees it. While capture is on, events go to the host; the hotkeys that turn
//! capture and fullscreen on and off stay here. How the system delivers the
//! events, and what it does with the answer, is not this module's business.

pub mod mac;
pub mod win_hook;
pub mod win_keys;

use vstd::prelude::*;

use crate::input::keymap::{
    CG_FLAG_ALT, CG_FLAG_COMMAND, CG_FLAG_CONTROL, CG_FLAG_SHIFT, cg_flag_change_to_scancodes,
    cg_flag_change_to_scancodes_swapped, flag_set, held_modifiers, held_modifiers_swapped,
    key_events, law_changes_reach_the_flags, law_swapped_changes_reach_the_flags,
    modifier_changes, swapped_modifier_changes,
};
use crate::keyboard_tap::win_hook::HookState;
use crate::protocol::{Message, MessageView, Packet, PacketView, packet_views, unnumbered};

verus! {

/// Mac key codes of the hotkeys.
pub const CG_KEY_RETURN: u16 = 0x24;

pub const CG_KEY_ESCAPE: u16 = 0x35;

pub const CG_KEY_V: u16 = 0x09;

/// All modifiers that matter to a hotkey.
pub const CG_MODIFIER_MASK: u64 = CG_FLAG_COMMAND | CG_FLAG_CONTROL | CG_FLAG_ALT | CG_FLAG_SHIFT;

/// Command and no other modifier.
pub open spec fn only_command(flags: u64) -> bool {
    flag_set(flags, CG_FLAG_COMMAND) && !flag_set(flags, CG_FLAG_CONTROL) && !flag_set(flags, CG_FLAG_ALT) && !flag_set(
        flags,
        CG_FLAG_SHIFT,
    )
}

/// Option and no other modifier.
pub open spec fn only_option(flags: u64) -> bool {
    flag_set(flags, CG_FLAG_ALT) && !flag_set(flags, CG_FLAG_CONTROL) && !flag_set(flags, CG_FLAG_COMMAND) && !flag_set(
        flags,
        CG_FLAG_SHIFT,
    )
}

/// The modifier of the hotkeys: Command alone, or, with the two exchanged on
/// some keyboards, Option alone.
pub open spec fn hotkey_modifier(flags: u64, swap: bool) -> bool {
    only_command(flags) || swap && only_option(flags)
}

/// True of Command without any other modifier; with `swap` of Option alone too.
pub fn matches_cmd_only(flags: u64, swap: bool) -> (r: bool)
    ensures
        r == hotkey_modifier(flags, swap),
{
    let masked: u64 = flags & CG_MODIFIER_MASK;
    assert((masked == CG_FLAG_COMMAND) == only_command(flags)) by (bit_vector)
        requires
            masked == flags & CG_MODIFIER_MASK,
    ;
    assert((masked == CG_FLAG_ALT) == only_option(flags)) by (bit_vector)
        requires
            masked == flags & CG_MODIFIER_MASK,
    ;
    if swap {
        masked == CG_FLAG_COMMAND || masked == CG_FLAG_ALT
    } else {
        masked == CG_FLAG_COMMAND
    }
}

/// True of the hotkey that toggles fullscreen: Command and Return.
pub fn is_cmd_enter(keycode: u16, flags: u64, swap: bool) -> (r: bool)
    ensures
        r == (keycode == CG_KEY_RETURN && hotkey_modifier(flags, swap)),
{
    keycode == CG_KEY_RETURN && matches_cmd_only(flags, swap)
}

/// True of a paste that a program asked for: Command and V, whatever else is
/// held.
pub fn is_synthetic_paste(keycode: u16, flags: u64) -> (r: bool)
    ensures
        r == (keycode == CG_KEY_V && flag_set(flags, CG_FLAG_COMMAND)),
{
    keycode == CG_KEY_V && flags & CG_FLAG_COMMAND != 0
}

/// True of the hotkey that turns capture on and off: Command and Escape.
pub fn is_release_capture(keycode: u16, flags: u64, swap: bool) -> (r: bool)
    ensures
        r == (keycode == CG_KEY_ESCAPE && hotkey_modifier(flags, swap)),
{
    keycode == CG_KEY_ESCAPE && matches_cmd_only(flags, swap)
}

/// What a hotkey asks of the window.
#[derive(Debug, Clone, Copy, PartialEq, Eq, Structural)]
pub enum TapEvent {
    /// Capture is on and is to end.
    ReleaseCapture,
    /// Capture is off and is to begin.
    EngageCapture,
    ToggleFullscreen,
}

/// The system that the client runs on.
#[derive(Debug, Clone, Copy, PartialEq, Eq, Structural)]
pub enum Platform {
    MacOs,
    Windows,
    Other,
}

/// The message of a key going down.
pub open spec fn key_down(scancode: u16) -> PacketView {
    unnumbered(MessageView::KeyDown { scancode, modifiers: 0 })
}

/// The message of a key going up.
pub open spec fn key_up(scancode: u16) -> PacketView {
    unnumbered(MessageView::KeyUp { scancode, modifiers: 0 })
}

/// The messages of a sequence of key events.
pub open spec fn key_packets(events: Seq<(u16, bool)>) -> Seq<PacketView> {
    Seq::new(
        events.len(),
        |i: int|
            if events[i].1 {
                key_down(events[i].0)
            } else {
                key_up(events[i].0)
            },
    )
}

/// Queues the message of a key event.
pub(crate) fn push_key(out: &mut Vec<Packet>, scancode: u16, pressed: bool)
    ensures
        packet_views(final(out)@) == packet_views(old(out)@).push(
            if pressed {
                key_down(scancode)
            } else {
                key_up(scancode)
            },
        ),
{
    let message = if pressed {
        Message::KeyDown { scancode, modifiers: 0 }
    } else {
        Message::KeyUp { scancode, modifiers: 0 }
    };
    out.push(Packet::new(message, 0));
    assert(packet_views(out@) =~= packet_views(old(out)@).push(out@.last()@));
}

/// Queues the messages of a sequence of key events.
pub(crate) fn push_keys(out: &mut Vec<Packet>, events: &Vec<(u16, bool)>)
    ensures
        packet_views(final(out)@) == packet_views(old(out)@) + key_packets(events@),
{
    let n: usize = events.len();
    let mut i: usize = 0;
    let ghost before = packet_views(out@);
    assert(before + key_packets(events@).take(0) =~= before);
    while i < n
        invariant
            n == events@.len(),
            i <= n,
            packet_views(out@) == before + key_packets(events@).take(i as int),
        decreases n - i,
    {
        let (scancode, pressed) = events[i];
        push_key(out, scancode, pressed);
        i = i + 1;
        assert(packet_views(out@) =~= before + key_packets(events@).take(i as int));
    }
    assert(key_packets(events@).take(n as int) =~= key_packets(events@));
}

/// The tap: whether it takes events, and what it must not forget.
#[derive(Debug)]
pub struct TapHandle {
    pub platform: Platform,
    /// Events go to the host.
    pub enabled: bool,
    /// Only the hotkeys are watched for.
    pub passive: bool,
    /// Command and Option are exchanged on some keyboards.
    pub swap_om_cmd: bool,
    /// The modifier flags of the last change (Mac).
    pub prev_flags: u64,
    /// The keys that are down on the host (Windows).
    pub hook: HookState,
    /// The system delivers events.
    pub running: bool,
    /// The tap waits for a permission and can start later.
    pub late: bool,
}

/// Sets the tap up. On a Mac it runs only with the user's permission and
/// otherwise waits for it; on Windows only where the hook was installed;
/// elsewhere never. It takes no events yet.
pub fn start(
    platform: Platform,
    permission_granted: bool,
    hook_installed: bool,
    swap_om_cmd: bool,
) -> (r: TapHandle)
    ensures
        r.platform == platform,
        !r.enabled,
        !r.passive,
        r.swap_om_cmd == swap_om_cmd,
        r.prev_flags == 0,
        r.hook.held@ == Set::<u16>::empty(),
        r.hook.hotkey_down@ == Set::<u32>::empty(),
        r.running == (platform == Platform::MacOs && permission_granted || platform
            == Platform::Windows && hook_installed),
        r.late == (platform == Platform::MacOs && !permission_granted),
{
    TapHandle {
        platform,
        enabled: false,
        passive: false,
        swap_om_cmd,
        prev_flags: 0,
        hook: HookState::new(),
        running: platform == Platform::MacOs && permission_granted || platform == Platform::Windows
            && hook_installed,
        late: platform == Platform::MacOs && !permission_granted,
    }
}

/// Whether the user's permission is needed for the tap on this platform. Where
/// it is not, it counts as granted.
pub fn permission_needed(platform: Platform) -> (r: bool)
    ensures
        r == (platform == Platform::MacOs),
{
    platform == Platform::MacOs
}

/// The messages that release the modifiers which `prev` holds.
pub open spec fn release_modifiers(prev: u64, swap: bool) -> Seq<PacketView> {
    key_packets(
        if swap {
            swapped_modifier_changes(0, prev)
        } else {
            modifier_changes(0, prev)
        },
    )
}

impl TapHandle {
    /// Everything but the two mode switches is as in `other`.
    pub open spec fn same_but_mode(self, other: TapHandle) -> bool {
        &&& self.platform == other.platform
        &&& self.swap_om_cmd == other.swap_om_cmd
        &&& self.prev_flags == other.prev_flags
        &&& self.hook == other.hook
        &&& self.running == other.running
        &&& self.late == other.late
    }

    /// This tap is `before`, disabled, and what was queued then released what
    /// the host still had down: modifiers on a Mac, every forwarded key on
    /// Windows.
    pub open spec fn disabled_from(
        self,
        before: TapHandle,
        queued: Seq<PacketView>,
        queue: Seq<PacketView>,
    ) -> bool {
        &&& !self.enabled
        &&& !self.passive
        &&& self.platform == before.platform
        &&& self.swap_om_cmd == before.swap_om_cmd
        &&& self.running == before.running
        &&& self.late == before.late
        &&& match before.platform {
            Platform::MacOs => {
                &&& self.prev_flags == 0
                &&& self.hook == before.hook
                &&& queue == queued + release_modifiers(before.prev_flags, before.swap_om_cmd)
            },
            Platform::Windows => {
                &&& self.prev_flags == before.prev_flags
                &&& self.hook.held@ == Set::<u16>::empty()
                &&& self.hook.hotkey_down@ == before.hook.hotkey_down@
                &&& exists|keys: Seq<u16>|
                    #![trigger keys.to_set()]
                    {
                        &&& keys.to_set() == before.hook.held@
                        &&& win_hook::ascending(keys)
                        &&& queue == queued + win_hook::releases(keys)
                    }
            },
            Platform::Other => {
                &&& self.prev_flags == before.prev_flags
                &&& self.hook == before.hook
                &&& queue == queued
            },
        }
    }

    /// Starts a tap that waited for the permission. Returns whether the tap
    /// runs.
    pub fn try_start_late(&mut self, permission_granted: bool) -> (r: bool)
        ensures
            r == (old(self).running || permission_granted && old(self).late),
            final(self).running == r,
            final(self).late == (old(self).late && (old(self).running || !permission_granted)),
            final(self).enabled == old(self).enabled,
            final(self).passive == old(self).passive,
            final(self).platform == old(self).platform,
            final(self).swap_om_cmd == old(self).swap_om_cmd,
            final(self).prev_flags == old(self).prev_flags,
            final(self).hook == old(self).hook,
    {
        if self.running {
            return true;
        }
        if !permission_granted {
            return false;
        }
        if !self.late {
            return false;
        }
        self.late = false;
        self.running = true;
        true
    }

    /// Events go to the host from now on.
    pub fn enable(&mut self)
        ensures
            final(self).enabled,
            !final(self).passive,
            final(self).same_but_mode(*old(self)),
    {
        self.passive = false;
        self.enabled = true;
    }

    /// Only the hotkeys are watched for from now on.
    pub fn enable_passive(&mut self)
        ensures
            !final(self).enabled,
            final(self).passive,
            final(self).same_but_mode(*old(self)),
    {
        self.enabled = false;
        self.passive = true;
    }

    pub fn is_passive(&self) -> (r: bool)
        ensures
            r == self.passive,
    {
        self.passive
    }

    /// Leaves the keyboard to this machine. What the host still has down is
    /// released: modifiers on a Mac, every forwarded key on Windows.
    pub fn disable(&mut self, out: &mut Vec<Packet>)
        ensures
            final(self).disabled_from(
                *old(self),
                packet_views(old(out)@),
                packet_views(final(out)@),
            ),
    {
        self.enabled = false;
        self.passive = false;
        match self.platform {
            Platform::MacOs => {
                let prev: u64 = self.prev_flags;
                self.prev_flags = 0;
                let pairs = if self.swap_om_cmd {
                    cg_flag_change_to_scancodes_swapped(0, prev)
                } else {
                    cg_flag_change_to_scancodes(0, prev)
                };
                push_keys(out, &pairs);
            },
            Platform::Windows => {
                self.hook.release_held_keys(out);
            },
            Platform::Other => {},
        }
    }

    pub fn is_enabled(&self) -> (r: bool)
        ensures
            r == self.enabled,
    {
        self.enabled
    }

    /// Whether the system delivers events to the tap. The window then leaves
    /// the keys to it.
    pub fn is_active(&self) -> (r: bool)
        ensures
            r == (self.platform != Platform::Other && self.running),
    {
        self.platform != Platform::Other && self.running
    }
}

/// The keys that are down on the host after packets.
pub open spec fn keys_down(down: Set<u16>, packets: Seq<PacketView>) -> Set<u16>
    decreases packets.len(),
{
    if packets.len() == 0 {
        down
    } else {
        let before = keys_down(down, packets.drop_last());
        match packets.last().message {
            MessageView::KeyDown { scancode, modifiers: _ } => before.insert(scancode),
            MessageView::KeyUp { scancode, modifiers: _ } => before.remove(scancode),
            _ => before,
        }
    }
}

/// The modifier keys that the host has down where the flags were `flags` at the
/// last change.
pub open spec fn host_modifiers(flags: u64, swap: bool) -> Set<u16> {
    if swap {
        held_modifiers_swapped(flags)
    } else {
        held_modifiers(flags)
    }
}

pub(crate) proof fn lemma_keys_down_of_events(down: Set<u16>, events: Seq<(u16, bool)>)
    ensures
        keys_down(down, key_packets(events)) == key_events(down, events),
    decreases events.len(),
{
    let packets = key_packets(events);
    if events.len() > 0 {
        assert(packets.drop_last() =~= key_packets(events.drop_last()));
        lemma_keys_down_of_events(down, events.drop_last());
    }
}

pub(crate) proof fn lemma_keys_down_add(down: Set<u16>, a: Seq<PacketView>, b: Seq<PacketView>)
    ensures
        keys_down(down, a + b) == keys_down(keys_down(down, a), b),
    decreases b.len(),
{
    if b.len() == 0 {
        assert(a + b =~= a);
    } else {
        assert((a + b).drop_last() =~= a + b.drop_last());
        assert((a + b).last() == b.last());
        lemma_keys_down_add(down, a, b.drop_last());
    }
}

/// No event is both hotkeys, and a keyboard on which Command and Option are
/// exchanged only adds to what counts as one.
pub proof fn law_hotkeys_do_not_overlap(keycode: u16, flags: u64, swap: bool)
    ensures
        keycode == CG_KEY_RETURN && hotkey_modifier(flags, swap) ==> keycode != CG_KEY_ESCAPE,
        hotkey_modifier(flags, false) ==> hotkey_modifier(flags, swap),
        !(only_command(flags) && only_option(flags)),
{
}

/// What is sent when the tap is disabled leaves no modifier down on the host,
/// and presses nothing.
pub proof fn law_disable_leaves_no_modifier_down(prev: u64, swap: bool)
    ensures
        keys_down(host_modifiers(prev, swap), release_modifiers(prev, swap)) == Set::<u16>::empty(),
        forall|i: int|
            0 <= i < release_modifiers(prev, swap).len() ==> (#[trigger] release_modifiers(
                prev,
                swap,
            )[i]).message is KeyUp,
{
    let events = if swap {
        swapped_modifier_changes(0, prev)
    } else {
        modifier_changes(0, prev)
    };
    lemma_keys_down_of_events(host_modifiers(prev, swap), events);
    if swap {
        law_swapped_changes_reach_the_flags(0, prev);
    } else {
        law_changes_reach_the_flags(0, prev);
    }
    assert(forall|f: u64| #[trigger] (0u64 & f) == 0) by (bit_vector);
    assert(host_modifiers(0, swap) =~= Set::empty());
}

/// The hotkeys' modifier is Command with none of Control, Option and Shift; on
/// an exchanged keyboard Option alone is one as well. Other flags do not matter.
pub proof fn law_hotkey_modifier_stands_alone(flags: u64, swap: bool)
    ensures
        hotkey_modifier(flags, false) <==> flags & 0x1E_0000 == 0x10_0000,
        hotkey_modifier(flags, true) <==> flags & 0x1E_0000 == 0x10_0000 || flags & 0x1E_0000
            == 0x8_0000,
{
    assert(only_command(flags) <==> flags & 0x1E_0000 == 0x10_0000) by (bit_vector);
    assert(only_option(flags) <==> flags & 0x1E_0000 == 0x8_0000) by (bit_vector);
}

/// Command and Return toggle fullscreen, Command and Escape capture; a paste
/// that a program asks for is Command and V, whatever else is held.
pub proof fn law_hotkeys_are_recognised(
    keycode: u16,
    flags: u64,
    swap: bool,
    fullscreen: bool,
    capture: bool,
    paste: bool,
)
    requires
        call_ensures(is_cmd_enter, (keycode, flags, swap), fullscreen),
        call_ensures(is_release_capture, (keycode, flags, swap), capture),
        call_ensures(is_synthetic_paste, (keycode, flags), paste),
    ensures
        fullscreen <==> keycode == 0x24 && (flags & 0x1E_0000 == 0x10_0000 || swap && flags
            & 0x1E_0000 == 0x8_0000),
        capture <==> keycode == 0x35 && (flags & 0x1E_0000 == 0x10_0000 || swap && flags & 0x1E_0000
            == 0x8_0000),
        paste <==> keycode == 0x09 && flags & 0x10_0000 != 0,
{
    law_hotkey_modifier_stands_alone(flags, swap);
}

/// The tap runs where the system lets it: on a Mac with the user's permission,
/// which it can wait for, on Windows with a hook. It takes nothing before it is
/// told to.
pub proof fn law_tap_starts_with_permission(
    platform: Platform,
    permission: bool,
    hook: bool,
    swap: bool,
    tap: TapHandle,
    active: bool,
)
    requires
        call_ensures(start, (platform, permission, hook, swap), tap),
        call_ensures(TapHandle::is_active, (&tap,), active),
    ensures
        platform == Platform::MacOs ==> active == permission && tap.late == !permission,
        platform == Platform::Windows ==> active == hook && !tap.late,
        platform == Platform::Other ==> !active && !tap.late,
        !tap.enabled && !tap.passive,
        tap.swap_om_cmd == swap,
        tap.prev_flags == 0,
        tap.hook.held@ == Set::<u16>::empty(),
{
}

/// A tap that waits for the permission starts once it is there, and not before;
/// one that runs goes on running.
pub proof fn law_late_tap_starts_once_permitted(tap: &mut TapHandle, permission: bool, runs: bool)
    requires
        call_ensures(TapHandle::try_start_late, (tap, permission), runs),
    ensures
        old(tap).running ==> runs,
        !old(tap).running && old(tap).late ==> runs == permission,
        !old(tap).running && !old(tap).late ==> !runs,
        final(tap).running == runs,
        final(tap).enabled == old(tap).enabled && final(tap).passive == old(tap).passive,
        final(tap).swap_om_cmd == old(tap).swap_om_cmd,
        final(tap).prev_flags == old(tap).prev_flags,
{
}

/// With capture on the tap takes the keys; standing by, it watches for hotkeys
/// alone. Neither forgets what the host has down.
pub proof fn law_tap_follows_the_mode(tap: &mut TapHandle)
    ensures
        call_ensures(TapHandle::enable, (tap,), ()) ==> {
            &&& final(tap).enabled && !final(tap).passive
            &&& final(tap).prev_flags == old(tap).prev_flags && final(tap).hook == old(tap).hook
            &&& final(tap).running == old(tap).running
            &&& final(tap).swap_om_cmd == old(tap).swap_om_cmd
        },
        call_ensures(TapHandle::enable_passive, (tap,), ()) ==> {
            &&& !final(tap).enabled && final(tap).passive
            &&& final(tap).prev_flags == old(tap).prev_flags && final(tap).hook == old(tap).hook
            &&& final(tap).running == old(tap).running
            &&& final(tap).swap_om_cmd == old(tap).swap_om_cmd
        },
{
}

/// A tap that is turned off leaves the host with no key down that it put down:
/// on a Mac no modifier, on Windows no key at all. It takes nothing afterwards,
/// and what was queued before stays queued.
pub proof fn law_disabled_tap_leaves_nothing_down(tap: &mut TapHandle, out: &mut Vec<Packet>)
    requires
        call_ensures(TapHandle::disable, (tap, out), ()),
    ensures
        !final(tap).enabled && !final(tap).passive,
        final(tap).running == old(tap).running,
        exists|more: Seq<PacketView>| #[trigger]
            (packet_views(old(out)@) + more) == packet_views(final(out)@) && match old(tap).platform {
                Platform::MacOs => keys_down(
                    host_modifiers(old(tap).prev_flags, old(tap).swap_om_cmd),
                    more,
                ) == Set::<u16>::empty() && final(tap).prev_flags == 0,
                Platform::Windows => keys_down(old(tap).hook.held@, more) == Set::<u16>::empty()
                    && final(tap).hook.held@ == Set::<u16>::empty(),
                Platform::Other => more.len() == 0,
            },
{
    let before = packet_views(old(out)@);
    match old(tap).platform {
        Platform::MacOs => {
            law_disable_leaves_no_modifier_down(old(tap).prev_flags, old(tap).swap_om_cmd);
            let more = release_modifiers(old(tap).prev_flags, old(tap).swap_om_cmd);
            assert((before + more) == packet_views(final(out)@));
        },
        Platform::Windows => {
            let keys = choose|keys: Seq<u16>|
                #![trigger keys.to_set()]
                {
                    &&& keys.to_set() == old(tap).hook.held@
                    &&& win_hook::ascending(keys)
                    &&& packet_views(final(out)@) == before + win_hook::releases(keys)
                };
            win_hook::law_release_leaves_nothing_down(old(tap).hook@, keys);
            let more = win_hook::releases(keys);
            assert((before + more) == packet_views(final(out)@));
        },
        Platform::Other => {
            let more = Seq::<PacketView>::empty();
            assert((before + more) =~= packet_views(final(out)@));
        },
    }
}

/// Only a Mac asks for the permission.
pub proof fn law_only_a_mac_asks(platform: Platform, needed: bool)
    requires
        call_ensures(permission_needed, (platform,), needed),
    ensures
        needed <==> platform == Platform::MacOs,
{
}

/// What the tap is asked for is what it is: its mode, and the modifier of its
/// hotkeys.
pub proof fn law_tap_says_what_it_does(
    tap: TapHandle,
    enabled: bool,
    passive: bool,
    flags: u64,
    swap: bool,
    hotkey: bool,
)
    requires
        call_ensures(TapHandle::is_enabled, (&tap,), enabled),
        call_ensures(TapHandle::is_passive, (&tap,), passive),
        call_ensures(matches_cmd_only, (flags, swap), hotkey),
    ensures
        enabled == tap.enabled && passive == tap.passive,
        hotkey <==> flags & 0x1E_0000 == 0x10_0000 || swap && flags & 0x1E_0000 == 0x8_0000,
{
    law_hotkey_modifier_stands_alone(flags, swap);
}

} // verus!

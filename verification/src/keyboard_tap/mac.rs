//! The tap on a Mac.
//!
//! Events come from the keyboard or from a program that types for the user (a
//! dictation tool, say). The latter are handed over as one combination, so that
//! a paste can wait for the clipboard to arrive first.

use vstd::prelude::*;

use crate::input::keymap::{
    CG_FLAG_ALT, CG_FLAG_COMMAND, CG_FLAG_SHIFT, WIN_SCAN_LALT, WIN_SCAN_LCTRL, WIN_SCAN_LSHIFT,
    cg_flag_change_to_scancodes, cg_flag_change_to_scancodes_swapped, cgkeycode_to_scancode,
    ctrl_held, edge, flag_set, held_modifiers, key_events, law_changes_reach_the_flags,
    law_swapped_changes_reach_the_flags, lemma_edge_events, mac_key, modifier_changes, scancode_of,
    swapped_modifier_changes,
};
use crate::keyboard_tap::{
    CG_KEY_ESCAPE, CG_KEY_RETURN, CG_KEY_V, TapEvent, TapHandle, host_modifiers, hotkey_modifier,
    is_cmd_enter, is_release_capture, is_synthetic_paste, key_down, key_packets, key_up, keys_down,
    law_hotkey_modifier_stands_alone, lemma_keys_down_add, lemma_keys_down_of_events, push_key,
    push_keys,
};
use crate::protocol::{MessageView, Packet, PacketView, packet_views};

verus! {

/// The source state of events that come from the keyboard.
pub const HID_SYSTEM_STATE_ID: i64 = 1;

/// Kinds of events that the tap is handed.
#[derive(Debug, Clone, Copy, PartialEq, Eq, Structural)]
pub enum MacEventKind {
    KeyDown,
    KeyUp,
    FlagsChanged,
    /// The system switched the tap off.
    TapDisabled,
    Other,
}

/// An event, with what the system says of it.
#[derive(Debug, Clone, Copy, PartialEq, Eq, Structural)]
pub struct MacEvent {
    pub kind: MacEventKind,
    pub keycode: u16,
    pub flags: u64,
    pub source_state_id: i64,
}

/// Whether this machine sees the event.
#[derive(Debug, Clone, Copy, PartialEq, Eq, Structural)]
pub enum Passage {
    Keep,
    Drop,
}

/// What becomes of an event.
#[derive(Debug, Clone, PartialEq, Eq)]
pub struct MacReaction {
    pub passage: Passage,
    /// The tap is to be switched on again.
    pub reenable: bool,
    pub event: Option<TapEvent>,
    /// Packets for the host.
    pub send: Vec<Packet>,
    /// Packets that belong together and wait for the clipboard; empty where
    /// there are none.
    pub combo: Vec<Packet>,
    /// The clipboard is to be looked at now.
    pub kick: bool,
}

/// What becomes of an event, as a mathematical value.
#[verifier::ext_equal]
pub struct MacAnswer {
    pub passage: Passage,
    pub reenable: bool,
    pub event: Option<TapEvent>,
    pub send: Seq<PacketView>,
    pub combo: Seq<PacketView>,
    pub kick: bool,
}

impl View for MacReaction {
    type V = MacAnswer;

    open spec fn view(&self) -> MacAnswer {
        MacAnswer {
            passage: self.passage,
            reenable: self.reenable,
            event: self.event,
            send: packet_views(self.send@),
            combo: packet_views(self.combo@),
            kick: self.kick,
        }
    }
}

/// The mode of the tap, and the flags it saw last.
#[verifier::ext_equal]
pub struct MacTap {
    pub enabled: bool,
    pub passive: bool,
    pub swap: bool,
    pub prev_flags: u64,
}

impl MacEvent {
    /// The event comes from the keyboard.
    pub open spec fn physical(self) -> bool {
        self.source_state_id == HID_SYSTEM_STATE_ID
    }
}

/// The key of an event going down or up on the host, where it has a scancode.
pub open spec fn key_packet(keycode: u16, pressed: bool) -> Seq<PacketView> {
    match mac_key(keycode) {
        Some(key) => match scancode_of(key) {
            Some(scancode) => seq![
                if pressed {
                    key_down(scancode)
                } else {
                    key_up(scancode)
                },
            ],
            None => Seq::empty(),
        },
        None => Seq::empty(),
    }
}

impl MacAnswer {
    /// The event passes and nothing else happens.
    pub open spec fn keep() -> MacAnswer {
        MacAnswer {
            passage: Passage::Keep,
            reenable: false,
            event: None,
            send: Seq::empty(),
            combo: Seq::empty(),
            kick: false,
        }
    }

    /// The event is taken and nothing else happens.
    pub open spec fn taken() -> MacAnswer {
        MacAnswer { passage: Passage::Drop, ..MacAnswer::keep() }
    }
}

impl MacTap {
    /// Command and Option are exchanged for events of the keyboard only: what
    /// programs post is not touched by the exchange.
    pub open spec fn swaps(self, e: MacEvent) -> bool {
        self.swap && e.physical()
    }

    /// The request of a hotkey, where the event is one.
    pub open spec fn hotkey(self, e: MacEvent) -> Option<TapEvent> {
        if !hotkey_modifier(e.flags, self.swaps(e)) {
            None
        } else if e.keycode == CG_KEY_RETURN {
            Some(TapEvent::ToggleFullscreen)
        } else if e.keycode == CG_KEY_ESCAPE {
            Some(
                if self.enabled {
                    TapEvent::ReleaseCapture
                } else {
                    TapEvent::EngageCapture
                },
            )
        } else {
            None
        }
    }

    /// What becomes of a key going down that is no hotkey, while capture is on.
    pub open spec fn key_down_answer(self, e: MacEvent) -> MacAnswer {
        if e.physical() {
            MacAnswer { send: key_packet(e.keycode, true), ..MacAnswer::taken() }
        } else {
            MacAnswer {
                combo: key_packets(modifier_changes(e.flags, 0)) + key_packet(e.keycode, true),
                kick: e.keycode == CG_KEY_V && flag_set(e.flags, CG_FLAG_COMMAND),
                ..MacAnswer::taken()
            }
        }
    }

    /// What becomes of a key going up while capture is on.
    pub open spec fn key_up_answer(self, e: MacEvent) -> MacAnswer {
        if e.physical() {
            MacAnswer { send: key_packet(e.keycode, false), ..MacAnswer::taken() }
        } else {
            MacAnswer {
                combo: key_packet(e.keycode, false) + key_packets(modifier_changes(0, e.flags)),
                ..MacAnswer::taken()
            }
        }
    }

    /// What becomes of an event.
    pub open spec fn answer(self, e: MacEvent) -> MacAnswer {
        if e.kind == MacEventKind::TapDisabled {
            MacAnswer { reenable: true, ..MacAnswer::taken() }
        } else if !self.enabled && !self.passive {
            MacAnswer::keep()
        } else if e.kind == MacEventKind::KeyDown && self.hotkey(e) is Some {
            MacAnswer { event: self.hotkey(e), ..MacAnswer::taken() }
        } else if !self.enabled {
            MacAnswer::keep()
        } else {
            match e.kind {
                MacEventKind::KeyDown => self.key_down_answer(e),
                MacEventKind::KeyUp => self.key_up_answer(e),
                MacEventKind::FlagsChanged => MacAnswer {
                    send: key_packets(
                        if self.swaps(e) {
                            swapped_modifier_changes(e.flags, self.prev_flags)
                        } else {
                            modifier_changes(e.flags, self.prev_flags)
                        },
                    ),
                    ..MacAnswer::keep()
                },
                _ => MacAnswer::keep(),
            }
        }
    }

    /// The flags that are remembered after an event.
    pub open spec fn flags_after(self, e: MacEvent) -> u64 {
        if self.enabled && e.kind == MacEventKind::FlagsChanged {
            e.flags
        } else {
            self.prev_flags
        }
    }
}

fn reaction(passage: Passage) -> (r: MacReaction)
    ensures
        r@ == (MacAnswer { passage, ..MacAnswer::keep() }),
{
    let r = MacReaction {
        passage,
        reenable: false,
        event: None,
        send: Vec::new(),
        combo: Vec::new(),
        kick: false,
    };
    assert(packet_views(r.send@) =~= Seq::empty());
    assert(packet_views(r.combo@) =~= Seq::empty());
    r
}

fn push_mac_key(out: &mut Vec<Packet>, keycode: u16, pressed: bool)
    ensures
        packet_views(final(out)@) == packet_views(old(out)@) + key_packet(keycode, pressed),
{
    match cgkeycode_to_scancode(keycode) {
        Some(scancode) => push_key(out, scancode, pressed),
        None => {},
    }
    assert(packet_views(out@) =~= packet_views(old(out)@) + key_packet(keycode, pressed));
}

impl TapHandle {
    /// The tap as it concerns events on a Mac.
    pub open spec fn mac(self) -> MacTap {
        MacTap {
            enabled: self.enabled,
            passive: self.passive,
            swap: self.swap_om_cmd,
            prev_flags: self.prev_flags,
        }
    }

    /// Takes an event.
    pub fn on_mac_event(&mut self, e: &MacEvent) -> (r: MacReaction)
        ensures
            r@ == old(self).mac().answer(*e),
            final(self).prev_flags == old(self).mac().flags_after(*e),
            final(self).enabled == old(self).enabled,
            final(self).passive == old(self).passive,
            final(self).platform == old(self).platform,
            final(self).swap_om_cmd == old(self).swap_om_cmd,
            final(self).hook == old(self).hook,
            final(self).running == old(self).running,
            final(self).late == old(self).late,
    {
        if e.kind == MacEventKind::TapDisabled {
            let mut r = reaction(Passage::Drop);
            r.reenable = true;
            return r;
        }
        let physical = e.source_state_id == HID_SYSTEM_STATE_ID;
        let swap = self.swap_om_cmd && physical;
        if !self.enabled && !self.passive {
            return reaction(Passage::Keep);
        }
        if e.kind == MacEventKind::KeyDown {
            if is_cmd_enter(e.keycode, e.flags, swap) {
                let mut r = reaction(Passage::Drop);
                r.event = Some(TapEvent::ToggleFullscreen);
                return r;
            }
            if is_release_capture(e.keycode, e.flags, swap) {
                let mut r = reaction(Passage::Drop);
                r.event = Some(
                    if self.enabled {
                        TapEvent::ReleaseCapture
                    } else {
                        TapEvent::EngageCapture
                    },
                );
                return r;
            }
        }
        if !self.enabled {
            return reaction(Passage::Keep);
        }
        match e.kind {
            MacEventKind::KeyDown => {
                let mut r = reaction(Passage::Drop);
                if physical {
                    push_mac_key(&mut r.send, e.keycode, true);
                } else {
                    r.kick = is_synthetic_paste(e.keycode, e.flags);
                    let modifiers = cg_flag_change_to_scancodes(e.flags, 0);
                    push_keys(&mut r.combo, &modifiers);
                    push_mac_key(&mut r.combo, e.keycode, true);
                }
                assert(r@ =~= old(self).mac().key_down_answer(*e));
                r
            },
            MacEventKind::KeyUp => {
                let mut r = reaction(Passage::Drop);
                if physical {
                    push_mac_key(&mut r.send, e.keycode, false);
                } else {
                    push_mac_key(&mut r.combo, e.keycode, false);
                    let modifiers = cg_flag_change_to_scancodes(0, e.flags);
                    push_keys(&mut r.combo, &modifiers);
                }
                assert(r@ =~= old(self).mac().key_up_answer(*e));
                r
            },
            MacEventKind::FlagsChanged => {
                let mut r = reaction(Passage::Keep);
                let prev: u64 = self.prev_flags;
                self.prev_flags = e.flags;
                let pairs = if swap {
                    cg_flag_change_to_scancodes_swapped(e.flags, prev)
                } else {
                    cg_flag_change_to_scancodes(e.flags, prev)
                };
                push_keys(&mut r.send, &pairs);
                assert(r@ =~= old(self).mac().answer(*e));
                r
            },
            _ => reaction(Passage::Keep),
        }
    }
}

/// A hotkey stays here: neither the host nor this machine's programs see it.
pub proof fn law_hotkeys_reach_nobody(tap: MacTap, e: MacEvent)
    ensures
        tap.answer(e).event is Some ==> {
            &&& tap.answer(e).passage == Passage::Drop
            &&& tap.answer(e).send.len() == 0
            &&& tap.answer(e).combo.len() == 0
            &&& !tap.answer(e).kick
        },
{
}

/// While capture is off nothing is sent to the host, and while the tap is off
/// this machine sees every event.
pub proof fn law_nothing_is_sent_without_capture(tap: MacTap, e: MacEvent)
    requires
        !tap.enabled,
    ensures
        tap.answer(e).send.len() == 0,
        tap.answer(e).combo.len() == 0,
        tap.flags_after(e) == tap.prev_flags,
        !tap.passive && e.kind != MacEventKind::TapDisabled ==> tap.answer(e) == MacAnswer::keep(),
{
}

/// While capture is on no key that was pressed reaches this machine's programs;
/// a modifier alone does.
pub proof fn law_captured_keys_stay_off_this_machine(tap: MacTap, e: MacEvent)
    requires
        tap.enabled,
    ensures
        e.kind == MacEventKind::KeyDown || e.kind == MacEventKind::KeyUp ==> tap.answer(e).passage
            == Passage::Drop,
        e.kind == MacEventKind::FlagsChanged ==> tap.answer(e).passage == Passage::Keep,
{
}

/// The modifiers that the host has down follow the keyboard. (A program that
/// posts a change of modifiers on an exchanged keyboard is not followed.)
pub proof fn law_modifiers_follow_the_keyboard(tap: MacTap, e: MacEvent)
    requires
        tap.enabled,
        e.kind == MacEventKind::FlagsChanged,
        e.physical() || !tap.swap,
    ensures
        keys_down(host_modifiers(tap.prev_flags, tap.swap), tap.answer(e).send) == host_modifiers(
            tap.flags_after(e),
            tap.swap,
        ),
{
    let down = host_modifiers(tap.prev_flags, tap.swap);
    if tap.swap {
        law_swapped_changes_reach_the_flags(e.flags, tap.prev_flags);
        lemma_keys_down_of_events(down, swapped_modifier_changes(e.flags, tap.prev_flags));
    } else {
        law_changes_reach_the_flags(e.flags, tap.prev_flags);
        lemma_keys_down_of_events(down, modifier_changes(e.flags, tap.prev_flags));
    }
}

/// A combination that a program posted is pressed and released as a whole:
/// nothing of it stays down on the host, and nothing else changes there.
pub proof fn law_posted_combo_is_released(tap: MacTap, down: MacEvent, up: MacEvent, held: Set<u16>)
    requires
        tap.enabled,
        !down.physical(),
        down.kind == MacEventKind::KeyDown,
        tap.hotkey(down) is None,
        up == (MacEvent { kind: MacEventKind::KeyUp, ..down }),
        held.disjoint(held_modifiers(down.flags)),
        mac_key(down.keycode) matches Some(key) ==> (scancode_of(key) matches Some(s)
            ==> !held.contains(s)),
    ensures
        tap.answer(down).send.len() == 0,
        tap.answer(up).send.len() == 0,
        keys_down(keys_down(held, tap.answer(down).combo), tap.answer(up).combo) == held,
{
    let flags = down.flags;
    let mods = modifier_changes(flags, 0);
    let back = modifier_changes(0, flags);
    let press = key_packet(down.keycode, true);
    let release = key_packet(down.keycode, false);
    let pressed = keys_down(held, key_packets(mods));
    lemma_keys_down_add(held, key_packets(mods), press);
    let whole = keys_down(held, tap.answer(down).combo);
    lemma_keys_down_add(whole, release, key_packets(back));
    lemma_keys_down_of_events(held, mods);
    assert(forall|f: u64| #[trigger] (0u64 & f) == 0) by (bit_vector);
    assert(held_modifiers(0) =~= Set::empty());
    lemma_events_keep_others(Set::empty(), held, mods);
    law_changes_reach_the_flags(flags, 0);
    law_changes_reach_the_flags(0, flags);
    assert(Set::<u16>::empty().union(held) =~= held);
    assert(pressed == held_modifiers(flags).union(held));
    let released = keys_down(whole, release);
    assert(released =~= pressed) by {
        lemma_one_key(pressed, down.keycode, true);
        lemma_one_key(whole, down.keycode, false);
        assert(mac_key(down.keycode) matches Some(key) ==> (scancode_of(key) matches Some(s)
            ==> !held_modifiers(flags).contains(s)));
    }
    lemma_keys_down_of_events(released, back);
    assert forall|i: int| 0 <= i < back.len() implies (#[trigger] back[i]).1 || !held.contains(
        back[i].0,
    ) by {
        assert(held_modifiers(flags).contains(back[i].0));
    }
    lemma_events_keep_others(held_modifiers(flags), held, back);
    assert(held_modifiers(0).union(held) =~= held);
}

proof fn lemma_one_key(down: Set<u16>, keycode: u16, pressed: bool)
    ensures
        keys_down(down, key_packet(keycode, pressed)) == (match mac_key(keycode) {
            Some(key) => match scancode_of(key) {
                Some(s) => if pressed {
                    down.insert(s)
                } else {
                    down.remove(s)
                },
                None => down,
            },
            None => down,
        }),
{
    reveal_with_fuel(keys_down, 2);
    let p = key_packet(keycode, pressed);
    if p.len() == 1 {
        assert(p.drop_last() =~= Seq::empty());
    }
}

/// Events that release nothing of `others` leave `others` down.
proof fn lemma_events_keep_others(down: Set<u16>, others: Set<u16>, events: Seq<(u16, bool)>)
    requires
        forall|i: int|
            0 <= i < events.len() ==> (#[trigger] events[i]).1 || !others.contains(events[i].0),
    ensures
        key_events(down.union(others), events) == key_events(down, events).union(others),
    decreases events.len(),
{
    if events.len() > 0 {
        assert forall|i: int| 0 <= i < events.drop_last().len() implies (
        #[trigger] events.drop_last()[i]).1 || !others.contains(events.drop_last()[i].0) by {
            assert(events.drop_last()[i] == events[i]);
        }
        lemma_events_keep_others(down, others, events.drop_last());
    }
    assert(key_events(down.union(others), events) =~= key_events(down, events).union(others));
}

/// True where an event carries the modifier of the hotkeys: Command alone, or
/// Option alone where the keyboard that it comes from is exchanged.
pub open spec fn with_hotkey_modifier(swap: bool, e: MacEvent) -> bool {
    e.flags & 0x1E_0000 == 0x10_0000 || swap && e.source_state_id == 1 && e.flags & 0x1E_0000
        == 0x8_0000
}

/// While capture is on, a key that is pressed on the keyboard and is no hotkey
/// goes down on the host, whatever modifiers are held, in one message and at
/// once; a key that the host has no scancode for goes nowhere.
pub proof fn law_pressed_key_goes_down_on_the_host(
    tap: &mut TapHandle,
    e: MacEvent,
    r: MacReaction,
    held: Set<u16>,
)
    requires
        call_ensures(TapHandle::on_mac_event, (tap, &e), r),
        old(tap).enabled,
        e.kind == MacEventKind::KeyDown,
        e.source_state_id == 1,
        !(with_hotkey_modifier(old(tap).swap_om_cmd, e) && (e.keycode == 0x24 || e.keycode == 0x35)),
    ensures
        match mac_key(e.keycode) {
            Some(key) => {
                let scancode = scancode_of(key)->0;
                &&& packet_views(r.send@) == seq![
                    PacketView { message: MessageView::KeyDown { scancode, modifiers: 0 }, seq: 0 },
                ]
                &&& keys_down(held, packet_views(r.send@)) == held.insert(scancode)
            },
            None => r.send@.len() == 0,
        },
        r.combo@.len() == 0 && r.event is None && !r.kick && !r.reenable,
        r.passage == Passage::Drop,
        final(tap).prev_flags == old(tap).prev_flags,
{
    law_hotkey_modifier_stands_alone(e.flags, true);
    law_hotkey_modifier_stands_alone(e.flags, false);
    lemma_one_key(held, e.keycode, true);
    lemma_keys_have_scancodes(e.keycode);
    assert(r.send@.len() == packet_views(r.send@).len());
    assert(r.combo@.len() == packet_views(r.combo@).len());
}

proof fn lemma_keys_have_scancodes(keycode: u16)
    ensures
        mac_key(keycode) matches Some(key) ==> scancode_of(key) is Some,
{
}

/// While capture is on, a key that is released on the keyboard goes up on the
/// host, whatever modifiers are held, in one message and at once.
pub proof fn law_released_key_goes_up_on_the_host(
    tap: &mut TapHandle,
    e: MacEvent,
    r: MacReaction,
    held: Set<u16>,
)
    requires
        call_ensures(TapHandle::on_mac_event, (tap, &e), r),
        old(tap).enabled,
        e.kind == MacEventKind::KeyUp,
        e.source_state_id == 1,
    ensures
        match mac_key(e.keycode) {
            Some(key) => {
                let scancode = scancode_of(key)->0;
                &&& packet_views(r.send@) == seq![
                    PacketView { message: MessageView::KeyUp { scancode, modifiers: 0 }, seq: 0 },
                ]
                &&& keys_down(held, packet_views(r.send@)) == held.remove(scancode)
            },
            None => r.send@.len() == 0,
        },
        r.combo@.len() == 0 && r.event is None && !r.kick && !r.reenable,
        r.passage == Passage::Drop,
{
    lemma_one_key(held, e.keycode, false);
    lemma_keys_have_scancodes(e.keycode);
    assert(r.send@.len() == packet_views(r.send@).len());
    assert(r.combo@.len() == packet_views(r.combo@).len());
}

/// A combination that a program posts goes down on the host as a whole: its
/// modifiers and its key, together with what was down before. A paste has the
/// clipboard looked at first, nothing else has.
pub proof fn law_posted_combo_goes_down_whole(
    tap: &mut TapHandle,
    e: MacEvent,
    r: MacReaction,
    held: Set<u16>,
)
    requires
        call_ensures(TapHandle::on_mac_event, (tap, &e), r),
        old(tap).enabled,
        e.kind == MacEventKind::KeyDown,
        e.source_state_id != 1,
        !(e.flags & 0x1E_0000 == 0x10_0000 && (e.keycode == 0x24 || e.keycode == 0x35)),
    ensures
        keys_down(held, packet_views(r.combo@)) == held_modifiers(e.flags).union(held).union(
            match mac_key(e.keycode) {
                Some(key) => set![scancode_of(key)->0],
                None => Set::empty(),
            },
        ),
        r.send@.len() == 0 && r.event is None && r.passage == Passage::Drop,
        r.kick <==> e.keycode == 0x09 && e.flags & 0x10_0000 != 0,
{
    law_hotkey_modifier_stands_alone(e.flags, true);
    law_hotkey_modifier_stands_alone(e.flags, false);
    let mods = modifier_changes(e.flags, 0);
    let press = key_packet(e.keycode, true);
    lemma_keys_down_add(held, key_packets(mods), press);
    lemma_keys_down_of_events(held, mods);
    assert(forall|f: u64| #[trigger] (0u64 & f) == 0) by (bit_vector);
    assert(held_modifiers(0) =~= Set::empty());
    lemma_events_keep_others(Set::empty(), held, mods);
    law_changes_reach_the_flags(e.flags, 0);
    assert(Set::<u16>::empty().union(held) =~= held);
    let pressed = keys_down(held, key_packets(mods));
    assert(pressed == held_modifiers(e.flags).union(held));
    lemma_one_key(pressed, e.keycode, true);
    lemma_keys_have_scancodes(e.keycode);
    assert(keys_down(held, packet_views(r.combo@)) =~= held_modifiers(e.flags).union(held).union(
        match mac_key(e.keycode) {
            Some(key) => set![scancode_of(key)->0],
            None => Set::empty(),
        },
    ));
    assert(r.send@.len() == packet_views(r.send@).len());
}

/// The hotkeys work while the tap takes keys and while it stands by: with their
/// modifier, Return toggles fullscreen, and Escape releases capture where it is
/// on and engages it where it is off.
pub proof fn law_hotkeys_are_obeyed(tap: &mut TapHandle, e: MacEvent, r: MacReaction)
    requires
        call_ensures(TapHandle::on_mac_event, (tap, &e), r),
        old(tap).enabled || old(tap).passive,
        e.kind == MacEventKind::KeyDown,
        with_hotkey_modifier(old(tap).swap_om_cmd, e),
    ensures
        e.keycode == 0x24 ==> r.event == Some(TapEvent::ToggleFullscreen),
        e.keycode == 0x35 && old(tap).enabled ==> r.event == Some(TapEvent::ReleaseCapture),
        e.keycode == 0x35 && !old(tap).enabled ==> r.event == Some(TapEvent::EngageCapture),
        e.keycode == 0x24 || e.keycode == 0x35 ==> r.passage == Passage::Drop && r.send@.len() == 0
            && r.combo@.len() == 0,
        e.keycode != 0x24 && e.keycode != 0x35 ==> r.event is None,
{
    law_hotkey_modifier_stands_alone(e.flags, true);
    law_hotkey_modifier_stands_alone(e.flags, false);
    assert(r.send@.len() == packet_views(r.send@).len());
    assert(r.combo@.len() == packet_views(r.combo@).len());
}

/// Nothing but a hotkey asks anything of the window, and while the tap stands
/// by nothing but a hotkey is kept from this machine.
pub proof fn law_only_hotkeys_are_taken_when_standing_by(
    tap: &mut TapHandle,
    e: MacEvent,
    r: MacReaction,
)
    requires
        call_ensures(TapHandle::on_mac_event, (tap, &e), r),
        !(e.kind == MacEventKind::KeyDown && with_hotkey_modifier(old(tap).swap_om_cmd, e) && (
        e.keycode == 0x24 || e.keycode == 0x35)),
    ensures
        r.event is None,
        !old(tap).enabled && e.kind != MacEventKind::TapDisabled ==> r.passage == Passage::Keep
            && r.send@.len() == 0 && r.combo@.len() == 0 && !r.kick,
        r.reenable <==> e.kind == MacEventKind::TapDisabled,
        e.kind == MacEventKind::TapDisabled || e.kind == MacEventKind::Other ==> r.send@.len() == 0
            && r.combo@.len() == 0 && !r.kick,
        e.kind == MacEventKind::Other ==> r.passage == Passage::Keep,
        e.kind == MacEventKind::TapDisabled ==> r.passage == Passage::Drop,
{
    law_hotkey_modifier_stands_alone(e.flags, true);
    law_hotkey_modifier_stands_alone(e.flags, false);
    assert(r.send@.len() == packet_views(r.send@).len());
    assert(r.combo@.len() == packet_views(r.combo@).len());
}

/// A change of the modifiers on the keyboard is followed on the host at once,
/// and remembered, so that the next change is told from it.
pub proof fn law_modifier_change_is_followed(tap: &mut TapHandle, e: MacEvent, r: MacReaction)
    requires
        call_ensures(TapHandle::on_mac_event, (tap, &e), r),
        old(tap).enabled,
        e.kind == MacEventKind::FlagsChanged,
        e.source_state_id == 1 || !old(tap).swap_om_cmd,
    ensures
        keys_down(
            host_modifiers(old(tap).prev_flags, old(tap).swap_om_cmd),
            packet_views(r.send@),
        ) == host_modifiers(e.flags, old(tap).swap_om_cmd),
        final(tap).prev_flags == e.flags,
        r.passage == Passage::Keep && r.combo@.len() == 0 && r.event is None && !r.kick,
{
    law_modifiers_follow_the_keyboard(old(tap).mac(), e);
    assert(r.combo@.len() == packet_views(r.combo@).len());
}

/// A change of modifiers that a program posts is told from the same flags, never
/// exchanged: what it posts is not touched by the exchange.
pub proof fn law_posted_change_is_not_exchanged(tap: &mut TapHandle, e: MacEvent, r: MacReaction)
    requires
        call_ensures(TapHandle::on_mac_event, (tap, &e), r),
        old(tap).enabled,
        e.kind == MacEventKind::FlagsChanged,
        e.source_state_id != 1,
    ensures
        keys_down(held_modifiers(old(tap).prev_flags), packet_views(r.send@)) == held_modifiers(
            e.flags,
        ),
        final(tap).prev_flags == e.flags,
        r.passage == Passage::Keep,
{
    law_changes_reach_the_flags(e.flags, old(tap).prev_flags);
    lemma_keys_down_of_events(
        held_modifiers(old(tap).prev_flags),
        modifier_changes(e.flags, old(tap).prev_flags),
    );
}

/// A combination that a program releases goes up on the host as a whole: its key
/// and its modifiers, and nothing goes down.
pub proof fn law_posted_combo_goes_up_whole(
    tap: &mut TapHandle,
    e: MacEvent,
    r: MacReaction,
    held: Set<u16>,
)
    requires
        call_ensures(TapHandle::on_mac_event, (tap, &e), r),
        old(tap).enabled,
        e.kind == MacEventKind::KeyUp,
        e.source_state_id != 1,
    ensures
        keys_down(held, packet_views(r.combo@)) == held.difference(held_modifiers(e.flags)).difference(
            match mac_key(e.keycode) {
                Some(key) => set![scancode_of(key)->0],
                None => Set::empty(),
            },
        ),
        r.send@.len() == 0 && r.event is None && !r.kick && r.passage == Passage::Drop,
{
    let back = modifier_changes(0, e.flags);
    let release = key_packet(e.keycode, false);
    let released = keys_down(held, release);
    lemma_keys_down_add(held, release, key_packets(back));
    lemma_one_key(held, e.keycode, false);
    lemma_keys_have_scancodes(e.keycode);
    lemma_keys_down_of_events(released, back);
    assert(forall|f: u64| #[trigger] (0u64 & f) == 0) by (bit_vector);
    lemma_modifiers_released(released, e.flags);
    assert(keys_down(held, packet_views(r.combo@)) =~= held.difference(
        held_modifiers(e.flags),
    ).difference(
        match mac_key(e.keycode) {
            Some(key) => set![scancode_of(key)->0],
            None => Set::empty(),
        },
    ));
    assert(r.send@.len() == packet_views(r.send@).len());
}

proof fn lemma_modifiers_released(down: Set<u16>, flags: u64)
    ensures
        key_events(down, modifier_changes(0, flags)) == down.difference(held_modifiers(flags)),
{
    assert(forall|f: u64| #[trigger] (0u64 & f) == 0) by (bit_vector);
    let none = Seq::<(u16, bool)>::empty();
    let e1 = edge(WIN_SCAN_LCTRL, ctrl_held(flags), ctrl_held(0));
    let e2 = edge(WIN_SCAN_LSHIFT, flag_set(flags, CG_FLAG_SHIFT), flag_set(0, CG_FLAG_SHIFT));
    assert(none + e1 =~= e1);
    lemma_edge_events(down, none, WIN_SCAN_LCTRL, ctrl_held(flags), ctrl_held(0));
    lemma_edge_events(
        down,
        e1,
        WIN_SCAN_LSHIFT,
        flag_set(flags, CG_FLAG_SHIFT),
        flag_set(0, CG_FLAG_SHIFT),
    );
    lemma_edge_events(
        down,
        e1 + e2,
        WIN_SCAN_LALT,
        flag_set(flags, CG_FLAG_ALT),
        flag_set(0, CG_FLAG_ALT),
    );
    assert(key_events(down, none) == down);
    assert(key_events(down, modifier_changes(0, flags)) =~= down.difference(
        held_modifiers(flags),
    ));
}

/// Taking an event changes nothing of the tap but the flags that it remembers.
pub proof fn law_event_leaves_the_tap_as_it_is(tap: &mut TapHandle, e: MacEvent, r: MacReaction)
    requires
        call_ensures(TapHandle::on_mac_event, (tap, &e), r),
    ensures
        final(tap).enabled == old(tap).enabled && final(tap).passive == old(tap).passive,
        final(tap).hook == old(tap).hook && final(tap).running == old(tap).running,
        final(tap).swap_om_cmd == old(tap).swap_om_cmd && final(tap).platform == old(tap).platform,
        final(tap).late == old(tap).late,
        !(old(tap).enabled && e.kind == MacEventKind::FlagsChanged) ==> final(tap).prev_flags
            == old(tap).prev_flags,
{
}

} // verus!

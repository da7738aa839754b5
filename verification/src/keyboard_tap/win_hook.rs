//! The tap on Windows: a hook that sees every key before the desktop does.

use std::collections::BTreeSet;

use vstd::prelude::*;
use vstd::laws_cmp::obeys_cmp;
use vstd::std_specs::btree::{axiom_increasing_seq_meaning, increasing_seq};
use vstd::std_specs::cmp::OrdSpec;
use vstd::std_specs::iter::IteratorSpec;

use crate::keyboard_tap::win_keys::{
    VK_ESCAPE, VK_RETURN, composed, compose_scancode, is_modifier_vk, is_win_toggle_capture,
    is_win_toggle_fullscreen, shared_modifiers,
};
use crate::keyboard_tap::{TapEvent, key_down, key_up, keys_down, push_key};
use crate::protocol::{Message, MessageView, Packet, PacketView, packet_views};

verus! {

broadcast use {
    vstd::laws_cmp::group_laws_cmp,
    vstd::std_specs::btree::group_btree_axioms,
};

/// Window messages of keys.
pub const WM_KEYDOWN: u32 = 0x0100;

pub const WM_KEYUP: u32 = 0x0101;

pub const WM_SYSKEYDOWN: u32 = 0x0104;

pub const WM_SYSKEYUP: u32 = 0x0105;

/// Whether a window message says that a key went down (`true`), up (`false`)
/// or neither.
pub fn key_transition(msg: u32) -> (r: Option<bool>)
    ensures
        r == (if msg == WM_KEYDOWN || msg == WM_SYSKEYDOWN {
            Some(true)
        } else if msg == WM_KEYUP || msg == WM_SYSKEYUP {
            Some(false)
        } else {
            None
        }),
{
    if msg == WM_KEYDOWN || msg == WM_SYSKEYDOWN {
        Some(true)
    } else if msg == WM_KEYUP || msg == WM_SYSKEYUP {
        Some(false)
    } else {
        None
    }
}

/// A key event, with what the system says of it.
#[derive(Debug, Clone, Copy, PartialEq, Eq, Structural)]
pub struct WinKeyEvent {
    pub vk: u32,
    pub down: bool,
    /// The scancode of the event; its low byte is zero where it has none.
    pub scan: u32,
    pub extended: bool,
    /// A Ctrl key is down right now.
    pub ctrl: bool,
    /// The scancode that the system derives from the virtual key.
    pub mapped: u32,
}

/// What becomes of a key event.
#[derive(Debug, Clone, PartialEq, Eq)]
pub struct WinReaction {
    /// This machine does not see the event.
    pub swallow: bool,
    pub event: Option<TapEvent>,
    pub send: Option<Packet>,
}

/// What becomes of a key event, as a mathematical value. `send` is the
/// scancode and whether it went down.
#[verifier::ext_equal]
pub struct WinAnswer {
    pub swallow: bool,
    pub event: Option<TapEvent>,
    pub send: Option<(u16, bool)>,
}

impl WinReaction {
    /// The reaction does what the answer says.
    pub open spec fn gives(self, answer: WinAnswer) -> bool {
        &&& self.swallow == answer.swallow
        &&& self.event == answer.event
        &&& match answer.send {
            None => self.send is None,
            Some((scancode, down)) => self.send matches Some(p) && p@ == (if down {
                key_down(scancode)
            } else {
                key_up(scancode)
            }),
        }
    }
}

/// What the hook remembers.
#[derive(Debug)]
pub struct HookState {
    /// Scancodes that are down on the host.
    pub held: BTreeSet<u16>,
    /// Virtual keys that went down as a hotkey; their release is not passed on
    /// either.
    pub hotkey_down: BTreeSet<u32>,
}

/// What the hook remembers, as a mathematical value.
#[verifier::ext_equal]
pub struct Hook {
    pub held: Set<u16>,
    pub hotkey_down: Set<u32>,
}

impl View for HookState {
    type V = Hook;

    open spec fn view(&self) -> Hook {
        Hook { held: self.held@, hotkey_down: self.hotkey_down@ }
    }
}

/// The request of a hotkey, where the event is one.
pub open spec fn hotkey_of(e: WinKeyEvent, active: bool) -> Option<TapEvent> {
    if e.ctrl && e.vk == VK_RETURN {
        Some(TapEvent::ToggleFullscreen)
    } else if e.ctrl && e.vk == VK_ESCAPE {
        Some(
            if active {
                TapEvent::ReleaseCapture
            } else {
                TapEvent::EngageCapture
            },
        )
    } else {
        None
    }
}

/// The scancode of an event: its own, or the one derived from the virtual key.
pub open spec fn scancode_of_event(e: WinKeyEvent) -> Option<u16> {
    match composed(e.scan, e.extended) {
        Some(s) => Some(s),
        None => composed(e.mapped, e.extended),
    }
}

impl Hook {
    /// What becomes of a key event, and what is remembered afterwards.
    pub open spec fn answer(self, active: bool, passive: bool, e: WinKeyEvent) -> (
        Hook,
        WinAnswer,
    ) {
        let pass = WinAnswer { swallow: false, event: None, send: None };
        let swallowed = WinAnswer { swallow: true, event: None, send: None };
        if !e.down && self.hotkey_down.contains(e.vk) {
            (Hook { hotkey_down: self.hotkey_down.remove(e.vk), ..self }, swallowed)
        } else if (active || passive) && e.down && hotkey_of(e, active) is Some {
            (
                Hook { hotkey_down: self.hotkey_down.insert(e.vk), ..self },
                WinAnswer { event: hotkey_of(e, active), ..swallowed },
            )
        } else if !active {
            (self, pass)
        } else {
            match scancode_of_event(e) {
                None => (self, swallowed),
                Some(scancode) => (
                    Hook {
                        held: if e.down {
                            self.held.insert(scancode)
                        } else {
                            self.held.remove(scancode)
                        },
                        ..self
                    },
                    WinAnswer {
                        swallow: !shared_modifiers().contains(e.vk),
                        event: None,
                        send: Some((scancode, e.down)),
                    },
                ),
            }
        }
    }
}

/// Strictly ascending.
pub open spec fn ascending(keys: Seq<u16>) -> bool {
    forall|i: int, j: int| 0 <= i < j < keys.len() ==> keys[i] < keys[j]
}

/// The messages that release keys.
pub open spec fn releases(keys: Seq<u16>) -> Seq<PacketView> {
    Seq::new(keys.len(), |i: int| key_up(keys[i]))
}

proof fn lemma_keys_ascend(keys: Seq<&u16>)
    requires
        increasing_seq(keys),
    ensures
        ascending(keys.unref()),
{
    assert forall|i: int, j: int| 0 <= i < j < keys.len() implies keys.unref()[i]
        < keys.unref()[j] by {
        assert(obeys_cmp::<&u16>());
        axiom_increasing_seq_meaning(keys);
        assert(OrdSpec::cmp_spec(&keys[i], &keys[j]) is Less);
    }
}

impl HookState {
    pub fn new() -> (r: HookState)
        ensures
            r.held@ == Set::<u16>::empty(),
            r.hotkey_down@ == Set::<u32>::empty(),
    {
        HookState { held: BTreeSet::new(), hotkey_down: BTreeSet::new() }
    }

    /// Releases every key that is down on the host, the lowest scancode first,
    /// and forgets them.
    pub fn release_held_keys(&mut self, out: &mut Vec<Packet>)
        ensures
            final(self).held@ == Set::<u16>::empty(),
            final(self).hotkey_down@ == old(self).hotkey_down@,
            exists|keys: Seq<u16>|
                #![trigger keys.to_set()]
                {
                    &&& keys.to_set() == old(self).held@
                    &&& ascending(keys)
                    &&& packet_views(final(out)@) == packet_views(old(out)@) + releases(keys)
                },
    {
        let ghost before = packet_views(out@);
        let ghost keys = vstd::std_specs::btree::spec_btree_keys_iter(&self.held).remaining().unref();
        assert(before + releases(keys).take(0) =~= before);
        for k in it: self.held.iter()
            invariant
                it.seq().unref() == keys,
                packet_views(out@) == before + releases(keys).take(it.index() as int),
        {
            assert(keys[it.index() as int] == *k);
            push_key(out, *k, false);
            assert(packet_views(out@) =~= before + releases(keys).take(it.index() + 1));
        }
        assert(releases(keys).take(keys.len() as int) =~= releases(keys));
        assert(keys.to_set() == self.held@);
        proof {
            lemma_keys_ascend(vstd::std_specs::btree::spec_btree_keys_iter(&self.held).remaining());
        }
        self.held.clear();
    }

    /// Takes a key event. `active` says that events go to the host, `passive`
    /// that only hotkeys are watched for.
    pub fn on_key(&mut self, active: bool, passive: bool, e: &WinKeyEvent) -> (r: WinReaction)
        ensures
            ({
                let (next, answer) = old(self)@.answer(active, passive, *e);
                &&& final(self)@ == next
                &&& r.gives(answer)
            }),
    {
        if !e.down {
            let was_hotkey = self.hotkey_down.remove(&e.vk);
            if was_hotkey {
                return WinReaction { swallow: true, event: None, send: None };
            }
            assert(self.hotkey_down@ =~= old(self).hotkey_down@);
        }
        if (active || passive) && e.down {
            let hotkey = if is_win_toggle_fullscreen(e.vk, e.ctrl) {
                Some(TapEvent::ToggleFullscreen)
            } else if is_win_toggle_capture(e.vk, e.ctrl) {
                Some(
                    if active {
                        TapEvent::ReleaseCapture
                    } else {
                        TapEvent::EngageCapture
                    },
                )
            } else {
                None
            };
            if hotkey.is_some() {
                let _ = self.hotkey_down.insert(e.vk);
                return WinReaction { swallow: true, event: hotkey, send: None };
            }
        }
        if !active {
            return WinReaction { swallow: false, event: None, send: None };
        }
        let own = compose_scancode(e.scan, e.extended);
        let scancode = if own.is_some() {
            own
        } else {
            compose_scancode(e.mapped, e.extended)
        };
        match scancode {
            None => WinReaction { swallow: true, event: None, send: None },
            Some(sc) => {
                let message = if e.down {
                    let _ = self.held.insert(sc);
                    Message::KeyDown { scancode: sc, modifiers: 0 }
                } else {
                    let _ = self.held.remove(&sc);
                    Message::KeyUp { scancode: sc, modifiers: 0 }
                };
                WinReaction {
                    swallow: !is_modifier_vk(e.vk),
                    event: None,
                    send: Some(Packet::new(message, 0)),
                }
            },
        }
    }
}

/// What the hook remembers as held is what the host has down: it changes with
/// what is sent and with nothing else.
pub proof fn law_held_keys_are_those_sent(hook: Hook, active: bool, passive: bool, e: WinKeyEvent)
    ensures
        ({
            let (next, answer) = hook.answer(active, passive, e);
            next.held == (match answer.send {
                Some((scancode, true)) => hook.held.insert(scancode),
                Some((scancode, false)) => hook.held.remove(scancode),
                None => hook.held,
            })
        }),
{
}

/// What is sent when the held keys are released leaves nothing down on the host.
pub proof fn law_release_leaves_nothing_down(hook: Hook, keys: Seq<u16>)
    requires
        keys.to_set() == hook.held,
    ensures
        keys_down(hook.held, releases(keys)) == Set::<u16>::empty(),
{
    lemma_released(hook.held, keys);
    assert forall|k: u16| hook.held.contains(k) implies keys.contains(k) by {
        assert(keys.to_set().contains(k));
    }
    assert(keys_down(hook.held, releases(keys)) =~= Set::empty());
}

proof fn lemma_released(down: Set<u16>, keys: Seq<u16>)
    ensures
        forall|k: u16| #[trigger]
            keys_down(down, releases(keys)).contains(k) <==> down.contains(k) && !keys.contains(k),
    decreases keys.len(),
{
    if keys.len() > 0 {
        let less = keys.drop_last();
        lemma_released(down, less);
        assert(releases(keys).drop_last() =~= releases(less));
        assert(releases(keys).last() == key_up(keys.last()));
        assert(keys_down(down, releases(keys)) == keys_down(down, releases(less)).remove(
            keys.last(),
        ));
        assert forall|k: u16| #[trigger] keys.contains(k) <==> less.contains(k) || k
            == keys.last() by {
            if keys.contains(k) && k != keys.last() {
                let i = choose|i: int| 0 <= i < keys.len() && keys[i] == k;
                assert(less[i] == k);
            }
            if less.contains(k) {
                let i = choose|i: int| 0 <= i < less.len() && less[i] == k;
                assert(keys[i] == k);
            }
            assert(keys.contains(keys.last())) by {
                assert(keys[keys.len() - 1] == keys.last());
            }
        }
    }
}

/// The release of a hotkey goes nowhere, whatever the mode is by then.
pub proof fn law_hotkey_release_goes_nowhere(
    hook: Hook,
    passive: bool,
    active: bool,
    down: WinKeyEvent,
    later_active: bool,
    later_passive: bool,
    up: WinKeyEvent,
)
    requires
        down.down,
        !up.down,
        up.vk == down.vk,
        hook.answer(active, passive, down).1.event is Some,
    ensures
        ({
            let (pressed, first) = hook.answer(active, passive, down);
            let (released, second) = pressed.answer(later_active, later_passive, up);
            &&& first.swallow && first.send is None
            &&& second.swallow && second.send is None && second.event is None
            &&& released.held == hook.held
            &&& !released.hotkey_down.contains(down.vk)
        }),
{
}

/// While capture is off nothing is sent, and while the hook only stands by
/// nothing but the hotkeys is kept from this machine.
pub proof fn law_nothing_is_sent_without_capture(hook: Hook, passive: bool, e: WinKeyEvent)
    ensures
        hook.answer(false, passive, e).1.send is None,
        hook.answer(false, passive, e).1.swallow ==> hotkey_of(e, false) is Some
            || hook.hotkey_down.contains(e.vk),
{
}

/// While capture is on, a key that is no hotkey goes down and up on the host as
/// it does here, whatever else is held; only modifiers that are shared are seen
/// here as well. A key without a scancode of its own has the one that the system
/// derives for it, and one without either goes nowhere.
pub proof fn law_captured_key_reaches_the_host(hook: &mut HookState, e: WinKeyEvent, passive: bool, r: WinReaction)
    requires
        call_ensures(HookState::on_key, (hook, true, passive, &e), r),
        e.down ==> !(e.ctrl && (e.vk == 0x0D || e.vk == 0x1B)),
        !e.down ==> !old(hook).hotkey_down@.contains(e.vk),
    ensures
        ({
            let base = if e.scan % 256 != 0 {
                e.scan % 256
            } else {
                e.mapped % 256
            };
            let scancode = (if e.extended {
                0xE000 + base
            } else {
                base as int
            }) as u16;
            &&& base != 0 ==> (r.send matches Some(p) && p@ == (PacketView {
                message: if e.down {
                    MessageView::KeyDown { scancode, modifiers: 0 }
                } else {
                    MessageView::KeyUp { scancode, modifiers: 0 }
                },
                seq: 0,
            }))
            &&& base != 0 && e.down ==> final(hook).held@ == old(hook).held@.insert(scancode)
            &&& base != 0 && !e.down ==> final(hook).held@ == old(hook).held@.remove(scancode)
            &&& base == 0 ==> r.send is None && final(hook).held@ == old(hook).held@
            &&& r.swallow <==> base == 0 || !(0x10 <= e.vk <= 0x12 || e.vk == 0x14 || 0xA0 <= e.vk
                <= 0xA5)
        }),
        r.event is None,
        final(hook).hotkey_down@ == old(hook).hotkey_down@,
{
}

/// The hotkeys work while keys are taken and while the hook stands by: Ctrl and
/// Enter toggle fullscreen, Ctrl and Escape release capture where it is on and
/// engage it where it is off. Neither machine sees them.
pub proof fn law_win_hotkeys_are_obeyed(
    hook: &mut HookState,
    active: bool,
    passive: bool,
    e: WinKeyEvent,
    r: WinReaction,
)
    requires
        call_ensures(HookState::on_key, (hook, active, passive, &e), r),
        active || passive,
        e.down,
        e.ctrl,
    ensures
        e.vk == 0x0D ==> r.event == Some(TapEvent::ToggleFullscreen),
        e.vk == 0x1B && active ==> r.event == Some(TapEvent::ReleaseCapture),
        e.vk == 0x1B && !active ==> r.event == Some(TapEvent::EngageCapture),
        e.vk == 0x0D || e.vk == 0x1B ==> r.swallow && r.send is None && final(hook).held@ == old(hook).held@ && final(hook).hotkey_down@ == old(hook).hotkey_down@.insert(e.vk),
        e.vk != 0x0D && e.vk != 0x1B ==> r.event is None,
{
}

/// While capture is off this machine sees every key but the hotkeys, and the
/// host none.
pub proof fn law_uncaptured_keys_stay_here(
    hook: &mut HookState,
    passive: bool,
    e: WinKeyEvent,
    r: WinReaction,
)
    requires
        call_ensures(HookState::on_key, (hook, false, passive, &e), r),
        e.down ==> !(passive && e.ctrl && (e.vk == 0x0D || e.vk == 0x1B)),
        !e.down ==> !old(hook).hotkey_down@.contains(e.vk),
    ensures
        !r.swallow && r.event is None && r.send is None,
        final(hook).held@ == old(hook).held@,
        final(hook).hotkey_down@ == old(hook).hotkey_down@,
{
}

/// Releasing the held keys sends the host exactly their ups, forgets them, and
/// leaves a hotkey that is still down remembered.
pub proof fn law_held_keys_are_released(hook: &mut HookState, out: &mut Vec<Packet>)
    requires
        call_ensures(HookState::release_held_keys, (hook, out), ()),
    ensures
        final(hook).held@ == Set::<u16>::empty(),
        final(hook).hotkey_down@ == old(hook).hotkey_down@,
        exists|more: Seq<PacketView>| #[trigger]
            (packet_views(old(out)@) + more) == packet_views(final(out)@) && keys_down(
                old(hook).held@,
                more,
            ) == Set::<u16>::empty() && forall|i: int|
                0 <= i < more.len() ==> (#[trigger] more[i]).message is KeyUp,
{
    let before = packet_views(old(out)@);
    let keys = choose|keys: Seq<u16>|
        #![trigger keys.to_set()]
        {
            &&& keys.to_set() == old(hook).held@
            &&& ascending(keys)
            &&& packet_views(final(out)@) == before + releases(keys)
        };
    law_release_leaves_nothing_down(old(hook)@, keys);
    assert((before + releases(keys)) == packet_views(final(out)@));
}

/// A window message of a key says whether it went down or up, with Alt held or
/// not; no other message says anything of a key.
pub proof fn law_key_messages_are_told_apart(msg: u32, r: Option<bool>)
    requires
        call_ensures(key_transition, (msg,), r),
    ensures
        r == Some(true) <==> msg == 0x100 || msg == 0x104,
        r == Some(false) <==> msg == 0x101 || msg == 0x105,
        r is None <==> msg != 0x100 && msg != 0x104 && msg != 0x101 && msg != 0x105,
{
}

} // verus!

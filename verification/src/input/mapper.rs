//! From input events of the window to messages for the host.

use vstd::prelude::*;

use crate::input::keymap::{
    Key, Modifiers, egui_key_to_scancode, egui_modifiers_to_u8, modifier_bits, scancode_of,
};
use crate::protocol::{Message, MessageView, Packet, PacketView, packet_views};

verus! {

/// Numbers the input messages and drops mouse moves that go nowhere.
#[derive(Debug, Clone, Copy, PartialEq, Eq, Structural)]
pub struct InputMapper {
    pub host_screen_w: u16,
    pub host_screen_h: u16,
    pub seq: u16,
    pub last_mouse_x: u16,
    pub last_mouse_y: u16,
}

impl InputMapper {
    /// The mapper after it numbered one message.
    pub open spec fn numbered(self) -> InputMapper {
        InputMapper { seq: self.seq.wrapping_add(1), ..self }
    }

    pub fn new(host_screen_w: u16, host_screen_h: u16) -> (r: InputMapper)
        ensures
            r == (InputMapper {
                host_screen_w,
                host_screen_h,
                seq: 0,
                last_mouse_x: 0,
                last_mouse_y: 0,
            }),
    {
        InputMapper { host_screen_w, host_screen_h, seq: 0, last_mouse_x: 0, last_mouse_y: 0 }
    }

    /// The host told the size of its screen.
    pub fn set_screen_size(&mut self, w: u16, h: u16)
        ensures
            *final(self) == (InputMapper { host_screen_w: w, host_screen_h: h, ..*old(self) }),
    {
        self.host_screen_w = w;
        self.host_screen_h = h;
    }

    /// The next message number. After the largest comes zero.
    pub fn next_seq(&mut self) -> (r: u16)
        ensures
            r == old(self).seq,
            *final(self) == old(self).numbered(),
    {
        let s: u16 = self.seq;
        self.seq = self.seq.wrapping_add(1);
        s
    }

    fn send(&mut self, out: &mut Vec<Packet>, message: Message)
        ensures
            *final(self) == old(self).numbered(),
            packet_views(final(out)@) == packet_views(old(out)@).push(
                PacketView { message: message@, seq: old(self).seq },
            ),
    {
        let seq: u16 = self.next_seq();
        out.push(Packet::new(message, seq));
        assert(packet_views(out@) =~= packet_views(old(out)@).push(
            PacketView { message: message@, seq: old(self).seq },
        ));
    }

    /// The mouse is at `(x, y)`, in parts of 65535 of the host's screen. Only a
    /// move to another place is sent.
    pub fn send_mouse_move(&mut self, out: &mut Vec<Packet>, x: u16, y: u16)
        ensures
            if x == old(self).last_mouse_x && y == old(self).last_mouse_y {
                &&& *final(self) == *old(self)
                &&& packet_views(final(out)@) == packet_views(old(out)@)
            } else {
                &&& *final(self) == (InputMapper {
                    last_mouse_x: x,
                    last_mouse_y: y,
                    ..old(self).numbered()
                })
                &&& packet_views(final(out)@) == packet_views(old(out)@).push(
                    PacketView { message: MessageView::MouseMove { x, y }, seq: old(self).seq },
                )
            },
    {
        if x == self.last_mouse_x && y == self.last_mouse_y {
            return;
        }
        self.last_mouse_x = x;
        self.last_mouse_y = y;
        self.send(out, Message::MouseMove { x, y });
    }

    pub fn send_mouse_button(&mut self, out: &mut Vec<Packet>, button: u8, pressed: bool)
        ensures
            *final(self) == old(self).numbered(),
            packet_views(final(out)@) == packet_views(old(out)@).push(
                PacketView {
                    message: MessageView::MouseButton { button, pressed },
                    seq: old(self).seq,
                },
            ),
    {
        self.send(out, Message::MouseButton { button, pressed });
    }

    pub fn send_mouse_scroll(&mut self, out: &mut Vec<Packet>, delta_x: i16, delta_y: i16)
        ensures
            *final(self) == old(self).numbered(),
            packet_views(final(out)@) == packet_views(old(out)@).push(
                PacketView {
                    message: MessageView::MouseScroll { delta_x, delta_y },
                    seq: old(self).seq,
                },
            ),
    {
        self.send(out, Message::MouseScroll { delta_x, delta_y });
    }

    /// A key went down or up. Keys without a scancode are not sent.
    pub fn send_key(
        &mut self,
        out: &mut Vec<Packet>,
        key: &Key,
        modifiers: &Modifiers,
        pressed: bool,
    )
        ensures
            match scancode_of(*key) {
                None => *final(self) == *old(self) && packet_views(final(out)@) == packet_views(
                    old(out)@,
                ),
                Some(scancode) => {
                    let bits = modifier_bits(*modifiers) as u8;
                    &&& *final(self) == old(self).numbered()
                    &&& packet_views(final(out)@) == packet_views(old(out)@).push(
                        PacketView {
                            message: if pressed {
                                MessageView::KeyDown { scancode, modifiers: bits }
                            } else {
                                MessageView::KeyUp { scancode, modifiers: bits }
                            },
                            seq: old(self).seq,
                        },
                    )
                },
            },
    {
        match egui_key_to_scancode(key) {
            Some(scancode) => {
                let mods: u8 = egui_modifiers_to_u8(modifiers);
                if pressed {
                    self.send(out, Message::KeyDown { scancode, modifiers: mods });
                } else {
                    self.send(out, Message::KeyUp { scancode, modifiers: mods });
                }
            },
            None => {},
        }
    }
}

/// What the user does with the mouse reaches the host as it was done: the same
/// button, the same turn of the wheel, in one message each.
pub proof fn law_mouse_is_passed_on(
    mapper: &mut InputMapper,
    out: &mut Vec<Packet>,
    button: u8,
    pressed: bool,
    delta_x: i16,
    delta_y: i16,
)
    ensures
        call_ensures(InputMapper::send_mouse_button, (mapper, out, button, pressed), ())
            ==> packet_views(final(out)@) == packet_views(old(out)@).push(
            PacketView {
                message: MessageView::MouseButton { button, pressed },
                seq: old(mapper).seq,
            },
        ),
        call_ensures(InputMapper::send_mouse_scroll, (mapper, out, delta_x, delta_y), ())
            ==> packet_views(final(out)@) == packet_views(old(out)@).push(
            PacketView {
                message: MessageView::MouseScroll { delta_x, delta_y },
                seq: old(mapper).seq,
            },
        ),
{
}

/// A move of the mouse to another place is told to the host, place for place; a
/// move to the place that it was told last is not.
pub proof fn law_mouse_moves_once(mapper: &mut InputMapper, out: &mut Vec<Packet>, x: u16, y: u16)
    requires
        call_ensures(InputMapper::send_mouse_move, (mapper, out, x, y), ()),
    ensures
        (final(mapper).last_mouse_x, final(mapper).last_mouse_y) == (x, y),
        (old(mapper).last_mouse_x, old(mapper).last_mouse_y) == (x, y) ==> packet_views(
            final(out)@,
        ) == packet_views(old(out)@) && final(mapper).seq == old(mapper).seq,
        (old(mapper).last_mouse_x, old(mapper).last_mouse_y) != (x, y) ==> packet_views(
            final(out)@,
        ) == packet_views(old(out)@).push(
            PacketView { message: MessageView::MouseMove { x, y }, seq: old(mapper).seq },
        ),
        final(mapper).host_screen_w == old(mapper).host_screen_w,
        final(mapper).host_screen_h == old(mapper).host_screen_h,
{
}

/// A key with a scancode goes to the host, down or up as it went, with the
/// modifiers that were held; one without a scancode does not.
pub proof fn law_key_is_passed_on(
    mapper: &mut InputMapper,
    out: &mut Vec<Packet>,
    key: Key,
    modifiers: Modifiers,
    pressed: bool,
    bits: u8,
)
    requires
        call_ensures(InputMapper::send_key, (mapper, out, &key, &modifiers, pressed), ()),
        call_ensures(egui_modifiers_to_u8, (&modifiers,), bits),
    ensures
        key == Key::Other ==> packet_views(final(out)@) == packet_views(old(out)@)
            && *final(mapper) == *old(mapper),
        scancode_of(key) matches Some(scancode) ==> packet_views(final(out)@) == packet_views(
            old(out)@,
        ).push(
            PacketView {
                message: if pressed {
                    MessageView::KeyDown { scancode, modifiers: bits }
                } else {
                    MessageView::KeyUp { scancode, modifiers: bits }
                },
                seq: old(mapper).seq,
            },
        ),
{
}

/// Messages are numbered one after the other, and after the largest number
/// comes zero. Numbering touches nothing else.
pub proof fn law_numbers_count_up(mapper: &mut InputMapper, n: u16)
    requires
        call_ensures(InputMapper::next_seq, (mapper,), n),
    ensures
        n == old(mapper).seq,
        final(mapper).seq == (n + 1) % 65536,
        *final(mapper) == (InputMapper { seq: final(mapper).seq, ..*old(mapper) }),
{
}

/// The host's word on its screen is taken, and nothing else changes by it.
pub proof fn law_screen_size_is_taken(mapper: &mut InputMapper, w: u16, h: u16)
    requires
        call_ensures(InputMapper::set_screen_size, (mapper, w, h), ()),
    ensures
        final(mapper).host_screen_w == w && final(mapper).host_screen_h == h,
        final(mapper).seq == old(mapper).seq,
        final(mapper).last_mouse_x == old(mapper).last_mouse_x,
        final(mapper).last_mouse_y == old(mapper).last_mouse_y,
{
}

/// A mapper starts with the screen that it is given, and counts from zero.
pub proof fn law_mapper_starts_at_zero(w: u16, h: u16, mapper: InputMapper)
    requires
        call_ensures(InputMapper::new, (w, h), mapper),
    ensures
        mapper.host_screen_w == w && mapper.host_screen_h == h,
        mapper.seq == 0 && mapper.last_mouse_x == 0 && mapper.last_mouse_y == 0,
{
}

} // verus!

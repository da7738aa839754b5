//! The shell inside the window.

use vstd::prelude::*;
use vstd::string::*;
use vstd::utf8::*;

use crate::protocol::{Message, MessageView};
use crate::text::{
    join, join3, push_signed, signed_decimal, stands_at, string_from_utf8_lossy, text_contains, text_of,
    utf8_lossy,
};

verus! {

/// How many bytes of output are kept.
pub const SCROLLBACK_MAX: usize = 65536;

/// What the shell inside the window shows.
#[derive(Debug)]
pub struct ShellPane {
    pub open: bool,
    pub output: String,
    /// What the user is typing.
    pub input: String,
    /// Which shell to open; empty stands for the host's choice.
    pub kind: String,
    /// The shell was just opened, and the input is to get the keyboard.
    pub just_opened: bool,
}

/// `ShellPane` as a mathematical value.
#[verifier::ext_equal]
pub struct Pane {
    pub open: bool,
    pub output: Seq<char>,
    pub input: Seq<char>,
    pub kind: Seq<char>,
    pub just_opened: bool,
}

impl View for ShellPane {
    type V = Pane;

    open spec fn view(&self) -> Pane {
        Pane {
            open: self.open,
            output: self.output@,
            input: self.input@,
            kind: self.kind@,
            just_opened: self.just_opened,
        }
    }
}

/// Whether the beginning of a text can be cut off so that the rest is as long
/// as may be kept: the cut does not fall inside a character.
pub open spec fn can_be_cut(text: Seq<char>) -> bool {
    let bytes = encode_utf8(text);
    bytes.len() > SCROLLBACK_MAX ==> is_char_boundary(bytes, bytes.len() - SCROLLBACK_MAX)
}

/// The end of a text, as much of it as is kept.
pub open spec fn kept_end(text: Seq<char>) -> Seq<char> {
    let bytes = encode_utf8(text);
    if bytes.len() > SCROLLBACK_MAX {
        decode_utf8(bytes.subrange(bytes.len() - SCROLLBACK_MAX, bytes.len() as int))
    } else {
        text
    }
}

/// What is shown when the shell has ended.
pub open spec fn exit_line(code: i32) -> Seq<char> {
    "\n[shell exited with code "@ + signed_decimal(code as int) + "]\n"@
}

/// What is shown of an error.
pub open spec fn error_line(msg: Seq<char>) -> Seq<char> {
    "\n[shell error: "@ + msg + "]\n"@
}

/// What is shown of a line that is sent.
pub open spec fn echo_line(line: Seq<char>) -> Seq<char> {
    "> "@ + line + "\n"@
}

impl Pane {
    /// The pane with more output.
    pub open spec fn showing(self, text: Seq<char>) -> Pane {
        Pane { output: kept_end(self.output + text), ..self }
    }

    /// The pane after the shell has ended.
    pub open spec fn closed(self, text: Seq<char>) -> Pane {
        Pane { open: false, ..self.showing(text) }
    }
}

pub(crate) fn exit_text(code: i32) -> (r: String)
    ensures
        r@ == exit_line(code),
{
    let mut text = "\n[shell exited with code ".to_owned();
    push_signed(&mut text, code);
    text.append("]\n");
    text
}

pub(crate) fn error_text(msg: &str) -> (r: String)
    ensures
        r@ == error_line(msg@),
{
    join3("\n[shell error: ", msg, "]\n")
}

impl ShellPane {
    pub fn new() -> (r: ShellPane)
        ensures
            r@ == (Pane {
                open: false,
                output: Seq::empty(),
                input: Seq::empty(),
                kind: Seq::empty(),
                just_opened: false,
            }),
    {
        ShellPane {
            open: false,
            output: String::new(),
            input: String::new(),
            kind: String::new(),
            just_opened: false,
        }
    }

    /// The user opens the shell. Returns what the host is told; nothing where
    /// it is open already.
    pub fn open_request(&mut self) -> (r: Option<Message>)
        ensures
            old(self).open ==> r is None && final(self)@ == old(self)@,
            !old(self).open ==> {
                &&& r matches Some(m) && m@ == (MessageView::ShellOpen { shell: old(self).kind@ })
                &&& final(self)@ == (Pane {
                    open: true,
                    output: Seq::empty(),
                    just_opened: true,
                    ..old(self)@
                })
            },
    {
        if self.open {
            return None;
        }
        self.open = true;
        self.output = String::new();
        self.just_opened = true;
        Some(Message::ShellOpen { shell: self.kind.clone() })
    }

    /// The user closes the shell. It stays open until the host says that it has
    /// ended.
    pub fn close_request(&self) -> (r: Option<Message>)
        ensures
            r == (if self.open {
                Some(Message::ShellClose)
            } else {
                None
            }),
    {
        if self.open {
            Some(Message::ShellClose)
        } else {
            None
        }
    }

    /// The message that has a line executed.
    pub fn input_message(line: &str) -> (r: Message)
        ensures
            r@ == (MessageView::ShellInput { data: encode_utf8(line@).push(10) }),
    {
        let mut data: Vec<u8> = line.as_bytes_vec();
        data.push(10);
        Message::ShellInput { data }
    }

    /// Whether more output can be shown: see [`can_be_cut`].
    pub fn can_show(&self, text: &str) -> (r: bool)
        ensures
            r == can_be_cut(self.output@ + text@),
    {
        let all = join(self.output.as_str(), text);
        let bytes: usize = all.as_str().as_bytes().len();
        if bytes > SCROLLBACK_MAX {
            all.as_str().is_char_boundary(bytes - SCROLLBACK_MAX)
        } else {
            true
        }
    }

    /// Shows more output, and drops the oldest where there is too much.
    pub fn show(&mut self, text: &str)
        requires
            can_be_cut(old(self).output@ + text@),
        ensures
            final(self)@ == old(self)@.showing(text@),
    {
        self.output.append(text);
        let bytes: usize = self.output.as_str().as_bytes().len();
        if bytes > SCROLLBACK_MAX {
            let excess: usize = bytes - SCROLLBACK_MAX;
            let (_, rest) = self.output.as_str().split_at(excess);
            proof {
                encode_utf8_decode_utf8(rest@);
            }
            let kept = rest.to_owned();
            self.output = kept;
        }
    }

    /// Shows what the shell put out. What is not UTF-8 in it is replaced.
    pub fn shell_append_output(&mut self, bytes: &[u8])
        requires
            can_be_cut(old(self).output@ + text_of(bytes@)),
        ensures
            final(self)@ == old(self)@.showing(text_of(bytes@)),
    {
        let text = string_from_utf8_lossy(bytes);
        self.show(text.as_str());
    }

    /// Shows what the shell put out, where [`can_be_cut`] allows it. Returns
    /// whether it did; else nothing is changed.
    pub fn try_append_output(&mut self, bytes: &[u8]) -> (r: bool)
        ensures
            r == can_be_cut(old(self).output@ + text_of(bytes@)),
            r ==> final(self)@ == old(self)@.showing(text_of(bytes@)),
            !r ==> final(self)@ == old(self)@,
    {
        let text = string_from_utf8_lossy(bytes);
        if self.can_show(text.as_str()) {
            self.shell_append_output(bytes);
            true
        } else {
            false
        }
    }

    /// The user sends the line that was typed: it is shown and leaves the
    /// input. Returns what the host is told.
    pub fn submit(&mut self) -> (r: Message)
        requires
            can_be_cut(old(self).output@ + echo_line(old(self).input@)),
        ensures
            r@ == (MessageView::ShellInput { data: encode_utf8(old(self).input@).push(10) }),
            final(self)@ == (Pane { input: Seq::empty(), ..old(self)@ }).showing(
                echo_line(old(self).input@),
            ),
    {
        let message = ShellPane::input_message(self.input.as_str());
        let echo = join3("> ", self.input.as_str(), "\n");
        self.input = String::new();
        self.show(echo.as_str());
        message
    }

    /// The name of the shell that is opened.
    pub fn kind_label(&self) -> (r: String)
        ensures
            r@ == (if self.kind@.len() == 0 {
                "default"@
            } else {
                self.kind@
            }),
    {
        if self.kind.as_str().is_empty() {
            "default".to_owned()
        } else {
            self.kind.clone()
        }
    }
}

/// However much the shell puts out, no more than the limit is kept, and what is
/// kept is the end of it.
pub proof fn law_scrollback_is_bounded(text: Seq<char>)
    requires
        can_be_cut(text),
    ensures
        encode_utf8(kept_end(text)).len() <= SCROLLBACK_MAX,
        encode_utf8(text).len() <= SCROLLBACK_MAX ==> kept_end(text) == text,
        encode_utf8(text).len() > SCROLLBACK_MAX ==> {
            let bytes = encode_utf8(text);
            &&& encode_utf8(kept_end(text)).len() == SCROLLBACK_MAX
            &&& encode_utf8(kept_end(text)) == bytes.subrange(
                bytes.len() - SCROLLBACK_MAX,
                bytes.len() as int,
            )
        },
{
    let bytes = encode_utf8(text);
    if bytes.len() > SCROLLBACK_MAX {
        let cut = bytes.len() - SCROLLBACK_MAX;
        encode_utf8_valid_utf8(text);
        valid_utf8_split(bytes, cut);
        decode_utf8_encode_utf8(bytes.subrange(cut, bytes.len() as int));
    }
}

/// Text in which every character is one byte can always be shown.
pub proof fn law_ascii_output_is_always_shown(text: Seq<char>)
    requires
        is_ascii_chars(text),
    ensures
        can_be_cut(text),
{
    is_ascii_chars_encode_utf8(text);
    encode_utf8_valid_utf8(text);
    let bytes = encode_utf8(text);
    if bytes.len() > SCROLLBACK_MAX {
        let cut = bytes.len() - SCROLLBACK_MAX;
        is_char_boundary_iff_not_is_continuation_byte(bytes, cut);
        let b = bytes[cut];
        assert(b == text[cut] as u8);
        assert(b < 128);
        assert(b < 128 ==> !is_continuation_byte(b)) by (bit_vector);
    }
}

/// What the shell puts out is shown behind what is there, whole as long as there
/// is room; beyond that the oldest goes, and what stays ends with what was put
/// out last. Nothing else of the pane changes.
pub proof fn law_output_is_appended(pane: &mut ShellPane, text: &str)
    requires
        call_ensures(ShellPane::show, (pane, text), ()),
        can_be_cut(old(pane).output@ + text@),
    ensures
        encode_utf8(old(pane).output@ + text@).len() <= 65536 ==> final(pane)@.output
            == old(pane)@.output + text@,
        encode_utf8(old(pane).output@ + text@).len() > 65536 ==> ({
            let all = encode_utf8(old(pane).output@ + text@);
            encode_utf8(final(pane)@.output) == all.subrange(all.len() - 65536, all.len() as int)
        }),
        final(pane)@ == (Pane { output: final(pane)@.output, ..old(pane)@ }),
{
    law_scrollback_is_bounded(old(pane).output@ + text@);
}

/// Bytes that the shell puts out are shown as the text that they encode.
pub proof fn law_output_is_shown_as_text(pane: &mut ShellPane, bytes: &[u8], taken: bool)
    requires
        call_ensures(ShellPane::try_append_output, (pane, bytes), taken),
        valid_utf8(bytes@),
        encode_utf8(old(pane).output@ + decode_utf8(bytes@)).len() <= 65536,
    ensures
        taken,
        final(pane)@ == (Pane {
            output: old(pane)@.output + decode_utf8(bytes@),
            ..old(pane)@
        }),
{
}

/// Opening a shell that is not open asks the host for the one that the user
/// chose, and starts with an empty pane; one that is open is not opened again.
pub proof fn law_shell_is_opened_once(pane: &mut ShellPane, r: Option<Message>)
    requires
        call_ensures(ShellPane::open_request, (pane,), r),
    ensures
        r is Some <==> !old(pane).open,
        r matches Some(m) ==> m@ == (MessageView::ShellOpen { shell: old(pane).kind@ }),
        final(pane).open,
        !old(pane).open ==> final(pane).output@.len() == 0 && final(pane).just_opened,
        old(pane).open ==> final(pane)@ == old(pane)@,
        final(pane).input@ == old(pane).input@ && final(pane).kind@ == old(pane).kind@,
{
}

/// Only a shell that is open is closed.
pub proof fn law_open_shell_is_closed(pane: ShellPane, r: Option<Message>)
    requires
        call_ensures(ShellPane::close_request, (&pane,), r),
    ensures
        pane.open ==> (r matches Some(m) && m is ShellClose),
        !pane.open ==> r is None,
{
}

/// A line that the user sends goes to the host with the newline that has it
/// executed, is shown, and leaves the input.
pub proof fn law_sent_line_is_executed(pane: &mut ShellPane, r: Message)
    requires
        call_ensures(ShellPane::submit, (pane,), r),
        can_be_cut(old(pane).output@ + echo_line(old(pane).input@)),
    ensures
        r@ == (MessageView::ShellInput { data: encode_utf8(old(pane).input@) + seq![10u8] }),
        final(pane).input@.len() == 0,
        final(pane).open == old(pane).open && final(pane).kind@ == old(pane).kind@,
        encode_utf8(old(pane).output@ + "> "@ + old(pane).input@ + "\n"@).len() <= 65536 ==> final(pane).output@ == old(pane).output@ + "> "@ + old(pane).input@ + "\n"@,
{
    let data = encode_utf8(old(pane).input@);
    assert(data.push(10) =~= data + seq![10u8]);
    assert(old(pane).output@ + echo_line(old(pane).input@) =~= old(pane).output@ + "> "@ + old(pane).input@ + "\n"@);
}

/// The end of a shell is shown with its exit code, and an error in the host's
/// words.
pub proof fn law_end_is_shown_with_its_cause(code: i32, msg: Seq<char>)
    ensures
        text_contains(exit_line(code), signed_decimal(code as int)),
        text_contains(error_line(msg), msg),
{
    let of_exit = exit_line(code);
    let of_error = error_line(msg);
    let a = "\n[shell exited with code "@;
    let n = signed_decimal(code as int);
    assert(of_exit.subrange(a.len() as int, (a.len() + n.len()) as int) =~= n);
    assert(stands_at(of_exit, n, a.len() as int));
    let b = "\n[shell error: "@;
    assert(of_error.subrange(b.len() as int, (b.len() + msg.len()) as int) =~= msg);
    assert(stands_at(of_error, msg, b.len() as int));
}

/// The shell that is opened is named as the user named it.
pub proof fn law_shell_is_named(pane: ShellPane, r: String)
    requires
        call_ensures(ShellPane::kind_label, (&pane,), r),
    ensures
        pane.kind@.len() > 0 ==> r@ == pane.kind@,
        pane.kind@.len() == 0 ==> r@ == "default"@,
{
}

/// A line is executed by its bytes and a newline, and bytes that the shell puts
/// out are shown as the text that they encode.
pub proof fn law_lines_go_out_and_come_in_as_text(
    line: &str,
    message: Message,
    pane: &mut ShellPane,
    bytes: &[u8],
)
    ensures
        call_ensures(ShellPane::input_message, (line,), message) ==> message@ == (
        MessageView::ShellInput { data: encode_utf8(line@) + seq![10u8] }),
        call_ensures(ShellPane::shell_append_output, (pane, bytes), ()) ==> valid_utf8(bytes@)
            && encode_utf8(old(pane).output@ + decode_utf8(bytes@)).len() <= 65536 ==> final(pane)@
            == (Pane { output: old(pane)@.output + decode_utf8(bytes@), ..old(pane)@ }),
{
    assert(encode_utf8(line@).push(10) =~= encode_utf8(line@) + seq![10u8]);
}

/// A pane starts closed and empty.
pub proof fn law_pane_starts_empty(pane: ShellPane)
    requires
        call_ensures(ShellPane::new, (), pane),
    ensures
        !pane.open && !pane.just_opened,
        pane.output@.len() == 0 && pane.input@.len() == 0 && pane.kind@.len() == 0,
{
}

/// Output that is not UTF-8 is shown with replacement characters, and is
/// appended like any other; what does not fit the pane's cut is not taken at
/// all.
pub proof fn law_broken_output_is_shown_too(pane: &mut ShellPane, bytes: &[u8], taken: bool)
    requires
        call_ensures(ShellPane::try_append_output, (pane, bytes), taken),
    ensures
        !valid_utf8(bytes@) && encode_utf8(old(pane).output@ + utf8_lossy(bytes@)).len() <= 65536
            ==> taken && final(pane)@ == (Pane {
            output: old(pane)@.output + utf8_lossy(bytes@),
            ..old(pane)@
        }),
        !taken ==> final(pane)@ == old(pane)@,
{
}

} // verus!

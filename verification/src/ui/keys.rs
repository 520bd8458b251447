//! Terminal key input: decoding of the Unix byte stream and of Windows
//! console key records into [`Key`]s.

use vstd::prelude::*;

verus! {

/// A key press as seen by the dialogs.
#[derive(Debug, Clone, Copy, PartialEq, Eq)]
pub enum Key {
    Char(char),
    Enter,
    Esc,
    Backspace,
    Tab,
    BackTab,
    CtrlC,
    Up,
    Down,
    Left,
    Right,
}

/// Where the Unix decoder stands in an escape sequence.
#[derive(Debug, Clone, Copy, PartialEq, Eq)]
pub enum DecodeState {
    /// Between keys.
    Ground,
    /// After an ESC byte.
    Escape,
    /// After `ESC [`.
    Csi,
    /// Inside an unknown CSI sequence, discarding bytes up to its `m`/`M` terminator.
    Drain,
}

/// What the caller observed while waiting for the next byte.
#[derive(Debug, Clone, Copy, PartialEq, Eq)]
pub enum ByteEvent {
    /// A byte arrived.
    Byte(u8),
    /// No byte arrived within the wait window.
    Quiet,
}

/// How long the caller waits for the next byte.
#[derive(Debug, Clone, Copy, PartialEq, Eq)]
pub enum Wait {
    /// Wait until a byte arrives.
    Block,
    /// Wait at most this many milliseconds.
    Millis(u32),
}

/// Decoder for the byte stream of a Unix terminal in raw mode.
///
/// The caller waits as [`KeyDecoder::wait`] says, then reports the byte (or
/// the quiet period) to [`KeyDecoder::feed`], until a key comes out.
#[derive(Debug)]
pub struct KeyDecoder {
    pub state: DecodeState,
}

/// The key of a byte read between keys, if the byte stands for one.
pub open spec fn ground_key(b: u8) -> Option<Key> {
    if b == 0x0d || b == 0x0a {
        Some(Key::Enter)
    } else if b == 0x7f || b == 0x08 {
        Some(Key::Backspace)
    } else if b == 0x03 {
        Some(Key::CtrlC)
    } else if b == 0x09 {
        Some(Key::Tab)
    } else if 0x20 <= b && b <= 0x7e {
        Some(Key::Char(b as char))
    } else {
        None
    }
}

/// The key of the final byte of `ESC [ x`, if it is one of the known ones.
pub open spec fn csi_key(b: u8) -> Option<Key> {
    if b == 0x41 {
        Some(Key::Up)
    } else if b == 0x42 {
        Some(Key::Down)
    } else if b == 0x43 {
        Some(Key::Right)
    } else if b == 0x44 {
        Some(Key::Left)
    } else if b == 0x5a {
        Some(Key::BackTab)
    } else {
        None
    }
}

/// One step of the decoder: the next state and the key completed, if any.
pub open spec fn decode_step(st: DecodeState, ev: ByteEvent) -> (DecodeState, Option<Key>) {
    match st {
        DecodeState::Ground => match ev {
            ByteEvent::Byte(b) => if b == 0x1b {
                (DecodeState::Escape, None)
            } else {
                (DecodeState::Ground, ground_key(b))
            },
            ByteEvent::Quiet => (DecodeState::Ground, None),
        },
        DecodeState::Escape => match ev {
            ByteEvent::Quiet => (DecodeState::Ground, Some(Key::Esc)),
            ByteEvent::Byte(b) => if b == 0x5b {
                (DecodeState::Csi, None)
            } else {
                (DecodeState::Ground, None)
            },
        },
        DecodeState::Csi => match ev {
            ByteEvent::Quiet => (DecodeState::Ground, None),
            ByteEvent::Byte(b) => match csi_key(b) {
                Some(k) => (DecodeState::Ground, Some(k)),
                None => (DecodeState::Drain, None),
            },
        },
        DecodeState::Drain => match ev {
            ByteEvent::Quiet => (DecodeState::Ground, None),
            ByteEvent::Byte(b) => if b == 0x6d || b == 0x4d {
                (DecodeState::Ground, None)
            } else {
                (DecodeState::Drain, None)
            },
        },
    }
}

/// How long to wait in each state: block between keys, 50 ms for the rest
/// of an escape sequence, 5 ms while draining an unknown one.
pub open spec fn wait_for(st: DecodeState) -> Wait {
    match st {
        DecodeState::Ground => Wait::Block,
        DecodeState::Escape => Wait::Millis(50),
        DecodeState::Csi => Wait::Millis(50),
        DecodeState::Drain => Wait::Millis(5),
    }
}

/// The keys decoded from a whole series of events, starting in `st`.
pub open spec fn decode_all(st: DecodeState, evs: Seq<ByteEvent>) -> Seq<Key>
    decreases evs.len(),
{
    if evs.len() == 0 {
        Seq::empty()
    } else {
        let (next, k) = decode_step(st, evs[0]);
        let rest = decode_all(next, evs.drop_first());
        match k {
            Some(key) => seq![key] + rest,
            None => rest,
        }
    }
}

/// Whether every byte of `bytes` is printable ASCII.
pub open spec fn printable(bytes: Seq<u8>) -> bool {
    forall|i: int| 0 <= i < bytes.len() ==> 0x20 <= #[trigger] bytes[i] && bytes[i] <= 0x7e
}

/// Typed text arrives as a series of byte events.
pub open spec fn as_events(bytes: Seq<u8>) -> Seq<ByteEvent> {
    bytes.map_values(|b: u8| ByteEvent::Byte(b))
}

/// Printable text decodes to exactly its characters, in order.
pub proof fn lemma_printable_text_decodes(bytes: Seq<u8>)
    requires
        printable(bytes),
    ensures
        decode_all(DecodeState::Ground, as_events(bytes)) == bytes.map_values(|b: u8| Key::Char(b as char)),
    decreases bytes.len(),
{
    let evs = as_events(bytes);
    if bytes.len() == 0 {
        assert(bytes.map_values(|b: u8| Key::Char(b as char)) =~= Seq::<Key>::empty());
    } else {
        let rest = bytes.drop_first();
        assert(printable(rest)) by {
            assert forall|i: int| 0 <= i < rest.len() implies 0x20 <= #[trigger] rest[i] && rest[i] <= 0x7e by {
                assert(rest[i] == bytes[i + 1]);
            }
        }
        lemma_printable_text_decodes(rest);
        assert(evs.drop_first() =~= as_events(rest));
        assert(evs[0] == ByteEvent::Byte(bytes[0]));
        assert(0x20 <= bytes[0] && bytes[0] <= 0x7e);
        assert(bytes.map_values(|b: u8| Key::Char(b as char)) =~= seq![Key::Char(bytes[0] as char)]
            + rest.map_values(|b: u8| Key::Char(b as char)));
    }
}

/// Every key completes a sequence: after any key the decoder is between keys again.
pub proof fn lemma_key_returns_to_ground(st: DecodeState, ev: ByteEvent)
    ensures
        decode_step(st, ev).1 is Some ==> decode_step(st, ev).0 == DecodeState::Ground,
{
}

/// An arrow or Shift+Tab sequence `ESC [ x` decodes to its key, whatever preceded it between keys.
pub proof fn lemma_csi_sequence(b: u8)
    requires
        csi_key(b) is Some,
    ensures
        decode_all(DecodeState::Ground, seq![ByteEvent::Byte(0x1b), ByteEvent::Byte(0x5b), ByteEvent::Byte(b)])
            == seq![csi_key(b)->0],
{
    reveal_with_fuel(decode_all, 4);
    let evs = seq![ByteEvent::Byte(0x1bu8), ByteEvent::Byte(0x5bu8), ByteEvent::Byte(b)];
    assert(evs.drop_first() =~= seq![ByteEvent::Byte(0x5bu8), ByteEvent::Byte(b)]);
    assert(evs.drop_first().drop_first() =~= seq![ByteEvent::Byte(b)]);
    assert(evs.drop_first().drop_first().drop_first() =~= Seq::<ByteEvent>::empty());
    assert(decode_all(DecodeState::Ground, evs.drop_first().drop_first().drop_first()) == Seq::<Key>::empty());
    assert(seq![csi_key(b)->0] + Seq::<Key>::empty() =~= seq![csi_key(b)->0]);
}

impl KeyDecoder {
    /// A decoder between keys.
    pub fn new() -> (d: Self)
        ensures
            d.state == DecodeState::Ground,
    {
        KeyDecoder { state: DecodeState::Ground }
    }

    /// How long to wait for the next byte.
    pub fn wait(&self) -> (w: Wait)
        ensures
            w == wait_for(self.state),
    {
        match self.state {
            DecodeState::Ground => Wait::Block,
            DecodeState::Escape => Wait::Millis(50),
            DecodeState::Csi => Wait::Millis(50),
            DecodeState::Drain => Wait::Millis(5),
        }
    }

    /// Report what the wait produced; returns the key it completes, if any.
    pub fn feed(&mut self, ev: ByteEvent) -> (k: Option<Key>)
        ensures
            (final(self).state, k) == decode_step(old(self).state, ev),
    {
        let (next, key) = match self.state {
            DecodeState::Ground => match ev {
                ByteEvent::Byte(b) => if b == 0x1b {
                    (DecodeState::Escape, None)
                } else if b == 0x0d || b == 0x0a {
                    (DecodeState::Ground, Some(Key::Enter))
                } else if b == 0x7f || b == 0x08 {
                    (DecodeState::Ground, Some(Key::Backspace))
                } else if b == 0x03 {
                    (DecodeState::Ground, Some(Key::CtrlC))
                } else if b == 0x09 {
                    (DecodeState::Ground, Some(Key::Tab))
                } else if 0x20 <= b && b <= 0x7e {
                    (DecodeState::Ground, Some(Key::Char(b as char)))
                } else {
                    (DecodeState::Ground, None)
                },
                ByteEvent::Quiet => (DecodeState::Ground, None),
            },
            DecodeState::Escape => match ev {
                ByteEvent::Quiet => (DecodeState::Ground, Some(Key::Esc)),
                ByteEvent::Byte(b) => if b == 0x5b {
                    (DecodeState::Csi, None)
                } else {
                    (DecodeState::Ground, None)
                },
            },
            DecodeState::Csi => match ev {
                ByteEvent::Quiet => (DecodeState::Ground, None),
                ByteEvent::Byte(b) => if b == 0x41 {
                    (DecodeState::Ground, Some(Key::Up))
                } else if b == 0x42 {
                    (DecodeState::Ground, Some(Key::Down))
                } else if b == 0x43 {
                    (DecodeState::Ground, Some(Key::Right))
                } else if b == 0x44 {
                    (DecodeState::Ground, Some(Key::Left))
                } else if b == 0x5a {
                    (DecodeState::Ground, Some(Key::BackTab))
                } else {
                    (DecodeState::Drain, None)
                },
            },
            DecodeState::Drain => match ev {
                ByteEvent::Quiet => (DecodeState::Ground, None),
                ByteEvent::Byte(b) => if b == 0x6d || b == 0x4d {
                    (DecodeState::Ground, None)
                } else {
                    (DecodeState::Drain, None)
                },
            },
        };
        self.state = next;
        key
    }
}

/// `char::from_u32`: the character with this scalar value, if it is one.
#[verifier::external_body]
fn char_from_u32(u: u32) -> (r: Option<char>)
    ensures
        r is Some <==> (u <= 0x10ffff && !(0xd800 <= u && u <= 0xdfff)),
        r matches Some(c) ==> c as u32 == u,
{
    char::from_u32(u)
}

/// Virtual-key code of the left arrow.
pub const VK_LEFT: u16 = 0x25;
/// Virtual-key code of the up arrow.
pub const VK_UP: u16 = 0x26;
/// Virtual-key code of the right arrow.
pub const VK_RIGHT: u16 = 0x27;
/// Virtual-key code of the down arrow.
pub const VK_DOWN: u16 = 0x28;
/// `SHIFT_PRESSED` bit of a console key record's control state.
pub const SHIFT_PRESSED: u32 = 0x0010;

/// The key of a Windows console input record.
pub open spec fn record_key(is_key_event: bool, key_down: bool, unicode: u16, control_state: u32, virtual_key: u16) -> Option<Key> {
    if !is_key_event || !key_down {
        None
    } else if unicode == 0x0003 {
        Some(Key::CtrlC)
    } else if unicode == 0x000d || unicode == 0x000a {
        Some(Key::Enter)
    } else if unicode == 0x0008 || unicode == 0x007f {
        Some(Key::Backspace)
    } else if unicode == 0x0009 {
        if control_state & SHIFT_PRESSED != 0 { Some(Key::BackTab) } else { Some(Key::Tab) }
    } else if unicode == 0x001b {
        Some(Key::Esc)
    } else if unicode == 0 {
        if virtual_key == VK_LEFT {
            Some(Key::Left)
        } else if virtual_key == VK_UP {
            Some(Key::Up)
        } else if virtual_key == VK_RIGHT {
            Some(Key::Right)
        } else if virtual_key == VK_DOWN {
            Some(Key::Down)
        } else {
            None
        }
    } else if 0xd800 <= unicode && unicode <= 0xdfff {
        None
    } else {
        Some(Key::Char(char_of_code(unicode)))
    }
}

/// The character whose scalar value is `u` (meaningful outside the surrogate range).
pub open spec fn char_of_code(u: u16) -> char {
    (u as u32) as char
}

/// Map a console input record (`ReadConsoleInputW`) to a key: key-up and
/// non-key events, unhandled control keys and surrogate halves give `None`.
pub fn input_record_to_key(is_key_event: bool, key_down: bool, unicode: u16, control_state: u32, virtual_key: u16) -> (k: Option<Key>)
    ensures
        k == record_key(is_key_event, key_down, unicode, control_state, virtual_key),
{
    if !is_key_event || !key_down {
        None
    } else if unicode == 0x0003 {
        Some(Key::CtrlC)
    } else if unicode == 0x000d || unicode == 0x000a {
        Some(Key::Enter)
    } else if unicode == 0x0008 || unicode == 0x007f {
        Some(Key::Backspace)
    } else if unicode == 0x0009 {
        if control_state & SHIFT_PRESSED != 0 { Some(Key::BackTab) } else { Some(Key::Tab) }
    } else if unicode == 0x001b {
        Some(Key::Esc)
    } else if unicode == 0 {
        if virtual_key == VK_LEFT {
            Some(Key::Left)
        } else if virtual_key == VK_UP {
            Some(Key::Up)
        } else if virtual_key == VK_RIGHT {
            Some(Key::Right)
        } else if virtual_key == VK_DOWN {
            Some(Key::Down)
        } else {
            None
        }
    } else if 0xd800 <= unicode && unicode <= 0xdfff {
        None
    } else {
        match char_from_u32(unicode as u32) {
            Some(c) => {
                proof {
                    vstd::utf8::char_u32_cast(c, unicode as u32);
                }
                Some(Key::Char(c))
            },
            None => None,
        }
    }
}

// ---------------------------------------------------------------------------
// Events of the terminal event library
// ---------------------------------------------------------------------------

/// A key event code as the terminal event library reports it, reduced to
/// the codes the dialogs read; everything else, and any event that is not
/// a key press, is `Other`.
#[derive(Debug, Clone, Copy, PartialEq, Eq)]
pub enum EventCode {
    Enter,
    Esc,
    Backspace,
    Tab,
    Left,
    Right,
    Char(char),
    Other,
}

/// The key an event stands for: `c` with Control held is Ctrl+C; other
/// codes map one to one; `Other` is no key.
pub open spec fn event_key_spec(code: EventCode, control: bool) -> Option<Key> {
    match code {
        EventCode::Enter => Some(Key::Enter),
        EventCode::Esc => Some(Key::Esc),
        EventCode::Backspace => Some(Key::Backspace),
        EventCode::Tab => Some(Key::Tab),
        EventCode::Left => Some(Key::Left),
        EventCode::Right => Some(Key::Right),
        EventCode::Char(c) => if control && c == 'c' { Some(Key::CtrlC) } else { Some(Key::Char(c)) },
        EventCode::Other => None,
    }
}

/// Map a key event of the terminal event library to a key.
pub fn crossterm_event_to_key(code: EventCode, control: bool) -> (k: Option<Key>)
    ensures
        k == event_key_spec(code, control),
{
    match code {
        EventCode::Enter => Some(Key::Enter),
        EventCode::Esc => Some(Key::Esc),
        EventCode::Backspace => Some(Key::Backspace),
        EventCode::Tab => Some(Key::Tab),
        EventCode::Left => Some(Key::Left),
        EventCode::Right => Some(Key::Right),
        EventCode::Char(c) => {
            if control && c == 'c' {
                Some(Key::CtrlC)
            } else {
                Some(Key::Char(c))
            }
        },
        EventCode::Other => None,
    }
}

} // verus!

//! PS/2 keyboard decoding, scan code set 1 (XT).
//! Tracks Shift and Caps Lock and queues the decoded events in a ring buffer.

use vstd::prelude::*;
use crate::input::InputEvent;

verus! {

/// Number of slots of the event ring buffer; one slot always stays free,
/// so at most `BUF_SIZE - 1` events are pending.
pub const BUF_SIZE: usize = 256;

/// The slot that holds the `i`-th pending event when reading starts at `read`.
pub open spec fn slot(read: int, i: int) -> int {
    if read + i < BUF_SIZE { read + i } else { read + i - BUF_SIZE }
}

/// Fixed-capacity FIFO queue of input events.
pub struct RingBuffer {
    buf: Vec<Option<InputEvent>>,
    read: usize,
    write: usize,
}

impl RingBuffer {
    /// Number of pending events.
    pub closed spec fn len_spec(&self) -> nat {
        if self.write >= self.read {
            (self.write - self.read) as nat
        } else {
            (self.write + BUF_SIZE - self.read) as nat
        }
    }

    /// The pending events, oldest first.
    pub closed spec fn view(&self) -> Seq<InputEvent> {
        Seq::new(self.len_spec(), |i: int| self.buf@[slot(self.read as int, i)]->Some_0)
    }

    /// Where the next event will be read from.
    pub closed spec fn read_index(&self) -> int {
        self.read as int
    }

    /// Where the next event will be written to.
    pub closed spec fn write_index(&self) -> int {
        self.write as int
    }

    /// The slots of the buffer: the pending events sit from `read_index()`
    /// on, wrapping around.
    pub closed spec fn slots(&self) -> Seq<Option<InputEvent>> {
        self.buf@
    }

    #[verifier::type_invariant]
    spec fn wf(&self) -> bool {
        &&& self.buf.len() == BUF_SIZE
        &&& self.read < BUF_SIZE
        &&& self.write < BUF_SIZE
        &&& forall|i: int| 0 <= i < self.len_spec() ==> (#[trigger] self.buf@[slot(self.read as int, i)]) is Some
    }

    proof fn lemma_len_bound(&self)
        requires
            self.wf(),
        ensures
            self@.len() < BUF_SIZE,
            self@.len() == self.len_spec(),
            slot(self.read as int, self.len_spec() as int) == self.write,
    {
    }

    /// An empty queue.
    pub fn new() -> (rb: RingBuffer)
        ensures
            rb@ == Seq::<InputEvent>::empty(),
            rb.read_index() == 0,
            rb.write_index() == 0,
            rb.slots() == Seq::new(BUF_SIZE as nat, |i: int| None::<InputEvent>),
    {
        let mut buf: Vec<Option<InputEvent>> = Vec::new();
        let mut i: usize = 0;
        while i < BUF_SIZE
            invariant
                i <= BUF_SIZE,
                buf.len() == i,
                forall|j: int| 0 <= j < i ==> buf@[j] is None,
            decreases BUF_SIZE - i,
        {
            buf.push(None);
            i = i + 1;
        }
        let rb = RingBuffer { buf, read: 0, write: 0 };
        assert(rb@ =~= Seq::<InputEvent>::empty());
        assert(rb.slots() =~= Seq::new(BUF_SIZE as nat, |i: int| None::<InputEvent>));
        rb
    }

    /// Appends `ev` at the back of the queue: it goes in the write slot,
    /// and the write index moves on by one, wrapping around. When
    /// `BUF_SIZE - 1` events are already pending the event is dropped and the
    /// buffer is left as it was. The read index never moves.
    pub fn push(&mut self, ev: InputEvent)
        ensures
            final(self).read_index() == old(self).read_index(),
            old(self)@.len() < BUF_SIZE - 1 ==> {
                &&& final(self)@ == old(self)@.push(ev)
                &&& final(self).write_index() == (old(self).write_index() + 1) % (BUF_SIZE as int)
                &&& final(self).slots() == old(self).slots().update(old(self).write_index(), Some(ev))
            },
            old(self)@.len() >= BUF_SIZE - 1 ==> *final(self) == *old(self),
            0 <= final(self).read_index() < BUF_SIZE,
            0 <= final(self).write_index() < BUF_SIZE,
            final(self).slots().len() == BUF_SIZE,
    {
        proof {
            use_type_invariant(&*self);
            self.lemma_len_bound();
        }
        let next = (self.write + 1) % BUF_SIZE;
        if next != self.read {
            let ghost old_self = *self;
            let w = self.write;
            assert forall|i: int| 0 <= i < old_self.len_spec() implies slot(self.read as int, i) != w by {}
            self.buf[w] = Some(ev);
            self.write = next;
            assert(self.len_spec() == old_self.len_spec() + 1);
            assert forall|i: int| 0 <= i < old_self.len_spec() implies slot(self.read as int, i) != old_self.write by {}
            assert(self@ =~= old_self@.push(ev));
        }
    }

    /// Removes and returns the oldest pending event, or `None` when the
    /// queue is empty: its slot is emptied and the read index moves on by
    /// one, wrapping around. The write index never moves, and an empty
    /// buffer is left as it was.
    pub fn pop(&mut self) -> (r: Option<InputEvent>)
        ensures
            final(self).write_index() == old(self).write_index(),
            old(self)@.len() == 0 <==> old(self).read_index() == old(self).write_index(),
            old(self)@.len() == 0 ==> r == None::<InputEvent> && *final(self) == *old(self),
            old(self)@.len() > 0 ==> {
                &&& r == Some(old(self)@[0])
                &&& r == old(self).slots()[old(self).read_index()]
                &&& final(self)@ == old(self)@.drop_first()
                &&& final(self).read_index() == (old(self).read_index() + 1) % (BUF_SIZE as int)
                &&& final(self).slots() == old(self).slots().update(old(self).read_index(), None)
            },
            0 <= final(self).read_index() < BUF_SIZE,
            0 <= final(self).write_index() < BUF_SIZE,
            final(self).slots().len() == BUF_SIZE,
    {
        proof {
            use_type_invariant(&*self);
            self.lemma_len_bound();
        }
        if self.read == self.write {
            return None;
        }
        let ghost old_self = *self;
        let r = self.read;
        let ev = self.buf[r];
        assert(old_self.buf@[slot(old_self.read as int, 0)] is Some);
        let nr = (self.read + 1) % BUF_SIZE;
        assert forall|i: int| 0 <= i < old_self.len_spec() - 1 implies
            slot(nr as int, i) == slot(old_self.read as int, i + 1)
            && slot(nr as int, i) != r by {}
        self.read = nr;
        self.buf[r] = None;
        assert(self.len_spec() + 1 == old_self.len_spec());
        assert forall|i: int| 0 <= i < self.len_spec() implies
            slot(self.read as int, i) == slot(old_self.read as int, i + 1)
            && slot(self.read as int, i) != old_self.read by {}
        assert(self@ =~= old_self@.drop_first());
        ev
    }
}

/// Events leave the queue in the order they entered it: popping after a
/// push gives back the oldest pending event, and the pushed one only when
/// the queue was empty; the rest of the queue keeps its order.
pub proof fn queue_is_fifo(q: Seq<InputEvent>, e: InputEvent)
    ensures
        q.len() == 0 ==> q.push(e)[0] == e && q.push(e).drop_first() == q,
        q.len() > 0 ==> q.push(e)[0] == q[0] && q.push(e).drop_first() == q.drop_first().push(e),
{
    assert(q.len() == 0 ==> q.push(e).drop_first() =~= q);
    assert(q.len() > 0 ==> q.push(e).drop_first() =~= q.drop_first().push(e));
}

/// State of the modifier keys.
struct ModState {
    shift: bool,
    capslock: bool,
}

/// The keyboard driver state: modifiers and the queue of decoded events.
pub struct Keyboard {
    buffer: RingBuffer,
    mods: ModState,
}

impl Keyboard {
    /// The queued events, oldest first.
    pub closed spec fn events(&self) -> Seq<InputEvent> {
        self.buffer@
    }

    /// Whether a Shift key is held.
    pub closed spec fn shift(&self) -> bool {
        self.mods.shift
    }

    /// Whether Caps Lock is on.
    pub closed spec fn caps_lock(&self) -> bool {
        self.mods.capslock
    }

    /// A keyboard with no modifier active and no pending event.
    pub fn new() -> (kb: Keyboard)
        ensures
            kb.events() == Seq::<InputEvent>::empty(),
            !kb.shift(),
            !kb.caps_lock(),
    {
        Keyboard { buffer: RingBuffer::new(), mods: ModState { shift: false, capslock: false } }
    }
}

/// Whether `c` is an ASCII letter.
pub open spec fn is_ascii_letter(c: char) -> bool {
    ('a' <= c && c <= 'z') || ('A' <= c && c <= 'Z')
}

fn is_letter(c: char) -> (b: bool)
    ensures
        b == is_ascii_letter(c),
{
    ('a' <= c && c <= 'z') || ('A' <= c && c <= 'Z')
}

/// The (unshifted, shifted) characters of a printable key of scan code set 1.
pub open spec fn key_chars(sc: u8) -> Option<(char, char)> {
    if sc == 0x02 { Some(('1', '!')) }
    else if sc == 0x03 { Some(('2', '@')) }
    else if sc == 0x04 { Some(('3', '#')) }
    else if sc == 0x05 { Some(('4', '$')) }
    else if sc == 0x06 { Some(('5', '%')) }
    else if sc == 0x07 { Some(('6', '^')) }
    else if sc == 0x08 { Some(('7', '&')) }
    else if sc == 0x09 { Some(('8', '*')) }
    else if sc == 0x0A { Some(('9', '(')) }
    else if sc == 0x0B { Some(('0', ')')) }
    else if sc == 0x0C { Some(('-', '_')) }
    else if sc == 0x0D { Some(('=', '+')) }
    else if sc == 0x10 { Some(('q', 'Q')) }
    else if sc == 0x11 { Some(('w', 'W')) }
    else if sc == 0x12 { Some(('e', 'E')) }
    else if sc == 0x13 { Some(('r', 'R')) }
    else if sc == 0x14 { Some(('t', 'T')) }
    else if sc == 0x15 { Some(('y', 'Y')) }
    else if sc == 0x16 { Some(('u', 'U')) }
    else if sc == 0x17 { Some(('i', 'I')) }
    else if sc == 0x18 { Some(('o', 'O')) }
    else if sc == 0x19 { Some(('p', 'P')) }
    else if sc == 0x1A { Some(('[', '{')) }
    else if sc == 0x1B { Some((']', '}')) }
    else if sc == 0x1E { Some(('a', 'A')) }
    else if sc == 0x1F { Some(('s', 'S')) }
    else if sc == 0x20 { Some(('d', 'D')) }
    else if sc == 0x21 { Some(('f', 'F')) }
    else if sc == 0x22 { Some(('g', 'G')) }
    else if sc == 0x23 { Some(('h', 'H')) }
    else if sc == 0x24 { Some(('j', 'J')) }
    else if sc == 0x25 { Some(('k', 'K')) }
    else if sc == 0x26 { Some(('l', 'L')) }
    else if sc == 0x27 { Some((';', ':')) }
    else if sc == 0x28 { Some(('\'', '"')) }
    else if sc == 0x29 { Some(('`', '~')) }
    else if sc == 0x2B { Some(('\\', '|')) }
    else if sc == 0x2C { Some(('z', 'Z')) }
    else if sc == 0x2D { Some(('x', 'X')) }
    else if sc == 0x2E { Some(('c', 'C')) }
    else if sc == 0x2F { Some(('v', 'V')) }
    else if sc == 0x30 { Some(('b', 'B')) }
    else if sc == 0x31 { Some(('n', 'N')) }
    else if sc == 0x32 { Some(('m', 'M')) }
    else if sc == 0x33 { Some((',', '<')) }
    else if sc == 0x34 { Some(('.', '>')) }
    else if sc == 0x35 { Some(('/', '?')) }
    else if sc == 0x39 { Some((' ', ' ')) }
    else { None }
}

/// Whether the key produces a letter.
pub open spec fn is_letter_key(sc: u8) -> bool {
    match key_chars(sc) {
        Some((lo, _)) => is_ascii_letter(lo),
        None => false,
    }
}

/// The character a printable key produces: Caps Lock inverts Shift for
/// letters only.
pub open spec fn key_char(sc: u8, shift: bool, caps: bool) -> Option<char> {
    match key_chars(sc) {
        None => None,
        Some((lo, hi)) => {
            let upper = if is_ascii_letter(lo) { shift != caps } else { shift };
            Some(if upper { hi } else { lo })
        },
    }
}

/// The non-character keys.
pub open spec fn special_key(sc: u8) -> Option<InputEvent> {
    if sc == 0x01 { Some(InputEvent::Escape) }
    else if sc == 0x0E { Some(InputEvent::Backspace) }
    else if sc == 0x0F { Some(InputEvent::Tab) }
    else if sc == 0x1C { Some(InputEvent::Enter) }
    else if sc == 0x48 { Some(InputEvent::Up) }
    else if sc == 0x50 { Some(InputEvent::Down) }
    else if sc == 0x4B { Some(InputEvent::Left) }
    else if sc == 0x4D { Some(InputEvent::Right) }
    else { None }
}

/// The event a key press produces.
pub open spec fn key_event(sc: u8, shift: bool, caps: bool) -> Option<InputEvent> {
    match special_key(sc) {
        Some(e) => Some(e),
        None => match key_char(sc, shift, caps) {
            Some(c) => Some(InputEvent::Char(c)),
            None => None,
        },
    }
}

/// Decodes a key press (scan code without the release bit) into an event.
pub fn scancode_to_event(sc: u8, shift: bool, caps: bool) -> (r: Option<InputEvent>)
    ensures
        r == key_event(sc, shift, caps),
{
    let special = match sc {
        0x01 => Some(InputEvent::Escape),
        0x0E => Some(InputEvent::Backspace),
        0x0F => Some(InputEvent::Tab),
        0x1C => Some(InputEvent::Enter),
        0x48 => Some(InputEvent::Up),
        0x50 => Some(InputEvent::Down),
        0x4B => Some(InputEvent::Left),
        0x4D => Some(InputEvent::Right),
        _ => None,
    };
    if special.is_some() {
        return special;
    }
    let ch = sc_to_char(sc, shift, caps)?;
    Some(InputEvent::Char(ch))
}

/// The character of a printable key, honouring Shift and (for letters) Caps Lock.
pub fn sc_to_char(sc: u8, shift: bool, caps: bool) -> (r: Option<char>)
    ensures
        r == key_char(sc, shift, caps),
{
    let (lo, hi): (char, char) = match sc {
        0x02 => ('1', '!'), 0x03 => ('2', '@'), 0x04 => ('3', '#'),
        0x05 => ('4', '$'), 0x06 => ('5', '%'), 0x07 => ('6', '^'),
        0x08 => ('7', '&'), 0x09 => ('8', '*'), 0x0A => ('9', '('),
        0x0B => ('0', ')'), 0x0C => ('-', '_'), 0x0D => ('=', '+'),
        0x10 => ('q', 'Q'), 0x11 => ('w', 'W'), 0x12 => ('e', 'E'),
        0x13 => ('r', 'R'), 0x14 => ('t', 'T'), 0x15 => ('y', 'Y'),
        0x16 => ('u', 'U'), 0x17 => ('i', 'I'), 0x18 => ('o', 'O'),
        0x19 => ('p', 'P'), 0x1A => ('[', '{'), 0x1B => (']', '}'),
        0x1E => ('a', 'A'), 0x1F => ('s', 'S'), 0x20 => ('d', 'D'),
        0x21 => ('f', 'F'), 0x22 => ('g', 'G'), 0x23 => ('h', 'H'),
        0x24 => ('j', 'J'), 0x25 => ('k', 'K'), 0x26 => ('l', 'L'),
        0x27 => (';', ':'), 0x28 => ('\'', '"'), 0x29 => ('`', '~'),
        0x2B => ('\\', '|'),
        0x2C => ('z', 'Z'), 0x2D => ('x', 'X'), 0x2E => ('c', 'C'),
        0x2F => ('v', 'V'), 0x30 => ('b', 'B'), 0x31 => ('n', 'N'),
        0x32 => ('m', 'M'), 0x33 => (',', '<'), 0x34 => ('.', '>'),
        0x35 => ('/', '?'),
        0x39 => (' ', ' '),
        _ => return None,
    };
    let letter = is_letter(lo);
    let use_upper = if letter { shift ^ caps } else { shift };
    Some(if use_upper { hi } else { lo })
}

/// The printable keys of scan code set 1 follow the US layout: the number
/// row gives `1234567890-=` (shifted `!@#$%^&*()_+`), the three letter rows
/// give `qwertyuiop`, `asdfghjkl` and `zxcvbnm` (capitals with Shift), and
/// the remaining keys give the usual punctuation and the space bar a space.
pub proof fn keys_follow_us_layout()
    ensures
        forall|i: int| 0 <= i < 12 ==> #[trigger] key_char((0x02 + i) as u8, false, false) == Some("1234567890-="@[i])
            && key_char((0x02 + i) as u8, true, false) == Some("!@#$%^&*()_+"@[i]),
        forall|i: int| 0 <= i < 10 ==> #[trigger] key_char((0x10 + i) as u8, false, false) == Some("qwertyuiop"@[i])
            && key_char((0x10 + i) as u8, true, false) == Some("QWERTYUIOP"@[i]),
        forall|i: int| 0 <= i < 9 ==> #[trigger] key_char((0x1E + i) as u8, false, false) == Some("asdfghjkl"@[i])
            && key_char((0x1E + i) as u8, true, false) == Some("ASDFGHJKL"@[i]),
        forall|i: int| 0 <= i < 7 ==> #[trigger] key_char((0x2C + i) as u8, false, false) == Some("zxcvbnm"@[i])
            && key_char((0x2C + i) as u8, true, false) == Some("ZXCVBNM"@[i]),
        key_chars(0x1A) == Some(('[', '{')),
        key_chars(0x1B) == Some((']', '}')),
        key_chars(0x27) == Some((';', ':')),
        key_chars(0x28) == Some(('\'', '"')),
        key_chars(0x29) == Some(('`', '~')),
        key_chars(0x2B) == Some(('\\', '|')),
        key_chars(0x33) == Some((',', '<')),
        key_chars(0x34) == Some(('.', '>')),
        key_chars(0x35) == Some(('/', '?')),
        key_chars(0x39) == Some((' ', ' ')),
{
    reveal_strlit("1234567890-=");
    reveal_strlit("!@#$%^&*()_+");
    reveal_strlit("qwertyuiop");
    reveal_strlit("QWERTYUIOP");
    reveal_strlit("asdfghjkl");
    reveal_strlit("ASDFGHJKL");
    reveal_strlit("zxcvbnm");
    reveal_strlit("ZXCVBNM");
}

/// Different letter keys give different letters, and Shift gives the
/// capital of the same letter.
pub proof fn letter_keys_are_distinct(a: u8, b: u8)
    requires
        is_letter_key(a),
        is_letter_key(b),
    ensures
        a != b ==> key_char(a, false, false) != key_char(b, false, false),
        ({
            let lo = key_char(a, false, false)->Some_0;
            let hi = key_char(a, true, false)->Some_0;
            'a' <= lo <= 'z' && hi as u32 == lo as u32 - 32
        }),
{
}

/// Whether the scan code has the release bit set.
pub open spec fn is_release(sc: u8) -> bool {
    sc >= 0x80
}

/// The scan code without the release bit.
pub open spec fn base_code(sc: u8) -> u8 {
    (sc % 0x80) as u8
}

/// Processes one scan code from the keyboard controller: Shift press and
/// release set the Shift state, a Caps Lock press toggles Caps Lock, other
/// releases are ignored, and any other press queues its decoded event.
pub fn handle_scancode(kb: &mut Keyboard, sc: u8)
    ensures
        ({
            let release = is_release(sc);
            let base = base_code(sc);
            if base == 0x2A || base == 0x36 {
                &&& final(kb).shift() == !release
                &&& final(kb).caps_lock() == old(kb).caps_lock()
                &&& final(kb).events() == old(kb).events()
            } else if base == 0x3A {
                &&& final(kb).shift() == old(kb).shift()
                &&& final(kb).caps_lock() == (old(kb).caps_lock() != !release)
                &&& final(kb).events() == old(kb).events()
            } else {
                &&& final(kb).shift() == old(kb).shift()
                &&& final(kb).caps_lock() == old(kb).caps_lock()
                &&& final(kb).events() == (
                    match key_event(base, old(kb).shift(), old(kb).caps_lock()) {
                        Some(e) => if !release && old(kb).events().len() < BUF_SIZE - 1 {
                            old(kb).events().push(e)
                        } else {
                            old(kb).events()
                        },
                        None => old(kb).events(),
                    })
            }
        }),
{
    let release = sc & 0x80 != 0;
    let sc_base = sc & 0x7F;
    assert(((sc & 0x80) != 0) == (sc >= 0x80)) by (bit_vector);
    assert((sc & 0x7F) == sc % 0x80) by (bit_vector);

    if sc_base == 0x2A || sc_base == 0x36 {
        kb.mods.shift = !release;
        return;
    }
    if sc_base == 0x3A {
        if !release {
            kb.mods.capslock = !kb.mods.capslock;
        }
        return;
    }
    if release {
        return;
    }

    let shift = kb.mods.shift;
    let caps = kb.mods.capslock;

    let ev = scancode_to_event(sc_base, shift, caps);
    if let Some(e) = ev {
        kb.buffer.push(e);
    }
}

/// Takes the oldest queued event, if any.
pub fn pop_event(kb: &mut Keyboard) -> (r: Option<InputEvent>)
    ensures
        final(kb).shift() == old(kb).shift(),
        final(kb).caps_lock() == old(kb).caps_lock(),
        old(kb).events().len() == 0 ==> r == None::<InputEvent> && final(kb).events() == old(kb).events(),
        old(kb).events().len() > 0 ==> r == Some(old(kb).events()[0])
            && final(kb).events() == old(kb).events().drop_first(),
{
    kb.buffer.pop()
}

/// Caps Lock changes only letters, and for a letter key Shift and Caps Lock
/// together cancel out.
pub proof fn caps_lock_only_letters(sc: u8, shift: bool)
    ensures
        !is_letter_key(sc)
            ==> key_char(sc, shift, true) == key_char(sc, shift, false),
        is_letter_key(sc)
            ==> key_char(sc, true, true) == key_char(sc, false, false),
{
}

} // verus!

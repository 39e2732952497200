//! The wire-protocol codec: fixed-layout binary records exchanged with the
//! compositor. All fields are little-endian; text fields are fixed-size,
//! NUL-padded buffers. Short or malformed records decode to nothing.

use vstd::prelude::*;

verus! {

/// Opcode of the record registering the shell as the taskbar.
pub const REGISTER_TASKBAR: u32 = 1;

/// Opcode of the request to minimize a window.
pub const MINIMIZE_WINDOW: u32 = 2;

/// Opcode of the request to restore a window.
pub const RESTORE_WINDOW: u32 = 3;

/// Opcode of an inbound window-lifecycle event.
pub const EVENT_WINDOW_LIFECYCLE: u32 = 4;

/// Size of the listener-name field of the registration record.
pub const LISTENER_NAME_LEN: usize = 32;

/// Size of the title field of a lifecycle record.
pub const TITLE_FIELD_LEN: usize = 64;

/// Total size of a registration record: opcode plus name field.
pub const REGISTER_RECORD_LEN: usize = 36;

/// Total size of a window-op record: opcode plus window id.
pub const WINDOW_OP_RECORD_LEN: usize = 8;

/// Total size of a lifecycle record: opcode, window id, event type, title.
pub const LIFECYCLE_RECORD_LEN: usize = 76;

/// What happened to a window.
#[derive(Debug, Clone, Copy, PartialEq, Eq, Structural)]
pub enum LifecycleKind {
    Created,
    Destroyed,
    Minimized,
    Restored,
}

/// One decoded window-lifecycle event.
#[derive(Debug)]
pub struct LifecycleEvent {
    /// Compositor window id.
    pub window_id: u32,
    /// What happened to the window.
    pub kind: LifecycleKind,
    /// The window title: the title field up to its first NUL byte, kept
    /// as raw bytes. Text decoding is left to the presentation boundary.
    pub title: Vec<u8>,
}

/// The wire number of a lifecycle kind.
pub open spec fn kind_num(k: LifecycleKind) -> u32 {
    match k {
        LifecycleKind::Created => 1,
        LifecycleKind::Destroyed => 2,
        LifecycleKind::Minimized => 3,
        LifecycleKind::Restored => 4,
    }
}

/// The lifecycle kind for a wire number, if it names one.
pub open spec fn kind_of(n: u32) -> Option<LifecycleKind> {
    if n == 1 {
        Option::Some(LifecycleKind::Created)
    } else if n == 2 {
        Option::Some(LifecycleKind::Destroyed)
    } else if n == 3 {
        Option::Some(LifecycleKind::Minimized)
    } else if n == 4 {
        Option::Some(LifecycleKind::Restored)
    } else {
        Option::None
    }
}

/// The four little-endian bytes of `x`.
pub open spec fn u32_le(x: u32) -> Seq<u8> {
    seq![
        (x & 0xFF) as u8,
        ((x >> 8) & 0xFF) as u8,
        ((x >> 16) & 0xFF) as u8,
        ((x >> 24) & 0xFF) as u8,
    ]
}

/// The `u32` read little-endian from four bytes of `s` starting at `off`.
pub open spec fn le_bytes(s: Seq<u8>, off: int) -> u32 {
    (s[off] as u32) | ((s[off + 1] as u32) << 8) | ((s[off + 2] as u32) << 16) | ((s[off
        + 3] as u32) << 24)
}

/// `s` truncated or NUL-padded to exactly `n` bytes.
pub open spec fn pad_block(s: Seq<u8>, n: int) -> Seq<u8> {
    Seq::new(n as nat, |i: int| if i < s.len() { s[i] } else { 0u8 })
}

/// The index of the first NUL byte of `s`, or `s.len()` if there is none.
pub open spec fn first_nul(s: Seq<u8>) -> int
    decreases s.len(),
{
    if s.len() == 0 {
        0
    } else if s[0] == 0 {
        0
    } else {
        1 + first_nul(s.drop_first())
    }
}

/// `first_nul` really is the index of the first NUL byte.
pub proof fn lemma_first_nul(s: Seq<u8>)
    ensures
        0 <= first_nul(s) <= s.len(),
        forall|k: int| 0 <= k < first_nul(s) ==> s[k] != 0,
        first_nul(s) < s.len() ==> s[first_nul(s)] == 0,
    decreases s.len(),
{
    if s.len() > 0 && s[0] != 0 {
        lemma_first_nul(s.drop_first());
        assert forall|k: int| 0 <= k < first_nul(s) implies s[k] != 0 by {
            if k > 0 {
                assert(s.drop_first()[k - 1] != 0);
            }
        }
    }
}

/// Any index that has only non-NUL bytes before it and a NUL byte (or the
/// end of `s`) at it is `first_nul(s)`.
pub proof fn lemma_first_nul_unique(s: Seq<u8>, j: int)
    requires
        0 <= j <= s.len(),
        forall|k: int| 0 <= k < j ==> s[k] != 0,
        j < s.len() ==> s[j] == 0,
    ensures
        j == first_nul(s),
{
    lemma_first_nul(s);
    let f = first_nul(s);
    if f < j {
        assert(s[f] != 0);
    }
    if j < f {
        assert(s[j] != 0);
    }
}

/// The registration record: the opcode, then the listener name truncated
/// or NUL-padded to its fixed field size.
pub open spec fn encode_register_spec(name: Seq<u8>) -> Seq<u8> {
    u32_le(REGISTER_TASKBAR) + pad_block(name, LISTENER_NAME_LEN as int)
}

/// A window-op record: the opcode, then the window id.
pub open spec fn encode_window_op_spec(opcode: u32, window_id: u32) -> Seq<u8> {
    u32_le(opcode) + u32_le(window_id)
}

/// A lifecycle record: the opcode, the window id, the event type, then
/// the title truncated or NUL-padded to its fixed field size.
pub open spec fn encode_lifecycle_spec(window_id: u32, kind: LifecycleKind, title: Seq<
    u8,
>) -> Seq<u8> {
    u32_le(EVENT_WINDOW_LIFECYCLE) + u32_le(window_id) + u32_le(kind_num(kind)) + pad_block(
        title,
        TITLE_FIELD_LEN as int,
    )
}

/// What a byte string decodes to as a lifecycle record: nothing if it is
/// short, carries the wrong opcode, or names no lifecycle kind; otherwise
/// the window id, the kind, and the title up to its first NUL byte.
pub open spec fn decode_lifecycle_spec(s: Seq<u8>) -> Option<(u32, LifecycleKind, Seq<u8>)> {
    if s.len() < LIFECYCLE_RECORD_LEN {
        Option::None
    } else if le_bytes(s, 0) != EVENT_WINDOW_LIFECYCLE {
        Option::None
    } else {
        match kind_of(le_bytes(s, 8)) {
            Option::Some(k) => {
                let t = s.subrange(12, 76);
                Option::Some((le_bytes(s, 4), k, t.take(first_nul(t))))
            },
            Option::None => Option::None,
        }
    }
}

/// Reading four little-endian bytes of a value gives the value back.
pub proof fn lemma_u32_le_round(x: u32)
    ensures
        le_bytes(u32_le(x), 0) == x,
{
    let b0 = (x & 0xFF) as u8;
    let b1 = ((x >> 8) & 0xFF) as u8;
    let b2 = ((x >> 16) & 0xFF) as u8;
    let b3 = ((x >> 24) & 0xFF) as u8;
    assert((b0 as u32) | ((b1 as u32) << 8) | ((b2 as u32) << 16) | ((b3 as u32) << 24) == x)
        by (bit_vector)
        requires
            b0 == (x & 0xFF) as u8,
            b1 == ((x >> 8) & 0xFF) as u8,
            b2 == ((x >> 16) & 0xFF) as u8,
            b3 == ((x >> 24) & 0xFF) as u8,
    ;
}

/// Appends the four little-endian bytes of `x`.
fn push_u32_le(out: &mut Vec<u8>, x: u32)
    ensures
        final(out)@ == old(out)@ + u32_le(x),
{
    proof {
        assert((x & 0xFF) < 256 && ((x >> 8) & 0xFF) < 256 && ((x >> 16) & 0xFF) < 256 && ((x
            >> 24) & 0xFF) < 256) by (bit_vector);
    }
    out.push((x & 0xFF) as u8);
    out.push(((x >> 8) & 0xFF) as u8);
    out.push(((x >> 16) & 0xFF) as u8);
    out.push(((x >> 24) & 0xFF) as u8);
    proof {
        assert(out@ =~= old(out)@ + u32_le(x));
    }
}

/// Reads a `u32`, little-endian, from `bytes` at `off`.
fn read_u32_le(bytes: &Vec<u8>, off: usize) -> (r: u32)
    requires
        off + 4 <= bytes.len(),
    ensures
        r == le_bytes(bytes@, off as int),
{
    (bytes[off] as u32) | ((bytes[off + 1] as u32) << 8) | ((bytes[off + 2] as u32) << 16) | ((
    bytes[off + 3] as u32) << 24)
}

/// Encodes the record that registers the shell's listener endpoint as the
/// taskbar with the compositor.
pub fn encode_register_taskbar(listener_name: &Vec<u8>) -> (r: Vec<u8>)
    ensures
        r@ == encode_register_spec(listener_name@),
        r@.len() == REGISTER_RECORD_LEN,
{
    let mut out: Vec<u8> = Vec::new();
    push_u32_le(&mut out, REGISTER_TASKBAR);
    let mut i: usize = 0;
    while i < LISTENER_NAME_LEN
        invariant
            i <= LISTENER_NAME_LEN,
            out@.len() == 4 + i,
            out@.subrange(0, 4) == u32_le(REGISTER_TASKBAR),
            forall|j: int|
                4 <= j < 4 + i ==> out@[j] == (if j - 4 < listener_name@.len() {
                    listener_name@[j - 4]
                } else {
                    0u8
                }),
        decreases LISTENER_NAME_LEN - i,
    {
        let b: u8 = if i < listener_name.len() {
            listener_name[i]
        } else {
            0
        };
        out.push(b);
        proof {
            assert(out@.subrange(0, 4) =~= u32_le(REGISTER_TASKBAR));
        }
        i = i + 1;
    }
    proof {
        assert(out@ =~= encode_register_spec(listener_name@));
    }
    out
}

/// Encodes a window-op record (minimize or restore).
pub fn encode_window_op(opcode: u32, window_id: u32) -> (r: Vec<u8>)
    ensures
        r@ == encode_window_op_spec(opcode, window_id),
        r@.len() == WINDOW_OP_RECORD_LEN,
{
    let mut out: Vec<u8> = Vec::new();
    push_u32_le(&mut out, opcode);
    push_u32_le(&mut out, window_id);
    proof {
        assert(out@ =~= encode_window_op_spec(opcode, window_id));
    }
    out
}

/// The wire number of a lifecycle kind.
pub fn lifecycle_kind_num(kind: LifecycleKind) -> (r: u32)
    ensures
        r == kind_num(kind),
{
    match kind {
        LifecycleKind::Created => 1,
        LifecycleKind::Destroyed => 2,
        LifecycleKind::Minimized => 3,
        LifecycleKind::Restored => 4,
    }
}

/// Encodes a lifecycle record.
pub fn encode_lifecycle_event(window_id: u32, kind: LifecycleKind, title: &Vec<u8>) -> (r: Vec<
    u8,
>)
    ensures
        r@ == encode_lifecycle_spec(window_id, kind, title@),
        r@.len() == LIFECYCLE_RECORD_LEN,
{
    let mut out: Vec<u8> = Vec::new();
    push_u32_le(&mut out, EVENT_WINDOW_LIFECYCLE);
    push_u32_le(&mut out, window_id);
    push_u32_le(&mut out, lifecycle_kind_num(kind));
    let ghost head = out@;
    let mut i: usize = 0;
    while i < TITLE_FIELD_LEN
        invariant
            i <= TITLE_FIELD_LEN,
            out@.len() == 12 + i,
            out@.subrange(0, 12) == head,
            head == u32_le(EVENT_WINDOW_LIFECYCLE) + u32_le(window_id) + u32_le(kind_num(kind)),
            forall|j: int|
                12 <= j < 12 + i ==> out@[j] == (if j - 12 < title@.len() {
                    title@[j - 12]
                } else {
                    0u8
                }),
        decreases TITLE_FIELD_LEN - i,
    {
        let b: u8 = if i < title.len() {
            title[i]
        } else {
            0
        };
        out.push(b);
        proof {
            assert(out@.subrange(0, 12) =~= head);
        }
        i = i + 1;
    }
    proof {
        assert(out@ =~= encode_lifecycle_spec(window_id, kind, title@));
    }
    out
}

/// Decodes a lifecycle record: `None` for a short record, a record with a
/// different opcode, or an unknown event type; otherwise the window id,
/// the kind, and the title up to its first NUL byte.
#[verifier::loop_isolation(false)]
pub fn decode_lifecycle_event(bytes: &Vec<u8>) -> (r: Option<LifecycleEvent>)
    ensures
        match r {
            Option::Some(ev) => decode_lifecycle_spec(bytes@) == Option::Some(
                (ev.window_id, ev.kind, ev.title@),
            ),
            Option::None => decode_lifecycle_spec(bytes@) is None,
        },
{
    if bytes.len() < LIFECYCLE_RECORD_LEN {
        return Option::None;
    }
    let opcode = read_u32_le(bytes, 0);
    if opcode != EVENT_WINDOW_LIFECYCLE {
        return Option::None;
    }
    let window_id = read_u32_le(bytes, 4);
    let kind_code = read_u32_le(bytes, 8);
    let kind = if kind_code == 1 {
        LifecycleKind::Created
    } else if kind_code == 2 {
        LifecycleKind::Destroyed
    } else if kind_code == 3 {
        LifecycleKind::Minimized
    } else if kind_code == 4 {
        LifecycleKind::Restored
    } else {
        return Option::None;
    };
    let ghost tfield = bytes@.subrange(12, 76);

    // Find the end of the title: the first NUL byte, or the field length.
    let mut n: usize = 0;
    while n < TITLE_FIELD_LEN && bytes[12 + n] != 0
        invariant
            n <= TITLE_FIELD_LEN,
            forall|k: int| 0 <= k < n ==> tfield[k] != 0,
        decreases TITLE_FIELD_LEN - n,
    {
        n = n + 1;
    }
    proof {
        lemma_first_nul_unique(tfield, n as int);
    }

    // Copy the title bytes out.
    let mut title: Vec<u8> = Vec::new();
    let mut k: usize = 0;
    while k < n
        invariant
            k <= n,
            n <= TITLE_FIELD_LEN,
            title@ == tfield.take(k as int),
        decreases n - k,
    {
        let b = bytes[12 + k];
        title.push(b);
        proof {
            assert(title@ =~= tfield.take(k + 1));
        }
        k = k + 1;
    }
    proof {
        assert(title@ == tfield.take(first_nul(tfield)));
    }
    Option::Some(LifecycleEvent { window_id, kind, title })
}

/// Encoding a lifecycle event and decoding the record gives back exactly
/// the window id, the kind, and the title, for every title that fits the
/// title field and contains no NUL byte.
pub proof fn lemma_lifecycle_round_trip(window_id: u32, kind: LifecycleKind, title: Seq<u8>)
    requires
        title.len() < TITLE_FIELD_LEN,
        forall|i: int| 0 <= i < title.len() ==> title[i] != 0,
    ensures
        decode_lifecycle_spec(encode_lifecycle_spec(window_id, kind, title)) == Option::Some(
            (window_id, kind, title),
        ),
{
    let enc = encode_lifecycle_spec(window_id, kind, title);
    assert(enc.len() == 76);
    assert(enc.subrange(0, 4) =~= u32_le(EVENT_WINDOW_LIFECYCLE));
    assert(enc.subrange(4, 8) =~= u32_le(window_id));
    assert(enc.subrange(8, 12) =~= u32_le(kind_num(kind)));
    lemma_u32_le_round(EVENT_WINDOW_LIFECYCLE);
    lemma_u32_le_round(window_id);
    lemma_u32_le_round(kind_num(kind));
    assert(le_bytes(enc, 0) == le_bytes(enc.subrange(0, 4), 0));
    assert(le_bytes(enc, 4) == le_bytes(enc.subrange(4, 8), 0));
    assert(le_bytes(enc, 8) == le_bytes(enc.subrange(8, 12), 0));
    assert(le_bytes(enc, 0) == EVENT_WINDOW_LIFECYCLE);
    assert(le_bytes(enc, 4) == window_id);
    assert(le_bytes(enc, 8) == kind_num(kind));
    assert(kind_of(kind_num(kind)) == Option::Some(kind));
    let t = enc.subrange(12, 76);
    assert(t =~= pad_block(title, 64));
    assert(t[title.len() as int] == 0);
    lemma_first_nul_unique(t, title.len() as int);
    assert(t.take(first_nul(t)) =~= title);
}


} // verus!

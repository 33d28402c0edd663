use vstd::prelude::*;

use crate::error::CanError;

verus! {

/// Largest standard (11-bit) identifier.
pub const STANDARD_ID_MAX: u32 = 0x7FF;
/// Largest extended (29-bit) identifier.
pub const EXTENDED_ID_MAX: u32 = 0x1FFF_FFFF;
/// Bit of the hardware identifier word that marks an extended identifier.
pub const EXTENDED_FLAG: u32 = 0x8000_0000;
/// Bit of the hardware identifier word that marks a remote frame.
pub const REMOTE_FLAG: u32 = 0x4000_0000;
/// Bit of the hardware identifier word that marks an error frame.
pub const ERROR_FLAG: u32 = 0x2000_0000;
/// Bit of the hardware FD flag byte that marks a bit-rate switch.
pub const BRS_FLAG: u8 = 0x01;
/// Bit of the hardware FD flag byte that marks the error state indicator.
pub const ESI_FLAG: u8 = 0x02;

/// A bus address; whether it is extended is an explicit tag.
#[derive(Clone, Copy, Debug, PartialEq, Eq, Structural)]
pub enum Identifier {
    Standard(u32),
    Extended(u32),
}

impl Identifier {
    /// The value fits in the width that the tag implies.
    pub open spec fn wf(self) -> bool {
        match self {
            Identifier::Standard(v) => v <= STANDARD_ID_MAX,
            Identifier::Extended(v) => v <= EXTENDED_ID_MAX,
        }
    }

    pub open spec fn value(self) -> u32 {
        match self {
            Identifier::Standard(v) => v,
            Identifier::Extended(v) => v,
        }
    }

    pub open spec fn extended(self) -> bool {
        self is Extended
    }

    /// An identifier of the given width, or `None` where the value does not fit it.
    pub fn new(value: u32, extended: bool) -> (r: Option<Identifier>)
        ensures
            r is Some <==> value <= (if extended { EXTENDED_ID_MAX } else { STANDARD_ID_MAX }),
            r matches Some(id) ==> id.wf() && id.value() == value && id.extended() == extended,
    {
        if extended {
            if value <= EXTENDED_ID_MAX {
                Some(Identifier::Extended(value))
            } else {
                None
            }
        } else if value <= STANDARD_ID_MAX {
            Some(Identifier::Standard(value))
        } else {
            None
        }
    }

    pub fn is_valid(&self) -> (r: bool)
        ensures
            r == self.wf(),
    {
        match self {
            Identifier::Standard(v) => *v <= STANDARD_ID_MAX,
            Identifier::Extended(v) => *v <= EXTENDED_ID_MAX,
        }
    }

    pub fn as_raw(&self) -> (r: u32)
        ensures
            r == self.value(),
    {
        match self {
            Identifier::Standard(v) => *v,
            Identifier::Extended(v) => *v,
        }
    }

    pub fn is_extended(&self) -> (r: bool)
        ensures
            r == self.extended(),
    {
        match self {
            Identifier::Standard(_) => false,
            Identifier::Extended(_) => true,
        }
    }
}

/// Which of the two hardware frame layouts a frame travels in.
#[derive(Clone, Copy, Debug, PartialEq, Eq, Structural)]
pub enum FrameKind {
    Classic,
    Fd,
}

/// Bytes of payload storage in the hardware layout of a kind.
pub open spec fn capacity(kind: FrameKind) -> nat {
    match kind {
        FrameKind::Classic => 8,
        FrameKind::Fd => 64,
    }
}

/// The payload lengths that a frame of the kind may carry.
pub open spec fn valid_len(kind: FrameKind, n: nat) -> bool {
    match kind {
        FrameKind::Classic => n <= 8,
        FrameKind::Fd => n <= 8 || n == 12 || n == 16 || n == 20 || n == 24 || n == 32 || n
            == 48 || n == 64,
    }
}

/// The length codes that the layout of the kind defines.
pub open spec fn valid_dlc(kind: FrameKind, d: u8) -> bool {
    match kind {
        FrameKind::Classic => d <= 8,
        FrameKind::Fd => d <= 15,
    }
}

/// Payload length denoted by a length code.
pub open spec fn dlc_len(d: u8) -> nat {
    if d <= 8 {
        d as nat
    } else if d == 9 {
        12
    } else if d == 10 {
        16
    } else if d == 11 {
        20
    } else if d == 12 {
        24
    } else if d == 13 {
        32
    } else if d == 14 {
        48
    } else {
        64
    }
}

/// Length code of a payload length.
pub open spec fn len_dlc(n: nat) -> u8 {
    if n <= 8 {
        n as u8
    } else if n == 12 {
        9
    } else if n == 16 {
        10
    } else if n == 20 {
        11
    } else if n == 24 {
        12
    } else if n == 32 {
        13
    } else if n == 48 {
        14
    } else {
        15
    }
}

/// The length code of a payload length, for the lengths of the FD bucket set.
pub fn length_to_dlc(n: usize) -> (r: Option<u8>)
    ensures
        r is Some <==> valid_len(FrameKind::Fd, n as nat),
        r matches Some(d) ==> d == len_dlc(n as nat) && d <= 15 && dlc_len(d) == n,
{
    match n {
        0usize..=8 => Some(n as u8),
        12 => Some(9),
        16 => Some(10),
        20 => Some(11),
        24 => Some(12),
        32 => Some(13),
        48 => Some(14),
        64 => Some(15),
        _ => None,
    }
}

/// The payload length of a length code, for the codes `0..=15`.
pub fn dlc_to_length(d: u8) -> (r: Option<usize>)
    ensures
        r is Some <==> d <= 15,
        r matches Some(n) ==> n == dlc_len(d) && len_dlc(n as nat) == d && valid_len(
            FrameKind::Fd,
            n as nat,
        ),
{
    match d {
        0u8..=8 => Some(d as usize),
        9 => Some(12),
        10 => Some(16),
        11 => Some(20),
        12 => Some(24),
        13 => Some(32),
        14 => Some(48),
        15 => Some(64),
        _ => None,
    }
}

/// The portable frame: identifier, flags and payload.
#[derive(Clone, Debug, PartialEq, Eq)]
pub struct CanMessage {
    pub id: Identifier,
    pub remote: bool,
    pub error: bool,
    pub fd: bool,
    pub brs: bool,
    pub esi: bool,
    pub data: Vec<u8>,
}

/// The mathematical value of a portable frame.
pub struct FrameModel {
    pub id: Identifier,
    pub remote: bool,
    pub error: bool,
    pub fd: bool,
    pub brs: bool,
    pub esi: bool,
    pub data: Seq<u8>,
}

impl View for CanMessage {
    type V = FrameModel;

    open spec fn view(&self) -> FrameModel {
        FrameModel {
            id: self.id,
            remote: self.remote,
            error: self.error,
            fd: self.fd,
            brs: self.brs,
            esi: self.esi,
            data: self.data@,
        }
    }
}

/// The frame can travel in the layout of `kind` and come back unchanged: its identifier
/// is valid, its length is a bucket of the kind, its FD flag names the kind, and a
/// classic frame carries no FD-only flag.
pub open spec fn fits(f: FrameModel, kind: FrameKind) -> bool {
    &&& f.id.wf()
    &&& valid_len(kind, f.data.len())
    &&& f.fd == (kind == FrameKind::Fd)
    &&& (kind == FrameKind::Classic ==> !f.brs && !f.esi)
}

impl CanMessage {
    /// A data frame with the given identifier and payload, or `None` where the payload
    /// is longer than a classic frame holds.
    pub fn new(id: Identifier, data: &[u8]) -> (r: Option<CanMessage>)
        ensures
            r is Some <==> data@.len() <= 8,
            r matches Some(m) ==> m@ == (FrameModel {
                id,
                remote: false,
                error: false,
                fd: false,
                brs: false,
                esi: false,
                data: data@,
            }),
    {
        if data.len() > 8 {
            return None;
        }
        let mut v: Vec<u8> = Vec::new();
        let mut i: usize = 0;
        while i < data.len()
            invariant
                i <= data@.len(),
                v@ == data@.subrange(0, i as int),
            decreases data@.len() - i,
        {
            v.push(data[i]);
            i = i + 1;
        }
        assert(v@ == data@);
        Some(CanMessage { id, remote: false, error: false, fd: false, brs: false, esi: false, data: v })
    }

    /// An FD data frame with the given identifier, payload and bit-rate switch, or
    /// `None` where the payload length is not an FD bucket.
    pub fn new_fd(id: Identifier, data: &[u8], brs: bool) -> (r: Option<CanMessage>)
        ensures
            r is Some <==> valid_len(FrameKind::Fd, data@.len()),
            r matches Some(m) ==> m@ == (FrameModel {
                id,
                remote: false,
                error: false,
                fd: true,
                brs,
                esi: false,
                data: data@,
            }),
    {
        if length_to_dlc(data.len()).is_none() {
            return None;
        }
        let mut v: Vec<u8> = Vec::new();
        let mut i: usize = 0;
        while i < data.len()
            invariant
                i <= data@.len(),
                v@ == data@.subrange(0, i as int),
            decreases data@.len() - i,
        {
            v.push(data[i]);
            i = i + 1;
        }
        assert(v@ == data@);
        Some(CanMessage { id, remote: false, error: false, fd: true, brs, esi: false, data: v })
    }
}

/// A frame in the hardware layout: the tag says which of the two layouts it is.
#[derive(Clone, Debug, PartialEq, Eq)]
pub struct HardwareFrame {
    pub kind: FrameKind,
    /// Identifier in the low bits, with the extended, remote and error flag bits.
    pub id_word: u32,
    /// FD-only flags (bit-rate switch, error state indicator); zero in the classic layout.
    pub flags: u8,
    /// Length code.
    pub dlc: u8,
    /// Payload storage: 8 bytes in the classic layout, 64 in the FD layout.
    pub data: Vec<u8>,
}

/// The mathematical value of a hardware frame.
pub struct HardwareModel {
    pub kind: FrameKind,
    pub id_word: u32,
    pub flags: u8,
    pub dlc: u8,
    pub data: Seq<u8>,
}

impl View for HardwareFrame {
    type V = HardwareModel;

    open spec fn view(&self) -> HardwareModel {
        HardwareModel {
            kind: self.kind,
            id_word: self.id_word,
            flags: self.flags,
            dlc: self.dlc,
            data: self.data@,
        }
    }
}

/// The hardware identifier word of an identifier with the remote and error flags.
pub open spec fn id_word(id: Identifier, remote: bool, error: bool) -> u32 {
    id.value() | (if id.extended() {
        EXTENDED_FLAG
    } else {
        0u32
    }) | (if remote {
        REMOTE_FLAG
    } else {
        0u32
    }) | (if error {
        ERROR_FLAG
    } else {
        0u32
    })
}

/// The identifier held by a hardware identifier word.
pub open spec fn decode_id(w: u32) -> Identifier {
    if w & EXTENDED_FLAG != 0 {
        Identifier::Extended(w & EXTENDED_ID_MAX)
    } else {
        Identifier::Standard(w & STANDARD_ID_MAX)
    }
}

/// The hardware layout of a frame in the layout of `kind`; the payload storage is
/// filled up with zeros behind the payload.
pub open spec fn encode(f: FrameModel, kind: FrameKind) -> HardwareModel {
    HardwareModel {
        kind,
        id_word: id_word(f.id, f.remote, f.error),
        flags: if kind == FrameKind::Fd {
            ((if f.brs {
                BRS_FLAG
            } else {
                0u8
            }) | (if f.esi {
                ESI_FLAG
            } else {
                0u8
            })) as u8
        } else {
            0u8
        },
        dlc: len_dlc(f.data.len()),
        data: f.data + Seq::new((capacity(kind) - f.data.len()) as nat, |i: int| 0u8),
    }
}

/// A hardware frame that can be read back: a defined length code and full storage.
pub open spec fn readable(h: HardwareModel) -> bool {
    valid_dlc(h.kind, h.dlc) && h.data.len() == capacity(h.kind)
}

/// The portable frame held by a readable hardware frame.
pub open spec fn decode(h: HardwareModel) -> FrameModel {
    FrameModel {
        id: decode_id(h.id_word),
        remote: h.id_word & REMOTE_FLAG != 0,
        error: h.id_word & ERROR_FLAG != 0,
        fd: h.kind == FrameKind::Fd,
        brs: h.kind == FrameKind::Fd && h.flags & BRS_FLAG != 0,
        esi: h.kind == FrameKind::Fd && h.flags & ESI_FLAG != 0,
        data: h.data.subrange(0, dlc_len(h.dlc) as int),
    }
}

proof fn lemma_id_word_bits(v: u32, e: u32, r: u32, x: u32)
    requires
        e == 0 || e == 0x8000_0000u32,
        r == 0 || r == 0x4000_0000u32,
        x == 0 || x == 0x2000_0000u32,
        e == 0 ==> v <= 0x7FF,
        v <= 0x1FFF_FFFF,
    ensures
        ((v | e | r | x) & 0x8000_0000u32 != 0) == (e != 0),
        ((v | e | r | x) & 0x4000_0000u32 != 0) == (r != 0),
        ((v | e | r | x) & 0x2000_0000u32 != 0) == (x != 0),
        e != 0 ==> (v | e | r | x) & 0x1FFF_FFFFu32 == v,
        e == 0 ==> (v | e | r | x) & 0x7FFu32 == v,
{
    assert(((v | e | r | x) & 0x8000_0000u32 != 0) == (e != 0)) by (bit_vector)
        requires
            e == 0 || e == 0x8000_0000u32,
            r == 0 || r == 0x4000_0000u32,
            x == 0 || x == 0x2000_0000u32,
            v <= 0x1FFF_FFFF,
    ;
    assert(((v | e | r | x) & 0x4000_0000u32 != 0) == (r != 0)) by (bit_vector)
        requires
            e == 0 || e == 0x8000_0000u32,
            r == 0 || r == 0x4000_0000u32,
            x == 0 || x == 0x2000_0000u32,
            v <= 0x1FFF_FFFF,
    ;
    assert(((v | e | r | x) & 0x2000_0000u32 != 0) == (x != 0)) by (bit_vector)
        requires
            e == 0 || e == 0x8000_0000u32,
            r == 0 || r == 0x4000_0000u32,
            x == 0 || x == 0x2000_0000u32,
            v <= 0x1FFF_FFFF,
    ;
    assert(e != 0 ==> (v | e | r | x) & 0x1FFF_FFFFu32 == v) by (bit_vector)
        requires
            e == 0 || e == 0x8000_0000u32,
            r == 0 || r == 0x4000_0000u32,
            x == 0 || x == 0x2000_0000u32,
            v <= 0x1FFF_FFFF,
    ;
    assert(e == 0 ==> (v | e | r | x) & 0x7FFu32 == v) by (bit_vector)
        requires
            e == 0 || e == 0x8000_0000u32,
            r == 0 || r == 0x4000_0000u32,
            x == 0 || x == 0x2000_0000u32,
            e == 0 ==> v <= 0x7FF,
    ;
}

proof fn lemma_flag_bits(b: u8, s: u8)
    requires
        b == 0 || b == 1u8,
        s == 0 || s == 2u8,
    ensures
        ((b | s) & 1u8 != 0) == (b != 0),
        ((b | s) & 2u8 != 0) == (s != 0),
{
    assert(((b | s) & 1u8 != 0) == (b != 0)) by (bit_vector)
        requires
            b == 0 || b == 1u8,
            s == 0 || s == 2u8,
    ;
    assert(((b | s) & 2u8 != 0) == (s != 0)) by (bit_vector)
        requires
            b == 0 || b == 1u8,
            s == 0 || s == 2u8,
    ;
}

/// The identifier word keeps the tag and the value of every valid identifier, and the
/// remote and error flags beside them.
pub proof fn lemma_identifier_preserved(id: Identifier, remote: bool, error: bool)
    requires
        id.wf(),
    ensures
        decode_id(id_word(id, remote, error)) == id,
        (id_word(id, remote, error) & EXTENDED_FLAG != 0) == id.extended(),
        (id_word(id, remote, error) & REMOTE_FLAG != 0) == remote,
        (id_word(id, remote, error) & ERROR_FLAG != 0) == error,
{
    lemma_id_word_bits(
        id.value(),
        if id.extended() {
            EXTENDED_FLAG
        } else {
            0u32
        },
        if remote {
            REMOTE_FLAG
        } else {
            0u32
        },
        if error {
            ERROR_FLAG
        } else {
            0u32
        },
    );
}

/// Every frame that fits a layout comes back unchanged from it.
pub proof fn lemma_round_trip(f: FrameModel, kind: FrameKind)
    requires
        fits(f, kind),
    ensures
        readable(encode(f, kind)),
        decode(encode(f, kind)) == f,
{
    lemma_identifier_preserved(f.id, f.remote, f.error);
    let h = encode(f, kind);
    lemma_flag_bits(
        if f.brs {
            BRS_FLAG
        } else {
            0u8
        },
        if f.esi {
            ESI_FLAG
        } else {
            0u8
        },
    );
    assert(dlc_len(len_dlc(f.data.len())) == f.data.len());
    assert(h.data.subrange(0, f.data.len() as int) =~= f.data);
}

/// The hardware layout of a frame; fails with `InvalidLength` exactly where the payload
/// length is not a bucket of the layout, and never pads or cuts the payload.
pub fn to_hardware(frame: &CanMessage, kind: FrameKind) -> (r: Result<HardwareFrame, CanError>)
    requires
        frame.id.wf(),
    ensures
        valid_len(kind, frame.data@.len()) ==> (r matches Ok(h) && h@ == encode(frame@, kind)),
        !valid_len(kind, frame.data@.len()) ==> r == Err::<HardwareFrame, CanError>(
            CanError::InvalidLength(frame.data@.len() as usize),
        ),
{
    let n = frame.data.len();
    let dlc = match length_to_dlc(n) {
        Some(d) => d,
        None => {
            return Err(CanError::InvalidLength(n));
        },
    };
    let cap: usize = match kind {
        FrameKind::Classic => 8,
        FrameKind::Fd => 64,
    };
    if n > cap {
        return Err(CanError::InvalidLength(n));
    }
    let e: u32 = if frame.id.is_extended() {
        EXTENDED_FLAG
    } else {
        0
    };
    let rm: u32 = if frame.remote {
        REMOTE_FLAG
    } else {
        0
    };
    let x: u32 = if frame.error {
        ERROR_FLAG
    } else {
        0
    };
    let word = frame.id.as_raw() | e | rm | x;
    let flags: u8 = match kind {
        FrameKind::Classic => 0,
        FrameKind::Fd => {
            let b: u8 = if frame.brs {
                BRS_FLAG
            } else {
                0
            };
            let s: u8 = if frame.esi {
                ESI_FLAG
            } else {
                0
            };
            b | s
        },
    };
    let mut data: Vec<u8> = Vec::new();
    let mut i: usize = 0;
    while i < cap
        invariant
            n == frame.data@.len(),
            n <= cap,
            cap == capacity(kind),
            i <= cap,
            data@.len() == i,
            forall|j: int| 0 <= j < i && j < n ==> data@[j] == frame.data@[j],
            forall|j: int| n <= j < i ==> data@[j] == 0u8,
        decreases cap - i,
    {
        if i < n {
            data.push(frame.data[i]);
        } else {
            data.push(0u8);
        }
        i = i + 1;
    }
    let h = HardwareFrame { kind, id_word: word, flags, dlc, data };
    assert(h.data@ =~= frame.data@ + Seq::new((capacity(kind) - n) as nat, |j: int| 0u8));
    Ok(h)
}

/// The portable frame held by a hardware frame; fails with `InvalidLength` exactly where
/// the length code is not defined for the layout or the storage is not of its size.
pub fn from_hardware(raw: &HardwareFrame) -> (r: Result<CanMessage, CanError>)
    ensures
        readable(raw@) ==> (r matches Ok(m) && m@ == decode(raw@)),
        !readable(raw@) ==> r matches Err(CanError::InvalidLength(_)),
        r matches Ok(m) ==> m.id.wf(),
{
    let cap: usize = match raw.kind {
        FrameKind::Classic => 8,
        FrameKind::Fd => 64,
    };
    if raw.data.len() != cap {
        return Err(CanError::InvalidLength(raw.data.len()));
    }
    let limit: u8 = match raw.kind {
        FrameKind::Classic => 8,
        FrameKind::Fd => 15,
    };
    if raw.dlc > limit {
        return Err(CanError::InvalidLength(raw.dlc as usize));
    }
    let n = match dlc_to_length(raw.dlc) {
        Some(n) => n,
        None => {
            return Err(CanError::InvalidLength(raw.dlc as usize));
        },
    };
    let w = raw.id_word;
    let id = if w & EXTENDED_FLAG != 0 {
        Identifier::Extended(w & EXTENDED_ID_MAX)
    } else {
        Identifier::Standard(w & STANDARD_ID_MAX)
    };
    assert(id.wf()) by {
        assert(w & 0x1FFF_FFFFu32 <= 0x1FFF_FFFFu32) by (bit_vector);
        assert(w & 0x7FFu32 <= 0x7FFu32) by (bit_vector);
    }
    let fd = match raw.kind {
        FrameKind::Classic => false,
        FrameKind::Fd => true,
    };
    let mut data: Vec<u8> = Vec::new();
    let mut i: usize = 0;
    while i < n
        invariant
            n <= raw.data@.len(),
            i <= n,
            data@ == raw.data@.subrange(0, i as int),
        decreases n - i,
    {
        data.push(raw.data[i]);
        i = i + 1;
    }
    Ok(
        CanMessage {
            id,
            remote: w & REMOTE_FLAG != 0,
            error: w & ERROR_FLAG != 0,
            fd,
            brs: fd && raw.flags & BRS_FLAG != 0,
            esi: fd && raw.flags & ESI_FLAG != 0,
            data,
        },
    )
}

} // verus!

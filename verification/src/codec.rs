//! The fixed-byte-budget wire format for the two partition messages.
//!
//! An input message always encodes to exactly `INPUT_WIRE_SIZE` bytes,
//! inside the `AIRCRAFT_STATE_SIZE` budget: sixteen three-byte command
//! cells (tag, subsystem code, flag), three nine-byte signed scalars
//! (sign byte plus little-endian magnitude) and one flag byte. An
//! alert-state message encodes to one length byte plus one byte per
//! record, inside the `ALERT_STATE_SIZE` budget, which bounds a message
//! to fifteen records. Decoding accepts exactly the canonical encodings,
//! so encode-then-decode returns the value that went in.
use vstd::prelude::*;

use crate::messages::{
    AircraftStateSnapshot, AlertCommand, AlertRecord, AlertStateMessage, TawsInput,
    level_decode, level_value, sys_code, level_code, sys_decode, sys_value,
};
use crate::{AIRCRAFT_STATE_SIZE, ALERT_STATE_SIZE, N_ALERTSYSTEMS, TransportError};

verus! {

/// Exact wire size of an encoded input message.
pub const INPUT_WIRE_SIZE: usize = 76;

/// The magnitude of a signed scalar, as an unbounded integer.
pub open spec fn abs_spec(v: i64) -> int {
    if v >= 0 {
        v as int
    } else {
        -(v as int)
    }
}

/// Little-endian value of eight bytes.
pub open spec fn le8(b1: u8, b2: u8, b3: u8, b4: u8, b5: u8, b6: u8, b7: u8, b8: u8) -> int {
    b1 + 256 * (b2 + 256 * (b3 + 256 * (b4 + 256 * (b5 + 256 * (b6 + 256 * (b7 + 256 * b8))))))
}

/// Little-endian value of the eight bytes following the sign byte of a
/// nine-byte scalar cell.
pub open spec fn cell_magnitude(s: Seq<u8>) -> int {
    le8(s[1], s[2], s[3], s[4], s[5], s[6], s[7], s[8])
}

/// `s` is the nine-byte cell encoding the scalar `v`: a sign byte, then
/// the magnitude little-endian.
pub open spec fn i64_matches(v: i64, s: Seq<u8>) -> bool {
    &&& s.len() == 9
    &&& s[0] == (if v >= 0 { 0u8 } else { 1u8 })
    &&& cell_magnitude(s) == abs_spec(v)
}

/// `s` is a well-formed nine-byte scalar cell: a canonical sign byte and
/// a magnitude that fits a 64-bit signed value (zero is written with a
/// positive sign).
pub open spec fn valid_i64_bytes(s: Seq<u8>) -> bool {
    &&& s.len() == 9
    &&& (s[0] == 0 || s[0] == 1)
    &&& (s[0] == 0 ==> cell_magnitude(s) <= i64::MAX as int)
    &&& (s[0] == 1 ==> 1 <= cell_magnitude(s) <= 0x8000_0000_0000_0000)
}

/// The three-byte cell encoding one optional command.
pub open spec fn cmd_bytes(c: AlertCommand) -> Seq<u8> {
    match c {
        None => seq![0u8, 0u8, 0u8],
        Some((s, f)) => seq![1u8, sys_value(s), if f { 1u8 } else { 0u8 }],
    }
}

/// `s` is a well-formed three-byte command cell.
pub open spec fn valid_cmd_bytes(s: Seq<u8>) -> bool {
    &&& s.len() == 3
    &&& ((s[0] == 0 && s[1] == 0 && s[2] == 0) || (s[0] == 1 && s[1] < 8 && s[2] < 2))
}

/// `s` is the wire encoding of the input message `m`.
pub open spec fn input_matches(m: TawsInput, s: Seq<u8>) -> bool {
    &&& m.arm@.len() == N_ALERTSYSTEMS
    &&& m.inhibit@.len() == N_ALERTSYSTEMS
    &&& s.len() == INPUT_WIRE_SIZE
    &&& (forall|k: int| 0 <= k < N_ALERTSYSTEMS ==> s.subrange(3 * k, 3 * k + 3) == cmd_bytes(#[trigger] m.arm@[k]))
    &&& (forall|k: int| 0 <= k < N_ALERTSYSTEMS ==> s.subrange(24 + 3 * k, 24 + 3 * k + 3) == cmd_bytes(#[trigger] m.inhibit@[k]))
    &&& i64_matches(m.aircraft_state.altitude, s.subrange(48, 57))
    &&& i64_matches(m.aircraft_state.altitude_ground, s.subrange(57, 66))
    &&& i64_matches(m.aircraft_state.climb_rate, s.subrange(66, 75))
    &&& s[75] == (if m.aircraft_state.steep_approach { 1u8 } else { 0u8 })
}

/// `s` is a well-formed input-message encoding.
pub open spec fn valid_input_bytes(s: Seq<u8>) -> bool {
    &&& s.len() == INPUT_WIRE_SIZE
    &&& (forall|k: int| 0 <= k < N_ALERTSYSTEMS ==> valid_cmd_bytes(#[trigger] s.subrange(3 * k, 3 * k + 3)))
    &&& (forall|k: int| 0 <= k < N_ALERTSYSTEMS ==> valid_cmd_bytes(#[trigger] s.subrange(24 + 3 * k, 24 + 3 * k + 3)))
    &&& valid_i64_bytes(s.subrange(48, 57))
    &&& valid_i64_bytes(s.subrange(57, 66))
    &&& valid_i64_bytes(s.subrange(66, 75))
    &&& s[75] < 2
}

/// The single byte encoding one alert record.
pub open spec fn rec_byte(r: AlertRecord) -> u8 {
    (sys_value(r.system) + 8 * level_value(r.level)) as u8
}

/// `s` is the wire encoding of the alert-state message `m`.
pub open spec fn alert_matches(m: AlertStateMessage, s: Seq<u8>) -> bool {
    &&& m.records@.len() <= 15
    &&& s.len() == 1 + m.records@.len()
    &&& s[0] == m.records@.len()
    &&& (forall|i: int| 0 <= i < m.records@.len() ==> s[1 + i] == rec_byte(#[trigger] m.records@[i]))
}

/// `s` is a well-formed alert-state encoding.
pub open spec fn valid_alert_bytes(s: Seq<u8>) -> bool {
    &&& s.len() >= 1
    &&& s[0] <= 15
    &&& s.len() == 1 + s[0]
    &&& (forall|i: int| 1 <= i < s.len() ==> #[trigger] s[i] < 24)
}

/// Append the three-byte cell of one command.
fn push_cmd(out: &mut Vec<u8>, c: AlertCommand)
    ensures
        final(out)@ == old(out)@ + cmd_bytes(c),
{
    match c {
        None => {
            out.push(0);
            out.push(0);
            out.push(0);
        },
        Some((s, f)) => {
            out.push(1);
            out.push(sys_code(s));
            out.push(if f { 1 } else { 0 });
        },
    }
    proof {
        assert(out@ =~= old(out)@ + cmd_bytes(c));
    }
}

/// Append the nine-byte cell of one signed scalar.
fn push_i64(out: &mut Vec<u8>, v: i64)
    ensures
        final(out)@.len() == old(out)@.len() + 9,
        final(out)@.subrange(0, old(out)@.len() as int) == old(out)@,
        i64_matches(v, final(out)@.subrange(old(out)@.len() as int, old(out)@.len() as int + 9)),
{
    let ghost n = out@.len() as int;
    let sign: u8 = if v >= 0 {
        0
    } else {
        1
    };
    let mag: u64 = if v >= 0 {
        v as u64
    } else {
        ((-(v + 1)) as u64) + 1
    };
    proof {
        assert(mag == abs_spec(v));
        assert(mag <= 0x8000_0000_0000_0000u64);
    }
    let b1: u8 = (mag % 256) as u8;
    let m1: u64 = mag / 256;
    let b2: u8 = (m1 % 256) as u8;
    let m2: u64 = m1 / 256;
    let b3: u8 = (m2 % 256) as u8;
    let m3: u64 = m2 / 256;
    let b4: u8 = (m3 % 256) as u8;
    let m4: u64 = m3 / 256;
    let b5: u8 = (m4 % 256) as u8;
    let m5: u64 = m4 / 256;
    let b6: u8 = (m5 % 256) as u8;
    let m6: u64 = m5 / 256;
    let b7: u8 = (m6 % 256) as u8;
    let m7: u64 = m6 / 256;
    let b8: u8 = (m7 % 256) as u8;
    let m8: u64 = m7 / 256;
    proof {
        assert(m7 <= 255) by {
            assert(m1 <= 0x80_0000_0000_0000);
            assert(m2 <= 0x8000_0000_0000);
            assert(m3 <= 0x80_0000_0000);
            assert(m4 <= 0x8000_0000);
            assert(m5 <= 0x80_0000);
            assert(m6 <= 0x8000);
            assert(m7 <= 0x80);
        }
        assert(m8 == 0);
        assert(le8(b1, b2, b3, b4, b5, b6, b7, b8) == mag);
    }
    out.push(sign);
    out.push(b1);
    out.push(b2);
    out.push(b3);
    out.push(b4);
    out.push(b5);
    out.push(b6);
    out.push(b7);
    out.push(b8);
    proof {
        assert(out@.subrange(0, n) =~= old(out)@);
        assert(out@.subrange(n, n + 9) =~= seq![sign, b1, b2, b3, b4, b5, b6, b7, b8]);
    }
}

/// Read the three-byte command cell at `off`.
fn parse_cmd(bytes: &Vec<u8>, off: usize) -> (r: Option<AlertCommand>)
    requires
        off + 3 <= bytes@.len(),
    ensures
        r is Some <==> valid_cmd_bytes(bytes@.subrange(off as int, off + 3)),
        r matches Some(c) ==> cmd_bytes(c) == bytes@.subrange(off as int, off + 3),
{
    let ghost s = bytes@.subrange(off as int, off + 3);
    let len = bytes.len();
    proof {
        assert(off + 2 < len);
        assert(s[0] == bytes@[off as int]);
        assert(s[1] == bytes@[off + 1]);
        assert(s[2] == bytes@[off + 2]);
    }
    let tag = bytes[off];
    if tag == 0 {
        if bytes[off + 1] == 0 && bytes[off + 2] == 0 {
            proof {
                assert(cmd_bytes(None) =~= s);
            }
            Some(None)
        } else {
            None
        }
    } else if tag == 1 {
        match sys_decode(bytes[off + 1]) {
            Some(sys) => {
                let f = bytes[off + 2];
                if f < 2 {
                    let c: AlertCommand = Some((sys, f == 1));
                    proof {
                        assert(cmd_bytes(c) =~= s);
                    }
                    Some(c)
                } else {
                    None
                }
            },
            None => None,
        }
    } else {
        None
    }
}

/// Read the nine-byte scalar cell at `off`.
fn parse_i64(bytes: &Vec<u8>, off: usize) -> (r: Option<i64>)
    requires
        off + 9 <= bytes@.len(),
    ensures
        r is Some <==> valid_i64_bytes(bytes@.subrange(off as int, off + 9)),
        r matches Some(v) ==> i64_matches(v, bytes@.subrange(off as int, off + 9)),
{
    let ghost s = bytes@.subrange(off as int, off + 9);
    let len = bytes.len();
    proof {
        assert(off + 8 < len);
        assert forall|i: int| 0 <= i < 9 implies s[i] == bytes@[off + i] by {}
    }
    let sign = bytes[off];
    if sign > 1 {
        return None;
    }
    let m8: u64 = bytes[off + 8] as u64;
    let m7: u64 = bytes[off + 7] as u64 + 256 * m8;
    let m6: u64 = bytes[off + 6] as u64 + 256 * m7;
    let m5: u64 = bytes[off + 5] as u64 + 256 * m6;
    let m4: u64 = bytes[off + 4] as u64 + 256 * m5;
    let m3: u64 = bytes[off + 3] as u64 + 256 * m4;
    let m2: u64 = bytes[off + 2] as u64 + 256 * m3;
    let mag: u64 = bytes[off + 1] as u64 + 256 * m2;
    proof {
        assert(cell_magnitude(s) == mag);
    }
    if sign == 0 {
        if mag <= 0x7fff_ffff_ffff_ffff {
            Some(mag as i64)
        } else {
            None
        }
    } else {
        if mag == 0 {
            None
        } else if mag == 0x8000_0000_0000_0000 {
            Some(i64::MIN)
        } else if mag <= 0x7fff_ffff_ffff_ffff {
            Some(-(mag as i64))
        } else {
            None
        }
    }
}

/// Encode an input message; always exactly `INPUT_WIRE_SIZE` bytes, inside
/// the `AIRCRAFT_STATE_SIZE` budget.
pub fn encode_input(m: &TawsInput) -> (r: Vec<u8>)
    requires
        m.wf(),
    ensures
        r@.len() == INPUT_WIRE_SIZE,
        input_matches(*m, r@),
{
    let mut out: Vec<u8> = Vec::new();
    let mut j: usize = 0;
    while j < N_ALERTSYSTEMS
        invariant
            m.wf(),
            j <= N_ALERTSYSTEMS,
            out@.len() == 3 * j,
            forall|k: int| 0 <= k < j ==> out@.subrange(3 * k, 3 * k + 3) == cmd_bytes(#[trigger] m.arm@[k]),
        decreases N_ALERTSYSTEMS - j,
    {
        let ghost prev = out@;
        push_cmd(&mut out, m.arm[j]);
        proof {
            assert forall|k: int| 0 <= k < j + 1 implies out@.subrange(3 * k, 3 * k + 3) == cmd_bytes(#[trigger] m.arm@[k]) by {
                if k < j {
                    assert(out@.subrange(3 * k, 3 * k + 3) =~= prev.subrange(3 * k, 3 * k + 3));
                } else {
                    assert(out@.subrange(3 * k, 3 * k + 3) =~= cmd_bytes(m.arm@[k]));
                }
            }
        }
        j = j + 1;
    }
    let mut j: usize = 0;
    while j < N_ALERTSYSTEMS
        invariant
            m.wf(),
            j <= N_ALERTSYSTEMS,
            out@.len() == 24 + 3 * j,
            forall|k: int| 0 <= k < N_ALERTSYSTEMS ==> out@.subrange(3 * k, 3 * k + 3) == cmd_bytes(#[trigger] m.arm@[k]),
            forall|k: int| 0 <= k < j ==> out@.subrange(24 + 3 * k, 24 + 3 * k + 3) == cmd_bytes(#[trigger] m.inhibit@[k]),
        decreases N_ALERTSYSTEMS - j,
    {
        let ghost prev = out@;
        push_cmd(&mut out, m.inhibit[j]);
        proof {
            assert forall|k: int| 0 <= k < N_ALERTSYSTEMS implies out@.subrange(3 * k, 3 * k + 3) == cmd_bytes(#[trigger] m.arm@[k]) by {
                assert(out@.subrange(3 * k, 3 * k + 3) =~= prev.subrange(3 * k, 3 * k + 3));
            }
            assert forall|k: int| 0 <= k < j + 1 implies out@.subrange(24 + 3 * k, 24 + 3 * k + 3) == cmd_bytes(#[trigger] m.inhibit@[k]) by {
                if k < j {
                    assert(out@.subrange(24 + 3 * k, 24 + 3 * k + 3) =~= prev.subrange(24 + 3 * k, 24 + 3 * k + 3));
                } else {
                    assert(out@.subrange(24 + 3 * k, 24 + 3 * k + 3) =~= cmd_bytes(m.inhibit@[k]));
                }
            }
        }
        j = j + 1;
    }
    let ghost at48 = out@;
    push_i64(&mut out, m.aircraft_state.altitude);
    let ghost at57 = out@;
    push_i64(&mut out, m.aircraft_state.altitude_ground);
    let ghost at66 = out@;
    push_i64(&mut out, m.aircraft_state.climb_rate);
    let ghost at75 = out@;
    out.push(if m.aircraft_state.steep_approach { 1 } else { 0 });
    proof {
        assert(at57.subrange(0, 48) == at48);
        assert(at66.subrange(0, 57) == at57);
        assert(at75.subrange(0, 66) == at66);
        assert(out@.subrange(0, 75) =~= at75);
        assert forall|k: int| 0 <= k < N_ALERTSYSTEMS implies out@.subrange(3 * k, 3 * k + 3) == cmd_bytes(#[trigger] m.arm@[k]) by {
            assert(out@.subrange(3 * k, 3 * k + 3) =~= at48.subrange(3 * k, 3 * k + 3));
        }
        assert forall|k: int| 0 <= k < N_ALERTSYSTEMS implies out@.subrange(24 + 3 * k, 24 + 3 * k + 3) == cmd_bytes(#[trigger] m.inhibit@[k]) by {
            assert(out@.subrange(24 + 3 * k, 24 + 3 * k + 3) =~= at48.subrange(24 + 3 * k, 24 + 3 * k + 3));
        }
        assert(out@.subrange(48, 57) =~= at57.subrange(48, 57));
        assert(out@.subrange(57, 66) =~= at66.subrange(57, 66));
        assert(out@.subrange(66, 75) =~= at75.subrange(66, 75));
    }
    out
}

/// Decode an input message; succeeds exactly on well-formed encodings and
/// returns the message the bytes encode.
pub fn decode_input(bytes: &Vec<u8>) -> (r: Option<TawsInput>)
    ensures
        r is Some <==> valid_input_bytes(bytes@),
        r matches Some(m) ==> m.wf() && input_matches(m, bytes@),
{
    if bytes.len() != INPUT_WIRE_SIZE {
        return None;
    }
    let mut arm: Vec<AlertCommand> = Vec::new();
    let mut j: usize = 0;
    while j < N_ALERTSYSTEMS
        invariant
            bytes@.len() == INPUT_WIRE_SIZE,
            j <= N_ALERTSYSTEMS,
            arm@.len() == j,
            forall|k: int| 0 <= k < j ==> valid_cmd_bytes(#[trigger] bytes@.subrange(3 * k, 3 * k + 3)),
            forall|k: int| 0 <= k < j ==> bytes@.subrange(3 * k, 3 * k + 3) == cmd_bytes(#[trigger] arm@[k]),
        decreases N_ALERTSYSTEMS - j,
    {
        match parse_cmd(bytes, 3 * j) {
            Some(c) => {
                arm.push(c);
            },
            None => {
                return None;
            },
        }
        j = j + 1;
    }
    let mut inhibit: Vec<AlertCommand> = Vec::new();
    let mut j: usize = 0;
    while j < N_ALERTSYSTEMS
        invariant
            bytes@.len() == INPUT_WIRE_SIZE,
            j <= N_ALERTSYSTEMS,
            inhibit@.len() == j,
            forall|k: int| 0 <= k < j ==> valid_cmd_bytes(#[trigger] bytes@.subrange(24 + 3 * k, 24 + 3 * k + 3)),
            forall|k: int| 0 <= k < j ==> bytes@.subrange(24 + 3 * k, 24 + 3 * k + 3) == cmd_bytes(#[trigger] inhibit@[k]),
        decreases N_ALERTSYSTEMS - j,
    {
        match parse_cmd(bytes, 24 + 3 * j) {
            Some(c) => {
                inhibit.push(c);
            },
            None => {
                return None;
            },
        }
        j = j + 1;
    }
    let altitude = match parse_i64(bytes, 48) {
        Some(v) => v,
        None => {
            return None;
        },
    };
    let altitude_ground = match parse_i64(bytes, 57) {
        Some(v) => v,
        None => {
            return None;
        },
    };
    let climb_rate = match parse_i64(bytes, 66) {
        Some(v) => v,
        None => {
            return None;
        },
    };
    let sa = bytes[75];
    if sa > 1 {
        return None;
    }
    let m = TawsInput {
        arm,
        inhibit,
        aircraft_state: AircraftStateSnapshot {
            altitude,
            altitude_ground,
            climb_rate,
            steep_approach: sa == 1,
        },
    };
    Some(m)
}

/// Encode an alert-state message. Succeeds exactly when the records fit
/// the `ALERT_STATE_SIZE` budget of one length byte plus one byte per
/// record, that is on at most fifteen records; more is a fatal
/// configuration error reported as `EncodingTooLarge`.
pub fn encode_alert_state(m: &AlertStateMessage) -> (r: Result<Vec<u8>, TransportError>)
    ensures
        r is Ok <==> m.records@.len() <= 15,
        r matches Ok(v) ==> v@.len() <= ALERT_STATE_SIZE && alert_matches(*m, v@),
        r is Err ==> r == Err::<Vec<u8>, TransportError>(TransportError::EncodingTooLarge),
{
    if m.records.len() > 15 {
        return Err(TransportError::EncodingTooLarge);
    }
    let n = m.records.len();
    let mut out: Vec<u8> = Vec::new();
    out.push(n as u8);
    let mut i: usize = 0;
    while i < n
        invariant
            n == m.records@.len() <= 15,
            i <= n,
            out@.len() == 1 + i,
            out@[0] == n as u8,
            forall|k: int| 0 <= k < i ==> out@[1 + k] == rec_byte(#[trigger] m.records@[k]),
        decreases n - i,
    {
        let rec = m.records[i];
        let b = sys_code(rec.system) + 8 * level_code(rec.level);
        out.push(b);
        i = i + 1;
    }
    Ok(out)
}

/// Decode an alert-state message; succeeds exactly on well-formed
/// encodings and returns the message the bytes encode.
pub fn decode_alert_state(bytes: &Vec<u8>) -> (r: Option<AlertStateMessage>)
    ensures
        r is Some <==> valid_alert_bytes(bytes@),
        r matches Some(m) ==> alert_matches(m, bytes@),
{
    if bytes.len() == 0 {
        return None;
    }
    let n = bytes[0];
    if n > 15 {
        return None;
    }
    if bytes.len() != 1 + n as usize {
        return None;
    }
    let mut records: Vec<AlertRecord> = Vec::new();
    let mut i: usize = 0;
    while i < n as usize
        invariant
            bytes@.len() == 1 + n,
            n <= 15,
            bytes@[0] == n,
            i <= n,
            records@.len() == i,
            forall|k: int| 1 <= k < 1 + i ==> #[trigger] bytes@[k] < 24,
            forall|k: int| 0 <= k < i ==> bytes@[1 + k] == rec_byte(#[trigger] records@[k]),
        decreases n - i,
    {
        let b = bytes[1 + i];
        if b >= 24 {
            return None;
        }
        let sys = match sys_decode(b % 8) {
            Some(s) => s,
            None => {
                return None;
            },
        };
        let level = match level_decode(b / 8) {
            Some(l) => l,
            None => {
                return None;
            },
        };
        let rec = AlertRecord { system: sys, level };
        proof {
            assert(rec_byte(rec) == b);
        }
        records.push(rec);
        i = i + 1;
    }
    Some(AlertStateMessage { records })
}

/// Budget law: every well-formed input message encodes inside the
/// `AIRCRAFT_STATE_SIZE` byte budget, and its encoding is well formed.
pub proof fn lemma_input_encoding_valid(m: TawsInput, s: Seq<u8>)
    requires
        input_matches(m, s),
    ensures
        valid_input_bytes(s),
        s.len() <= AIRCRAFT_STATE_SIZE,
{
    assert forall|k: int| 0 <= k < N_ALERTSYSTEMS implies valid_cmd_bytes(#[trigger] s.subrange(3 * k, 3 * k + 3)) by {
        assert(s.subrange(3 * k, 3 * k + 3) == cmd_bytes(m.arm@[k]));
        match m.arm@[k] {
            Some((sys, f)) => {
                assert(sys_value(sys) < 8);
            },
            None => {},
        }
    }
    assert forall|k: int| 0 <= k < N_ALERTSYSTEMS implies valid_cmd_bytes(#[trigger] s.subrange(24 + 3 * k, 24 + 3 * k + 3)) by {
        assert(s.subrange(24 + 3 * k, 24 + 3 * k + 3) == cmd_bytes(m.inhibit@[k]));
        match m.inhibit@[k] {
            Some((sys, f)) => {
                assert(sys_value(sys) < 8);
            },
            None => {},
        }
    }
}

/// Round-trip law for input messages: the wire format is unambiguous, so
/// two well-formed messages with the same encoding are the same message;
/// with the encoder's and decoder's contracts this means encode-then-
/// decode returns the value that went in.
pub proof fn lemma_input_round_trip(m1: TawsInput, m2: TawsInput, s: Seq<u8>)
    requires
        input_matches(m1, s),
        input_matches(m2, s),
    ensures
        m1.arm@ == m2.arm@,
        m1.inhibit@ == m2.inhibit@,
        m1.aircraft_state == m2.aircraft_state,
{
    assert forall|k: int| 0 <= k < N_ALERTSYSTEMS implies m1.arm@[k] == m2.arm@[k] by {
        lemma_cmd_bytes_injective(m1.arm@[k], m2.arm@[k]);
    }
    assert(m1.arm@ =~= m2.arm@);
    assert forall|k: int| 0 <= k < N_ALERTSYSTEMS implies m1.inhibit@[k] == m2.inhibit@[k] by {
        lemma_cmd_bytes_injective(m1.inhibit@[k], m2.inhibit@[k]);
    }
    assert(m1.inhibit@ =~= m2.inhibit@);
    lemma_i64_matches_injective(m1.aircraft_state.altitude, m2.aircraft_state.altitude, s.subrange(48, 57));
    lemma_i64_matches_injective(m1.aircraft_state.altitude_ground, m2.aircraft_state.altitude_ground, s.subrange(57, 66));
    lemma_i64_matches_injective(m1.aircraft_state.climb_rate, m2.aircraft_state.climb_rate, s.subrange(66, 75));
}

/// Two commands with the same cell bytes are the same command.
proof fn lemma_cmd_bytes_injective(c1: AlertCommand, c2: AlertCommand)
    requires
        cmd_bytes(c1) == cmd_bytes(c2),
    ensures
        c1 == c2,
{
    match (c1, c2) {
        (Some((s1, f1)), Some((s2, f2))) => {
            assert(cmd_bytes(c1)[1] == sys_value(s1));
            assert(cmd_bytes(c2)[1] == sys_value(s2));
            crate::controller::lemma_sys_value_injective(s1, s2);
            assert(cmd_bytes(c1)[2] == (if f1 { 1u8 } else { 0u8 }));
            assert(cmd_bytes(c2)[2] == (if f2 { 1u8 } else { 0u8 }));
        },
        (Some((s1, f1)), None) => {
            assert(cmd_bytes(c1)[0] == 1);
            assert(cmd_bytes(c2)[0] == 0);
        },
        (None, Some((s2, f2))) => {
            assert(cmd_bytes(c1)[0] == 0);
            assert(cmd_bytes(c2)[0] == 1);
        },
        (None, None) => {},
    }
}

/// Two scalars matching the same cell bytes are the same scalar.
proof fn lemma_i64_matches_injective(v1: i64, v2: i64, s: Seq<u8>)
    requires
        i64_matches(v1, s),
        i64_matches(v2, s),
    ensures
        v1 == v2,
{
}

/// Budget law: every alert-state message of at most fifteen records
/// encodes inside the `ALERT_STATE_SIZE` byte budget, and its encoding is
/// well formed.
pub proof fn lemma_alert_encoding_valid(m: AlertStateMessage, s: Seq<u8>)
    requires
        alert_matches(m, s),
    ensures
        valid_alert_bytes(s),
        s.len() <= ALERT_STATE_SIZE,
{
    assert forall|i: int| 1 <= i < s.len() implies #[trigger] s[i] < 24 by {
        assert(s[i] == rec_byte(m.records@[i - 1]));
        assert(sys_value(m.records@[i - 1].system) < 8);
        assert(level_value(m.records@[i - 1].level) < 3);
    }
}

/// Round-trip law for alert-state messages: the wire format is
/// unambiguous, so two messages with the same encoding hold the same
/// records; with the encoder's and decoder's contracts this means
/// encode-then-decode returns the value that went in.
pub proof fn lemma_alert_round_trip(m1: AlertStateMessage, m2: AlertStateMessage, s: Seq<u8>)
    requires
        alert_matches(m1, s),
        alert_matches(m2, s),
    ensures
        m1.records@ == m2.records@,
{
    assert forall|i: int| 0 <= i < m1.records@.len() implies m1.records@[i] == m2.records@[i] by {
        lemma_rec_byte_injective(m1.records@[i], m2.records@[i]);
    }
    assert(m1.records@ =~= m2.records@);
}

/// Two records with the same wire byte are the same record.
proof fn lemma_rec_byte_injective(r1: AlertRecord, r2: AlertRecord)
    requires
        rec_byte(r1) == rec_byte(r2),
    ensures
        r1 == r2,
{
    assert(sys_value(r1.system) < 8);
    assert(sys_value(r2.system) < 8);
    assert(level_value(r1.level) < 3);
    assert(level_value(r2.level) < 3);
    crate::controller::lemma_sys_value_injective(r1.system, r2.system);
    lemma_level_value_injective(r1.level, r2.level);
}

/// Distinct priority levels have distinct numeric urgencies.
proof fn lemma_level_value_injective(a: crate::messages::PriorityLevel, b: crate::messages::PriorityLevel)
    ensures
        level_value(a) == level_value(b) ==> a == b,
{
}

} // verus!

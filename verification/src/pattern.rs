//! Bit patterns over one byte: each of the eight positions is a fixed bit, a
//! wildcard, or a named capture. A pattern matches a byte when every fixed
//! position agrees; consecutive positions carrying the same capture name form
//! one multi-bit field. A pattern set drives a first-match decoder, so the
//! set is checked for overlapping coverage.

use vstd::prelude::*;
use vstd::string::StringSliceAdditionalSpecFns;

verus! {

/// One position of a pattern: a fixed bit, a named capture, or a wildcard.
#[derive(Debug, Clone, Copy, PartialEq, Eq, Structural)]
pub enum Ternary {
    True,
    False,
    Capture(u8),
    Wild,
}

pub open spec fn spec_is_wild(t: Ternary) -> bool {
    match t {
        Ternary::True | Ternary::False => false,
        Ternary::Capture(..) | Ternary::Wild => true,
    }
}

impl Ternary {
    /// Whether the position is free to match either bit value.
    pub fn is_wild(self) -> (r: bool)
        ensures
            r == spec_is_wild(self),
    {
        match self {
            Self::True | Self::False => false,
            Self::Capture(..) | Self::Wild => true,
        }
    }
}

/// An inclusive range of bit positions, LSB-first.
#[derive(Debug, Clone, Copy, PartialEq, Eq, Structural)]
pub struct Range {
    pub start: u8,
    pub end: u8,
}

impl Range {
    /// The number of positions in the range.
    pub fn len(self) -> (r: u8)
        requires
            self.start <= self.end < 8,
        ensures
            r == self.end - self.start + 1,
    {
        self.end - self.start + 1
    }
}

/// A pattern over one byte; position 0 is the least significant bit.
#[derive(Debug, Clone, Copy, PartialEq, Eq)]
pub struct TernaryByte {
    pub bits: [Ternary; 8],
}

/// Bit `i` of `byte`.
pub open spec fn spec_bit(byte: u8, i: u8) -> bool
    recommends
        i < 8,
{
    byte & (1u8 << i) > 0
}

/// A pattern matches a byte when every fixed position holds that bit; the
/// wildcard and capture positions are free.
pub open spec fn spec_bit_fits(t: Ternary, byte: u8, i: u8) -> bool {
    match t {
        Ternary::True => spec_bit(byte, i),
        Ternary::False => !spec_bit(byte, i),
        Ternary::Capture(..) | Ternary::Wild => true,
    }
}

pub open spec fn spec_tb_matches(tb: TernaryByte, byte: u8) -> bool {
    forall|i: u8| 0 <= i < 8 ==> #[trigger] spec_bit_fits(tb.bits@[i as int], byte, i)
}

/// The value an `n`-bit capture field starting at position `p` takes from
/// `op`: the field's bits, shifted down to the bottom.
pub open spec fn spec_capture_value(op: u8, r: Range) -> u8
    recommends
        r.start <= r.end < 8,
{
    (((op as u16) >> r.start as u16) & (((1u16 << ((r.end - r.start + 1) as u16)) - 1) as u16)) as u8
}

/// The captured value consists exactly of the opcode's bits in the field:
/// its bit `j` is the opcode's bit `start + j`, and its bits above the
/// field's width are zero.
pub proof fn lemma_capture_value_bits(op: u8, r: Range)
    requires
        r.start <= r.end < 8,
    ensures
        forall|j: u8|
            j <= r.end - r.start ==> (spec_bit(#[trigger] spec_capture_value(op, r), j)
                == spec_bit(op, (r.start + j) as u8)),
        forall|j: u8|
            r.end - r.start < j < 8 ==> !spec_bit(#[trigger] spec_capture_value(op, r), j),
{
    let s = r.start;
    let e = r.end;
    assert forall|j: u8| j <= e - s implies (spec_bit(spec_capture_value(op, r), j) == spec_bit(
        op,
        (s + j) as u8,
    )) by {
        let v = spec_capture_value(op, r);
        assert(s <= e < 8 && j <= e - s && v == ((((op as u16) >> s as u16) & (((1u16 << ((e - s
            + 1) as u16)) - 1) as u16)) as u8) ==> ((v & (1u8 << j) > 0) == (op & (1u8 << ((s
            + j) as u8)) > 0))) by (bit_vector);
    }
    assert forall|j: u8| e - s < j < 8 implies !spec_bit(spec_capture_value(op, r), j) by {
        let v = spec_capture_value(op, r);
        assert(s <= e < 8 && e - s < j < 8 && v == ((((op as u16) >> s as u16) & (((1u16 << ((e - s
            + 1) as u16)) - 1) as u16)) as u8) ==> !(v & (1u8 << j) > 0)) by (bit_vector);
    }
}

impl TernaryByte {
    /// The pattern fixing every bit of `byte`.
    pub fn byte(byte: u8) -> (r: Self)
        ensures
            forall|i: u8|
                0 <= i < 8 ==> r.bits@[i as int] == (if spec_bit(byte, i) {
                    Ternary::True
                } else {
                    Ternary::False
                }),
    {
        let mut bits: [Ternary; 8] = [Ternary::False; 8];
        let mut i: usize = 0;
        while i < 8
            invariant
                i <= 8,
                forall|k: u8|
                    0 <= k < i ==> bits@[k as int] == (if spec_bit(byte, k) {
                        Ternary::True
                    } else {
                        Ternary::False
                    }),
            decreases 8 - i,
        {
            if byte & (1u8 << (i as u8)) > 0 {
                bits[i] = Ternary::True;
            } else {
                bits[i] = Ternary::False;
            }
            i = i + 1;
        }
        TernaryByte { bits }
    }

    /// Whether the pattern matches `byte`.
    pub fn matches(&self, byte: u8) -> (r: bool)
        ensures
            r == spec_tb_matches(*self, byte),
    {
        let mut i: usize = 0;
        let mut ok = true;
        while i < 8
            invariant
                i <= 8,
                ok == forall|k: u8|
                    0 <= k < i ==> #[trigger] spec_bit_fits(self.bits@[k as int], byte, k),
            decreases 8 - i,
        {
            let here = match self.bits[i] {
                Ternary::True => byte & (1u8 << (i as u8)) > 0,
                Ternary::False => !(byte & (1u8 << (i as u8)) > 0),
                Ternary::Capture(..) | Ternary::Wild => true,
            };
            proof {
                assert(here == spec_bit_fits(self.bits@[i as int], byte, i as u8));
            }
            ok = ok && here;
            i = i + 1;
            proof {
                if ok {
                    assert forall|k: u8| 0 <= k < i implies #[trigger] spec_bit_fits(
                        self.bits@[k as int],
                        byte,
                        k,
                    ) by {
                        if k < i - 1 {
                        } else {
                            assert(k == i - 1);
                        }
                    }
                }
            }
        }
        ok
    }
}


/// A parse failure: more than eight significant characters, or a character
/// outside `0`, `1`, `?`, the letters, and `_`.
#[derive(Debug, Clone, Copy, PartialEq, Eq, Structural)]
pub enum PatternError {
    TooManyDigits,
    InvalidCharacter(u8),
}

/// What one pattern character stands for; `None` for an invalid character.
pub open spec fn spec_ternary_of(c: u8) -> Option<Ternary> {
    if c == 48 {
        // '0'
        Some(Ternary::False)
    } else if c == 49 {
        // '1'
        Some(Ternary::True)
    } else if c == 63 {
        // '?'
        Some(Ternary::Wild)
    } else if 97 <= c <= 122 || 65 <= c <= 90 {
        // a letter names a capture
        Some(Ternary::Capture(c))
    } else {
        None
    }
}

/// The pattern bytes with the `_` separators removed.
pub open spec fn spec_filtered(s: Seq<u8>) -> Seq<u8>
    decreases s.len(),
{
    if s.len() == 0 {
        Seq::empty()
    } else {
        let rest = spec_filtered(s.drop_last());
        if s.last() == 95 {
            rest
        } else {
            rest.push(s.last())
        }
    }
}

/// The first invalid character, scanning from the last (least significant)
/// position towards the first.
pub open spec fn spec_first_invalid(f: Seq<u8>) -> Option<u8>
    decreases f.len(),
{
    if f.len() == 0 {
        None
    } else if spec_ternary_of(f.last()) is None {
        Some(f.last())
    } else {
        spec_first_invalid(f.drop_last())
    }
}

impl TernaryByte {
    /// Parse a pattern string, most significant position first; `_` is a
    /// visual separator. The length is checked before the characters.
    pub fn from_str(s: &str) -> (r: Result<TernaryByte, PatternError>)
        ensures
            ({
                let f = spec_filtered(s.spec_bytes());
                &&& (r == Result::<TernaryByte, PatternError>::Err(PatternError::TooManyDigits)
                    <==> f.len() > 8)
                &&& (f.len() <= 8 ==> match spec_first_invalid(f) {
                    Some(c) => r == Result::<TernaryByte, PatternError>::Err(
                        PatternError::InvalidCharacter(c),
                    ),
                    None => r is Ok,
                })
                &&& (r matches Ok(tb) ==> {
                    &&& f.len() <= 8
                    &&& forall|i: int|
                        0 <= i < f.len() ==> #[trigger] tb.bits@[i] == spec_ternary_of(
                            f[f.len() - 1 - i],
                        ).unwrap()
                    &&& forall|i: int| f.len() <= i < 8 ==> tb.bits@[i] == Ternary::False
                })
            }),
    {
        let bytes = s.as_bytes();
        let mut filtered: Vec<u8> = Vec::new();
        let mut j: usize = 0;
        while j < bytes.len()
            invariant
                j <= bytes@.len(),
                filtered@ == spec_filtered(bytes@.subrange(0, j as int)),
            decreases bytes@.len() - j,
        {
            proof {
                assert(bytes@.subrange(0, j + 1).drop_last() =~= bytes@.subrange(0, j as int));
                assert(bytes@.subrange(0, j + 1).last() == bytes@[j as int]);
            }
            if bytes[j] != 95 {
                filtered.push(bytes[j]);
            }
            j = j + 1;
        }
        proof {
            assert(bytes@.subrange(0, bytes@.len() as int) =~= bytes@);
        }
        if filtered.len() > 8 {
            return Err(PatternError::TooManyDigits);
        }
        let mut bits: [Ternary; 8] = [Ternary::False; 8];
        let n = filtered.len();
        proof {
            assert(filtered@.subrange(0, n as int) =~= filtered@);
        }
        let mut i: usize = 0;
        while i < n
            invariant
                filtered@ == spec_filtered(s.spec_bytes()),
                n == filtered@.len() <= 8,
                i <= n,
                spec_first_invalid(filtered@) == spec_first_invalid(
                    filtered@.subrange(0, n - i),
                ),
                forall|k: int|
                    0 <= k < i ==> #[trigger] bits@[k] == spec_ternary_of(
                        filtered@[n - 1 - k],
                    ).unwrap(),
                forall|k: int| i <= k < 8 ==> bits@[k] == Ternary::False,
            decreases n - i,
        {
            let c = filtered[n - 1 - i];
            proof {
                assert(filtered@.subrange(0, n - i).last() == filtered@[n - 1 - i]);
                assert(filtered@.subrange(0, n - i).drop_last() =~= filtered@.subrange(
                    0,
                    n - i - 1,
                ));
            }
            let t = if c == 48 {
                Ternary::False
            } else if c == 49 {
                Ternary::True
            } else if c == 63 {
                Ternary::Wild
            } else if (97 <= c && c <= 122) || (65 <= c && c <= 90) {
                Ternary::Capture(c)
            } else {
                proof {
                    assert(spec_first_invalid(filtered@.subrange(0, n - i)) == Some(c));
                }
                return Err(PatternError::InvalidCharacter(c));
            };
            proof {
                assert(spec_ternary_of(c) == Some(t));
            }
            bits[i] = t;
            i = i + 1;
        }
        proof {
            assert(filtered@.subrange(0, 0) =~= Seq::<u8>::empty());
        }
        Ok(TernaryByte { bits })
    }
}

/// `ch` names captures in non-contiguous positions: two positions carry it
/// with a different position between them.
pub open spec fn spec_split_capture(bits: Seq<Ternary>, ch: u8) -> bool {
    exists|i: int, k: int, j: int|
        0 <= i < k < j < 8 && bits[i] == Ternary::Capture(ch) && bits[j] == Ternary::Capture(ch)
            && bits[k] != Ternary::Capture(ch)
}

/// `list` is a sound capture table for `bits`: each entry is a run of its
/// name, every capture position is covered, and no name repeats.
pub open spec fn spec_captures_ok(bits: Seq<Ternary>, list: Seq<(u8, Range)>) -> bool {
    &&& forall|k: int|
        0 <= k < list.len() ==> {
            let (ch, r) = #[trigger] list[k];
            &&& r.start <= r.end < 8
            &&& forall|i: int| r.start <= i <= r.end ==> bits[i] == Ternary::Capture(ch)
        }
    &&& forall|i: int|
        0 <= i < 8 && (#[trigger] bits[i]) is Capture ==> exists|k: int|
            0 <= k < list.len() && (#[trigger] list[k]).0 == bits[i]->Capture_0
            && list[k].1.start <= i <= list[k].1.end
    &&& forall|k1: int, k2: int|
        0 <= k1 < k2 < list.len() ==> (#[trigger] list[k1]).0 != (#[trigger] list[k2]).0
}


/// Whether `list` already holds an entry named `ch`.
fn list_contains(list: &Vec<(u8, Range)>, ch: u8) -> (r: bool)
    ensures
        r == exists|k: int| 0 <= k < list@.len() && (#[trigger] list@[k]).0 == ch,
{
    let mut k: usize = 0;
    while k < list.len()
        invariant
            k <= list@.len(),
            forall|m: int| 0 <= m < k ==> (#[trigger] list@[m]).0 != ch,
        decreases list@.len() - k,
    {
        if list[k].0 == ch {
            return true;
        }
        k = k + 1;
    }
    false
}

/// Coverage by an entry of `list` survives pushing another entry.
proof fn lemma_cover_push(list: Seq<(u8, Range)>, e: (u8, Range), i: int)
    requires
        exists|k: int| 0 <= k < list.len() && (#[trigger] list[k]).1.start <= i <= list[k].1.end,
    ensures
        exists|k: int|
            0 <= k < list.push(e).len() && (#[trigger] list.push(e)[k]).1.start <= i
                <= list.push(e)[k].1.end,
{
    let k0 = choose|k: int|
        0 <= k < list.len() && (#[trigger] list[k]).1.start <= i <= list[k].1.end;
    assert(list.push(e)[k0] == list[k0]);
    assert(0 <= k0 < list.push(e).len() && list.push(e)[k0].1.start <= i
        <= list.push(e)[k0].1.end);
}

/// The invariants of the capture scan: the entries found so far are maximal
/// runs in increasing position order with distinct names, and together with
/// the still-open run they cover every capture position already passed.
pub open spec fn captures_scan_ok(
    bits: Seq<Ternary>,
    list: Seq<(u8, Range)>,
    current: Option<(u8, Range)>,
    idx: int,
) -> bool {
    &&& forall|k: int|
        0 <= k < list.len() ==> {
            let (ch, r) = #[trigger] list[k];
            &&& r.start <= r.end < idx
            &&& (forall|i: int| r.start <= i <= r.end ==> bits[i] == Ternary::Capture(ch))
            &&& (r.start == 0 || bits[r.start - 1] != Ternary::Capture(ch))
            &&& (r.end + 1 < idx && bits[r.end + 1] != Ternary::Capture(ch))
        }
    &&& forall|k1: int, k2: int|
        0 <= k1 < k2 < list.len() ==> (#[trigger] list[k1]).1.end < (#[trigger] list[k2]).1.start
    &&& forall|k1: int, k2: int|
        0 <= k1 < k2 < list.len() ==> (#[trigger] list[k1]).0 != (#[trigger] list[k2]).0
    &&& match current {
        Some((ch, r)) => {
            &&& r.start <= r.end < 8
            &&& r.end == idx - 1
            &&& (forall|i: int| r.start <= i <= r.end ==> bits[i] == Ternary::Capture(ch))
            &&& (r.start == 0 || bits[r.start - 1] != Ternary::Capture(ch))
            &&& forall|k: int| 0 <= k < list.len() ==> (#[trigger] list[k]).1.end < r.start
        },
        None => idx == 0 || 0 <= idx - 1 < 8 && !(bits[idx - 1] is Capture),
    }
    &&& forall|i: int|
        0 <= i < idx && (#[trigger] bits[i]) is Capture ==> (exists|k: int|
            0 <= k < list.len() && (#[trigger] list[k]).1.start <= i <= list[k].1.end) || (
        match current {
            Some((_, r)) => r.start <= i <= r.end,
            None => false,
        })
}

impl TernaryByte {
    /// The capture fields of the pattern: each maximal run of positions
    /// carrying one name, in increasing position order. A name that appears
    /// in two separate runs is a structural error, returned as `Err` of that
    /// name.
    pub fn captures(self) -> (r: Result<Vec<(u8, Range)>, u8>)
        ensures
            r matches Ok(list) ==> spec_captures_ok(self.bits@, list@),
            r matches Err(ch) ==> spec_split_capture(self.bits@, ch),
            (forall|ch: u8| !spec_split_capture(self.bits@, ch)) ==> r is Ok,
    {
        let ghost bits = self.bits@;
        let mut list: Vec<(u8, Range)> = Vec::new();
        let mut current: Option<(u8, Range)> = None;
        let mut idx: usize = 0;
        while idx < 8
            invariant
                idx <= 8,
                bits == self.bits@,
                captures_scan_ok(bits, list@, current, idx as int),
            decreases 8 - idx,
        {
            match self.bits[idx] {
                Ternary::Capture(ch) => {
                    match current {
                        Some((cur_ch, cur_r)) => {
                            if ch == cur_ch {
                                current = Some((cur_ch, Range { start: cur_r.start, end: idx as u8 }));
                            } else {
                                if list_contains(&list, cur_ch) {
                                    proof {
                                        lemma_split_from_duplicate(bits, list@, cur_ch, cur_r);
                                    }
                                    return Err(cur_ch);
                                }
                                proof {
                                    let gl = list@;
                                    assert forall|i: int|
                                        0 <= i < idx && (#[trigger] bits[i]) is Capture implies (
                                        exists|k: int|
                                            0 <= k < gl.push((cur_ch, cur_r)).len() && (
                                            #[trigger] gl.push((cur_ch, cur_r))[k]).1.start <= i
                                                <= gl.push((cur_ch, cur_r))[k].1.end) by {
                                        if cur_r.start <= i <= cur_r.end {
                                            assert(gl.push((cur_ch, cur_r))[gl.len() as int]
                                                == (cur_ch, cur_r));
                                        } else {
                                            lemma_cover_push(gl, (cur_ch, cur_r), i);
                                        }
                                    }
                                }
                                list.push((cur_ch, cur_r));
                                current = Some((ch, Range { start: idx as u8, end: idx as u8 }));
                            }
                        },
                        None => {
                            current = Some((ch, Range { start: idx as u8, end: idx as u8 }));
                        },
                    }
                },
                Ternary::True | Ternary::False | Ternary::Wild => {
                    match current {
                        Some((cur_ch, cur_r)) => {
                            if list_contains(&list, cur_ch) {
                                proof {
                                    lemma_split_from_duplicate(bits, list@, cur_ch, cur_r);
                                }
                                return Err(cur_ch);
                            }
                            proof {
                                let gl = list@;
                                assert forall|i: int|
                                    0 <= i < idx && (#[trigger] bits[i]) is Capture implies (
                                    exists|k: int|
                                        0 <= k < gl.push((cur_ch, cur_r)).len() && (
                                        #[trigger] gl.push((cur_ch, cur_r))[k]).1.start <= i
                                            <= gl.push((cur_ch, cur_r))[k].1.end) by {
                                    if cur_r.start <= i <= cur_r.end {
                                        assert(gl.push((cur_ch, cur_r))[gl.len() as int]
                                            == (cur_ch, cur_r));
                                    } else {
                                        lemma_cover_push(gl, (cur_ch, cur_r), i);
                                    }
                                }
                            }
                            list.push((cur_ch, cur_r));
                            current = None;
                        },
                        None => {},
                    }
                },
            }
            idx = idx + 1;
        }
        match current {
            Some((cur_ch, cur_r)) => {
                if list_contains(&list, cur_ch) {
                    proof {
                        lemma_split_from_duplicate(bits, list@, cur_ch, cur_r);
                    }
                    return Err(cur_ch);
                }
                proof {
                    let gl = list@;
                    assert forall|i: int|
                        0 <= i < 8 && (#[trigger] bits[i]) is Capture implies (exists|k: int|
                            0 <= k < gl.push((cur_ch, cur_r)).len() && (#[trigger] gl.push(
                            (cur_ch, cur_r),
                        )[k]).1.start <= i <= gl.push((cur_ch, cur_r))[k].1.end) by {
                        if cur_r.start <= i <= cur_r.end {
                            assert(gl.push((cur_ch, cur_r))[gl.len() as int] == (cur_ch, cur_r));
                        } else {
                            lemma_cover_push(gl, (cur_ch, cur_r), i);
                        }
                    }
                }
                list.push((cur_ch, cur_r));
            },
            None => {},
        }
        proof {
            assert forall|i: int|
                0 <= i < 8 && (#[trigger] bits[i]) is Capture implies exists|k: int|
                    0 <= k < list@.len() && (#[trigger] list@[k]).0 == bits[i]->Capture_0
                        && list@[k].1.start <= i <= list@[k].1.end by {
                let k0 = choose|k: int|
                    0 <= k < list@.len() && (#[trigger] list@[k]).1.start <= i <= list@[k].1.end;
                assert(bits[i] == Ternary::Capture(list@[k0].0));
            }
        }
        Ok(list)
    }
}

/// If a finished run of `ch` stands in the table and another run of `ch` is
/// open to its right, then `ch` occupies non-contiguous positions.
proof fn lemma_split_from_duplicate(
    bits: Seq<Ternary>,
    list: Seq<(u8, Range)>,
    ch: u8,
    cur: Range,
)
    requires
        exists|k: int| 0 <= k < list.len() && (#[trigger] list[k]).0 == ch,
        forall|k: int|
            0 <= k < list.len() ==> {
                let (ch0, r) = #[trigger] list[k];
                &&& r.start <= r.end < 8
                &&& (forall|i: int| r.start <= i <= r.end ==> bits[i] == Ternary::Capture(ch0))
                &&& (r.end + 1 < 8 && bits[r.end + 1] != Ternary::Capture(ch0))
            },
        forall|k: int| 0 <= k < list.len() ==> (#[trigger] list[k]).1.end < cur.start,
        cur.start <= cur.end < 8,
        forall|i: int| cur.start <= i <= cur.end ==> bits[i] == Ternary::Capture(ch),
    ensures
        spec_split_capture(bits, ch),
{
    let k0 = choose|k: int| 0 <= k < list.len() && (#[trigger] list[k]).0 == ch;
    let r0 = list[k0].1;
    assert(bits[r0.end as int] == Ternary::Capture(ch));
    assert(bits[r0.end + 1] != Ternary::Capture(ch));
    assert(bits[cur.start as int] == Ternary::Capture(ch));
    assert(r0.end + 1 != cur.start);
    assert(0 <= r0.end < r0.end + 1 < cur.start < 8);
}


/// One step of the byte enumeration, most significant position first: fixed
/// positions contribute their bit, and each wildcard or capture position
/// consumes the next bit of the counter.
pub open spec fn spec_fill_step(bits: Seq<Ternary>, idx: int, ret: u8, counter: u8) -> u8
    decreases 8 - idx,
{
    if idx < 0 || idx >= 8 {
        ret
    } else {
        let b = bits[7 - idx];
        let bitval: u8 = match b {
            Ternary::True => 1,
            Ternary::False => 0,
            Ternary::Capture(..) | Ternary::Wild => counter & 1,
        };
        let ret2 = (((ret * 2) % 0x100) as u8 | bitval) as u8;
        let counter2: u8 = if spec_is_wild(b) {
            counter >> 1
        } else {
            counter
        };
        spec_fill_step(bits, idx + 1, ret2, counter2)
    }
}

/// The byte the pattern yields for `counter`: its free positions are filled
/// with the counter's bits.
pub open spec fn spec_fill(tb: TernaryByte, counter: u8) -> u8 {
    spec_fill_step(tb.bits@, 0, 0, counter)
}

/// The number of free (wildcard or capture) positions among the first `n`.
pub open spec fn spec_num_wild(bits: Seq<Ternary>, n: int) -> int
    decreases n,
{
    if n <= 0 {
        0
    } else {
        spec_num_wild(bits, n - 1) + if spec_is_wild(bits[n - 1]) {
            1int
        } else {
            0int
        }
    }
}

impl TernaryByte {
    /// Fill the free positions of the pattern with the counter's bits, the
    /// lowest counter bit going to the least significant free position.
    pub fn fill_with_counter(self, counter: u8) -> (r: u8)
        ensures
            r == spec_fill(self, counter),
    {
        let mut ret: u8 = 0;
        let mut c: u8 = counter;
        let mut idx: usize = 0;
        while idx < 8
            invariant
                idx <= 8,
                spec_fill(self, counter) == spec_fill_step(self.bits@, idx as int, ret, c),
            decreases 8 - idx,
        {
            let bitval: u8 = match self.bits[7 - idx] {
                Ternary::True => 1,
                Ternary::False => 0,
                Ternary::Capture(..) | Ternary::Wild => {
                    let this_bit = c & 1;
                    c = c >> 1;
                    this_bit
                },
            };
            proof {
                assert(c & 1 <= 1) by (bit_vector);
                let c0 = counter;
                assert(c0 & 1 <= 1) by (bit_vector);
            }
            ret = ret.wrapping_mul(2) | bitval;
            idx = idx + 1;
        }
        ret
    }

    /// The number of free positions.
    pub fn num_wild(&self) -> (r: u8)
        ensures
            r == spec_num_wild(self.bits@, 8),
            r <= 8,
    {
        let mut count: u8 = 0;
        let mut idx: usize = 0;
        while idx < 8
            invariant
                idx <= 8,
                count == spec_num_wild(self.bits@, idx as int),
                count <= idx,
            decreases 8 - idx,
        {
            if self.bits[idx].is_wild() {
                count = count + 1;
            }
            idx = idx + 1;
        }
        count
    }

    /// Every byte the pattern can yield, one for each counter value, highest
    /// counter first.
    pub fn possibilities(self) -> (r: Vec<u8>)
        ensures
            r@.len() == 1usize << spec_num_wild(self.bits@, 8),
            forall|i: int|
                0 <= i < r@.len() ==> r@[i] == spec_fill(self, (r@.len() - 1 - i) as u8),
    {
        let w = self.num_wild();
        let n: usize = 1usize << w;
        proof {
            let w8 = w;
            assert(w8 <= 8 ==> 1usize << w8 <= 256) by (bit_vector);
        }
        let mut out: Vec<u8> = Vec::new();
        let mut i: usize = 0;
        while i < n
            invariant
                n == 1usize << spec_num_wild(self.bits@, 8),
                n <= 256,
                i <= n,
                out@.len() == i,
                forall|k: int| 0 <= k < i ==> out@[k] == spec_fill(self, (n - 1 - k) as u8),
            decreases n - i,
        {
            out.push(self.fill_with_counter((n - 1 - i) as u8));
            i = i + 1;
        }
        out
    }
}

/// A pattern with its exclusions: it covers the bytes its matcher matches
/// except those any exclusion matches.
pub struct Pattern {
    pub matcher: TernaryByte,
    pub exclusions: Vec<TernaryByte>,
}

/// Whether `p` covers `b`.
pub open spec fn spec_covers(p: &Pattern, b: u8) -> bool {
    spec_tb_matches(p.matcher, b) && forall|k: int|
        0 <= k < p.exclusions@.len() ==> !spec_tb_matches(#[trigger] p.exclusions@[k], b)
}

impl Pattern {
    pub fn covers(&self, b: u8) -> (r: bool)
        ensures
            r == spec_covers(self, b),
    {
        if !self.matcher.matches(b) {
            return false;
        }
        let mut k: usize = 0;
        while k < self.exclusions.len()
            invariant
                k <= self.exclusions@.len(),
                spec_tb_matches(self.matcher, b),
                forall|m: int|
                    0 <= m < k ==> !spec_tb_matches(#[trigger] self.exclusions@[m], b),
            decreases self.exclusions@.len() - k,
        {
            if self.exclusions[k].matches(b) {
                return false;
            }
            k = k + 1;
        }
        true
    }
}

/// Search a pattern set for a byte two patterns both cover. `None` means the
/// coverages are pairwise disjoint, so a first-match decoder over the set is
/// order-independent; `Some` cites the two offending patterns and the byte.
pub fn find_conflict(patterns: &Vec<Pattern>) -> (r: Option<(usize, usize, u8)>)
    ensures
        match r {
            Some((i, j, b)) => 0 <= i < j < patterns@.len() && spec_covers(&patterns@[i as int], b)
                && spec_covers(&patterns@[j as int], b),
            None => forall|i: int, j: int, b: u8|
                0 <= i < j < patterns@.len() ==> !(#[trigger] spec_covers(&patterns@[i], b)
                    && #[trigger] spec_covers(&patterns@[j], b)),
        },
{
    let mut b: usize = 0;
    while b < 256
        invariant
            b <= 256,
            forall|i: int, j: int, b0: u8|
                0 <= i < j < patterns@.len() && b0 < b ==> !(#[trigger] spec_covers(
                    &patterns@[i],
                    b0,
                ) && #[trigger] spec_covers(&patterns@[j], b0)),
        decreases 256 - b,
    {
        let byte = b as u8;
        let mut i: usize = 0;
        while i < patterns.len()
            invariant
                b < 256,
                byte == b as u8,
                i <= patterns@.len(),
                forall|i0: int, j0: int|
                    0 <= i0 < j0 < patterns@.len() && i0 < i ==> !(#[trigger] spec_covers(
                        &patterns@[i0],
                        byte,
                    ) && #[trigger] spec_covers(&patterns@[j0], byte)),
            decreases patterns@.len() - i,
        {
            if patterns[i].covers(byte) {
                let mut j: usize = i + 1;
                while j < patterns.len()
                    invariant
                        b < 256,
                        byte == b as u8,
                        i < j,
                        i < patterns@.len(),
                        j <= patterns@.len(),
                        spec_covers(&patterns@[i as int], byte),
                        forall|j0: int|
                            i < j0 < j ==> !(#[trigger] spec_covers(&patterns@[j0], byte)),
                    decreases patterns@.len() - j,
                {
                    if patterns[j].covers(byte) {
                        return Some((i, j, byte));
                    }
                    j = j + 1;
                }
            }
            i = i + 1;
        }
        b = b + 1;
    }
    None
}

} // verus!

use vstd::prelude::*;

use crate::error::SerialError;
use crate::text::{
    chars_of, decimal, find_comma, is_ws, lemma_decimal, lemma_next_comma, next_comma,
    parse_u32_range, parse_u32_text, push_char, push_decimal, trim, trim_bounds,
};

verus! {

/// Parity check mode.
#[derive(Debug, Clone, Copy, PartialEq, Eq, Structural)]
pub enum Parity {
    NoParity,
    Odd,
    Even,
    Mark,
    Space,
}

/// Number of data bits per character.
#[derive(Debug, Clone, Copy, PartialEq, Eq, Structural)]
pub enum DataBits {
    Five,
    Six,
    Seven,
    Eight,
    Sixteen,
}

/// Number of stop bits.
#[derive(Debug, Clone, Copy, PartialEq, Eq, Structural)]
pub enum StopBits {
    One,
    OnePointFive,
    Two,
}

/// Baud rate, parity check mode, data bits and stop bits of a serial line.
#[derive(Debug, Clone, Copy, PartialEq, Eq, Structural)]
pub struct SerialConfig {
    pub baud_rate: u32,
    pub parity: Parity,
    pub data_bits: DataBits,
    pub stop_bits: StopBits,
}

impl Default for SerialConfig {
    /// 9600 baud, no parity, 8 data bits, 1 stop bit.
    fn default() -> (r: SerialConfig)
        ensures
            r == (SerialConfig {
                baud_rate: 9600,
                parity: Parity::NoParity,
                data_bits: DataBits::Eight,
                stop_bits: StopBits::One,
            }),
    {
        SerialConfig {
            baud_rate: 9600,
            parity: Parity::NoParity,
            data_bits: DataBits::Eight,
            stop_bits: StopBits::One,
        }
    }
}

/// Line-coding code of the stop bits (byte 4).
pub open spec fn stop_bits_code(s: StopBits) -> u8 {
    match s {
        StopBits::One => 0,
        StopBits::OnePointFive => 1,
        StopBits::Two => 2,
    }
}

/// Line-coding code of the parity (byte 5).
pub open spec fn parity_code(p: Parity) -> u8 {
    match p {
        Parity::NoParity => 0,
        Parity::Odd => 1,
        Parity::Even => 2,
        Parity::Mark => 3,
        Parity::Space => 4,
    }
}

/// Number of data bits (byte 6).
pub open spec fn data_bits_value(d: DataBits) -> u8 {
    match d {
        DataBits::Five => 5,
        DataBits::Six => 6,
        DataBits::Seven => 7,
        DataBits::Eight => 8,
        DataBits::Sixteen => 16,
    }
}

pub open spec fn stop_bits_of_code(b: u8) -> Option<StopBits> {
    if b == 0 {
        Some(StopBits::One)
    } else if b == 1 {
        Some(StopBits::OnePointFive)
    } else if b == 2 {
        Some(StopBits::Two)
    } else {
        None
    }
}

pub open spec fn parity_of_code(b: u8) -> Option<Parity> {
    if b == 0 {
        Some(Parity::NoParity)
    } else if b == 1 {
        Some(Parity::Odd)
    } else if b == 2 {
        Some(Parity::Even)
    } else if b == 3 {
        Some(Parity::Mark)
    } else if b == 4 {
        Some(Parity::Space)
    } else {
        None
    }
}

pub open spec fn data_bits_of_value(b: u8) -> Option<DataBits> {
    if b == 5 {
        Some(DataBits::Five)
    } else if b == 6 {
        Some(DataBits::Six)
    } else if b == 7 {
        Some(DataBits::Seven)
    } else if b == 8 {
        Some(DataBits::Eight)
    } else if b == 16 {
        Some(DataBits::Sixteen)
    } else {
        None
    }
}

/// The `k`-th byte (0 = least significant) of `x`.
pub open spec fn byte_of(x: u32, k: u32) -> u8 {
    (#[verifier::truncate] (((x >> (8 * k)) & 0xff) as u8))
}

/// The little-endian `u32` held in four bytes.
pub open spec fn u32_of_le(b0: u8, b1: u8, b2: u8, b3: u8) -> u32 {
    (b0 as u32) | ((b1 as u32) << 8) | ((b2 as u32) << 16) | ((b3 as u32) << 24)
}

/// The 7-byte line-coding structure of a configuration.
pub open spec fn line_coding(c: SerialConfig) -> Seq<u8> {
    seq![
        byte_of(c.baud_rate, 0),
        byte_of(c.baud_rate, 1),
        byte_of(c.baud_rate, 2),
        byte_of(c.baud_rate, 3),
        stop_bits_code(c.stop_bits),
        parity_code(c.parity),
        data_bits_value(c.data_bits),
    ]
}

/// The configuration a 7-byte line-coding structure stands for, if its codes are known.
pub open spec fn decode_line_coding(b: Seq<u8>) -> Option<SerialConfig> {
    if b.len() != 7 {
        None
    } else {
        match (stop_bits_of_code(b[4]), parity_of_code(b[5]), data_bits_of_value(b[6])) {
            (Some(stop_bits), Some(parity), Some(data_bits)) => Some(
                SerialConfig {
                    baud_rate: u32_of_le(b[0], b[1], b[2], b[3]),
                    parity,
                    data_bits,
                    stop_bits,
                },
            ),
            _ => None,
        }
    }
}

proof fn lemma_le_bytes(x: u32)
    ensures
        u32_of_le(byte_of(x, 0), byte_of(x, 1), byte_of(x, 2), byte_of(x, 3)) == x,
{
    assert(((((x >> 0u32) & 0xff) as u8) as u32) | (((((x >> 8u32) & 0xff) as u8) as u32) << 8)
        | (((((x >> 16u32) & 0xff) as u8) as u32) << 16) | (((((x >> 24u32) & 0xff) as u8) as u32)
        << 24) == x) by (bit_vector);
}

/// Decoding the line-coding structure of a configuration gives back that
/// configuration: the baud rate, parity, stop bits and data bits all survive.
pub proof fn lemma_line_coding_round_trip(c: SerialConfig)
    ensures
        decode_line_coding(line_coding(c)) == Some(c),
{
    lemma_le_bytes(c.baud_rate);
}

impl StopBits {
    pub fn code(self) -> (r: u8)
        ensures
            r == stop_bits_code(self),
    {
        match self {
            StopBits::One => 0,
            StopBits::OnePointFive => 1,
            StopBits::Two => 2,
        }
    }
}

impl Parity {
    pub fn code(self) -> (r: u8)
        ensures
            r == parity_code(self),
    {
        match self {
            Parity::NoParity => 0,
            Parity::Odd => 1,
            Parity::Even => 2,
            Parity::Mark => 3,
            Parity::Space => 4,
        }
    }
}

impl DataBits {
    pub fn value(self) -> (r: u8)
        ensures
            r == data_bits_value(self),
    {
        match self {
            DataBits::Five => 5,
            DataBits::Six => 6,
            DataBits::Seven => 7,
            DataBits::Eight => 8,
            DataBits::Sixteen => 16,
        }
    }
}

impl SerialConfig {
    /// The 7-byte line-coding structure sent with `SET_LINE_CODING`:
    /// little-endian baud rate, then the stop-bits, parity and data-bits codes.
    pub fn line_coding_bytes(&self) -> (r: [u8; 7])
        ensures
            r@ == line_coding(*self),
    {
        let b = self.baud_rate;
        assert(b >> 0u32 == b) by (bit_vector);
        let r = [
            (#[verifier::truncate] ((b & 0xff) as u8)),
            (#[verifier::truncate] (((b >> 8) & 0xff) as u8)),
            (#[verifier::truncate] (((b >> 16) & 0xff) as u8)),
            (#[verifier::truncate] (((b >> 24) & 0xff) as u8)),
            self.stop_bits.code(),
            self.parity.code(),
            self.data_bits.value(),
        ];
        assert(r@ =~= line_coding(*self));
        r
    }

    /// Reads a 7-byte line-coding structure back; unknown codes are `InvalidInput`.
    pub fn from_line_coding(bytes: &[u8; 7]) -> (r: Result<SerialConfig, SerialError>)
        ensures
            r == (match decode_line_coding(bytes@) {
                Some(c) => Ok(c),
                None => Err(SerialError::InvalidInput),
            }),
    {
        let stop_bits = match bytes[4] {
            0 => StopBits::One,
            1 => StopBits::OnePointFive,
            2 => StopBits::Two,
            _ => return Err(SerialError::InvalidInput),
        };
        let parity = match bytes[5] {
            0 => Parity::NoParity,
            1 => Parity::Odd,
            2 => Parity::Even,
            3 => Parity::Mark,
            4 => Parity::Space,
            _ => return Err(SerialError::InvalidInput),
        };
        let data_bits = match bytes[6] {
            5 => DataBits::Five,
            6 => DataBits::Six,
            7 => DataBits::Seven,
            8 => DataBits::Eight,
            16 => DataBits::Sixteen,
            _ => return Err(SerialError::InvalidInput),
        };
        let baud_rate = (bytes[0] as u32) | ((bytes[1] as u32) << 8) | ((bytes[2] as u32) << 16)
            | ((bytes[3] as u32) << 24);
        Ok(SerialConfig { baud_rate, parity, data_bits, stop_bits })
    }
}


/// The letter of a parity mode in the textual form.
pub open spec fn parity_letter(p: Parity) -> char {
    match p {
        Parity::NoParity => 'N',
        Parity::Odd => 'O',
        Parity::Even => 'E',
        Parity::Mark => 'M',
        Parity::Space => 'S',
    }
}

/// The parity named by a field: its first character decides.
pub open spec fn parity_of_text(t: Seq<char>) -> Option<Parity> {
    if t.len() == 0 {
        None
    } else if t[0] == 'N' {
        Some(Parity::NoParity)
    } else if t[0] == 'O' {
        Some(Parity::Odd)
    } else if t[0] == 'E' {
        Some(Parity::Even)
    } else if t[0] == 'M' {
        Some(Parity::Mark)
    } else if t[0] == 'S' {
        Some(Parity::Space)
    } else {
        None
    }
}

pub open spec fn data_bits_of_text(t: Seq<char>) -> Option<DataBits> {
    match parse_u32_text(t) {
        Some(n) => if n <= 0xff {
            data_bits_of_value(n as u8)
        } else {
            None
        },
        None => None,
    }
}

pub open spec fn stop_bits_text(s: StopBits) -> Seq<char> {
    match s {
        StopBits::One => seq!['1'],
        StopBits::OnePointFive => seq!['1', '.', '5'],
        StopBits::Two => seq!['2'],
    }
}

pub open spec fn stop_bits_of_text(t: Seq<char>) -> Option<StopBits> {
    if t == seq!['1'] {
        Some(StopBits::One)
    } else if t == seq!['1', '.', '5'] {
        Some(StopBits::OnePointFive)
    } else if t == seq!['2'] {
        Some(StopBits::Two)
    } else {
        None
    }
}

/// The canonical textual form `<baud>,<parity-letter>,<data-bits>,<stop-bits>`,
/// e.g. `9600,N,8,1`.
pub open spec fn config_text(c: SerialConfig) -> Seq<char> {
    decimal(c.baud_rate as nat) + seq![','] + seq![parity_letter(c.parity)] + seq![',']
        + decimal(data_bits_value(c.data_bits) as nat) + seq![','] + stop_bits_text(c.stop_bits)
}

/// The configuration a text stands for. The text is split at commas; the
/// first four fields, each with surrounding whitespace removed, give the baud
/// rate, the parity letter, the data bits and the stop bits. Later fields
/// are not read.
pub open spec fn parse_config(s: Seq<char>) -> Option<SerialConfig> {
    let e0 = next_comma(s, 0);
    let e1 = next_comma(s, e0 + 1);
    let e2 = next_comma(s, e1 + 1);
    let e3 = next_comma(s, e2 + 1);
    if e2 >= s.len() {
        None
    } else {
        match (
            parse_u32_text(trim(s.subrange(0, e0))),
            parity_of_text(trim(s.subrange(e0 + 1, e1))),
            data_bits_of_text(trim(s.subrange(e1 + 1, e2))),
            stop_bits_of_text(trim(s.subrange(e2 + 1, e3))),
        ) {
            (Some(baud_rate), Some(parity), Some(data_bits), Some(stop_bits)) => Some(
                SerialConfig { baud_rate, parity, data_bits, stop_bits },
            ),
            _ => None,
        }
    }
}

proof fn lemma_trim_id(t: Seq<char>)
    requires
        t.len() > 0,
        !is_ws(t[0]),
        !is_ws(t.last()),
    ensures
        trim(t) == t,
{
}

proof fn lemma_parse_decimal(n: nat)
    requires
        n <= u32::MAX,
    ensures
        parse_u32_text(decimal(n)) == Some(n as u32),
        trim(decimal(n)) == decimal(n),
{
    lemma_decimal(n);
    let d = decimal(n);
    assert(d[0] != '+');
    assert(!is_ws(d[0]) && !is_ws(d[d.len() - 1]));
    lemma_trim_id(d);
}

/// Formatting a configuration as text and parsing that text gives the
/// configuration back.
pub proof fn lemma_config_text_round_trip(c: SerialConfig)
    ensures
        parse_config(config_text(c)) == Some(c),
{
    let a = decimal(c.baud_rate as nat);
    let d = decimal(data_bits_value(c.data_bits) as nat);
    let st = stop_bits_text(c.stop_bits);
    let t = config_text(c);
    lemma_decimal(c.baud_rate as nat);
    lemma_decimal(data_bits_value(c.data_bits) as nat);
    lemma_parse_decimal(c.baud_rate as nat);
    lemma_parse_decimal(data_bits_value(c.data_bits) as nat);
    let la = a.len() as int;
    let ld = d.len() as int;
    assert(t.len() == la + 3 + ld + 1 + st.len());
    assert forall|j: int| 0 <= j < la implies t[j] != ',' by {
        assert(t[j] == a[j]);
    }
    assert(t[la] == ',');
    lemma_next_comma(t, 0, la);
    assert(t[la + 1] == parity_letter(c.parity));
    assert(t[la + 2] == ',');
    lemma_next_comma(t, la + 1, la + 2);
    assert forall|j: int| la + 3 <= j < la + 3 + ld implies t[j] != ',' by {
        assert(t[j] == d[j - la - 3]);
    }
    assert(t[la + 3 + ld] == ',');
    lemma_next_comma(t, la + 3, la + 3 + ld);
    assert forall|j: int| la + 4 + ld <= j < t.len() implies t[j] != ',' by {
        assert(t[j] == st[j - la - 4 - ld]);
    }
    lemma_next_comma(t, la + 4 + ld, t.len() as int);
    assert(t.subrange(0, la) =~= a);
    assert(t.subrange(la + 1, la + 2) =~= seq![parity_letter(c.parity)]);
    lemma_trim_id(seq![parity_letter(c.parity)]);
    assert(t.subrange(la + 3, la + 3 + ld) =~= d);
    assert(t.subrange(la + 4 + ld, t.len() as int) =~= st);
    lemma_trim_id(st);
}

impl SerialConfig {
    /// Reads the textual form `<baud>,<parity>,<data-bits>,<stop-bits>`
    /// (e.g. `9600,N,8,1`); anything malformed is `InvalidInput`.
    pub fn parse(s: &str) -> (r: Result<SerialConfig, SerialError>)
        ensures
            r == (match parse_config(s@) {
                Some(c) => Ok(c),
                None => Err(SerialError::InvalidInput),
            }),
    {
        let v = chars_of(s);
        let ghost t = v@;
        let n = v.len();
        let e0 = find_comma(&v, 0);
        if e0 == n {
            assert(next_comma(t, e0 + 1) == n);
            assert(next_comma(t, n + 1) == n);
            return Err(SerialError::InvalidInput);
        }
        let e1 = find_comma(&v, e0 + 1);
        if e1 == n {
            assert(next_comma(t, n + 1) == n);
            return Err(SerialError::InvalidInput);
        }
        let e2 = find_comma(&v, e1 + 1);
        if e2 == n {
            return Err(SerialError::InvalidInput);
        }
        let e3 = find_comma(&v, e2 + 1);
        let (a0, b0) = trim_bounds(&v, 0, e0);
        let baud_rate = match parse_u32_range(&v, a0, b0) {
            Some(b) => b,
            None => return Err(SerialError::InvalidInput),
        };
        let (a1, b1) = trim_bounds(&v, e0 + 1, e1);
        if a1 == b1 {
            return Err(SerialError::InvalidInput);
        }
        assert(t.subrange(a1 as int, b1 as int)[0] == v[a1 as int]);
        let parity = match v[a1] {
            'N' => Parity::NoParity,
            'O' => Parity::Odd,
            'E' => Parity::Even,
            'M' => Parity::Mark,
            'S' => Parity::Space,
            _ => return Err(SerialError::InvalidInput),
        };
        let (a2, b2) = trim_bounds(&v, e1 + 1, e2);
        let data_bits = match parse_u32_range(&v, a2, b2) {
            Some(5) => DataBits::Five,
            Some(6) => DataBits::Six,
            Some(7) => DataBits::Seven,
            Some(8) => DataBits::Eight,
            Some(16) => DataBits::Sixteen,
            _ => return Err(SerialError::InvalidInput),
        };
        let (a3, b3) = trim_bounds(&v, e2 + 1, e3);
        let ghost f3 = t.subrange(a3 as int, b3 as int);
        let stop_bits = if b3 - a3 == 1 && v[a3] == '1' {
            assert(f3 =~= seq!['1']);
            StopBits::One
        } else if b3 - a3 == 3 && v[a3] == '1' && v[a3 + 1] == '.' && v[a3 + 2] == '5' {
            assert(f3 =~= seq!['1', '.', '5']);
            StopBits::OnePointFive
        } else if b3 - a3 == 1 && v[a3] == '2' {
            assert(f3 =~= seq!['2']);
            StopBits::Two
        } else {
            assert(f3.len() == b3 - a3);
            assert(f3.len() >= 1 ==> f3[0] == v@[a3 as int]);
            assert(f3.len() >= 3 ==> f3[1] == v@[a3 + 1] && f3[2] == v@[a3 + 2]);
            assert(f3 != seq!['1']) by {
                if f3 == seq!['1'] {
                    assert(f3[0] == '1');
                }
            }
            assert(f3 != seq!['2']) by {
                if f3 == seq!['2'] {
                    assert(f3[0] == '2');
                }
            }
            assert(f3 != seq!['1', '.', '5']) by {
                if f3 == seq!['1', '.', '5'] {
                    assert(f3[0] == '1' && f3[1] == '.' && f3[2] == '5');
                }
            }
            return Err(SerialError::InvalidInput);
        };
        Ok(SerialConfig { baud_rate, parity, data_bits, stop_bits })
    }

    /// The canonical textual form, e.g. `9600,N,8,1`.
    pub fn to_string(&self) -> (r: String)
        ensures
            r@ == config_text(*self),
    {
        let mut s = String::new();
        push_decimal(&mut s, self.baud_rate);
        push_char(&mut s, ',');
        let letter = match self.parity {
            Parity::NoParity => 'N',
            Parity::Odd => 'O',
            Parity::Even => 'E',
            Parity::Mark => 'M',
            Parity::Space => 'S',
        };
        push_char(&mut s, letter);
        push_char(&mut s, ',');
        push_decimal(&mut s, self.data_bits.value() as u32);
        push_char(&mut s, ',');
        match self.stop_bits {
            StopBits::One => push_char(&mut s, '1'),
            StopBits::OnePointFive => {
                push_char(&mut s, '1');
                push_char(&mut s, '.');
                push_char(&mut s, '5');
            },
            StopBits::Two => push_char(&mut s, '2'),
        }
        assert(s@ =~= config_text(*self));
        s
    }
}

} // verus!

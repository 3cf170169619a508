//! The TWELITE "status notify" frame: decoding a raw ASCII line into the
//! fixed 24-byte buffer, fixed-offset field accessors, and the four-stage
//! structural validator.

use vstd::prelude::*;

use vstd::string::StringSliceAdditionalSpecFns;

use crate::error::DecodeError;
use crate::error::ValidateError;

verus! {

/// A text line encodes a frame as one `:` sentinel plus two uppercase hex
/// digits per frame byte.
pub const LINE_LEN: usize = 49;

/// The number of bytes in a decoded frame.
pub const FRAME_LEN: usize = 24;

/// An uppercase hexadecimal digit, `0`-`9` or `A`-`F`; lowercase digits are
/// not accepted.
pub open spec fn is_hex_digit(c: u8) -> bool {
    (48 <= c && c <= 57) || (65 <= c && c <= 70)
}

/// The value of an uppercase hexadecimal digit.
pub open spec fn hex_val(c: u8) -> u8 {
    if 48 <= c && c <= 57 {
        (c - 48) as u8
    } else {
        (c - 65 + 10) as u8
    }
}

/// Frame byte `n` of a line: the digit pair at positions `1 + 2n` and
/// `2 + 2n`, most-significant nibble first.
pub open spec fn decoded_byte(s: Seq<u8>, n: int) -> u8 {
    (hex_val(s[2 * n + 1]) * 16 + hex_val(s[2 * n + 2])) as u8
}

/// All 24 frame bytes of a line.
pub open spec fn decoded_bytes(s: Seq<u8>) -> Seq<u8> {
    Seq::new(FRAME_LEN as nat, |n: int| decoded_byte(s, n))
}

/// The least position in `i..LINE_LEN` holding a byte that is not an
/// uppercase hexadecimal digit, or `LINE_LEN` if every one is.
pub open spec fn first_non_hex_from(s: Seq<u8>, i: int) -> int
    decreases LINE_LEN - i,
{
    if i < 0 || i >= LINE_LEN {
        LINE_LEN as int
    } else if !is_hex_digit(s[i]) {
        i
    } else {
        first_non_hex_from(s, i + 1)
    }
}

/// The position of the first byte after the sentinel that is not an
/// uppercase hexadecimal digit, or `LINE_LEN` if the digits are all valid.
pub open spec fn first_non_hex(s: Seq<u8>) -> int {
    first_non_hex_from(s, 1)
}

/// A line that decodes successfully: exact length, leading sentinel, and
/// nothing but uppercase hexadecimal digits after it.
pub open spec fn line_well_formed(s: Seq<u8>) -> bool {
    &&& s.len() == LINE_LEN
    &&& s[0] == 58
    &&& forall|i: int| 1 <= i < LINE_LEN ==> is_hex_digit(#[trigger] s[i])
}

/// What decoding returns on any input: the length is checked before any
/// byte, then the sentinel, then the digits left to right; the first
/// offending byte is reported and nothing after it is examined.
pub open spec fn spec_decode(s: Seq<u8>) -> Result<Seq<u8>, DecodeError> {
    if s.len() != LINE_LEN {
        Err(DecodeError::InvalidLength(s.len() as usize))
    } else if s[0] != 58 {
        Err(DecodeError::InvalidCharacter(s[0]))
    } else if first_non_hex(s) < LINE_LEN {
        Err(DecodeError::InvalidCharacter(s[first_non_hex(s)]))
    } else {
        Ok(decoded_bytes(s))
    }
}

/// The plain integer sum of a byte sequence.
pub open spec fn sum_bytes(s: Seq<u8>) -> int
    decreases s.len(),
{
    if s.len() == 0 {
        0
    } else {
        sum_bytes(s.drop_last()) + s.last()
    }
}

/// The 8-bit wraparound sum of a frame's bytes, which a valid frame's
/// trailing checksum byte brings to zero.
pub open spec fn checksum_total(s: Seq<u8>) -> u8 {
    (sum_bytes(s) % 256) as u8
}

/// What the four-stage validator returns: the checks run in a fixed order
/// (checksum, protocol version, command, relay count) and the first failure
/// is reported.
pub open spec fn spec_validate(s: Seq<u8>) -> Result<(), ValidateError> {
    if checksum_total(s) != 0 {
        Err(ValidateError::InvalidChecksum(checksum_total(s)))
    } else if s[3] != 0x01 {
        Err(ValidateError::InvalidProtocolVersion(s[3]))
    } else if s[1] != 0x81 {
        Err(ValidateError::InvalidCommand(s[1]))
    } else if s[12] > 3 {
        Err(ValidateError::InvalidRelayCount(s[12]))
    } else {
        Ok(())
    }
}

/// A decoded status-notify frame: exactly 24 bytes, immutable once built,
/// produced only by successful decoding.
#[derive(Debug)]
pub struct StatusNotify {
    buf: [u8; 24],
}

impl View for StatusNotify {
    type V = Seq<u8>;

    closed spec fn view(&self) -> Seq<u8> {
        self.buf@
    }
}

fn char2bin(c: u8) -> (r: Result<u8, DecodeError>)
    ensures
        is_hex_digit(c) ==> r == Ok::<u8, DecodeError>(hex_val(c)),
        !is_hex_digit(c) ==> r == Err::<u8, DecodeError>(DecodeError::InvalidCharacter(c)),
{
    if 48 <= c && c <= 57 {
        Ok(c - 48)
    } else if 65 <= c && c <= 70 {
        Ok(c - 65 + 10)
    } else {
        Err(DecodeError::InvalidCharacter(c))
    }
}

proof fn lemma_first_non_hex_from(s: Seq<u8>, i: int, k: int)
    requires
        0 <= i <= k < LINE_LEN,
        forall|j: int| i <= j < k ==> is_hex_digit(#[trigger] s[j]),
        !is_hex_digit(s[k]),
    ensures
        first_non_hex_from(s, i) == k,
    decreases k - i,
{
    if i < k {
        lemma_first_non_hex_from(s, i + 1, k);
    }
}

proof fn lemma_no_non_hex(s: Seq<u8>, i: int)
    requires
        0 <= i <= LINE_LEN,
        forall|j: int| i <= j < LINE_LEN ==> is_hex_digit(#[trigger] s[j]),
    ensures
        first_non_hex_from(s, i) == LINE_LEN,
    decreases LINE_LEN - i,
{
    if i < LINE_LEN {
        lemma_no_non_hex(s, i + 1);
    }
}

proof fn lemma_fix_bits_bound(x: u8)
    ensures
        x & 0x03 < 4,
        (x >> 2) & 0x03 < 4,
        (x >> 4) & 0x03 < 4,
        (x >> 6) & 0x03 < 4,
{
    assert(x & 0x03 < 4 && (x >> 2) & 0x03 < 4 && (x >> 4) & 0x03 < 4 && (x >> 6) & 0x03 < 4)
        by (bit_vector);
}

impl StatusNotify {
    /// Decode a raw line given as bytes.
    ///
    /// Succeeds exactly on well-formed lines; any other length is rejected
    /// before any byte is inspected, and otherwise the first byte that
    /// breaks the format (missing sentinel, or a non-hex or lowercase
    /// digit) is reported. Structural validity is a separate concern: see
    /// [`StatusNotify::validate`].
    pub fn decode(buf: &[u8]) -> (r: Result<Self, DecodeError>)
        ensures
            (r matches Ok(frame) ==> line_well_formed(buf@) && frame@ == decoded_bytes(buf@)),
            (r matches Err(e) ==> spec_decode(buf@) == Err::<Seq<u8>, DecodeError>(e)),
            r is Ok <==> line_well_formed(buf@),
    {
        let len = buf.len();

        if len != LINE_LEN {
            return Err(DecodeError::InvalidLength(len));
        }

        if buf[0] != 58 {
            return Err(DecodeError::InvalidCharacter(buf[0]));
        }

        let mut out: [u8; 24] = [0; 24];
        let mut n: usize = 0;

        while n < FRAME_LEN
            invariant
                n <= FRAME_LEN,
                buf@.len() == LINE_LEN,
                buf@[0] == 58,
                forall|j: int| 1 <= j < 1 + 2 * n ==> is_hex_digit(#[trigger] buf@[j]),
                forall|k: int| 0 <= k < n ==> out@[k] == decoded_byte(buf@, k),
            decreases FRAME_LEN - n,
        {
            let hi = match char2bin(buf[1 + 2 * n]) {
                Ok(v) => v,
                Err(e) => {
                    proof {
                        lemma_first_non_hex_from(buf@, 1, 1 + 2 * n);
                    }
                    return Err(e);
                },
            };
            let lo = match char2bin(buf[2 + 2 * n]) {
                Ok(v) => v,
                Err(e) => {
                    proof {
                        lemma_first_non_hex_from(buf@, 1, 2 + 2 * n);
                    }
                    return Err(e);
                },
            };
            out[n] = hi * 16 + lo;
            n += 1;
        }

        proof {
            lemma_no_non_hex(buf@, 1);
            assert(out@ =~= decoded_bytes(buf@));
        }

        Ok(Self { buf: out })
    }

    /// Decode a raw line given as a string slice; the line is judged by its
    /// UTF-8 bytes exactly as [`StatusNotify::decode`] judges a byte slice.
    pub fn decode_str(buf: &str) -> (r: Result<Self, DecodeError>)
        ensures
            (r matches Ok(frame) ==> line_well_formed(buf.spec_bytes())
                && frame@ == decoded_bytes(buf.spec_bytes())),
            (r matches Err(e) ==> spec_decode(buf.spec_bytes())
                == Err::<Seq<u8>, DecodeError>(e)),
            r is Ok <==> line_well_formed(buf.spec_bytes()),
    {
        Self::decode(buf.as_bytes())
    }

    /// The logical device id of the sending terminal (offset 0).
    pub fn source_device_id(&self) -> (r: u8)
        ensures
            r == self@[0],
    {
        self.buf[0]
    }

    /// The command code (offset 1); `0x81` marks a status-notify frame.
    pub fn command(&self) -> (r: u8)
        ensures
            r == self@[1],
    {
        self.buf[1]
    }

    /// The packet identifier (offset 2).
    pub fn packet_id(&self) -> (r: u8)
        ensures
            r == self@[2],
    {
        self.buf[2]
    }

    /// The protocol version (offset 3); `0x01` is the supported version.
    pub fn protocol_version(&self) -> (r: u8)
        ensures
            r == self@[3],
    {
        self.buf[3]
    }

    /// The link quality indicator, 0-255 (offset 4).
    pub fn lqi(&self) -> (r: u8)
        ensures
            r == self@[4],
    {
        self.buf[4]
    }

    /// The sender's hardware serial number: offsets 5-8, big-endian.
    pub fn hardware_id(&self) -> (r: u32)
        ensures
            r == self@[5] * 0x1000000 + self@[6] * 0x10000 + self@[7] * 0x100 + self@[8],
    {
        (self.buf[5] as u32) * 0x1000000 + (self.buf[6] as u32) * 0x10000
            + (self.buf[7] as u32) * 0x100 + (self.buf[8] as u32)
    }

    /// The logical device id of the destination terminal (offset 9).
    pub fn dest_device_id(&self) -> (r: u8)
        ensures
            r == self@[9],
    {
        self.buf[9]
    }

    /// The timestamp: offsets 10-11, big-endian, in 1/64 s units, wrapping
    /// at 0xFFFF.
    pub fn timestamp(&self) -> (r: u16)
        ensures
            r == self@[10] * 0x100 + self@[11],
    {
        (self.buf[10] as u16) * 0x100 + (self.buf[11] as u16)
    }

    /// The number of mesh hops the frame traversed (offset 12); at most 3
    /// in a valid frame.
    pub fn relay_count(&self) -> (r: u8)
        ensures
            r == self@[12],
    {
        self.buf[12]
    }

    /// The supply voltage in millivolts: offsets 13-14, big-endian.
    pub fn power_voltage_millis(&self) -> (r: u16)
        ensures
            r == self@[13] * 0x100 + self@[14],
    {
        (self.buf[13] as u16) * 0x100 + (self.buf[14] as u16)
    }

    /// The digital-input status bitfield (offset 16); bit n-1 is input n.
    pub fn di_status(&self) -> (r: u8)
        ensures
            r == self@[16],
    {
        self.buf[16]
    }

    /// The digital-input changed bitfield (offset 17); bit n-1 is input n.
    pub fn di_changed(&self) -> (r: u8)
        ensures
            r == self@[17],
    {
        self.buf[17]
    }

    /// The raw analog value of channel 4 (offset 18).
    pub fn ad4_value(&self) -> (r: u8)
        ensures
            r == self@[18],
    {
        self.buf[18]
    }

    /// The raw analog value of channel 3 (offset 19).
    pub fn ad3_value(&self) -> (r: u8)
        ensures
            r == self@[19],
    {
        self.buf[19]
    }

    /// The raw analog value of channel 2 (offset 20).
    pub fn ad2_value(&self) -> (r: u8)
        ensures
            r == self@[20],
    {
        self.buf[20]
    }

    /// The raw analog value of channel 1 (offset 21).
    pub fn ad1_value(&self) -> (r: u8)
        ensures
            r == self@[21],
    {
        self.buf[21]
    }

    /// The analog correction bitfield (offset 22): two bits per channel,
    /// channel 1 in the low bits.
    pub fn ad_fix(&self) -> (r: u8)
        ensures
            r == self@[22],
    {
        self.buf[22]
    }

    /// The checksum byte (offset 23), chosen so that the 8-bit sum of all
    /// 24 bytes is zero.
    pub fn checksum(&self) -> (r: u8)
        ensures
            r == self@[23],
    {
        self.buf[23]
    }

    /// Whether digital input 1 is active.
    pub fn di1_status(&self) -> (r: bool)
        ensures
            r == (self@[16] & 0x01 != 0),
    {
        (self.di_status() & 0x01) != 0
    }

    /// Whether digital input 2 is active.
    pub fn di2_status(&self) -> (r: bool)
        ensures
            r == (self@[16] & 0x02 != 0),
    {
        (self.di_status() & 0x02) != 0
    }

    /// Whether digital input 3 is active.
    pub fn di3_status(&self) -> (r: bool)
        ensures
            r == (self@[16] & 0x04 != 0),
    {
        (self.di_status() & 0x04) != 0
    }

    /// Whether digital input 4 is active.
    pub fn di4_status(&self) -> (r: bool)
        ensures
            r == (self@[16] & 0x08 != 0),
    {
        (self.di_status() & 0x08) != 0
    }

    /// Whether digital input 1 changed since the previous report.
    pub fn di1_changed(&self) -> (r: bool)
        ensures
            r == (self@[17] & 0x01 != 0),
    {
        (self.di_changed() & 0x01) != 0
    }

    /// Whether digital input 2 changed since the previous report.
    pub fn di2_changed(&self) -> (r: bool)
        ensures
            r == (self@[17] & 0x02 != 0),
    {
        (self.di_changed() & 0x02) != 0
    }

    /// Whether digital input 3 changed since the previous report.
    pub fn di3_changed(&self) -> (r: bool)
        ensures
            r == (self@[17] & 0x04 != 0),
    {
        (self.di_changed() & 0x04) != 0
    }

    /// Whether digital input 4 changed since the previous report.
    pub fn di4_changed(&self) -> (r: bool)
        ensures
            r == (self@[17] & 0x08 != 0),
    {
        (self.di_changed() & 0x08) != 0
    }

    /// The raw analog values of channels 1 to 4, in channel order.
    pub fn ad_value(&self) -> (r: [u8; 4])
        ensures
            r@ == seq![self@[21], self@[20], self@[19], self@[18]],
    {
        let r = [self.ad1_value(), self.ad2_value(), self.ad3_value(), self.ad4_value()];
        proof {
            assert(r@ =~= seq![self@[21], self@[20], self@[19], self@[18]]);
        }
        r
    }

    /// The two correction bits of analog channel 1.
    pub fn ad1_fix(&self) -> (r: u8)
        ensures
            r == self@[22] & 0x03,
    {
        self.ad_fix() & 0x03
    }

    /// The two correction bits of analog channel 2.
    pub fn ad2_fix(&self) -> (r: u8)
        ensures
            r == (self@[22] >> 2) & 0x03,
    {
        (self.ad_fix() >> 2) & 0x03
    }

    /// The two correction bits of analog channel 3.
    pub fn ad3_fix(&self) -> (r: u8)
        ensures
            r == (self@[22] >> 4) & 0x03,
    {
        (self.ad_fix() >> 4) & 0x03
    }

    /// The two correction bits of analog channel 4.
    pub fn ad4_fix(&self) -> (r: u8)
        ensures
            r == (self@[22] >> 6) & 0x03,
    {
        (self.ad_fix() >> 6) & 0x03
    }

    /// Analog channel 1 in millivolts: `(raw * 4 + correction) * 4`.
    pub fn ad1_voltage_millis(&self) -> (r: u16)
        ensures
            r == (self@[21] * 4 + (self@[22] & 0x03)) * 4,
    {
        let value = self.ad1_value() as u16;
        let fix = self.ad1_fix() as u16;
        proof {
            lemma_fix_bits_bound(self@[22]);
        }
        (value * 4 + fix) * 4
    }

    /// Analog channel 2 in millivolts: `(raw * 4 + correction) * 4`.
    pub fn ad2_voltage_millis(&self) -> (r: u16)
        ensures
            r == (self@[20] * 4 + ((self@[22] >> 2) & 0x03)) * 4,
    {
        let value = self.ad2_value() as u16;
        let fix = self.ad2_fix() as u16;
        proof {
            lemma_fix_bits_bound(self@[22]);
        }
        (value * 4 + fix) * 4
    }

    /// Analog channel 3 in millivolts: `(raw * 4 + correction) * 4`.
    pub fn ad3_voltage_millis(&self) -> (r: u16)
        ensures
            r == (self@[19] * 4 + ((self@[22] >> 4) & 0x03)) * 4,
    {
        let value = self.ad3_value() as u16;
        let fix = self.ad3_fix() as u16;
        proof {
            lemma_fix_bits_bound(self@[22]);
        }
        (value * 4 + fix) * 4
    }

    /// Analog channel 4 in millivolts: `(raw * 4 + correction) * 4`.
    pub fn ad4_voltage_millis(&self) -> (r: u16)
        ensures
            r == (self@[18] * 4 + ((self@[22] >> 6) & 0x03)) * 4,
    {
        let value = self.ad4_value() as u16;
        let fix = self.ad4_fix() as u16;
        proof {
            lemma_fix_bits_bound(self@[22]);
        }
        (value * 4 + fix) * 4
    }

    /// Check the checksum: the 8-bit wraparound sum of all 24 bytes must be
    /// zero. Succeeds exactly when it is; otherwise the nonzero computed
    /// total is handed back.
    pub fn validate_checksum(&self) -> (r: Result<(), u8>)
        ensures
            r is Ok <==> checksum_total(self@) == 0,
            r matches Err(total) ==> total == checksum_total(self@),
    {
        let mut acc: u8 = 0;
        let mut i: usize = 0;

        while i < FRAME_LEN
            invariant
                i <= FRAME_LEN,
                self@.len() == FRAME_LEN,
                acc == sum_bytes(self@.take(i as int)) % 256,
            decreases FRAME_LEN - i,
        {
            proof {
                lemma_sum_bytes_take_step(self@, i as int);
                vstd::arithmetic::div_mod::lemma_add_mod_noop(
                    sum_bytes(self@.take(i as int)),
                    self@[i as int] as int,
                    256,
                );
            }
            acc = acc.wrapping_add(self.buf[i]);
            i += 1;
        }

        proof {
            assert(self@.take(FRAME_LEN as int) =~= self@);
        }

        if acc == 0 {
            Ok(())
        } else {
            Err(acc)
        }
    }

    /// Check that the protocol version (offset 3) is `0x01`; otherwise the
    /// actual byte is handed back.
    pub fn validate_protocol_version(&self) -> (r: Result<(), u8>)
        ensures
            r is Ok <==> self@[3] == 0x01,
            r matches Err(v) ==> v == self@[3],
    {
        let version = self.protocol_version();
        if version == 0x01 {
            Ok(())
        } else {
            Err(version)
        }
    }

    /// Check that the command byte (offset 1) is `0x81`, the only supported
    /// frame type; otherwise the actual byte is handed back.
    pub fn validate_command(&self) -> (r: Result<(), u8>)
        ensures
            r is Ok <==> self@[1] == 0x81,
            r matches Err(c) ==> c == self@[1],
    {
        let command = self.command();
        if command == 0x81 {
            Ok(())
        } else {
            Err(command)
        }
    }

    /// Check that the relay count (offset 12) is at most 3; otherwise the
    /// actual byte is handed back.
    pub fn validate_relay_count(&self) -> (r: Result<(), u8>)
        ensures
            r is Ok <==> self@[12] <= 3,
            r matches Err(c) ==> c == self@[12],
    {
        let relay_count = self.relay_count();
        if relay_count <= 3 {
            Ok(())
        } else {
            Err(relay_count)
        }
    }

    /// Run the four structural checks in fixed order - checksum, protocol
    /// version, command, relay count - and report the first failure;
    /// later checks are not evaluated.
    pub fn validate(&self) -> (r: Result<(), ValidateError>)
        ensures
            r == spec_validate(self@),
    {
        if let Err(total) = self.validate_checksum() {
            return Err(ValidateError::InvalidChecksum(total));
        }

        if let Err(version) = self.validate_protocol_version() {
            return Err(ValidateError::InvalidProtocolVersion(version));
        }

        if let Err(command) = self.validate_command() {
            return Err(ValidateError::InvalidCommand(command));
        }

        if let Err(count) = self.validate_relay_count() {
            return Err(ValidateError::InvalidRelayCount(count));
        }

        Ok(())
    }

    /// Borrow the raw 24-byte buffer.
    pub fn as_bytes(&self) -> (r: &[u8; 24])
        ensures
            r@ == self@,
    {
        &self.buf
    }

    /// Give up the frame for its raw 24-byte buffer.
    pub fn into_bytes(self) -> (r: [u8; 24])
        ensures
            r@ == self@,
    {
        self.buf
    }
}

proof fn lemma_sum_bytes_take_step(s: Seq<u8>, i: int)
    requires
        0 <= i < s.len(),
    ensures
        sum_bytes(s.take(i + 1)) == sum_bytes(s.take(i)) + s[i],
{
    assert(s.take(i + 1).drop_last() =~= s.take(i));
    assert(s.take(i + 1).last() == s[i]);
}

} // verus!

//! RTC time registers: seven BCD bytes, seconds first.

use vstd::prelude::*;

use crate::bcd::{bcd_of, bcd_to_dec, bcd_value, dec_to_bcd, is_bcd, lemma_decode_encode};
use crate::clock::{civil_from_unix, unix_from_civil, utc_fields, utc_timestamp};
use crate::text::{append_decimal, append_str, decimal, string_from_chars};

verus! {

/// RTC raw time, always UTC 24hr, BCD format: ss/mn/hh/wd/dd/mm/yy.
#[derive(Clone, Copy, Debug, PartialEq, Eq)]
pub struct RTCRawTime(pub [u8; 7]);

/// Every byte of `raw` is valid BCD.
pub open spec fn all_bcd(raw: Seq<u8>) -> bool {
    forall|i: int| 0 <= i < raw.len() ==> is_bcd(#[trigger] raw[i])
}

/// The two low decimal digits of a year as Rust computes `(year % 100) as u8`
/// (the remainder keeps the sign of the year).
pub open spec fn year_low_byte(year: int) -> u8 {
    (if year >= 0 {
        year % 100
    } else {
        -((-year) % 100)
    }) as u8
}

/// Registers for the calendar fields `f` = (year, month, day, weekday, hour,
/// minute, second).
pub open spec fn raw_of_fields(f: (int, int, int, int, int, int, int)) -> Seq<u8> {
    seq![
        bcd_of(f.6 as u8),
        bcd_of(f.5 as u8),
        bcd_of(f.4 as u8),
        bcd_of(f.3 as u8),
        bcd_of(f.2 as u8),
        bcd_of(f.1 as u8),
        bcd_of(year_low_byte(f.0)),
    ]
}

/// `[r0,r1,...,r6]` with each register in decimal.
pub open spec fn raw_text(r: Seq<u8>) -> Seq<char> {
    seq!['['] + decimal(r[0] as nat) + seq![','] + decimal(r[1] as nat) + seq![','] + decimal(
        r[2] as nat,
    ) + seq![','] + decimal(r[3] as nat) + seq![','] + decimal(r[4] as nat) + seq![','] + decimal(
        r[5] as nat,
    ) + seq![','] + decimal(r[6] as nat) + seq![']']
}

/// The Unix time of the registers, read as a date in 2000..=2099.
pub open spec fn raw_timestamp(r: Seq<u8>) -> Option<int> {
    utc_timestamp(
        2000 + bcd_value(r[6]),
        bcd_value(r[5]),
        bcd_value(r[4]),
        bcd_value(r[2]),
        bcd_value(r[1]),
        bcd_value(r[0]),
    )
}

/// The message for registers that are no valid date.
pub open spec fn invalid_datetime_text(r: Seq<u8>) -> Seq<char> {
    "Invalid datetime: "@ + decimal((2000 + bcd_value(r[6])) as nat) + "-"@ + decimal(
        bcd_value(r[5]) as nat,
    ) + "-"@ + decimal(bcd_value(r[4]) as nat) + " "@ + decimal(bcd_value(r[2]) as nat) + ":"@
        + decimal(bcd_value(r[1]) as nat) + ":"@ + decimal(bcd_value(r[0]) as nat)
}

impl RTCRawTime {
    /// From raw sd3078 time
    pub fn from_raw(sd3078_raw: [u8; 7]) -> (t: Self)
        ensures
            t.0@ == sd3078_raw@,
    {
        RTCRawTime(sd3078_raw)
    }

    /// From decimal fields
    pub fn from_dec(dec: [u8; 7]) -> (t: Self)
        ensures
            forall|i: int| 0 <= i < 7 ==> t.0@[i] == bcd_of(#[trigger] dec@[i]),
    {
        RTCRawTime(
            [
                dec_to_bcd(dec[0]),
                dec_to_bcd(dec[1]),
                dec_to_bcd(dec[2]),
                dec_to_bcd(dec[3]),
                dec_to_bcd(dec[4]),
                dec_to_bcd(dec[5]),
                dec_to_bcd(dec[6]),
            ],
        )
    }

    /// Year, 2000-2099
    pub fn year(&self) -> (y: u16)
        ensures
            y == bcd_value(self.0@[6]) + 2000,
    {
        bcd_to_dec(self.0[6]) as u16 + 2000
    }

    /// Month, 1-12
    pub fn month(&self) -> (m: u8)
        ensures
            m == bcd_value(self.0@[5]),
    {
        bcd_to_dec(self.0[5])
    }

    /// Day of month, 1-31
    pub fn day(&self) -> (d: u8)
        ensures
            d == bcd_value(self.0@[4]),
    {
        bcd_to_dec(self.0[4])
    }

    /// Weekday from sunday, 0-6
    pub fn weekday(&self) -> (w: u8)
        ensures
            w == bcd_value(self.0@[3]),
    {
        bcd_to_dec(self.0[3])
    }

    /// Hour, 0-23
    pub fn hour(&self) -> (h: u8)
        ensures
            h == bcd_value(self.0@[2]),
    {
        bcd_to_dec(self.0[2])
    }

    /// Minute, 0-59
    pub fn minute(&self) -> (m: u8)
        ensures
            m == bcd_value(self.0@[1]),
    {
        bcd_to_dec(self.0[1])
    }

    /// Second, 0-59
    pub fn second(&self) -> (s: u8)
        ensures
            s == bcd_value(self.0@[0]),
    {
        bcd_to_dec(self.0[0])
    }

    /// To decimal fields
    pub fn to_dec(&self) -> (d: [u8; 7])
        ensures
            forall|i: int| 0 <= i < 7 ==> d@[i] == bcd_value(#[trigger] self.0@[i]),
    {
        [
            self.second(),
            self.minute(),
            self.hour(),
            self.weekday(),
            self.day(),
            self.month(),
            (self.year() - 2000) as u8,
        ]
    }

    /// `[r0,r1,...,r6]`, each register in decimal.
    pub fn to_string(&self) -> (s: String)
        ensures
            s@ == raw_text(self.0@),
    {
        let mut v: Vec<char> = Vec::new();
        v.push('[');
        append_decimal(&mut v, self.0[0] as u64);
        v.push(',');
        append_decimal(&mut v, self.0[1] as u64);
        v.push(',');
        append_decimal(&mut v, self.0[2] as u64);
        v.push(',');
        append_decimal(&mut v, self.0[3] as u64);
        v.push(',');
        append_decimal(&mut v, self.0[4] as u64);
        v.push(',');
        append_decimal(&mut v, self.0[5] as u64);
        v.push(',');
        append_decimal(&mut v, self.0[6] as u64);
        v.push(']');
        assert(v@ =~= raw_text(self.0@));
        string_from_chars(&v)
    }

    /// Registers of a UTC instant given as Unix time (the conversion from
    /// `DateTime<Utc>`); `None` where chrono has no such instant. An instant
    /// of the years 2000..=2099 is read back by `to_unix` (`raw_timestamp`).
    pub fn from_unix(secs: i64) -> (t: Option<Self>)
        ensures
            match utc_fields(secs as int) {
                Some(f) => t matches Some(r) && r.0@ == raw_of_fields(f) && (2000
                    <= f.0 <= 2099 ==> raw_timestamp(r.0@) == Some(secs as int)),
                None => t is None,
            },
    {
        match civil_from_unix(secs) {
            None => None,
            Some(c) => {
                let y: i64 = c.year as i64;
                let low: i64 = if y >= 0 {
                    y % 100
                } else {
                    -((-y) % 100)
                };
                let r = RTCRawTime(
                    [
                        dec_to_bcd(c.second as u8),
                        dec_to_bcd(c.minute as u8),
                        dec_to_bcd(c.hour as u8),
                        dec_to_bcd(c.weekday as u8),
                        dec_to_bcd(c.day as u8),
                        dec_to_bcd(c.month as u8),
                        dec_to_bcd(low as u8),
                    ],
                );
                assert(r.0@ =~= raw_of_fields(utc_fields(secs as int).unwrap()));
                proof {
                    lemma_decode_encode(c.second as u8);
                    lemma_decode_encode(c.minute as u8);
                    lemma_decode_encode(c.hour as u8);
                    lemma_decode_encode(c.weekday as u8);
                    lemma_decode_encode(c.day as u8);
                    lemma_decode_encode(c.month as u8);
                    if 2000 <= c.year <= 2099 {
                        lemma_decode_encode(low as u8);
                        assert(low == c.year - 2000);
                        assert(2000 + bcd_value(r.0@[6]) == c.year);
                        assert(raw_timestamp(r.0@) == utc_timestamp(
                            c.year as int,
                            c.month as int,
                            c.day as int,
                            c.hour as int,
                            c.minute as int,
                            c.second as int,
                        ));
                    }
                }
                Some(r)
            },
        }
    }

    /// Unix time of the registers read as a UTC date in 2000..=2099 (the
    /// conversion to `DateTime<Utc>`); the error names the invalid date.
    pub fn to_unix(&self) -> (r: Result<i64, String>)
        ensures
            match raw_timestamp(self.0@) {
                Some(t) => r matches Ok(x) && x == t,
                None => r matches Err(e) && e@ == invalid_datetime_text(self.0@),
            },
    {
        let sec = bcd_to_dec(self.0[0]) as u32;
        let min = bcd_to_dec(self.0[1]) as u32;
        let hour = bcd_to_dec(self.0[2]) as u32;
        let day = bcd_to_dec(self.0[4]) as u32;
        let month = bcd_to_dec(self.0[5]) as u32;
        let year: i32 = 2000 + bcd_to_dec(self.0[6]) as i32;
        match unix_from_civil(year, month, day, hour, min, sec) {
            Some(t) => Ok(t),
            None => {
                let mut v: Vec<char> = Vec::new();
                append_str(&mut v, "Invalid datetime: ");
                append_decimal(&mut v, year as u64);
                append_str(&mut v, "-");
                append_decimal(&mut v, month as u64);
                append_str(&mut v, "-");
                append_decimal(&mut v, day as u64);
                append_str(&mut v, " ");
                append_decimal(&mut v, hour as u64);
                append_str(&mut v, ":");
                append_decimal(&mut v, min as u64);
                append_str(&mut v, ":");
                append_decimal(&mut v, sec as u64);
                assert(v@ =~= invalid_datetime_text(self.0@));
                Err(string_from_chars(&v))
            },
        }
    }
}

/// Decimal fields of at most 99 survive the trip through the registers.
pub proof fn lemma_dec_round_trip(dec: Seq<u8>, raw: Seq<u8>)
    requires
        dec.len() == 7,
        raw.len() == 7,
        forall|i: int| 0 <= i < 7 ==> #[trigger] dec[i] <= 99,
        forall|i: int| 0 <= i < 7 ==> raw[i] == bcd_of(#[trigger] dec[i]),
    ensures
        all_bcd(raw),
        forall|i: int| 0 <= i < 7 ==> bcd_value(#[trigger] raw[i]) == dec[i],
{
    assert forall|i: int| 0 <= i < raw.len() implies is_bcd(#[trigger] raw[i]) by {
        assert(dec[i] <= 99);
    }
}

/// Valid BCD registers survive the trip through the decimal fields.
pub proof fn lemma_raw_round_trip(raw: Seq<u8>)
    requires
        raw.len() == 7,
        all_bcd(raw),
    ensures
        forall|i: int| 0 <= i < 7 ==> bcd_of(bcd_value(#[trigger] raw[i]) as u8) == raw[i],
{
    assert forall|i: int| 0 <= i < 7 implies bcd_of(bcd_value(#[trigger] raw[i]) as u8) == raw[i] by {
        assert(is_bcd(raw[i]));
    }
}

/// Hour of an SD3078 time register in either clock mode: bit 7 marks the
/// 24-hour mode, otherwise bit 5 marks the afternoon of the 12-hour mode.
pub open spec fn clock_hour(b: u8) -> int {
    if b & 0x80 != 0 {
        bcd_value(b & 0x7f)
    } else if b & 0x20 != 0 {
        12 + bcd_value(b & 0x1f)
    } else {
        bcd_value(b)
    }
}

/// Raw RTC date time as read from the SD3078, in BCD.
#[derive(Clone, Copy, Debug, PartialEq, Eq)]
pub struct RtcDateTime(pub [u8; 7]);

impl RtcDateTime {
    pub fn from_raw_bcd(raw_bcd: &[u8; 7]) -> (t: Self)
        ensures
            t.0@ == raw_bcd@,
    {
        RtcDateTime(*raw_bcd)
    }

    pub fn new() -> (t: Self)
        ensures
            t.0@ == seq![0u8, 0u8, 0u8, 0u8, 0u8, 0u8, 0u8],
    {
        let t = RtcDateTime([0u8; 7]);
        assert(t.0@ =~= seq![0u8, 0u8, 0u8, 0u8, 0u8, 0u8, 0u8]);
        t
    }

    pub fn seconds(&self) -> (s: u8)
        ensures
            s == bcd_value(self.0@[0]),
    {
        bcd_to_dec(self.0[0])
    }

    pub fn set_seconds(&mut self, seconds: u8)
        ensures
            final(self).0@ == old(self).0@.update(0, bcd_of(seconds)),
    {
        let a = self.0;
        self.0 = [dec_to_bcd(seconds), a[1], a[2], a[3], a[4], a[5], a[6]];
        assert(self.0@ =~= a@.update(0, bcd_of(seconds)));
    }

    pub fn minus(&self) -> (m: u8)
        ensures
            m == bcd_value(self.0@[1]),
    {
        bcd_to_dec(self.0[1])
    }

    pub fn set_minus(&mut self, minus: u8)
        ensures
            final(self).0@ == old(self).0@.update(1, bcd_of(minus)),
    {
        let a = self.0;
        self.0 = [a[0], dec_to_bcd(minus), a[2], a[3], a[4], a[5], a[6]];
        assert(self.0@ =~= a@.update(1, bcd_of(minus)));
    }

    /// Hour, decoded from the 24-hour or 12-hour register format.
    pub fn hour(&self) -> (h: u8)
        ensures
            h == clock_hour(self.0@[2]),
    {
        let b = self.0[2];
        if b & 0b1000_0000 != 0 {
            bcd_to_dec(b & 0b0111_1111)
        } else if b & 0b0010_0000 != 0 {
            12 + bcd_to_dec(b & 0b0001_1111)
        } else {
            bcd_to_dec(b)
        }
    }

    pub fn weekday(&self) -> (w: u8)
        ensures
            w == bcd_value(self.0@[3]),
    {
        bcd_to_dec(self.0[3])
    }

    pub fn day(&self) -> (d: u8)
        ensures
            d == bcd_value(self.0@[4]),
    {
        bcd_to_dec(self.0[4])
    }

    pub fn month(&self) -> (m: u8)
        ensures
            m == bcd_value(self.0@[5]),
    {
        bcd_to_dec(self.0[5])
    }

    pub fn year(&self) -> (y: u8)
        ensures
            y == bcd_value(self.0@[6]),
    {
        bcd_to_dec(self.0[6])
    }
}

} // verus!

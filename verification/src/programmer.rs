//! The firmware programmer of the PiSugar 3: its numeric arguments, the
//! bootloader handshake and the register words of a flash upgrade.

use vstd::prelude::*;

use crate::radix::{parse_radix, radix_text};
use crate::text::{chars_of, occurs, text_contains};

verus! {

pub const CMD_VER: u8 = 0x00;

pub const CMD_MODE: u8 = 0x01;

pub const CMD_APP_CTR2: u8 = 0x03;

pub const CMD_CTRL: u8 = 0xd0;

pub const CMD_SEG_H: u8 = 0xd1;

pub const CMD_SEG_L: u8 = 0xd2;

pub const CMD_POS_H: u8 = 0xd3;

pub const CMD_POS_L: u8 = 0xd4;

pub const CMD_DATA: u8 = 0xdd;

pub const PISUGAR_VER: u8 = 3;

pub const MODE_APPLICATION: u8 = 0x0f;

pub const MODE_BOOTLOADER: u8 = 0xf0;

pub const MODE_BOOTAPP: u8 = 0xba;

/// Bytes sent per flash segment.
pub const SEG_SIZE: usize = 512;

/// `s` with every leading repetition of `p` removed (`trim_start_matches`).
pub open spec fn trim_prefixes(s: Seq<char>, p: Seq<char>) -> Seq<char>
    decreases s.len(),
{
    if p.len() > 0 && s.len() >= p.len() && s.take(p.len() as int) == p {
        trim_prefixes(s.skip(p.len() as int), p)
    } else {
        s
    }
}

pub open spec fn has_prefix(s: Seq<char>, p: Seq<char>) -> bool {
    s.len() >= p.len() && s.take(p.len() as int) == p
}

/// A bus number or address: hexadecimal after `0x` or `0X` (every repeat
/// of that prefix dropped), decimal otherwise.
pub open spec fn u16_arg(s: Seq<char>) -> Option<nat> {
    if has_prefix(s, seq!['0', 'x']) {
        radix_text(trim_prefixes(s, seq!['0', 'x']), 16, 0xffff)
    } else if has_prefix(s, seq!['0', 'X']) {
        radix_text(trim_prefixes(s, seq!['0', 'X']), 16, 0xffff)
    } else {
        radix_text(s, 10, 0xffff)
    }
}

/// A bus number or an address as the programmer reads it (see `u16_arg`);
/// `None` where that reading fails.
pub fn parse_u16(s: &str) -> (r: Option<u16>)
    ensures
        match u16_arg(s@) {
            Some(v) => r == Some(v as u16),
            None => r is None,
        },
{
    let c = chars_of(s);
    let n = c.len();
    if n >= 2 && c[0] == '0' && (c[1] == 'x' || c[1] == 'X') {
        let x = c[1];
        let ghost p = seq!['0', x];
        assert(c@.take(2) =~= p);
        let mut i: usize = 0;
        assert(c@.skip(0) =~= c@);
        while n - i >= 2 && c[i] == '0' && c[i + 1] == x
            invariant
                n == c@.len(),
                i <= n,
                p == seq!['0', x],
                trim_prefixes(c@, p) == trim_prefixes(c@.skip(i as int), p),
            decreases n - i,
        {
            assert(c@.skip(i as int).take(2) =~= p);
            assert(c@.skip(i as int).skip(2) =~= c@.skip(i + 2));
            i = i + 2;
        }
        proof {
            let rest = c@.skip(i as int);
            if rest.len() >= 2 && rest.take(2) == p {
                assert(rest[0] == c@[i as int] && rest[1] == c@[i + 1]);
                assert(rest.take(2)[0] == p[0] && rest.take(2)[1] == p[1]);
            }
            if i == 0 {
                assert(c@.skip(0) =~= c@);
            }
            if x == 'x' {
                assert(p =~= seq!['0', 'x']);
            } else {
                assert(p =~= seq!['0', 'X']);
                assert(!has_prefix(c@, seq!['0', 'x'])) by {
                    assert(c@.take(2)[1] == 'X');
                }
            }
        }
        match parse_radix(&c, i, 16, 0xffff) {
            Some(v) => Some(v as u16),
            None => None,
        }
    } else {
        proof {
            if has_prefix(c@, seq!['0', 'x']) {
                assert(c@.take(2)[0] == c@[0] && c@.take(2)[1] == c@[1]);
            }
            if has_prefix(c@, seq!['0', 'X']) {
                assert(c@.take(2)[0] == c@[0] && c@.take(2)[1] == c@[1]);
            }
            assert(c@.skip(0) =~= c@);
        }
        match parse_radix(&c, 0, 10, 0xffff) {
            Some(v) => Some(v as u16),
            None => None,
        }
    }
}

/// A bus number or an address given on the command line (see `u16_arg`).
pub fn to_u16(s: &str) -> (r: u16)
    requires
        u16_arg(s@) is Some,
    ensures
        r == u16_arg(s@).unwrap(),
{
    match parse_u16(s) {
        Some(v) => v,
        None => 0,
    }
}

/// The high and low bytes of a segment or position word.
pub fn word_bytes(x: u16) -> (r: (u8, u8))
    ensures
        r.0 == x / 256,
        r.1 == x % 256,
{
    ((x / 256) as u8, (x % 256) as u8)
}

/// The word that a high and a low byte read back stand for.
pub fn bytes_word(high: u8, low: u8) -> (r: u16)
    ensures
        r == high * 256 + low,
{
    (high as u16) * 256 + (low as u16)
}

/// Splitting a word into its bytes and joining them gives the word back,
/// and joining bytes then splitting them gives the bytes back.
pub proof fn law_word_bytes_round_trip(x: u16, high: u8, low: u8)
    ensures
        (x / 256) * 256 + x % 256 == x,
        (high * 256 + low) / 256 == high,
        (high * 256 + low) % 256 == low,
{
}

/// The position just before `offset`, wrapping at zero
/// (`overflowing_sub(1)`).
pub fn pos_before(offset: u16) -> (r: u16)
    ensures
        r == (if offset == 0 {
            0xffff
        } else {
            offset - 1
        }),
{
    offset.wrapping_sub(1)
}

/// The control byte that starts a flash write: bits 7 and 5 set.
pub fn flash_write_request(ctrl: u8) -> (r: u8)
    ensures
        r == ctrl | 0xa0,
{
    ctrl | 0xa0
}

/// The flash write is still going on (bit 3).
pub fn flash_busy(ctrl: u8) -> (r: bool)
    ensures
        r == (ctrl & 0x08 != 0),
{
    ctrl & 0x08 != 0
}

/// The flash write failed (bit 0).
pub fn flash_failed(ctrl: u8) -> (r: bool)
    ensures
        r == (ctrl & 0x01 != 0),
{
    ctrl & 0x01 != 0
}

/// The next step of waiting for the bootloader.
#[derive(Debug, PartialEq, Eq, Clone, Copy, Structural)]
pub enum BootStep {
    /// Not ready: wait and read again.
    Retry,
    /// The application runs: send it the reset, then wait and read again.
    ResetThenRetry,
    /// The bootloader (or the boot application) is ready for the firmware.
    Ready,
    /// The boot application only takes a bootloader file.
    NeedBootloaderFile,
}

/// The handshake: the chip version must be 3; in bootloader mode the
/// upgrade starts; in application mode it is reset when asked to; in
/// bootapp mode the upgrade starts only with a bootloader file. `version`
/// and `mode` are `None` when their read failed.
pub fn boot_step(version: Option<u8>, mode: Option<u8>, reset: bool, bootloader_file: bool) -> (r:
    BootStep)
    ensures
        r == (if version == Some(PISUGAR_VER) {
            match mode {
                Some(m) => if m == MODE_BOOTLOADER {
                    BootStep::Ready
                } else if m == MODE_APPLICATION {
                    if reset {
                        BootStep::ResetThenRetry
                    } else {
                        BootStep::Retry
                    }
                } else if m == MODE_BOOTAPP {
                    if bootloader_file {
                        BootStep::Ready
                    } else {
                        BootStep::NeedBootloaderFile
                    }
                } else {
                    BootStep::Retry
                },
                None => BootStep::Retry,
            }
        } else {
            BootStep::Retry
        }),
{
    if version != Some(PISUGAR_VER) {
        return BootStep::Retry;
    }
    match mode {
        Some(m) => {
            if m == MODE_BOOTLOADER {
                BootStep::Ready
            } else if m == MODE_APPLICATION {
                if reset {
                    BootStep::ResetThenRetry
                } else {
                    BootStep::Retry
                }
            } else if m == MODE_BOOTAPP {
                if bootloader_file {
                    BootStep::Ready
                } else {
                    BootStep::NeedBootloaderFile
                }
            } else {
                BootStep::Retry
            }
        },
        None => BootStep::Retry,
    }
}

/// The firmware file name says it is a bootloader.
pub fn is_bootloader_file(file: &str) -> (r: bool)
    ensures
        r == occurs(file@, "bootloader"@),
{
    text_contains(&chars_of(file), &chars_of("bootloader"))
}

/// A process of that name is the PiSugar server.
pub fn is_server_process(name: &str) -> (r: bool)
    ensures
        r == occurs(name@, "pisugar-server"@),
{
    text_contains(&chars_of(name), &chars_of("pisugar-server"))
}

/// White space as `char::is_whitespace` has it (the Unicode `White_Space`
/// property).
pub open spec fn is_white(c: char) -> bool {
    ||| ('\u{9}' <= c && c <= '\u{d}')
    ||| c == ' '
    ||| c == '\u{85}'
    ||| c == '\u{a0}'
    ||| c == '\u{1680}'
    ||| ('\u{2000}' <= c && c <= '\u{200a}')
    ||| c == '\u{2028}'
    ||| c == '\u{2029}'
    ||| c == '\u{202f}'
    ||| c == '\u{205f}'
    ||| c == '\u{3000}'
}

/// The answer confirms: its first character that is not white space is
/// `y` or `Y`.
pub open spec fn confirms(s: Seq<char>) -> bool {
    exists|k: int|
        0 <= k < s.len() && (forall|j: int| 0 <= j < k ==> is_white(#[trigger] s[j])) && (
        #[trigger] s[k] == 'y' || s[k] == 'Y')
}

fn is_white_exec(c: char) -> (r: bool)
    ensures
        r == is_white(c),
{
    ('\u{9}' <= c && c <= '\u{d}') || c == ' ' || c == '\u{85}' || c == '\u{a0}' || c == '\u{1680}'
        || ('\u{2000}' <= c && c <= '\u{200a}') || c == '\u{2028}' || c == '\u{2029}' || c
        == '\u{202f}' || c == '\u{205f}' || c == '\u{3000}'
}

/// Whether the answer to the upgrade warning goes on (see `confirms`: the
/// answer lower cased and trimmed at the start begins with `y`).
pub fn confirmed(answer: &str) -> (r: bool)
    ensures
        r == confirms(answer@),
{
    let c = chars_of(answer);
    let mut i: usize = 0;
    while i < c.len()
        invariant
            i <= c@.len(),
            c@ == answer@,
            forall|j: int| 0 <= j < i ==> is_white(#[trigger] c@[j]),
        decreases c@.len() - i,
    {
        if !is_white_exec(c[i]) {
            let r = c[i] == 'y' || c[i] == 'Y';
            proof {
                if !r {
                    assert forall|k: int|
                        0 <= k < c@.len() && (forall|j: int| 0 <= j < k ==> is_white(#[trigger] c@[j]))
                            implies !(#[trigger] c@[k] == 'y' || c@[k] == 'Y') by {
                        if k > i {
                            assert(is_white(c@[i as int]));
                        } else if k < i {
                            assert(is_white(c@[k]));
                        }
                    }
                }
            }
            return r;
        }
        i = i + 1;
    }
    proof {
        assert forall|k: int|
            0 <= k < c@.len() && (forall|j: int| 0 <= j < k ==> is_white(#[trigger] c@[j]))
                implies !(#[trigger] c@[k] == 'y' || c@[k] == 'Y') by {
            assert(is_white(c@[k]));
        }
    }
    false
}

} // verus!

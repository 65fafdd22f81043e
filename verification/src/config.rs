//! Startup configuration: listen port, status token, timeouts and buffer
//! bounds, gathered into one struct passed to the pipeline at startup.
//!
//! The listen port arrives as a free-form command-line token; it is parsed
//! exactly as Rust's unsigned-integer parser would (an optional leading
//! `+`, then one or more ASCII digits, value at most 65535), falling back
//! to port 80 on anything else. The status token defaults to
//! `@RustyManager` when none is supplied.

use vstd::prelude::*;

verus! {

/// The listen port used when no argument is given or it does not parse.
pub const DEFAULT_PORT: u16 = 80;

/// Default bound on the sniff look-ahead, in seconds.
pub const DEFAULT_SNIFF_TIMEOUT_SECS: u64 = 5;

/// Default bound on the backend dial, in seconds.
pub const DEFAULT_DIAL_TIMEOUT_SECS: u64 = 10;

/// Default keep-alive probe interval, in seconds.
pub const DEFAULT_KEEPALIVE_SECS: u64 = 30;

/// Default smallest relay-buffer capacity: 4 KiB.
pub const DEFAULT_MIN_BUFFER: usize = 4096;

/// Default largest relay-buffer capacity: 128 KiB.
pub const DEFAULT_MAX_BUFFER: usize = 131072;

/// `b` is an ASCII decimal digit.
pub open spec fn is_ascii_digit(b: u8) -> bool {
    48 <= b <= 57
}

/// The value of a string of ASCII digits read as a decimal number.
pub open spec fn digits_value(s: Seq<u8>) -> nat
    decreases s.len(),
{
    if s.len() == 0 {
        0
    } else {
        (digits_value(s.drop_last()) * 10 + (s.last() - 48)) as nat
    }
}

/// `s` is a well-formed unsigned numeral: at least one byte, all digits.
pub open spec fn is_numeral(s: Seq<u8>) -> bool {
    s.len() > 0 && forall|i: int| 0 <= i < s.len() ==> is_ascii_digit(s[i])
}

/// The numeral with an optional leading `+` stripped, as the unsigned
/// parser sees it.
pub open spec fn strip_plus(s: Seq<u8>) -> Seq<u8> {
    if s.len() > 0 && s[0] == 43 {
        s.subrange(1, s.len() as int)
    } else {
        s
    }
}

/// What the port argument parses to: the decimal value when the token is a
/// numeral (after an optional `+`) that fits a `u16`, and the default port
/// when the token is absent, malformed, or too large.
pub open spec fn port_of_arg(arg: Option<Seq<u8>>) -> u16 {
    match arg {
        Option::None => DEFAULT_PORT,
        Option::Some(s) => {
            let body = strip_plus(s);
            if is_numeral(body) && digits_value(body) <= u16::MAX {
                digits_value(body) as u16
            } else {
                DEFAULT_PORT
            }
        },
    }
}

/// Appending a digit to a numeral multiplies its value by ten and adds the
/// digit, so the value never goes down as digits are read left to right.
proof fn lemma_digits_value_extend(s: Seq<u8>, i: int)
    requires
        0 <= i < s.len(),
        is_ascii_digit(s[i]),
    ensures
        digits_value(s.subrange(0, i + 1)) == digits_value(s.subrange(0, i)) * 10 + (s[i] - 48),
{
    let pre = s.subrange(0, i + 1);
    assert(pre.drop_last() =~= s.subrange(0, i));
    assert(pre.last() == s[i]);
}

/// Parse the port argument: a numeral (with optional leading `+`) in range
/// gives its value, anything else the default port.
pub fn parse_port(arg: &Option<Vec<u8>>) -> (port: u16)
    ensures
        port == port_of_arg(match *arg {
            Option::None => Option::None,
            Option::Some(v) => Option::Some(v@),
        }),
{
    let bytes = match arg {
        Option::None => {
            return DEFAULT_PORT;
        },
        Option::Some(v) => v,
    };
    let start: usize = if bytes.len() > 0 && bytes[0] == 43 {
        1
    } else {
        0
    };
    let ghost body = strip_plus(bytes@);
    assert(body =~= bytes@.subrange(start as int, bytes@.len() as int));
    if bytes.len() == start {
        return DEFAULT_PORT;
    }
    let mut value: u32 = 0;
    let mut too_large: bool = false;
    let mut i: usize = start;
    while i < bytes.len()
        invariant
            start <= i <= bytes@.len(),
            *arg matches Option::Some(given) && given@ == bytes@,
            body == strip_plus(bytes@),
            body == bytes@.subrange(start as int, bytes@.len() as int),
            forall|j: int| 0 <= j < i - start ==> is_ascii_digit(body[j]),
            too_large <==> digits_value(body.subrange(0, i - start)) > u16::MAX,
            !too_large ==> value == digits_value(body.subrange(0, i - start)),
            value <= u16::MAX,
        decreases bytes@.len() - i,
    {
        let b = bytes[i];
        if b < 48 || b > 57 {
            assert(body[i - start] == b);
            assert(!is_numeral(body));
            return DEFAULT_PORT;
        }
        proof {
            lemma_digits_value_extend(body, i - start);
        }
        if too_large {
            // Value already out of range; keep checking that the rest are
            // digits, since a later non-digit also means the default.
        } else {
            let next = value * 10 + ((b - 48) as u32);
            if next > u16::MAX as u32 {
                too_large = true;
            } else {
                value = next;
            }
        }
        i = i + 1;
    }
    assert(body.subrange(0, body.len() as int) =~= body);
    if too_large {
        DEFAULT_PORT
    } else {
        value as u16
    }
}

/// The ASCII bytes of the default status token `@RustyManager`.
pub open spec fn default_status_bytes() -> Seq<u8> {
    seq![64u8, 82u8, 117u8, 115u8, 116u8, 121u8, 77u8, 97u8, 110u8, 97u8, 103u8, 101u8, 114u8]
}

/// The status token to weave into the disguise lines: the supplied one, or
/// the default when none was given.
pub fn status_or_default(arg: Option<Vec<u8>>) -> (status: Vec<u8>)
    ensures
        arg matches Option::Some(v) ==> status@ == v@,
        arg is None ==> status@ == default_status_bytes(),
{
    match arg {
        Option::Some(v) => v,
        Option::None => {
            let mut status: Vec<u8> = Vec::new();
            status.push(64);
            status.push(82);
            status.push(117);
            status.push(115);
            status.push(116);
            status.push(121);
            status.push(77);
            status.push(97);
            status.push(110);
            status.push(97);
            status.push(103);
            status.push(101);
            status.push(114);
            assert(status@ =~= default_status_bytes());
            status
        },
    }
}

/// Everything the per-connection pipeline needs, established once at
/// startup and read-only afterwards.
pub struct Config {
    /// Port the acceptor listens on.
    pub listen_port: u16,
    /// Status token woven into the disguise lines.
    pub status: Vec<u8>,
    /// Smallest relay-buffer capacity.
    pub min_buffer: usize,
    /// Largest relay-buffer capacity.
    pub max_buffer: usize,
    /// Whether persistently small reads shrink the relay buffer.
    pub allow_shrink: bool,
    /// Whether the keep-alive emitter runs during relaying.
    pub keepalive_enabled: bool,
    /// Bound on the sniff look-ahead, in seconds.
    pub sniff_timeout_secs: u64,
    /// Bound on the backend dial, in seconds.
    pub dial_timeout_secs: u64,
}

impl Config {
    /// The buffer band is sane: at least one byte, minimum at most maximum.
    pub open spec fn wf(&self) -> bool {
        1 <= self.min_buffer <= self.max_buffer
    }

    /// The stock configuration around a parsed port and status token.
    pub fn with_defaults(listen_port: u16, status: Vec<u8>) -> (config: Config)
        ensures
            config.wf(),
            config.listen_port == listen_port,
            config.status@ == status@,
            config.min_buffer == DEFAULT_MIN_BUFFER,
            config.max_buffer == DEFAULT_MAX_BUFFER,
            config.allow_shrink == false,
            config.keepalive_enabled == false,
            config.sniff_timeout_secs == DEFAULT_SNIFF_TIMEOUT_SECS,
            config.dial_timeout_secs == DEFAULT_DIAL_TIMEOUT_SECS,
    {
        Config {
            listen_port,
            status,
            min_buffer: DEFAULT_MIN_BUFFER,
            max_buffer: DEFAULT_MAX_BUFFER,
            allow_shrink: false,
            keepalive_enabled: false,
            sniff_timeout_secs: DEFAULT_SNIFF_TIMEOUT_SECS,
            dial_timeout_secs: DEFAULT_DIAL_TIMEOUT_SECS,
        }
    }
}

} // verus!

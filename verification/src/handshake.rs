//! The disguise handshake: HTTP-looking status lines.
//!
//! Before any relaying, the responder writes fixed ASCII lines shaped like
//! `HTTP/1.1 101 <status>\r\n\r\n` (and later `HTTP/1.1 200 <status>\r\n\r\n`)
//! toward the client. Middleboxes that inspect only the first response line
//! of a TCP stream then take the connection for ordinary HTTP and stop
//! looking, letting arbitrary bytes flow afterwards. The byte layout is a
//! wire contract: it must be reproduced exactly.

use vstd::prelude::*;

verus! {

/// Which HTTP status code a disguise line carries.
#[derive(Clone, Copy, Debug, PartialEq, Eq, Structural)]
pub enum DisguiseCode {
    /// `101`, mimicking an upgrade acceptance.
    SwitchingProtocols,
    /// `200`, mimicking a plain success response.
    Success,
}

/// The ASCII bytes of `"HTTP/1.1 "`.
pub open spec fn http_version_prefix() -> Seq<u8> {
    seq![72u8, 84u8, 84u8, 80u8, 47u8, 49u8, 46u8, 49u8, 32u8]
}

/// The ASCII digits of the status code.
pub open spec fn code_digits(code: DisguiseCode) -> Seq<u8> {
    match code {
        DisguiseCode::SwitchingProtocols => seq![49u8, 48u8, 49u8],
        DisguiseCode::Success => seq![50u8, 48u8, 48u8],
    }
}

/// The ASCII bytes of `"\r\n\r\n"`: end of status line, then an empty
/// header block.
pub open spec fn line_terminator() -> Seq<u8> {
    seq![13u8, 10u8, 13u8, 10u8]
}

/// The full disguise line for `code` and a status token:
/// `HTTP/1.1 <code> <status>\r\n\r\n`.
pub open spec fn disguise_line_bytes(code: DisguiseCode, status: Seq<u8>) -> Seq<u8> {
    http_version_prefix() + code_digits(code) + seq![32u8] + status + line_terminator()
}

/// Build the disguise line for `code` around the configured status token,
/// byte for byte as the wire format demands.
pub fn disguise_line(code: DisguiseCode, status: &Vec<u8>) -> (line: Vec<u8>)
    ensures
        line@ == disguise_line_bytes(code, status@),
{
    let mut line: Vec<u8> = Vec::new();
    line.push(72);
    line.push(84);
    line.push(84);
    line.push(80);
    line.push(47);
    line.push(49);
    line.push(46);
    line.push(49);
    line.push(32);
    match code {
        DisguiseCode::SwitchingProtocols => {
            line.push(49);
            line.push(48);
            line.push(49);
        },
        DisguiseCode::Success => {
            line.push(50);
            line.push(48);
            line.push(48);
        },
    }
    line.push(32);
    let mut i: usize = 0;
    while i < status.len()
        invariant
            i <= status@.len(),
            line@ == http_version_prefix() + code_digits(code) + seq![32u8] + status@.subrange(
                0,
                i as int,
            ),
        decreases status@.len() - i,
    {
        line.push(status[i]);
        assert(status@.subrange(0, i + 1 as int) =~= status@.subrange(0, i as int) + seq![
            status@[i as int],
        ]);
        i = i + 1;
    }
    assert(status@.subrange(0, status@.len() as int) =~= status@);
    line.push(13);
    line.push(10);
    line.push(13);
    line.push(10);
    assert(line@ =~= disguise_line_bytes(code, status@));
    line
}

} // verus!

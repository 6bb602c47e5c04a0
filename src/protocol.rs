//! Framing of the control lines and checking of the server's acknowledgement.

use crate::error::TransferError;
use vstd::prelude::*;

verus! {

/// ASCII line feed: ends the payload of an upload or a download.
pub const SENTINEL: u8 = 10;

/// The decimal digits of `n`, most significant first, without leading zeros.
pub open spec fn decimal(n: nat) -> Seq<u8>
    decreases n,
{
    if n < 10 {
        seq![(48 + n) as u8]
    } else {
        decimal(n / 10).push((48 + n % 10) as u8)
    }
}

/// `"UPLOAD "`
pub open spec fn upload_prefix() -> Seq<u8> {
    seq![85u8, 80u8, 76u8, 79u8, 65u8, 68u8, 32u8]
}

/// `" 0\r\n"`
pub open spec fn upload_suffix() -> Seq<u8> {
    seq![32u8, 48u8, 13u8, 10u8]
}

/// `"DOWNLOAD "`
pub open spec fn download_prefix() -> Seq<u8> {
    seq![68u8, 79u8, 87u8, 78u8, 76u8, 79u8, 65u8, 68u8, 32u8]
}

/// `"\r\n"`
pub open spec fn line_end() -> Seq<u8> {
    seq![13u8, 10u8]
}

/// The handshake line of an upload of `n` bytes: `"UPLOAD {n} 0\r\n"`.
pub open spec fn upload_command(n: nat) -> Seq<u8> {
    upload_prefix() + decimal(n) + upload_suffix()
}

/// The handshake line of a download of `n` bytes: `"DOWNLOAD {n}\r\n"`.
pub open spec fn download_command(n: nat) -> Seq<u8> {
    download_prefix() + decimal(n) + line_end()
}

/// `"PING \r\n"`
pub open spec fn ping_command() -> Seq<u8> {
    seq![80u8, 73u8, 78u8, 71u8, 32u8, 13u8, 10u8]
}

/// `"HI\r\n"`
pub open spec fn hi_command() -> Seq<u8> {
    seq![72u8, 73u8, 13u8, 10u8]
}

/// `needle` occurs in `hay` as a contiguous run of bytes.
pub open spec fn contains(hay: Seq<u8>, needle: Seq<u8>) -> bool {
    exists|i: int| 0 <= i <= hay.len() - needle.len() && #[trigger] hay.subrange(i, i + needle.len()) == needle
}

/// Appends the decimal digits of `n` to `out`.
fn push_decimal(n: usize, out: &mut Vec<u8>)
    ensures
        final(out)@ == old(out)@ + decimal(n as nat),
    decreases n,
{
    if n >= 10 {
        push_decimal(n / 10, out);
    }
    let digit: u8 = (n % 10) as u8;
    out.push(48 + digit);
    proof {
        if n >= 10 {
            assert(old(out)@ + decimal(n as nat) =~= old(out)@ + decimal((n / 10) as nat) + seq![(48 + n % 10) as u8]);
        } else {
            assert(decimal(n as nat) =~= seq![(48 + n) as u8]);
        }
    }
}

/// The decimal digits of `n`, as the handshake and the acknowledgement write it.
pub fn decimal_bytes(n: usize) -> (r: Vec<u8>)
    ensures
        r@ == decimal(n as nat),
{
    let mut out: Vec<u8> = Vec::new();
    push_decimal(n, &mut out);
    assert(out@ =~= decimal(n as nat));
    out
}

/// The handshake line of an upload of `n` bytes.
pub fn upload_command_bytes(n: usize) -> (r: Vec<u8>)
    ensures
        r@ == upload_command(n as nat),
{
    let mut out: Vec<u8> = vec![85u8, 80u8, 76u8, 79u8, 65u8, 68u8, 32u8];
    assert(out@ =~= upload_prefix());
    push_decimal(n, &mut out);
    out.push(32u8);
    out.push(48u8);
    out.push(13u8);
    out.push(10u8);
    assert(out@ =~= upload_command(n as nat));
    out
}

/// The handshake line of a download of `n` bytes.
pub fn download_command_bytes(n: usize) -> (r: Vec<u8>)
    ensures
        r@ == download_command(n as nat),
{
    let mut out: Vec<u8> = vec![68u8, 79u8, 87u8, 78u8, 76u8, 79u8, 65u8, 68u8, 32u8];
    assert(out@ =~= download_prefix());
    push_decimal(n, &mut out);
    out.push(13u8);
    out.push(10u8);
    assert(out@ =~= download_command(n as nat));
    out
}

/// The line that asks the server for an immediate reply.
pub fn ping_command_bytes() -> (r: Vec<u8>)
    ensures
        r@ == ping_command(),
{
    let r: Vec<u8> = vec![80u8, 73u8, 78u8, 71u8, 32u8, 13u8, 10u8];
    assert(r@ =~= ping_command());
    r
}

/// The line that checks that the server answers at all.
pub fn hi_command_bytes() -> (r: Vec<u8>)
    ensures
        r@ == hi_command(),
{
    let r: Vec<u8> = vec![72u8, 73u8, 13u8, 10u8];
    assert(r@ =~= hi_command());
    r
}

/// Whether `needle` occurs in `hay` starting at byte `i`.
fn occurs_at(hay: &[u8], needle: &[u8], i: usize) -> (r: bool)
    requires
        i + needle@.len() <= hay@.len(),
    ensures
        r == (hay@.subrange(i as int, i + needle@.len()) == needle@),
{
    let hay_len: usize = hay.len();
    let mut j: usize = 0;
    while j < needle.len()
        invariant
            i + needle@.len() <= hay@.len(),
            hay@.len() == hay_len,
            j <= needle@.len(),
            forall|k: int| 0 <= k < j ==> hay@[i + k] == needle@[k],
        decreases needle@.len() - j,
    {
        if hay[i + j] != needle[j] {
            assert(hay@.subrange(i as int, i + needle@.len())[j as int] != needle@[j as int]);
            return false;
        }
        j = j + 1;
    }
    assert(hay@.subrange(i as int, i + needle@.len()) =~= needle@);
    true
}

/// Whether `needle` occurs anywhere in `hay`.
pub fn contains_bytes(hay: &[u8], needle: &[u8]) -> (r: bool)
    ensures
        r == contains(hay@, needle@),
{
    if needle.len() > hay.len() {
        return false;
    }
    let last: usize = hay.len() - needle.len();
    let mut i: usize = 0;
    loop
        invariant
            last == hay@.len() - needle@.len(),
            i <= last,
            forall|k: int| 0 <= k < i ==> #[trigger] hay@.subrange(k, k + needle@.len()) != needle@,
        decreases last - i,
    {
        if occurs_at(hay, needle, i) {
            return true;
        }
        if i == last {
            return false;
        }
        i = i + 1;
    }
}

/// Checks the acknowledgement line of an upload of `requested` bytes: it must hold
/// the decimal form of `requested` somewhere in it. Containment, not equality: a
/// line that holds a longer numeral with those digits inside it passes too.
pub fn check_upload_ack(response: Vec<u8>, requested: usize) -> (r: Result<(), TransferError>)
    ensures
        r is Ok <==> contains(response@, decimal(requested as nat)),
        r is Err ==> (r->Err_0 matches TransferError::Unacknowledged { requested: q, response: v }
            && q == requested && v@ == response@),
{
    let digits = decimal_bytes(requested);
    if contains_bytes(response.as_slice(), digits.as_slice()) {
        Ok(())
    } else {
        Err(TransferError::Unacknowledged { requested, response })
    }
}

} // verus!

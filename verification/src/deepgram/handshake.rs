//! The opening request of a session: target, credential and upgrade headers.

use rand::Rng;
use vstd::prelude::*;
use vstd::string::*;
use crate::deepgram::config::DeepgramConfig;

verus! {

/// The character that stands for the six-bit value `i` in the standard
/// base64 alphabet.
pub open spec fn sextet_char(i: int) -> char {
    if i < 26 {
        (65 + i) as char
    } else if i < 52 {
        (97 + (i - 26)) as char
    } else if i < 62 {
        (48 + (i - 52)) as char
    } else if i == 62 {
        '+'
    } else {
        '/'
    }
}

/// The four characters for a group of up to three bytes, of which `present`
/// are given and the others are zero. Positions that hold no bit of a given
/// byte are padding.
pub open spec fn base64_group(b0: u8, b1: u8, b2: u8, present: int) -> Seq<char> {
    let n = b0 as int * 65536 + b1 as int * 256 + b2 as int;
    seq![
        sextet_char(n / 262144),
        sextet_char((n / 4096) % 64),
        if present >= 2 {
            sextet_char((n / 64) % 64)
        } else {
            '='
        },
        if present >= 3 {
            sextet_char(n % 64)
        } else {
            '='
        },
    ]
}

/// Standard base64 with padding.
pub open spec fn base64(data: Seq<u8>) -> Seq<char>
    decreases data.len(),
{
    if data.len() == 0 {
        Seq::empty()
    } else if data.len() == 1 {
        base64_group(data[0], 0, 0, 1)
    } else if data.len() == 2 {
        base64_group(data[0], data[1], 0, 2)
    } else {
        base64_group(data[0], data[1], data[2], 3) + base64(data.skip(3))
    }
}

/// Every started group of three bytes yields four characters.
pub proof fn lemma_base64_len(data: Seq<u8>)
    ensures
        base64(data).len() == 4 * ((data.len() + 2) / 3),
    decreases data.len(),
{
    if data.len() >= 3 {
        lemma_base64_len(data.skip(3));
    }
}

fn sextet(i: u32) -> (c: char)
    requires
        i < 64,
    ensures
        c == sextet_char(i as int),
{
    if i < 26 {
        (65u8 + i as u8) as char
    } else if i < 52 {
        (97u8 + (i - 26) as u8) as char
    } else if i < 62 {
        (48u8 + (i - 52) as u8) as char
    } else if i == 62 {
        '+'
    } else {
        '/'
    }
}

fn push_group(out: &mut String, b0: u8, b1: u8, b2: u8, present: usize)
    requires
        1 <= present <= 3,
    ensures
        final(out)@ == old(out)@ + base64_group(b0, b1, b2, present as int),
{
    let n: u32 = b0 as u32 * 65536 + b1 as u32 * 256 + b2 as u32;
    out.push(sextet(n / 262144));
    out.push(sextet((n / 4096) % 64));
    if present >= 2 {
        out.push(sextet((n / 64) % 64));
    } else {
        out.push('=');
    }
    if present >= 3 {
        out.push(sextet(n % 64));
    } else {
        out.push('=');
    }
    proof {
        assert(out@ =~= old(out)@ + base64_group(b0, b1, b2, present as int));
    }
}

/// Encodes `data` as standard base64 with padding.
pub fn base64_encode(data: &[u8]) -> (out: String)
    ensures
        out@ == base64(data@),
{
    let mut out = String::new();
    let len = data.len();
    let mut i: usize = 0;
    proof {
        assert(data@.skip(0) =~= data@);
        assert(out@ + base64(data@) =~= base64(data@));
    }
    while len - i >= 3
        invariant
            i <= len,
            len == data@.len(),
            out@ + base64(data@.skip(i as int)) == base64(data@),
        decreases len - i,
    {
        let ghost rest = data@.skip(i as int);
        push_group(&mut out, data[i], data[i + 1], data[i + 2], 3);
        i += 3;
        proof {
            assert(rest.skip(3) =~= data@.skip(i as int));
            assert(out@ + base64(data@.skip(i as int)) =~= base64(data@));
        }
    }
    let ghost rest = data@.skip(i as int);
    if len - i == 1 {
        push_group(&mut out, data[i], 0, 0, 1);
    } else if len - i == 2 {
        push_group(&mut out, data[i], data[i + 1], 0, 2);
    }
    proof {
        assert(out@ =~= base64(data@));
    }
    out
}

/// One byte from `rand`'s thread-local generator (`thread_rng` and
/// `Rng::gen`). Nothing is claimed of its value.
#[verifier::external_body]
fn random_byte() -> (b: u8) {
    rand::thread_rng().gen()
}

/// A fresh key for the upgrade request: sixteen random bytes in base64.
pub fn generate_websocket_key() -> (key: String)
    ensures
        exists|bytes: Seq<u8>| bytes.len() == 16 && key@ == #[trigger] base64(bytes),
        key@.len() == 24,
{
    let mut bytes: Vec<u8> = Vec::new();
    while bytes.len() < 16
        invariant
            bytes.len() <= 16,
        decreases 16 - bytes.len(),
    {
        bytes.push(random_byte());
    }
    let key = base64_encode(bytes.as_slice());
    proof {
        lemma_base64_len(bytes@);
    }
    key
}

/// One header of the opening request.
#[derive(Debug, Clone)]
pub struct Header {
    pub name: String,
    pub value: String,
}

/// The opening request: where to connect and what to send along.
#[derive(Debug, Clone)]
pub struct HandshakeRequest {
    pub url: String,
    pub headers: Vec<Header>,
}

/// `h` carries the given name and value.
pub open spec fn header_is(h: Header, name: Seq<char>, value: Seq<char>) -> bool {
    h.name@ == name && h.value@ == value
}

/// The headers of the opening request for `config` with the given key: the
/// credential, the host, and the standard upgrade headers, in this order.
pub open spec fn handshake_headers(
    headers: Seq<Header>,
    config: DeepgramConfig,
    key: Seq<char>,
) -> bool {
    &&& headers.len() == 6
    &&& header_is(headers[0], "Authorization"@, "Token "@ + config.api_key@)
    &&& header_is(headers[1], "Host"@, "api.deepgram.com"@)
    &&& header_is(headers[2], "Upgrade"@, "websocket"@)
    &&& header_is(headers[3], "Connection"@, "Upgrade"@)
    &&& header_is(headers[4], "Sec-WebSocket-Version"@, "13"@)
    &&& header_is(headers[5], "Sec-WebSocket-Key"@, key)
}

fn header(name: &str, value: String) -> (h: Header)
    ensures
        header_is(h, name@, value@),
{
    Header { name: name.to_owned(), value }
}

/// Assembles the opening request for `config`, authenticated with its API
/// key and carrying `key` as the upgrade key.
pub fn build_handshake(config: &DeepgramConfig, key: String) -> (request: HandshakeRequest)
    ensures
        request.url@ == config.url(),
        handshake_headers(request.headers@, *config, key@),
{
    let mut credential = "Token ".to_owned();
    credential.append(config.api_key.as_str());
    let mut headers: Vec<Header> = Vec::new();
    headers.push(header("Authorization", credential));
    headers.push(header("Host", "api.deepgram.com".to_owned()));
    headers.push(header("Upgrade", "websocket".to_owned()));
    headers.push(header("Connection", "Upgrade".to_owned()));
    headers.push(header("Sec-WebSocket-Version", "13".to_owned()));
    headers.push(header("Sec-WebSocket-Key", key));
    HandshakeRequest { url: config.build_url(), headers }
}

} // verus!

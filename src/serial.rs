//! The AT command protocol spoken over the serial link: command lines and
//! the reading of response lines.
use vstd::prelude::*;

pub mod at;

use vstd::string::StringExecFns;
use vstd::string::StringSliceAdditionalSpecFns;

use crate::text::{chars_of, decimal, push_char, push_decimal, string_of_prefix};
use crate::utils::gen_hex::upper_hex_digit;

verus! {

/// `at+version`, with its line end.
pub open spec fn version_command() -> Seq<char> {
    "at+version\r\n"@
}

/// `at+join`, with its line end.
pub open spec fn join_command() -> Seq<char> {
    "at+join\r\n"@
}

/// The command that sets the device's DevEUI to `v`.
pub open spec fn dev_eui_command(v: Seq<char>) -> Seq<char> {
    "at+set_config=lora:dev_eui:"@ + v + "\r\n"@
}

/// The command that sets the device's AppKey to `v`.
pub open spec fn app_key_command(v: Seq<char>) -> Seq<char> {
    "at+set_config=lora:app_key:"@ + v + "\r\n"@
}

/// The command that sends `payload` on channel `chn`.
pub open spec fn send_command(chn: u8, payload: Seq<char>) -> Seq<char> {
    "at+send=lora:"@ + decimal(chn as nat) + ":"@ + payload + "\r\n"@
}

/// Two upper-case hexadecimal digits for each byte of `b`, high nibble first.
pub open spec fn hex_of_bytes(b: Seq<u8>) -> Seq<char>
    decreases b.len(),
{
    if b.len() == 0 {
        seq![]
    } else {
        hex_of_bytes(b.drop_last()) + seq![
            upper_hex_digit(b.last() / 16),
            upper_hex_digit(b.last() % 16),
        ]
    }
}

/// How one command/response exchange with the device failed.
#[derive(Clone, Debug, PartialEq, Eq)]
pub enum DeviceError {
    /// Writing the command or reading the response failed, or timed out.
    Transport(String),
    /// The device answered with an error; the response line, without its line end.
    Protocol(String),
}

/// The five characters of `s` from `i` on spell `ERROR`, in any case.
pub open spec fn error_at(s: Seq<char>, i: int) -> bool {
    &&& 0 <= i
    &&& i + 5 <= s.len()
    &&& (s[i] == 'E' || s[i] == 'e')
    &&& (s[i + 1] == 'R' || s[i + 1] == 'r')
    &&& (s[i + 2] == 'R' || s[i + 2] == 'r')
    &&& (s[i + 3] == 'O' || s[i + 3] == 'o')
    &&& (s[i + 4] == 'R' || s[i + 4] == 'r')
}

/// `s` holds `ERROR` somewhere, in any case.
pub open spec fn contains_error(s: Seq<char>) -> bool {
    exists|i: int| error_at(s, i)
}

/// A response line without its line end: one final `\n`, then one final `\r`.
pub open spec fn line_text(s: Seq<char>) -> Seq<char> {
    let t = if s.len() > 0 && s.last() == '\n' {
        s.drop_last()
    } else {
        s
    };
    if t.len() > 0 && t.last() == '\r' {
        t.drop_last()
    } else {
        t
    }
}

fn holds_error(v: &Vec<char>) -> (b: bool)
    ensures
        b == contains_error(v@),
{
    let mut i: usize = 0;
    while 5 <= v.len() - i
        invariant
            i <= v@.len(),
            forall|j: int| 0 <= j < i ==> !error_at(v@, j),
        decreases v@.len() - i,
    {
        if (v[i] == 'E' || v[i] == 'e') && (v[i + 1] == 'R' || v[i + 1] == 'r') && (v[i + 2]
            == 'R' || v[i + 2] == 'r') && (v[i + 3] == 'O' || v[i + 3] == 'o') && (v[i + 4]
            == 'R' || v[i + 4] == 'r') {
            assert(error_at(v@, i as int));
            return true;
        }
        i = i + 1;
    }
    assert forall|j: int| !error_at(v@, j) by {
        if 0 <= j < i {
        }
    }
    false
}

/// Reads one response line: a protocol failure where it holds `ERROR` in any
/// case, else success. Either way the text is the line without its line end.
pub fn parse_response(line: &str) -> (r: Result<String, DeviceError>)
    ensures
        match r {
            Ok(t) => !contains_error(line@) && t@ == line_text(line@),
            Err(DeviceError::Protocol(t)) => contains_error(line@) && t@ == line_text(line@),
            Err(DeviceError::Transport(_)) => false,
        },
{
    let v = chars_of(line);
    let mut n: usize = v.len();
    if n > 0 && v[n - 1] == '\n' {
        n = n - 1;
    }
    if n > 0 && v[n - 1] == '\r' {
        n = n - 1;
    }
    let text = string_of_prefix(&v, n);
    assert(text@ =~= line_text(line@));
    if holds_error(&v) {
        Err(DeviceError::Protocol(text))
    } else {
        Ok(text)
    }
}

/// The command line that asks the device for its firmware version.
pub fn at_version() -> (r: String)
    ensures
        r@ == version_command(),
{
    "at+version\r\n".to_owned()
}

/// The command line that makes the device join the LoRa network.
pub fn at_join() -> (r: String)
    ensures
        r@ == join_command(),
{
    "at+join\r\n".to_owned()
}

/// The command line that sets the DevEUI. The value is taken as it is:
/// checking it is the caller's part.
pub fn at_dev_eui(dev_eui: &str) -> (r: String)
    ensures
        r@ == dev_eui_command(dev_eui@),
{
    let mut r = "at+set_config=lora:dev_eui:".to_owned();
    r.append(dev_eui);
    r.append("\r\n");
    r
}

/// The command line that sets the AppKey. The value is taken as it is:
/// checking it is the caller's part.
pub fn at_app_key(app_key: &str) -> (r: String)
    ensures
        r@ == app_key_command(app_key@),
{
    let mut r = "at+set_config=lora:app_key:".to_owned();
    r.append(app_key);
    r.append("\r\n");
    r
}

/// The bytes of `msg` in upper-case hexadecimal, two digits a byte.
pub fn encode_hex_payload(msg: &str) -> (r: String)
    ensures
        r@ == hex_of_bytes(msg.spec_bytes()),
{
    let bytes = msg.as_bytes();
    let mut r = String::new();
    let mut i: usize = 0;
    while i < bytes.len()
        invariant
            i <= bytes@.len(),
            bytes@ == msg.spec_bytes(),
            r@ == hex_of_bytes(bytes@.take(i as int)),
        decreases bytes@.len() - i,
    {
        let b = bytes[i];
        assert(bytes@.take(i + 1).drop_last() == bytes@.take(i as int));
        push_char(&mut r, crate::utils::gen_hex::nibble_digit(b / 16));
        push_char(&mut r, crate::utils::gen_hex::nibble_digit(b % 16));
        i = i + 1;
        assert(r@ =~= hex_of_bytes(bytes@.take(i as int)));
    }
    assert(bytes@.take(i as int) == bytes@);
    r
}

/// The command line that sends the bytes of `msg`, hex-encoded, on channel `chn`.
pub fn at_send_msg(chn: u8, msg: &str) -> (r: String)
    ensures
        r@ == send_command(chn, hex_of_bytes(msg.spec_bytes())),
{
    let payload = encode_hex_payload(msg);
    at_send_raw(chn, payload.as_str())
}

/// The command line that sends `msg` as it is on channel `chn`.
pub fn at_send_raw(chn: u8, msg: &str) -> (r: String)
    ensures
        r@ == send_command(chn, msg@),
{
    let mut r = "at+send=lora:".to_owned();
    push_decimal(&mut r, chn as u32);
    r.append(":");
    r.append(msg);
    r.append("\r\n");
    assert(r@ =~= send_command(chn, msg@));
    r
}

} // verus!

//! Login-method and protocol selection from configuration values.
//!
//! The chat platform itself is an outside collaborator; what is decided
//! here is only which authorization a configuration asks for — a QR code,
//! a plain password, or a password digest given as hexadecimal text — and
//! which protocol letter it names. The digest text is parsed here, two
//! hexadecimal digits per byte, into the sixteen bytes the platform wants.

use crate::text::{chars_of, str_eq};
use vstd::prelude::*;

verus! {

/// The authorization a configuration asks for.
#[derive(Clone, Debug)]
pub enum AuthChoice {
    /// Log in by scanning a QR code.
    QrCode,
    /// Log in with a plain password.
    Password(String),
    /// Log in with a sixteen-byte password digest.
    Md5(Vec<u8>),
}

/// The protocol a configuration names, by its letter.
#[derive(Clone, Copy, Debug, PartialEq, Eq, Structural)]
pub enum Protocol {
    /// The default protocol.
    A,
    /// Protocol letter I.
    I,
    /// Protocol letter M.
    M,
    /// Protocol letter P.
    P,
    /// Protocol letter W.
    W,
}

/// Whether `c` is a hexadecimal digit.
pub open spec fn is_hex_digit(c: char) -> bool {
    (48 <= c as u32 <= 57) || (97 <= c as u32 <= 102) || (65 <= c as u32 <= 70)
}

/// The value of a hexadecimal digit.
pub open spec fn hex_val(c: char) -> int {
    if 48 <= c as u32 <= 57 {
        c as u32 - 48
    } else if 97 <= c as u32 <= 102 {
        c as u32 - 87
    } else {
        c as u32 - 55
    }
}

/// Whether a digest string parses: every character a hexadecimal digit,
/// and at least sixteen two-character chunks (the last may be a single
/// character).
pub open spec fn md5_ok(s: Seq<char>) -> bool {
    s.len() >= 31 && forall|i: int| 0 <= i < s.len() ==> is_hex_digit(s[i])
}

/// The value of the digest's `i`-th two-character chunk (a lone trailing
/// character counts on its own).
pub open spec fn md5_byte(s: Seq<char>, i: int) -> int {
    if 2 * i + 1 < s.len() {
        16 * hex_val(s[2 * i]) + hex_val(s[2 * i + 1])
    } else {
        hex_val(s[2 * i])
    }
}

fn hex_val_exec(c: char) -> (d: u8)
    requires
        is_hex_digit(c),
    ensures
        d as int == hex_val(c),
{
    let u = c as u32;
    if u >= 97 {
        (u - 87) as u8
    } else if u >= 65 {
        (u - 55) as u8
    } else {
        (u - 48) as u8
    }
}

/// Parses a password digest written in hexadecimal into its first sixteen
/// bytes. Yields nothing exactly when the text is too short or holds a
/// character that is not a hexadecimal digit.
pub fn parse_md5(s: &str) -> (r: Option<Vec<u8>>)
    ensures
        r is Some <==> md5_ok(s@),
        r matches Some(b) ==> b@.len() == 16 && forall|i: int|
            0 <= i < 16 ==> b@[i] as int == md5_byte(s@, i),
{
    let v = chars_of(s);
    let mut j: usize = 0;
    while j < v.len()
        invariant
            j <= v@.len(),
            v@ == s@,
            forall|k: int| 0 <= k < j ==> is_hex_digit(v@[k]),
        decreases v@.len() - j,
    {
        let u = v[j] as u32;
        if !((u >= 48 && u <= 57) || (u >= 97 && u <= 102) || (u >= 65 && u <= 70)) {
            return None;
        }
        j += 1;
    }
    if v.len() < 31 {
        return None;
    }
    let mut bytes: Vec<u8> = Vec::new();
    let mut i: usize = 0;
    while i < 16
        invariant
            i <= 16,
            v@ == s@,
            md5_ok(s@),
            v@.len() >= 31,
            bytes@.len() == i,
            forall|k: int| 0 <= k < i ==> bytes@[k] as int == md5_byte(s@, k),
        decreases 16 - i,
    {
        let hi = hex_val_exec(v[2 * i]);
        let b: u8 = if 2 * i + 1 < v.len() {
            16 * hi + hex_val_exec(v[2 * i + 1])
        } else {
            hi
        };
        bytes.push(b);
        i += 1;
    }
    Some(bytes)
}

/// Chooses the authorization when the configuration does not name one
/// explicitly: a non-empty password wins, then a non-empty digest, then
/// the QR code. Yields nothing exactly when a digest is needed but does
/// not parse.
pub fn auto_auth(passwd: &String, passwd_md5: &String) -> (r: Option<AuthChoice>)
    ensures
        passwd@.len() > 0 ==> (r matches Some(a) && a matches AuthChoice::Password(p) && p@
            == passwd@),
        passwd@.len() == 0 && passwd_md5@.len() > 0 ==> (if md5_ok(passwd_md5@) {
            r matches Some(a) && a matches AuthChoice::Md5(b) && b@.len() == 16 && forall|i: int|
                0 <= i < 16 ==> b@[i] as int == md5_byte(passwd_md5@, i)
        } else {
            r is None
        }),
        passwd@.len() == 0 && passwd_md5@.len() == 0 ==> (r matches Some(a) && a is QrCode),
{
    if !passwd.as_str().is_empty() {
        Some(AuthChoice::Password(passwd.clone()))
    } else if !passwd_md5.as_str().is_empty() {
        match parse_md5(passwd_md5.as_str()) {
            Some(bytes) => Some(AuthChoice::Md5(bytes)),
            None => None,
        }
    } else {
        Some(AuthChoice::QrCode)
    }
}

/// Chooses the authorization the configuration asks for: an explicit
/// "QRCODE", "PASSWORD" or "MD5" name wins; anything else falls back to
/// the automatic choice. Yields nothing exactly when a digest is needed
/// but does not parse.
pub fn determine_auth(auth: &String, passwd: &String, passwd_md5: &String) -> (r: Option<
    AuthChoice,
>)
    ensures
        auth@ == "QRCODE"@ ==> (r matches Some(a) && a is QrCode),
        auth@ == "PASSWORD"@ ==> (r matches Some(a) && a matches AuthChoice::Password(p) && p@
            == passwd@),
        auth@ == "MD5"@ ==> (if md5_ok(passwd_md5@) {
            r matches Some(a) && a matches AuthChoice::Md5(b) && b@.len() == 16 && forall|i: int|
                0 <= i < 16 ==> b@[i] as int == md5_byte(passwd_md5@, i)
        } else {
            r is None
        }),
        auth@ != "QRCODE"@ && auth@ != "PASSWORD"@ && auth@ != "MD5"@ ==> ({
            &&& passwd@.len() > 0 ==> (r matches Some(a) && a matches AuthChoice::Password(p)
                && p@ == passwd@)
            &&& passwd@.len() == 0 && passwd_md5@.len() > 0 ==> (if md5_ok(passwd_md5@) {
                r matches Some(a) && a matches AuthChoice::Md5(b) && b@.len() == 16 && forall|
                    i: int,
                |
                    0 <= i < 16 ==> b@[i] as int == md5_byte(passwd_md5@, i)
            } else {
                r is None
            })
            &&& passwd@.len() == 0 && passwd_md5@.len() == 0 ==> (r matches Some(a)
                && a is QrCode)
        }),
{
    proof {
        reveal_strlit("QRCODE");
        reveal_strlit("PASSWORD");
        reveal_strlit("MD5");
        assert("QRCODE"@.len() == 6);
        assert("PASSWORD"@.len() == 8);
        assert("MD5"@.len() == 3);
    }
    if str_eq(auth.as_str(), "QRCODE") {
        Some(AuthChoice::QrCode)
    } else if str_eq(auth.as_str(), "PASSWORD") {
        Some(AuthChoice::Password(passwd.clone()))
    } else if str_eq(auth.as_str(), "MD5") {
        match parse_md5(passwd_md5.as_str()) {
            Some(bytes) => Some(AuthChoice::Md5(bytes)),
            None => None,
        }
    } else {
        auto_auth(passwd, passwd_md5)
    }
}

/// Maps a protocol name to its protocol; an unrecognized name falls back
/// to the default protocol.
pub fn determine_protocol(protocol: &str) -> (r: Protocol)
    ensures
        protocol@ == "A"@ ==> r == Protocol::A,
        protocol@ == "I"@ ==> r == Protocol::I,
        protocol@ == "M"@ ==> r == Protocol::M,
        protocol@ == "P"@ ==> r == Protocol::P,
        protocol@ == "W"@ ==> r == Protocol::W,
        protocol@ != "A"@ && protocol@ != "I"@ && protocol@ != "M"@ && protocol@ != "P"@
            && protocol@ != "W"@ ==> r == Protocol::A,
{
    proof {
        reveal_strlit("A");
        reveal_strlit("I");
        reveal_strlit("M");
        reveal_strlit("P");
        reveal_strlit("W");
        assert("A"@.len() == 1 && "A"@[0] == 'A');
        assert("I"@.len() == 1 && "I"@[0] == 'I');
        assert("M"@.len() == 1 && "M"@[0] == 'M');
        assert("P"@.len() == 1 && "P"@[0] == 'P');
        assert("W"@.len() == 1 && "W"@[0] == 'W');
    }
    if str_eq(protocol, "I") {
        Protocol::I
    } else if str_eq(protocol, "M") {
        Protocol::M
    } else if str_eq(protocol, "P") {
        Protocol::P
    } else if str_eq(protocol, "W") {
        Protocol::W
    } else {
        Protocol::A
    }
}

} // verus!

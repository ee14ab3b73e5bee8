//! SIMBAD and VizieR deep links.
//!
//! A link is built from the identifiers an object already carries, in the
//! catalogue priority HIP, HD, HR, proper name, catalogue designation. Query
//! values are percent-encoded byte by byte: the RFC 3986 unreserved bytes
//! `A-Z a-z 0-9 - _ . ~` pass through, a space becomes `+`, and every other
//! byte of the UTF-8 text becomes `%` and two upper-case hex digits.
use vstd::prelude::*;

use crate::text::{dec, push_dec, push_str, string_from_chars, trim, trim_str};
use vstd::string::StringSliceAdditionalSpecFns;

verus! {

/// Base of a SIMBAD identifier query.
pub const SIMBAD_ID_BASE: &'static str = "https://simbad.cds.unistra.fr/simbad/sim-id?Ident=";

/// Base of a SIMBAD coordinate query.
pub const SIMBAD_COO_BASE: &'static str = "https://simbad.cds.unistra.fr/simbad/sim-coo?Coord=";

/// Base of a VizieR cone search.
pub const VIZIER_BASE: &'static str = "https://vizier.cds.unistra.fr/viz-bin/VizieR-4?-c=";

/// Bytes that pass through a query value unchanged.
pub open spec fn is_unreserved(b: u8) -> bool {
    ||| (65 <= b <= 90)
    ||| (97 <= b <= 122)
    ||| (48 <= b <= 57)
    ||| b == 45
    ||| b == 95
    ||| b == 46
    ||| b == 126
}

/// Upper-case hex digit of a nibble.
pub open spec fn hex_digit_spec(nibble: u8) -> char {
    if nibble < 10 {
        (48 + nibble) as char
    } else {
        (65 + (nibble - 10)) as char
    }
}

/// Encoding of one byte of a query value.
pub open spec fn encode_byte(b: u8) -> Seq<char> {
    if b == 32 {
        seq!['+']
    } else if is_unreserved(b) {
        seq![b as char]
    } else {
        seq!['%', hex_digit_spec(b / 16), hex_digit_spec(b % 16)]
    }
}

/// Encoding of a whole query value, byte by byte.
pub open spec fn encode_query_spec(bytes: Seq<u8>) -> Seq<char>
    decreases bytes.len(),
{
    if bytes.len() == 0 {
        Seq::empty()
    } else {
        encode_query_spec(bytes.drop_last()) + encode_byte(bytes.last())
    }
}

/// Characters that may stand in a query value of a URL unescaped: the
/// unreserved characters, `+` and `%`.
pub open spec fn url_safe_char(c: char) -> bool {
    ||| ('A' <= c <= 'Z')
    ||| ('a' <= c <= 'z')
    ||| ('0' <= c <= '9')
    ||| c == '-'
    ||| c == '_'
    ||| c == '.'
    ||| c == '~'
    ||| c == '+'
    ||| c == '%'
}

/// Law: an encoded query value holds only URL-safe characters, so it can be
/// placed into a link as it is.
pub proof fn lemma_encoded_query_is_url_safe(bytes: Seq<u8>)
    ensures
        forall|i: int|
            0 <= i < encode_query_spec(bytes).len() ==> url_safe_char(
                #[trigger] encode_query_spec(bytes)[i],
            ),
    decreases bytes.len(),
{
    if bytes.len() > 0 {
        lemma_encoded_query_is_url_safe(bytes.drop_last());
        let prev = encode_query_spec(bytes.drop_last());
        let b = bytes.last();
        let e = encode_byte(b);
        assert(b / 16 < 16 && b % 16 < 16);
        assert forall|i: int| 0 <= i < e.len() implies url_safe_char(#[trigger] e[i]) by {
            if b != 32 && is_unreserved(b) {
                assert(e[i] == (b as char));
            }
        }
        assert forall|i: int|
            0 <= i < encode_query_spec(bytes).len() implies url_safe_char(
                #[trigger] encode_query_spec(bytes)[i],
            ) by {
            if i < prev.len() {
                assert(encode_query_spec(bytes)[i] == prev[i]);
            } else {
                assert(encode_query_spec(bytes)[i] == e[i - prev.len()]);
            }
        }
    }
}

/// Upper-case hex digit of a nibble.
pub fn hex_digit(nibble: u8) -> (r: char)
    requires
        nibble < 16,
    ensures
        r == hex_digit_spec(nibble),
{
    if nibble <= 9 {
        (48u8 + nibble) as char
    } else {
        (65u8 + (nibble - 10)) as char
    }
}

/// Percent-encodes a query-string value.
pub fn encode_query_value(raw: &str) -> (r: String)
    ensures
        r@ == encode_query_spec(raw.spec_bytes()),
{
    let bytes = raw.as_bytes();
    let mut out: Vec<char> = Vec::new();
    let mut i: usize = 0;
    while i < bytes.len()
        invariant
            i <= bytes@.len(),
            bytes@ == raw.spec_bytes(),
            out@ == encode_query_spec(bytes@.take(i as int)),
        decreases bytes@.len() - i,
    {
        let b = bytes[i];
        let ghost before = out@;
        if b == 32 {
            out.push('+');
        } else if (65 <= b && b <= 90) || (97 <= b && b <= 122) || (48 <= b && b <= 57) || b == 45
            || b == 95 || b == 46 || b == 126 {
            out.push(b as char);
        } else {
            assert((b >> 4u8) == b / 16 && (b & 0x0fu8) == b % 16) by (bit_vector);
            let hi = b >> 4u8;
            let lo = b & 0x0fu8;
            out.push('%');
            out.push(hex_digit(hi));
            out.push(hex_digit(lo));
        }
        proof {
            assert(bytes@.take(i + 1).drop_last() =~= bytes@.take(i as int));
            assert(out@ =~= before + encode_byte(b));
        }
        i += 1;
    }
    assert(bytes@.take(bytes@.len() as int) =~= bytes@);
    string_from_chars(&out)
}

/// The identifiers of an object that SIMBAD resolves by name.
#[derive(Debug, Clone, PartialEq, Eq)]
pub struct CdsIdentifiers {
    /// Hipparcos number.
    pub hip: Option<u32>,
    /// Henry Draper number.
    pub hd: Option<u32>,
    /// Bright Star Catalogue (HR) number.
    pub hr: Option<u32>,
    /// Proper name (e.g. `"Sirius"`).
    pub proper_name: Option<String>,
    /// Catalogue designation (e.g. `"NGC 224"`).
    pub catalog_designation: Option<String>,
}

impl CdsIdentifiers {
    /// The identifier SIMBAD is asked for: the first of HIP, HD, HR, the
    /// trimmed proper name and the trimmed designation that is present and,
    /// for the two names, not blank.
    pub open spec fn preferred_spec(self) -> Option<Seq<char>> {
        if self.hip is Some {
            Some("HIP "@ + dec(self.hip->0 as nat))
        } else if self.hd is Some {
            Some("HD "@ + dec(self.hd->0 as nat))
        } else if self.hr is Some {
            Some("HR "@ + dec(self.hr->0 as nat))
        } else if self.proper_name is Some && trim(self.proper_name->0@).len() > 0 {
            Some(trim(self.proper_name->0@))
        } else if self.catalog_designation is Some && trim(self.catalog_designation->0@).len()
            > 0 {
            Some(trim(self.catalog_designation->0@))
        } else {
            None
        }
    }

    /// Best identifier string SIMBAD can resolve by name, or `None` when
    /// only coordinates are known.
    pub fn preferred_identifier(&self) -> (r: Option<String>)
        ensures
            match r {
                Some(s) => self.preferred_spec() == Some(s@),
                None => self.preferred_spec() is None,
            },
    {
        if let Some(hip) = self.hip {
            return Some(labelled_number("HIP ", hip));
        }
        if let Some(hd) = self.hd {
            return Some(labelled_number("HD ", hd));
        }
        if let Some(hr) = self.hr {
            return Some(labelled_number("HR ", hr));
        }
        if let Some(name) = &self.proper_name {
            let t = trim_str(name.as_str());
            if t.len() > 0 {
                return Some(string_from_chars(&t));
            }
        }
        if let Some(desig) = &self.catalog_designation {
            let t = trim_str(desig.as_str());
            if t.len() > 0 {
                return Some(string_from_chars(&t));
            }
        }
        None
    }
}

/// `prefix` followed by the decimal digits of `n`.
fn labelled_number(prefix: &str, n: u32) -> (r: String)
    ensures
        r@ == prefix@ + dec(n as nat),
{
    let mut v: Vec<char> = Vec::new();
    push_str(&mut v, prefix);
    push_dec(&mut v, n as u64);
    string_from_chars(&v)
}

/// SIMBAD identifier query for `identifier`.
pub fn simbad_identifier_url(identifier: &str) -> (r: String)
    ensures
        r@ == SIMBAD_ID_BASE@ + encode_query_spec(identifier.spec_bytes()),
{
    let mut v: Vec<char> = Vec::new();
    push_str(&mut v, SIMBAD_ID_BASE);
    let enc = encode_query_value(identifier);
    push_str(&mut v, enc.as_str());
    string_from_chars(&v)
}

} // verus!

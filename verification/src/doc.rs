use vstd::prelude::*;
use vstd::string::*;

use crate::json::{exec_obj_fields, obj_fields};

verus! {

/// An opaque extended-JSON document: an ordered mapping of field names to
/// extended-JSON values, held as its JSON text. The client never inspects
/// field contents; filters, projections, sort expressions, updates,
/// replacements and pipeline stages are all passed through as-is.
#[derive(Clone, Debug)]
pub struct Document {
    text: String,
}

impl View for Document {
    type V = Seq<char>;

    closed spec fn view(&self) -> Seq<char> {
        self.text@
    }
}

impl Document {
    /// Wraps the given extended-JSON object text. The text is taken as-is;
    /// it is the caller's business that it denotes one JSON object.
    pub fn new(text: String) -> (r: Document)
        ensures
            r@ == text@,
    {
        Document { text }
    }

    /// Accepts the given text only when it spells one JSON object, with
    /// nothing but whitespace around it; anything else is rejected.
    pub fn parse(text: String) -> (r: Option<Document>)
        ensures
            match r {
                Some(d) => obj_fields(text@) is Some && d@ == text@,
                None => obj_fields(text@) is None,
            },
    {
        match exec_obj_fields(text.as_str()) {
            Some(_) => Some(Document { text }),
            None => None,
        }
    }

    /// The document's JSON text.
    pub fn as_text(&self) -> (r: &str)
        ensures
            r@ == self@,
    {
        self.text.as_str()
    }

    /// Gives the document's JSON text up.
    pub fn into_text(self) -> (r: String)
        ensures
            r@ == self@,
    {
        self.text
    }
}

/// Whether `c` is a hexadecimal digit.
pub open spec fn is_hex_digit(c: char) -> bool {
    ('0' <= c && c <= '9') || ('a' <= c && c <= 'f') || ('A' <= c && c <= 'F')
}

/// Whether `s` is the hexadecimal text of an object id: exactly 24 hex
/// digits.
pub open spec fn is_oid_hex(s: Seq<char>) -> bool {
    s.len() == 24 && forall|k: int| 0 <= k < s.len() ==> is_hex_digit(s[k])
}

/// A document identifier: 24 hexadecimal digits naming 12 bytes.
#[derive(Clone, Debug)]
pub struct ObjectId {
    hex: String,
}

impl View for ObjectId {
    type V = Seq<char>;

    closed spec fn view(&self) -> Seq<char> {
        self.hex@
    }
}

impl ObjectId {
    /// Every constructed id satisfies this: its text is 24 hex digits.
    pub open spec fn wf(&self) -> bool {
        is_oid_hex(self@)
    }

    /// Accepts exactly the strings of 24 hexadecimal digits as an id.
    pub fn parse(s: &str) -> (r: Option<ObjectId>)
        ensures
            match r {
                Some(o) => is_oid_hex(s@) && o@ == s@,
                None => !is_oid_hex(s@),
            },
    {
        let n = s.unicode_len();
        if n != 24 {
            return None;
        }
        let mut i: usize = 0;
        while i < n
            invariant
                i <= n,
                n == s@.len(),
                n == 24,
                forall|k: int| 0 <= k < i ==> is_hex_digit(s@[k]),
            decreases n - i,
        {
            let c = s.get_char(i);
            let hex = ('0' <= c && c <= '9') || ('a' <= c && c <= 'f') || ('A' <= c && c <= 'F');
            if !hex {
                proof {
                    assert(!is_hex_digit(s@[i as int]));
                }
                return None;
            }
            i += 1;
        }
        Some(ObjectId { hex: s.to_owned() })
    }

    /// The id's hexadecimal text.
    pub fn as_hex(&self) -> (r: &str)
        ensures
            r@ == self@,
    {
        self.hex.as_str()
    }
}

} // verus!

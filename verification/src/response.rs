use crate::model::appended;
use vstd::prelude::*;
use vstd::utf8::{decode_utf8, valid_utf8};

verus! {

/// The text that `String::from_utf8_lossy` makes of `bytes`.
pub uninterp spec fn lossy_text(bytes: Seq<u8>) -> Seq<char>;

/// The text that a response body of `bytes` reads as: the characters that the
/// bytes encode where they are well-formed UTF-8, and the lossy reading of
/// them otherwise.
pub open spec fn text_of(bytes: Seq<u8>) -> Seq<char> {
    if valid_utf8(bytes) {
        decode_utf8(bytes)
    } else {
        lossy_text(bytes)
    }
}

/// The text that an optional body reads as.
pub open spec fn text_of_body(body: Option<Seq<u8>>) -> Option<Seq<char>> {
    match body {
        Some(b) => Some(text_of(b)),
        None => None,
    }
}

/// The view of an optional string.
pub open spec fn text_view(text: Option<String>) -> Option<Seq<char>> {
    match text {
        Some(s) => Some(s@),
        None => None,
    }
}

/// The view of an optional byte vector.
pub open spec fn bytes_view(bytes: Option<Vec<u8>>) -> Option<Seq<u8>> {
    match bytes {
        Some(b) => Some(b@),
        None => None,
    }
}

/// Reads bytes as text with `String::from_utf8_lossy`. Trusted: well-formed
/// UTF-8 comes back as the characters it encodes, which is what the standard
/// library documents; of any other input only that the same bytes give the
/// same text.
#[verifier::external_body]
fn decode_lossy(bytes: &[u8]) -> (text: String)
    ensures
        text@ == if valid_utf8(bytes@) {
            decode_utf8(bytes@)
        } else {
            lossy_text(bytes@)
        },
{
    String::from_utf8_lossy(bytes).into_owned()
}

/// The body of a response as it arrives. It tells a body of which nothing has
/// arrived yet, `None`, from one that is empty, `Some` of no bytes.
#[derive(Debug)]
pub struct ResponseBuffer {
    data: Option<Vec<u8>>,
}

impl View for ResponseBuffer {
    type V = Option<Seq<u8>>;

    /// The bytes received so far.
    closed spec fn view(&self) -> Option<Seq<u8>> {
        bytes_view(self.data)
    }
}

impl ResponseBuffer {
    /// A buffer into which nothing has arrived.
    pub fn new() -> (b: ResponseBuffer)
        ensures
            b@ is None,
    {
        ResponseBuffer { data: None }
    }

    /// Adds a piece of the body behind what has arrived before.
    pub fn append(&mut self, bytes: Vec<u8>)
        ensures
            final(self)@ == Some(appended(old(self)@, bytes@)),
    {
        let mut piece = bytes;
        let mut all = match self.data.take() {
            Some(v) => v,
            None => Vec::new(),
        };
        all.append(&mut piece);
        self.data = Some(all);
    }

    /// Whether any piece of the body has arrived.
    pub fn has_body(&self) -> (b: bool)
        ensures
            b == (self@ is Some),
    {
        self.data.is_some()
    }

    /// A copy of the bytes received so far; `None` while no piece has arrived.
    pub fn bytes(&self) -> (r: Option<Vec<u8>>)
        ensures
            bytes_view(r) == self@,
    {
        match &self.data {
            Some(v) => {
                let copy = v.clone();
                assert(copy@ =~= v@);
                Some(copy)
            },
            None => None,
        }
    }

    /// The bytes received so far, read as text; `None` while no piece has
    /// arrived.
    pub fn text(&self) -> (r: Option<String>)
        ensures
            text_view(r) == text_of_body(self@),
    {
        match &self.data {
            Some(v) => Some(decode_lossy(v.as_slice())),
            None => None,
        }
    }
}

} // verus!

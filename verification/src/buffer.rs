//! A text buffer over `string_builder::Builder`.
//!
//! The builder itself stores bytes. [`TextBuffer`] keeps, next to it, the
//! characters that have been appended so far, and maintains that the bytes are
//! exactly their UTF-8 encoding. Everything the rest of the crate writes goes
//! through this type, so rendered text is specified over `Seq<char>`.

use vstd::prelude::*;
use vstd::utf8::*;

verus! {

/// `string_builder::Builder`, taken as it is: nothing of its inside is
/// visible here.
#[verifier::external_type_specification]
#[verifier::external_body]
pub struct ExBuilder(string_builder::Builder);

/// `std::string::FromUtf8Error`, the error of `Builder::string`.
#[verifier::external_type_specification]
#[verifier::external_body]
pub struct ExFromUtf8Error(std::string::FromUtf8Error);

/// The bytes that a `string_builder::Builder` holds, oldest first.
pub uninterp spec fn builder_bytes(b: string_builder::Builder) -> Seq<u8>;

/// `<Builder as Default>::default`: a builder over a fresh, empty byte vector.
#[verifier::external_body]
fn builder_new() -> (b: string_builder::Builder)
    ensures
        builder_bytes(b) == Seq::<u8>::empty(),
{
    string_builder::Builder::default()
}

/// `Builder::append` at `&str`: the string's bytes, which are its UTF-8
/// encoding, are written behind the bytes already held.
#[verifier::external_body]
fn builder_append(b: &mut string_builder::Builder, s: &str)
    ensures
        builder_bytes(*final(b)) == builder_bytes(*old(b)) + encode_utf8(s@),
{
    b.append(s)
}

/// `Builder::string`: hands the bytes to `String::from_utf8`, which returns
/// the string with exactly those bytes when they are valid UTF-8 and an error
/// otherwise.
#[verifier::external_body]
fn builder_string(b: string_builder::Builder) -> (r: Result<String, std::string::FromUtf8Error>)
    ensures
        match r {
            Ok(s) => encode_utf8(s@) == builder_bytes(b),
            Err(_) => !valid_utf8(builder_bytes(b)),
        },
{
    b.string()
}

/// Encoding distributes over concatenation.
pub proof fn lemma_encode_utf8_concat(a: Seq<char>, b: Seq<char>)
    ensures
        encode_utf8(a + b) == encode_utf8(a) + encode_utf8(b),
    decreases a.len(),
{
    if a.len() == 0 {
        assert(a + b =~= b);
        assert(encode_utf8(a) + encode_utf8(b) =~= encode_utf8(b));
    } else {
        lemma_encode_utf8_concat(a.drop_first(), b);
        assert((a + b).drop_first() =~= a.drop_first() + b);
        assert(encode_utf8(a + b) =~= encode_utf8(a) + encode_utf8(b));
    }
}

/// Text under construction.
pub struct TextBuffer {
    inner: string_builder::Builder,
    text: Ghost<Seq<char>>,
}

impl View for TextBuffer {
    type V = Seq<char>;

    closed spec fn view(&self) -> Seq<char> {
        self.text@
    }
}

impl TextBuffer {
    /// The stored bytes are the encoding of the recorded characters.
    #[verifier::type_invariant]
    closed spec fn well_formed(&self) -> bool {
        builder_bytes(self.inner) == encode_utf8(self.text@)
    }

    /// An empty buffer.
    pub fn new() -> (buffer: TextBuffer)
        ensures
            buffer@ == Seq::<char>::empty(),
    {
        TextBuffer { inner: builder_new(), text: Ghost(Seq::empty()) }
    }

    /// The buffer with `s` appended.
    pub fn push_str(self, s: &str) -> (buffer: TextBuffer)
        ensures
            buffer@ == self@ + s@,
    {
        proof {
            use_type_invariant(&self);
            lemma_encode_utf8_concat(self.text@, s@);
        }
        let ghost text = self.text@ + s@;
        let mut inner = self.inner;
        builder_append(&mut inner, s);
        TextBuffer { inner, text: Ghost(text) }
    }

    /// The text appended so far, as a string.
    pub fn finish(self) -> (text: String)
        ensures
            text@ == self@,
    {
        proof {
            use_type_invariant(&self);
            encode_utf8_valid_utf8(self.text@);
        }
        let ghost chars = self.text@;
        match builder_string(self.inner) {
            Ok(s) => {
                proof {
                    encode_utf8_decode_utf8(s@);
                    encode_utf8_decode_utf8(chars);
                }
                s
            },
            Err(_) => {
                // The bytes are an encoding, hence valid: this is never reached.
                proof {
                    assert(false);
                }
                String::new()
            },
        }
    }
}

} // verus!

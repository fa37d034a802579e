//! The device identity: the name a device is known by, read once at startup
//! and used as the session's client id and as the namespace of its topics.

use crate::text::{lemma_last_byte, LINE_FEED};
use vstd::prelude::*;
use vstd::string::*;
use vstd::utf8::*;

verus! {

/// The characters that may not end an identity: ASCII space, tab, line feed,
/// vertical tab, form feed and carriage return.
pub open spec fn is_blank(c: char) -> bool {
    c == ' ' || ('\u{9}' <= c && c <= '\u{d}')
}

/// `text` without the line feeds at its end.
pub open spec fn strip_trailing_newlines(text: Seq<char>) -> Seq<char>
    decreases text.len(),
{
    if text.len() > 0 && text.last() == '\n' {
        strip_trailing_newlines(text.drop_last())
    } else {
        text
    }
}

/// What makes a name an identity: it is not empty and does not end in a blank.
pub open spec fn valid_identity(name: Seq<char>) -> bool {
    name.len() > 0 && !is_blank(name.last())
}

/// The topic on which the device named `name` takes commands.
pub open spec fn spec_command_topic(name: Seq<char>) -> Seq<char> {
    name + "/commands"@
}

/// Why the contents of the identity source do not name a device.
#[derive(Clone, Copy, Debug, PartialEq, Eq, Structural)]
pub enum IdentityError {
    /// Nothing is left once the trailing line feeds are gone.
    Empty,
    /// What is left ends in a blank.
    TrailingWhitespace,
}

/// A device's name. Every value is a valid identity.
#[derive(Debug)]
pub struct DeviceIdentity {
    name: String,
}

impl View for DeviceIdentity {
    type V = Seq<char>;

    closed spec fn view(&self) -> Seq<char> {
        self.name@
    }
}

/// `count` line feeds.
spec fn newlines(count: nat) -> Seq<char> {
    Seq::new(count, |i: int| '\n')
}

/// Line feeds appended to a text are stripped with its own.
proof fn lemma_strip_appended(front: Seq<char>, count: nat)
    ensures
        strip_trailing_newlines(front + newlines(count)) == strip_trailing_newlines(front),
    decreases count,
{
    if count == 0 {
        assert(front + newlines(count) =~= front);
    } else {
        let whole = front + newlines(count);
        assert(whole.last() == '\n');
        assert(whole.drop_last() =~= front + newlines((count - 1) as nat));
        lemma_strip_appended(front, (count - 1) as nat);
    }
}

/// Cutting the encoding of `text` where its run of trailing line-feed bytes
/// begins cuts it at a character boundary, and what stands before the cut
/// encodes `text` without its trailing line feeds.
proof fn lemma_cut_at_newlines(text: Seq<char>, end: int)
    requires
        0 <= end <= encode_utf8(text).len(),
        forall|j: int| end <= j < encode_utf8(text).len() ==> encode_utf8(text)[j] == LINE_FEED,
        end > 0 ==> encode_utf8(text)[end - 1] != LINE_FEED,
    ensures
        is_char_boundary(encode_utf8(text), end),
        encode_utf8(text).subrange(0, end) == encode_utf8(strip_trailing_newlines(text)),
{
    let bytes = encode_utf8(text);
    let len = bytes.len() as int;
    encode_utf8_valid_utf8(text);
    encode_utf8_decode_utf8(text);
    if end == len {
        is_char_boundary_start_end_of_seq(bytes);
    } else {
        assert(!is_continuation_byte(bytes[end]));
        is_char_boundary_iff_not_is_continuation_byte(bytes, end);
    }
    valid_utf8_split(bytes, end);
    decode_utf8_split(bytes, end);
    let head = bytes.subrange(0, end);
    let tail = bytes.subrange(end, len);
    let front = decode_utf8(head);
    let count = (len - end) as nat;
    let feeds = newlines(count);
    assert(is_ascii_chars(feeds));
    is_ascii_chars_encode_utf8(feeds);
    assert(encode_utf8(feeds) =~= tail);
    encode_utf8_decode_utf8(feeds);
    assert(text =~= front + feeds);
    decode_utf8_encode_utf8(head);
    if front.len() > 0 {
        lemma_last_byte(front);
        assert(head.last() == bytes[end - 1]);
        assert(front.last() != '\n');
    }
    lemma_strip_appended(front, count);
}

/// The part of `contents` before its trailing line feeds.
pub fn strip_newlines(contents: &str) -> (r: &str)
    ensures
        r@ == strip_trailing_newlines(contents@),
{
    let bytes = contents.as_bytes();
    let mut end: usize = bytes.len();
    while end > 0 && bytes[end - 1] == LINE_FEED
        invariant
            end <= bytes@.len(),
            forall|j: int| end <= j < bytes@.len() ==> bytes@[j] == LINE_FEED,
        decreases end,
    {
        end -= 1;
    }
    proof {
        lemma_cut_at_newlines(contents@, end as int);
    }
    let (head, _) = contents.split_at(end);
    proof {
        encode_utf8_decode_utf8(head@);
        encode_utf8_decode_utf8(strip_trailing_newlines(contents@));
    }
    head
}

/// Whether `byte` is one of the ASCII blanks.
fn is_blank_byte(byte: u8) -> (r: bool)
    ensures
        r == (byte == 0x20 || (0x09 <= byte && byte <= 0x0d)),
{
    byte == 0x20 || (0x09 <= byte && byte <= 0x0d)
}

impl DeviceIdentity {
    #[verifier::type_invariant]
    spec fn well_formed(&self) -> bool {
        valid_identity(self.name@)
    }

    /// Makes an identity of what the identity source holds: the contents
    /// without their trailing line feeds, if that is a valid identity.
    pub fn resolve(contents: &str) -> (r: Result<DeviceIdentity, IdentityError>)
        ensures
            match r {
                Ok(identity) => identity@ == strip_trailing_newlines(contents@) && valid_identity(
                    identity@,
                ),
                Err(IdentityError::Empty) => strip_trailing_newlines(contents@).len() == 0,
                Err(IdentityError::TrailingWhitespace) => {
                    let name = strip_trailing_newlines(contents@);
                    name.len() > 0 && is_blank(name.last())
                },
            },
    {
        let name = strip_newlines(contents);
        let bytes = name.as_bytes();
        let len: usize = bytes.len();
        if len == 0 {
            proof {
                if name@.len() > 0 {
                    lemma_last_byte(name@);
                }
            }
            return Err(IdentityError::Empty);
        }
        proof {
            assert(name@.len() > 0) by {
                if name@.len() == 0 {
                    assert(encode_utf8(name@).len() == 0);
                }
            }
            lemma_last_byte(name@);
        }
        if is_blank_byte(bytes[len - 1]) {
            Err(IdentityError::TrailingWhitespace)
        } else {
            Ok(DeviceIdentity { name: name.to_owned() })
        }
    }

    /// The name, as the session's client id.
    pub fn client_id(&self) -> (r: &str)
        ensures
            r@ == self@,
            valid_identity(self@),
    {
        proof {
            use_type_invariant(self);
        }
        self.name.as_str()
    }

    /// The topic on which this device takes commands.
    pub fn command_topic(&self) -> (r: String)
        ensures
            r@ == spec_command_topic(self@),
    {
        let mut topic = self.name.clone();
        topic.append("/commands");
        topic
    }
}

} // verus!

//! The interactive console of the example client: a line `name(args)` whose
//! arguments are RON; they travel as MessagePack, and the answer is shown as RON.

use vstd::prelude::*;
use vstd::string::{StrSliceExecFns, StringSliceAdditionalSpecFns};
use vstd::utf8::{decode_utf8, encode_utf8, encode_utf8_decode_utf8, is_char_boundary};

verus! {

/// The MessagePack encoding of the RON value in `text` (`None` when `text`
/// cannot be read as RON or transcoded).
pub uninterp spec fn ron_as_msgpack(text: Seq<char>) -> Option<Seq<u8>>;

/// The RON text of the MessagePack value in `bytes` (`None` when `bytes`
/// cannot be read as MessagePack or written as RON).
pub uninterp spec fn msgpack_as_ron(bytes: Seq<u8>) -> Option<Seq<char>>;

/// Transcodes RON text to MessagePack with `ron::Deserializer::from_str`,
/// `rmp_serde::Serializer::new` and `serde_transcode::transcode`; a failure of
/// either the reader or the transcoding gives `None`.
#[verifier::external_body]
fn ron_to_msgpack(text: &str) -> (r: Option<Vec<u8>>)
    ensures
        r matches Some(v) ==> ron_as_msgpack(text@) == Some(v@),
        r is None ==> ron_as_msgpack(text@) is None,
{
    let mut out = Vec::new();
    let mut de = match ron::Deserializer::from_str(text) {
        Ok(de) => de,
        Err(_) => return None,
    };
    let done = serde_transcode::transcode(&mut de, &mut rmp_serde::Serializer::new(&mut out));
    match done {
        Ok(_) => Some(out),
        Err(_) => None,
    }
}

/// Transcodes MessagePack to RON text with `rmp_serde::Deserializer::from_read_ref`,
/// `ron::Serializer::new` and `serde_transcode::transcode`; a failure of either
/// the writer or the transcoding gives `None`.
#[verifier::external_body]
fn msgpack_to_ron(bytes: &[u8]) -> (r: Option<String>)
    ensures
        r matches Some(s) ==> msgpack_as_ron(bytes@) == Some(s@),
        r is None ==> msgpack_as_ron(bytes@) is None,
{
    let mut out = String::new();
    let mut ser = match ron::Serializer::new(&mut out, None) {
        Ok(ser) => ser,
        Err(_) => return None,
    };
    let done = serde_transcode::transcode(&mut rmp_serde::Deserializer::from_read_ref(bytes), &mut ser);
    match done {
        Ok(_) => Some(out),
        Err(_) => None,
    }
}

/// `i` is the position, counted in characters, of the first `(` of `s`.
pub open spec fn is_first_open_paren(s: Seq<char>, i: int) -> bool {
    &&& 0 <= i < s.len()
    &&& s[i] == '('
    &&& forall|j: int| 0 <= j < i ==> s[j] != '('
}

/// The position, counted in characters, of the first `(` of `line`.
pub open spec fn first_open_paren(line: Seq<char>) -> Option<int> {
    if exists|i: int| is_first_open_paren(line, i) {
        Some(choose|i: int| is_first_open_paren(line, i))
    } else {
        None
    }
}

/// Whether the console can cut `line`: the argument text starts at the byte
/// offset equal to the character position of the first `(`, and cutting a
/// string inside a character panics.
pub open spec fn console_line_cuttable(line: Seq<char>) -> bool {
    match first_open_paren(line) {
        None => true,
        Some(i) => is_char_boundary(encode_utf8(line), i),
    }
}

/// The arguments of a console line, as MessagePack: the text that starts at
/// the byte offset equal to the character position of the first `(` (the
/// same place as that `(` when only ASCII comes before it), transcoded from
/// RON. `None` when the line has no `(` or that text does not transcode.
pub open spec fn console_args(line: Seq<char>) -> Option<Seq<u8>> {
    match first_open_paren(line) {
        None => None,
        Some(i) => ron_as_msgpack(decode_utf8(encode_utf8(line).skip(i))),
    }
}

/// The character position of the first `(` of `line`.
fn find_open_paren(line: &str) -> (r: Option<usize>)
    ensures
        match r {
            None => first_open_paren(line@) is None,
            Some(i) => first_open_paren(line@) == Some(i as int),
        },
        r matches Some(i) ==> i < line@.len() && line@[i as int] == '(' && forall|j: int|
            0 <= j < i ==> line@[j] != '(',
        r is None ==> forall|j: int| 0 <= j < line@.len() ==> line@[j] != '(',
{
    let n = line.unicode_len();
    let mut i: usize = 0;
    while i < n
        invariant
            n == line@.len(),
            i <= n,
            forall|j: int| 0 <= j < i ==> line@[j] != '(',
        decreases n - i,
    {
        if line.get_char(i) == '(' {
            assert(is_first_open_paren(line@, i as int));
            assert forall|k: int| is_first_open_paren(line@, k) implies k == i by {
                if k < i {
                    assert(line@[k] != '(');
                } else if k > i {
                    assert(line@[i as int] != '(');
                }
            }
            return Some(i);
        }
        i = i + 1;
    }
    assert(!exists|k: int| is_first_open_paren(line@, k));
    None
}

/// Whether `console_call_args` can cut `line` (where it cannot, the console
/// panics).
pub fn can_cut_console_line(line: &str) -> (b: bool)
    ensures
        b == console_line_cuttable(line@),
{
    match find_open_paren(line) {
        None => true,
        Some(i) => line.is_char_boundary(i),
    }
}

/// The MessagePack arguments of a console line.
pub fn console_call_args(line: &str) -> (r: Option<Vec<u8>>)
    requires
        console_line_cuttable(line@),
    ensures
        match r {
            Some(v) => console_args(line@) == Some(v@),
            None => console_args(line@) is None,
        },
{
    match find_open_paren(line) {
        None => None,
        Some(i) => {
            let (_name, args) = line.split_at(i);
            proof {
                encode_utf8_decode_utf8(args@);
                assert(line.spec_bytes().subrange(i as int, line.spec_bytes().len() as int)
                    =~= encode_utf8(line@).skip(i as int));
            }
            ron_to_msgpack(args)
        },
    }
}

/// The console cuts a line at its first `(`, whatever `(` come after it: the
/// arguments transcoded are those of the text at the byte offset equal to the
/// character position of that first `(`, and the line can be cut exactly when
/// that offset is a character boundary.
pub proof fn lemma_console_cuts_at_first_paren(line: Seq<char>, i: int)
    requires
        0 <= i < line.len(),
        line[i] == '(',
        forall|j: int| 0 <= j < i ==> line[j] != '(',
    ensures
        first_open_paren(line) == Some(i),
        console_args(line) == ron_as_msgpack(decode_utf8(encode_utf8(line).skip(i))),
        console_line_cuttable(line) == is_char_boundary(encode_utf8(line), i),
{
    assert(is_first_open_paren(line, i));
    let k = choose|k: int| is_first_open_paren(line, k);
    if k < i {
        assert(line[k] != '(');
    } else if k > i {
        assert(line[i] != '(');
    }
}

/// A line without `(` gives no arguments (and can always be handled).
pub proof fn lemma_console_line_without_paren(line: Seq<char>)
    requires
        forall|j: int| 0 <= j < line.len() ==> line[j] != '(',
    ensures
        first_open_paren(line) is None,
        console_args(line) is None,
        console_line_cuttable(line),
{
    assert(!exists|k: int| is_first_open_paren(line, k));
}

/// The answer of a console call, shown as RON.
pub fn console_reply(response_wire: &[u8]) -> (r: Option<String>)
    ensures
        match r {
            Some(s) => msgpack_as_ron(response_wire@) == Some(s@),
            None => msgpack_as_ron(response_wire@) is None,
        },
{
    msgpack_to_ron(response_wire)
}

} // verus!

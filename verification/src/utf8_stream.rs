//! Incremental UTF-8 decoding of a byte stream that arrives in chunks.

use vstd::prelude::*;
use vstd::slice::slice_subrange;
use vstd::string::StringExecFns;
use vstd::utf8::*;

verus! {

/// The Unicode replacement character, which stands for a byte that cannot
/// begin or continue a well-formed scalar.
pub const REPLACEMENT: char = '\u{FFFD}';

/// True when `bytes` is a non-empty proper prefix of the encoding of one
/// scalar value: more bytes may still complete it.
pub open spec fn is_incomplete_scalar(bytes: Seq<u8>) -> bool {
    &&& 1 <= bytes.len() <= 3
    &&& exists|rest: Seq<u8>| #[trigger]
        valid_first_scalar(bytes + rest) && length_of_first_scalar(bytes + rest) == bytes.len()
            + rest.len() && rest.len() >= 1
}

/// Where and why a byte sequence stops being well-formed UTF-8.
pub(crate) struct Utf8Fault {
    /// Length of the longest well-formed prefix.
    pub valid_up_to: usize,
    /// True when the input ends inside a scalar that more bytes could
    /// complete; false when a byte after the prefix can belong to no scalar.
    pub unfinished: bool,
}

/// Calls `std::str::from_utf8`.
///
/// Trusted: the text is returned exactly when the bytes are well-formed
/// UTF-8, and then it is their decoding. Otherwise the fault reports the
/// longest well-formed prefix (the error's `valid_up_to`), and is unfinished
/// (the error's `error_len` is `None`) exactly when the bytes after that
/// prefix are the beginning of a scalar that the end of the input cuts short.
#[verifier::external_body]
pub(crate) fn str_from_utf8(bytes: &[u8]) -> (r: Result<&str, Utf8Fault>)
    ensures
        r is Ok <==> valid_utf8(bytes@),
        r matches Ok(text) ==> text@ == decode_utf8(bytes@),
        r matches Err(fault) ==> {
            &&& fault.valid_up_to < bytes@.len()
            &&& valid_utf8(bytes@.take(fault.valid_up_to as int))
            &&& !valid_first_scalar(bytes@.skip(fault.valid_up_to as int))
            &&& fault.unfinished <==> is_incomplete_scalar(
                bytes@.skip(fault.valid_up_to as int),
            )
        },
{
    match std::str::from_utf8(bytes) {
        Ok(text) => Ok(text),
        Err(e) => Err(
            Utf8Fault { valid_up_to: e.valid_up_to(), unfinished: e.error_len().is_none() },
        ),
    }
}

/// What a decoder has made of the bytes it has seen.
pub struct Decoded {
    /// The text decoded so far.
    pub text: Seq<char>,
    /// The unfinished scalar at the end of the bytes, which is held back.
    pub held: Seq<u8>,
}

/// Decodes `bytes` as the first bytes of a stream that may continue.
///
/// A well-formed scalar becomes its character. A byte that can neither begin
/// a well-formed scalar nor be completed into one becomes one replacement
/// character, and decoding resumes at the byte after it. An unfinished scalar
/// at the end is held back.
pub open spec fn stream_decode(bytes: Seq<u8>) -> Decoded
    decreases bytes.len(),
{
    if bytes.len() == 0 {
        Decoded { text: Seq::empty(), held: Seq::empty() }
    } else if valid_first_scalar(bytes) {
        let rest = stream_decode(pop_first_scalar(bytes));
        Decoded { text: seq![decode_first_scalar(bytes) as char] + rest.text, held: rest.held }
    } else if is_incomplete_scalar(bytes) {
        Decoded { text: Seq::empty(), held: bytes }
    } else {
        let rest = stream_decode(bytes.skip(1));
        Decoded { text: seq![REPLACEMENT] + rest.text, held: rest.held }
    }
}

/// Decodes `bytes` as a whole stream: what is held back at the end can no
/// longer be completed, and becomes one replacement character.
pub open spec fn decode_lossy(bytes: Seq<u8>) -> Seq<char> {
    let d = stream_decode(bytes);
    if d.held.len() == 0 {
        d.text
    } else {
        d.text + seq![REPLACEMENT]
    }
}

/// A well-formed first scalar stays the first scalar whatever follows it.
pub proof fn lemma_first_scalar_extends(a: Seq<u8>, b: Seq<u8>)
    requires
        valid_first_scalar(a),
    ensures
        valid_first_scalar(a + b),
        decode_first_scalar(a + b) == decode_first_scalar(a),
        length_of_first_scalar(a + b) == length_of_first_scalar(a),
        pop_first_scalar(a + b) == pop_first_scalar(a) + b,
{
    let ab = a + b;
    assert(ab[0] == a[0]);
    if a.len() >= 2 {
        assert(ab[1] == a[1]);
    }
    if a.len() >= 3 {
        assert(ab[2] == a[2]);
    }
    if a.len() >= 4 {
        assert(ab[3] == a[3]);
    }
    assert(pop_first_scalar(ab) =~= pop_first_scalar(a) + b);
}

/// A first scalar of `a + b` that ends within `a` is a first scalar of `a`.
pub proof fn lemma_first_scalar_restricts(a: Seq<u8>, b: Seq<u8>)
    requires
        valid_first_scalar(a + b),
        length_of_first_scalar(a + b) <= a.len(),
    ensures
        valid_first_scalar(a),
{
    let ab = a + b;
    assert(ab[0] == a[0]);
    if a.len() >= 2 {
        assert(ab[1] == a[1]);
    }
    if a.len() >= 3 {
        assert(ab[2] == a[2]);
    }
    if a.len() >= 4 {
        assert(ab[3] == a[3]);
    }
}

/// Bytes that are neither a scalar nor the beginning of one stay so whatever
/// follows them.
pub proof fn lemma_malformed_extends(a: Seq<u8>, b: Seq<u8>)
    requires
        a.len() > 0,
        !valid_first_scalar(a),
        !is_incomplete_scalar(a),
    ensures
        !valid_first_scalar(a + b),
        !is_incomplete_scalar(a + b),
{
    let ab = a + b;
    if valid_first_scalar(ab) {
        if length_of_first_scalar(ab) <= a.len() {
            lemma_first_scalar_restricts(a, b);
        } else {
            let n = length_of_first_scalar(ab);
            let rest = b.take(n - a.len());
            let whole = a + rest;
            assert(whole[0] == ab[0]);
            assert(whole.len() == n);
            if n >= 2 {
                assert(whole[1] == ab[1]);
            }
            if n >= 3 {
                assert(whole[2] == ab[2]);
            }
            if n >= 4 {
                assert(whole[3] == ab[3]);
            }
            assert(valid_first_scalar(a + rest));
            assert(is_incomplete_scalar(a));
        }
    }
    if is_incomplete_scalar(ab) {
        let rest = choose|rest: Seq<u8>| #[trigger]
            valid_first_scalar(ab + rest) && length_of_first_scalar(ab + rest) == ab.len()
                + rest.len() && rest.len() >= 1;
        assert(a + (b + rest) =~= ab + rest);
        assert(valid_first_scalar(a + (b + rest)));
        assert(is_incomplete_scalar(a));
    }
}

/// What is held back is empty or an unfinished scalar, and decoding it again
/// yields no text and holds all of it back.
pub proof fn lemma_held_is_unfinished(bytes: Seq<u8>)
    ensures
        stream_decode(bytes).held.len() == 0 || is_incomplete_scalar(stream_decode(bytes).held),
        stream_decode(bytes).held.len() <= 3,
        stream_decode(stream_decode(bytes).held) == (Decoded {
            text: Seq::empty(),
            held: stream_decode(bytes).held,
        }),
    decreases bytes.len(),
{
    if bytes.len() == 0 {
    } else if valid_first_scalar(bytes) {
        lemma_held_is_unfinished(pop_first_scalar(bytes));
    } else if is_incomplete_scalar(bytes) {
    } else {
        lemma_held_is_unfinished(bytes.skip(1));
    }
}

/// Chunking law: decoding `a` and then going on with what was held back and
/// `b` gives what decoding `a + b` in one piece gives.
pub proof fn lemma_stream_decode_chunks(a: Seq<u8>, b: Seq<u8>)
    ensures
        stream_decode(a + b).text == stream_decode(a).text + stream_decode(
            stream_decode(a).held + b,
        ).text,
        stream_decode(a + b).held == stream_decode(stream_decode(a).held + b).held,
    decreases a.len(),
{
    let ab = a + b;
    if a.len() == 0 {
        assert(ab =~= b);
        assert(stream_decode(a).held + b =~= b);
        assert(stream_decode(a).text + stream_decode(b).text =~= stream_decode(b).text);
    } else if valid_first_scalar(a) {
        lemma_first_scalar_extends(a, b);
        let rest = pop_first_scalar(a);
        lemma_stream_decode_chunks(rest, b);
        let c = seq![decode_first_scalar(a) as char];
        assert(c + (stream_decode(rest).text + stream_decode(stream_decode(rest).held + b).text)
            =~= (c + stream_decode(rest).text) + stream_decode(stream_decode(rest).held + b).text);
    } else if is_incomplete_scalar(a) {
        assert(Seq::<char>::empty() + stream_decode(ab).text =~= stream_decode(ab).text);
    } else {
        lemma_malformed_extends(a, b);
        let rest = a.skip(1);
        assert(ab.skip(1) =~= rest + b);
        lemma_stream_decode_chunks(rest, b);
        let c = seq![REPLACEMENT];
        assert(c + (stream_decode(rest).text + stream_decode(stream_decode(rest).held + b).text)
            =~= (c + stream_decode(rest).text) + stream_decode(stream_decode(rest).held + b).text);
    }
}

/// Well-formed UTF-8 decodes to its text, with nothing replaced and nothing
/// held back.
pub proof fn lemma_stream_decode_valid(bytes: Seq<u8>)
    requires
        valid_utf8(bytes),
    ensures
        stream_decode(bytes).text == decode_utf8(bytes),
        stream_decode(bytes).held.len() == 0,
        decode_lossy(bytes) == decode_utf8(bytes),
    decreases bytes.len(),
{
    if bytes.len() != 0 {
        lemma_stream_decode_valid(pop_first_scalar(bytes));
    }
}

/// Split law: of the beginning `a` of well-formed UTF-8, the decoder replaces
/// and loses nothing. What it has decoded and what it holds back are `a`
/// again, so a character cut by the end of `a` is held back whole
/// until the bytes after `a` complete it.
pub proof fn lemma_stream_decode_of_valid_beginning(a: Seq<u8>, b: Seq<u8>)
    requires
        valid_utf8(a + b),
    ensures
        a == encode_utf8(stream_decode(a).text) + stream_decode(a).held,
        stream_decode(a).text + stream_decode(stream_decode(a).held + b).text == decode_utf8(
            a + b,
        ),
        stream_decode(stream_decode(a).held + b).held.len() == 0,
    decreases a.len(),
{
    lemma_stream_decode_chunks(a, b);
    lemma_stream_decode_valid(a + b);
    if a.len() == 0 {
        assert(encode_utf8(stream_decode(a).text) + stream_decode(a).held =~= a);
    } else if valid_first_scalar(a) {
        lemma_first_scalar_extends(a, b);
        let rest = pop_first_scalar(a);
        lemma_stream_decode_of_valid_beginning(rest, b);
        decode_utf8_first_scalar(a + b);
        assert(take_first_scalar(a + b) =~= take_first_scalar(a));
        let c = decode_first_scalar(a) as char;
        let text = stream_decode(a).text;
        assert(text.drop_first() =~= stream_decode(rest).text);
        assert(text[0] == c);
        assert(a =~= take_first_scalar(a) + rest);
        assert(take_first_scalar(a) + (encode_utf8(stream_decode(rest).text) + stream_decode(
            rest,
        ).held) =~= (take_first_scalar(a) + encode_utf8(stream_decode(rest).text))
            + stream_decode(rest).held);
    } else if is_incomplete_scalar(a) {
        assert(encode_utf8(stream_decode(a).text) + stream_decode(a).held =~= a);
    } else {
        lemma_malformed_extends(a, b);
    }
}

/// After a well-formed prefix, decoding goes on with the bytes behind it.
pub proof fn lemma_stream_decode_after_valid_prefix(bytes: Seq<u8>, k: int)
    requires
        0 <= k <= bytes.len(),
        valid_utf8(bytes.take(k)),
    ensures
        stream_decode(bytes).text == decode_utf8(bytes.take(k)) + stream_decode(bytes.skip(k)).text,
        stream_decode(bytes).held == stream_decode(bytes.skip(k)).held,
{
    lemma_stream_decode_valid(bytes.take(k));
    lemma_stream_decode_chunks(bytes.take(k), bytes.skip(k));
    assert(bytes.take(k) + bytes.skip(k) =~= bytes);
    assert(stream_decode(bytes.take(k)).held + bytes.skip(k) =~= bytes.skip(k));
}

/// Moves everything that can be decoded out of `pending_bytes` to the end of
/// `pending`, and leaves in `pending_bytes` only an unfinished scalar.
pub fn decode_pending(pending_bytes: &mut Vec<u8>, pending: &mut String)
    ensures
        final(pending)@ == old(pending)@ + stream_decode(old(pending_bytes)@).text,
        final(pending_bytes)@ == stream_decode(old(pending_bytes)@).held,
{
    loop
        invariant
            pending@ + stream_decode(pending_bytes@).text == old(pending)@ + stream_decode(
                old(pending_bytes)@,
            ).text,
            stream_decode(pending_bytes@).held == stream_decode(old(pending_bytes)@).held,
        ensures
            pending@ == old(pending)@ + stream_decode(old(pending_bytes)@).text,
            pending_bytes@ == stream_decode(old(pending_bytes)@).held,
        decreases pending_bytes@.len(),
    {
        let ghost before = pending_bytes@;
        let ghost text_before = pending@;
        match str_from_utf8(pending_bytes.as_slice()) {
            Ok(text) => {
                pending.append(text);
                pending_bytes.clear();
                proof {
                    lemma_stream_decode_valid(before);
                    assert(pending@ + Seq::<char>::empty() =~= pending@);
                }
                break ;
            },
            Err(fault) => {
                let valid = fault.valid_up_to;
                if valid > 0 {
                    let prefix = slice_subrange(pending_bytes.as_slice(), 0, valid);
                    assert(prefix@ =~= before.take(valid as int));
                    match str_from_utf8(prefix) {
                        Ok(text) => {
                            pending.append(text);
                        },
                        Err(_) => {},
                    }
                    let tail = pending_bytes.split_off(valid);
                    *pending_bytes = tail;
                    proof {
                        assert(pending_bytes@ =~= before.skip(valid as int));
                        lemma_stream_decode_after_valid_prefix(before, valid as int);
                        assert(text_before + (decode_utf8(before.take(valid as int))
                            + stream_decode(pending_bytes@).text) =~= pending@ + stream_decode(
                            pending_bytes@,
                        ).text);
                    }
                    continue ;
                }
                assert(before.skip(0) =~= before);
                if fault.unfinished {
                    proof {
                        assert(pending@ + Seq::<char>::empty() =~= pending@);
                    }
                    break ;
                }
                let _ = pending_bytes.remove(0);
                pending.append("\u{FFFD}");
                proof {
                    reveal_strlit("\u{FFFD}");
                    assert("\u{FFFD}"@ =~= seq![REPLACEMENT]);
                    assert(pending_bytes@ =~= before.skip(1));
                    assert(text_before + (seq![REPLACEMENT] + stream_decode(
                        pending_bytes@,
                    ).text) =~= pending@ + stream_decode(pending_bytes@).text);
                }
            },
        }
    }
}

} // verus!

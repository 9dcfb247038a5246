//! The binary layout shared with the validator: length-delimited fields whose
//! lengths are base-128 varints, each field led by a one-byte tag.
//!
//! Every encoder is described by a function to `Seq<u8>`, every decoder by a
//! function from the input to the decoded value and the input that is left, and
//! the lemmas of this module show that the decoders invert the encoders exactly.

use vstd::prelude::*;
use vstd::slice::slice_subrange;
use vstd::utf8::*;

verus! {

/// The base-128 encoding of `n`, least significant group first; every byte but
/// the last has its high bit set.
pub open spec fn varint(n: nat) -> Seq<u8>
    decreases n,
{
    if n < 128 {
        seq![n as u8]
    } else {
        seq![(n % 128 + 128) as u8] + varint(n / 128)
    }
}

/// Reads one varint of value at most `max` from the front of `s`. The shortest
/// encoding only is accepted: a final group of zero behind another group is refused.
pub open spec fn parse_varint(s: Seq<u8>, max: nat) -> Option<(nat, Seq<u8>)>
    decreases s.len(),
{
    if s.len() == 0 || max < s[0] {
        None
    } else if s[0] < 128 {
        Some((s[0] as nat, s.drop_first()))
    } else {
        match parse_varint(s.drop_first(), ((max - (s[0] - 128)) / 128) as nat) {
            Some((high, rest)) => if high == 0 {
                None
            } else {
                Some(((s[0] - 128 + 128 * high) as nat, rest))
            },
            None => None,
        }
    }
}

/// Reading what `varint` wrote gives the value back and leaves what followed it.
pub proof fn lemma_parse_varint_of_varint(n: nat, rest: Seq<u8>, max: nat)
    requires
        n <= max,
    ensures
        parse_varint(varint(n) + rest, max) == Some((n, rest)),
    decreases n,
{
    let s = varint(n) + rest;
    if n >= 128 {
        let first = (n % 128 + 128) as u8;
        let sub_max = ((max - (first - 128)) / 128) as nat;
        assert(s.drop_first() =~= varint(n / 128) + rest);
        lemma_parse_varint_of_varint(n / 128, rest, sub_max);
    }
}

/// Whatever `parse_varint` accepts is the encoding of the value it returns,
/// followed by the input it leaves; and the value is within the bound.
pub proof fn lemma_parse_varint_inverse(s: Seq<u8>, max: nat)
    ensures
        parse_varint(s, max) matches Some((n, rest)) ==> n <= max && s == varint(n) + rest,
    decreases s.len(),
{
    if let Some((n, rest)) = parse_varint(s, max) {
        if s[0] >= 128 {
            let sub_max = ((max - (s[0] - 128)) / 128) as nat;
            lemma_parse_varint_inverse(s.drop_first(), sub_max);
            let (high, _) = parse_varint(s.drop_first(), sub_max)->0;
            assert(s =~= seq![s[0]] + s.drop_first());
        }
    }
}

/// Appends the varint of `n` to `out`.
pub fn put_varint(out: &mut Vec<u8>, n: u64)
    ensures
        final(out)@ == old(out)@ + varint(n as nat),
{
    let mut left: u64 = n;
    while left >= 128
        invariant
            old(out)@ + varint(n as nat) == out@ + varint(left as nat),
        decreases left,
    {
        let group: u8 = (left % 128 + 128) as u8;
        out.push(group);
        left = left / 128;
    }
    out.push(left as u8);
}

/// Reads one varint of value at most `max` from the front of `input`.
pub fn take_varint<'a>(input: &'a [u8], max: u64) -> (res: Option<(u64, &'a [u8])>)
    ensures
        match parse_varint(input@, max as nat) {
            Some((n, rest)) => res matches Some((value, left)) && value == n && left@ == rest,
            None => res is None,
        },
    decreases max,
{
    if input.len() == 0 {
        return None;
    }
    let first: u8 = input[0];
    if max < first as u64 {
        return None;
    }
    let tail = slice_subrange(input, 1, input.len());
    if first < 128 {
        return Some((first as u64, tail));
    }
    let low: u64 = (first - 128) as u64;
    let sub_max: u64 = (max - low) / 128;
    match take_varint(tail, sub_max) {
        Some((high, left)) => {
            if high == 0 {
                None
            } else {
                proof {
                    lemma_parse_varint_inverse(tail@, sub_max as nat);
                }
                Some((low + 128 * high, left))
            }
        },
        None => None,
    }
}

/// One field on the wire: its tag, the varint of its length, then its bytes.
pub open spec fn field(tag: u8, data: Seq<u8>) -> Seq<u8> {
    seq![tag] + varint(data.len()) + data
}

/// Reads one field led by `tag` from the front of `s`: its bytes, and what follows.
pub open spec fn parse_field(s: Seq<u8>, tag: u8) -> Option<(Seq<u8>, Seq<u8>)> {
    if s.len() == 0 || s[0] != tag {
        None
    } else {
        match parse_varint(s.drop_first(), (s.len() - 1) as nat) {
            Some((len, body)) => if len <= body.len() {
                Some((body.take(len as int), body.skip(len as int)))
            } else {
                None
            },
            None => None,
        }
    }
}

/// The fields of `items`, in order, all led by `tag`.
pub open spec fn fields(tag: u8, items: Seq<Seq<u8>>) -> Seq<u8>
    decreases items.len(),
{
    if items.len() == 0 {
        Seq::empty()
    } else {
        field(tag, items[0]) + fields(tag, items.drop_first())
    }
}

/// Reads fields led by `tag` from the front of `s` for as long as the next byte
/// is `tag`: their bytes in order, and what follows the last of them.
pub open spec fn parse_fields(s: Seq<u8>, tag: u8) -> Option<(Seq<Seq<u8>>, Seq<u8>)>
    decreases s.len(),
{
    if s.len() == 0 || s[0] != tag {
        Some((Seq::empty(), s))
    } else {
        match parse_field(s, tag) {
            Some((data, rest)) => if rest.len() < s.len() {
                match parse_fields(rest, tag) {
                    Some((more, left)) => Some((seq![data] + more, left)),
                    None => None,
                }
            } else {
                None
            },
            None => None,
        }
    }
}

/// True when `s` does not go on with a field led by `tag`.
pub open spec fn stops(s: Seq<u8>, tag: u8) -> bool {
    s.len() == 0 || s[0] != tag
}

/// Reading what `field` wrote gives the bytes back and leaves what followed them.
pub proof fn lemma_parse_field_of_field(tag: u8, data: Seq<u8>, rest: Seq<u8>)
    ensures
        parse_field(field(tag, data) + rest, tag) == Some((data, rest)),
{
    let s = field(tag, data) + rest;
    let body = data + rest;
    assert(s.drop_first() =~= varint(data.len()) + body);
    lemma_parse_varint_of_varint(data.len(), body, (s.len() - 1) as nat);
}

/// Whatever `parse_field` accepts is a field of the bytes it returns, followed by
/// the input it leaves, which is shorter than the input.
pub proof fn lemma_parse_field_inverse(s: Seq<u8>, tag: u8)
    ensures
        parse_field(s, tag) matches Some((data, rest)) ==> s == field(tag, data) + rest
            && rest.len() + 2 <= s.len(),
{
    if let Some((data, rest)) = parse_field(s, tag) {
        let max = (s.len() - 1) as nat;
        lemma_parse_varint_inverse(s.drop_first(), max);
        let (len, body) = parse_varint(s.drop_first(), max)->0;
        assert(s =~= seq![tag] + s.drop_first());
    }
}

/// Adding one item at the end adds its field at the end.
pub proof fn lemma_fields_push(tag: u8, items: Seq<Seq<u8>>, item: Seq<u8>)
    ensures
        fields(tag, items.push(item)) == fields(tag, items) + field(tag, item),
    decreases items.len(),
{
    let all = items.push(item);
    if items.len() == 0 {
        assert(all.drop_first() =~= items);
    } else {
        assert(all.drop_first() =~= items.drop_first().push(item));
        lemma_fields_push(tag, items.drop_first(), item);
    }
}

/// Reading what `fields` wrote gives the items back, provided that what follows
/// them does not itself begin with the tag.
pub proof fn lemma_parse_fields_of_fields(tag: u8, items: Seq<Seq<u8>>, rest: Seq<u8>)
    requires
        stops(rest, tag),
    ensures
        parse_fields(fields(tag, items) + rest, tag) == Some((items, rest)),
    decreases items.len(),
{
    let s = fields(tag, items) + rest;
    if items.len() > 0 {
        let tail = fields(tag, items.drop_first()) + rest;
        assert(s =~= field(tag, items[0]) + tail);
        lemma_parse_field_of_field(tag, items[0], tail);
        lemma_parse_fields_of_fields(tag, items.drop_first(), rest);
    }
}

/// Whatever `parse_fields` accepts is `fields` of the items it returns, followed
/// by the input it leaves, which does not begin with the tag.
pub proof fn lemma_parse_fields_inverse(s: Seq<u8>, tag: u8)
    ensures
        parse_fields(s, tag) matches Some((items, rest)) ==> s == fields(tag, items) + rest
            && stops(rest, tag),
    decreases s.len(),
{
    if let Some((items, rest)) = parse_fields(s, tag) {
        if s.len() > 0 && s[0] == tag {
            let (data, after) = parse_field(s, tag)->0;
            lemma_parse_field_inverse(s, tag);
            lemma_parse_fields_inverse(after, tag);
            let (more, _) = parse_fields(after, tag)->0;
            assert(items.drop_first() =~= more);
        }
    }
}

/// Appends one field to `out`.
pub fn put_field(out: &mut Vec<u8>, tag: u8, data: &[u8])
    ensures
        final(out)@ == old(out)@ + field(tag, data@),
{
    out.push(tag);
    put_varint(out, data.len() as u64);
    out.extend_from_slice(data);
}

/// Reads one field led by `tag` from the front of `input`.
pub fn take_field<'a>(input: &'a [u8], tag: u8) -> (res: Option<(&'a [u8], &'a [u8])>)
    ensures
        match parse_field(input@, tag) {
            Some((data, rest)) => res matches Some((found, left)) && found@ == data && left@
                == rest,
            None => res is None,
        },
{
    if input.len() == 0 || input[0] != tag {
        return None;
    }
    let tail = slice_subrange(input, 1, input.len());
    match take_varint(tail, (input.len() - 1) as u64) {
        Some((len, body)) => {
            if len <= body.len() as u64 {
                let cut: usize = len as usize;
                let found = slice_subrange(body, 0, cut);
                let left = slice_subrange(body, cut, body.len());
                Some((found, left))
            } else {
                None
            }
        },
        None => None,
    }
}

/// The views of the slices in `frames`.
pub open spec fn frame_views(frames: Seq<&[u8]>) -> Seq<Seq<u8>> {
    Seq::new(frames.len(), |i: int| frames[i]@)
}

/// Reads fields led by `tag` from the front of `input` for as long as the next
/// byte is `tag`.
pub fn take_fields<'a>(input: &'a [u8], tag: u8) -> (res: Option<(Vec<&'a [u8]>, &'a [u8])>)
    ensures
        match parse_fields(input@, tag) {
            Some((items, rest)) => res matches Some((frames, left)) && frame_views(frames@)
                == items && left@ == rest,
            None => res is None,
        },
{
    let mut frames: Vec<&'a [u8]> = Vec::new();
    let mut cur: &'a [u8] = input;
    while cur.len() > 0 && cur[0] == tag
        invariant
            match parse_fields(cur@, tag) {
                Some((more, left)) => parse_fields(input@, tag) == Some(
                    (frame_views(frames@) + more, left),
                ),
                None => parse_fields(input@, tag) is None,
            },
        decreases cur@.len(),
    {
        proof {
            lemma_parse_field_inverse(cur@, tag);
        }
        match take_field(cur, tag) {
            Some((found, left)) => {
                frames.push(found);
                cur = left;
            },
            None => {
                return None;
            },
        }
    }
    Some((frames, cur))
}

/// The UTF-8 bytes of each text of `texts`.
pub open spec fn utf8_all(texts: Seq<Seq<char>>) -> Seq<Seq<u8>> {
    Seq::new(texts.len(), |i: int| encode_utf8(texts[i]))
}

/// True when every item of `items` is well-formed UTF-8.
pub open spec fn all_valid_utf8(items: Seq<Seq<u8>>) -> bool {
    forall|i: int| 0 <= i < items.len() ==> valid_utf8(#[trigger] items[i])
}

/// The text that each item of `items` encodes.
pub open spec fn decode_all(items: Seq<Seq<u8>>) -> Seq<Seq<char>> {
    Seq::new(items.len(), |i: int| decode_utf8(items[i]))
}

/// One field that holds a text as UTF-8.
pub open spec fn text_field(tag: u8, text: Seq<char>) -> Seq<u8> {
    field(tag, encode_utf8(text))
}

/// Reads one field led by `tag` that holds well-formed UTF-8.
pub open spec fn parse_text_field(s: Seq<u8>, tag: u8) -> Option<(Seq<char>, Seq<u8>)> {
    match parse_field(s, tag) {
        Some((data, rest)) => if valid_utf8(data) {
            Some((decode_utf8(data), rest))
        } else {
            None
        },
        None => None,
    }
}

/// The fields of `texts`, in order, each holding one text as UTF-8.
pub open spec fn text_fields(tag: u8, texts: Seq<Seq<char>>) -> Seq<u8> {
    fields(tag, utf8_all(texts))
}

/// Reads fields led by `tag` for as long as the next byte is `tag`; each must hold
/// well-formed UTF-8.
pub open spec fn parse_text_fields(s: Seq<u8>, tag: u8) -> Option<(Seq<Seq<char>>, Seq<u8>)> {
    match parse_fields(s, tag) {
        Some((items, rest)) => if all_valid_utf8(items) {
            Some((decode_all(items), rest))
        } else {
            None
        },
        None => None,
    }
}

/// Decoding the UTF-8 of texts gives the texts back.
pub proof fn lemma_decode_all_of_utf8_all(texts: Seq<Seq<char>>)
    ensures
        all_valid_utf8(utf8_all(texts)),
        decode_all(utf8_all(texts)) == texts,
{
    assert forall|i: int| 0 <= i < texts.len() implies valid_utf8(#[trigger] utf8_all(texts)[i])
        && decode_utf8(utf8_all(texts)[i]) == texts[i] by {
        encode_utf8_valid_utf8(texts[i]);
        encode_utf8_decode_utf8(texts[i]);
    }
}

/// Encoding the texts of well-formed UTF-8 items gives the items back.
pub proof fn lemma_utf8_all_of_decode_all(items: Seq<Seq<u8>>)
    requires
        all_valid_utf8(items),
    ensures
        utf8_all(decode_all(items)) == items,
{
    assert forall|i: int| 0 <= i < items.len() implies encode_utf8(decode_utf8(items[i]))
        == #[trigger] items[i] by {
        decode_utf8_encode_utf8(items[i]);
    }
}

/// Reading what `text_field` wrote gives the text back.
pub proof fn lemma_parse_text_field_of_text_field(tag: u8, text: Seq<char>, rest: Seq<u8>)
    ensures
        parse_text_field(text_field(tag, text) + rest, tag) == Some((text, rest)),
{
    lemma_parse_field_of_field(tag, encode_utf8(text), rest);
    encode_utf8_valid_utf8(text);
    encode_utf8_decode_utf8(text);
}

/// Whatever `parse_text_field` accepts is the field of the text it returns,
/// followed by the input it leaves.
pub proof fn lemma_parse_text_field_inverse(s: Seq<u8>, tag: u8)
    ensures
        parse_text_field(s, tag) matches Some((text, rest)) ==> s == text_field(tag, text)
            + rest,
{
    if let Some((data, _)) = parse_field(s, tag) {
        lemma_parse_field_inverse(s, tag);
        if valid_utf8(data) {
            decode_utf8_encode_utf8(data);
        }
    }
}

/// Reading what `text_fields` wrote gives the texts back, provided that what
/// follows them does not itself begin with the tag.
pub proof fn lemma_parse_text_fields_of_text_fields(
    tag: u8,
    texts: Seq<Seq<char>>,
    rest: Seq<u8>,
)
    requires
        stops(rest, tag),
    ensures
        parse_text_fields(text_fields(tag, texts) + rest, tag) == Some((texts, rest)),
{
    lemma_parse_fields_of_fields(tag, utf8_all(texts), rest);
    lemma_decode_all_of_utf8_all(texts);
}

/// Whatever `parse_text_fields` accepts is `text_fields` of the texts it returns,
/// followed by the input it leaves, which does not begin with the tag.
pub proof fn lemma_parse_text_fields_inverse(s: Seq<u8>, tag: u8)
    ensures
        parse_text_fields(s, tag) matches Some((texts, rest)) ==> s == text_fields(tag, texts)
            + rest && stops(rest, tag),
{
    if let Some((items, _)) = parse_fields(s, tag) {
        lemma_parse_fields_inverse(s, tag);
        if all_valid_utf8(items) {
            lemma_utf8_all_of_decode_all(items);
        }
    }
}

/// The string that `bytes` encode, if they are well-formed UTF-8.
///
/// Trusted: this is `String::from_utf8` of std, which accepts exactly the
/// well-formed byte strings and keeps the bytes as the string's encoding.
#[verifier::external_body]
fn text_of_utf8(bytes: &[u8]) -> (text: Option<String>)
    ensures
        text is Some <==> valid_utf8(bytes@),
        text matches Some(t) ==> encode_utf8(t@) == bytes@,
{
    String::from_utf8(bytes.to_vec()).ok()
}

/// Appends one field that holds `text` to `out`.
pub fn put_text_field(out: &mut Vec<u8>, tag: u8, text: &str)
    ensures
        final(out)@ == old(out)@ + text_field(tag, text@),
{
    put_field(out, tag, text.as_bytes());
}

/// Reads one field led by `tag` that holds a text.
pub fn take_text_field<'a>(input: &'a [u8], tag: u8) -> (res: Option<(String, &'a [u8])>)
    ensures
        match parse_text_field(input@, tag) {
            Some((text, rest)) => res matches Some((found, left)) && found@ == text && left@
                == rest,
            None => res is None,
        },
{
    match take_field(input, tag) {
        Some((data, left)) => match text_of_utf8(data) {
            Some(found) => {
                proof {
                    encode_utf8_decode_utf8(found@);
                }
                Some((found, left))
            },
            None => None,
        },
        None => None,
    }
}

/// Appends the fields of `texts`, in order, to `out`.
pub fn put_text_fields(out: &mut Vec<u8>, tag: u8, texts: &Vec<String>)
    ensures
        final(out)@ == old(out)@ + text_fields(tag, texts.deep_view()),
{
    let ghost all = texts.deep_view();
    let mut i: usize = 0;
    while i < texts.len()
        invariant
            i <= texts.len(),
            all == texts.deep_view(),
            out@ == old(out)@ + text_fields(tag, all.take(i as int)),
        decreases texts.len() - i,
    {
        put_text_field(out, tag, texts[i].as_str());
        proof {
            let done = utf8_all(all.take(i as int));
            assert(utf8_all(all.take(i + 1)) =~= done.push(encode_utf8(texts[i as int]@)));
            lemma_fields_push(tag, done, encode_utf8(texts[i as int]@));
        }
        i += 1;
    }
    assert(all.take(i as int) =~= all);
}

/// Reads fields led by `tag` for as long as the next byte is `tag`, each holding
/// a text.
pub fn take_text_fields<'a>(input: &'a [u8], tag: u8) -> (res: Option<
    (Vec<String>, &'a [u8]),
>)
    ensures
        match parse_text_fields(input@, tag) {
            Some((texts, rest)) => res matches Some((found, left)) && found.deep_view() == texts
                && left@ == rest,
            None => res is None,
        },
{
    match take_fields(input, tag) {
        Some((frames, left)) => {
            let ghost items = frame_views(frames@);
            let mut found: Vec<String> = Vec::new();
            let mut i: usize = 0;
            while i < frames.len()
                invariant
                    i <= frames.len(),
                    items == frame_views(frames@),
                    parse_fields(input@, tag) == Some((items, left@)),
                    found.len() == i,
                    forall|k: int| 0 <= k < i ==> valid_utf8(#[trigger] items[k]),
                    forall|k: int| 0 <= k < i ==> (#[trigger] found[k])@ == decode_utf8(items[k]),
                decreases frames.len() - i,
            {
                match text_of_utf8(frames[i]) {
                    Some(text) => {
                        proof {
                            encode_utf8_decode_utf8(text@);
                        }
                        found.push(text);
                    },
                    None => {
                        assert(!valid_utf8(items[i as int]));
                        return None;
                    },
                }
                i += 1;
            }
            Some((found, left))
        },
        None => None,
    }
}

} // verus!

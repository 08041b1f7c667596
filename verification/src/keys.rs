//! Where a processed image is stored: object keys and their decoding.

use vstd::prelude::*;
use vstd::string::*;
use std::string::FromUtf8Error;

verus! {

/// Whether `s` begins with `prefix`.
pub open spec fn has_prefix(s: Seq<char>, prefix: Seq<char>) -> bool {
    prefix.len() <= s.len() && s.take(prefix.len() as int) == prefix
}

/// `s` without `prefix` when it begins with it; `s` itself otherwise.
pub open spec fn without_prefix(s: Seq<char>, prefix: Seq<char>) -> Seq<char> {
    if has_prefix(s, prefix) {
        s.skip(prefix.len() as int)
    } else {
        s
    }
}

/// `s` without the slashes it begins with.
pub open spec fn trim_leading_slashes(s: Seq<char>) -> Seq<char>
    decreases s.len(),
{
    if s.len() > 0 && s[0] == '/' {
        trim_leading_slashes(s.drop_first())
    } else {
        s
    }
}

/// The key a processed image is stored under: the resized prefix, followed by the
/// source key without the source prefix and without leading slashes.
pub open spec fn destination_key_of(key: Seq<char>, source_prefix: Seq<char>, resized_prefix: Seq<char>) -> Seq<char> {
    resized_prefix + trim_leading_slashes(without_prefix(key, source_prefix))
}

fn starts_with(s: &str, prefix: &str) -> (res: bool)
    ensures
        res == has_prefix(s@, prefix@),
{
    let n = s.unicode_len();
    let p = prefix.unicode_len();
    if p > n {
        return false;
    }
    let mut i: usize = 0;
    while i < p
        invariant
            i <= p <= n,
            n == s@.len(),
            p == prefix@.len(),
            forall|j: int| 0 <= j < i ==> s@[j] == prefix@[j],
        decreases p - i,
    {
        if s.get_char(i) != prefix.get_char(i) {
            assert(s@.take(p as int)[i as int] != prefix@[i as int]);
            return false;
        }
        i = i + 1;
    }
    assert(s@.take(p as int) =~= prefix@);
    true
}

/// Computes where the processed image of the object `key` is stored: the source
/// prefix is dropped from the key when the key begins with it, then the leading
/// slashes are dropped (so that no `//` arises), and the resized prefix is put in
/// front.
pub fn destination_key(key: &str, source_prefix: &str, resized_prefix: &str) -> (res: String)
    ensures
        res@ == destination_key_of(key@, source_prefix@, resized_prefix@),
{
    let n = key.unicode_len();
    let mut i: usize = if starts_with(key, source_prefix) {
        source_prefix.unicode_len()
    } else {
        0
    };
    let ghost rest = without_prefix(key@, source_prefix@);
    assert(rest =~= key@.skip(i as int));
    while i < n && key.get_char(i) == '/'
        invariant
            i <= n,
            n == key@.len(),
            trim_leading_slashes(rest) == trim_leading_slashes(key@.skip(i as int)),
        decreases n - i,
    {
        assert(key@.skip(i as int).drop_first() =~= key@.skip(i + 1));
        i = i + 1;
    }
    let mut res = String::from_str(resized_prefix);
    let tail = key.substring_char(i, n);
    assert(tail@ =~= key@.skip(i as int));
    res.append(tail);
    res
}

/// Slashes removed once are removed for good.
pub proof fn lemma_trim_leading_slashes_idempotent(s: Seq<char>)
    ensures
        trim_leading_slashes(trim_leading_slashes(s)) == trim_leading_slashes(s),
        trim_leading_slashes(s).len() == 0 || trim_leading_slashes(s)[0] != '/',
    decreases s.len(),
{
    if s.len() > 0 && s[0] == '/' {
        lemma_trim_leading_slashes_idempotent(s.drop_first());
    }
}

/// A destination key is the resized prefix followed by a part that does not start
/// with a slash, so the two never meet in `//` unless the prefix itself ends in a
/// slash and the part is empty of one.
pub proof fn lemma_destination_key_shape(key: Seq<char>, source_prefix: Seq<char>, resized_prefix: Seq<char>)
    ensures
        has_prefix(destination_key_of(key, source_prefix, resized_prefix), resized_prefix),
        ({
            let tail = destination_key_of(key, source_prefix, resized_prefix).skip(resized_prefix.len() as int);
            tail.len() == 0 || tail[0] != '/'
        }),
{
    lemma_trim_leading_slashes_idempotent(without_prefix(key, source_prefix));
    let d = destination_key_of(key, source_prefix, resized_prefix);
    assert(d.take(resized_prefix.len() as int) =~= resized_prefix);
    assert(d.skip(resized_prefix.len() as int) =~= trim_leading_slashes(without_prefix(key, source_prefix)));
}

/// How many slashes `s` begins with.
pub open spec fn leading_slash_count(s: Seq<char>) -> nat
    decreases s.len(),
{
    if s.len() > 0 && s[0] == '/' {
        1 + leading_slash_count(s.drop_first())
    } else {
        0
    }
}

/// The slashes `s` begins with are its first `leading_slash_count(s)` characters:
/// those are all slashes, and the character after them (if any) is not; dropping the
/// leading slashes drops exactly them.
pub proof fn lemma_leading_slashes(s: Seq<char>)
    ensures
        leading_slash_count(s) <= s.len(),
        forall|j: int| 0 <= j < leading_slash_count(s) ==> s[j] == '/',
        leading_slash_count(s) == s.len() || s[leading_slash_count(s) as int] != '/',
        trim_leading_slashes(s) == s.skip(leading_slash_count(s) as int),
    decreases s.len(),
{
    if s.len() > 0 && s[0] == '/' {
        let t = s.drop_first();
        lemma_leading_slashes(t);
        assert(t.skip(leading_slash_count(t) as int) =~= s.skip(leading_slash_count(s) as int));
        assert forall|j: int| 0 <= j < leading_slash_count(s) implies s[j] == '/' by {
            if j > 0 {
                assert(s[j] == t[j - 1]);
            }
        }
    } else {
        assert(s.skip(0) =~= s);
    }
}

/// The destination key keeps the whole of the source key but its prefix: it is the
/// resized prefix followed by the rest of the key (the key without the source prefix
/// where the key begins with it, the key itself otherwise) with only the slashes it
/// begins with removed. Every other character of the rest is kept, in order, so the
/// key is as long as the resized prefix and that part together.
pub proof fn lemma_destination_key_keeps_rest(key: Seq<char>, source_prefix: Seq<char>, resized_prefix: Seq<char>)
    ensures
        ({
            let rest = if source_prefix.len() <= key.len() && key.take(source_prefix.len() as int) =~= source_prefix {
                key.skip(source_prefix.len() as int)
            } else {
                key
            };
            let k = leading_slash_count(rest) as int;
            let d = destination_key_of(key, source_prefix, resized_prefix);
            &&& d == resized_prefix + rest.skip(k)
            &&& d.len() == resized_prefix.len() + rest.len() - k
            &&& forall|j: int| 0 <= j < k ==> rest[j] == '/'
            &&& k == rest.len() || rest[k] != '/'
        }),
{
    let rest = if source_prefix.len() <= key.len() && key.take(source_prefix.len() as int) =~= source_prefix {
        key.skip(source_prefix.len() as int)
    } else {
        key
    };
    assert(rest == without_prefix(key, source_prefix));
    lemma_leading_slashes(rest);
}

/// A key that begins with the source prefix, followed by a part that does not begin
/// with a slash, is stored under the resized prefix followed by that whole part.
pub proof fn lemma_destination_key_replaces_prefix(source_prefix: Seq<char>, part: Seq<char>, resized_prefix: Seq<char>)
    requires
        part.len() == 0 || part[0] != '/',
    ensures
        destination_key_of(source_prefix + part, source_prefix, resized_prefix) == resized_prefix + part,
{
    let key = source_prefix + part;
    assert(key.take(source_prefix.len() as int) =~= source_prefix);
    assert(key.skip(source_prefix.len() as int) =~= part);
}

/// A key that does not begin with the source prefix, nor with a slash, is stored
/// under the resized prefix followed by the whole key.
pub proof fn lemma_destination_key_without_prefix(key: Seq<char>, source_prefix: Seq<char>, resized_prefix: Seq<char>)
    requires
        !(source_prefix.len() <= key.len() && key.take(source_prefix.len() as int) == source_prefix),
        key.len() == 0 || key[0] != '/',
    ensures
        destination_key_of(key, source_prefix, resized_prefix) == resized_prefix + key,
{
}

#[verifier::external_type_specification]
#[verifier::external_body]
pub struct ExFromUtf8Error(FromUtf8Error);

/// What `urlencoding::decode` gives for a text: the text with each `%` followed by two
/// hexadecimal digits replaced by the byte they encode, read as UTF-8, or `None` when
/// the bytes are not UTF-8.
pub uninterp spec fn url_decoded(raw: Seq<char>) -> Option<Seq<char>>;

/// The text (`FromUtf8Error`'s `Display`) of the error `urlencoding::decode` reports
/// for a text whose decoded bytes are not UTF-8.
pub uninterp spec fn url_decode_error_text(raw: Seq<char>) -> Seq<char>;

/// A failure to decode an object key.
pub struct KeyDecodeFailure {
    error: FromUtf8Error,
    source: Ghost<Seq<char>>,
}

impl KeyDecodeFailure {
    /// The text that failed to decode.
    pub closed spec fn source(&self) -> Seq<char> {
        self.source@
    }
}

/// Calls `urlencoding::decode` and takes the owned text. Claimed: the result is a
/// function of the text alone, named `url_decoded`, a text without `%` is handed
/// back unchanged (the crate returns it borrowed as it is), and a failure keeps the
/// text it came from.
#[verifier::external_body]
pub(crate) fn url_decode(raw: &str) -> (res: Result<String, KeyDecodeFailure>)
    ensures
        match res {
            Ok(s) => url_decoded(raw@) == Some(s@) && (!raw@.contains('%') ==> s@ == raw@),
            Err(f) => url_decoded(raw@) is None && raw@.contains('%') && f.source() == raw@,
        },
{
    match urlencoding::decode(raw) {
        Ok(text) => Ok(text.into_owned()),
        Err(error) => Err(KeyDecodeFailure { error, source: Ghost(raw@) }),
    }
}

/// Calls `FromUtf8Error::to_string` on the error. Claimed: the text is
/// `url_decode_error_text` of the text that failed to decode.
#[verifier::external_body]
pub(crate) fn utf8_error_text(failure: &KeyDecodeFailure) -> (res: String)
    ensures
        res@ == url_decode_error_text(failure.source()),
{
    failure.error.to_string()
}

} // verus!

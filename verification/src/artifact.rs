//! Generated audio files: how they are named, where they lie, and the handle
//! that stands for one of them.
//!
//! A file is named after the MD5 digest of the spoken text followed by the
//! time of the request in microseconds, so that the same text spoken twice
//! gets two names.

use vstd::prelude::*;
use vstd::utf8::encode_utf8;
use crate::numerals::{
    decimal,
    hex_lower,
    is_hex_digit,
    lemma_decimal_injective,
    lemma_hex_digits,
    lemma_hex_injective,
    push_decimal,
    push_hex,
};
use crate::text::{
    after_last,
    chars_of,
    find_after_last,
    lemma_last_index,
    lemma_last_index_bounds,
    string_of,
};

verus! {

/// The MD5 digest of `data`, as the `md5` crate computes it.
pub uninterp spec fn md5_digest(data: Seq<u8>) -> Seq<u8>;

/// `md5::compute` of the `md5` crate: the sixteen bytes it returns for `data`
/// are the digest of `data`. The digest depends on the bytes alone; how it
/// is computed is not restated here, and nothing about it is proved.
#[verifier::external_body]
fn md5_compute(data: &[u8]) -> (digest: [u8; 16])
    ensures
        digest@ == md5_digest(data@),
{
    md5::compute(data).0
}

/// The bytes that are hashed for `text` spoken at `now`: the UTF-8 encoding
/// of the text followed by the decimal numeral of the time.
pub open spec fn hash_input(text: Seq<char>, now: nat) -> Seq<u8> {
    encode_utf8(text + decimal(now))
}

/// The file name for a digest: its hexadecimal rendering and `.wav`.
pub open spec fn artifact_name(digest: Seq<u8>) -> Seq<char> {
    hex_lower(digest) + ".wav"@
}

/// The path of the file `name` in the directory `dir`.
pub open spec fn scratch_path(dir: Seq<char>, name: Seq<char>) -> Seq<char> {
    if dir.len() == 0 {
        name
    } else if dir.last() == '/' {
        dir + name
    } else {
        dir + seq!['/'] + name
    }
}

/// Whether `name` names a file directly in a directory: it is not empty, is
/// neither `.` nor `..`, and holds no `/`.
pub open spec fn is_plain_name(name: Seq<char>) -> bool {
    &&& name.len() > 0
    &&& name != seq!['.']
    &&& name != seq!['.', '.']
    &&& !name.contains('/')
}

/// The same text at two different times is hashed from two different inputs.
pub proof fn lemma_hash_input_differs(text: Seq<char>, a: nat, b: nat)
    requires
        a != b,
    ensures
        hash_input(text, a) != hash_input(text, b),
{
    if hash_input(text, a) == hash_input(text, b) {
        vstd::utf8::encode_utf8_decode_utf8(text + decimal(a));
        vstd::utf8::encode_utf8_decode_utf8(text + decimal(b));
        assert(text + decimal(a) == text + decimal(b));
        assert(decimal(a) =~= (text + decimal(a)).skip(text.len() as int));
        assert(decimal(b) =~= (text + decimal(b)).skip(text.len() as int));
        lemma_decimal_injective(a, b);
    }
}

/// Two digests have the same file name only if they are the same digest.
pub proof fn lemma_artifact_name_injective(a: Seq<u8>, b: Seq<u8>)
    requires
        artifact_name(a) == artifact_name(b),
    ensures
        a == b,
{
    reveal_strlit(".wav");
    let x = artifact_name(a);
    let y = artifact_name(b);
    lemma_hex_digits(a);
    lemma_hex_digits(b);
    assert(x.len() == 2 * a.len() + 4);
    assert(y.len() == 2 * b.len() + 4);
    assert(hex_lower(a) =~= x.take(2 * a.len() as int));
    assert(hex_lower(b) =~= y.take(2 * b.len() as int));
    lemma_hex_injective(a, b);
}

/// The file name of a digest is a plain name, whatever the digest.
pub proof fn lemma_artifact_name_is_plain(digest: Seq<u8>)
    ensures
        is_plain_name(artifact_name(digest)),
        artifact_name(digest).len() == 2 * digest.len() + 4,
{
    reveal_strlit(".wav");
    let name = artifact_name(digest);
    lemma_hex_digits(digest);
    assert(name.len() == 2 * digest.len() + 4);
    assert forall|i: int| 0 <= i < name.len() implies name[i] != '/' by {
        if i < 2 * digest.len() {
            assert(name[i] == hex_lower(digest)[i]);
            assert(is_hex_digit(hex_lower(digest)[i]));
        } else {
            assert(name[i] == ".wav"@[i - 2 * digest.len()]);
        }
    }
}

/// The last component of the path of a plain name is that name.
pub proof fn lemma_scratch_path_file_name(dir: Seq<char>, name: Seq<char>)
    requires
        !name.contains('/'),
        dir.len() > 0,
    ensures
        after_last(scratch_path(dir, name), '/') == name,
{
    let path = scratch_path(dir, name);
    let cut = path.len() - name.len();
    assert(path[cut - 1] == '/');
    assert forall|j: int| cut - 1 < j < path.len() implies path[j] != '/' by {
        assert(path[j] == name[j - cut]);
        assert(name.contains(name[j - cut]));
    }
    lemma_last_index(path, '/', cut - 1);
    assert(path.skip(cut) =~= name);
}

/// The file name for `digest`.
pub fn artifact_file_name(digest: &[u8; 16]) -> (name: String)
    ensures
        name@ == artifact_name(digest@),
{
    let mut name = String::new();
    push_hex(&mut name, digest.as_slice());
    name.append(".wav");
    assert(name@ =~= artifact_name(digest@));
    name
}

/// The digest that names the file for `text` spoken at `now`.
pub fn digest_of(text: &str, now: u128) -> (digest: [u8; 16])
    ensures
        digest@ == md5_digest(hash_input(text@, now as nat)),
{
    let mut input = text.to_owned();
    push_decimal(&mut input, now);
    md5_compute(input.as_str().as_bytes())
}

/// The path of the file `name` in the directory `dir`.
pub fn join_scratch(dir: &str, name: &str) -> (path: String)
    ensures
        path@ == scratch_path(dir@, name@),
{
    let d = chars_of(dir);
    let mut path = dir.to_owned();
    if d.len() > 0 && d[d.len() - 1] != '/' {
        path.push('/');
    }
    path.append(name);
    assert(path@ =~= scratch_path(dir@, name@));
    path
}

/// One generated audio file: the text that was spoken and where the file
/// lies. Whoever holds the handle owns the file and has to see it removed.
#[derive(Debug)]
pub struct TtsSentence {
    pub text: String,
    pub path: String,
}

/// What a `TtsSentence` stands for.
pub struct TtsSentenceView {
    pub text: Seq<char>,
    pub path: Seq<char>,
}

impl View for TtsSentence {
    type V = TtsSentenceView;

    open spec fn view(&self) -> TtsSentenceView {
        TtsSentenceView { text: self.text@, path: self.path@ }
    }
}

impl TtsSentence {
    /// The handle for the file at `path` that speaks `text`.
    pub fn new(path: &str, text: &str) -> (sentence: TtsSentence)
        ensures
            sentence@ == (TtsSentenceView { text: text@, path: path@ }),
    {
        TtsSentence { text: text.to_owned(), path: path.to_owned() }
    }

    /// The last component of the file's path.
    pub fn file_name(&self) -> (name: String)
        ensures
            name@ == after_last(self@.path, '/'),
    {
        let chars = chars_of(self.path.as_str());
        let from = find_after_last(&chars, '/');
        proof {
            lemma_last_index_bounds(chars@, '/');
        }
        string_of(&chars, from, chars.len())
    }
}

} // verus!

//! The query part of a URL: what follows the first `?`, as parameters that
//! `&` separates.

use vstd::prelude::*;
use vstd::string::StringSliceAdditionalSpecFns;
use vstd::utf8::encode_utf8;
use crate::paths::option_text;
use crate::percent::{unescape, unescape_range};
use crate::text::{string_from_utf8_lossy, text_of_bytes, texts};

verus! {

/// The byte `?`.
pub const QUESTION_MARK: u8 = 0x3f;

/// The byte `&`.
pub const AMPERSAND: u8 = 0x26;

/// The position of the first `byte` in `bytes`, or the length of `bytes` if
/// there is none.
pub open spec fn first_index(bytes: Seq<u8>, byte: u8) -> int
    decreases bytes.len(),
{
    if bytes.len() == 0 || bytes[0] == byte {
        0
    } else {
        1 + first_index(bytes.skip(1), byte)
    }
}

/// [`first_index`] points at the first occurrence or at the end.
pub proof fn lemma_first_index(bytes: Seq<u8>, byte: u8)
    ensures
        0 <= first_index(bytes, byte) <= bytes.len(),
        first_index(bytes, byte) < bytes.len() ==> bytes[first_index(bytes, byte)] == byte,
        forall|i: int| 0 <= i < first_index(bytes, byte) ==> bytes[i] != byte,
    decreases bytes.len(),
{
    if !(bytes.len() == 0 || bytes[0] == byte) {
        lemma_first_index(bytes.skip(1), byte);
        assert forall|i: int| 0 <= i < first_index(bytes, byte) implies bytes[i] != byte by {
            if i > 0 {
                assert(bytes.skip(1)[i - 1] == bytes[i]);
            }
        }
    }
}

/// Finds the first `byte` at or after `from` and before `to`; the result is
/// `to` if there is none.
pub fn find_byte(bytes: &[u8], from: usize, to: usize, byte: u8) -> (at: usize)
    requires
        from <= to <= bytes@.len(),
    ensures
        at == from + first_index(bytes@.subrange(from as int, to as int), byte),
        from <= at <= to,
{
    let mut i: usize = from;
    while i < to && bytes[i] != byte
        invariant
            from <= i <= to <= bytes@.len(),
            first_index(bytes@.subrange(from as int, to as int), byte) == (i - from) + first_index(
                bytes@.subrange(i as int, to as int),
                byte,
            ),
        decreases to - i,
    {
        assert(bytes@.subrange(i as int, to as int).skip(1) =~= bytes@.subrange(
            i + 1,
            to as int,
        ));
        i += 1;
    }
    proof {
        lemma_first_index(bytes@.subrange(i as int, to as int), byte);
    }
    i
}

/// Tells whether the bytes from `from` up to `to` begin with `prefix`.
pub fn starts_with_at(bytes: &[u8], from: usize, to: usize, prefix: &[u8]) -> (found: bool)
    requires
        from <= to <= bytes@.len(),
    ensures
        found == prefix@.is_prefix_of(bytes@.subrange(from as int, to as int)),
{
    let n = prefix.len();
    if n > to - from {
        return false;
    }
    let ghost part = bytes@.subrange(from as int, to as int);
    let mut i: usize = 0;
    while i < n
        invariant
            i <= n,
            n == prefix@.len(),
            n <= to - from,
            from <= to <= bytes@.len(),
            part == bytes@.subrange(from as int, to as int),
            forall|j: int| 0 <= j < i ==> prefix@[j] == part[j],
        decreases n - i,
    {
        if bytes[from + i] != prefix[i] {
            assert(part.subrange(0, n as int)[i as int] != prefix@[i as int]);
            return false;
        }
        i += 1;
    }
    assert(prefix@ =~= part.subrange(0, n as int));
    true
}

/// What follows the first `?` of `url`, if there is one.
pub open spec fn query_of(url: Seq<u8>) -> Option<Seq<u8>> {
    let at = first_index(url, QUESTION_MARK);
    if 0 <= at < url.len() {
        Some(url.skip(at + 1))
    } else {
        None
    }
}

/// The bytes of `file=`, the beginning of a parameter that names a file.
pub open spec fn file_prefix() -> Seq<u8> {
    encode_utf8("file="@)
}

/// The file that `param` names: the percent-decoded text behind `file=`. A
/// parameter that begins otherwise names none, and neither does one that
/// decodes to nothing.
pub open spec fn param_file(param: Seq<u8>) -> Option<Seq<char>> {
    if file_prefix().is_prefix_of(param) {
        let file = text_of_bytes(unescape(param.skip(file_prefix().len() as int)));
        if file.len() > 0 {
            Some(file)
        } else {
            None
        }
    } else {
        None
    }
}

/// The files that the parameters of `query` name, in their order.
pub open spec fn query_files(query: Seq<u8>) -> Seq<Seq<char>>
    decreases query.len(),
{
    let end = first_index(query, AMPERSAND);
    let head = match param_file(query.take(end)) {
        Some(file) => seq![file],
        None => Seq::empty(),
    };
    if 0 <= end < query.len() {
        head + query_files(query.skip(end + 1))
    } else {
        head
    }
}

/// Whether one of the parameters of `query` is exactly `param`.
pub open spec fn query_has_param(query: Seq<u8>, param: Seq<u8>) -> bool
    decreases query.len(),
{
    let end = first_index(query, AMPERSAND);
    query.take(end) == param || (0 <= end < query.len() && query_has_param(
        query.skip(end + 1),
        param,
    ))
}

fn read_file_param(bytes: &[u8], from: usize, to: usize) -> (file: Option<String>)
    requires
        from <= to <= bytes@.len(),
    ensures
        option_text(file) == param_file(bytes@.subrange(from as int, to as int)),
{
    let prefix = "file=".as_bytes();
    if starts_with_at(bytes, from, to, prefix) {
        let ghost param = bytes@.subrange(from as int, to as int);
        assert(param.skip(prefix@.len() as int) =~= bytes@.subrange(
            from + prefix@.len(),
            to as int,
        ));
        let raw = unescape_range(bytes, from + prefix.len(), to);
        let file = string_from_utf8_lossy(&raw);
        if file.as_str().is_empty() {
            None
        } else {
            Some(file)
        }
    } else {
        None
    }
}

/// Reads the files that the parameters between `from` and `to` name.
pub fn read_query_files(bytes: &[u8], from: usize, to: usize) -> (files: Vec<String>)
    requires
        from <= to <= bytes@.len(),
    ensures
        texts(files@) == query_files(bytes@.subrange(from as int, to as int)),
{
    let mut files: Vec<String> = Vec::new();
    let mut start: usize = from;
    let mut done = false;
    assert(texts(files@) =~= Seq::empty());
    while !done
        invariant
            from <= start <= to <= bytes@.len(),
            !done ==> texts(files@) + query_files(bytes@.subrange(start as int, to as int))
                == query_files(bytes@.subrange(from as int, to as int)),
            done ==> texts(files@) == query_files(bytes@.subrange(from as int, to as int)),
        decreases to - start + (if done { 0int } else { 1int }),
    {
        let ghost rest = bytes@.subrange(start as int, to as int);
        let ghost before = texts(files@);
        let end = find_byte(bytes, start, to, AMPERSAND);
        assert(rest.take(end - start) =~= bytes@.subrange(start as int, end as int));
        match read_file_param(bytes, start, end) {
            Some(file) => {
                files.push(file);
                assert(texts(files@) =~= before + seq![file@]);
            },
            None => {
                assert(texts(files@) =~= before + Seq::<Seq<char>>::empty());
            },
        }
        if end < to {
            assert(rest.skip(end - start + 1) =~= bytes@.subrange(end + 1, to as int));
            assert(texts(files@) + query_files(bytes@.subrange(end + 1, to as int)) =~= before
                + query_files(rest));
            start = end + 1;
        } else {
            done = true;
        }
    }
    files
}

/// Tells whether one of the parameters between `from` and `to` is exactly
/// `param`.
pub fn has_query_param(bytes: &[u8], from: usize, to: usize, param: &[u8]) -> (found: bool)
    requires
        from <= to <= bytes@.len(),
    ensures
        found == query_has_param(bytes@.subrange(from as int, to as int), param@),
{
    let mut start: usize = from;
    let mut done = false;
    let mut found = false;
    while !done
        invariant
            from <= start <= to <= bytes@.len(),
            !done ==> !found && query_has_param(bytes@.subrange(start as int, to as int), param@)
                == query_has_param(bytes@.subrange(from as int, to as int), param@),
            done ==> found == query_has_param(bytes@.subrange(from as int, to as int), param@),
        decreases to - start + (if done { 0int } else { 1int }),
    {
        let ghost rest = bytes@.subrange(start as int, to as int);
        let end = find_byte(bytes, start, to, AMPERSAND);
        assert(rest.take(end - start) =~= bytes@.subrange(start as int, end as int));
        let ghost segment = bytes@.subrange(start as int, end as int);
        let same = end - start == param.len() && starts_with_at(bytes, start, end, param);
        proof {
            if end - start == param@.len() {
                assert(segment.subrange(0, param@.len() as int) =~= segment);
            }
            assert(same == (segment == param@));
        }
        if same {
            found = true;
            done = true;
        } else if end < to {
            assert(rest.skip(end - start + 1) =~= bytes@.subrange(end + 1, to as int));
            start = end + 1;
        } else {
            done = true;
        }
    }
    found
}

} // verus!

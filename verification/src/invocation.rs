//! How the process was asked to do something: the typed description of one
//! invocation, and the parsers that make it from a command line or a URL.
//!
//! Parsing never fails. Input that names no image is an empty invocation.

use vstd::prelude::*;
use vstd::string::StringExecFns;
use vstd::string::StringSliceAdditionalSpecFns;
use vstd::utf8::encode_utf8;
use crate::paths::option_text;
use crate::percent::percent_decoded;
use crate::query::{
    find_byte,
    has_query_param,
    query_files,
    query_has_param,
    query_of,
    read_query_files,
    starts_with_at,
    QUESTION_MARK,
};
use crate::text::{ends_with, lowercase_of, str_ends_with, str_equal, texts, to_lowercase};

verus! {

/// What one invocation of the process asks for.
#[derive(Debug, Clone, PartialEq, Eq)]
pub enum Invocation {
    /// Show these files in the interface; the user decides what happens next.
    FilesToOpen(Vec<String>),
    /// Compress these files without showing anything but a notification.
    FilesToCompressSilently(Vec<String>),
    /// Show these files in the interface and compress them at once.
    FilesToCompressForeground(Vec<String>),
    /// Nothing to do but to come to the front.
    Empty,
}

/// An invocation over character sequences.
pub enum InvocationView {
    FilesToOpen(Seq<Seq<char>>),
    FilesToCompressSilently(Seq<Seq<char>>),
    FilesToCompressForeground(Seq<Seq<char>>),
    Empty,
}

impl View for Invocation {
    type V = InvocationView;

    open spec fn view(&self) -> InvocationView {
        match *self {
            Invocation::FilesToOpen(files) => InvocationView::FilesToOpen(texts(files@)),
            Invocation::FilesToCompressSilently(files) => InvocationView::FilesToCompressSilently(
                texts(files@),
            ),
            Invocation::FilesToCompressForeground(files) =>
                InvocationView::FilesToCompressForeground(texts(files@)),
            Invocation::Empty => InvocationView::Empty,
        }
    }
}

impl InvocationView {
    /// The files that the invocation names.
    pub open spec fn files(self) -> Seq<Seq<char>> {
        match self {
            InvocationView::FilesToOpen(files) => files,
            InvocationView::FilesToCompressSilently(files) => files,
            InvocationView::FilesToCompressForeground(files) => files,
            InvocationView::Empty => Seq::empty(),
        }
    }
}

/// Whether lower-case text ends like the name of an image: with `png`,
/// `jpg`, `jpeg` or `webp`.
pub open spec fn has_image_suffix(lower: Seq<char>) -> bool {
    ||| ends_with(lower, "png"@)
    ||| ends_with(lower, "jpg"@)
    ||| ends_with(lower, "jpeg"@)
    ||| ends_with(lower, "webp"@)
}

/// Whether `path` counts as an image: its lower-case form ends like the name
/// of one. Whether such a file exists is not asked.
pub open spec fn image_path(path: Seq<char>) -> bool {
    has_image_suffix(lowercase_of(path))
}

/// Those of `paths` that count as images, in their order.
pub open spec fn image_files(paths: Seq<Seq<char>>) -> Seq<Seq<char>> {
    paths.filter(|path: Seq<char>| image_path(path))
}

/// The flag that asks for silent compression.
pub open spec fn compress_flag() -> Seq<char> {
    "--compress"@
}

/// The tokens of a command line that are not the flag.
pub open spec fn without_flag(tokens: Seq<Seq<char>>) -> Seq<Seq<char>> {
    tokens.filter(|token: Seq<char>| token != compress_flag())
}

/// The invocation that a command line stands for, the program's own path
/// left out: the images among the tokens other than the flag, to be
/// compressed silently if the flag is anywhere among the tokens and to be
/// opened if it is not.
pub open spec fn argv_invocation(tokens: Seq<Seq<char>>) -> InvocationView {
    let files = image_files(without_flag(tokens));
    if files.len() == 0 {
        InvocationView::Empty
    } else if tokens.contains(compress_flag()) {
        InvocationView::FilesToCompressSilently(files)
    } else {
        InvocationView::FilesToOpen(files)
    }
}

/// The files that the query of `url` names, percent-decoded, as far as they
/// count as images.
pub open spec fn url_files(url: Seq<char>) -> Seq<Seq<char>> {
    match query_of(encode_utf8(url)) {
        Some(query) => image_files(query_files(query)),
        None => Seq::empty(),
    }
}

/// Whether the query of `url` holds the parameter `background=1`.
pub open spec fn wants_background(url: Seq<char>) -> bool {
    match query_of(encode_utf8(url)) {
        Some(query) => query_has_param(query, encode_utf8("background=1"@)),
        None => false,
    }
}

/// Whether `url` begins with `file://`.
pub open spec fn is_file_url(url: Seq<char>) -> bool {
    encode_utf8("file://"@).is_prefix_of(encode_utf8(url))
}

/// The path that the `url` crate makes of a `file:` URL: what `Url::parse`
/// followed by `Url::to_file_path` returns for `url`, or `None` where either
/// of them fails.
pub uninterp spec fn file_url_path(url: Seq<char>) -> Option<Seq<char>>;

/// Calls `url::Url::parse` and, on the URL it returns,
/// `url::Url::to_file_path`. The contract only gives the result its name: the
/// same text always gives the same path, or none.
#[verifier::external_body]
pub(crate) fn file_url_to_path(url: &str) -> (path: Option<String>)
    ensures
        option_text(path) == file_url_path(url@),
{
    let parsed = url::Url::parse(url).ok()?;
    let path = parsed.to_file_path().ok()?;
    Some(path.to_string_lossy().into_owned())
}

/// The invocation that a `file:` URL stands for, given the path that was made
/// of it: the path is opened if it counts as an image.
pub open spec fn file_invocation(path: Option<Seq<char>>) -> InvocationView {
    match path {
        Some(path) => if image_path(path) {
            InvocationView::FilesToOpen(seq![path])
        } else {
            InvocationView::Empty
        },
        None => InvocationView::Empty,
    }
}

/// The invocation that a URL stands for. A `file://` URL names one file to
/// open. Any other URL is taken for the application's own scheme: the files
/// of its query are compressed, silently if the query says `background=1` and
/// with the interface if it does not.
pub open spec fn url_invocation(url: Seq<char>) -> InvocationView {
    if is_file_url(url) {
        file_invocation(file_url_path(url))
    } else {
        let files = url_files(url);
        if files.len() == 0 {
            InvocationView::Empty
        } else if wants_background(url) {
            InvocationView::FilesToCompressSilently(files)
        } else {
            InvocationView::FilesToCompressForeground(files)
        }
    }
}

/// Tells whether lower-case text ends like the name of an image.
pub fn has_image_extension(lower: &str) -> (found: bool)
    ensures
        found == has_image_suffix(lower@),
{
    str_ends_with(lower, "png") || str_ends_with(lower, "jpg") || str_ends_with(lower, "jpeg")
        || str_ends_with(lower, "webp")
}

/// Tells whether `path` counts as an image.
pub fn is_image_path(path: &str) -> (found: bool)
    ensures
        found == image_path(path@),
{
    let lower = to_lowercase(path);
    has_image_extension(lower.as_str())
}

/// Keeps those of `args` that count as images, in their order.
pub fn filter_image_args(args: Vec<String>) -> (images: Vec<String>)
    ensures
        texts(images@) == image_files(texts(args@)),
{
    let ghost keep = |path: Seq<char>| image_path(path);
    let mut images: Vec<String> = Vec::new();
    let mut i: usize = 0;
    assert(texts(args@).take(0).filter(keep) =~= Seq::empty()) by {
        reveal(Seq::filter);
    }
    assert(texts(images@) =~= Seq::empty());
    while i < args.len()
        invariant
            i <= args.len(),
            keep == |path: Seq<char>| image_path(path),
            texts(images@) == texts(args@).take(i as int).filter(keep),
        decreases args.len() - i,
    {
        let ghost before = texts(images@);
        proof {
            texts(args@).take(i as int).lemma_filter_push(args[i as int]@, keep);
            assert(texts(args@).take(i as int).push(args[i as int]@) =~= texts(args@).take(
                i + 1,
            ));
        }
        if is_image_path(args[i].as_str()) {
            images.push(args[i].clone());
            assert(texts(images@) =~= before.push(args[i as int]@));
        }
        i += 1;
    }
    assert(texts(args@).take(i as int) =~= texts(args@));
    images
}

fn remove_flag(raw: &Vec<String>) -> (out: (bool, Vec<String>))
    ensures
        out.0 == texts(raw@).contains(compress_flag()),
        texts(out.1@) == without_flag(texts(raw@)),
{
    let ghost keep = |token: Seq<char>| token != compress_flag();
    let mut rest: Vec<String> = Vec::new();
    let mut seen = false;
    let mut i: usize = 0;
    assert(texts(raw@).take(0).filter(keep) =~= Seq::empty()) by {
        reveal(Seq::filter);
    }
    assert(texts(rest@) =~= Seq::empty());
    while i < raw.len()
        invariant
            i <= raw.len(),
            keep == |token: Seq<char>| token != compress_flag(),
            texts(rest@) == texts(raw@).take(i as int).filter(keep),
            seen == texts(raw@).take(i as int).contains(compress_flag()),
        decreases raw.len() - i,
    {
        let ghost before = texts(rest@);
        let ghost prefix = texts(raw@).take(i as int);
        let ghost longer = texts(raw@).take(i + 1);
        proof {
            prefix.lemma_filter_push(raw[i as int]@, keep);
            assert(prefix.push(raw[i as int]@) =~= longer);
        }
        if str_equal(raw[i].as_str(), "--compress") {
            seen = true;
            assert(longer[i as int] == compress_flag());
        } else {
            rest.push(raw[i].clone());
            assert(texts(rest@) =~= before.push(raw[i as int]@));
            proof {
                if longer.contains(compress_flag()) {
                    let k = choose|k: int| 0 <= k < longer.len() && longer[k] == compress_flag();
                    assert(prefix[k] == compress_flag());
                }
                if prefix.contains(compress_flag()) {
                    let k = choose|k: int| 0 <= k < prefix.len() && prefix[k] == compress_flag();
                    assert(longer[k] == compress_flag());
                }
            }
        }
        i += 1;
    }
    assert(texts(raw@).take(i as int) =~= texts(raw@));
    (seen, rest)
}

/// Splits a command line, the program's own path left out, into the answer
/// to "is the flag there?" and the images among the other tokens.
pub fn parse_args(raw: Vec<String>) -> (parsed: (bool, Vec<String>))
    ensures
        parsed.0 == texts(raw@).contains(compress_flag()),
        texts(parsed.1@) == image_files(without_flag(texts(raw@))),
{
    let (is_compress, rest) = remove_flag(&raw);
    (is_compress, filter_image_args(rest))
}

/// Reads a command line, the program's own path left out.
pub fn parse_argv(tokens: Vec<String>) -> (invocation: Invocation)
    ensures
        invocation@ == argv_invocation(texts(tokens@)),
{
    let (is_compress, files) = parse_args(tokens);
    if files.len() == 0 {
        Invocation::Empty
    } else if is_compress {
        Invocation::FilesToCompressSilently(files)
    } else {
        Invocation::FilesToOpen(files)
    }
}

/// Reads the files that the query of a URL names.
pub fn parse_files_from_url(url: &str) -> (files: Vec<String>)
    ensures
        texts(files@) == url_files(url@),
{
    let bytes = url.as_bytes();
    let len = bytes.len();
    assert(bytes@.subrange(0, len as int) =~= bytes@);
    let mark = find_byte(bytes, 0, len, QUESTION_MARK);
    if mark == len {
        let files: Vec<String> = Vec::new();
        assert(texts(files@) =~= Seq::empty());
        files
    } else {
        assert(bytes@.skip(mark + 1) =~= bytes@.subrange(mark + 1, len as int));
        filter_image_args(read_query_files(bytes, mark + 1, len))
    }
}

/// Tells whether the query of a URL asks for silent compression.
pub fn url_wants_background(url: &str) -> (background: bool)
    ensures
        background == wants_background(url@),
{
    let bytes = url.as_bytes();
    let len = bytes.len();
    assert(bytes@.subrange(0, len as int) =~= bytes@);
    let mark = find_byte(bytes, 0, len, QUESTION_MARK);
    if mark == len {
        false
    } else {
        assert(bytes@.skip(mark + 1) =~= bytes@.subrange(mark + 1, len as int));
        has_query_param(bytes, mark + 1, len, "background=1".as_bytes())
    }
}

/// Makes the invocation of a `file:` URL from the path that was found in it.
pub fn open_file_path(path: Option<String>) -> (invocation: Invocation)
    ensures
        invocation@ == file_invocation(option_text(path)),
{
    match path {
        Some(path) => if is_image_path(path.as_str()) {
            let mut files: Vec<String> = Vec::new();
            files.push(path);
            assert(texts(files@) =~= seq![path@]);
            Invocation::FilesToOpen(files)
        } else {
            Invocation::Empty
        },
        None => Invocation::Empty,
    }
}

/// Reads a URL that the process was opened with.
pub fn parse_url(url: &str) -> (invocation: Invocation)
    ensures
        invocation@ == url_invocation(url@),
{
    let bytes = url.as_bytes();
    assert(bytes@.subrange(0, bytes@.len() as int) =~= bytes@);
    if starts_with_at(bytes, 0, bytes.len(), "file://".as_bytes()) {
        open_file_path(file_url_to_path(url))
    } else {
        let files = parse_files_from_url(url);
        if files.len() == 0 {
            Invocation::Empty
        } else if url_wants_background(url) {
            Invocation::FilesToCompressSilently(files)
        } else {
            Invocation::FilesToCompressForeground(files)
        }
    }
}

/// Where the flag stands among the tokens of a command line makes no
/// difference: putting it in at one place gives the same invocation as
/// putting it in at any other.
pub proof fn lemma_flag_position_is_irrelevant(tokens: Seq<Seq<char>>, i: int, j: int)
    requires
        0 <= i <= tokens.len(),
        0 <= j <= tokens.len(),
    ensures
        argv_invocation(tokens.insert(i, compress_flag())) == argv_invocation(
            tokens.insert(j, compress_flag()),
        ),
        image_files(without_flag(tokens.insert(i, compress_flag()))) == image_files(
            without_flag(tokens),
        ),
{
    lemma_without_inserted_flag(tokens, i);
    lemma_without_inserted_flag(tokens, j);
    assert(tokens.insert(i, compress_flag())[i] == compress_flag());
    assert(tokens.insert(j, compress_flag())[j] == compress_flag());
}

proof fn lemma_without_inserted_flag(tokens: Seq<Seq<char>>, i: int)
    requires
        0 <= i <= tokens.len(),
    ensures
        without_flag(tokens.insert(i, compress_flag())) == without_flag(tokens),
{
    let keep = |token: Seq<char>| token != compress_flag();
    let front = tokens.subrange(0, i);
    let back = tokens.subrange(i, tokens.len() as int);
    assert(tokens.insert(i, compress_flag()) =~= front.push(compress_flag()) + back);
    assert(tokens =~= front + back);
    Seq::filter_distributes_over_add(front.push(compress_flag()), back, keep);
    Seq::filter_distributes_over_add(front, back, keep);
    front.lemma_filter_push(compress_flag(), keep);
}

/// Filtering keeps the order of what survives: the images of two lists put
/// together are the images of the first followed by the images of the
/// second, and so are the files of two command lines put together.
pub proof fn lemma_filter_keeps_order(first: Seq<Seq<char>>, second: Seq<Seq<char>>)
    ensures
        image_files(first + second) == image_files(first) + image_files(second),
        image_files(without_flag(first + second)) == image_files(without_flag(first))
            + image_files(without_flag(second)),
{
    let is_image = |path: Seq<char>| image_path(path);
    let keep = |token: Seq<char>| token != compress_flag();
    Seq::filter_distributes_over_add(first, second, is_image);
    Seq::filter_distributes_over_add(first, second, keep);
    Seq::filter_distributes_over_add(first.filter(keep), second.filter(keep), is_image);
}

/// `places` tells for each element of `kept` where it stands in `paths`:
/// every place holds an image, and the places go upwards.
pub open spec fn is_ordered_selection(
    places: Seq<int>,
    paths: Seq<Seq<char>>,
    kept: Seq<Seq<char>>,
) -> bool {
    &&& places.len() == kept.len()
    &&& forall|k: int|
        0 <= k < places.len() ==> 0 <= #[trigger] places[k] < paths.len() && paths[places[k]]
            == kept[k] && image_path(paths[places[k]])
    &&& forall|k: int, l: int|
        0 <= k < l < places.len() ==> #[trigger] places[k] < #[trigger] places[l]
}

/// Every file that survives filtering stood in the input and counts as an
/// image, and the files come out in the order in which they went in.
pub proof fn lemma_filter_is_ordered_selection(paths: Seq<Seq<char>>)
    ensures
        exists|places: Seq<int>| #[trigger] is_ordered_selection(places, paths, image_files(paths)),
    decreases paths.len(),
{
    reveal(Seq::filter);
    if paths.len() == 0 {
        assert(is_ordered_selection(Seq::<int>::empty(), paths, image_files(paths)));
    } else {
        let front = paths.drop_last();
        lemma_filter_is_ordered_selection(front);
        let places = choose|places: Seq<int>| #[trigger]
            is_ordered_selection(places, front, image_files(front));
        if image_path(paths.last()) {
            let longer = places.push(paths.len() - 1);
            assert(image_files(paths) == image_files(front).push(paths.last()));
            assert forall|k: int| 0 <= k < longer.len() implies 0 <= #[trigger] longer[k]
                < paths.len() && paths[longer[k]] == image_files(paths)[k] && image_path(
                paths[longer[k]],
            ) by {
                if k < places.len() {
                    assert(longer[k] == places[k]);
                    assert(front[places[k]] == paths[places[k]]);
                }
            }
            assert forall|k: int, l: int| 0 <= k < l < longer.len() implies #[trigger] longer[k]
                < #[trigger] longer[l] by {
                assert(longer[k] == places[k]);
                assert(places[k] < front.len());
                if l < places.len() {
                    assert(longer[l] == places[l]);
                }
            }
            assert(is_ordered_selection(longer, paths, image_files(paths)));
        } else {
            assert(image_files(paths) == image_files(front));
            assert forall|k: int| 0 <= k < places.len() implies 0 <= #[trigger] places[k]
                < paths.len() && paths[places[k]] == image_files(paths)[k] && image_path(
                paths[places[k]],
            ) by {
                assert(front[places[k]] == paths[places[k]]);
            }
            assert(is_ordered_selection(places, paths, image_files(paths)));
        }
    }
}

/// Filtering looks at a path only through its lower-case form: two paths
/// that differ in nothing but the case of their letters are both kept or
/// both dropped.
pub proof fn lemma_filter_ignores_case(first: Seq<char>, second: Seq<char>)
    requires
        lowercase_of(first) == lowercase_of(second),
    ensures
        image_path(first) == image_path(second),
{
}

} // verus!

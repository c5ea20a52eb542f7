use vstd::prelude::*;
use rand::Rng;

verus! {

/// rand's thread-local generator.
#[verifier::external_type_specification]
#[verifier::external_body]
pub struct ExThreadRng(rand::ThreadRng);

/// An ASCII letter or digit: the characters of which rand's
/// `gen_ascii_chars` draws its text.
pub open spec fn is_alnum_char(c: char) -> bool {
    ||| ('A' as u32) <= (c as u32) <= ('Z' as u32)
    ||| ('a' as u32) <= (c as u32) <= ('z' as u32)
    ||| ('0' as u32) <= (c as u32) <= ('9' as u32)
}

/// `rand::thread_rng`: a handle on the generator of the running thread.
/// Nothing is promised of its state. rand panics here when the operating
/// system gives no entropy at all; no argument can rule that out, so the
/// contract does not mention it.
#[verifier::external_body]
pub(crate) fn fresh_rng() -> rand::ThreadRng {
    rand::thread_rng()
}

/// `Rng::gen_range` on `usize`: rand asserts `low < high` and draws from the
/// half-open range `[low, high)`. Which number comes out is left open.
#[verifier::external_body]
pub(crate) fn gen_range(rng: &mut rand::ThreadRng, low: usize, high: usize) -> (r: usize)
    requires
        low < high,
    ensures
        low <= r < high,
{
    rng.gen_range(low, high)
}

/// `Rng::gen_ascii_chars`, of which the first `length` characters are taken:
/// rand's generator never ends and yields letters `A-Z`, `a-z` and digits
/// `0-9`, so the text has exactly `length` such characters. Which ones is
/// left open.
#[verifier::external_body]
fn gen_ascii_text(rng: &mut rand::ThreadRng, length: usize) -> (s: String)
    ensures
        s@.len() == length,
        forall|i: int| 0 <= i < length ==> is_alnum_char(#[trigger] s@[i]),
{
    rng.gen_ascii_chars().take(length).collect()
}

/// `Rng::choose`: on a slice that is not empty rand returns one of its
/// elements. Which one is left open.
#[verifier::external_body]
fn choose_one<'a, T>(rng: &mut rand::ThreadRng, values: &'a [T]) -> (r: &'a T)
    requires
        values@.len() > 0,
    ensures
        values@.contains(*r),
{
    rng.choose(values).unwrap()
}

/// `Rng::fill_bytes`: overwrites every byte with a random one. The length is
/// kept; the bytes are left open.
#[verifier::external_body]
fn fill_bytes(rng: &mut rand::ThreadRng, data: &mut Vec<u8>)
    ensures
        final(data)@.len() == old(data)@.len(),
{
    rng.fill_bytes(data)
}

/// A name of a path segment: five to nineteen letters and digits.
pub open spec fn is_alnum_word(w: Seq<char>) -> bool {
    &&& 5 <= w.len() < 20
    &&& forall|i: int| 0 <= i < w.len() ==> is_alnum_char(#[trigger] w[i])
}

/// The extensions of the pictures that the cache puzzle hides.
pub open spec fn is_picture_extension(e: Seq<char>) -> bool {
    ||| e == "jpg"@
    ||| e == "jpeg"@
    ||| e == "png"@
    ||| e == "gif"@
}

/// The extensions of the other files in a cache dump.
pub open spec fn is_document_extension(e: Seq<char>) -> bool {
    ||| e == "html"@
    ||| e == "txt"@
    ||| e == "md"@
    ||| e == "pdf"@
    ||| e == "tex"@
    ||| e == "exe"@
    ||| e == "deb"@
    ||| e == "tgz"@
}

pub open spec fn is_extension(e: Seq<char>, picture: bool) -> bool {
    if picture {
        is_picture_extension(e)
    } else {
        is_document_extension(e)
    }
}

/// The segments joined as `/a/b/c`.
pub open spec fn joined_segments(segments: Seq<Seq<char>>) -> Seq<char>
    decreases segments.len(),
{
    if segments.len() == 0 {
        Seq::empty()
    } else {
        joined_segments(segments.drop_last()) + "/"@ + segments.last()
    }
}

/// The path `/a/b/c.ext`.
pub open spec fn path_text(segments: Seq<Seq<char>>, extension: Seq<char>) -> Seq<char> {
    joined_segments(segments) + "."@ + extension
}

/// `p` is a path as the game makes them up: one to four segments of letters
/// and digits, then a picture extension, or a document extension when
/// `picture` is false.
pub open spec fn is_random_path(p: Seq<char>, picture: bool) -> bool {
    exists|segments: Seq<Seq<char>>, extension: Seq<char>|
        {
            &&& 1 <= segments.len() < 5
            &&& forall|i: int| 0 <= i < segments.len() ==> is_alnum_word(#[trigger] segments[i])
            &&& is_extension(extension, picture)
            &&& p == path_text(segments, extension)
        }
}

/// Bytes of noise between the addresses of a cache dump.
pub open spec fn is_garbage(g: Seq<u8>) -> bool {
    1000 <= g.len() < 10000
}

/// A random name of five to nineteen letters and digits.
pub fn alnum() -> (s: String)
    ensures
        is_alnum_word(s@),
{
    let mut rng = fresh_rng();
    let length = gen_range(&mut rng, 5, 20);
    gen_ascii_text(&mut rng, length)
}

fn pick_extension(rng: &mut rand::ThreadRng, picture: bool) -> (e: &'static str)
    ensures
        is_extension(e@, picture),
{
    if picture {
        let options: [&'static str; 4] = ["jpg", "jpeg", "png", "gif"];
        let e = *choose_one(rng, &options);
        assert(options@ =~= seq!["jpg", "jpeg", "png", "gif"]);
        e
    } else {
        let options: [&'static str; 8] = ["html", "txt", "md", "pdf", "tex", "exe", "deb", "tgz"];
        let e = *choose_one(rng, &options);
        assert(options@ =~= seq!["html", "txt", "md", "pdf", "tex", "exe", "deb", "tgz"]);
        e
    }
}

/// A random path such as `/a9Kd2/QQ7pz.png`: one to four segments, then a
/// picture extension if `picture` is set, else a document extension.
pub fn path(picture: bool) -> (p: String)
    ensures
        is_random_path(p@, picture),
{
    let mut rng = fresh_rng();
    let path_segments = gen_range(&mut rng, 1, 5);
    let extension = pick_extension(&mut rng, picture);
    let mut p = String::new();
    let ghost mut segments: Seq<Seq<char>> = Seq::empty();
    let mut i: usize = 0;
    while i < path_segments
        invariant
            i <= path_segments < 5,
            segments.len() == i,
            forall|j: int| 0 <= j < segments.len() ==> is_alnum_word(#[trigger] segments[j]),
            p@ == joined_segments(segments),
        decreases path_segments - i,
    {
        let word = alnum();
        p.append("/");
        p.append(word.as_str());
        proof {
            let old_segments = segments;
            segments = segments.push(word@);
            assert(segments.drop_last() =~= old_segments);
        }
        i = i + 1;
    }
    p.append(".");
    p.append(extension);
    assert(p@ == path_text(segments, extension@));
    p
}

/// Between a thousand and ten thousand random bytes.
pub fn garbage() -> (g: Vec<u8>)
    ensures
        is_garbage(g@),
{
    let mut rng = fresh_rng();
    let length = gen_range(&mut rng, 1000, 10000);
    let mut data: Vec<u8> = vec![0u8; length];
    fill_bytes(&mut rng, &mut data);
    data
}

/// A made-up picture path ends in the last letter of its extension, a `g`
/// or an `f`.
pub proof fn lemma_picture_path_ending(p: Seq<char>)
    requires
        is_random_path(p, true),
    ensures
        p.len() > 0,
        p.last() == 'g' || p.last() == 'f',
{
    let (segments, extension) = choose|segments: Seq<Seq<char>>, extension: Seq<char>|
        {
            &&& 1 <= segments.len() < 5
            &&& forall|i: int| 0 <= i < segments.len() ==> is_alnum_word(#[trigger] segments[i])
            &&& is_extension(extension, true)
            &&& p == path_text(segments, extension)
        };
    reveal_strlit("jpg");
    reveal_strlit("jpeg");
    reveal_strlit("png");
    reveal_strlit("gif");
    assert(extension.len() > 0);
    assert(p.last() == extension.last());
}

/// The last two characters of a made-up path are those of its extension.
proof fn lemma_path_ends_with_extension(p: Seq<char>, picture: bool) -> (extension: Seq<char>)
    requires
        is_random_path(p, picture),
    ensures
        is_extension(extension, picture),
        extension.len() >= 2,
        p.len() >= 2,
        p[p.len() - 1] == extension[extension.len() - 1],
        p[p.len() - 2] == extension[extension.len() - 2],
{
    let (segments, extension) = choose|segments: Seq<Seq<char>>, extension: Seq<char>|
        {
            &&& 1 <= segments.len() < 5
            &&& forall|i: int| 0 <= i < segments.len() ==> is_alnum_word(#[trigger] segments[i])
            &&& is_extension(extension, picture)
            &&& p == path_text(segments, extension)
        };
    reveal_strlit("jpg");
    reveal_strlit("jpeg");
    reveal_strlit("png");
    reveal_strlit("gif");
    reveal_strlit("html");
    reveal_strlit("txt");
    reveal_strlit("md");
    reveal_strlit("pdf");
    reveal_strlit("tex");
    reveal_strlit("exe");
    reveal_strlit("deb");
    reveal_strlit("tgz");
    assert(extension.len() >= 2);
    let front = joined_segments(segments) + "."@;
    assert(p == front + extension);
    assert(p[p.len() - 1] == extension[extension.len() - 1]);
    assert(p[p.len() - 2] == extension[extension.len() - 2]);
    extension
}

/// No path is both a made-up picture path and a made-up document path: the
/// pictures of the cache puzzle can always be told apart from its decoys.
pub proof fn lemma_no_path_is_both(p: Seq<char>)
    ensures
        !(is_random_path(p, true) && is_random_path(p, false)),
{
    if is_random_path(p, true) && is_random_path(p, false) {
        let pic = lemma_path_ends_with_extension(p, true);
        let doc = lemma_path_ends_with_extension(p, false);
        reveal_strlit("jpg");
        reveal_strlit("jpeg");
        reveal_strlit("png");
        reveal_strlit("gif");
        reveal_strlit("html");
        reveal_strlit("txt");
        reveal_strlit("md");
        reveal_strlit("pdf");
        reveal_strlit("tex");
        reveal_strlit("exe");
        reveal_strlit("deb");
        reveal_strlit("tgz");
        assert(false);
    }
}

} // verus!

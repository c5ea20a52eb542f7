use vstd::prelude::*;
use vstd::utf8::encode_utf8;

use crate::random::{
    fresh_rng, gen_range, garbage, path, is_garbage, is_random_path, lemma_no_path_is_both,
};
use crate::text::{local_url, local_url_text};

verus! {

/// The bytes of the address of `path` on the game's own web server.
pub open spec fn url_bytes(path: Seq<char>) -> Seq<u8> {
    encode_utf8(local_url_text(path))
}

/// Each address followed by its noise, one after the other.
pub open spec fn records(paths: Seq<Seq<char>>, junk: Seq<Seq<u8>>) -> Seq<u8>
    decreases paths.len(),
{
    if paths.len() == 0 || junk.len() == 0 {
        Seq::empty()
    } else {
        records(paths.drop_last(), junk.drop_last()) + url_bytes(paths.last()) + junk.last()
    }
}

/// `dump` is a browser cache as the cache puzzle shows it: noise, then one to
/// four addresses of made-up documents, then the address of `target`, then
/// one to four more made-up documents, each address followed by noise.
pub open spec fn is_cache_dump(dump: Seq<u8>, target: Seq<char>) -> bool {
    exists|head: Seq<u8>, paths: Seq<Seq<char>>, junk: Seq<Seq<u8>>, k: int|
        {
            &&& is_garbage(head)
            &&& paths.len() == junk.len()
            &&& 1 <= k < 5
            &&& 1 <= paths.len() - k - 1 < 5
            &&& paths[k] == target
            &&& forall|i: int|
                0 <= i < paths.len() && i != k ==> is_random_path(#[trigger] paths[i], false)
            &&& forall|i: int| 0 <= i < junk.len() ==> is_garbage(#[trigger] junk[i])
            &&& dump == head + records(paths, junk)
        }
}

/// `part` stands somewhere in `whole`, as one block.
pub open spec fn contains_block(whole: Seq<u8>, part: Seq<u8>) -> bool {
    exists|i: int| 0 <= i && i + part.len() <= whole.len() && #[trigger] whole.subrange(i, i + part.len()) == part
}

/// The records of two lists, one after the other, are the records of the
/// joined lists.
proof fn lemma_records_concat(p1: Seq<Seq<char>>, j1: Seq<Seq<u8>>, p2: Seq<Seq<char>>, j2: Seq<Seq<u8>>)
    requires
        p1.len() == j1.len(),
        p2.len() == j2.len(),
    ensures
        records(p1 + p2, j1 + j2) == records(p1, j1) + records(p2, j2),
    decreases p2.len(),
{
    if p2.len() == 0 {
        assert(p1 + p2 =~= p1);
        assert(j1 + j2 =~= j1);
        assert(records(p2, j2) =~= Seq::<u8>::empty());
        assert(records(p1, j1) + records(p2, j2) =~= records(p1, j1));
    } else {
        lemma_records_concat(p1, j1, p2.drop_last(), j2.drop_last());
        assert((p1 + p2).drop_last() =~= p1 + p2.drop_last());
        assert((j1 + j2).drop_last() =~= j1 + j2.drop_last());
        assert((p1 + p2).last() == p2.last());
        assert((j1 + j2).last() == j2.last());
        assert(records(p1 + p2, j1 + j2) =~= records(p1, j1) + records(p2, j2));
    }
}

/// Every cache dump holds the address of the file it hides, as one block of
/// bytes: the cache puzzle can always be solved by reading the dump.
pub proof fn lemma_cache_dump_holds_target(dump: Seq<u8>, target: Seq<char>)
    requires
        is_cache_dump(dump, target),
    ensures
        contains_block(dump, url_bytes(target)),
{
    let (head, paths, junk, k) = choose|head: Seq<u8>, paths: Seq<Seq<char>>, junk: Seq<Seq<u8>>, k: int|
        {
            &&& is_garbage(head)
            &&& paths.len() == junk.len()
            &&& 1 <= k < 5
            &&& 1 <= paths.len() - k - 1 < 5
            &&& paths[k] == target
            &&& forall|i: int|
                0 <= i < paths.len() && i != k ==> is_random_path(#[trigger] paths[i], false)
            &&& forall|i: int| 0 <= i < junk.len() ==> is_garbage(#[trigger] junk[i])
            &&& dump == head + records(paths, junk)
        };
    let before_p = paths.subrange(0, k);
    let before_j = junk.subrange(0, k);
    let at_p = paths.subrange(k, k + 1);
    let at_j = junk.subrange(k, k + 1);
    let after_p = paths.subrange(k + 1, paths.len() as int);
    let after_j = junk.subrange(k + 1, junk.len() as int);
    assert(paths =~= before_p + at_p + after_p);
    assert(junk =~= before_j + at_j + after_j);
    lemma_records_concat(before_p + at_p, before_j + at_j, after_p, after_j);
    lemma_records_concat(before_p, before_j, at_p, at_j);
    assert(at_p.drop_last() =~= Seq::<Seq<char>>::empty());
    assert(at_j.drop_last() =~= Seq::<Seq<u8>>::empty());
    assert(records(at_p.drop_last(), at_j.drop_last()) =~= Seq::<u8>::empty());
    assert(at_p.last() == target);
    assert(at_j.last() == junk[k]);
    assert(records(at_p, at_j) =~= url_bytes(target) + junk[k]);
    let start: int = (head.len() + records(before_p, before_j).len()) as int;
    let u = url_bytes(target);
    assert(dump =~= head + records(before_p, before_j) + u + junk[k] + records(after_p, after_j));
    assert(dump.subrange(start, start + u.len() as int) =~= u);
}

/// The address of `path` on the game's own web server, as bytes.
pub fn local_url_bytes(path: &str) -> (b: Vec<u8>)
    ensures
        b@ == url_bytes(path@),
{
    let url = local_url(path);
    url.as_str().as_bytes_vec()
}

/// Appends the address of `path` and a block of noise to `dump`.
fn append_record(dump: &mut Vec<u8>, path: &str) -> (noise: Ghost<Seq<u8>>)
    ensures
        is_garbage(noise@),
        final(dump)@ == old(dump)@ + url_bytes(path@) + noise@,
{
    let mut url = local_url_bytes(path);
    dump.append(&mut url);
    let mut junk = garbage();
    let ghost noise = junk@;
    dump.append(&mut junk);
    Ghost(noise)
}

/// What a browser would show of its cache: the address of `target_path`
/// hidden among the addresses of made-up documents and random noise. Every
/// address but the target's is a made-up document path, never a picture
/// path, so the hidden picture is the only picture in the dump.
pub fn build_cache(target_path: &str) -> (dump: Vec<u8>)
    ensures
        is_cache_dump(dump@, target_path@),
        exists|head: Seq<u8>, paths: Seq<Seq<char>>, junk: Seq<Seq<u8>>, k: int|
            {
                &&& dump@ == head + records(paths, junk)
                &&& paths.len() == junk.len()
                &&& 1 <= k < 5
                &&& 1 <= paths.len() - k - 1 < 5
                &&& paths[k] == target_path@
                &&& 1000 <= head.len() < 10000
                &&& forall|i: int| 0 <= i < junk.len() ==> 1000 <= #[trigger] junk[i].len() < 10000
                &&& forall|i: int|
                    0 <= i < paths.len() && i != k ==> is_random_path(#[trigger] paths[i], false)
                        && !is_random_path(paths[i], true)
            },
{
    let mut result: Vec<u8> = Vec::new();
    let mut head = garbage();
    let ghost head_bytes = head@;
    result.append(&mut head);
    let mut rng = fresh_rng();
    let ghost mut paths: Seq<Seq<char>> = Seq::empty();
    let ghost mut junk: Seq<Seq<u8>> = Seq::empty();

    let prefix_files = gen_range(&mut rng, 1, 5);
    let mut i: usize = 0;
    while i < prefix_files
        invariant
            i <= prefix_files < 5,
            paths.len() == i,
            junk.len() == i,
            forall|j: int| 0 <= j < paths.len() ==> is_random_path(#[trigger] paths[j], false),
            forall|j: int| 0 <= j < junk.len() ==> is_garbage(#[trigger] junk[j]),
            result@ == head_bytes + records(paths, junk),
        decreases prefix_files - i,
    {
        let decoy = path(false);
        let noise = append_record(&mut result, decoy.as_str());
        proof {
            let (p0, j0) = (paths, junk);
            paths = paths.push(decoy@);
            junk = junk.push(noise@);
            assert(paths.drop_last() =~= p0);
            assert(junk.drop_last() =~= j0);
        }
        i = i + 1;
    }

    let ghost k = paths.len() as int;
    let noise = append_record(&mut result, target_path);
    proof {
        let (p0, j0) = (paths, junk);
        paths = paths.push(target_path@);
        junk = junk.push(noise@);
        assert(paths.drop_last() =~= p0);
        assert(junk.drop_last() =~= j0);
    }

    let suffix_files = gen_range(&mut rng, 1, 5);
    let mut i: usize = 0;
    while i < suffix_files
        invariant
            1 <= k < 5,
            i <= suffix_files < 5,
            paths.len() == k + 1 + i,
            junk.len() == paths.len(),
            paths[k] == target_path@,
            forall|j: int| 0 <= j < paths.len() && j != k ==> is_random_path(#[trigger] paths[j], false),
            forall|j: int| 0 <= j < junk.len() ==> is_garbage(#[trigger] junk[j]),
            result@ == head_bytes + records(paths, junk),
        decreases suffix_files - i,
    {
        let decoy = path(false);
        let noise = append_record(&mut result, decoy.as_str());
        proof {
            let (p0, j0) = (paths, junk);
            paths = paths.push(decoy@);
            junk = junk.push(noise@);
            assert(paths.drop_last() =~= p0);
            assert(junk.drop_last() =~= j0);
        }
        i = i + 1;
    }
    assert(result@ == head_bytes + records(paths, junk));
    assert forall|i: int| 0 <= i < paths.len() && i != k implies !is_random_path(
        #[trigger] paths[i],
        true,
    ) by {
        lemma_no_path_is_both(paths[i]);
    }
    result
}

} // verus!

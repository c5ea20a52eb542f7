use circumvention_chronicles::{alnum, build_cache, garbage, local_url, path};

fn is_word(w: &str) -> bool {
    (5..20).contains(&w.chars().count()) && w.chars().all(|c| c.is_ascii_alphanumeric())
}

fn assert_path_shape(p: &str, extensions: &[&str]) {
    let dot = p.rfind('.').expect("a path has an extension");
    let (stem, ext) = (&p[..dot], &p[dot + 1..]);
    assert!(extensions.contains(&ext), "unexpected extension in {}", p);
    assert!(stem.starts_with('/'));
    let segments: Vec<&str> = stem[1..].split('/').collect();
    assert!((1..5).contains(&segments.len()), "{}", p);
    for s in segments {
        assert!(is_word(s), "bad segment {:?} in {}", s, p);
    }
}

#[test]
fn alnum_words() {
    for _ in 0..200 {
        let w = alnum();
        assert!(is_word(&w), "{:?}", w);
    }
}

#[test]
fn alnum_words_vary() {
    let words: Vec<String> = (0..20).map(|_| alnum()).collect();
    assert!(words.iter().any(|w| w != &words[0]));
}

#[test]
fn picture_paths() {
    for _ in 0..200 {
        assert_path_shape(&path(true), &["jpg", "jpeg", "png", "gif"]);
    }
}

#[test]
fn document_paths() {
    for _ in 0..200 {
        assert_path_shape(&path(false), &["html", "txt", "md", "pdf", "tex", "exe", "deb", "tgz"]);
    }
}

#[test]
fn garbage_sizes() {
    for _ in 0..50 {
        let g = garbage();
        assert!(g.len() >= 1000 && g.len() < 10000, "{}", g.len());
    }
}

#[test]
fn garbage_is_not_all_zero() {
    let g = garbage();
    assert!(g.iter().any(|&b| b != 0));
}

fn find(hay: &[u8], needle: &[u8]) -> Option<usize> {
    hay.windows(needle.len()).position(|w| w == needle)
}

#[test]
fn cache_dump_holds_the_target() {
    let target = "/Ab3de/xyz12.png";
    for _ in 0..20 {
        let dump = build_cache(target);
        let url = local_url(target);
        let at = find(&dump, url.as_bytes()).expect("the target's address is in the dump");
        assert!(at >= 1000 + 2 * "http://localhost:9622/abcde.md".len());
        assert!(dump.len() >= 1000 * 4);
    }
}

#[test]
fn cache_dump_holds_decoys() {
    let dump = build_cache("/Ab3de/xyz12.png");
    let prefix = b"http://localhost:9622/";
    let mut count = 0;
    let mut i = 0;
    while let Some(at) = find(&dump[i..], prefix) {
        count += 1;
        i += at + 1;
    }
    assert!(count >= 3);
}

#[test]
fn alnum_lengths_vary() {
    let lengths: Vec<usize> = (0..100).map(|_| alnum().len()).collect();
    assert!(lengths.iter().any(|&n| n != lengths[0]));
}

#[test]
fn garbage_lengths_vary() {
    let lengths: Vec<usize> = (0..20).map(|_| garbage().len()).collect();
    assert!(lengths.iter().any(|&n| n != lengths[0]));
}

#[test]
fn extensions_vary() {
    let exts: Vec<String> = (0..100)
        .map(|_| {
            let p = path(false);
            p[p.rfind('.').unwrap() + 1..].to_string()
        })
        .collect();
    assert!(exts.iter().any(|e| e != &exts[0]));
}

#[test]
fn segment_counts_vary() {
    let counts: Vec<usize> = (0..100).map(|_| path(true).matches('/').count()).collect();
    assert!(counts.iter().any(|&n| n != counts[0]));
}

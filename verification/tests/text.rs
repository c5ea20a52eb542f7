use circumvention_chronicles::{decimal, local_url, local_url_bytes, same_text, PORT};

#[test]
fn decimal_digits() {
    assert_eq!(decimal(0), "0");
    assert_eq!(decimal(7), "7");
    assert_eq!(decimal(10), "10");
    assert_eq!(decimal(9622), "9622");
    assert_eq!(decimal(65535), "65535");
}

#[test]
fn port_is_the_games() {
    assert_eq!(PORT, 9622);
    assert_eq!(decimal(PORT), PORT.to_string());
}

#[test]
fn local_urls() {
    assert_eq!(local_url("/"), "http://localhost:9622/");
    assert_eq!(local_url("/cache"), "http://localhost:9622/cache");
    assert_eq!(local_url(""), "http://localhost:9622");
}

#[test]
fn comparing_texts() {
    assert!(same_text("/style.css", "/style.css"));
    assert!(!same_text("/style.css", "/style.cs"));
    assert!(!same_text("/a", "/b"));
    assert!(same_text("", ""));
    assert!(same_text("héllo", "héllo"));
    assert!(!same_text("héllo", "hello"));
}

#[test]
fn local_url_as_bytes() {
    assert_eq!(local_url_bytes("/x.png"), b"http://localhost:9622/x.png".to_vec());
}

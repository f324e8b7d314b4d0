use cryptify::error::ErrorKind;
use cryptify::text::greeting;
use cryptify::{rust_greet, rust_hello};

#[test]
fn hello_gives_the_line_for_the_host() {
    let mut line = String::from("stale");
    assert_eq!(rust_hello(&mut line), 0);
    assert_eq!(line, "Hello from Rust!");
}

#[test]
fn greet_gives_the_line_and_success() {
    let mut line = String::new();
    assert_eq!(rust_greet(Some(b"Ada"), &mut line), 0);
    assert_eq!(line, "Hello from Rust, Ada!");
}

#[test]
fn greet_fails_alike_on_absence_and_on_bytes_that_are_not_text() {
    let mut line = String::from("untouched");
    assert_eq!(rust_greet(None, &mut line), -1);
    assert_eq!(line, "untouched");
    assert_eq!(rust_greet(Some(&[0xFF]), &mut line), -1);
    assert_eq!(line, "untouched");
}

#[test]
fn greeting_names_the_caller() {
    assert_eq!(greeting(Some(b"World")), Ok(String::from("Hello from Rust, World!")));
}

#[test]
fn greeting_takes_an_empty_name() {
    assert_eq!(greeting(Some(b"")), Ok(String::from("Hello from Rust, !")));
}

#[test]
fn greeting_takes_text_beyond_ascii() {
    assert_eq!(greeting(Some("Zoë ✓".as_bytes())), Ok(String::from("Hello from Rust, Zoë ✓!")));
}

#[test]
fn greeting_rejects_an_absent_name() {
    assert_eq!(greeting(None), Err(ErrorKind::NullPointer));
}

#[test]
fn greeting_rejects_bytes_that_are_not_text() {
    assert_eq!(greeting(Some(&[0xFF, 0xFE, 0xFD])), Err(ErrorKind::TextEncodingError));
    assert_eq!(greeting(Some(&[b'a', 0x80])), Err(ErrorKind::TextEncodingError));
    // An overlong encoding and a surrogate are not valid either.
    assert_eq!(greeting(Some(&[0xC0, 0x80])), Err(ErrorKind::TextEncodingError));
    assert_eq!(greeting(Some(&[0xED, 0xA0, 0x80])), Err(ErrorKind::TextEncodingError));
}

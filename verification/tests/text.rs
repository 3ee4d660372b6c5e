use magic::engine::{argument, copy_buffers, database_argument, path_argument};
use magic::text::{find_nul, join_names, push_byte_list, push_decimal, push_signed_decimal};
use magic::{MagicError, Reply};

fn decimal(n: u64) -> String {
    let mut text = String::new();
    push_decimal(&mut text, n);
    text
}

fn signed(n: i32) -> String {
    let mut text = String::new();
    push_signed_decimal(&mut text, n);
    text
}

#[test]
fn decimal_numerals() {
    assert_eq!(decimal(0), "0");
    assert_eq!(decimal(7), "7");
    assert_eq!(decimal(10), "10");
    assert_eq!(decimal(120), "120");
    assert_eq!(decimal(1005), "1005");
    assert_eq!(decimal(u64::MAX), "18446744073709551615");
    for n in [0u64, 9, 10, 99, 100, 255, 4096, 99999, 1 << 40] {
        assert_eq!(decimal(n), format!("{}", n));
    }
}

#[test]
fn decimal_numerals_are_appended() {
    let mut text = "n = ".to_string();
    push_decimal(&mut text, 42);
    assert_eq!(text, "n = 42");
}

#[test]
fn signed_decimal_numerals() {
    assert_eq!(signed(0), "0");
    assert_eq!(signed(12), "12");
    assert_eq!(signed(-1), "-1");
    assert_eq!(signed(-305), "-305");
    assert_eq!(signed(i32::MAX), "2147483647");
    assert_eq!(signed(i32::MIN), "-2147483648");
}

#[test]
fn byte_lists() {
    let mut text = String::new();
    push_byte_list(&mut text, &[]);
    assert_eq!(text, "");
    push_byte_list(&mut text, &[0]);
    assert_eq!(text, "0");
    let mut text = "[".to_string();
    push_byte_list(&mut text, &[97, 0, 255, 10]);
    assert_eq!(text, "[97, 0, 255, 10");
    assert_eq!(format!("{}]", text), format!("{:?}", [97u8, 0, 255, 10]));
}

#[test]
fn first_nul_is_found() {
    assert_eq!(find_nul(b""), None);
    assert_eq!(find_nul(b"abc"), None);
    assert_eq!(find_nul(b"\0"), Some(0));
    assert_eq!(find_nul(b"ab\0c\0"), Some(2));
    assert_eq!(find_nul(b"abc\0"), Some(3));
}

#[test]
fn names_are_joined() {
    assert_eq!(join_names(&[]), b"".to_vec());
    assert_eq!(join_names(&["one"]), b"one".to_vec());
    assert_eq!(join_names(&["one", "two"]), b"one:two".to_vec());
    assert_eq!(join_names(&["", ""]), b":".to_vec());
    assert_eq!(join_names(&["a:b", "c"]), b"a:b:c".to_vec());
    let names = ["x", "yz", "ü"];
    assert_eq!(join_names(&names), names.join(":").into_bytes());
}

#[test]
fn arguments_without_nul_pass_unchanged() {
    assert_eq!(argument(b"some/path".to_vec()), Ok(b"some/path".to_vec()));
    assert_eq!(argument(Vec::new()), Ok(Vec::new()));
    assert_eq!(path_argument("some/path"), Ok(b"some/path".to_vec()));
    assert_eq!(path_argument(""), Ok(Vec::new()));
}

#[test]
fn arguments_with_nul_are_rejected_for_the_first_one() {
    assert_eq!(
        argument(b"ab\0c\0".to_vec()),
        Err(MagicError { desc: "NulError(2, [97, 98, 0, 99, 0])".to_string() })
    );
    assert_eq!(path_argument("\0"), Err(MagicError { desc: "NulError(0, [0])".to_string() }));
    assert_eq!(
        path_argument("abc\0d"),
        Err(MagicError { desc: "NulError(3, [97, 98, 99, 0, 100])".to_string() })
    );
}

#[test]
fn database_arguments() {
    assert_eq!(database_argument(&[]), Ok(None));
    assert_eq!(database_argument(&[""]), Ok(Some(Vec::new())));
    assert_eq!(database_argument(&["a", "b"]), Ok(Some(b"a:b".to_vec())));
    assert_eq!(
        database_argument(&["a", "\0"]),
        Err(MagicError { desc: "NulError(2, [97, 58, 0])".to_string() })
    );
}

#[test]
fn buffers_are_copied_in_order() {
    let one: &[u8] = &[1, 2, 3];
    let two: &[u8] = &[];
    let three: &[u8] = &[0, 0];
    assert_eq!(copy_buffers(&[one, two, three]), vec![vec![1, 2, 3], vec![], vec![0, 0]]);
    assert_eq!(copy_buffers(&[]), Vec::<Vec<u8>>::new());
}

#[test]
fn allocation_errors_name_the_text_and_the_number() {
    assert_eq!(MagicError::allocation("Cannot allocate memory", 12).desc, "Cannot allocate memory (12)");
    assert_eq!(MagicError::allocation("", 0).desc, " (0)");
    assert_eq!(MagicError::allocation("odd", -40).desc, "odd (-40)");
}

#[test]
fn invalid_argument_errors_name_the_place_and_the_bytes() {
    assert_eq!(MagicError::invalid_argument(1, &[104, 0, 105]).desc, "NulError(1, [104, 0, 105])");
    assert_eq!(MagicError::invalid_argument(0, &[0]).desc, "NulError(0, [0])");
}

#[test]
fn operation_errors_take_the_text_or_a_fixed_one() {
    assert_eq!(MagicError::operation(Some("no such thing".to_string())).desc, "no such thing");
    assert_eq!(MagicError::operation(Some(String::new())).desc, "");
    assert_eq!(MagicError::operation(None).desc, "unknown error");
}

#[test]
fn misuse_errors() {
    assert_eq!(MagicError::not_ready().desc, "the handle is not ready for a request");
    assert_eq!(MagicError::unexpected_reply().desc, "the reply does not answer the pending request");
}

#[test]
fn errors_say_what_they_are() {
    let e = MagicError { desc: "cannot open".to_string() };
    assert_eq!(e.to_string(), "cannot open");
    assert_eq!(e.description(), "internal libmagic error");
    assert_eq!(e.clone(), e);
}

#[test]
fn refused_reply_carries_the_last_system_error() {
    errno::set_errno(errno::Errno(12));
    let reply = Reply::refused();
    assert_eq!(
        reply,
        Reply::Refused { code: 12, text: format!("{}", errno::Errno(12)) }
    );
    errno::set_errno(errno::Errno(2));
    match Reply::refused() {
        Reply::Refused { code, text } => {
            assert_eq!(code, 2);
            assert_eq!(text, "No such file or directory");
        }
        other => panic!("{:?}", other),
    }
}

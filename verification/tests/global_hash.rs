use turbo_transition::global_hash::get_global_hash;
use turbo_transition::global_hash::global_hash_reply;
use turbo_transition::global_hash::server_exit_code;

#[test]
fn it_works() {
    let result = 2 + 2;
    assert_eq!(result, 4);
}

#[test]
fn lib_it_works() {
    let result = 2 + 2;
    assert_eq!(result, 4);
}

#[test]
fn global_hash_is_the_placeholder() {
    assert_eq!(get_global_hash(), "foo".to_string());
}

#[test]
fn global_hash_reply_is_the_placeholder_bytes() {
    assert_eq!(global_hash_reply(), b"foo!".to_vec());
}

#[test]
fn server_exit_code_reports_failure() {
    assert_eq!(server_exit_code(true), 0);
    assert_eq!(server_exit_code(false), 1);
}

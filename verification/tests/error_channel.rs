use libelf::{
    clear_error, elf_errmsg, elf_errno, elf_getscn, elf_memory, get_errno, get_error_ptr,
    set_error, ErrorChannel,
};

#[test]
fn new_channel_has_no_error() {
    let mut errors = ErrorChannel::new();
    assert_eq!(get_errno(&errors), 0);
    assert_eq!(get_error_ptr(&errors), None);
    assert_eq!(elf_errmsg(&errors, 0), "no error");
    assert_eq!(elf_errmsg(&errors, -1), "unknown error");
    assert_eq!(elf_errmsg(&errors, 7), "unknown error");
    assert_eq!(elf_errno(&mut errors), 0);
}

#[test]
fn errno_counts_and_resets() {
    let mut errors = ErrorChannel::new();
    set_error(&mut errors, "first");
    set_error(&mut errors, "second");
    set_error(&mut errors, "third");
    assert_eq!(get_errno(&errors), 3);
    assert_eq!(elf_errno(&mut errors), 3);
    assert_eq!(get_errno(&errors), 0);
    assert_eq!(elf_errno(&mut errors), 0);
}

#[test]
fn errno_counts_any_number_of_errors() {
    for n in [0, 1, 2, 17, 1000] {
        let mut errors = ErrorChannel::new();
        for _ in 0..n {
            set_error(&mut errors, "again");
        }
        assert_eq!(elf_errno(&mut errors), n);
        assert_eq!(elf_errno(&mut errors), 0);
    }
}

#[test]
fn errno_counts_failing_calls() {
    let mut errors = ErrorChannel::new();
    let mut elf = elf_memory(b"this is no object file at all", &mut errors).unwrap();
    for _ in 0..4 {
        assert_eq!(elf_getscn(&mut elf, 1, &mut errors), None);
    }
    assert_eq!(elf_errno(&mut errors), 4);
    assert_eq!(elf_errno(&mut errors), 0);
}

#[test]
fn message_is_the_latest() {
    let mut errors = ErrorChannel::new();
    set_error(&mut errors, "first");
    set_error(&mut errors, "second");
    assert_eq!(get_error_ptr(&errors), Some("second"));
    assert_eq!(elf_errmsg(&errors, 0), "second");
    assert_eq!(elf_errmsg(&errors, -1), "second");
    assert_eq!(elf_errmsg(&errors, 1), "unknown error");
    assert_eq!(elf_errmsg(&errors, -2), "unknown error");
}

#[test]
fn reading_the_count_keeps_the_message() {
    let mut errors = ErrorChannel::new();
    set_error(&mut errors, "kept");
    assert_eq!(elf_errno(&mut errors), 1);
    assert_eq!(elf_errmsg(&errors, 0), "kept");
}

#[test]
fn clearing_keeps_the_count() {
    let mut errors = ErrorChannel::new();
    set_error(&mut errors, "gone");
    clear_error(&mut errors);
    assert_eq!(get_error_ptr(&errors), None);
    assert_eq!(elf_errmsg(&errors, 0), "no error");
    assert_eq!(elf_errmsg(&errors, -1), "unknown error");
    assert_eq!(get_errno(&errors), 1);
}

#[test]
fn message_with_nul_is_not_kept() {
    let mut errors = ErrorChannel::new();
    set_error(&mut errors, "before");
    set_error(&mut errors, "in\0side");
    assert_eq!(get_error_ptr(&errors), None);
    assert_eq!(get_errno(&errors), 2);
    assert_eq!(elf_errmsg(&errors, 0), "no error");
}

#[test]
fn channels_do_not_see_each_other() {
    let mut first = ErrorChannel::new();
    let mut second = ErrorChannel::new();
    set_error(&mut first, "one");
    set_error(&mut first, "two");
    set_error(&mut second, "other");
    assert_eq!(elf_errno(&mut second), 1);
    assert_eq!(elf_errmsg(&second, 0), "other");
    assert_eq!(elf_errno(&mut first), 2);
    assert_eq!(elf_errmsg(&first, 0), "two");
    assert_eq!(elf_errno(&mut second), 0);
}

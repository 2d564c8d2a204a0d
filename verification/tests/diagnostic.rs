use hermit_loader::diagnostic::{oom_message, panic_message, unwind_message, Location};

#[test]
fn panic_with_location_and_message() {
    let place = Location { file: "src/main.rs", line: 42 };
    assert_eq!(
        panic_message(0, Some(place), Some("Could not find Multiboot information")),
        b"[0][!!!PANIC!!!] src/main.rs:42: Could not find Multiboot information\n".to_vec()
    );
}

#[test]
fn panic_without_location() {
    assert_eq!(panic_message(3, None, Some("boom")), b"[3][!!!PANIC!!!] boom\n".to_vec());
}

#[test]
fn panic_without_message() {
    let place = Location { file: "a.rs", line: 7 };
    assert_eq!(panic_message(12, Some(place), None), b"[12][!!!PANIC!!!] a.rs:7: \n".to_vec());
}

#[test]
fn panic_with_nothing_known() {
    assert_eq!(panic_message(1, None, None), b"[1][!!!PANIC!!!] \n".to_vec());
}

#[test]
fn panic_text_keeps_its_encoding() {
    let place = Location { file: "gr\u{fc}n.rs", line: u32::MAX };
    assert_eq!(
        panic_message(0, Some(place), Some("\u{2713}")),
        "[0][!!!PANIC!!!] gr\u{fc}n.rs:4294967295: \u{2713}\n".as_bytes().to_vec()
    );
}

#[test]
fn out_of_memory_names_the_size() {
    assert_eq!(
        oom_message(0, 4096),
        b"[0][!!!OOM!!!] Memory allocation of 4096 bytes failed\n".to_vec()
    );
    assert_eq!(
        oom_message(7, 0),
        b"[7][!!!OOM!!!] Memory allocation of 0 bytes failed\n".to_vec()
    );
    assert_eq!(
        oom_message(10, 1_000_000),
        b"[10][!!!OOM!!!] Memory allocation of 1000000 bytes failed\n".to_vec()
    );
}

#[test]
fn out_of_memory_with_the_largest_size() {
    let expected = format!("[0][!!!OOM!!!] Memory allocation of {} bytes failed\n", usize::MAX);
    assert_eq!(oom_message(0, usize::MAX), expected.into_bytes());
}

#[test]
fn unwind_names_the_core() {
    assert_eq!(unwind_message(0), b"[0][!!!UNWIND!!!]\n".to_vec());
    assert_eq!(unwind_message(255), b"[255][!!!UNWIND!!!]\n".to_vec());
    assert_eq!(unwind_message(109), b"[109][!!!UNWIND!!!]\n".to_vec());
}

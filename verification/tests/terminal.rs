use lumos::terminal::{nonblocking_flags, raw_mode_flags};

#[test]
fn raw_mode_clears_two_flags_only() {
    let icanon = 0o2;
    let echo = 0o10;
    assert_eq!(raw_mode_flags(0o105073, icanon, echo), 0o105061);
    assert_eq!(raw_mode_flags(0o105061, icanon, echo), 0o105061);
    assert_eq!(raw_mode_flags(0, icanon, echo), 0);
    assert_eq!(raw_mode_flags(u64::MAX, icanon, echo), u64::MAX - 0o12);
}

#[test]
fn nonblocking_sets_one_flag_only() {
    let nonblock = 0o4000;
    assert_eq!(nonblocking_flags(0o102002, nonblock), 0o106002);
    assert_eq!(nonblocking_flags(0o106002, nonblock), 0o106002);
    assert_eq!(nonblocking_flags(0, nonblock), 0o4000);
}

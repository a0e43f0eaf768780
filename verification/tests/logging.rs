use pop_upgrade::logging;
use pop_upgrade::logging::{log_level, target_crate, LogLevel};

#[test]
fn strip_src() {
    assert_eq!(
        logging::strip_src(
            "/home/user/Sources/pop/upgrade/target/cargo/git/checkouts/\
             async-fetcher-3eeb08c00d25dece/2cf133c/src/concatenator.rs"
        ),
        "concatenator.rs"
    )
}

#[test]
fn strip_src_keeps_text_up_to_the_next_src() {
    assert_eq!(logging::strip_src("a/src/b/src/c.rs"), "b/");
}

#[test]
fn strip_src_without_src_is_empty() {
    assert_eq!(logging::strip_src("daemon/main.rs"), "");
}

#[test]
fn log_targets_and_levels() {
    assert_eq!(target_crate("pop_upgrade::release::repos"), "pop_upgrade");
    assert_eq!(target_crate("apt_cmd"), "apt_cmd");
    assert_eq!(log_level(0), LogLevel::Info);
    assert_eq!(log_level(1), LogLevel::Debug);
    assert_eq!(log_level(3), LogLevel::Trace);
}

use neon_bridge::naming::decimal_string;
use neon_bridge::naming::fresh_session_name;
use neon_bridge::naming::region_path;
use neon_bridge::naming::session_name;
use neon_bridge::sandbox::create_args;
use neon_bridge::sandbox::runtime_program;
use neon_bridge::sandbox::start_args;
use neon_bridge::sandbox::stop_args;

#[test]
fn decimal_string_writes_numbers_without_leading_zeros() {
    assert_eq!(decimal_string(0), "0");
    assert_eq!(decimal_string(7), "7");
    assert_eq!(decimal_string(9), "9");
    assert_eq!(decimal_string(10), "10");
    assert_eq!(decimal_string(42), "42");
    assert_eq!(decimal_string(1_000), "1000");
    assert_eq!(decimal_string(1_234_567_890), "1234567890");
    assert_eq!(decimal_string(u32::MAX), "4294967295");
}

#[test]
fn decimal_string_agrees_with_the_standard_formatting() {
    let samples: Vec<u32> = vec![1, 19, 100, 101, 999, 65_535, 65_536, 305_419_896];
    for n in samples {
        assert_eq!(decimal_string(n), format!("{}", n));
    }
}

#[test]
fn session_name_is_the_prefix_and_the_number() {
    assert_eq!(session_name(0), "neon.0");
    assert_eq!(session_name(42), "neon.42");
    assert_eq!(session_name(u32::MAX), "neon.4294967295");
}

#[test]
fn region_path_lies_under_the_namespace_root() {
    assert_eq!(region_path("neon.42"), "/dev/shm/neon/neon.42");
    assert_eq!(region_path(""), "/dev/shm/neon/");
    assert_eq!(region_path(&session_name(7)), "/dev/shm/neon/neon.7");
}

#[test]
fn fresh_session_name_is_a_session_name() {
    let mut round: u32 = 0;
    while round < 50 {
        let name = fresh_session_name();
        assert!(name.starts_with("neon."));
        let id: u32 = name["neon.".len()..].parse().unwrap();
        assert_eq!(name, session_name(id));
        round += 1;
    }
}

#[test]
fn distinct_sessions_have_distinct_names_and_regions() {
    let ids: Vec<u32> = vec![0, 1, 10, 11, 100, 101, 110, 4_294_967_295];
    for a in ids.iter() {
        for b in ids.iter() {
            if a != b {
                assert_ne!(session_name(*a), session_name(*b));
                assert_ne!(
                    region_path(&session_name(*a)),
                    region_path(&session_name(*b))
                );
            }
        }
    }
}

#[test]
fn create_args_bind_the_region_and_embed_the_code() {
    let args = create_args("neon.42", "print(1)");
    let expected: Vec<String> = vec![
        "create".to_string(),
        "--name".to_string(),
        "neon.42".to_string(),
        "--mount".to_string(),
        "type=bind,src=/dev/shm/neon/neon.42,dst=/dev/shm/neon".to_string(),
        "neon".to_string(),
        "-u".to_string(),
        "-c".to_string(),
        "import neon_wrappers; print(1)".to_string(),
    ];
    assert_eq!(args, expected);
}

#[test]
fn create_args_hand_the_code_over_as_it_came() {
    let code = "import os\nprint('a b'); \"q\"";
    let args = create_args("s", code);
    assert_eq!(args.len(), 9);
    assert_eq!(args[2], "s");
    assert_eq!(args[4], "type=bind,src=/dev/shm/neon/s,dst=/dev/shm/neon");
    assert_eq!(args[8], format!("import neon_wrappers; {}", code));
    let empty = create_args("s", "");
    assert_eq!(empty[8], "import neon_wrappers; ");
}

#[test]
fn start_and_stop_args_name_the_sandbox() {
    assert_eq!(
        start_args("neon.42"),
        vec!["start".to_string(), "-ai".to_string(), "neon.42".to_string()]
    );
    assert_eq!(
        stop_args("neon.42"),
        vec!["kill".to_string(), "neon.42".to_string()]
    );
    assert_eq!(runtime_program(), "docker");
}

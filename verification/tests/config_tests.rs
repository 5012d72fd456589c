use chan_tui::ThreadConfig;
use chan_tui::WatchState;
use chan_tui::get_unix_epoch;
use chan_tui::load_config;

#[test]
fn test_load() {
	let bc = load_config(
		"
		\t  4chan/board/47357       garbage that is a name\n
				 4chan/board/23612           some text
		4chan/board/42672
		"
		.to_string(),
	);
	assert!(bc[0].name == "garbage that is a name");
	assert!(bc[1].name == "some text");
	assert!(bc[2].name == "4chan/board/42672");
}

#[test]
fn test_load_targets_and_epoch() {
    let bc = load_config("4chan/g/12345 rust thread\n".to_string());
    assert_eq!(bc.len(), 1);
    assert_eq!(bc[0].board, "g");
    assert_eq!(bc[0].id, "12345");
    assert_eq!(bc[0].name, "rust thread");
    assert_eq!(bc[0].last_modified, get_unix_epoch());
    assert_eq!(get_unix_epoch(), 0);
}

#[test]
fn test_load_empty_input() {
    let bc = load_config(String::new());
    assert!(bc.is_empty());
    let bc = load_config("\n\n\n".to_string());
    assert!(bc.is_empty());
    let bc = load_config("   \t  ".to_string());
    assert!(bc.is_empty());
}

#[test]
fn test_load_skips_malformed_lines() {
    let bc = load_config(
        "not a target line\nno/slash\none/two/three/four\n4chan/a/1 kept\n".to_string(),
    );
    assert_eq!(bc.len(), 1);
    assert_eq!(bc[0].board, "a");
    assert_eq!(bc[0].id, "1");
    assert_eq!(bc[0].name, "kept");
}

#[test]
fn test_load_name_defaults_to_target() {
    let bc = load_config("x/brd/99".to_string());
    assert_eq!(bc.len(), 1);
    assert_eq!(bc[0].board, "brd");
    assert_eq!(bc[0].id, "99");
    assert_eq!(bc[0].name, "x/brd/99");
}

#[test]
fn test_watch_round() {
    let configs = vec![
        ThreadConfig {
            board: "g".to_string(),
            id: "1".to_string(),
            name: "first".to_string(),
            last_modified: 0,
        },
        ThreadConfig {
            board: "a".to_string(),
            id: "2".to_string(),
            name: "second".to_string(),
            last_modified: 0,
        },
    ];
    let mut state = WatchState::new(configs);

    let (idx, since) = state.next_poll();
    assert_eq!(idx, 0);
    assert_eq!(since, 0);
    let pause = state.record_poll(1000);
    assert_eq!(pause, 1);
    assert_eq!(state.threads[0].last_modified, 1000);
    assert_eq!(state.threads[1].last_modified, 0);

    let (idx, since) = state.next_poll();
    assert_eq!(idx, 1);
    assert_eq!(since, 0);
    let pause = state.record_poll(2000);
    assert_eq!(pause, 21);
    assert_eq!(state.threads[1].last_modified, 2000);
    assert_eq!(state.threads[1].board, "a");
    assert_eq!(state.threads[1].name, "second");

    let (idx, since) = state.next_poll();
    assert_eq!(idx, 0);
    assert_eq!(since, 1000);
}

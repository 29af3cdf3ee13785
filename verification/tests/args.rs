use ezboom::error::StartupError;
use ezboom::misc::args::{ArgList, ArgMeta};
use ezboom::misc::lprint::{
    default_error_mask, default_output_mask, parse_mask, setup_console_masks, OutputLevel,
};
use ezboom::misc::response::{
    decode_arguments, expand_response_file, find_response_arg, response_file_name,
    split_arguments,
};

fn args(list: &[&str]) -> Vec<String> {
    list.iter().map(|s| s.to_string()).collect()
}

#[test]
fn parameter_is_found_at_its_last_place() {
    let line = args(&["game", "-file", "a.wad", "-file", "b.wad"]);
    assert_eq!(line.check_parm("-file"), Some(3));
    assert_eq!(line.check_parm("game"), Some(0));
    assert_eq!(line.check_parm("-deh"), None);
    assert_eq!(line.check_parm("-FILE"), None);
    assert_eq!(line.check_parm("-fil"), None);
    assert_eq!(args(&[]).check_parm("-file"), None);
}

#[test]
fn first_name_that_occurs_decides() {
    let line = args(&["game", "-dogs", "2", "-dog", "1", "-dogs"]);
    assert_eq!(line.check_parms(&["-dog", "-dogs"]), Some(3));
    assert_eq!(line.check_parms(&["-dogs", "-dog"]), Some(5));
    assert_eq!(line.check_parms(&["-cat", "-dogs"]), Some(5));
    assert_eq!(line.check_parms(&["-cat", "-bird"]), None);
    assert_eq!(line.check_parms(&[]), None);
}

#[test]
fn recording_and_playing_at_once_is_a_conflict() {
    assert_eq!(args(&["game", "-record", "a"]).check_arg_conflicts(), Ok(()));
    assert_eq!(args(&["game", "-playdemo", "a"]).check_arg_conflicts(), Ok(()));
    assert_eq!(args(&["game"]).check_arg_conflicts(), Ok(()));
    for record in ["-record", "-recordfrom", "-recordfromto"] {
        for play in ["-playdemo", "-timedemo", "-fastdemo"] {
            assert_eq!(
                args(&["game", record, "a", play, "b"]).check_arg_conflicts(),
                Err(StartupError::ParameterConflict)
            );
        }
    }
}

#[test]
fn loose_files_are_sorted_under_their_parameters() {
    let mut line = args(&["game", "sunlust.wad", "sl01.lmp"]);
    line.handle_loose_files();
    assert_eq!(line, args(&["game", "-file", "sunlust.wad", "-playdemo", "sl01.lmp"]));
}

#[test]
fn loose_files_of_each_kind_keep_their_order() {
    let mut line = args(&[
        "game", "a.lmp", "b.deh", "c.wad", "d", "e.bex", "f.WAD", "-skill", "4", "late.wad",
    ]);
    line.handle_loose_files();
    assert_eq!(
        line,
        args(&[
            "game", "-file", "c.wad", "d", "f.WAD", "-deh", "b.deh", "e.bex", "-playdemo",
            "a.lmp", "-skill", "4", "late.wad",
        ])
    );
}

#[test]
fn command_line_without_loose_files_stays() {
    let mut line = args(&["game", "-file", "a.wad", "b.wad"]);
    line.handle_loose_files();
    assert_eq!(line, args(&["game", "-file", "a.wad", "b.wad"]));
    let mut line = args(&["game"]);
    line.handle_loose_files();
    assert_eq!(line, args(&["game"]));
    let mut line = args(&[]);
    line.handle_loose_files();
    assert_eq!(line, args(&[]));
}

#[test]
fn switches_of_a_new_game_are_off_at_first() {
    assert_eq!(
        ArgMeta::default(),
        ArgMeta { nomonsters: false, respawnparm: false, fastparm: false }
    );
}

#[test]
fn masks_are_spelled_in_letters() {
    assert_eq!(parse_mask("").bits, 0);
    assert_eq!(parse_mask("i").bits, OutputLevel::INFO);
    assert_eq!(parse_mask("ICWEFDA").bits, OutputLevel::ALL);
    assert_eq!(parse_mask("icwefda").bits, 0x7f);
    assert_eq!(parse_mask("we").bits, OutputLevel::WARN | OutputLevel::ERROR);
    assert_eq!(parse_mask("xyz").bits, 0);
    assert_eq!(parse_mask("aAa").bits, OutputLevel::ALWAYS);
    assert_eq!(parse_mask("dé").bits, OutputLevel::DEBUG);
}

#[test]
fn masks_are_taken_from_the_command_line() {
    let (out, err) = setup_console_masks(&args(&["game", "-cout", "ic", "-cerr", "ef"]));
    assert_eq!(out, Some(OutputLevel::of(0x03)));
    assert_eq!(err, Some(OutputLevel::of(0x18)));
    let (out, err) = setup_console_masks(&args(&["game", "-cout", "-cerr"]));
    assert_eq!(out, None);
    assert_eq!(err, None);
    let (out, err) = setup_console_masks(&args(&["game", "-cerr", ""]));
    assert_eq!(out, None);
    assert_eq!(err, Some(OutputLevel::of(0)));
}

#[test]
fn default_masks_let_errors_through() {
    assert_eq!(default_output_mask().bits, 0x7f);
    assert_eq!(default_error_mask().bits, 0x7e);
    assert!(default_output_mask().lets_through(OutputLevel::INFO));
    assert!(!default_error_mask().lets_through(OutputLevel::INFO));
    assert!(default_error_mask().lets_through(OutputLevel::FATAL));
}

#[test]
fn response_file_is_split_at_blanks() {
    let found = split_arguments(b"-file a.wad\n-skill\t4\r\n").unwrap();
    assert_eq!(found, vec![b"-file".to_vec(), b"a.wad".to_vec(), b"-skill".to_vec(), b"4".to_vec()]);
    assert_eq!(split_arguments(b"").unwrap(), Vec::<Vec<u8>>::new());
    assert_eq!(split_arguments(b"  \n ").unwrap(), Vec::<Vec<u8>>::new());
    assert_eq!(split_arguments(b"one").unwrap(), vec![b"one".to_vec()]);
}

#[test]
fn quotes_keep_blanks_within_an_argument() {
    let found = split_arguments(b"-file \"my maps/a b.wad\" x").unwrap();
    assert_eq!(found, vec![b"-file".to_vec(), b"my maps/a b.wad".to_vec(), b"x".to_vec()]);
    let found = split_arguments(b"a\"b c\"d \"\"").unwrap();
    assert_eq!(found, vec![b"ab cd".to_vec(), b"".to_vec()]);
}

#[test]
fn open_quote_is_a_failure() {
    assert_eq!(split_arguments(b"-file \"a.wad"), Err(StartupError::RunawayQuote));
    assert_eq!(split_arguments(b"\""), Err(StartupError::RunawayQuote));
}

#[test]
fn arguments_are_read_as_texts() {
    let found = decode_arguments(vec![b"-file".to_vec(), "größe.wad".as_bytes().to_vec()]).unwrap();
    assert_eq!(found, args(&["-file", "größe.wad"]));
    assert_eq!(decode_arguments(vec![]).unwrap(), args(&[]));
    assert_eq!(
        decode_arguments(vec![b"ok".to_vec(), vec![0xff, 0xfe]]),
        Err(StartupError::InvalidResponseText)
    );
}

#[test]
fn response_argument_is_found_and_named() {
    assert_eq!(find_response_arg(&args(&["game", "-file", "@maps", "@more"])), Some(2));
    assert_eq!(find_response_arg(&args(&["game", "-file", "a@b"])), None);
    assert_eq!(find_response_arg(&args(&[])), None);
    assert_eq!(response_file_name("@maps"), "maps.rsp");
    assert_eq!(response_file_name("@"), ".rsp");
    assert_eq!(response_file_name("@größe"), "größe.rsp");
    assert_eq!(response_file_name("maps"), "maps.rsp");
}

#[test]
fn response_file_replaces_its_argument() {
    let line = args(&["game", "-dropped", "@maps", "-skill", "4"]);
    let expanded = expand_response_file(&line, 2, b"-file a.wad \"b c.wad\"").unwrap();
    assert_eq!(expanded, args(&["game", "-file", "a.wad", "b c.wad", "-skill", "4"]));
}

#[test]
fn empty_response_file_takes_its_argument_away() {
    let line = args(&["game", "-fast", "@maps", "-skill", "4"]);
    let expanded = expand_response_file(&line, 2, b"").unwrap();
    assert_eq!(expanded, args(&["game", "-fast", "-skill", "4"]));
}

#[test]
fn blank_response_file_adds_nothing() {
    let line = args(&["game", "-fast", "@maps", "-skill", "4"]);
    let expanded = expand_response_file(&line, 2, b" \n").unwrap();
    assert_eq!(expanded, args(&["game", "-skill", "4"]));
}

#[test]
fn response_file_failures_are_reported() {
    let line = args(&["game", "@maps"]);
    assert_eq!(expand_response_file(&line, 1, b"\"open"), Err(StartupError::RunawayQuote));
    assert_eq!(
        expand_response_file(&line, 1, &[b'a', 0xff]),
        Err(StartupError::InvalidResponseText)
    );
    assert_eq!(expand_response_file(&line, 7, b"x").unwrap(), line);
}

use wallet_session::command::{argument_list, classify, CommandClass};
use wallet_session::height::{start_height, REWIND_MARGIN};
use wallet_session::reply;
use wallet_session::text::same_text;

#[test]
fn the_three_long_running_commands() {
    assert_eq!(classify("sync"), CommandClass::LongRunning);
    assert_eq!(classify("rescan"), CommandClass::LongRunning);
    assert_eq!(classify("import"), CommandClass::LongRunning);
}

#[test]
fn every_other_command_is_immediate() {
    assert_eq!(classify("syncstatus"), CommandClass::Immediate);
    assert_eq!(classify("balance"), CommandClass::Immediate);
    assert_eq!(classify("seed"), CommandClass::Immediate);
    assert_eq!(classify(""), CommandClass::Immediate);
}

#[test]
fn classification_is_exact_about_the_name() {
    assert_eq!(classify("Sync"), CommandClass::Immediate);
    assert_eq!(classify("sync "), CommandClass::Immediate);
    assert_eq!(classify(" sync"), CommandClass::Immediate);
    assert_eq!(classify("syn"), CommandClass::Immediate);
    assert_eq!(classify("rescans"), CommandClass::Immediate);
    assert_eq!(classify("imports"), CommandClass::Immediate);
    assert_eq!(classify("tropmi"), CommandClass::Immediate);
}

#[test]
fn empty_argument_string_means_no_arguments() {
    assert_eq!(argument_list(String::new()), Vec::<String>::new());
}

#[test]
fn argument_string_is_one_token() {
    assert_eq!(argument_list("abc".to_string()), vec!["abc".to_string()]);
}

#[test]
fn argument_string_is_never_split() {
    assert_eq!(
        argument_list("first second  third".to_string()),
        vec!["first second  third".to_string()]
    );
    assert_eq!(argument_list(" ".to_string()), vec![" ".to_string()]);
    assert_eq!(argument_list("a,b\tc\n".to_string()), vec!["a,b\tc\n".to_string()]);
}

#[test]
fn same_text_compares_characters() {
    assert!(same_text("", ""));
    assert!(same_text("sync", "sync"));
    assert!(!same_text("sync", "synd"));
    assert!(!same_text("sync", "syn"));
    assert!(!same_text("syn", "sync"));
    assert!(!same_text("", "a"));
    assert!(!same_text("abcd", "abdc"));
}

#[test]
fn same_text_beyond_ascii() {
    assert!(same_text("grüße", "grüße"));
    assert!(!same_text("grüße", "grusse"));
    assert!(same_text("鍵🔑", "鍵🔑"));
    assert!(!same_text("鍵🔑", "鍵🔒"));
    // Same number of bytes, different characters.
    assert!(!same_text("é", "ab"));
}

#[test]
fn start_height_is_a_margin_below_the_tip() {
    assert_eq!(REWIND_MARGIN, 100);
    assert_eq!(start_height(1000), 900);
    assert_eq!(start_height(101), 1);
    assert_eq!(start_height(2_500_000), 2_499_900);
    assert_eq!(start_height(u64::MAX), u64::MAX - 100);
}

#[test]
fn start_height_stops_at_genesis() {
    assert_eq!(start_height(100), 0);
    assert_eq!(start_height(99), 0);
    assert_eq!(start_height(1), 0);
    assert_eq!(start_height(0), 0);
}

#[test]
fn reply_texts() {
    assert_eq!(reply::ok(), "OK");
    assert_eq!(reply::no_session(), "Error: Light Client is not initialized");
    assert_eq!(reply::failure("connection refused"), "Error: connection refused");
    assert_eq!(reply::failure(""), "Error: ");
}

#[test]
fn reply_after_seed() {
    assert_eq!(
        reply::after_seed(Ok("abandon ability able".to_string())),
        "abandon ability able"
    );
    assert_eq!(
        reply::after_seed(Err("wallet is locked".to_string())),
        "Error: wallet is locked"
    );
}

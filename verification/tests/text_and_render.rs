use discord_search::cmd_error::{handle, join_lines, perm_names, render, u64_to_dec, DispatchFailure};
use discord_search::text::{contains_str, count_words, eq_ignore_case, split_first_word, trim};

#[test]
fn trim_both_edges() {
    assert_eq!(trim("  hello there \t\n"), "hello there");
    assert_eq!(trim(""), "");
    assert_eq!(trim(" \t "), "");
    assert_eq!(trim("x"), "x");
}

#[test]
fn contains_finds_substrings() {
    assert!(contains_str("please google cats for me", "google"));
    assert!(contains_str("google", "google"));
    assert!(contains_str("anything", ""));
    assert!(!contains_str("goggle it", "google"));
    assert!(!contains_str("", "google"));
}

#[test]
fn case_insensitive_equality() {
    assert!(eq_ignore_case("GooGLE", "google"));
    assert!(eq_ignore_case("", ""));
    assert!(!eq_ignore_case("google", "googles"));
    assert!(!eq_ignore_case("googlo", "google"));
}

#[test]
fn word_counting() {
    assert_eq!(count_words(""), 0);
    assert_eq!(count_words("   "), 0);
    assert_eq!(count_words("one"), 1);
    assert_eq!(count_words("  one  two\tthree "), 3);
}

#[test]
fn first_word_splitting() {
    let (name, args) = split_first_word("google cute koalas ");
    assert_eq!(name, "google");
    assert_eq!(args, "cute koalas");
    let (name, args) = split_first_word("  info");
    assert_eq!(name, "info");
    assert_eq!(args, "");
}

#[test]
fn decimal_rendering() {
    assert_eq!(u64_to_dec(0), "0");
    assert_eq!(u64_to_dec(7), "7");
    assert_eq!(u64_to_dec(10), "10");
    assert_eq!(u64_to_dec(605), "605");
    assert_eq!(u64_to_dec(18446744073709551615), "18446744073709551615");
}

#[test]
fn render_rate_limited() {
    let f = DispatchFailure::RateLimited { retry_after: 61, first: true };
    assert_eq!(render(&f), "Calm down and try again in 61 seconds please");
}

#[test]
fn render_argument_counts() {
    let f = DispatchFailure::NotEnoughArguments { min: 2, given: 1 };
    assert_eq!(
        render(&f),
        "This command needs 2 arguments\u{2122} after it but you only gave 1.."
    );
    let f = DispatchFailure::TooManyArguments { max: 3, given: 12 };
    assert_eq!(
        render(&f),
        "This command can't take more than 3 arguments\u{2122} but you gave 12.."
    );
}

#[test]
fn render_lacking_permissions_lists_names() {
    let f = DispatchFailure::LackingPermissions { missing: 0x20 };
    let msg = render(&f);
    assert!(msg.contains("Manage Guild"));
    let f = DispatchFailure::LackingPermissions { missing: 0x8 | 0x20 };
    let msg = render(&f);
    assert!(msg.contains("Administrator\nManage Guilds"));
}

#[test]
fn perm_name_table() {
    let names = perm_names(0x8 | 0x2000);
    assert_eq!(names, vec!["Administrator".to_string(), "Manage Messages".to_string()]);
    assert_eq!(join_lines(&names), "Administrator\nManage Messages");
    assert_eq!(perm_names(0).len(), 0);
    assert_eq!(perm_names(0x20), vec!["Manage Guilds".to_string()]);
    // two table rows guard this bit, so its name is listed twice
    assert_eq!(
        perm_names(0x40000),
        vec!["Use External Emojis".to_string(), "Use External Emojis".to_string()]
    );
    assert_eq!(perm_names(1 << 33).len(), 0);
}

#[test]
fn render_fixed_messages() {
    assert_eq!(
        render(&DispatchFailure::OnlyForGuilds),
        "You can only use this command in a guild \u{1F633}"
    );
    assert_eq!(
        render(&DispatchFailure::OnlyForOwners),
        "This command is dedicated to my master"
    );
    assert_eq!(
        render(&DispatchFailure::Other),
        "You discovered a very mysterious error"
    );
    assert_eq!(
        render(&DispatchFailure::StoreUnavailable),
        "I lost my whole book where I write things down, sorry.."
    );
    assert_eq!(
        render(&DispatchFailure::OnlyForDm),
        "You can only use this command in my DMs \u{1F633}"
    );
    assert_eq!(
        render(&DispatchFailure::LackingRole),
        "You don't have the roles required for this command.."
    );
    assert_eq!(
        render(&DispatchFailure::BlockedUser),
        "Oops, you're blocked to use this command for some reason.."
    );
    assert_eq!(
        render(&DispatchFailure::CommandDisabled { info: "turned off".to_string() }),
        "turned off"
    );
    assert_eq!(
        render(&DispatchFailure::CheckFailed {
            info: "no bots".to_string(),
            reason: Some("you are a bot".to_string()),
        }),
        "Seems like you don't pass the check.. you are a bot\nno bots"
    );
}

#[test]
fn repeated_denials_are_suppressed() {
    let first = DispatchFailure::RateLimited { retry_after: 10, first: true };
    assert!(handle(&first).is_some());
    let again = DispatchFailure::RateLimited { retry_after: 10, first: false };
    assert!(handle(&again).is_none());
    let other = DispatchFailure::OnlyForDm;
    assert_eq!(handle(&other), Some("You can only use this command in my DMs \u{1F633}".to_string()));
}

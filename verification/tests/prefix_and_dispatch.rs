use discord_search::cmd_error::{render, DispatchFailure};
use discord_search::cmd_prefix::{
    plan_set_prefix, prefix_check, scan_for_command, set_prefix_reply, PrefixCache, Scan,
    SetPrefixPlan, StoreReply,
};
use discord_search::cmd_search::{get_search_embed, set_sites, SearchOutcome};
use discord_search::delivery::{advance, chain_start, ChainState, SendResult};
use discord_search::dispatch::{handle, DispatchOutcome};
use discord_search::globals::{BotConfig, BotInfo, CmdInfo, CommandDef};
use discord_search::ratelimit::{Granularity, RateLimiter};

fn named(names: &[&str]) -> Vec<String> {
    names.iter().map(|s| s.to_string()).collect()
}

fn catalog_defs() -> Vec<CommandDef> {
    vec![
        CommandDef {
            names: named(&["info", "about", "inv"]),
            restricted: false,
            guild_only: false,
            dm_only: false,
            owner_only: false,
            required_perms: 0,
            bucket: 0,
            min_args: None,
            max_args: None,
        },
        CommandDef {
            names: named(&[
                "prefix",
                "setprefix",
                "set_prefix",
                "set-prefix",
                "changeprefix",
                "change_prefix",
                "change-prefix",
            ]),
            restricted: false,
            guild_only: true,
            dm_only: false,
            owner_only: false,
            required_perms: 0x20,
            bucket: 1,
            min_args: None,
            max_args: None,
        },
        CommandDef {
            names: named(&["google", "search"]),
            restricted: true,
            guild_only: false,
            dm_only: false,
            owner_only: false,
            required_perms: 0,
            bucket: 0,
            min_args: None,
            max_args: None,
        },
        CommandDef {
            names: named(&["urban"]),
            restricted: true,
            guild_only: false,
            dm_only: false,
            owner_only: false,
            required_perms: 0,
            bucket: 0,
            min_args: None,
            max_args: None,
        },
    ]
}

fn limiters() -> Vec<RateLimiter> {
    vec![
        RateLimiter::new(Granularity::PerChannel, 600, 10),
        RateLimiter::new(Granularity::PerGuild, 3600, 10),
    ]
}

#[test]
fn catalog_holds_every_name() {
    let info = CmdInfo::set(&catalog_defs());
    let expect = vec![
        "help",
        "info",
        "about",
        "inv",
        "prefix",
        "setprefix",
        "set_prefix",
        "set-prefix",
        "changeprefix",
        "change_prefix",
        "change-prefix",
        "google",
        "search",
        "urban",
    ];
    assert_eq!(info.cmds(), &named(&expect));
    assert_eq!(info.custom_cmds(), &named(&["google", "search", "urban"]));
    // the longest name has 13 characters, widened by ten
    assert_eq!(info.longest_len(), 23);
}

#[test]
fn direct_messages_resolve_to_none() {
    let info = CmdInfo::set(&catalog_defs());
    let r = prefix_check(&info, None, "google cats", &StoreReply::Present("!".to_string()));
    assert_eq!(r, None);
}

#[test]
fn non_matching_text_resolves_to_none() {
    let info = CmdInfo::set(&catalog_defs());
    assert_eq!(scan_for_command(&info, "zzz zzz"), Scan::NotCommand);
    assert_eq!(prefix_check(&info, Some(5), "zzz zzz", &StoreReply::Missing), None);
    assert_eq!(
        prefix_check(&info, Some(5), "zzz zzz", &StoreReply::Present("!".to_string())),
        None
    );
}

#[test]
fn restricted_name_without_dot_resolves_to_none() {
    let info = CmdInfo::set(&catalog_defs());
    assert_eq!(scan_for_command(&info, "urban what"), Scan::NeedStore);
    assert_eq!(prefix_check(&info, Some(5), "urban what", &StoreReply::Missing), None);
}

#[test]
fn restricted_name_with_dot_short_circuits() {
    let info = CmdInfo::set(&catalog_defs());
    assert_eq!(scan_for_command(&info, ".urban what"), Scan::Restricted);
    assert_eq!(
        prefix_check(&info, Some(5), ".urban what", &StoreReply::Missing),
        Some(".".to_string())
    );
    // even a stored custom prefix does not matter here
    assert_eq!(
        prefix_check(&info, Some(5), ".urban what", &StoreReply::Present("!".to_string())),
        Some(".".to_string())
    );
}

#[test]
fn stored_prefix_is_returned() {
    let info = CmdInfo::set(&catalog_defs());
    assert_eq!(
        prefix_check(&info, Some(5), "google cats", &StoreReply::Present("!".to_string())),
        Some("!".to_string())
    );
}

#[test]
fn store_error_degrades_to_not_a_command() {
    let info = CmdInfo::set(&catalog_defs());
    assert_eq!(prefix_check(&info, Some(5), "google cats", &StoreReply::Unavailable), None);
}

#[test]
fn empty_prefix_is_distinct_from_no_row() {
    let info = CmdInfo::set(&catalog_defs());
    // explicitly stored empty prefix: the group needs no prefix at all
    assert_eq!(
        prefix_check(&info, Some(5), "google cats", &StoreReply::Present("".to_string())),
        Some("".to_string())
    );
    // no row at all: resolution yields none and the framework default rules
    assert_eq!(prefix_check(&info, Some(5), "google cats", &StoreReply::Missing), None);
}

#[test]
fn set_prefix_plans() {
    assert!(matches!(plan_set_prefix(None, true, "!"), SetPrefixPlan::NotInGuild));
    assert!(matches!(plan_set_prefix(Some(5), false, "!"), SetPrefixPlan::StoreMissing));
    assert!(matches!(plan_set_prefix(Some(5), true, "12345678901"), SetPrefixPlan::TooLong));
    match plan_set_prefix(Some(5), true, "  ! \t") {
        SetPrefixPlan::Write { guild, prefix } => {
            assert_eq!(guild, 5);
            assert_eq!(prefix, "!");
        }
        _ => panic!("expected a write plan"),
    }
    // ten characters exactly are still fine, and the empty prefix is valid
    assert!(matches!(
        plan_set_prefix(Some(5), true, "1234567890"),
        SetPrefixPlan::Write { .. }
    ));
    match plan_set_prefix(Some(5), true, "   ") {
        SetPrefixPlan::Write { prefix, .. } => assert_eq!(prefix, ""),
        _ => panic!("expected a write plan"),
    }
}

#[test]
fn set_prefix_replies() {
    let plan = plan_set_prefix(Some(5), true, "?!");
    let r = set_prefix_reply(&plan, true);
    assert!(!r.is_error);
    assert_eq!(r.description, "Voila! My prefix here is now `?!`");

    let plan = plan_set_prefix(Some(5), true, "");
    let r = set_prefix_reply(&plan, true);
    assert!(!r.is_error);
    assert_eq!(r.description, "Yay! I don't even need a prefix here anymore");

    let r = set_prefix_reply(&plan, false);
    assert!(r.is_error);
    assert_eq!(r.title, "Ugh, I couldn't write that down..");

    let r = set_prefix_reply(&plan_set_prefix(None, true, "!"), true);
    assert!(r.is_error);
    assert_eq!(r.title, "Something weird happened and I let you use this command in DMs");

    let r = set_prefix_reply(&plan_set_prefix(Some(5), true, "0123456789ab"), true);
    assert!(r.is_error);
    assert_eq!(r.title, "Your prefix can't be longer than 10 characters");

    let r = set_prefix_reply(&plan_set_prefix(Some(5), false, "!"), true);
    assert!(r.is_error);
    assert_eq!(r.title, "Now this is super weird and scary");
}

#[test]
fn cache_read_through_and_invalidate() {
    let mut cache = PrefixCache::new();
    assert!(cache.lookup(5).is_none());
    cache.store(5, Some("!".to_string()));
    assert_eq!(cache.lookup(5), Some(&Some("!".to_string())));
    cache.store(5, Some("?".to_string()));
    assert_eq!(cache.lookup(5), Some(&Some("?".to_string())));
    cache.store(9, None);
    assert_eq!(cache.lookup(9), Some(&None));
    assert_eq!(cache.lookup(5), Some(&Some("?".to_string())));
}

#[test]
fn prefixed_message_dispatches_with_trimmed_args() {
    let defs = catalog_defs();
    let mut lims = limiters();
    let r = handle(
        &defs,
        &mut lims,
        Some(5),
        77,
        1000,
        1,
        0,
        &Some("!".to_string()),
        "!google  cute cats ",
        0,
    );
    assert_eq!(r, DispatchOutcome::Dispatch { cmd: 2, args: "cute cats".to_string() });
}

#[test]
fn names_match_case_insensitively() {
    let defs = catalog_defs();
    let mut lims = limiters();
    let r = handle(&defs, &mut lims, Some(5), 77, 1000, 1, 0, &Some("!".to_string()), "!GoOgLe cats", 0);
    assert!(matches!(r, DispatchOutcome::Dispatch { cmd: 2, .. }));
}

#[test]
fn unresolved_or_unknown_is_not_a_command() {
    let defs = catalog_defs();
    let mut lims = limiters();
    let r = handle(&defs, &mut lims, Some(5), 77, 1000, 1, 0, &None, "!google cats", 0);
    assert_eq!(r, DispatchOutcome::NotACommand);
    let r = handle(&defs, &mut lims, Some(5), 77, 1000, 1, 0, &Some("!".to_string()), "?google cats", 0);
    assert_eq!(r, DispatchOutcome::NotACommand);
    let r = handle(&defs, &mut lims, Some(5), 77, 1000, 1, 0, &Some("!".to_string()), "!wat", 0);
    assert_eq!(r, DispatchOutcome::NotACommand);
}

#[test]
fn guild_only_command_fails_in_dm() {
    let defs = catalog_defs();
    let mut lims = limiters();
    let r = handle(&defs, &mut lims, None, 77, 1000, 1, 0xffff, &Some("".to_string()), "prefix !", 0);
    assert_eq!(r, DispatchOutcome::OnlyForGuilds);
}

#[test]
fn dm_only_command_fails_in_guild() {
    let mut defs = catalog_defs();
    defs[0].dm_only = true;
    let mut lims = limiters();
    let r = handle(&defs, &mut lims, Some(5), 77, 1000, 1, 0, &Some("!".to_string()), "!info", 0);
    assert_eq!(r, DispatchOutcome::OnlyForDm);
}

#[test]
fn owner_restriction() {
    let mut defs = catalog_defs();
    defs[0].owner_only = true;
    let mut lims = limiters();
    let r = handle(&defs, &mut lims, Some(5), 77, 1000, 1, 0, &Some("!".to_string()), "!info", 0);
    assert_eq!(r, DispatchOutcome::OwnersOnly);
    let r = handle(&defs, &mut lims, Some(5), 77, 1, 1, 0, &Some("!".to_string()), "!info", 0);
    assert!(matches!(r, DispatchOutcome::Dispatch { cmd: 0, .. }));
}

#[test]
fn argument_bounds_are_checked() {
    let mut defs = catalog_defs();
    defs[3].min_args = Some(1);
    defs[3].max_args = Some(2);
    let mut lims = limiters();
    let p = Some(";".to_string());
    let r = handle(&defs, &mut lims, Some(5), 77, 1000, 1, 0, &p, ";urban", 0);
    assert_eq!(r, DispatchOutcome::NotEnoughArguments { min: 1, given: 0 });
    let r = handle(&defs, &mut lims, Some(5), 77, 1000, 1, 0, &p, ";urban a b c", 0);
    assert_eq!(r, DispatchOutcome::TooManyArguments { max: 2, given: 3 });
    let r = handle(&defs, &mut lims, Some(5), 77, 1000, 1, 0, &p, ";urban a b", 0);
    assert!(matches!(r, DispatchOutcome::Dispatch { cmd: 3, .. }));
}

#[test]
fn dispatch_is_rate_limited_per_scope() {
    let defs = catalog_defs();
    let mut lims = vec![
        RateLimiter::new(Granularity::PerChannel, 600, 1),
        RateLimiter::new(Granularity::PerGuild, 3600, 10),
    ];
    let p = Some("!".to_string());
    let r = handle(&defs, &mut lims, Some(5), 77, 1000, 1, 0, &p, "!google cats", 0);
    assert!(matches!(r, DispatchOutcome::Dispatch { .. }));
    let r = handle(&defs, &mut lims, Some(5), 77, 1000, 1, 0, &p, "!google cats", 1);
    assert_eq!(r, DispatchOutcome::RateLimited { retry_after: 599, first: true });
    let r = handle(&defs, &mut lims, Some(5), 77, 1000, 1, 0, &p, "!google cats", 1);
    assert_eq!(r, DispatchOutcome::RateLimited { retry_after: 599, first: false });
    // a different channel has its own counters
    let r = handle(&defs, &mut lims, Some(5), 78, 1000, 1, 0, &p, "!google cats", 1);
    assert!(matches!(r, DispatchOutcome::Dispatch { .. }));
}

#[test]
fn lacking_permission_end_to_end() {
    // The author lacks the manage-guild capability and asks to change the
    // prefix: the dispatcher refuses, the reporter names the capability,
    // and the delivery chain posts the text to the origin channel.
    let defs = catalog_defs();
    let mut lims = limiters();
    let r = handle(
        &defs,
        &mut lims,
        Some(5),
        77,
        1000,
        1,
        0x8000,
        &Some("!".to_string()),
        "!prefix newval",
        0,
    );
    assert_eq!(r, DispatchOutcome::LackingPermissions { missing: 0x20 });
    let msg = render(&DispatchFailure::LackingPermissions { missing: 0x20 });
    assert!(msg.contains("Manage Guilds"));
    let s = chain_start(msg);
    let s = advance(s, &SendResult::Sent);
    assert!(matches!(s, ChainState::Done));
}

#[test]
fn search_urls_are_encoded() {
    let sites = set_sites();
    match get_search_embed(Some(&sites[0]), " cute koalas ") {
        SearchOutcome::Built { url } => {
            assert_eq!(url, "https://www.google.com/search?q=cute%20koalas");
        }
        _ => panic!("expected a built URL"),
    }
    match get_search_embed(Some(&sites[1]), "red pandas") {
        SearchOutcome::Built { url } => {
            assert_eq!(url, "https://www.google.com/search?tbm=isch&q=red%20pandas");
        }
        _ => panic!("expected a built URL"),
    }
    match get_search_embed(Some(&sites[2]), "Hund") {
        SearchOutcome::Built { url } => {
            assert_eq!(url, "https://en.wiktionary.org/wiki/Hund");
        }
        _ => panic!("expected a built URL"),
    }
    match get_search_embed(Some(&sites[3]), "third wheel") {
        SearchOutcome::Built { url } => {
            assert_eq!(url, "https://www.urbandictionary.com/define.php?term=third%20wheel");
        }
        _ => panic!("expected a built URL"),
    }
}

#[test]
fn site_table_carries_author_headers() {
    let sites = set_sites();
    assert_eq!(sites[0].author_name, "Google");
    assert_eq!(sites[0].author_url, "https://www.google.com/");
    assert_eq!(sites[1].author_name, "Google Images");
    assert_eq!(sites[1].author_url, "https://images.google.com/");
    assert_eq!(sites[2].author_name, "Wiktionary");
    assert_eq!(sites[2].author_icon, "https://upload.wikimedia.org/wikipedia/commons/0/07/Wiktsister_en.png");
    assert_eq!(sites[3].author_name, "Urban Dictionary");
    assert_eq!(sites[3].author_url, "https://www.urbandictionary.com/");
}

#[test]
fn search_needs_a_term_and_a_site() {
    let sites = set_sites();
    assert!(matches!(get_search_embed(Some(&sites[0]), "  "), SearchOutcome::EmptyTerm));
    assert!(matches!(get_search_embed(None, "cats"), SearchOutcome::SiteMissing));
}

#[test]
fn config_and_identity_getters() {
    let c = BotConfig::new(
        "SECRET-REDACTED".to_string(),
        "search-logs.txt".to_string(),
        true,
        "search-database.sqlite".to_string(),
        "https://example.invalid/invite".to_string(),
        "https://example.invalid/repo".to_string(),
        11771355,
    );
    assert_eq!(c.token().as_str(), "SECRET-REDACTED");
    assert_eq!(c.log_file().as_str(), "search-logs.txt");
    assert!(c.log_guild_added());
    assert_eq!(c.database_file().as_str(), "search-database.sqlite");
    assert_eq!(c.invite().as_str(), "https://example.invalid/invite");
    assert_eq!(c.github().as_str(), "https://example.invalid/repo");
    assert_eq!(c.colour(), 11771355);

    let i = BotInfo::new(1, 2, "searchbot".to_string(), "I search things".to_string());
    assert_eq!(i.owner(), 1);
    assert_eq!(i.user(), 2);
    assert_eq!(i.name().as_str(), "searchbot");
    assert_eq!(i.description().as_str(), "I search things");
}

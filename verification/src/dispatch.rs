//! The dispatcher: matches a message against the catalog using the resolved
//! prefix, then runs the scope, permission, owner, rate-limit and argument
//! checks in order, short-circuiting on the first failure.

use vstd::prelude::*;
use crate::globals::CommandDef;
use crate::ratelimit::{Granularity, RateDecision, RateLimiter, state_of, step};
use crate::text::{
    after_first_word, count_words, eq_ignore_case, first_word, is_ws, lower, split_first_word,
    strip_prefix_ci, trimmed, word_count,
};

verus! {

/// The result of handling one inbound message.
#[derive(Debug, Clone, PartialEq, Eq)]
pub enum DispatchOutcome {
    /// Not a command invocation: silently ignored.
    NotACommand,
    /// All checks passed: invoke command `cmd` with this argument string.
    Dispatch { cmd: usize, args: String },
    /// A guild-only command was sent in a direct conversation.
    OnlyForGuilds,
    /// A DM-only command was sent in a group.
    OnlyForDm,
    /// The author lacks these permission bits.
    LackingPermissions { missing: u64 },
    /// The command is reserved to the bot's owner.
    OwnersOnly,
    /// The command's bucket denied the invocation.
    RateLimited { retry_after: u64, first: bool },
    /// Fewer arguments than the command's minimum.
    NotEnoughArguments { min: usize, given: usize },
    /// More arguments than the command's maximum.
    TooManyArguments { max: usize, given: usize },
}

/// Strips `prefix` case-insensitively and splits the remainder into the
/// command name and the trimmed argument string; none if the text does not
/// begin with the prefix.
pub open spec fn parse_spec(prefix: Seq<char>, text: Seq<char>) -> Option<(Seq<char>, Seq<char>)> {
    if prefix.len() <= text.len() && lower(text.take(prefix.len() as int)) == lower(prefix) {
        let rest = text.skip(prefix.len() as int);
        Some((first_word(rest), trimmed(after_first_word(rest))))
    } else {
        None
    }
}

/// Whether one of `d`'s names equals `name` up to ASCII case.
pub open spec fn name_matches(d: CommandDef, name: Seq<char>) -> bool {
    exists|j: int| 0 <= j < d.names@.len() && lower(#[trigger] d.names@[j]@) == lower(name)
}

/// The first command whose names include `name`, case-insensitively.
pub open spec fn lookup_spec(defs: Seq<CommandDef>, name: Seq<char>) -> Option<int>
    decreases defs.len(),
{
    if defs.len() == 0 {
        None
    } else if name_matches(defs.first(), name) {
        Some(0int)
    } else {
        match lookup_spec(defs.drop_first(), name) {
            Some(i) => Some(i + 1),
            None => None,
        }
    }
}

/// The scope, permission and owner checks all pass for `d`.
pub open spec fn checks_pass(d: CommandDef, guild: Option<u64>, is_owner: bool, perms: u64) -> bool {
    &&& !(d.guild_only && guild is None)
    &&& !(d.dm_only && guild is Some)
    &&& d.required_perms & !perms == 0
    &&& !(d.owner_only && !is_owner)
}

/// What the dispatcher has decided before consulting the rate limiter.
pub enum PreDispatch {
    /// No prefix, no parse, or no catalog match.
    NotACommand,
    /// A scope, permission or owner check failed with this outcome.
    Fail(DispatchOutcome),
    /// Command `cmd` is ready for the rate-limit and argument checks.
    Ready { cmd: int, args: Seq<char> },
}

/// Dispatch steps one to six: prefix, parse, catalog lookup, then the
/// scope, permission and owner checks, in order.
pub open spec fn pre_spec(
    defs: Seq<CommandDef>,
    guild: Option<u64>,
    is_owner: bool,
    perms: u64,
    prefix: Option<Seq<char>>,
    text: Seq<char>,
) -> PreDispatch {
    match prefix {
        None => PreDispatch::NotACommand,
        Some(p) => match parse_spec(p, text) {
            None => PreDispatch::NotACommand,
            Some((name, args)) => match lookup_spec(defs, name) {
                None => PreDispatch::NotACommand,
                Some(i) => {
                    let d = defs[i];
                    if d.guild_only && guild is None {
                        PreDispatch::Fail(DispatchOutcome::OnlyForGuilds)
                    } else if d.dm_only && guild is Some {
                        PreDispatch::Fail(DispatchOutcome::OnlyForDm)
                    } else if d.required_perms & !perms != 0 {
                        PreDispatch::Fail(
                            DispatchOutcome::LackingPermissions {
                                missing: d.required_perms & !perms,
                            },
                        )
                    } else if d.owner_only && !is_owner {
                        PreDispatch::Fail(DispatchOutcome::OwnersOnly)
                    } else {
                        PreDispatch::Ready { cmd: i, args }
                    }
                },
            },
        },
    }
}

/// The scope key a bucket's counters are partitioned by: the channel, or
/// the guild (falling back to the channel outside one).
pub open spec fn scope_key_spec(g: Granularity, guild: Option<u64>, channel: u64) -> u64 {
    match g {
        Granularity::PerChannel => channel,
        Granularity::PerGuild => match guild {
            Some(x) => x,
            None => channel,
        },
    }
}

/// The view of an optional resolved prefix.
pub open spec fn opt_str_view(o: Option<String>) -> Option<Seq<char>> {
    match o {
        Some(s) => Some(s@),
        None => None,
    }
}

fn def_matches(d: &CommandDef, name: &str) -> (r: bool)
    ensures
        r == name_matches(*d, name@),
{
    let n = d.names.len();
    for j in 0..n
        invariant
            n == d.names@.len(),
            forall|k: int| 0 <= k < j ==> lower(#[trigger] d.names@[k]@) != lower(name@),
    {
        if eq_ignore_case(d.names[j].as_str(), name) {
            assert(lower(d.names@[j as int]@) == lower(name@));
            return true;
        }
    }
    false
}

fn lookup_from(defs: &Vec<CommandDef>, name: &str, i: usize) -> (r: Option<usize>)
    requires
        i <= defs@.len(),
    ensures
        match r {
            Some(x) => i <= x < defs@.len() && lookup_spec(defs@.skip(i as int), name@) == Some(
                x - i,
            ),
            None => lookup_spec(defs@.skip(i as int), name@) is None,
        },
    decreases defs@.len() - i,
{
    if i == defs.len() {
        None
    } else {
        assert(defs@.skip(i as int).first() == defs@[i as int]);
        if def_matches(&defs[i], name) {
            Some(i)
        } else {
            let r = lookup_from(defs, name, i + 1);
            assert(defs@.skip(i as int).drop_first() =~= defs@.skip(i + 1));
            r
        }
    }
}

/// Looks `name` up in the catalog, case-insensitively, aliases included.
pub fn lookup_cmd(defs: &Vec<CommandDef>, name: &str) -> (r: Option<usize>)
    ensures
        match r {
            Some(x) => x < defs@.len() && lookup_spec(defs@, name@) == Some(x as int),
            None => lookup_spec(defs@, name@) is None,
        },
{
    let r = lookup_from(defs, name, 0);
    assert(defs@.skip(0) =~= defs@);
    r
}

/// Handles one inbound message: resolves nothing itself, but applies the
/// already-resolved `prefix` and runs every dispatch check in order against
/// the catalog, the author and the command's rate-limit bucket. Only the
/// matched command's bucket is touched.
pub fn handle(
    defs: &Vec<CommandDef>,
    limiters: &mut Vec<RateLimiter>,
    guild: Option<u64>,
    channel: u64,
    author: u64,
    owner: u64,
    author_perms: u64,
    prefix: &Option<String>,
    content: &str,
    now: u64,
) -> (r: DispatchOutcome)
    requires
        forall|i: int|
            0 <= i < defs@.len() ==> (#[trigger] defs@[i].bucket) < old(limiters)@.len(),
    ensures
        ({
            let pre = pre_spec(
                defs@,
                guild,
                author == owner,
                author_perms,
                opt_str_view(*prefix),
                content@,
            );
            match pre {
                PreDispatch::NotACommand => r == DispatchOutcome::NotACommand && final(limiters)@
                    == old(limiters)@,
                PreDispatch::Fail(f) => r == f && final(limiters)@ == old(limiters)@,
                PreDispatch::Ready { cmd, args } => {
                    let d = defs@[cmd];
                    let b = d.bucket as int;
                    let key = scope_key_spec(old(limiters)@[b].policy().granularity, guild, channel);
                    let (s2, dec) = step(
                        old(limiters)@[b].policy(),
                        state_of(old(limiters)@[b]@, key),
                        now,
                    );
                    &&& final(limiters)@.len() == old(limiters)@.len()
                    &&& final(limiters)@[b]@ == old(limiters)@[b]@.insert(key, s2)
                    &&& final(limiters)@[b].policy() == old(limiters)@[b].policy()
                    &&& forall|k: int|
                        0 <= k < old(limiters)@.len() && k != b ==> final(limiters)@[k] == old(
                            limiters,
                        )@[k]
                    &&& match dec {
                        RateDecision::Denied { retry_after, first } => r
                            == DispatchOutcome::RateLimited { retry_after, first },
                        RateDecision::Allowed => {
                            let wc = word_count(args);
                            if d.min_args is Some && wc < d.min_args->0 {
                                r == DispatchOutcome::NotEnoughArguments {
                                    min: d.min_args->0,
                                    given: wc as usize,
                                }
                            } else if d.max_args is Some && wc > d.max_args->0 {
                                r == DispatchOutcome::TooManyArguments {
                                    max: d.max_args->0,
                                    given: wc as usize,
                                }
                            } else {
                                r matches DispatchOutcome::Dispatch { cmd: c2, args: a2 } && c2
                                    == cmd && a2@ == args
                            }
                        },
                    }
                },
            }
        }),
{
    let p = match prefix {
        Some(p) => p,
        None => {
            return DispatchOutcome::NotACommand;
        },
    };
    let rest = match strip_prefix_ci(content, p.as_str()) {
        Some(rest) => rest,
        None => {
            return DispatchOutcome::NotACommand;
        },
    };
    let (name, args) = split_first_word(rest);
    let i = match lookup_cmd(defs, name) {
        Some(i) => i,
        None => {
            return DispatchOutcome::NotACommand;
        },
    };
    let d = &defs[i];
    if d.guild_only && guild.is_none() {
        return DispatchOutcome::OnlyForGuilds;
    }
    if d.dm_only && guild.is_some() {
        return DispatchOutcome::OnlyForDm;
    }
    let missing = d.required_perms & !author_perms;
    if missing != 0 {
        return DispatchOutcome::LackingPermissions { missing };
    }
    if d.owner_only && author != owner {
        return DispatchOutcome::OwnersOnly;
    }
    let b = d.bucket;
    let lim = &mut limiters[b];
    let key = match lim.bucket().granularity {
        Granularity::PerChannel => channel,
        Granularity::PerGuild => match guild {
            Some(g) => g,
            None => channel,
        },
    };
    match lim.check(key, now) {
        RateDecision::Denied { retry_after, first } => DispatchOutcome::RateLimited {
            retry_after,
            first,
        },
        RateDecision::Allowed => {
            let given = count_words(args);
            let too_few = match d.min_args {
                Some(mn) => given < mn,
                None => false,
            };
            if too_few {
                let mn = match d.min_args {
                    Some(mn) => mn,
                    None => 0,
                };
                return DispatchOutcome::NotEnoughArguments { min: mn, given };
            }
            let too_many = match d.max_args {
                Some(mx) => given > mx,
                None => false,
            };
            if too_many {
                let mx = match d.max_args {
                    Some(mx) => mx,
                    None => 0,
                };
                return DispatchOutcome::TooManyArguments { max: mx, given };
            }
            DispatchOutcome::Dispatch { cmd: i, args: args.to_owned() }
        },
    }
}

proof fn lemma_word_len_concat(name: Seq<char>, rest: Seq<char>)
    requires
        forall|k: int| 0 <= k < name.len() ==> !is_ws(#[trigger] name[k]),
        rest.len() == 0 || is_ws(rest[0]),
    ensures
        crate::text::word_len(name + rest) == name.len(),
    decreases name.len(),
{
    if name.len() == 0 {
        assert(name + rest =~= rest);
    } else {
        assert((name + rest)[0] == name[0]);
        assert((name + rest).drop_first() =~= name.drop_first() + rest);
        lemma_word_len_concat(name.drop_first(), rest);
    }
}

/// A message that is exactly a prefix, a whitespace-free command name, and
/// an argument tail (empty or starting with whitespace) parses back into
/// that name and the trimmed tail.
pub proof fn lemma_prefixed_message_parses(prefix: Seq<char>, name: Seq<char>, rest: Seq<char>)
    requires
        name.len() > 0,
        forall|k: int| 0 <= k < name.len() ==> !is_ws(#[trigger] name[k]),
        rest.len() == 0 || is_ws(rest[0]),
    ensures
        parse_spec(prefix, prefix + name + rest) == Some((name, trimmed(rest))),
{
    let text = prefix + name + rest;
    assert(text.take(prefix.len() as int) =~= prefix);
    let s = text.skip(prefix.len() as int);
    assert(s =~= name + rest);
    assert(s[0] == name[0]);
    assert(crate::text::ws_count(s) == 0);
    lemma_word_len_concat(name, rest);
    assert(s.skip(0) =~= s);
    assert(first_word(s) =~= name);
    assert(after_first_word(s) =~= rest);
}

/// A message built as prefix + name + arguments dispatches the catalog
/// command owning that name, with the trimmed argument string, whenever the
/// name is in the catalog and the author passes the command's checks.
pub proof fn lemma_prefixed_message_dispatches(
    defs: Seq<CommandDef>,
    prefix: Seq<char>,
    name: Seq<char>,
    rest: Seq<char>,
    guild: Option<u64>,
    is_owner: bool,
    perms: u64,
)
    requires
        name.len() > 0,
        forall|k: int| 0 <= k < name.len() ==> !is_ws(#[trigger] name[k]),
        rest.len() == 0 || is_ws(rest[0]),
        lookup_spec(defs, name) is Some,
        checks_pass(defs[lookup_spec(defs, name)->0], guild, is_owner, perms),
    ensures
        pre_spec(defs, guild, is_owner, perms, Some(prefix), prefix + name + rest)
            == (PreDispatch::Ready { cmd: lookup_spec(defs, name)->0, args: trimmed(rest) }),
{
    lemma_prefixed_message_parses(prefix, name, rest);
}

} // verus!

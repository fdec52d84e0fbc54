//! User-facing rendering of dispatch failures: a pure mapping, one branch
//! per failure kind, with a generic fallback so the bot always answers with
//! something; repeated rate-limit denials in one window are suppressed.

use vstd::prelude::*;

verus! {

/// A dispatch failure, as handed to the reporter.
pub enum DispatchFailure {
    /// A custom check on the command rejected the author.
    CheckFailed { info: String, reason: Option<String> },
    /// The command's bucket denied the invocation.
    RateLimited { retry_after: u64, first: bool },
    /// The command is disabled; the text explains it.
    CommandDisabled { info: String },
    /// The author lacks these permission bits.
    LackingPermissions { missing: u64 },
    /// Fewer arguments than the command's minimum.
    NotEnoughArguments { min: usize, given: usize },
    /// More arguments than the command's maximum.
    TooManyArguments { max: usize, given: usize },
    /// The author is blocked.
    BlockedUser,
    /// The guild or its owner is blocked.
    BlockedGuild,
    /// The channel is blocked.
    BlockedChannel,
    /// The command only works in a direct conversation.
    OnlyForDm,
    /// The command only works in a guild.
    OnlyForGuilds,
    /// The command is reserved to the bot's owner.
    OnlyForOwners,
    /// The author lacks a required role.
    LackingRole,
    /// The backing store could not be reached.
    StoreUnavailable,
    /// Anything unrecognised.
    Other,
}

/// The decimal digit character for `d`.
pub open spec fn digit_char(d: nat) -> char {
    if d == 0 {
        '0'
    } else if d == 1 {
        '1'
    } else if d == 2 {
        '2'
    } else if d == 3 {
        '3'
    } else if d == 4 {
        '4'
    } else if d == 5 {
        '5'
    } else if d == 6 {
        '6'
    } else if d == 7 {
        '7'
    } else if d == 8 {
        '8'
    } else {
        '9'
    }
}

/// The decimal rendering of `n`, most significant digit first.
pub open spec fn dec_digits(n: nat) -> Seq<char>
    decreases n,
{
    if n < 10 {
        seq![digit_char(n)]
    } else {
        dec_digits(n / 10).push(digit_char(n % 10))
    }
}

fn digit_str(d: u64) -> (r: &'static str)
    requires
        d < 10,
    ensures
        r@ == seq![digit_char(d as nat)],
{
    proof {
        reveal_strlit("0");
        reveal_strlit("1");
        reveal_strlit("2");
        reveal_strlit("3");
        reveal_strlit("4");
        reveal_strlit("5");
        reveal_strlit("6");
        reveal_strlit("7");
        reveal_strlit("8");
        reveal_strlit("9");
    }
    if d == 0 {
        "0"
    } else if d == 1 {
        "1"
    } else if d == 2 {
        "2"
    } else if d == 3 {
        "3"
    } else if d == 4 {
        "4"
    } else if d == 5 {
        "5"
    } else if d == 6 {
        "6"
    } else if d == 7 {
        "7"
    } else if d == 8 {
        "8"
    } else {
        "9"
    }
}

/// Renders `n` in decimal.
pub fn u64_to_dec(n: u64) -> (r: String)
    ensures
        r@ == dec_digits(n as nat),
    decreases n,
{
    if n < 10 {
        digit_str(n).to_owned()
    } else {
        let mut s = u64_to_dec(n / 10);
        s.append(digit_str(n % 10));
        assert(s@ =~= dec_digits(n as nat));
        s
    }
}

/// The permission-name table: the mask and display name of each permission
/// the reporter knows, in the order they are rendered. Two rows guard the
/// same bit under the name `Use External Emojis`, so that name renders
/// twice when the bit is missing.
pub open spec fn perm_table(i: int) -> (u64, Seq<char>) {
    if i == 0 {
        (0x40, "Add Reactions"@)
    } else if i == 1 {
        (0x8, "Administrator"@)
    } else if i == 2 {
        (0x8000, "Attach Files"@)
    } else if i == 3 {
        (0x4, "Ban Members"@)
    } else if i == 4 {
        (0x4000000, "Change Nickname"@)
    } else if i == 5 {
        (0x100000, "Connect"@)
    } else if i == 6 {
        (0x1, "Create Invite"@)
    } else if i == 7 {
        (0x800000, "Deafen Members"@)
    } else if i == 8 {
        (0x4000, "Embed Links"@)
    } else if i == 9 {
        (0x40000, "Use External Emojis"@)
    } else if i == 10 {
        (0x2, "Kick Members"@)
    } else if i == 11 {
        (0x10, "Manage Channels"@)
    } else if i == 12 {
        (0x40000000, "Manage Emojis"@)
    } else if i == 13 {
        (0x20, "Manage Guilds"@)
    } else if i == 14 {
        (0x2000, "Manage Messages"@)
    } else if i == 15 {
        (0x8000000, "Manage Nicknames"@)
    } else if i == 16 {
        (0x10000000, "Manage Roles"@)
    } else if i == 17 {
        (0x20000000, "Manage Webhooks"@)
    } else if i == 18 {
        (0x20000, "Mention Everyone"@)
    } else if i == 19 {
        (0x1000000, "Move Members"@)
    } else if i == 20 {
        (0x400000, "Mute Members"@)
    } else if i == 21 {
        (0x100, "Priority Speaker"@)
    } else if i == 22 {
        (0x10000, "Read Message History"@)
    } else if i == 23 {
        (0x100000000, "Request To Speak"@)
    } else if i == 24 {
        (0x400, "Read Messages"@)
    } else if i == 25 {
        (0x800, "Send Messages"@)
    } else if i == 26 {
        (0x1000, "Send TTS Messages"@)
    } else if i == 27 {
        (0x200000, "Speak"@)
    } else if i == 28 {
        (0x200, "Stream"@)
    } else if i == 29 {
        (0x40000, "Use External Emojis"@)
    } else if i == 30 {
        (0x80000000, "Use Slash Commands"@)
    } else if i == 31 {
        (0x2000000, "Use Voice Activity"@)
    } else {
        (0x80, "View Audit Log"@)
    }
}

/// How many rows the table has.
pub open spec fn perm_table_len() -> int {
    33
}

/// The names of the table rows from `i` on whose bits are set in `m`.
pub open spec fn perm_names_from(m: u64, i: int) -> Seq<Seq<char>>
    decreases perm_table_len() - i,
{
    if i < 0 || i >= perm_table_len() {
        Seq::empty()
    } else {
        (if m & perm_table(i).0 != 0 {
            seq![perm_table(i).1]
        } else {
            Seq::<Seq<char>>::empty()
        }) + perm_names_from(m, i + 1)
    }
}

/// The display names of the permission bits set in `m`, in table order.
pub open spec fn perm_names_spec(m: u64) -> Seq<Seq<char>> {
    perm_names_from(m, 0)
}

fn perm_entry(i: usize) -> (r: (u64, &'static str))
    requires
        i < perm_table_len(),
    ensures
        r.0 == perm_table(i as int).0,
        r.1@ == perm_table(i as int).1,
{
    if i == 0 {
        (0x40, "Add Reactions")
    } else if i == 1 {
        (0x8, "Administrator")
    } else if i == 2 {
        (0x8000, "Attach Files")
    } else if i == 3 {
        (0x4, "Ban Members")
    } else if i == 4 {
        (0x4000000, "Change Nickname")
    } else if i == 5 {
        (0x100000, "Connect")
    } else if i == 6 {
        (0x1, "Create Invite")
    } else if i == 7 {
        (0x800000, "Deafen Members")
    } else if i == 8 {
        (0x4000, "Embed Links")
    } else if i == 9 {
        (0x40000, "Use External Emojis")
    } else if i == 10 {
        (0x2, "Kick Members")
    } else if i == 11 {
        (0x10, "Manage Channels")
    } else if i == 12 {
        (0x40000000, "Manage Emojis")
    } else if i == 13 {
        (0x20, "Manage Guilds")
    } else if i == 14 {
        (0x2000, "Manage Messages")
    } else if i == 15 {
        (0x8000000, "Manage Nicknames")
    } else if i == 16 {
        (0x10000000, "Manage Roles")
    } else if i == 17 {
        (0x20000000, "Manage Webhooks")
    } else if i == 18 {
        (0x20000, "Mention Everyone")
    } else if i == 19 {
        (0x1000000, "Move Members")
    } else if i == 20 {
        (0x400000, "Mute Members")
    } else if i == 21 {
        (0x100, "Priority Speaker")
    } else if i == 22 {
        (0x10000, "Read Message History")
    } else if i == 23 {
        (0x100000000, "Request To Speak")
    } else if i == 24 {
        (0x400, "Read Messages")
    } else if i == 25 {
        (0x800, "Send Messages")
    } else if i == 26 {
        (0x1000, "Send TTS Messages")
    } else if i == 27 {
        (0x200000, "Speak")
    } else if i == 28 {
        (0x200, "Stream")
    } else if i == 29 {
        (0x40000, "Use External Emojis")
    } else if i == 30 {
        (0x80000000, "Use Slash Commands")
    } else if i == 31 {
        (0x2000000, "Use Voice Activity")
    } else {
        (0x80, "View Audit Log")
    }
}

/// Lists the display names of the permission bits set in `m`.
pub fn perm_names(m: u64) -> (r: Vec<String>)
    ensures
        crate::globals::views_of(r@) == perm_names_spec(m),
{
    let mut v: Vec<String> = Vec::new();
    assert(crate::globals::views_of(v@) =~= Seq::<Seq<char>>::empty());
    for i in 0..33usize
        invariant
            perm_names_spec(m) == crate::globals::views_of(v@) + perm_names_from(m, i as int),
    {
        let (mask, name) = perm_entry(i);
        let ghost before = v@;
        if m & mask != 0 {
            v.push(name.to_owned());
            proof {
                assert(crate::globals::views_of(v@) =~= crate::globals::views_of(before).push(
                    perm_table(i as int).1,
                ));
            }
        }
        proof {
            assert(crate::globals::views_of(v@) + perm_names_from(m, i + 1)
                =~= crate::globals::views_of(before) + perm_names_from(m, i as int));
        }
    }
    proof {
        assert(perm_names_from(m, 33) =~= Seq::<Seq<char>>::empty());
        assert(crate::globals::views_of(v@) =~= perm_names_spec(m));
    }
    v
}

/// `parts` joined by a newline.
pub open spec fn join_nl(parts: Seq<Seq<char>>) -> Seq<char>
    decreases parts.len(),
{
    if parts.len() == 0 {
        Seq::empty()
    } else if parts.len() == 1 {
        parts[0]
    } else {
        parts.first() + seq!['\n'] + join_nl(parts.drop_first())
    }
}

fn join_from(parts: &Vec<String>, i: usize) -> (r: String)
    requires
        i <= parts@.len(),
    ensures
        r@ == join_nl(crate::globals::views_of(parts@).skip(i as int)),
    decreases parts@.len() - i,
{
    let ghost rest = crate::globals::views_of(parts@).skip(i as int);
    let n = parts.len();
    if i == n {
        assert(rest.len() == 0);
        String::new()
    } else if i + 1 == n {
        assert(rest.len() == 1);
        assert(rest[0] == parts@[i as int]@);
        parts[i].clone()
    } else {
        assert(rest.first() == parts@[i as int]@);
        let mut s = parts[i].clone();
        s.append("\n");
        let tail = join_from(parts, i + 1);
        s.append(tail.as_str());
        proof {
            reveal_strlit("\n");
            assert("\n"@ =~= seq!['\n']);
            assert(rest.drop_first() =~= crate::globals::views_of(parts@).skip(i + 1));
        }
        s
    }
}

/// Joins strings with newlines.
pub fn join_lines(parts: &Vec<String>) -> (r: String)
    ensures
        r@ == join_nl(crate::globals::views_of(parts@)),
{
    let r = join_from(parts, 0);
    assert(crate::globals::views_of(parts@).skip(0) =~= crate::globals::views_of(parts@));
    r
}

/// The user-facing text for each failure kind.
pub open spec fn render_spec(f: DispatchFailure) -> Seq<char> {
    match f {
        DispatchFailure::CheckFailed { info, reason } => match reason {
            Some(r) => "Seems like you don't pass the check.. "@ + r@ + "\n"@ + info@,
            None => "Seems like you don't pass the check.. "@ + info@,
        },
        DispatchFailure::RateLimited { retry_after, first: _ } => "Calm down and try again in "@
            + dec_digits(retry_after as nat) + " seconds please"@,
        DispatchFailure::CommandDisabled { info } => info@,
        DispatchFailure::LackingPermissions { missing } =>
            "**You need these permissions to run this command and you don't have them** \u{1F624}\n"@
            + join_nl(perm_names_spec(missing)),
        DispatchFailure::NotEnoughArguments { min, given } => "This command needs "@ + dec_digits(
            min as nat,
        ) + " arguments\u{2122} after it but you only gave "@ + dec_digits(given as nat) + ".."@,
        DispatchFailure::TooManyArguments { max, given } => "This command can't take more than "@
            + dec_digits(max as nat) + " arguments\u{2122} but you gave "@ + dec_digits(given as nat)
            + ".."@,
        DispatchFailure::BlockedUser => "Oops, you're blocked to use this command for some reason.."@,
        DispatchFailure::BlockedGuild =>
            "Oops, the guild or its owner is blocked to use this command for some reason.."@,
        DispatchFailure::BlockedChannel =>
            "Oops, the channel is blocked to use this command for some reason.."@,
        DispatchFailure::OnlyForDm => "You can only use this command in my DMs \u{1F633}"@,
        DispatchFailure::OnlyForGuilds => "You can only use this command in a guild \u{1F633}"@,
        DispatchFailure::OnlyForOwners => "This command is dedicated to my master"@,
        DispatchFailure::LackingRole => "You don't have the roles required for this command.."@,
        DispatchFailure::StoreUnavailable =>
            "I lost my whole book where I write things down, sorry.."@,
        DispatchFailure::Other => "You discovered a very mysterious error"@,
    }
}

/// Renders a failure into its user-facing text, as [`render_spec`] says.
pub fn render(f: &DispatchFailure) -> (r: String)
    ensures
        r@ == render_spec(*f),
{
    match f {
        DispatchFailure::CheckFailed { info, reason } => match reason {
            Some(why) => {
                let mut s = String::from_str("Seems like you don't pass the check.. ");
                s.append(why.as_str());
                s.append("\n");
                s.append(info.as_str());
                s
            },
            None => {
                let mut s = String::from_str("Seems like you don't pass the check.. ");
                s.append(info.as_str());
                s
            },
        },
        DispatchFailure::RateLimited { retry_after, first: _ } => {
            let mut s = String::from_str("Calm down and try again in ");
            let d = u64_to_dec(*retry_after);
            s.append(d.as_str());
            s.append(" seconds please");
            s
        },
        DispatchFailure::CommandDisabled { info } => info.clone(),
        DispatchFailure::LackingPermissions { missing } => {
            let mut s = String::from_str(
                "**You need these permissions to run this command and you don't have them** \u{1F624}\n",
            );
            let names = perm_names(*missing);
            let joined = join_lines(&names);
            s.append(joined.as_str());
            s
        },
        DispatchFailure::NotEnoughArguments { min, given } => {
            let mut s = String::from_str("This command needs ");
            let d1 = u64_to_dec(*min as u64);
            s.append(d1.as_str());
            s.append(" arguments\u{2122} after it but you only gave ");
            let d2 = u64_to_dec(*given as u64);
            s.append(d2.as_str());
            s.append("..");
            s
        },
        DispatchFailure::TooManyArguments { max, given } => {
            let mut s = String::from_str("This command can't take more than ");
            let d1 = u64_to_dec(*max as u64);
            s.append(d1.as_str());
            s.append(" arguments\u{2122} but you gave ");
            let d2 = u64_to_dec(*given as u64);
            s.append(d2.as_str());
            s.append("..");
            s
        },
        DispatchFailure::BlockedUser => String::from_str(
            "Oops, you're blocked to use this command for some reason..",
        ),
        DispatchFailure::BlockedGuild => String::from_str(
            "Oops, the guild or its owner is blocked to use this command for some reason..",
        ),
        DispatchFailure::BlockedChannel => String::from_str(
            "Oops, the channel is blocked to use this command for some reason..",
        ),
        DispatchFailure::OnlyForDm => String::from_str("You can only use this command in my DMs \u{1F633}"),
        DispatchFailure::OnlyForGuilds => String::from_str(
            "You can only use this command in a guild \u{1F633}",
        ),
        DispatchFailure::OnlyForOwners => String::from_str(
            "This command is dedicated to my master",
        ),
        DispatchFailure::LackingRole => String::from_str(
            "You don't have the roles required for this command..",
        ),
        DispatchFailure::StoreUnavailable => String::from_str(
            "I lost my whole book where I write things down, sorry..",
        ),
        DispatchFailure::Other => String::from_str("You discovered a very mysterious error"),
    }
}

/// Handles one dispatch failure: a repeated rate-limit denial in the same
/// window is dropped silently; every other failure is rendered for the
/// user.
pub fn handle(f: &DispatchFailure) -> (r: Option<String>)
    ensures
        match *f {
            DispatchFailure::RateLimited { retry_after: _, first } => if first {
                r matches Some(s) && s@ == render_spec(*f)
            } else {
                r is None
            },
            _ => r matches Some(s) && s@ == render_spec(*f),
        },
{
    if let DispatchFailure::RateLimited { retry_after: _, first } = f {
        if !*first {
            return None;
        }
    }
    Some(render(f))
}

} // verus!

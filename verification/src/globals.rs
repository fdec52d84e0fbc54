//! Process-lifetime configuration objects: bot configuration, bot identity,
//! and the immutable command catalog built once at startup.

use vstd::prelude::*;

verus! {

/// Static configuration, loaded once at startup and never mutated.
pub struct BotConfig {
    pub token: String,
    pub log_file: String,
    pub log_guild_added: bool,
    pub database_file: String,
    pub invite: String,
    pub github: String,
    pub colour: u32,
}

impl BotConfig {
    /// Builds the configuration object from already-parsed values.
    pub fn new(
        token: String,
        log_file: String,
        log_guild_added: bool,
        database_file: String,
        invite: String,
        github: String,
        colour: u32,
    ) -> (r: BotConfig)
        ensures
            r.token@ == token@,
            r.log_file@ == log_file@,
            r.log_guild_added == log_guild_added,
            r.database_file@ == database_file@,
            r.invite@ == invite@,
            r.github@ == github@,
            r.colour == colour,
    {
        BotConfig { token, log_file, log_guild_added, database_file, invite, github, colour }
    }

    /// The gateway authentication token.
    pub fn token(&self) -> (r: &String)
        ensures
            r@ == self.token@,
    {
        &self.token
    }

    /// The file the operational log falls back to.
    pub fn log_file(&self) -> (r: &String)
        ensures
            r@ == self.log_file@,
    {
        &self.log_file
    }

    /// Whether joining a new guild should be logged.
    pub fn log_guild_added(&self) -> (r: bool)
        ensures
            r == self.log_guild_added,
    {
        self.log_guild_added
    }

    /// The file holding the prefix database.
    pub fn database_file(&self) -> (r: &String)
        ensures
            r@ == self.database_file@,
    {
        &self.database_file
    }

    /// The bot's invite link.
    pub fn invite(&self) -> (r: &String)
        ensures
            r@ == self.invite@,
    {
        &self.invite
    }

    /// The bot's repository page.
    pub fn github(&self) -> (r: &String)
        ensures
            r@ == self.github@,
    {
        &self.github
    }

    /// The embed colour used for non-error replies.
    pub fn colour(&self) -> (r: u32)
        ensures
            r == self.colour,
    {
        self.colour
    }
}

/// The bot's identity, fetched once from the gateway at startup.
pub struct BotInfo {
    pub owner: u64,
    pub user: u64,
    pub name: String,
    pub description: String,
}

impl BotInfo {
    /// Builds the identity object from already-fetched values.
    pub fn new(owner: u64, user: u64, name: String, description: String) -> (r: BotInfo)
        ensures
            r.owner == owner,
            r.user == user,
            r.name@ == name@,
            r.description@ == description@,
    {
        BotInfo { owner, user, name, description }
    }

    /// The account that owns the bot.
    pub fn owner(&self) -> (r: u64)
        ensures
            r == self.owner,
    {
        self.owner
    }

    /// The bot's own account.
    pub fn user(&self) -> (r: u64)
        ensures
            r == self.user,
    {
        self.user
    }

    /// The bot's account name.
    pub fn name(&self) -> (r: &String)
        ensures
            r@ == self.name@,
    {
        &self.name
    }

    /// The bot's profile description.
    pub fn description(&self) -> (r: &String)
        ensures
            r@ == self.description@,
    {
        &self.description
    }
}

/// One registered command: its names (canonical name first, then aliases)
/// and the checks the dispatcher runs before invoking it.
pub struct CommandDef {
    /// Canonical name and aliases, matched case-insensitively.
    pub names: Vec<String>,
    /// Reachable via the fixed `.` fallback prefix regardless of the
    /// configured prefix.
    pub restricted: bool,
    /// Only usable inside a group conversation.
    pub guild_only: bool,
    /// Only usable in a direct conversation.
    pub dm_only: bool,
    /// Only usable by the bot's owner.
    pub owner_only: bool,
    /// Permission bits the author must all hold.
    pub required_perms: u64,
    /// Index of the rate-limit bucket this command is billed to.
    pub bucket: usize,
    /// Fewest arguments accepted, if bounded.
    pub min_args: Option<usize>,
    /// Most arguments accepted, if bounded.
    pub max_args: Option<usize>,
}

/// The views of a sequence of strings.
pub open spec fn views_of(names: Seq<String>) -> Seq<Seq<char>> {
    Seq::new(names.len(), |i: int| names[i]@)
}

/// All names declared by `defs`, in registration order; only those of
/// restricted commands when `restricted_only` is set.
pub open spec fn names_of(defs: Seq<CommandDef>, restricted_only: bool) -> Seq<Seq<char>>
    decreases defs.len(),
{
    if defs.len() == 0 {
        Seq::empty()
    } else {
        names_of(defs.drop_last(), restricted_only) + (if !restricted_only
            || defs.last().restricted {
            views_of(defs.last().names@)
        } else {
            Seq::empty()
        })
    }
}

/// The length of the longest string in `names` (zero if there are none).
pub open spec fn max_len(names: Seq<Seq<char>>) -> nat
    decreases names.len(),
{
    if names.len() == 0 {
        0
    } else {
        let m = max_len(names.drop_last());
        if names.last().len() > m {
            names.last().len()
        } else {
            m
        }
    }
}

/// Every element of `names` is at most `bound` characters long.
pub open spec fn names_bounded(names: Seq<Seq<char>>, bound: nat) -> bool {
    forall|i: int| 0 <= i < names.len() ==> #[trigger] names[i].len() <= bound
}

proof fn lemma_max_len_bounded(names: Seq<Seq<char>>, bound: nat)
    requires
        names_bounded(names, bound),
    ensures
        max_len(names) <= bound,
    decreases names.len(),
{
    if names.len() > 0 {
        assert(names_bounded(names.drop_last(), bound));
        lemma_max_len_bounded(names.drop_last(), bound);
    }
}

/// The immutable command catalog: the ordered set of command names
/// (aliases included), the restricted subset, and a bound on name length
/// used to cap prefix-scan cost.
pub struct CmdInfo {
    pub cmds: Vec<String>,
    pub longest_len: u8,
    pub custom_cmds: Vec<String>,
}

impl CmdInfo {
    /// Builds the catalog from the registered command definitions: the
    /// built-in `help` name first, then every name of every command in
    /// registration order; the names of restricted commands are collected
    /// separately; and the longest name length, widened by ten to bound
    /// how much of a message a prefix scan must look at.
    pub fn set(defs: &Vec<CommandDef>) -> (r: CmdInfo)
        requires
            forall|i: int, j: int|
                0 <= i < defs@.len() && 0 <= j < defs@[i].names@.len() ==> (
                #[trigger] defs@[i].names@[j])@.len() <= 245,
        ensures
            views_of(r.cmds@) == seq!["help"@] + names_of(defs@, false),
            views_of(r.custom_cmds@) == names_of(defs@, true),
            r.longest_len == max_len(views_of(r.cmds@)) + 10,
    {
        let mut cmds: Vec<String> = Vec::new();
        cmds.push(String::from_str("help"));
        let mut custom: Vec<String> = Vec::new();
        proof {
            reveal_strlit("help");
            assert(views_of(cmds@) =~= seq!["help"@] + names_of(defs@.take(0), false));
            assert(views_of(custom@) =~= names_of(defs@.take(0), true));
        }

        let n = defs.len();
        for i in 0..n
            invariant
                n == defs@.len(),
                views_of(cmds@) == seq!["help"@] + names_of(defs@.take(i as int), false),
                views_of(custom@) == names_of(defs@.take(i as int), true),
                names_bounded(views_of(cmds@), 245),
                forall|a: int, b: int|
                    0 <= a < defs@.len() && 0 <= b < defs@[a].names@.len() ==> (
                    #[trigger] defs@[a].names@[b])@.len() <= 245,
        {
            let names = &defs[i].names;
            let m = names.len();
            for j in 0..m
                invariant
                    n == defs@.len(),
                    i < n,
                    m == names@.len(),
                    names@ == defs@[i as int].names@,
                    views_of(cmds@) == seq!["help"@] + names_of(defs@.take(i as int), false)
                        + views_of(names@.take(j as int)),
                    views_of(custom@) == names_of(defs@.take(i as int), true) + (if defs@[i as int].restricted {
                        views_of(names@.take(j as int))
                    } else {
                        Seq::<Seq<char>>::empty()
                    }),
                    names_bounded(views_of(cmds@), 245),
                    forall|a: int, b: int|
                        0 <= a < defs@.len() && 0 <= b < defs@[a].names@.len() ==> (
                        #[trigger] defs@[a].names@[b])@.len() <= 245,
            {
                let ghost old_cmds = cmds@;
                let ghost old_custom = custom@;
                cmds.push(names[j].clone());
                proof {
                    assert(views_of(cmds@) =~= views_of(old_cmds).push(names@[j as int]@));
                    assert(views_of(names@.take(j + 1)) =~= views_of(names@.take(j as int)).push(
                        names@[j as int]@,
                    ));
                    assert(views_of(cmds@) =~= seq!["help"@] + names_of(defs@.take(i as int), false)
                        + views_of(names@.take(j + 1)));
                }
                if defs[i].restricted {
                    custom.push(names[j].clone());
                    proof {
                        assert(views_of(custom@) =~= views_of(old_custom).push(names@[j as int]@));
                        assert(views_of(custom@) =~= names_of(defs@.take(i as int), true)
                            + views_of(names@.take(j + 1)));
                    }
                }
            }
            proof {
                assert(names@.take(m as int) =~= names@);
                assert(defs@.take(i + 1).drop_last() =~= defs@.take(i as int));
                assert(defs@.take(i + 1).last() == defs@[i as int]);
                assert(views_of(cmds@) =~= seq!["help"@] + names_of(defs@.take(i + 1), false));
                assert(views_of(custom@) =~= names_of(defs@.take(i + 1), true));
            }
        }
        proof {
            assert(defs@.take(n as int) =~= defs@);
        }

        let mut longest: usize = 0;
        let k = cmds.len();
        for i in 0..k
            invariant
                k == cmds@.len(),
                longest == max_len(views_of(cmds@.take(i as int))),
                longest <= 245,
                names_bounded(views_of(cmds@), 245),
        {
            let l = cmds[i].as_str().unicode_len();
            assert(views_of(cmds@)[i as int] == cmds@[i as int]@);
            if l > longest {
                longest = l;
            }
            proof {
                assert(views_of(cmds@.take(i + 1)).drop_last() =~= views_of(cmds@.take(i as int)));
                assert(views_of(cmds@.take(i + 1)).last() == cmds@[i as int]@);
            }
        }
        proof {
            assert(views_of(cmds@.take(k as int)) =~= views_of(cmds@));
        }

        CmdInfo { cmds, longest_len: (longest + 10) as u8, custom_cmds: custom }
    }

    /// Every command name, the built-in `help` included.
    pub fn cmds(&self) -> (r: &Vec<String>)
        ensures
            r == &self.cmds,
    {
        &self.cmds
    }

    /// The longest name length, widened by ten.
    pub fn longest_len(&self) -> (r: u8)
        ensures
            r == self.longest_len,
    {
        self.longest_len
    }

    /// The names reachable through the fixed `.` fallback prefix.
    pub fn custom_cmds(&self) -> (r: &Vec<String>)
        ensures
            r == &self.custom_cmds,
    {
        &self.custom_cmds
    }
}

} // verus!

//! Dynamic prefix resolution per conversation group, and the command that
//! stores a custom prefix.
//!
//! Resolution scans the message for any catalog command name; restricted
//! names are always reachable through the fixed `.` prefix; otherwise the
//! stored prefix for the group decides. A store failure makes the message
//! unrecognised as a command rather than an error.

use vstd::prelude::*;
use std::collections::HashMap;
use crate::globals::{CmdInfo, views_of};
use crate::text::{contains_seq, contains_str, starts_with_char, trim, trimmed};

verus! {

broadcast use vstd::std_specs::hash::group_hash_axioms;

/// What a scan of the message text against the catalog found.
#[derive(Clone, Copy, PartialEq, Eq, Structural, Debug)]
pub enum Scan {
    /// No catalog name occurs in the text: not a candidate invocation.
    NotCommand,
    /// A restricted name occurs and the text starts with `.`: the fixed
    /// fallback prefix applies, whatever is stored.
    Restricted,
    /// A name occurs: the stored prefix for the group decides.
    NeedStore,
}

/// The catalog scan: the first command name occurring anywhere in `text`
/// decides; a restricted first match under a leading `.` short-circuits.
pub open spec fn scan_spec(cmds: Seq<Seq<char>>, custom: Seq<Seq<char>>, text: Seq<char>) -> Scan
    decreases cmds.len(),
{
    if cmds.len() == 0 {
        Scan::NotCommand
    } else if contains_seq(text, cmds.first()) {
        if text.len() > 0 && text[0] == '.' && custom.contains(cmds.first()) {
            Scan::Restricted
        } else {
            Scan::NeedStore
        }
    } else {
        scan_spec(cmds.drop_first(), custom, text)
    }
}

fn vec_contains(v: &Vec<String>, s: &String) -> (r: bool)
    ensures
        r == views_of(v@).contains(s@),
{
    let n = v.len();
    for i in 0..n
        invariant
            n == v@.len(),
            forall|k: int| 0 <= k < i ==> views_of(v@)[k] != s@,
    {
        assert(views_of(v@)[i as int] == v@[i as int]@);
        if s.eq(&v[i]) {
            return true;
        }
    }
    false
}

fn scan_from(cmds: &Vec<String>, custom: &Vec<String>, content: &str, i: usize) -> (r: Scan)
    requires
        i <= cmds@.len(),
    ensures
        r == scan_spec(views_of(cmds@).skip(i as int), views_of(custom@), content@),
    decreases cmds@.len() - i,
{
    let ghost rest = views_of(cmds@).skip(i as int);
    if i == cmds.len() {
        assert(rest.len() == 0);
        Scan::NotCommand
    } else {
        assert(rest.first() == cmds@[i as int]@);
        if contains_str(content, cmds[i].as_str()) {
            if starts_with_char(content, '.') && vec_contains(custom, &cmds[i]) {
                Scan::Restricted
            } else {
                Scan::NeedStore
            }
        } else {
            let r = scan_from(cmds, custom, content, i + 1);
            assert(rest.drop_first() =~= views_of(cmds@).skip(i + 1));
            r
        }
    }
}

/// Scans `content` for catalog command names, as [`scan_spec`] describes.
pub fn scan_for_command(info: &CmdInfo, content: &str) -> (r: Scan)
    ensures
        r == scan_spec(views_of(info.cmds@), views_of(info.custom_cmds@), content@),
{
    let r = scan_from(&info.cmds, &info.custom_cmds, content, 0);
    assert(views_of(info.cmds@).skip(0) =~= views_of(info.cmds@));
    r
}

/// The store's answer when asked for a group's prefix row.
pub enum StoreReply {
    /// The store could not be reached or the row could not be read.
    Unavailable,
    /// No row is stored for the group.
    Missing,
    /// The stored prefix, possibly empty.
    Present(String),
}

/// The mathematical shape of a store answer.
pub enum ReplyView {
    Unavailable,
    Missing,
    Present(Seq<char>),
}

impl StoreReply {
    /// The answer as [`ReplyView`].
    pub open spec fn view(self) -> ReplyView {
        match self {
            StoreReply::Unavailable => ReplyView::Unavailable,
            StoreReply::Missing => ReplyView::Missing,
            StoreReply::Present(p) => ReplyView::Present(p@),
        }
    }
}

/// Full prefix resolution: none for direct messages; none when no catalog
/// name occurs; the fixed `.` for a restricted match under a leading dot;
/// otherwise whatever the store holds, with store errors and missing rows
/// both resolving to none (fail safe, never an error).
pub open spec fn resolve_spec(
    cmds: Seq<Seq<char>>,
    custom: Seq<Seq<char>>,
    guild: Option<u64>,
    text: Seq<char>,
    reply: ReplyView,
) -> Option<Seq<char>> {
    if guild is None {
        None
    } else {
        match scan_spec(cmds, custom, text) {
            Scan::NotCommand => None,
            Scan::Restricted => Some("."@),
            Scan::NeedStore => match reply {
                ReplyView::Unavailable => None,
                ReplyView::Missing => None,
                ReplyView::Present(p) => Some(p),
            },
        }
    }
}

/// Resolves the active prefix for a message, given the store's answer for
/// the group. Callers that want to spare the store query when no catalog
/// name occurs scan first with [`scan_for_command`]; the result here does
/// not depend on `reply` in those cases.
pub fn prefix_check(info: &CmdInfo, guild: Option<u64>, content: &str, reply: &StoreReply) -> (r:
    Option<String>)
    ensures
        ({
            let exp = resolve_spec(
                views_of(info.cmds@),
                views_of(info.custom_cmds@),
                guild,
                content@,
                reply@,
            );
            match r {
                Some(p) => exp == Some(p@),
                None => exp is None,
            }
        }),
{
    if guild.is_none() {
        return None;
    }
    match scan_for_command(info, content) {
        Scan::NotCommand => None,
        Scan::Restricted => Some(String::from_str(".")),
        Scan::NeedStore => match reply {
            StoreReply::Unavailable => None,
            StoreReply::Missing => None,
            StoreReply::Present(p) => Some(p.clone()),
        },
    }
}

/// With no stored row, resolution yields no prefix: both for text in which
/// no catalog name occurs at all, and for any text that does not begin with
/// the literal `.` (so a restricted name alone never dispatches without it).
pub proof fn lemma_resolve_no_stored_prefix(
    cmds: Seq<Seq<char>>,
    custom: Seq<Seq<char>>,
    guild: Option<u64>,
    text: Seq<char>,
)
    ensures
        (forall|i: int| 0 <= i < cmds.len() ==> !contains_seq(text, #[trigger] cmds[i]))
            ==> resolve_spec(cmds, custom, guild, text, ReplyView::Missing) is None,
        !(text.len() > 0 && text[0] == '.') ==> resolve_spec(
            cmds,
            custom,
            guild,
            text,
            ReplyView::Missing,
        ) is None,
    decreases cmds.len(),
{
    if cmds.len() > 0 {
        lemma_resolve_no_stored_prefix(cmds.drop_first(), custom, guild, text);
        assert(forall|i: int|
            0 <= i < cmds.drop_first().len() ==> cmds.drop_first()[i] == cmds[i + 1]);
    }
}

/// An explicitly stored empty prefix is observably distinct from a missing
/// row: whenever the scan defers to the store, the empty prefix resolves to
/// an (empty) prefix and the missing row resolves to none.
pub proof fn lemma_empty_prefix_distinct(
    cmds: Seq<Seq<char>>,
    custom: Seq<Seq<char>>,
    guild: u64,
    text: Seq<char>,
)
    requires
        scan_spec(cmds, custom, text) is NeedStore,
    ensures
        resolve_spec(cmds, custom, Some(guild), text, ReplyView::Present(Seq::empty())) == Some(
            Seq::<char>::empty(),
        ),
        resolve_spec(cmds, custom, Some(guild), text, ReplyView::Missing) is None,
{
}

/// A read-through cache of store rows, keyed by group. An entry holds the
/// stored prefix, or `None` for a group known to have no row. Entries are
/// updated in place on every successful prefix write, before the reply to
/// that write is sent.
pub struct PrefixCache {
    pub entries: HashMap<u64, Option<String>>,
}

impl PrefixCache {
    /// The cached rows as a map.
    pub open spec fn view(self) -> Map<u64, Option<String>> {
        self.entries@
    }

    /// An empty cache.
    pub fn new() -> (r: PrefixCache)
        ensures
            r@ == Map::<u64, Option<String>>::empty(),
    {
        PrefixCache { entries: HashMap::new() }
    }

    /// The cached row for `group`, or none if the group was never filled.
    pub fn lookup(&self, group: u64) -> (r: Option<&Option<String>>)
        ensures
            match r {
                Some(v) => self@.contains_key(group) && *v == self@[group],
                None => !self@.contains_key(group),
            },
    {
        self.entries.get(&group)
    }

    /// Records the store row for `group`: used both to fill on a read and
    /// to update synchronously when a prefix write succeeds.
    pub fn store(&mut self, group: u64, row: Option<String>)
        ensures
            final(self)@ == old(self)@.insert(group, row),
    {
        self.entries.insert(group, row);
    }
}

/// What the set-prefix command decides to do, before any store write.
pub enum SetPrefixPlan {
    /// Sent outside a group: there is no group to set a prefix for.
    NotInGuild,
    /// The store handle is gone; nothing can be written.
    StoreMissing,
    /// The trimmed prefix exceeds ten characters.
    TooLong,
    /// Upsert this trimmed prefix (possibly empty) for this group.
    Write { guild: u64, prefix: String },
}

/// Decides the set-prefix command: the argument rest is trimmed (so a
/// stored prefix never ends in whitespace), rejected when longer than ten
/// characters, and otherwise written for the group.
pub fn plan_set_prefix(guild: Option<u64>, store_available: bool, raw: &str) -> (p: SetPrefixPlan)
    ensures
        ({
            let t = trimmed(raw@);
            match guild {
                None => p is NotInGuild,
                Some(g) => if !store_available {
                    p is StoreMissing
                } else if t.len() > 10 {
                    p is TooLong
                } else {
                    p matches SetPrefixPlan::Write { guild: g2, prefix } && g2 == g && prefix@ == t
                },
            }
        }),
{
    match guild {
        None => SetPrefixPlan::NotInGuild,
        Some(g) => {
            if !store_available {
                SetPrefixPlan::StoreMissing
            } else {
                let t = trim(raw);
                if t.unicode_len() > 10 {
                    SetPrefixPlan::TooLong
                } else {
                    SetPrefixPlan::Write { guild: g, prefix: t.to_owned() }
                }
            }
        },
    }
}

/// The reply the set-prefix command sends: whether it reports an error, a
/// title, and a description.
pub struct PrefixReply {
    pub is_error: bool,
    pub title: String,
    pub description: String,
}

/// Renders the set-prefix reply for a plan and, for a write plan, whether
/// the store write succeeded. A successful write of a non-empty prefix
/// echoes the prefix; an empty prefix is announced as "no prefix needed",
/// so the two remain observably distinct.
pub fn set_prefix_reply(plan: &SetPrefixPlan, write_ok: bool) -> (r: PrefixReply)
    ensures
        match *plan {
            SetPrefixPlan::NotInGuild => r.is_error && r.title@
                == "Something weird happened and I let you use this command in DMs"@
                && r.description@ == "We have to be in a guild to set the prefix for a guild, no?"@,
            SetPrefixPlan::StoreMissing => r.is_error && r.title@
                == "Now this is super weird and scary"@ && r.description@
                == "I lost my whole book where I write things down, sorry.."@,
            SetPrefixPlan::TooLong => r.is_error && r.title@
                == "Your prefix can't be longer than 10 characters"@ && r.description@
                == "Why would you want it that long anyway.."@,
            SetPrefixPlan::Write { guild, prefix } => {
                if !write_ok {
                    r.is_error && r.title@ == "Ugh, I couldn't write that down.."@ && r.description@
                        == "I just let my developer know, until then you could just try again"@
                } else if prefix@.len() > 0 {
                    !r.is_error && r.title@.len() == 0 && r.description@
                        == "Voila! My prefix here is now `"@ + prefix@ + "`"@
                } else {
                    !r.is_error && r.title@.len() == 0 && r.description@
                        == "Yay! I don't even need a prefix here anymore"@
                }
            },
        },
{
    match plan {
        SetPrefixPlan::NotInGuild => PrefixReply {
            is_error: true,
            title: String::from_str(
                "Something weird happened and I let you use this command in DMs",
            ),
            description: String::from_str(
                "We have to be in a guild to set the prefix for a guild, no?",
            ),
        },
        SetPrefixPlan::StoreMissing => PrefixReply {
            is_error: true,
            title: String::from_str("Now this is super weird and scary"),
            description: String::from_str(
                "I lost my whole book where I write things down, sorry..",
            ),
        },
        SetPrefixPlan::TooLong => PrefixReply {
            is_error: true,
            title: String::from_str("Your prefix can't be longer than 10 characters"),
            description: String::from_str("Why would you want it that long anyway.."),
        },
        SetPrefixPlan::Write { guild: _, prefix } => {
            if !write_ok {
                PrefixReply {
                    is_error: true,
                    title: String::from_str("Ugh, I couldn't write that down.."),
                    description: String::from_str(
                        "I just let my developer know, until then you could just try again",
                    ),
                }
            } else if prefix.as_str().unicode_len() > 0 {
                let mut d = String::from_str("Voila! My prefix here is now `");
                d.append(prefix.as_str());
                d.append("`");
                PrefixReply { is_error: false, title: String::new(), description: d }
            } else {
                PrefixReply {
                    is_error: false,
                    title: String::new(),
                    description: String::from_str("Yay! I don't even need a prefix here anymore"),
                }
            }
        },
    }
}

} // verus!

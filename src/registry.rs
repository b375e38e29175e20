//! The registry of guild registrations and the broadcasters they watch.
//!
//! The number of registrations that reference a broadcaster is the reference
//! count of that broadcaster's remote subscription: a broadcaster row exists,
//! with its subscription id, exactly while at least one registration
//! references it. Each operation keeps that invariant and returns the remote
//! work it implies (a subscription to delete), which the caller performs
//! after the local change is committed.
use vstd::prelude::*;

use crate::error::{Error, Result};
use crate::structs::TwitchUser;

verus! {

/// A watched broadcaster.
#[derive(Debug, PartialEq, Eq)]
pub struct Broadcaster {
    pub id: i32,
    pub display_name: String,
    pub avatar_url: String,
    pub event_subscription_id: Option<String>,
}

/// One guild's interest in one broadcaster.
#[derive(Clone, Copy, Debug, PartialEq, Eq)]
pub struct Registration {
    pub id: i32,
    pub guild_id: i64,
    pub broadcaster_id: i32,
}

impl Broadcaster {
    /// A field-by-field copy.
    pub fn duplicate(&self) -> (r: Broadcaster)
        ensures
            r == *self,
    {
        let event_subscription_id = match &self.event_subscription_id {
            Some(s) => Some(s.clone()),
            None => None,
        };
        Broadcaster {
            id: self.id,
            display_name: self.display_name.clone(),
            avatar_url: self.avatar_url.clone(),
            event_subscription_id,
        }
    }
}

/// No two distinct positions of `s` hold clashing items.
pub open spec fn pairwise_distinct<A>(s: Seq<A>, clash: spec_fn(A, A) -> bool) -> bool {
    forall|i: int, j: int|
        0 <= i < s.len() && 0 <= j < s.len() && i != j ==> !clash(#[trigger] s[i], #[trigger] s[j])
}

/// Two rows clash when they are for the same broadcaster.
pub open spec fn row_clash() -> spec_fn(Broadcaster, Broadcaster) -> bool {
    |a: Broadcaster, b: Broadcaster| a.id == b.id
}

/// Two registrations clash when they share an id or a (guild, broadcaster) pair.
pub open spec fn registration_clash() -> spec_fn(Registration, Registration) -> bool {
    |a: Registration, b: Registration|
        a.id == b.id || (a.guild_id == b.guild_id && a.broadcaster_id == b.broadcaster_id)
}

/// Some registration references broadcaster `b` (its reference count is positive).
pub open spec fn has_registrations(regs: Seq<Registration>, b: i32) -> bool {
    exists|k: int| 0 <= k < regs.len() && regs[k].broadcaster_id == b
}

/// Number of registrations that reference broadcaster `b`: the reference
/// count of its remote subscription.
pub open spec fn registration_count(regs: Seq<Registration>, b: i32) -> nat {
    regs.filter(selected(RegistrationFilter::Broadcaster(b))).len()
}

/// Guild `g` has registered for broadcaster `b`.
pub open spec fn has_pair(regs: Seq<Registration>, g: i64, b: i32) -> bool {
    exists|k: int| 0 <= k < regs.len() && regs[k].guild_id == g && regs[k].broadcaster_id == b
}

/// There is a row for broadcaster `b`.
pub open spec fn has_row(rows: Seq<Broadcaster>, b: i32) -> bool {
    exists|i: int| 0 <= i < rows.len() && rows[i].id == b
}

/// There is a row for broadcaster `b` and it holds a subscription id.
pub open spec fn has_subscribed_row(rows: Seq<Broadcaster>, b: i32) -> bool {
    exists|i: int| 0 <= i < rows.len() && rows[i].id == b && rows[i].event_subscription_id is Some
}

/// The non-empty subscription id stored for broadcaster `b`, if any.
pub open spec fn stored_subscription(rows: Seq<Broadcaster>, b: i32) -> Option<Seq<char>> {
    if has_row(rows, b) {
        reusable(rows[choose|i: int| 0 <= i < rows.len() && rows[i].id == b].event_subscription_id)
    } else {
        None
    }
}

/// The row a registration of `user` under subscription `subscription_id` writes.
pub open spec fn row_for(user: TwitchUser, subscription_id: String) -> Broadcaster {
    Broadcaster {
        id: user.id,
        display_name: user.display_name,
        avatar_url: user.profile_image_url,
        event_subscription_id: Some(subscription_id),
    }
}

/// Inserts `row`, or replaces the row of the same broadcaster.
pub open spec fn upsert_row(rows: Seq<Broadcaster>, row: Broadcaster) -> Seq<Broadcaster> {
    if has_row(rows, row.id) {
        rows.update(choose|i: int| 0 <= i < rows.len() && rows[i].id == row.id, row)
    } else {
        rows.push(row)
    }
}

/// Which registrations an operation removes.
#[derive(Clone, Copy, Debug, PartialEq, Eq)]
pub enum RegistrationFilter {
    /// The registration with this id.
    Id(i32),
    /// Every registration of this guild.
    Guild(i64),
    /// Every registration for this broadcaster.
    Broadcaster(i32),
}

pub open spec fn selects(f: RegistrationFilter, r: Registration) -> bool {
    match f {
        RegistrationFilter::Id(id) => r.id == id,
        RegistrationFilter::Guild(g) => r.guild_id == g,
        RegistrationFilter::Broadcaster(b) => r.broadcaster_id == b,
    }
}

pub open spec fn selected(f: RegistrationFilter) -> spec_fn(Registration) -> bool {
    |r: Registration| selects(f, r)
}

pub open spec fn not_selected(f: RegistrationFilter) -> spec_fn(Registration) -> bool {
    |r: Registration| !selects(f, r)
}

/// Rows of broadcasters that still have registrations in `regs`.
pub open spec fn still_watched(regs: Seq<Registration>) -> spec_fn(Broadcaster) -> bool {
    |row: Broadcaster| has_registrations(regs, row.id)
}

/// Rows of broadcasters that have no registration left in `regs`.
pub open spec fn orphaned(regs: Seq<Registration>) -> spec_fn(Broadcaster) -> bool {
    |row: Broadcaster| !has_registrations(regs, row.id)
}

/// The subscription ids held by `rows`, in order.
pub open spec fn subscription_ids(rows: Seq<Broadcaster>) -> Seq<Seq<char>> {
    Seq::new(rows.len(), |i: int| rows[i].event_subscription_id->Some_0@)
}

/// Abstract state of the registry.
pub struct RegistryView {
    pub broadcasters: Seq<Broadcaster>,
    pub registrations: Seq<Registration>,
    /// Registrations whose broadcaster's subscription the platform revoked,
    /// kept for an operator to inspect; they no longer count.
    pub stale: Seq<Registration>,
    /// The id the next registration receives.
    pub next_id: int,
}

impl RegistryView {
    pub open spec fn wf(self) -> bool {
        &&& pairwise_distinct(self.broadcasters, row_clash())
        &&& pairwise_distinct(self.registrations, registration_clash())
        &&& 1 <= self.next_id <= i32::MAX
        &&& forall|k: int|
            0 <= k < self.registrations.len() ==> 1 <= #[trigger] self.registrations[k].id
                < self.next_id
        &&& forall|i: int|
            0 <= i < self.broadcasters.len() ==> (#[trigger] self.broadcasters[i]).event_subscription_id is Some
        &&& forall|i: int|
            0 <= i < self.broadcasters.len() ==> has_registrations(
                self.registrations,
                #[trigger] self.broadcasters[i].id,
            )
        &&& forall|k: int|
            0 <= k < self.registrations.len() ==> has_row(
                self.broadcasters,
                #[trigger] self.registrations[k].broadcaster_id,
            )
    }
}

/// What to do to have a subscription for a broadcaster.
#[derive(Clone, Debug, PartialEq, Eq)]
pub enum SubscriptionStep {
    /// A subscription is stored already: use this id, create nothing.
    Reuse(String),
    /// None is stored: create one remotely.
    Create,
}

/// Broadcasters, registrations and the ids handed out so far.
pub struct NotificationRegistry {
    broadcasters: Vec<Broadcaster>,
    registrations: Vec<Registration>,
    stale: Vec<Registration>,
    next_id: i32,
}

impl View for NotificationRegistry {
    type V = RegistryView;

    closed spec fn view(&self) -> RegistryView {
        RegistryView {
            broadcasters: self.broadcasters@,
            registrations: self.registrations@,
            stale: self.stale@,
            next_id: self.next_id as int,
        }
    }
}

// Generic facts about `filter`.
proof fn lemma_filter_subset<A>(s: Seq<A>, p: spec_fn(A) -> bool)
    ensures
        forall|i: int| 0 <= i < s.filter(p).len() ==> s.contains(#[trigger] s.filter(p)[i]),
    decreases s.len(),
{
    reveal(Seq::filter);
    if s.len() > 0 {
        let d = s.drop_last();
        lemma_filter_subset(d, p);
        let sub = d.filter(p);
        assert forall|i: int| 0 <= i < s.filter(p).len() implies s.contains(
            #[trigger] s.filter(p)[i],
        ) by {
            if i < sub.len() {
                assert(d.contains(sub[i]));
                let k = choose|k: int| 0 <= k < d.len() && d[k] == sub[i];
                assert(s[k] == s.filter(p)[i]);
            } else {
                assert(s[s.len() - 1] == s.filter(p)[i]);
            }
        }
    }
}

proof fn lemma_filter_distinct<A>(s: Seq<A>, p: spec_fn(A) -> bool, clash: spec_fn(A, A) -> bool)
    requires
        pairwise_distinct(s, clash),
    ensures
        pairwise_distinct(s.filter(p), clash),
    decreases s.len(),
{
    reveal(Seq::filter);
    if s.len() > 0 {
        let d = s.drop_last();
        assert(pairwise_distinct(d, clash)) by {
            assert forall|i: int, j: int|
                0 <= i < d.len() && 0 <= j < d.len() && i != j implies !clash(
                #[trigger] d[i],
                #[trigger] d[j],
            ) by {
                assert(d[i] == s[i] && d[j] == s[j]);
            }
        }
        lemma_filter_distinct(d, p, clash);
        lemma_filter_subset(d, p);
        let sub = d.filter(p);
        let f = s.filter(p);
        let n = s.len() - 1;
        if p(s.last()) {
            assert forall|i: int, j: int|
                0 <= i < f.len() && 0 <= j < f.len() && i != j implies !clash(
                #[trigger] f[i],
                #[trigger] f[j],
            ) by {
                if i < sub.len() && j < sub.len() {
                    assert(f[i] == sub[i] && f[j] == sub[j]);
                } else if i < sub.len() {
                    assert(d.contains(sub[i]));
                    let k = choose|k: int| 0 <= k < d.len() && d[k] == sub[i];
                    assert(s[k] == f[i] && s[n] == f[j]);
                } else {
                    assert(d.contains(sub[j]));
                    let k = choose|k: int| 0 <= k < d.len() && d[k] == sub[j];
                    assert(s[k] == f[j] && s[n] == f[i]);
                }
            }
        }
    }
}

/// The stored subscription id of one row, when it may be reused: present
/// and non-empty.
pub open spec fn reusable(stored: Option<String>) -> Option<Seq<char>> {
    match stored {
        Some(s) => if s@.len() > 0 {
            Some(s@)
        } else {
            None
        },
        None => None,
    }
}

/// The id to reuse from a row's stored subscription field, if any.
pub fn reusable_subscription_id(stored: &Option<String>) -> (r: Option<String>)
    ensures
        match r {
            Some(s) => reusable(*stored) == Some(s@),
            None => reusable(*stored) is None,
        },
{
    match stored {
        Some(s) => if s.as_str().is_empty() {
            None
        } else {
            Some(s.clone())
        },
        None => None,
    }
}

/// Position of broadcaster `b`'s row, if there is one.
fn row_index(rows: &Vec<Broadcaster>, b: i32) -> (r: Option<usize>)
    ensures
        match r {
            Some(i) => i < rows@.len() && rows@[i as int].id == b,
            None => !has_row(rows@, b),
        },
{
    let mut i: usize = 0;
    while i < rows.len()
        invariant
            0 <= i <= rows@.len(),
            forall|m: int| 0 <= m < i ==> rows@[m].id != b,
        decreases rows@.len() - i,
    {
        if rows[i].id == b {
            return Some(i);
        }
        i = i + 1;
    }
    None
}

/// With distinct rows, the row found for `b` is the one `choose` picks.
proof fn lemma_row_unique(rows: Seq<Broadcaster>, b: i32, i: int)
    requires
        pairwise_distinct(rows, row_clash()),
        0 <= i < rows.len(),
        rows[i].id == b,
    ensures
        has_row(rows, b),
        (choose|j: int| 0 <= j < rows.len() && rows[j].id == b) == i,
{
    assert(has_row(rows, b));
    let j = choose|j: int| 0 <= j < rows.len() && rows[j].id == b;
    if j != i {
        assert(!row_clash()(rows[i], rows[j]));
    }
}

proof fn lemma_filter_len_drops<A>(s: Seq<A>, p: spec_fn(A) -> bool, k: int)
    requires
        0 <= k < s.len(),
        !p(s[k]),
    ensures
        s.filter(p).len() < s.len(),
    decreases s.len(),
{
    reveal(Seq::filter);
    let d = s.drop_last();
    d.lemma_filter_len(p);
    if k < s.len() - 1 {
        assert(d[k] == s[k]);
        lemma_filter_len_drops(d, p, k);
    }
}

proof fn lemma_filter_keeps_all<A>(s: Seq<A>, p: spec_fn(A) -> bool)
    requires
        forall|i: int| 0 <= i < s.len() ==> p(#[trigger] s[i]),
    ensures
        s.filter(p) == s,
    decreases s.len(),
{
    reveal(Seq::filter);
    if s.len() > 0 {
        let d = s.drop_last();
        assert forall|i: int| 0 <= i < d.len() implies p(#[trigger] d[i]) by {
            assert(d[i] == s[i]);
        }
        lemma_filter_keeps_all(d, p);
        assert(p(s[s.len() - 1]));
        assert(d.push(s.last()) == s);
    }
}

/// Removing the registrations that `f` selects, and then the rows of
/// broadcasters left without registrations, keeps the registry well formed.
proof fn lemma_release_keeps_wf(v: RegistryView, f: RegistrationFilter, stale: Seq<Registration>)
    requires
        v.wf(),
    ensures
        (RegistryView {
            broadcasters: v.broadcasters.filter(
                still_watched(v.registrations.filter(not_selected(f))),
            ),
            registrations: v.registrations.filter(not_selected(f)),
            stale,
            next_id: v.next_id,
        }).wf(),
{
    broadcast use vstd::seq_lib::group_filter_ensures;

    let regs = v.registrations;
    let rows = v.broadcasters;
    let regs2 = regs.filter(not_selected(f));
    let rows2 = rows.filter(still_watched(regs2));
    lemma_filter_distinct(regs, not_selected(f), registration_clash());
    lemma_filter_distinct(rows, still_watched(regs2), row_clash());
    lemma_filter_subset(regs, not_selected(f));
    lemma_filter_subset(rows, still_watched(regs2));
    assert forall|k: int| 0 <= k < regs2.len() implies 1 <= #[trigger] regs2[k].id < v.next_id by {
        assert(regs.contains(regs2[k]));
        let m = choose|m: int| 0 <= m < regs.len() && regs[m] == regs2[k];
        assert(1 <= regs[m].id < v.next_id);
    }
    assert forall|i: int| 0 <= i < rows2.len() implies (#[trigger] rows2[i]).event_subscription_id is Some by {
        assert(rows.contains(rows2[i]));
        let m = choose|m: int| 0 <= m < rows.len() && rows[m] == rows2[i];
        assert(rows[m].event_subscription_id is Some);
    }
    assert forall|i: int| 0 <= i < rows2.len() implies has_registrations(
        regs2,
        #[trigger] rows2[i].id,
    ) by {
        assert(still_watched(regs2)(rows2[i]));
    }
    assert forall|k: int| 0 <= k < regs2.len() implies has_row(
        rows2,
        #[trigger] regs2[k].broadcaster_id,
    ) by {
        let b = regs2[k].broadcaster_id;
        assert(regs.contains(regs2[k]));
        let m = choose|m: int| 0 <= m < regs.len() && regs[m] == regs2[k];
        assert(has_row(rows, regs[m].broadcaster_id));
        let j = choose|j: int| 0 <= j < rows.len() && rows[j].id == b;
        assert(has_registrations(regs2, rows[j].id));
        assert(still_watched(regs2)(rows[j]));
        assert(rows2.contains(rows[j]));
        let n = choose|n: int| 0 <= n < rows2.len() && rows2[n] == rows[j];
        assert(rows2[n].id == b);
    }
}

/// Reference-count invariant: a broadcaster's registration count is
/// positive exactly when its row exists and holds a subscription id.
pub proof fn lemma_registered_iff_subscribed(v: RegistryView, b: i32)
    requires
        v.wf(),
    ensures
        registration_count(v.registrations, b) > 0 <==> has_subscribed_row(v.broadcasters, b),
        has_registrations(v.registrations, b) <==> has_subscribed_row(v.broadcasters, b),
{
    broadcast use vstd::seq_lib::group_filter_ensures;

    let p = selected(RegistrationFilter::Broadcaster(b));
    let counted = v.registrations.filter(p);
    if has_registrations(v.registrations, b) {
        let k = choose|k: int|
            0 <= k < v.registrations.len() && v.registrations[k].broadcaster_id == b;
        assert(p(v.registrations[k]));
        assert(counted.contains(v.registrations[k]));
    }
    if counted.len() > 0 {
        lemma_filter_subset(v.registrations, p);
        assert(p(counted[0]));
        assert(v.registrations.contains(counted[0]));
        let k = choose|k: int| 0 <= k < v.registrations.len() && v.registrations[k] == counted[0];
        assert(v.registrations[k].broadcaster_id == b);
    }
    if has_registrations(v.registrations, b) {
        let k = choose|k: int|
            0 <= k < v.registrations.len() && v.registrations[k].broadcaster_id == b;
        assert(has_row(v.broadcasters, v.registrations[k].broadcaster_id));
        let i = choose|i: int| 0 <= i < v.broadcasters.len() && v.broadcasters[i].id == b;
        assert(v.broadcasters[i].event_subscription_id is Some);
    }
    if has_subscribed_row(v.broadcasters, b) {
        let i = choose|i: int|
            0 <= i < v.broadcasters.len() && v.broadcasters[i].id == b
                && v.broadcasters[i].event_subscription_id is Some;
        assert(has_registrations(v.registrations, v.broadcasters[i].id));
    }
}

/// Once a registration has stored subscription `s` for a broadcaster, the
/// subscription step for that broadcaster reuses `s` and creates nothing.
pub proof fn lemma_stored_subscription_is_reused(
    rows: Seq<Broadcaster>,
    user: TwitchUser,
    subscription_id: String,
)
    requires
        pairwise_distinct(rows, row_clash()),
        subscription_id@.len() > 0,
    ensures
        stored_subscription(upsert_row(rows, row_for(user, subscription_id)), user.id) == Some(
            subscription_id@,
        ),
{
    let row = row_for(user, subscription_id);
    let rows2 = upsert_row(rows, row);
    let i = if has_row(rows, user.id) {
        choose|i: int| 0 <= i < rows.len() && rows[i].id == user.id
    } else {
        rows.len() as int
    };
    assert(rows2[i] == row);
    assert forall|a: int, b: int|
        0 <= a < rows2.len() && 0 <= b < rows2.len() && a != b implies !row_clash()(
        #[trigger] rows2[a],
        #[trigger] rows2[b],
    ) by {
        if a != i && b != i {
            assert(rows2[a] == rows[a] && rows2[b] == rows[b]);
        } else if a == i {
            assert(rows2[b] == rows[b]);
            if has_row(rows, user.id) {
                assert(!row_clash()(rows[a], rows[b]));
            }
        } else {
            assert(rows2[a] == rows[a]);
            if has_row(rows, user.id) {
                assert(!row_clash()(rows[a], rows[b]));
            }
        }
    }
    lemma_row_unique(rows2, user.id, i);
}

/// Whether any registration in `regs` references broadcaster `b`.
fn any_registration_for(regs: &Vec<Registration>, b: i32) -> (r: bool)
    ensures
        r == has_registrations(regs@, b),
{
    let mut k: usize = 0;
    while k < regs.len()
        invariant
            0 <= k <= regs@.len(),
            forall|m: int| 0 <= m < k ==> regs@[m].broadcaster_id != b,
        decreases regs@.len() - k,
    {
        if regs[k].broadcaster_id == b {
            return true;
        }
        k = k + 1;
    }
    false
}

/// Splits `regs` into those that `f` leaves and those it selects, keeping order.
fn split_registrations(regs: &Vec<Registration>, f: RegistrationFilter) -> (r: (
    Vec<Registration>,
    Vec<Registration>,
))
    ensures
        r.0@ == regs@.filter(not_selected(f)),
        r.1@ == regs@.filter(selected(f)),
{
    let mut kept: Vec<Registration> = Vec::new();
    let mut taken: Vec<Registration> = Vec::new();
    let mut i: usize = 0;
    while i < regs.len()
        invariant
            0 <= i <= regs@.len(),
            kept@ == regs@.subrange(0, i as int).filter(not_selected(f)),
            taken@ == regs@.subrange(0, i as int).filter(selected(f)),
        decreases regs@.len() - i,
    {
        let r = regs[i];
        proof {
            assert(regs@.subrange(0, i + 1) == regs@.subrange(0, i as int).push(r));
            regs@.subrange(0, i as int).lemma_filter_push(r, not_selected(f));
            regs@.subrange(0, i as int).lemma_filter_push(r, selected(f));
        }
        let hit = match f {
            RegistrationFilter::Id(id) => r.id == id,
            RegistrationFilter::Guild(g) => r.guild_id == g,
            RegistrationFilter::Broadcaster(b) => r.broadcaster_id == b,
        };
        if hit {
            taken.push(r);
        } else {
            kept.push(r);
        }
        i = i + 1;
    }
    assert(regs@.subrange(0, regs@.len() as int) == regs@);
    (kept, taken)
}

/// Splits `rows` into those of broadcasters still referenced by `regs` and
/// the orphaned ones, keeping order.
fn split_rows(rows: &Vec<Broadcaster>, regs: &Vec<Registration>) -> (r: (
    Vec<Broadcaster>,
    Vec<Broadcaster>,
))
    ensures
        r.0@ == rows@.filter(still_watched(regs@)),
        r.1@ == rows@.filter(orphaned(regs@)),
{
    let mut kept: Vec<Broadcaster> = Vec::new();
    let mut dropped: Vec<Broadcaster> = Vec::new();
    let mut i: usize = 0;
    while i < rows.len()
        invariant
            0 <= i <= rows@.len(),
            kept@ == rows@.subrange(0, i as int).filter(still_watched(regs@)),
            dropped@ == rows@.subrange(0, i as int).filter(orphaned(regs@)),
        decreases rows@.len() - i,
    {
        let row = rows[i].duplicate();
        proof {
            assert(rows@.subrange(0, i + 1) == rows@.subrange(0, i as int).push(row));
            rows@.subrange(0, i as int).lemma_filter_push(row, still_watched(regs@));
            rows@.subrange(0, i as int).lemma_filter_push(row, orphaned(regs@));
        }
        if any_registration_for(regs, row.id) {
            kept.push(row);
        } else {
            dropped.push(row);
        }
        i = i + 1;
    }
    assert(rows@.subrange(0, rows@.len() as int) == rows@);
    (kept, dropped)
}

impl NotificationRegistry {
    /// An empty registry.
    pub fn new() -> (r: NotificationRegistry)
        ensures
            r@.wf(),
            r@.broadcasters.len() == 0,
            r@.registrations.len() == 0,
            r@.stale.len() == 0,
            r@.next_id == 1,
    {
        NotificationRegistry {
            broadcasters: Vec::new(),
            registrations: Vec::new(),
            stale: Vec::new(),
            next_id: 1,
        }
    }

    pub fn broadcasters(&self) -> (r: &Vec<Broadcaster>)
        ensures
            r@ == self@.broadcasters,
    {
        &self.broadcasters
    }

    pub fn registrations(&self) -> (r: &Vec<Registration>)
        ensures
            r@ == self@.registrations,
    {
        &self.registrations
    }

    pub fn stale(&self) -> (r: &Vec<Registration>)
        ensures
            r@ == self@.stale,
    {
        &self.stale
    }

    /// The subscription id stored for broadcaster `b`, if it is non-empty.
    pub fn subscription_of(&self, b: i32) -> (r: Option<String>)
        requires
            self@.wf(),
        ensures
            match r {
                Some(s) => stored_subscription(self@.broadcasters, b) == Some(s@),
                None => stored_subscription(self@.broadcasters, b) is None,
            },
    {
        match row_index(&self.broadcasters, b) {
            Some(i) => {
                proof {
                    lemma_row_unique(self@.broadcasters, b, i as int);
                }
                reusable_subscription_id(&self.broadcasters[i].event_subscription_id)
            },
            None => None,
        }
    }

    /// The first step of keeping a subscription for broadcaster `b`: reuse
    /// the stored one, or create one remotely when none is stored.
    pub fn subscription_step(&self, b: i32) -> (r: SubscriptionStep)
        requires
            self@.wf(),
        ensures
            match r {
                SubscriptionStep::Reuse(s) => stored_subscription(self@.broadcasters, b) == Some(
                    s@,
                ),
                SubscriptionStep::Create => stored_subscription(self@.broadcasters, b) is None,
            },
    {
        match self.subscription_of(b) {
            Some(s) => SubscriptionStep::Reuse(s),
            None => SubscriptionStep::Create,
        }
    }

    /// Whether guild `guild_id` has registered for broadcaster `b`.
    pub fn is_registered(&self, guild_id: i64, b: i32) -> (r: bool)
        ensures
            r == has_pair(self@.registrations, guild_id, b),
    {
        let regs = &self.registrations;
        let mut k: usize = 0;
        while k < regs.len()
            invariant
                0 <= k <= regs@.len(),
                regs@ == self@.registrations,
                forall|m: int|
                    0 <= m < k ==> !(regs@[m].guild_id == guild_id && regs@[m].broadcaster_id
                        == b),
            decreases regs@.len() - k,
        {
            if regs[k].guild_id == guild_id && regs[k].broadcaster_id == b {
                return true;
            }
            k = k + 1;
        }
        false
    }

    /// Records that guild `guild_id` watches `user`, whose subscription is
    /// `subscription_id`, and returns the new registration's id. The
    /// broadcaster row is created, or updated with the user's current name
    /// and avatar.
    pub fn register(&mut self, guild_id: i64, user: &TwitchUser, subscription_id: String) -> (r:
        Result<i32>)
        requires
            old(self)@.wf(),
        ensures
            final(self)@.wf(),
            has_pair(old(self)@.registrations, guild_id, user.id) ==> r == Err::<i32, Error>(
                Error::Conflict,
            ),
            !has_pair(old(self)@.registrations, guild_id, user.id) && old(self)@.next_id
                == i32::MAX ==> r is Err && r->Err_0 is InternalServer,
            r is Err ==> final(self)@ == old(self)@,
            !has_pair(old(self)@.registrations, guild_id, user.id) && old(self)@.next_id
                < i32::MAX ==> r is Ok,
            r is Ok ==> {
                &&& r->Ok_0 == old(self)@.next_id
                &&& final(self)@.registrations == old(self)@.registrations.push(
                    Registration {
                        id: r->Ok_0,
                        guild_id,
                        broadcaster_id: user.id,
                    },
                )
                &&& final(self)@.broadcasters == upsert_row(
                    old(self)@.broadcasters,
                    row_for(*user, subscription_id),
                )
                &&& final(self)@.stale == old(self)@.stale
                &&& final(self)@.next_id == old(self)@.next_id + 1
            },
    {
        if self.is_registered(guild_id, user.id) {
            return Err(Error::Conflict);
        }
        if self.next_id == i32::MAX {
            return Err(Error::InternalServer(String::from_str("Registration ids are exhausted")));
        }
        let ghost old_rows = self.broadcasters@;
        let ghost old_regs = self.registrations@;
        let id = self.next_id;
        let row = Broadcaster {
            id: user.id,
            display_name: user.display_name.clone(),
            avatar_url: user.profile_image_url.clone(),
            event_subscription_id: Some(subscription_id),
        };
        assert(row == row_for(*user, subscription_id));
        let found_at = row_index(&self.broadcasters, user.id);
        let found = found_at.is_some();
        let i: usize = match found_at {
            Some(i) => i,
            None => 0,
        };
        if found {
            proof {
                lemma_row_unique(old_rows, user.id, i as int);
            }
            self.broadcasters[i] = row;
        } else {
            self.broadcasters.push(row);
        }
        let reg = Registration { id, guild_id, broadcaster_id: user.id };
        self.registrations.push(reg);
        self.next_id = id + 1;
        proof {
            let rows = self.broadcasters@;
            let regs = self.registrations@;
            assert(rows == upsert_row(old_rows, row_for(*user, subscription_id)));
            assert(regs[regs.len() - 1] == reg);
            assert forall|a: int, b: int|
                0 <= a < regs.len() && 0 <= b < regs.len() && a != b implies !registration_clash()(
                #[trigger] regs[a],
                #[trigger] regs[b],
            ) by {
                if a < old_regs.len() && b < old_regs.len() {
                    assert(regs[a] == old_regs[a] && regs[b] == old_regs[b]);
                } else if a < old_regs.len() {
                    assert(regs[a] == old_regs[a]);
                } else {
                    assert(regs[b] == old_regs[b]);
                }
            }
            assert forall|k: int| 0 <= k < regs.len() implies has_row(
                rows,
                #[trigger] regs[k].broadcaster_id,
            ) by {
                if k < old_regs.len() {
                    assert(regs[k] == old_regs[k]);
                    let j = choose|j: int|
                        0 <= j < old_rows.len() && old_rows[j].id == old_regs[k].broadcaster_id;
                    if found {
                        assert(rows[j].id == old_rows[j].id);
                    } else {
                        assert(rows[j] == old_rows[j]);
                    }
                } else {
                    if found {
                        assert(rows[i as int].id == user.id);
                    } else {
                        assert(rows[rows.len() - 1].id == user.id);
                    }
                }
            }
            assert forall|m: int| 0 <= m < rows.len() implies has_registrations(
                regs,
                #[trigger] rows[m].id,
            ) by {
                if rows[m].id == user.id {
                    assert(regs[regs.len() - 1].broadcaster_id == user.id);
                } else {
                    assert(m < old_rows.len() && rows[m] == old_rows[m]);
                    let k = choose|k: int|
                        0 <= k < old_regs.len() && old_regs[k].broadcaster_id == old_rows[m].id;
                    assert(regs[k] == old_regs[k]);
                }
            }
            assert forall|a: int, b: int|
                0 <= a < rows.len() && 0 <= b < rows.len() && a != b implies !row_clash()(
                #[trigger] rows[a],
                #[trigger] rows[b],
            ) by {
                if found {
                    if a != i && b != i {
                        assert(rows[a] == old_rows[a] && rows[b] == old_rows[b]);
                    } else if a == i {
                        assert(rows[b] == old_rows[b]);
                        assert(!row_clash()(old_rows[a], old_rows[b]));
                    } else {
                        assert(rows[a] == old_rows[a]);
                        assert(!row_clash()(old_rows[a], old_rows[b]));
                    }
                } else {
                    if a < old_rows.len() && b < old_rows.len() {
                        assert(rows[a] == old_rows[a] && rows[b] == old_rows[b]);
                    } else if a < old_rows.len() {
                        assert(rows[a] == old_rows[a]);
                    } else {
                        assert(rows[b] == old_rows[b]);
                    }
                }
            }
            assert forall|m: int| 0 <= m < rows.len() implies (#[trigger] rows[m]).event_subscription_id is Some by {
                if m != i || !found {
                    if m < old_rows.len() {
                        assert(rows[m] == old_rows[m] || rows[m] == row);
                    }
                }
            }
        }
        Ok(id)
    }
    /// Removes the registrations `f` selects, then the rows of broadcasters
    /// left without registrations. Returns what was removed.
    fn release(&mut self, f: RegistrationFilter) -> (r: (Vec<Registration>, Vec<Broadcaster>))
        requires
            old(self)@.wf(),
        ensures
            final(self)@.wf(),
            final(self)@.registrations == old(self)@.registrations.filter(not_selected(f)),
            final(self)@.broadcasters == old(self)@.broadcasters.filter(
                still_watched(final(self)@.registrations),
            ),
            r.0@ == old(self)@.registrations.filter(selected(f)),
            r.1@ == old(self)@.broadcasters.filter(orphaned(final(self)@.registrations)),
            final(self)@.stale == old(self)@.stale,
            final(self)@.next_id == old(self)@.next_id,
    {
        proof {
            lemma_release_keeps_wf(self@, f, self@.stale);
        }
        let (kept, taken) = split_registrations(&self.registrations, f);
        let (rows, dropped) = split_rows(&self.broadcasters, &kept);
        self.registrations = kept;
        self.broadcasters = rows;
        (taken, dropped)
    }

    /// The subscription ids of `rows`, which all hold one.
    fn subscription_ids_of(rows: &Vec<Broadcaster>) -> (r: Vec<String>)
        requires
            forall|i: int| 0 <= i < rows@.len() ==> (#[trigger] rows@[i]).event_subscription_id is Some,
        ensures
            r@.len() == rows@.len(),
            forall|i: int| 0 <= i < r@.len() ==> (#[trigger] r@[i])@ == subscription_ids(rows@)[i],
    {
        let mut ids: Vec<String> = Vec::new();
        let mut i: usize = 0;
        while i < rows.len()
            invariant
                0 <= i <= rows@.len(),
                ids@.len() == i,
                forall|m: int| 0 <= m < rows@.len() ==> (#[trigger] rows@[m]).event_subscription_id is Some,
                forall|m: int| 0 <= m < i ==> (#[trigger] ids@[m])@ == subscription_ids(rows@)[m],
            decreases rows@.len() - i,
        {
            let id = match &rows[i].event_subscription_id {
                Some(s) => s.clone(),
                None => String::new(),
            };
            ids.push(id);
            i = i + 1;
        }
        ids
    }

    /// Removes registration `registration_id`. When it was the last one of
    /// its broadcaster, the broadcaster row goes too and its subscription id
    /// is returned, for the caller to delete remotely once this is committed.
    pub fn release_registration(&mut self, registration_id: i32) -> (r: Result<Option<String>>)
        requires
            old(self)@.wf(),
        ensures
            final(self)@.wf(),
            !(exists|k: int|
                0 <= k < old(self)@.registrations.len()
                    && #[trigger] old(self)@.registrations[k].id == registration_id) ==> {
                &&& r is Err
                &&& r->Err_0 is BadRequest
                &&& r->Err_0->BadRequest_0@ == "Notification not found"@
                &&& final(self)@ == old(self)@
            },
            (exists|k: int|
                0 <= k < old(self)@.registrations.len()
                    && #[trigger] old(self)@.registrations[k].id == registration_id) ==> r is Ok,
            r is Ok ==> {
                let regs = old(self)@.registrations.filter(
                    not_selected(RegistrationFilter::Id(registration_id)),
                );
                let gone = subscription_ids(
                    old(self)@.broadcasters.filter(orphaned(regs)),
                );
                &&& final(self)@.registrations == regs
                &&& final(self)@.broadcasters == old(self)@.broadcasters.filter(
                    still_watched(regs),
                )
                &&& final(self)@.stale == old(self)@.stale
                &&& final(self)@.next_id == old(self)@.next_id
                &&& gone.len() == 0 ==> r->Ok_0 is None
                &&& gone.len() > 0 ==> r->Ok_0 is Some && r->Ok_0->Some_0@ == gone[0]
            },
    {
        proof {
            broadcast use vstd::seq_lib::group_filter_ensures;

        }
        let f = RegistrationFilter::Id(registration_id);
        let ghost old_view = self@;
        let (kept, _) = split_registrations(&self.registrations, f);
        if kept.len() == self.registrations.len() {
            proof {
                broadcast use vstd::seq_lib::group_filter_ensures;

                if exists|k: int|
                    0 <= k < old_view.registrations.len() && #[trigger] old_view.registrations[k].id
                        == registration_id {
                    let k = choose|k: int|
                        0 <= k < old_view.registrations.len()
                            && #[trigger] old_view.registrations[k].id == registration_id;
                    lemma_filter_len_drops(old_view.registrations, not_selected(f), k);
                }
            }
            return Err(Error::BadRequest(String::from_str("Notification not found")));
        }
        proof {
            lemma_filter_subset(old_view.registrations, not_selected(f));
            if !exists|k: int|
                0 <= k < old_view.registrations.len() && #[trigger] old_view.registrations[k].id
                    == registration_id {
                lemma_filter_keeps_all(old_view.registrations, not_selected(f));
            }
        }
        let (_, dropped) = self.release(f);
        proof {
            lemma_filter_subset(old_view.broadcasters, orphaned(self@.registrations));
            assert forall|i: int| 0 <= i < dropped@.len() implies (#[trigger] dropped@[i]).event_subscription_id is Some by {
                assert(old_view.broadcasters.contains(dropped@[i]));
            }
        }
        let ids = Self::subscription_ids_of(&dropped);
        if ids.len() == 0 {
            Ok(None)
        } else {
            let mut ids = ids;
            Ok(Some(ids.remove(0)))
        }
    }

    /// Removes every registration of guild `guild_id`, then the rows of
    /// broadcasters left without registrations, and returns those rows'
    /// subscription ids, for the caller to delete remotely once this is
    /// committed.
    pub fn release_guild(&mut self, guild_id: i64) -> (r: Vec<String>)
        requires
            old(self)@.wf(),
        ensures
            final(self)@.wf(),
            final(self)@.registrations == old(self)@.registrations.filter(
                not_selected(RegistrationFilter::Guild(guild_id)),
            ),
            final(self)@.broadcasters == old(self)@.broadcasters.filter(
                still_watched(final(self)@.registrations),
            ),
            r@.len() == old(self)@.broadcasters.filter(orphaned(final(self)@.registrations)).len(),
            forall|i: int|
                0 <= i < r@.len() ==> (#[trigger] r@[i])@ == subscription_ids(
                    old(self)@.broadcasters.filter(orphaned(final(self)@.registrations)),
                )[i],
            final(self)@.stale == old(self)@.stale,
            final(self)@.next_id == old(self)@.next_id,
    {
        let ghost old_rows = self@.broadcasters;
        let (_, dropped) = self.release(RegistrationFilter::Guild(guild_id));
        proof {
            lemma_filter_subset(old_rows, orphaned(self@.registrations));
            assert forall|i: int| 0 <= i < dropped@.len() implies (#[trigger] dropped@[i]).event_subscription_id is Some by {
                assert(old_rows.contains(dropped@[i]));
            }
        }
        Self::subscription_ids_of(&dropped)
    }

    /// The platform revoked broadcaster `b`'s subscription: its row goes
    /// without any remote delete, and its registrations move to the stale
    /// list, where they no longer count.
    pub fn revoke(&mut self, b: i32)
        requires
            old(self)@.wf(),
        ensures
            final(self)@.wf(),
            final(self)@.registrations == old(self)@.registrations.filter(
                not_selected(RegistrationFilter::Broadcaster(b)),
            ),
            final(self)@.broadcasters == old(self)@.broadcasters.filter(
                still_watched(final(self)@.registrations),
            ),
            !has_row(final(self)@.broadcasters, b),
            final(self)@.stale == old(self)@.stale + old(self)@.registrations.filter(
                selected(RegistrationFilter::Broadcaster(b)),
            ),
            final(self)@.next_id == old(self)@.next_id,
    {
        let (mut taken, _) = self.release(RegistrationFilter::Broadcaster(b));
        proof {
            broadcast use vstd::seq_lib::group_filter_ensures;

            let regs = self@.registrations;
            let rows = self@.broadcasters;
            if has_row(rows, b) {
                let i = choose|i: int| 0 <= i < rows.len() && rows[i].id == b;
                assert(still_watched(regs)(rows[i]));
                let k = choose|k: int| 0 <= k < regs.len() && regs[k].broadcaster_id == b;
                assert(not_selected(RegistrationFilter::Broadcaster(b))(regs[k]));
            }
        }
        self.stale.append(&mut taken);
    }
}

} // verus!

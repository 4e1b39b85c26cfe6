//! Fleet-wide laws. Each proof function here states a property of the
//! library as a whole — unique tenant ownership, the penalty tracking the
//! last statistics frame, terminal delivery on shutdown — and proves it from
//! the contracts and invariants of the other modules.

use vstd::prelude::*;
use crate::anchorage::Anchorage;
use crate::error::LavalinkNodeError;
use crate::manager::ManagerView;
use crate::manager::NodeManager;
use crate::manager::spec_after_message;
use crate::model::LavalinkMessage;
use crate::model::Stats;
use crate::model::spec_penalty;
use crate::model::spec_penalty_u64;

verus! {

/// Number of nodes in `s` holding a subscription for `guild_id`.
pub open spec fn spec_owner_count(s: Seq<NodeManager>, guild_id: u64) -> int
    decreases s.len(),
{
    if s.len() == 0 {
        0
    } else {
        (if s[0].has_sub(guild_id) {
            1int
        } else {
            0int
        }) + spec_owner_count(s.skip(1), guild_id)
    }
}

proof fn lemma_owner_count_zero(s: Seq<NodeManager>, guild_id: u64)
    requires
        forall|i: int| 0 <= i < s.len() ==> !#[trigger] s[i].has_sub(guild_id),
    ensures
        spec_owner_count(s, guild_id) == 0,
    decreases s.len(),
{
    if s.len() > 0 {
        assert(forall|i: int|
            0 <= i < s.skip(1).len() ==> #[trigger] s.skip(1)[i] == s[i + 1]);
        lemma_owner_count_zero(s.skip(1), guild_id);
    }
}

proof fn lemma_owner_count_le_one(s: Seq<NodeManager>, guild_id: u64)
    requires
        forall|i: int, j: int|
            0 <= i < s.len() && 0 <= j < s.len() && i != j ==> !(#[trigger] s[i].has_sub(guild_id)
                && #[trigger] s[j].has_sub(guild_id)),
    ensures
        spec_owner_count(s, guild_id) <= 1,
    decreases s.len(),
{
    if s.len() > 0 {
        let rest = s.skip(1);
        assert(forall|i: int| 0 <= i < rest.len() ==> #[trigger] rest[i] == s[i + 1]);
        if s[0].has_sub(guild_id) {
            assert forall|i: int| 0 <= i < rest.len() implies !#[trigger] rest[i].has_sub(
                guild_id,
            ) by {
                assert(!(s[0].has_sub(guild_id) && s[i + 1].has_sub(guild_id)));
            }
            lemma_owner_count_zero(rest, guild_id);
        } else {
            lemma_owner_count_le_one(rest, guild_id);
        }
    }
}

/// Unique ownership: in a well-formed registry — which every registry
/// operation preserves — each tenant is held by at most one node. After any
/// sequence of `create_player` and `destroy_player` operations the count of
/// nodes containing a tenant is zero or one.
pub proof fn lemma_unique_ownership(a: Anchorage, guild_id: u64)
    requires
        a.wf(),
    ensures
        0 <= spec_owner_count(a.nodes@, guild_id) <= 1,
        spec_owner_count(a.nodes@, guild_id) == 1 <==> a.spec_has_player(guild_id),
{
    lemma_owner_count_le_one(a.nodes@, guild_id);
    lemma_owner_count_nonneg(a.nodes@, guild_id);
    lemma_owner_count_contains(a.nodes@, guild_id);
}

proof fn lemma_owner_count_nonneg(s: Seq<NodeManager>, guild_id: u64)
    ensures
        spec_owner_count(s, guild_id) >= 0,
    decreases s.len(),
{
    if s.len() > 0 {
        lemma_owner_count_nonneg(s.skip(1), guild_id);
    }
}

proof fn lemma_owner_count_contains(s: Seq<NodeManager>, guild_id: u64)
    ensures
        spec_owner_count(s, guild_id) > 0 <==> exists|i: int|
            0 <= i < s.len() && #[trigger] s[i].has_sub(guild_id),
    decreases s.len(),
{
    lemma_owner_count_nonneg(s, guild_id);
    if s.len() > 0 {
        let rest = s.skip(1);
        assert(forall|i: int| 0 <= i < rest.len() ==> #[trigger] rest[i] == s[i + 1]);
        lemma_owner_count_contains(rest, guild_id);
        lemma_owner_count_nonneg(rest, guild_id);
        if s[0].has_sub(guild_id) {
            assert(s[0] == s[0]);
        } else if spec_owner_count(s, guild_id) > 0 {
            let i = choose|i: int| 0 <= i < rest.len() && #[trigger] rest[i].has_sub(guild_id);
            assert(s[i + 1].has_sub(guild_id));
        } else if exists|i: int| 0 <= i < s.len() && #[trigger] s[i].has_sub(guild_id) {
            let i = choose|i: int| 0 <= i < s.len() && #[trigger] s[i].has_sub(guild_id);
            assert(i > 0);
            assert(rest[i - 1].has_sub(guild_id));
        }
    }
}

/// Manager state after a run of statistics frames, front to back.
pub open spec fn spec_after_stats_frames(v: ManagerView, frames: Seq<Stats>) -> ManagerView
    decreases frames.len(),
{
    if frames.len() == 0 {
        v
    } else {
        spec_after_stats_frames(
            spec_after_message(
                v,
                Result::<Option<LavalinkMessage>, LavalinkNodeError>::Ok(
                    Some(LavalinkMessage::Stats(frames[0])),
                ),
            ),
            frames.skip(1),
        )
    }
}

/// Penalty tracks the last frame: after any run of statistics frames the
/// stored statistics are the last frame and the penalty is exactly the
/// documented formula applied to it.
pub proof fn lemma_penalty_tracks_last_frame(v: ManagerView, frames: Seq<Stats>)
    requires
        frames.len() > 0,
    ensures
        spec_after_stats_frames(v, frames).statistics == Some(frames.last()),
        spec_after_stats_frames(v, frames).penalties == spec_penalty_u64(frames.last()),
    decreases frames.len(),
{
    let stepped = spec_after_message(
        v,
        Result::<Option<LavalinkMessage>, LavalinkNodeError>::Ok(
            Some(LavalinkMessage::Stats(frames[0])),
        ),
    );
    if frames.len() == 1 {
        assert(frames.skip(1) =~= Seq::<Stats>::empty());
        assert(frames.last() == frames[0]);
    } else {
        lemma_penalty_tracks_last_frame(stepped, frames.skip(1));
        assert(frames.skip(1).last() == frames.last());
    }
}

/// The penalty formula is never negative: a missing frame report and a
/// negative deficit both contribute zero.
pub proof fn lemma_penalty_nonneg(s: Stats)
    ensures
        spec_penalty(s) >= 0,
        spec_penalty_u64(s) >= 0,
{
}

/// Occurrences of `g` in `s`.
pub open spec fn spec_count_in(s: Seq<u64>, g: u64) -> int
    decreases s.len(),
{
    if s.len() == 0 {
        0
    } else {
        (if s[0] == g {
            1int
        } else {
            0int
        }) + spec_count_in(s.skip(1), g)
    }
}

proof fn lemma_count_in_zero(s: Seq<u64>, g: u64)
    requires
        !s.contains(g),
    ensures
        spec_count_in(s, g) == 0,
    decreases s.len(),
{
    if s.len() > 0 {
        assert(forall|i: int| 0 <= i < s.skip(1).len() ==> #[trigger] s.skip(1)[i] == s[i + 1]);
        assert(!s.skip(1).contains(g));
        lemma_count_in_zero(s.skip(1), g);
    }
}

proof fn lemma_count_in_unique(s: Seq<u64>, g: u64)
    requires
        forall|i: int, j: int| 0 <= i < j < s.len() ==> #[trigger] s[i] != #[trigger] s[j],
    ensures
        spec_count_in(s, g) == (if s.contains(g) {
            1int
        } else {
            0int
        }),
    decreases s.len(),
{
    if s.len() > 0 {
        let rest = s.skip(1);
        assert(forall|i: int| 0 <= i < rest.len() ==> #[trigger] rest[i] == s[i + 1]);
        if s[0] == g {
            assert forall|i: int| 0 <= i < rest.len() implies #[trigger] rest[i] != g by {
                assert(s[0] != s[i + 1]);
            }
            assert(!rest.contains(g));
            lemma_count_in_zero(rest, g);
        } else {
            lemma_count_in_unique(rest, g);
            if s.contains(g) {
                let i = choose|i: int| 0 <= i < s.len() && s[i] == g;
                assert(rest[i - 1] == g);
                assert(rest.contains(g));
            }
            if rest.contains(g) {
                let i = choose|i: int| 0 <= i < rest.len() && rest[i] == g;
                assert(s[i + 1] == g);
            }
        }
    }
}

/// Terminal delivery: when a manager disconnects, is destroyed or exits, the
/// tenants it signals — the `delivered` result of those operations — list
/// every subscribed tenant exactly once, each receiving one terminal marker;
/// afterwards no subscription remains, so no further value follows.
pub proof fn lemma_terminal_delivery(before: ManagerView, delivered: Seq<u64>, guild_id: u64)
    requires
        delivered == before.subs,
        forall|i: int, j: int|
            0 <= i < j < before.subs.len() ==> #[trigger] before.subs[i]
                != #[trigger] before.subs[j],
    ensures
        delivered.contains(guild_id) <==> before.subs.contains(guild_id),
        spec_count_in(delivered, guild_id) == (if before.subs.contains(guild_id) {
            1int
        } else {
            0int
        }),
{
    lemma_count_in_unique(delivered, guild_id);
}

} // verus!

//! The leaderboard.

use vstd::prelude::*;

verus! {

/// One line of the leaderboard.
#[derive(Debug, PartialEq, Eq)]
pub struct ApiLeaderboardEntry {
    pub id: String,
    pub rank: i32,
    pub name: String,
    pub avatar_url: String,
    pub points: i32,
    pub achievements: Vec<String>,
}

/// What an `ApiLeaderboardEntry` holds.
pub struct LeaderboardEntryView {
    pub id: Seq<char>,
    pub rank: int,
    pub name: Seq<char>,
    pub avatar_url: Seq<char>,
    pub points: int,
    pub achievements: Seq<Seq<char>>,
}

impl LeaderboardEntryView {
    /// The entry without any text or achievement, with rank and points 0.
    pub open spec fn empty() -> LeaderboardEntryView {
        LeaderboardEntryView {
            id: Seq::empty(),
            rank: 0,
            name: Seq::empty(),
            avatar_url: Seq::empty(),
            points: 0,
            achievements: Seq::empty(),
        }
    }
}

impl View for ApiLeaderboardEntry {
    type V = LeaderboardEntryView;

    open spec fn view(&self) -> LeaderboardEntryView {
        LeaderboardEntryView {
            id: self.id@,
            rank: self.rank as int,
            name: self.name@,
            avatar_url: self.avatar_url@,
            points: self.points as int,
            achievements: self.achievements.deep_view(),
        }
    }
}

impl DeepView for ApiLeaderboardEntry {
    type V = LeaderboardEntryView;

    open spec fn deep_view(&self) -> LeaderboardEntryView {
        self@
    }
}

impl Clone for ApiLeaderboardEntry {
    fn clone(&self) -> (r: Self)
        ensures
            r@ == self@,
    {
        ApiLeaderboardEntry {
            id: self.id.clone(),
            rank: self.rank,
            name: self.name.clone(),
            avatar_url: self.avatar_url.clone(),
            points: self.points,
            achievements: self.achievements.clone(),
        }
    }
}

impl Default for ApiLeaderboardEntry {
    fn default() -> (r: Self)
        ensures
            r@ == LeaderboardEntryView::empty(),
    {
        let r = ApiLeaderboardEntry {
            id: String::new(),
            rank: 0,
            name: String::new(),
            avatar_url: String::new(),
            points: 0,
            achievements: Vec::new(),
        };
        proof {
            assert(r.achievements.deep_view() =~= Seq::empty());
        }
        r
    }
}

/// The id of each entry, in order.
pub open spec fn entry_ids(entries: Seq<LeaderboardEntryView>) -> Seq<Seq<char>> {
    entries.map_values(|e: LeaderboardEntryView| e.id)
}

} // verus!

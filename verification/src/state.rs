//! The catalogue: four collections, filled once and read from then on.

use crate::course::course_ids;
use crate::course::lemma_level_text_names_level;
use crate::course::ApiCourse;
use crate::course::CourseLevel;
use crate::course::CourseView;
use crate::leaderboard::entry_ids;
use crate::leaderboard::ApiLeaderboardEntry;
use crate::leaderboard::LeaderboardEntryView;
use crate::lookup::all_distinct;
use crate::post::post_ids;
use crate::post::post_slugs;
use crate::post::ApiBlogPost;
use crate::post::BlogPostView;
use crate::project::project_ids;
use crate::project::ApiProject;
use crate::project::ProjectView;
use crate::seed::sample_courses;
use crate::seed::sample_leaderboard;
use crate::seed::sample_posts;
use crate::seed::sample_projects;
use crate::seed::seed_courses;
use crate::seed::seed_leaderboard;
use crate::seed::seed_posts;
use crate::seed::seed_projects;
use crate::time::utc_unix_seconds;
use crate::time::Timestamp;
use vstd::prelude::*;

verus! {

/// The four collections of the catalogue.
#[derive(Debug, PartialEq, Eq)]
pub struct AppState {
    pub posts: Vec<ApiBlogPost>,
    pub courses: Vec<ApiCourse>,
    pub projects: Vec<ApiProject>,
    pub leaderboard: Vec<ApiLeaderboardEntry>,
}

/// What an `AppState` holds.
pub struct AppStateView {
    pub posts: Seq<BlogPostView>,
    pub courses: Seq<CourseView>,
    pub projects: Seq<ProjectView>,
    pub leaderboard: Seq<LeaderboardEntryView>,
}

impl AppStateView {
    /// Within each collection no id is used twice, no two posts share a slug,
    /// and every course names one of the three levels.
    pub open spec fn wf(self) -> bool {
        &&& all_distinct(post_slugs(self.posts))
        &&& all_distinct(post_ids(self.posts))
        &&& all_distinct(course_ids(self.courses))
        &&& all_distinct(project_ids(self.projects))
        &&& all_distinct(entry_ids(self.leaderboard))
        &&& forall|i: int|
            0 <= i < self.courses.len() ==> CourseLevel::named_by(#[trigger] self.courses[i].level) is Some
    }
}

impl View for AppState {
    type V = AppStateView;

    open spec fn view(&self) -> AppStateView {
        AppStateView {
            posts: self.posts.deep_view(),
            courses: self.courses.deep_view(),
            projects: self.projects.deep_view(),
            leaderboard: self.leaderboard.deep_view(),
        }
    }
}

impl DeepView for AppState {
    type V = AppStateView;

    open spec fn deep_view(&self) -> AppStateView {
        self@
    }
}

/// The catalogue as it is when it has just been built: two posts, published
/// on 21 and 19 July 2024 at noon, one course, one project, dated 1 June
/// 2024 at midnight, and one leaderboard entry. All times are UTC.
pub open spec fn sample_catalogue() -> AppStateView {
    AppStateView {
        posts: sample_posts(
            utc_unix_seconds(2024, 7, 21, 12, 0, 0),
            utc_unix_seconds(2024, 7, 19, 12, 0, 0),
        ),
        courses: sample_courses(),
        projects: sample_projects(utc_unix_seconds(2024, 6, 1, 0, 0, 0)),
        leaderboard: sample_leaderboard(),
    }
}

/// The sample records are well formed, whatever their dates.
pub proof fn lemma_samples_are_well_formed(
    first_published: int,
    second_published: int,
    project_date: int,
)
    ensures
        (AppStateView {
            posts: sample_posts(first_published, second_published),
            courses: sample_courses(),
            projects: sample_projects(project_date),
            leaderboard: sample_leaderboard(),
        }).wf(),
{
    reveal_strlit("1");
    reveal_strlit("2");
    reveal_strlit("getting-started-with-nextjs-14");
    reveal_strlit("mastering-tailwind-css-techniques");
    lemma_level_text_names_level(CourseLevel::Advanced, sample_courses()[0].level);
    assert("1"@[0] != "2"@[0]);
    assert("getting-started-with-nextjs-14"@.len() != "mastering-tailwind-css-techniques"@.len());
}

impl AppState {
    /// Builds the catalogue with its sample records.
    pub fn new() -> (state: AppState)
        ensures
            state@ == sample_catalogue(),
            state@.wf(),
    {
        let first_published = Timestamp::from_utc(2024, 7, 21, 12, 0, 0).unwrap();
        let second_published = Timestamp::from_utc(2024, 7, 19, 12, 0, 0).unwrap();
        let project_date = Timestamp::from_utc(2024, 6, 1, 0, 0, 0).unwrap();
        proof {
            lemma_samples_are_well_formed(first_published@, second_published@, project_date@);
        }
        AppState {
            posts: seed_posts(first_published, second_published),
            courses: seed_courses(),
            projects: seed_projects(project_date),
            leaderboard: seed_leaderboard(),
        }
    }
}

} // verus!

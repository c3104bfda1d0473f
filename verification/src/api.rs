//! The seven read-only operations of the catalogue: one listing per
//! collection, and one lookup by key for posts, courses and projects.
//!
//! Each operation reads one collection and changes nothing.

use crate::course::course_ids;
use crate::course::ApiCourse;
use crate::course::CourseView;
use crate::leaderboard::ApiLeaderboardEntry;
use crate::lookup::all_distinct;
use crate::lookup::find_by_key;
use crate::lookup::first_index_of;
use crate::lookup::keys_of;
use crate::lookup::lemma_distinct_keys_found_in_place;
use crate::lookup::lemma_found_iff_occurs;
use crate::post::post_slugs;
use crate::post::ApiBlogPost;
use crate::post::BlogPostView;
use crate::project::project_ids;
use crate::project::ApiProject;
use crate::project::ProjectView;
use crate::reply::Reply;
use crate::reply::ReplyView;
use crate::reply::STATUS_NOT_FOUND;
use crate::reply::STATUS_OK;
use crate::leaderboard::LeaderboardEntryView;
use crate::state::sample_catalogue;
use crate::state::AppState;
use crate::state::AppStateView;
use vstd::prelude::*;
use vstd::string::StringExecFns;

verus! {

/// Body of the answer to a request for a post that does not exist.
pub const POST_NOT_FOUND: &'static str = "Post not found";

/// Body of the answer to a request for a course that does not exist.
pub const COURSE_NOT_FOUND: &'static str = "Course not found";

/// Body of the answer to a request for a project that does not exist.
pub const PROJECT_NOT_FOUND: &'static str = "Project not found";

/// The answer to a lookup of `key` among `items`, whose keys are `keys`:
/// the first item with that key, or else `message`.
pub open spec fn lookup_reply<V>(
    keys: Seq<Seq<char>>,
    items: Seq<V>,
    key: Seq<char>,
    message: Seq<char>,
) -> ReplyView<V> {
    match first_index_of(keys, key) {
        Some(i) => ReplyView::Json(items[i]),
        None => ReplyView::NotFound(message),
    }
}

/// The answer to a request for the post with the given slug.
pub open spec fn post_reply(posts: Seq<BlogPostView>, slug: Seq<char>) -> ReplyView<BlogPostView> {
    lookup_reply(post_slugs(posts), posts, slug, POST_NOT_FOUND@)
}

/// The answer to a request for the course with the given id.
pub open spec fn course_reply(courses: Seq<CourseView>, id: Seq<char>) -> ReplyView<CourseView> {
    lookup_reply(course_ids(courses), courses, id, COURSE_NOT_FOUND@)
}

/// The answer to a request for the project with the given id.
pub open spec fn project_reply(projects: Seq<ProjectView>, id: Seq<char>) -> ReplyView<ProjectView> {
    lookup_reply(project_ids(projects), projects, id, PROJECT_NOT_FOUND@)
}

/// All posts, in the order in which they are stored.
pub fn get_posts(posts: &Vec<ApiBlogPost>) -> (r: Reply<Vec<ApiBlogPost>>)
    ensures
        r@ == ReplyView::Json(posts.deep_view()),
{
    Reply::Json(posts.clone())
}

/// The first post whose slug is `slug`.
pub fn get_post_by_slug(posts: &Vec<ApiBlogPost>, slug: &str) -> (r: Reply<ApiBlogPost>)
    ensures
        r@ == post_reply(posts.deep_view(), slug@),
{
    proof {
        assert(keys_of(posts@) =~= post_slugs(posts.deep_view()));
    }
    match find_by_key(posts, slug) {
        Some(post) => Reply::Json(post.clone()),
        None => Reply::NotFound(String::from_str(POST_NOT_FOUND)),
    }
}

/// All courses, in the order in which they are stored.
pub fn get_courses(courses: &Vec<ApiCourse>) -> (r: Reply<Vec<ApiCourse>>)
    ensures
        r@ == ReplyView::Json(courses.deep_view()),
{
    Reply::Json(courses.clone())
}

/// The first course whose id is `id`.
pub fn get_course_by_id(courses: &Vec<ApiCourse>, id: &str) -> (r: Reply<ApiCourse>)
    ensures
        r@ == course_reply(courses.deep_view(), id@),
{
    proof {
        assert(keys_of(courses@) =~= course_ids(courses.deep_view()));
    }
    match find_by_key(courses, id) {
        Some(course) => Reply::Json(course.clone()),
        None => Reply::NotFound(String::from_str(COURSE_NOT_FOUND)),
    }
}

/// All projects, in the order in which they are stored.
pub fn get_projects(projects: &Vec<ApiProject>) -> (r: Reply<Vec<ApiProject>>)
    ensures
        r@ == ReplyView::Json(projects.deep_view()),
{
    Reply::Json(projects.clone())
}

/// The first project whose id is `id`.
pub fn get_project_by_id(projects: &Vec<ApiProject>, id: &str) -> (r: Reply<ApiProject>)
    ensures
        r@ == project_reply(projects.deep_view(), id@),
{
    proof {
        assert(keys_of(projects@) =~= project_ids(projects.deep_view()));
    }
    match find_by_key(projects, id) {
        Some(project) => Reply::Json(project.clone()),
        None => Reply::NotFound(String::from_str(PROJECT_NOT_FOUND)),
    }
}

/// The whole leaderboard, in the order in which it is stored.
pub fn get_leaderboard(entries: &Vec<ApiLeaderboardEntry>) -> (r: Reply<Vec<ApiLeaderboardEntry>>)
    ensures
        r@ == ReplyView::Json(entries.deep_view()),
{
    Reply::Json(entries.clone())
}

/// A lookup succeeds exactly when the key occurs. The record it then gives is
/// stored under that key, at the first place where the key occurs.
pub proof fn lemma_lookup_finds_what_occurs<V>(
    keys: Seq<Seq<char>>,
    items: Seq<V>,
    key: Seq<char>,
    message: Seq<char>,
)
    requires
        keys.len() == items.len(),
    ensures
        lookup_reply(keys, items, key, message) is Json <==> keys.contains(key),
        lookup_reply(keys, items, key, message).status() == STATUS_OK <==> keys.contains(key),
        lookup_reply(keys, items, key, message) matches ReplyView::Json(item) ==> exists|i: int|
            0 <= i < items.len() && keys[i] == key && items[i] == item,
{
    lemma_found_iff_occurs(keys, key);
    if let Some(i) = first_index_of(keys, key) {
        assert(0 <= i < items.len() && keys[i] == key && items[i] == items[i]);
    }
}

/// Where no key is used twice, looking up the key of a stored record gives
/// that record.
pub proof fn lemma_lookup_gives_each_record<V>(
    keys: Seq<Seq<char>>,
    items: Seq<V>,
    i: int,
    message: Seq<char>,
)
    requires
        keys.len() == items.len(),
        all_distinct(keys),
        0 <= i < items.len(),
    ensures
        lookup_reply(keys, items, keys[i], message) == ReplyView::Json(items[i]),
{
    lemma_distinct_keys_found_in_place(keys, i);
}

/// Looking up a key that does not occur gives the not-found message, with
/// the not-found status.
pub proof fn lemma_lookup_of_absent_key<V>(
    keys: Seq<Seq<char>>,
    items: Seq<V>,
    key: Seq<char>,
    message: Seq<char>,
)
    requires
        !keys.contains(key),
    ensures
        lookup_reply(keys, items, key, message) == ReplyView::<V>::NotFound(message),
        lookup_reply(keys, items, key, message).status() == STATUS_NOT_FOUND,
{
    lemma_found_iff_occurs(keys, key);
}

/// In a well-formed catalogue every post, course and project is served under
/// its own key.
pub proof fn lemma_every_record_is_served(state: AppStateView, i: int)
    requires
        state.wf(),
    ensures
        0 <= i < state.posts.len() ==> post_reply(state.posts, state.posts[i].slug) == ReplyView::Json(
            state.posts[i],
        ),
        0 <= i < state.courses.len() ==> course_reply(state.courses, state.courses[i].id) == ReplyView::Json(
            state.courses[i],
        ),
        0 <= i < state.projects.len() ==> project_reply(state.projects, state.projects[i].id)
            == ReplyView::Json(state.projects[i]),
{
    if 0 <= i < state.posts.len() {
        lemma_lookup_gives_each_record(post_slugs(state.posts), state.posts, i, POST_NOT_FOUND@);
    }
    if 0 <= i < state.courses.len() {
        lemma_lookup_gives_each_record(course_ids(state.courses), state.courses, i, COURSE_NOT_FOUND@);
    }
    if 0 <= i < state.projects.len() {
        lemma_lookup_gives_each_record(project_ids(state.projects), state.projects, i, PROJECT_NOT_FOUND@);
    }
}

/// A catalogue that has just been built serves every one of its posts,
/// courses and projects under that record's own key.
pub proof fn lemma_new_catalogue_serves_its_samples(state: AppState, i: int)
    requires
        call_ensures(AppState::new, (), state),
    ensures
        0 <= i < state@.posts.len() ==> post_reply(state@.posts, state@.posts[i].slug) == ReplyView::Json(
            state@.posts[i],
        ),
        0 <= i < state@.courses.len() ==> course_reply(state@.courses, state@.courses[i].id)
            == ReplyView::Json(state@.courses[i]),
        0 <= i < state@.projects.len() ==> project_reply(state@.projects, state@.projects[i].id)
            == ReplyView::Json(state@.projects[i]),
{
    lemma_every_record_is_served(state@, i);
}

/// Each listing of a catalogue that has just been built gives the sample
/// records of its collection, every one once and in their order.
pub proof fn lemma_new_catalogue_lists_its_samples(
    state: AppState,
    posts: Reply<Vec<ApiBlogPost>>,
    courses: Reply<Vec<ApiCourse>>,
    projects: Reply<Vec<ApiProject>>,
    leaderboard: Reply<Vec<ApiLeaderboardEntry>>,
)
    requires
        call_ensures(AppState::new, (), state),
        call_ensures(get_posts, (&state.posts,), posts),
        call_ensures(get_courses, (&state.courses,), courses),
        call_ensures(get_projects, (&state.projects,), projects),
        call_ensures(get_leaderboard, (&state.leaderboard,), leaderboard),
    ensures
        posts@ == ReplyView::<Seq<BlogPostView>>::Json(sample_catalogue().posts),
        courses@ == ReplyView::<Seq<CourseView>>::Json(sample_catalogue().courses),
        projects@ == ReplyView::<Seq<ProjectView>>::Json(sample_catalogue().projects),
        leaderboard@ == ReplyView::<Seq<LeaderboardEntryView>>::Json(sample_catalogue().leaderboard),
{
}

/// Listing the posts twice gives the same answer twice.
pub proof fn lemma_get_posts_repeats(
    posts: &Vec<ApiBlogPost>,
    first: Reply<Vec<ApiBlogPost>>,
    second: Reply<Vec<ApiBlogPost>>,
)
    requires
        call_ensures(get_posts, (posts,), first),
        call_ensures(get_posts, (posts,), second),
    ensures
        first@ == second@,
{
}

/// Asking for the same post twice gives the same answer twice.
pub proof fn lemma_get_post_by_slug_repeats(
    posts: &Vec<ApiBlogPost>,
    slug: &str,
    first: Reply<ApiBlogPost>,
    second: Reply<ApiBlogPost>,
)
    requires
        call_ensures(get_post_by_slug, (posts, slug), first),
        call_ensures(get_post_by_slug, (posts, slug), second),
    ensures
        first@ == second@,
{
}

/// Listing the courses twice gives the same answer twice.
pub proof fn lemma_get_courses_repeats(
    courses: &Vec<ApiCourse>,
    first: Reply<Vec<ApiCourse>>,
    second: Reply<Vec<ApiCourse>>,
)
    requires
        call_ensures(get_courses, (courses,), first),
        call_ensures(get_courses, (courses,), second),
    ensures
        first@ == second@,
{
}

/// Asking for the same course twice gives the same answer twice.
pub proof fn lemma_get_course_by_id_repeats(
    courses: &Vec<ApiCourse>,
    id: &str,
    first: Reply<ApiCourse>,
    second: Reply<ApiCourse>,
)
    requires
        call_ensures(get_course_by_id, (courses, id), first),
        call_ensures(get_course_by_id, (courses, id), second),
    ensures
        first@ == second@,
{
}

/// Listing the projects twice gives the same answer twice.
pub proof fn lemma_get_projects_repeats(
    projects: &Vec<ApiProject>,
    first: Reply<Vec<ApiProject>>,
    second: Reply<Vec<ApiProject>>,
)
    requires
        call_ensures(get_projects, (projects,), first),
        call_ensures(get_projects, (projects,), second),
    ensures
        first@ == second@,
{
}

/// Asking for the same project twice gives the same answer twice.
pub proof fn lemma_get_project_by_id_repeats(
    projects: &Vec<ApiProject>,
    id: &str,
    first: Reply<ApiProject>,
    second: Reply<ApiProject>,
)
    requires
        call_ensures(get_project_by_id, (projects, id), first),
        call_ensures(get_project_by_id, (projects, id), second),
    ensures
        first@ == second@,
{
}

/// Listing the leaderboard twice gives the same answer twice.
pub proof fn lemma_get_leaderboard_repeats(
    leaderboard: &Vec<ApiLeaderboardEntry>,
    first: Reply<Vec<ApiLeaderboardEntry>>,
    second: Reply<Vec<ApiLeaderboardEntry>>,
)
    requires
        call_ensures(get_leaderboard, (leaderboard,), first),
        call_ensures(get_leaderboard, (leaderboard,), second),
    ensures
        first@ == second@,
{
}

} // verus!

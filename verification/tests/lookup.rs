use rust_backend::config;
use rust_backend::course::ApiCourse;
use rust_backend::lookup::find_by_key;
use rust_backend::lookup::Keyed;
use rust_backend::post::ApiBlogPost;
use rust_backend::project::ApiProject;
use rust_backend::reply::Reply;
use rust_backend::reply::STATUS_NOT_FOUND;
use rust_backend::reply::STATUS_OK;
use rust_backend::state::AppState;
use rust_backend::text::str_eq;

fn project(id: &str, title: &str) -> ApiProject {
    let mut project = ApiProject::default();
    project.id = id.to_string();
    project.title = title.to_string();
    project
}

#[test]
fn equal_texts_are_equal() {
    assert!(str_eq("", ""));
    assert!(str_eq("a", "a"));
    assert!(str_eq("getting-started-with-nextjs-14", "getting-started-with-nextjs-14"));
    assert!(str_eq("naïve café ☕", "naïve café ☕"));
}

#[test]
fn different_texts_are_different() {
    assert!(!str_eq("", "a"));
    assert!(!str_eq("a", ""));
    assert!(!str_eq("a", "b"));
    assert!(!str_eq("abc", "abd"));
    assert!(!str_eq("abc", "ab"));
    assert!(!str_eq("ab", "abc"));
    assert!(!str_eq("abc", "Abc"));
    assert!(!str_eq("é", "e"));
    assert!(!str_eq("é", "e\u{301}"));
}

#[test]
fn text_comparison_agrees_with_the_standard_one() {
    let texts = ["", "1", "2", "10", "01", "post", "Post", "pöst", "post ", "日本語", "日本"];
    for a in texts {
        for b in texts {
            assert_eq!(str_eq(a, b), a == b, "{a:?} against {b:?}");
        }
    }
}

#[test]
fn records_are_keyed_by_slug_or_id() {
    let state = AppState::new();
    let post: &ApiBlogPost = &state.posts[0];
    assert_eq!(post.key(), "getting-started-with-nextjs-14");
    let course: &ApiCourse = &state.courses[0];
    assert_eq!(course.key(), "1");
    let project: &ApiProject = &state.projects[0];
    assert_eq!(project.key(), "1");
}

#[test]
fn find_gives_the_first_record_with_the_key() {
    let projects = vec![project("a", "one"), project("b", "two"), project("a", "three"), project("c", "four")];
    assert_eq!(find_by_key(&projects, "a").map(|p| p.title.as_str()), Some("one"));
    assert_eq!(find_by_key(&projects, "b").map(|p| p.title.as_str()), Some("two"));
    assert_eq!(find_by_key(&projects, "c").map(|p| p.title.as_str()), Some("four"));
    assert!(std::ptr::eq(find_by_key(&projects, "a").unwrap(), &projects[0]));
    assert!(std::ptr::eq(find_by_key(&projects, "c").unwrap(), &projects[3]));
}

#[test]
fn find_gives_none_for_a_key_that_does_not_occur() {
    let projects = vec![project("a", "one"), project("b", "two")];
    assert_eq!(find_by_key(&projects, "d"), None);
    assert_eq!(find_by_key(&projects, ""), None);
    assert_eq!(find_by_key(&projects, "A"), None);
    let none: Vec<ApiProject> = Vec::new();
    assert_eq!(find_by_key(&none, "a"), None);
}

#[test]
fn find_matches_the_empty_key_only_exactly() {
    let projects = vec![project("a", "one"), project("", "nameless")];
    assert_eq!(find_by_key(&projects, "").map(|p| p.title.as_str()), Some("nameless"));
}

#[test]
fn status_goes_with_the_kind_of_reply() {
    assert_eq!(STATUS_OK, 200);
    assert_eq!(STATUS_NOT_FOUND, 404);
    let found: Reply<Vec<ApiProject>> = Reply::Json(Vec::new());
    assert_eq!(found.status(), 200);
    let missing: Reply<Vec<ApiProject>> = Reply::NotFound("Project not found".to_string());
    assert_eq!(missing.status(), 404);
    let silent: Reply<ApiProject> = Reply::NotFound(String::new());
    assert_eq!(silent.status(), 404);
}

#[test]
fn not_found_messages_name_the_collection() {
    assert_eq!(rust_backend::api::POST_NOT_FOUND, "Post not found");
    assert_eq!(rust_backend::api::COURSE_NOT_FOUND, "Course not found");
    assert_eq!(rust_backend::api::PROJECT_NOT_FOUND, "Project not found");
}

#[test]
fn settings_of_the_service() {
    assert_eq!(config::BIND_HOST, "127.0.0.1");
    assert_eq!(config::BIND_PORT, 8000);
    assert_eq!(config::ALLOWED_ORIGIN, "http://localhost:9002");
    assert_eq!(config::ALLOWED_METHODS, ["GET", "POST", "PUT", "DELETE"]);
    assert_eq!(config::ALLOWED_HEADERS, ["Authorization", "Accept", "Content-Type"]);
    assert_eq!(config::PREFLIGHT_MAX_AGE_SECS, 3600);
    assert_eq!(config::LOG_FILTER, "actix_web=info");
}

use rust_backend::course::ApiCourse;
use rust_backend::course::ApiCourseInstructor;
use rust_backend::course::ApiCourseLesson;
use rust_backend::course::CourseLevel;
use rust_backend::course::Rating;
use rust_backend::course::MAX_RATING_TENTHS;
use rust_backend::leaderboard::ApiLeaderboardEntry;
use rust_backend::post::ApiBlogPost;
use rust_backend::post::ApiPostAuthor;
use rust_backend::project::ApiProject;
use rust_backend::state::AppState;

#[test]
fn default_level_is_beginner() {
    assert_eq!(CourseLevel::default(), CourseLevel::Beginner);
}

#[test]
fn levels_are_written_as_their_names() {
    assert_eq!(CourseLevel::Beginner.as_str(), "Beginner");
    assert_eq!(CourseLevel::Intermediate.as_str(), "Intermediate");
    assert_eq!(CourseLevel::Advanced.as_str(), "Advanced");
}

#[test]
fn levels_are_read_back_from_their_names() {
    for level in [CourseLevel::Beginner, CourseLevel::Intermediate, CourseLevel::Advanced] {
        assert_eq!(CourseLevel::parse(level.as_str()), Some(level));
    }
}

#[test]
fn other_texts_name_no_level() {
    for text in ["", "beginner", "ADVANCED", "Advanced ", " Advanced", "Expert", "Intermediat", "Beginnerr"] {
        assert_eq!(CourseLevel::parse(text), None, "text {text:?}");
    }
}

#[test]
fn ratings_run_from_zero_to_five() {
    assert_eq!(MAX_RATING_TENTHS, 50);
    assert_eq!(Rating::from_tenths(0).map(|r| r.tenths()), Some(0));
    assert_eq!(Rating::from_tenths(49).map(|r| r.tenths()), Some(49));
    assert_eq!(Rating::from_tenths(50).map(|r| r.tenths()), Some(50));
    assert_eq!(Rating::from_tenths(51), None);
    assert_eq!(Rating::from_tenths(u8::MAX), None);
}

#[test]
fn every_valid_rating_keeps_its_tenths() {
    for tenths in 0..=u8::MAX {
        match Rating::from_tenths(tenths) {
            Some(rating) => {
                assert!(tenths <= 50);
                assert_eq!(rating.tenths(), tenths);
            }
            None => assert!(tenths > 50),
        }
    }
}

#[test]
fn default_course_is_empty() {
    let course = ApiCourse::default();
    assert_eq!(course.id, "");
    assert_eq!(course.title, "");
    assert_eq!(course.description, "");
    assert_eq!(course.image_url, "");
    assert_eq!(course.author_name, "");
    assert_eq!(course.instructor, None);
    assert_eq!(course.rating, None);
    assert_eq!(course.student_count, None);
    assert_eq!(course.price, "");
    assert_eq!(course.category, "");
    assert_eq!(course.level, "");
    assert_eq!(course.duration, None);
    assert_eq!(course.lessons, None);
}

#[test]
fn default_project_is_empty() {
    let project = ApiProject::default();
    assert_eq!(project.id, "");
    assert_eq!(project.title, "");
    assert_eq!(project.description, "");
    assert_eq!(project.long_description, None);
    assert_eq!(project.image_url, "");
    assert!(project.tags.is_empty());
    assert_eq!(project.technologies, None);
    assert_eq!(project.live_link, None);
    assert_eq!(project.repo_link, None);
    assert_eq!(project.date, None);
}

#[test]
fn default_leaderboard_entry_is_empty() {
    let entry = ApiLeaderboardEntry::default();
    assert_eq!(entry.id, "");
    assert_eq!(entry.rank, 0);
    assert_eq!(entry.name, "");
    assert_eq!(entry.avatar_url, "");
    assert_eq!(entry.points, 0);
    assert!(entry.achievements.is_empty());
}

#[test]
fn clones_equal_what_they_were_made_from() {
    let state = AppState::new();
    let post: &ApiBlogPost = &state.posts[0];
    assert_eq!(&post.clone(), post);
    let author: &ApiPostAuthor = &post.author;
    assert_eq!(&author.clone(), author);
    let course: &ApiCourse = &state.courses[0];
    assert_eq!(&course.clone(), course);
    let instructor: &ApiCourseInstructor = course.instructor.as_ref().unwrap();
    assert_eq!(&instructor.clone(), instructor);
    let lesson: &ApiCourseLesson = &course.lessons.as_ref().unwrap()[0];
    assert_eq!(&lesson.clone(), lesson);
    let project: &ApiProject = &state.projects[0];
    assert_eq!(&project.clone(), project);
    let entry: &ApiLeaderboardEntry = &state.leaderboard[0];
    assert_eq!(&entry.clone(), entry);
}

#[test]
fn clones_of_bare_records_equal_what_they_were_made_from() {
    let course = ApiCourse::default();
    assert_eq!(course.clone(), course);
    let project = ApiProject::default();
    assert_eq!(project.clone(), project);
    let entry = ApiLeaderboardEntry::default();
    assert_eq!(entry.clone(), entry);
}

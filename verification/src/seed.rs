//! The sample records that the catalogue starts with.
//!
//! The dates of the posts and of the project are computed from civil dates
//! when the catalogue is built, and are handed in here as timestamps.

use crate::course::ApiCourse;
use crate::course::ApiCourseInstructor;
use crate::course::ApiCourseLesson;
use crate::course::CourseInstructorView;
use crate::course::CourseLessonView;
use crate::course::CourseLevel;
use crate::course::CourseView;
use crate::course::Rating;
use crate::leaderboard::ApiLeaderboardEntry;
use crate::leaderboard::LeaderboardEntryView;
use crate::post::ApiBlogPost;
use crate::post::ApiPostAuthor;
use crate::post::BlogPostView;
use crate::post::PostAuthorView;
use crate::project::ApiProject;
use crate::project::ProjectView;
use crate::time::Timestamp;
use vstd::prelude::*;
use vstd::string::StringExecFns;

verus! {

/// The two sample posts, published at the given times.
pub open spec fn sample_posts(first_published: int, second_published: int) -> Seq<BlogPostView> {
    seq![
        BlogPostView {
            id: "1"@,
            slug: "getting-started-with-nextjs-14"@,
            title: "Getting Started with Next.js 14 (from Rust)"@,
            summary: "A comprehensive guide from the Rust backend."@,
            image_url: "https://picsum.photos/seed/blog1rust/600/400"@,
            author: PostAuthorView {
                name: "Rust Admin"@,
                avatar_url: "https://picsum.photos/seed/rustadmin/40/40"@,
            },
            published_at: Some(first_published),
            tags: seq!["Next.js"@, "Rust"@],
            content: Some("<p>This is the full content served from the Rust backend.</p>"@),
        },
        BlogPostView {
            id: "2"@,
            slug: "mastering-tailwind-css-techniques"@,
            title: "Mastering Tailwind CSS (from Rust)"@,
            summary: "Unlock Tailwind with Rust insights."@,
            image_url: "https://picsum.photos/seed/blog2rust/600/400"@,
            author: PostAuthorView {
                name: "Rust Writer"@,
                avatar_url: "https://picsum.photos/seed/rustwriter/40/40"@,
            },
            published_at: Some(second_published),
            tags: seq!["TailwindCSS"@, "Rust"@],
            content: Some("<p>Tailwind content from Rust.</p>"@),
        },
    ]
}

/// The sample course.
pub open spec fn sample_courses() -> Seq<CourseView> {
    seq![
        CourseView {
            id: "1"@,
            title: "Advanced Rust Web Development"@,
            description: "Master modern web technologies with Rust, Actix, and Tokio."@,
            image_url: "https://picsum.photos/seed/courserust1/600/300"@,
            author_name: "Jane Doe (Rust Expert)"@,
            instructor: Some(
                CourseInstructorView {
                    name: "Jane Doe"@,
                    bio: "Lead Rust Engineer"@,
                    avatar_url: "https://picsum.photos/seed/instructorrust1/100/100"@,
                },
            ),
            rating: Some(49),
            student_count: Some(1500),
            price: "$199"@,
            category: "Web Development"@,
            level: CourseLevel::Advanced.text(),
            duration: Some("10 Weeks"@),
            lessons: Some(seq![CourseLessonView { title: "Intro to Actix"@, duration: "1h"@ }]),
        },
    ]
}

/// The sample project, dated at the given time.
pub open spec fn sample_projects(date: int) -> Seq<ProjectView> {
    seq![
        ProjectView {
            id: "1"@,
            title: "Rust E-commerce API"@,
            description: "A full-featured e-commerce API built with Rust."@,
            long_description: Some(
                "This project showcases a scalable e-commerce backend using Actix-web, SQLx, and PostgreSQL."@,
            ),
            image_url: "https://picsum.photos/seed/projectrust1/600/400"@,
            tags: seq!["Rust"@, "Actix-web"@, "API"@],
            technologies: Some(seq!["Rust"@, "Actix-web"@, "SQLx"@, "PostgreSQL"@]),
            live_link: Some("#"@),
            repo_link: Some("#"@),
            date: Some(date),
        },
    ]
}

/// The sample leaderboard.
pub open spec fn sample_leaderboard() -> Seq<LeaderboardEntryView> {
    seq![
        LeaderboardEntryView {
            id: "1"@,
            rank: 1,
            name: "Rustacean Prime"@,
            avatar_url: "https://picsum.photos/seed/rustuser1/40/40"@,
            points: 12000,
            achievements: seq!["Ferris Follower"@, "Concurrency King"@],
        },
    ]
}

/// Builds the two sample posts.
pub fn seed_posts(first_published: Timestamp, second_published: Timestamp) -> (posts: Vec<ApiBlogPost>)
    ensures
        posts.deep_view() == sample_posts(first_published@, second_published@),
{
    let first_tags = vec![String::from_str("Next.js"), String::from_str("Rust")];
    let second_tags = vec![String::from_str("TailwindCSS"), String::from_str("Rust")];
    proof {
        assert(first_tags.deep_view() =~= seq!["Next.js"@, "Rust"@]);
        assert(second_tags.deep_view() =~= seq!["TailwindCSS"@, "Rust"@]);
    }
    let posts = vec![
        ApiBlogPost {
            id: String::from_str("1"),
            slug: String::from_str("getting-started-with-nextjs-14"),
            title: String::from_str("Getting Started with Next.js 14 (from Rust)"),
            summary: String::from_str("A comprehensive guide from the Rust backend."),
            image_url: String::from_str("https://picsum.photos/seed/blog1rust/600/400"),
            author: ApiPostAuthor {
                name: String::from_str("Rust Admin"),
                avatar_url: String::from_str("https://picsum.photos/seed/rustadmin/40/40"),
            },
            published_at: Some(first_published),
            tags: first_tags,
            content: Some(String::from_str("<p>This is the full content served from the Rust backend.</p>")),
        },
        ApiBlogPost {
            id: String::from_str("2"),
            slug: String::from_str("mastering-tailwind-css-techniques"),
            title: String::from_str("Mastering Tailwind CSS (from Rust)"),
            summary: String::from_str("Unlock Tailwind with Rust insights."),
            image_url: String::from_str("https://picsum.photos/seed/blog2rust/600/400"),
            author: ApiPostAuthor {
                name: String::from_str("Rust Writer"),
                avatar_url: String::from_str("https://picsum.photos/seed/rustwriter/40/40"),
            },
            published_at: Some(second_published),
            tags: second_tags,
            content: Some(String::from_str("<p>Tailwind content from Rust.</p>")),
        },
    ];
    proof {
        assert(posts.deep_view() =~= sample_posts(first_published@, second_published@));
    }
    posts
}

/// Builds the sample course.
pub fn seed_courses() -> (courses: Vec<ApiCourse>)
    ensures
        courses.deep_view() == sample_courses(),
{
    let lessons = vec![
        ApiCourseLesson { title: String::from_str("Intro to Actix"), duration: String::from_str("1h") },
    ];
    proof {
        assert(lessons.deep_view() =~= seq![CourseLessonView { title: "Intro to Actix"@, duration: "1h"@ }]);
    }
    let courses = vec![
        ApiCourse {
            id: String::from_str("1"),
            title: String::from_str("Advanced Rust Web Development"),
            description: String::from_str("Master modern web technologies with Rust, Actix, and Tokio."),
            image_url: String::from_str("https://picsum.photos/seed/courserust1/600/300"),
            author_name: String::from_str("Jane Doe (Rust Expert)"),
            instructor: Some(
                ApiCourseInstructor {
                    name: String::from_str("Jane Doe"),
                    bio: String::from_str("Lead Rust Engineer"),
                    avatar_url: String::from_str("https://picsum.photos/seed/instructorrust1/100/100"),
                },
            ),
            rating: Rating::from_tenths(49),
            student_count: Some(1500),
            price: String::from_str("$199"),
            category: String::from_str("Web Development"),
            level: String::from_str(CourseLevel::Advanced.as_str()),
            duration: Some(String::from_str("10 Weeks")),
            lessons: Some(lessons),
        },
    ];
    proof {
        assert(courses.deep_view() =~= sample_courses());
    }
    courses
}

/// Builds the sample project.
pub fn seed_projects(date: Timestamp) -> (projects: Vec<ApiProject>)
    ensures
        projects.deep_view() == sample_projects(date@),
{
    let tags = vec![String::from_str("Rust"), String::from_str("Actix-web"), String::from_str("API")];
    let technologies = vec![
        String::from_str("Rust"),
        String::from_str("Actix-web"),
        String::from_str("SQLx"),
        String::from_str("PostgreSQL"),
    ];
    proof {
        assert(tags.deep_view() =~= seq!["Rust"@, "Actix-web"@, "API"@]);
        assert(technologies.deep_view() =~= seq!["Rust"@, "Actix-web"@, "SQLx"@, "PostgreSQL"@]);
    }
    let projects = vec![
        ApiProject {
            id: String::from_str("1"),
            title: String::from_str("Rust E-commerce API"),
            description: String::from_str("A full-featured e-commerce API built with Rust."),
            long_description: Some(
                String::from_str(
                    "This project showcases a scalable e-commerce backend using Actix-web, SQLx, and PostgreSQL.",
                ),
            ),
            image_url: String::from_str("https://picsum.photos/seed/projectrust1/600/400"),
            tags,
            technologies: Some(technologies),
            live_link: Some(String::from_str("#")),
            repo_link: Some(String::from_str("#")),
            date: Some(date),
        },
    ];
    proof {
        assert(projects.deep_view() =~= sample_projects(date@));
    }
    projects
}

/// Builds the sample leaderboard.
pub fn seed_leaderboard() -> (leaderboard: Vec<ApiLeaderboardEntry>)
    ensures
        leaderboard.deep_view() == sample_leaderboard(),
{
    let achievements = vec![String::from_str("Ferris Follower"), String::from_str("Concurrency King")];
    proof {
        assert(achievements.deep_view() =~= seq!["Ferris Follower"@, "Concurrency King"@]);
    }
    let leaderboard = vec![
        ApiLeaderboardEntry {
            id: String::from_str("1"),
            rank: 1,
            name: String::from_str("Rustacean Prime"),
            avatar_url: String::from_str("https://picsum.photos/seed/rustuser1/40/40"),
            points: 12000,
            achievements,
        },
    ];
    proof {
        assert(leaderboard.deep_view() =~= sample_leaderboard());
    }
    leaderboard
}

} // verus!

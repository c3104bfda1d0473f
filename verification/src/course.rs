//! Courses, their instructors, lessons, levels and ratings.

use crate::lookup::Keyed;
use crate::text::str_eq;
use vstd::prelude::*;

verus! {

/// How demanding a course is.
#[derive(Clone, Copy, Debug, PartialEq, Eq, Structural)]
pub enum CourseLevel {
    Beginner,
    Intermediate,
    Advanced,
}

impl Default for CourseLevel {
    fn default() -> (r: Self)
        ensures
            r == CourseLevel::Beginner,
    {
        CourseLevel::Beginner
    }
}

impl CourseLevel {
    /// The level as it is written in a course record.
    pub open spec fn text(self) -> Seq<char> {
        match self {
            CourseLevel::Beginner => "Beginner"@,
            CourseLevel::Intermediate => "Intermediate"@,
            CourseLevel::Advanced => "Advanced"@,
        }
    }

    /// The level that `text` names, if it names one.
    pub open spec fn named_by(text: Seq<char>) -> Option<CourseLevel> {
        if text == "Beginner"@ {
            Some(CourseLevel::Beginner)
        } else if text == "Intermediate"@ {
            Some(CourseLevel::Intermediate)
        } else if text == "Advanced"@ {
            Some(CourseLevel::Advanced)
        } else {
            None
        }
    }

    /// The level as it is written in a course record.
    pub fn as_str(&self) -> (s: &'static str)
        ensures
            s@ == self.text(),
    {
        match self {
            CourseLevel::Beginner => "Beginner",
            CourseLevel::Intermediate => "Intermediate",
            CourseLevel::Advanced => "Advanced",
        }
    }

    /// Reads a level from its text. The text must match exactly.
    pub fn parse(text: &str) -> (r: Option<CourseLevel>)
        ensures
            r == CourseLevel::named_by(text@),
    {
        if str_eq(text, "Beginner") {
            Some(CourseLevel::Beginner)
        } else if str_eq(text, "Intermediate") {
            Some(CourseLevel::Intermediate)
        } else if str_eq(text, "Advanced") {
            Some(CourseLevel::Advanced)
        } else {
            None
        }
    }
}

/// The three levels are written differently, so the text of a level names
/// that level and no other; and a text that names a level is that level's
/// text.
pub proof fn lemma_level_text_names_level(level: CourseLevel, text: Seq<char>)
    ensures
        CourseLevel::named_by(level.text()) == Some(level),
        CourseLevel::named_by(text) == Some(level) <==> text == level.text(),
{
    reveal_strlit("Beginner");
    reveal_strlit("Intermediate");
    reveal_strlit("Advanced");
    assert("Beginner"@.len() != "Intermediate"@.len());
    assert("Advanced"@.len() != "Intermediate"@.len());
    assert("Beginner"@[0] != "Advanced"@[0]);
}

/// The largest rating, in tenths of a point.
pub const MAX_RATING_TENTHS: u8 = 50;

/// A rating between 0.0 and 5.0, in steps of a tenth.
#[derive(Clone, Copy, Debug, PartialEq, Eq)]
pub struct Rating {
    tenths: u8,
}

impl View for Rating {
    type V = int;

    /// The rating in tenths of a point.
    closed spec fn view(&self) -> int {
        self.tenths as int
    }
}

impl DeepView for Rating {
    type V = int;

    open spec fn deep_view(&self) -> int {
        self@
    }
}

impl Rating {
    #[verifier::type_invariant]
    spec fn in_range(self) -> bool {
        self.tenths <= MAX_RATING_TENTHS
    }

    /// The rating of `tenths` tenths of a point, where that is at most 5.0.
    pub fn from_tenths(tenths: u8) -> (r: Option<Rating>)
        ensures
            r is Some <==> tenths <= MAX_RATING_TENTHS,
            r matches Some(rating) ==> rating@ == tenths,
    {
        if tenths <= MAX_RATING_TENTHS {
            Some(Rating { tenths })
        } else {
            None
        }
    }

    /// The rating in tenths of a point.
    pub fn tenths(&self) -> (t: u8)
        ensures
            t == self@,
            t <= MAX_RATING_TENTHS,
    {
        proof {
            use_type_invariant(self);
        }
        self.tenths
    }
}

/// Who teaches a course.
#[derive(Debug, PartialEq, Eq)]
pub struct ApiCourseInstructor {
    pub name: String,
    pub bio: String,
    pub avatar_url: String,
}

/// What an `ApiCourseInstructor` holds.
pub struct CourseInstructorView {
    pub name: Seq<char>,
    pub bio: Seq<char>,
    pub avatar_url: Seq<char>,
}

impl View for ApiCourseInstructor {
    type V = CourseInstructorView;

    open spec fn view(&self) -> CourseInstructorView {
        CourseInstructorView { name: self.name@, bio: self.bio@, avatar_url: self.avatar_url@ }
    }
}

impl DeepView for ApiCourseInstructor {
    type V = CourseInstructorView;

    open spec fn deep_view(&self) -> CourseInstructorView {
        self@
    }
}

impl Clone for ApiCourseInstructor {
    fn clone(&self) -> (r: Self)
        ensures
            r@ == self@,
    {
        ApiCourseInstructor {
            name: self.name.clone(),
            bio: self.bio.clone(),
            avatar_url: self.avatar_url.clone(),
        }
    }
}

/// One lesson of a course.
#[derive(Debug, PartialEq, Eq)]
pub struct ApiCourseLesson {
    pub title: String,
    pub duration: String,
}

/// What an `ApiCourseLesson` holds.
pub struct CourseLessonView {
    pub title: Seq<char>,
    pub duration: Seq<char>,
}

impl View for ApiCourseLesson {
    type V = CourseLessonView;

    open spec fn view(&self) -> CourseLessonView {
        CourseLessonView { title: self.title@, duration: self.duration@ }
    }
}

impl DeepView for ApiCourseLesson {
    type V = CourseLessonView;

    open spec fn deep_view(&self) -> CourseLessonView {
        self@
    }
}

impl Clone for ApiCourseLesson {
    fn clone(&self) -> (r: Self)
        ensures
            r@ == self@,
    {
        ApiCourseLesson { title: self.title.clone(), duration: self.duration.clone() }
    }
}

/// A course. Courses are looked up by `id`.
#[derive(Debug, PartialEq, Eq)]
pub struct ApiCourse {
    pub id: String,
    pub title: String,
    pub description: String,
    pub image_url: String,
    pub author_name: String,
    pub instructor: Option<ApiCourseInstructor>,
    pub rating: Option<Rating>,
    pub student_count: Option<i32>,
    pub price: String,
    pub category: String,
    /// Free text; the records that ship with the catalogue use the text of a
    /// `CourseLevel`.
    pub level: String,
    pub duration: Option<String>,
    pub lessons: Option<Vec<ApiCourseLesson>>,
}

/// What an `ApiCourse` holds.
pub struct CourseView {
    pub id: Seq<char>,
    pub title: Seq<char>,
    pub description: Seq<char>,
    pub image_url: Seq<char>,
    pub author_name: Seq<char>,
    pub instructor: Option<CourseInstructorView>,
    /// In tenths of a point.
    pub rating: Option<int>,
    pub student_count: Option<int>,
    pub price: Seq<char>,
    pub category: Seq<char>,
    pub level: Seq<char>,
    pub duration: Option<Seq<char>>,
    pub lessons: Option<Seq<CourseLessonView>>,
}

impl CourseView {
    /// The course without any text and without any optional field.
    pub open spec fn empty() -> CourseView {
        CourseView {
            id: Seq::empty(),
            title: Seq::empty(),
            description: Seq::empty(),
            image_url: Seq::empty(),
            author_name: Seq::empty(),
            instructor: None,
            rating: None,
            student_count: None,
            price: Seq::empty(),
            category: Seq::empty(),
            level: Seq::empty(),
            duration: None,
            lessons: None,
        }
    }
}

impl View for ApiCourse {
    type V = CourseView;

    open spec fn view(&self) -> CourseView {
        CourseView {
            id: self.id@,
            title: self.title@,
            description: self.description@,
            image_url: self.image_url@,
            author_name: self.author_name@,
            instructor: self.instructor.deep_view(),
            rating: self.rating.deep_view(),
            student_count: match self.student_count {
                Some(n) => Some(n as int),
                None => None,
            },
            price: self.price@,
            category: self.category@,
            level: self.level@,
            duration: self.duration.deep_view(),
            lessons: self.lessons.deep_view(),
        }
    }
}

impl DeepView for ApiCourse {
    type V = CourseView;

    open spec fn deep_view(&self) -> CourseView {
        self@
    }
}

impl Clone for ApiCourse {
    fn clone(&self) -> (r: Self)
        ensures
            r@ == self@,
    {
        ApiCourse {
            id: self.id.clone(),
            title: self.title.clone(),
            description: self.description.clone(),
            image_url: self.image_url.clone(),
            author_name: self.author_name.clone(),
            instructor: self.instructor.clone(),
            rating: self.rating,
            student_count: self.student_count,
            price: self.price.clone(),
            category: self.category.clone(),
            level: self.level.clone(),
            duration: self.duration.clone(),
            lessons: self.lessons.clone(),
        }
    }
}

impl Default for ApiCourse {
    fn default() -> (r: Self)
        ensures
            r@ == CourseView::empty(),
    {
        ApiCourse {
            id: String::new(),
            title: String::new(),
            description: String::new(),
            image_url: String::new(),
            author_name: String::new(),
            instructor: None,
            rating: None,
            student_count: None,
            price: String::new(),
            category: String::new(),
            level: String::new(),
            duration: None,
            lessons: None,
        }
    }
}

impl Keyed for ApiCourse {
    open spec fn key_text(&self) -> Seq<char> {
        self.id@
    }

    fn key(&self) -> (k: &str) {
        self.id.as_str()
    }
}

/// The id of each course, in order.
pub open spec fn course_ids(courses: Seq<CourseView>) -> Seq<Seq<char>> {
    courses.map_values(|c: CourseView| c.id)
}

} // verus!

//! Projects.

use crate::lookup::Keyed;
use crate::time::Timestamp;
use vstd::prelude::*;

verus! {

/// A project. Projects are looked up by `id`.
#[derive(Debug, PartialEq, Eq)]
pub struct ApiProject {
    pub id: String,
    pub title: String,
    pub description: String,
    pub long_description: Option<String>,
    pub image_url: String,
    pub tags: Vec<String>,
    pub technologies: Option<Vec<String>>,
    pub live_link: Option<String>,
    pub repo_link: Option<String>,
    pub date: Option<Timestamp>,
}

/// What an `ApiProject` holds.
pub struct ProjectView {
    pub id: Seq<char>,
    pub title: Seq<char>,
    pub description: Seq<char>,
    pub long_description: Option<Seq<char>>,
    pub image_url: Seq<char>,
    pub tags: Seq<Seq<char>>,
    pub technologies: Option<Seq<Seq<char>>>,
    pub live_link: Option<Seq<char>>,
    pub repo_link: Option<Seq<char>>,
    pub date: Option<int>,
}

impl ProjectView {
    /// The project without any text, tag or optional field.
    pub open spec fn empty() -> ProjectView {
        ProjectView {
            id: Seq::empty(),
            title: Seq::empty(),
            description: Seq::empty(),
            long_description: None,
            image_url: Seq::empty(),
            tags: Seq::empty(),
            technologies: None,
            live_link: None,
            repo_link: None,
            date: None,
        }
    }
}

impl View for ApiProject {
    type V = ProjectView;

    open spec fn view(&self) -> ProjectView {
        ProjectView {
            id: self.id@,
            title: self.title@,
            description: self.description@,
            long_description: self.long_description.deep_view(),
            image_url: self.image_url@,
            tags: self.tags.deep_view(),
            technologies: self.technologies.deep_view(),
            live_link: self.live_link.deep_view(),
            repo_link: self.repo_link.deep_view(),
            date: self.date.deep_view(),
        }
    }
}

impl DeepView for ApiProject {
    type V = ProjectView;

    open spec fn deep_view(&self) -> ProjectView {
        self@
    }
}

impl Clone for ApiProject {
    fn clone(&self) -> (r: Self)
        ensures
            r@ == self@,
    {
        ApiProject {
            id: self.id.clone(),
            title: self.title.clone(),
            description: self.description.clone(),
            long_description: self.long_description.clone(),
            image_url: self.image_url.clone(),
            tags: self.tags.clone(),
            technologies: self.technologies.clone(),
            live_link: self.live_link.clone(),
            repo_link: self.repo_link.clone(),
            date: self.date,
        }
    }
}

impl Default for ApiProject {
    fn default() -> (r: Self)
        ensures
            r@ == ProjectView::empty(),
    {
        let r = ApiProject {
            id: String::new(),
            title: String::new(),
            description: String::new(),
            long_description: None,
            image_url: String::new(),
            tags: Vec::new(),
            technologies: None,
            live_link: None,
            repo_link: None,
            date: None,
        };
        proof {
            assert(r.tags.deep_view() =~= Seq::empty());
        }
        r
    }
}

impl Keyed for ApiProject {
    open spec fn key_text(&self) -> Seq<char> {
        self.id@
    }

    fn key(&self) -> (k: &str) {
        self.id.as_str()
    }
}

/// The id of each project, in order.
pub open spec fn project_ids(projects: Seq<ProjectView>) -> Seq<Seq<char>> {
    projects.map_values(|p: ProjectView| p.id)
}

} // verus!

//! Page components: navigation links, the navigation bar and the search
//! bar, and the ones the asset list page shows.

use vstd::prelude::*;
use vstd::string::StringExecFns;
use crate::errors::texts;

verus! {

/// A navigation link and how it is shown.
#[derive(Debug, Clone)]
pub enum Link {
    Active { name: String, url: String },
    Disabled { name: String, url: String },
    Normal { name: String, url: String },
}

/// How a link is shown.
#[derive(Debug, Clone, Copy, PartialEq, Eq, Structural)]
pub enum LinkState {
    Active,
    Disabled,
    Normal,
}

/// A link as its state, its name and its URL.
pub open spec fn link_view(l: Link) -> (LinkState, Seq<char>, Seq<char>) {
    match l {
        Link::Active { name, url } => (LinkState::Active, name@, url@),
        Link::Disabled { name, url } => (LinkState::Disabled, name@, url@),
        Link::Normal { name, url } => (LinkState::Normal, name@, url@),
    }
}

/// The views of a sequence of links.
pub open spec fn links_view(s: Seq<Link>) -> Seq<(LinkState, Seq<char>, Seq<char>)> {
    s.map_values(|l: Link| link_view(l))
}

impl Link {
    /// A link in the given state.
    pub fn new(state: LinkState, name: &str, url: &str) -> (r: Link)
        ensures
            link_view(r) == (state, name@, url@),
    {
        let name = String::from_str(name);
        let url = String::from_str(url);
        match state {
            LinkState::Active => Link::Active { name, url },
            LinkState::Disabled => Link::Disabled { name, url },
            LinkState::Normal => Link::Normal { name, url },
        }
    }
}

/// The navigation bar at the top of a page.
#[derive(Debug)]
pub struct NavBar {
    pub username: String,
    pub email: String,
    pub links: Vec<Link>,
    pub is_admin: bool,
}

/// A search bar: a title, the URL the search form posts to, the text
/// searched for, and the selected filter with the filters to pick from.
#[derive(Debug)]
pub struct SearchBar {
    pub title: String,
    pub form_url: String,
    pub search_text: Option<String>,
    pub search_filter: Option<(Option<String>, Vec<String>)>,
    pub links: Vec<Link>,
}

/// The navigation bar of the asset list page.
pub fn list_navbar() -> (r: NavBar)
    ensures
        r.username@ == "admin"@,
        r.email@ == "admin@richmond-county.k12.va.us"@,
        r.is_admin,
        links_view(r.links@) == seq![
            (LinkState::Active, "Asset-Items"@, "/web/list"@),
            (LinkState::Normal, "User-Items"@, "/web/home"@),
            (LinkState::Disabled, "Schools"@, "/web/home"@),
            (LinkState::Disabled, "Rooms"@, "/web/home"@),
        ],
{
    let mut links: Vec<Link> = Vec::new();
    links.push(Link::new(LinkState::Active, "Asset-Items", "/web/list"));
    links.push(Link::new(LinkState::Normal, "User-Items", "/web/home"));
    links.push(Link::new(LinkState::Disabled, "Schools", "/web/home"));
    links.push(Link::new(LinkState::Disabled, "Rooms", "/web/home"));
    proof {
        assert(links_view(links@) =~= seq![
            (LinkState::Active, "Asset-Items"@, "/web/list"@),
            (LinkState::Normal, "User-Items"@, "/web/home"@),
            (LinkState::Disabled, "Schools"@, "/web/home"@),
            (LinkState::Disabled, "Rooms"@, "/web/home"@),
        ]);
    }
    NavBar {
        username: String::from_str("admin"),
        email: String::from_str("admin@richmond-county.k12.va.us"),
        links,
        is_admin: true,
    }
}

/// The search bar of the asset list page: no text searched for, no filter
/// selected, and the filters "all", "assets", "model" and "serial #".
pub fn list_search_bar() -> (r: SearchBar)
    ensures
        r.title@ == "Assets"@,
        r.form_url@ == "/web/list"@,
        r.search_text is None,
        r.search_filter matches Some((selected, filters)) && selected is None && texts(filters@)
            == seq!["all"@, "assets"@, "model"@, "serial #"@],
        links_view(r.links@) == seq![
            (LinkState::Normal, "Add"@, "/web/home"@),
            (LinkState::Disabled, "Upload"@, "/web/home"@),
        ],
{
    let mut filters: Vec<String> = Vec::new();
    filters.push(String::from_str("all"));
    filters.push(String::from_str("assets"));
    filters.push(String::from_str("model"));
    filters.push(String::from_str("serial #"));
    let mut links: Vec<Link> = Vec::new();
    links.push(Link::new(LinkState::Normal, "Add", "/web/home"));
    links.push(Link::new(LinkState::Disabled, "Upload", "/web/home"));
    proof {
        assert(texts(filters@) =~= seq!["all"@, "assets"@, "model"@, "serial #"@]);
        assert(links_view(links@) =~= seq![
            (LinkState::Normal, "Add"@, "/web/home"@),
            (LinkState::Disabled, "Upload"@, "/web/home"@),
        ]);
    }
    SearchBar {
        title: String::from_str("Assets"),
        form_url: String::from_str("/web/list"),
        search_text: None,
        search_filter: Some((None, filters)),
        links,
    }
}

} // verus!

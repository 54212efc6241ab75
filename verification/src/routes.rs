//! Which endpoint answers which request, and which page the frontend serves at which path.
use vstd::prelude::*;

verus! {

#[derive(PartialEq, Eq, Structural, Clone, Copy, Debug)]
pub enum Method {
    Get,
    Post,
    Put,
    Delete,
}

/// The endpoints of the API.
#[derive(PartialEq, Eq, Structural, Clone, Copy, Debug)]
pub enum Endpoint {
    GetStudents,
    CreateStudent,
    GetStudent,
    UpdateStudent,
    DeleteStudent,
    GetStudentImage,
    GetGroups,
    CreateGroup,
    GetGroup,
    UpdateGroup,
    DeleteGroup,
}

/// A method and a path pattern (`{id}` stands for one path segment) and the endpoint
/// that answers them.
#[derive(Debug)]
pub struct Route {
    pub method: Method,
    pub path: &'static str,
    pub endpoint: Endpoint,
}

pub open spec fn route_view(r: Route) -> (Method, Seq<char>, Endpoint) {
    (r.method, r.path@, r.endpoint)
}

/// The routes of the API, in the order in which they are tried.
pub open spec fn api_route_table() -> Seq<(Method, Seq<char>, Endpoint)> {
    seq![
        (Method::Get, "/api/students"@, Endpoint::GetStudents),
        (Method::Post, "/api/students"@, Endpoint::CreateStudent),
        (Method::Get, "/api/students/{id}"@, Endpoint::GetStudent),
        (Method::Put, "/api/students/{id}"@, Endpoint::UpdateStudent),
        (Method::Delete, "/api/students/{id}"@, Endpoint::DeleteStudent),
        (Method::Get, "/api/students/image/{id}"@, Endpoint::GetStudentImage),
        (Method::Get, "/api/groups"@, Endpoint::GetGroups),
        (Method::Post, "/api/groups"@, Endpoint::CreateGroup),
        (Method::Get, "/api/groups/{id}"@, Endpoint::GetGroup),
        (Method::Put, "/api/groups/{id}"@, Endpoint::UpdateGroup),
        (Method::Delete, "/api/groups/{id}"@, Endpoint::DeleteGroup),
    ]
}

fn route(method: Method, path: &'static str, endpoint: Endpoint) -> (r: Route)
    ensures
        route_view(r) == (method, path@, endpoint),
{
    Route { method, path, endpoint }
}

/// The routes of the API, in the order in which they are tried.
pub fn api_routes() -> (routes: Vec<Route>)
    ensures
        routes@.map_values(|r: Route| route_view(r)) == api_route_table(),
{
    let routes = vec![
        route(Method::Get, "/api/students", Endpoint::GetStudents),
        route(Method::Post, "/api/students", Endpoint::CreateStudent),
        route(Method::Get, "/api/students/{id}", Endpoint::GetStudent),
        route(Method::Put, "/api/students/{id}", Endpoint::UpdateStudent),
        route(Method::Delete, "/api/students/{id}", Endpoint::DeleteStudent),
        route(Method::Get, "/api/students/image/{id}", Endpoint::GetStudentImage),
        route(Method::Get, "/api/groups", Endpoint::GetGroups),
        route(Method::Post, "/api/groups", Endpoint::CreateGroup),
        route(Method::Get, "/api/groups/{id}", Endpoint::GetGroup),
        route(Method::Put, "/api/groups/{id}", Endpoint::UpdateGroup),
        route(Method::Delete, "/api/groups/{id}", Endpoint::DeleteGroup),
    ];
    assert(routes@.map_values(|r: Route| route_view(r)) =~= api_route_table());
    routes
}

/// A page of the frontend: the path it is served at and the file it is read from.
#[derive(Debug)]
pub struct Page {
    pub path: &'static str,
    pub file: &'static str,
}

pub open spec fn page_view(p: Page) -> (Seq<char>, Seq<char>) {
    (p.path@, p.file@)
}

/// The frontend's pages; the students page is also the start page.
pub open spec fn page_table() -> Seq<(Seq<char>, Seq<char>)> {
    seq![
        ("/"@, "./static/students.html"@),
        ("/students"@, "./static/students.html"@),
        ("/groups"@, "./static/groups.html"@),
        ("/update-student"@, "./static/update_student.html"@),
        ("/update-group"@, "./static/update_group.html"@),
    ]
}

fn page(path: &'static str, file: &'static str) -> (p: Page)
    ensures
        page_view(p) == (path@, file@),
{
    Page { path, file }
}

/// The frontend's pages.
pub fn frontend_pages() -> (pages: Vec<Page>)
    ensures
        pages@.map_values(|p: Page| page_view(p)) == page_table(),
{
    let pages = vec![
        page("/", "./static/students.html"),
        page("/students", "./static/students.html"),
        page("/groups", "./static/groups.html"),
        page("/update-student", "./static/update_student.html"),
        page("/update-group", "./static/update_group.html"),
    ];
    assert(pages@.map_values(|p: Page| page_view(p)) =~= page_table());
    pages
}

/// No two API routes share a method and a path, and each endpoint is reached by
/// exactly one route: no route hides another.
pub proof fn api_routes_are_unambiguous()
    ensures
        forall|i: int, j: int|
            0 <= i < j < api_route_table().len() ==> {
                let a = #[trigger] api_route_table()[i];
                let b = #[trigger] api_route_table()[j];
                &&& a.2 != b.2
                &&& !(a.0 == b.0 && a.1 == b.1)
            },
{
    reveal_strlit("/api/students");
    reveal_strlit("/api/students/{id}");
    reveal_strlit("/api/students/image/{id}");
    reveal_strlit("/api/groups");
    reveal_strlit("/api/groups/{id}");
    let t = api_route_table();
    assert(t[0].1.len() == 13 && t[1].1.len() == 13 && t[2].1.len() == 18 && t[3].1.len() == 18
        && t[4].1.len() == 18 && t[5].1.len() == 24 && t[6].1.len() == 11 && t[7].1.len() == 11
        && t[8].1.len() == 16 && t[9].1.len() == 16 && t[10].1.len() == 16);
    assert forall|i: int, j: int| 0 <= i < j < t.len() implies {
        let a = #[trigger] t[i];
        let b = #[trigger] t[j];
        &&& a.2 != b.2
        &&& !(a.0 == b.0 && a.1 == b.1)
    } by {
        if t[i].0 == t[j].0 {
            assert(t[i].1.len() != t[j].1.len());
        }
    }
}

} // verus!

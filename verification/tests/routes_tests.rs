use lab_5::routes::{api_routes, frontend_pages, Endpoint, Method};

#[test]
fn api_route_table() {
    let routes: Vec<(Method, &str, Endpoint)> =
        api_routes().into_iter().map(|r| (r.method, r.path, r.endpoint)).collect();
    assert_eq!(
        routes,
        vec![
            (Method::Get, "/api/students", Endpoint::GetStudents),
            (Method::Post, "/api/students", Endpoint::CreateStudent),
            (Method::Get, "/api/students/{id}", Endpoint::GetStudent),
            (Method::Put, "/api/students/{id}", Endpoint::UpdateStudent),
            (Method::Delete, "/api/students/{id}", Endpoint::DeleteStudent),
            (Method::Get, "/api/students/image/{id}", Endpoint::GetStudentImage),
            (Method::Get, "/api/groups", Endpoint::GetGroups),
            (Method::Post, "/api/groups", Endpoint::CreateGroup),
            (Method::Get, "/api/groups/{id}", Endpoint::GetGroup),
            (Method::Put, "/api/groups/{id}", Endpoint::UpdateGroup),
            (Method::Delete, "/api/groups/{id}", Endpoint::DeleteGroup),
        ]
    );
}

#[test]
fn every_endpoint_has_one_route() {
    let routes = api_routes();
    for (i, a) in routes.iter().enumerate() {
        for b in routes.iter().skip(i + 1) {
            assert!(a.endpoint != b.endpoint);
            assert!(!(a.method == b.method && a.path == b.path));
        }
    }
}

#[test]
fn frontend_page_table() {
    let pages: Vec<(&str, &str)> = frontend_pages().into_iter().map(|p| (p.path, p.file)).collect();
    assert_eq!(
        pages,
        vec![
            ("/", "./static/students.html"),
            ("/students", "./static/students.html"),
            ("/groups", "./static/groups.html"),
            ("/update-student", "./static/update_student.html"),
            ("/update-group", "./static/update_group.html"),
        ]
    );
}

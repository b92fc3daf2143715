use usuarios_api::routes::{config, Handler, Route};

#[test]
fn routes_are_three_in_their_order() {
    assert_eq!(
        config(),
        vec![
            Route { path: "/usuarios", handler: Handler::GetAllUsers },
            Route { path: "/usuarios/paginated", handler: Handler::GetAllUsersPaginated },
            Route { path: "/usuarios/{id}", handler: Handler::GetOne },
        ]
    );
}

#[test]
fn fixed_path_stands_before_the_path_with_an_id() {
    let routes = config();
    let fixed = routes.iter().position(|r| r.handler == Handler::GetAllUsersPaginated);
    let with_id = routes.iter().position(|r| r.handler == Handler::GetOne);
    assert!(fixed < with_id);
}

#[test]
fn paths_are_distinct_and_end_without_a_slash() {
    let routes = config();
    for (i, a) in routes.iter().enumerate() {
        assert!(!a.path.ends_with('/'));
        for b in routes.iter().skip(i + 1) {
            assert_ne!(a.path, b.path);
            assert_ne!(a.handler, b.handler);
        }
    }
}

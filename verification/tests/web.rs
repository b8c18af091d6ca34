use curds::web::responder::{CurdsWebHttpResponder, RequestFailure, RequestMethod, ResponsePlan, ResponseStatus};
use curds::web::route_map::{
    CurdsWebRouteMap, SiteConfiguration, SiteDirectory, SiteEntry, generate_target, route_directory,
    target_from_rest,
};

#[test]
fn retrieve_finds_the_latest_entry() {
    let configuration = SiteConfiguration::new("/srv/site", vec![
        ("/".to_owned(), "/srv/site/index.html".to_owned()),
        ("/a.css".to_owned(), "/srv/site/a.css".to_owned()),
        ("/".to_owned(), "/srv/site/home.html".to_owned()),
    ]);
    assert_eq!("/srv/site", configuration.root);
    let map = CurdsWebRouteMap::new(configuration);
    assert_eq!(Some("/srv/site/home.html".to_owned()), map.retrieve("/"));
    assert_eq!(Some("/srv/site/a.css".to_owned()), map.retrieve("/a.css"));
    assert_eq!(None, map.retrieve("/missing"));
}

#[test]
fn targets_are_paths_below_the_root() {
    assert_eq!(Some("/".to_owned()), generate_target("/srv/site", "/srv/site"));
    assert_eq!(Some("/css/a.css".to_owned()), generate_target("/srv/site/css/a.css", "/srv/site"));
    assert_eq!(Some("/css/a.css".to_owned()), generate_target("C:\\site\\css\\a.css", "C:\\site"));
    assert_eq!(Some("/a+b(1).txt".to_owned()), generate_target("/srv/s.t+e/a+b(1).txt", "/srv/s.t+e"));
    assert_eq!(None, generate_target("/srv/other/a.css", "/srv/site"));
    assert_eq!(None, generate_target("/srv/sitex", "/srv/site.x"));
    assert_eq!(None, generate_target("/srv/site/a\nb", "/srv/site"));
    assert_eq!("/", target_from_rest(""));
    assert_eq!("/a/b", target_from_rest("\\a\\b"));
}

#[test]
fn responses_follow_the_request() {
    assert_eq!(ResponsePlan::Route, CurdsWebHttpResponder::plan(Ok(RequestMethod::Get)));
    assert_eq!(ResponsePlan::Answer(ResponseStatus::MethodNotAllowed), CurdsWebHttpResponder::plan(Ok(RequestMethod::Other)));
    assert_eq!(ResponsePlan::Silence, CurdsWebHttpResponder::plan(Err(RequestFailure::NoBytesRead)));
    assert_eq!(ResponsePlan::Answer(ResponseStatus::RequestTimeout), CurdsWebHttpResponder::plan(Err(RequestFailure::Timeout)));
    assert_eq!(ResponsePlan::Answer(ResponseStatus::BadRequest), CurdsWebHttpResponder::plan(Err(RequestFailure::Malformed)));
    assert_eq!(ResponseStatus::Success, CurdsWebHttpResponder::routed_status(true));
    assert_eq!(ResponseStatus::NotFound, CurdsWebHttpResponder::routed_status(false));
}

#[test]
fn routes_list_the_directory_then_its_entries() {
    let site = SiteDirectory {
        path: "/srv/site".to_owned(),
        index: "/srv/site/index.html".to_owned(),
        entries: vec![
            SiteEntry::File("/srv/site/index.html".to_owned()),
            SiteEntry::Directory(SiteDirectory {
                path: "/srv/site/css".to_owned(),
                index: "/srv/site/css/index.html".to_owned(),
                entries: vec![SiteEntry::File("/srv/site/css/a.css".to_owned())],
            }),
            SiteEntry::File("/srv/site/logo.png".to_owned()),
        ],
    };
    let routes = route_directory(&site, "/srv/site").unwrap();
    assert_eq!(
        vec![
            ("/".to_owned(), "/srv/site/index.html".to_owned()),
            ("/index.html".to_owned(), "/srv/site/index.html".to_owned()),
            ("/css".to_owned(), "/srv/site/css/index.html".to_owned()),
            ("/css/a.css".to_owned(), "/srv/site/css/a.css".to_owned()),
            ("/logo.png".to_owned(), "/srv/site/logo.png".to_owned()),
        ],
        routes
    );
    let map = CurdsWebRouteMap::new(SiteConfiguration::new("/srv/site", routes));
    assert_eq!(Some("/srv/site/css/a.css".to_owned()), map.retrieve("/css/a.css"));
    let stray = SiteDirectory {
        path: "/srv/site".to_owned(),
        index: "/srv/site/index.html".to_owned(),
        entries: vec![SiteEntry::File("/elsewhere/a.css".to_owned())],
    };
    assert_eq!(None, route_directory(&stray, "/srv/site"));
}

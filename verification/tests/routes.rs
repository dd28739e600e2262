use omnia_plugin::routes::{
    combine_route_options, extract_params, handler_shape, HandlerShape, RouteFlags, RouteOpt,
    RouteOptError,
};

#[test]
fn test_parse_params() {
    let params = extract_params("{vehicle_id}/{trip_id}");
    assert_eq!(params, vec!["vehicle_id".to_string(), "trip_id".to_string()]);
}

#[test]
fn params_skip_non_identifiers() {
    assert_eq!(extract_params("/jobs/detector"), Vec::<String>::new());
    assert_eq!(extract_params("{1x}/{_a1}/{b-c}/{{d}}"), vec!["_a1".to_string(), "d".to_string()]);
    assert_eq!(extract_params("/god-mode/set-trip/{vehicle_id}/{trip_id}").len(), 2);
}

#[test]
fn options_in_order() {
    let flags = combine_route_options(&vec![RouteOpt::Handler, RouteOpt::Query]).unwrap();
    assert_eq!(flags, RouteFlags { handler: 0, query: true, body: false });
    let flags = combine_route_options(&vec![RouteOpt::Body, RouteOpt::Handler]).unwrap();
    assert_eq!(flags, RouteFlags { handler: 1, query: false, body: true });
}

#[test]
fn options_repeated_or_missing() {
    let err = combine_route_options(&vec![RouteOpt::Handler, RouteOpt::Handler]).unwrap_err();
    assert_eq!(err, RouteOptError::SecondHandler(1));
    assert_eq!(err.message(), "cannot specify second handler");
    let err = combine_route_options(&vec![RouteOpt::Query, RouteOpt::Body, RouteOpt::Query, RouteOpt::Body])
        .unwrap_err();
    assert_eq!(err, RouteOptError::QueryTwice(2));
    assert_eq!(err.message(), "query is specified more than once");
    let err = combine_route_options(&vec![RouteOpt::Handler, RouteOpt::Body, RouteOpt::Body]).unwrap_err();
    assert_eq!(err, RouteOptError::BodyTwice(2));
    let err = combine_route_options(&vec![RouteOpt::Query]).unwrap_err();
    assert_eq!(err, RouteOptError::MissingMethod);
    assert_eq!(err.message(), "route is missing `method`");
}

#[test]
fn handler_shapes() {
    assert_eq!(handler_shape(true, 0, true, false), HandlerShape::RawQuery);
    assert_eq!(handler_shape(true, 0, false, false), HandlerShape::Unit);
    assert_eq!(handler_shape(true, 1, true, false), HandlerShape::OnePathParam);
    assert_eq!(handler_shape(true, 2, false, false), HandlerShape::PathParams(2));
    assert_eq!(handler_shape(false, 2, false, true), HandlerShape::Body);
    assert_eq!(handler_shape(false, 0, true, false), HandlerShape::Unit);
}

use diwata::error::{ApiError, Malformed};
use diwata::params::{parse_page_number, parse_page_request, PageRequest, PAGE_SIZE};
use diwata::path::{segment_is, split_path};
use diwata::route::{parse_path, route, Operation};

fn segs(items: &[&str]) -> Vec<String> {
    items.iter().map(|s| s.to_string()).collect()
}

fn page(n: u32, filter: Option<&str>, sort: Option<&str>) -> PageRequest {
    PageRequest {
        page: n,
        filter: filter.map(|s| s.to_string()),
        sort: sort.map(|s| s.to_string()),
    }
}

#[test]
fn split_path_trims_separators_at_both_ends() {
    assert_eq!(split_path("/window/employee/"), segs(&["window", "employee"]));
    assert_eq!(split_path("///data/t///"), segs(&["data", "t"]));
}

#[test]
fn split_path_of_root_is_one_empty_segment() {
    assert_eq!(split_path(""), segs(&[""]));
    assert_eq!(split_path("/"), segs(&[""]));
    assert_eq!(split_path("////"), segs(&[""]));
}

#[test]
fn split_path_keeps_inner_empty_segments() {
    assert_eq!(split_path("a//b"), segs(&["a", "", "b"]));
    assert_eq!(split_path("été/ü"), segs(&["été", "ü"]));
}

#[test]
fn segment_is_compares_whole_text() {
    assert!(segment_is(&"window".to_string(), "window"));
    assert!(!segment_is(&"windows".to_string(), "window"));
    assert!(!segment_is(&"windoW".to_string(), "window"));
}

#[test]
fn page_number_accepts_positive_decimals() {
    assert_eq!(parse_page_number(&"1".to_string()), Some(1));
    assert_eq!(parse_page_number(&"042".to_string()), Some(42));
    assert_eq!(parse_page_number(&"4294967295".to_string()), Some(4294967295));
}

#[test]
fn page_number_rejects_zero_text_and_overflow() {
    assert_eq!(parse_page_number(&"0".to_string()), None);
    assert_eq!(parse_page_number(&"".to_string()), None);
    assert_eq!(parse_page_number(&"abc".to_string()), None);
    assert_eq!(parse_page_number(&"-3".to_string()), None);
    assert_eq!(parse_page_number(&"+3".to_string()), None);
    assert_eq!(parse_page_number(&"4294967296".to_string()), None);
    assert_eq!(parse_page_number(&"99999999999999999999".to_string()), None);
    assert_eq!(parse_page_number(&"12x".to_string()), None);
}

#[test]
fn page_request_defaults_to_first_page() {
    assert_eq!(parse_page_request(&segs(&["data", "t"]), 2), Ok(page(1, None, None)));
}

#[test]
fn page_request_reads_all_keys() {
    let s = segs(&["page", "3", "filter", "name=joe", "sort", "name.asc"]);
    assert_eq!(parse_page_request(&s, 0), Ok(page(3, Some("name=joe"), Some("name.asc"))));
}

#[test]
fn page_request_ignores_reordering_of_keys() {
    let a = parse_page_request(&segs(&["page", "2", "sort", "name"]), 0);
    let b = parse_page_request(&segs(&["sort", "name", "page", "2"]), 0);
    assert_eq!(a, b);
    assert_eq!(a, Ok(page(2, None, Some("name"))));
}

#[test]
fn page_request_last_occurrence_wins() {
    let s = segs(&["page", "2", "page", "5", "sort", "a", "sort", "b"]);
    assert_eq!(parse_page_request(&s, 0), Ok(page(5, None, Some("b"))));
}

#[test]
fn page_request_ignores_unknown_keys() {
    let s = segs(&["limit", "10", "page", "2"]);
    assert_eq!(parse_page_request(&s, 0), Ok(page(2, None, None)));
}

#[test]
fn page_request_rejects_bad_page_and_unpaired_key() {
    assert_eq!(
        parse_page_request(&segs(&["page", "x"]), 0),
        Err(ApiError::MalformedRequest(Malformed::InvalidPageNumber))
    );
    assert_eq!(
        parse_page_request(&segs(&["page", "0"]), 0),
        Err(ApiError::MalformedRequest(Malformed::InvalidPageNumber))
    );
    assert_eq!(
        parse_page_request(&segs(&["page", "2", "sort"]), 0),
        Err(ApiError::MalformedRequest(Malformed::UnpairedParameter))
    );
}

#[test]
fn page_size_is_forty() {
    assert_eq!(PAGE_SIZE, 40);
}

#[test]
fn root_path_routes_to_index() {
    assert_eq!(parse_path("/"), Ok(Operation::Index));
    assert_eq!(parse_path(""), Ok(Operation::Index));
}

#[test]
fn static_path_routes_with_its_tail() {
    assert_eq!(
        parse_path("/static/css/app.css"),
        Ok(Operation::Static { path: segs(&["css", "app.css"]) })
    );
}

#[test]
fn every_keyword_routes_to_its_operation() {
    assert_eq!(parse_path("/windows"), Ok(Operation::ListWindows));
    assert_eq!(
        parse_path("/window/employee"),
        Ok(Operation::ShowWindow { table: "employee".to_string() })
    );
    assert_eq!(
        parse_path("/data/employee/page/2/filter/age=3"),
        Ok(Operation::ListData {
            table: "employee".to_string(),
            params: segs(&["page", "2", "filter", "age=3"]),
        })
    );
    assert_eq!(
        parse_path("/select/employee/42"),
        Ok(Operation::SelectRecord { table: "employee".to_string(), record_id: "42".to_string() })
    );
    assert_eq!(
        parse_path("/has_many_select/employee/42/employee_leave/page/1"),
        Ok(Operation::HasManySelect {
            table: "employee".to_string(),
            record_id: "42".to_string(),
            child: "employee_leave".to_string(),
            params: segs(&["page", "1"]),
        })
    );
    assert_eq!(
        parse_path("/indirect_select/employee/42/project"),
        Ok(Operation::IndirectSelect {
            table: "employee".to_string(),
            record_id: "42".to_string(),
            indirect: "project".to_string(),
            params: vec![],
        })
    );
    assert_eq!(
        parse_path("/lookup/employee/3"),
        Ok(Operation::Lookup { table: "employee".to_string(), page: "3".to_string() })
    );
    assert_eq!(
        parse_path("/lookup_all/employee"),
        Ok(Operation::LookupAll { table: "employee".to_string() })
    );
    assert_eq!(parse_path("/test"), Ok(Operation::TestConnection));
    assert_eq!(parse_path("/db_url"), Ok(Operation::DbUrl));
    assert_eq!(
        parse_path("/delete/employee"),
        Ok(Operation::Delete { table: "employee".to_string() })
    );
    assert_eq!(parse_path("/tab_changeset"), Ok(Operation::TabChangeset));
}

#[test]
fn unknown_keyword_is_not_found() {
    assert_eq!(parse_path("/nothing/here"), Err(ApiError::NotFound));
    assert_eq!(parse_path("/Windows"), Err(ApiError::NotFound));
}

#[test]
fn too_few_segments_are_malformed() {
    let missing = Err(ApiError::MalformedRequest(Malformed::MissingSegment));
    assert_eq!(parse_path("/window"), missing);
    assert_eq!(parse_path("/data/"), missing);
    assert_eq!(parse_path("/select/employee"), missing);
    assert_eq!(parse_path("/has_many_select/employee/42"), missing);
    assert_eq!(parse_path("/indirect_select/employee/42"), missing);
    assert_eq!(parse_path("/lookup/employee"), missing);
    assert_eq!(parse_path("/lookup_all"), missing);
    assert_eq!(parse_path("/delete"), missing);
}

#[test]
fn router_leaves_page_arguments_unparsed() {
    assert_eq!(
        parse_path("/lookup/employee/next"),
        Ok(Operation::Lookup { table: "employee".to_string(), page: "next".to_string() })
    );
    assert_eq!(
        route(&segs(&["data", "t", "page"])),
        Ok(Operation::ListData { table: "t".to_string(), params: segs(&["page"]) })
    );
}

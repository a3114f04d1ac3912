use diwata::codec::{encode_reply, ContentKind, Reply};
use diwata::error::{ApiError, Malformed, Upstream};
use diwata::handler::{
    decode_changeset, decode_record_ids, plan, plan_delete, serve, Action, MAX_BODY_BYTES,
};
use diwata::params::{PageRequest, PAGE_SIZE};
use diwata::route::Operation;
use diwata::window::{IndirectTab, Registry, Tab, Window};

fn tab(name: &str) -> Tab {
    Tab { table_name: name.to_string(), columns: vec!["id".to_string()] }
}

fn registry() -> Registry {
    let employee = Window {
        main_tab: tab("employee"),
        has_many_tabs: vec![tab("employee_leave"), tab("timesheet")],
        indirect_tabs: vec![
            IndirectTab { linker_table: "employee_project".to_string(), tab: tab("project") },
            IndirectTab { linker_table: "employee_skill".to_string(), tab: tab("skill") },
        ],
    };
    let project = Window { main_tab: tab("project"), has_many_tabs: vec![], indirect_tabs: vec![] };
    Registry { windows: vec![project, employee] }
}

fn first_page() -> PageRequest {
    PageRequest { page: 1, filter: None, sort: None }
}

fn no_url() -> Option<String> {
    None
}

#[test]
fn window_of_known_table_is_its_descriptor() {
    let reg = registry();
    assert_eq!(serve(&reg, "/window/employee", &no_url(), b""), Ok(Action::ShowWindow { window: 1 }));
    assert_eq!(serve(&reg, "/window/project", &no_url(), b""), Ok(Action::ShowWindow { window: 0 }));
}

#[test]
fn window_of_unknown_table_is_not_found() {
    let reg = registry();
    assert_eq!(serve(&reg, "/window/payroll", &no_url(), b""), Err(ApiError::NotFound));
    assert_eq!(serve(&reg, "/window/employee_leave", &no_url(), b""), Err(ApiError::NotFound));
}

#[test]
fn listing_asks_for_one_page_of_the_main_table() {
    let reg = registry();
    let expected = Action::ListMain {
        window: 1,
        page: PageRequest { page: 3, filter: None, sort: None },
        page_size: PAGE_SIZE,
    };
    assert_eq!(serve(&reg, "/data/employee/page/3", &no_url(), b""), Ok(expected));
    assert_eq!(serve(&reg, "/data/payroll/page/3", &no_url(), b""), Err(ApiError::NotFound));
}

#[test]
fn listing_the_first_page_twice_asks_the_same() {
    let reg = registry();
    let a = serve(&reg, "/data/employee/page/1", &no_url(), b"");
    let b = serve(&reg, "/data/employee/page/1", &no_url(), b"");
    assert_eq!(a, b);
    assert_eq!(a, Ok(Action::ListMain { window: 1, page: first_page(), page_size: 40 }));
}

#[test]
fn has_many_select_lists_child_rows_of_the_record() {
    let reg = registry();
    let r = serve(&reg, "has_many_select/employee/42/employee_leave/page/1", &no_url(), b"");
    assert_eq!(
        r,
        Ok(Action::ListHasMany {
            window: 1,
            record_id: "42".to_string(),
            tab: 0,
            page: first_page(),
            page_size: PAGE_SIZE,
        })
    );
    if let Ok(Action::ListHasMany { window, tab, .. }) = r {
        assert_eq!(reg.windows[window].has_many_tabs[tab].table_name, "employee_leave");
    }
}

#[test]
fn has_many_select_of_an_unrelated_table_is_not_found() {
    let reg = registry();
    let r = serve(&reg, "has_many_select/employee/42/payroll/page/1", &no_url(), b"");
    assert_eq!(r, Err(ApiError::NotFound));
}

#[test]
fn has_many_select_does_not_fall_back_to_indirect_tabs() {
    let reg = registry();
    let r = serve(&reg, "has_many_select/employee/42/project", &no_url(), b"");
    assert_eq!(r, Err(ApiError::NotFound));
    let r = serve(&reg, "has_many_select/payroll/42/timesheet", &no_url(), b"");
    assert_eq!(r, Err(ApiError::NotFound));
}

#[test]
fn indirect_select_goes_through_the_paired_linker() {
    let reg = registry();
    let r = serve(&reg, "indirect_select/employee/7/skill/sort/name", &no_url(), b"");
    assert_eq!(
        r,
        Ok(Action::ListIndirect {
            window: 1,
            record_id: "7".to_string(),
            tab: 1,
            linker_table: "employee_skill".to_string(),
            page: PageRequest { page: 1, filter: None, sort: Some("name".to_string()) },
            page_size: PAGE_SIZE,
        })
    );
}

#[test]
fn indirect_select_matches_the_tab_not_the_linker() {
    let reg = registry();
    let r = serve(&reg, "indirect_select/employee/7/employee_project", &no_url(), b"");
    assert_eq!(r, Err(ApiError::NotFound));
    let r = serve(&reg, "indirect_select/employee/7/employee_leave", &no_url(), b"");
    assert_eq!(r, Err(ApiError::NotFound));
}

#[test]
fn select_lookup_and_lookup_all_resolve_the_window() {
    let reg = registry();
    assert_eq!(
        serve(&reg, "select/employee/42", &no_url(), b""),
        Ok(Action::SelectRecord { window: 1, record_id: "42".to_string() })
    );
    assert_eq!(
        serve(&reg, "lookup/project/2", &no_url(), b""),
        Ok(Action::LookupPage { window: 0, page: 2, page_size: PAGE_SIZE })
    );
    assert_eq!(serve(&reg, "lookup_all/employee", &no_url(), b""), Ok(Action::LookupAll { window: 1 }));
    assert_eq!(serve(&reg, "select/payroll/42", &no_url(), b""), Err(ApiError::NotFound));
    assert_eq!(serve(&reg, "lookup/payroll/2", &no_url(), b""), Err(ApiError::NotFound));
    assert_eq!(serve(&reg, "lookup_all/payroll", &no_url(), b""), Err(ApiError::NotFound));
}

#[test]
fn unknown_window_or_tab_is_not_found_before_page_parameters_are_read() {
    let reg = registry();
    let cases = [
        "has_many_select/employee/42/payroll/page/abc",
        "has_many_select/employee/42/project/page/abc",
        "has_many_select/payroll/42/timesheet/page",
        "indirect_select/employee/42/employee_project/page/abc",
        "indirect_select/employee/42/timesheet/sort",
        "data/payroll/page/abc",
        "data/payroll/page/0",
        "lookup/payroll/abc",
    ];
    for path in cases.iter() {
        assert_eq!(serve(&reg, path, &no_url(), b""), Err(ApiError::NotFound), "{}", path);
    }
}

#[test]
fn bad_page_parameters_of_resolved_tables_are_malformed() {
    let reg = registry();
    let invalid = Err(ApiError::MalformedRequest(Malformed::InvalidPageNumber));
    let unpaired = Err(ApiError::MalformedRequest(Malformed::UnpairedParameter));
    assert_eq!(serve(&reg, "has_many_select/employee/42/timesheet/page/abc", &no_url(), b""), invalid);
    assert_eq!(serve(&reg, "indirect_select/employee/42/skill/page/0", &no_url(), b""), invalid);
    assert_eq!(serve(&reg, "data/employee/page/x", &no_url(), b""), invalid);
    assert_eq!(serve(&reg, "lookup/employee/next", &no_url(), b""), invalid);
    assert_eq!(serve(&reg, "data/employee/page", &no_url(), b""), unpaired);
}

#[test]
fn connection_probe_and_db_url_need_a_configured_url() {
    let reg = registry();
    let none = Err(ApiError::UpstreamFailure(Upstream::NoDatabaseUrl));
    assert_eq!(serve(&reg, "test", &no_url(), b""), none);
    assert_eq!(serve(&reg, "db_url", &no_url(), b""), none);
    let url = Some("postgres://localhost/hr".to_string());
    assert_eq!(
        serve(&reg, "test", &url, b""),
        Ok(Action::TestConnection { db_url: "postgres://localhost/hr".to_string() })
    );
    assert_eq!(
        serve(&reg, "db_url", &url, b""),
        Ok(Action::ShowDbUrl { db_url: "postgres://localhost/hr".to_string() })
    );
}

#[test]
fn index_and_listing_of_windows() {
    let reg = registry();
    assert_eq!(
        serve(&reg, "/", &no_url(), b""),
        Ok(Action::ServeStatic { path: vec!["index.html".to_string()] })
    );
    assert_eq!(serve(&reg, "/windows", &no_url(), b""), Ok(Action::ListWindows));
}

#[test]
fn delete_on_table_without_window_is_not_found() {
    let reg = registry();
    assert_eq!(serve(&reg, "delete/payroll", &no_url(), br#"["1","2"]"#), Err(ApiError::NotFound));
    assert_eq!(serve(&reg, "delete/payroll", &no_url(), b"not json"), Err(ApiError::NotFound));
}

#[test]
fn delete_lists_the_ids_of_the_body() {
    let reg = registry();
    assert_eq!(
        serve(&reg, "delete/employee", &no_url(), br#"["1","2"]"#),
        Ok(Action::DeleteRecords { window: 1, record_ids: vec!["1".to_string(), "2".to_string()] })
    );
}

#[test]
fn delete_with_undecodable_body_is_malformed() {
    let reg = registry();
    let bad = Err(ApiError::MalformedRequest(Malformed::InvalidBody));
    assert_eq!(serve(&reg, "delete/employee", &no_url(), br#"["1","2""#), bad);
    assert_eq!(serve(&reg, "delete/employee", &no_url(), b"[1,2]"), bad);
    assert_eq!(serve(&reg, "delete/employee", &no_url(), b""), bad);
}

#[test]
fn changeset_with_invalid_body_is_malformed() {
    let reg = registry();
    let bad = Err(ApiError::MalformedRequest(Malformed::InvalidBody));
    assert_eq!(serve(&reg, "tab_changeset", &no_url(), b"{\"table\": "), bad);
    assert_eq!(serve(&reg, "tab_changeset", &no_url(), b"{} trailing"), bad);
}

#[test]
fn changeset_with_json_body_is_saved() {
    let reg = registry();
    let body = br#"{"table":"employee","inserted":[]}"#;
    let expected = serde_json::from_slice::<serde_json::Value>(body).unwrap();
    assert_eq!(
        serve(&reg, "tab_changeset", &no_url(), body),
        Ok(Action::SaveChangeset { changeset: expected })
    );
}

#[test]
fn oversized_bodies_are_malformed() {
    let body = vec![b' '; MAX_BODY_BYTES + 1];
    let big = Err(ApiError::MalformedRequest(Malformed::BodyTooLarge));
    assert_eq!(decode_record_ids(&body), big);
    assert!(matches!(decode_changeset(&body), Err(ApiError::MalformedRequest(Malformed::BodyTooLarge))));
}

#[test]
fn decode_record_ids_reads_strings() {
    assert_eq!(
        decode_record_ids(" [\"a\", \"bé\"] ".as_bytes()),
        Ok(vec!["a".to_string(), "bé".to_string()])
    );
    assert_eq!(decode_record_ids(b"[]"), Ok(vec![]));
}

#[test]
fn plan_delete_checks_the_window_before_the_body() {
    let reg = registry();
    let bad = ApiError::MalformedRequest(Malformed::InvalidBody);
    assert_eq!(plan_delete(&reg, &"payroll".to_string(), Err(bad.clone())), Err(ApiError::NotFound));
    assert_eq!(plan_delete(&reg, &"employee".to_string(), Err(bad.clone())), Err(bad));
    assert_eq!(
        plan_delete(&reg, &"project".to_string(), Ok(vec!["9".to_string()])),
        Ok(Action::DeleteRecords { window: 0, record_ids: vec!["9".to_string()] })
    );
}

#[test]
fn plan_takes_routed_operations() {
    let reg = registry();
    let op = Operation::ShowWindow { table: "project".to_string() };
    assert_eq!(plan(&reg, &op, &no_url(), b""), Ok(Action::ShowWindow { window: 0 }));
    let op = Operation::ListData {
        table: "employee".to_string(),
        params: vec!["sort".to_string(), "name".to_string(), "page".to_string(), "2".to_string()],
    };
    assert_eq!(
        plan(&reg, &op, &no_url(), b""),
        Ok(Action::ListMain {
            window: 1,
            page: PageRequest { page: 2, filter: None, sort: Some("name".to_string()) },
            page_size: PAGE_SIZE,
        })
    );
}

#[test]
fn reply_to_payload_is_json_with_the_payload() {
    let r = encode_reply(Ok(b"[1,2]".to_vec()));
    assert_eq!(r, Reply { status: 200, content: Some(ContentKind::Json), body: b"[1,2]".to_vec() });
}

#[test]
fn reply_to_not_found_is_404_and_empty() {
    let r = encode_reply(Err(ApiError::NotFound));
    assert_eq!(r, Reply { status: 404, content: None, body: vec![] });
}

#[test]
fn reply_to_other_errors_is_400_with_message() {
    let r = encode_reply(Err(ApiError::MalformedRequest(Malformed::InvalidPageNumber)));
    assert_eq!(r.status, 400);
    assert_eq!(r.content, Some(ContentKind::PlainText));
    assert_eq!(r.body, b"invalid page number".to_vec());
    let r = encode_reply(Err(ApiError::UpstreamFailure(Upstream::Storage("down".to_string()))));
    assert_eq!(r.status, 400);
    assert_eq!(r.body, b"down".to_vec());
    let r = encode_reply(Err(ApiError::UpstreamFailure(Upstream::NoDatabaseUrl)));
    assert_eq!(r.body, b"no database url is configured".to_vec());
    let r = encode_reply(Err(ApiError::SerializationFailure("bad".to_string())));
    assert_eq!((r.status, r.body), (400, b"bad".to_vec()));
}

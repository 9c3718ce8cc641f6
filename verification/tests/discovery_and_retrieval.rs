use ourouc_sdk::client::{create_client, is_valid_header_value, ConfigError};
use ourouc_sdk::constants::{DEFAULT_KBJCMSID, JWGL_URL, USER_AGENT};
use ourouc_sdk::discovery::{
    course_meta_from, parse_course_meta, probe_form_body, semesters_from, time_grid_from, CourseMeta,
    DiscoveryError, Semester,
};
use ourouc_sdk::html::{select_nodes, Node};
use ourouc_sdk::login::{
    login_step, Credentials, LoginAction, LoginEvent, LoginState,
};
use ourouc_sdk::schedule::{
    body_snippet, check_response, is_html_page, schedule_form_body, schedule_form_fields, RetrievalError,
};
use ourouc_sdk::text::{contains_bytes, starts_with_bytes, str_contains};

fn selection_page(options: &str, grid: &str) -> String {
    format!(
        "<html><body><form><select id=\"kbjcmsid\">{}</select><select id=\"xnxq01id\">{}</select></form></body></html>",
        grid, options
    )
}

fn node(value: Option<&str>, selected: bool, text: &str) -> Node {
    Node {
        value: value.map(|v| v.to_string()),
        selected: if selected { Some(String::new()) } else { None },
        text: text.to_string(),
    }
}

fn triple(s: &Semester) -> (&str, &str, bool) {
    (s.id.as_str(), s.name.as_str(), s.is_current)
}

#[test]
fn three_semesters_keep_document_order() {
    let html = selection_page(
        "<option value=\"2025-2026-2\"> 2025 spring </option>\
         <option value=\"2025-2026-1\" selected>\n 2025 autumn\t</option>\
         <option value=\"2024-2025-2\">2024 spring</option>",
        "<option value=\"GRID1\">default</option><option value=\"GRID2\">other</option>",
    );
    let meta = parse_course_meta(&html).unwrap();
    assert_eq!(meta.kbjcmsid, "GRID1");
    assert_eq!(meta.semesters.len(), 3);
    assert_eq!(triple(&meta.semesters[0]), ("2025-2026-2", "2025 spring", false));
    assert_eq!(triple(&meta.semesters[1]), ("2025-2026-1", "2025 autumn", true));
    assert_eq!(triple(&meta.semesters[2]), ("2024-2025-2", "2024 spring", false));
}

#[test]
fn option_with_empty_id_is_dropped() {
    let html = selection_page(
        "<option value=\"\">-- choose --</option>\
         <option>no value</option>\
         <option value=\"2024-1\">first</option>\
         <option value=\"2024-2\" selected=\"selected\">second</option>",
        "<option value=\"GRID1\">default</option>",
    );
    let meta = parse_course_meta(&html).unwrap();
    assert_eq!(meta.semesters.len(), 2);
    assert_eq!(triple(&meta.semesters[0]), ("2024-1", "first", false));
    assert_eq!(triple(&meta.semesters[1]), ("2024-2", "second", true));
}

#[test]
fn missing_time_grid_falls_back_to_default() {
    let html = "<html><body><select id=\"xnxq01id\"><option value=\"2024-1\">a</option></select></body></html>";
    let meta = parse_course_meta(html).unwrap();
    assert_eq!(meta.kbjcmsid, DEFAULT_KBJCMSID);
    assert_eq!(meta.kbjcmsid, "16FD8C2BE55E15F9E0630100007FF6B5");
    let html = selection_page("<option value=\"2024-1\">a</option>", "<option>no value</option>");
    assert_eq!(parse_course_meta(&html).unwrap().kbjcmsid, DEFAULT_KBJCMSID);
}

#[test]
fn no_semester_is_a_discovery_error() {
    let html = selection_page("", "<option value=\"GRID1\">default</option>");
    assert_eq!(parse_course_meta(&html).err(), Some(DiscoveryError::NoSemesters));
    let html = selection_page("<option value=\"\">none</option>", "");
    assert_eq!(parse_course_meta(&html).err(), Some(DiscoveryError::NoSemesters));
    assert_eq!(parse_course_meta("").err(), Some(DiscoveryError::NoSemesters));
}

#[test]
fn options_outside_the_selectors_do_not_count() {
    let html = "<select id=\"other\"><option value=\"x\">x</option></select>";
    assert_eq!(parse_course_meta(html).err(), Some(DiscoveryError::NoSemesters));
}

#[test]
fn semesters_from_nodes() {
    let nodes = vec![
        node(Some("a"), false, "  A  "),
        node(None, true, "dropped"),
        node(Some(""), true, "dropped too"),
        node(Some("b"), true, "\u{3000}B\u{a0}"),
    ];
    let found = semesters_from(&nodes);
    assert_eq!(found.len(), 2);
    assert_eq!(triple(&found[0]), ("a", "A", false));
    assert_eq!(triple(&found[1]), ("b", "B", true));
    assert_eq!(semesters_from(&Vec::new()).len(), 0);
}

#[test]
fn time_grid_from_nodes() {
    assert_eq!(time_grid_from(&None), DEFAULT_KBJCMSID);
    assert_eq!(time_grid_from(&Some(Vec::new())), DEFAULT_KBJCMSID);
    assert_eq!(time_grid_from(&Some(vec![node(None, false, "")])), DEFAULT_KBJCMSID);
    assert_eq!(
        time_grid_from(&Some(vec![node(Some("G1"), false, ""), node(Some("G2"), true, "")])),
        "G1"
    );
    assert_eq!(time_grid_from(&Some(vec![node(Some(""), false, "")])), "");
}

#[test]
fn course_meta_from_nodes() {
    let meta = course_meta_from(&None, &Some(vec![node(Some("s1"), false, " one ")])).unwrap();
    assert_eq!(meta.kbjcmsid, DEFAULT_KBJCMSID);
    assert_eq!(triple(&meta.semesters[0]), ("s1", "one", false));
    assert_eq!(
        course_meta_from(&Some(vec![node(Some("G"), false, "")]), &None).err(),
        Some(DiscoveryError::NoSemesters)
    );
    assert_eq!(
        course_meta_from(&None, &Some(vec![node(None, true, "x")])).err(),
        Some(DiscoveryError::NoSemesters)
    );
}

#[test]
fn probe_body() {
    assert_eq!(probe_form_body(), "viweType=0");
}

fn meta(ids: &[&str], grid: &str) -> CourseMeta {
    CourseMeta {
        semesters: ids
            .iter()
            .map(|id| Semester { id: id.to_string(), name: String::new(), is_current: false })
            .collect(),
        kbjcmsid: grid.to_string(),
    }
}

#[test]
fn schedule_body_uses_the_first_semester() {
    let body = schedule_form_body(&meta(&["2024-1", "2024-2"], "16FD8C2BE55E15F9E0630100007FF6B5")).unwrap();
    assert_eq!(
        body,
        "viweType=1&needData=1&pageNum=1&pageSize=20&baseUrl=%2Fjsxsd&sfykb=2&xsflMapListJsonStr=%E8%AE%B2%E8%AF%BE%E5%AD%A6%E6%97%B6%2C%E5%AE%9E%E8%B7%B5%E5%AD%A6%E6%97%B6%2C&xnxq01id=2024-1&kbjcmsid=16FD8C2BE55E15F9E0630100007FF6B5&zc="
    );
}

#[test]
fn schedule_fields_in_order() {
    let fields = schedule_form_fields(&meta(&["S"], "G")).unwrap();
    let pairs: Vec<(&str, &str)> = fields.iter().map(|f| (f.0.as_str(), f.1.as_str())).collect();
    assert_eq!(
        pairs,
        vec![
            ("viweType", "1"),
            ("needData", "1"),
            ("pageNum", "1"),
            ("pageSize", "20"),
            ("baseUrl", "/jsxsd"),
            ("sfykb", "2"),
            ("xsflMapListJsonStr", "讲课学时,实践学时,"),
            ("xnxq01id", "S"),
            ("kbjcmsid", "G"),
            ("zc", ""),
        ]
    );
}

#[test]
fn schedule_body_needs_a_semester() {
    assert!(matches!(schedule_form_body(&meta(&[], "G")), Err(RetrievalError::Discovery)));
    assert!(matches!(schedule_form_fields(&meta(&[], "G")), Err(RetrievalError::Discovery)));
}

#[test]
fn json_body_passes_the_check() {
    let body = b"{\"code\":0,\"msg\":\"\",\"data\":null,\"count\":0}";
    assert!(check_response(200, body).is_ok());
    assert!(check_response(204, b"").is_ok());
    assert!(check_response(299, body).is_ok());
}

#[test]
fn status_outside_success_class_is_reported() {
    let body = b"{\"code\":0}";
    assert!(matches!(check_response(500, body), Err(RetrievalError::HttpStatus { code: 500 })));
    assert!(matches!(check_response(302, body), Err(RetrievalError::HttpStatus { code: 302 })));
    assert!(matches!(check_response(199, body), Err(RetrievalError::HttpStatus { code: 199 })));
    assert!(matches!(check_response(300, body), Err(RetrievalError::HttpStatus { code: 300 })));
    // The status is looked at before the body.
    assert!(matches!(
        check_response(404, b"<!DOCTYPE html><html></html>"),
        Err(RetrievalError::HttpStatus { code: 404 })
    ));
}

#[test]
fn doctype_page_is_an_invalid_session_even_with_json_after_it() {
    let body = b"<!DOCTYPE html>{\"code\":0,\"msg\":\"\",\"data\":[],\"count\":0}";
    match check_response(200, body) {
        Err(RetrievalError::SessionInvalid { snippet }) => {
            assert_eq!(snippet.as_bytes(), &body[..]);
        }
        other => panic!("unexpected result {:?}", other),
    }
    assert!(is_html_page(b"<!DOCTYPE"));
    assert!(is_html_page(b"<!DOCTYPE html PUBLIC \"-//W3C//DTD XHTML 1.0 Transitional//EN\">"));
}

#[test]
fn sniffed_html_is_an_invalid_session() {
    assert!(is_html_page(b"<html><head><title>login</title></head></html>"));
    assert!(is_html_page(b"  \n<HTML lang=\"zh\"><body></body></html>"));
    assert!(is_html_page(b"<!doctype html><html></html>"));
    assert!(matches!(
        check_response(200, b"<html><body>{\"code\":0}</body></html>"),
        Err(RetrievalError::SessionInvalid { .. })
    ));
}

#[test]
fn other_bodies_are_no_marker_page() {
    assert!(!is_html_page(b""));
    assert!(!is_html_page(b"{\"code\":0}"));
    assert!(!is_html_page(b"[1,2,3]"));
    assert!(!is_html_page(b"<!DOCTYP"));
    assert!(!is_html_page(b" <!DOCTYPE"));
    assert!(!is_html_page(b"plain text"));
}

#[test]
fn snippet_quotes_at_most_the_limit() {
    let mut body = b"<!DOCTYPE html>".to_vec();
    body.extend(std::iter::repeat(b'a').take(500));
    match check_response(200, &body) {
        Err(RetrievalError::SessionInvalid { snippet }) => {
            assert_eq!(snippet.len(), 200);
            assert_eq!(snippet.as_bytes(), &body[..200]);
        }
        other => panic!("unexpected result {:?}", other),
    }
    assert_eq!(body_snippet(&body[..200]).len(), 200);
    assert_eq!(body_snippet(&body[..201]).len(), 200);
    assert_eq!(body_snippet(b"short"), "short");
    assert_eq!(body_snippet(b""), "");
}

#[test]
fn snippet_replaces_invalid_bytes() {
    assert_eq!(body_snippet(b"ab\xffcd"), "ab\u{fffd}cd");
}

#[test]
fn substring_search() {
    assert!(contains_bytes(b"hello world", b"lo w"));
    assert!(contains_bytes(b"hello", b"hello"));
    assert!(contains_bytes(b"hello", b"o"));
    assert!(contains_bytes(b"hello", b"h"));
    assert!(contains_bytes(b"hello", b""));
    assert!(contains_bytes(b"", b""));
    assert!(!contains_bytes(b"", b"a"));
    assert!(!contains_bytes(b"hello", b"hello!"));
    assert!(!contains_bytes(b"hello", b"lol"));
    assert!(contains_bytes(b"aaab", b"aab"));
    assert!(str_contains("学期 2024", "2024"));
    assert!(str_contains("学期 2024", "期"));
    assert!(!str_contains("学期 2024", "课"));
    assert!(starts_with_bytes(b"<!DOCTYPE html>", b"<!DOCTYPE"));
    assert!(starts_with_bytes(b"abc", b""));
    assert!(!starts_with_bytes(b"ab", b"abc"));
    assert!(!starts_with_bytes(b"xabc", b"abc"));
}

#[test]
fn client_settings() {
    let config = create_client(JWGL_URL).unwrap();
    assert_eq!(config.user_agent, USER_AGENT);
    assert_eq!(config.referer, "https://jwgl2024.ouc.edu.cn/");
    assert_eq!(config.redirect_limit, 10);
}

#[test]
fn client_refuses_bad_referer() {
    assert_eq!(create_client("https://例子.cn/").err(), Some(ConfigError::InvalidHeaderValue));
    assert_eq!(create_client("https://a.b/\n").err(), Some(ConfigError::InvalidHeaderValue));
    assert_eq!(create_client("a\u{7f}b").err(), Some(ConfigError::InvalidHeaderValue));
    assert!(create_client("").is_ok());
    assert!(create_client("a\tb c~").is_ok());
    assert!(is_valid_header_value("plain"));
    assert!(!is_valid_header_value("\u{0}"));
}

#[test]
fn scripted_flow_from_login_to_schedule() {
    let creds = Credentials {
        username: "student".to_string(),
        password: "correct".to_string(),
        service_url: JWGL_URL.to_string(),
    };
    // The login page.
    let (state, action) = login_step(&creds, LoginState::Start, LoginEvent::Begin);
    assert!(matches!(action, LoginAction::Get { .. }));
    let page = "<html><body><form><input type=\"hidden\" name=\"flowId\" value=\"ABC123\"></form></body></html>";
    let (state, action) = login_step(&creds, state, LoginEvent::PageFetched { html: page.to_string() });
    match &action {
        LoginAction::PostForm { body, .. } => {
            assert!(body.contains("flowId=ABC123"));
            assert!(body.contains("username=student"));
            assert!(body.contains("password=correct"));
        }
        other => panic!("unexpected action {:?}", other),
    }
    // The redirect lands on the service.
    let (_, action) = login_step(
        &creds,
        state,
        LoginEvent::Landed { final_url: JWGL_URL.to_string(), body: "<html></html>".to_string() },
    );
    assert!(matches!(action, LoginAction::Finish { result: Ok(()) }));

    // The probe is answered with two semesters, the second one selected.
    let probe_answer = selection_page(
        "<option value=\"2024-1\">2024-1</option><option value=\"2024-2\" selected>2024-2</option>",
        "<option value=\"GRID\">grid</option>",
    );
    let meta = parse_course_meta(&probe_answer).unwrap();
    let ids: Vec<&str> = meta.semesters.iter().map(|s| s.id.as_str()).collect();
    assert_eq!(ids, vec!["2024-1", "2024-2"]);
    assert!(!meta.semesters[0].is_current);
    assert!(meta.semesters[1].is_current);

    // The data request asks for index 0, whichever is current.
    let request = schedule_form_body(&meta).unwrap();
    assert!(request.contains("&xnxq01id=2024-1&"));
    assert!(!request.contains("2024-2"));
    assert!(request.contains("&kbjcmsid=GRID&"));

    // The data answer.
    let answer = b"{\"code\":0,\"msg\":\"\",\"data\":[{\"kch\":\"CS101\"}],\"count\":1}";
    assert!(check_response(200, answer).is_ok());
    let value: serde_json::Value = serde_json::from_slice(answer).unwrap();
    assert_eq!(value.get("count").and_then(|c| c.as_u64()), Some(1));
    let data = value.get("data").and_then(|d| d.as_array()).unwrap();
    assert_eq!(data.len(), 1);
    assert_eq!(data[0].get("kch").and_then(|k| k.as_str()), Some("CS101"));
}

#[test]
fn selected_elements_carry_attributes_and_text() {
    let html = "<ul><li class=\"x\" value=\"1\">one <b>bold</b></li><li class=\"x\" selected>two</li><li>three</li></ul>";
    let nodes = select_nodes(html, "li.x").unwrap();
    assert_eq!(nodes.len(), 2);
    assert_eq!(nodes[0].value.as_deref(), Some("1"));
    assert_eq!(nodes[0].selected, None);
    assert_eq!(nodes[0].text, "one bold");
    assert_eq!(nodes[1].value, None);
    assert_eq!(nodes[1].selected.as_deref(), Some(""));
    assert_eq!(nodes[1].text, "two");
    assert_eq!(select_nodes(html, "p").unwrap().len(), 0);
}

#[test]
fn text_that_is_no_selector_gives_none() {
    assert!(select_nodes("<p>x</p>", "p[").is_none());
    assert!(select_nodes("<p>x</p>", "").is_none());
}

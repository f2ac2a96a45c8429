use mc_app::dev::http::{
    analyser, corps_deja_recu, entete_complet, longueur_annoncee, preflight, raison, rendre,
    suite_de, trame, Reponse, Suite,
};

const REQUEST: &str = "POST /command/status HTTP/1.1\r\n\
Host: 127.0.0.1:1421\r\n\
Content-Type: application/json\r\n\
Content-Length: 2\r\n\
\r\n\
{}";

#[test]
fn an_ordinary_request_parses() {
    let (method, path, headers) = analyser(REQUEST).expect("readable request");

    assert_eq!(method, "POST");
    assert_eq!(path, "/command/status");
    assert_eq!(headers.get("content-length").map(String::as_str), Some("2"));
    assert_eq!(longueur_annoncee(&headers), 2);
}

#[test]
fn headers_parse_regardless_of_case() {
    let raw = "POST /x HTTP/1.1\r\nCONTENT-LENGTH: 17\r\n\r\n";
    let (_, _, headers) = analyser(raw).expect("readable request");

    assert_eq!(longueur_annoncee(&headers), 17);
}

#[test]
fn the_query_string_does_not_count_in_the_path() {
    let (_, path, _) = analyser("GET /events?since=3 HTTP/1.1\r\n\r\n").expect("readable");

    assert_eq!(path, "/events");
}

#[test]
fn without_an_announced_length_nothing_is_expected() {
    let (_, _, headers) = analyser("GET / HTTP/1.1\r\nHost: x\r\n\r\n").expect("readable");

    assert_eq!(longueur_annoncee(&headers), 0);
}

#[test]
fn an_unreadable_length_is_worth_zero() {
    let (_, _, headers) =
        analyser("POST /x HTTP/1.1\r\nContent-Length: lots\r\n\r\n").expect("readable");

    assert_eq!(longueur_annoncee(&headers), 0);
}

#[test]
fn an_empty_request_does_not_parse() {
    assert!(analyser("").is_none());
    assert!(analyser("GET\r\n\r\n").is_none());
}

#[test]
fn every_response_carries_the_cross_origin_headers() {
    let text = rendre(&Reponse::json("{}".to_string()));

    assert!(text.contains("Access-Control-Allow-Origin: *"), "{text}");
    assert!(text.contains("Access-Control-Allow-Headers: Content-Type"));
}

#[test]
fn the_length_is_counted_in_bytes() {
    let body = "\"José\"".to_string();
    let expected = body.len();
    let text = rendre(&Reponse::json(body));

    assert!(
        text.contains(&format!("Content-Length: {expected}")),
        "{text}"
    );
}

#[test]
fn an_error_has_the_shape_of_the_bridge_one() {
    let response = Reponse::erreur(404, "unknown command: thing");

    assert_eq!(response.code, 404);
    assert_eq!(response.corps, "\"unknown command: thing\"");
    assert_eq!(response.type_mime, "application/json");
}

#[test]
fn codes_carry_their_reason() {
    assert!(rendre(&Reponse::erreur(404, "x")).starts_with("HTTP/1.1 404 Not Found"));
    assert!(rendre(&Reponse::json("1".into())).starts_with("HTTP/1.1 200 OK"));
}

#[test]
fn a_rendered_response_is_exactly_its_head_then_its_body() {
    let text = rendre(&Reponse::vide());
    assert_eq!(
        text,
        "HTTP/1.1 200 OK\r\nContent-Type: application/json\r\nContent-Length: 4\r\n\
         Access-Control-Allow-Origin: *\r\nAccess-Control-Allow-Headers: Content-Type\r\n\
         Access-Control-Allow-Methods: GET, POST, OPTIONS\r\nConnection: close\r\n\r\nnull"
    );
}

#[test]
fn every_reason_is_named() {
    assert_eq!(raison(204), "No Content");
    assert_eq!(raison(404), "Not Found");
    assert_eq!(raison(500), "Internal Server Error");
    assert_eq!(raison(200), "OK");
    assert_eq!(raison(418), "OK");
}

#[test]
fn an_error_message_is_escaped_as_json() {
    let response = Reponse::erreur(500, "a \"quoted\" word");
    assert_eq!(response.corps, "\"a \\\"quoted\\\" word\"");
}

#[test]
fn a_later_header_overrides_an_earlier_one() {
    let raw = "GET / HTTP/1.1\r\ncontent-length: 3\r\nContent-Length : 9\r\nno colon here\r\n\r\n";
    let (_, _, headers) = analyser(raw).expect("readable");
    assert_eq!(longueur_annoncee(&headers), 9);
    assert_eq!(headers.len(), 1);
}

#[test]
fn a_length_may_carry_a_plus_sign_but_not_a_minus() {
    let (_, _, plus) = analyser("GET / HTTP/1.1\r\nContent-Length: +12\r\n\r\n").expect("readable");
    assert_eq!(longueur_annoncee(&plus), 12);
    let (_, _, minus) = analyser("GET / HTTP/1.1\r\nContent-Length: -12\r\n\r\n").expect("readable");
    assert_eq!(longueur_annoncee(&minus), 0);
    let (_, _, huge) =
        analyser("GET / HTTP/1.1\r\nContent-Length: 99999999999999999999999\r\n\r\n").expect("readable");
    assert_eq!(longueur_annoncee(&huge), 0);
}

#[test]
fn the_body_already_received_follows_the_blank_line() {
    assert!(entete_complet(REQUEST));
    assert!(!entete_complet("POST /x HTTP/1.1\r\nHost: x\r\n"));
    assert_eq!(corps_deja_recu(REQUEST), "{}");
    assert_eq!(corps_deja_recu("GET / HTTP/1.1\r\n"), "");
}

#[test]
fn a_preflight_is_answered_without_content() {
    assert_eq!(suite_de("OPTIONS", "/command/status"), Suite::Preflight);
    assert_eq!(suite_de("GET", "/evenements"), Suite::Flux);
    assert_eq!(suite_de("POST", "/command/status"), Suite::Routage);
    let reponse = preflight();
    assert_eq!(reponse.code, 204);
    assert!(rendre(&reponse).starts_with("HTTP/1.1 204 No Content"));
}

#[test]
fn an_event_frame_ends_with_a_blank_line() {
    assert_eq!(trame("{\"a\":1}"), "data: {\"a\":1}\n\n");
}

#[test]
fn control_characters_are_escaped_as_json_writes_them() {
    let response = Reponse::erreur(500, "a\u{1}\tb\\");
    assert_eq!(response.corps, "\"a\\u0001\\tb\\\\\"");
}

use sales_gateway::category::RemoteCategory;
use sales_gateway::forward::{
    acknowledge, acknowledged_status, Backend, Dispatch, ForwardError, Reply, HTTP_TIMEOUT_SECS,
};
use sales_gateway::json::find_text_member;
use sales_gateway::sale::{SaleEvent, WireSale};

fn event() -> SaleEvent {
    SaleEvent::screen(WireSale {
        categoria: "Ropa".to_string(),
        producto_id: "sku-42".to_string(),
        precio_bits: 19.99f64.to_bits(),
        cantidad_vendida: 3,
    })
    .unwrap()
}

fn http(status: u16, body: &str) -> Reply {
    Reply::Http { status, body: body.as_bytes().to_vec() }
}

fn posted() -> Dispatch {
    (Backend::Http { base_url: "http://localhost:8081".to_string() }).plan(&event())
}

fn called() -> Dispatch {
    Backend::Rpc.plan(&event())
}

fn url_for(base_url: &str) -> String {
    match (Backend::Http { base_url: base_url.to_string() }).plan(&event()) {
        Dispatch::HttpPost { url, .. } => url,
        Dispatch::RpcCall { .. } => panic!("an HTTP backend planned a remote call"),
    }
}

#[test]
fn text_member_is_read_from_an_object() {
    assert_eq!(find_text_member(br#"{"estado":"OK"}"#, "estado"), Some("OK".to_string()));
    assert_eq!(
        find_text_member(br#"{"a":1,"estado":"RECIBIDO","b":[true]}"#, "estado"),
        Some("RECIBIDO".to_string())
    );
    assert_eq!(find_text_member(br#"  {"estado" : "x y"}  "#, "estado"), Some("x y".to_string()));
}

#[test]
fn text_member_is_unescaped() {
    assert_eq!(
        find_text_member(r#"{"estado":"a\"bé\n\u0041"}"#.as_bytes(), "estado"),
        Some("a\"b\u{e9}\nA".to_string())
    );
    assert_eq!(find_text_member(br#"{"estado":""}"#, "estado"), Some(String::new()));
}

#[test]
fn text_member_goes_by_the_key_asked_for() {
    let body = br#"{"estado":"OK","otro":"X"}"#;
    assert_eq!(find_text_member(body, "otro"), Some("X".to_string()));
    assert_eq!(find_text_member(body, "Estado"), None);
    assert_eq!(find_text_member(body, "falta"), None);
    assert_eq!(find_text_member(body, ""), None);
}

#[test]
fn text_member_is_absent_where_the_member_is_not_a_string() {
    assert_eq!(find_text_member(br#"{"estado":1}"#, "estado"), None);
    assert_eq!(find_text_member(br#"{"estado":null}"#, "estado"), None);
    assert_eq!(find_text_member(br#"{"estado":true}"#, "estado"), None);
    assert_eq!(find_text_member(br#"{"estado":["OK"]}"#, "estado"), None);
    assert_eq!(find_text_member(br#"{"estado":{"estado":"OK"}}"#, "estado"), None);
}

#[test]
fn text_member_is_absent_where_the_document_is_not_an_object() {
    assert_eq!(find_text_member(br#"["estado","OK"]"#, "estado"), None);
    assert_eq!(find_text_member(br#""estado""#, "estado"), None);
    assert_eq!(find_text_member(b"42", "estado"), None);
    assert_eq!(find_text_member(b"null", "estado"), None);
}

#[test]
fn text_member_is_absent_where_the_body_is_not_json() {
    assert_eq!(find_text_member(b"", "estado"), None);
    assert_eq!(find_text_member(b"estado", "estado"), None);
    assert_eq!(find_text_member(br#"{"estado":"OK""#, "estado"), None);
    assert_eq!(find_text_member(br#"{"estado":"OK"} x"#, "estado"), None);
    assert_eq!(find_text_member(&[0xff, 0xfe], "estado"), None);
    assert_eq!(find_text_member(b"<html>ok</html>", "estado"), None);
}

#[test]
fn text_member_takes_the_last_of_repeated_keys() {
    assert_eq!(
        find_text_member(br#"{"estado":"first","estado":"last"}"#, "estado"),
        Some("last".to_string())
    );
}

#[test]
fn acknowledged_status_defaults_to_ok() {
    assert_eq!(acknowledged_status(None), "OK");
    assert_eq!(acknowledged_status(Some("RECIBIDO".to_string())), "RECIBIDO");
    assert_eq!(acknowledged_status(Some(String::new())), "");
}

#[test]
fn http_success_with_estado_is_acknowledged_with_it() {
    assert_eq!(acknowledge(&posted(), http(200, r#"{"estado":"OK"}"#)), Ok("OK".to_string()));
    assert_eq!(acknowledge(&posted(), http(200, r#"{"estado":"PROCESADO"}"#)), Ok("PROCESADO".to_string()));
    assert_eq!(acknowledge(&posted(), http(201, r#"{"estado":"CREADO"}"#)), Ok("CREADO".to_string()));
}

#[test]
fn http_success_without_estado_is_acknowledged_with_ok() {
    assert_eq!(acknowledge(&posted(), http(200, "{}")), Ok("OK".to_string()));
    assert_eq!(acknowledge(&posted(), http(200, r#"{"status":"done"}"#)), Ok("OK".to_string()));
    assert_eq!(acknowledge(&posted(), http(200, r#"{"estado":7}"#)), Ok("OK".to_string()));
    assert_eq!(acknowledge(&posted(), http(200, "[]")), Ok("OK".to_string()));
}

#[test]
fn http_success_with_an_unparseable_body_is_acknowledged_with_ok() {
    assert_eq!(acknowledge(&posted(), http(200, "")), Ok("OK".to_string()));
    assert_eq!(acknowledge(&posted(), http(204, "")), Ok("OK".to_string()));
    assert_eq!(acknowledge(&posted(), http(200, "recibido")), Ok("OK".to_string()));
    assert_eq!(acknowledge(&posted(), Reply::Http { status: 200, body: vec![0xc3, 0x28] }), Ok("OK".to_string()));
}

#[test]
fn http_success_is_the_range_200_to_299() {
    assert!(acknowledge(&posted(), http(200, "")).is_ok());
    assert!(acknowledge(&posted(), http(299, "")).is_ok());
    assert_eq!(acknowledge(&posted(), http(199, "")), Err(ForwardError::ErrorStatus { status: 199 }));
    assert_eq!(acknowledge(&posted(), http(300, "")), Err(ForwardError::ErrorStatus { status: 300 }));
    assert_eq!(acknowledge(&posted(), http(0, "")), Err(ForwardError::ErrorStatus { status: 0 }));
    assert_eq!(acknowledge(&posted(), http(u16::MAX, "")), Err(ForwardError::ErrorStatus { status: u16::MAX }));
}

#[test]
fn http_error_status_fails_whatever_the_body_says() {
    assert_eq!(
        acknowledge(&posted(), http(500, r#"{"estado":"OK"}"#)),
        Err(ForwardError::ErrorStatus { status: 500 })
    );
    assert_eq!(
        acknowledge(&posted(), http(404, r#"{"estado":"OK"}"#)),
        Err(ForwardError::ErrorStatus { status: 404 })
    );
    assert_eq!(acknowledge(&posted(), http(302, "")), Err(ForwardError::ErrorStatus { status: 302 }));
}

#[test]
fn remote_status_is_taken_verbatim() {
    assert_eq!(acknowledge(&called(), Reply::Rpc { estado: "OK".to_string() }), Ok("OK".to_string()));
    assert_eq!(acknowledge(&called(), Reply::Rpc { estado: String::new() }), Ok(String::new()));
    assert_eq!(
        acknowledge(&called(), Reply::Rpc { estado: r#"{"estado":"x"}"#.to_string() }),
        Ok(r#"{"estado":"x"}"#.to_string())
    );
}

#[test]
fn no_reply_is_a_failure() {
    assert_eq!(acknowledge(&posted(), Reply::Failed), Err(ForwardError::NoReply));
    assert_eq!(acknowledge(&called(), Reply::Failed), Err(ForwardError::NoReply));
}

#[test]
fn a_reply_of_the_other_transport_is_no_reply() {
    assert_eq!(
        acknowledge(&posted(), Reply::Rpc { estado: "OK".to_string() }),
        Err(ForwardError::NoReply)
    );
    assert_eq!(acknowledge(&called(), http(200, r#"{"estado":"OK"}"#)), Err(ForwardError::NoReply));
    assert_eq!(acknowledge(&called(), http(500, "")), Err(ForwardError::NoReply));
}

#[test]
fn http_dispatch_posts_below_the_base_url() {
    assert_eq!(url_for("http://localhost:8081"), "http://localhost:8081/ventas");
    assert_eq!(url_for("http://go-client:8081/api"), "http://go-client:8081/api/ventas");
}

#[test]
fn http_dispatch_drops_trailing_slashes_of_the_base_url() {
    assert_eq!(url_for("http://localhost:8081/"), "http://localhost:8081/ventas");
    assert_eq!(url_for("http://localhost:8081///"), "http://localhost:8081/ventas");
    assert_eq!(url_for("/"), "/ventas");
    assert_eq!(url_for(""), "/ventas");
}

#[test]
fn http_dispatch_carries_the_sale_and_a_two_second_deadline() {
    assert_eq!(HTTP_TIMEOUT_SECS, 2);
    let dispatch = (Backend::Http { base_url: "http://h".to_string() }).plan(&event());
    assert_eq!(
        dispatch,
        Dispatch::HttpPost {
            url: "http://h/ventas".to_string(),
            timeout_secs: 2,
            sale: WireSale {
                categoria: "Ropa".to_string(),
                producto_id: "sku-42".to_string(),
                precio_bits: 19.99f64.to_bits(),
                cantidad_vendida: 3,
            },
        }
    );
}

#[test]
fn remote_dispatch_carries_the_mapped_sale() {
    match Backend::Rpc.plan(&event()) {
        Dispatch::RpcCall { request } => {
            assert_eq!(request.categoria, RemoteCategory::Ropa);
            assert_eq!(request.producto_id, "sku-42");
            assert_eq!(f64::from_bits(request.precio_bits), 19.99);
            assert_eq!(request.cantidad_vendida, 3);
        }
        Dispatch::HttpPost { .. } => panic!("a remote backend planned an HTTP post"),
    }
}

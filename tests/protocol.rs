use gxi::cache::LineCache;
use gxi::line::StyleSpan;
use gxi::protocol::{
    decode_line, decode_measure_width, decode_op, decode_style, decode_update, make_op, parse_op_kind, plugin_names, spans_from_triples,
    string_list_member, string_member, u64_member, DecodeError, OpKind,
};
use gxi::script::Op;
use serde_json::Value;

fn json(s: &str) -> Value {
    serde_json::from_str(s).unwrap()
}

#[test]
fn op_names() {
    assert_eq!(parse_op_kind("copy"), Some(OpKind::Copy));
    assert_eq!(parse_op_kind("skip"), Some(OpKind::Skip));
    assert_eq!(parse_op_kind("invalidate"), Some(OpKind::Invalidate));
    assert_eq!(parse_op_kind("ins"), Some(OpKind::Insert));
    assert_eq!(parse_op_kind("update"), Some(OpKind::Update));
    assert_eq!(parse_op_kind("insert"), None);
    assert_eq!(parse_op_kind(""), None);
}

#[test]
fn style_triples() {
    let spans = spans_from_triples(&vec![0, 3, 1, -2, 4, 0]).unwrap();
    assert_eq!(
        spans,
        vec![StyleSpan { start: 0, len: 3, id: 1 }, StyleSpan { start: -2, len: 4, id: 0 }]
    );
    assert_eq!(spans_from_triples(&vec![0, 3]), Err(DecodeError::BadStyles));
    assert_eq!(spans_from_triples(&vec![0, -3, 1]), Err(DecodeError::BadStyles));
    assert_eq!(spans_from_triples(&vec![]), Ok(vec![]));
}

#[test]
fn make_op_checks_counts() {
    assert!(matches!(make_op(OpKind::Copy, 4, vec![]), Ok(Op::Copy(4))));
    assert!(matches!(make_op(OpKind::Insert, 1, vec![]), Err(DecodeError::CountMismatch)));
    let l = gxi::line::Line::new("x".to_string(), vec![], vec![2]);
    match make_op(OpKind::Update, 1, vec![l]) {
        Ok(Op::Update(rs)) => {
            assert_eq!(rs.len(), 1);
            assert_eq!(rs[0].cursor, vec![2]);
        }
        _ => panic!("expected an update"),
    }
}

#[test]
fn decode_full_update_and_apply() {
    let params = json(
        r#"{"view_id":"view-id-1","update":{"pristine":false,"ops":[
            {"op":"ins","n":2,"lines":[{"text":"hello\n","styles":[0,5,2],"cursor":[1]},{"text":"world"}]},
            {"op":"invalidate","n":1}
        ]}}"#,
    );
    let u = decode_update(&params).unwrap();
    assert_eq!(u.pristine, Some(false));
    assert_eq!(u.ops.len(), 2);
    let mut c = LineCache::new();
    assert_eq!(c.apply_update(u.ops), Ok(()));
    assert_eq!(c.height(), 3);
    let l = c.get_line(0).unwrap();
    assert_eq!(l.text(), "hello\n");
    assert_eq!(l.styles, vec![StyleSpan { start: 0, len: 5, id: 2 }]);
    assert_eq!(l.cursor(), &vec![1u64]);
    assert_eq!(c.get_line(1).unwrap().text(), "world");
    assert!(c.get_line(2).is_none());
}

#[test]
fn decode_errors() {
    assert!(matches!(decode_update(&json(r#"{}"#)), Err(DecodeError::MissingField)));
    assert!(matches!(decode_update(&json(r#"{"update":{"ops":5}}"#)), Err(DecodeError::WrongType)));
    assert!(matches!(decode_op(&json(r#"{"op":"frob","n":1}"#)), Err(DecodeError::UnknownOp)));
    assert!(matches!(decode_op(&json(r#"{"op":"copy"}"#)), Err(DecodeError::MissingField)));
    assert!(matches!(
        decode_op(&json(r#"{"op":"ins","n":2,"lines":[{"text":"a"}]}"#)),
        Err(DecodeError::CountMismatch)
    ));
    assert!(matches!(decode_line(&json(r#"{"cursor":[0]}"#), true), Err(DecodeError::MissingField)));
    assert!(matches!(decode_line(&json(r#"{"styles":[1,2]}"#), false), Err(DecodeError::BadStyles)));
}

#[test]
fn decode_update_op_restyles() {
    let op = decode_op(&json(r#"{"op":"update","n":1,"lines":[{"cursor":[3],"styles":[1,1,0]}]}"#)).unwrap();
    match op {
        Op::Update(rs) => {
            assert_eq!(rs[0].cursor, vec![3]);
            assert_eq!(rs[0].styles, vec![StyleSpan { start: 1, len: 1, id: 0 }]);
        }
        _ => panic!("expected an update"),
    }
}

#[test]
fn decode_def_style() {
    let (id, s) = decode_style(&json(r#"{"id":7,"fg_color":4278190335,"italic":true}"#)).unwrap();
    assert_eq!(id, 7);
    assert_eq!(s.fg_color, Some(4278190335));
    assert_eq!(s.bg_color, None);
    assert_eq!(s.italic, Some(true));
    assert!(matches!(decode_style(&json(r#"{"fg_color":1}"#)), Err(DecodeError::MissingField)));
    assert!(matches!(decode_style(&json(r#"{"id":1,"weight":70000}"#)), Err(DecodeError::WrongType)));
}

#[test]
fn json_members() {
    let v = json(r#"{"themes":["a",3,"b"],"line":4,"view_id":"v1","plugins":[{"name":"p1"},{"x":1}]}"#);
    assert_eq!(string_list_member(&v, "themes"), vec!["a".to_string(), "b".to_string()]);
    assert_eq!(string_list_member(&v, "none"), Vec::<String>::new());
    assert_eq!(u64_member(&v, "line"), Some(4));
    assert_eq!(u64_member(&v, "view_id"), None);
    assert_eq!(string_member(&v, "view_id"), Some("v1".to_string()));
    assert_eq!(plugin_names(&v), vec!["p1".to_string()]);
}

#[test]
fn decode_measure_width_requests() {
    let r = decode_measure_width(&json(r#"[{"id":0,"strings":["ab","c"]},{"id":1,"strings":[]}]"#)).unwrap();
    assert_eq!(r.len(), 2);
    assert_eq!(r[0].id, 0);
    assert_eq!(r[0].strings, vec!["ab".to_string(), "c".to_string()]);
    assert!(r[1].strings.is_empty());
    assert!(matches!(decode_measure_width(&json(r#"{"id":0}"#)), Err(DecodeError::WrongType)));
    assert!(matches!(decode_measure_width(&json(r#"[{"strings":[]}]"#)), Err(DecodeError::MissingField)));
}

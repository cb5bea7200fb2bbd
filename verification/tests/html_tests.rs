use petite_http::html::{decode_text, encode_text, render, Escape, Template, TemplateError};

#[test]
fn encode_replaces_the_five_special_characters() {
    assert_eq!(encode_text("&<>\"'"), "&amp;&lt;&gt;&quot;&#39;");
}

#[test]
fn encode_leaves_plain_text_alone() {
    assert_eq!(encode_text("hello, world"), "hello, world");
    assert_eq!(encode_text(""), "");
}

#[test]
fn encode_does_not_double_encode() {
    assert_eq!(encode_text("&lt;"), "&amp;lt;");
}

#[test]
fn round_trip_decodes_to_the_original() {
    let original = "a & b < c > d \" e ' f";
    let encoded = encode_text(original);
    assert_eq!(decode_text(&encoded), original);
}

#[test]
fn decode_reverses_each_entity() {
    assert_eq!(decode_text("&amp;&lt;&gt;&quot;&#39;"), "&<>\"'");
}

#[test]
fn literal_bypasses_encoding() {
    let e = Escape::Literal("<b>bold</b>".to_string());
    assert_eq!(e.escape().unwrap(), "<b>bold</b>");
}

#[test]
fn scalar_is_encoded() {
    let e = Escape::Scalar("<i>".to_string());
    assert_eq!(e.escape().unwrap(), "&lt;i&gt;");
}

#[test]
fn concat_escapes_each_piece_in_order() {
    let a = Escape::Scalar("x<y".to_string());
    let b = Escape::Literal("<hr>".to_string());
    let c = Escape::Concat(vec![a, b]);
    let ea = Escape::Scalar("x<y".to_string()).escape().unwrap();
    let eb = Escape::Literal("<hr>".to_string()).escape().unwrap();
    assert_eq!(c.escape().unwrap(), format!("{}{}", ea, eb));
}

#[test]
fn template_interpolates_and_escapes() {
    let bindings = vec![("x".to_string(), Escape::Scalar("<i>".to_string()))];
    assert_eq!(render("<p>{x}</p>", &bindings).unwrap(), "<p>&lt;i&gt;</p>");
}

#[test]
fn doubled_braces_are_literal_braces() {
    let bindings: Vec<(String, Escape)> = Vec::new();
    assert_eq!(render("{{literal}}", &bindings).unwrap(), "{literal}");
}

#[test]
fn binding_order_is_irrelevant_to_output_order() {
    let bindings = vec![
        ("b".to_string(), Escape::Scalar("2".to_string())),
        ("a".to_string(), Escape::Scalar("1".to_string())),
    ];
    assert_eq!(render("{a}{b}", &bindings).unwrap(), "12");
}

#[test]
fn first_binding_wins_on_duplicate_names() {
    let bindings = vec![
        ("x".to_string(), Escape::Scalar("first".to_string())),
        ("x".to_string(), Escape::Scalar("second".to_string())),
    ];
    assert_eq!(render("{x}", &bindings).unwrap(), "first");
}

#[test]
fn unterminated_variable_is_an_error() {
    let bindings: Vec<(String, Escape)> = Vec::new();
    assert_eq!(render("oops {x", &bindings), Err(TemplateError::UnterminatedVariable));
}

#[test]
fn malformed_variable_name_is_an_error() {
    let bindings = vec![("a b".to_string(), Escape::Scalar("v".to_string()))];
    assert_eq!(render("{a b}", &bindings), Err(TemplateError::MalformedVariableName));
    let empty: Vec<(String, Escape)> = Vec::new();
    assert_eq!(render("{}", &empty), Err(TemplateError::MalformedVariableName));
}

#[test]
fn undefined_variable_is_an_error() {
    let bindings: Vec<(String, Escape)> = Vec::new();
    assert_eq!(render("{x}", &bindings), Err(TemplateError::UndefinedVariable));
}

#[test]
fn templates_nest() {
    let inner = Template {
        pattern: "<li>{name}</li>".to_string(),
        bindings: vec![("name".to_string(), Escape::Scalar("A&B".to_string()))],
    };
    let outer = Template {
        pattern: "<ul>{items}</ul>".to_string(),
        bindings: vec![("items".to_string(), Escape::Template(Box::new(inner)))],
    };
    assert_eq!(outer.render().unwrap(), "<ul><li>A&amp;B</li></ul>");
}

#[test]
fn template_error_messages_name_the_failure() {
    assert_eq!(TemplateError::UndefinedVariable.message(), "undefined variable");
    assert_eq!(TemplateError::MalformedVariableName.message(), "malformed variable name");
    assert_eq!(TemplateError::UnterminatedVariable.message(), "unterminated variable");
}

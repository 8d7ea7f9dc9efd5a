use ironcloak::i18n::flatten_json;
use ironcloak::i18n::get;
use ironcloak::i18n::get_with_args;
use ironcloak::i18n::init;
use ironcloak::i18n::placeholder_string;
use ironcloak::i18n::I18nStore;
use ironcloak::i18n::JsonNode;
use ironcloak::text::replace_str;
use ironcloak::text::u64_to_dec;

fn text(s: &str) -> JsonNode {
    JsonNode::Text(s.to_string())
}

fn obj(entries: Vec<(&str, JsonNode)>) -> JsonNode {
    JsonNode::Object(entries.into_iter().map(|(k, v)| (k.to_string(), v)).collect())
}

fn en_catalog() -> JsonNode {
    obj(vec![
        (
            "tor",
            obj(vec![("connected", text("connected")), ("bootstrapping", text("starting up"))]),
        ),
        ("socks", obj(vec![("listening", text("listening on {0}"))])),
        ("greeting", text("hello {0}, this is {1}")),
    ])
}

fn fr_catalog() -> JsonNode {
    obj(vec![("tor", obj(vec![("connected", text("connecte"))]))])
}

fn es_catalog() -> JsonNode {
    obj(vec![("tor", obj(vec![("connected", text("conectado"))]))])
}

#[test]
fn nested_objects_flatten_to_dotted_keys() {
    let entries = flatten_json(&en_catalog());
    assert_eq!(
        entries,
        vec![
            ("tor.connected".to_string(), "connected".to_string()),
            ("tor.bootstrapping".to_string(), "starting up".to_string()),
            ("socks.listening".to_string(), "listening on {0}".to_string()),
            ("greeting".to_string(), "hello {0}, this is {1}".to_string()),
        ]
    );
}

#[test]
fn non_text_leaves_carry_no_message() {
    let tree = obj(vec![("a", JsonNode::Other), ("b", text("kept"))]);
    assert_eq!(flatten_json(&tree), vec![("b".to_string(), "kept".to_string())]);
}

#[test]
fn top_level_text_keeps_the_empty_key() {
    assert_eq!(flatten_json(&text("bare")), vec![("".to_string(), "bare".to_string())]);
}

#[test]
fn deep_nesting_flattens_through_every_level() {
    let tree = obj(vec![(
        "a",
        obj(vec![("b", obj(vec![("c", text("deep")), ("d", text("wide"))]))]),
    )]);
    assert_eq!(
        flatten_json(&tree),
        vec![
            ("a.b.c".to_string(), "deep".to_string()),
            ("a.b.d".to_string(), "wide".to_string()),
        ]
    );
}

#[test]
fn empty_object_flattens_to_nothing() {
    assert_eq!(flatten_json(&obj(vec![])), Vec::<(String, String)>::new());
}

#[test]
fn init_selects_the_catalog_by_language() {
    let fr = init("fr", &en_catalog(), &fr_catalog(), &es_catalog());
    assert_eq!(get(&fr, "tor.connected"), "connecte");
    let es = init("es", &en_catalog(), &fr_catalog(), &es_catalog());
    assert_eq!(get(&es, "tor.connected"), "conectado");
    let en = init("en", &en_catalog(), &fr_catalog(), &es_catalog());
    assert_eq!(get(&en, "tor.connected"), "connected");
    // An unknown tag falls back to the default catalog.
    let de = init("de", &en_catalog(), &fr_catalog(), &es_catalog());
    assert_eq!(get(&de, "tor.connected"), "connected");
}

#[test]
fn missing_key_falls_back_to_default_language_then_to_the_key() {
    let store = init("fr", &en_catalog(), &fr_catalog(), &es_catalog());
    // Present in French: the French text wins.
    assert_eq!(get(&store, "tor.connected"), "connecte");
    // Absent in French, present in the default catalog.
    assert_eq!(get(&store, "tor.bootstrapping"), "starting up");
    // Absent everywhere: the key itself comes back.
    assert_eq!(get(&store, "no.such.key"), "no.such.key");
}

#[test]
fn a_later_entry_for_the_same_key_wins() {
    let store = I18nStore {
        current: vec![
            ("k".to_string(), "first".to_string()),
            ("k".to_string(), "second".to_string()),
        ],
        fallback: vec![],
    };
    assert_eq!(get(&store, "k"), "second");
}

#[test]
fn positional_arguments_are_substituted_in_order() {
    let store = init("en", &en_catalog(), &fr_catalog(), &es_catalog());
    let args = ["world", "ironcloak"];
    assert_eq!(get_with_args(&store, "greeting", &args), "hello world, this is ironcloak");
    assert_eq!(
        get_with_args(&store, "socks.listening", &["127.0.0.1:9150"]),
        "listening on 127.0.0.1:9150"
    );
}

#[test]
fn substitution_with_no_arguments_keeps_the_template() {
    let store = init("en", &en_catalog(), &fr_catalog(), &es_catalog());
    assert_eq!(get_with_args(&store, "socks.listening", &[]), "listening on {0}");
}

#[test]
fn replace_handles_repeats_and_absence() {
    assert_eq!(replace_str("a{0}b{0}", "{0}", "X"), "aXbX");
    assert_eq!(replace_str("nothing here", "{0}", "X"), "nothing here");
    assert_eq!(replace_str("", "{0}", "X"), "");
    assert_eq!(replace_str("aaa", "aa", "b"), "ba");
}

#[test]
fn decimal_rendering_is_exact() {
    assert_eq!(u64_to_dec(0), "0");
    assert_eq!(u64_to_dec(7), "7");
    assert_eq!(u64_to_dec(10), "10");
    assert_eq!(u64_to_dec(9150), "9150");
    assert_eq!(u64_to_dec(u64::MAX), "18446744073709551615");
}

#[test]
fn placeholders_render_with_their_index() {
    assert_eq!(placeholder_string(0), "{0}");
    assert_eq!(placeholder_string(12), "{12}");
}

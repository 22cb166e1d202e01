use dom_attr::attr::{
    Attr, AttrHelpers, AttrHelpersForLayout, AttrSettingType, HookKind, HookRecorder, ValueKind,
};
use dom_attr::value::AttrValue;
use string_cache::DefaultAtom;

fn atom(s: &str) -> DefaultAtom {
    DefaultAtom::from(s)
}

fn texts(tokens: Option<&[DefaultAtom]>) -> Option<Vec<String>> {
    tokens.map(|t| t.iter().map(|a| a.to_string()).collect())
}

fn uint_value(v: &AttrValue) -> Option<u32> {
    match v {
        AttrValue::UIntAttrValue(_, n) => Some(*n),
        _ => None,
    }
}

fn html_attr(name: &str, value: AttrValue) -> Attr {
    Attr::new(atom(name), value, atom(name), atom(""), None, 1)
}

fn xlink_href(value: AttrValue) -> Attr {
    Attr::new(
        atom("href"),
        value,
        atom("xlink:href"),
        atom("http://www.w3.org/1999/xlink"),
        Some("xlink".to_string()),
        2,
    )
}

#[test]
fn token_list_keeps_text() {
    for t in ["", "a", "  a\tb  a ", "x\r\n\x0Cy", "   "] {
        let v = AttrValue::from_tokenlist(t.to_string());
        assert_eq!(v.as_text(), t);
    }
}

#[test]
fn token_list_splits_on_html_whitespace() {
    let v = AttrValue::from_tokenlist(" x  y\nz\t".to_string());
    assert_eq!(
        texts(v.tokens()),
        Some(vec!["x".to_string(), "y".to_string(), "z".to_string()])
    );
    let v = AttrValue::from_tokenlist("b a b".to_string());
    assert_eq!(
        texts(v.tokens()),
        Some(vec!["b".to_string(), "a".to_string(), "b".to_string()])
    );
    let v = AttrValue::from_tokenlist("p\r\x0Cq".to_string());
    assert_eq!(texts(v.tokens()), Some(vec!["p".to_string(), "q".to_string()]));
}

#[test]
fn token_list_of_blank_text_is_empty() {
    assert_eq!(texts(AttrValue::from_tokenlist(String::new()).tokens()), Some(vec![]));
    assert_eq!(texts(AttrValue::from_tokenlist(" \t\n ".to_string()).tokens()), Some(vec![]));
}

#[test]
fn token_list_keeps_non_ascii_tokens() {
    let v = AttrValue::from_tokenlist("é  日本".to_string());
    assert_eq!(texts(v.tokens()), Some(vec!["é".to_string(), "日本".to_string()]));
    assert_eq!(v.as_text(), "é  日本");
}

#[test]
fn unsigned_parses_base_ten() {
    for (t, want) in [("42", 42u32), ("+7", 7), ("007", 7), ("0", 0), ("4294967295", u32::MAX)] {
        let v = AttrValue::from_u32(t.to_string(), 99);
        assert_eq!(v.as_text(), t);
        assert_eq!(uint_value(&v), Some(want));
    }
}

#[test]
fn unsigned_falls_back_to_default() {
    for t in ["", "abc", " 5", "5 ", "-1", "+", "4294967296", "1.5", "0x10"] {
        let v = AttrValue::from_u32(t.to_string(), 13);
        assert_eq!(v.as_text(), t);
        assert_eq!(uint_value(&v), Some(13));
    }
}

#[test]
fn tabindex_abc_uses_default() {
    let v = AttrValue::from_u32("abc".to_string(), 0);
    assert_eq!(v.as_text(), "abc");
    assert_eq!(uint_value(&v), Some(0));
    let a = html_attr("tabindex", v);
    assert_eq!(a.Value(), "abc");
}

#[test]
fn atom_value_keeps_text() {
    let v = AttrValue::from_atomic("main".to_string());
    assert_eq!(v.as_text(), "main");
    assert!(v.tokens().is_none());
    assert!(AttrValue::StringAttrValue("a b".to_string()).tokens().is_none());
    assert!(AttrValue::from_u32("1".to_string(), 0).tokens().is_none());
}

#[test]
fn replaced_null_namespace_calls_both_hooks() {
    let mut a = html_attr("class", AttrValue::from_tokenlist("a  b".to_string()));
    let mut owner = HookRecorder::new();
    a.set_value(AttrSettingType::ReplacedAttr, AttrValue::from_tokenlist("b c".to_string()), &mut owner);
    assert_eq!(owner.records.len(), 2);
    assert_eq!(owner.records[0].kind, HookKind::BeforeRemove);
    assert_eq!(owner.records[0].attr.Value(), "a  b");
    assert_eq!(owner.records[1].kind, HookKind::AfterSet);
    assert_eq!(owner.records[1].attr.Value(), "b c");
    assert_eq!(
        texts(a.value().tokens()),
        Some(vec!["b".to_string(), "c".to_string()])
    );
}

#[test]
fn first_set_calls_only_after_set() {
    let mut a = html_attr("id", AttrValue::StringAttrValue(String::new()));
    let mut owner = HookRecorder::new();
    a.set_value(AttrSettingType::FirstSetAttr, AttrValue::from_atomic("x".to_string()), &mut owner);
    assert_eq!(owner.records.len(), 1);
    assert_eq!(owner.records[0].kind, HookKind::AfterSet);
    assert_eq!(owner.records[0].attr.Value(), "x");
}

#[test]
fn namespaced_attribute_calls_no_hook() {
    let mut a = xlink_href(AttrValue::StringAttrValue("#a".to_string()));
    let mut owner = HookRecorder::new();
    a.set_value(AttrSettingType::ReplacedAttr, AttrValue::StringAttrValue("#b".to_string()), &mut owner);
    a.set_value(AttrSettingType::FirstSetAttr, AttrValue::StringAttrValue("#c".to_string()), &mut owner);
    assert!(owner.records.is_empty());
    assert_eq!(a.Value(), "#c");
}

#[test]
fn value_after_set_is_new_value() {
    let mut a = html_attr("title", AttrValue::StringAttrValue("old".to_string()));
    let mut owner = HookRecorder::new();
    a.set_value(AttrSettingType::ReplacedAttr, AttrValue::from_u32("12".to_string(), 0), &mut owner);
    assert_eq!(a.value().as_text(), "12");
    assert_eq!(uint_value(a.value()), Some(12));
    assert_eq!(a.Value(), "12");
    assert_eq!(a.TextContent(), "12");
}

#[test]
fn set_value_from_text_goes_through_owner() {
    let mut a = html_attr("title", AttrValue::StringAttrValue("old".to_string()));
    let mut owner = HookRecorder::new();
    a.SetValue("new".to_string(), &mut owner);
    assert_eq!(a.Value(), "new");
    assert_eq!(owner.records.len(), 2);
    assert_eq!(owner.records[0].attr.Value(), "old");
    assert_eq!(owner.records[1].attr.Value(), "new");
    a.SetTextContent("newer".to_string(), &mut owner);
    assert_eq!(a.Value(), "newer");
    assert_eq!(owner.records.len(), 4);
}

#[test]
fn identity_accessors() {
    let a = xlink_href(AttrValue::StringAttrValue("#a".to_string()));
    assert_eq!(a.LocalName(), "href");
    assert_eq!(a.Name(), "xlink:href");
    assert_eq!(&**a.name(), "xlink:href");
    assert_eq!(&**a.local_name(), "href");
    assert_eq!(&**a.namespace(), "http://www.w3.org/1999/xlink");
    assert_eq!(a.GetNamespaceURI(), Some("http://www.w3.org/1999/xlink".to_string()));
    assert_eq!(a.GetPrefix(), Some("xlink".to_string()));
    assert_eq!(a.prefix(), &Some("xlink".to_string()));
    assert!(a.Specified());
    let b = html_attr("class", AttrValue::StringAttrValue(String::new()));
    assert_eq!(b.GetNamespaceURI(), None);
    assert_eq!(b.GetPrefix(), None);
}

#[test]
fn summarize_reports_namespace_name_value() {
    let a = xlink_href(AttrValue::StringAttrValue("#a".to_string()));
    let info = a.summarize();
    assert_eq!(info.namespace, "http://www.w3.org/1999/xlink");
    assert_eq!(info.name, "xlink:href");
    assert_eq!(info.value, "#a");
    let b = html_attr("dir", AttrValue::from_atomic("rtl".to_string()));
    let info = b.summarize();
    assert_eq!(info.namespace, "");
    assert_eq!(info.value, "rtl");
}

#[test]
fn layout_reads() {
    let a = html_attr("class", AttrValue::from_tokenlist("p q".to_string()));
    assert_eq!(a.value_ref_forever(), "p q");
    assert!(a.value_atom_forever().is_none());
    assert_eq!(texts(a.value_tokens_forever()), Some(vec!["p".to_string(), "q".to_string()]));
    assert_eq!(&*a.local_name_atom_forever(), "class");
    let b = html_attr("dir", AttrValue::from_atomic("rtl".to_string()));
    assert_eq!(b.value_atom_forever().map(|x| x.to_string()), Some("rtl".to_string()));
    assert!(b.value_tokens_forever().is_none());
}

#[test]
fn snapshot_does_not_see_later_changes() {
    let mut a = html_attr("class", AttrValue::from_tokenlist("a b".to_string()));
    let snap = a.snapshot();
    let mut owner = HookRecorder::new();
    a.set_value(AttrSettingType::ReplacedAttr, AttrValue::from_tokenlist("c".to_string()), &mut owner);
    assert_eq!(snap.value_ref_forever(), "a b");
    assert_eq!(texts(snap.value_tokens_forever()), Some(vec!["a".to_string(), "b".to_string()]));
    assert_eq!(a.value_ref_forever(), "c");
}

#[test]
fn duplicate_keeps_every_kind() {
    for v in [
        AttrValue::StringAttrValue("s".to_string()),
        AttrValue::from_tokenlist("t u".to_string()),
        AttrValue::from_u32("9".to_string(), 1),
        AttrValue::from_atomic("z".to_string()),
    ] {
        let d = v.duplicate();
        assert_eq!(d.as_text(), v.as_text());
        assert_eq!(texts(d.tokens()), texts(v.tokens()));
        assert_eq!(uint_value(&d), uint_value(&v));
    }
}

#[test]
fn set_value_stores_what_the_owner_parsed() {
    let mut a = html_attr("tabindex", AttrValue::from_u32("3".to_string(), 0));
    let mut owner = HookRecorder::reading(ValueKind::UnsignedInt(0));
    a.SetValue("abc".to_string(), &mut owner);
    assert_eq!(*a.value(), AttrValue::UIntAttrValue("abc".to_string(), 0));
    assert_eq!(a.value().as_text(), "abc");
    assert_eq!(owner.records.len(), 2);
    assert_eq!(owner.records[0].kind, HookKind::BeforeRemove);
    assert_eq!(*owner.records[0].attr.value(), AttrValue::UIntAttrValue("3".to_string(), 3));
    assert_eq!(owner.records[1].kind, HookKind::AfterSet);
    assert_eq!(*owner.records[1].attr.value(), AttrValue::UIntAttrValue("abc".to_string(), 0));
}

#[test]
fn set_value_reads_tokens_and_atoms() {
    let mut a = html_attr("class", AttrValue::StringAttrValue(String::new()));
    let mut owner = HookRecorder::reading(ValueKind::TokenList);
    a.SetValue(" b  c".to_string(), &mut owner);
    assert_eq!(texts(a.value().tokens()), Some(vec!["b".to_string(), "c".to_string()]));
    assert_eq!(a.Value(), " b  c");
    let mut owner = HookRecorder::reading(ValueKind::Symbol);
    a.SetValue("x".to_string(), &mut owner);
    assert_eq!(a.value_atom_forever().map(|x| x.to_string()), Some("x".to_string()));
}

#[test]
fn set_text_content_matches_set_value() {
    let mut a = html_attr("title", AttrValue::StringAttrValue("x".to_string()));
    let mut b = html_attr("title", AttrValue::StringAttrValue("x".to_string()));
    let mut oa = HookRecorder::new();
    let mut ob = HookRecorder::new();
    a.SetTextContent("y z".to_string(), &mut oa);
    b.SetValue("y z".to_string(), &mut ob);
    assert!(*a.value() == *b.value());
    assert_eq!(*a.value(), AttrValue::StringAttrValue("y z".to_string()));
    assert_eq!(oa.records.len(), ob.records.len());
}

#[test]
fn owner_is_kept() {
    let a = Attr::new(atom("id"), AttrValue::from_atomic("m".to_string()), atom("id"), atom(""), None, 42);
    assert_eq!(a.GetOwnerElement(), Some(42));
    assert_eq!(a.snapshot().GetOwnerElement(), Some(42));
}

#[test]
fn values_compare_and_clone() {
    let v = AttrValue::from_tokenlist("a b".to_string());
    assert!(v.clone() == v);
    assert!(AttrValue::from_atomic("q".to_string()) == AttrValue::from_atomic("q".to_string()));
    assert!(AttrValue::from_u32("1".to_string(), 0) != AttrValue::from_u32("01".to_string(), 0));
}

use std::collections::hash_map::DefaultHasher;
use std::hash::{Hash, Hasher};

use xiangxue_cocos::attrs::Attrs;
use xiangxue_cocos::cocos::{action_tag_from_hash, action_tag_from_name, compute_progress_percent, ctype_for, is_interactive};
use xiangxue_cocos::emit::CocosBackend;
use xiangxue_cocos::node::{Geometry, NodeLayout, Orientation, UiNode, WidgetKind};
use xiangxue_cocos::text::{i64_text, text_eq, u64_text};
use xiangxue_cocos::xml::{xml_escape, XmlWriter};

fn pair(x: &str, y: &str) -> (String, String) {
    (x.to_string(), y.to_string())
}

fn layout() -> NodeLayout {
    NodeLayout {
        geometry: Geometry {
            position: pair("1.0000", "2.0000"),
            scale: pair("1.0000", "1.0000"),
            anchor: pair("0.5000", "0.5000"),
            size: pair("10.0000", "20.0000"),
            pre_position: pair("0.1000", "0.2000"),
            pre_size: pair("0.3000", "0.4000"),
        },
        rotation: None,
        flip_x: false,
        flip_y: false,
        visible: None,
        z_order: None,
        item_margin: None,
        color: None,
        alpha: None,
        background_color: None,
        background_image: None,
        progress: 0,
    }
}

fn node(name: &str, widget: WidgetKind) -> UiNode {
    UiNode { name: name.to_string(), widget, attrs: Attrs::new(), layout: layout(), children: Vec::new() }
}

fn hash_of(name: &str) -> u64 {
    let mut h = DefaultHasher::new();
    name.hash(&mut h);
    h.finish()
}

#[test]
fn action_tag_keeps_low_31_bits_negated() {
    assert_eq!(action_tag_from_hash(0), 0);
    assert_eq!(action_tag_from_hash(5), -5);
    assert_eq!(action_tag_from_hash(0x8000_0005), -5);
    assert_eq!(action_tag_from_hash(u64::MAX), -0x7FFF_FFFF);
}

#[test]
fn action_tag_comes_from_the_hash_of_the_name() {
    for name in ["button1", "root", "", "ÜberKnopf"] {
        let tag = action_tag_from_name(name);
        assert_eq!(tag, action_tag_from_hash(hash_of(name)));
        assert!(tag <= 0);
    }
    assert_ne!(action_tag_from_name("button1"), action_tag_from_name("button2"));
}

#[test]
fn progress_is_clamped_to_percent() {
    assert_eq!(compute_progress_percent(-5), "0");
    assert_eq!(compute_progress_percent(0), "0");
    assert_eq!(compute_progress_percent(42), "42");
    assert_eq!(compute_progress_percent(100), "100");
    assert_eq!(compute_progress_percent(150), "100");
    assert_eq!(compute_progress_percent(i32::MIN), "0");
}

#[test]
fn ctype_of_every_kind() {
    let cases = vec![
        (WidgetKind::Layout(Orientation::Horizontal), "PanelObjectData"),
        (WidgetKind::Button, "ButtonObjectData"),
        (WidgetKind::Text, "TextObjectData"),
        (WidgetKind::Image, "ImageViewObjectData"),
        (WidgetKind::ScrollView, "ScrollViewObjectData"),
        (WidgetKind::ListView, "ListViewObjectData"),
        (WidgetKind::TextField, "TextFieldObjectData"),
        (WidgetKind::CheckBox, "CheckBoxObjectData"),
        (WidgetKind::Slider, "SliderObjectData"),
        (WidgetKind::ProgressBar, "LoadingBarObjectData"),
        (WidgetKind::Unknown("PageView".to_string()), "PageViewObjectData"),
        (WidgetKind::Unknown("Sprite".to_string()), "SpriteObjectData"),
        (WidgetKind::Unknown("TabControl".to_string()), "TabControlObjectData"),
        (WidgetKind::Unknown("ProjectNode".to_string()), "ProjectNodeObjectData"),
        (WidgetKind::Unknown("Node".to_string()), "SingleNodeObjectData"),
        (WidgetKind::Unknown("TextBMFont".to_string()), "TextBMFontObjectData"),
        (WidgetKind::Unknown("TextAtlas".to_string()), "TextAtlasObjectData"),
        (WidgetKind::Unknown("ButtonObjectData".to_string()), "SingleNodeObjectData"),
        (WidgetKind::Unknown("pageview".to_string()), "SingleNodeObjectData"),
    ];
    for (w, c) in cases {
        assert_eq!(ctype_for(&w), c);
    }
}

#[test]
fn interactive_widgets() {
    assert!(is_interactive(&WidgetKind::Button));
    assert!(is_interactive(&WidgetKind::TextField));
    assert!(is_interactive(&WidgetKind::CheckBox));
    assert!(is_interactive(&WidgetKind::Slider));
    assert!(!is_interactive(&WidgetKind::Text));
    assert!(!is_interactive(&WidgetKind::ProgressBar));
    assert!(!is_interactive(&WidgetKind::Unknown("Button".to_string())));
}

#[test]
fn escape_leaves_plain_text_alone() {
    assert_eq!(xml_escape(""), "");
    assert_eq!(xml_escape("plain text 123"), "plain text 123");
    assert_eq!(xml_escape("日本語 ü"), "日本語 ü");
    assert_eq!(xml_escape("&&"), "&amp;&amp;");
    assert_eq!(xml_escape("&amp;"), "&amp;amp;");
}

#[test]
fn decimal_text() {
    assert_eq!(u64_text(0), "0");
    assert_eq!(u64_text(7), "7");
    assert_eq!(u64_text(1234567890), "1234567890");
    assert_eq!(u64_text(u64::MAX), u64::MAX.to_string());
    assert_eq!(i64_text(-42), "-42");
    assert_eq!(i64_text(0), "0");
    assert_eq!(i64_text(i64::MIN), i64::MIN.to_string());
    assert_eq!(i64_text(i64::MAX), i64::MAX.to_string());
}

#[test]
fn text_equality() {
    assert!(text_eq("abc", "abc"));
    assert!(!text_eq("abc", "abd"));
    assert!(!text_eq("abc", "ab"));
    assert!(text_eq("", ""));
}

#[test]
fn attrs_read_back_what_was_written() {
    let mut a = Attrs::new();
    assert_eq!(a.get("k"), None);
    assert_eq!(a.insert("k".to_string(), "v1".to_string()), None);
    assert_eq!(a.get("k").map(|s| s.as_str()), Some("v1"));
    assert_eq!(a.insert("other".to_string(), "x".to_string()), None);
    assert_eq!(a.insert("k".to_string(), "v2".to_string()), Some("v1".to_string()));
    assert_eq!(a.get("k").map(|s| s.as_str()), Some("v2"));
    assert_eq!(a.get("other").map(|s| s.as_str()), Some("x"));
    assert_eq!(a.get("missing"), None);
}

#[test]
fn writer_indents_and_balances() {
    let mut w = XmlWriter::new();
    w.raw("<?x?>\n");
    w.open_tag("A", &[("k", "v&")]);
    w.self_closing_tag("B", &[("x", "1"), ("y", "\"2\"")]);
    w.open_tag("C", &[]);
    w.write_indent();
    w.raw("text\n");
    w.close_tag("C");
    w.close_tag("A");
    w.close_tag("Z");
    let s = w.finish();
    assert_eq!(
        s,
        "<?x?>\n<A k=\"v&amp;\">\n  <B x=\"1\" y=\"&quot;2&quot;\"/>\n  <C>\n    text\n  </C>\n</A>\n</Z>\n"
    );
}

#[test]
fn whole_document_with_fixed_id() {
    let mut root = node("root", WidgetKind::Layout(Orientation::Vertical));
    let mut a = node("a", WidgetKind::Button);
    a.attrs.insert("text".to_string(), "Go <now>".to_string());
    a.children.push(node("a1", WidgetKind::Text));
    root.children.push(a);
    root.children.push(node("b", WidgetKind::Unknown("Node".to_string())));
    let backend = CocosBackend {};
    let xml = backend.emit_document_with_id(&root, "ID-1");
    let tag = |n: &str| action_tag_from_hash(hash_of(n)).to_string();
    let base = "<Position X=\"1.0000\" Y=\"2.0000\"/>\n{i}<Scale ScaleX=\"1.0000\" ScaleY=\"1.0000\"/>\n{i}<AnchorPoint ScaleX=\"0.5000\" ScaleY=\"0.5000\"/>\n{i}<CColor A=\"255\" R=\"255\" G=\"255\" B=\"255\"/>\n{i}<Size X=\"10.0000\" Y=\"20.0000\"/>\n{i}<PrePosition X=\"0.1000\" Y=\"0.2000\"/>\n{i}<PreSize X=\"0.3000\" Y=\"0.4000\"/>\n";
    let props = |indent: &str| format!("{}{}", indent, base.replace("{i}", indent));
    let mut expected = String::new();
    expected.push_str("<?xml version=\"1.0\" encoding=\"utf-8\"?>\n<GameProjectFile>\n");
    expected.push_str("  <PropertyGroup Type=\"Node\" Name=\"root\" ID=\"ID-1\" Version=\"2.1.0.0\"/>\n");
    expected.push_str("  <Content ctype=\"GameProjectContent\">\n    <Content>\n");
    expected.push_str("      <Animation Duration=\"0\" Speed=\"1.0000\"/>\n");
    expected.push_str(&format!("      <ObjectData Name=\"root\" ActionTag=\"{}\" Tag=\"1\" ctype=\"PanelObjectData\">\n", tag("root")));
    expected.push_str(&props("        "));
    expected.push_str("        <Children>\n");
    expected.push_str(&format!(
        "          <ObjectData Name=\"a\" ActionTag=\"{}\" Tag=\"2\" ctype=\"ButtonObjectData\" ButtonText=\"Go &lt;now&gt;\" FontSize=\"14\" TouchEnable=\"True\">\n",
        tag("a")
    ));
    expected.push_str(&props("            "));
    expected.push_str("            <Children>\n");
    expected.push_str(&format!(
        "              <ObjectData Name=\"a1\" ActionTag=\"{}\" Tag=\"3\" ctype=\"TextObjectData\" LabelText=\"\" FontSize=\"20\">\n",
        tag("a1")
    ));
    expected.push_str(&props("                "));
    expected.push_str("              </ObjectData>\n");
    expected.push_str("            </Children>\n");
    expected.push_str("          </ObjectData>\n");
    expected.push_str(&format!("          <ObjectData Name=\"b\" ActionTag=\"{}\" Tag=\"4\" ctype=\"SingleNodeObjectData\">\n", tag("b")));
    expected.push_str(&props("            "));
    expected.push_str("          </ObjectData>\n");
    expected.push_str("        </Children>\n");
    expected.push_str("      </ObjectData>\n    </Content>\n  </Content>\n</GameProjectFile>\n");
    assert_eq!(xml, expected);
}

#[test]
fn project_id_is_a_random_uuid() {
    let backend = CocosBackend {};
    let root = node("root", WidgetKind::Text);
    let xml = backend.emit_document(&root);
    let start = xml.find("ID=\"").unwrap() + 4;
    let id: Vec<char> = xml[start..start + 36].chars().collect();
    assert_eq!(xml.as_bytes()[start + 36], b'"');
    for (i, c) in id.iter().enumerate() {
        if i == 8 || i == 13 || i == 18 || i == 23 {
            assert_eq!(*c, '-');
        } else {
            assert!(c.is_ascii_hexdigit() && !c.is_ascii_uppercase());
        }
    }
    assert_eq!(id[14], '4');
    assert!(['8', '9', 'a', 'b'].contains(&id[19]));
    let other = backend.emit_document(&root);
    assert_ne!(xml, other);
}

#[test]
fn widget_files_and_fallbacks() {
    let backend = CocosBackend {};
    let mut b = node("b", WidgetKind::Button);
    b.layout.background_image = Some("bg.png".to_string());
    b.attrs.insert("data-pressed".to_string(), "p.png".to_string());
    b.attrs.insert("data-disabled".to_string(), "d.png".to_string());
    let xml = backend.emit_document_with_id(&b, "x");
    assert!(xml.contains("<NormalFileData Path=\"bg.png\" Type=\"Normal\"/>"));
    assert!(xml.contains("<PressedFileData Path=\"p.png\" Type=\"Normal\"/>"));
    assert!(xml.contains("<DisabledFileData Path=\"d.png\" Type=\"Normal\"/>"));

    let mut p = node("p", WidgetKind::Unknown("ProjectNode".to_string()));
    p.attrs.insert("src".to_string(), "s.png".to_string());
    p.attrs.insert("data-file".to_string(), "scene.csd".to_string());
    let xml = backend.emit_document_with_id(&p, "x");
    assert!(xml.contains("<FileData Path=\"scene.csd\" Type=\"Normal\"/>"));
    assert!(!xml.contains("s.png"));

    let mut s = node("s", WidgetKind::Slider);
    s.attrs.insert("src".to_string(), "src.png".to_string());
    s.layout.background_image = Some("bg.png".to_string());
    let xml = backend.emit_document_with_id(&s, "x");
    assert!(xml.contains("<FileData Path=\"src.png\" Type=\"Normal\"/>"));
    assert!(!xml.contains("bg.png"));

    let mut atlas = node("t", WidgetKind::Unknown("TextAtlas".to_string()));
    atlas.attrs.insert("data-start-char".to_string(), "0".to_string());
    let xml = backend.emit_document_with_id(&atlas, "x");
    assert!(xml.contains("LabelText=\"\" StartChar=\"0\">"));
    assert!(!xml.contains("LabelAtlasFileImage_CNB"));
}

#[test]
fn flags_and_extension() {
    let backend = CocosBackend {};
    assert_eq!(backend.extension(), "csd");
    let mut n = node("n", WidgetKind::Layout(Orientation::Horizontal));
    n.layout.rotation = Some("-30.5000".to_string());
    n.layout.visible = Some(true);
    n.layout.z_order = Some(-3);
    n.layout.flip_y = true;
    n.layout.alpha = Some(0);
    let xml = backend.emit_document_with_id(&n, "x");
    assert!(xml.contains("ctype=\"PanelObjectData\" RotationSkewX=\"-30.5000\" RotationSkewY=\"-30.5000\" ZOrder=\"-3\" FlipY=\"True\">"));
    assert!(!xml.contains("VisibleForFrame"));
    assert!(!xml.contains("ComboBoxIndex"));
    assert!(!xml.contains("TouchEnable"));
    assert!(xml.contains("<CColor A=\"0\" R=\"255\" G=\"255\" B=\"255\"/>"));
}

fn unescape(s: &str) -> String {
    s.replace("&lt;", "<")
        .replace("&gt;", ">")
        .replace("&quot;", "\"")
        .replace("&apos;", "'")
        .replace("&amp;", "&")
}

#[test]
fn escaped_text_reads_back_and_has_no_markup() {
    for s in ["a&b<c>d\"e'f", "&lt;", "&&amp;;", "<<>>", "plain", "", "'\"'"] {
        let e = xml_escape(s);
        assert!(!e.contains('<') && !e.contains('>') && !e.contains('"') && !e.contains('\''));
        assert_eq!(unescape(&e), s);
    }
}

#[test]
fn touch_enable_only_on_interactive_widgets() {
    let backend = CocosBackend {};
    let kinds = vec![
        WidgetKind::Layout(Orientation::Vertical),
        WidgetKind::Button,
        WidgetKind::Text,
        WidgetKind::Image,
        WidgetKind::ScrollView,
        WidgetKind::ListView,
        WidgetKind::TextField,
        WidgetKind::CheckBox,
        WidgetKind::Slider,
        WidgetKind::ProgressBar,
        WidgetKind::Unknown("TextAtlas".to_string()),
    ];
    for k in kinds {
        let interactive = is_interactive(&k);
        let n = node("n", k);
        let xml = backend.emit_document_with_id(&n, "x");
        assert_eq!(xml.contains("TouchEnable=\"True\""), interactive);
        assert_eq!(xml.contains("TouchEnable"), interactive);
    }
}

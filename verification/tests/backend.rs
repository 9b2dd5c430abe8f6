use xiangxue_cocos::attrs::Attrs;
use xiangxue_cocos::cocos::{action_tag_from_name, action_tag_from_hash, compute_progress_percent, ctype_for, is_interactive};
use xiangxue_cocos::emit::CocosBackend;
use xiangxue_cocos::node::{Geometry, NodeLayout, Orientation, UiNode, WidgetKind};
use xiangxue_cocos::xml::xml_escape;

fn zero_pair() -> (String, String) {
    ("0.0000".to_string(), "0.0000".to_string())
}

fn default_layout() -> NodeLayout {
    NodeLayout {
        geometry: Geometry {
            position: zero_pair(),
            scale: ("1.0000".to_string(), "1.0000".to_string()),
            anchor: ("0.5000".to_string(), "0.5000".to_string()),
            size: zero_pair(),
            pre_position: zero_pair(),
            pre_size: zero_pair(),
        },
        rotation: None,
        flip_x: false,
        flip_y: false,
        visible: None,
        z_order: None,
        item_margin: None,
        color: None,
        alpha: None,
        background_color: None,
        background_image: None,
        progress: 0,
    }
}

fn make_node(name: &str, widget: WidgetKind) -> UiNode {
    UiNode {
        name: name.to_string(),
        widget,
        attrs: Attrs::new(),
        layout: default_layout(),
        children: Vec::new(),
    }
}

#[test]
fn single_button_ctype() {
    let mut node = make_node("ok", WidgetKind::Button);
    node.attrs.insert("text".to_string(), "OK".to_string());
    let backend = CocosBackend {};
    let xml = backend.emit_document(&node);
    assert!(xml.contains("ctype=\"ButtonObjectData\""));
    assert!(xml.contains("ButtonText=\"OK\""));
}

#[test]
fn nested_layout_children() {
    let child = make_node("inner", WidgetKind::Text);
    let mut root = make_node("root", WidgetKind::Layout(Orientation::Vertical));
    root.children.push(child);
    let backend = CocosBackend {};
    let xml = backend.emit_document(&root);
    assert!(xml.contains("<Children>"));
    assert!(xml.contains("ctype=\"PanelObjectData\""));
    assert!(xml.contains("ctype=\"TextObjectData\""));
}

#[test]
fn image_with_src_filedata() {
    let mut node = make_node("icon", WidgetKind::Image);
    node.attrs.insert("src".to_string(), "a.png".to_string());
    let backend = CocosBackend {};
    let xml = backend.emit_document(&node);
    assert!(xml.contains("ctype=\"ImageViewObjectData\""));
    assert!(xml.contains("Path=\"a.png\""));
    assert!(xml.contains("Type=\"Normal\""));
}

#[test]
fn checkbox_ctype() {
    let node = make_node("toggle", WidgetKind::CheckBox);
    let backend = CocosBackend {};
    let xml = backend.emit_document(&node);
    assert!(xml.contains("ctype=\"CheckBoxObjectData\""));
    assert!(xml.contains("TouchEnable=\"True\""));
}

#[test]
fn unknown_pageview_ctype() {
    let node = make_node("pages", WidgetKind::Unknown("PageView".to_string()));
    let backend = CocosBackend {};
    let xml = backend.emit_document(&node);
    assert!(xml.contains("ctype=\"PageViewObjectData\""));
}

#[test]
fn slider_ctype() {
    let node = make_node("vol", WidgetKind::Slider);
    let backend = CocosBackend {};
    let xml = backend.emit_document(&node);
    assert!(xml.contains("ctype=\"SliderObjectData\""));
    assert!(xml.contains("PercentInfo=\"50\""));
}

#[test]
fn progress_bar_ctype() {
    let node = make_node("hp", WidgetKind::ProgressBar);
    let backend = CocosBackend {};
    let xml = backend.emit_document(&node);
    assert!(xml.contains("ctype=\"LoadingBarObjectData\""));
    // No data-value/data-max attrs → defaults to 0%
    assert!(xml.contains("ProgressInfo=\"0\""));
}

#[test]
fn full_document_structure() {
    let backend = CocosBackend {};
    let node = make_node("root", WidgetKind::Layout(Orientation::Vertical));
    let xml = backend.emit_document(&node);
    assert!(xml.starts_with("<?xml version=\"1.0\" encoding=\"utf-8\"?>"));
    assert!(xml.contains("<GameProjectFile>"));
    assert!(xml.contains("</GameProjectFile>"));
    assert!(xml.contains("<PropertyGroup"));
    assert!(xml.contains("ctype=\"GameProjectContent\""));
    assert!(xml.contains("<Animation"));
}

#[test]
fn action_tag_deterministic() {
    let a = action_tag_from_name("button1");
    let b = action_tag_from_name("button1");
    assert_eq!(a, b);
    assert!(a < 0); // ActionTags are negative
}

#[test]
fn xml_escape_special_chars() {
    let escaped = xml_escape("a&b<c>d\"e'f");
    assert_eq!(escaped, "a&amp;b&lt;c&gt;d&quot;e&apos;f");
}

#[test]
fn textfield_attributes() {
    let mut node = make_node("email", WidgetKind::TextField);
    node.attrs.insert("placeholder".to_string(), "Enter email".to_string());
    node.attrs.insert("text".to_string(), "hello".to_string());
    let backend = CocosBackend {};
    let xml = backend.emit_document(&node);
    assert!(xml.contains("PlaceHolderText=\"Enter email\""));
    assert!(xml.contains("LabelText=\"hello\""));
    assert!(xml.contains("ctype=\"TextFieldObjectData\""));
}

#[test]
fn scrollview_inner_node_size() {
    let node = make_node("scroll", WidgetKind::ScrollView);
    let backend = CocosBackend {};
    let xml = backend.emit_document(&node);
    assert!(xml.contains("ctype=\"ScrollViewObjectData\""));
    assert!(xml.contains("<InnerNodeSize"));
}

#[test]
fn listview_attributes() {
    let node = make_node("list", WidgetKind::ListView);
    let backend = CocosBackend {};
    let xml = backend.emit_document(&node);
    assert!(xml.contains("ctype=\"ListViewObjectData\""));
    assert!(xml.contains("DirectionType=\"Vertical\""));
    assert!(xml.contains("ItemMargin=\"0\""));
    assert!(xml.contains("<InnerNodeSize"));
}

#[test]
fn listview_gap_to_item_margin() {
    let mut node = make_node("list", WidgetKind::ListView);
    // a gap of 10.0 rounds to 10
    node.layout.item_margin = Some(10);
    let backend = CocosBackend {};
    let xml = backend.emit_document(&node);
    assert!(xml.contains("ItemMargin=\"10\""));
}

#[test]
fn negative_scale_flip_output() {
    let mut node = make_node("flipped", WidgetKind::Image);
    // scale (-1, 1): the scale is written as its absolute value, the sign as a flip
    node.layout.flip_x = true;
    node.layout.geometry.scale = ("1.0000".to_string(), "1.0000".to_string());
    let backend = CocosBackend {};
    let xml = backend.emit_document(&node);
    assert!(xml.contains("FlipX=\"True\""));
    assert!(xml.contains("ScaleX=\"1.0000\""));
    assert!(!xml.contains("FlipY"));
}

#[test]
fn color_output() {
    let mut node = make_node("label", WidgetKind::Text);
    node.layout.color = Some((255, 0, 0));
    let backend = CocosBackend {};
    let xml = backend.emit_document(&node);
    assert!(xml.contains("R=\"255\""));
    assert!(xml.contains("G=\"0\""));
    assert!(xml.contains("B=\"0\""));
}

#[test]
fn default_color_is_white() {
    let node = make_node("label", WidgetKind::Text);
    let backend = CocosBackend {};
    let xml = backend.emit_document(&node);
    assert!(xml.contains("A=\"255\" R=\"255\" G=\"255\" B=\"255\""));
}

#[test]
fn rotation_output() {
    let mut node = make_node("icon", WidgetKind::Image);
    node.layout.rotation = Some("45.0000".to_string());
    let backend = CocosBackend {};
    let xml = backend.emit_document(&node);
    assert!(xml.contains("RotationSkewX=\"45.0000\""));
    assert!(xml.contains("RotationSkewY=\"45.0000\""));
}

#[test]
fn visibility_false_output() {
    let mut node = make_node("hidden", WidgetKind::Text);
    node.layout.visible = Some(false);
    let backend = CocosBackend {};
    let xml = backend.emit_document(&node);
    assert!(xml.contains("VisibleForFrame=\"False\""));
}

#[test]
fn z_order_output() {
    let mut node = make_node("overlay", WidgetKind::Layout(Orientation::Vertical));
    node.layout.z_order = Some(10);
    let backend = CocosBackend {};
    let xml = backend.emit_document(&node);
    assert!(xml.contains("ZOrder=\"10\""));
}

#[test]
fn background_color_panel() {
    let mut node = make_node("panel", WidgetKind::Layout(Orientation::Vertical));
    node.layout.background_color = Some((100, 150, 200, 180));
    let backend = CocosBackend {};
    let xml = backend.emit_document(&node);
    assert!(xml.contains("ComboBoxIndex=\"1\""));
    assert!(xml.contains("<SingleColor"));
    assert!(xml.contains("R=\"100\""));
    assert!(xml.contains("<BackColorAlpha"));
    assert!(xml.contains("Value=\"180\""));
}

#[test]
fn text_bmfont_ctype_and_fnt() {
    let mut node = make_node("score", WidgetKind::Unknown("TextBMFont".to_string()));
    node.attrs.insert("text".to_string(), "12345".to_string());
    node.attrs.insert("data-fnt-file".to_string(), "fonts/score.fnt".to_string());
    let backend = CocosBackend {};
    let xml = backend.emit_document(&node);
    assert!(xml.contains("ctype=\"TextBMFontObjectData\""));
    assert!(xml.contains("LabelText=\"12345\""));
    assert!(xml.contains("Path=\"fonts/score.fnt\""));
    assert!(xml.contains("LabelBMFontFile_CNB"));
}

#[test]
fn text_atlas_ctype_and_atlas() {
    let mut node = make_node("timer", WidgetKind::Unknown("TextAtlas".to_string()));
    node.attrs.insert("text".to_string(), "00:30".to_string());
    node.attrs.insert("data-atlas-file".to_string(), "fonts/numbers.png".to_string());
    node.attrs.insert("data-char-width".to_string(), "24".to_string());
    node.attrs.insert("data-char-height".to_string(), "32".to_string());
    let backend = CocosBackend {};
    let xml = backend.emit_document(&node);
    assert!(xml.contains("ctype=\"TextAtlasObjectData\""));
    assert!(xml.contains("LabelText=\"00:30\""));
    assert!(xml.contains("Path=\"fonts/numbers.png\""));
    assert!(xml.contains("CharWidth=\"24\""));
    assert!(xml.contains("CharHeight=\"32\""));
}

#[test]
fn sprite_ctype_and_filedata() {
    let mut node = make_node("bg", WidgetKind::Unknown("Sprite".to_string()));
    node.attrs.insert("src".to_string(), "textures/bg.png".to_string());
    let backend = CocosBackend {};
    let xml = backend.emit_document(&node);
    assert!(xml.contains("ctype=\"SpriteObjectData\""));
    assert!(xml.contains("Path=\"textures/bg.png\""));
}

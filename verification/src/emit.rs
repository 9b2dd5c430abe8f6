//! The `.csd` document: what is written for each node, and the writer of it.

use vstd::prelude::*;
use crate::text::{nat_text, int_text, u64_text, i64_text, text_eq};
use crate::xml::{XmlWriter, open_line, leaf_line, close_line, attr_views};
use crate::attrs::Attrs;
use crate::node::{WidgetKind, UiNode, node_count, forest_count, node_depth, forest_depth};
use crate::cocos::{
    ctype_name, ctype_for, interactive_kind, is_interactive, clamp_percent,
    compute_progress_percent, action_tag_of_name, action_tag_from_name, is_uuid_v4_text, new_project_id,
};

verus! {

// ───────────────────────────── the document, as text ─────────────────────────────

/// The value stored under `key`, or the empty text.
pub open spec fn attr_or_empty_text(n: UiNode, key: Seq<char>) -> Seq<char> {
    if n.attrs@.contains_key(key) {
        n.attrs@[key]
    } else {
        Seq::empty()
    }
}

/// The value stored under `key`, if any.
pub open spec fn attr_value(n: UiNode, key: Seq<char>) -> Option<Seq<char>> {
    if n.attrs@.contains_key(key) {
        Some(n.attrs@[key])
    } else {
        None
    }
}

/// One attribute `label` holding the value stored under `key`, when there is one.
pub open spec fn copied_attr(n: UiNode, label: Seq<char>, key: Seq<char>) -> Seq<(Seq<char>, Seq<char>)> {
    if n.attrs@.contains_key(key) {
        seq![(label, n.attrs@[key])]
    } else {
        seq![]
    }
}

/// The widget is `Unknown` with the given name.
pub open spec fn is_named(w: WidgetKind, name: Seq<char>) -> bool {
    match w {
        WidgetKind::Unknown(s) => s@ == name,
        _ => false,
    }
}

/// Attributes that depend on the widget kind.
pub open spec fn widget_attrs(n: UiNode) -> Seq<(Seq<char>, Seq<char>)> {
    let text = attr_or_empty_text(n, "text"@);
    match n.widget {
        WidgetKind::Button => seq![("ButtonText"@, text), ("FontSize"@, "14"@)],
        WidgetKind::Text => seq![("LabelText"@, text), ("FontSize"@, "20"@)],
        WidgetKind::TextField => seq![
            ("PlaceHolderText"@, attr_or_empty_text(n, "placeholder"@)),
            ("LabelText"@, text),
            ("FontSize"@, "20"@),
        ],
        WidgetKind::ScrollView => seq![("ScrollDirectionType"@, "Vertical"@)],
        WidgetKind::ListView => seq![
            ("DirectionType"@, "Vertical"@),
            ("ItemMargin"@, int_text(
                match n.layout.item_margin {
                    Some(m) => m as int,
                    None => 0,
                },
            )),
        ],
        WidgetKind::Slider => seq![("PercentInfo"@, "50"@)],
        WidgetKind::ProgressBar => seq![("ProgressInfo"@, int_text(clamp_percent(n.layout.progress as int)))],
        WidgetKind::Unknown(name) => if name@ == "TextBMFont"@ || name@ == "TextAtlas"@ {
            seq![("LabelText"@, text)]
        } else {
            seq![]
        },
        _ => seq![],
    }
}

/// Glyph size and first character of a `TextAtlas`, where the page gives them.
pub open spec fn atlas_attrs(n: UiNode) -> Seq<(Seq<char>, Seq<char>)> {
    if is_named(n.widget, "TextAtlas"@) {
        copied_attr(n, "CharWidth"@, "data-char-width"@) + copied_attr(n, "CharHeight"@, "data-char-height"@)
            + copied_attr(n, "StartChar"@, "data-start-char"@)
    } else {
        seq![]
    }
}

/// `TouchEnable` for interactive widgets.
#[verifier::opaque]
pub open spec fn touch_attrs(n: UiNode) -> Seq<(Seq<char>, Seq<char>)> {
    if interactive_kind(n.widget) {
        seq![("TouchEnable"@, "True"@)]
    } else {
        seq![]
    }
}

/// Rotation about both axes, when the node is rotated.
#[verifier::opaque]
pub open spec fn rotation_attrs(n: UiNode) -> Seq<(Seq<char>, Seq<char>)> {
    match n.layout.rotation {
        Some(r) => seq![("RotationSkewX"@, r@), ("RotationSkewY"@, r@)],
        None => seq![],
    }
}

/// `VisibleForFrame="False"` for a node made invisible.
#[verifier::opaque]
pub open spec fn hidden_attrs(n: UiNode) -> Seq<(Seq<char>, Seq<char>)> {
    if n.layout.visible == Some(false) {
        seq![("VisibleForFrame"@, "False"@)]
    } else {
        seq![]
    }
}

/// The z-order, when given.
#[verifier::opaque]
pub open spec fn z_attrs(n: UiNode) -> Seq<(Seq<char>, Seq<char>)> {
    match n.layout.z_order {
        Some(z) => seq![("ZOrder"@, int_text(z as int))],
        None => seq![],
    }
}

/// `FlipX` and `FlipY` for negative scales.
#[verifier::opaque]
pub open spec fn flip_attrs(n: UiNode) -> Seq<(Seq<char>, Seq<char>)> {
    (if n.layout.flip_x {
        seq![("FlipX"@, "True"@)]
    } else {
        seq![]
    }) + (if n.layout.flip_y {
        seq![("FlipY"@, "True"@)]
    } else {
        seq![]
    })
}

/// `ComboBoxIndex="1"` for a panel with a background colour.
#[verifier::opaque]
pub open spec fn combo_attrs(n: UiNode) -> Seq<(Seq<char>, Seq<char>)> {
    if n.widget is Layout && n.layout.background_color is Some {
        seq![("ComboBoxIndex"@, "1"@)]
    } else {
        seq![]
    }
}

/// Touch, rotation, visibility, z-order, flip and panel-colour attributes.
pub open spec fn flag_attrs(n: UiNode) -> Seq<(Seq<char>, Seq<char>)> {
    touch_attrs(n) + rotation_attrs(n) + hidden_attrs(n) + z_attrs(n) + flip_attrs(n) + combo_attrs(n)
}

/// The attributes of a node's `ObjectData` element, `tag` being its number.
#[verifier::opaque]
pub open spec fn object_attrs(n: UiNode, tag: nat) -> Seq<(Seq<char>, Seq<char>)> {
    seq![
        ("Name"@, n.name@),
        ("ActionTag"@, int_text(action_tag_of_name(n.name@))),
        ("Tag"@, nat_text(tag)),
        ("ctype"@, ctype_name(n.widget)),
    ] + widget_attrs(n) + atlas_attrs(n) + flag_attrs(n)
}

/// An element holding two coordinates.
pub open spec fn pair_line(indent: nat, name: Seq<char>, kx: Seq<char>, ky: Seq<char>, xy: (String, String)) -> Seq<char> {
    leaf_line(indent, name, seq![(kx, xy.0@), (ky, xy.1@)])
}

/// The colour of a node: alpha, red, green, blue (white and opaque unless given).
pub open spec fn color_line(n: UiNode, indent: nat) -> Seq<char> {
    let a: u8 = match n.layout.alpha {
        Some(a) => a,
        None => 255,
    };
    let c: (u8, u8, u8) = match n.layout.color {
        Some(c) => c,
        None => (255, 255, 255),
    };
    leaf_line(
        indent,
        "CColor"@,
        seq![
            ("A"@, nat_text(a as nat)),
            ("R"@, nat_text(c.0 as nat)),
            ("G"@, nat_text(c.1 as nat)),
            ("B"@, nat_text(c.2 as nat)),
        ],
    )
}

/// Position, scale, anchor, colour, size and their fractions of the parent.
#[verifier::opaque]
pub open spec fn base_text(n: UiNode, indent: nat) -> Seq<char> {
    let g = n.layout.geometry;
    pair_line(indent, "Position"@, "X"@, "Y"@, g.position) + pair_line(indent, "Scale"@, "ScaleX"@, "ScaleY"@, g.scale)
        + pair_line(indent, "AnchorPoint"@, "ScaleX"@, "ScaleY"@, g.anchor) + color_line(n, indent)
        + pair_line(indent, "Size"@, "X"@, "Y"@, g.size) + pair_line(indent, "PrePosition"@, "X"@, "Y"@, g.pre_position)
        + pair_line(indent, "PreSize"@, "X"@, "Y"@, g.pre_size)
}

/// A file reference element, when there is a path.
pub open spec fn file_line(indent: nat, name: Seq<char>, path: Option<Seq<char>>) -> Seq<char> {
    match path {
        Some(p) => leaf_line(indent, name, seq![("Path"@, p), ("Type"@, "Normal"@)]),
        None => Seq::empty(),
    }
}

/// The image of a node: its `src` attribute, else its background image.
pub open spec fn image_of(n: UiNode) -> Option<Seq<char>> {
    if n.attrs@.contains_key("src"@) {
        Some(n.attrs@["src"@])
    } else {
        match n.layout.background_image {
            Some(s) => Some(s@),
            None => None,
        }
    }
}

/// Elements that depend on the widget kind: images, fonts, panel colour.
#[verifier::opaque]
pub open spec fn widget_text(n: UiNode, indent: nat) -> Seq<char> {
    let img = image_of(n);
    match n.widget {
        WidgetKind::Image => file_line(indent, "FileData"@, img),
        WidgetKind::Button => file_line(indent, "NormalFileData"@, img)
            + file_line(indent, "PressedFileData"@, attr_value(n, "data-pressed"@))
            + file_line(indent, "DisabledFileData"@, attr_value(n, "data-disabled"@)),
        WidgetKind::ScrollView | WidgetKind::ListView => file_line(indent, "FileData"@, img)
            + leaf_line(indent, "InnerNodeSize"@, seq![("Width"@, "0.0000"@), ("Height"@, "0.0000"@)]),
        WidgetKind::Layout(_) => file_line(indent, "FileData"@, img) + match n.layout.background_color {
            Some(c) => leaf_line(
                indent,
                "SingleColor"@,
                seq![("R"@, nat_text(c.0 as nat)), ("G"@, nat_text(c.1 as nat)), ("B"@, nat_text(c.2 as nat))],
            ) + leaf_line(indent, "BackColorAlpha"@, seq![("Value"@, nat_text(c.3 as nat))]),
            None => Seq::empty(),
        },
        WidgetKind::Unknown(name) => if name@ == "Sprite"@ {
            file_line(indent, "FileData"@, img)
        } else if name@ == "ProjectNode"@ {
            file_line(indent, "FileData"@, if n.attrs@.contains_key("data-file"@) {
                Some(n.attrs@["data-file"@])
            } else {
                img
            })
        } else if name@ == "TextBMFont"@ {
            file_line(indent, "LabelBMFontFile_CNB"@, attr_value(n, "data-fnt-file"@))
        } else if name@ == "TextAtlas"@ {
            file_line(indent, "LabelAtlasFileImage_CNB"@, attr_value(n, "data-atlas-file"@))
        } else {
            file_line(indent, "FileData"@, img)
        },
        _ => file_line(indent, "FileData"@, img),
    }
}

/// The text of a node and its subtree: the node is numbered `tag`, its
/// descendants follow in pre-order, and its lines start at level `indent`.
pub open spec fn node_text(n: UiNode, tag: nat, indent: nat) -> Seq<char>
    decreases n,
{
    open_line(indent, "ObjectData"@, object_attrs(n, tag)) + base_text(n, indent + 1) + widget_text(n, indent + 1)
        + (if n.children@.len() > 0 {
        open_line(indent + 1, "Children"@, seq![]) + children_text(n.children@, tag + 1, indent + 2)
            + close_line(indent + 1, "Children"@)
    } else {
        Seq::empty()
    }) + close_line(indent, "ObjectData"@)
}

/// The text of a list of sibling subtrees, the first numbered `tag`.
pub open spec fn children_text(cs: Seq<UiNode>, tag: nat, indent: nat) -> Seq<char>
    decreases cs,
{
    if cs.len() == 0 {
        Seq::empty()
    } else {
        children_text(cs.drop_last(), tag, indent) + node_text(cs.last(), tag + forest_count(cs.drop_last()), indent)
    }
}

/// The whole `.csd` document for a scene rooted at `root`, with project ID `id`.
pub open spec fn document_text(root: UiNode, id: Seq<char>) -> Seq<char> {
    "<?xml version=\"1.0\" encoding=\"utf-8\"?>\n"@ + open_line(0, "GameProjectFile"@, seq![]) + leaf_line(
        1,
        "PropertyGroup"@,
        seq![("Type"@, "Node"@), ("Name"@, root.name@), ("ID"@, id), ("Version"@, "2.1.0.0"@)],
    ) + open_line(1, "Content"@, seq![("ctype"@, "GameProjectContent"@)]) + open_line(2, "Content"@, seq![])
        + leaf_line(3, "Animation"@, seq![("Duration"@, "0"@), ("Speed"@, "1.0000"@)]) + node_text(root, 1, 3)
        + close_line(2, "Content"@) + close_line(1, "Content"@) + close_line(0, "GameProjectFile"@)
}

/// The scene is small enough for the emitter: its levels of indentation fit a
/// `usize` and its node numbers fit a `u32`.
pub open spec fn fits_emitter(root: UiNode) -> bool {
    &&& 3 + 2 * node_depth(root) <= usize::MAX
    &&& 1 + node_count(root) <= u32::MAX
}

// ───────────────────────────── touch ─────────────────────────────

/// No attribute in the list is named `TouchEnable`.
pub open spec fn lacks_touch_key(s: Seq<(Seq<char>, Seq<char>)>) -> bool {
    forall|i: int| 0 <= i < s.len() ==> #[trigger] s[i].0 != "TouchEnable"@
}

proof fn lemma_lacks_touch_key_concat(a: Seq<(Seq<char>, Seq<char>)>, b: Seq<(Seq<char>, Seq<char>)>)
    requires
        lacks_touch_key(a),
        lacks_touch_key(b),
    ensures
        lacks_touch_key(a + b),
{
    assert forall|i: int| 0 <= i < (a + b).len() implies #[trigger] (a + b)[i].0 != "TouchEnable"@ by {
        if i < a.len() {
            assert((a + b)[i] == a[i]);
        } else {
            assert((a + b)[i] == b[i - a.len()]);
        }
    }
}

proof fn lemma_lacks1(k: Seq<char>, v: Seq<char>)
    requires
        k != "TouchEnable"@,
    ensures
        lacks_touch_key(seq![(k, v)]),
{
}

proof fn lemma_lacks2(k1: Seq<char>, v1: Seq<char>, k2: Seq<char>, v2: Seq<char>)
    requires
        k1 != "TouchEnable"@,
        k2 != "TouchEnable"@,
    ensures
        lacks_touch_key(seq![(k1, v1), (k2, v2)]),
{
    let s = seq![(k1, v1), (k2, v2)];
    assert forall|i: int| 0 <= i < s.len() implies #[trigger] s[i].0 != "TouchEnable"@ by {
        if i == 0 {
        } else {
        }
    }
}

proof fn lemma_lacks3(k1: Seq<char>, v1: Seq<char>, k2: Seq<char>, v2: Seq<char>, k3: Seq<char>, v3: Seq<char>)
    requires
        k1 != "TouchEnable"@,
        k2 != "TouchEnable"@,
        k3 != "TouchEnable"@,
    ensures
        lacks_touch_key(seq![(k1, v1), (k2, v2), (k3, v3)]),
{
    let s = seq![(k1, v1), (k2, v2), (k3, v3)];
    assert forall|i: int| 0 <= i < s.len() implies #[trigger] s[i].0 != "TouchEnable"@ by {
        if i == 0 {
        } else if i == 1 {
        } else {
        }
    }
}

proof fn lemma_lacks4(
    k1: Seq<char>,
    v1: Seq<char>,
    k2: Seq<char>,
    v2: Seq<char>,
    k3: Seq<char>,
    v3: Seq<char>,
    k4: Seq<char>,
    v4: Seq<char>,
)
    requires
        k1 != "TouchEnable"@,
        k2 != "TouchEnable"@,
        k3 != "TouchEnable"@,
        k4 != "TouchEnable"@,
    ensures
        lacks_touch_key(seq![(k1, v1), (k2, v2), (k3, v3), (k4, v4)]),
{
    let s = seq![(k1, v1), (k2, v2), (k3, v3), (k4, v4)];
    assert forall|i: int| 0 <= i < s.len() implies #[trigger] s[i].0 != "TouchEnable"@ by {
        if i == 0 {
        } else if i == 1 {
        } else if i == 2 {
        } else {
        }
    }
}

proof fn lemma_lacks_empty()
    ensures
        lacks_touch_key(Seq::<(Seq<char>, Seq<char>)>::empty()),
{
}

proof fn lemma_copied_lacks(n: UiNode, label: Seq<char>, key: Seq<char>)
    requires
        label != "TouchEnable"@,
    ensures
        lacks_touch_key(copied_attr(n, label, key)),
{
    if n.attrs@.contains_key(key) {
        lemma_lacks1(label, n.attrs@[key]);
    }
}

proof fn lemma_widget_attrs_lack_touch_key(n: UiNode)
    ensures
        lacks_touch_key(widget_attrs(n)),
        lacks_touch_key(atlas_attrs(n)),
        lacks_touch_key(rotation_attrs(n) + hidden_attrs(n) + z_attrs(n) + flip_attrs(n) + combo_attrs(n)),
{
    reveal_strlit("TouchEnable");
    assert("TouchEnable"@.len() == 11);
    reveal_strlit("ButtonText");
    assert("ButtonText"@.len() == 10);
    reveal_strlit("FontSize");
    assert("FontSize"@.len() == 8);
    reveal_strlit("LabelText");
    assert("LabelText"@.len() == 9);
    reveal_strlit("PlaceHolderText");
    assert("PlaceHolderText"@.len() == 15);
    reveal_strlit("ScrollDirectionType");
    assert("ScrollDirectionType"@.len() == 19);
    reveal_strlit("DirectionType");
    assert("DirectionType"@.len() == 13);
    reveal_strlit("ItemMargin");
    assert("ItemMargin"@.len() == 10);
    reveal_strlit("PercentInfo");
    assert("PercentInfo"@[0] != "TouchEnable"@[0]);
    reveal_strlit("ProgressInfo");
    assert("ProgressInfo"@.len() == 12);
    reveal_strlit("CharWidth");
    assert("CharWidth"@.len() == 9);
    reveal_strlit("CharHeight");
    assert("CharHeight"@.len() == 10);
    reveal_strlit("StartChar");
    assert("StartChar"@.len() == 9);
    reveal_strlit("RotationSkewX");
    assert("RotationSkewX"@.len() == 13);
    reveal_strlit("RotationSkewY");
    assert("RotationSkewY"@.len() == 13);
    reveal_strlit("VisibleForFrame");
    assert("VisibleForFrame"@.len() == 15);
    reveal_strlit("ZOrder");
    assert("ZOrder"@.len() == 6);
    reveal_strlit("FlipX");
    assert("FlipX"@.len() == 5);
    reveal_strlit("FlipY");
    assert("FlipY"@.len() == 5);
    reveal_strlit("ComboBoxIndex");
    assert("ComboBoxIndex"@.len() == 13);
    lemma_lacks_empty();
    let text = attr_or_empty_text(n, "text"@);
    match n.widget {
        WidgetKind::Button => lemma_lacks2("ButtonText"@, text, "FontSize"@, "14"@),
        WidgetKind::Text => lemma_lacks2("LabelText"@, text, "FontSize"@, "20"@),
        WidgetKind::TextField => lemma_lacks3(
            "PlaceHolderText"@,
            attr_or_empty_text(n, "placeholder"@),
            "LabelText"@,
            text,
            "FontSize"@,
            "20"@,
        ),
        WidgetKind::ScrollView => lemma_lacks1("ScrollDirectionType"@, "Vertical"@),
        WidgetKind::ListView => lemma_lacks2(
            "DirectionType"@,
            "Vertical"@,
            "ItemMargin"@,
            int_text(
                match n.layout.item_margin {
                    Some(m) => m as int,
                    None => 0,
                },
            ),
        ),
        WidgetKind::Slider => lemma_lacks1("PercentInfo"@, "50"@),
        WidgetKind::ProgressBar => lemma_lacks1("ProgressInfo"@, int_text(clamp_percent(n.layout.progress as int))),
        WidgetKind::Unknown(_) => lemma_lacks1("LabelText"@, text),
        _ => {},
    }
    assert(lacks_touch_key(widget_attrs(n)));
    let w1 = copied_attr(n, "CharWidth"@, "data-char-width"@);
    let w2 = copied_attr(n, "CharHeight"@, "data-char-height"@);
    let w3 = copied_attr(n, "StartChar"@, "data-start-char"@);
    lemma_copied_lacks(n, "CharWidth"@, "data-char-width"@);
    lemma_copied_lacks(n, "CharHeight"@, "data-char-height"@);
    lemma_copied_lacks(n, "StartChar"@, "data-start-char"@);
    lemma_lacks_touch_key_concat(w1, w2);
    lemma_lacks_touch_key_concat(w1 + w2, w3);
    assert(lacks_touch_key(atlas_attrs(n)));
    reveal(rotation_attrs);
    reveal(hidden_attrs);
    reveal(z_attrs);
    reveal(flip_attrs);
    reveal(combo_attrs);
    let (r, h, z, f, c) = (rotation_attrs(n), hidden_attrs(n), z_attrs(n), flip_attrs(n), combo_attrs(n));
    match n.layout.rotation {
        Some(rot) => lemma_lacks2("RotationSkewX"@, rot@, "RotationSkewY"@, rot@),
        None => {},
    }
    lemma_lacks1("VisibleForFrame"@, "False"@);
    match n.layout.z_order {
        Some(zz) => lemma_lacks1("ZOrder"@, int_text(zz as int)),
        None => {},
    }
    lemma_lacks1("FlipX"@, "True"@);
    lemma_lacks1("FlipY"@, "True"@);
    lemma_lacks1("ComboBoxIndex"@, "1"@);
    assert(lacks_touch_key(r) && lacks_touch_key(h) && lacks_touch_key(z) && lacks_touch_key(c));
    let fx: Seq<(Seq<char>, Seq<char>)> = if n.layout.flip_x { seq![("FlipX"@, "True"@)] } else { seq![] };
    let fy: Seq<(Seq<char>, Seq<char>)> = if n.layout.flip_y { seq![("FlipY"@, "True"@)] } else { seq![] };
    lemma_lacks_touch_key_concat(fx, fy);
    assert(lacks_touch_key(f));
    lemma_lacks_touch_key_concat(r, h);
    lemma_lacks_touch_key_concat(r + h, z);
    lemma_lacks_touch_key_concat(r + h + z, f);
    lemma_lacks_touch_key_concat(r + h + z + f, c);
}

/// A node's element carries a `TouchEnable` attribute exactly when its widget is
/// interactive (button, text field, check box, slider), and then its value is `True`.
pub proof fn touch_enable_iff_interactive(n: UiNode, tag: nat)
    ensures
        object_attrs(n, tag).contains(("TouchEnable"@, "True"@)) <==> interactive_kind(n.widget),
        forall|i: int| 0 <= i < object_attrs(n, tag).len() && #[trigger] object_attrs(n, tag)[i].0 == "TouchEnable"@
            ==> object_attrs(n, tag)[i].1 == "True"@,
{
    reveal(object_attrs);
    reveal(touch_attrs);
    reveal_strlit("TouchEnable");
    reveal_strlit("Name");
    reveal_strlit("ActionTag");
    reveal_strlit("Tag");
    reveal_strlit("ctype");
    lemma_widget_attrs_lack_touch_key(n);
    assert("Name"@.len() == 4);
    assert("ActionTag"@.len() == 9);
    assert("Tag"@.len() == 3);
    assert("ctype"@.len() == 5);
    assert("TouchEnable"@.len() == 11);
    let head: Seq<(Seq<char>, Seq<char>)> = seq![
        ("Name"@, n.name@),
        ("ActionTag"@, int_text(action_tag_of_name(n.name@))),
        ("Tag"@, nat_text(tag)),
        ("ctype"@, ctype_name(n.widget)),
    ];
    lemma_lacks4(
        "Name"@,
        n.name@,
        "ActionTag"@,
        int_text(action_tag_of_name(n.name@)),
        "Tag"@,
        nat_text(tag),
        "ctype"@,
        ctype_name(n.widget),
    );
    let t = touch_attrs(n);
    let rest = rotation_attrs(n) + hidden_attrs(n) + z_attrs(n) + flip_attrs(n) + combo_attrs(n);
    lemma_lacks_touch_key_concat(head, widget_attrs(n));
    lemma_lacks_touch_key_concat(head + widget_attrs(n), atlas_attrs(n));
    let pre = head + widget_attrs(n) + atlas_attrs(n);
    let all = object_attrs(n, tag);
    assert(flag_attrs(n) =~= t + rest);
    assert(all =~= pre + t + rest);
    if interactive_kind(n.widget) {
        reveal_strlit("True");
        assert(t =~= seq![("TouchEnable"@, "True"@)]);
        assert(all[pre.len() as int] == ("TouchEnable"@, "True"@));
        assert(all.contains(("TouchEnable"@, "True"@)));
    }
    assert forall|i: int| 0 <= i < all.len() && #[trigger] all[i].0 == "TouchEnable"@
        implies all[i].1 == "True"@ && interactive_kind(n.widget) by {
        if i < pre.len() {
            assert(all[i] == pre[i]);
        } else if i < pre.len() + t.len() {
            assert(all[i] == t[i - pre.len()]);
        } else {
            assert(all[i] == rest[i - pre.len() - t.len()]);
        }
    }
    if all.contains(("TouchEnable"@, "True"@)) {
        let i = choose|i: int| 0 <= i < all.len() && all[i] == ("TouchEnable"@, "True"@);
        assert(all[i].0 == "TouchEnable"@);
    }
}

// ───────────────────────────── what each element carries ─────────────────────────────

/// The `CColor` element carries the opacity as `A` (255 when none is given) and the
/// red, green and blue components of the text colour as `R`, `G`, `B`, in that
/// order (white when no colour is given).
pub proof fn color_carries_components_in_order(n: UiNode, indent: nat)
    ensures
        ({
            let c = n.layout.color.unwrap();
            let a = n.layout.alpha.unwrap();
            n.layout.color is Some && n.layout.alpha is Some ==> color_line(n, indent) == leaf_line(
                indent,
                "CColor"@,
                seq![("A"@, nat_text(a as nat)), ("R"@, nat_text(c.0 as nat)), ("G"@, nat_text(c.1 as nat)), ("B"@, nat_text(c.2 as nat))],
            )
        }),
        ({
            let c = n.layout.color.unwrap();
            n.layout.color is Some && n.layout.alpha is None ==> color_line(n, indent) == leaf_line(
                indent,
                "CColor"@,
                seq![("A"@, nat_text(255)), ("R"@, nat_text(c.0 as nat)), ("G"@, nat_text(c.1 as nat)), ("B"@, nat_text(c.2 as nat))],
            )
        }),
        ({
            let a = n.layout.alpha.unwrap();
            n.layout.color is None && n.layout.alpha is Some ==> color_line(n, indent) == leaf_line(
                indent,
                "CColor"@,
                seq![("A"@, nat_text(a as nat)), ("R"@, nat_text(255)), ("G"@, nat_text(255)), ("B"@, nat_text(255))],
            )
        }),
        n.layout.color is None && n.layout.alpha is None ==> color_line(n, indent) == leaf_line(
            indent,
            "CColor"@,
            seq![("A"@, nat_text(255)), ("R"@, nat_text(255)), ("G"@, nat_text(255)), ("B"@, nat_text(255))],
        ),
{
}

/// The base properties come in the order Position, Scale, AnchorPoint, CColor,
/// Size, PrePosition, PreSize; each pair element carries the first coordinate as
/// `X` (`ScaleX`) and the second as `Y` (`ScaleY`).
pub proof fn base_properties_in_order(n: UiNode, indent: nat)
    ensures
        base_text(n, indent) == leaf_line(indent, "Position"@, seq![("X"@, n.layout.geometry.position.0@), ("Y"@, n.layout.geometry.position.1@)])
            + leaf_line(indent, "Scale"@, seq![("ScaleX"@, n.layout.geometry.scale.0@), ("ScaleY"@, n.layout.geometry.scale.1@)])
            + leaf_line(indent, "AnchorPoint"@, seq![("ScaleX"@, n.layout.geometry.anchor.0@), ("ScaleY"@, n.layout.geometry.anchor.1@)])
            + color_line(n, indent)
            + leaf_line(indent, "Size"@, seq![("X"@, n.layout.geometry.size.0@), ("Y"@, n.layout.geometry.size.1@)])
            + leaf_line(indent, "PrePosition"@, seq![("X"@, n.layout.geometry.pre_position.0@), ("Y"@, n.layout.geometry.pre_position.1@)])
            + leaf_line(indent, "PreSize"@, seq![("X"@, n.layout.geometry.pre_size.0@), ("Y"@, n.layout.geometry.pre_size.1@)]),
{
    reveal(base_text);
}

/// A panel with a background colour `(r, g, b, a)` writes, after its optional
/// background image, `SingleColor` with `R`, `G`, `B` in that order and then
/// `BackColorAlpha` with the alpha; a panel without one writes only the image.
pub proof fn panel_background_color_in_order(n: UiNode, indent: nat)
    requires
        n.widget is Layout,
    ensures
        ({
            let c = n.layout.background_color.unwrap();
            n.layout.background_color is Some ==> widget_text(n, indent) == file_line(indent, "FileData"@, image_of(n))
                + leaf_line(indent, "SingleColor"@, seq![("R"@, nat_text(c.0 as nat)), ("G"@, nat_text(c.1 as nat)), ("B"@, nat_text(c.2 as nat))])
                + leaf_line(indent, "BackColorAlpha"@, seq![("Value"@, nat_text(c.3 as nat))])
        }),
        n.layout.background_color is None ==> widget_text(n, indent) == file_line(indent, "FileData"@, image_of(n)),
{
    reveal(widget_text);
    if n.layout.background_color is None {
        assert(widget_text(n, indent) =~= file_line(indent, "FileData"@, image_of(n)));
    }
}

/// The image elements of each widget kind: an image, a scroll or list view, a
/// sprite and any other widget use `FileData`; a button uses `NormalFileData`,
/// `PressedFileData` (from `data-pressed`) and `DisabledFileData` (from
/// `data-disabled`); scroll and list views add an `InnerNodeSize` of zero; a
/// project node prefers `data-file`; bitmap-font and atlas labels name their font
/// file. The image is `src`, else the background image.
pub proof fn widget_elements_table(n: UiNode, indent: nat)
    ensures
        image_of(n) == (if n.attrs@.contains_key("src"@) {
            Some(n.attrs@["src"@])
        } else {
            match n.layout.background_image {
                Some(s) => Some(s@),
                None => None,
            }
        }),
        n.widget is Image ==> widget_text(n, indent) == file_line(indent, "FileData"@, image_of(n)),
        n.widget is Button ==> widget_text(n, indent) == file_line(indent, "NormalFileData"@, image_of(n))
            + file_line(indent, "PressedFileData"@, attr_value(n, "data-pressed"@))
            + file_line(indent, "DisabledFileData"@, attr_value(n, "data-disabled"@)),
        n.widget is ScrollView || n.widget is ListView ==> widget_text(n, indent) == file_line(indent, "FileData"@, image_of(n))
            + leaf_line(indent, "InnerNodeSize"@, seq![("Width"@, "0.0000"@), ("Height"@, "0.0000"@)]),
        (n.widget is Text || n.widget is TextField || n.widget is CheckBox || n.widget is Slider || n.widget is ProgressBar)
            ==> widget_text(n, indent) == file_line(indent, "FileData"@, image_of(n)),
        is_named(n.widget, "Sprite"@) ==> widget_text(n, indent) == file_line(indent, "FileData"@, image_of(n)),
        is_named(n.widget, "ProjectNode"@) ==> widget_text(n, indent) == file_line(
            indent,
            "FileData"@,
            if n.attrs@.contains_key("data-file"@) { Some(n.attrs@["data-file"@]) } else { image_of(n) },
        ),
        is_named(n.widget, "TextBMFont"@) ==> widget_text(n, indent) == file_line(indent, "LabelBMFontFile_CNB"@, attr_value(n, "data-fnt-file"@)),
        is_named(n.widget, "TextAtlas"@) ==> widget_text(n, indent) == file_line(indent, "LabelAtlasFileImage_CNB"@, attr_value(n, "data-atlas-file"@)),
        (n.widget is Unknown && !is_named(n.widget, "Sprite"@) && !is_named(n.widget, "ProjectNode"@)
            && !is_named(n.widget, "TextBMFont"@) && !is_named(n.widget, "TextAtlas"@))
            ==> widget_text(n, indent) == file_line(indent, "FileData"@, image_of(n)),
        forall|name: Seq<char>, p: Seq<char>| #[trigger] file_line(indent, name, Some(p)) == leaf_line(indent, name, seq![("Path"@, p), ("Type"@, "Normal"@)]),
        forall|name: Seq<char>| #[trigger] file_line(indent, name, None) == Seq::<char>::empty(),
{
    reveal(widget_text);
    reveal_strlit("Sprite");
    reveal_strlit("ProjectNode");
    reveal_strlit("TextBMFont");
    reveal_strlit("TextAtlas");
    assert("Sprite"@.len() == 6);
    assert("ProjectNode"@.len() == 11);
    assert("TextBMFont"@.len() == 10);
    assert("TextAtlas"@.len() == 9);
}

/// The widget-specific attributes of each kind: a button shows its `text` as
/// `ButtonText` in size 14; a label its `text` as `LabelText` in size 20; a text
/// field its `placeholder` and `text` in size 20; a scroll view scrolls
/// vertically; a list view lays out vertically with the item margin (0 when no
/// gap is given); a slider starts at 50 percent; a progress bar shows its
/// percentage clamped to 0..=100; bitmap-font and atlas labels show their `text`.
/// An absent `text` or `placeholder` shows as empty.
pub proof fn widget_attrs_table(n: UiNode)
    ensures
        attr_or_empty_text(n, "text"@) == (if n.attrs@.contains_key("text"@) { n.attrs@["text"@] } else { Seq::<char>::empty() }),
        n.widget is Button ==> widget_attrs(n) == seq![("ButtonText"@, attr_or_empty_text(n, "text"@)), ("FontSize"@, "14"@)],
        n.widget is Text ==> widget_attrs(n) == seq![("LabelText"@, attr_or_empty_text(n, "text"@)), ("FontSize"@, "20"@)],
        n.widget is TextField ==> widget_attrs(n) == seq![
            ("PlaceHolderText"@, attr_or_empty_text(n, "placeholder"@)),
            ("LabelText"@, attr_or_empty_text(n, "text"@)),
            ("FontSize"@, "20"@),
        ],
        n.widget is ScrollView ==> widget_attrs(n) == seq![("ScrollDirectionType"@, "Vertical"@)],
        n.widget is ListView && n.layout.item_margin is None ==> widget_attrs(n) == seq![("DirectionType"@, "Vertical"@), ("ItemMargin"@, int_text(0))],
        n.widget is ListView && n.layout.item_margin is Some ==> widget_attrs(n) == seq![
            ("DirectionType"@, "Vertical"@),
            ("ItemMargin"@, int_text(n.layout.item_margin.unwrap() as int)),
        ],
        n.widget is Slider ==> widget_attrs(n) == seq![("PercentInfo"@, "50"@)],
        n.widget is ProgressBar && 0 <= n.layout.progress <= 100 ==> widget_attrs(n) == seq![("ProgressInfo"@, int_text(n.layout.progress as int))],
        n.widget is ProgressBar && n.layout.progress < 0 ==> widget_attrs(n) == seq![("ProgressInfo"@, int_text(0))],
        n.widget is ProgressBar && n.layout.progress > 100 ==> widget_attrs(n) == seq![("ProgressInfo"@, int_text(100))],
        (is_named(n.widget, "TextBMFont"@) || is_named(n.widget, "TextAtlas"@)) ==> widget_attrs(n) == seq![("LabelText"@, attr_or_empty_text(n, "text"@))],
        (n.widget is Layout || n.widget is Image || n.widget is CheckBox || (n.widget is Unknown
            && !is_named(n.widget, "TextBMFont"@) && !is_named(n.widget, "TextAtlas"@))) ==> widget_attrs(n) == Seq::<(Seq<char>, Seq<char>)>::empty(),
{
    if n.widget is Layout || n.widget is Image || n.widget is CheckBox {
        assert(widget_attrs(n) =~= Seq::<(Seq<char>, Seq<char>)>::empty());
    }
    if n.widget is Unknown && !is_named(n.widget, "TextBMFont"@) && !is_named(n.widget, "TextAtlas"@) {
        assert(widget_attrs(n) =~= Seq::<(Seq<char>, Seq<char>)>::empty());
    }
}

/// The flag attributes: `TouchEnable="True"` for buttons, text fields, check boxes
/// and sliders; the rotation text as both `RotationSkewX` and `RotationSkewY`;
/// `VisibleForFrame="False"` exactly for a node made invisible; the z-order as
/// `ZOrder`; `FlipX`/`FlipY` for the flipped axes; `ComboBoxIndex="1"` for a panel
/// with a background colour. Each appears only under its condition, in this order.
pub proof fn flag_attrs_table(n: UiNode)
    ensures
        flag_attrs(n) == (if n.widget is Button || n.widget is TextField || n.widget is CheckBox || n.widget is Slider {
            seq![("TouchEnable"@, "True"@)]
        } else {
            seq![]
        }) + (match n.layout.rotation {
            Some(r) => seq![("RotationSkewX"@, r@), ("RotationSkewY"@, r@)],
            None => seq![],
        }) + (if n.layout.visible == Some(false) {
            seq![("VisibleForFrame"@, "False"@)]
        } else {
            seq![]
        }) + (match n.layout.z_order {
            Some(z) => seq![("ZOrder"@, int_text(z as int))],
            None => seq![],
        }) + (if n.layout.flip_x {
            seq![("FlipX"@, "True"@)]
        } else {
            seq![]
        }) + (if n.layout.flip_y {
            seq![("FlipY"@, "True"@)]
        } else {
            seq![]
        }) + (if n.widget is Layout && n.layout.background_color is Some {
            seq![("ComboBoxIndex"@, "1"@)]
        } else {
            seq![]
        }),
{
    reveal(touch_attrs);
    reveal(rotation_attrs);
    reveal(hidden_attrs);
    reveal(z_attrs);
    reveal(flip_attrs);
    reveal(combo_attrs);
    assert(flag_attrs(n) =~= touch_attrs(n) + rotation_attrs(n) + hidden_attrs(n) + z_attrs(n) + flip_attrs(n) + combo_attrs(n));
}

/// A node's `ObjectData` attributes start with its name, ActionTag, Tag number and
/// Cocos type, then the widget-specific attributes, the atlas glyph attributes
/// (only for a `TextAtlas`: `CharWidth`, `CharHeight`, `StartChar` from
/// `data-char-width`, `data-char-height`, `data-start-char` where given), then the flags.
pub proof fn object_attrs_in_order(n: UiNode, tag: nat)
    ensures
        object_attrs(n, tag) == seq![
            ("Name"@, n.name@),
            ("ActionTag"@, int_text(action_tag_of_name(n.name@))),
            ("Tag"@, nat_text(tag)),
            ("ctype"@, ctype_name(n.widget)),
        ] + widget_attrs(n) + atlas_attrs(n) + flag_attrs(n),
        !is_named(n.widget, "TextAtlas"@) ==> atlas_attrs(n) == Seq::<(Seq<char>, Seq<char>)>::empty(),
        is_named(n.widget, "TextAtlas"@) ==> atlas_attrs(n) == copied_attr(n, "CharWidth"@, "data-char-width"@)
            + copied_attr(n, "CharHeight"@, "data-char-height"@) + copied_attr(n, "StartChar"@, "data-start-char"@),
        forall|label: Seq<char>, key: Seq<char>| #[trigger] copied_attr(n, label, key) == (if n.attrs@.contains_key(key) {
            seq![(label, n.attrs@[key])]
        } else {
            Seq::<(Seq<char>, Seq<char>)>::empty()
        }),
{
    reveal(object_attrs);
    if !is_named(n.widget, "TextAtlas"@) {
        assert(atlas_attrs(n) =~= Seq::<(Seq<char>, Seq<char>)>::empty());
    }
    assert forall|label: Seq<char>, key: Seq<char>| #[trigger] copied_attr(n, label, key) == (if n.attrs@.contains_key(key) {
        seq![(label, n.attrs@[key])]
    } else {
        Seq::<(Seq<char>, Seq<char>)>::empty()
    }) by {
        if !n.attrs@.contains_key(key) {
            assert(copied_attr(n, label, key) =~= Seq::<(Seq<char>, Seq<char>)>::empty());
        }
    }
}

/// A node is written as its `ObjectData` opening line (numbered `tag`), then one
/// level deeper its base properties and widget elements, then (only when it has
/// children) a `Children` element one level deeper holding the children two
/// levels deeper, numbered from `tag + 1`, and last its `ObjectData` closing line.
pub proof fn node_layout(n: UiNode, tag: nat, indent: nat)
    ensures
        n.children@.len() > 0 ==> node_text(n, tag, indent) == open_line(indent, "ObjectData"@, object_attrs(n, tag))
            + base_text(n, indent + 1) + widget_text(n, indent + 1) + open_line(indent + 1, "Children"@, seq![])
            + children_text(n.children@, tag + 1, indent + 2) + close_line(indent + 1, "Children"@)
            + close_line(indent, "ObjectData"@),
        n.children@.len() == 0 ==> node_text(n, tag, indent) == open_line(indent, "ObjectData"@, object_attrs(n, tag))
            + base_text(n, indent + 1) + widget_text(n, indent + 1) + close_line(indent, "ObjectData"@),
{
    if n.children@.len() == 0 {
        let head = open_line(indent, "ObjectData"@, object_attrs(n, tag)) + base_text(n, indent + 1) + widget_text(n, indent + 1);
        assert(head + Seq::<char>::empty() =~= head);
    }
}

/// Siblings are written one after the other, in order, all at the same level;
/// each sibling is numbered after every node of the siblings before it.
pub proof fn siblings_numbered_in_preorder(cs: Seq<UiNode>, tag: nat, indent: nat, k: int)
    requires
        0 <= k < cs.len(),
    ensures
        children_text(cs.take(k + 1), tag, indent) == children_text(cs.take(k), tag, indent)
            + node_text(cs[k], tag + forest_count(cs.take(k)), indent),
        forest_count(cs.take(k + 1)) == forest_count(cs.take(k)) + node_count(cs[k]),
        children_text(cs.take(0), tag, indent) == Seq::<char>::empty(),
        cs.take(cs.len() as int) == cs,
        node_count(cs[k]) >= 1,
{
    assert(cs.take(k + 1).drop_last() =~= cs.take(k));
    assert(cs.take(k + 1).last() == cs[k]);
    assert(cs.take(cs.len() as int) =~= cs);
}

/// The document: the XML declaration; `GameProjectFile` holding a `PropertyGroup`
/// (type `Node`, the root's name, the project ID, version 2.1.0.0) and a `Content`
/// element of type `GameProjectContent` whose inner `Content` holds an `Animation`
/// (duration 0, speed 1.0000) and the scene, its root numbered 1, three levels deep.
pub proof fn document_layout(root: UiNode, id: Seq<char>)
    ensures
        document_text(root, id) == seq!['<', '?', 'x', 'm', 'l', ' ', 'v', 'e', 'r', 's', 'i', 'o', 'n', '=', '"', '1', '.', '0', '"', ' ', 'e', 'n', 'c', 'o', 'd', 'i', 'n', 'g', '=', '"', 'u', 't', 'f', '-', '8', '"', '?', '>', '\n']
            + open_line(0, "GameProjectFile"@, seq![])
            + leaf_line(1, "PropertyGroup"@, seq![("Type"@, "Node"@), ("Name"@, root.name@), ("ID"@, id), ("Version"@, "2.1.0.0"@)])
            + open_line(1, "Content"@, seq![("ctype"@, "GameProjectContent"@)]) + open_line(2, "Content"@, seq![])
            + leaf_line(3, "Animation"@, seq![("Duration"@, "0"@), ("Speed"@, "1.0000"@)]) + node_text(root, 1, 3)
            + close_line(2, "Content"@) + close_line(1, "Content"@) + close_line(0, "GameProjectFile"@),
{
    reveal_strlit("<?xml version=\"1.0\" encoding=\"utf-8\"?>\n");
    assert("<?xml version=\"1.0\" encoding=\"utf-8\"?>\n"@ =~= seq!['<', '?', 'x', 'm', 'l', ' ', 'v', 'e', 'r', 's', 'i', 'o', 'n', '=', '"', '1', '.', '0', '"', ' ', 'e', 'n', 'c', 'o', 'd', 'i', 'n', 'g', '=', '"', 'u', 't', 'f', '-', '8', '"', '?', '>', '\n']);
}

// ───────────────────────────── lemmas on trees ─────────────────────────────

proof fn lemma_forest_count_prefix(cs: Seq<UiNode>, i: int)
    requires
        0 <= i <= cs.len(),
    ensures
        forest_count(cs.take(i)) <= forest_count(cs),
    decreases cs.len(),
{
    if i < cs.len() {
        assert(cs.drop_last().take(i) =~= cs.take(i));
        lemma_forest_count_prefix(cs.drop_last(), i);
    } else {
        assert(cs.take(i) =~= cs);
    }
}

proof fn lemma_forest_depth_member(cs: Seq<UiNode>, i: int)
    requires
        0 <= i < cs.len(),
    ensures
        node_depth(cs[i]) <= forest_depth(cs),
    decreases cs.len(),
{
    if i < cs.len() - 1 {
        assert(cs.drop_last()[i] == cs[i]);
        lemma_forest_depth_member(cs.drop_last(), i);
    }
}

// ───────────────────────────── the writer ─────────────────────────────

/// Cocos Studio `.csd` XML backend.
///
/// Geometry arrives resolved on each node, so the backend itself holds no settings.
pub struct CocosBackend {}

fn push_attr<'a>(attrs: &mut Vec<(&'a str, &'a str)>, k: &'a str, v: &'a str)
    ensures
        attr_views(final(attrs)@) == attr_views(old(attrs)@).push((k@, v@)),
{
    attrs.push((k, v));
    assert(attr_views(attrs@) =~= attr_views(old(attrs)@).push((k@, v@)));
}

fn attr_or_empty(attrs: &Attrs, key: &str) -> (s: String)
    ensures
        s@ == (if attrs@.contains_key(key@) { attrs@[key@] } else { Seq::empty() }),
{
    match attrs.get(key) {
        Some(v) => v.clone(),
        None => String::new(),
    }
}

fn push_widget_attrs<'a>(
    node: &'a UiNode,
    attrs: &mut Vec<(&'a str, &'a str)>,
    text: &'a str,
    placeholder: &'a str,
    margin: &'a str,
    progress: &'a str,
)
    requires
        text@ == attr_or_empty_text(*node, "text"@),
        placeholder@ == attr_or_empty_text(*node, "placeholder"@),
        margin@ == int_text(
            match node.layout.item_margin {
                Some(m) => m as int,
                None => 0,
            },
        ),
        progress@ == int_text(clamp_percent(node.layout.progress as int)),
    ensures
        attr_views(final(attrs)@) == attr_views(old(attrs)@) + widget_attrs(*node),
{
    let ghost start = attr_views(attrs@);
    match &node.widget {
        WidgetKind::Button => {
            push_attr(attrs, "ButtonText", text);
            push_attr(attrs, "FontSize", "14");
        },
        WidgetKind::Text => {
            push_attr(attrs, "LabelText", text);
            push_attr(attrs, "FontSize", "20");
        },
        WidgetKind::TextField => {
            push_attr(attrs, "PlaceHolderText", placeholder);
            push_attr(attrs, "LabelText", text);
            push_attr(attrs, "FontSize", "20");
        },
        WidgetKind::ScrollView => {
            push_attr(attrs, "ScrollDirectionType", "Vertical");
        },
        WidgetKind::ListView => {
            push_attr(attrs, "DirectionType", "Vertical");
            push_attr(attrs, "ItemMargin", margin);
        },
        WidgetKind::Slider => {
            push_attr(attrs, "PercentInfo", "50");
        },
        WidgetKind::ProgressBar => {
            push_attr(attrs, "ProgressInfo", progress);
        },
        WidgetKind::Unknown(name) => {
            if text_eq(name.as_str(), "TextBMFont") || text_eq(name.as_str(), "TextAtlas") {
                push_attr(attrs, "LabelText", text);
            }
        },
        _ => {},
    }
    assert(attr_views(attrs@) =~= start + widget_attrs(*node));
}

fn push_copied_attr<'a>(node: &'a UiNode, attrs: &mut Vec<(&'a str, &'a str)>, label: &'a str, key: &str)
    ensures
        attr_views(final(attrs)@) == attr_views(old(attrs)@) + copied_attr(*node, label@, key@),
{
    let ghost start = attr_views(attrs@);
    match node.attrs.get(key) {
        Some(v) => {
            push_attr(attrs, label, v.as_str());
        },
        None => {},
    }
    assert(attr_views(attrs@) =~= start + copied_attr(*node, label@, key@));
}

fn push_atlas_attrs<'a>(node: &'a UiNode, attrs: &mut Vec<(&'a str, &'a str)>)
    ensures
        attr_views(final(attrs)@) == attr_views(old(attrs)@) + atlas_attrs(*node),
{
    let ghost start = attr_views(attrs@);
    let atlas = match &node.widget {
        WidgetKind::Unknown(name) => text_eq(name.as_str(), "TextAtlas"),
        _ => false,
    };
    if atlas {
        push_copied_attr(node, attrs, "CharWidth", "data-char-width");
        push_copied_attr(node, attrs, "CharHeight", "data-char-height");
        push_copied_attr(node, attrs, "StartChar", "data-start-char");
    }
    assert(attr_views(attrs@) =~= start + atlas_attrs(*node));
}

fn push_touch_attrs<'a>(node: &'a UiNode, attrs: &mut Vec<(&'a str, &'a str)>)
    ensures
        attr_views(final(attrs)@) == attr_views(old(attrs)@) + touch_attrs(*node),
{
    let ghost s0 = attr_views(attrs@);
    proof {
        reveal(touch_attrs);
    }
    if is_interactive(&node.widget) {
        push_attr(attrs, "TouchEnable", "True");
    }
    assert(attr_views(attrs@) =~= s0 + touch_attrs(*node));
}

fn push_rotation_attrs<'a>(node: &'a UiNode, attrs: &mut Vec<(&'a str, &'a str)>)
    ensures
        attr_views(final(attrs)@) == attr_views(old(attrs)@) + rotation_attrs(*node),
{
    let ghost s0 = attr_views(attrs@);
    proof {
        reveal(rotation_attrs);
    }
    match &node.layout.rotation {
        Some(r) => {
            push_attr(attrs, "RotationSkewX", r.as_str());
            push_attr(attrs, "RotationSkewY", r.as_str());
        },
        None => {},
    }
    assert(attr_views(attrs@) =~= s0 + rotation_attrs(*node));
}

fn push_hidden_attrs<'a>(node: &'a UiNode, attrs: &mut Vec<(&'a str, &'a str)>)
    ensures
        attr_views(final(attrs)@) == attr_views(old(attrs)@) + hidden_attrs(*node),
{
    let ghost s0 = attr_views(attrs@);
    proof {
        reveal(hidden_attrs);
    }
    match node.layout.visible {
        Some(v) => {
            if !v {
                push_attr(attrs, "VisibleForFrame", "False");
            }
        },
        None => {},
    }
    assert(attr_views(attrs@) =~= s0 + hidden_attrs(*node));
}

fn push_z_attrs<'a>(node: &'a UiNode, attrs: &mut Vec<(&'a str, &'a str)>, z_text: &'a str)
    requires
        node.layout.z_order matches Some(z) ==> z_text@ == int_text(z as int),
    ensures
        attr_views(final(attrs)@) == attr_views(old(attrs)@) + z_attrs(*node),
{
    let ghost s0 = attr_views(attrs@);
    proof {
        reveal(z_attrs);
    }
    match node.layout.z_order {
        Some(_) => {
            push_attr(attrs, "ZOrder", z_text);
        },
        None => {},
    }
    assert(attr_views(attrs@) =~= s0 + z_attrs(*node));
}

fn push_flip_attrs<'a>(node: &'a UiNode, attrs: &mut Vec<(&'a str, &'a str)>)
    ensures
        attr_views(final(attrs)@) == attr_views(old(attrs)@) + flip_attrs(*node),
{
    let ghost s0 = attr_views(attrs@);
    proof {
        reveal(flip_attrs);
    }
    if node.layout.flip_x {
        push_attr(attrs, "FlipX", "True");
    }
    if node.layout.flip_y {
        push_attr(attrs, "FlipY", "True");
    }
    assert(attr_views(attrs@) =~= s0 + flip_attrs(*node));
}

fn push_combo_attrs<'a>(node: &'a UiNode, attrs: &mut Vec<(&'a str, &'a str)>)
    ensures
        attr_views(final(attrs)@) == attr_views(old(attrs)@) + combo_attrs(*node),
{
    let ghost s0 = attr_views(attrs@);
    proof {
        reveal(combo_attrs);
    }
    let combo = match &node.widget {
        WidgetKind::Layout(_) => node.layout.background_color.is_some(),
        _ => false,
    };
    if combo {
        push_attr(attrs, "ComboBoxIndex", "1");
    }
    assert(attr_views(attrs@) =~= s0 + combo_attrs(*node));
}

fn push_flag_attrs<'a>(node: &'a UiNode, attrs: &mut Vec<(&'a str, &'a str)>, z_text: &'a str)
    requires
        node.layout.z_order matches Some(z) ==> z_text@ == int_text(z as int),
    ensures
        attr_views(final(attrs)@) == attr_views(old(attrs)@) + flag_attrs(*node),
{
    let ghost s0 = attr_views(attrs@);
    push_touch_attrs(node, attrs);
    push_rotation_attrs(node, attrs);
    push_hidden_attrs(node, attrs);
    push_z_attrs(node, attrs, z_text);
    push_flip_attrs(node, attrs);
    push_combo_attrs(node, attrs);
    assert(attr_views(attrs@) =~= s0 + flag_attrs(*node));
}

/// The characters of an optional string.
pub open spec fn opt_text(o: Option<&String>) -> Option<Seq<char>> {
    match o {
        Some(s) => Some(s@),
        None => None,
    }
}

fn pair_tag(w: &mut XmlWriter, name: &str, kx: &str, ky: &str, xy: &(String, String))
    ensures
        final(w).text() == old(w).text() + pair_line(old(w).depth(), name@, kx@, ky@, *xy),
        final(w).depth() == old(w).depth(),
{
    let mut attrs: Vec<(&str, &str)> = Vec::new();
    push_attr(&mut attrs, kx, xy.0.as_str());
    push_attr(&mut attrs, ky, xy.1.as_str());
    assert(attr_views(attrs@) =~= seq![(kx@, xy.0@), (ky@, xy.1@)]);
    w.self_closing_tag(name, attrs.as_slice());
}

fn file_tag(w: &mut XmlWriter, name: &str, path: Option<&String>)
    ensures
        final(w).text() == old(w).text() + file_line(old(w).depth(), name@, opt_text(path)),
        final(w).depth() == old(w).depth(),
{
    match path {
        Some(p) => {
            let mut attrs: Vec<(&str, &str)> = Vec::new();
            push_attr(&mut attrs, "Path", p.as_str());
            push_attr(&mut attrs, "Type", "Normal");
            assert(attr_views(attrs@) =~= seq![("Path"@, p@), ("Type"@, "Normal"@)]);
            w.self_closing_tag(name, attrs.as_slice());
        },
        None => {
            assert(w.text() =~= old(w).text() + Seq::<char>::empty());
        },
    }
}

fn color_tag(node: &UiNode, w: &mut XmlWriter)
    ensures
        final(w).text() == old(w).text() + color_line(*node, old(w).depth()),
        final(w).depth() == old(w).depth(),
{
    let a: u8 = match node.layout.alpha {
        Some(a) => a,
        None => 255,
    };
    let c: (u8, u8, u8) = match node.layout.color {
        Some(c) => c,
        None => (255, 255, 255),
    };
    let a_s = u64_text(a as u64);
    let r_s = u64_text(c.0 as u64);
    let g_s = u64_text(c.1 as u64);
    let b_s = u64_text(c.2 as u64);
    let mut attrs: Vec<(&str, &str)> = Vec::new();
    push_attr(&mut attrs, "A", a_s.as_str());
    push_attr(&mut attrs, "R", r_s.as_str());
    push_attr(&mut attrs, "G", g_s.as_str());
    push_attr(&mut attrs, "B", b_s.as_str());
    assert(attr_views(attrs@) =~= seq![("A"@, a_s@), ("R"@, r_s@), ("G"@, g_s@), ("B"@, b_s@)]);
    w.self_closing_tag("CColor", attrs.as_slice());
}

impl CocosBackend {
    /// The file extension of the documents this backend writes.
    pub fn extension(&self) -> (e: &'static str)
        ensures
            e@ == "csd"@,
    {
        "csd"
    }

    /// The `.csd` document for the scene rooted at `root`, with the given project ID.
    pub fn emit_document_with_id(&self, root: &UiNode, project_id: &str) -> (xml: String)
        requires
            fits_emitter(*root),
        ensures
            xml@ == document_text(*root, project_id@),
    {
        let mut w = XmlWriter::new();
        let no_attrs: Vec<(&str, &str)> = Vec::new();
        assert(attr_views(no_attrs@) =~= seq![]);
        w.raw("<?xml version=\"1.0\" encoding=\"utf-8\"?>\n");
        w.open_tag("GameProjectFile", no_attrs.as_slice());
        let mut group: Vec<(&str, &str)> = Vec::new();
        push_attr(&mut group, "Type", "Node");
        push_attr(&mut group, "Name", root.name.as_str());
        push_attr(&mut group, "ID", project_id);
        push_attr(&mut group, "Version", "2.1.0.0");
        assert(attr_views(group@) =~= seq![("Type"@, "Node"@), ("Name"@, root.name@), ("ID"@, project_id@), ("Version"@, "2.1.0.0"@)]);
        w.self_closing_tag("PropertyGroup", group.as_slice());
        let mut content: Vec<(&str, &str)> = Vec::new();
        push_attr(&mut content, "ctype", "GameProjectContent");
        assert(attr_views(content@) =~= seq![("ctype"@, "GameProjectContent"@)]);
        w.open_tag("Content", content.as_slice());
        w.open_tag("Content", no_attrs.as_slice());
        let mut animation: Vec<(&str, &str)> = Vec::new();
        push_attr(&mut animation, "Duration", "0");
        push_attr(&mut animation, "Speed", "1.0000");
        assert(attr_views(animation@) =~= seq![("Duration"@, "0"@), ("Speed"@, "1.0000"@)]);
        w.self_closing_tag("Animation", animation.as_slice());
        let mut tag_counter: u32 = 1;
        self.emit_node(root, &mut w, &mut tag_counter);
        w.close_tag("Content");
        w.close_tag("Content");
        w.close_tag("GameProjectFile");
        let xml = w.finish();
        assert(xml@ =~= document_text(*root, project_id@));
        xml
    }

    /// The `.csd` document for the scene rooted at `root`, under a fresh random project ID.
    pub fn emit_document(&self, root: &UiNode) -> (xml: String)
        requires
            fits_emitter(*root),
        ensures
            exists|id: Seq<char>| is_uuid_v4_text(id) && xml@ == document_text(*root, id),
    {
        let project_id = new_project_id();
        self.emit_document_with_id(root, project_id.as_str())
    }

    /// Writes the line that opens a node's `ObjectData` element.
    fn open_object(&self, node: &UiNode, w: &mut XmlWriter, tag: u32)
        requires
            old(w).depth() < usize::MAX,
        ensures
            final(w).text() == old(w).text() + open_line(old(w).depth(), "ObjectData"@, object_attrs(*node, tag as nat)),
            final(w).depth() == old(w).depth() + 1,
    {
        let ctype = ctype_for(&node.widget);
        let action_tag = i64_text(action_tag_from_name(node.name.as_str()) as i64);
        let tag_str = u64_text(tag as u64);
        let text_val = attr_or_empty(&node.attrs, "text");
        let placeholder_val = attr_or_empty(&node.attrs, "placeholder");
        let margin: i32 = match node.layout.item_margin {
            Some(m) => m,
            None => 0,
        };
        let margin_str = i64_text(margin as i64);
        let progress_str = compute_progress_percent(node.layout.progress);
        let z_str = match node.layout.z_order {
            Some(z) => i64_text(z as i64),
            None => String::new(),
        };

        let mut attrs: Vec<(&str, &str)> = Vec::new();
        push_attr(&mut attrs, "Name", node.name.as_str());
        push_attr(&mut attrs, "ActionTag", action_tag.as_str());
        push_attr(&mut attrs, "Tag", tag_str.as_str());
        push_attr(&mut attrs, "ctype", ctype);
        let ghost head = attr_views(attrs@);
        assert(head =~= seq![
            ("Name"@, node.name@),
            ("ActionTag"@, int_text(action_tag_of_name(node.name@))),
            ("Tag"@, nat_text(tag as nat)),
            ("ctype"@, ctype_name(node.widget)),
        ]);
        push_widget_attrs(
            node,
            &mut attrs,
            text_val.as_str(),
            placeholder_val.as_str(),
            margin_str.as_str(),
            progress_str.as_str(),
        );
        push_atlas_attrs(node, &mut attrs);
        push_flag_attrs(node, &mut attrs, z_str.as_str());
        assert(attr_views(attrs@) =~= object_attrs(*node, tag as nat)) by {
            reveal(object_attrs);
        }
        w.open_tag("ObjectData", attrs.as_slice());
    }

    /// Writes a node and its subtree, numbering them from `*tag_counter` in pre-order.
    fn emit_node(&self, node: &UiNode, w: &mut XmlWriter, tag_counter: &mut u32)
        requires
            old(w).depth() + 2 * node_depth(*node) <= usize::MAX,
            *old(tag_counter) + node_count(*node) <= u32::MAX,
        ensures
            final(w).text() == old(w).text() + node_text(*node, *old(tag_counter) as nat, old(w).depth()),
            final(w).depth() == old(w).depth(),
            *final(tag_counter) == *old(tag_counter) + node_count(*node),
        decreases node, 1nat,
    {
        let ghost t0 = w.text();
        let ghost d = w.depth();
        let ghost tag = *tag_counter as nat;
        self.open_object(node, w, *tag_counter);
        *tag_counter = *tag_counter + 1;
        self.emit_base_properties(node, w);
        self.emit_widget_elements(node, w);
        if node.children.len() > 0 {
            let no_attrs: Vec<(&str, &str)> = Vec::new();
            assert(attr_views(no_attrs@) =~= seq![]);
            w.open_tag("Children", no_attrs.as_slice());
            self.emit_children(node, w, tag_counter);
            w.close_tag("Children");
        }
        w.close_tag("ObjectData");
        assert(w.text() =~= t0 + node_text(*node, tag, d));
    }

    /// Writes the subtrees of a node's children, one after the other.
    fn emit_children(&self, node: &UiNode, w: &mut XmlWriter, tag_counter: &mut u32)
        requires
            old(w).depth() + 2 * forest_depth(node.children@) <= usize::MAX,
            *old(tag_counter) + forest_count(node.children@) <= u32::MAX,
        ensures
            final(w).text() == old(w).text() + children_text(node.children@, *old(tag_counter) as nat, old(w).depth()),
            final(w).depth() == old(w).depth(),
            *final(tag_counter) == *old(tag_counter) + forest_count(node.children@),
        decreases node, 0nat,
    {
        let ghost start = w.text();
        let ghost d = w.depth();
        let ghost cs = node.children@;
        let ghost first = *tag_counter as nat;
        let mut i: usize = 0;
        while i < node.children.len()
            invariant
                cs == node.children@,
                i <= cs.len(),
                w.depth() == d,
                w.text() == start + children_text(cs.take(i as int), first, d),
                *tag_counter == first + forest_count(cs.take(i as int)),
                d + 2 * forest_depth(cs) <= usize::MAX,
                first + forest_count(cs) <= u32::MAX,
            decreases cs.len() - i,
        {
            proof {
                lemma_forest_count_prefix(cs, i + 1);
                lemma_forest_depth_member(cs, i as int);
                assert(cs.take(i + 1).drop_last() =~= cs.take(i as int));
                assert(cs.take(i + 1).last() == cs[i as int]);
            }
            self.emit_node(&node.children[i], w, tag_counter);
            i = i + 1;
        }
        assert(cs.take(cs.len() as int) =~= cs);
    }

    fn emit_base_properties(&self, node: &UiNode, w: &mut XmlWriter)
        ensures
            final(w).text() == old(w).text() + base_text(*node, old(w).depth()),
            final(w).depth() == old(w).depth(),
    {
        let ghost t0 = w.text();
        let ghost d = w.depth();
        let g = &node.layout.geometry;
        pair_tag(w, "Position", "X", "Y", &g.position);
        pair_tag(w, "Scale", "ScaleX", "ScaleY", &g.scale);
        pair_tag(w, "AnchorPoint", "ScaleX", "ScaleY", &g.anchor);
        color_tag(node, w);
        pair_tag(w, "Size", "X", "Y", &g.size);
        pair_tag(w, "PrePosition", "X", "Y", &g.pre_position);
        pair_tag(w, "PreSize", "X", "Y", &g.pre_size);
        assert(w.text() =~= t0 + base_text(*node, d)) by {
            reveal(base_text);
        }
    }

    fn emit_widget_elements(&self, node: &UiNode, w: &mut XmlWriter)
        ensures
            final(w).text() == old(w).text() + widget_text(*node, old(w).depth()),
            final(w).depth() == old(w).depth(),
    {
        reveal(widget_text);
        let ghost t0 = w.text();
        let ghost d = w.depth();
        let img: Option<&String> = match node.attrs.get("src") {
            Some(s) => Some(s),
            None => match &node.layout.background_image {
                Some(s) => Some(s),
                None => None,
            },
        };
        assert(opt_text(img) == image_of(*node));
        match &node.widget {
            WidgetKind::Image => {
                file_tag(w, "FileData", img);
            },
            WidgetKind::Button => {
                file_tag(w, "NormalFileData", img);
                file_tag(w, "PressedFileData", node.attrs.get("data-pressed"));
                file_tag(w, "DisabledFileData", node.attrs.get("data-disabled"));
            },
            WidgetKind::ScrollView | WidgetKind::ListView => {
                file_tag(w, "FileData", img);
                let mut attrs: Vec<(&str, &str)> = Vec::new();
                push_attr(&mut attrs, "Width", "0.0000");
                push_attr(&mut attrs, "Height", "0.0000");
                assert(attr_views(attrs@) =~= seq![("Width"@, "0.0000"@), ("Height"@, "0.0000"@)]);
                w.self_closing_tag("InnerNodeSize", attrs.as_slice());
            },
            WidgetKind::Layout(_) => {
                file_tag(w, "FileData", img);
                match node.layout.background_color {
                    Some(c) => {
                        let r_s = u64_text(c.0 as u64);
                        let g_s = u64_text(c.1 as u64);
                        let b_s = u64_text(c.2 as u64);
                        let a_s = u64_text(c.3 as u64);
                        let mut rgb: Vec<(&str, &str)> = Vec::new();
                        push_attr(&mut rgb, "R", r_s.as_str());
                        push_attr(&mut rgb, "G", g_s.as_str());
                        push_attr(&mut rgb, "B", b_s.as_str());
                        assert(attr_views(rgb@) =~= seq![("R"@, r_s@), ("G"@, g_s@), ("B"@, b_s@)]);
                        w.self_closing_tag("SingleColor", rgb.as_slice());
                        let mut alpha: Vec<(&str, &str)> = Vec::new();
                        push_attr(&mut alpha, "Value", a_s.as_str());
                        assert(attr_views(alpha@) =~= seq![("Value"@, a_s@)]);
                        w.self_closing_tag("BackColorAlpha", alpha.as_slice());
                    },
                    None => {},
                }
            },
            WidgetKind::Unknown(name) => {
                let n = name.as_str();
                if text_eq(n, "Sprite") {
                    file_tag(w, "FileData", img);
                } else if text_eq(n, "ProjectNode") {
                    let file = match node.attrs.get("data-file") {
                        Some(f) => Some(f),
                        None => img,
                    };
                    file_tag(w, "FileData", file);
                } else if text_eq(n, "TextBMFont") {
                    file_tag(w, "LabelBMFontFile_CNB", node.attrs.get("data-fnt-file"));
                } else if text_eq(n, "TextAtlas") {
                    file_tag(w, "LabelAtlasFileImage_CNB", node.attrs.get("data-atlas-file"));
                } else {
                    file_tag(w, "FileData", img);
                }
            },
            _ => {
                file_tag(w, "FileData", img);
            },
        }
        assert(w.text() =~= t0 + widget_text(*node, d));
    }
}

} // verus!

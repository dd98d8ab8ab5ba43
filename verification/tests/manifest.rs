use icon_resolver::manifest::{
    application_logo_from_nodes, extract_icon_path, find_attribute, find_landmark,
    logo_from_nodes, logo_from_parts, logo_from_text, Landmark, XmlAttribute, XmlNode,
};

const MANIFEST: &str = r#"<?xml version="1.0" encoding="utf-8"?>
<Package xmlns="http://schemas.microsoft.com/appx/manifest/foundation/windows10"
         xmlns:uap="http://schemas.microsoft.com/appx/manifest/uap/windows10">
  <Identity Name="Contoso.App" Version="1.0.0.0" />
  <Properties>
    <DisplayName>Contoso</DisplayName>
    <Logo>Assets\StoreLogo.png</Logo>
  </Properties>
  <Applications>
    <Application Id="Helper" Executable="Helper.exe">
      <uap:VisualElements Square44x44Logo="Assets\HelperLogo.png" />
    </Application>
    <Application Id="App" Executable="Contoso.App.exe">
      <!-- the tile -->
      <uap:VisualElements DisplayName="Contoso" Square150x150Logo="Assets\Tile.png"
                          Square44x44Logo="Assets\Logo.png" />
    </Application>
  </Applications>
</Package>"#;

fn element(name: &str, attributes: &[(&str, &str)], span: usize) -> XmlNode {
    XmlNode {
        is_element: true,
        name: name.to_string(),
        attributes: attributes
            .iter()
            .map(|(n, v)| XmlAttribute { name: n.to_string(), value: v.to_string() })
            .collect(),
        span,
    }
}

fn other(span: usize) -> XmlNode {
    XmlNode { is_element: false, name: String::new(), attributes: Vec::new(), span }
}

#[test]
fn declared_square_logo_is_extracted() {
    assert_eq!(extract_icon_path(MANIFEST), Some("Assets\\Logo.png".to_string()));
}

#[test]
fn logo_element_is_the_fallback() {
    let text = "<Package><Properties><Logo>Assets\\StoreLogo.png</Logo></Properties></Package>";
    assert_eq!(extract_icon_path(text), Some("Assets\\StoreLogo.png".to_string()));
}

#[test]
fn logo_element_is_found_in_text_that_is_no_document() {
    let text = "<Package><Logo>Assets\\A.png</Logo><Logo>Assets\\B.png</Logo>";
    assert_eq!(extract_icon_path(text), Some("Assets\\A.png".to_string()));
}

#[test]
fn manifest_without_logo_gives_nothing() {
    assert_eq!(extract_icon_path("<Package><Applications/></Package>"), None);
    assert_eq!(extract_icon_path(""), None);
    assert_eq!(extract_icon_path("not a manifest"), None);
    assert_eq!(extract_icon_path("<Package><Logo>Assets\\A.png</Package>"), None);
}

#[test]
fn application_of_another_name_gives_its_logo() {
    let text = r#"<Package><Applications><Application Id="Contoso"><VisualElements Square44x44Logo="Assets\Logo.png"/></Application></Applications></Package>"#;
    assert_eq!(extract_icon_path(text), Some(String::from(r"Assets\Logo.png")));
    let plain = r#"<Package><Applications><Application Id="Main">
        <VisualElements Square44x44Logo="Assets\Main.png"/></Application></Applications></Package>"#;
    assert_eq!(extract_icon_path(plain), Some("Assets\\Main.png".to_string()));
}

#[test]
fn application_named_app_is_chosen_among_several() {
    let text = r#"<Package><Applications>
        <Application Id="First"><VisualElements Square44x44Logo="Assets\First.png"/></Application>
        <Application Id="App"><VisualElements Square44x44Logo="Assets\App.png"/></Application>
        </Applications></Package>"#;
    assert_eq!(extract_icon_path(text), Some("Assets\\App.png".to_string()));
}

#[test]
fn main_application_is_looked_for_in_the_first_list_only() {
    let text = r#"<Package><Applications><Application Id="Other">
        <VisualElements Square44x44Logo="Assets\Other.png"/></Application></Applications>
        <Applications><Application Id="App">
        <VisualElements Square44x44Logo="Assets\App.png"/></Application></Applications></Package>"#;
    assert_eq!(extract_icon_path(text), Some("Assets\\Other.png".to_string()));
}

#[test]
fn visual_elements_outside_an_application_are_read_too() {
    let text = r#"<Package><Applications><Application Id="App"/>
        <VisualElements Square44x44Logo="Assets\Logo.png"/></Applications></Package>"#;
    assert_eq!(extract_icon_path(text), Some("Assets\\Logo.png".to_string()));
    let bare = r#"<Package><VisualElements Square44x44Logo="Assets\Bare.png"/></Package>"#;
    assert_eq!(extract_icon_path(bare), Some("Assets\\Bare.png".to_string()));
}

#[test]
fn first_visual_elements_that_carries_a_logo_is_read() {
    let text = r#"<Package><VisualElements DisplayName="x"/>
        <VisualElements Square44x44Logo="Assets\Second.png"/>
        <VisualElements Square44x44Logo="Assets\Third.png"/></Package>"#;
    assert_eq!(extract_icon_path(text), Some("Assets\\Second.png".to_string()));
}

#[test]
fn visual_elements_without_square_logo_give_nothing() {
    let text = r#"<Package><Applications><Application Id="App">
        <VisualElements Square150x150Logo="Assets\Tile.png"/></Application></Applications></Package>"#;
    assert_eq!(extract_icon_path(text), None);
}

#[test]
fn declared_logo_wins_over_logo_element() {
    let text = r#"<Package><Logo>Assets\Store.png</Logo><Applications><Application Id="App">
        <VisualElements Square44x44Logo="Assets\Logo.png"/></Application></Applications></Package>"#;
    assert_eq!(extract_icon_path(text), Some("Assets\\Logo.png".to_string()));
}

#[test]
fn attribute_value_is_unescaped_by_the_parser() {
    let text = r#"<Package><Applications><Application Id="App">
        <VisualElements Square44x44Logo="Assets\A&amp;B.png"/></Application></Applications></Package>"#;
    assert_eq!(extract_icon_path(text), Some("Assets\\A&B.png".to_string()));
}

#[test]
fn logo_span_is_the_text_between_the_tags() {
    assert_eq!(logo_from_text("<Logo>a</Logo>"), Some("a".to_string()));
    assert_eq!(logo_from_text("x<Logo></Logo>y"), Some(String::new()));
    assert_eq!(logo_from_text("</Logo><Logo>\u{e9}b</Logo></Logo>"), Some("\u{e9}b".to_string()));
    assert_eq!(logo_from_text("<Logo>a"), None);
    assert_eq!(logo_from_text("a</Logo>"), None);
    assert_eq!(logo_from_text("<logo>a</logo>"), None);
}

#[test]
fn nodes_are_searched_within_subtrees() {
    let nodes = vec![
        other(7),
        element("Package", &[], 6),
        element("Applications", &[], 4),
        element("Application", &[("Id", "App")], 2),
        element("VisualElements", &[("Square44x44Logo", "Assets\\Logo.png")], 1),
        other(1),
        element("VisualElements", &[("Square44x44Logo", "Assets\\Late.png")], 1),
    ];
    assert_eq!(logo_from_nodes(&nodes), Some("Assets\\Logo.png".to_string()));
    assert_eq!(find_landmark(&nodes, Landmark::Applications, 0, 7), Some(2));
    assert_eq!(find_landmark(&nodes, Landmark::Application, 2, 6), Some(3));
    assert_eq!(find_landmark(&nodes, Landmark::VisualElements, 5, 7), Some(6));
    assert_eq!(find_landmark(&nodes, Landmark::VisualElements, 0, 4), None);
    assert_eq!(find_landmark(&nodes, Landmark::VisualElements, 5, 100), Some(6));
    assert_eq!(find_landmark(&nodes, Landmark::LogoHolder, 0, 7), Some(4));
    assert_eq!(find_landmark(&nodes, Landmark::LogoHolder, 5, 7), Some(6));
}

#[test]
fn subtree_of_the_application_bounds_the_search() {
    let nodes = vec![
        other(5),
        element("Applications", &[], 4),
        element("Application", &[("Id", "App")], 1),
        element("Application", &[("Id", "Other")], 2),
        element("VisualElements", &[("Square44x44Logo", "Assets\\Other.png")], 1),
    ];
    assert_eq!(application_logo_from_nodes(&nodes), None);
    assert_eq!(logo_from_nodes(&nodes), Some("Assets\\Other.png".to_string()));
}

#[test]
fn span_beyond_the_document_is_cut_off() {
    let nodes = vec![
        element("Applications", &[], 100),
        element("Application", &[("Name", "x"), ("Id", "App")], usize::MAX),
        element("VisualElements", &[("Square44x44Logo", "a"), ("Square44x44Logo", "b")], 0),
    ];
    assert_eq!(logo_from_nodes(&nodes), Some("a".to_string()));
}

#[test]
fn text_nodes_are_no_landmarks() {
    let mut list = element("Applications", &[], 3);
    list.is_element = false;
    let mut visual = element("VisualElements", &[("Square44x44Logo", "a")], 1);
    let nodes = vec![
        list,
        element("Application", &[("Id", "App")], 2),
        element("VisualElements", &[("Square44x44Logo", "a")], 1),
    ];
    assert_eq!(application_logo_from_nodes(&nodes), None);
    assert_eq!(logo_from_nodes(&nodes), Some("a".to_string()));
    visual.is_element = false;
    let nodes = vec![element("Applications", &[], 3), element("Application", &[("Id", "App")], 2), visual];
    assert_eq!(logo_from_nodes(&nodes), None);
}

#[test]
fn first_attribute_of_the_name_is_taken() {
    let node = element("e", &[("a", "1"), ("b", "2"), ("a", "3")], 1);
    assert_eq!(find_attribute(&node.attributes, "a"), Some(&"1".to_string()));
    assert_eq!(find_attribute(&node.attributes, "b"), Some(&"2".to_string()));
    assert_eq!(find_attribute(&node.attributes, "c"), None);
}

#[test]
fn parts_fall_back_to_the_text() {
    let nodes = vec![element("Package", &[], 1)];
    assert_eq!(logo_from_parts(&Some(nodes), "<Logo>x</Logo>"), Some("x".to_string()));
    assert_eq!(logo_from_parts(&None, "<Logo>x</Logo>"), Some("x".to_string()));
    assert_eq!(logo_from_parts(&None, "nothing"), None);
}

use three_d::cache::SourceCache;
use three_d::error::CoreError;
use three_d::program::{
    link_error, shader_source_with_header, texture_unit_enum, uniform_base_name, SlotNames,
    DESKTOP_SHADER_HEADER,
};

#[test]
fn texture_units_are_handed_out_in_order() {
    let mut units = SlotNames::new();
    assert_eq!(units.slot("albedo"), 0);
    assert_eq!(units.slot("normal"), 1);
    assert_eq!(units.slot("albedo"), 0);
    assert_eq!(units.slot("depth"), 2);
    assert_eq!(units.len(), 3);
    assert_eq!(units.position("normal"), Some(1));
    assert_eq!(units.position("missing"), None);
}

#[test]
fn texture_unit_enumeration() {
    assert_eq!(texture_unit_enum(0), glow::TEXTURE0);
    assert_eq!(texture_unit_enum(3), glow::TEXTURE3);
}

#[test]
fn uniform_names_drop_array_suffix() {
    assert_eq!(uniform_base_name("lights[0]"), "lights");
    assert_eq!(uniform_base_name("color"), "color");
    assert_eq!(uniform_base_name("[x]"), "");
    assert_eq!(uniform_base_name(""), "");
}

#[test]
fn shader_header_is_prepended() {
    let s = shader_source_with_header(false, "void main() {}");
    assert_eq!(s, "#version 330 core\nvoid main() {}");
    assert_eq!(DESKTOP_SHADER_HEADER, "#version 330 core\n");
    let w = shader_source_with_header(true, "x");
    assert!(w.starts_with("#version 300 es"));
    assert!(w.ends_with("#endif\nx"));
}

#[test]
fn link_error_prefers_vertex_then_fragment_then_program_log() {
    let e = link_error(
        "bad vertex".to_string(),
        "vs".to_string(),
        "bad fragment".to_string(),
        "fs".to_string(),
        "link".to_string(),
    );
    assert_eq!(
        e,
        CoreError::ShaderCompilation(
            "vertex".to_string(),
            "bad vertex".to_string(),
            "vs".to_string()
        )
    );
    let e = link_error(
        String::new(),
        "vs".to_string(),
        "bad fragment".to_string(),
        "fs".to_string(),
        "link".to_string(),
    );
    assert_eq!(
        e,
        CoreError::ShaderCompilation(
            "fragment".to_string(),
            "bad fragment".to_string(),
            "fs".to_string()
        )
    );
    let e = link_error(String::new(), "vs".to_string(), String::new(), "fs".to_string(), "link".to_string());
    assert_eq!(e, CoreError::ShaderLink("link".to_string()));
}

#[test]
fn cached_programs_are_found_by_their_sources() {
    let mut cache: SourceCache<u32> = SourceCache::new();
    assert!(!cache.contains_key("vertex source", "fragment source"));
    cache.insert("vertex source", "fragment source", 17);
    assert!(cache.contains_key("vertex source", "fragment source"));
    assert_eq!(cache.get("vertex source", "fragment source"), Some(&17));
    assert_eq!(cache.get("vertex source", "other"), None);
    cache.insert("vertex source", "other", 4);
    assert_eq!(cache.len(), 2);
    assert_eq!(cache.get("vertex source", "fragment source"), Some(&17));
    assert_eq!(cache.get("vertex source", "other"), Some(&4));
}

#[test]
fn source_pairs_that_join_alike_are_kept_apart() {
    let mut cache: SourceCache<u32> = SourceCache::new();
    cache.insert("ab", "c", 1);
    assert!(!cache.contains_key("a", "bc"));
    assert_eq!(cache.get("a", "bc"), None);
    cache.insert("a", "bc", 2);
    assert_eq!(cache.get("ab", "c"), Some(&1));
    assert_eq!(cache.get("a", "bc"), Some(&2));
}

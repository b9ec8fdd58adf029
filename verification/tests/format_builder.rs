//! The output format builder and custom part layouts.

use simplelog::render::render_to_string;
use simplelog::ConfigBuilder;
use simplelog::Format;
use simplelog::FormatBuilder;
use simplelog::FormatPart;
use simplelog::FormatPartType;
use simplelog::Level;
use simplelog::LevelFilter;
use simplelog::LogRecord;

#[test]
fn default_format_has_the_standard_parts() {
    let f = Format::default();
    assert_eq!(f.format_parts.len(), 11);
    assert!(matches!(f.format_parts[0].part_type, FormatPartType::Time));
    assert!(f.format_parts[0].wrap_space);
    assert!(matches!(f.format_parts[2].part_type, FormatPartType::Level));
    assert!(matches!(f.format_parts[8].part_type, FormatPartType::Location));
    assert!(matches!(f.format_parts[10].part_type, FormatPartType::Args));
}

#[test]
fn new_parts_are_plain_and_always_on() {
    let p = FormatPart::new(FormatPartType::Target);
    assert!(!p.wrap_space);
    assert_eq!(p.level_filter, LevelFilter::Error);
}

#[test]
fn builder_accumulates_parts_in_order() {
    let f = FormatBuilder::new()
        .level()
        .literal(" | ")
        .args()
        .build();
    assert_eq!(f.format_parts.len(), 3);
    assert!(matches!(f.format_parts[0].part_type, FormatPartType::Level));
    match &f.format_parts[1].part_type {
        FormatPartType::Literal(s) => assert_eq!(s, " | "),
        _ => panic!("the second part should be the literal"),
    }
    assert!(matches!(f.format_parts[2].part_type, FormatPartType::Args));
}

#[test]
fn adjustments_apply_to_the_open_part_only() {
    let mut b = FormatBuilder::new();
    // Adjusting with no open part does nothing.
    b.wrap_space(true).filter_level(LevelFilter::Off);
    b.begin_target().wrap_space(true).filter_level(LevelFilter::Info).end();
    let f = b.build();
    assert_eq!(f.format_parts.len(), 1);
    assert!(f.format_parts[0].wrap_space);
    assert_eq!(f.format_parts[0].level_filter, LevelFilter::Info);
}

#[test]
fn build_leaves_an_open_part_out() {
    let mut b = FormatBuilder::new();
    b.time();
    b.begin_level();
    let f = b.build();
    assert_eq!(f.format_parts.len(), 1);
    // Closing it afterwards appends it.
    b.end();
    assert_eq!(b.build().format_parts.len(), 2);
}

#[test]
fn custom_format_drives_the_renderer() {
    // A message-first layout with a literal separator and a part-level
    // threshold: the target appears only on Debug and deeper records.
    let format = FormatBuilder::new()
        .args()
        .begin_literal("<-").filter_level(LevelFilter::Debug).end()
        .begin_target().filter_level(LevelFilter::Debug).end()
        .build();
    let mut b = ConfigBuilder::new();
    b.set_target_level(LevelFilter::Error).set_output_format(format);
    let c = b.build();
    let shallow = render_to_string(&c, &LogRecord::new(Level::Info, "app::db", "msg"), "");
    assert_eq!(shallow, "msg\n");
    let deep = render_to_string(&c, &LogRecord::new(Level::Debug, "app::db", "msg"), "");
    assert_eq!(deep, "msg\n<-app::db");
}

#[test]
fn module_path_part_renders_the_module() {
    let format = FormatBuilder::new().mod_path().build();
    // Built below with the default (no) padding.
    let mut b = ConfigBuilder::new();
    b.set_output_format(format);
    let c = b.build();
    let mut rec = LogRecord::new(Level::Info, "app", "m");
    rec.mod_path = Some(String::from("app::inner"));
    assert_eq!(render_to_string(&c, &rec, ""), "app::inner");
}

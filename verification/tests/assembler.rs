use gpu_evolve_texture::assembler::{
    assemble, field_name, field_names_listing, resource_bindings, FieldFragment, KernelTemplate,
    TEMPLATE_INIT_BEGIN, TEMPLATE_INIT_END, TEMPLATE_PROCESS_BEGIN, TEMPLATE_PROCESS_END,
    TEMPLATE_VARS,
};
use gpu_evolve_texture::text::{decimal_string, push_decimal, stem_of};

fn template() -> KernelTemplate {
    KernelTemplate {
        vars: String::from("VARS\n"),
        init_begin: String::from("INIT{\n"),
        init_end: String::from("}\n"),
        process_begin: String::from("PROC{\n"),
        process_end: String::from("}\n"),
    }
}

fn wood_and_fire() -> Vec<FieldFragment> {
    vec![
        FieldFragment::from_file("wood.wgsl", String::from("fn process_wood() {}\n")).unwrap(),
        FieldFragment::from_file("fire.wgsl", String::from("fn process_fire() {}\n")).unwrap(),
    ]
}

fn count(text: &str, part: &str) -> usize {
    text.matches(part).count()
}

#[test]
fn empty_fields_directory_gives_bare_template() {
    let kernel = assemble(&template(), &Vec::new());
    assert_eq!(kernel.text, "VARS\nINIT{\n}\nPROC{\n}\n");
    assert!(kernel.ordered_field_names.is_empty());
    assert_eq!(count(&kernel.text, "@binding("), 0);
    assert_eq!(count(&kernel.text, "let color = color + "), 0);
    assert_eq!(field_names_listing(&kernel.ordered_field_names), "");
}

#[test]
fn wood_then_fire_are_bound_at_one_and_two() {
    let kernel = assemble(&template(), &wood_and_fire());
    let expected = "VARS\n\
        // ----------\n// wood\n// ----------\n\
        @group(0) @binding(1) var<storage, read_write> wood : array<f32>;\n\
        fn process_wood() {}\n\
        // ----------\n// fire\n// ----------\n\
        @group(0) @binding(2) var<storage, read_write> fire : array<f32>;\n\
        fn process_fire() {}\n\
        INIT{\n}\n\
        PROC{\n    let color = color + process_wood(location, color);\n    \
        let color = color + process_fire(location, color);\n}\n";
    assert_eq!(kernel.text, expected);
    assert_eq!(kernel.ordered_field_names, vec!["wood", "fire"]);
    assert_eq!(field_names_listing(&kernel.ordered_field_names), "wood\nfire\n");
}

#[test]
fn fire_then_wood_follows_the_given_order() {
    let fragments = vec![
        FieldFragment::from_file("fire.wgsl", String::new()).unwrap(),
        FieldFragment::from_file("wood.wgsl", String::new()).unwrap(),
    ];
    let kernel = assemble(&template(), &fragments);
    assert!(kernel.text.contains("@binding(1) var<storage, read_write> fire "));
    assert!(kernel.text.contains("@binding(2) var<storage, read_write> wood "));
    let fire = kernel.text.find("process_fire(location, color)").unwrap();
    let wood = kernel.text.find("process_wood(location, color)").unwrap();
    assert!(fire < wood);
    assert_eq!(field_names_listing(&kernel.ordered_field_names), "fire\nwood\n");
}

#[test]
fn one_binding_and_one_accumulation_line_per_field() {
    let mut fragments = Vec::new();
    for i in 0..12 {
        fragments
            .push(FieldFragment::from_file(&format!("Field{}.wgsl", i), String::from("x\n")).unwrap());
    }
    let kernel = assemble(&template(), &fragments);
    assert_eq!(count(&kernel.text, "@group(0) @binding("), 12);
    assert_eq!(count(&kernel.text, "    let color = color + process_"), 12);
    for i in 0..12 {
        let name = format!("field{}", i);
        let declaration =
            format!("@group(0) @binding({}) var<storage, read_write> {} : array<f32>;\n", i + 1, name);
        assert_eq!(count(&kernel.text, &declaration), 1);
        let line = format!("    let color = color + process_{}(location, color);\n", name);
        assert_eq!(count(&kernel.text, &line), 1);
        assert_eq!(kernel.ordered_field_names[i], name);
    }
    let listing = field_names_listing(&kernel.ordered_field_names);
    let lines: Vec<&str> = listing.lines().collect();
    assert_eq!(lines.len(), 12);
    assert_eq!(lines[0], "field0");
    assert_eq!(lines[11], "field11");
    assert!(listing.ends_with("field11\n"));
}

#[test]
fn resource_bindings_count_from_one() {
    let bindings = resource_bindings(&wood_and_fire());
    assert_eq!(bindings.len(), 2);
    assert_eq!(bindings[0].index, 1);
    assert_eq!(bindings[0].name, "wood");
    assert_eq!(bindings[1].index, 2);
    assert_eq!(bindings[1].name, "fire");
    assert!(resource_bindings(&Vec::new()).is_empty());
}

#[test]
fn generation_is_repeatable() {
    let first = assemble(&template(), &wood_and_fire());
    let second = assemble(&template(), &wood_and_fire());
    assert_eq!(first.text.as_bytes(), second.text.as_bytes());
    assert_eq!(
        field_names_listing(&first.ordered_field_names).as_bytes(),
        field_names_listing(&second.ordered_field_names).as_bytes()
    );
}

#[test]
fn fragment_text_is_copied_verbatim() {
    let text = "@group(0) @binding(9) var x: f32;\n// ----------\nno line end";
    let fragments = vec![FieldFragment::from_file("Odd.wgsl", String::from(text)).unwrap()];
    let kernel = assemble(&template(), &fragments);
    let expected = format!(
        "VARS\n// ----------\n// odd\n// ----------\n\
         @group(0) @binding(1) var<storage, read_write> odd : array<f32>;\n{}INIT{{\n}}\nPROC{{\n    \
         let color = color + process_odd(location, color);\n}}\n",
        text
    );
    assert_eq!(kernel.text, expected);
}

#[test]
fn field_name_is_the_lowercased_stem() {
    assert_eq!(field_name("wood.wgsl"), "wood");
    assert_eq!(field_name("Wood.WGSL"), "wood");
    assert_eq!(field_name("FIRE"), "fire");
    assert_eq!(field_name("a.b.c"), "a.b");
    assert_eq!(field_name("A.B.wgsl"), "a.b");
    assert_eq!(field_name(".hidden"), "");
    assert_eq!(field_name(""), "");
    assert_eq!(field_name("trailing."), "trailing");
    assert_eq!(field_name("two.dots.."), "two.dots.");
}

#[test]
fn field_name_lowercases_beyond_ascii() {
    assert_eq!(field_name("\u{c4}SCHE.wgsl"), "\u{e4}sche");
    assert_eq!(field_name("\u{3a9}mega.wgsl"), "\u{3c9}mega");
}

#[test]
fn from_file_keeps_the_contents() {
    let fragment = FieldFragment::from_file("Smoke.wgsl", String::from("body")).unwrap();
    assert_eq!(fragment.name, "smoke");
    assert_eq!(fragment.source_text, "body");
    let dotted = FieldFragment::from_file("Thick.Smoke.wgsl", String::from("body")).unwrap();
    assert_eq!(dotted.name, "thick.smoke");
    let bare = FieldFragment::from_file("ASH", String::new()).unwrap();
    assert_eq!(bare.name, "ash");
    assert_eq!(bare.source_text, "");
}

#[test]
fn stem_stops_at_the_last_dot() {
    assert_eq!(stem_of("wood.wgsl"), "wood");
    assert_eq!(stem_of("no_extension"), "no_extension");
    assert_eq!(stem_of("a.b.c"), "a.b");
    assert_eq!(stem_of("a.b.wgsl"), "a.b");
    assert_eq!(stem_of("."), "");
    assert_eq!(stem_of(".wgsl"), "");
    assert_eq!(stem_of(""), "");
    assert_eq!(stem_of("a."), "a");
    assert_eq!(stem_of(".."), ".");
    assert_eq!(stem_of("\u{e9}t\u{e9}.wgsl"), "\u{e9}t\u{e9}");
}

#[test]
fn a_file_without_a_stem_holds_no_field() {
    assert!(FieldFragment::from_file(".wgsl", String::from("body")).is_none());
    assert!(FieldFragment::from_file("", String::from("body")).is_none());
    assert!(FieldFragment::from_file(".", String::new()).is_none());
    assert!(FieldFragment::from_file("..", String::new()).is_some());
    assert!(FieldFragment::from_file("x", String::new()).is_some());
}

#[test]
fn a_name_with_two_dots_keeps_the_first() {
    let fragments = vec![FieldFragment::from_file("a.b.wgsl", String::new()).unwrap()];
    let kernel = assemble(&template(), &fragments);
    assert_eq!(kernel.ordered_field_names, vec!["a.b"]);
    assert_eq!(field_names_listing(&kernel.ordered_field_names), "a.b\n");
    assert!(kernel.text.contains("@binding(1) var<storage, read_write> a.b : array<f32>;\n"));
}

#[test]
fn decimal_numerals() {
    assert_eq!(decimal_string(0), "0");
    assert_eq!(decimal_string(7), "7");
    assert_eq!(decimal_string(10), "10");
    assert_eq!(decimal_string(109), "109");
    assert_eq!(decimal_string(12345), "12345");
    assert_eq!(decimal_string(usize::MAX), usize::MAX.to_string());
    let mut text = String::from("n=");
    push_decimal(&mut text, 42);
    assert_eq!(text, "n=42");
}

#[test]
fn listing_has_one_line_per_name() {
    let names = vec![String::from("wood"), String::from("fire"), String::from("ash")];
    assert_eq!(field_names_listing(&names), "wood\nfire\nash\n");
    assert_eq!(field_names_listing(&Vec::new()), "");
}

#[test]
fn template_part_names() {
    assert_eq!(TEMPLATE_VARS, "processor_shader_vars");
    assert_eq!(TEMPLATE_INIT_BEGIN, "processor_shader_init_begin");
    assert_eq!(TEMPLATE_INIT_END, "processor_shader_init_end");
    assert_eq!(TEMPLATE_PROCESS_BEGIN, "processor_shader_process_begin");
    assert_eq!(TEMPLATE_PROCESS_END, "processor_shader_process_end");
}

//! Composition of the kernel source from a template and field fragments.
//!
//! A kernel is the template's header, one section per field (a banner, a
//! storage binding numbered from 1 in composition order, and the field's
//! text as it was supplied), the initialization entry point, and the
//! evolution entry point with one accumulation line per field.

use crate::text::{
    decimal, lemma_decimal_digits, lemma_decimal_injective, lemma_prefix_len, lines, lowercase,
    push_decimal, stem, stem_of, to_lowercase,
};
use vstd::prelude::*;
use vstd::string::*;

verus! {

/// File name of the template part that opens the kernel.
pub const TEMPLATE_VARS: &'static str = "processor_shader_vars";

/// File name of the template part that opens the initialization entry point.
pub const TEMPLATE_INIT_BEGIN: &'static str = "processor_shader_init_begin";

/// File name of the template part that closes the initialization entry point.
pub const TEMPLATE_INIT_END: &'static str = "processor_shader_init_end";

/// File name of the template part that opens the evolution entry point.
pub const TEMPLATE_PROCESS_BEGIN: &'static str = "processor_shader_process_begin";

/// File name of the template part that closes the evolution entry point.
pub const TEMPLATE_PROCESS_END: &'static str = "processor_shader_process_end";

/// The rule above and below a field's name in its banner.
pub const BANNER_RULE: &'static str = "// ----------\n";

/// What stands before a field's name in its banner.
pub const BANNER_OPEN: &'static str = "// ";

/// What ends a line.
pub const LINE_END: &'static str = "\n";

/// A binding declaration up to the binding index.
pub const BINDING_OPEN: &'static str = "@group(0) @binding(";

/// A binding declaration between the binding index and the field's name.
pub const BINDING_CLASS: &'static str = ") var<storage, read_write> ";

/// A binding declaration after the field's name.
pub const BINDING_TYPE: &'static str = " : array<f32>;\n";

/// An accumulation line up to the call.
pub const ACCUMULATION_OPEN: &'static str = "    let color = color + ";

/// What a field's processing function is called, before the field's name.
pub const PROCESS_PREFIX: &'static str = "process_";

/// An accumulation line after the name of the function.
pub const ACCUMULATION_CLOSE: &'static str = "(location, color);\n";

/// The fixed parts of a kernel.
pub struct KernelTemplate {
    pub vars: String,
    pub init_begin: String,
    pub init_end: String,
    pub process_begin: String,
    pub process_end: String,
}

/// A [`KernelTemplate`] as texts.
pub struct TemplateText {
    pub vars: Seq<char>,
    pub init_begin: Seq<char>,
    pub init_end: Seq<char>,
    pub process_begin: Seq<char>,
    pub process_end: Seq<char>,
}

impl View for KernelTemplate {
    type V = TemplateText;

    open spec fn view(&self) -> TemplateText {
        TemplateText {
            vars: self.vars@,
            init_begin: self.init_begin@,
            init_end: self.init_end@,
            process_begin: self.process_begin@,
            process_end: self.process_end@,
        }
    }
}

/// One field: its name and the text it contributes, which is never parsed.
pub struct FieldFragment {
    pub name: String,
    pub source_text: String,
}

/// A [`FieldFragment`] as texts.
pub struct FragmentText {
    pub name: Seq<char>,
    pub source_text: Seq<char>,
}

impl View for FieldFragment {
    type V = FragmentText;

    open spec fn view(&self) -> FragmentText {
        FragmentText { name: self.name@, source_text: self.source_text@ }
    }
}

impl DeepView for FieldFragment {
    type V = FragmentText;

    open spec fn deep_view(&self) -> FragmentText {
        self@
    }
}

/// The storage binding of one field.
pub struct ResourceBinding {
    pub index: usize,
    pub name: String,
}

/// A composed kernel and the names of its fields in composition order.
pub struct GeneratedKernelSource {
    pub text: String,
    pub ordered_field_names: Vec<String>,
}

/// The name of the field that a file of the given name holds: the file
/// name without its extension, in lowercase.
pub open spec fn field_name_of(file_name: Seq<char>) -> Seq<char> {
    lowercase(stem(file_name))
}

/// Whether a file name names no field: nothing stands before its
/// extension.
pub open spec fn lacks_stem(file_name: Seq<char>) -> bool {
    stem(file_name).len() == 0
}

/// The fragment that a file of the given name and contents holds.
pub open spec fn fragment_of_file(file_name: Seq<char>, contents: Seq<char>) -> FragmentText {
    FragmentText { name: field_name_of(file_name), source_text: contents }
}

/// The fragments that files of the given names and contents hold.
pub open spec fn fragments_of_files(files: Seq<(Seq<char>, Seq<char>)>) -> Seq<FragmentText> {
    Seq::new(files.len(), |i: int| fragment_of_file(files[i].0, files[i].1))
}

/// The banner above a field's section.
pub open spec fn banner(name: Seq<char>) -> Seq<char> {
    BANNER_RULE@ + BANNER_OPEN@ + name + LINE_END@ + BANNER_RULE@
}

/// The declaration of a field's storage binding.
pub open spec fn binding_declaration(index: nat, name: Seq<char>) -> Seq<char> {
    BINDING_OPEN@ + decimal(index) + BINDING_CLASS@ + name + BINDING_TYPE@
}

/// The section of the field that is bound at `index`.
pub open spec fn field_section(index: nat, field: FragmentText) -> Seq<char> {
    banner(field.name) + binding_declaration(index, field.name) + field.source_text
}

/// The sections of all fields, each bound at its position counted from 1.
pub open spec fn field_sections(fields: Seq<FragmentText>) -> Seq<Seq<char>> {
    Seq::new(fields.len(), |i: int| field_section((i + 1) as nat, fields[i]))
}

/// The names of the fields, in order.
pub open spec fn field_names(fields: Seq<FragmentText>) -> Seq<Seq<char>> {
    Seq::new(fields.len(), |i: int| fields[i].name)
}

/// The name of the function that a field of the given name must define.
pub open spec fn process_function(name: Seq<char>) -> Seq<char> {
    PROCESS_PREFIX@ + name
}

/// The line that folds one field's result into the running color.
pub open spec fn accumulation_line(name: Seq<char>) -> Seq<char> {
    ACCUMULATION_OPEN@ + process_function(name) + ACCUMULATION_CLOSE@
}

/// The accumulation lines of all fields, in order.
pub open spec fn accumulation_lines(names: Seq<Seq<char>>) -> Seq<Seq<char>> {
    Seq::new(names.len(), |i: int| accumulation_line(names[i]))
}

/// The body of the evolution entry point.
pub open spec fn process_body(template: TemplateText, names: Seq<Seq<char>>) -> Seq<char> {
    template.process_begin + accumulation_lines(names).flatten() + template.process_end
}

/// The whole kernel.
pub open spec fn kernel_text(template: TemplateText, fields: Seq<FragmentText>) -> Seq<char> {
    template.vars + field_sections(fields).flatten() + template.init_begin + template.init_end
        + process_body(template, field_names(fields))
}

/// The lines of the field-name listing: each name followed by a line end.
pub open spec fn listing_lines(names: Seq<Seq<char>>) -> Seq<Seq<char>> {
    Seq::new(names.len(), |i: int| names[i] + LINE_END@)
}

/// The field-name listing that accompanies a kernel.
pub open spec fn names_listing(names: Seq<Seq<char>>) -> Seq<char> {
    listing_lines(names).flatten()
}

/// The name of the field that a file of the given name holds.
pub fn field_name(file_name: &str) -> (r: String)
    ensures
        r@ == field_name_of(file_name@),
{
    to_lowercase(stem_of(file_name))
}

impl FieldFragment {
    /// The fragment that a file of the given name and contents holds;
    /// `None` where the file name names no field.
    pub fn from_file(file_name: &str, source_text: String) -> (r: Option<FieldFragment>)
        ensures
            r is None <==> lacks_stem(file_name@),
            r matches Some(fragment) ==> fragment@ == fragment_of_file(
                file_name@,
                source_text@,
            ),
    {
        let stem = stem_of(file_name);
        if stem.unicode_len() == 0 {
            None
        } else {
            Some(FieldFragment { name: to_lowercase(stem), source_text })
        }
    }
}

/// Appends the section of one field to `out`.
fn push_field_section(out: &mut String, binding: &ResourceBinding, source_text: &str)
    ensures
        final(out)@ == old(out)@ + field_section(
            binding.index as nat,
            FragmentText { name: binding.name@, source_text: source_text@ },
        ),
{
    out.append(BANNER_RULE);
    out.append(BANNER_OPEN);
    out.append(binding.name.as_str());
    out.append(LINE_END);
    out.append(BANNER_RULE);
    out.append(BINDING_OPEN);
    push_decimal(out, binding.index);
    out.append(BINDING_CLASS);
    out.append(binding.name.as_str());
    out.append(BINDING_TYPE);
    out.append(source_text);
    assert(out@ =~= old(out)@ + field_section(
        binding.index as nat,
        FragmentText { name: binding.name@, source_text: source_text@ },
    ));
}

/// Appends the accumulation line of one field to `out`.
fn push_accumulation_line(out: &mut String, name: &str)
    ensures
        final(out)@ == old(out)@ + accumulation_line(name@),
{
    out.append(ACCUMULATION_OPEN);
    out.append(PROCESS_PREFIX);
    out.append(name);
    out.append(ACCUMULATION_CLOSE);
    assert(out@ =~= old(out)@ + accumulation_line(name@));
}

/// The storage bindings of the given fields: one per field, numbered from
/// 1 in composition order.
pub fn resource_bindings(fragments: &Vec<FieldFragment>) -> (r: Vec<ResourceBinding>)
    ensures
        r.len() == fragments.len(),
        forall|i: int|
            0 <= i < r.len() ==> (#[trigger] r[i]).index == i + 1 && r[i].name@ == fragments[i].name@,
{
    let mut bindings: Vec<ResourceBinding> = Vec::new();
    let mut i: usize = 0;
    while i < fragments.len()
        invariant
            i <= fragments.len(),
            bindings.len() == i,
            forall|k: int|
                0 <= k < i ==> (#[trigger] bindings[k]).index == k + 1 && bindings[k].name@
                    == fragments[k].name@,
        decreases fragments.len() - i,
    {
        bindings.push(ResourceBinding { index: i + 1, name: fragments[i].name.clone() });
        i += 1;
    }
    bindings
}

/// Composes the kernel for the given fields, in the order given.
pub fn assemble(template: &KernelTemplate, fragments: &Vec<FieldFragment>) -> (r:
    GeneratedKernelSource)
    ensures
        r.text@ == kernel_text(template@, fragments.deep_view()),
        r.ordered_field_names.deep_view() == field_names(fragments.deep_view()),
{
    let ghost fields = fragments.deep_view();
    let mut text = String::new();
    let mut names: Vec<String> = Vec::new();
    text.append(template.vars.as_str());
    assert(text@ =~= template@.vars + field_sections(fields.take(0)).flatten());
    assert(names.deep_view() =~= field_names(fields.take(0)));
    let bindings = resource_bindings(fragments);
    let mut i: usize = 0;
    while i < fragments.len()
        invariant
            i <= fragments.len(),
            fields == fragments.deep_view(),
            bindings.len() == fragments.len(),
            forall|k: int|
                0 <= k < bindings.len() ==> (#[trigger] bindings[k]).index == k + 1
                    && bindings[k].name@ == fragments[k].name@,
            text@ == template@.vars + field_sections(fields.take(i as int)).flatten(),
            names.len() == i,
            names.deep_view() == field_names(fields.take(i as int)),
        decreases fragments.len() - i,
    {
        let fragment = &fragments[i];
        let binding = &bindings[i];
        push_field_section(&mut text, binding, fragment.source_text.as_str());
        let ghost earlier = names;
        names.push(fragment.name.clone());
        proof {
            assert forall|k: int| 0 <= k < i + 1 implies names.deep_view()[k] == field_names(
                fields.take(i + 1),
            )[k] by {
                if k < i {
                    assert(names@[k] == earlier@[k]);
                    assert(earlier.deep_view()[k] == field_names(fields.take(i as int))[k]);
                }
            }
            let before = field_sections(fields.take(i as int));
            let section = field_section((i + 1) as nat, fields[i as int]);
            assert(fields[i as int] == fragment@);
            assert(field_sections(fields.take(i + 1)) =~= before.push(section));
            before.lemma_flatten_push(section);
            assert(names.deep_view() =~= field_names(fields.take(i + 1)));
        }
        i += 1;
    }
    assert(fields.take(i as int) =~= fields);
    text.append(template.init_begin.as_str());
    text.append(template.init_end.as_str());
    text.append(template.process_begin.as_str());
    let ghost head = text@;
    let ghost all_names = field_names(fields);
    assert(text@ =~= head + accumulation_lines(all_names.take(0)).flatten());
    let mut j: usize = 0;
    while j < names.len()
        invariant
            j <= names.len(),
            names.deep_view() == all_names,
            text@ == head + accumulation_lines(all_names.take(j as int)).flatten(),
        decreases names.len() - j,
    {
        push_accumulation_line(&mut text, names[j].as_str());
        proof {
            let before = accumulation_lines(all_names.take(j as int));
            let line = accumulation_line(all_names[j as int]);
            assert(all_names[j as int] == names[j as int]@);
            assert(accumulation_lines(all_names.take(j + 1)) =~= before.push(line));
            before.lemma_flatten_push(line);
        }
        j += 1;
    }
    assert(all_names.take(j as int) =~= all_names);
    text.append(template.process_end.as_str());
    assert(text@ =~= kernel_text(template@, fields));
    GeneratedKernelSource { text, ordered_field_names: names }
}

/// The field-name listing: every name on a line of its own, in order.
pub fn field_names_listing(names: &Vec<String>) -> (r: String)
    ensures
        r@ == names_listing(names.deep_view()),
{
    let ghost all_names = names.deep_view();
    let mut text = String::new();
    assert(text@ =~= listing_lines(all_names.take(0)).flatten());
    let mut i: usize = 0;
    while i < names.len()
        invariant
            i <= names.len(),
            all_names == names.deep_view(),
            text@ == listing_lines(all_names.take(i as int)).flatten(),
        decreases names.len() - i,
    {
        let ghost start = text@;
        text.append(names[i].as_str());
        text.append(LINE_END);
        proof {
            let before = listing_lines(all_names.take(i as int));
            let line = all_names[i as int] + LINE_END@;
            assert(all_names[i as int] == names[i as int]@);
            assert(text@ =~= start + line);
            assert(listing_lines(all_names.take(i + 1)) =~= before.push(line));
            before.lemma_flatten_push(line);
        }
        i += 1;
    }
    assert(all_names.take(i as int) =~= all_names);
    text
}

/// A kernel composed from files holds one section per file, in the order
/// of the files; the section of the file at position `i` declares the
/// binding `i + 1` under the lowercased stem of the file's name. The
/// listing holds one line per file, in the same order, and the line is
/// that same name.
pub proof fn lemma_one_binding_per_field(files: Seq<(Seq<char>, Seq<char>)>)
    ensures
        field_sections(fragments_of_files(files)).len() == files.len(),
        listing_lines(field_names(fragments_of_files(files))).len() == files.len(),
        forall|i: int|
            0 <= i < files.len() ==> #[trigger] field_sections(fragments_of_files(files))[i]
                == banner(lowercase(stem(files[i].0))) + binding_declaration(
                (i + 1) as nat,
                lowercase(stem(files[i].0)),
            ) + files[i].1,
        forall|i: int|
            0 <= i < files.len() ==> #[trigger] listing_lines(
                field_names(fragments_of_files(files)),
            )[i] == lowercase(stem(files[i].0)) + LINE_END@,
{
}

/// Declarations of different bindings are different texts, whatever the
/// fields are called.
pub proof fn lemma_binding_declarations_distinct(
    i: nat,
    first: Seq<char>,
    j: nat,
    second: Seq<char>,
)
    requires
        i != j,
    ensures
        binding_declaration(i, first) != binding_declaration(j, second),
{
    reveal_strlit(") var<storage, read_write> ");
    let a = binding_declaration(i, first);
    let b = binding_declaration(j, second);
    let open = BINDING_OPEN@.len() as int;
    let m = decimal(i).len() as int;
    let n = decimal(j).len() as int;
    if a == b {
        assert(a[open + m] == BINDING_CLASS@[0]);
        assert(b[open + n] == BINDING_CLASS@[0]);
        if m < n {
            assert(b[open + m] == decimal(j)[m]);
            lemma_decimal_digits(j, m);
        } else if n < m {
            assert(a[open + n] == decimal(i)[n]);
            lemma_decimal_digits(i, n);
        } else {
            assert forall|k: int| 0 <= k < m implies decimal(i)[k] == decimal(j)[k] by {
                assert(a[open + k] == decimal(i)[k]);
                assert(b[open + k] == decimal(j)[k]);
            }
            assert(decimal(i) =~= decimal(j));
            lemma_decimal_injective(i, j);
        }
    }
}

/// Read line by line, the listing gives back the names of the fields, as
/// long as no name holds a line end.
pub proof fn lemma_listing_lines_are_names(names: Seq<Seq<char>>)
    requires
        forall|i: int, k: int|
            0 <= i < names.len() && 0 <= k < names[i].len() ==> #[trigger] names[i][k] != '\n',
    ensures
        lines(names_listing(names)) == names,
    decreases names.len(),
{
    reveal_strlit("\n");
    let all = listing_lines(names);
    if names.len() == 0 {
        assert(all =~= Seq::<Seq<char>>::empty());
        assert(lines(names_listing(names)) =~= names);
    } else {
        let head = names[0];
        let tail = names.drop_first();
        let text = names_listing(names);
        assert(all.drop_first() =~= listing_lines(tail));
        assert(text =~= head + LINE_END@ + names_listing(tail));
        assert forall|k: int| 0 <= k < head.len() implies text[k] != '\n' by {
            assert(text[k] == names[0][k]);
        }
        assert(text[head.len() as int] == '\n');
        lemma_prefix_len(text, '\n', head.len() as int);
        assert(text.take(head.len() as int) =~= head);
        assert(text.skip(head.len() as int + 1) =~= names_listing(tail));
        assert forall|i: int, k: int|
            0 <= i < tail.len() && 0 <= k < tail[i].len() implies #[trigger] tail[i][k]
            != '\n' by {
            assert(tail[i] == names[i + 1]);
        }
        lemma_listing_lines_are_names(tail);
        assert(lines(text) =~= names);
    }
}

/// The body of the evolution entry point holds one accumulation line per
/// field, in the order of the fields, and the line of a field calls the
/// function named after that field.
pub proof fn lemma_one_accumulation_line_per_field(
    template: TemplateText,
    fields: Seq<FragmentText>,
)
    ensures
        accumulation_lines(field_names(fields)).len() == fields.len(),
        forall|i: int|
            0 <= i < fields.len() ==> #[trigger] accumulation_lines(field_names(fields))[i]
                == ACCUMULATION_OPEN@ + (PROCESS_PREFIX@ + fields[i].name) + ACCUMULATION_CLOSE@,
        process_body(template, field_names(fields)) == template.process_begin
            + accumulation_lines(field_names(fields)).flatten() + template.process_end,
        kernel_text(template, fields) == template.vars + field_sections(fields).flatten()
            + template.init_begin + template.init_end + process_body(
            template,
            field_names(fields),
        ),
{
}

/// Composing twice from the same template and from files with the same
/// names and contents, in the same order, gives the same kernel and the
/// same listing.
pub proof fn lemma_generation_repeatable(
    template: TemplateText,
    again: TemplateText,
    files: Seq<(Seq<char>, Seq<char>)>,
    files_again: Seq<(Seq<char>, Seq<char>)>,
)
    requires
        template.vars == again.vars,
        template.init_begin == again.init_begin,
        template.init_end == again.init_end,
        template.process_begin == again.process_begin,
        template.process_end == again.process_end,
        files.len() == files_again.len(),
        forall|i: int| 0 <= i < files.len() ==> files[i] == files_again[i],
    ensures
        kernel_text(template, fragments_of_files(files)) == kernel_text(
            again,
            fragments_of_files(files_again),
        ),
        names_listing(field_names(fragments_of_files(files))) == names_listing(
            field_names(fragments_of_files(files_again)),
        ),
{
    assert(files =~= files_again);
}

} // verus!

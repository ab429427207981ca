use plugin_renderer::declarations::{attribute_declaration, state_attributes, type_expression};
use plugin_renderer::error::{GeneratedFile, GenerationError};
use plugin_renderer::imports::{import_statement_for, state_type_imports};
use plugin_renderer::model::{Attribute, Multiplicity, Plugin};
use plugin_renderer::naming::first_letter_to_upper_case;
use plugin_renderer::registry::Registry;
use plugin_renderer::renderer::{generate_plugin_renderer, index, index_context, index_file};

fn attr(id: &str, ty: &str, m: Multiplicity) -> Attribute {
    Attribute::new(id.to_string(), ty.to_string(), m)
}

fn plugin(attrs: Vec<Attribute>) -> Plugin {
    Plugin::new("@serlo/markdown".to_string(), "0.1.0".to_string(), attrs)
}

fn types() -> Registry {
    let mut r = Registry::new();
    r.register("string".to_string(), "string".to_string());
    r.register("markdown".to_string(), "MarkdownText".to_string());
    r.register("core".to_string(), "CoreTypes".to_string());
    r
}

fn imports() -> Registry {
    let mut r = Registry::new();
    r.register("MarkdownText".to_string(), "@serlo/markdown-types".to_string());
    r.register("CoreTypes".to_string(), "@core/types".to_string());
    r
}

fn patch() -> GeneratedFile {
    GeneratedFile { path: "package.json".to_string(), content: "{}".to_string() }
}

#[test]
fn once_fragment_is_bare_type() {
    let a = attr("title", "string", Multiplicity::Once);
    assert_eq!(attribute_declaration(&a, &types()).unwrap(), "title: string");
}

#[test]
fn arbitrary_fragment_is_array() {
    let a = attr("tags", "string", Multiplicity::Arbitrary);
    assert_eq!(attribute_declaration(&a, &types()).unwrap(), "tags: Array<string>");
}

#[test]
fn min_once_fragment_is_array() {
    let a = attr("paragraphs", "markdown", Multiplicity::MinOnce);
    assert_eq!(attribute_declaration(&a, &types()).unwrap(), "paragraphs: Array<MarkdownText>");
}

#[test]
fn optional_fragment_is_nullable() {
    let a = attr("subtitle", "string", Multiplicity::Optional);
    assert_eq!(attribute_declaration(&a, &types()).unwrap(), "subtitle: string | null");
}

#[test]
fn type_expressions_by_multiplicity() {
    let t = "T".to_string();
    assert_eq!(type_expression(&t, Multiplicity::Once), "T");
    assert_eq!(type_expression(&t, Multiplicity::Optional), "T | null");
    assert_eq!(type_expression(&t, Multiplicity::Arbitrary), "Array<T>");
    assert_eq!(type_expression(&t, Multiplicity::MinOnce), "Array<T>");
}

#[test]
fn unknown_content_type_fails_with_message() {
    let a = attr("x", "foobar", Multiplicity::Once);
    let e = attribute_declaration(&a, &types()).unwrap_err();
    assert!(matches!(&e, GenerationError::UnknownContentType(c) if c == "foobar"));
    assert!(e.message().contains("no typescript type defined for \"foobar\"!"));
    assert_eq!(e.message(), "no typescript type defined for \"foobar\"!");
}

#[test]
fn template_failure_message_is_engine_text() {
    let e = GenerationError::TemplateFailure("missing key".to_string());
    assert_eq!(e.message(), "missing key");
}

#[test]
fn state_attributes_keep_attribute_order() {
    let p = plugin(vec![
        attr("title", "string", Multiplicity::Once),
        attr("body", "markdown", Multiplicity::Optional),
        attr("tags", "string", Multiplicity::Arbitrary),
    ]);
    assert_eq!(
        state_attributes(&p, &types()).unwrap(),
        vec!["title: string", "body: MarkdownText | null", "tags: Array<string>"]
    );
}

#[test]
fn state_attributes_of_no_attributes_is_empty() {
    let p = plugin(vec![]);
    assert!(state_attributes(&p, &types()).unwrap().is_empty());
}

#[test]
fn state_attributes_fail_on_first_unknown() {
    let p = plugin(vec![
        attr("title", "string", Multiplicity::Once),
        attr("a", "first_unknown", Multiplicity::Once),
        attr("b", "second_unknown", Multiplicity::Once),
    ]);
    let e = state_attributes(&p, &types()).unwrap_err();
    assert!(matches!(e, GenerationError::UnknownContentType(c) if c == "first_unknown"));
}

#[test]
fn shared_type_is_imported_twice() {
    let p = plugin(vec![
        attr("a", "string", Multiplicity::Once),
        attr("b", "string", Multiplicity::Arbitrary),
    ]);
    let mut t = Registry::new();
    t.register("string".to_string(), "CoreTypes".to_string());
    let mut i = Registry::new();
    i.register("CoreTypes".to_string(), "@core/types".to_string());
    let lines = state_type_imports(&p, &t, &i);
    assert_eq!(
        lines,
        vec!["import { CoreTypes } from '@core/types'", "import { CoreTypes } from '@core/types'"]
    );
}

#[test]
fn imports_skip_types_without_module_and_keep_order() {
    let p = plugin(vec![
        attr("a", "markdown", Multiplicity::Once),
        attr("b", "string", Multiplicity::Once),
        attr("c", "core", Multiplicity::Optional),
        attr("d", "MarkdownText", Multiplicity::Once),
    ]);
    let lines = state_type_imports(&p, &types(), &imports());
    assert_eq!(
        lines,
        vec![
            "import { MarkdownText } from '@serlo/markdown-types'",
            "import { CoreTypes } from '@core/types'",
            "import { MarkdownText } from '@serlo/markdown-types'",
        ]
    );
}

#[test]
fn imports_tolerate_unknown_content_type() {
    let p = plugin(vec![attr("a", "foobar", Multiplicity::Once)]);
    assert!(state_type_imports(&p, &types(), &imports()).is_empty());
}

#[test]
fn import_statement_shape() {
    let s = import_statement_for(&"X".to_string(), &"m".to_string());
    assert_eq!(s, "import { X } from 'm'");
}

#[test]
fn registry_later_registration_overrides() {
    let mut r = Registry::new();
    assert_eq!(r.get(&"k".to_string()), None);
    r.register("k".to_string(), "v1".to_string());
    r.register("j".to_string(), "w".to_string());
    r.register("k".to_string(), "v2".to_string());
    assert_eq!(r.get(&"k".to_string()), Some("v2".to_string()));
    assert_eq!(r.get(&"j".to_string()), Some("w".to_string()));
    assert_eq!(r.get(&"x".to_string()), None);
}

#[test]
fn first_letter_upper_cased() {
    assert_eq!(first_letter_to_upper_case("markdown"), "Markdown");
    assert_eq!(first_letter_to_upper_case("x"), "X");
    assert_eq!(first_letter_to_upper_case(""), "");
    assert_eq!(first_letter_to_upper_case("Already"), "Already");
    assert_eq!(first_letter_to_upper_case("ßtraße"), "SStraße");
}

#[test]
fn index_renders_declarations_verbatim() {
    let p = plugin(vec![
        attr("title", "string", Multiplicity::Once),
        attr("tags", "string", Multiplicity::Arbitrary),
        attr("body", "markdown", Multiplicity::Optional),
    ]);
    let f = index(&p, &types(), &imports(), "markdown").unwrap();
    assert_eq!(f.path, "src/index.ts");
    assert!(f.content.contains("import { MarkdownText } from '@serlo/markdown-types'"));
    assert!(f.content.contains("  title: string\n"));
    assert!(f.content.contains("  tags: Array<string>\n"));
    assert!(f.content.contains("  body: MarkdownText | null\n"));
    assert!(f.content.contains("export interface MarkdownState {"));
    assert!(f.content.contains("export const markdownIdentifier = {"));
    assert!(f.content.contains("name: '@serlo/markdown'"));
    assert!(f.content.contains("version: '0.1.0'"));
    assert!(!f.content.contains("&lt;"));
    let title = f.content.find("title: string").unwrap();
    let tags = f.content.find("tags: Array<string>").unwrap();
    let body = f.content.find("body: MarkdownText | null").unwrap();
    assert!(title < tags && tags < body);
}

#[test]
fn index_is_idempotent() {
    let p = plugin(vec![
        attr("title", "string", Multiplicity::Once),
        attr("body", "markdown", Multiplicity::MinOnce),
    ]);
    let a = index(&p, &types(), &imports(), "markdown").unwrap();
    let b = index(&p, &types(), &imports(), "markdown").unwrap();
    assert_eq!(a.path, b.path);
    assert_eq!(a.content.as_bytes(), b.content.as_bytes());
}

#[test]
fn generation_yields_index_then_patch() {
    let p = plugin(vec![attr("title", "string", Multiplicity::Once)]);
    let files = generate_plugin_renderer(&p, &types(), &imports(), "markdown", Ok(patch())).unwrap();
    assert_eq!(files.len(), 2);
    assert_eq!(files[0].path, "src/index.ts");
    assert!(files[0].content.contains("title: string"));
    assert_eq!(files[1].path, "package.json");
    assert_eq!(files[1].content, "{}");
}

#[test]
fn generation_is_idempotent() {
    let p = plugin(vec![attr("tags", "string", Multiplicity::Arbitrary)]);
    let a = generate_plugin_renderer(&p, &types(), &imports(), "markdown", Ok(patch())).unwrap();
    let b = generate_plugin_renderer(&p, &types(), &imports(), "markdown", Ok(patch())).unwrap();
    assert_eq!(a.len(), b.len());
    for (x, y) in a.iter().zip(b.iter()) {
        assert_eq!(x.path, y.path);
        assert_eq!(x.content, y.content);
    }
}

#[test]
fn generation_fails_on_unknown_content_type() {
    let p = plugin(vec![
        attr("title", "string", Multiplicity::Once),
        attr("x", "foobar", Multiplicity::Once),
    ]);
    let e = generate_plugin_renderer(&p, &types(), &imports(), "markdown", Ok(patch())).unwrap_err();
    assert!(e.message().contains("no typescript type defined for \"foobar\"!"));
}

#[test]
fn generation_reports_index_error_before_patch_error() {
    let p = plugin(vec![attr("x", "foobar", Multiplicity::Once)]);
    let bad_patch = Err(GenerationError::TemplateFailure("patch failed".to_string()));
    let e = generate_plugin_renderer(&p, &types(), &imports(), "markdown", bad_patch).unwrap_err();
    assert!(matches!(e, GenerationError::UnknownContentType(c) if c == "foobar"));
}

#[test]
fn generation_surfaces_patch_error() {
    let p = plugin(vec![attr("title", "string", Multiplicity::Once)]);
    let bad_patch = Err(GenerationError::TemplateFailure("patch failed".to_string()));
    let e = generate_plugin_renderer(&p, &types(), &imports(), "markdown", bad_patch).unwrap_err();
    assert!(matches!(e, GenerationError::TemplateFailure(m) if m == "patch failed"));
}

#[test]
fn index_context_holds_all_template_values() {
    let p = plugin(vec![
        attr("body", "markdown", Multiplicity::Once),
        attr("tags", "string", Multiplicity::Arbitrary),
    ]);
    let ctx = index_context(&p, &types(), &imports(), "markdownEditor").unwrap();
    assert_eq!(ctx.imports, vec!["import { MarkdownText } from '@serlo/markdown-types'"]);
    assert_eq!(ctx.component_ident, "markdownEditor");
    assert_eq!(ctx.plugin_name, "@serlo/markdown");
    assert_eq!(ctx.plugin_version, "0.1.0");
    assert_eq!(ctx.attributes, vec!["body: MarkdownText", "tags: Array<string>"]);
    assert_eq!(ctx.plugin_suffix, "MarkdownEditor");
}

#[test]
fn index_context_fails_on_unknown_content_type() {
    let p = plugin(vec![attr("x", "foobar", Multiplicity::Optional)]);
    let e = index_context(&p, &types(), &imports(), "markdown").unwrap_err();
    assert!(matches!(e, GenerationError::UnknownContentType(c) if c == "foobar"));
}

#[test]
fn index_file_wraps_rendered_text() {
    let f = index_file(Ok("text".to_string())).unwrap();
    assert_eq!(f.path, "src/index.ts");
    assert_eq!(f.content, "text");
    let e = index_file(Err("undefined key".to_string())).unwrap_err();
    assert!(matches!(e, GenerationError::TemplateFailure(m) if m == "undefined key"));
}

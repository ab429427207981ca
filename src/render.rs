//! Rendering of the index file's template: strict (an undefined key is an
//! error) and verbatim (no escaping of substituted values).

use handlebars::Handlebars;
use serde_json::Value;
use crate::model::strings_view;
use vstd::prelude::*;

verus! {

/// The template of a renderer package's index file.
pub const INDEX_TEMPLATE: &'static str = "{{#each imports}}
{{this}}
{{/each}}

export const {{component_ident}}Identifier = {
  name: '{{plugin_ident.name}}',
  version: '{{plugin_ident.version}}',
}

export interface {{plugin_suffix}}State {
{{#each attributes}}
  {{this}}
{{/each}}
}

export interface {{plugin_suffix}}RendererProps {
  state: {{plugin_suffix}}State
}
";

/// The values that the index template is rendered with.
#[derive(Clone, Debug)]
pub struct IndexContext {
    pub imports: Vec<String>,
    pub component_ident: String,
    pub plugin_name: String,
    pub plugin_version: String,
    pub attributes: Vec<String>,
    pub plugin_suffix: String,
}

/// What strict, verbatim rendering of `template` yields on a context whose
/// keys `imports`, `component_ident`, `plugin_ident` (with `name` and
/// `version`), `attributes` and `plugin_suffix` hold the given values: the
/// rendered text, or the engine's message.
pub uninterp spec fn rendered(
    template: Seq<char>,
    imports: Seq<Seq<char>>,
    component_ident: Seq<char>,
    plugin_name: Seq<char>,
    plugin_version: Seq<char>,
    attributes: Seq<Seq<char>>,
    plugin_suffix: Seq<char>,
) -> Result<Seq<char>, Seq<char>>;

/// The view of a result whose two sides are strings.
pub open spec fn result_view(r: Result<String, String>) -> Result<Seq<char>, Seq<char>> {
    match r {
        Ok(s) => Ok(s@),
        Err(m) => Err(m@),
    }
}

/// Relies on handlebars' `Registry::render_template`, in strict mode and with
/// `no_escape` as escape function: its outcome depends on the template and the
/// context alone. The context is converted to a serde_json object.
#[verifier::external_body]
pub(crate) fn render_strict_verbatim(template: &str, ctx: &IndexContext) -> (r: Result<
    String,
    String,
>)
    ensures
        result_view(r) == rendered(
            template@,
            strings_view(ctx.imports@),
            ctx.component_ident@,
            ctx.plugin_name@,
            ctx.plugin_version@,
            strings_view(ctx.attributes@),
            ctx.plugin_suffix@,
        ),
{
    let ident = Value::from_iter([
        ("name", ctx.plugin_name.clone()),
        ("version", ctx.plugin_version.clone()),
    ]);
    let data = Value::from_iter([
        ("imports", Value::from(ctx.imports.clone())),
        ("component_ident", Value::from(ctx.component_ident.clone())),
        ("plugin_ident", ident),
        ("attributes", Value::from(ctx.attributes.clone())),
        ("plugin_suffix", Value::from(ctx.plugin_suffix.clone())),
    ]);
    let mut reg = Handlebars::new();
    reg.set_strict_mode(true);
    reg.register_escape_fn(handlebars::no_escape);
    reg.render_template(template, &data).map_err(|e| e.to_string())
}

} // verus!

//! Assembly of a plugin's renderer package: the index file, rendered from the
//! plugin's imports and state declaration, followed by the manifest patch.

use crate::declarations::{declarations, state_attributes};
use crate::error::{GeneratedFile, GeneratedFileView, GenerationError, GenerationErrorView};
use crate::imports::{import_lines, state_type_imports};
use crate::model::{strings_view, Plugin, PluginView};
use crate::naming::{first_letter_to_upper_case, upper_first};
use crate::registry::Registry;
use crate::render::{rendered, render_strict_verbatim, result_view, IndexContext, INDEX_TEMPLATE};
use vstd::prelude::*;

verus! {

/// The path of the index file within the package.
pub const INDEX_PATH: &'static str = "src/index.ts";

/// The index file of `p`, whose component identifier is `component_ident`, or
/// why it cannot be generated: the first unregistered content-type, else the
/// engine's failure.
pub open spec fn index_outcome(
    p: PluginView,
    types: Seq<(Seq<char>, Seq<char>)>,
    imports: Seq<(Seq<char>, Seq<char>)>,
    component_ident: Seq<char>,
) -> Result<GeneratedFileView, GenerationErrorView> {
    match declarations(p.attributes, types) {
        Err(c) => Err(GenerationErrorView::UnknownContentType(c)),
        Ok(decls) => index_file_outcome(
            rendered(
                INDEX_TEMPLATE@,
                import_lines(p.attributes, types, imports),
                component_ident,
                p.name,
                p.version,
                decls,
                upper_first(component_ident),
            ),
        ),
    }
}

/// The view of the outcome of generating one file.
pub open spec fn file_result_view(r: Result<GeneratedFile, GenerationError>) -> Result<
    GeneratedFileView,
    GenerationErrorView,
> {
    match r {
        Ok(f) => Ok(f@),
        Err(e) => Err(e@),
    }
}

/// The views of a sequence of files.
pub open spec fn files_view(v: Seq<GeneratedFile>) -> Seq<GeneratedFileView> {
    v.map_values(|f: GeneratedFile| f@)
}

/// The outcome of generating a package from the index outcome `index` and the
/// manifest patch outcome `patch`: both files in that order, or the first
/// error.
pub open spec fn package_outcome(
    index: Result<GeneratedFileView, GenerationErrorView>,
    patch: Result<GeneratedFileView, GenerationErrorView>,
) -> Result<Seq<GeneratedFileView>, GenerationErrorView> {
    match index {
        Err(e) => Err(e),
        Ok(f) => match patch {
            Err(e) => Err(e),
            Ok(p) => Ok(seq![f, p]),
        },
    }
}

/// The view of the outcome of generating a package.
pub open spec fn files_result_view(r: Result<Vec<GeneratedFile>, GenerationError>) -> Result<
    Seq<GeneratedFileView>,
    GenerationErrorView,
> {
    match r {
        Ok(v) => Ok(files_view(v@)),
        Err(e) => Err(e@),
    }
}

/// What the index file follows from the outcome `rendered` of rendering the
/// index template: the file at the index path, or the engine's failure.
pub open spec fn index_file_outcome(rendered: Result<Seq<char>, Seq<char>>) -> Result<
    GeneratedFileView,
    GenerationErrorView,
> {
    match rendered {
        Ok(text) => Ok(GeneratedFileView { path: INDEX_PATH@, content: text }),
        Err(m) => Err(GenerationErrorView::TemplateFailure(m)),
    }
}

/// The values that the plugin's index template is rendered with: its import
/// statements, the component identifier, the plugin identifier, its attribute
/// declarations, and the component identifier with its first letter
/// upper-cased; or the first unregistered content-type.
pub fn index_context(
    plugin: &Plugin,
    types: &Registry,
    imports: &Registry,
    component_ident: &str,
) -> (r: Result<IndexContext, GenerationError>)
    ensures
        match declarations(plugin@.attributes, types@) {
            Err(c) => r is Err && r->Err_0@ == GenerationErrorView::UnknownContentType(c),
            Ok(d) => r is Ok && strings_view(r->Ok_0.imports@) == import_lines(
                plugin@.attributes,
                types@,
                imports@,
            ) && r->Ok_0.component_ident@ == component_ident@ && r->Ok_0.plugin_name@
                == plugin@.name && r->Ok_0.plugin_version@ == plugin@.version && strings_view(
                r->Ok_0.attributes@,
            ) == d && r->Ok_0.plugin_suffix@ == upper_first(component_ident@),
        },
{
    let import_statements = state_type_imports(plugin, types, imports);
    let attributes = match state_attributes(plugin, types) {
        Ok(a) => a,
        Err(e) => return Err(e),
    };
    Ok(
        IndexContext {
            imports: import_statements,
            component_ident: component_ident.to_owned(),
            plugin_name: plugin.identifier.name.clone(),
            plugin_version: plugin.identifier.version.clone(),
            attributes,
            plugin_suffix: first_letter_to_upper_case(component_ident),
        },
    )
}

/// The index file that the outcome of rendering the index template gives.
pub fn index_file(rendered: Result<String, String>) -> (r: Result<GeneratedFile, GenerationError>)
    ensures
        file_result_view(r) == index_file_outcome(result_view(rendered)),
{
    match rendered {
        Ok(content) => Ok(GeneratedFile { path: INDEX_PATH.to_owned(), content }),
        Err(m) => Err(GenerationError::TemplateFailure(m)),
    }
}

/// The index file of the plugin: its imports, component identifier, plugin
/// identifier, attribute declarations and the component identifier with its
/// first letter upper-cased, rendered into the index template.
pub fn index(plugin: &Plugin, types: &Registry, imports: &Registry, component_ident: &str) -> (r:
    Result<GeneratedFile, GenerationError>)
    ensures
        file_result_view(r) == index_outcome(plugin@, types@, imports@, component_ident@),
{
    let ctx = match index_context(plugin, types, imports, component_ident) {
        Ok(c) => c,
        Err(e) => return Err(e),
    };
    index_file(render_strict_verbatim(INDEX_TEMPLATE, &ctx))
}

/// The files of the plugin's renderer package: the index file, then the
/// manifest patch that the caller computed; the index's error comes first,
/// and no file is returned when either failed.
pub fn generate_plugin_renderer(
    plugin: &Plugin,
    types: &Registry,
    imports: &Registry,
    component_ident: &str,
    manifest_patch: Result<GeneratedFile, GenerationError>,
) -> (r: Result<Vec<GeneratedFile>, GenerationError>)
    ensures
        files_result_view(r) == package_outcome(
            index_outcome(plugin@, types@, imports@, component_ident@),
            file_result_view(manifest_patch),
        ),
{
    let index_file = match index(plugin, types, imports, component_ident) {
        Ok(f) => f,
        Err(e) => return Err(e),
    };
    let patch = match manifest_patch {
        Ok(p) => p,
        Err(e) => return Err(e),
    };
    let r = vec![index_file, patch];
    assert(files_view(r@) =~= seq![r@[0]@, r@[1]@]);
    Ok(r)
}

} // verus!

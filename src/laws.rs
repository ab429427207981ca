//! Properties that relate the generation functions over all inputs.

use crate::declarations::{declaration, declarations};
use crate::error::{GeneratedFile, GeneratedFileView, GenerationError, GenerationErrorView};
use crate::imports::{attribute_imports, import_lines, import_statement, resolved_type};
use crate::model::{AttributeView, PluginView};
use crate::registry::lookup;
use crate::renderer::{files_result_view, file_result_view, index_outcome, package_outcome};
use vstd::prelude::*;

verus! {

/// Where every content-type is registered, the declarations hold one fragment
/// per attribute, in attribute order, each built from that attribute's
/// registered type.
pub proof fn law_declarations_follow_attribute_order(
    attrs: Seq<AttributeView>,
    types: Seq<(Seq<char>, Seq<char>)>,
)
    requires
        forall|i: int| 0 <= i < attrs.len() ==> #[trigger] lookup(types, attrs[i].content_type) is Some,
    ensures
        declarations(attrs, types) is Ok,
        declarations(attrs, types)->Ok_0.len() == attrs.len(),
        forall|i: int|
            0 <= i < attrs.len() ==> #[trigger] declarations(attrs, types)->Ok_0[i] == declaration(
                attrs[i].identifier,
                lookup(types, attrs[i].content_type)->Some_0,
                attrs[i].multiplicity,
            ),
    decreases attrs.len(),
{
    if attrs.len() > 0 {
        let pre = attrs.drop_last();
        assert forall|i: int| 0 <= i < pre.len() implies #[trigger] lookup(
            types,
            pre[i].content_type,
        ) is Some by {
            assert(pre[i] == attrs[i]);
        }
        law_declarations_follow_attribute_order(pre, types);
        assert(lookup(types, attrs[attrs.len() - 1].content_type) is Some);
    }
}

/// Where some content-type is unregistered, the declarations fail, naming the
/// first attribute's content-type that is unregistered.
pub proof fn law_declarations_fail_on_first_unregistered(
    attrs: Seq<AttributeView>,
    types: Seq<(Seq<char>, Seq<char>)>,
    i: int,
)
    requires
        0 <= i < attrs.len(),
        lookup(types, attrs[i].content_type) is None,
    ensures
        exists|j: int|
            0 <= j <= i && lookup(types, attrs[j].content_type) is None && (forall|k: int|
                0 <= k < j ==> lookup(types, #[trigger] attrs[k].content_type) is Some)
                && declarations(attrs, types) == Err::<Seq<Seq<char>>, Seq<char>>(
                attrs[j].content_type,
            ),
    decreases attrs.len(),
{
    let pre = attrs.drop_last();
    if i < attrs.len() - 1 {
        assert(pre[i] == attrs[i]);
        law_declarations_fail_on_first_unregistered(pre, types, i);
        let j = choose|j: int|
            0 <= j <= i && lookup(types, pre[j].content_type) is None && (forall|k: int|
                0 <= k < j ==> lookup(types, #[trigger] pre[k].content_type) is Some)
                && declarations(pre, types) == Err::<Seq<Seq<char>>, Seq<char>>(
                pre[j].content_type,
            );
        assert(pre[j] == attrs[j]);
        assert forall|k: int| 0 <= k < j implies lookup(
            types,
            #[trigger] attrs[k].content_type,
        ) is Some by {
            assert(pre[k] == attrs[k]);
        }
    } else {
        match declarations(pre, types) {
            Ok(_) => {
                assert forall|k: int| 0 <= k < i implies lookup(
                    types,
                    #[trigger] attrs[k].content_type,
                ) is Some by {
                    lemma_prefix_registered(pre, types, k);
                    assert(pre[k] == attrs[k]);
                }
            },
            Err(c) => {
                let k0 = lemma_error_names_unregistered(pre, types);
                let j = k0;
                assert(pre[j] == attrs[j]);
                assert forall|k: int| 0 <= k < j implies lookup(
                    types,
                    #[trigger] attrs[k].content_type,
                ) is Some by {
                    assert(pre[k] == attrs[k]);
                }
            },
        }
    }
}

/// Where the declarations succeed, every content-type is registered.
proof fn lemma_prefix_registered(
    attrs: Seq<AttributeView>,
    types: Seq<(Seq<char>, Seq<char>)>,
    k: int,
)
    requires
        declarations(attrs, types) is Ok,
        0 <= k < attrs.len(),
    ensures
        lookup(types, attrs[k].content_type) is Some,
    decreases attrs.len(),
{
    if k < attrs.len() - 1 {
        assert(attrs.drop_last()[k] == attrs[k]);
        lemma_prefix_registered(attrs.drop_last(), types, k);
    }
}

/// Where the declarations fail, they name the content-type of the first
/// unregistered attribute, whose index is returned.
proof fn lemma_error_names_unregistered(
    attrs: Seq<AttributeView>,
    types: Seq<(Seq<char>, Seq<char>)>,
) -> (j: int)
    requires
        declarations(attrs, types) is Err,
    ensures
        0 <= j < attrs.len(),
        lookup(types, attrs[j].content_type) is None,
        forall|k: int| 0 <= k < j ==> lookup(types, #[trigger] attrs[k].content_type) is Some,
        declarations(attrs, types) == Err::<Seq<Seq<char>>, Seq<char>>(attrs[j].content_type),
    decreases attrs.len(),
{
    let pre = attrs.drop_last();
    match declarations(pre, types) {
        Err(_) => {
            let j = lemma_error_names_unregistered(pre, types);
            assert(pre[j] == attrs[j]);
            assert forall|k: int| 0 <= k < j implies lookup(
                types,
                #[trigger] attrs[k].content_type,
            ) is Some by {
                assert(pre[k] == attrs[k]);
            }
            j
        },
        Ok(_) => {
            assert forall|k: int| 0 <= k < attrs.len() - 1 implies lookup(
                types,
                #[trigger] attrs[k].content_type,
            ) is Some by {
                lemma_prefix_registered(pre, types, k);
                assert(pre[k] == attrs[k]);
            }
            attrs.len() - 1
        },
    }
}

/// A plugin with an attribute whose content-type is unregistered yields no
/// file: generation fails with the content-type of the first such attribute.
pub proof fn law_unregistered_content_type_fails(
    p: PluginView,
    types: Seq<(Seq<char>, Seq<char>)>,
    imports: Seq<(Seq<char>, Seq<char>)>,
    component_ident: Seq<char>,
    manifest_patch: Result<GeneratedFile, GenerationError>,
    i: int,
)
    requires
        0 <= i < p.attributes.len(),
        lookup(types, p.attributes[i].content_type) is None,
    ensures
        exists|j: int|
            0 <= j <= i && lookup(types, p.attributes[j].content_type) is None && package_outcome(
                index_outcome(p, types, imports, component_ident),
                file_result_view(manifest_patch),
            ) == Err::<Seq<GeneratedFileView>, GenerationErrorView>(
                GenerationErrorView::UnknownContentType(p.attributes[j].content_type),
            ),
{
    law_declarations_fail_on_first_unregistered(p.attributes, types, i);
}

/// The import statements of two attribute lists, one after the other, are
/// those of the first list followed by those of the second.
pub proof fn law_imports_concatenate(
    a: Seq<AttributeView>,
    b: Seq<AttributeView>,
    types: Seq<(Seq<char>, Seq<char>)>,
    imports: Seq<(Seq<char>, Seq<char>)>,
)
    ensures
        import_lines(a + b, types, imports) == import_lines(a, types, imports) + import_lines(
            b,
            types,
            imports,
        ),
    decreases b.len(),
{
    if b.len() == 0 {
        assert(a + b =~= a);
        assert(import_lines(a, types, imports) + import_lines(b, types, imports) =~= import_lines(
            a,
            types,
            imports,
        ));
    } else {
        assert((a + b).drop_last() =~= a + b.drop_last());
        assert((a + b).last() == b.last());
        law_imports_concatenate(a, b.drop_last(), types, imports);
        assert(import_lines(a, types, imports) + import_lines(b.drop_last(), types, imports)
            + attribute_imports(b.last(), types, imports) =~= import_lines(a, types, imports) + (
        import_lines(b.drop_last(), types, imports) + attribute_imports(
            b.last(),
            types,
            imports,
        )));
    }
}

/// A single attribute contributes exactly one import statement where its
/// resolved type has a registered module, and none otherwise.
pub proof fn law_one_import_per_attribute(
    a: AttributeView,
    types: Seq<(Seq<char>, Seq<char>)>,
    imports: Seq<(Seq<char>, Seq<char>)>,
)
    ensures
        import_lines(seq![a], types, imports) == match lookup(
            imports,
            resolved_type(types, a.content_type),
        ) {
            Some(path) => seq![import_statement(resolved_type(types, a.content_type), path)],
            None => Seq::<Seq<char>>::empty(),
        },
{
    assert(seq![a].drop_last() =~= Seq::<AttributeView>::empty());
    assert(import_lines(Seq::<AttributeView>::empty(), types, imports) + attribute_imports(
        a,
        types,
        imports,
    ) =~= attribute_imports(a, types, imports));
}

/// Two attributes of one content-type whose type has a registered module
/// yield the same import statement twice: imports are not deduplicated.
pub proof fn law_shared_type_imported_twice(
    a: AttributeView,
    b: AttributeView,
    types: Seq<(Seq<char>, Seq<char>)>,
    imports: Seq<(Seq<char>, Seq<char>)>,
)
    requires
        a.content_type == b.content_type,
        lookup(imports, resolved_type(types, a.content_type)) is Some,
    ensures
        import_lines(seq![a, b], types, imports).len() == 2,
        import_lines(seq![a, b], types, imports)[0] == import_lines(seq![a, b], types, imports)[1],
{
    law_one_import_per_attribute(a, types, imports);
    law_one_import_per_attribute(b, types, imports);
    assert(seq![a, b] =~= seq![a] + seq![b]);
    law_imports_concatenate(seq![a], seq![b], types, imports);
}

/// Generating twice from the same plugin, registries, component identifier
/// and manifest patch yields identical outcomes, byte for byte.
pub proof fn law_generation_is_deterministic(
    p: PluginView,
    types: Seq<(Seq<char>, Seq<char>)>,
    imports: Seq<(Seq<char>, Seq<char>)>,
    component_ident: Seq<char>,
    manifest_patch: Result<GeneratedFile, GenerationError>,
    first: Result<Vec<GeneratedFile>, GenerationError>,
    second: Result<Vec<GeneratedFile>, GenerationError>,
)
    requires
        files_result_view(first) == package_outcome(
            index_outcome(p, types, imports, component_ident),
            file_result_view(manifest_patch),
        ),
        files_result_view(second) == package_outcome(
            index_outcome(p, types, imports, component_ident),
            file_result_view(manifest_patch),
        ),
    ensures
        files_result_view(first) == files_result_view(second),
        first is Ok <==> second is Ok,
{
}

} // verus!

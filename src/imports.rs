//! The import statements that a plugin's state declaration needs: one per
//! attribute whose type has a registered module, in attribute order and
//! without deduplication.

use crate::model::{strings_view, AttributeView, Plugin};
use crate::registry::{lookup, Registry};
use vstd::prelude::*;
use vstd::string::*;

verus! {

/// The type name that content-type `c` resolves to: its registered type, or
/// `c` itself where none is registered.
pub open spec fn resolved_type(types: Seq<(Seq<char>, Seq<char>)>, c: Seq<char>) -> Seq<char> {
    match lookup(types, c) {
        Some(t) => t,
        None => c,
    }
}

/// The statement that imports type `t` from module `path`.
pub open spec fn import_statement(t: Seq<char>, path: Seq<char>) -> Seq<char> {
    "import { "@ + t + " } from '"@ + path + "'"@
}

/// The import statements that attribute `a` contributes: none, or one.
pub open spec fn attribute_imports(
    a: AttributeView,
    types: Seq<(Seq<char>, Seq<char>)>,
    imports: Seq<(Seq<char>, Seq<char>)>,
) -> Seq<Seq<char>> {
    let t = resolved_type(types, a.content_type);
    match lookup(imports, t) {
        Some(p) => seq![import_statement(t, p)],
        None => Seq::empty(),
    }
}

/// The import statements of all of `attrs`, in attribute order.
pub open spec fn import_lines(
    attrs: Seq<AttributeView>,
    types: Seq<(Seq<char>, Seq<char>)>,
    imports: Seq<(Seq<char>, Seq<char>)>,
) -> Seq<Seq<char>>
    decreases attrs.len(),
{
    if attrs.len() == 0 {
        Seq::empty()
    } else {
        import_lines(attrs.drop_last(), types, imports) + attribute_imports(
            attrs.last(),
            types,
            imports,
        )
    }
}

/// The statement that imports type `t` from module `path`.
pub fn import_statement_for(t: &String, path: &String) -> (r: String)
    ensures
        r@ == import_statement(t@, path@),
{
    let mut r = "import { ".to_owned();
    r.append(t.as_str());
    r.append(" } from '");
    r.append(path.as_str());
    r.append("'");
    r
}

/// The import statements that the types of the plugin's attributes need, in
/// attribute order; an attribute whose type has no registered module adds
/// none, and two attributes of one type add the same statement twice.
pub fn state_type_imports(plugin: &Plugin, types: &Registry, imports: &Registry) -> (r: Vec<
    String,
>)
    ensures
        strings_view(r@) == import_lines(plugin@.attributes, types@, imports@),
{
    let ghost attrs = plugin@.attributes;
    let mut res: Vec<String> = Vec::new();
    let mut i: usize = 0;
    assert(strings_view(res@) =~= import_lines(attrs.take(0), types@, imports@));
    while i < plugin.attributes.len()
        invariant
            i <= plugin.attributes.len(),
            attrs == plugin@.attributes,
            attrs.len() == plugin.attributes.len(),
            strings_view(res@) == import_lines(attrs.take(i as int), types@, imports@),
        decreases plugin.attributes.len() - i,
    {
        let a = &plugin.attributes[i];
        assert(attrs.take(i + 1).drop_last() =~= attrs.take(i as int));
        assert(attrs.take(i + 1).last() == a@);
        let t = match types.get(&a.content_type) {
            Some(t) => t,
            None => a.content_type.clone(),
        };
        let ghost before = res@;
        match imports.get(&t) {
            Some(p) => {
                res.push(import_statement_for(&t, &p));
                assert(strings_view(res@) =~= strings_view(before) + attribute_imports(
                    a@,
                    types@,
                    imports@,
                ));
            },
            None => {
                assert(strings_view(res@) =~= strings_view(before) + attribute_imports(
                    a@,
                    types@,
                    imports@,
                ));
            },
        }
        i = i + 1;
    }
    assert(attrs.take(i as int) =~= attrs);
    res
}

} // verus!

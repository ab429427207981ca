//! The state declaration of a plugin: one `<identifier>: <type>` fragment per
//! attribute, in attribute order.

use crate::error::{GenerationError, GenerationErrorView};
use crate::model::{strings_view, Attribute, AttributeView, Multiplicity, Plugin};
use crate::registry::{lookup, Registry};
use vstd::prelude::*;
use vstd::string::*;

verus! {

/// The type expression for values of base type `t` held with multiplicity `m`.
pub open spec fn type_expr(t: Seq<char>, m: Multiplicity) -> Seq<char> {
    match m {
        Multiplicity::Once => t,
        Multiplicity::Optional => t + " | null"@,
        Multiplicity::Arbitrary | Multiplicity::MinOnce => "Array<"@ + t + ">"@,
    }
}

/// The declaration fragment of an attribute named `id` whose base type is `t`.
pub open spec fn declaration(id: Seq<char>, t: Seq<char>, m: Multiplicity) -> Seq<char> {
    id + ": "@ + type_expr(t, m)
}

/// The declaration fragments of `attrs` under the type registry `types`, or
/// the first content-type in `attrs` that `types` does not map.
pub open spec fn declarations(
    attrs: Seq<AttributeView>,
    types: Seq<(Seq<char>, Seq<char>)>,
) -> Result<Seq<Seq<char>>, Seq<char>>
    decreases attrs.len(),
{
    if attrs.len() == 0 {
        Ok(Seq::empty())
    } else {
        match declarations(attrs.drop_last(), types) {
            Err(c) => Err(c),
            Ok(prefix) => {
                let a = attrs.last();
                match lookup(types, a.content_type) {
                    None => Err(a.content_type),
                    Some(t) => Ok(prefix.push(declaration(a.identifier, t, a.multiplicity))),
                }
            },
        }
    }
}

/// The type expression for values of base type `base` held with multiplicity `m`.
pub fn type_expression(base: &String, m: Multiplicity) -> (r: String)
    ensures
        r@ == type_expr(base@, m),
{
    match m {
        Multiplicity::Once => base.clone(),
        Multiplicity::Optional => {
            let mut r = base.clone();
            r.append(" | null");
            r
        },
        Multiplicity::Arbitrary | Multiplicity::MinOnce => {
            let mut r = "Array<".to_owned();
            r.append(base.as_str());
            r.append(">");
            r
        },
    }
}

/// The declaration fragment of one attribute, or the error naming its
/// content-type when `types` does not map it.
pub fn attribute_declaration(a: &Attribute, types: &Registry) -> (r: Result<
    String,
    GenerationError,
>)
    ensures
        match types.spec_get(a.content_type@) {
            None => r is Err && r->Err_0@ == GenerationErrorView::UnknownContentType(
                a.content_type@,
            ),
            Some(t) => r is Ok && r->Ok_0@ == declaration(a.identifier@, t, a.multiplicity),
        },
        types.spec_get(a.content_type@) is Some && a.multiplicity == Multiplicity::Once ==> r->Ok_0@
            == a.identifier@ + ": "@ + types.spec_get(a.content_type@)->Some_0,
        types.spec_get(a.content_type@) is Some && a.multiplicity == Multiplicity::Optional
            ==> r->Ok_0@ == a.identifier@ + ": "@ + types.spec_get(a.content_type@)->Some_0
            + " | null"@,
        types.spec_get(a.content_type@) is Some && (a.multiplicity == Multiplicity::Arbitrary
            || a.multiplicity == Multiplicity::MinOnce) ==> r->Ok_0@ == a.identifier@ + ": "@
            + "Array<"@ + types.spec_get(a.content_type@)->Some_0 + ">"@,
{
    match types.get(&a.content_type) {
        None => Err(GenerationError::UnknownContentType(a.content_type.clone())),
        Some(t) => {
            let ty = type_expression(&t, a.multiplicity);
            let mut r = a.identifier.clone();
            r.append(": ");
            r.append(ty.as_str());
            proof {
                assert(a.identifier@ + ": "@ + (t@ + " | null"@) =~= a.identifier@ + ": "@ + t@
                    + " | null"@);
                assert(a.identifier@ + ": "@ + ("Array<"@ + t@ + ">"@) =~= a.identifier@ + ": "@
                    + "Array<"@ + t@ + ">"@);
            }
            Ok(r)
        },
    }
}

/// The declaration fragments of the plugin's attributes, in attribute order,
/// or the error naming the first content-type that `types` does not map.
pub fn state_attributes(plugin: &Plugin, types: &Registry) -> (r: Result<
    Vec<String>,
    GenerationError,
>)
    ensures
        match declarations(plugin@.attributes, types@) {
            Ok(d) => r is Ok && strings_view(r->Ok_0@) == d,
            Err(c) => r is Err && r->Err_0@ == GenerationErrorView::UnknownContentType(c),
        },
{
    let ghost attrs = plugin@.attributes;
    let mut res: Vec<String> = Vec::new();
    let mut i: usize = 0;
    assert(attrs.take(0) =~= Seq::<AttributeView>::empty());
    assert(strings_view(res@) =~= Seq::<Seq<char>>::empty());
    while i < plugin.attributes.len()
        invariant
            i <= plugin.attributes.len(),
            attrs == plugin@.attributes,
            attrs.len() == plugin.attributes.len(),
            declarations(attrs.take(i as int), types@) == Ok::<Seq<Seq<char>>, Seq<char>>(
                strings_view(res@),
            ),
        decreases plugin.attributes.len() - i,
    {
        let a = &plugin.attributes[i];
        assert(attrs.take(i + 1).drop_last() =~= attrs.take(i as int));
        assert(attrs.take(i + 1).last() == a@);
        match attribute_declaration(a, types) {
            Err(e) => {
                proof {
                    lemma_declarations_error_persists(attrs, types@, i + 1);
                    assert(attrs.take(attrs.len() as int) =~= attrs);
                    assert(declarations(attrs.take(attrs.len() as int), types@) == declarations(
                        attrs.take(i + 1),
                        types@,
                    ));
                }
                return Err(e);
            },
            Ok(d) => {
                let ghost before = res@;
                res.push(d);
                assert(strings_view(res@) =~= strings_view(before).push(d@));
            },
        }
        i = i + 1;
    }
    assert(attrs.take(i as int) =~= attrs);
    Ok(res)
}

/// Once a prefix of the attributes fails, every longer prefix fails the same way.
pub proof fn lemma_declarations_error_persists(
    attrs: Seq<AttributeView>,
    types: Seq<(Seq<char>, Seq<char>)>,
    n: int,
)
    requires
        0 <= n <= attrs.len(),
        declarations(attrs.take(n), types) is Err,
    ensures
        forall|m: int|
            n <= m <= attrs.len() ==> #[trigger] declarations(attrs.take(m), types) == declarations(
                attrs.take(n),
                types,
            ),
    decreases attrs.len() - n,
{
    if n < attrs.len() {
        assert(attrs.take(n + 1).drop_last() =~= attrs.take(n));
        lemma_declarations_error_persists(attrs, types, n + 1);
    }
}

} // verus!

//! The plugin description that generation reads: a plugin identifier and an
//! ordered list of typed attributes.

use vstd::prelude::*;

verus! {

/// How many values an attribute holds.
#[derive(Clone, Copy, Debug, PartialEq, Eq, Structural)]
pub enum Multiplicity {
    /// Exactly one value.
    Once,
    /// One value or none.
    Optional,
    /// Zero or more values.
    Arbitrary,
    /// One or more values.
    MinOnce,
}

/// One named, typed field of a plugin's state.
#[derive(Clone, Debug)]
pub struct Attribute {
    pub identifier: String,
    pub content_type: String,
    pub multiplicity: Multiplicity,
}

/// The mathematical value of an [`Attribute`].
pub struct AttributeView {
    pub identifier: Seq<char>,
    pub content_type: Seq<char>,
    pub multiplicity: Multiplicity,
}

impl View for Attribute {
    type V = AttributeView;

    open spec fn view(&self) -> AttributeView {
        AttributeView {
            identifier: self.identifier@,
            content_type: self.content_type@,
            multiplicity: self.multiplicity,
        }
    }
}

impl Attribute {
    pub fn new(identifier: String, content_type: String, multiplicity: Multiplicity) -> (r:
        Attribute)
        ensures
            r.identifier@ == identifier@,
            r.content_type@ == content_type@,
            r.multiplicity == multiplicity,
    {
        Attribute { identifier, content_type, multiplicity }
    }
}

/// The identifier of a plugin: its locator name and its version.
#[derive(Clone, Debug)]
pub struct PluginIdentifier {
    pub name: String,
    pub version: String,
}

/// A described editable content component.
#[derive(Clone, Debug)]
pub struct Plugin {
    pub identifier: PluginIdentifier,
    pub attributes: Vec<Attribute>,
}

/// The mathematical value of a [`Plugin`].
pub struct PluginView {
    pub name: Seq<char>,
    pub version: Seq<char>,
    pub attributes: Seq<AttributeView>,
}

impl View for Plugin {
    type V = PluginView;

    open spec fn view(&self) -> PluginView {
        PluginView {
            name: self.identifier.name@,
            version: self.identifier.version@,
            attributes: self.attributes@.map_values(|a: Attribute| a@),
        }
    }
}

impl Plugin {
    pub fn new(name: String, version: String, attributes: Vec<Attribute>) -> (r: Plugin)
        ensures
            r.identifier.name@ == name@,
            r.identifier.version@ == version@,
            r.attributes@ == attributes@,
    {
        Plugin { identifier: PluginIdentifier { name, version }, attributes }
    }
}

/// The views of a sequence of strings.
pub open spec fn strings_view(v: Seq<String>) -> Seq<Seq<char>> {
    v.map_values(|s: String| s@)
}

} // verus!

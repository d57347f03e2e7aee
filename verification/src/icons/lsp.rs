//! Symbols for the kinds of a document symbol.

use crate::icons::{configured_or, symbol_or};
use crate::text::{opt_text, opt_text_clone, opt_text_eq};
use vstd::prelude::*;

verus! {

/// Shown for a kind of document symbol that has no symbol configured.
pub const LSP_DEFAULT: &'static str = "*";

/// One optional symbol for each kind that a language server gives to a document symbol.
#[derive(Debug)]
pub struct Lsp {
    pub file: Option<String>,
    pub module: Option<String>,
    pub namespace: Option<String>,
    pub package: Option<String>,
    pub class: Option<String>,
    pub method: Option<String>,
    pub property: Option<String>,
    pub field: Option<String>,
    pub constructor: Option<String>,
    pub enum_: Option<String>,
    pub interface: Option<String>,
    pub function: Option<String>,
    pub variable: Option<String>,
    pub constant: Option<String>,
    pub string: Option<String>,
    pub number: Option<String>,
    pub boolean: Option<String>,
    pub array: Option<String>,
    pub object: Option<String>,
    pub key: Option<String>,
    pub null: Option<String>,
    pub enum_member: Option<String>,
    pub struct_: Option<String>,
    pub event: Option<String>,
    pub operator: Option<String>,
    pub type_parameter: Option<String>,
}

/// Mathematical value of an [`Lsp`] table.
pub ghost struct LspView {
    pub file: Option<Seq<char>>,
    pub module: Option<Seq<char>>,
    pub namespace: Option<Seq<char>>,
    pub package: Option<Seq<char>>,
    pub class: Option<Seq<char>>,
    pub method: Option<Seq<char>>,
    pub property: Option<Seq<char>>,
    pub field: Option<Seq<char>>,
    pub constructor: Option<Seq<char>>,
    pub enum_: Option<Seq<char>>,
    pub interface: Option<Seq<char>>,
    pub function: Option<Seq<char>>,
    pub variable: Option<Seq<char>>,
    pub constant: Option<Seq<char>>,
    pub string: Option<Seq<char>>,
    pub number: Option<Seq<char>>,
    pub boolean: Option<Seq<char>>,
    pub array: Option<Seq<char>>,
    pub object: Option<Seq<char>>,
    pub key: Option<Seq<char>>,
    pub null: Option<Seq<char>>,
    pub enum_member: Option<Seq<char>>,
    pub struct_: Option<Seq<char>>,
    pub event: Option<Seq<char>>,
    pub operator: Option<Seq<char>>,
    pub type_parameter: Option<Seq<char>>,
}

impl LspView {
    /// The table in which nothing is configured.
    pub open spec fn unset() -> LspView {
        LspView {
            file: None,
            module: None,
            namespace: None,
            package: None,
            class: None,
            method: None,
            property: None,
            field: None,
            constructor: None,
            enum_: None,
            interface: None,
            function: None,
            variable: None,
            constant: None,
            string: None,
            number: None,
            boolean: None,
            array: None,
            object: None,
            key: None,
            null: None,
            enum_member: None,
            struct_: None,
            event: None,
            operator: None,
            type_parameter: None,
        }
    }
}

impl View for Lsp {
    type V = LspView;

    open spec fn view(&self) -> LspView {
        LspView {
            file: opt_text(self.file),
            module: opt_text(self.module),
            namespace: opt_text(self.namespace),
            package: opt_text(self.package),
            class: opt_text(self.class),
            method: opt_text(self.method),
            property: opt_text(self.property),
            field: opt_text(self.field),
            constructor: opt_text(self.constructor),
            enum_: opt_text(self.enum_),
            interface: opt_text(self.interface),
            function: opt_text(self.function),
            variable: opt_text(self.variable),
            constant: opt_text(self.constant),
            string: opt_text(self.string),
            number: opt_text(self.number),
            boolean: opt_text(self.boolean),
            array: opt_text(self.array),
            object: opt_text(self.object),
            key: opt_text(self.key),
            null: opt_text(self.null),
            enum_member: opt_text(self.enum_member),
            struct_: opt_text(self.struct_),
            event: opt_text(self.event),
            operator: opt_text(self.operator),
            type_parameter: opt_text(self.type_parameter),
        }
    }
}

impl Lsp {
    /// Symbol for files.
    #[inline]
    pub fn file(&self) -> (symbol: &str)
        ensures
            symbol@ == symbol_or(self@.file, LSP_DEFAULT@),
    {
        configured_or(&self.file, LSP_DEFAULT)
    }

    /// Symbol for modules.
    #[inline]
    pub fn module(&self) -> (symbol: &str)
        ensures
            symbol@ == symbol_or(self@.module, LSP_DEFAULT@),
    {
        configured_or(&self.module, LSP_DEFAULT)
    }

    /// Symbol for namespaces.
    #[inline]
    pub fn namespace(&self) -> (symbol: &str)
        ensures
            symbol@ == symbol_or(self@.namespace, LSP_DEFAULT@),
    {
        configured_or(&self.namespace, LSP_DEFAULT)
    }

    /// Symbol for packages.
    #[inline]
    pub fn package(&self) -> (symbol: &str)
        ensures
            symbol@ == symbol_or(self@.package, LSP_DEFAULT@),
    {
        configured_or(&self.package, LSP_DEFAULT)
    }

    /// Symbol for classes.
    #[inline]
    pub fn class(&self) -> (symbol: &str)
        ensures
            symbol@ == symbol_or(self@.class, LSP_DEFAULT@),
    {
        configured_or(&self.class, LSP_DEFAULT)
    }

    /// Symbol for methods.
    #[inline]
    pub fn method(&self) -> (symbol: &str)
        ensures
            symbol@ == symbol_or(self@.method, LSP_DEFAULT@),
    {
        configured_or(&self.method, LSP_DEFAULT)
    }

    /// Symbol for properties.
    #[inline]
    pub fn property(&self) -> (symbol: &str)
        ensures
            symbol@ == symbol_or(self@.property, LSP_DEFAULT@),
    {
        configured_or(&self.property, LSP_DEFAULT)
    }

    /// Symbol for fields.
    #[inline]
    pub fn field(&self) -> (symbol: &str)
        ensures
            symbol@ == symbol_or(self@.field, LSP_DEFAULT@),
    {
        configured_or(&self.field, LSP_DEFAULT)
    }

    /// Symbol for constructors.
    #[inline]
    pub fn constructor(&self) -> (symbol: &str)
        ensures
            symbol@ == symbol_or(self@.constructor, LSP_DEFAULT@),
    {
        configured_or(&self.constructor, LSP_DEFAULT)
    }

    /// Symbol for enumerations.
    #[inline]
    pub fn enum_(&self) -> (symbol: &str)
        ensures
            symbol@ == symbol_or(self@.enum_, LSP_DEFAULT@),
    {
        configured_or(&self.enum_, LSP_DEFAULT)
    }

    /// Symbol for interfaces.
    #[inline]
    pub fn interface(&self) -> (symbol: &str)
        ensures
            symbol@ == symbol_or(self@.interface, LSP_DEFAULT@),
    {
        configured_or(&self.interface, LSP_DEFAULT)
    }

    /// Symbol for functions.
    #[inline]
    pub fn function(&self) -> (symbol: &str)
        ensures
            symbol@ == symbol_or(self@.function, LSP_DEFAULT@),
    {
        configured_or(&self.function, LSP_DEFAULT)
    }

    /// Symbol for variables.
    #[inline]
    pub fn variable(&self) -> (symbol: &str)
        ensures
            symbol@ == symbol_or(self@.variable, LSP_DEFAULT@),
    {
        configured_or(&self.variable, LSP_DEFAULT)
    }

    /// Symbol for constants.
    #[inline]
    pub fn constant(&self) -> (symbol: &str)
        ensures
            symbol@ == symbol_or(self@.constant, LSP_DEFAULT@),
    {
        configured_or(&self.constant, LSP_DEFAULT)
    }

    /// Symbol for strings.
    #[inline]
    pub fn string(&self) -> (symbol: &str)
        ensures
            symbol@ == symbol_or(self@.string, LSP_DEFAULT@),
    {
        configured_or(&self.string, LSP_DEFAULT)
    }

    /// Symbol for numbers.
    #[inline]
    pub fn number(&self) -> (symbol: &str)
        ensures
            symbol@ == symbol_or(self@.number, LSP_DEFAULT@),
    {
        configured_or(&self.number, LSP_DEFAULT)
    }

    /// Symbol for booleans.
    #[inline]
    pub fn boolean(&self) -> (symbol: &str)
        ensures
            symbol@ == symbol_or(self@.boolean, LSP_DEFAULT@),
    {
        configured_or(&self.boolean, LSP_DEFAULT)
    }

    /// Symbol for arrays.
    #[inline]
    pub fn array(&self) -> (symbol: &str)
        ensures
            symbol@ == symbol_or(self@.array, LSP_DEFAULT@),
    {
        configured_or(&self.array, LSP_DEFAULT)
    }

    /// Symbol for objects.
    #[inline]
    pub fn object(&self) -> (symbol: &str)
        ensures
            symbol@ == symbol_or(self@.object, LSP_DEFAULT@),
    {
        configured_or(&self.object, LSP_DEFAULT)
    }

    /// Symbol for keys.
    #[inline]
    pub fn key(&self) -> (symbol: &str)
        ensures
            symbol@ == symbol_or(self@.key, LSP_DEFAULT@),
    {
        configured_or(&self.key, LSP_DEFAULT)
    }

    /// Symbol for null values.
    #[inline]
    pub fn null(&self) -> (symbol: &str)
        ensures
            symbol@ == symbol_or(self@.null, LSP_DEFAULT@),
    {
        configured_or(&self.null, LSP_DEFAULT)
    }

    /// Symbol for enumeration members.
    #[inline]
    pub fn enum_member(&self) -> (symbol: &str)
        ensures
            symbol@ == symbol_or(self@.enum_member, LSP_DEFAULT@),
    {
        configured_or(&self.enum_member, LSP_DEFAULT)
    }

    /// Symbol for structures.
    #[inline]
    pub fn struct_(&self) -> (symbol: &str)
        ensures
            symbol@ == symbol_or(self@.struct_, LSP_DEFAULT@),
    {
        configured_or(&self.struct_, LSP_DEFAULT)
    }

    /// Symbol for events.
    #[inline]
    pub fn event(&self) -> (symbol: &str)
        ensures
            symbol@ == symbol_or(self@.event, LSP_DEFAULT@),
    {
        configured_or(&self.event, LSP_DEFAULT)
    }

    /// Symbol for operators.
    #[inline]
    pub fn operator(&self) -> (symbol: &str)
        ensures
            symbol@ == symbol_or(self@.operator, LSP_DEFAULT@),
    {
        configured_or(&self.operator, LSP_DEFAULT)
    }

    /// Symbol for type parameters.
    #[inline]
    pub fn type_parameter(&self) -> (symbol: &str)
        ensures
            symbol@ == symbol_or(self@.type_parameter, LSP_DEFAULT@),
    {
        configured_or(&self.type_parameter, LSP_DEFAULT)
    }
}

impl Default for Lsp {
    /// The table in which nothing is configured.
    fn default() -> (r: Self)
        ensures
            r@ == LspView::unset(),
    {
        Lsp {
            file: None,
            module: None,
            namespace: None,
            package: None,
            class: None,
            method: None,
            property: None,
            field: None,
            constructor: None,
            enum_: None,
            interface: None,
            function: None,
            variable: None,
            constant: None,
            string: None,
            number: None,
            boolean: None,
            array: None,
            object: None,
            key: None,
            null: None,
            enum_member: None,
            struct_: None,
            event: None,
            operator: None,
            type_parameter: None,
        }
    }
}

impl Clone for Lsp {
    fn clone(&self) -> (r: Self)
        ensures
            r@ == self@,
    {
        Lsp {
            file: opt_text_clone(&self.file),
            module: opt_text_clone(&self.module),
            namespace: opt_text_clone(&self.namespace),
            package: opt_text_clone(&self.package),
            class: opt_text_clone(&self.class),
            method: opt_text_clone(&self.method),
            property: opt_text_clone(&self.property),
            field: opt_text_clone(&self.field),
            constructor: opt_text_clone(&self.constructor),
            enum_: opt_text_clone(&self.enum_),
            interface: opt_text_clone(&self.interface),
            function: opt_text_clone(&self.function),
            variable: opt_text_clone(&self.variable),
            constant: opt_text_clone(&self.constant),
            string: opt_text_clone(&self.string),
            number: opt_text_clone(&self.number),
            boolean: opt_text_clone(&self.boolean),
            array: opt_text_clone(&self.array),
            object: opt_text_clone(&self.object),
            key: opt_text_clone(&self.key),
            null: opt_text_clone(&self.null),
            enum_member: opt_text_clone(&self.enum_member),
            struct_: opt_text_clone(&self.struct_),
            event: opt_text_clone(&self.event),
            operator: opt_text_clone(&self.operator),
            type_parameter: opt_text_clone(&self.type_parameter),
        }
    }
}

impl PartialEq for Lsp {
    fn eq(&self, other: &Self) -> (r: bool) {
        opt_text_eq(&self.file, &other.file)
            && opt_text_eq(&self.module, &other.module)
            && opt_text_eq(&self.namespace, &other.namespace)
            && opt_text_eq(&self.package, &other.package)
            && opt_text_eq(&self.class, &other.class)
            && opt_text_eq(&self.method, &other.method)
            && opt_text_eq(&self.property, &other.property)
            && opt_text_eq(&self.field, &other.field)
            && opt_text_eq(&self.constructor, &other.constructor)
            && opt_text_eq(&self.enum_, &other.enum_)
            && opt_text_eq(&self.interface, &other.interface)
            && opt_text_eq(&self.function, &other.function)
            && opt_text_eq(&self.variable, &other.variable)
            && opt_text_eq(&self.constant, &other.constant)
            && opt_text_eq(&self.string, &other.string)
            && opt_text_eq(&self.number, &other.number)
            && opt_text_eq(&self.boolean, &other.boolean)
            && opt_text_eq(&self.array, &other.array)
            && opt_text_eq(&self.object, &other.object)
            && opt_text_eq(&self.key, &other.key)
            && opt_text_eq(&self.null, &other.null)
            && opt_text_eq(&self.enum_member, &other.enum_member)
            && opt_text_eq(&self.struct_, &other.struct_)
            && opt_text_eq(&self.event, &other.event)
            && opt_text_eq(&self.operator, &other.operator)
            && opt_text_eq(&self.type_parameter, &other.type_parameter)
    }
}

impl vstd::std_specs::cmp::PartialEqSpecImpl for Lsp {
    open spec fn obeys_eq_spec() -> bool {
        true
    }

    open spec fn eq_spec(&self, other: &Self) -> bool {
        self@ == other@
    }
}

impl Eq for Lsp {

}

} // verus!

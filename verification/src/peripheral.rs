//! The peripheral entity: name, base address and description behind the
//! same parse / encode / builder contract every entity satisfies.  Its
//! structural validation accepts the entity but records a warning when the
//! name falls outside the dimable identifier grammar.

use vstd::prelude::*;
use crate::error::{
    not_expected_tag_view, spec_strict_of_unstrict, uninitialized_view, BuildError, Error,
    ErrorView, Warning, warning_matches, SVDError,
};
use crate::name::{check_dimable_name, is_dimable_name, name_error_view};
use crate::scalar::{dec_string_of, parse_u64, spec_parse_u64, u64_to_dec};
use crate::tree::{
    lemma_trees_view_eq_deep_view, spec_child_text, spec_opt_text_elem, spec_optional_child_text,
    spec_text_elem, str_eq, Tree, TreeView,
};

verus! {

/// One memory-mapped peripheral.
#[derive(Clone, Debug, PartialEq, Eq)]
pub struct Peripheral {
    /// Peripheral name; expected to satisfy the dimable identifier grammar.
    pub name: String,
    /// Lowest address of the peripheral's register block.
    pub base_address: u64,
    /// Human-readable description, if given.
    pub description: Option<String>,
}

/// Mathematical model of [`Peripheral`].
#[verifier::ext_equal]
pub struct PeripheralView {
    pub name: Seq<char>,
    pub base_address: u64,
    pub description: Option<Seq<char>>,
}

impl View for Peripheral {
    type V = PeripheralView;

    open spec fn view(&self) -> PeripheralView {
        PeripheralView {
            name: self.name@,
            base_address: self.base_address,
            description: self.description.deep_view(),
        }
    }
}

impl DeepView for Peripheral {
    type V = PeripheralView;

    open spec fn deep_view(&self) -> PeripheralView {
        self.view()
    }
}

/// Staged construction of a [`Peripheral`].
#[derive(Clone, Debug)]
pub struct PeripheralBuilder {
    pub name: Option<String>,
    pub base_address: Option<u64>,
    pub description: Option<String>,
}

/// Mathematical model of [`PeripheralBuilder`].
#[verifier::ext_equal]
pub struct PeripheralBuilderView {
    pub name: Option<Seq<char>>,
    pub base_address: Option<u64>,
    pub description: Option<Seq<char>>,
}

impl View for PeripheralBuilder {
    type V = PeripheralBuilderView;

    open spec fn view(&self) -> PeripheralBuilderView {
        PeripheralBuilderView {
            name: self.name.deep_view(),
            base_address: self.base_address,
            description: self.description.deep_view(),
        }
    }
}

impl Default for PeripheralBuilder {
    /// The builder with every slot unset.
    fn default() -> (r: PeripheralBuilder)
        ensures
            r@ =~= (PeripheralBuilderView { name: None, base_address: None, description: None }),
    {
        PeripheralBuilder { name: None, base_address: None, description: None }
    }
}

/// The model of [`Peripheral::validate`]: the entity always stands; a name
/// outside the dimable grammar is recorded as a warning, not an error.
pub open spec fn spec_validate_peripheral(p: PeripheralView) -> (PeripheralView, Result<
    (),
    ErrorView,
>) {
    (
        p,
        if is_dimable_name(p.name) {
            Ok(())
        } else {
            Err(name_error_view(p.name, "name"@))
        },
    )
}

/// The model of [`PeripheralBuilder::build_unstrict`]: required fields in
/// declaration order, then structural validation.
pub open spec fn spec_build_peripheral(b: PeripheralBuilderView) -> Result<
    (PeripheralView, Result<(), ErrorView>),
    ErrorView,
> {
    match b.name {
        None => Err(uninitialized_view("name"@)),
        Some(name) => match b.base_address {
            None => Err(uninitialized_view("base_address"@)),
            Some(base_address) => Ok(
                spec_validate_peripheral(
                    PeripheralView { name, base_address, description: b.description },
                ),
            ),
        },
    }
}

/// Relates an executable lenient outcome to its model.
pub open spec fn peripheral_unstrict_matches(
    r: Result<(Peripheral, Warning), Error>,
    s: Result<(PeripheralView, Result<(), ErrorView>), ErrorView>,
) -> bool {
    match (r, s) {
        (Ok((p, w)), Ok((pv, wv))) => p@ =~= pv && warning_matches(w, wv),
        (Err(e), Err(ev)) => e@ =~= ev,
        _ => false,
    }
}

/// Relates an executable strict outcome to its model.
pub open spec fn peripheral_strict_matches(
    r: Result<Peripheral, Error>,
    s: Result<PeripheralView, ErrorView>,
) -> bool {
    match (r, s) {
        (Ok(p), Ok(pv)) => p@ =~= pv,
        (Err(e), Err(ev)) => e@ =~= ev,
        _ => false,
    }
}

impl Peripheral {
    /// Structural validation: checks the name against the dimable grammar
    /// and records a violation on the warning channel.
    fn validate(self) -> (r: (Peripheral, Warning))
        ensures
            r.0@ =~= self@,
            warning_matches(r.1, spec_validate_peripheral(self@).1),
    {
        match check_dimable_name(self.name.as_str(), "name") {
            Ok(()) => (self, Ok(())),
            Err(e) => (self, Err(e)),
        }
    }
}

impl PeripheralBuilder {
    /// Set the peripheral name.
    pub fn name(self, value: String) -> (r: Self)
        ensures
            r@ =~= (PeripheralBuilderView { name: Some(value@), ..self@ }),
    {
        PeripheralBuilder { name: Some(value), ..self }
    }

    /// Set the base address.
    pub fn base_address(self, value: u64) -> (r: Self)
        ensures
            r@ =~= (PeripheralBuilderView { base_address: Some(value), ..self@ }),
    {
        PeripheralBuilder { base_address: Some(value), ..self }
    }

    /// Set or clear the description.
    pub fn description(self, value: Option<String>) -> (r: Self)
        ensures
            r@ =~= (PeripheralBuilderView { description: value.deep_view(), ..self@ }),
    {
        PeripheralBuilder { description: value, ..self }
    }

    /// Checks required fields in declaration order, then hands the entity
    /// to validation.
    pub fn build_unstrict(self) -> (r: Result<(Peripheral, Warning), Error>)
        ensures
            peripheral_unstrict_matches(r, spec_build_peripheral(self@)),
    {
        let name = match self.name {
            Some(n) => n,
            None => {
                return Err(Error::build(BuildError::Uninitialized("name".to_owned())));
            },
        };
        let base_address = match self.base_address {
            Some(b) => b,
            None => {
                return Err(Error::build(BuildError::Uninitialized("base_address".to_owned())));
            },
        };
        Ok(Peripheral { name, base_address, description: self.description }.validate())
    }

    /// The strict wrapper: a warning resolves to a hard error.
    pub fn build(self) -> (r: Result<Peripheral, Error>)
        ensures
            peripheral_strict_matches(r, spec_strict_of_unstrict(spec_build_peripheral(self@))),
    {
        match self.build_unstrict()? {
            (p, Ok(())) => Ok(p),
            (_, Err(w)) => Err(w),
        }
    }
}

/// The model of the fields parsed after the name: base address and
/// description, then the builder.
pub open spec fn spec_parse_peripheral_fields(t: TreeView, name: Seq<char>) -> Result<
    (PeripheralView, Result<(), ErrorView>),
    ErrorView,
> {
    match spec_child_text(t, "baseAddress"@) {
        Err(e) => Err(e),
        Ok(bt) => match spec_parse_u64(bt) {
            Err(e) => Err(e),
            Ok(base_address) => match spec_optional_child_text(t, "description"@) {
                Err(e) => Err(e),
                Ok(description) => spec_build_peripheral(
                    PeripheralBuilderView {
                        name: Some(name),
                        base_address: Some(base_address),
                        description,
                    },
                ),
            },
        },
    }
}

/// The model of [`Peripheral::parse_unstrict`]: tag check, name extraction,
/// then the fields; inner errors and warnings carry the peripheral's frame.
pub open spec fn spec_parse_peripheral_unstrict(t: TreeView) -> Result<
    (PeripheralView, Result<(), ErrorView>),
    ErrorView,
> {
    if t.name != "peripheral"@ {
        Err(not_expected_tag_view("peripheral"@, t.name))
    } else {
        match spec_child_text(t, "name"@) {
            Err(e) => Err(e),
            Ok(name) => match spec_parse_peripheral_fields(t, name) {
                Err(e) => Err(e.push_frame("peripheral"@, name)),
                Ok((p, Ok(()))) => Ok((p, Ok(()))),
                Ok((p, Err(w))) => Ok((p, Err(w.push_frame("peripheral"@, name)))),
            },
        }
    }
}

/// The model of [`Peripheral::parse`].
pub open spec fn spec_parse_peripheral(t: TreeView) -> Result<PeripheralView, ErrorView> {
    spec_strict_of_unstrict(spec_parse_peripheral_unstrict(t))
}

/// The model of [`Peripheral::encode`].
pub open spec fn spec_encode_peripheral(p: PeripheralView) -> TreeView {
    TreeView {
        name: "peripheral"@,
        attributes: Seq::empty(),
        children: seq![spec_text_elem("name"@, p.name)] + spec_opt_text_elem(
            "description"@,
            p.description,
        ) + seq![spec_text_elem("baseAddress"@, dec_string_of(p.base_address as nat))],
        text: None,
    }
}

impl Peripheral {
    /// Lenient parse: the best-effort entity plus its diagnostic; a hard
    /// error only when construction cannot proceed at all.
    pub fn parse_unstrict(tree: &Tree) -> (r: Result<(Peripheral, Warning), Error>)
        ensures
            peripheral_unstrict_matches(r, spec_parse_peripheral_unstrict(tree@)),
    {
        if !str_eq(&tree.name, "peripheral") {
            return Err(
                Error::svd(
                    SVDError::NotExpectedTag {
                        expected: "peripheral".to_owned(),
                        found: tree.name.clone(),
                    },
                ),
            );
        }
        let name = tree.child_text("name")?;
        let base_text = match tree.child_text("baseAddress") {
            Ok(t) => t,
            Err(e) => {
                return Err(e.in_entity("peripheral", name.as_str()));
            },
        };
        let base_address = match parse_u64(base_text.as_str()) {
            Ok(v) => v,
            Err(e) => {
                return Err(e.in_entity("peripheral", name.as_str()));
            },
        };
        let description = match tree.optional_child_text("description") {
            Ok(v) => v,
            Err(e) => {
                return Err(e.in_entity("peripheral", name.as_str()));
            },
        };
        let built = PeripheralBuilder::default().name(name.clone()).base_address(
            base_address,
        ).description(description).build_unstrict();
        match built {
            Ok((p, Ok(()))) => Ok((p, Ok(()))),
            Ok((p, Err(w))) => Ok((p, Err(w.in_entity("peripheral", name.as_str())))),
            Err(e) => Err(e.in_entity("peripheral", name.as_str())),
        }
    }

    /// Strict parse: any diagnostic is promoted to a hard failure.
    pub fn parse(tree: &Tree) -> (r: Result<Peripheral, Error>)
        ensures
            peripheral_strict_matches(r, spec_parse_peripheral(tree@)),
    {
        match Peripheral::parse_unstrict(tree)? {
            (p, Ok(())) => Ok(p),
            (_, Err(w)) => Err(w),
        }
    }

    /// Deterministic serialization back to the document tree.
    pub fn encode(&self) -> (r: Result<Tree, Error>)
        ensures
            r matches Ok(t) && t@ =~~= spec_encode_peripheral(self@),
    {
        let mut children: Vec<Tree> = Vec::new();
        children.push(Tree::new_element("name", Some(self.name.clone())));
        if let Some(d) = &self.description {
            children.push(Tree::new_element("description", Some(d.clone())));
        }
        children.push(Tree::new_element("baseAddress", Some(u64_to_dec(self.base_address))));
        let t = Tree {
            name: "peripheral".to_owned(),
            attributes: Vec::new(),
            children,
            text: None,
        };
        proof {
            lemma_trees_view_eq_deep_view(t.children);
            assert(t@.children =~= t.children.deep_view());
            assert(t.children.deep_view() =~~= seq![spec_text_elem("name"@, self@.name)]
                + spec_opt_text_elem("description"@, self@.description) + seq![
                spec_text_elem("baseAddress"@, dec_string_of(self.base_address as nat)),
            ]);
        }
        Ok(t)
    }
}

} // verus!

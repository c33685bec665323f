//! The CPU metadata entity: scalar fields behind the same parse / encode /
//! builder contract every entity satisfies.

use vstd::prelude::*;
use crate::error::{
    not_expected_tag_view, spec_strict_of_unstrict, uninitialized_view, BuildError, Error,
    ErrorKindView, ErrorView, SVDError, SVDErrorView, Warning, warning_matches,
};
use crate::scalar::{parse_bool, bool_to_text, spec_bool_of_text, spec_bool_text};
use crate::tree::{
    spec_child_text, spec_optional_child_text, spec_text_elem, spec_opt_text_elem, str_eq, Tree,
    TreeView, lemma_trees_view_eq_deep_view,
};

verus! {

/// Byte order of the processor.
#[derive(Clone, Copy, Debug, PartialEq, Eq, Structural)]
pub enum Endian {
    Little,
    Big,
    Selectable,
    Other,
}

/// The text an endianness is written as.
pub open spec fn spec_endian_text(e: Endian) -> Seq<char> {
    match e {
        Endian::Little => "little"@,
        Endian::Big => "big"@,
        Endian::Selectable => "selectable"@,
        Endian::Other => "other"@,
    }
}

/// The endianness a text denotes, if any.
pub open spec fn spec_endian_of_text(s: Seq<char>) -> Option<Endian> {
    if s == "little"@ {
        Some(Endian::Little)
    } else if s == "big"@ {
        Some(Endian::Big)
    } else if s == "selectable"@ {
        Some(Endian::Selectable)
    } else if s == "other"@ {
        Some(Endian::Other)
    } else {
        None
    }
}

/// Reading the canonical rendering back gives the variant.
pub proof fn lemma_endian_round_trip(e: Endian)
    ensures
        spec_endian_of_text(spec_endian_text(e)) == Some(e),
{
    reveal_strlit("little");
    reveal_strlit("big");
    reveal_strlit("selectable");
    reveal_strlit("other");
    assert("little"@.len() == 6 && "big"@.len() == 3 && "selectable"@.len() == 10 && "other"@.len()
        == 5);
}

/// Reads `text` as an endianness; anything else is the unknown-endian error
/// carrying the offending text.
pub fn endian_from_text(text: &String) -> (r: Result<Endian, Error>)
    ensures
        match (r, spec_endian_of_text(text@)) {
            (Ok(e), Some(se)) => e == se,
            (Err(e), None) => e@ =~= ErrorView {
                kind: ErrorKindView::Svd(SVDErrorView::UnknownEndian(text@)),
                context: Seq::empty(),
            },
            _ => false,
        },
{
    if str_eq(text, "little") {
        Ok(Endian::Little)
    } else if str_eq(text, "big") {
        Ok(Endian::Big)
    } else if str_eq(text, "selectable") {
        Ok(Endian::Selectable)
    } else if str_eq(text, "other") {
        Ok(Endian::Other)
    } else {
        Err(Error::svd(SVDError::UnknownEndian(text.clone())))
    }
}

/// Writes an endianness in its canonical rendering.
pub fn endian_to_text(e: Endian) -> (s: String)
    ensures
        s@ == spec_endian_text(e),
{
    match e {
        Endian::Little => "little".to_owned(),
        Endian::Big => "big".to_owned(),
        Endian::Selectable => "selectable".to_owned(),
        Endian::Other => "other".to_owned(),
    }
}

/// The processor included in the device.
#[derive(Clone, Debug, PartialEq, Eq)]
pub struct Cpu {
    /// CPU name.
    pub name: String,
    /// Hardware revision, if given.
    pub revision: Option<String>,
    /// Byte order.
    pub endian: Endian,
    /// Whether a memory protection unit is present, if given.
    pub mpu_present: Option<bool>,
}

/// Mathematical model of [`Cpu`].
#[verifier::ext_equal]
pub struct CpuView {
    pub name: Seq<char>,
    pub revision: Option<Seq<char>>,
    pub endian: Endian,
    pub mpu_present: Option<bool>,
}

impl View for Cpu {
    type V = CpuView;

    open spec fn view(&self) -> CpuView {
        CpuView {
            name: self.name@,
            revision: self.revision.deep_view(),
            endian: self.endian,
            mpu_present: self.mpu_present,
        }
    }
}

impl DeepView for Cpu {
    type V = CpuView;

    open spec fn deep_view(&self) -> CpuView {
        self.view()
    }
}

/// Staged construction of a [`Cpu`]: all-optional slots, checked at build
/// time.
#[derive(Clone, Debug)]
pub struct CpuBuilder {
    pub name: Option<String>,
    pub revision: Option<String>,
    pub endian: Option<Endian>,
    pub mpu_present: Option<bool>,
}

/// Mathematical model of [`CpuBuilder`].
#[verifier::ext_equal]
pub struct CpuBuilderView {
    pub name: Option<Seq<char>>,
    pub revision: Option<Seq<char>>,
    pub endian: Option<Endian>,
    pub mpu_present: Option<bool>,
}

impl View for CpuBuilder {
    type V = CpuBuilderView;

    open spec fn view(&self) -> CpuBuilderView {
        CpuBuilderView {
            name: self.name.deep_view(),
            revision: self.revision.deep_view(),
            endian: self.endian,
            mpu_present: self.mpu_present,
        }
    }
}

impl Default for CpuBuilder {
    /// The builder with every slot unset.
    fn default() -> (r: CpuBuilder)
        ensures
            r@ =~= (CpuBuilderView {
                name: None,
                revision: None,
                endian: None,
                mpu_present: None,
            }),
    {
        CpuBuilder { name: None, revision: None, endian: None, mpu_present: None }
    }
}

/// The model of [`CpuBuilder::build_unstrict`]: required fields are checked
/// in declaration order, then the entity stands; there is no structural
/// validation, so the warning slot is always clean.
pub open spec fn spec_build_cpu(b: CpuBuilderView) -> Result<
    (CpuView, Result<(), ErrorView>),
    ErrorView,
> {
    match b.name {
        None => Err(uninitialized_view("name"@)),
        Some(name) => match b.endian {
            None => Err(uninitialized_view("endian"@)),
            Some(endian) => Ok(
                (
                    CpuView { name, revision: b.revision, endian, mpu_present: b.mpu_present },
                    Ok(()),
                ),
            ),
        },
    }
}

/// Relates an executable lenient outcome to its model.
pub open spec fn cpu_unstrict_matches(
    r: Result<(Cpu, Warning), Error>,
    s: Result<(CpuView, Result<(), ErrorView>), ErrorView>,
) -> bool {
    match (r, s) {
        (Ok((c, w)), Ok((cv, wv))) => c@ =~= cv && warning_matches(w, wv),
        (Err(e), Err(ev)) => e@ =~= ev,
        _ => false,
    }
}

/// Relates an executable strict outcome to its model.
pub open spec fn cpu_strict_matches(r: Result<Cpu, Error>, s: Result<CpuView, ErrorView>) -> bool {
    match (r, s) {
        (Ok(c), Ok(cv)) => c@ =~= cv,
        (Err(e), Err(ev)) => e@ =~= ev,
        _ => false,
    }
}

impl CpuBuilder {
    /// Set the CPU name.
    pub fn name(self, value: String) -> (r: Self)
        ensures
            r@ =~= (CpuBuilderView { name: Some(value@), ..self@ }),
    {
        CpuBuilder { name: Some(value), ..self }
    }

    /// Set or clear the hardware revision.
    pub fn revision(self, value: Option<String>) -> (r: Self)
        ensures
            r@ =~= (CpuBuilderView { revision: value.deep_view(), ..self@ }),
    {
        CpuBuilder { revision: value, ..self }
    }

    /// Set the byte order.
    pub fn endian(self, value: Endian) -> (r: Self)
        ensures
            r@ =~= (CpuBuilderView { endian: Some(value), ..self@ }),
    {
        CpuBuilder { endian: Some(value), ..self }
    }

    /// Set or clear the memory-protection-unit flag.
    pub fn mpu_present(self, value: Option<bool>) -> (r: Self)
        ensures
            r@ =~= (CpuBuilderView { mpu_present: value, ..self@ }),
    {
        CpuBuilder { mpu_present: value, ..self }
    }

    /// Checks required fields in declaration order, then hands the entity
    /// to validation; the entity plus a clean warning on success.
    pub fn build_unstrict(self) -> (r: Result<(Cpu, Warning), Error>)
        ensures
            cpu_unstrict_matches(r, spec_build_cpu(self@)),
    {
        let name = match self.name {
            Some(n) => n,
            None => {
                return Err(Error::build(BuildError::Uninitialized("name".to_owned())));
            },
        };
        let endian = match self.endian {
            Some(e) => e,
            None => {
                return Err(Error::build(BuildError::Uninitialized("endian".to_owned())));
            },
        };
        Ok(
            (
                Cpu { name, revision: self.revision, endian, mpu_present: self.mpu_present },
                Ok(()),
            ),
        )
    }

    /// The strict wrapper: a warning would resolve to a hard error.
    pub fn build(self) -> (r: Result<Cpu, Error>)
        ensures
            cpu_strict_matches(r, spec_strict_of_unstrict(spec_build_cpu(self@))),
    {
        match self.build_unstrict()? {
            (c, Ok(())) => Ok(c),
            (_, Err(w)) => Err(w),
        }
    }
}

/// The model of the fields parsed after the name: endianness, revision,
/// memory-protection flag, then the builder.
pub open spec fn spec_parse_cpu_fields(t: TreeView, name: Seq<char>) -> Result<
    (CpuView, Result<(), ErrorView>),
    ErrorView,
> {
    match spec_child_text(t, "endian"@) {
        Err(e) => Err(e),
        Ok(et) => match spec_endian_of_text(et) {
            None => Err(
                ErrorView {
                    kind: ErrorKindView::Svd(SVDErrorView::UnknownEndian(et)),
                    context: Seq::empty(),
                },
            ),
            Some(endian) => match spec_optional_child_text(t, "revision"@) {
                Err(e) => Err(e),
                Ok(revision) => match spec_optional_child_text(t, "mpuPresent"@) {
                    Err(e) => Err(e),
                    Ok(mt) => {
                        let mpu = match mt {
                            None => Ok(None),
                            Some(x) => match spec_bool_of_text(x) {
                                None => Err(
                                    ErrorView {
                                        kind: ErrorKindView::Svd(
                                            SVDErrorView::InvalidBooleanValue(x),
                                        ),
                                        context: Seq::empty(),
                                    },
                                ),
                                Some(b) => Ok(Some(b)),
                            },
                        };
                        match mpu {
                            Err(e) => Err(e),
                            Ok(mpu_present) => spec_build_cpu(
                                CpuBuilderView {
                                    name: Some(name),
                                    revision,
                                    endian: Some(endian),
                                    mpu_present,
                                },
                            ),
                        }
                    },
                },
            },
        },
    }
}

/// The model of [`Cpu::parse_unstrict`]: tag check, name extraction, then
/// the fields; inner errors and warnings carry the CPU's frame.
pub open spec fn spec_parse_cpu_unstrict(t: TreeView) -> Result<
    (CpuView, Result<(), ErrorView>),
    ErrorView,
> {
    if t.name != "cpu"@ {
        Err(not_expected_tag_view("cpu"@, t.name))
    } else {
        match spec_child_text(t, "name"@) {
            Err(e) => Err(e),
            Ok(name) => match spec_parse_cpu_fields(t, name) {
                Err(e) => Err(e.push_frame("cpu"@, name)),
                Ok((c, Ok(()))) => Ok((c, Ok(()))),
                Ok((c, Err(w))) => Ok((c, Err(w.push_frame("cpu"@, name)))),
            },
        }
    }
}

/// The model of [`Cpu::parse`].
pub open spec fn spec_parse_cpu(t: TreeView) -> Result<CpuView, ErrorView> {
    spec_strict_of_unstrict(spec_parse_cpu_unstrict(t))
}

/// The model of [`Cpu::encode`].
pub open spec fn spec_encode_cpu(c: CpuView) -> TreeView {
    TreeView {
        name: "cpu"@,
        attributes: Seq::empty(),
        children: seq![spec_text_elem("name"@, c.name)] + spec_opt_text_elem(
            "revision"@,
            c.revision,
        ) + seq![spec_text_elem("endian"@, spec_endian_text(c.endian))] + spec_opt_text_elem(
            "mpuPresent"@,
            match c.mpu_present {
                None => None,
                Some(b) => Some(spec_bool_text(b)),
            },
        ),
        text: None,
    }
}

impl Cpu {
    /// Lenient parse: the best-effort entity plus a clean diagnostic when
    /// fully schema-conformant; a hard error only when construction cannot
    /// proceed at all.
    pub fn parse_unstrict(tree: &Tree) -> (r: Result<(Cpu, Warning), Error>)
        ensures
            cpu_unstrict_matches(r, spec_parse_cpu_unstrict(tree@)),
    {
        if !str_eq(&tree.name, "cpu") {
            return Err(
                Error::svd(
                    SVDError::NotExpectedTag { expected: "cpu".to_owned(), found: tree.name.clone() },
                ),
            );
        }
        let name = tree.child_text("name")?;
        let endian_text = match tree.child_text("endian") {
            Ok(t) => t,
            Err(e) => {
                return Err(e.in_entity("cpu", name.as_str()));
            },
        };
        let endian = match endian_from_text(&endian_text) {
            Ok(e) => e,
            Err(e) => {
                return Err(e.in_entity("cpu", name.as_str()));
            },
        };
        let revision = match tree.optional_child_text("revision") {
            Ok(v) => v,
            Err(e) => {
                return Err(e.in_entity("cpu", name.as_str()));
            },
        };
        let mpu_present = match tree.optional_child_text("mpuPresent") {
            Ok(None) => None,
            Ok(Some(x)) => match parse_bool(&x) {
                Ok(b) => Some(b),
                Err(e) => {
                    return Err(e.in_entity("cpu", name.as_str()));
                },
            },
            Err(e) => {
                return Err(e.in_entity("cpu", name.as_str()));
            },
        };
        let built = CpuBuilder::default().name(name.clone()).revision(revision).endian(
            endian,
        ).mpu_present(mpu_present).build_unstrict();
        match built {
            Ok((c, Ok(()))) => Ok((c, Ok(()))),
            Ok((c, Err(w))) => Ok((c, Err(w.in_entity("cpu", name.as_str())))),
            Err(e) => Err(e.in_entity("cpu", name.as_str())),
        }
    }

    /// Strict parse: any diagnostic is promoted to a hard failure.
    pub fn parse(tree: &Tree) -> (r: Result<Cpu, Error>)
        ensures
            cpu_strict_matches(r, spec_parse_cpu(tree@)),
    {
        match Cpu::parse_unstrict(tree)? {
            (c, Ok(())) => Ok(c),
            (_, Err(w)) => Err(w),
        }
    }

    /// Deterministic serialization back to the document tree.
    pub fn encode(&self) -> (r: Result<Tree, Error>)
        ensures
            r matches Ok(t) && t@ =~~= spec_encode_cpu(self@),
    {
        let mut children: Vec<Tree> = Vec::new();
        children.push(Tree::new_element("name", Some(self.name.clone())));
        if let Some(rev) = &self.revision {
            children.push(Tree::new_element("revision", Some(rev.clone())));
        }
        children.push(Tree::new_element("endian", Some(endian_to_text(self.endian))));
        if let Some(b) = self.mpu_present {
            children.push(Tree::new_element("mpuPresent", Some(bool_to_text(b))));
        }
        let t = Tree {
            name: "cpu".to_owned(),
            attributes: Vec::new(),
            children,
            text: None,
        };
        proof {
            lemma_trees_view_eq_deep_view(t.children);
            assert(t@.children =~= t.children.deep_view());
            assert(t@.name == "cpu"@);
            assert(t@.attributes =~= Seq::<(Seq<char>, Seq<char>)>::empty());
            assert(t@.text is None);
            assert(t.children.deep_view() =~~= seq![spec_text_elem("name"@, self@.name)]
                + spec_opt_text_elem("revision"@, self@.revision) + seq![
                spec_text_elem("endian"@, spec_endian_text(self.endian)),
            ] + spec_opt_text_elem(
                "mpuPresent"@,
                match self.mpu_present {
                    None => None,
                    Some(b) => Some(spec_bool_text(b)),
                },
            ));
        }
        Ok(t)
    }
}

} // verus!

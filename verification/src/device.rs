//! The root entity of a register-description document: a device composes a
//! CPU, default register properties, and an ordered list of peripherals,
//! each parsed independently of its siblings.
//!
//! Peripheral subtrees share no state, so they are parsed in a data-parallel
//! fan-out; the results are recombined in document order, and only the first
//! warning among them is retained and re-contextualized with the device name.

use vstd::prelude::*;
use rayon::iter::IntoParallelRefIterator;
use rayon::iter::ParallelIterator;
use crate::cpu::{
    spec_encode_cpu, spec_parse_cpu, Cpu, CpuView,
};
use crate::error::{
    not_expected_tag_view, spec_strict_of_unstrict, uninitialized_view, BuildError, Error,
    ErrorKindView, ErrorView, SVDError, SVDErrorView, Warning, warning_matches,
};
use crate::name::{check_name, is_plain_name, name_error_view};
use crate::peripheral::{
    peripheral_unstrict_matches, spec_encode_peripheral, spec_parse_peripheral_unstrict,
    Peripheral, PeripheralView,
};
use crate::registerproperties::{
    spec_encode_register_properties, spec_parse_register_properties, RegisterProperties,
};
use crate::scalar::{
    dec_string_of, optional_child_u32, spec_optional_child_u32, u32_to_dec,
};
use crate::tree::{
    first_attr, first_child, lemma_trees_view_eq_deep_view, spec_child_text, spec_opt_text_elem,
    spec_optional_child_text, spec_text_elem, str_eq, Tree, TreeView,
};
use vstd::string::StringExecFns;

verus! {

/// The root of one register-description document.
#[derive(Clone, Debug, PartialEq)]
pub struct Device {
    /// Identifies the device or device series; device names are required to
    /// be unique and to satisfy the plain identifier grammar.
    pub name: String,
    /// The compliant schema version, carried as a root attribute.
    pub schema_version: Option<String>,
    /// The version of the description itself.
    pub version: Option<String>,
    /// The main features of the device.
    pub description: Option<String>,
    /// The number of data bits uniquely selected by each address.
    pub address_unit_bits: Option<u32>,
    /// The bit width of the maximum single data transfer.
    pub width: Option<u32>,
    /// The processor included in the device.
    pub cpu: Option<Cpu>,
    /// The peripherals, in document order; a device owns at least one.
    pub peripherals: Vec<Peripheral>,
    /// Defaults a register inherits when it omits its own properties.
    pub default_register_properties: RegisterProperties,
}

/// Mathematical model of [`Device`].
#[verifier::ext_equal]
pub struct DeviceView {
    pub name: Seq<char>,
    pub schema_version: Option<Seq<char>>,
    pub version: Option<Seq<char>>,
    pub description: Option<Seq<char>>,
    pub address_unit_bits: Option<u32>,
    pub width: Option<u32>,
    pub cpu: Option<CpuView>,
    pub peripherals: Seq<PeripheralView>,
    pub default_register_properties: RegisterProperties,
}

impl View for Device {
    type V = DeviceView;

    open spec fn view(&self) -> DeviceView {
        DeviceView {
            name: self.name@,
            schema_version: self.schema_version.deep_view(),
            version: self.version.deep_view(),
            description: self.description.deep_view(),
            address_unit_bits: self.address_unit_bits,
            width: self.width,
            cpu: self.cpu.deep_view(),
            peripherals: self.peripherals.deep_view(),
            default_register_properties: self.default_register_properties,
        }
    }
}

impl DeepView for Device {
    type V = DeviceView;

    open spec fn deep_view(&self) -> DeviceView {
        self.view()
    }
}

/// Staged construction of a [`Device`]: one optional slot per field, the
/// collection-typed slot distinguishing "unset" from "empty".
#[derive(Clone, Debug)]
pub struct DeviceBuilder {
    pub name: Option<String>,
    pub schema_version: Option<String>,
    pub version: Option<String>,
    pub description: Option<String>,
    pub address_unit_bits: Option<u32>,
    pub width: Option<u32>,
    pub cpu: Option<Cpu>,
    pub peripherals: Option<Vec<Peripheral>>,
    pub default_register_properties: RegisterProperties,
}

/// Mathematical model of [`DeviceBuilder`].
#[verifier::ext_equal]
pub struct DeviceBuilderView {
    pub name: Option<Seq<char>>,
    pub schema_version: Option<Seq<char>>,
    pub version: Option<Seq<char>>,
    pub description: Option<Seq<char>>,
    pub address_unit_bits: Option<u32>,
    pub width: Option<u32>,
    pub cpu: Option<CpuView>,
    pub peripherals: Option<Seq<PeripheralView>>,
    pub default_register_properties: RegisterProperties,
}

impl View for DeviceBuilder {
    type V = DeviceBuilderView;

    open spec fn view(&self) -> DeviceBuilderView {
        DeviceBuilderView {
            name: self.name.deep_view(),
            schema_version: self.schema_version.deep_view(),
            version: self.version.deep_view(),
            description: self.description.deep_view(),
            address_unit_bits: self.address_unit_bits,
            width: self.width,
            cpu: self.cpu.deep_view(),
            peripherals: self.peripherals.deep_view(),
            default_register_properties: self.default_register_properties,
        }
    }
}

impl Default for DeviceBuilder {
    /// The builder with every slot unset and default register properties.
    fn default() -> (r: DeviceBuilder)
        ensures
            r@ =~= (DeviceBuilderView {
                name: None,
                schema_version: None,
                version: None,
                description: None,
                address_unit_bits: None,
                width: None,
                cpu: None,
                peripherals: None,
                default_register_properties: RegisterProperties {
                    size: None,
                    access: None,
                    reset_value: None,
                    reset_mask: None,
                },
            }),
    {
        DeviceBuilder {
            name: None,
            schema_version: None,
            version: None,
            description: None,
            address_unit_bits: None,
            width: None,
            cpu: None,
            peripherals: None,
            default_register_properties: RegisterProperties {
                size: None,
                access: None,
                reset_value: None,
                reset_mask: None,
            },
        }
    }
}

/// The model of the structural error an empty device raises.
pub open spec fn empty_device_view() -> ErrorView {
    ErrorView {
        kind: ErrorKindView::Svd(SVDErrorView::EmptyDevice),
        context: Seq::empty(),
    }
}

/// The model of [`Device::validate`]: a device must own at least one
/// peripheral and its name must satisfy the plain identifier grammar; both
/// violations are hard errors, and success carries no warning.
pub open spec fn spec_validate_device(d: DeviceView) -> Result<
    (DeviceView, Result<(), ErrorView>),
    ErrorView,
> {
    if d.peripherals.len() == 0 {
        Err(empty_device_view())
    } else if !is_plain_name(d.name) {
        Err(name_error_view(d.name, "device"@))
    } else {
        Ok((d, Ok(())))
    }
}

/// The model of [`DeviceBuilder::build_unstrict`]: required fields are
/// checked in declaration order — `name`, then `peripherals` — and the
/// assembled entity goes through structural validation.
pub open spec fn spec_build_device(b: DeviceBuilderView) -> Result<
    (DeviceView, Result<(), ErrorView>),
    ErrorView,
> {
    match b.name {
        None => Err(uninitialized_view("name"@)),
        Some(name) => match b.peripherals {
            None => Err(uninitialized_view("peripherals"@)),
            Some(peripherals) => spec_validate_device(
                DeviceView {
                    name,
                    schema_version: b.schema_version,
                    version: b.version,
                    description: b.description,
                    address_unit_bits: b.address_unit_bits,
                    width: b.width,
                    cpu: b.cpu,
                    peripherals,
                    default_register_properties: b.default_register_properties,
                },
            ),
        },
    }
}

/// Relates an executable lenient outcome to its model.
pub open spec fn device_unstrict_matches(
    r: Result<(Device, Warning), Error>,
    s: Result<(DeviceView, Result<(), ErrorView>), ErrorView>,
) -> bool {
    match (r, s) {
        (Ok((d, w)), Ok((dv, wv))) => d@ =~= dv && warning_matches(w, wv),
        (Err(e), Err(ev)) => e@ =~= ev,
        _ => false,
    }
}

/// Relates an executable strict outcome to its model.
pub open spec fn device_strict_matches(r: Result<Device, Error>, s: Result<
    DeviceView,
    ErrorView,
>) -> bool {
    match (r, s) {
        (Ok(d), Ok(dv)) => d@ =~= dv,
        (Err(e), Err(ev)) => e@ =~= ev,
        _ => false,
    }
}

impl Device {
    /// Structural validation, run by the builder: an empty peripheral list
    /// and a name outside the grammar are hard errors; success carries no
    /// warning.
    fn validate(self) -> (r: Result<(Device, Warning), Error>)
        ensures
            device_unstrict_matches(r, spec_validate_device(self@)),
    {
        if self.peripherals.len() == 0 {
            return Err(Error::svd(SVDError::EmptyDevice));
        }
        if let Err(e) = check_name(self.name.as_str(), "device") {
            return Err(e);
        }
        Ok((self, Ok(())))
    }
}

impl DeviceBuilder {
    /// Set the device name.
    pub fn name(self, value: String) -> (r: Self)
        ensures
            r@ =~= (DeviceBuilderView { name: Some(value@), ..self@ }),
    {
        DeviceBuilder { name: Some(value), ..self }
    }

    /// Set or clear the schema version.
    pub fn schema_version(self, value: Option<String>) -> (r: Self)
        ensures
            r@ =~= (DeviceBuilderView { schema_version: value.deep_view(), ..self@ }),
    {
        DeviceBuilder { schema_version: value, ..self }
    }

    /// Set or clear the description version.
    pub fn version(self, value: Option<String>) -> (r: Self)
        ensures
            r@ =~= (DeviceBuilderView { version: value.deep_view(), ..self@ }),
    {
        DeviceBuilder { version: value, ..self }
    }

    /// Set or clear the description.
    pub fn description(self, value: Option<String>) -> (r: Self)
        ensures
            r@ =~= (DeviceBuilderView { description: value.deep_view(), ..self@ }),
    {
        DeviceBuilder { description: value, ..self }
    }

    /// Set or clear the address unit width.
    pub fn address_unit_bits(self, value: Option<u32>) -> (r: Self)
        ensures
            r@ =~= (DeviceBuilderView { address_unit_bits: value, ..self@ }),
    {
        DeviceBuilder { address_unit_bits: value, ..self }
    }

    /// Set or clear the bus width.
    pub fn width(self, value: Option<u32>) -> (r: Self)
        ensures
            r@ =~= (DeviceBuilderView { width: value, ..self@ }),
    {
        DeviceBuilder { width: value, ..self }
    }

    /// Set or clear the CPU description.
    pub fn cpu(self, value: Option<Cpu>) -> (r: Self)
        ensures
            r@ =~= (DeviceBuilderView { cpu: value.deep_view(), ..self@ }),
    {
        DeviceBuilder { cpu: value, ..self }
    }

    /// Set the peripheral list; an empty list is set, not unset.
    pub fn peripherals(self, value: Vec<Peripheral>) -> (r: Self)
        ensures
            r@ =~= (DeviceBuilderView { peripherals: Some(value.deep_view()), ..self@ }),
    {
        DeviceBuilder { peripherals: Some(value), ..self }
    }

    /// Set the default register properties.
    pub fn default_register_properties(self, value: RegisterProperties) -> (r: Self)
        ensures
            r@ =~= (DeviceBuilderView { default_register_properties: value, ..self@ }),
    {
        DeviceBuilder { default_register_properties: value, ..self }
    }

    /// Checks required fields in declaration order, then hands the entity
    /// to structural validation.
    pub fn build_unstrict(self) -> (r: Result<(Device, Warning), Error>)
        ensures
            device_unstrict_matches(r, spec_build_device(self@)),
    {
        let name = match self.name {
            Some(n) => n,
            None => {
                return Err(Error::build(BuildError::Uninitialized("name".to_owned())));
            },
        };
        let peripherals = match self.peripherals {
            Some(p) => p,
            None => {
                return Err(Error::build(BuildError::Uninitialized("peripherals".to_owned())));
            },
        };
        Device {
            name,
            schema_version: self.schema_version,
            version: self.version,
            description: self.description,
            address_unit_bits: self.address_unit_bits,
            width: self.width,
            cpu: self.cpu,
            peripherals,
            default_register_properties: self.default_register_properties,
        }.validate()
    }

    /// The strict wrapper: a warning would resolve to a hard error.
    pub fn build(self) -> (r: Result<Device, Error>)
        ensures
            device_strict_matches(r, spec_strict_of_unstrict(spec_build_device(self@))),
    {
        match self.build_unstrict()? {
            (d, Ok(())) => Ok(d),
            (_, Err(w)) => Err(w),
        }
    }
}

/// The model of parsing sibling peripherals in order: the first hard error
/// wins; otherwise the entities in order beside the first warning.
pub open spec fn spec_parse_peripheral_list(ts: Seq<TreeView>) -> Result<
    (Seq<PeripheralView>, Result<(), ErrorView>),
    ErrorView,
>
    decreases ts.len(),
{
    if ts.len() == 0 {
        Ok((Seq::empty(), Ok(())))
    } else {
        match spec_parse_peripheral_unstrict(ts[0]) {
            Err(e) => Err(e),
            Ok((p, w)) => match spec_parse_peripheral_list(ts.drop_first()) {
                Err(e) => Err(e),
                Ok((ps, ws)) => Ok(
                    (
                        seq![p] + ps,
                        if w is Err {
                            w
                        } else {
                            ws
                        },
                    ),
                ),
            },
        }
    }
}

/// Relates an executable sibling-list outcome to its model.
pub open spec fn peripheral_list_matches(
    r: Result<(Vec<Peripheral>, Warning), Error>,
    s: Result<(Seq<PeripheralView>, Result<(), ErrorView>), ErrorView>,
) -> bool {
    match (r, s) {
        (Ok((ps, w)), Ok((pvs, wv))) => ps.deep_view() =~= pvs && warning_matches(w, wv),
        (Err(e), Err(ev)) => e@ =~= ev,
        _ => false,
    }
}

/// Relies on rayon's `par_iter`, `map` and `collect`: an indexed parallel
/// iterator over a vector maps each element through the given function and
/// collects into a vector in the input's order; the closure is the verified
/// peripheral parser, so each slot holds exactly its subtree's parse result.
#[verifier::external_body]
fn parse_peripherals_parallel(trees: &Vec<Tree>) -> (r: Vec<
    Result<(Peripheral, Warning), Error>,
>)
    ensures
        r@.len() == trees@.len(),
        forall|i: int|
            0 <= i < trees@.len() ==> peripheral_unstrict_matches(
                #[trigger] r@[i],
                spec_parse_peripheral_unstrict(trees@[i]@),
            ),
{
    trees.par_iter().map(Peripheral::parse_unstrict).collect()
}

/// Recombines per-sibling results in document order: the first hard error
/// aborts, the entities are kept in order, and the first warning is kept.
fn collect_peripherals(
    results: Vec<Result<(Peripheral, Warning), Error>>,
    Ghost(ts): Ghost<Seq<TreeView>>,
) -> (r: Result<(Vec<Peripheral>, Warning), Error>)
    requires
        results@.len() == ts.len(),
        forall|i: int|
            0 <= i < ts.len() ==> peripheral_unstrict_matches(
                #[trigger] results@[i],
                spec_parse_peripheral_unstrict(ts[i]),
            ),
    ensures
        peripheral_list_matches(r, spec_parse_peripheral_list(ts)),
{
    let mut rest = results;
    let mut acc: Vec<Peripheral> = Vec::new();
    let mut acc_w: Warning = Ok(());
    let mut acc_err: Option<Error> = None;
    while rest.len() > 0
        invariant
            rest@.len() <= ts.len(),
            forall|i: int|
                0 <= i < rest@.len() ==> peripheral_unstrict_matches(
                    #[trigger] rest@[i],
                    spec_parse_peripheral_unstrict(ts[i]),
                ),
            match acc_err {
                Some(e) => spec_parse_peripheral_list(ts.skip(rest@.len() as int)) matches Err(ev)
                    && e@ =~= ev,
                None => spec_parse_peripheral_list(ts.skip(rest@.len() as int)) matches Ok(
                    (pvs, wv),
                ) && acc.deep_view() =~= pvs && warning_matches(acc_w, wv),
            },
        decreases rest@.len(),
    {
        let ghost i = rest@.len() - 1;
        let x = rest.pop().unwrap();
        proof {
            assert(ts.skip(i).drop_first() =~= ts.skip(i + 1));
            assert(ts.skip(i)[0] == ts[i]);
        }
        match x {
            Err(e) => {
                acc_err = Some(e);
            },
            Ok((p, w)) => {
                if acc_err.is_none() {
                    let ghost old_acc = acc.deep_view();
                    acc.insert(0, p);
                    proof {
                        assert(acc.deep_view() =~= seq![p@] + old_acc);
                    }
                    if w.is_err() {
                        acc_w = w;
                    }
                }
            },
        }
    }
    proof {
        assert(ts.skip(0) =~= ts);
    }
    match acc_err {
        Some(e) => Err(e),
        None => Ok((acc, acc_w)),
    }
}

/// The model of the fields parsed after the name, in the order the builder
/// chain evaluates them: schema version attribute, CPU, version,
/// description, address unit width, bus width, peripherals, register
/// defaults, then the builder.
pub open spec fn spec_parse_device_fields(t: TreeView, name: Seq<char>) -> Result<
    (DeviceView, Result<(), ErrorView>),
    ErrorView,
> {
    let schema_version = first_attr(t.attributes, "schemaVersion"@);
    let cpu_r = match first_child(t.children, "cpu"@) {
        None => Ok(None),
        Some(c) => match spec_parse_cpu(c) {
            Err(e) => Err(e),
            Ok(cv) => Ok(Some(cv)),
        },
    };
    match cpu_r {
        Err(e) => Err(e),
        Ok(cpu) => match spec_optional_child_text(t, "version"@) {
            Err(e) => Err(e),
            Ok(version) => match spec_optional_child_text(t, "description"@) {
                Err(e) => Err(e),
                Ok(description) => match spec_optional_child_u32(t, "addressUnitBits"@) {
                    Err(e) => Err(e),
                    Ok(address_unit_bits) => match spec_optional_child_u32(t, "width"@) {
                        Err(e) => Err(e),
                        Ok(width) => match first_child(t.children, "peripherals"@) {
                            None => Err(
                                ErrorView {
                                    kind: ErrorKindView::Svd(
                                        SVDErrorView::MissingTag("peripherals"@),
                                    ),
                                    context: Seq::empty(),
                                },
                            ),
                            Some(pe) => match spec_parse_peripheral_list(pe.children) {
                                Err(e) => Err(e),
                                Ok((peripherals, ws)) => match spec_parse_register_properties(t) {
                                    Err(e) => Err(e),
                                    Ok(default_register_properties) => match spec_build_device(
                                        DeviceBuilderView {
                                            name: Some(name),
                                            schema_version,
                                            version,
                                            description,
                                            address_unit_bits,
                                            width,
                                            cpu,
                                            peripherals: Some(peripherals),
                                            default_register_properties,
                                        },
                                    ) {
                                        Err(e) => Err(e),
                                        Ok((d, bw)) => Ok(
                                            (
                                                d,
                                                if ws is Err {
                                                    ws
                                                } else {
                                                    bw
                                                },
                                            ),
                                        ),
                                    },
                                },
                            },
                        },
                    },
                },
            },
        },
    }
}

/// The model of [`Device::parse_unstrict`]: tag check, name extraction,
/// then the fields; inner errors and the retained warning carry the
/// device's frame.
pub open spec fn spec_parse_device_unstrict(t: TreeView) -> Result<
    (DeviceView, Result<(), ErrorView>),
    ErrorView,
> {
    if t.name != "device"@ {
        Err(not_expected_tag_view("device"@, t.name))
    } else {
        match spec_child_text(t, "name"@) {
            Err(e) => Err(e),
            Ok(name) => match spec_parse_device_fields(t, name) {
                Err(e) => Err(e.push_frame("device"@, name)),
                Ok((d, Ok(()))) => Ok((d, Ok(()))),
                Ok((d, Err(w))) => Ok((d, Err(w.push_frame("device"@, name)))),
            },
        }
    }
}

/// The model of [`Device::parse`].
pub open spec fn spec_parse_device(t: TreeView) -> Result<DeviceView, ErrorView> {
    spec_strict_of_unstrict(spec_parse_device_unstrict(t))
}

/// The schema-location attribute value derived from the schema version.
pub open spec fn spec_schema_location(v: Seq<char>) -> Seq<char> {
    "CMSIS-SVD_Schema_"@ + v + ".xsd"@
}

/// The model of the root attributes [`Device::encode`] writes.
pub open spec fn spec_device_attrs(sv: Option<Seq<char>>) -> Seq<(Seq<char>, Seq<char>)> {
    seq![("xmlns:xs"@, "http://www.w3.org/2001/XMLSchema-instance"@)] + match sv {
        None => Seq::empty(),
        Some(v) => seq![
            ("schemaVersion"@, v),
            ("xs:noNamespaceSchemaLocation"@, spec_schema_location(v)),
        ],
    }
}

/// The models of the encoded peripherals, in order.
pub open spec fn spec_encode_peripherals(ps: Seq<PeripheralView>) -> Seq<TreeView> {
    Seq::new(ps.len(), |i: int| spec_encode_peripheral(ps[i]))
}

/// The model of [`Device::encode`].
pub open spec fn spec_encode_device(d: DeviceView) -> TreeView {
    TreeView {
        name: "device"@,
        attributes: spec_device_attrs(d.schema_version),
        children: seq![spec_text_elem("name"@, d.name)] + spec_opt_text_elem(
            "version"@,
            d.version,
        ) + spec_opt_text_elem("description"@, d.description) + spec_opt_text_elem(
            "addressUnitBits"@,
            match d.address_unit_bits {
                None => None,
                Some(x) => Some(dec_string_of(x as nat)),
            },
        ) + spec_opt_text_elem(
            "width"@,
            match d.width {
                None => None,
                Some(x) => Some(dec_string_of(x as nat)),
            },
        ) + spec_encode_register_properties(d.default_register_properties) + (match d.cpu {
            None => Seq::<TreeView>::empty(),
            Some(c) => seq![spec_encode_cpu(c)],
        }) + seq![
            TreeView {
                name: "peripherals"@,
                attributes: Seq::empty(),
                children: spec_encode_peripherals(d.peripherals),
                text: None,
            },
        ],
        text: None,
    }
}

impl Device {
    /// The fields parsed after the name, in builder-chain order; peripheral
    /// subtrees are handed to the parallel fan-out and recombined in
    /// document order.
    fn parse_fields(tree: &Tree, name: String) -> (r: Result<(Device, Warning), Error>)
        ensures
            device_unstrict_matches(r, spec_parse_device_fields(tree@, name@)),
    {
        let schema_version = tree.attribute("schemaVersion");
        let cpu = match tree.find_child("cpu") {
            None => None,
            Some(c) => Some(Cpu::parse(c)?),
        };
        let version = tree.optional_child_text("version")?;
        let description = tree.optional_child_text("description")?;
        let address_unit_bits = optional_child_u32(tree, "addressUnitBits")?;
        let width = optional_child_u32(tree, "width")?;
        let peripherals_elem = tree.require_child("peripherals")?;
        let results = parse_peripherals_parallel(&peripherals_elem.children);
        proof {
            crate::tree::lemma_trees_view_index(peripherals_elem.children@);
        }
        let (peripherals, ws) = collect_peripherals(results, Ghost(peripherals_elem@.children))?;
        let default_register_properties = RegisterProperties::parse(tree)?;
        let built = DeviceBuilder::default().name(name).schema_version(schema_version).cpu(
            cpu,
        ).version(version).description(description).address_unit_bits(address_unit_bits).width(
            width,
        ).peripherals(peripherals).default_register_properties(
            default_register_properties,
        ).build_unstrict()?;
        let (d, bw) = built;
        if ws.is_err() {
            Ok((d, ws))
        } else {
            Ok((d, bw))
        }
    }

    /// Lenient parse: the best-effort device plus the retained diagnostic;
    /// a hard error only when construction cannot proceed at all.  A root
    /// tag other than `device` is always a hard error.
    pub fn parse_unstrict(tree: &Tree) -> (r: Result<(Device, Warning), Error>)
        ensures
            device_unstrict_matches(r, spec_parse_device_unstrict(tree@)),
    {
        if !str_eq(&tree.name, "device") {
            return Err(
                Error::svd(
                    SVDError::NotExpectedTag {
                        expected: "device".to_owned(),
                        found: tree.name.clone(),
                    },
                ),
            );
        }
        let name = tree.child_text("name")?;
        match Device::parse_fields(tree, name.clone()) {
            Err(e) => Err(e.in_entity("device", name.as_str())),
            Ok((d, Ok(()))) => Ok((d, Ok(()))),
            Ok((d, Err(w))) => Ok((d, Err(w.in_entity("device", name.as_str())))),
        }
    }

    /// Strict parse: any diagnostic is promoted to a hard failure.
    pub fn parse(tree: &Tree) -> (r: Result<Device, Error>)
        ensures
            device_strict_matches(r, spec_parse_device(tree@)),
    {
        match Device::parse_unstrict(tree)? {
            (d, Ok(())) => Ok(d),
            (_, Err(w)) => Err(w),
        }
    }

    /// Deterministic serialization back to the document tree.
    #[verifier::rlimit(100)]
    pub fn encode(&self) -> (r: Result<Tree, Error>)
        ensures
            r matches Ok(t) && t@ =~~= spec_encode_device(self@),
    {
        let mut attributes: Vec<(String, String)> = Vec::new();
        attributes.push(
            (
                "xmlns:xs".to_owned(),
                "http://www.w3.org/2001/XMLSchema-instance".to_owned(),
            ),
        );
        if let Some(sv) = &self.schema_version {
            attributes.push(("schemaVersion".to_owned(), sv.clone()));
            let mut loc = "CMSIS-SVD_Schema_".to_owned();
            loc.append(sv.as_str());
            loc.append(".xsd");
            attributes.push(("xs:noNamespaceSchemaLocation".to_owned(), loc));
        }
        let mut children: Vec<Tree> = Vec::new();
        children.push(Tree::new_element("name", Some(self.name.clone())));
        if let Some(v) = &self.version {
            children.push(Tree::new_element("version", Some(v.clone())));
        }
        if let Some(v) = &self.description {
            children.push(Tree::new_element("description", Some(v.clone())));
        }
        if let Some(v) = self.address_unit_bits {
            children.push(Tree::new_element("addressUnitBits", Some(u32_to_dec(v))));
        }
        if let Some(v) = self.width {
            children.push(Tree::new_element("width", Some(u32_to_dec(v))));
        }
        let mut rp_children = match self.default_register_properties.encode() {
            Ok(cs) => cs,
            Err(e) => {
                return Err(e);
            },
        };
        children.append(&mut rp_children);
        if let Some(c) = &self.cpu {
            let ct = match c.encode() {
                Ok(t) => t,
                Err(e) => {
                    return Err(e);
                },
            };
            children.push(ct);
        }
        let mut peripheral_children: Vec<Tree> = Vec::new();
        let n = self.peripherals.len();
        let mut i: usize = 0;
        while i < n
            invariant
                i <= n == self.peripherals@.len(),
                peripheral_children@.len() == i,
                forall|j: int|
                    0 <= j < i ==> crate::tree::tree_view(
                        #[trigger] peripheral_children@[j],
                    ) =~~= spec_encode_peripheral(self.peripherals.deep_view()[j]),
            decreases n - i,
        {
            let pt = match self.peripherals[i].encode() {
                Ok(t) => t,
                Err(e) => {
                    return Err(e);
                },
            };
            proof {
                assert(self.peripherals@[i as int].deep_view() == self.peripherals.deep_view()[
                    i as int
                ]);
            }
            peripheral_children.push(pt);
            i += 1;
        }
        children.push(
            Tree {
                name: "peripherals".to_owned(),
                attributes: Vec::new(),
                children: peripheral_children,
                text: None,
            },
        );
        let t = Tree { name: "device".to_owned(), attributes, children, text: None };
        proof {
            lemma_trees_view_eq_deep_view(t.children);
            assert(t@.children =~= t.children.deep_view());
            let pe = t.children@[t.children@.len() - 1];
            lemma_trees_view_eq_deep_view(pe.children);
            assert(pe.children.deep_view() =~~= spec_encode_peripherals(self@.peripherals));
            assert(crate::tree::tree_view(pe) =~~= TreeView {
                name: "peripherals"@,
                attributes: Seq::empty(),
                children: spec_encode_peripherals(self@.peripherals),
                text: None,
            });
            assert(t@.name == "device"@);
            assert(t@.text is None);
            assert(t@.attributes =~~= spec_device_attrs(self@.schema_version));
            assert(t.children.deep_view() =~~= spec_encode_device(self@).children);
        }
        Ok(t)
    }
}

} // verus!

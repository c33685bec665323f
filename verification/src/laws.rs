//! The laws the engine guarantees, stated over the entity models: encoding
//! a validly constructed device and parsing it back yields the same device
//! with a clean diagnostic, required-field checks name their field, an
//! empty device is a structural error, and a wrong root tag is always the
//! tag-mismatch error.

use vstd::prelude::*;
use crate::cpu::{
    lemma_endian_round_trip, spec_encode_cpu, spec_parse_cpu, spec_parse_cpu_unstrict, CpuView,
};
use crate::device::{
    empty_device_view, spec_build_device, spec_encode_device, spec_encode_peripherals,
    spec_parse_device, spec_parse_device_unstrict, spec_parse_peripheral_list, DeviceBuilderView,
    DeviceView,
};
use crate::error::{not_expected_tag_view, uninitialized_view, ErrorView};
use crate::name::{is_dimable_name, is_plain_name};
use crate::peripheral::{
    spec_encode_peripheral, spec_parse_peripheral_unstrict, PeripheralView,
};
use crate::registerproperties::{
    lemma_access_round_trip, spec_parse_register_properties,
    RegisterProperties,
};
use crate::scalar::{
    lemma_bool_round_trip, lemma_dec_round_trip, lemma_dec_string_of_digits, dec_string_of,
    dec_val, is_dec_string, spec_bool_text,
};
use crate::tree::{
    first_attr, first_child, lemma_first_attr_found, lemma_first_attr_none,
    lemma_first_child_found, lemma_first_child_none, lemma_first_child_opt_text,
    lemma_first_child_single, lemma_first_child_split, spec_opt_text_elem, spec_text_elem,
    TreeView,
};

verus! {

/// A device the strict builder would accept: at least one peripheral, a
/// name in the plain grammar, every peripheral name in the dimable grammar.
pub open spec fn device_wf(d: DeviceView) -> bool {
    &&& d.peripherals.len() > 0
    &&& is_plain_name(d.name)
    &&& forall|i: int|
        0 <= i < d.peripherals.len() ==> is_dimable_name(#[trigger] d.peripherals[i].name)
}

/// Building without a name fails naming `name`, whatever else is set.
pub proof fn lemma_uninitialized_name(b: DeviceBuilderView)
    requires
        b.name is None,
    ensures
        spec_build_device(b) == Err::<
            (DeviceView, Result<(), ErrorView>),
            ErrorView,
        >(uninitialized_view("name"@)),
{
}

/// Building with a name but no peripheral list fails naming `peripherals`:
/// the unset collection slot is not an empty collection.
pub proof fn lemma_uninitialized_peripherals(b: DeviceBuilderView)
    requires
        b.name is Some,
        b.peripherals is None,
    ensures
        spec_build_device(b) == Err::<
            (DeviceView, Result<(), ErrorView>),
            ErrorView,
        >(uninitialized_view("peripherals"@)),
{
}

/// Building with a name and an empty peripheral list fails with the
/// empty-device structural error, not a builder error.
pub proof fn lemma_empty_device(b: DeviceBuilderView)
    requires
        b.name is Some,
        b.peripherals matches Some(ps) && ps.len() == 0,
    ensures
        spec_build_device(b) == Err::<
            (DeviceView, Result<(), ErrorView>),
            ErrorView,
        >(empty_device_view()),
{
}

/// Handing any tree whose root tag is not `device` to the device parser is
/// the tag-mismatch hard error naming `device`, whatever the subtree holds.
pub proof fn lemma_tag_mismatch(t: TreeView)
    requires
        t.name != "device"@,
    ensures
        spec_parse_device_unstrict(t) == Err::<
            (DeviceView, Result<(), ErrorView>),
            ErrorView,
        >(not_expected_tag_view("device"@, t.name)),
        spec_parse_device(t) == Err::<DeviceView, ErrorView>(not_expected_tag_view(
            "device"@,
            t.name,
        )),
{
}

/// A decimal rendering read back as an optional scalar child.
proof fn lemma_dec_text_value(n: nat)
    ensures
        is_dec_string(dec_string_of(n)),
        dec_val(dec_string_of(n)) == n,
{
    lemma_dec_string_of_digits(n);
    lemma_dec_round_trip(n);
}

/// Encoding a CPU and parsing it back yields the same CPU with a clean
/// diagnostic.
pub proof fn lemma_cpu_round_trip(c: CpuView)
    ensures
        spec_parse_cpu_unstrict(spec_encode_cpu(c)) == Ok::<
            (CpuView, Result<(), ErrorView>),
            ErrorView,
        >((c, Ok(()))),
        spec_parse_cpu(spec_encode_cpu(c)) == Ok::<CpuView, ErrorView>(c),
{
    reveal_strlit("cpu");
    reveal_strlit("name");
    reveal_strlit("revision");
    reveal_strlit("endian");
    reveal_strlit("mpuPresent");
    assert("cpu"@.len() == 3 && "name"@.len() == 4 && "revision"@.len() == 8 && "endian"@.len()
        == 6 && "mpuPresent"@.len() == 10);
    let t = spec_encode_cpu(c);
    let cs = t.children;
    let lr: int = if c.revision is Some {
        1int
    } else {
        0int
    };
    let lm: int = if c.mpu_present is Some {
        1int
    } else {
        0int
    };
    assert(cs.len() == 2 + lr + lm);
    assert(cs[0] == spec_text_elem("name"@, c.name));
    assert(c.revision matches Some(v) ==> cs[1] == spec_text_elem("revision"@, v));
    assert(cs[1 + lr] == spec_text_elem("endian"@, crate::cpu::spec_endian_text(c.endian)));
    assert(c.mpu_present matches Some(b) ==> cs[2 + lr] == spec_text_elem(
        "mpuPresent"@,
        spec_bool_text(b),
    ));
    lemma_first_child_found(cs, "name"@, 0);
    lemma_first_child_found(cs, "endian"@, 1 + lr);
    match c.revision {
        Some(v) => {
            lemma_first_child_found(cs, "revision"@, 1);
        },
        None => {
            lemma_first_child_none(cs, "revision"@);
        },
    }
    match c.mpu_present {
        Some(b) => {
            lemma_first_child_found(cs, "mpuPresent"@, 2 + lr);
            lemma_bool_round_trip(b);
        },
        None => {
            lemma_first_child_none(cs, "mpuPresent"@);
        },
    }
    lemma_endian_round_trip(c.endian);
    assert(spec_parse_cpu_unstrict(t) == Ok::<(CpuView, Result<(), ErrorView>), ErrorView>(
        (c, Ok(())),
    )) by {
        assert(spec_parse_cpu_unstrict(t) matches Ok((cv, Ok(()))) && cv =~~= c);
    }
}

/// Encoding a peripheral whose name fits the dimable grammar and parsing it
/// back yields the same peripheral with a clean diagnostic.
pub proof fn lemma_peripheral_round_trip(p: PeripheralView)
    requires
        is_dimable_name(p.name),
    ensures
        spec_parse_peripheral_unstrict(spec_encode_peripheral(p)) == Ok::<
            (PeripheralView, Result<(), ErrorView>),
            ErrorView,
        >((p, Ok(()))),
{
    reveal_strlit("peripheral");
    reveal_strlit("name");
    reveal_strlit("description");
    reveal_strlit("baseAddress");
    assert("peripheral"@.len() == 10 && "name"@.len() == 4 && "description"@.len() == 11
        && "baseAddress"@.len() == 11);
    assert("description"@[0] == 'd' && "baseAddress"@[0] == 'b');
    let t = spec_encode_peripheral(p);
    let cs = t.children;
    let ld: int = if p.description is Some {
        1int
    } else {
        0int
    };
    assert(cs.len() == 2 + ld);
    assert(cs[0] == spec_text_elem("name"@, p.name));
    assert(p.description matches Some(v) ==> cs[1] == spec_text_elem("description"@, v));
    assert(cs[1 + ld] == spec_text_elem("baseAddress"@, dec_string_of(p.base_address as nat)));
    lemma_first_child_found(cs, "name"@, 0);
    lemma_first_child_found(cs, "baseAddress"@, 1 + ld);
    match p.description {
        Some(v) => {
            lemma_first_child_found(cs, "description"@, 1);
        },
        None => {
            lemma_first_child_none(cs, "description"@);
        },
    }
    lemma_dec_text_value(p.base_address as nat);
    assert(spec_parse_peripheral_unstrict(t) matches Ok((pv, Ok(()))) && pv =~~= p);
}

/// Encoding a list of dimable-named peripherals and parsing the siblings
/// back yields the same list in order with a clean diagnostic.
pub proof fn lemma_peripheral_list_round_trip(ps: Seq<PeripheralView>)
    requires
        forall|i: int| 0 <= i < ps.len() ==> is_dimable_name(#[trigger] ps[i].name),
    ensures
        spec_parse_peripheral_list(spec_encode_peripherals(ps)) == Ok::<
            (Seq<PeripheralView>, Result<(), ErrorView>),
            ErrorView,
        >((ps, Ok(()))),
    decreases ps.len(),
{
    let ts = spec_encode_peripherals(ps);
    if ps.len() == 0 {
        assert(ts.len() == 0);
        assert(spec_parse_peripheral_list(ts) == Ok::<
            (Seq<PeripheralView>, Result<(), ErrorView>),
            ErrorView,
        >((Seq::empty(), Ok(()))));
        assert(ps =~= Seq::<PeripheralView>::empty());
    } else {
        assert(ts[0] == spec_encode_peripheral(ps[0]));
        lemma_peripheral_round_trip(ps[0]);
        assert(ts.drop_first() =~= spec_encode_peripherals(ps.drop_first()));
        lemma_peripheral_list_round_trip(ps.drop_first());
        assert(seq![ps[0]] + ps.drop_first() =~= ps);
    }
}

/// Where the name child, the schema-version attribute, and the version and
/// description children land on an encoded device.
#[verifier::rlimit(100)]
#[verifier::spinoff_prover]
proof fn lemma_device_layout_head(d: DeviceView)
    ensures
        spec_encode_device(d).name == "device"@,
        first_child(spec_encode_device(d).children, "name"@) == Some(
            spec_text_elem("name"@, d.name),
        ),
        first_attr(spec_encode_device(d).attributes, "schemaVersion"@) == d.schema_version,
        first_child(spec_encode_device(d).children, "version"@) == (match d.version {
            None => None,
            Some(v) => Some(spec_text_elem("version"@, v)),
        }),
        first_child(spec_encode_device(d).children, "description"@) == (match d.description {
            None => None,
            Some(v) => Some(spec_text_elem("description"@, v)),
        }),
{
    reveal_strlit("device");
    reveal_strlit("name");
    reveal_strlit("version");
    reveal_strlit("description");
    reveal_strlit("addressUnitBits");
    reveal_strlit("width");
    reveal_strlit("size");
    reveal_strlit("access");
    reveal_strlit("resetValue");
    reveal_strlit("resetMask");
    reveal_strlit("cpu");
    reveal_strlit("peripherals");
    reveal_strlit("schemaVersion");
    reveal_strlit("xmlns:xs");
    assert("device"@.len() == 6 && "name"@.len() == 4 && "version"@.len() == 7
        && "description"@.len() == 11 && "addressUnitBits"@.len() == 15 && "width"@.len() == 5
        && "size"@.len() == 4 && "access"@.len() == 6 && "resetValue"@.len() == 10
        && "resetMask"@.len() == 9 && "cpu"@.len() == 3 && "peripherals"@.len() == 11
        && "schemaVersion"@.len() == 13 && "xmlns:xs"@.len() == 8);
    assert("name"@[0] == 'n' && "size"@[0] == 's');
    assert("description"@[0] == 'd' && "peripherals"@[0] == 'p');
    let t = spec_encode_device(d);
    let rp = d.default_register_properties;
    let s1 = seq![spec_text_elem("name"@, d.name)];
    let s2 = spec_opt_text_elem("version"@, d.version);
    let s3 = spec_opt_text_elem("description"@, d.description);
    let s4 = spec_opt_text_elem("addressUnitBits"@, match d.address_unit_bits { None => None, Some(x) => Some(dec_string_of(x as nat)) });
    let s5 = spec_opt_text_elem("width"@, match d.width { None => None, Some(x) => Some(dec_string_of(x as nat)) });
    let s6 = spec_opt_text_elem("size"@, match rp.size { None => None, Some(x) => Some(dec_string_of(x as nat)) });
    let s7 = spec_opt_text_elem("access"@, match rp.access { None => None, Some(a) => Some(crate::registerproperties::spec_access_text(a)) });
    let s8 = spec_opt_text_elem("resetValue"@, match rp.reset_value { None => None, Some(x) => Some(dec_string_of(x as nat)) });
    let s9 = spec_opt_text_elem("resetMask"@, match rp.reset_mask { None => None, Some(x) => Some(dec_string_of(x as nat)) });
    let s10 = (match d.cpu { None => Seq::<TreeView>::empty(), Some(c) => seq![spec_encode_cpu(c)] });
    let s11 = seq![TreeView { name: "peripherals"@, attributes: Seq::empty(), children: spec_encode_peripherals(d.peripherals), text: None }];
    let a1 = s1 + s2;
    let a2 = a1 + s3;
    let a3 = a2 + s4;
    let a4 = a3 + s5;
    let r1 = s6 + s7;
    let r2 = r1 + s8;
    let rr = r2 + s9;
    let a5 = a4 + rr;
    let a6 = a5 + s10;
    let cs = a6 + s11;
    assert(t.children == cs);
    lemma_first_child_single(spec_text_elem("name"@, d.name), "name"@);
    lemma_first_child_opt_text("version"@, d.version, "name"@);
    lemma_first_child_opt_text("description"@, d.description, "name"@);
    lemma_first_child_opt_text("addressUnitBits"@, match d.address_unit_bits { None => None, Some(x) => Some(dec_string_of(x as nat)) }, "name"@);
    lemma_first_child_opt_text("width"@, match d.width { None => None, Some(x) => Some(dec_string_of(x as nat)) }, "name"@);
    lemma_first_child_opt_text("size"@, match rp.size { None => None, Some(x) => Some(dec_string_of(x as nat)) }, "name"@);
    lemma_first_child_opt_text("access"@, match rp.access { None => None, Some(a) => Some(crate::registerproperties::spec_access_text(a)) }, "name"@);
    lemma_first_child_opt_text("resetValue"@, match rp.reset_value { None => None, Some(x) => Some(dec_string_of(x as nat)) }, "name"@);
    lemma_first_child_opt_text("resetMask"@, match rp.reset_mask { None => None, Some(x) => Some(dec_string_of(x as nat)) }, "name"@);
    match d.cpu { None => {}, Some(c) => { lemma_first_child_single(spec_encode_cpu(c), "name"@); } }
    lemma_first_child_single(TreeView { name: "peripherals"@, attributes: Seq::empty(), children: spec_encode_peripherals(d.peripherals), text: None }, "name"@);
    lemma_first_child_split(s1, s2, "name"@);
    lemma_first_child_split(a1, s3, "name"@);
    lemma_first_child_split(a2, s4, "name"@);
    lemma_first_child_split(a3, s5, "name"@);
    lemma_first_child_split(s6, s7, "name"@);
    lemma_first_child_split(r1, s8, "name"@);
    lemma_first_child_split(r2, s9, "name"@);
    lemma_first_child_split(a4, rr, "name"@);
    lemma_first_child_split(a5, s10, "name"@);
    lemma_first_child_split(a6, s11, "name"@);
    lemma_first_child_single(spec_text_elem("name"@, d.name), "version"@);
    lemma_first_child_opt_text("version"@, d.version, "version"@);
    lemma_first_child_opt_text("description"@, d.description, "version"@);
    lemma_first_child_opt_text("addressUnitBits"@, match d.address_unit_bits { None => None, Some(x) => Some(dec_string_of(x as nat)) }, "version"@);
    lemma_first_child_opt_text("width"@, match d.width { None => None, Some(x) => Some(dec_string_of(x as nat)) }, "version"@);
    lemma_first_child_opt_text("size"@, match rp.size { None => None, Some(x) => Some(dec_string_of(x as nat)) }, "version"@);
    lemma_first_child_opt_text("access"@, match rp.access { None => None, Some(a) => Some(crate::registerproperties::spec_access_text(a)) }, "version"@);
    lemma_first_child_opt_text("resetValue"@, match rp.reset_value { None => None, Some(x) => Some(dec_string_of(x as nat)) }, "version"@);
    lemma_first_child_opt_text("resetMask"@, match rp.reset_mask { None => None, Some(x) => Some(dec_string_of(x as nat)) }, "version"@);
    match d.cpu { None => {}, Some(c) => { lemma_first_child_single(spec_encode_cpu(c), "version"@); } }
    lemma_first_child_single(TreeView { name: "peripherals"@, attributes: Seq::empty(), children: spec_encode_peripherals(d.peripherals), text: None }, "version"@);
    lemma_first_child_split(s1, s2, "version"@);
    lemma_first_child_split(a1, s3, "version"@);
    lemma_first_child_split(a2, s4, "version"@);
    lemma_first_child_split(a3, s5, "version"@);
    lemma_first_child_split(s6, s7, "version"@);
    lemma_first_child_split(r1, s8, "version"@);
    lemma_first_child_split(r2, s9, "version"@);
    lemma_first_child_split(a4, rr, "version"@);
    lemma_first_child_split(a5, s10, "version"@);
    lemma_first_child_split(a6, s11, "version"@);
    lemma_first_child_single(spec_text_elem("name"@, d.name), "description"@);
    lemma_first_child_opt_text("version"@, d.version, "description"@);
    lemma_first_child_opt_text("description"@, d.description, "description"@);
    lemma_first_child_opt_text("addressUnitBits"@, match d.address_unit_bits { None => None, Some(x) => Some(dec_string_of(x as nat)) }, "description"@);
    lemma_first_child_opt_text("width"@, match d.width { None => None, Some(x) => Some(dec_string_of(x as nat)) }, "description"@);
    lemma_first_child_opt_text("size"@, match rp.size { None => None, Some(x) => Some(dec_string_of(x as nat)) }, "description"@);
    lemma_first_child_opt_text("access"@, match rp.access { None => None, Some(a) => Some(crate::registerproperties::spec_access_text(a)) }, "description"@);
    lemma_first_child_opt_text("resetValue"@, match rp.reset_value { None => None, Some(x) => Some(dec_string_of(x as nat)) }, "description"@);
    lemma_first_child_opt_text("resetMask"@, match rp.reset_mask { None => None, Some(x) => Some(dec_string_of(x as nat)) }, "description"@);
    match d.cpu { None => {}, Some(c) => { lemma_first_child_single(spec_encode_cpu(c), "description"@); } }
    lemma_first_child_single(TreeView { name: "peripherals"@, attributes: Seq::empty(), children: spec_encode_peripherals(d.peripherals), text: None }, "description"@);
    lemma_first_child_split(s1, s2, "description"@);
    lemma_first_child_split(a1, s3, "description"@);
    lemma_first_child_split(a2, s4, "description"@);
    lemma_first_child_split(a3, s5, "description"@);
    lemma_first_child_split(s6, s7, "description"@);
    lemma_first_child_split(r1, s8, "description"@);
    lemma_first_child_split(r2, s9, "description"@);
    lemma_first_child_split(a4, rr, "description"@);
    lemma_first_child_split(a5, s10, "description"@);
    lemma_first_child_split(a6, s11, "description"@);
    match d.schema_version {
        Some(v) => {
            assert(t.attributes[1] == ("schemaVersion"@, v));
            lemma_first_attr_found(t.attributes, "schemaVersion"@, 1);
        },
        None => {
            lemma_first_attr_none(t.attributes, "schemaVersion"@);
        },
    }
}

/// Where the four numeric-or-access scalar children land on an encoded
/// device.
#[verifier::rlimit(100)]
#[verifier::spinoff_prover]
proof fn lemma_device_layout_scalars(d: DeviceView)
    ensures
        first_child(spec_encode_device(d).children, "addressUnitBits"@) == (
        match d.address_unit_bits {
            None => None,
            Some(v) => Some(spec_text_elem("addressUnitBits"@, dec_string_of(v as nat))),
        }),
        first_child(spec_encode_device(d).children, "width"@) == (match d.width {
            None => None,
            Some(v) => Some(spec_text_elem("width"@, dec_string_of(v as nat))),
        }),
        first_child(spec_encode_device(d).children, "size"@) == (
        match d.default_register_properties.size {
            None => None,
            Some(v) => Some(spec_text_elem("size"@, dec_string_of(v as nat))),
        }),
        first_child(spec_encode_device(d).children, "access"@) == (
        match d.default_register_properties.access {
            None => None,
            Some(a) => Some(
                spec_text_elem("access"@, crate::registerproperties::spec_access_text(a)),
            ),
        }),
{
    reveal_strlit("device");
    reveal_strlit("name");
    reveal_strlit("version");
    reveal_strlit("description");
    reveal_strlit("addressUnitBits");
    reveal_strlit("width");
    reveal_strlit("size");
    reveal_strlit("access");
    reveal_strlit("resetValue");
    reveal_strlit("resetMask");
    reveal_strlit("cpu");
    reveal_strlit("peripherals");
    reveal_strlit("schemaVersion");
    reveal_strlit("xmlns:xs");
    assert("device"@.len() == 6 && "name"@.len() == 4 && "version"@.len() == 7
        && "description"@.len() == 11 && "addressUnitBits"@.len() == 15 && "width"@.len() == 5
        && "size"@.len() == 4 && "access"@.len() == 6 && "resetValue"@.len() == 10
        && "resetMask"@.len() == 9 && "cpu"@.len() == 3 && "peripherals"@.len() == 11
        && "schemaVersion"@.len() == 13 && "xmlns:xs"@.len() == 8);
    assert("name"@[0] == 'n' && "size"@[0] == 's');
    assert("description"@[0] == 'd' && "peripherals"@[0] == 'p');
    let t = spec_encode_device(d);
    let rp = d.default_register_properties;
    let s1 = seq![spec_text_elem("name"@, d.name)];
    let s2 = spec_opt_text_elem("version"@, d.version);
    let s3 = spec_opt_text_elem("description"@, d.description);
    let s4 = spec_opt_text_elem("addressUnitBits"@, match d.address_unit_bits { None => None, Some(x) => Some(dec_string_of(x as nat)) });
    let s5 = spec_opt_text_elem("width"@, match d.width { None => None, Some(x) => Some(dec_string_of(x as nat)) });
    let s6 = spec_opt_text_elem("size"@, match rp.size { None => None, Some(x) => Some(dec_string_of(x as nat)) });
    let s7 = spec_opt_text_elem("access"@, match rp.access { None => None, Some(a) => Some(crate::registerproperties::spec_access_text(a)) });
    let s8 = spec_opt_text_elem("resetValue"@, match rp.reset_value { None => None, Some(x) => Some(dec_string_of(x as nat)) });
    let s9 = spec_opt_text_elem("resetMask"@, match rp.reset_mask { None => None, Some(x) => Some(dec_string_of(x as nat)) });
    let s10 = (match d.cpu { None => Seq::<TreeView>::empty(), Some(c) => seq![spec_encode_cpu(c)] });
    let s11 = seq![TreeView { name: "peripherals"@, attributes: Seq::empty(), children: spec_encode_peripherals(d.peripherals), text: None }];
    let a1 = s1 + s2;
    let a2 = a1 + s3;
    let a3 = a2 + s4;
    let a4 = a3 + s5;
    let r1 = s6 + s7;
    let r2 = r1 + s8;
    let rr = r2 + s9;
    let a5 = a4 + rr;
    let a6 = a5 + s10;
    let cs = a6 + s11;
    assert(t.children == cs);
    lemma_first_child_single(spec_text_elem("name"@, d.name), "addressUnitBits"@);
    lemma_first_child_opt_text("version"@, d.version, "addressUnitBits"@);
    lemma_first_child_opt_text("description"@, d.description, "addressUnitBits"@);
    lemma_first_child_opt_text("addressUnitBits"@, match d.address_unit_bits { None => None, Some(x) => Some(dec_string_of(x as nat)) }, "addressUnitBits"@);
    lemma_first_child_opt_text("width"@, match d.width { None => None, Some(x) => Some(dec_string_of(x as nat)) }, "addressUnitBits"@);
    lemma_first_child_opt_text("size"@, match rp.size { None => None, Some(x) => Some(dec_string_of(x as nat)) }, "addressUnitBits"@);
    lemma_first_child_opt_text("access"@, match rp.access { None => None, Some(a) => Some(crate::registerproperties::spec_access_text(a)) }, "addressUnitBits"@);
    lemma_first_child_opt_text("resetValue"@, match rp.reset_value { None => None, Some(x) => Some(dec_string_of(x as nat)) }, "addressUnitBits"@);
    lemma_first_child_opt_text("resetMask"@, match rp.reset_mask { None => None, Some(x) => Some(dec_string_of(x as nat)) }, "addressUnitBits"@);
    match d.cpu { None => {}, Some(c) => { lemma_first_child_single(spec_encode_cpu(c), "addressUnitBits"@); } }
    lemma_first_child_single(TreeView { name: "peripherals"@, attributes: Seq::empty(), children: spec_encode_peripherals(d.peripherals), text: None }, "addressUnitBits"@);
    lemma_first_child_split(s1, s2, "addressUnitBits"@);
    lemma_first_child_split(a1, s3, "addressUnitBits"@);
    lemma_first_child_split(a2, s4, "addressUnitBits"@);
    lemma_first_child_split(a3, s5, "addressUnitBits"@);
    lemma_first_child_split(s6, s7, "addressUnitBits"@);
    lemma_first_child_split(r1, s8, "addressUnitBits"@);
    lemma_first_child_split(r2, s9, "addressUnitBits"@);
    lemma_first_child_split(a4, rr, "addressUnitBits"@);
    lemma_first_child_split(a5, s10, "addressUnitBits"@);
    lemma_first_child_split(a6, s11, "addressUnitBits"@);
    lemma_first_child_single(spec_text_elem("name"@, d.name), "width"@);
    lemma_first_child_opt_text("version"@, d.version, "width"@);
    lemma_first_child_opt_text("description"@, d.description, "width"@);
    lemma_first_child_opt_text("addressUnitBits"@, match d.address_unit_bits { None => None, Some(x) => Some(dec_string_of(x as nat)) }, "width"@);
    lemma_first_child_opt_text("width"@, match d.width { None => None, Some(x) => Some(dec_string_of(x as nat)) }, "width"@);
    lemma_first_child_opt_text("size"@, match rp.size { None => None, Some(x) => Some(dec_string_of(x as nat)) }, "width"@);
    lemma_first_child_opt_text("access"@, match rp.access { None => None, Some(a) => Some(crate::registerproperties::spec_access_text(a)) }, "width"@);
    lemma_first_child_opt_text("resetValue"@, match rp.reset_value { None => None, Some(x) => Some(dec_string_of(x as nat)) }, "width"@);
    lemma_first_child_opt_text("resetMask"@, match rp.reset_mask { None => None, Some(x) => Some(dec_string_of(x as nat)) }, "width"@);
    match d.cpu { None => {}, Some(c) => { lemma_first_child_single(spec_encode_cpu(c), "width"@); } }
    lemma_first_child_single(TreeView { name: "peripherals"@, attributes: Seq::empty(), children: spec_encode_peripherals(d.peripherals), text: None }, "width"@);
    lemma_first_child_split(s1, s2, "width"@);
    lemma_first_child_split(a1, s3, "width"@);
    lemma_first_child_split(a2, s4, "width"@);
    lemma_first_child_split(a3, s5, "width"@);
    lemma_first_child_split(s6, s7, "width"@);
    lemma_first_child_split(r1, s8, "width"@);
    lemma_first_child_split(r2, s9, "width"@);
    lemma_first_child_split(a4, rr, "width"@);
    lemma_first_child_split(a5, s10, "width"@);
    lemma_first_child_split(a6, s11, "width"@);
    lemma_first_child_single(spec_text_elem("name"@, d.name), "size"@);
    lemma_first_child_opt_text("version"@, d.version, "size"@);
    lemma_first_child_opt_text("description"@, d.description, "size"@);
    lemma_first_child_opt_text("addressUnitBits"@, match d.address_unit_bits { None => None, Some(x) => Some(dec_string_of(x as nat)) }, "size"@);
    lemma_first_child_opt_text("width"@, match d.width { None => None, Some(x) => Some(dec_string_of(x as nat)) }, "size"@);
    lemma_first_child_opt_text("size"@, match rp.size { None => None, Some(x) => Some(dec_string_of(x as nat)) }, "size"@);
    lemma_first_child_opt_text("access"@, match rp.access { None => None, Some(a) => Some(crate::registerproperties::spec_access_text(a)) }, "size"@);
    lemma_first_child_opt_text("resetValue"@, match rp.reset_value { None => None, Some(x) => Some(dec_string_of(x as nat)) }, "size"@);
    lemma_first_child_opt_text("resetMask"@, match rp.reset_mask { None => None, Some(x) => Some(dec_string_of(x as nat)) }, "size"@);
    match d.cpu { None => {}, Some(c) => { lemma_first_child_single(spec_encode_cpu(c), "size"@); } }
    lemma_first_child_single(TreeView { name: "peripherals"@, attributes: Seq::empty(), children: spec_encode_peripherals(d.peripherals), text: None }, "size"@);
    lemma_first_child_split(s1, s2, "size"@);
    lemma_first_child_split(a1, s3, "size"@);
    lemma_first_child_split(a2, s4, "size"@);
    lemma_first_child_split(a3, s5, "size"@);
    lemma_first_child_split(s6, s7, "size"@);
    lemma_first_child_split(r1, s8, "size"@);
    lemma_first_child_split(r2, s9, "size"@);
    lemma_first_child_split(a4, rr, "size"@);
    lemma_first_child_split(a5, s10, "size"@);
    lemma_first_child_split(a6, s11, "size"@);
    lemma_first_child_single(spec_text_elem("name"@, d.name), "access"@);
    lemma_first_child_opt_text("version"@, d.version, "access"@);
    lemma_first_child_opt_text("description"@, d.description, "access"@);
    lemma_first_child_opt_text("addressUnitBits"@, match d.address_unit_bits { None => None, Some(x) => Some(dec_string_of(x as nat)) }, "access"@);
    lemma_first_child_opt_text("width"@, match d.width { None => None, Some(x) => Some(dec_string_of(x as nat)) }, "access"@);
    lemma_first_child_opt_text("size"@, match rp.size { None => None, Some(x) => Some(dec_string_of(x as nat)) }, "access"@);
    lemma_first_child_opt_text("access"@, match rp.access { None => None, Some(a) => Some(crate::registerproperties::spec_access_text(a)) }, "access"@);
    lemma_first_child_opt_text("resetValue"@, match rp.reset_value { None => None, Some(x) => Some(dec_string_of(x as nat)) }, "access"@);
    lemma_first_child_opt_text("resetMask"@, match rp.reset_mask { None => None, Some(x) => Some(dec_string_of(x as nat)) }, "access"@);
    match d.cpu { None => {}, Some(c) => { lemma_first_child_single(spec_encode_cpu(c), "access"@); } }
    lemma_first_child_single(TreeView { name: "peripherals"@, attributes: Seq::empty(), children: spec_encode_peripherals(d.peripherals), text: None }, "access"@);
    lemma_first_child_split(s1, s2, "access"@);
    lemma_first_child_split(a1, s3, "access"@);
    lemma_first_child_split(a2, s4, "access"@);
    lemma_first_child_split(a3, s5, "access"@);
    lemma_first_child_split(s6, s7, "access"@);
    lemma_first_child_split(r1, s8, "access"@);
    lemma_first_child_split(r2, s9, "access"@);
    lemma_first_child_split(a4, rr, "access"@);
    lemma_first_child_split(a5, s10, "access"@);
    lemma_first_child_split(a6, s11, "access"@);
}

/// Where the reset defaults, the CPU, and the peripherals container land
/// on an encoded device.
#[verifier::rlimit(100)]
#[verifier::spinoff_prover]
proof fn lemma_device_layout_tail(d: DeviceView)
    ensures
        first_child(spec_encode_device(d).children, "resetValue"@) == (
        match d.default_register_properties.reset_value {
            None => None,
            Some(v) => Some(spec_text_elem("resetValue"@, dec_string_of(v as nat))),
        }),
        first_child(spec_encode_device(d).children, "resetMask"@) == (
        match d.default_register_properties.reset_mask {
            None => None,
            Some(v) => Some(spec_text_elem("resetMask"@, dec_string_of(v as nat))),
        }),
        first_child(spec_encode_device(d).children, "cpu"@) == (match d.cpu {
            None => None,
            Some(c) => Some(spec_encode_cpu(c)),
        }),
        first_child(spec_encode_device(d).children, "peripherals"@) == Some(
            TreeView {
                name: "peripherals"@,
                attributes: Seq::empty(),
                children: spec_encode_peripherals(d.peripherals),
                text: None,
            },
        ),
{
    reveal_strlit("device");
    reveal_strlit("name");
    reveal_strlit("version");
    reveal_strlit("description");
    reveal_strlit("addressUnitBits");
    reveal_strlit("width");
    reveal_strlit("size");
    reveal_strlit("access");
    reveal_strlit("resetValue");
    reveal_strlit("resetMask");
    reveal_strlit("cpu");
    reveal_strlit("peripherals");
    reveal_strlit("schemaVersion");
    reveal_strlit("xmlns:xs");
    assert("device"@.len() == 6 && "name"@.len() == 4 && "version"@.len() == 7
        && "description"@.len() == 11 && "addressUnitBits"@.len() == 15 && "width"@.len() == 5
        && "size"@.len() == 4 && "access"@.len() == 6 && "resetValue"@.len() == 10
        && "resetMask"@.len() == 9 && "cpu"@.len() == 3 && "peripherals"@.len() == 11
        && "schemaVersion"@.len() == 13 && "xmlns:xs"@.len() == 8);
    assert("name"@[0] == 'n' && "size"@[0] == 's');
    assert("description"@[0] == 'd' && "peripherals"@[0] == 'p');
    let t = spec_encode_device(d);
    let rp = d.default_register_properties;
    let s1 = seq![spec_text_elem("name"@, d.name)];
    let s2 = spec_opt_text_elem("version"@, d.version);
    let s3 = spec_opt_text_elem("description"@, d.description);
    let s4 = spec_opt_text_elem("addressUnitBits"@, match d.address_unit_bits { None => None, Some(x) => Some(dec_string_of(x as nat)) });
    let s5 = spec_opt_text_elem("width"@, match d.width { None => None, Some(x) => Some(dec_string_of(x as nat)) });
    let s6 = spec_opt_text_elem("size"@, match rp.size { None => None, Some(x) => Some(dec_string_of(x as nat)) });
    let s7 = spec_opt_text_elem("access"@, match rp.access { None => None, Some(a) => Some(crate::registerproperties::spec_access_text(a)) });
    let s8 = spec_opt_text_elem("resetValue"@, match rp.reset_value { None => None, Some(x) => Some(dec_string_of(x as nat)) });
    let s9 = spec_opt_text_elem("resetMask"@, match rp.reset_mask { None => None, Some(x) => Some(dec_string_of(x as nat)) });
    let s10 = (match d.cpu { None => Seq::<TreeView>::empty(), Some(c) => seq![spec_encode_cpu(c)] });
    let s11 = seq![TreeView { name: "peripherals"@, attributes: Seq::empty(), children: spec_encode_peripherals(d.peripherals), text: None }];
    let a1 = s1 + s2;
    let a2 = a1 + s3;
    let a3 = a2 + s4;
    let a4 = a3 + s5;
    let r1 = s6 + s7;
    let r2 = r1 + s8;
    let rr = r2 + s9;
    let a5 = a4 + rr;
    let a6 = a5 + s10;
    let cs = a6 + s11;
    assert(t.children == cs);
    lemma_first_child_single(spec_text_elem("name"@, d.name), "resetValue"@);
    lemma_first_child_opt_text("version"@, d.version, "resetValue"@);
    lemma_first_child_opt_text("description"@, d.description, "resetValue"@);
    lemma_first_child_opt_text("addressUnitBits"@, match d.address_unit_bits { None => None, Some(x) => Some(dec_string_of(x as nat)) }, "resetValue"@);
    lemma_first_child_opt_text("width"@, match d.width { None => None, Some(x) => Some(dec_string_of(x as nat)) }, "resetValue"@);
    lemma_first_child_opt_text("size"@, match rp.size { None => None, Some(x) => Some(dec_string_of(x as nat)) }, "resetValue"@);
    lemma_first_child_opt_text("access"@, match rp.access { None => None, Some(a) => Some(crate::registerproperties::spec_access_text(a)) }, "resetValue"@);
    lemma_first_child_opt_text("resetValue"@, match rp.reset_value { None => None, Some(x) => Some(dec_string_of(x as nat)) }, "resetValue"@);
    lemma_first_child_opt_text("resetMask"@, match rp.reset_mask { None => None, Some(x) => Some(dec_string_of(x as nat)) }, "resetValue"@);
    match d.cpu { None => {}, Some(c) => { lemma_first_child_single(spec_encode_cpu(c), "resetValue"@); } }
    lemma_first_child_single(TreeView { name: "peripherals"@, attributes: Seq::empty(), children: spec_encode_peripherals(d.peripherals), text: None }, "resetValue"@);
    lemma_first_child_split(s1, s2, "resetValue"@);
    lemma_first_child_split(a1, s3, "resetValue"@);
    lemma_first_child_split(a2, s4, "resetValue"@);
    lemma_first_child_split(a3, s5, "resetValue"@);
    lemma_first_child_split(s6, s7, "resetValue"@);
    lemma_first_child_split(r1, s8, "resetValue"@);
    lemma_first_child_split(r2, s9, "resetValue"@);
    lemma_first_child_split(a4, rr, "resetValue"@);
    lemma_first_child_split(a5, s10, "resetValue"@);
    lemma_first_child_split(a6, s11, "resetValue"@);
    lemma_first_child_single(spec_text_elem("name"@, d.name), "resetMask"@);
    lemma_first_child_opt_text("version"@, d.version, "resetMask"@);
    lemma_first_child_opt_text("description"@, d.description, "resetMask"@);
    lemma_first_child_opt_text("addressUnitBits"@, match d.address_unit_bits { None => None, Some(x) => Some(dec_string_of(x as nat)) }, "resetMask"@);
    lemma_first_child_opt_text("width"@, match d.width { None => None, Some(x) => Some(dec_string_of(x as nat)) }, "resetMask"@);
    lemma_first_child_opt_text("size"@, match rp.size { None => None, Some(x) => Some(dec_string_of(x as nat)) }, "resetMask"@);
    lemma_first_child_opt_text("access"@, match rp.access { None => None, Some(a) => Some(crate::registerproperties::spec_access_text(a)) }, "resetMask"@);
    lemma_first_child_opt_text("resetValue"@, match rp.reset_value { None => None, Some(x) => Some(dec_string_of(x as nat)) }, "resetMask"@);
    lemma_first_child_opt_text("resetMask"@, match rp.reset_mask { None => None, Some(x) => Some(dec_string_of(x as nat)) }, "resetMask"@);
    match d.cpu { None => {}, Some(c) => { lemma_first_child_single(spec_encode_cpu(c), "resetMask"@); } }
    lemma_first_child_single(TreeView { name: "peripherals"@, attributes: Seq::empty(), children: spec_encode_peripherals(d.peripherals), text: None }, "resetMask"@);
    lemma_first_child_split(s1, s2, "resetMask"@);
    lemma_first_child_split(a1, s3, "resetMask"@);
    lemma_first_child_split(a2, s4, "resetMask"@);
    lemma_first_child_split(a3, s5, "resetMask"@);
    lemma_first_child_split(s6, s7, "resetMask"@);
    lemma_first_child_split(r1, s8, "resetMask"@);
    lemma_first_child_split(r2, s9, "resetMask"@);
    lemma_first_child_split(a4, rr, "resetMask"@);
    lemma_first_child_split(a5, s10, "resetMask"@);
    lemma_first_child_split(a6, s11, "resetMask"@);
    lemma_first_child_single(spec_text_elem("name"@, d.name), "cpu"@);
    lemma_first_child_opt_text("version"@, d.version, "cpu"@);
    lemma_first_child_opt_text("description"@, d.description, "cpu"@);
    lemma_first_child_opt_text("addressUnitBits"@, match d.address_unit_bits { None => None, Some(x) => Some(dec_string_of(x as nat)) }, "cpu"@);
    lemma_first_child_opt_text("width"@, match d.width { None => None, Some(x) => Some(dec_string_of(x as nat)) }, "cpu"@);
    lemma_first_child_opt_text("size"@, match rp.size { None => None, Some(x) => Some(dec_string_of(x as nat)) }, "cpu"@);
    lemma_first_child_opt_text("access"@, match rp.access { None => None, Some(a) => Some(crate::registerproperties::spec_access_text(a)) }, "cpu"@);
    lemma_first_child_opt_text("resetValue"@, match rp.reset_value { None => None, Some(x) => Some(dec_string_of(x as nat)) }, "cpu"@);
    lemma_first_child_opt_text("resetMask"@, match rp.reset_mask { None => None, Some(x) => Some(dec_string_of(x as nat)) }, "cpu"@);
    match d.cpu { None => {}, Some(c) => { lemma_first_child_single(spec_encode_cpu(c), "cpu"@); } }
    lemma_first_child_single(TreeView { name: "peripherals"@, attributes: Seq::empty(), children: spec_encode_peripherals(d.peripherals), text: None }, "cpu"@);
    lemma_first_child_split(s1, s2, "cpu"@);
    lemma_first_child_split(a1, s3, "cpu"@);
    lemma_first_child_split(a2, s4, "cpu"@);
    lemma_first_child_split(a3, s5, "cpu"@);
    lemma_first_child_split(s6, s7, "cpu"@);
    lemma_first_child_split(r1, s8, "cpu"@);
    lemma_first_child_split(r2, s9, "cpu"@);
    lemma_first_child_split(a4, rr, "cpu"@);
    lemma_first_child_split(a5, s10, "cpu"@);
    lemma_first_child_split(a6, s11, "cpu"@);
    lemma_first_child_single(spec_text_elem("name"@, d.name), "peripherals"@);
    lemma_first_child_opt_text("version"@, d.version, "peripherals"@);
    lemma_first_child_opt_text("description"@, d.description, "peripherals"@);
    lemma_first_child_opt_text("addressUnitBits"@, match d.address_unit_bits { None => None, Some(x) => Some(dec_string_of(x as nat)) }, "peripherals"@);
    lemma_first_child_opt_text("width"@, match d.width { None => None, Some(x) => Some(dec_string_of(x as nat)) }, "peripherals"@);
    lemma_first_child_opt_text("size"@, match rp.size { None => None, Some(x) => Some(dec_string_of(x as nat)) }, "peripherals"@);
    lemma_first_child_opt_text("access"@, match rp.access { None => None, Some(a) => Some(crate::registerproperties::spec_access_text(a)) }, "peripherals"@);
    lemma_first_child_opt_text("resetValue"@, match rp.reset_value { None => None, Some(x) => Some(dec_string_of(x as nat)) }, "peripherals"@);
    lemma_first_child_opt_text("resetMask"@, match rp.reset_mask { None => None, Some(x) => Some(dec_string_of(x as nat)) }, "peripherals"@);
    match d.cpu { None => {}, Some(c) => { lemma_first_child_single(spec_encode_cpu(c), "peripherals"@); } }
    lemma_first_child_single(TreeView { name: "peripherals"@, attributes: Seq::empty(), children: spec_encode_peripherals(d.peripherals), text: None }, "peripherals"@);
    lemma_first_child_split(s1, s2, "peripherals"@);
    lemma_first_child_split(a1, s3, "peripherals"@);
    lemma_first_child_split(a2, s4, "peripherals"@);
    lemma_first_child_split(a3, s5, "peripherals"@);
    lemma_first_child_split(s6, s7, "peripherals"@);
    lemma_first_child_split(r1, s8, "peripherals"@);
    lemma_first_child_split(r2, s9, "peripherals"@);
    lemma_first_child_split(a4, rr, "peripherals"@);
    lemma_first_child_split(a5, s10, "peripherals"@);
    lemma_first_child_split(a6, s11, "peripherals"@);
}

/// The parsed value of every scalar lookup on an encoded device.
#[verifier::rlimit(100)]
#[verifier::spinoff_prover]
proof fn lemma_device_lookups(d: DeviceView)
    ensures
        spec_encode_device(d).name == "device"@,
        crate::tree::spec_child_text(spec_encode_device(d), "name"@) == Ok::<
            Seq<char>,
            ErrorView,
        >(d.name),
        first_attr(spec_encode_device(d).attributes, "schemaVersion"@) == d.schema_version,
        crate::tree::spec_optional_child_text(spec_encode_device(d), "version"@) == Ok::<
            Option<Seq<char>>,
            ErrorView,
        >(d.version),
        crate::tree::spec_optional_child_text(spec_encode_device(d), "description"@) == Ok::<
            Option<Seq<char>>,
            ErrorView,
        >(d.description),
        crate::scalar::spec_optional_child_u32(spec_encode_device(d), "addressUnitBits"@) == Ok::<
            Option<u32>,
            ErrorView,
        >(d.address_unit_bits),
        crate::scalar::spec_optional_child_u32(spec_encode_device(d), "width"@) == Ok::<
            Option<u32>,
            ErrorView,
        >(d.width),
        spec_parse_register_properties(spec_encode_device(d)) == Ok::<
            RegisterProperties,
            ErrorView,
        >(d.default_register_properties),
        d.cpu is None ==> first_child(spec_encode_device(d).children, "cpu"@) is None,
        d.cpu matches Some(c) ==> first_child(spec_encode_device(d).children, "cpu"@) == Some(
            spec_encode_cpu(c),
        ),
        first_child(spec_encode_device(d).children, "peripherals"@) == Some(
            TreeView {
                name: "peripherals"@,
                attributes: Seq::empty(),
                children: spec_encode_peripherals(d.peripherals),
                text: None,
            },
        ),
{
    lemma_device_layout_head(d);
    lemma_device_layout_scalars(d);
    lemma_device_layout_tail(d);
    let rp = d.default_register_properties;
    match d.address_unit_bits {
        Some(v) => {
            lemma_dec_text_value(v as nat);
        },
        None => {
        },
    }
    match d.width {
        Some(v) => {
            lemma_dec_text_value(v as nat);
        },
        None => {
        },
    }
    match rp.size {
        Some(v) => {
            lemma_dec_text_value(v as nat);
        },
        None => {
        },
    }
    match rp.access {
        Some(a) => {
            lemma_access_round_trip(a);
        },
        None => {
        },
    }
    match rp.reset_value {
        Some(v) => {
            lemma_dec_text_value(v as nat);
        },
        None => {
        },
    }
    match rp.reset_mask {
        Some(v) => {
            lemma_dec_text_value(v as nat);
        },
        None => {
        },
    }
}

/// Round-trip stability: encoding any validly constructed device and
/// parsing the result back, strictly or leniently, yields the same device;
/// the lenient parse reports a clean diagnostic.
#[verifier::rlimit(100)]
#[verifier::spinoff_prover]
pub proof fn lemma_device_round_trip(d: DeviceView)
    requires
        device_wf(d),
    ensures
        spec_parse_device_unstrict(spec_encode_device(d)) == Ok::<
            (DeviceView, Result<(), ErrorView>),
            ErrorView,
        >((d, Ok(()))),
        spec_parse_device(spec_encode_device(d)) == Ok::<DeviceView, ErrorView>(d),
{
    reveal_strlit("device");
    let t = spec_encode_device(d);
    lemma_device_lookups(d);
    match d.cpu {
        Some(c) => {
            lemma_cpu_round_trip(c);
        },
        None => {
        },
    }
    lemma_peripheral_list_round_trip(d.peripherals);
    assert(crate::device::spec_parse_device_fields(t, d.name) matches Ok((dv, Ok(())))
        && dv =~~= d);
    assert(spec_parse_device_unstrict(t) == Ok::<
        (DeviceView, Result<(), ErrorView>),
        ErrorView,
    >((d, Ok(()))));
}

/// Sibling peripherals that all parse leave the list parse successful.
pub proof fn lemma_sibling_list_ok(ts: Seq<TreeView>)
    requires
        forall|j: int| 0 <= j < ts.len() ==> spec_parse_peripheral_unstrict(#[trigger] ts[j]) is Ok,
    ensures
        spec_parse_peripheral_list(ts) is Ok,
    decreases ts.len(),
{
    if ts.len() > 0 {
        assert forall|j: int| 0 <= j < ts.drop_first().len() implies spec_parse_peripheral_unstrict(
            #[trigger] ts.drop_first()[j],
        ) is Ok by {
            assert(ts.drop_first()[j] == ts[j + 1]);
        }
        lemma_sibling_list_ok(ts.drop_first());
    }
}

/// Independent-sibling parsing, failing side: when every peripheral before
/// position `i` parses and the one at `i` does not, the whole list parse
/// fails with exactly that sibling's error, whatever follows it.
pub proof fn lemma_first_sibling_error(ts: Seq<TreeView>, i: int)
    requires
        0 <= i < ts.len(),
        forall|j: int| 0 <= j < i ==> spec_parse_peripheral_unstrict(#[trigger] ts[j]) is Ok,
        spec_parse_peripheral_unstrict(ts[i]) is Err,
    ensures
        spec_parse_peripheral_list(ts) == Err::<
            (Seq<PeripheralView>, Result<(), ErrorView>),
            ErrorView,
        >(spec_parse_peripheral_unstrict(ts[i])->Err_0),
    decreases i,
{
    if i > 0 {
        assert forall|j: int| 0 <= j < i - 1 implies spec_parse_peripheral_unstrict(
            #[trigger] ts.drop_first()[j],
        ) is Ok by {
            assert(ts.drop_first()[j] == ts[j + 1]);
        }
        assert(ts.drop_first()[i - 1] == ts[i]);
        lemma_first_sibling_error(ts.drop_first(), i - 1);
        assert(spec_parse_peripheral_unstrict(ts[0]) is Ok);
    }
}

/// Independent-sibling parsing, warning side: when every sibling parses and
/// the first deviation sits at position `i`, the list parse succeeds and
/// retains exactly that sibling's warning.
pub proof fn lemma_first_sibling_warning(ts: Seq<TreeView>, i: int)
    requires
        0 <= i < ts.len(),
        forall|j: int| 0 <= j < ts.len() ==> spec_parse_peripheral_unstrict(#[trigger] ts[j]) is Ok,
        forall|j: int|
            0 <= j < i ==> (spec_parse_peripheral_unstrict(#[trigger] ts[j])->Ok_0).1 is Ok,
        (spec_parse_peripheral_unstrict(ts[i])->Ok_0).1 is Err,
    ensures
        spec_parse_peripheral_list(ts) matches Ok((ps, w)) && w == (spec_parse_peripheral_unstrict(
            ts[i],
        )->Ok_0).1,
    decreases i,
{
    assert forall|j: int| 0 <= j < ts.drop_first().len() implies spec_parse_peripheral_unstrict(
        #[trigger] ts.drop_first()[j],
    ) is Ok by {
        assert(ts.drop_first()[j] == ts[j + 1]);
    }
    if i == 0 {
        lemma_sibling_list_ok(ts.drop_first());
    } else {
        assert forall|j: int| 0 <= j < i - 1 implies (spec_parse_peripheral_unstrict(
            #[trigger] ts.drop_first()[j],
        )->Ok_0).1 is Ok by {
            assert(ts.drop_first()[j] == ts[j + 1]);
        }
        assert(ts.drop_first()[i - 1] == ts[i]);
        lemma_first_sibling_warning(ts.drop_first(), i - 1);
        assert((spec_parse_peripheral_unstrict(ts[0])->Ok_0).1 is Ok);
    }
}

} // verus!

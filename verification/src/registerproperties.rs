//! Inheritable register defaults: size, access, reset value, reset mask.
//! A pure default-propagation record with all-optional scalar fields; it is
//! parsed out of the enclosing element rather than a tag of its own, and
//! encodes to a list of child elements to splice in.

use vstd::prelude::*;
use crate::error::{Error, ErrorKindView, ErrorView, SVDError, SVDErrorView};
use crate::scalar::{
    dec_string_of, optional_child_u32, optional_child_u64, spec_optional_child_u32,
    spec_optional_child_u64, u32_to_dec, u64_to_dec,
};
use crate::tree::{spec_opt_text_elem, spec_optional_child_text, spec_text_elem, str_eq, Tree, TreeView};

verus! {

/// The ways a register may be accessed.
#[derive(Clone, Copy, Debug, PartialEq, Eq, Structural)]
pub enum Access {
    ReadOnly,
    ReadWrite,
    ReadWriteOnce,
    WriteOnce,
    WriteOnly,
}

/// The text an access variant is written as.
pub open spec fn spec_access_text(a: Access) -> Seq<char> {
    match a {
        Access::ReadOnly => "read-only"@,
        Access::ReadWrite => "read-write"@,
        Access::ReadWriteOnce => "read-writeOnce"@,
        Access::WriteOnce => "writeOnce"@,
        Access::WriteOnly => "write-only"@,
    }
}

/// The access variant a text denotes, if any.
pub open spec fn spec_access_of_text(s: Seq<char>) -> Option<Access> {
    if s == "read-only"@ {
        Some(Access::ReadOnly)
    } else if s == "read-write"@ {
        Some(Access::ReadWrite)
    } else if s == "read-writeOnce"@ {
        Some(Access::ReadWriteOnce)
    } else if s == "writeOnce"@ {
        Some(Access::WriteOnce)
    } else if s == "write-only"@ {
        Some(Access::WriteOnly)
    } else {
        None
    }
}

/// Reading the canonical rendering back gives the variant.
pub proof fn lemma_access_round_trip(a: Access)
    ensures
        spec_access_of_text(spec_access_text(a)) == Some(a),
{
    reveal_strlit("read-only");
    reveal_strlit("read-write");
    reveal_strlit("read-writeOnce");
    reveal_strlit("writeOnce");
    reveal_strlit("write-only");
    assert("read-only"@.len() == 9);
    assert("read-write"@.len() == 10);
    assert("read-writeOnce"@.len() == 14);
    assert("writeOnce"@.len() == 9);
    assert("write-only"@.len() == 10);
    assert("read-only"@[0] == 'r' && "writeOnce"@[0] == 'w');
    assert("read-write"@[0] == 'r' && "write-only"@[0] == 'w');
}

/// Reads `text` as an access variant; anything else is the unknown-access
/// error carrying the offending text.
pub fn access_from_text(text: &String) -> (r: Result<Access, Error>)
    ensures
        match (r, spec_access_of_text(text@)) {
            (Ok(a), Some(sa)) => a == sa,
            (Err(e), None) => e@ =~= ErrorView {
                kind: ErrorKindView::Svd(SVDErrorView::UnknownAccessType(text@)),
                context: Seq::empty(),
            },
            _ => false,
        },
{
    if str_eq(text, "read-only") {
        Ok(Access::ReadOnly)
    } else if str_eq(text, "read-write") {
        Ok(Access::ReadWrite)
    } else if str_eq(text, "read-writeOnce") {
        Ok(Access::ReadWriteOnce)
    } else if str_eq(text, "writeOnce") {
        Ok(Access::WriteOnce)
    } else if str_eq(text, "write-only") {
        Ok(Access::WriteOnly)
    } else {
        Err(Error::svd(SVDError::UnknownAccessType(text.clone())))
    }
}

/// Writes an access variant in its canonical rendering.
pub fn access_to_text(a: Access) -> (s: String)
    ensures
        s@ == spec_access_text(a),
{
    match a {
        Access::ReadOnly => "read-only".to_owned(),
        Access::ReadWrite => "read-write".to_owned(),
        Access::ReadWriteOnce => "read-writeOnce".to_owned(),
        Access::WriteOnce => "writeOnce".to_owned(),
        Access::WriteOnly => "write-only".to_owned(),
    }
}

/// Inheritable defaults applied when a register omits them.  All fields are
/// optional; there is no structural invariant.
#[derive(Clone, Copy, Debug, PartialEq, Eq, Structural, Default)]
pub struct RegisterProperties {
    pub size: Option<u32>,
    pub access: Option<Access>,
    pub reset_value: Option<u64>,
    pub reset_mask: Option<u64>,
}

/// The model of reading the optional `access` child.
pub open spec fn spec_optional_child_access(t: TreeView) -> Result<Option<Access>, ErrorView> {
    match spec_optional_child_text(t, "access"@) {
        Err(e) => Err(e),
        Ok(None) => Ok(None),
        Ok(Some(x)) => match spec_access_of_text(x) {
            None => Err(
                ErrorView {
                    kind: ErrorKindView::Svd(SVDErrorView::UnknownAccessType(x)),
                    context: Seq::empty(),
                },
            ),
            Some(a) => Ok(Some(a)),
        },
    }
}

/// The model of [`RegisterProperties::parse`]: the four optional scalar
/// children of the enclosing element, read in a fixed order.
pub open spec fn spec_parse_register_properties(t: TreeView) -> Result<
    RegisterProperties,
    ErrorView,
> {
    match spec_optional_child_u32(t, "size"@) {
        Err(e) => Err(e),
        Ok(size) => match spec_optional_child_access(t) {
            Err(e) => Err(e),
            Ok(access) => match spec_optional_child_u64(t, "resetValue"@) {
                Err(e) => Err(e),
                Ok(reset_value) => match spec_optional_child_u64(t, "resetMask"@) {
                    Err(e) => Err(e),
                    Ok(reset_mask) => Ok(
                        RegisterProperties { size, access, reset_value, reset_mask },
                    ),
                },
            },
        },
    }
}

/// The model of [`RegisterProperties::encode`]: one text element per set
/// field, in the parse order.
pub open spec fn spec_encode_register_properties(v: RegisterProperties) -> Seq<TreeView> {
    spec_opt_text_elem(
        "size"@,
        match v.size {
            None => None,
            Some(x) => Some(dec_string_of(x as nat)),
        },
    ) + spec_opt_text_elem(
        "access"@,
        match v.access {
            None => None,
            Some(a) => Some(spec_access_text(a)),
        },
    ) + spec_opt_text_elem(
        "resetValue"@,
        match v.reset_value {
            None => None,
            Some(x) => Some(dec_string_of(x as nat)),
        },
    ) + spec_opt_text_elem(
        "resetMask"@,
        match v.reset_mask {
            None => None,
            Some(x) => Some(dec_string_of(x as nat)),
        },
    )
}

impl RegisterProperties {
    /// Reads the defaults out of the enclosing element.  Succeeds whenever
    /// each of the four children is absent or holds well-formed scalar
    /// text; the first malformed child's error propagates.
    pub fn parse(tree: &Tree) -> (r: Result<RegisterProperties, Error>)
        ensures
            match (r, spec_parse_register_properties(tree@)) {
                (Ok(v), Ok(sv)) => v == sv,
                (Err(e), Err(ev)) => e@ =~= ev,
                _ => false,
            },
    {
        let size = optional_child_u32(tree, "size")?;
        let access = match tree.optional_child_text("access")? {
            None => None,
            Some(x) => Some(access_from_text(&x)?),
        };
        let reset_value = optional_child_u64(tree, "resetValue")?;
        let reset_mask = optional_child_u64(tree, "resetMask")?;
        Ok(RegisterProperties { size, access, reset_value, reset_mask })
    }

    /// Writes the set fields as child elements to splice into the enclosing
    /// element, in the parse order.
    pub fn encode(&self) -> (r: Result<Vec<Tree>, Error>)
        ensures
            r matches Ok(cs) && cs.deep_view() =~= spec_encode_register_properties(*self),
    {
        let mut cs: Vec<Tree> = Vec::new();
        if let Some(x) = self.size {
            cs.push(Tree::new_element("size", Some(u32_to_dec(x))));
        }
        if let Some(a) = self.access {
            cs.push(Tree::new_element("access", Some(access_to_text(a))));
        }
        if let Some(x) = self.reset_value {
            cs.push(Tree::new_element("resetValue", Some(u64_to_dec(x))));
        }
        if let Some(x) = self.reset_mask {
            cs.push(Tree::new_element("resetMask", Some(u64_to_dec(x))));
        }
        Ok(cs)
    }
}

} // verus!

//! The closed set of error kinds the engine can raise, and the context chain
//! that every hard error accumulates while it crosses entity boundaries.
//!
//! A hard error aborts construction of the enclosing entity; a [`Warning`] is
//! a non-fatal schema deviation recorded beside an otherwise usable entity.
//! Each error carries only the minimal structured context (tag name, field
//! name, offending text) needed to reconstruct a human-readable location
//! chain; it never embeds a document subtree.

use vstd::prelude::*;

verus! {

/// Schema-level error kinds raised while mapping between the document tree
/// and the object model.
#[derive(Clone, Debug, PartialEq, Eq)]
pub enum SVDError {
    /// Endianness text that names no known variant.
    UnknownEndian(String),
    /// A required child tag was absent; carries the expected tag name.
    MissingTag(String),
    /// A required child tag was present but had no text content.
    EmptyTag(String),
    /// Scalar text content that could not be read as a number.
    ParseError(String),
    NameMismatch(String),
    /// Access text that names no known variant.
    UnknownAccessType(String),
    InvalidBitRange(InvalidBitRange),
    UnknownWriteConstraint(String),
    MoreThanOneWriteConstraint(String),
    UnknownUsageVariant(String),
    /// The caller handed a subtree to the wrong entity parser; carries the
    /// expected tag name and the tag name found.
    NotExpectedTag { expected: String, found: String },
    InvalidRegisterCluster(String),
    InvalidModifiedWriteValues(String),
    /// Text content that is neither `true` nor `false` where a boolean is
    /// required; carries the offending text.
    InvalidBooleanValue(String),
    EncodeNotImplemented(String),
    FileParseError,
    /// A device must contain at least one peripheral.
    EmptyDevice,
    EmptyRegisters,
    EmptyCluster,
    EmptyFields,
}

/// The ways a bit-range description can be malformed.
#[derive(Clone, Copy, Debug, PartialEq, Eq, Structural)]
pub enum InvalidBitRange {
    Syntax,
    ParseError,
    MsbLsb,
    Empty,
}

/// A mandatory builder field was left unset; carries the field name.
#[derive(Clone, Debug, PartialEq, Eq)]
pub enum BuildError {
    Uninitialized(String),
}

/// A name failed its identifier grammar; carries the offending string and
/// the tag it was found in.
#[derive(Clone, Debug, PartialEq, Eq)]
pub enum NameError {
    Invalid(String, String),
}

/// Mathematical model of [`SVDError`]: the same variants over `Seq<char>`.
pub enum SVDErrorView {
    UnknownEndian(Seq<char>),
    MissingTag(Seq<char>),
    EmptyTag(Seq<char>),
    ParseError(Seq<char>),
    NameMismatch(Seq<char>),
    UnknownAccessType(Seq<char>),
    InvalidBitRange(InvalidBitRange),
    UnknownWriteConstraint(Seq<char>),
    MoreThanOneWriteConstraint(Seq<char>),
    UnknownUsageVariant(Seq<char>),
    NotExpectedTag { expected: Seq<char>, found: Seq<char> },
    InvalidRegisterCluster(Seq<char>),
    InvalidModifiedWriteValues(Seq<char>),
    InvalidBooleanValue(Seq<char>),
    EncodeNotImplemented(Seq<char>),
    FileParseError,
    EmptyDevice,
    EmptyRegisters,
    EmptyCluster,
    EmptyFields,
}

/// Mathematical model of [`BuildError`].
pub enum BuildErrorView {
    Uninitialized(Seq<char>),
}

/// Mathematical model of [`NameError`].
pub enum NameErrorView {
    Invalid(Seq<char>, Seq<char>),
}

impl View for SVDError {
    type V = SVDErrorView;

    open spec fn view(&self) -> SVDErrorView {
        match self {
            SVDError::UnknownEndian(s) => SVDErrorView::UnknownEndian(s@),
            SVDError::MissingTag(s) => SVDErrorView::MissingTag(s@),
            SVDError::EmptyTag(s) => SVDErrorView::EmptyTag(s@),
            SVDError::ParseError(s) => SVDErrorView::ParseError(s@),
            SVDError::NameMismatch(s) => SVDErrorView::NameMismatch(s@),
            SVDError::UnknownAccessType(s) => SVDErrorView::UnknownAccessType(s@),
            SVDError::InvalidBitRange(r) => SVDErrorView::InvalidBitRange(*r),
            SVDError::UnknownWriteConstraint(s) => SVDErrorView::UnknownWriteConstraint(s@),
            SVDError::MoreThanOneWriteConstraint(s) => SVDErrorView::MoreThanOneWriteConstraint(
                s@,
            ),
            SVDError::UnknownUsageVariant(s) => SVDErrorView::UnknownUsageVariant(s@),
            SVDError::NotExpectedTag { expected, found } => SVDErrorView::NotExpectedTag {
                expected: expected@,
                found: found@,
            },
            SVDError::InvalidRegisterCluster(s) => SVDErrorView::InvalidRegisterCluster(s@),
            SVDError::InvalidModifiedWriteValues(s) => SVDErrorView::InvalidModifiedWriteValues(
                s@,
            ),
            SVDError::InvalidBooleanValue(s) => SVDErrorView::InvalidBooleanValue(s@),
            SVDError::EncodeNotImplemented(s) => SVDErrorView::EncodeNotImplemented(s@),
            SVDError::FileParseError => SVDErrorView::FileParseError,
            SVDError::EmptyDevice => SVDErrorView::EmptyDevice,
            SVDError::EmptyRegisters => SVDErrorView::EmptyRegisters,
            SVDError::EmptyCluster => SVDErrorView::EmptyCluster,
            SVDError::EmptyFields => SVDErrorView::EmptyFields,
        }
    }
}

impl View for BuildError {
    type V = BuildErrorView;

    open spec fn view(&self) -> BuildErrorView {
        match self {
            BuildError::Uninitialized(s) => BuildErrorView::Uninitialized(s@),
        }
    }
}

impl View for NameError {
    type V = NameErrorView;

    open spec fn view(&self) -> NameErrorView {
        match self {
            NameError::Invalid(s, t) => NameErrorView::Invalid(s@, t@),
        }
    }
}

/// Which family a hard error belongs to.
#[derive(Clone, Debug, PartialEq, Eq)]
pub enum ErrorKind {
    Svd(SVDError),
    Build(BuildError),
    Name(NameError),
}

/// Mathematical model of [`ErrorKind`].
pub enum ErrorKindView {
    Svd(SVDErrorView),
    Build(BuildErrorView),
    Name(NameErrorView),
}

impl View for ErrorKind {
    type V = ErrorKindView;

    open spec fn view(&self) -> ErrorKindView {
        match self {
            ErrorKind::Svd(e) => ErrorKindView::Svd(e@),
            ErrorKind::Build(e) => ErrorKindView::Build(e@),
            ErrorKind::Name(e) => ErrorKindView::Name(e@),
        }
    }
}

/// One step of the location chain: the entity kind (for example `device`)
/// and the name of the entity instance the error crossed.
#[derive(Clone, Debug, PartialEq, Eq)]
pub struct Frame {
    pub entity: String,
    pub name: String,
}

/// Mathematical model of [`Frame`].
#[verifier::ext_equal]
pub struct FrameView {
    pub entity: Seq<char>,
    pub name: Seq<char>,
}

impl View for Frame {
    type V = FrameView;

    open spec fn view(&self) -> FrameView {
        FrameView { entity: self.entity@, name: self.name@ }
    }
}

impl DeepView for Frame {
    type V = FrameView;

    open spec fn deep_view(&self) -> FrameView {
        self.view()
    }
}

/// A hard error: a kind plus the chain of entities it crossed, innermost
/// first.
#[derive(Clone, Debug, PartialEq, Eq)]
pub struct Error {
    pub kind: ErrorKind,
    pub context: Vec<Frame>,
}

/// Mathematical model of [`Error`].
#[verifier::ext_equal]
pub struct ErrorView {
    pub kind: ErrorKindView,
    pub context: Seq<FrameView>,
}

impl View for Error {
    type V = ErrorView;

    open spec fn view(&self) -> ErrorView {
        ErrorView { kind: self.kind@, context: self.context.deep_view() }
    }
}

impl DeepView for Error {
    type V = ErrorView;

    open spec fn deep_view(&self) -> ErrorView {
        self.view()
    }
}

impl ErrorView {
    /// The model of [`Error::in_entity`]: the same kind with one more frame.
    pub open spec fn push_frame(self, entity: Seq<char>, name: Seq<char>) -> ErrorView {
        ErrorView { kind: self.kind, context: self.context.push(FrameView { entity, name }) }
    }
}

impl Error {
    /// A fresh hard error with an empty location chain.
    pub fn new(kind: ErrorKind) -> (r: Error)
        ensures
            r@.kind == kind@,
            r@.context =~= Seq::<FrameView>::empty(),
    {
        Error { kind, context: Vec::new() }
    }

    /// A fresh schema error with an empty location chain.
    pub fn svd(e: SVDError) -> (r: Error)
        ensures
            r@.kind == ErrorKindView::Svd(e@),
            r@.context =~= Seq::<FrameView>::empty(),
    {
        Error::new(ErrorKind::Svd(e))
    }

    /// A fresh builder error with an empty location chain.
    pub fn build(e: BuildError) -> (r: Error)
        ensures
            r@.kind == ErrorKindView::Build(e@),
            r@.context =~= Seq::<FrameView>::empty(),
    {
        Error::new(ErrorKind::Build(e))
    }

    /// A fresh naming error with an empty location chain.
    pub fn name(e: NameError) -> (r: Error)
        ensures
            r@.kind == ErrorKindView::Name(e@),
            r@.context =~= Seq::<FrameView>::empty(),
    {
        Error::new(ErrorKind::Name(e))
    }

    /// Record that the error crossed the named entity on its way up.
    pub fn in_entity(self, entity: &str, name: &str) -> (r: Error)
        ensures
            r@ =~= self@.push_frame(entity@, name@),
    {
        let mut context = self.context;
        context.push(Frame { entity: entity.to_owned(), name: name.to_owned() });
        Error { kind: self.kind, context }
    }
}

/// The non-fatal diagnostic channel: `Ok(())` means fully schema-conformant,
/// `Err(e)` records a deviation that did not prevent building the entity.
pub type Warning = Result<(), Error>;

/// Relates an executable warning to its model.
pub open spec fn warning_matches(w: Warning, wv: Result<(), ErrorView>) -> bool {
    match (w, wv) {
        (Ok(()), Ok(())) => true,
        (Err(e), Err(ev)) => e@ =~= ev,
        _ => false,
    }
}

/// The model of the uninitialized-field error builders raise.
pub open spec fn uninitialized_view(field: Seq<char>) -> ErrorView {
    ErrorView {
        kind: ErrorKindView::Build(BuildErrorView::Uninitialized(field)),
        context: Seq::empty(),
    }
}

/// The model of the wrong-tag error every entity parser raises.
pub open spec fn not_expected_tag_view(expected: Seq<char>, found: Seq<char>) -> ErrorView {
    ErrorView {
        kind: ErrorKindView::Svd(SVDErrorView::NotExpectedTag { expected, found }),
        context: Seq::empty(),
    }
}

/// Strict outcome from a lenient one: any warning becomes the hard error.
pub open spec fn spec_strict_of_unstrict<T>(s: Result<(T, Result<(), ErrorView>), ErrorView>)
    -> Result<T, ErrorView> {
    match s {
        Err(e) => Err(e),
        Ok((v, Ok(()))) => Ok(v),
        Ok((v, Err(w))) => Err(w),
    }
}

} // verus!

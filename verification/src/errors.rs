//! The errors of decoding and of reference resolution, together with the
//! ghost forms that the contracts speak of.

use vstd::prelude::*;

verus! {

/// One step of the breadcrumb from the document root to a node: a mapping
/// key or a sequence index.
#[derive(Debug, PartialEq, Eq)]
pub enum PathSeg {
    Key(String),
    Index(usize),
}

/// The ghost form of a path step.
pub enum PathSegV {
    Key(Seq<char>),
    Index(int),
}

impl View for PathSeg {
    type V = PathSegV;

    open spec fn view(&self) -> PathSegV {
        match self {
            PathSeg::Key(s) => PathSegV::Key(s@),
            PathSeg::Index(i) => PathSegV::Index(*i as int),
        }
    }
}

impl DeepView for PathSeg {
    type V = PathSegV;

    open spec fn deep_view(&self) -> PathSegV {
        self.view()
    }
}

impl Clone for PathSeg {
    fn clone(&self) -> (r: Self)
        ensures
            r == *self,
    {
        match self {
            PathSeg::Key(s) => PathSeg::Key(s.clone()),
            PathSeg::Index(i) => PathSeg::Index(*i),
        }
    }
}

/// Why a document failed to decode: a required key was absent from a
/// mapping, or a value's shape did not match the declared type of its
/// position. Decoding is all-or-nothing: the first such error aborts it.
#[derive(Debug, PartialEq, Eq)]
pub enum DecodeError {
    MissingField { entity: String, field: String },
    TypeMismatch { path: Vec<PathSeg>, expected: String, found: String },
}

/// The ghost form of a decode error.
pub enum DecodeErrV {
    MissingField { entity: Seq<char>, field: Seq<char> },
    TypeMismatch { path: Seq<PathSegV>, expected: Seq<char>, found: Seq<char> },
}

impl View for DecodeError {
    type V = DecodeErrV;

    open spec fn view(&self) -> DecodeErrV {
        match self {
            DecodeError::MissingField { entity, field } => DecodeErrV::MissingField {
                entity: entity@,
                field: field@,
            },
            DecodeError::TypeMismatch { path, expected, found } => DecodeErrV::TypeMismatch {
                path: path.deep_view(),
                expected: expected@,
                found: found@,
            },
        }
    }
}

/// Why reference resolution failed: a pointer outside the three supported
/// registries, a pointer whose key is absent from its registry, or a chain
/// of references that revisits a pointer already being resolved.
#[derive(Debug, PartialEq, Eq)]
pub enum ResolutionError {
    UnsupportedReference { pointer: String },
    DanglingReference { pointer: String, location: Vec<PathSeg> },
    CyclicReference { chain: Vec<String> },
}

/// The ghost form of a resolution error.
pub enum ResolutionErrV {
    UnsupportedReference { pointer: Seq<char> },
    DanglingReference { pointer: Seq<char>, location: Seq<PathSegV> },
    CyclicReference { chain: Seq<Seq<char>> },
}

impl View for ResolutionError {
    type V = ResolutionErrV;

    open spec fn view(&self) -> ResolutionErrV {
        match self {
            ResolutionError::UnsupportedReference { pointer } =>
                ResolutionErrV::UnsupportedReference { pointer: pointer@ },
            ResolutionError::DanglingReference { pointer, location } =>
                ResolutionErrV::DanglingReference {
                    pointer: pointer@,
                    location: location.deep_view(),
                },
            ResolutionError::CyclicReference { chain } => ResolutionErrV::CyclicReference {
                chain: chain.deep_view(),
            },
        }
    }
}

/// Copies a breadcrumb, so that an error can carry it while callers keep
/// theirs.
pub fn copy_path(p: &Vec<PathSeg>) -> (r: Vec<PathSeg>)
    ensures
        r.deep_view() == p.deep_view(),
        r@.len() == p@.len(),
{
    let mut out: Vec<PathSeg> = Vec::new();
    let mut i: usize = 0;
    while i < p.len()
        invariant
            i <= p@.len(),
            out@.len() == i,
            forall|j: int| 0 <= j < i ==> out@[j]@ == p@[j]@,
        decreases p@.len() - i,
    {
        out.push(p[i].clone());
        i += 1;
    }
    proof {
        assert(out.deep_view() =~= p.deep_view());
    }
    out
}

/// Copies a breadcrumb and appends a mapping key to it.
pub fn path_with_key(p: &Vec<PathSeg>, key: &str) -> (r: Vec<PathSeg>)
    ensures
        r.deep_view() == p.deep_view().push(PathSegV::Key(key@)),
{
    let mut out = copy_path(p);
    out.push(PathSeg::Key(String::from_str(key)));
    proof {
        assert(out.deep_view() =~= p.deep_view().push(PathSegV::Key(key@)));
    }
    out
}

/// Copies a breadcrumb and appends a sequence index to it.
pub fn path_with_index(p: &Vec<PathSeg>, i: usize) -> (r: Vec<PathSeg>)
    ensures
        r.deep_view() == p.deep_view().push(PathSegV::Index(i as int)),
{
    let mut out = copy_path(p);
    out.push(PathSeg::Index(i));
    proof {
        assert(out.deep_view() =~= p.deep_view().push(PathSegV::Index(i as int)));
    }
    out
}

} // verus!
